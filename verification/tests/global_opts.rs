use perforce_cli::global::GlobalOpts;

/// Every global option is injected exactly once in the order documented in
/// `GlobalOpts::setup_args`.
#[test]
fn options_are_injected_in_documented_order() {
    let mut global_opts = GlobalOpts::new();
    global_opts
        .set_batch_size(256)
        .set_client("ws")
        .set_dir("C:\\tmp")
        .set_progress_indicators(true)
        .set_marshalled_formatted(true)
        .set_host("helix.example")
        .set_port("localhost:1666")
        .set_pass("secret")
        .set_retries(1)
        .set_prepend_descriptive(true)
        .set_user("bruno")
        .set_argfile("args.txt")
        .set_charset("utf8")
        .set_command_charset("utf8")
        .set_language("en")
        .set_tagged_format(true)
        .set_quiet_mode(true)
        .set_display_version(true)
        .set_display_help(true);
    global_opts.set_standard_in(true).set_standard_out(true);
    global_opts.set_json_formatted(true);
    global_opts.set_debug_variable("net.autotune=0");

    let mut expected: Vec<&str> = vec!["-b", "256", "-c", "ws", "-d", "C:\\tmp", "-I"];
    expected.push("-i");
    expected.push("-G");
    expected.push("-Mj");
    expected.extend(["-H", "helix.example"]);
    expected.push("-o");
    expected.extend([
        "-p",
        "localhost:1666",
        "-P",
        "secret",
        "-r",
        "1",
        "-s",
        "-u",
        "bruno",
        "-x",
        "args.txt",
        "-C",
        "utf8",
        "-Q",
        "utf8",
        "-L",
        "en",
        "-z",
        "tag",
        "-q",
    ]);
    expected.extend(["-v", "net.autotune=0"]);
    expected.extend(["-V", "-h"]);

    let mut args: Vec<String> = Vec::new();
    global_opts.setup_args(&mut args);

    assert_eq!(args, expected);
}

#[test]
fn empty_global_opts_emit_nothing() {
    let mut args: Vec<String> = vec!["keep".to_string()];
    GlobalOpts::default().setup_args(&mut args);
    assert_eq!(args, ["keep"]);
}

#[test]
fn debug_variables_repeat_in_order_and_numbers_are_decimal() {
    let mut global_opts = GlobalOpts::new().batch_size(0).retries(4294967295);
    global_opts.set_debug_variable("a=1").set_debug_variable("b=2");
    let mut args: Vec<String> = Vec::new();
    global_opts.setup_args(&mut args);
    assert_eq!(args, ["-b", "0", "-r", "4294967295", "-v", "a=1", "-v", "b=2"]);
}

#[test]
fn cloned_global_opts_emit_the_same_arguments() {
    let global_opts = GlobalOpts::new().user("bruno").tagged_format(true).dir("/w");
    let copy = global_opts.clone();
    let mut a: Vec<String> = Vec::new();
    let mut b: Vec<String> = Vec::new();
    global_opts.setup_args(&mut a);
    copy.setup_args(&mut b);
    assert_eq!(a, b);
    assert_eq!(a, ["-d", "/w", "-u", "bruno", "-z", "tag"]);
}

#[test]
fn setup_args_hands_back_the_list_for_chaining() {
    let mut args: Vec<String> = vec!["p4".to_string()];
    GlobalOpts::new().client("ws").setup_args(&mut args).push("info".to_string());
    assert_eq!(args, ["p4", "-c", "ws", "info"]);
}
