use perforce_cli::cmd::print::{LineEnding, Utf8Bom};
use perforce_cli::cmd::{Print, SubCommand};
use perforce_cli::command::CommandLine;
use perforce_cli::global::GlobalOpts;

fn args_of(command: &CommandLine) -> Vec<String> {
    command.get_args().to_vec()
}


/// Dry-run checks of the assembled `p4 print` command line; no process is
/// spawned.
#[test]
fn print_without_options() {
    let print = Print::new("p4", GlobalOpts::new());

    assert_eq!(args_of(&print.setup_command("p4")), ["print"]);
}

#[test]
fn standard_mode_all_options() {
    let print = Print::new("p4", GlobalOpts::new())
        .all_revisions(true)
        .archive_depots(true)
        .suppress_keyword_expansion(true)
        .redirect_output("out.bin")
        .quiet_mode(true)
        .limit(5);
    let print = print.offset(100).size(200);
    let print = print.charset("utf8").write_utf8bom(true).line_ending_unix();
    let print = print.ignore_changeview(true);

    let mut expected = vec!["print", "-a", "-A"];
    expected.push("-K");
    expected.extend(["-o", "out.bin", "-q", "-m", "5"]);
    expected.extend(["--offset", "100", "--size", "200"]);
    expected.extend(["-Q", "utf8", "-B", "1", "-L", "unix"]);
    expected.push("--ignore-changeview");

    assert_eq!(args_of(&print.setup_command("p4")), expected);
}

#[test]
fn standard_mode_set_style() {
    let mut print = Print::new("p4", GlobalOpts::new()).limit(5);
    print.set_all_revisions(true).set_quiet_mode(true);
    print.set_offset(100).set_size(200);

    let expected = {
        let mut v = vec!["print", "-a", "-q", "-m", "5"];
        v.extend(["--offset", "100", "--size", "200"]);
        v
    };

    assert_eq!(args_of(&print.setup_command("p4")), expected);
}

#[test]
fn unload_depot_mode() {
    let print = Print::new("p4", GlobalOpts::new()).from_unload_depot();

    assert_eq!(args_of(&print.setup_command("p4")), ["print", "-U"]);
}

#[test]
fn line_ending_is_passed_as_separate_args() {
    let print = Print::new("p4", GlobalOpts::new()).line_ending_win();

    assert_eq!(print.get_line_ending(), Some(LineEnding::Win));
    assert_eq!(args_of(&print.setup_command("p4")), ["print", "-L", "win"]);
}

#[test]
fn write_utf8bom_bool() {
    let yes = Print::new("p4", GlobalOpts::new()).write_utf8bom(true);
    assert_eq!(yes.get_utf8bom(), Some(Utf8Bom::Yes));
    assert_eq!(args_of(&yes.setup_command("p4")), ["print", "-B", "1"]);

    let no = Print::new("p4", GlobalOpts::new()).write_utf8bom(false);
    assert_eq!(no.get_utf8bom(), Some(Utf8Bom::No));
    assert_eq!(args_of(&no.setup_command("p4")), ["print", "-B", "0"]);
}

#[test]
fn write_utf8bom_windows_only() {
    let print = Print::new("p4", GlobalOpts::new()).write_utf8bom_windows_only();

    assert_eq!(print.get_utf8bom(), Some(Utf8Bom::WindowsOnly));
    assert_eq!(args_of(&print.setup_command("p4")), ["print", "-B", "2"]);
}

#[test]
fn utf8bom_set_style_can_replace() {
    let mut print = Print::new("p4", GlobalOpts::new()).write_utf8bom(true);
    print.set_write_utf8bom(false);
    assert_eq!(print.get_utf8bom(), Some(Utf8Bom::No));

    print.set_write_utf8bom_windows_only();
    assert_eq!(print.get_utf8bom(), Some(Utf8Bom::WindowsOnly));
    assert_eq!(args_of(&print.setup_command("p4")), ["print", "-B", "2"]);
}

#[test]
fn attribute_trait_mode() {
    let print = Print::new("p4", GlobalOpts::new()).extract_attribute("desc");

    assert_eq!(print.get_attribute(), "desc");
    assert_eq!(args_of(&print.setup_command("p4")), ["print", "-T", "desc"]);
}

#[test]
fn attribute_trait_mode_with_allowed_options() {
    let print = Print::new("p4", GlobalOpts::new())
        .extract_attribute("desc")
        .all_revisions(true)
        .quiet_mode(true)
        .redirect_output("out.bin");
    let print = print.ignore_changeview(true);

    let mut expected = vec!["print", "-T", "desc", "-a", "-o", "out.bin", "-q"];
    expected.push("--ignore-changeview");

    assert_eq!(args_of(&print.setup_command("p4")), expected);
}

#[test]
fn attribute_name_can_be_replaced() {
    let mut print = Print::new("p4", GlobalOpts::new()).extract_attribute("old");
    print.set_attribute("new");

    assert_eq!(print.get_attribute(), "new");
    assert_eq!(args_of(&print.setup_command("p4")), ["print", "-T", "new"]);
}

#[test]
fn ignore_changeview_standard_mode() {
    let print = Print::new("p4", GlobalOpts::new()).ignore_changeview(true);

    assert!(print.get_ignore_changeview());
    assert_eq!(
        args_of(&print.setup_command("p4")),
        ["print", "--ignore-changeview"]
    );
}
