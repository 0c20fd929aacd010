use perforce_cli::cmd::{Add, SubCommand};
use perforce_cli::command::CommandLine;
use perforce_cli::global::GlobalOpts;

fn args_of(command: &CommandLine) -> Vec<String> {
    command.get_args().to_vec()
}

/// Dry-run check of the assembled `p4 add` command line; no process is
/// spawned.
#[test]
fn add_without_options() {
    let add = Add::new("p4", GlobalOpts::new());

    let command = add.setup_command("p4");

    assert_eq!(command.get_program(), "p4");
    assert_eq!(args_of(&command), ["add"]);
}

#[test]
fn all_local_options() {
    let mut add = Add::new("p4", GlobalOpts::new());
    add.set_change_list("42")
        .set_downgrade(true)
        .set_force_literal_filenames(true)
        .set_skip_ignore(true)
        .set_preview(true)
        .set_filetype("text");

    assert_eq!(
        args_of(&add.setup_command("p4")),
        ["add", "-c", "42", "-d", "-f", "-I", "-n", "-t", "text"]
    );
}

#[test]
fn add_command_line_uses_stored_bin() {
    let add = Add::new("/opt/p4", GlobalOpts::new().client("ws")).preview(true);

    let line = add.command_line();
    assert_eq!(line.get_program(), "/opt/p4");
    assert_eq!(args_of(&line), ["-c", "ws", "add", "-n"]);
    assert_eq!(add.get_change_list(), None);
    assert!(add.get_preview());
}
