use perforce_cli::cmd::{SubCommand, Where};
use perforce_cli::command::CommandLine;
use perforce_cli::global::GlobalOpts;

fn args_of(command: &CommandLine) -> Vec<String> {
    command.get_args().to_vec()
}

/// Dry-run check of the assembled `p4 where` command line; no process is
/// spawned.
#[test]
fn where_without_options() {
    let where_ = Where::new("p4", GlobalOpts::new());

    assert_eq!(args_of(&where_.setup_command("p4")), ["where"]);
}

#[test]
fn where_with_global_opts() {
    let where_ = Where::new(
        "p4",
        GlobalOpts::new().port("localhost:1666").quiet_mode(true),
    );

    assert_eq!(
        args_of(&where_.setup_command("p4")),
        ["-p", "localhost:1666", "-q", "where"]
    );
}

#[test]
fn where_with_files() {
    let where_ = Where::new("p4", GlobalOpts::new());

    assert_eq!(
        args_of(where_.setup_command("p4").args(&["file.c"])),
        ["where", "file.c"]
    );
}
