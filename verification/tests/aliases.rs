use perforce_cli::cmd::{Aliases, SubCommand};
use perforce_cli::command::CommandLine;
use perforce_cli::global::GlobalOpts;

fn args_of(command: &CommandLine) -> Vec<String> {
    command.get_args().to_vec()
}

/// Dry-run check of the assembled `p4 aliases` command line; no process is
/// spawned.
#[test]
fn aliases_without_options() {
    let aliases = Aliases::new("p4", GlobalOpts::new());

    assert_eq!(args_of(&aliases.setup_command("p4")), ["aliases"]);
}

#[test]
fn aliases_with_global_opts() {
    let aliases = Aliases::new(
        "p4",
        GlobalOpts::new().port("localhost:1666").quiet_mode(true),
    );

    assert_eq!(
        args_of(&aliases.setup_command("p4")),
        ["-p", "localhost:1666", "-q", "aliases"]
    );
}
