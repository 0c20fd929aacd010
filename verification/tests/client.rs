use std::path::Path;

use perforce_cli::cmd::SubCommand;
use perforce_cli::global::GlobalOpts;
use perforce_cli::P4Cli;

fn args_of(command: &perforce_cli::command::CommandLine) -> Vec<String> {
    command.get_args().to_vec()
}

#[test]
fn default_uses_p4_from_path() {
    let p4 = P4Cli::default();

    assert_eq!(Path::new(p4.get_bin()), Path::new("p4"));
}

#[test]
fn accepts_custom_bin_path() {
    let p4 = P4Cli::new("C:\\tools\\p4.exe", GlobalOpts::default());

    assert_eq!(Path::new(p4.get_bin()), Path::new("C:\\tools\\p4.exe"));
}

#[test]
fn client_passes_bin_and_global_opts_to_commands() {
    let p4 = P4Cli::new("/usr/bin/p4", GlobalOpts::new().port("ssl:perforce:1666"));

    let add = p4.add();
    let line = add.command_line();
    assert_eq!(line.get_program(), "/usr/bin/p4");
    assert_eq!(args_of(&line), ["-p", "ssl:perforce:1666", "add"]);

    let changes = p4.changelists();
    assert_eq!(
        args_of(&changes.setup_command("p4")),
        ["-p", "ssl:perforce:1666", "changes"]
    );
}

#[test]
fn client_builders_and_setters_agree() {
    let built = P4Cli::default().bin("p4d").global_opts(GlobalOpts::new().user("alice"));
    let mut set = P4Cli::default();
    set.set_bin("p4d");
    set.set_global_opts(GlobalOpts::new().user("alice"));

    assert_eq!(built.get_bin(), set.get_bin());
    assert_eq!(
        args_of(&built.filelog().setup_command("p4")),
        args_of(&set.filelog().setup_command("p4"))
    );
    assert_eq!(args_of(&set.edit().setup_command("p4")), ["-u", "alice", "edit"]);
    assert_eq!(set.get_global_opts().get_user(), Some(&"alice".to_string()));
}

#[test]
fn client_makes_every_command_fresh() {
    let p4 = P4Cli::default();

    assert_eq!(args_of(&p4.aliases().setup_command("p4")), ["aliases"]);
    assert_eq!(args_of(&p4.annotate().setup_command("p4")), ["annotate"]);
    assert_eq!(args_of(&p4.archive().setup_command("p4")), ["archive"]);
    assert_eq!(args_of(&p4.attribute().setup_command("p4")), ["attribute"]);
    assert_eq!(args_of(&p4.changes().setup_command("p4")), ["changes"]);
    assert_eq!(
        args_of(&p4.admin().stop().setup_command("p4")),
        ["admin", "stop"]
    );
    assert_eq!(args_of(&p4.diff().setup_command("p4")), ["diff"]);
    assert_eq!(args_of(&p4.print().setup_command("p4")), ["print"]);
    assert_eq!(args_of(&p4.sync().setup_command("p4")), ["sync"]);
}

#[test]
fn client_chains_documented_builders() {
    let p4 = P4Cli::default();

    let print = p4
        .print()
        .all_revisions(true)
        .quiet_mode(true)
        .limit(2)
        .redirect_output("print-output.txt");
    assert_eq!(
        args_of(&print.setup_command("p4")),
        ["print", "-a", "-o", "print-output.txt", "-q", "-m", "2"]
    );

    let force_sync = p4.sync().force(true).quiet_mode(true);
    assert_eq!(args_of(&force_sync.setup_command("p4")), ["sync", "-q", "-f"]);
}
