use perforce_cli::cmd::admin::SpecifiedType;
use perforce_cli::cmd::{AdminEntry, SubCommand};
use perforce_cli::command::CommandLine;
use perforce_cli::global::GlobalOpts;

fn args_of(command: &CommandLine) -> Vec<String> {
    command.get_args().to_vec()
}


/// Dry-run checks of the assembled `p4 admin ...` command lines; no
/// process is spawned.
#[test]
fn stop() {
    let admin = AdminEntry::new("p4", GlobalOpts::new()).stop();

    assert_eq!(args_of(&admin.setup_command("p4")), ["admin", "stop"]);
}

#[test]
fn restart() {
    let admin = AdminEntry::new("p4", GlobalOpts::new()).restart();

    assert_eq!(args_of(&admin.setup_command("p4")), ["admin", "restart"]);
}

#[test]
fn setldapusers() {
    let admin = AdminEntry::new("p4", GlobalOpts::new()).setldapusers();

    assert_eq!(
        args_of(&admin.setup_command("p4")),
        ["admin", "setldapusers"]
    );
}

#[test]
fn end_journal() {
    let admin = AdminEntry::new("p4", GlobalOpts::new()).end_journal();

    assert_eq!(
        args_of(&admin.setup_command("p4")),
        ["admin", "end-journal"]
    );
}

#[test]
fn sysinfo() {
    let admin = AdminEntry::new("p4", GlobalOpts::new()).sysinfo();

    assert_eq!(args_of(&admin.setup_command("p4")), ["admin", "sysinfo"]);
}

#[test]
fn resource_monitor() {
    let admin = AdminEntry::new("p4", GlobalOpts::new()).resource_monitor();

    assert_eq!(
        args_of(&admin.setup_command("p4")),
        ["admin", "resource-monitor"]
    );
}

#[test]
fn checkpoint_compress_both() {
    let admin = AdminEntry::new("p4", GlobalOpts::new())
        .checkpoint()
        .compress_both();

    assert_eq!(
        args_of(&admin.setup_command("p4")),
        ["admin", "checkpoint", "-z"]
    );
}

#[test]
fn checkpoint_compress_checkpoint_only() {
    let admin = AdminEntry::new("p4", GlobalOpts::new())
        .checkpoint()
        .compress_checkpoint_only();

    assert_eq!(
        args_of(&admin.setup_command("p4")),
        ["admin", "checkpoint", "-Z"]
    );
}

#[test]
fn checkpoint_with_prefix() {
    let admin = AdminEntry::new("p4", GlobalOpts::new())
        .checkpoint()
        .compress_both();

    // Mirrors `spawn_with`/`output_with`, which append the prefix after
    // the assembled command.
    let mut command = admin.setup_command("p4");
    command.arg("ckp");

    assert_eq!(args_of(&command), ["admin", "checkpoint", "-z", "ckp"]);
}

#[test]
fn checkpoint_parallel_options() {
    let mut admin = AdminEntry::new("p4", GlobalOpts::new()).checkpoint();
    admin
        .set_parallel(true)
        .set_threads(4)
        .set_multiple_files(true);

    assert_eq!(
        args_of(&admin.setup_command("p4")),
        ["admin", "checkpoint", "-p", "-N", "4", "-m"]
    );
}

#[test]
fn journal_gzip() {
    let mut admin = AdminEntry::new("p4", GlobalOpts::new()).journal();
    admin.set_gzip(true);

    assert_eq!(
        args_of(&admin.setup_command("p4")),
        ["admin", "journal", "-z"]
    );
}

#[test]
fn updatespecdepot_all() {
    let admin = AdminEntry::new("p4", GlobalOpts::new())
        .updatespecdepot()
        .all();

    assert_eq!(
        args_of(&admin.setup_command("p4")),
        ["admin", "updatespecdepot", "-a"]
    );
}

/// The `-s type` variant is covered here because `SpecifiedType` is not
/// exported outside the crate.
#[test]
fn updatespecdepot_specified_type() {
    let admin = AdminEntry::new("p4", GlobalOpts::new())
        .updatespecdepot()
        .specified_type(SpecifiedType::Client);

    assert_eq!(
        args_of(&admin.setup_command("p4")),
        ["admin", "updatespecdepot", "-s", "client"]
    );
}

#[test]
fn resetpassword_all() {
    let admin = AdminEntry::new("p4", GlobalOpts::new())
        .resetpassword()
        .all();

    assert_eq!(
        args_of(&admin.setup_command("p4")),
        ["admin", "resetpassword", "-a"]
    );
}

#[test]
fn resetpassword_single_user() {
    let admin = AdminEntry::new("p4", GlobalOpts::new())
        .resetpassword()
        .user("bruno");

    assert_eq!(
        args_of(&admin.setup_command("p4")),
        ["admin", "resetpassword", "-u", "bruno"]
    );
}

#[test]
fn resetpassword_super_user() {
    let admin = AdminEntry::new("p4", GlobalOpts::new())
        .resetpassword()
        .super_user(true);

    assert_eq!(
        args_of(&admin.setup_command("p4")),
        ["admin", "resetpassword", "-l"]
    );
}

#[test]
fn replica_filter_reconcile_restrict_only() {
    let admin = AdminEntry::new("p4", GlobalOpts::new())
        .replica_filter_reconcile()
        .restrict_only();

    assert_eq!(
        args_of(&admin.setup_command("p4")),
        ["admin", "replica-filter-reconcile", "--restrict-only"]
    );
}

#[test]
fn replica_filter_reconcile_expand_only() {
    let admin = AdminEntry::new("p4", GlobalOpts::new())
        .replica_filter_reconcile()
        .expand_only();

    assert_eq!(
        args_of(&admin.setup_command("p4")),
        ["admin", "replica-filter-reconcile", "--expand-only"]
    );
}

#[test]
fn global_opts_are_injected_once() {
    let global_opts = GlobalOpts::new().port("localhost:1666");
    let admin = AdminEntry::new("p4", global_opts).checkpoint();

    // The inner subcommand must not inject the global options a second
    // time.
    assert_eq!(
        args_of(&admin.setup_command("p4")),
        ["-p", "localhost:1666", "admin", "checkpoint"]
    );
}
