use perforce_cli::cmd::{Archive, SubCommand};
use perforce_cli::command::CommandLine;
use perforce_cli::global::GlobalOpts;

fn args_of(command: &CommandLine) -> Vec<String> {
    command.get_args().to_vec()
}

/// Dry-run checks of the assembled `p4 archive` command line; no process
/// is spawned.
#[test]
fn archive_without_options() {
    let archive = Archive::new("p4", GlobalOpts::new());

    assert_eq!(args_of(&archive.setup_command("p4")), ["archive"]);
}

#[test]
fn all_safe_archive_options() {
    let mut archive = Archive::new("p4", GlobalOpts::new());
    archive
        .set_skip_head_revisions(true)
        .set_preview(true)
        .set_quiet_mode(true)
        .set_archive_delta(true)
        .set_depot("archives");
    archive.set_include_lazy_copies(true);

    let mut expected = vec!["archive", "-h"];
    expected.push("-z");
    expected.extend(["-n", "-q", "-t", "-D", "archives"]);

    assert_eq!(args_of(&archive.setup_command("p4")), expected);
}

#[test]
fn physical_purge_mode() {
    let mut archive = Archive::new("p4", GlobalOpts::new());
    archive
        .set_preview(true)
        .set_quiet_mode(true)
        .set_archive_delta(true)
        .set_depot("archives");

    let archive = archive.purge_physical_files();

    assert_eq!(
        args_of(&archive.setup_command("p4")),
        ["archive", "-p", "-n", "-q", "-t", "-D", "archives"]
    );
}

/// `-h` and `-z` are not available in the physical purge mode; values set
/// before the transition must not leak into the command line.
#[test]
fn archive_selection_flags_not_injected_after_purge() {
    let mut archive = Archive::new("p4", GlobalOpts::new());
    archive.set_skip_head_revisions(true);
    archive.set_include_lazy_copies(true);

    let archive = archive.purge_physical_files();

    assert_eq!(args_of(&archive.setup_command("p4")), ["archive", "-p"]);
}

#[test]
fn lazy_copies_flag() {
    let archive = Archive::new("p4", GlobalOpts::new())
        .depot("archives")
        .include_lazy_copies(true);

    assert!(archive.get_include_lazy_copies());
    assert_eq!(
        args_of(&archive.setup_command("p4")),
        ["archive", "-z", "-D", "archives"]
    );
}

#[test]
fn builder_style_with_str_and_global_opts() {
    let archive = Archive::new("p4", GlobalOpts::new().port("localhost:1666"))
        .depot("archives")
        .preview(true);

    assert_eq!(archive.get_depot(), Some(&"archives".to_string()));
    assert_eq!(
        args_of(&archive.setup_command("p4")),
        ["-p", "localhost:1666", "archive", "-n", "-D", "archives"]
    );
}
