use perforce_cli::cmd::DiffOptionsBuilder;
use perforce_cli::cmd::{Diff2, SubCommand};
use perforce_cli::command::CommandLine;
use perforce_cli::global::GlobalOpts;

fn args_of(command: &CommandLine) -> Vec<String> {
    command.get_args().to_vec()
}


/// Dry-run checks of the assembled `p4 diff2` command line; no process
/// is spawned.
#[test]
fn diff2_without_options() {
    let diff2 = Diff2::new("p4", GlobalOpts::new());

    assert_eq!(args_of(&diff2.setup_command("p4")), ["diff2"]);
}

#[test]
fn depot_content_flags_are_injected() {
    let diff2 = Diff2::new("p4", GlobalOpts::new())
        .differing_only(true)
        .quiet_mode(true)
        .diff_nontext(true)
        .unified_patch(true);

    assert_eq!(
        args_of(&diff2.setup_command("p4")),
        ["diff2", "-Od", "-q", "-t", "-u"]
    );
}

#[test]
fn depot_content_flags_apply_to_branch_mode() {
    let diff2 = Diff2::new("p4", GlobalOpts::new())
        .quiet_mode(true)
        .branch("branch2");

    assert!(diff2.get_quiet_mode());
    assert_eq!(
        args_of(&diff2.setup_command("p4")),
        ["diff2", "-q", "-b", "branch2"]
    );
}

#[test]
fn depot_content_flags_apply_after_branch_transition() {
    let diff2 = Diff2::new("p4", GlobalOpts::new())
        .branch("branch2")
        .quiet_mode(true);

    assert!(diff2.get_quiet_mode());
    assert_eq!(
        args_of(&diff2.setup_command("p4")),
        ["diff2", "-q", "-b", "branch2"]
    );
}

#[test]
fn diff_options_are_injected() {
    let mut diff2 =
        Diff2::new("p4", GlobalOpts::new()).diff_options(DiffOptionsBuilder::unified(None).into());
    diff2.set_diff_options(DiffOptionsBuilder::summary().into());

    assert_eq!(args_of(&diff2.setup_command("p4")), ["diff2", "-ds"]);
}

#[test]
fn branch_mode_injects_branch() {
    let diff2 = Diff2::new("p4", GlobalOpts::new()).branch("branch2");

    assert_eq!(diff2.get_branch(), "branch2");
    assert_eq!(
        args_of(&diff2.setup_command("p4")),
        ["diff2", "-b", "branch2"]
    );
}

#[test]
fn branch_mode_with_files() {
    let diff2 = Diff2::new("p4", GlobalOpts::new()).branch("branch2");

    // Mirrors `spawn_with`, which appends the file arguments after the
    // assembled command.
    let mut command = diff2.setup_command("p4");
    command.arg("//depot/rel1/...");
    command.arg("//depot/rel2/...#4");

    assert_eq!(
        args_of(&command),
        [
            "diff2",
            "-b",
            "branch2",
            "//depot/rel1/...",
            "//depot/rel2/...#4"
        ]
    );
}

#[test]
fn branch_mode_with_tofile() {
    let diff2 = Diff2::new("p4", GlobalOpts::new()).branch("branch2");

    // Mirrors `spawn_with` for the single-file input, which appends the
    // target file after the assembled command.
    let mut command = diff2.setup_command("p4");
    command.arg("//depot/rel2/...#4");

    assert_eq!(
        args_of(&command),
        ["diff2", "-b", "branch2", "//depot/rel2/...#4"]
    );
}

#[test]
fn stream_mode_injects_stream() {
    let diff2 = Diff2::new("p4", GlobalOpts::new()).stream("myStream");

    assert_eq!(diff2.get_stream(), "myStream");
    assert_eq!(
        args_of(&diff2.setup_command("p4")),
        ["diff2", "-S", "myStream"]
    );
}

#[test]
fn stream_mode_with_parent() {
    let mut diff2 = Diff2::new("p4", GlobalOpts::new()).stream("myStream");
    diff2.set_parent("mainStream");

    assert_eq!(diff2.get_parent(), Some("mainStream"));
    assert_eq!(
        args_of(&diff2.setup_command("p4")),
        ["diff2", "-S", "myStream", "-P", "mainStream"]
    );
}

#[test]
fn stream_mode_with_tofile() {
    let diff2 = Diff2::new("p4", GlobalOpts::new()).stream("myStream");

    // Mirrors `spawn_with` for the single-file input, which appends the
    // target file after the assembled command.
    let mut command = diff2.setup_command("p4");
    command.arg("//depot/rel2/...#4");

    assert_eq!(
        args_of(&command),
        ["diff2", "-S", "myStream", "//depot/rel2/...#4"]
    );
}

#[test]
fn stream_mode_preserves_diff_options() {
    let diff2 = Diff2::new("p4", GlobalOpts::new())
        .diff_options(DiffOptionsBuilder::summary().into())
        .stream("myStream");

    assert_eq!(
        args_of(&diff2.setup_command("p4")),
        ["diff2", "-ds", "-S", "myStream"]
    );
}

#[test]
fn diff2_stream_spec_mode_bare() {
    let diff2 = Diff2::new("p4", GlobalOpts::new()).stream_spec_mode();

    assert_eq!(args_of(&diff2.setup_command("p4")), ["diff2", "-As"]);
}

#[test]
fn stream_spec_mode_with_specs() {
    let diff2 = Diff2::new("p4", GlobalOpts::new()).stream_spec_mode();

    // Mirrors `spawn_with`, which appends the two stream specs after
    // the assembled command.
    let mut command = diff2.setup_command("p4");
    command.arg("myStream@=1");
    command.arg("yourStream@2");

    assert_eq!(
        args_of(&command),
        ["diff2", "-As", "myStream@=1", "yourStream@2"]
    );
}
