use perforce_cli::cmd::diff::DisplayOptions;
use perforce_cli::cmd::DiffOptionsBuilder;
use perforce_cli::cmd::{Diff, SubCommand};
use perforce_cli::command::CommandLine;
use perforce_cli::global::GlobalOpts;

fn args_of(command: &CommandLine) -> Vec<String> {
    command.get_args().to_vec()
}


/// Dry-run checks of the assembled `p4 diff` command line; no process is
/// spawned.
#[test]
fn diff_without_options() {
    let diff = Diff::new("p4", GlobalOpts::new());

    assert_eq!(args_of(&diff.setup_command("p4")), ["diff"]);
}

#[test]
fn workspace_mode_via_force() {
    let diff = Diff::new("p4", GlobalOpts::new()).force(true);

    assert!(diff.get_force());
    assert_eq!(args_of(&diff.setup_command("p4")), ["diff", "-f"]);
}

#[test]
fn workspace_mode_via_differing_only() {
    let diff = Diff::new("p4", GlobalOpts::new()).differing_only(true);

    assert_eq!(args_of(&diff.setup_command("p4")), ["diff", "-Od"]);
}

#[test]
fn workspace_mode_via_diff_nontext() {
    let diff = Diff::new("p4", GlobalOpts::new()).diff_nontext(true);

    assert_eq!(args_of(&diff.setup_command("p4")), ["diff", "-t"]);
}

#[test]
fn workspace_mode_combines_options() {
    let mut diff = Diff::new("p4", GlobalOpts::new()).diff_nontext(true);
    diff.set_force(true).set_differing_only(true);

    assert_eq!(
        args_of(&diff.setup_command("p4")),
        ["diff", "-f", "-t", "-Od"]
    );
}

#[test]
fn workspace_mode_preserves_diff_options() {
    let mut diff = Diff::new("p4", GlobalOpts::new())
        .diff_options(DiffOptionsBuilder::unified(None).into())
        .force(true);
    diff.set_diff_options(DiffOptionsBuilder::summary().into());

    assert_eq!(args_of(&diff.setup_command("p4")), ["diff", "-ds", "-f"]);
}

#[test]
fn display_mode_injects_filter() {
    let diff = Diff::new("p4", GlobalOpts::new())
        .force(true)
        .display_options(DisplayOptions::UnopenedChanged);

    assert_eq!(diff.get_display_options(), &DisplayOptions::UnopenedChanged);
    assert_eq!(args_of(&diff.setup_command("p4")), ["diff", "-f", "-se"]);
}

#[test]
fn display_mode_flag_mapping() {
    assert_eq!(DisplayOptions::OpenedChangedOrMissing.as_str(), "-sa");
    assert_eq!(DisplayOptions::ResolvedThenModified.as_str(), "-sb");
    assert_eq!(DisplayOptions::UnopenedMissing.as_str(), "-sd");
    assert_eq!(DisplayOptions::UnopenedChanged.as_str(), "-se");
    assert_eq!(DisplayOptions::ListWithStatus.as_str(), "-sl");
    assert_eq!(DisplayOptions::OpenedIdentical.as_str(), "-sr");
}

#[test]
fn regular_mode_injects_limit() {
    let diff = Diff::new("p4", GlobalOpts::new()).force(false).limit(10);

    assert_eq!(diff.get_limit(), 10);
    assert_eq!(args_of(&diff.setup_command("p4")), ["diff", "-m", "10"]);
}

#[test]
fn diff_stream_spec_mode_bare() {
    let diff = Diff::new("p4", GlobalOpts::new()).stream_spec_mode();

    assert_eq!(args_of(&diff.setup_command("p4")), ["diff", "-As"]);
}

#[test]
fn stream_spec_mode_with_spec() {
    let diff = Diff::new("p4", GlobalOpts::new()).stream_spec_mode();

    // Mirrors `spawn_with`, which appends the stream spec after the
    // assembled command.
    let mut command = diff.setup_command("p4");
    command.arg("myStream@head");

    assert_eq!(args_of(&command), ["diff", "-As", "myStream@head"]);
}

#[test]
fn stream_spec_mode_preserves_diff_options() {
    let diff = Diff::new("p4", GlobalOpts::new())
        .diff_options(DiffOptionsBuilder::unified(None).into())
        .stream_spec_mode();

    // Mirrors `spawn_with`, which appends the stream spec after the
    // assembled command.
    let mut command = diff.setup_command("p4");
    command.arg("myStream");

    assert_eq!(args_of(&command), ["diff", "-du", "-As", "myStream"]);
}
