use perforce_cli::cmd::{Describe, DiffOptions, DiffOptionsBuilder, SubCommand};
use perforce_cli::command::CommandLine;
use perforce_cli::global::GlobalOpts;

fn args_of(command: &CommandLine) -> Vec<String> {
    command.get_args().to_vec()
}

/// Dry-run checks of the assembled `p4 describe` command line; no process
/// is spawned.
#[test]
fn describe_without_options() {
    let describe = Describe::new("p4", GlobalOpts::new());

    assert_eq!(args_of(&describe.setup_command("p4")), ["describe"]);
}

#[test]
fn unselected_with_generic_options() {
    let mut describe = Describe::new("p4", GlobalOpts::new());
    describe.set_force_restricted(true);
    describe.set_use_identity(true);
    describe.set_limit(2);
    describe
        .set_use_original_number(true)
        .set_include_shelved_files(true);

    let mut expected = vec!["describe"];
    expected.push("-f");
    expected.push("-I");
    expected.extend(["-m", "2"]);
    expected.extend(["-O", "-S"]);

    assert_eq!(args_of(&describe.setup_command("p4")), expected);
}

#[test]
fn short_summary_mode() {
    let describe = Describe::new("p4", GlobalOpts::new())
        .force_restricted(true)
        .short_summary_output();

    assert_eq!(
        args_of(&describe.setup_command("p4")),
        ["describe", "-s", "-f"]
    );
}

#[test]
fn mode_transition_preserves_generic_options() {
    let mut describe = Describe::new("p4", GlobalOpts::new());
    describe.set_force_restricted(true);
    describe.set_limit(3);

    let describe = describe.short_summary_output().include_shelved_files(true);

    let mut expected = vec!["describe", "-s", "-f"];
    expected.extend(["-m", "3"]);
    expected.push("-S");

    assert_eq!(args_of(&describe.setup_command("p4")), expected);
}

#[test]
fn detail_diff_mode_via_diff_options() {
    let describe =
        Describe::new("p4", GlobalOpts::new()).diff_options(DiffOptionsBuilder::unified(None).into());

    assert!(describe.get_diff_options().is_some());
    assert_eq!(args_of(&describe.setup_command("p4")), ["describe", "-du"]);
}

#[test]
fn detail_diff_mode_set_diff_options() {
    let mut describe =
        Describe::new("p4", GlobalOpts::new()).diff_options(DiffOptionsBuilder::unified(None).into());
    describe.set_diff_options(DiffOptionsBuilder::summary().into());

    assert_eq!(
        describe.get_diff_options(),
        Some(&DiffOptions::from(DiffOptionsBuilder::summary()))
    );
    assert_eq!(args_of(&describe.setup_command("p4")), ["describe", "-ds"]);
}

#[test]
fn detail_diff_mode_via_display_added_text_content() {
    let describe = Describe::new("p4", GlobalOpts::new()).display_added_text_content(true);

    assert!(describe.get_display_added_text_content());
    assert_eq!(describe.get_diff_options(), None);
    assert_eq!(args_of(&describe.setup_command("p4")), ["describe", "-a"]);
}

#[test]
fn detail_diff_mode_combines_a_and_d() {
    let mut describe = Describe::new("p4", GlobalOpts::new()).display_added_text_content(true);
    describe.set_diff_options(DiffOptionsBuilder::unified(None).into());

    assert_eq!(
        args_of(&describe.setup_command("p4")),
        ["describe", "-a", "-du"]
    );
}

#[test]
fn limit_is_injected_as_separate_args() {
    let mut describe = Describe::new("p4", GlobalOpts::new());
    describe.set_limit(5);

    assert_eq!(
        args_of(&describe.setup_command("p4")),
        ["describe", "-m", "5"]
    );
}
