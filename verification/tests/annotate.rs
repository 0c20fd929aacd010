use perforce_cli::cmd::{Annotate, SubCommand};
use perforce_cli::command::CommandLine;
use perforce_cli::global::GlobalOpts;

fn args_of(command: &CommandLine) -> Vec<String> {
    command.get_args().to_vec()
}

/// Dry-run checks of the assembled `p4 annotate` command line; no process
/// is spawned.
#[test]
fn annotate_without_options() {
    let annotate = Annotate::new("p4", GlobalOpts::new());

    assert_eq!(args_of(&annotate.setup_command("p4")), ["annotate"]);
}

#[test]
fn all_options() {
    let mut annotate = Annotate::new("p4", GlobalOpts::new());
    annotate
        .set_all_lines(true)
        .set_changelist_number(true)
        .set_diff_options("Su2")
        .set_quiet_mode(true)
        .set_force_binary(true);
    annotate.set_user_date(true);

    // `-i` and `-I` are mutually exclusive; select the branch-following
    // variant here.
    let mut annotate = annotate.follow_branches();

    let mut expected = vec!["annotate", "-a", "-c", "-dSu2", "-i", "-q", "-t"];
    expected.push("-u");
    {
        annotate.set_default_tab();
        expected.push("-T");
    }

    assert_eq!(args_of(&annotate.setup_command("p4")), expected);
}

#[test]
fn default_tab_uses_short_flag() {
    let mut annotate = Annotate::new("p4", GlobalOpts::new());
    annotate.set_default_tab();

    assert_eq!(annotate.get_tab(), Some(8));
    assert_eq!(args_of(&annotate.setup_command("p4")), ["annotate", "-T"]);
}

#[test]
fn custom_tab_uses_long_flag() {
    let mut annotate = Annotate::new("p4", GlobalOpts::new());
    annotate.set_tab(4);

    assert_eq!(annotate.get_tab(), Some(4));
    assert_eq!(
        args_of(&annotate.setup_command("p4")),
        ["annotate", "--tab=4"]
    );
}

#[test]
fn follow_integrations_uses_capital_flag() {
    let annotate = Annotate::new("p4", GlobalOpts::new()).follow_integrations();

    assert_eq!(args_of(&annotate.setup_command("p4")), ["annotate", "-I"]);
}

#[test]
fn tab_of_eight_set_explicitly_uses_long_flag() {
    let mut annotate = Annotate::new("p4", GlobalOpts::new());
    annotate.set_tab(8);

    assert_eq!(annotate.get_tab(), Some(8));
    assert_eq!(args_of(&annotate.setup_command("p4")), ["annotate", "--tab=8"]);
}
