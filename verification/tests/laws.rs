use perforce_cli::cmd::admin::SpecifiedType;
use perforce_cli::cmd::{
    AdminEntry, Annotate, Archive, Attribute, Changes, Describe, Diff, Diff2, DiffOptionsBuilder, Edit, SubCommand,
    Sync,
};
use perforce_cli::command::CommandLine;
use perforce_cli::global::GlobalOpts;

fn args_of(command: &CommandLine) -> Vec<String> {
    command.get_args().to_vec()
}

#[test]
fn admin_subcommand_follows_admin_after_global_opts() {
    let g = GlobalOpts::new().user("ops").retries(3);
    let admin = AdminEntry::new("p4", g).updatespecdepot().specified_type(SpecifiedType::Depot);

    assert_eq!(
        args_of(&admin.command_line()),
        ["-r", "3", "-u", "ops", "admin", "updatespecdepot", "-s", "depot"]
    );
}

#[test]
fn describe_mode_arguments_come_first() {
    let before = Describe::new("p4", GlobalOpts::new()).use_original_number(true).limit(7);
    let before_args = args_of(&before.setup_command("p4"));
    let after = before.diff_options(DiffOptionsBuilder::rcs().into());

    assert_eq!(before_args, ["describe", "-m", "7", "-O"]);
    assert_eq!(args_of(&after.setup_command("p4")), ["describe", "-dn", "-m", "7", "-O"]);
}

#[test]
fn edit_diff_and_diff2_modes_follow_the_options() {
    let edit = Edit::new("p4", GlobalOpts::new()).change_list("9").edit_stream_spec();
    assert_eq!(args_of(&edit.setup_command("p4")), ["edit", "-c", "9", "-So"]);

    let diff = Diff::new("p4", GlobalOpts::new())
        .diff_options(DiffOptionsBuilder::context(Some(1)).into())
        .differing_only(true)
        .limit(3);
    assert_eq!(args_of(&diff.setup_command("p4")), ["diff", "-dc1", "-Od", "-m", "3"]);

    let diff2 = Diff2::new("p4", GlobalOpts::new())
        .diff_options(DiffOptionsBuilder::new().ignore_all_whitespace().into())
        .unified_patch(true)
        .stream("dev");
    assert_eq!(args_of(&diff2.setup_command("p4")), ["diff2", "-dw", "-u", "-S", "dev"]);
}

#[test]
fn diff2_branch_selection_keeps_depot_flags() {
    let diff2 = Diff2::new("p4", GlobalOpts::new()).differing_only(true).diff_nontext(true);
    let diff2 = diff2.branch("rel");
    assert_eq!(args_of(&diff2.setup_command("p4")), ["diff2", "-Od", "-t", "-b", "rel"]);
}

#[test]
fn archive_purge_keeps_everything_but_the_selection() {
    let archive = Archive::new("p4", GlobalOpts::new())
        .skip_head_revisions(true)
        .archive_delta(true)
        .depot("old")
        .purge_physical_files();
    assert_eq!(args_of(&archive.setup_command("p4")), ["archive", "-p", "-t", "-D", "old"]);
}

#[test]
fn sync_sub_mode_goes_between_shared_flags_and_preview() {
    let sync = Sync::new("p4", GlobalOpts::new())
        .script_list_mode(true)
        .preview_network_traffic()
        .limit(4)
        .populate();
    assert_eq!(args_of(&sync.setup_command("p4")), ["sync", "-L", "-p", "-N", "-m", "4"]);
}

#[test]
fn changes_long_output_goes_between_filters() {
    let changes = Changes::new("p4", GlobalOpts::new())
        .client("ws")
        .include_integrated(true)
        .limit(1)
        .include_time(true)
        .long_output_truncated();
    assert_eq!(
        args_of(&changes.setup_command("p4")),
        ["changes", "-c", "ws", "-i", "-L", "-m", "1", "-t"]
    );
}

#[test]
fn annotate_follow_flag_goes_after_diff_flags() {
    let mut annotate = Annotate::new("p4", GlobalOpts::new());
    annotate.set_changelist_number(true).set_diff_options("w").set_force_binary(true).set_tab(2);
    let annotate = annotate.follow_integrations();
    assert_eq!(
        args_of(&annotate.setup_command("p4")),
        ["annotate", "-c", "-dw", "-I", "-t", "--tab=2"]
    );
}

#[test]
fn attribute_source_switch_keeps_flags_and_storage() {
    let mut attr = Attribute::new("p4", GlobalOpts::new()).propagating(true).store_in_database_traits();
    attr.set("a", "1").clear("b");
    let attr = attr.read_from_stdin("c".to_string());
    assert_eq!(args_of(&attr.setup_command("p4")), ["attribute", "-p", "-T0", "-i", "-n", "c"]);
}

#[test]
fn diff_workspace_choice_goes_last() {
    let diff = Diff::new("p4", GlobalOpts::new())
        .diff_options(DiffOptionsBuilder::summary().into())
        .diff_nontext(true)
        .force(true)
        .display_options(perforce_cli::cmd::diff::DisplayOptions::ListWithStatus);
    assert_eq!(args_of(&diff.setup_command("p4")), ["diff", "-ds", "-f", "-t", "-sl"]);
}

#[test]
fn filelog_long_output_goes_after_follow_flag() {
    let filelog = perforce_cli::cmd::FileLog::new("p4", GlobalOpts::new())
        .include_time(true)
        .follow_branches(true)
        .changelist("5")
        .truncated_description();
    assert_eq!(
        args_of(&filelog.setup_command("p4")),
        ["filelog", "-c", "5", "-i", "-L", "-t"]
    );
}
