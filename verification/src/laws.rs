//! Properties that hold across the builders: what an unset option contributes,
//! where the global options go, and what selecting a mode does to the options
//! set before it.
use vstd::prelude::*;

use crate::argv::{
    flag_args, joined_args, lemma_args_concat_assoc, number_args, opt_repeated_args, value_args,
};
use crate::cmd::admin::{
    Admin, CheckPoint, EndJournal, Journal, ReplicaFilterReconcile, ResetPassword,
    ResourceMonitor, Restart, SetLdapUsers, Stop, SysInfo, UpdateSpecDepot,
};
use crate::cmd::annotate::{tab_args, Annotate};
use crate::cmd::archive::{Archive, PhysicalPurge, SafeArchive};
use crate::cmd::attribute::{Attribute, Standard};
use crate::cmd::describe::Describe;
use crate::cmd::diff::{Diff, DisplayOptions, WorkspaceMode};
use crate::cmd::diff2::{DepotContent, Diff2};
use crate::cmd::changes::{opt_users_args, status_args, stream_args, Changes};
use crate::cmd::edit::Edit;
use crate::cmd::filelog::FileLog;
use crate::cmd::sync::{parallel_args, stream_spec_version_args, RegularMode, Sync};
use crate::cmd::{
    command_args, diff_options_args, DiffFormat, DiffOptionsView, ExclusiveOption, SubCommand,
    Unselected, WhitespaceHandling,
};
use crate::global::{default_global_opts, global_args};

verus! {

broadcast use lemma_args_concat_assoc;

/// Global options with nothing set contribute no argument at all.
pub proof fn law_default_global_opts_emit_nothing()
    ensures
        global_args(default_global_opts()) == Seq::<Seq<char>>::empty(),
{
    assert(global_args(default_global_opts()) =~= Seq::<Seq<char>>::empty());
}

/// None of the `p4 admin` subcommands carries global options of its own.
pub proof fn law_admin_subcommands_carry_no_global_opts<
    C: ExclusiveOption,
    S: ExclusiveOption,
    P: ExclusiveOption,
    M: ExclusiveOption,
>(
    checkpoint: CheckPoint<C>,
    journal: Journal,
    stop: Stop,
    restart: Restart,
    update_spec_depot: UpdateSpecDepot<S>,
    reset_password: ResetPassword<P>,
    set_ldap_users: SetLdapUsers,
    end_journal: EndJournal,
    sys_info: SysInfo,
    resource_monitor: ResourceMonitor,
    replica_filter_reconcile: ReplicaFilterReconcile<M>,
)
    ensures
        checkpoint.spec_global_opts() is None,
        journal.spec_global_opts() is None,
        stop.spec_global_opts() is None,
        restart.spec_global_opts() is None,
        update_spec_depot.spec_global_opts() is None,
        reset_password.spec_global_opts() is None,
        set_ldap_users.spec_global_opts() is None,
        end_journal.spec_global_opts() is None,
        sys_info.spec_global_opts() is None,
        resource_monitor.spec_global_opts() is None,
        replica_filter_reconcile.spec_global_opts() is None,
{
}

/// In a `p4 admin` command the global options appear once, before `admin`;
/// the subcommand's name and options follow `admin` without them.
pub proof fn law_admin_global_opts_once<T: SubCommand>(a: Admin<T>)
    requires
        a@.sub_command.spec_global_opts() is None,
    ensures
        command_args(&a) == global_args(a@.global_opts) + seq![
            "admin"@,
            a@.sub_command.spec_name(),
        ] + a@.sub_command.spec_local_args(),
{
    assert(command_args(&a) =~= global_args(a@.global_opts) + seq![
        "admin"@,
        a@.sub_command.spec_name(),
    ] + a@.sub_command.spec_local_args());
}

/// Diff options contribute at most one argument, which starts with `-d`; they
/// contribute nothing exactly when they are the typed defaults (default
/// format, no whitespace handling).
pub proof fn law_diff_options_at_most_one_argument(d: DiffOptionsView)
    ensures
        diff_options_args(d).len() <= 1,
        diff_options_args(d).len() == 0 <==> d == (DiffOptionsView::Typed {
            format: DiffFormat::Default,
            whitespace: WhitespaceHandling::NoHandling,
        }),
        diff_options_args(d).len() == 1 ==> diff_options_args(d)[0].len() >= 2
            && diff_options_args(d)[0][0] == '-' && diff_options_args(d)[0][1] == 'd',
{
    reveal_strlit("-d");
    if diff_options_args(d).len() == 1 {
        let arg = diff_options_args(d)[0];
        let rest = arg.skip(2);
        assert(arg =~= "-d"@ + rest);
    }
}

/// Distinct file selections of `p4 diff -s<flag>` have distinct flags.
pub proof fn law_display_flags_distinct(a: DisplayOptions, b: DisplayOptions)
    ensures
        a != b ==> a.spec_str() != b.spec_str(),
{
    reveal_strlit("-sa");
    reveal_strlit("-sb");
    reveal_strlit("-sd");
    reveal_strlit("-se");
    reveal_strlit("-sl");
    reveal_strlit("-sr");
    if a != b {
        assert(a.spec_str()[2] != b.spec_str()[2]);
    }
}

/// Selecting a `p4 describe` mode keeps every option set before: the mode's
/// arguments come first, followed by the arguments the command had before.
pub proof fn law_describe_mode_comes_first<M: ExclusiveOption>(
    before: Describe<Unselected>,
    after: Describe<M>,
)
    requires
        after@.global_opts == before@.global_opts,
        after@.force_restricted == before@.force_restricted,
        after@.use_identity == before@.use_identity,
        after@.limit == before@.limit,
        after@.use_original_number == before@.use_original_number,
        after@.include_shelved_files == before@.include_shelved_files,
    ensures
        after.spec_local_args() == after@.mode.spec_args() + before.spec_local_args(),
        command_args(&after) == global_args(before@.global_opts) + seq!["describe"@]
            + after@.mode.spec_args() + before.spec_local_args(),
{
    assert(after.spec_local_args() =~= after@.mode.spec_args() + before.spec_local_args());
}

/// Selecting a `p4 edit` mode keeps the changelist: its arguments stay first
/// and the mode's arguments follow them.
pub proof fn law_edit_mode_follows_options<M: ExclusiveOption>(
    before: Edit<Unselected>,
    after: Edit<M>,
)
    requires
        after@.global_opts == before@.global_opts,
        after@.change_list == before@.change_list,
    ensures
        after.spec_local_args() == before.spec_local_args() + after@.mode.spec_args(),
        command_args(&after) == command_args(&before) + after@.mode.spec_args(),
{
    assert(after.spec_local_args() =~= before.spec_local_args() + after@.mode.spec_args());
}

/// Selecting a `p4 diff` mode keeps the diff options: their argument stays
/// first and the mode's arguments follow it.
pub proof fn law_diff_mode_follows_options<M: ExclusiveOption>(
    before: Diff<Unselected>,
    after: Diff<M>,
)
    requires
        after@.global_opts == before@.global_opts,
        after@.diff_opts == before@.diff_opts,
    ensures
        after.spec_local_args() == before.spec_local_args() + after@.mode.spec_args(),
        command_args(&after) == command_args(&before) + after@.mode.spec_args(),
{
    assert(after.spec_local_args() =~= before.spec_local_args() + after@.mode.spec_args());
}

/// Selecting a `p4 diff2` mode keeps the diff options: their argument stays
/// first and the mode's arguments follow it.
pub proof fn law_diff2_mode_follows_options<M: ExclusiveOption>(
    before: Diff2<Unselected>,
    after: Diff2<M>,
)
    requires
        after@.global_opts == before@.global_opts,
        after@.diff_opts == before@.diff_opts,
    ensures
        after.spec_local_args() == before.spec_local_args() + after@.mode.spec_args(),
        command_args(&after) == command_args(&before) + after@.mode.spec_args(),
{
    assert(after.spec_local_args() =~= before.spec_local_args() + after@.mode.spec_args());
}

/// Selecting a branch (`-b`) or stream (`-S`) for a `p4 diff2` of depot
/// contents keeps the diff options and the `-Od -q -t -u` flags; the
/// selection's arguments follow them.
pub proof fn law_diff2_depot_selection_follows_flags<M: ExclusiveOption>(
    before: Diff2<DepotContent<Unselected>>,
    after: Diff2<DepotContent<M>>,
)
    requires
        after@.global_opts == before@.global_opts,
        after@.diff_opts == before@.diff_opts,
        after@.mode@.differing_only == before@.mode@.differing_only,
        after@.mode@.quiet_mode == before@.mode@.quiet_mode,
        after@.mode@.diff_nontext == before@.mode@.diff_nontext,
        after@.mode@.unified_patch == before@.mode@.unified_patch,
    ensures
        after.spec_local_args() == before.spec_local_args() + after@.mode@.mode.spec_args(),
        command_args(&after) == command_args(&before) + after@.mode@.mode.spec_args(),
{
    assert(after.spec_local_args() =~= before.spec_local_args() + after@.mode@.mode.spec_args());
}

/// Purging physical files in `p4 archive` replaces the `-h` and `-z` settings
/// by `-p` and keeps every other option: no setting of the archive selection
/// made before the switch reaches the command line.
pub proof fn law_archive_purge_replaces_selection(
    before: Archive<SafeArchive>,
    after: Archive<PhysicalPurge>,
)
    requires
        after@.global_opts == before@.global_opts,
        after@.preview == before@.preview,
        after@.quiet_mode == before@.quiet_mode,
        after@.archive_delta == before@.archive_delta,
        after@.depot == before@.depot,
    ensures
        after.spec_local_args() == seq!["-p"@] + before.spec_local_args().skip(
            before@.archive_mode.spec_args().len() as int,
        ),
{
    let sel = before@.archive_mode.spec_args();
    let rest = before.spec_local_args().skip(sel.len() as int);
    assert(before.spec_local_args() =~= sel + rest);
    assert(after.spec_local_args() =~= seq!["-p"@] + rest);
}

/// The arguments of the `p4 sync` options that precede the sub-mode: `-E`,
/// `-L`, `-K` and `-q`, those that are set, in that order.
pub open spec fn sync_leading_args<M, P>(s: Sync<RegularMode<M, P>>) -> Seq<Seq<char>> {
    flag_args(s@.mode@.verify_edge_replication, "-E"@) + flag_args(
        s@.mode@.script_list_mode,
        "-L"@,
    ) + flag_args(s@.mode@.suppress_keyword_expansion, "-K"@) + flag_args(
        s@.mode@.quiet_mode,
        "-q"@,
    )
}

/// Selecting a `p4 sync` sub-mode (force, safe check, populate) keeps every
/// option set before, the preview included: the sub-mode's arguments are
/// inserted after `-E -L -K -q` and before the preview and the rest.
pub proof fn law_sync_sub_mode_keeps_options<M: ExclusiveOption, P: ExclusiveOption>(
    before: Sync<RegularMode<Unselected, P>>,
    after: Sync<RegularMode<M, P>>,
)
    requires
        after@.global_opts == before@.global_opts,
        after@.mode@.verify_edge_replication == before@.mode@.verify_edge_replication,
        after@.mode@.script_list_mode == before@.mode@.script_list_mode,
        after@.mode@.suppress_keyword_expansion == before@.mode@.suppress_keyword_expansion,
        after@.mode@.quiet_mode == before@.mode@.quiet_mode,
        after@.mode@.limit == before@.mode@.limit,
        after@.mode@.parallel == before@.mode@.parallel,
        after@.mode@.stream_spec_version == before@.mode@.stream_spec_version,
        after@.mode@.preview == before@.mode@.preview,
    ensures
        after.spec_local_args() == sync_leading_args(before) + after@.mode@.mode.spec_args()
            + before.spec_local_args().skip(sync_leading_args(before).len() as int),
        sync_leading_args(before) == before.spec_local_args().take(
            sync_leading_args(before).len() as int,
        ),
{
    let lead = sync_leading_args(before);
    let m = before@.mode@;
    let tail = m.preview.spec_args() + number_args("-m"@, m.limit) + parallel_args(m.parallel)
        + stream_spec_version_args(m.stream_spec_version);
    assert(before.spec_local_args() == lead + seq![] + tail);
    assert(after.spec_local_args() == lead + after@.mode@.mode.spec_args() + tail);
    assert(lead + seq![] =~= lead);
    lemma_split_at_prefix(lead, tail);
}

/// The arguments of the `p4 changes` options that precede the long output
/// flag: `-c`, `--client-case-insensitive`, `-e`, `-f` and `-i`, in order.
pub open spec fn changes_leading_args<L>(c: Changes<L>) -> Seq<Seq<char>> {
    opt_repeated_args("-c"@, c@.filter_clients) + flag_args(
        c@.client_case_insensitive,
        "--client-case-insensitive"@,
    ) + value_args("-e"@, c@.min_change_list) + flag_args(c@.include_restricted, "-f"@)
        + flag_args(c@.include_integrated, "-i"@)
}

/// Selecting the long output of `p4 changes` (`-l` or `-L`) keeps every
/// option set before: the flag is inserted after `-c ... -i` and before
/// `-m ... --stream`.
pub proof fn law_changes_long_output_keeps_options<L: ExclusiveOption>(
    before: Changes<Unselected>,
    after: Changes<L>,
)
    requires
        after@.global_opts == before@.global_opts,
        after@.min_change_list == before@.min_change_list,
        after@.include_restricted == before@.include_restricted,
        after@.include_integrated == before@.include_integrated,
        after@.include_time == before@.include_time,
        after@.limit == before@.limit,
        after@.reverse_order == before@.reverse_order,
        after@.filter_status == before@.filter_status,
        after@.filter_users == before@.filter_users,
        after@.filter_clients == before@.filter_clients,
        after@.client_case_insensitive == before@.client_case_insensitive,
        after@.stream == before@.stream,
    ensures
        after.spec_local_args() == changes_leading_args(before) + after@.long_output.spec_args()
            + before.spec_local_args().skip(changes_leading_args(before).len() as int),
        changes_leading_args(before) == before.spec_local_args().take(
            changes_leading_args(before).len() as int,
        ),
{
    let lead = changes_leading_args(before);
    let v = before@;
    let tail = number_args("-m"@, v.limit) + flag_args(v.reverse_order, "-r"@) + status_args(
        v.filter_status,
    ) + flag_args(v.include_time, "-t"@) + opt_users_args(v.filter_users) + stream_args(
        v.stream,
    );
    assert(before.spec_local_args() == lead + seq![] + tail);
    assert(after.spec_local_args() == lead + after@.long_output.spec_args() + tail);
    assert(lead + seq![] =~= lead);
    lemma_split_at_prefix(lead, tail);
}

/// The arguments of the `p4 annotate` options that precede `-i`/`-I`:
/// `-a`, `-c` and `-d<flags>`, those that are set, in that order.
pub open spec fn annotate_leading_args<F>(a: Annotate<F>) -> Seq<Seq<char>> {
    flag_args(a@.all_lines, "-a"@) + flag_args(a@.changelist_number, "-c"@) + joined_args(
        "-d"@,
        a@.diff_options,
    )
}

/// Choosing to follow branches (`-i`) or integrations (`-I`) in `p4 annotate`
/// keeps every option set before: the flag is inserted after `-a -c -d` and
/// before `-q -t -u` and the tab setting.
pub proof fn law_annotate_follow_keeps_options<F: ExclusiveOption>(
    before: Annotate<Unselected>,
    after: Annotate<F>,
)
    requires
        after@.global_opts == before@.global_opts,
        after@.all_lines == before@.all_lines,
        after@.changelist_number == before@.changelist_number,
        after@.diff_options == before@.diff_options,
        after@.quiet_mode == before@.quiet_mode,
        after@.force_binary == before@.force_binary,
        after@.user_date == before@.user_date,
        after@.tab == before@.tab,
    ensures
        after.spec_local_args() == annotate_leading_args(before) + after@.follow.spec_args()
            + before.spec_local_args().skip(annotate_leading_args(before).len() as int),
        annotate_leading_args(before) == before.spec_local_args().take(
            annotate_leading_args(before).len() as int,
        ),
{
    let lead = annotate_leading_args(before);
    let v = before@;
    let tail = flag_args(v.quiet_mode, "-q"@) + flag_args(v.force_binary, "-t"@) + flag_args(
        v.user_date,
        "-u"@,
    ) + tab_args(v.tab);
    assert(before.spec_local_args() == lead + seq![] + tail);
    assert(after.spec_local_args() == lead + after@.follow.spec_args() + tail);
    assert(lead + seq![] =~= lead);
    lemma_split_at_prefix(lead, tail);
}

/// Reading an attribute's value from standard input or from a file in
/// `p4 attribute` keeps `-f`, `-p` and the storage selection; only the
/// arguments that name the attribute and its value change.
pub proof fn law_attribute_source_keeps_flags<S: ExclusiveOption, T: ExclusiveOption>(
    before: Attribute<Standard, T>,
    after: Attribute<S, T>,
)
    requires
        after@.global_opts == before@.global_opts,
        after@.on_submitted_files == before@.on_submitted_files,
        after@.propagating == before@.propagating,
        after@.storage == before@.storage,
    ensures
        after.spec_local_args() == before.spec_local_args().take(
            before.spec_local_args().len() - before@.source.spec_args().len(),
        ) + after@.source.spec_args(),
{
    let lead = flag_args(before@.on_submitted_files, "-f"@) + flag_args(
        before@.propagating,
        "-p"@,
    ) + before@.storage.spec_args();
    assert(before.spec_local_args() == lead + before@.source.spec_args());
    assert(after.spec_local_args() == lead + after@.source.spec_args());
    assert((lead + before@.source.spec_args()).take(lead.len() as int) =~= lead);
}

/// Choosing a file selection (`-s<flag>`) or a limit (`-m`) for a `p4 diff`
/// of workspace files keeps the diff options and `-f -t -Od`; the choice's
/// arguments follow them.
pub proof fn law_diff_workspace_choice_follows_flags<M: ExclusiveOption>(
    before: Diff<WorkspaceMode<Unselected>>,
    after: Diff<WorkspaceMode<M>>,
)
    requires
        after@.global_opts == before@.global_opts,
        after@.diff_opts == before@.diff_opts,
        after@.mode@.force == before@.mode@.force,
        after@.mode@.differing_only == before@.mode@.differing_only,
        after@.mode@.diff_nontext == before@.mode@.diff_nontext,
    ensures
        after.spec_local_args() == before.spec_local_args() + after@.mode@.mode.spec_args(),
        command_args(&after) == command_args(&before) + after@.mode@.mode.spec_args(),
{
    assert(after.spec_local_args() =~= before.spec_local_args() + after@.mode@.mode.spec_args());
}

/// The arguments of the `p4 filelog` options that precede `-l`/`-L`: `-c`,
/// `-h [-p]` and `-i`, in that order.
pub open spec fn filelog_leading_args<L, H: ExclusiveOption>(f: FileLog<L, H>) -> Seq<Seq<char>> {
    value_args("-c"@, f@.changelist) + f@.content_history.spec_args() + flag_args(
        f@.follow_branches,
        "-i"@,
    )
}

/// Selecting the long output of `p4 filelog` (`-l` or `-L`) keeps every
/// option set before: the flag is inserted after `-c -h -p -i` and before
/// `-m -s -t`.
pub proof fn law_filelog_long_output_keeps_options<L: ExclusiveOption, H: ExclusiveOption>(
    before: FileLog<Unselected, H>,
    after: FileLog<L, H>,
)
    requires
        after@.global_opts == before@.global_opts,
        after@.changelist == before@.changelist,
        after@.content_history == before@.content_history,
        after@.follow_branches == before@.follow_branches,
        after@.limit == before@.limit,
        after@.ignore_non_contributory == before@.ignore_non_contributory,
        after@.include_time == before@.include_time,
    ensures
        after.spec_local_args() == filelog_leading_args(before) + after@.long_output.spec_args()
            + before.spec_local_args().skip(filelog_leading_args(before).len() as int),
        filelog_leading_args(before) == before.spec_local_args().take(
            filelog_leading_args(before).len() as int,
        ),
{
    let lead = filelog_leading_args(before);
    let v = before@;
    let tail = number_args("-m"@, v.limit) + flag_args(v.ignore_non_contributory, "-s"@)
        + flag_args(v.include_time, "-t"@);
    assert(before.spec_local_args() == lead + seq![] + tail);
    assert(after.spec_local_args() == lead + after@.long_output.spec_args() + tail);
    assert(lead + seq![] =~= lead);
    lemma_split_at_prefix(lead, tail);
}

/// Splitting `a + b` after `a` gives back `a` and `b`.
proof fn lemma_split_at_prefix(a: Seq<Seq<char>>, b: Seq<Seq<char>>)
    ensures
        (a + b).take(a.len() as int) == a,
        (a + b).skip(a.len() as int) == b,
{
    assert((a + b).take(a.len() as int) =~= a);
    assert((a + b).skip(a.len() as int) =~= b);
}

} // verus!
