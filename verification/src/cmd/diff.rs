//! `p4 diff`: diff client files, or the client's stream spec, with the depot.
use vstd::prelude::*;

use crate::argv::{
    flag_args,
    lemma_args_concat_assoc,
    number_args,
    push_arg,
    push_flag,
    push_number,
};
use crate::cmd::{
    command_args, opt_diff_options_args, opt_diff_ref_view, opt_diff_view, push_diff_options,
    DiffOptions, DiffOptionsView, ExclusiveOption, SubCommand, Unselected,
};
use crate::command::CommandLine;
use crate::global::{GlobalOpts, GlobalOptsView};

verus! {

broadcast use lemma_args_concat_assoc;

/// The file selections of `p4 diff -s`, each shown as one flag.
#[derive(Debug, Clone, Copy, PartialEq, Eq, Structural)]
pub enum DisplayOptions {
    /// Opened files that differ from the revision in the depot, or that are
    /// missing.
    OpenedChangedOrMissing,
    /// Files that have been opened for integrate, resolved, and subsequently
    /// modified.
    ResolvedThenModified,
    /// Unopened files that are missing on the client.
    UnopenedMissing,
    /// Unopened files that differ from the revision in the depot.
    UnopenedChanged,
    /// Every unopened file, along with the status of `same`, `diff`, or
    /// `missing` as compared to the corresponding revision in the depot.
    ListWithStatus,
    /// Opened files that do not differ from the revision in the depot.
    OpenedIdentical,
}

impl DisplayOptions {
    /// The flag of a file selection.
    pub open spec fn spec_str(self) -> Seq<char> {
        match self {
            DisplayOptions::OpenedChangedOrMissing => "-sa"@,
            DisplayOptions::ResolvedThenModified => "-sb"@,
            DisplayOptions::UnopenedMissing => "-sd"@,
            DisplayOptions::UnopenedChanged => "-se"@,
            DisplayOptions::ListWithStatus => "-sl"@,
            DisplayOptions::OpenedIdentical => "-sr"@,
        }
    }

    /// Returns the flag of this file selection.
    pub fn as_str(&self) -> (r: &'static str)
        ensures
            r@ == self.spec_str(),
    {
        match self {
            DisplayOptions::OpenedChangedOrMissing => "-sa",
            DisplayOptions::ResolvedThenModified => "-sb",
            DisplayOptions::UnopenedMissing => "-sd",
            DisplayOptions::UnopenedChanged => "-se",
            DisplayOptions::ListWithStatus => "-sl",
            DisplayOptions::OpenedIdentical => "-sr",
        }
    }
}

/// `-s<flag>`: lists only the files that a [`DisplayOptions`] selects.
#[derive(Debug, Clone, Copy, PartialEq, Eq)]
pub struct WorkspaceDisplayMode {
    display_opts: DisplayOptions,
}

/// The mathematical view of [`WorkspaceDisplayMode`].
pub struct WorkspaceDisplayModeView {
    pub display_opts: DisplayOptions,
}

impl View for WorkspaceDisplayMode {
    type V = WorkspaceDisplayModeView;

    closed spec fn view(&self) -> WorkspaceDisplayModeView {
        WorkspaceDisplayModeView { display_opts: self.display_opts }
    }
}

impl ExclusiveOption for WorkspaceDisplayMode {
    open spec fn spec_args(&self) -> Seq<Seq<char>> {
        seq![self@.display_opts.spec_str()]
    }

    fn inject_args(&self, args: &mut Vec<String>) {
        push_arg(args, self.display_opts.as_str());
    }
}

/// `-m max`: limits the output to `max` files.
#[derive(Debug, Clone, Copy, PartialEq, Eq)]
pub struct WorkspaceRegularMode {
    limit: u64,
}

/// The mathematical view of [`WorkspaceRegularMode`].
pub struct WorkspaceRegularModeView {
    pub limit: u64,
}

impl View for WorkspaceRegularMode {
    type V = WorkspaceRegularModeView;

    closed spec fn view(&self) -> WorkspaceRegularModeView {
        WorkspaceRegularModeView { limit: self.limit }
    }
}

impl ExclusiveOption for WorkspaceRegularMode {
    open spec fn spec_args(&self) -> Seq<Seq<char>> {
        number_args("-m"@, Some(self@.limit))
    }

    fn inject_args(&self, args: &mut Vec<String>) {
        push_number(args, "-m", Some(self.limit));
    }
}

/// Diffs of the client workspace files against the depot: forcing (`-f`),
/// diffing non-text files (`-t`), only differing files (`-Od`), and either a
/// file selection (`-s<flag>`) or a limit (`-m`).
#[derive(Debug, Clone, Copy, Default, PartialEq, Eq)]
pub struct WorkspaceMode<M = Unselected> {
    force: bool,
    differing_only: bool,
    diff_nontext: bool,
    mode: M,
}

/// The mathematical view of [`WorkspaceMode`].
pub struct WorkspaceModeView<M> {
    pub force: bool,
    pub differing_only: bool,
    pub diff_nontext: bool,
    pub mode: M,
}

impl<M> View for WorkspaceMode<M> {
    type V = WorkspaceModeView<M>;

    closed spec fn view(&self) -> WorkspaceModeView<M> {
        WorkspaceModeView {
            force: self.force,
            differing_only: self.differing_only,
            diff_nontext: self.diff_nontext,
            mode: self.mode,
        }
    }
}

impl<M: ExclusiveOption> ExclusiveOption for WorkspaceMode<M> {
    open spec fn spec_args(&self) -> Seq<Seq<char>> {
        flag_args(self@.force, "-f"@)
        + flag_args(self@.diff_nontext, "-t"@)
        + flag_args(self@.differing_only, "-Od"@)
        + self@.mode.spec_args()
    }

    fn inject_args(&self, args: &mut Vec<String>) {
        push_flag(args, self.force, "-f");
        push_flag(args, self.diff_nontext, "-t");
        push_flag(args, self.differing_only, "-Od");
        self.mode.inject_args(args);
    }
}

/// `-As`: diffs the client's stream spec against the depot.
#[derive(Debug, Clone, Copy, Default, PartialEq, Eq, Structural)]
pub struct StreamSpecMode;

impl ExclusiveOption for StreamSpecMode {
    open spec fn spec_args(&self) -> Seq<Seq<char>> {
        seq!["-As"@]
    }

    fn inject_args(&self, args: &mut Vec<String>) {
        push_arg(args, "-As");
    }
}

/// `p4 [g-opts] diff [-d<flags> -f -m max -Od -s<flag> -t] [file[rev] ...]`
/// `p4 [g-opts] diff [-d<flags>] -As [streamname[@change]]`
///
/// Diff a client file with a depot file, or a stream spec with its depot
/// version; the two forms are selected through the mode type parameter.
#[derive(Debug)]
pub struct Diff<M = Unselected> {
    bin: String,
    global_opts: GlobalOpts,
    diff_opts: Option<DiffOptions>,
    mode: M,
}

/// The mathematical view of [`Diff`].
pub struct DiffView<M> {
    pub bin: Seq<char>,
    pub global_opts: GlobalOptsView,
    pub diff_opts: Option<DiffOptionsView>,
    pub mode: M,
}

impl<M> View for Diff<M> {
    type V = DiffView<M>;

    closed spec fn view(&self) -> DiffView<M> {
        DiffView {
            bin: self.bin@,
            global_opts: self.global_opts@,
            diff_opts: opt_diff_view(self.diff_opts),
            mode: self.mode,
        }
    }
}

impl<M: ExclusiveOption> SubCommand for Diff<M> {
    open spec fn spec_name(&self) -> Seq<char> {
        "diff"@
    }

    open spec fn spec_local_args(&self) -> Seq<Seq<char>> {
        opt_diff_options_args(self@.diff_opts)
        + self@.mode.spec_args()
    }

    open spec fn spec_global_opts(&self) -> Option<GlobalOptsView> {
        Some(self@.global_opts)
    }

    fn name(&self) -> (r: &str) {
        "diff"
    }

    fn inject_local_args(&self, args: &mut Vec<String>) {
        push_diff_options(args, &self.diff_opts);
        self.mode.inject_args(args);
    }

    fn global_opts(&self) -> (r: Option<&GlobalOpts>) {
        Some(&self.global_opts)
    }
}

impl Diff<Unselected> {
    /// Diff client files with depot files.
    ///
    /// `bin` is the path to the Perforce command-line executable.
    pub fn new(bin: &str, global_opts: GlobalOpts) -> (r: Self)
        ensures
            r@.bin == bin@,
            r@.global_opts == global_opts@,
            r@.diff_opts is None,
            r@.mode == Unselected,
    {
        Diff {
            bin: bin.to_owned(),
            global_opts: global_opts,
            diff_opts: None,
            mode: Unselected,
        }
    }

    /// `-f`: diffs every file, even unopened ones; selects the workspace form.
    pub fn force(self, v: bool) -> (r: Diff<WorkspaceMode<Unselected>>)
        ensures
            r@.bin == self@.bin,
            r@.global_opts == self@.global_opts,
            r@.diff_opts == self@.diff_opts,
            r@.mode@ == (WorkspaceModeView {
                force: v,
                differing_only: false,
                diff_nontext: false,
                mode: Unselected,
            }),
    {
        Diff {
            bin: self.bin,
            global_opts: self.global_opts,
            diff_opts: self.diff_opts,
            mode: WorkspaceMode {
                force: v,
                differing_only: false,
                diff_nontext: false,
                mode: Unselected,
            },
        }
    }

    /// `-Od`: lists only the names of files that differ; selects the workspace
    /// form.
    pub fn differing_only(self, v: bool) -> (r: Diff<WorkspaceMode<Unselected>>)
        ensures
            r@.bin == self@.bin,
            r@.global_opts == self@.global_opts,
            r@.diff_opts == self@.diff_opts,
            r@.mode@ == (WorkspaceModeView {
                force: false,
                differing_only: v,
                diff_nontext: false,
                mode: Unselected,
            }),
    {
        Diff {
            bin: self.bin,
            global_opts: self.global_opts,
            diff_opts: self.diff_opts,
            mode: WorkspaceMode {
                force: false,
                differing_only: v,
                diff_nontext: false,
                mode: Unselected,
            },
        }
    }

    /// `-t`: diffs non-text files too; selects the workspace form.
    pub fn diff_nontext(self, v: bool) -> (r: Diff<WorkspaceMode<Unselected>>)
        ensures
            r@.bin == self@.bin,
            r@.global_opts == self@.global_opts,
            r@.diff_opts == self@.diff_opts,
            r@.mode@ == (WorkspaceModeView {
                force: false,
                differing_only: false,
                diff_nontext: v,
                mode: Unselected,
            }),
    {
        Diff {
            bin: self.bin,
            global_opts: self.global_opts,
            diff_opts: self.diff_opts,
            mode: WorkspaceMode {
                force: false,
                differing_only: false,
                diff_nontext: v,
                mode: Unselected,
            },
        }
    }

    /// `-As`: selects the stream spec form.
    pub fn stream_spec_mode(self) -> (r: Diff<StreamSpecMode>)
        ensures
            r@.bin == self@.bin,
            r@.global_opts == self@.global_opts,
            r@.diff_opts == self@.diff_opts,
            r@.mode == StreamSpecMode,
    {
        Diff {
            bin: self.bin,
            global_opts: self.global_opts,
            diff_opts: self.diff_opts,
            mode: StreamSpecMode,
        }
    }
}

impl<M> Diff<M> {
    /// `-d<flags>`: the diff options.
    pub fn get_diff_options(&self) -> (r: Option<&DiffOptions>)
        ensures
            opt_diff_ref_view(r) == self@.diff_opts,
    {
        self.diff_opts.as_ref()
    }

    /// `-d<flags>`: the diff options.
    pub fn set_diff_options(&mut self, v: DiffOptions) -> (r: &mut Self)
        ensures
            r@.bin == old(self)@.bin,
            r@.global_opts == old(self)@.global_opts,
            r@.mode == old(self)@.mode,
            r@.diff_opts == Some(v@),
            *final(self) == *final(r),
    {
        self.diff_opts = Some(v);
        self
    }

    /// `-d<flags>`: the diff options.
    pub fn diff_options(self, v: DiffOptions) -> (r: Self)
        ensures
            r@.bin == self@.bin,
            r@.global_opts == self@.global_opts,
            r@.mode == self@.mode,
            r@.diff_opts == Some(v@),
    {
        let mut s = self;
        s.diff_opts = Some(v);
        s
    }
}

impl<M: ExclusiveOption> Diff<M> {
    /// The command line that runs this command with the stored `p4` executable;
    /// operands (files, changelists, ...) follow it.
    pub fn command_line(&self) -> (c: CommandLine)
        ensures
            c@.program == self@.bin,
            c@.args == command_args(self),
    {
        self.setup_command(self.bin.as_str())
    }

    /// g-opts: the global options that precede the command; see [`GlobalOpts`].
    pub fn get_global_opts(&self) -> (r: &GlobalOpts)
        ensures
            r@ == self@.global_opts,
    {
        &self.global_opts
    }

    /// g-opts: the global options that precede the command; see [`GlobalOpts`].
    pub fn set_global_opts(&mut self, v: GlobalOpts) -> (r: &mut Self)
        ensures
            r@ == (DiffView { global_opts: v@, ..old(self)@ }),
            *final(self) == *final(r),
    {
        self.global_opts = v;
        self
    }

    /// g-opts: the global options that precede the command; see [`GlobalOpts`].
    pub fn global_opts(self, v: GlobalOpts) -> (r: Self)
        ensures
            r@ == (DiffView { global_opts: v@, ..self@ }),
    {
        let mut s = self;
        s.global_opts = v;
        s
    }
}

impl<M> Diff<WorkspaceMode<M>> {
    /// `-f`: diffs every file, even unopened ones.
    pub fn get_force(&self) -> (r: bool)
        ensures
            r == self@.mode@.force,
    {
        self.mode.force
    }

    /// `-f`: diffs every file, even unopened ones.
    pub fn set_force(&mut self, v: bool) -> (r: &mut Self)
        ensures
            r@.bin == old(self)@.bin,
            r@.global_opts == old(self)@.global_opts,
            r@.diff_opts == old(self)@.diff_opts,
            r@.mode@ == (WorkspaceModeView { force: v, ..old(self)@.mode@ }),
            *final(self) == *final(r),
    {
        self.mode.force = v;
        self
    }

    /// `-f`: diffs every file, even unopened ones.
    pub fn force(self, v: bool) -> (r: Self)
        ensures
            r@.bin == self@.bin,
            r@.global_opts == self@.global_opts,
            r@.diff_opts == self@.diff_opts,
            r@.mode@ == (WorkspaceModeView { force: v, ..self@.mode@ }),
    {
        let mut s = self;
        s.mode.force = v;
        s
    }

    /// `-Od`: lists only the names of files that differ.
    pub fn get_differing_only(&self) -> (r: bool)
        ensures
            r == self@.mode@.differing_only,
    {
        self.mode.differing_only
    }

    /// `-Od`: lists only the names of files that differ.
    pub fn set_differing_only(&mut self, v: bool) -> (r: &mut Self)
        ensures
            r@.bin == old(self)@.bin,
            r@.global_opts == old(self)@.global_opts,
            r@.diff_opts == old(self)@.diff_opts,
            r@.mode@ == (WorkspaceModeView { differing_only: v, ..old(self)@.mode@ }),
            *final(self) == *final(r),
    {
        self.mode.differing_only = v;
        self
    }

    /// `-Od`: lists only the names of files that differ.
    pub fn differing_only(self, v: bool) -> (r: Self)
        ensures
            r@.bin == self@.bin,
            r@.global_opts == self@.global_opts,
            r@.diff_opts == self@.diff_opts,
            r@.mode@ == (WorkspaceModeView { differing_only: v, ..self@.mode@ }),
    {
        let mut s = self;
        s.mode.differing_only = v;
        s
    }

    /// `-t`: diffs non-text files too.
    pub fn get_diff_nontext(&self) -> (r: bool)
        ensures
            r == self@.mode@.diff_nontext,
    {
        self.mode.diff_nontext
    }

    /// `-t`: diffs non-text files too.
    pub fn set_diff_nontext(&mut self, v: bool) -> (r: &mut Self)
        ensures
            r@.bin == old(self)@.bin,
            r@.global_opts == old(self)@.global_opts,
            r@.diff_opts == old(self)@.diff_opts,
            r@.mode@ == (WorkspaceModeView { diff_nontext: v, ..old(self)@.mode@ }),
            *final(self) == *final(r),
    {
        self.mode.diff_nontext = v;
        self
    }

    /// `-t`: diffs non-text files too.
    pub fn diff_nontext(self, v: bool) -> (r: Self)
        ensures
            r@.bin == self@.bin,
            r@.global_opts == self@.global_opts,
            r@.diff_opts == self@.diff_opts,
            r@.mode@ == (WorkspaceModeView { diff_nontext: v, ..self@.mode@ }),
    {
        let mut s = self;
        s.mode.diff_nontext = v;
        s
    }
}

impl Diff<WorkspaceMode<Unselected>> {
    /// `-s<flag>`: lists only the files that `v` selects; excludes `-m`.
    pub fn display_options(self, v: DisplayOptions) -> (r: Diff<WorkspaceMode<WorkspaceDisplayMode>>)
        ensures
            r@.bin == self@.bin,
            r@.global_opts == self@.global_opts,
            r@.diff_opts == self@.diff_opts,
            r@.mode@.force == self@.mode@.force,
            r@.mode@.differing_only == self@.mode@.differing_only,
            r@.mode@.diff_nontext == self@.mode@.diff_nontext,
            r@.mode@.mode@.display_opts == v,
    {
        Diff {
            bin: self.bin,
            global_opts: self.global_opts,
            diff_opts: self.diff_opts,
            mode: WorkspaceMode {
                force: self.mode.force,
                differing_only: self.mode.differing_only,
                diff_nontext: self.mode.diff_nontext,
                mode: WorkspaceDisplayMode { display_opts: v },
            },
        }
    }

    /// `-m max`: limits the output to `max` files; excludes `-s<flag>`.
    pub fn limit(self, max: u64) -> (r: Diff<WorkspaceMode<WorkspaceRegularMode>>)
        ensures
            r@.bin == self@.bin,
            r@.global_opts == self@.global_opts,
            r@.diff_opts == self@.diff_opts,
            r@.mode@.force == self@.mode@.force,
            r@.mode@.differing_only == self@.mode@.differing_only,
            r@.mode@.diff_nontext == self@.mode@.diff_nontext,
            r@.mode@.mode@.limit == max,
    {
        Diff {
            bin: self.bin,
            global_opts: self.global_opts,
            diff_opts: self.diff_opts,
            mode: WorkspaceMode {
                force: self.mode.force,
                differing_only: self.mode.differing_only,
                diff_nontext: self.mode.diff_nontext,
                mode: WorkspaceRegularMode { limit: max },
            },
        }
    }
}

impl Diff<WorkspaceMode<WorkspaceDisplayMode>> {
    /// `-s<flag>`: the file selection.
    pub fn get_display_options(&self) -> (r: &DisplayOptions)
        ensures
            *r == self@.mode@.mode@.display_opts,
    {
        &self.mode.mode.display_opts
    }

    /// `-s<flag>`: the file selection.
    pub fn set_display_options(&mut self, v: DisplayOptions) -> (r: &mut Self)
        ensures
            r@.bin == old(self)@.bin,
            r@.global_opts == old(self)@.global_opts,
            r@.diff_opts == old(self)@.diff_opts,
            r@.mode@.force == old(self)@.mode@.force,
            r@.mode@.differing_only == old(self)@.mode@.differing_only,
            r@.mode@.diff_nontext == old(self)@.mode@.diff_nontext,
            r@.mode@.mode@.display_opts == v,
            *final(self) == *final(r),
    {
        self.mode.mode.display_opts = v;
        self
    }
}

impl Diff<WorkspaceMode<WorkspaceRegularMode>> {
    /// `-m max`: the limit on the number of files.
    pub fn get_limit(&self) -> (r: u64)
        ensures
            r == self@.mode@.mode@.limit,
    {
        self.mode.mode.limit
    }

    /// `-m max`: the limit on the number of files.
    pub fn set_limit(&mut self, v: u64) -> (r: &mut Self)
        ensures
            r@.bin == old(self)@.bin,
            r@.global_opts == old(self)@.global_opts,
            r@.diff_opts == old(self)@.diff_opts,
            r@.mode@.force == old(self)@.mode@.force,
            r@.mode@.differing_only == old(self)@.mode@.differing_only,
            r@.mode@.diff_nontext == old(self)@.mode@.diff_nontext,
            r@.mode@.mode@.limit == v,
            *final(self) == *final(r),
    {
        self.mode.mode.limit = v;
        self
    }
}

} // verus!
