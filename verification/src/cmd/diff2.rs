//! `p4 diff2`: compare one set of depot files to another.
use vstd::prelude::*;

use crate::argv::{
    flag_args,
    lemma_args_concat_assoc,
    opt_str_ref_view,
    opt_str_view,
    push_arg,
    push_flag,
    push_pair,
    push_value,
    value_args,
};
use crate::cmd::{
    command_args, opt_diff_options_args, opt_diff_ref_view, opt_diff_view, push_diff_options,
    DiffOptions, DiffOptionsView, ExclusiveOption, SubCommand, Unselected,
};
use crate::command::CommandLine;
use crate::global::{GlobalOpts, GlobalOptsView};

verus! {

broadcast use lemma_args_concat_assoc;

/// `-b branch`: diffs the files mapped by a branch view.
#[derive(Debug, Clone, PartialEq, Eq)]
pub struct BranchMode {
    branch: String,
}

/// The mathematical view of [`BranchMode`].
pub struct BranchModeView {
    pub branch: Seq<char>,
}

impl View for BranchMode {
    type V = BranchModeView;

    closed spec fn view(&self) -> BranchModeView {
        BranchModeView { branch: self.branch@ }
    }
}

impl ExclusiveOption for BranchMode {
    open spec fn spec_args(&self) -> Seq<Seq<char>> {
        seq!["-b"@, self@.branch]
    }

    fn inject_args(&self, args: &mut Vec<String>) {
        push_pair(args, "-b", &self.branch);
    }
}

/// `-S stream [-P parent]`: diffs the files of a stream against its parent
/// (or another parent stream).
#[derive(Debug, Clone, PartialEq, Eq)]
pub struct StreamMode {
    stream: String,
    parent: Option<String>,
}

/// The mathematical view of [`StreamMode`].
pub struct StreamModeView {
    pub stream: Seq<char>,
    pub parent: Option<Seq<char>>,
}

impl View for StreamMode {
    type V = StreamModeView;

    closed spec fn view(&self) -> StreamModeView {
        StreamModeView { stream: self.stream@, parent: opt_str_view(self.parent) }
    }
}

impl ExclusiveOption for StreamMode {
    open spec fn spec_args(&self) -> Seq<Seq<char>> {
        seq!["-S"@, self@.stream] + value_args("-P"@, self@.parent)
    }

    fn inject_args(&self, args: &mut Vec<String>) {
        push_pair(args, "-S", &self.stream);
        push_value(args, "-P", &self.parent);
    }
}

/// `-As`: diffs two versions of a stream spec.
#[derive(Debug, Clone, Copy, Default, PartialEq, Eq, Structural)]
pub struct StreamSpecMode;

impl ExclusiveOption for StreamSpecMode {
    open spec fn spec_args(&self) -> Seq<Seq<char>> {
        seq!["-As"@]
    }

    fn inject_args(&self, args: &mut Vec<String>) {
        push_arg(args, "-As");
    }
}

/// Diffs of depot file contents: only differing files (`-Od`), quiet (`-q`),
/// non-text files (`-t`), unified patch output (`-u`), and optionally a
/// branch (`-b`) or stream (`-S`) selection.
#[derive(Debug, Clone, Default, PartialEq, Eq)]
pub struct DepotContent<M = Unselected> {
    differing_only: bool,
    quiet_mode: bool,
    diff_nontext: bool,
    unified_patch: bool,
    mode: M,
}

/// The mathematical view of [`DepotContent`].
pub struct DepotContentView<M> {
    pub differing_only: bool,
    pub quiet_mode: bool,
    pub diff_nontext: bool,
    pub unified_patch: bool,
    pub mode: M,
}

impl<M> View for DepotContent<M> {
    type V = DepotContentView<M>;

    closed spec fn view(&self) -> DepotContentView<M> {
        DepotContentView {
            differing_only: self.differing_only,
            quiet_mode: self.quiet_mode,
            diff_nontext: self.diff_nontext,
            unified_patch: self.unified_patch,
            mode: self.mode,
        }
    }
}

impl<M: ExclusiveOption> ExclusiveOption for DepotContent<M> {
    open spec fn spec_args(&self) -> Seq<Seq<char>> {
        flag_args(self@.differing_only, "-Od"@)
        + flag_args(self@.quiet_mode, "-q"@)
        + flag_args(self@.diff_nontext, "-t"@)
        + flag_args(self@.unified_patch, "-u"@)
        + self@.mode.spec_args()
    }

    fn inject_args(&self, args: &mut Vec<String>) {
        push_flag(args, self.differing_only, "-Od");
        push_flag(args, self.quiet_mode, "-q");
        push_flag(args, self.diff_nontext, "-t");
        push_flag(args, self.unified_patch, "-u");
        self.mode.inject_args(args);
    }
}

/// `p4 [g-opts] diff2 [options] fromFile[rev] toFile[rev]`
/// `p4 [g-opts] diff2 [options] -b branch [[fromFile[rev]] toFile[rev]]`
/// `p4 [g-opts] diff2 [options] -S stream [-P parent] [[fromFile[rev]] toFile[rev]]`
/// `p4 [g-opts] diff2 -As [-d<flags>] streamSpec[@change] streamSpec[@change]`
///
/// Compare one set of depot files to another; the forms are selected through
/// the mode type parameter.
#[derive(Debug)]
pub struct Diff2<M = Unselected> {
    bin: String,
    global_opts: GlobalOpts,
    diff_opts: Option<DiffOptions>,
    mode: M,
}

/// The mathematical view of [`Diff2`].
pub struct Diff2View<M> {
    pub bin: Seq<char>,
    pub global_opts: GlobalOptsView,
    pub diff_opts: Option<DiffOptionsView>,
    pub mode: M,
}

impl<M> View for Diff2<M> {
    type V = Diff2View<M>;

    closed spec fn view(&self) -> Diff2View<M> {
        Diff2View {
            bin: self.bin@,
            global_opts: self.global_opts@,
            diff_opts: opt_diff_view(self.diff_opts),
            mode: self.mode,
        }
    }
}

impl<M: ExclusiveOption> SubCommand for Diff2<M> {
    open spec fn spec_name(&self) -> Seq<char> {
        "diff2"@
    }

    open spec fn spec_local_args(&self) -> Seq<Seq<char>> {
        opt_diff_options_args(self@.diff_opts)
        + self@.mode.spec_args()
    }

    open spec fn spec_global_opts(&self) -> Option<GlobalOptsView> {
        Some(self@.global_opts)
    }

    fn name(&self) -> (r: &str) {
        "diff2"
    }

    fn inject_local_args(&self, args: &mut Vec<String>) {
        push_diff_options(args, &self.diff_opts);
        self.mode.inject_args(args);
    }

    fn global_opts(&self) -> (r: Option<&GlobalOpts>) {
        Some(&self.global_opts)
    }
}

impl Diff2<Unselected> {
    /// Compare one set of depot files to another.
    ///
    /// `bin` is the path to the Perforce command-line executable.
    pub fn new(bin: &str, global_opts: GlobalOpts) -> (r: Self)
        ensures
            r@.bin == bin@,
            r@.global_opts == global_opts@,
            r@.diff_opts is None,
            r@.mode == Unselected,
    {
        Diff2 {
            bin: bin.to_owned(),
            global_opts: global_opts,
            diff_opts: None,
            mode: Unselected,
        }
    }

    /// `-Od`: lists only the names of files that differ; selects the depot content form.
    pub fn differing_only(self, v: bool) -> (r: Diff2<DepotContent<Unselected>>)
        ensures
            r@.bin == self@.bin,
            r@.global_opts == self@.global_opts,
            r@.diff_opts == self@.diff_opts,
            r@.mode@.differing_only == v,
            r@.mode@.quiet_mode == false,
            r@.mode@.diff_nontext == false,
            r@.mode@.unified_patch == false,
            r@.mode@.mode == Unselected,
    {
        Diff2 {
            bin: self.bin,
            global_opts: self.global_opts,
            diff_opts: self.diff_opts,
            mode: DepotContent {
                differing_only: v,
                quiet_mode: false,
                diff_nontext: false,
                unified_patch: false,
                mode: Unselected,
            },
        }
    }

    /// `-q`: suppresses the display of the header lines of files whose content
    /// and types are identical; selects the depot content form.
    pub fn quiet_mode(self, v: bool) -> (r: Diff2<DepotContent<Unselected>>)
        ensures
            r@.bin == self@.bin,
            r@.global_opts == self@.global_opts,
            r@.diff_opts == self@.diff_opts,
            r@.mode@.differing_only == false,
            r@.mode@.quiet_mode == v,
            r@.mode@.diff_nontext == false,
            r@.mode@.unified_patch == false,
            r@.mode@.mode == Unselected,
    {
        Diff2 {
            bin: self.bin,
            global_opts: self.global_opts,
            diff_opts: self.diff_opts,
            mode: DepotContent {
                differing_only: false,
                quiet_mode: v,
                diff_nontext: false,
                unified_patch: false,
                mode: Unselected,
            },
        }
    }

    /// `-t`: diffs non-text files too; selects the depot content form.
    pub fn diff_nontext(self, v: bool) -> (r: Diff2<DepotContent<Unselected>>)
        ensures
            r@.bin == self@.bin,
            r@.global_opts == self@.global_opts,
            r@.diff_opts == self@.diff_opts,
            r@.mode@.differing_only == false,
            r@.mode@.quiet_mode == false,
            r@.mode@.diff_nontext == v,
            r@.mode@.unified_patch == false,
            r@.mode@.mode == Unselected,
    {
        Diff2 {
            bin: self.bin,
            global_opts: self.global_opts,
            diff_opts: self.diff_opts,
            mode: DepotContent {
                differing_only: false,
                quiet_mode: false,
                diff_nontext: v,
                unified_patch: false,
                mode: Unselected,
            },
        }
    }

    /// `-u`: writes the output in unified diff format, as `patch(1)` reads it; selects the depot content form.
    pub fn unified_patch(self, v: bool) -> (r: Diff2<DepotContent<Unselected>>)
        ensures
            r@.bin == self@.bin,
            r@.global_opts == self@.global_opts,
            r@.diff_opts == self@.diff_opts,
            r@.mode@.differing_only == false,
            r@.mode@.quiet_mode == false,
            r@.mode@.diff_nontext == false,
            r@.mode@.unified_patch == v,
            r@.mode@.mode == Unselected,
    {
        Diff2 {
            bin: self.bin,
            global_opts: self.global_opts,
            diff_opts: self.diff_opts,
            mode: DepotContent {
                differing_only: false,
                quiet_mode: false,
                diff_nontext: false,
                unified_patch: v,
                mode: Unselected,
            },
        }
    }

    /// `-b branch`: selects the branch form.
    pub fn branch(self, name: &str) -> (r: Diff2<DepotContent<BranchMode>>)
        ensures
            r@.bin == self@.bin,
            r@.global_opts == self@.global_opts,
            r@.diff_opts == self@.diff_opts,
            r@.mode@.differing_only == false,
            r@.mode@.quiet_mode == false,
            r@.mode@.diff_nontext == false,
            r@.mode@.unified_patch == false,
            r@.mode@.mode@.branch == name@,
    {
        Diff2 {
            bin: self.bin,
            global_opts: self.global_opts,
            diff_opts: self.diff_opts,
            mode: DepotContent {
                differing_only: false,
                quiet_mode: false,
                diff_nontext: false,
                unified_patch: false,
                mode: BranchMode { branch: name.to_owned() },
            },
        }
    }

    /// `-S stream`: selects the stream form.
    pub fn stream(self, name: &str) -> (r: Diff2<DepotContent<StreamMode>>)
        ensures
            r@.bin == self@.bin,
            r@.global_opts == self@.global_opts,
            r@.diff_opts == self@.diff_opts,
            r@.mode@.differing_only == false,
            r@.mode@.quiet_mode == false,
            r@.mode@.diff_nontext == false,
            r@.mode@.unified_patch == false,
            r@.mode@.mode@.stream == name@,
            r@.mode@.mode@.parent is None,
    {
        Diff2 {
            bin: self.bin,
            global_opts: self.global_opts,
            diff_opts: self.diff_opts,
            mode: DepotContent {
                differing_only: false,
                quiet_mode: false,
                diff_nontext: false,
                unified_patch: false,
                mode: StreamMode { stream: name.to_owned(), parent: None },
            },
        }
    }

    /// `-As`: selects the stream spec form.
    pub fn stream_spec_mode(self) -> (r: Diff2<StreamSpecMode>)
        ensures
            r@.bin == self@.bin,
            r@.global_opts == self@.global_opts,
            r@.diff_opts == self@.diff_opts,
            r@.mode == StreamSpecMode,
    {
        Diff2 {
            bin: self.bin,
            global_opts: self.global_opts,
            diff_opts: self.diff_opts,
            mode: StreamSpecMode,
        }
    }
}

impl<M> Diff2<M> {
    /// `-d<flags>`: the diff options.
    pub fn get_diff_options(&self) -> (r: Option<&DiffOptions>)
        ensures
            opt_diff_ref_view(r) == self@.diff_opts,
    {
        self.diff_opts.as_ref()
    }

    /// `-d<flags>`: the diff options.
    pub fn set_diff_options(&mut self, v: DiffOptions) -> (r: &mut Self)
        ensures
            r@.bin == old(self)@.bin,
            r@.global_opts == old(self)@.global_opts,
            r@.mode == old(self)@.mode,
            r@.diff_opts == Some(v@),
            *final(self) == *final(r),
    {
        self.diff_opts = Some(v);
        self
    }

    /// `-d<flags>`: the diff options.
    pub fn diff_options(self, v: DiffOptions) -> (r: Self)
        ensures
            r@.bin == self@.bin,
            r@.global_opts == self@.global_opts,
            r@.mode == self@.mode,
            r@.diff_opts == Some(v@),
    {
        let mut s = self;
        s.diff_opts = Some(v);
        s
    }
}

impl<M: ExclusiveOption> Diff2<M> {
    /// The command line that runs this command with the stored `p4` executable;
    /// operands (files, changelists, ...) follow it.
    pub fn command_line(&self) -> (c: CommandLine)
        ensures
            c@.program == self@.bin,
            c@.args == command_args(self),
    {
        self.setup_command(self.bin.as_str())
    }

    /// g-opts: the global options that precede the command; see [`GlobalOpts`].
    pub fn get_global_opts(&self) -> (r: &GlobalOpts)
        ensures
            r@ == self@.global_opts,
    {
        &self.global_opts
    }

    /// g-opts: the global options that precede the command; see [`GlobalOpts`].
    pub fn set_global_opts(&mut self, v: GlobalOpts) -> (r: &mut Self)
        ensures
            r@ == (Diff2View { global_opts: v@, ..old(self)@ }),
            *final(self) == *final(r),
    {
        self.global_opts = v;
        self
    }

    /// g-opts: the global options that precede the command; see [`GlobalOpts`].
    pub fn global_opts(self, v: GlobalOpts) -> (r: Self)
        ensures
            r@ == (Diff2View { global_opts: v@, ..self@ }),
    {
        let mut s = self;
        s.global_opts = v;
        s
    }
}

impl<M> Diff2<DepotContent<M>> {
    /// `-Od`: lists only the names of files that differ.
    pub fn get_differing_only(&self) -> (r: bool)
        ensures
            r == self@.mode@.differing_only,
    {
        self.mode.differing_only
    }

    /// `-Od`: lists only the names of files that differ.
    pub fn set_differing_only(&mut self, v: bool) -> (r: &mut Self)
        ensures
            r@.bin == old(self)@.bin,
            r@.global_opts == old(self)@.global_opts,
            r@.diff_opts == old(self)@.diff_opts,
            r@.mode@ == (DepotContentView { differing_only: v, ..old(self)@.mode@ }),
            *final(self) == *final(r),
    {
        self.mode.differing_only = v;
        self
    }

    /// `-Od`: lists only the names of files that differ.
    pub fn differing_only(self, v: bool) -> (r: Self)
        ensures
            r@.bin == self@.bin,
            r@.global_opts == self@.global_opts,
            r@.diff_opts == self@.diff_opts,
            r@.mode@ == (DepotContentView { differing_only: v, ..self@.mode@ }),
    {
        let mut s = self;
        s.mode.differing_only = v;
        s
    }

    /// `-q`: suppresses the display of the header lines of files whose content
    /// and types are identical.
    pub fn get_quiet_mode(&self) -> (r: bool)
        ensures
            r == self@.mode@.quiet_mode,
    {
        self.mode.quiet_mode
    }

    /// `-q`: suppresses the display of the header lines of files whose content
    /// and types are identical.
    pub fn set_quiet_mode(&mut self, v: bool) -> (r: &mut Self)
        ensures
            r@.bin == old(self)@.bin,
            r@.global_opts == old(self)@.global_opts,
            r@.diff_opts == old(self)@.diff_opts,
            r@.mode@ == (DepotContentView { quiet_mode: v, ..old(self)@.mode@ }),
            *final(self) == *final(r),
    {
        self.mode.quiet_mode = v;
        self
    }

    /// `-q`: suppresses the display of the header lines of files whose content
    /// and types are identical.
    pub fn quiet_mode(self, v: bool) -> (r: Self)
        ensures
            r@.bin == self@.bin,
            r@.global_opts == self@.global_opts,
            r@.diff_opts == self@.diff_opts,
            r@.mode@ == (DepotContentView { quiet_mode: v, ..self@.mode@ }),
    {
        let mut s = self;
        s.mode.quiet_mode = v;
        s
    }

    /// `-t`: diffs non-text files too.
    pub fn get_diff_nontext(&self) -> (r: bool)
        ensures
            r == self@.mode@.diff_nontext,
    {
        self.mode.diff_nontext
    }

    /// `-t`: diffs non-text files too.
    pub fn set_diff_nontext(&mut self, v: bool) -> (r: &mut Self)
        ensures
            r@.bin == old(self)@.bin,
            r@.global_opts == old(self)@.global_opts,
            r@.diff_opts == old(self)@.diff_opts,
            r@.mode@ == (DepotContentView { diff_nontext: v, ..old(self)@.mode@ }),
            *final(self) == *final(r),
    {
        self.mode.diff_nontext = v;
        self
    }

    /// `-t`: diffs non-text files too.
    pub fn diff_nontext(self, v: bool) -> (r: Self)
        ensures
            r@.bin == self@.bin,
            r@.global_opts == self@.global_opts,
            r@.diff_opts == self@.diff_opts,
            r@.mode@ == (DepotContentView { diff_nontext: v, ..self@.mode@ }),
    {
        let mut s = self;
        s.mode.diff_nontext = v;
        s
    }

    /// `-u`: writes the output in unified diff format, as `patch(1)` reads it.
    pub fn get_unified_patch(&self) -> (r: bool)
        ensures
            r == self@.mode@.unified_patch,
    {
        self.mode.unified_patch
    }

    /// `-u`: writes the output in unified diff format, as `patch(1)` reads it.
    pub fn set_unified_patch(&mut self, v: bool) -> (r: &mut Self)
        ensures
            r@.bin == old(self)@.bin,
            r@.global_opts == old(self)@.global_opts,
            r@.diff_opts == old(self)@.diff_opts,
            r@.mode@ == (DepotContentView { unified_patch: v, ..old(self)@.mode@ }),
            *final(self) == *final(r),
    {
        self.mode.unified_patch = v;
        self
    }

    /// `-u`: writes the output in unified diff format, as `patch(1)` reads it.
    pub fn unified_patch(self, v: bool) -> (r: Self)
        ensures
            r@.bin == self@.bin,
            r@.global_opts == self@.global_opts,
            r@.diff_opts == self@.diff_opts,
            r@.mode@ == (DepotContentView { unified_patch: v, ..self@.mode@ }),
    {
        let mut s = self;
        s.mode.unified_patch = v;
        s
    }
}

impl Diff2<DepotContent<Unselected>> {
    /// `-b branch`: selects the branch form, keeping the depot content flags.
    pub fn branch(self, name: &str) -> (r: Diff2<DepotContent<BranchMode>>)
        ensures
            r@.bin == self@.bin,
            r@.global_opts == self@.global_opts,
            r@.diff_opts == self@.diff_opts,
            r@.mode@.differing_only == self@.mode@.differing_only,
            r@.mode@.quiet_mode == self@.mode@.quiet_mode,
            r@.mode@.diff_nontext == self@.mode@.diff_nontext,
            r@.mode@.unified_patch == self@.mode@.unified_patch,
            r@.mode@.mode@.branch == name@,
    {
        Diff2 {
            bin: self.bin,
            global_opts: self.global_opts,
            diff_opts: self.diff_opts,
            mode: DepotContent {
                differing_only: self.mode.differing_only,
                quiet_mode: self.mode.quiet_mode,
                diff_nontext: self.mode.diff_nontext,
                unified_patch: self.mode.unified_patch,
                mode: BranchMode { branch: name.to_owned() },
            },
        }
    }

    /// `-S stream`: selects the stream form, keeping the depot content flags.
    pub fn stream(self, name: &str) -> (r: Diff2<DepotContent<StreamMode>>)
        ensures
            r@.bin == self@.bin,
            r@.global_opts == self@.global_opts,
            r@.diff_opts == self@.diff_opts,
            r@.mode@.differing_only == self@.mode@.differing_only,
            r@.mode@.quiet_mode == self@.mode@.quiet_mode,
            r@.mode@.diff_nontext == self@.mode@.diff_nontext,
            r@.mode@.unified_patch == self@.mode@.unified_patch,
            r@.mode@.mode@.stream == name@,
            r@.mode@.mode@.parent is None,
    {
        Diff2 {
            bin: self.bin,
            global_opts: self.global_opts,
            diff_opts: self.diff_opts,
            mode: DepotContent {
                differing_only: self.mode.differing_only,
                quiet_mode: self.mode.quiet_mode,
                diff_nontext: self.mode.diff_nontext,
                unified_patch: self.mode.unified_patch,
                mode: StreamMode { stream: name.to_owned(), parent: None },
            },
        }
    }
}

impl Diff2<DepotContent<BranchMode>> {
    /// `-b branch`: the branch whose view maps the files.
    pub fn get_branch(&self) -> (r: &str)
        ensures
            r@ == self@.mode@.mode@.branch,
    {
        self.mode.mode.branch.as_str()
    }

    /// `-b branch`: the branch whose view maps the files.
    pub fn set_branch(&mut self, v: &str) -> (r: &mut Self)
        ensures
            r@.bin == old(self)@.bin,
            r@.global_opts == old(self)@.global_opts,
            r@.diff_opts == old(self)@.diff_opts,
            r@.mode@.differing_only == old(self)@.mode@.differing_only,
            r@.mode@.quiet_mode == old(self)@.mode@.quiet_mode,
            r@.mode@.diff_nontext == old(self)@.mode@.diff_nontext,
            r@.mode@.unified_patch == old(self)@.mode@.unified_patch,
            r@.mode@.mode@ == (BranchModeView { branch: v@, ..old(self)@.mode@.mode@ }),
            *final(self) == *final(r),
    {
        self.mode.mode.branch = v.to_owned();
        self
    }

    /// `-b branch`: the branch whose view maps the files.
    pub fn branch(self, v: &str) -> (r: Self)
        ensures
            r@.bin == self@.bin,
            r@.global_opts == self@.global_opts,
            r@.diff_opts == self@.diff_opts,
            r@.mode@.differing_only == self@.mode@.differing_only,
            r@.mode@.quiet_mode == self@.mode@.quiet_mode,
            r@.mode@.diff_nontext == self@.mode@.diff_nontext,
            r@.mode@.unified_patch == self@.mode@.unified_patch,
            r@.mode@.mode@ == (BranchModeView { branch: v@, ..self@.mode@.mode@ }),
    {
        let mut s = self;
        s.mode.mode.branch = v.to_owned();
        s
    }
}

impl Diff2<DepotContent<StreamMode>> {
    /// `-S stream`: the stream to compare.
    pub fn get_stream(&self) -> (r: &str)
        ensures
            r@ == self@.mode@.mode@.stream,
    {
        self.mode.mode.stream.as_str()
    }

    /// `-S stream`: the stream to compare.
    pub fn set_stream(&mut self, v: &str) -> (r: &mut Self)
        ensures
            r@.bin == old(self)@.bin,
            r@.global_opts == old(self)@.global_opts,
            r@.diff_opts == old(self)@.diff_opts,
            r@.mode@.differing_only == old(self)@.mode@.differing_only,
            r@.mode@.quiet_mode == old(self)@.mode@.quiet_mode,
            r@.mode@.diff_nontext == old(self)@.mode@.diff_nontext,
            r@.mode@.unified_patch == old(self)@.mode@.unified_patch,
            r@.mode@.mode@ == (StreamModeView { stream: v@, ..old(self)@.mode@.mode@ }),
            *final(self) == *final(r),
    {
        self.mode.mode.stream = v.to_owned();
        self
    }

    /// `-S stream`: the stream to compare.
    pub fn stream(self, v: &str) -> (r: Self)
        ensures
            r@.bin == self@.bin,
            r@.global_opts == self@.global_opts,
            r@.diff_opts == self@.diff_opts,
            r@.mode@.differing_only == self@.mode@.differing_only,
            r@.mode@.quiet_mode == self@.mode@.quiet_mode,
            r@.mode@.diff_nontext == self@.mode@.diff_nontext,
            r@.mode@.unified_patch == self@.mode@.unified_patch,
            r@.mode@.mode@ == (StreamModeView { stream: v@, ..self@.mode@.mode@ }),
    {
        let mut s = self;
        s.mode.mode.stream = v.to_owned();
        s
    }

    /// `-P parent`: the parent stream to compare against.
    pub fn get_parent(&self) -> (r: Option<&str>)
        ensures
            opt_str_ref_view(r) == self@.mode@.mode@.parent,
    {
        match &self.mode.mode.parent {
            Some(p) => Some(p.as_str()),
            None => None,
        }
    }

    /// `-P parent`: the parent stream to compare against.
    pub fn set_parent(&mut self, v: &str) -> (r: &mut Self)
        ensures
            r@.bin == old(self)@.bin,
            r@.global_opts == old(self)@.global_opts,
            r@.diff_opts == old(self)@.diff_opts,
            r@.mode@.differing_only == old(self)@.mode@.differing_only,
            r@.mode@.quiet_mode == old(self)@.mode@.quiet_mode,
            r@.mode@.diff_nontext == old(self)@.mode@.diff_nontext,
            r@.mode@.unified_patch == old(self)@.mode@.unified_patch,
            r@.mode@.mode@ == (StreamModeView { parent: Some(v@), ..old(self)@.mode@.mode@ }),
            *final(self) == *final(r),
    {
        self.mode.mode.parent = Some(v.to_owned());
        self
    }

    /// `-P parent`: the parent stream to compare against.
    pub fn parent(self, v: &str) -> (r: Self)
        ensures
            r@.bin == self@.bin,
            r@.global_opts == self@.global_opts,
            r@.diff_opts == self@.diff_opts,
            r@.mode@.differing_only == self@.mode@.differing_only,
            r@.mode@.quiet_mode == self@.mode@.quiet_mode,
            r@.mode@.diff_nontext == self@.mode@.diff_nontext,
            r@.mode@.unified_patch == self@.mode@.unified_patch,
            r@.mode@.mode@ == (StreamModeView { parent: Some(v@), ..self@.mode@.mode@ }),
    {
        let mut s = self;
        s.mode.mode.parent = Some(v.to_owned());
        s
    }
}

} // verus!
