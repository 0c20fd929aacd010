//! `p4 describe`: display a changelist description.
use vstd::prelude::*;

use crate::argv::{
    flag_args,
    lemma_args_concat_assoc,
    number_args,
    push_arg,
    push_flag,
    push_number,
};
use crate::cmd::{
    command_args, opt_diff_options_args, opt_diff_ref_view, opt_diff_view, push_diff_options,
    DiffOptions, DiffOptionsView, ExclusiveOption, SubCommand, Unselected,
};
use crate::command::CommandLine;
use crate::global::{GlobalOpts, GlobalOptsView};

verus! {

broadcast use lemma_args_concat_assoc;

/// `-s`: short output, without the diffs of the files.
#[derive(Debug, Clone, Copy, Default, PartialEq, Eq, Structural)]
pub struct ShortSummaryMode;

impl ExclusiveOption for ShortSummaryMode {
    open spec fn spec_args(&self) -> Seq<Seq<char>> {
        seq!["-s"@]
    }

    fn inject_args(&self, args: &mut Vec<String>) {
        push_arg(args, "-s");
    }
}

/// Output with the diffs of the files, optionally including the content of
/// added files (`-a`) and diff options (`-d<flags>`).
#[derive(Debug, Clone, PartialEq, Eq)]
pub struct DetailDiffMode {
    diff_options: Option<DiffOptions>,
    display_added_text_content: bool,
}

/// The mathematical view of [`DetailDiffMode`].
pub struct DetailDiffModeView {
    pub diff_options: Option<DiffOptionsView>,
    pub display_added_text_content: bool,
}

impl View for DetailDiffMode {
    type V = DetailDiffModeView;

    closed spec fn view(&self) -> DetailDiffModeView {
        DetailDiffModeView {
            diff_options: opt_diff_view(self.diff_options),
            display_added_text_content: self.display_added_text_content,
        }
    }
}

impl ExclusiveOption for DetailDiffMode {
    open spec fn spec_args(&self) -> Seq<Seq<char>> {
        flag_args(self@.display_added_text_content, "-a"@) + opt_diff_options_args(
            self@.diff_options,
        )
    }

    fn inject_args(&self, args: &mut Vec<String>) {
        push_flag(args, self.display_added_text_content, "-a");
        push_diff_options(args, &self.diff_options);
    }
}

/// `p4 [g-opts] describe [-d<flags> -a -f -I -m max -O -s -S] changelist# ...`
///
/// Display a changelist description, including the files affected.
///
/// Short output (`-s`) and output with diffs (`-a`, `-d<flags>`) are mutually
/// exclusive and selected through the mode type parameter.
#[derive(Debug)]
pub struct Describe<M = Unselected> {
    bin: String,
    global_opts: GlobalOpts,
    force_restricted: bool,
    use_identity: bool,
    limit: Option<u64>,
    use_original_number: bool,
    include_shelved_files: bool,
    mode: M,
}

/// The mathematical view of [`Describe`].
pub struct DescribeView<M> {
    pub bin: Seq<char>,
    pub global_opts: GlobalOptsView,
    pub force_restricted: bool,
    pub use_identity: bool,
    pub limit: Option<u64>,
    pub use_original_number: bool,
    pub include_shelved_files: bool,
    pub mode: M,
}

impl<M> View for Describe<M> {
    type V = DescribeView<M>;

    closed spec fn view(&self) -> DescribeView<M> {
        DescribeView {
            bin: self.bin@,
            global_opts: self.global_opts@,
            force_restricted: self.force_restricted,
            use_identity: self.use_identity,
            limit: self.limit,
            use_original_number: self.use_original_number,
            include_shelved_files: self.include_shelved_files,
            mode: self.mode,
        }
    }
}

impl<M: ExclusiveOption> SubCommand for Describe<M> {
    open spec fn spec_name(&self) -> Seq<char> {
        "describe"@
    }

    open spec fn spec_local_args(&self) -> Seq<Seq<char>> {
        self@.mode.spec_args()
        + flag_args(self@.force_restricted, "-f"@)
        + flag_args(self@.use_identity, "-I"@)
        + number_args("-m"@, self@.limit)
        + flag_args(self@.use_original_number, "-O"@)
        + flag_args(self@.include_shelved_files, "-S"@)
    }

    open spec fn spec_global_opts(&self) -> Option<GlobalOptsView> {
        Some(self@.global_opts)
    }

    fn name(&self) -> (r: &str) {
        "describe"
    }

    fn inject_local_args(&self, args: &mut Vec<String>) {
        self.mode.inject_args(args);
        push_flag(args, self.force_restricted, "-f");
        push_flag(args, self.use_identity, "-I");
        push_number(args, "-m", self.limit);
        push_flag(args, self.use_original_number, "-O");
        push_flag(args, self.include_shelved_files, "-S");
    }

    fn global_opts(&self) -> (r: Option<&GlobalOpts>) {
        Some(&self.global_opts)
    }
}

impl Describe<Unselected> {
    /// Display a changelist description.
    ///
    /// `bin` is the path to the Perforce command-line executable.
    pub fn new(bin: &str, global_opts: GlobalOpts) -> (r: Self)
        ensures
            r@.bin == bin@,
            r@.global_opts == global_opts@,
            r@.force_restricted == false,
            r@.use_identity == false,
            r@.limit is None,
            r@.use_original_number == false,
            r@.include_shelved_files == false,
            r@.mode == Unselected,
    {
        Describe {
            bin: bin.to_owned(),
            global_opts: global_opts,
            force_restricted: false,
            use_identity: false,
            limit: None,
            use_original_number: false,
            include_shelved_files: false,
            mode: Unselected,
        }
    }

    /// `-s`: selects the short output, without diffs.
    pub fn short_summary_output(self) -> (r: Describe<ShortSummaryMode>)
        ensures
            r@.bin == self@.bin,
            r@.global_opts == self@.global_opts,
            r@.force_restricted == self@.force_restricted,
            r@.use_identity == self@.use_identity,
            r@.limit == self@.limit,
            r@.use_original_number == self@.use_original_number,
            r@.include_shelved_files == self@.include_shelved_files,
            r@.mode == ShortSummaryMode,
    {
        Describe {
            bin: self.bin,
            global_opts: self.global_opts,
            force_restricted: self.force_restricted,
            use_identity: self.use_identity,
            limit: self.limit,
            use_original_number: self.use_original_number,
            include_shelved_files: self.include_shelved_files,
            mode: ShortSummaryMode,
        }
    }

    /// `-a`: selects the output with diffs, including the content of added text
    /// files when `v` holds.
    pub fn display_added_text_content(self, v: bool) -> (r: Describe<DetailDiffMode>)
        ensures
            r@.bin == self@.bin,
            r@.global_opts == self@.global_opts,
            r@.force_restricted == self@.force_restricted,
            r@.use_identity == self@.use_identity,
            r@.limit == self@.limit,
            r@.use_original_number == self@.use_original_number,
            r@.include_shelved_files == self@.include_shelved_files,
            r@.mode@.diff_options is None,
            r@.mode@.display_added_text_content == v,
    {
        Describe {
            bin: self.bin,
            global_opts: self.global_opts,
            force_restricted: self.force_restricted,
            use_identity: self.use_identity,
            limit: self.limit,
            use_original_number: self.use_original_number,
            include_shelved_files: self.include_shelved_files,
            mode: DetailDiffMode { diff_options: None, display_added_text_content: v },
        }
    }

    /// `-d<flags>`: selects the output with diffs, made with the given diff options.
    pub fn diff_options(self, v: DiffOptions) -> (r: Describe<DetailDiffMode>)
        ensures
            r@.bin == self@.bin,
            r@.global_opts == self@.global_opts,
            r@.force_restricted == self@.force_restricted,
            r@.use_identity == self@.use_identity,
            r@.limit == self@.limit,
            r@.use_original_number == self@.use_original_number,
            r@.include_shelved_files == self@.include_shelved_files,
            r@.mode@.diff_options == Some(v@),
            r@.mode@.display_added_text_content == false,
    {
        Describe {
            bin: self.bin,
            global_opts: self.global_opts,
            force_restricted: self.force_restricted,
            use_identity: self.use_identity,
            limit: self.limit,
            use_original_number: self.use_original_number,
            include_shelved_files: self.include_shelved_files,
            mode: DetailDiffMode { diff_options: Some(v), display_added_text_content: false },
        }
    }
}

impl<M: ExclusiveOption> Describe<M> {
    /// The command line that runs this command with the stored `p4` executable;
    /// operands (files, changelists, ...) follow it.
    pub fn command_line(&self) -> (c: CommandLine)
        ensures
            c@.program == self@.bin,
            c@.args == command_args(self),
    {
        self.setup_command(self.bin.as_str())
    }

    /// g-opts: the global options that precede the command; see [`GlobalOpts`].
    pub fn get_global_opts(&self) -> (r: &GlobalOpts)
        ensures
            r@ == self@.global_opts,
    {
        &self.global_opts
    }

    /// g-opts: the global options that precede the command; see [`GlobalOpts`].
    pub fn set_global_opts(&mut self, v: GlobalOpts) -> (r: &mut Self)
        ensures
            r@ == (DescribeView { global_opts: v@, ..old(self)@ }),
            *final(self) == *final(r),
    {
        self.global_opts = v;
        self
    }

    /// g-opts: the global options that precede the command; see [`GlobalOpts`].
    pub fn global_opts(self, v: GlobalOpts) -> (r: Self)
        ensures
            r@ == (DescribeView { global_opts: v@, ..self@ }),
    {
        let mut s = self;
        s.global_opts = v;
        s
    }

    /// `-f`: forces the display of descriptions of restricted changelists.
    pub fn get_force_restricted(&self) -> (r: bool)
        ensures
            r == self@.force_restricted,
    {
        self.force_restricted
    }

    /// `-f`: forces the display of descriptions of restricted changelists.
    pub fn set_force_restricted(&mut self, v: bool) -> (r: &mut Self)
        ensures
            r@ == (DescribeView { force_restricted: v, ..old(self)@ }),
            *final(self) == *final(r),
    {
        self.force_restricted = v;
        self
    }

    /// `-f`: forces the display of descriptions of restricted changelists.
    pub fn force_restricted(self, v: bool) -> (r: Self)
        ensures
            r@ == (DescribeView { force_restricted: v, ..self@ }),
    {
        let mut s = self;
        s.force_restricted = v;
        s
    }

    /// `-I`: interprets the changelist number as an identity (with `-O`).
    pub fn get_use_identity(&self) -> (r: bool)
        ensures
            r == self@.use_identity,
    {
        self.use_identity
    }

    /// `-I`: interprets the changelist number as an identity (with `-O`).
    pub fn set_use_identity(&mut self, v: bool) -> (r: &mut Self)
        ensures
            r@ == (DescribeView { use_identity: v, ..old(self)@ }),
            *final(self) == *final(r),
    {
        self.use_identity = v;
        self
    }

    /// `-I`: interprets the changelist number as an identity (with `-O`).
    pub fn use_identity(self, v: bool) -> (r: Self)
        ensures
            r@ == (DescribeView { use_identity: v, ..self@ }),
    {
        let mut s = self;
        s.use_identity = v;
        s
    }

    /// `-m max`: limits the files displayed to the first `max` files.
    pub fn get_limit(&self) -> (r: Option<u64>)
        ensures
            r == self@.limit,
    {
        self.limit
    }

    /// `-m max`: limits the files displayed to the first `max` files.
    pub fn set_limit(&mut self, v: u64) -> (r: &mut Self)
        ensures
            r@ == (DescribeView { limit: Some(v), ..old(self)@ }),
            *final(self) == *final(r),
    {
        self.limit = Some(v);
        self
    }

    /// `-m max`: limits the files displayed to the first `max` files.
    pub fn limit(self, v: u64) -> (r: Self)
        ensures
            r@ == (DescribeView { limit: Some(v), ..self@ }),
    {
        let mut s = self;
        s.limit = Some(v);
        s
    }

    /// `-O`: interprets the changelist number as the original number of a renumbered
    /// changelist.
    pub fn get_use_original_number(&self) -> (r: bool)
        ensures
            r == self@.use_original_number,
    {
        self.use_original_number
    }

    /// `-O`: interprets the changelist number as the original number of a renumbered
    /// changelist.
    pub fn set_use_original_number(&mut self, v: bool) -> (r: &mut Self)
        ensures
            r@ == (DescribeView { use_original_number: v, ..old(self)@ }),
            *final(self) == *final(r),
    {
        self.use_original_number = v;
        self
    }

    /// `-O`: interprets the changelist number as the original number of a renumbered
    /// changelist.
    pub fn use_original_number(self, v: bool) -> (r: Self)
        ensures
            r@ == (DescribeView { use_original_number: v, ..self@ }),
    {
        let mut s = self;
        s.use_original_number = v;
        s
    }

    /// `-S`: lists the files that are shelved for the changelist, and their diffs.
    pub fn get_include_shelved_files(&self) -> (r: bool)
        ensures
            r == self@.include_shelved_files,
    {
        self.include_shelved_files
    }

    /// `-S`: lists the files that are shelved for the changelist, and their diffs.
    pub fn set_include_shelved_files(&mut self, v: bool) -> (r: &mut Self)
        ensures
            r@ == (DescribeView { include_shelved_files: v, ..old(self)@ }),
            *final(self) == *final(r),
    {
        self.include_shelved_files = v;
        self
    }

    /// `-S`: lists the files that are shelved for the changelist, and their diffs.
    pub fn include_shelved_files(self, v: bool) -> (r: Self)
        ensures
            r@ == (DescribeView { include_shelved_files: v, ..self@ }),
    {
        let mut s = self;
        s.include_shelved_files = v;
        s
    }
}

impl Describe<DetailDiffMode> {
    /// `-d<flags>`: the diff options of the file diffs.
    pub fn get_diff_options(&self) -> (r: Option<&DiffOptions>)
        ensures
            opt_diff_ref_view(r) == self@.mode@.diff_options,
    {
        self.mode.diff_options.as_ref()
    }

    /// `-d<flags>`: the diff options of the file diffs.
    pub fn set_diff_options(&mut self, v: DiffOptions) -> (r: &mut Self)
        ensures
            r@.bin == old(self)@.bin,
            r@.global_opts == old(self)@.global_opts,
            r@.force_restricted == old(self)@.force_restricted,
            r@.use_identity == old(self)@.use_identity,
            r@.limit == old(self)@.limit,
            r@.use_original_number == old(self)@.use_original_number,
            r@.include_shelved_files == old(self)@.include_shelved_files,
            r@.mode@ == (DetailDiffModeView { diff_options: Some(v@), ..old(self)@.mode@ }),
            *final(self) == *final(r),
    {
        self.mode.diff_options = Some(v);
        self
    }

    /// `-a`: includes the content of added text files in the diffs.
    pub fn get_display_added_text_content(&self) -> (r: bool)
        ensures
            r == self@.mode@.display_added_text_content,
    {
        self.mode.display_added_text_content
    }

    /// `-a`: includes the content of added text files in the diffs.
    pub fn set_display_added_text_content(&mut self, v: bool) -> (r: &mut Self)
        ensures
            r@.bin == old(self)@.bin,
            r@.global_opts == old(self)@.global_opts,
            r@.force_restricted == old(self)@.force_restricted,
            r@.use_identity == old(self)@.use_identity,
            r@.limit == old(self)@.limit,
            r@.use_original_number == old(self)@.use_original_number,
            r@.include_shelved_files == old(self)@.include_shelved_files,
            r@.mode@ == (DetailDiffModeView { display_added_text_content: v, ..old(self)@.mode@ }),
            *final(self) == *final(r),
    {
        self.mode.display_added_text_content = v;
        self
    }
}

} // verus!
