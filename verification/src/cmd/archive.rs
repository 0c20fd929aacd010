//! `p4 archive`: archive obsolete revisions to an archive depot.
use vstd::prelude::*;

use crate::argv::{
    flag_args,
    lemma_args_concat_assoc,
    opt_ref_view,
    opt_str_view,
    push_arg,
    push_flag,
    push_value,
    value_args,
};
use crate::cmd::{command_args, ExclusiveOption, SubCommand};
use crate::command::CommandLine;
use crate::global::{GlobalOpts, GlobalOptsView};

verus! {

broadcast use lemma_args_concat_assoc;

/// The default archive mode, which keeps the head revisions and files that
/// are not lazy copies unless told otherwise (`-h`, `-z`).
#[derive(Debug, Clone, Copy, Default, PartialEq, Eq)]
pub struct SafeArchive {
    skip_head_revisions: bool,
    include_lazy_copies: bool,
}

/// The mathematical view of [`SafeArchive`].
pub struct SafeArchiveView {
    pub skip_head_revisions: bool,
    pub include_lazy_copies: bool,
}

impl View for SafeArchive {
    type V = SafeArchiveView;

    closed spec fn view(&self) -> SafeArchiveView {
        SafeArchiveView {
            skip_head_revisions: self.skip_head_revisions,
            include_lazy_copies: self.include_lazy_copies,
        }
    }
}

impl ExclusiveOption for SafeArchive {
    open spec fn spec_args(&self) -> Seq<Seq<char>> {
        flag_args(self@.skip_head_revisions, "-h"@)
        + flag_args(self@.include_lazy_copies, "-z"@)
    }

    fn inject_args(&self, args: &mut Vec<String>) {
        push_flag(args, self.skip_head_revisions, "-h");
        push_flag(args, self.include_lazy_copies, "-z");
    }
}

/// `-p`: purge the archived revisions from the archive depot instead of
/// archiving them; excludes `-h` and `-z`.
#[derive(Debug, Clone, Copy, Default, PartialEq, Eq, Structural)]
pub struct PhysicalPurge;

impl ExclusiveOption for PhysicalPurge {
    open spec fn spec_args(&self) -> Seq<Seq<char>> {
        seq!["-p"@]
    }

    fn inject_args(&self, args: &mut Vec<String>) {
        push_arg(args, "-p");
    }
}

/// `p4 [g-opts] archive -D depot [-h -n -p -q -t -z] file[revRange] ...`
///
/// Archive obsolete revisions to an archive depot.
#[derive(Debug)]
pub struct Archive<S = SafeArchive> {
    bin: String,
    global_opts: GlobalOpts,
    preview: bool,
    quiet_mode: bool,
    archive_delta: bool,
    depot: Option<String>,
    archive_mode: S,
}

/// The mathematical view of [`Archive`].
pub struct ArchiveView<S> {
    pub bin: Seq<char>,
    pub global_opts: GlobalOptsView,
    pub preview: bool,
    pub quiet_mode: bool,
    pub archive_delta: bool,
    pub depot: Option<Seq<char>>,
    pub archive_mode: S,
}

impl<S> View for Archive<S> {
    type V = ArchiveView<S>;

    closed spec fn view(&self) -> ArchiveView<S> {
        ArchiveView {
            bin: self.bin@,
            global_opts: self.global_opts@,
            preview: self.preview,
            quiet_mode: self.quiet_mode,
            archive_delta: self.archive_delta,
            depot: opt_str_view(self.depot),
            archive_mode: self.archive_mode,
        }
    }
}

impl<S: ExclusiveOption> SubCommand for Archive<S> {
    open spec fn spec_name(&self) -> Seq<char> {
        "archive"@
    }

    open spec fn spec_local_args(&self) -> Seq<Seq<char>> {
        self@.archive_mode.spec_args()
        + flag_args(self@.preview, "-n"@)
        + flag_args(self@.quiet_mode, "-q"@)
        + flag_args(self@.archive_delta, "-t"@)
        + value_args("-D"@, self@.depot)
    }

    open spec fn spec_global_opts(&self) -> Option<GlobalOptsView> {
        Some(self@.global_opts)
    }

    fn name(&self) -> (r: &str) {
        "archive"
    }

    fn inject_local_args(&self, args: &mut Vec<String>) {
        self.archive_mode.inject_args(args);
        push_flag(args, self.preview, "-n");
        push_flag(args, self.quiet_mode, "-q");
        push_flag(args, self.archive_delta, "-t");
        push_value(args, "-D", &self.depot);
    }

    fn global_opts(&self) -> (r: Option<&GlobalOpts>) {
        Some(&self.global_opts)
    }
}

impl Archive<SafeArchive> {
    /// Archive obsolete revisions to an archive depot.
    ///
    /// `bin` is the path to the Perforce command-line executable.
    pub fn new(bin: &str, global_opts: GlobalOpts) -> (r: Self)
        ensures
            r@.bin == bin@,
            r@.global_opts == global_opts@,
            r@.preview == false,
            r@.quiet_mode == false,
            r@.archive_delta == false,
            r@.depot is None,
            r@.archive_mode@ == (SafeArchiveView {
                skip_head_revisions: false,
                include_lazy_copies: false,
            }),
    {
        Archive {
            bin: bin.to_owned(),
            global_opts: global_opts,
            preview: false,
            quiet_mode: false,
            archive_delta: false,
            depot: None,
            archive_mode: SafeArchive { skip_head_revisions: false, include_lazy_copies: false },
        }
    }

    /// `-p`: purges the revisions instead of archiving them; the `-h` and `-z`
    /// settings no longer apply.
    pub fn purge_physical_files(self) -> (r: Archive<PhysicalPurge>)
        ensures
            r@.bin == self@.bin,
            r@.global_opts == self@.global_opts,
            r@.preview == self@.preview,
            r@.quiet_mode == self@.quiet_mode,
            r@.archive_delta == self@.archive_delta,
            r@.depot == self@.depot,
            r@.archive_mode == PhysicalPurge,
    {
        Archive {
            bin: self.bin,
            global_opts: self.global_opts,
            preview: self.preview,
            quiet_mode: self.quiet_mode,
            archive_delta: self.archive_delta,
            depot: self.depot,
            archive_mode: PhysicalPurge,
        }
    }

    /// `-h`: does not archive the head revisions of files.
    pub fn get_skip_head_revisions(&self) -> (r: bool)
        ensures
            r == self@.archive_mode@.skip_head_revisions,
    {
        self.archive_mode.skip_head_revisions
    }

    /// `-h`: does not archive the head revisions of files.
    pub fn set_skip_head_revisions(&mut self, v: bool) -> (r: &mut Self)
        ensures
            r@.bin == old(self)@.bin,
            r@.global_opts == old(self)@.global_opts,
            r@.preview == old(self)@.preview,
            r@.quiet_mode == old(self)@.quiet_mode,
            r@.archive_delta == old(self)@.archive_delta,
            r@.depot == old(self)@.depot,
            r@.archive_mode@ == (SafeArchiveView {
                skip_head_revisions: v,
                ..old(self)@.archive_mode@
            }),
            *final(self) == *final(r),
    {
        self.archive_mode.skip_head_revisions = v;
        self
    }

    /// `-h`: does not archive the head revisions of files.
    pub fn skip_head_revisions(self, v: bool) -> (r: Self)
        ensures
            r@.bin == self@.bin,
            r@.global_opts == self@.global_opts,
            r@.preview == self@.preview,
            r@.quiet_mode == self@.quiet_mode,
            r@.archive_delta == self@.archive_delta,
            r@.depot == self@.depot,
            r@.archive_mode@ == (SafeArchiveView { skip_head_revisions: v, ..self@.archive_mode@ }),
    {
        let mut s = self;
        s.archive_mode.skip_head_revisions = v;
        s
    }

    /// `-z`: also archives lazy copies of the revisions.
    pub fn get_include_lazy_copies(&self) -> (r: bool)
        ensures
            r == self@.archive_mode@.include_lazy_copies,
    {
        self.archive_mode.include_lazy_copies
    }

    /// `-z`: also archives lazy copies of the revisions.
    pub fn set_include_lazy_copies(&mut self, v: bool) -> (r: &mut Self)
        ensures
            r@.bin == old(self)@.bin,
            r@.global_opts == old(self)@.global_opts,
            r@.preview == old(self)@.preview,
            r@.quiet_mode == old(self)@.quiet_mode,
            r@.archive_delta == old(self)@.archive_delta,
            r@.depot == old(self)@.depot,
            r@.archive_mode@ == (SafeArchiveView {
                include_lazy_copies: v,
                ..old(self)@.archive_mode@
            }),
            *final(self) == *final(r),
    {
        self.archive_mode.include_lazy_copies = v;
        self
    }

    /// `-z`: also archives lazy copies of the revisions.
    pub fn include_lazy_copies(self, v: bool) -> (r: Self)
        ensures
            r@.bin == self@.bin,
            r@.global_opts == self@.global_opts,
            r@.preview == self@.preview,
            r@.quiet_mode == self@.quiet_mode,
            r@.archive_delta == self@.archive_delta,
            r@.depot == self@.depot,
            r@.archive_mode@ == (SafeArchiveView { include_lazy_copies: v, ..self@.archive_mode@ }),
    {
        let mut s = self;
        s.archive_mode.include_lazy_copies = v;
        s
    }
}

impl<S: ExclusiveOption> Archive<S> {
    /// The command line that runs this command with the stored `p4` executable;
    /// operands (files, changelists, ...) follow it.
    pub fn command_line(&self) -> (c: CommandLine)
        ensures
            c@.program == self@.bin,
            c@.args == command_args(self),
    {
        self.setup_command(self.bin.as_str())
    }

    /// g-opts: the global options that precede the command; see [`GlobalOpts`].
    pub fn get_global_opts(&self) -> (r: &GlobalOpts)
        ensures
            r@ == self@.global_opts,
    {
        &self.global_opts
    }

    /// g-opts: the global options that precede the command; see [`GlobalOpts`].
    pub fn set_global_opts(&mut self, v: GlobalOpts) -> (r: &mut Self)
        ensures
            r@ == (ArchiveView { global_opts: v@, ..old(self)@ }),
            *final(self) == *final(r),
    {
        self.global_opts = v;
        self
    }

    /// g-opts: the global options that precede the command; see [`GlobalOpts`].
    pub fn global_opts(self, v: GlobalOpts) -> (r: Self)
        ensures
            r@ == (ArchiveView { global_opts: v@, ..self@ }),
    {
        let mut s = self;
        s.global_opts = v;
        s
    }

    /// `-D depot`: the archive depot to which the revisions are transferred.
    pub fn get_depot(&self) -> (r: Option<&String>)
        ensures
            opt_ref_view(r) == self@.depot,
    {
        self.depot.as_ref()
    }

    /// `-D depot`: the archive depot to which the revisions are transferred.
    pub fn set_depot(&mut self, v: &str) -> (r: &mut Self)
        ensures
            r@ == (ArchiveView { depot: Some(v@), ..old(self)@ }),
            *final(self) == *final(r),
    {
        self.depot = Some(v.to_owned());
        self
    }

    /// `-D depot`: the archive depot to which the revisions are transferred.
    pub fn depot(self, v: &str) -> (r: Self)
        ensures
            r@ == (ArchiveView { depot: Some(v@), ..self@ }),
    {
        let mut s = self;
        s.depot = Some(v.to_owned());
        s
    }

    /// `-n`: displays a preview of the results of the command.
    pub fn get_preview(&self) -> (r: bool)
        ensures
            r == self@.preview,
    {
        self.preview
    }

    /// `-n`: displays a preview of the results of the command.
    pub fn set_preview(&mut self, v: bool) -> (r: &mut Self)
        ensures
            r@ == (ArchiveView { preview: v, ..old(self)@ }),
            *final(self) == *final(r),
    {
        self.preview = v;
        self
    }

    /// `-n`: displays a preview of the results of the command.
    pub fn preview(self, v: bool) -> (r: Self)
        ensures
            r@ == (ArchiveView { preview: v, ..self@ }),
    {
        let mut s = self;
        s.preview = v;
        s
    }

    /// `-q`: suppresses the output of the command.
    pub fn get_quiet_mode(&self) -> (r: bool)
        ensures
            r == self@.quiet_mode,
    {
        self.quiet_mode
    }

    /// `-q`: suppresses the output of the command.
    pub fn set_quiet_mode(&mut self, v: bool) -> (r: &mut Self)
        ensures
            r@ == (ArchiveView { quiet_mode: v, ..old(self)@ }),
            *final(self) == *final(r),
    {
        self.quiet_mode = v;
        self
    }

    /// `-q`: suppresses the output of the command.
    pub fn quiet_mode(self, v: bool) -> (r: Self)
        ensures
            r@ == (ArchiveView { quiet_mode: v, ..self@ }),
    {
        let mut s = self;
        s.quiet_mode = v;
        s
    }

    /// `-t`: archives text files (or purges them with `-p`), which are otherwise
    /// skipped.
    pub fn get_archive_delta(&self) -> (r: bool)
        ensures
            r == self@.archive_delta,
    {
        self.archive_delta
    }

    /// `-t`: archives text files (or purges them with `-p`), which are otherwise
    /// skipped.
    pub fn set_archive_delta(&mut self, v: bool) -> (r: &mut Self)
        ensures
            r@ == (ArchiveView { archive_delta: v, ..old(self)@ }),
            *final(self) == *final(r),
    {
        self.archive_delta = v;
        self
    }

    /// `-t`: archives text files (or purges them with `-p`), which are otherwise
    /// skipped.
    pub fn archive_delta(self, v: bool) -> (r: Self)
        ensures
            r@ == (ArchiveView { archive_delta: v, ..self@ }),
    {
        let mut s = self;
        s.archive_delta = v;
        s
    }
}

} // verus!
