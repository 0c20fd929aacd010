//! `p4 annotate`: print file lines along with their revisions.
use vstd::prelude::*;

pub mod follow;

use crate::argv::{
    decimal,
    decimal_string,
    flag_args,
    joined_args,
    lemma_args_concat_assoc,
    opt_ref_view,
    opt_str_view,
    push_arg,
    push_flag,
    push_joined,
};
use self::follow::{Branches, Integrations};
use crate::cmd::{command_args, ExclusiveOption, SubCommand, Unselected};
use crate::command::CommandLine;
use crate::global::{GlobalOpts, GlobalOptsView};

verus! {

broadcast use lemma_args_concat_assoc;

/// The tab width that `-T` (the default, 8 columns) or `--tab=N` sets.
#[derive(Debug, Clone, Copy, PartialEq, Eq, Structural)]
pub enum Tab {
    /// `-T`: the default width of 8 columns.
    Default,
    /// `--tab=N`: a custom width.
    Custom(u32),
}

/// The width that a tab setting stands for.
pub open spec fn tab_width(tab: Option<Tab>) -> Option<u32> {
    match tab {
        Some(Tab::Default) => Some(8),
        Some(Tab::Custom(n)) => Some(n),
        None => None,
    }
}

/// `-T` for the default tab width, `--tab=N` for a custom one, nothing when
/// no tab width is set.
pub open spec fn tab_args(tab: Option<Tab>) -> Seq<Seq<char>> {
    match tab {
        Some(Tab::Default) => seq!["-T"@],
        Some(Tab::Custom(n)) => seq!["--tab="@ + decimal(n as nat)],
        None => seq![],
    }
}

fn push_tab(args: &mut Vec<String>, tab: Option<Tab>)
    ensures
        final(args).deep_view() == old(args).deep_view() + tab_args(tab),
{
    match tab {
        Some(Tab::Default) => push_arg(args, "-T"),
        Some(Tab::Custom(n)) => {
            let arg = String::from_str("--tab=").concat(decimal_string(n as u64).as_str());
            args.push(arg);
            assert(args.deep_view() =~= old(args).deep_view() + tab_args(tab));
        },
        None => {
            assert(args.deep_view() =~= old(args).deep_view() + tab_args(tab));
        },
    }
}

/// `p4 [g-opts] annotate [-aciIqtTu -d<flags>] file[revRange] ...`
///
/// Print file lines along with their revisions.
///
/// Following branches (`-i`) and following integrations (`-I`) are mutually
/// exclusive; one is selected with [`Annotate::follow_branches`] or
/// [`Annotate::follow_integrations`].
#[derive(Debug)]
pub struct Annotate<F = Unselected> {
    bin: String,
    global_opts: GlobalOpts,
    all_lines: bool,
    changelist_number: bool,
    diff_options: Option<String>,
    follow: F,
    quiet_mode: bool,
    force_binary: bool,
    user_date: bool,
    tab: Option<Tab>,
}

/// The mathematical view of [`Annotate`].
pub struct AnnotateView<F> {
    pub bin: Seq<char>,
    pub global_opts: GlobalOptsView,
    pub all_lines: bool,
    pub changelist_number: bool,
    pub diff_options: Option<Seq<char>>,
    pub follow: F,
    pub quiet_mode: bool,
    pub force_binary: bool,
    pub user_date: bool,
    pub tab: Option<Tab>,
}

impl<F> View for Annotate<F> {
    type V = AnnotateView<F>;

    closed spec fn view(&self) -> AnnotateView<F> {
        AnnotateView {
            bin: self.bin@,
            global_opts: self.global_opts@,
            all_lines: self.all_lines,
            changelist_number: self.changelist_number,
            diff_options: opt_str_view(self.diff_options),
            follow: self.follow,
            quiet_mode: self.quiet_mode,
            force_binary: self.force_binary,
            user_date: self.user_date,
            tab: self.tab,
        }
    }
}

impl<F: ExclusiveOption> SubCommand for Annotate<F> {
    open spec fn spec_name(&self) -> Seq<char> {
        "annotate"@
    }

    open spec fn spec_local_args(&self) -> Seq<Seq<char>> {
        flag_args(self@.all_lines, "-a"@)
        + flag_args(self@.changelist_number, "-c"@)
        + joined_args("-d"@, self@.diff_options)
        + self@.follow.spec_args()
        + flag_args(self@.quiet_mode, "-q"@)
        + flag_args(self@.force_binary, "-t"@)
        + flag_args(self@.user_date, "-u"@)
        + tab_args(self@.tab)
    }

    open spec fn spec_global_opts(&self) -> Option<GlobalOptsView> {
        Some(self@.global_opts)
    }

    fn name(&self) -> (r: &str) {
        "annotate"
    }

    fn inject_local_args(&self, args: &mut Vec<String>) {
        push_flag(args, self.all_lines, "-a");
        push_flag(args, self.changelist_number, "-c");
        push_joined(args, "-d", &self.diff_options);
        self.follow.inject_args(args);
        push_flag(args, self.quiet_mode, "-q");
        push_flag(args, self.force_binary, "-t");
        push_flag(args, self.user_date, "-u");
        push_tab(args, self.tab);
    }

    fn global_opts(&self) -> (r: Option<&GlobalOpts>) {
        Some(&self.global_opts)
    }
}

impl Annotate<Unselected> {
    /// Print file lines along with their revisions.
    ///
    /// `bin` is the path to the Perforce command-line executable.
    pub fn new(bin: &str, global_opts: GlobalOpts) -> (r: Self)
        ensures
            r@.bin == bin@,
            r@.global_opts == global_opts@,
            r@.all_lines == false,
            r@.changelist_number == false,
            r@.diff_options is None,
            r@.follow == Unselected,
            r@.quiet_mode == false,
            r@.force_binary == false,
            r@.user_date == false,
            r@.tab is None,
    {
        Annotate {
            bin: bin.to_owned(),
            global_opts: global_opts,
            all_lines: false,
            changelist_number: false,
            diff_options: None,
            follow: Unselected,
            quiet_mode: false,
            force_binary: false,
            user_date: false,
            tab: None,
        }
    }

    /// `-i`: follow branches; excludes `-I`.
    pub fn follow_branches(self) -> (r: Annotate<Branches>)
        ensures
            r@.bin == self@.bin,
            r@.global_opts == self@.global_opts,
            r@.all_lines == self@.all_lines,
            r@.changelist_number == self@.changelist_number,
            r@.diff_options == self@.diff_options,
            r@.follow == Branches,
            r@.quiet_mode == self@.quiet_mode,
            r@.force_binary == self@.force_binary,
            r@.user_date == self@.user_date,
            r@.tab == self@.tab,
    {
        Annotate {
            bin: self.bin,
            global_opts: self.global_opts,
            all_lines: self.all_lines,
            changelist_number: self.changelist_number,
            diff_options: self.diff_options,
            follow: Branches,
            quiet_mode: self.quiet_mode,
            force_binary: self.force_binary,
            user_date: self.user_date,
            tab: self.tab,
        }
    }

    /// `-I`: follow all integrations into the file; excludes `-i`.
    pub fn follow_integrations(self) -> (r: Annotate<Integrations>)
        ensures
            r@.bin == self@.bin,
            r@.global_opts == self@.global_opts,
            r@.all_lines == self@.all_lines,
            r@.changelist_number == self@.changelist_number,
            r@.diff_options == self@.diff_options,
            r@.follow == Integrations,
            r@.quiet_mode == self@.quiet_mode,
            r@.force_binary == self@.force_binary,
            r@.user_date == self@.user_date,
            r@.tab == self@.tab,
    {
        Annotate {
            bin: self.bin,
            global_opts: self.global_opts,
            all_lines: self.all_lines,
            changelist_number: self.changelist_number,
            diff_options: self.diff_options,
            follow: Integrations,
            quiet_mode: self.quiet_mode,
            force_binary: self.force_binary,
            user_date: self.user_date,
            tab: self.tab,
        }
    }
}

impl<F: ExclusiveOption> Annotate<F> {
    /// The command line that runs this command with the stored `p4` executable;
    /// operands (files, changelists, ...) follow it.
    pub fn command_line(&self) -> (c: CommandLine)
        ensures
            c@.program == self@.bin,
            c@.args == command_args(self),
    {
        self.setup_command(self.bin.as_str())
    }

    /// g-opts: the global options that precede the command; see [`GlobalOpts`].
    pub fn get_global_opts(&self) -> (r: &GlobalOpts)
        ensures
            r@ == self@.global_opts,
    {
        &self.global_opts
    }

    /// g-opts: the global options that precede the command; see [`GlobalOpts`].
    pub fn set_global_opts(&mut self, v: GlobalOpts) -> (r: &mut Self)
        ensures
            r@ == (AnnotateView { global_opts: v@, ..old(self)@ }),
            *final(self) == *final(r),
    {
        self.global_opts = v;
        self
    }

    /// g-opts: the global options that precede the command; see [`GlobalOpts`].
    pub fn global_opts(self, v: GlobalOpts) -> (r: Self)
        ensures
            r@ == (AnnotateView { global_opts: v@, ..self@ }),
    {
        let mut s = self;
        s.global_opts = v;
        s
    }

    /// `-a`: includes both deleted files and lines no longer present at the head
    /// revision.
    pub fn get_all_lines(&self) -> (r: bool)
        ensures
            r == self@.all_lines,
    {
        self.all_lines
    }

    /// `-a`: includes both deleted files and lines no longer present at the head
    /// revision.
    pub fn set_all_lines(&mut self, v: bool) -> (r: &mut Self)
        ensures
            r@ == (AnnotateView { all_lines: v, ..old(self)@ }),
            *final(self) == *final(r),
    {
        self.all_lines = v;
        self
    }

    /// `-a`: includes both deleted files and lines no longer present at the head
    /// revision.
    pub fn all_lines(self, v: bool) -> (r: Self)
        ensures
            r@ == (AnnotateView { all_lines: v, ..self@ }),
    {
        let mut s = self;
        s.all_lines = v;
        s
    }

    /// `-c`: outputs changelist numbers rather than revision numbers for each line.
    pub fn get_changelist_number(&self) -> (r: bool)
        ensures
            r == self@.changelist_number,
    {
        self.changelist_number
    }

    /// `-c`: outputs changelist numbers rather than revision numbers for each line.
    pub fn set_changelist_number(&mut self, v: bool) -> (r: &mut Self)
        ensures
            r@ == (AnnotateView { changelist_number: v, ..old(self)@ }),
            *final(self) == *final(r),
    {
        self.changelist_number = v;
        self
    }

    /// `-c`: outputs changelist numbers rather than revision numbers for each line.
    pub fn changelist_number(self, v: bool) -> (r: Self)
        ensures
            r@ == (AnnotateView { changelist_number: v, ..self@ }),
    {
        let mut s = self;
        s.changelist_number = v;
        s
    }

    /// `-d<flags>`: diff options, passed verbatim after `-d` (for example `w` for
    /// `-dw`).
    pub fn get_diff_options(&self) -> (r: Option<&String>)
        ensures
            opt_ref_view(r) == self@.diff_options,
    {
        self.diff_options.as_ref()
    }

    /// `-d<flags>`: diff options, passed verbatim after `-d` (for example `w` for
    /// `-dw`).
    pub fn set_diff_options(&mut self, v: &str) -> (r: &mut Self)
        ensures
            r@ == (AnnotateView { diff_options: Some(v@), ..old(self)@ }),
            *final(self) == *final(r),
    {
        self.diff_options = Some(v.to_owned());
        self
    }

    /// `-d<flags>`: diff options, passed verbatim after `-d` (for example `w` for
    /// `-dw`).
    pub fn diff_options(self, v: &str) -> (r: Self)
        ensures
            r@ == (AnnotateView { diff_options: Some(v@), ..self@ }),
    {
        let mut s = self;
        s.diff_options = Some(v.to_owned());
        s
    }

    /// `-q`: suppresses the one-line header that is displayed by default for each file.
    pub fn get_quiet_mode(&self) -> (r: bool)
        ensures
            r == self@.quiet_mode,
    {
        self.quiet_mode
    }

    /// `-q`: suppresses the one-line header that is displayed by default for each file.
    pub fn set_quiet_mode(&mut self, v: bool) -> (r: &mut Self)
        ensures
            r@ == (AnnotateView { quiet_mode: v, ..old(self)@ }),
            *final(self) == *final(r),
    {
        self.quiet_mode = v;
        self
    }

    /// `-q`: suppresses the one-line header that is displayed by default for each file.
    pub fn quiet_mode(self, v: bool) -> (r: Self)
        ensures
            r@ == (AnnotateView { quiet_mode: v, ..self@ }),
    {
        let mut s = self;
        s.quiet_mode = v;
        s
    }

    /// `-t`: forces `p4 annotate` to display binary files.
    pub fn get_force_binary(&self) -> (r: bool)
        ensures
            r == self@.force_binary,
    {
        self.force_binary
    }

    /// `-t`: forces `p4 annotate` to display binary files.
    pub fn set_force_binary(&mut self, v: bool) -> (r: &mut Self)
        ensures
            r@ == (AnnotateView { force_binary: v, ..old(self)@ }),
            *final(self) == *final(r),
    {
        self.force_binary = v;
        self
    }

    /// `-t`: forces `p4 annotate` to display binary files.
    pub fn force_binary(self, v: bool) -> (r: Self)
        ensures
            r@ == (AnnotateView { force_binary: v, ..self@ }),
    {
        let mut s = self;
        s.force_binary = v;
        s
    }

    /// `-u`: outputs the user name and date of the change for each line.
    pub fn get_user_date(&self) -> (r: bool)
        ensures
            r == self@.user_date,
    {
        self.user_date
    }

    /// `-u`: outputs the user name and date of the change for each line.
    pub fn set_user_date(&mut self, v: bool) -> (r: &mut Self)
        ensures
            r@ == (AnnotateView { user_date: v, ..old(self)@ }),
            *final(self) == *final(r),
    {
        self.user_date = v;
        self
    }

    /// `-u`: outputs the user name and date of the change for each line.
    pub fn user_date(self, v: bool) -> (r: Self)
        ensures
            r@ == (AnnotateView { user_date: v, ..self@ }),
    {
        let mut s = self;
        s.user_date = v;
        s
    }

    /// `-T` / `--tab=N`: expands tabs to the default width (8) or to `N` columns.
    pub fn get_tab(&self) -> (r: Option<u32>)
        ensures
            r == tab_width(self@.tab),
    {
        match self.tab {
            Some(Tab::Default) => Some(8),
            Some(Tab::Custom(value)) => Some(value),
            None => None,
        }
    }

    /// `-T` / `--tab=N`: expands tabs to the default width (8) or to `N` columns.
    pub fn set_tab(&mut self, v: u32) -> (r: &mut Self)
        ensures
            r@ == (AnnotateView { tab: Some(Tab::Custom(v)), ..old(self)@ }),
            *final(self) == *final(r),
    {
        self.tab = Some(Tab::Custom(v));
        self
    }

    /// `-T` / `--tab=N`: expands tabs to the default width (8) or to `N` columns.
    pub fn tab(self, v: u32) -> (r: Self)
        ensures
            r@ == (AnnotateView { tab: Some(Tab::Custom(v)), ..self@ }),
    {
        let mut s = self;
        s.tab = Some(Tab::Custom(v));
        s
    }

    /// `-T` / `--tab=N`: expands tabs to the default width (8) or to `N` columns.
    pub fn set_default_tab(&mut self) -> (r: &mut Self)
        ensures
            r@ == (AnnotateView { tab: Some(Tab::Default), ..old(self)@ }),
            *final(self) == *final(r),
    {
        self.tab = Some(Tab::Default);
        self
    }

    /// `-T` / `--tab=N`: expands tabs to the default width (8) or to `N` columns.
    pub fn default_tab(self) -> (r: Self)
        ensures
            r@ == (AnnotateView { tab: Some(Tab::Default), ..self@ }),
    {
        let mut s = self;
        s.tab = Some(Tab::Default);
        s
    }
}

} // verus!
