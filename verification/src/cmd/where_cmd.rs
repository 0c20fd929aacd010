//! `p4 where`: show how file names are mapped by the client view.
use vstd::prelude::*;

use crate::cmd::{command_args, SubCommand};
use crate::command::CommandLine;
use crate::global::{GlobalOpts, GlobalOptsView};

verus! {

/// `p4 [g-opts] where [file ...]`
///
/// Show how file names are mapped by the client view.
#[derive(Debug)]
pub struct Where {
    bin: String,
    global_opts: GlobalOpts,
}

/// The mathematical view of [`Where`].
pub struct WhereView {
    pub bin: Seq<char>,
    pub global_opts: GlobalOptsView,
}

impl View for Where {
    type V = WhereView;

    closed spec fn view(&self) -> WhereView {
        WhereView {
            bin: self.bin@,
            global_opts: self.global_opts@,
        }
    }
}

impl SubCommand for Where {
    open spec fn spec_name(&self) -> Seq<char> {
        "where"@
    }

    open spec fn spec_local_args(&self) -> Seq<Seq<char>> {
        Seq::<Seq<char>>::empty()
    }

    open spec fn spec_global_opts(&self) -> Option<GlobalOptsView> {
        Some(self@.global_opts)
    }

    fn name(&self) -> (r: &str) {
        "where"
    }

    fn inject_local_args(&self, args: &mut Vec<String>) {
        assert(args.deep_view() =~= old(args).deep_view() + Seq::<Seq<char>>::empty());
    }

    fn global_opts(&self) -> (r: Option<&GlobalOpts>) {
        Some(&self.global_opts)
    }
}

impl Where {
    /// Show how file names are mapped by the client view.
    ///
    /// `bin` is the path to the Perforce command-line executable.
    pub fn new(bin: &str, global_opts: GlobalOpts) -> (r: Self)
        ensures
            r@.bin == bin@,
            r@.global_opts == global_opts@,
    {
        Where {
            bin: bin.to_owned(),
            global_opts: global_opts,
        }
    }

    /// The command line that runs this command with the stored `p4` executable;
    /// operands (files, changelists, ...) follow it.
    pub fn command_line(&self) -> (c: CommandLine)
        ensures
            c@.program == self@.bin,
            c@.args == command_args(self),
    {
        self.setup_command(self.bin.as_str())
    }

    /// g-opts: the global options that precede the command; see [`GlobalOpts`].
    pub fn get_global_opts(&self) -> (r: &GlobalOpts)
        ensures
            r@ == self@.global_opts,
    {
        &self.global_opts
    }

    /// g-opts: the global options that precede the command; see [`GlobalOpts`].
    pub fn set_global_opts(&mut self, v: GlobalOpts) -> (r: &mut Self)
        ensures
            r@ == (WhereView { global_opts: v@, ..old(self)@ }),
            *final(self) == *final(r),
    {
        self.global_opts = v;
        self
    }

    /// g-opts: the global options that precede the command; see [`GlobalOpts`].
    pub fn global_opts(self, v: GlobalOpts) -> (r: Self)
        ensures
            r@ == (WhereView { global_opts: v@, ..self@ }),
    {
        let mut s = self;
        s.global_opts = v;
        s
    }
}

} // verus!
