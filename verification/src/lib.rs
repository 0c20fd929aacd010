//! Builders for `p4` (Perforce Helix Core) command lines.
//!
//! Every builder assembles, option by option, the exact argument list of one
//! `p4` command: the global options first, then the command name, then the
//! command's own options in a fixed order. The contracts state that list as a
//! sequence of strings; running it is left to the caller.
use vstd::prelude::*;

pub mod argv;
pub mod command;
pub mod global;
pub mod cmd;
pub mod prelude;
pub mod laws;
pub mod option_laws;

use crate::cmd::{command_args, SubCommand};
use crate::cmd::{
    Add, AdminEntry, Aliases, Annotate, Archive, Attribute, Changes, Diff, Edit, FileLog, Print, Sync,
};
use crate::cmd::archive::SafeArchiveView;
use crate::cmd::Unselected;
use crate::global::{default_global_opts, global_args, GlobalOpts, GlobalOptsView};

verus! {

/// A Perforce command-line client: the `p4` executable to run and the global
/// options that every command it builds starts with.
#[derive(Debug)]
pub struct P4Cli {
    bin: String,
    global_opts: GlobalOpts,
}

/// The mathematical view of [`P4Cli`].
pub struct P4CliView {
    pub bin: Seq<char>,
    pub global_opts: GlobalOptsView,
}

impl View for P4Cli {
    type V = P4CliView;

    closed spec fn view(&self) -> P4CliView {
        P4CliView { bin: self.bin@, global_opts: self.global_opts@ }
    }
}

impl Clone for P4Cli {
    fn clone(&self) -> (r: Self)
        ensures
            r@ == self@,
    {
        P4Cli { bin: self.bin.clone(), global_opts: self.global_opts.clone() }
    }
}

impl Default for P4Cli {
    /// The `p4` found on the search path, with no global options.
    fn default() -> (r: Self)
        ensures
            r@.bin == "p4"@,
            r@.global_opts == default_global_opts(),
    {
        P4Cli { bin: String::from_str("p4"), global_opts: GlobalOpts::default() }
    }
}

/// The arguments of a command freshly made by a client whose global options
/// are `g`: the global options, then the command name, and nothing more.
pub open spec fn fresh_args(g: GlobalOptsView, name: Seq<char>) -> Seq<Seq<char>> {
    global_args(g) + seq![name]
}

impl P4Cli {
    /// Create a new Perforce command-line client.
    ///
    /// `bin` is the path to the Perforce command-line executable.
    pub fn new(bin: &str, global_opts: GlobalOpts) -> (r: Self)
        ensures
            r@.bin == bin@,
            r@.global_opts == global_opts@,
    {
        P4Cli { bin: bin.to_owned(), global_opts }
    }

    /// Set the Perforce command path.
    pub fn bin(self, bin: &str) -> (r: Self)
        ensures
            r@.bin == bin@,
            r@.global_opts == self@.global_opts,
    {
        let mut s = self;
        s.set_bin(bin);
        s
    }

    /// Set the global options.
    pub fn global_opts(self, global_opts: GlobalOpts) -> (r: Self)
        ensures
            r@.bin == self@.bin,
            r@.global_opts == global_opts@,
    {
        let mut s = self;
        s.set_global_opts(global_opts);
        s
    }

    /// Get the Perforce command path.
    pub fn get_bin(&self) -> (r: &str)
        ensures
            r@ == self@.bin,
    {
        self.bin.as_str()
    }

    /// Get the global options.
    pub fn get_global_opts(&self) -> (r: &GlobalOpts)
        ensures
            r@ == self@.global_opts,
    {
        &self.global_opts
    }

    /// Set the Perforce command path.
    pub fn set_bin(&mut self, bin: &str)
        ensures
            final(self)@.bin == bin@,
            final(self)@.global_opts == old(self)@.global_opts,
    {
        self.bin = bin.to_owned();
    }

    /// Set the global options.
    pub fn set_global_opts(&mut self, global_opts: GlobalOpts)
        ensures
            final(self)@.bin == old(self)@.bin,
            final(self)@.global_opts == global_opts@,
    {
        self.global_opts = global_opts;
    }

    /// Open files in a client workspace for addition to the depot.
    pub fn add(&self) -> (r: Add)
        ensures
            r@.bin == self@.bin,
            r@.global_opts == self@.global_opts,
            r@.change_list is None,
            r@.downgrade == false,
            r@.force_literal_filenames == false,
            r@.skip_ignore == false,
            r@.preview == false,
            r@.filetype is None,
            command_args(&r) == fresh_args(self@.global_opts, "add"@),
    {
        let r = Add::new(self.bin.as_str(), self.global_opts.clone());
        assert(command_args(&r) =~= fresh_args(self@.global_opts, "add"@));
        r
    }

    /// Perform administrative operations on the server.
    pub fn admin(&self) -> (r: AdminEntry)
        ensures
            r@.bin == self@.bin,
            r@.global_opts == self@.global_opts,
    {
        AdminEntry::new(self.bin.as_str(), self.global_opts.clone())
    }

    /// Display command aliases that are currently defined in a .p4aliases file.
    pub fn aliases(&self) -> (r: Aliases)
        ensures
            r@.bin == self@.bin,
            r@.global_opts == self@.global_opts,
            command_args(&r) == fresh_args(self@.global_opts, "aliases"@),
    {
        let r = Aliases::new(self.bin.as_str(), self.global_opts.clone());
        assert(command_args(&r) =~= fresh_args(self@.global_opts, "aliases"@));
        r
    }

    /// Print file lines along with their revisions.
    pub fn annotate(&self) -> (r: Annotate)
        ensures
            r@.bin == self@.bin,
            r@.global_opts == self@.global_opts,
            r@.all_lines == false,
            r@.changelist_number == false,
            r@.diff_options is None,
            r@.follow == Unselected,
            r@.quiet_mode == false,
            r@.force_binary == false,
            r@.user_date == false,
            r@.tab is None,
            command_args(&r) == fresh_args(self@.global_opts, "annotate"@),
    {
        let r = Annotate::new(self.bin.as_str(), self.global_opts.clone());
        assert(command_args(&r) =~= fresh_args(self@.global_opts, "annotate"@));
        r
    }

    /// Archive obsolete revisions to an archive depot.
    pub fn archive(&self) -> (r: Archive)
        ensures
            r@.bin == self@.bin,
            r@.global_opts == self@.global_opts,
            r@.preview == false,
            r@.quiet_mode == false,
            r@.archive_delta == false,
            r@.depot is None,
            r@.archive_mode@ == (SafeArchiveView {
                skip_head_revisions: false,
                include_lazy_copies: false,
            }),
            command_args(&r) == fresh_args(self@.global_opts, "archive"@),
    {
        let r = Archive::new(self.bin.as_str(), self.global_opts.clone());
        assert(command_args(&r) =~= fresh_args(self@.global_opts, "archive"@));
        r
    }

    /// Set per-revision attributes on file revisions.
    pub fn attribute(&self) -> (r: Attribute)
        ensures
            r@.bin == self@.bin,
            r@.global_opts == self@.global_opts,
            r@.source@.values is None,
            r@.source@.hex == false,
            r@.storage == Unselected,
            r@.on_submitted_files == false,
            r@.propagating == false,
            command_args(&r) == fresh_args(self@.global_opts, "attribute"@),
    {
        let r = Attribute::new(self.bin.as_str(), self.global_opts.clone());
        assert(command_args(&r) =~= fresh_args(self@.global_opts, "attribute"@));
        r
    }

    /// List submitted and pending changelists.
    pub fn changes(&self) -> (r: Changes<Unselected>)
        ensures
            r@.bin == self@.bin,
            r@.global_opts == self@.global_opts,
            r@.min_change_list is None,
            r@.include_restricted == false,
            r@.include_integrated == false,
            r@.include_time == false,
            r@.long_output == Unselected,
            r@.limit is None,
            r@.reverse_order == false,
            r@.filter_status is None,
            r@.filter_users is None,
            r@.filter_clients is None,
            r@.client_case_insensitive == false,
            r@.stream is None,
            command_args(&r) == fresh_args(self@.global_opts, "changes"@),
    {
        let r = Changes::new(self.bin.as_str(), self.global_opts.clone());
        assert(command_args(&r) =~= fresh_args(self@.global_opts, "changes"@));
        r
    }

    /// List submitted and pending changelists.
    ///
    /// This is an alias for [`Self::changes`], corresponding to the `p4
    /// changelists` command.
    pub fn changelists(&self) -> (r: Changes<Unselected>)
        ensures
            r@.bin == self@.bin,
            r@.global_opts == self@.global_opts,
            r@.min_change_list is None,
            r@.include_restricted == false,
            r@.include_integrated == false,
            r@.include_time == false,
            r@.long_output == Unselected,
            r@.limit is None,
            r@.reverse_order == false,
            r@.filter_status is None,
            r@.filter_users is None,
            r@.filter_clients is None,
            r@.client_case_insensitive == false,
            r@.stream is None,
            command_args(&r) == fresh_args(self@.global_opts, "changes"@),
    {
        let r = Changes::new(self.bin.as_str(), self.global_opts.clone());
        assert(command_args(&r) =~= fresh_args(self@.global_opts, "changes"@));
        r
    }

    /// Open files in a client workspace for edit.
    pub fn edit(&self) -> (r: Edit)
        ensures
            r@.bin == self@.bin,
            r@.global_opts == self@.global_opts,
            r@.change_list is None,
            r@.mode == Unselected,
            command_args(&r) == fresh_args(self@.global_opts, "edit"@),
    {
        let r = Edit::new(self.bin.as_str(), self.global_opts.clone());
        assert(command_args(&r) =~= fresh_args(self@.global_opts, "edit"@));
        r
    }

    /// Print detailed information about the revisions of files.
    pub fn filelog(&self) -> (r: FileLog)
        ensures
            r@.bin == self@.bin,
            r@.global_opts == self@.global_opts,
            r@.changelist is None,
            r@.content_history == Unselected,
            r@.follow_branches == false,
            r@.long_output == Unselected,
            r@.limit is None,
            r@.ignore_non_contributory == false,
            r@.include_time == false,
            command_args(&r) == fresh_args(self@.global_opts, "filelog"@),
    {
        let r = FileLog::new(self.bin.as_str(), self.global_opts.clone());
        assert(command_args(&r) =~= fresh_args(self@.global_opts, "filelog"@));
        r
    }
    /// Display the differences between workspace files and depot revisions.
    pub fn diff(&self) -> (r: Diff<Unselected>)
        ensures
            r@.bin == self@.bin,
            r@.global_opts == self@.global_opts,
            r@.diff_opts is None,
            r@.mode == Unselected,
            command_args(&r) == fresh_args(self@.global_opts, "diff"@),
    {
        let r = Diff::new(self.bin.as_str(), self.global_opts.clone());
        assert(command_args(&r) =~= fresh_args(self@.global_opts, "diff"@));
        r
    }

    /// Write depot file contents to standard output.
    pub fn print(&self) -> (r: Print<Unselected>)
        ensures
            r@.bin == self@.bin,
            r@.global_opts == self@.global_opts,
            r@.mode == Unselected,
            command_args(&r) == fresh_args(self@.global_opts, "print"@),
    {
        let r = Print::new(self.bin.as_str(), self.global_opts.clone());
        assert(command_args(&r) =~= fresh_args(self@.global_opts, "print"@));
        r
    }

    /// Copy files from the depot into the client workspace.
    pub fn sync(&self) -> (r: Sync<Unselected>)
        ensures
            r@.bin == self@.bin,
            r@.global_opts == self@.global_opts,
            r@.mode == Unselected,
            command_args(&r) == fresh_args(self@.global_opts, "sync"@),
    {
        let r = Sync::new(self.bin.as_str(), self.global_opts.clone());
        assert(command_args(&r) =~= fresh_args(self@.global_opts, "sync"@));
        r
    }
}

} // verus!
