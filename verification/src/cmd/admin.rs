//! `p4 admin`: perform administrative operations on the server.
//!
//! [`AdminEntry`] selects the subcommand; the resulting [`Admin`] value
//! carries the subcommand's own options, typed by the subcommand.
use vstd::prelude::*;

pub mod compression;
pub mod reconcile;
pub mod set_password;
pub mod spec;

use crate::argv::{
    flag_args,
    lemma_args_concat_assoc,
    number_args,
    opt_copied,
    push_flag,
    push_number,
    widen,
    widen_u32,
};
use crate::cmd::{command_args, opt_global_args, ExclusiveOption, SubCommand, Unselected};
use crate::command::CommandLine;
use crate::global::{GlobalOpts, GlobalOptsView};

verus! {

broadcast use lemma_args_concat_assoc;

/// `p4 [g-opts] admin ...`: the entry point that selects an administrative
/// subcommand.
#[derive(Debug)]
pub struct AdminEntry {
    bin: String,
    global_opts: GlobalOpts,
}

/// The mathematical view of [`AdminEntry`].
pub struct AdminEntryView {
    pub bin: Seq<char>,
    pub global_opts: GlobalOptsView,
}

impl View for AdminEntry {
    type V = AdminEntryView;

    closed spec fn view(&self) -> AdminEntryView {
        AdminEntryView { bin: self.bin@, global_opts: self.global_opts@ }
    }
}

/// `p4 [g-opts] admin subcommand [options]`: an administrative command with
/// its selected subcommand.
#[derive(Debug)]
pub struct Admin<T: SubCommand> {
    bin: String,
    global_opts: GlobalOpts,
    sub_command: T,
}

/// The mathematical view of [`Admin`].
pub struct AdminView<T> {
    pub bin: Seq<char>,
    pub global_opts: GlobalOptsView,
    pub sub_command: T,
}

impl<T: SubCommand> View for Admin<T> {
    type V = AdminView<T>;

    closed spec fn view(&self) -> AdminView<T> {
        AdminView { bin: self.bin@, global_opts: self.global_opts@, sub_command: self.sub_command }
    }
}

impl<T: SubCommand> SubCommand for Admin<T> {
    open spec fn spec_name(&self) -> Seq<char> {
        "admin"@
    }

    /// The subcommand's name and options; the subcommand carries no global
    /// options of its own, so the global options appear once, before `admin`.
    open spec fn spec_local_args(&self) -> Seq<Seq<char>> {
        opt_global_args(self@.sub_command.spec_global_opts()) + seq![self@.sub_command.spec_name()]
            + self@.sub_command.spec_local_args()
    }

    open spec fn spec_global_opts(&self) -> Option<GlobalOptsView> {
        Some(self@.global_opts)
    }

    fn name(&self) -> (r: &str) {
        "admin"
    }

    fn inject_local_args(&self, args: &mut Vec<String>) {
        self.sub_command.inject_args(args);
    }

    fn global_opts(&self) -> (r: Option<&GlobalOpts>) {
        Some(&self.global_opts)
    }
}

impl AdminEntry {
    /// Perform administrative operations on the server.
    ///
    /// `bin` is the path to the Perforce command-line executable.
    pub fn new(bin: &str, global_opts: GlobalOpts) -> (r: Self)
        ensures
            r@.bin == bin@,
            r@.global_opts == global_opts@,
    {
        AdminEntry { bin: bin.to_owned(), global_opts }
    }

    /// `p4 admin checkpoint`: Take a checkpoint and rotate the journal.
    pub fn checkpoint(self) -> (r: Admin<CheckPoint<Unselected>>)
        ensures
            r@.bin == self@.bin,
            r@.global_opts == self@.global_opts,
            r@.sub_command@ == default_checkpoint(),
    {
        Admin { bin: self.bin, global_opts: self.global_opts, sub_command: CheckPoint::default() }
    }

    /// `p4 admin journal`: Save and truncate the journal file.
    pub fn journal(self) -> (r: Admin<Journal>)
        ensures
            r@.bin == self@.bin,
            r@.global_opts == self@.global_opts,
            r@.sub_command@.gzip == false,
    {
        Admin { bin: self.bin, global_opts: self.global_opts, sub_command: Journal { gzip: false } }
    }

    /// `p4 admin stop`: Stop the server.
    pub fn stop(self) -> (r: Admin<Stop>)
        ensures
            r@.bin == self@.bin,
            r@.global_opts == self@.global_opts,
            r@.sub_command == Stop,
    {
        Admin { bin: self.bin, global_opts: self.global_opts, sub_command: Stop }
    }

    /// `p4 admin restart`: Restart the server.
    pub fn restart(self) -> (r: Admin<Restart>)
        ensures
            r@.bin == self@.bin,
            r@.global_opts == self@.global_opts,
            r@.sub_command == Restart,
    {
        Admin { bin: self.bin, global_opts: self.global_opts, sub_command: Restart }
    }

    /// `p4 admin updatespecdepot`: Populate the spec depot with the current specs.
    pub fn updatespecdepot(self) -> (r: Admin<UpdateSpecDepot<Unselected>>)
        ensures
            r@.bin == self@.bin,
            r@.global_opts == self@.global_opts,
            r@.sub_command@.selection == Unselected,
    {
        Admin {
            bin: self.bin,
            global_opts: self.global_opts,
            sub_command: UpdateSpecDepot::default(),
        }
    }

    /// `p4 admin resetpassword`: Require users to reset their passwords.
    pub fn resetpassword(self) -> (r: Admin<ResetPassword<Unselected>>)
        ensures
            r@.bin == self@.bin,
            r@.global_opts == self@.global_opts,
            r@.sub_command@ == (ResetPasswordView { set_password: Unselected, super_user: false }),
    {
        Admin {
            bin: self.bin,
            global_opts: self.global_opts,
            sub_command: ResetPassword::default(),
        }
    }

    /// `p4 admin setldapusers`: Set the authentication method of users to LDAP.
    pub fn setldapusers(self) -> (r: Admin<SetLdapUsers>)
        ensures
            r@.bin == self@.bin,
            r@.global_opts == self@.global_opts,
            r@.sub_command == SetLdapUsers,
    {
        Admin { bin: self.bin, global_opts: self.global_opts, sub_command: SetLdapUsers }
    }

    /// `p4 admin end-journal`: Stop writing the journal (before a server shutdown).
    pub fn end_journal(self) -> (r: Admin<EndJournal>)
        ensures
            r@.bin == self@.bin,
            r@.global_opts == self@.global_opts,
            r@.sub_command == EndJournal,
    {
        Admin { bin: self.bin, global_opts: self.global_opts, sub_command: EndJournal }
    }

    /// `p4 admin sysinfo`: Display information about the server machine.
    pub fn sysinfo(self) -> (r: Admin<SysInfo>)
        ensures
            r@.bin == self@.bin,
            r@.global_opts == self@.global_opts,
            r@.sub_command == SysInfo,
    {
        Admin { bin: self.bin, global_opts: self.global_opts, sub_command: SysInfo }
    }

    /// `p4 admin resource-monitor`: Display the state of the resource monitor.
    pub fn resource_monitor(self) -> (r: Admin<ResourceMonitor>)
        ensures
            r@.bin == self@.bin,
            r@.global_opts == self@.global_opts,
            r@.sub_command == ResourceMonitor,
    {
        Admin { bin: self.bin, global_opts: self.global_opts, sub_command: ResourceMonitor }
    }

    /// `p4 admin replica-filter-reconcile`: Reconcile a filtered replica with its filters.
    pub fn replica_filter_reconcile(self) -> (r: Admin<ReplicaFilterReconcile<Unselected>>)
        ensures
            r@.bin == self@.bin,
            r@.global_opts == self@.global_opts,
            r@.sub_command@.reconcile == Unselected,
    {
        Admin {
            bin: self.bin,
            global_opts: self.global_opts,
            sub_command: ReplicaFilterReconcile::default(),
        }
    }
}

impl<T: SubCommand> Admin<T> {
    /// An administrative command running `sub_command`.
    ///
    /// `bin` is the path to the Perforce command-line executable.
    pub fn new(bin: &str, global_opts: GlobalOpts, sub_command: T) -> (r: Self)
        ensures
            r@.bin == bin@,
            r@.global_opts == global_opts@,
            r@.sub_command == sub_command,
    {
        Admin { bin: bin.to_owned(), global_opts, sub_command }
    }

    /// The command line that runs this command with the stored `p4` executable;
    /// operands (files, changelists, ...) follow it.
    pub fn command_line(&self) -> (c: CommandLine)
        ensures
            c@.program == self@.bin,
            c@.args == command_args(self),
    {
        self.setup_command(self.bin.as_str())
    }

    /// g-opts: the global options that precede the command; see [`GlobalOpts`].
    pub fn get_global_opts(&self) -> (r: &GlobalOpts)
        ensures
            r@ == self@.global_opts,
    {
        &self.global_opts
    }

    /// g-opts: the global options that precede the command; see [`GlobalOpts`].
    pub fn set_global_opts(&mut self, v: GlobalOpts) -> (r: &mut Self)
        ensures
            r@ == (AdminView { global_opts: v@, ..old(self)@ }),
            *final(self) == *final(r),
    {
        self.global_opts = v;
        self
    }

    /// g-opts: the global options that precede the command; see [`GlobalOpts`].
    pub fn global_opts(self, v: GlobalOpts) -> (r: Self)
        ensures
            r@ == (AdminView { global_opts: v@, ..self@ }),
    {
        let mut s = self;
        s.global_opts = v;
        s
    }
}

/// `p4 admin checkpoint [-z | -Z] [-p [-N threads] [-m]] [prefix]`: take a
/// checkpoint and rotate the journal. The compression modes (`-z` / `-Z`) are
/// mutually exclusive.
#[derive(Debug, Clone, Copy, PartialEq, Eq)]
pub struct CheckPoint<C = Unselected> {
    compression: C,
    parallel: bool,
    threads: Option<u32>,
    multiple_files: bool,
}

/// The mathematical view of [`CheckPoint`].
pub struct CheckPointView<C> {
    pub compression: C,
    pub parallel: bool,
    pub threads: Option<u32>,
    pub multiple_files: bool,
}

impl<C> View for CheckPoint<C> {
    type V = CheckPointView<C>;

    closed spec fn view(&self) -> CheckPointView<C> {
        CheckPointView {
            compression: self.compression,
            parallel: self.parallel,
            threads: self.threads,
            multiple_files: self.multiple_files,
        }
    }
}

/// The checkpoint options before any is set.
pub open spec fn default_checkpoint() -> CheckPointView<Unselected> {
    CheckPointView {
        compression: Unselected,
        parallel: false,
        threads: None,
        multiple_files: false,
    }
}

impl Default for CheckPoint<Unselected> {
    fn default() -> (r: Self)
        ensures
            r@ == default_checkpoint(),
    {
        CheckPoint {
            compression: Unselected,
            parallel: false,
            threads: None,
            multiple_files: false,
        }
    }
}

impl<C: ExclusiveOption> SubCommand for CheckPoint<C> {
    open spec fn spec_name(&self) -> Seq<char> {
        "checkpoint"@
    }

    open spec fn spec_local_args(&self) -> Seq<Seq<char>> {
        self@.compression.spec_args()
        + flag_args(self@.parallel, "-p"@)
        + number_args("-N"@, widen(self@.threads))
        + flag_args(self@.multiple_files, "-m"@)
    }

    open spec fn spec_global_opts(&self) -> Option<GlobalOptsView> {
        None
    }

    fn name(&self) -> (r: &str) {
        "checkpoint"
    }

    fn inject_local_args(&self, args: &mut Vec<String>) {
        self.compression.inject_args(args);
        push_flag(args, self.parallel, "-p");
        push_number(args, "-N", widen_u32(self.threads));
        push_flag(args, self.multiple_files, "-m");
    }

    fn global_opts(&self) -> (r: Option<&GlobalOpts>) {
        None
    }
}

impl<C: ExclusiveOption> Admin<CheckPoint<C>> {
    /// `-p`: take the checkpoint with parallel threads.
    pub fn get_parallel(&self) -> (r: bool)
        ensures
            r == self@.sub_command@.parallel,
    {
        self.sub_command.parallel
    }

    /// `-p`: take the checkpoint with parallel threads.
    pub fn set_parallel(&mut self, parallel: bool) -> (r: &mut Self)
        ensures
            r@.bin == old(self)@.bin,
            r@.global_opts == old(self)@.global_opts,
            r@.sub_command@ == (CheckPointView { parallel: parallel, ..old(self)@.sub_command@ }),
            *final(self) == *final(r),
    {
        self.sub_command.parallel = parallel;
        self
    }

    /// `-p`: take the checkpoint with parallel threads.
    pub fn parallel(self, parallel: bool) -> (r: Self)
        ensures
            r@.bin == self@.bin,
            r@.global_opts == self@.global_opts,
            r@.sub_command@ == (CheckPointView { parallel: parallel, ..self@.sub_command@ }),
    {
        let mut s = self;
        s.sub_command.parallel = parallel;
        s
    }

    /// `-N threads`: the number of threads for a parallel checkpoint.
    pub fn get_threads(&self) -> (r: Option<&u32>)
        ensures
            opt_copied(r) == self@.sub_command@.threads,
    {
        self.sub_command.threads.as_ref()
    }

    /// `-N threads`: the number of threads for a parallel checkpoint.
    pub fn set_threads(&mut self, threads: u32) -> (r: &mut Self)
        ensures
            r@.bin == old(self)@.bin,
            r@.global_opts == old(self)@.global_opts,
            r@.sub_command@ == (CheckPointView {
                threads: Some(threads),
                ..old(self)@.sub_command@
            }),
            *final(self) == *final(r),
    {
        self.sub_command.threads = Some(threads);
        self
    }

    /// `-N threads`: the number of threads for a parallel checkpoint.
    pub fn threads(self, threads: u32) -> (r: Self)
        ensures
            r@.bin == self@.bin,
            r@.global_opts == self@.global_opts,
            r@.sub_command@ == (CheckPointView { threads: Some(threads), ..self@.sub_command@ }),
    {
        let mut s = self;
        s.sub_command.threads = Some(threads);
        s
    }

    /// `-m`: write a multi-file checkpoint (with `-p`).
    pub fn get_multiple_files(&self) -> (r: bool)
        ensures
            r == self@.sub_command@.multiple_files,
    {
        self.sub_command.multiple_files
    }

    /// `-m`: write a multi-file checkpoint (with `-p`).
    pub fn set_multiple_files(&mut self, multiple_files: bool) -> (r: &mut Self)
        ensures
            r@.bin == old(self)@.bin,
            r@.global_opts == old(self)@.global_opts,
            r@.sub_command@ == (CheckPointView {
                multiple_files: multiple_files,
                ..old(self)@.sub_command@
            }),
            *final(self) == *final(r),
    {
        self.sub_command.multiple_files = multiple_files;
        self
    }

    /// `-m`: write a multi-file checkpoint (with `-p`).
    pub fn multiple_files(self, multiple_files: bool) -> (r: Self)
        ensures
            r@.bin == self@.bin,
            r@.global_opts == self@.global_opts,
            r@.sub_command@ == (CheckPointView {
                multiple_files: multiple_files,
                ..self@.sub_command@
            }),
    {
        let mut s = self;
        s.sub_command.multiple_files = multiple_files;
        s
    }
}

impl Admin<CheckPoint<Unselected>> {
    /// `-z`: compress both the checkpoint and the journal files; excludes the other compression mode.
    pub fn compress_both(self) -> (r: Admin<CheckPoint<compression::Both>>)
        ensures
            r@.bin == self@.bin,
            r@.global_opts == self@.global_opts,
            r@.sub_command@.compression == compression::Both,
            r@.sub_command@.parallel == self@.sub_command@.parallel,
            r@.sub_command@.threads == self@.sub_command@.threads,
            r@.sub_command@.multiple_files == self@.sub_command@.multiple_files,
    {
        Admin {
            bin: self.bin,
            global_opts: self.global_opts,
            sub_command: CheckPoint {
                compression: compression::Both,
                parallel: self.sub_command.parallel,
                threads: self.sub_command.threads,
                multiple_files: self.sub_command.multiple_files,
            },
        }
    }

    /// `-Z`: compress only the checkpoint file; excludes the other compression mode.
    pub fn compress_checkpoint_only(self) -> (r: Admin<CheckPoint<compression::CheckPointOnly>>)
        ensures
            r@.bin == self@.bin,
            r@.global_opts == self@.global_opts,
            r@.sub_command@.compression == compression::CheckPointOnly,
            r@.sub_command@.parallel == self@.sub_command@.parallel,
            r@.sub_command@.threads == self@.sub_command@.threads,
            r@.sub_command@.multiple_files == self@.sub_command@.multiple_files,
    {
        Admin {
            bin: self.bin,
            global_opts: self.global_opts,
            sub_command: CheckPoint {
                compression: compression::CheckPointOnly,
                parallel: self.sub_command.parallel,
                threads: self.sub_command.threads,
                multiple_files: self.sub_command.multiple_files,
            },
        }
    }
}

/// `p4 admin journal [-z] [prefix]`: save and truncate the journal file.
#[derive(Debug, Clone, Copy, Default, PartialEq, Eq)]
pub struct Journal {
    gzip: bool,
}

/// The mathematical view of [`Journal`].
pub struct JournalView {
    pub gzip: bool,
}

impl View for Journal {
    type V = JournalView;

    closed spec fn view(&self) -> JournalView {
        JournalView { gzip: self.gzip }
    }
}

impl SubCommand for Journal {
    open spec fn spec_name(&self) -> Seq<char> {
        "journal"@
    }

    open spec fn spec_local_args(&self) -> Seq<Seq<char>> {
        flag_args(self@.gzip, "-z"@)
    }

    open spec fn spec_global_opts(&self) -> Option<GlobalOptsView> {
        None
    }

    fn name(&self) -> (r: &str) {
        "journal"
    }

    fn inject_local_args(&self, args: &mut Vec<String>) {
        push_flag(args, self.gzip, "-z");
    }

    fn global_opts(&self) -> (r: Option<&GlobalOpts>) {
        None
    }
}

impl Admin<Journal> {
    /// `-z`: save the journal file in compressed (gzip) form.
    pub fn get_gzip(&self) -> (r: bool)
        ensures
            r == self@.sub_command@.gzip,
    {
        self.sub_command.gzip
    }

    /// `-z`: save the journal file in compressed (gzip) form.
    pub fn set_gzip(&mut self, gzip: bool) -> (r: &mut Self)
        ensures
            r@.bin == old(self)@.bin,
            r@.global_opts == old(self)@.global_opts,
            r@.sub_command@ == (JournalView { gzip: gzip, ..old(self)@.sub_command@ }),
            *final(self) == *final(r),
    {
        self.sub_command.gzip = gzip;
        self
    }

    /// `-z`: save the journal file in compressed (gzip) form.
    pub fn gzip(self, gzip: bool) -> (r: Self)
        ensures
            r@.bin == self@.bin,
            r@.global_opts == self@.global_opts,
            r@.sub_command@ == (JournalView { gzip: gzip, ..self@.sub_command@ }),
    {
        let mut s = self;
        s.sub_command.gzip = gzip;
        s
    }
}

/// `p4 admin stop`: stop the server.
#[derive(Debug, Clone, Copy, Default, PartialEq, Eq, Structural)]
pub struct Stop;

impl SubCommand for Stop {
    open spec fn spec_name(&self) -> Seq<char> {
        "stop"@
    }

    open spec fn spec_local_args(&self) -> Seq<Seq<char>> {
        seq![]
    }

    open spec fn spec_global_opts(&self) -> Option<GlobalOptsView> {
        None
    }

    fn name(&self) -> (r: &str) {
        "stop"
    }

    fn inject_local_args(&self, args: &mut Vec<String>) {
        assert(args.deep_view() =~= old(args).deep_view() + Seq::<Seq<char>>::empty());
    }

    fn global_opts(&self) -> (r: Option<&GlobalOpts>) {
        None
    }
}

/// `p4 admin restart`: restart the server.
#[derive(Debug, Clone, Copy, Default, PartialEq, Eq, Structural)]
pub struct Restart;

impl SubCommand for Restart {
    open spec fn spec_name(&self) -> Seq<char> {
        "restart"@
    }

    open spec fn spec_local_args(&self) -> Seq<Seq<char>> {
        seq![]
    }

    open spec fn spec_global_opts(&self) -> Option<GlobalOptsView> {
        None
    }

    fn name(&self) -> (r: &str) {
        "restart"
    }

    fn inject_local_args(&self, args: &mut Vec<String>) {
        assert(args.deep_view() =~= old(args).deep_view() + Seq::<Seq<char>>::empty());
    }

    fn global_opts(&self) -> (r: Option<&GlobalOpts>) {
        None
    }
}

/// A spec type that `p4 admin updatespecdepot -s type` selects.
#[derive(Debug, Clone, Copy, PartialEq, Eq, Structural)]
pub enum SpecifiedType {
    Client,
    Depot,
    Repo,
    Branch,
    Label,
    TypeMap,
    Group,
    User,
    Job,
    Stream,
    Triggers,
    Protect,
    Server,
    License,
    JobSpec,
}

impl SpecifiedType {
    /// The command-line spelling of a spec type.
    pub open spec fn spec_str(self) -> Seq<char> {
        match self {
            SpecifiedType::Client => "client"@,
            SpecifiedType::Depot => "depot"@,
            SpecifiedType::Repo => "repo"@,
            SpecifiedType::Branch => "branch"@,
            SpecifiedType::Label => "label"@,
            SpecifiedType::TypeMap => "typemap"@,
            SpecifiedType::Group => "group"@,
            SpecifiedType::User => "user"@,
            SpecifiedType::Job => "job"@,
            SpecifiedType::Stream => "stream"@,
            SpecifiedType::Triggers => "triggers"@,
            SpecifiedType::Protect => "protect"@,
            SpecifiedType::Server => "server"@,
            SpecifiedType::License => "license"@,
            SpecifiedType::JobSpec => "jobspec"@,
        }
    }

    /// Returns the command-line spelling of this spec type.
    pub(crate) fn to_str(&self) -> (r: &'static str)
        ensures
            r@ == self.spec_str(),
    {
        match self {
            SpecifiedType::Client => "client",
            SpecifiedType::Depot => "depot",
            SpecifiedType::Repo => "repo",
            SpecifiedType::Branch => "branch",
            SpecifiedType::Label => "label",
            SpecifiedType::TypeMap => "typemap",
            SpecifiedType::Group => "group",
            SpecifiedType::User => "user",
            SpecifiedType::Job => "job",
            SpecifiedType::Stream => "stream",
            SpecifiedType::Triggers => "triggers",
            SpecifiedType::Protect => "protect",
            SpecifiedType::Server => "server",
            SpecifiedType::License => "license",
            SpecifiedType::JobSpec => "jobspec",
        }
    }
}

/// `p4 admin updatespecdepot [-a | -s type]`: populate the spec depot with the
/// current specs. Updating all spec types (`-a`) and one type (`-s type`) are
/// mutually exclusive.
#[derive(Debug, Clone, Copy, PartialEq, Eq)]
pub struct UpdateSpecDepot<S = Unselected> {
    selection: S,
}

/// The mathematical view of [`UpdateSpecDepot`].
pub struct UpdateSpecDepotView<S> {
    pub selection: S,
}

impl<S> View for UpdateSpecDepot<S> {
    type V = UpdateSpecDepotView<S>;

    closed spec fn view(&self) -> UpdateSpecDepotView<S> {
        UpdateSpecDepotView { selection: self.selection }
    }
}

impl Default for UpdateSpecDepot<Unselected> {
    fn default() -> (r: Self)
        ensures
            r@.selection == Unselected,
    {
        UpdateSpecDepot { selection: Unselected }
    }
}

impl<S: ExclusiveOption> SubCommand for UpdateSpecDepot<S> {
    open spec fn spec_name(&self) -> Seq<char> {
        "updatespecdepot"@
    }

    open spec fn spec_local_args(&self) -> Seq<Seq<char>> {
        self@.selection.spec_args()
    }

    open spec fn spec_global_opts(&self) -> Option<GlobalOptsView> {
        None
    }

    fn name(&self) -> (r: &str) {
        "updatespecdepot"
    }

    fn inject_local_args(&self, args: &mut Vec<String>) {
        self.selection.inject_args(args);
    }

    fn global_opts(&self) -> (r: Option<&GlobalOpts>) {
        None
    }
}

impl Admin<UpdateSpecDepot<Unselected>> {
    /// `-a`: update the spec depot with every spec type; excludes `-s`.
    pub fn all(self) -> (r: Admin<UpdateSpecDepot<spec::All>>)
        ensures
            r@.bin == self@.bin,
            r@.global_opts == self@.global_opts,
            r@.sub_command@.selection == spec::All,
    {
        Admin {
            bin: self.bin,
            global_opts: self.global_opts,
            sub_command: UpdateSpecDepot { selection: spec::All },
        }
    }

    /// `-s type`: update the spec depot with the specs of one type; excludes
    /// `-a`.
    pub fn specified_type(self, specified_type: SpecifiedType) -> (r: Admin<
        UpdateSpecDepot<spec::Selected>,
    >)
        ensures
            r@.bin == self@.bin,
            r@.global_opts == self@.global_opts,
            r@.sub_command@.selection == spec::Selected(specified_type),
    {
        Admin {
            bin: self.bin,
            global_opts: self.global_opts,
            sub_command: UpdateSpecDepot { selection: spec::Selected(specified_type) },
        }
    }
}

impl Admin<UpdateSpecDepot<spec::Selected>> {
    /// `-s type`: the spec type to update.
    pub fn get_specified_type(&self) -> (r: &SpecifiedType)
        ensures
            *r == self@.sub_command@.selection.0,
    {
        &self.sub_command.selection.0
    }

    /// `-s type`: the spec type to update.
    pub fn set_specified_type(&mut self, specified_type: SpecifiedType) -> (r: &mut Self)
        ensures
            r@.bin == old(self)@.bin,
            r@.global_opts == old(self)@.global_opts,
            r@.sub_command@.selection == spec::Selected(specified_type),
            *final(self) == *final(r),
    {
        self.sub_command.selection = spec::Selected(specified_type);
        self
    }
}

/// `p4 admin resetpassword [-a | -u user] [-l]`: require users to reset their
/// passwords. All users (`-a`) and one user (`-u user`) are mutually
/// exclusive.
#[derive(Debug, Clone, PartialEq, Eq)]
pub struct ResetPassword<T = Unselected> {
    set_password: T,
    super_user: bool,
}

/// The mathematical view of [`ResetPassword`].
pub struct ResetPasswordView<T> {
    pub set_password: T,
    pub super_user: bool,
}

impl<T> View for ResetPassword<T> {
    type V = ResetPasswordView<T>;

    closed spec fn view(&self) -> ResetPasswordView<T> {
        ResetPasswordView { set_password: self.set_password, super_user: self.super_user }
    }
}

impl Default for ResetPassword<Unselected> {
    fn default() -> (r: Self)
        ensures
            r@ == (ResetPasswordView { set_password: Unselected, super_user: false }),
    {
        ResetPassword { set_password: Unselected, super_user: false }
    }
}

impl<T: ExclusiveOption> SubCommand for ResetPassword<T> {
    open spec fn spec_name(&self) -> Seq<char> {
        "resetpassword"@
    }

    open spec fn spec_local_args(&self) -> Seq<Seq<char>> {
        self@.set_password.spec_args() + flag_args(self@.super_user, "-l"@)
    }

    open spec fn spec_global_opts(&self) -> Option<GlobalOptsView> {
        None
    }

    fn name(&self) -> (r: &str) {
        "resetpassword"
    }

    fn inject_local_args(&self, args: &mut Vec<String>) {
        self.set_password.inject_args(args);
        push_flag(args, self.super_user, "-l");
    }

    fn global_opts(&self) -> (r: Option<&GlobalOpts>) {
        None
    }
}

impl Admin<ResetPassword<Unselected>> {
    /// `-a`: require every user with a password to reset it; excludes `-u`.
    pub fn all(self) -> (r: Admin<ResetPassword<set_password::All>>)
        ensures
            r@.bin == self@.bin,
            r@.global_opts == self@.global_opts,
            r@.sub_command@.set_password == set_password::All,
            r@.sub_command@.super_user == self@.sub_command@.super_user,
    {
        Admin {
            bin: self.bin,
            global_opts: self.global_opts,
            sub_command: ResetPassword {
                set_password: set_password::All,
                super_user: self.sub_command.super_user,
            },
        }
    }

    /// `-u user`: require the named user to reset the password; excludes `-a`.
    pub fn user(self, user: &str) -> (r: Admin<ResetPassword<set_password::User>>)
        ensures
            r@.bin == self@.bin,
            r@.global_opts == self@.global_opts,
            r@.sub_command@.set_password.0@ == user@,
            r@.sub_command@.super_user == self@.sub_command@.super_user,
    {
        Admin {
            bin: self.bin,
            global_opts: self.global_opts,
            sub_command: ResetPassword {
                set_password: set_password::User(user.to_owned()),
                super_user: self.sub_command.super_user,
            },
        }
    }
}

impl Admin<ResetPassword<set_password::User>> {
    /// `-u user`: the user who must reset the password.
    pub fn get_user(&self) -> (r: &str)
        ensures
            r@ == self@.sub_command@.set_password.0@,
    {
        self.sub_command.set_password.0.as_str()
    }

    /// `-u user`: the user who must reset the password.
    pub fn set_user(&mut self, user: &str) -> (r: &mut Self)
        ensures
            r@.bin == old(self)@.bin,
            r@.global_opts == old(self)@.global_opts,
            r@.sub_command@.set_password.0@ == user@,
            r@.sub_command@.super_user == old(self)@.sub_command@.super_user,
            *final(self) == *final(r),
    {
        self.sub_command.set_password.0 = user.to_owned();
        self
    }
}

impl<T: ExclusiveOption> Admin<ResetPassword<T>> {
    /// `-l`: also require super users to reset their passwords.
    pub fn get_super_user(&self) -> (r: bool)
        ensures
            r == self@.sub_command@.super_user,
    {
        self.sub_command.super_user
    }

    /// `-l`: also require super users to reset their passwords.
    pub fn set_super_user(&mut self, super_user: bool) -> (r: &mut Self)
        ensures
            r@.bin == old(self)@.bin,
            r@.global_opts == old(self)@.global_opts,
            r@.sub_command@ == (ResetPasswordView {
                super_user: super_user,
                ..old(self)@.sub_command@
            }),
            *final(self) == *final(r),
    {
        self.sub_command.super_user = super_user;
        self
    }

    /// `-l`: also require super users to reset their passwords.
    pub fn super_user(self, super_user: bool) -> (r: Self)
        ensures
            r@.bin == self@.bin,
            r@.global_opts == self@.global_opts,
            r@.sub_command@ == (ResetPasswordView { super_user: super_user, ..self@.sub_command@ }),
    {
        let mut s = self;
        s.sub_command.super_user = super_user;
        s
    }
}

/// `p4 admin setldapusers`: set the authentication method of users to LDAP.
#[derive(Debug, Clone, Copy, Default, PartialEq, Eq, Structural)]
pub struct SetLdapUsers;

impl SubCommand for SetLdapUsers {
    open spec fn spec_name(&self) -> Seq<char> {
        "setldapusers"@
    }

    open spec fn spec_local_args(&self) -> Seq<Seq<char>> {
        seq![]
    }

    open spec fn spec_global_opts(&self) -> Option<GlobalOptsView> {
        None
    }

    fn name(&self) -> (r: &str) {
        "setldapusers"
    }

    fn inject_local_args(&self, args: &mut Vec<String>) {
        assert(args.deep_view() =~= old(args).deep_view() + Seq::<Seq<char>>::empty());
    }

    fn global_opts(&self) -> (r: Option<&GlobalOpts>) {
        None
    }
}

/// `p4 admin end-journal`: stop writing the journal.
#[derive(Debug, Clone, Copy, Default, PartialEq, Eq, Structural)]
pub struct EndJournal;

impl SubCommand for EndJournal {
    open spec fn spec_name(&self) -> Seq<char> {
        "end-journal"@
    }

    open spec fn spec_local_args(&self) -> Seq<Seq<char>> {
        seq![]
    }

    open spec fn spec_global_opts(&self) -> Option<GlobalOptsView> {
        None
    }

    fn name(&self) -> (r: &str) {
        "end-journal"
    }

    fn inject_local_args(&self, args: &mut Vec<String>) {
        assert(args.deep_view() =~= old(args).deep_view() + Seq::<Seq<char>>::empty());
    }

    fn global_opts(&self) -> (r: Option<&GlobalOpts>) {
        None
    }
}

/// `p4 admin sysinfo`: display information about the server machine.
#[derive(Debug, Clone, Copy, Default, PartialEq, Eq, Structural)]
pub struct SysInfo;

impl SubCommand for SysInfo {
    open spec fn spec_name(&self) -> Seq<char> {
        "sysinfo"@
    }

    open spec fn spec_local_args(&self) -> Seq<Seq<char>> {
        seq![]
    }

    open spec fn spec_global_opts(&self) -> Option<GlobalOptsView> {
        None
    }

    fn name(&self) -> (r: &str) {
        "sysinfo"
    }

    fn inject_local_args(&self, args: &mut Vec<String>) {
        assert(args.deep_view() =~= old(args).deep_view() + Seq::<Seq<char>>::empty());
    }

    fn global_opts(&self) -> (r: Option<&GlobalOpts>) {
        None
    }
}

/// `p4 admin resource-monitor`: display the state of the resource monitor.
#[derive(Debug, Clone, Copy, Default, PartialEq, Eq, Structural)]
pub struct ResourceMonitor;

impl SubCommand for ResourceMonitor {
    open spec fn spec_name(&self) -> Seq<char> {
        "resource-monitor"@
    }

    open spec fn spec_local_args(&self) -> Seq<Seq<char>> {
        seq![]
    }

    open spec fn spec_global_opts(&self) -> Option<GlobalOptsView> {
        None
    }

    fn name(&self) -> (r: &str) {
        "resource-monitor"
    }

    fn inject_local_args(&self, args: &mut Vec<String>) {
        assert(args.deep_view() =~= old(args).deep_view() + Seq::<Seq<char>>::empty());
    }

    fn global_opts(&self) -> (r: Option<&GlobalOpts>) {
        None
    }
}

/// `p4 admin replica-filter-reconcile [--restrict-only | --expand-only]
/// [table ...]`: reconcile a filtered replica with its filters. The two modes
/// are mutually exclusive.
#[derive(Debug, Clone, Copy, PartialEq, Eq)]
pub struct ReplicaFilterReconcile<M = Unselected> {
    reconcile: M,
}

/// The mathematical view of [`ReplicaFilterReconcile`].
pub struct ReplicaFilterReconcileView<M> {
    pub reconcile: M,
}

impl<M> View for ReplicaFilterReconcile<M> {
    type V = ReplicaFilterReconcileView<M>;

    closed spec fn view(&self) -> ReplicaFilterReconcileView<M> {
        ReplicaFilterReconcileView { reconcile: self.reconcile }
    }
}

impl Default for ReplicaFilterReconcile<Unselected> {
    fn default() -> (r: Self)
        ensures
            r@.reconcile == Unselected,
    {
        ReplicaFilterReconcile { reconcile: Unselected }
    }
}

impl<M: ExclusiveOption> SubCommand for ReplicaFilterReconcile<M> {
    open spec fn spec_name(&self) -> Seq<char> {
        "replica-filter-reconcile"@
    }

    open spec fn spec_local_args(&self) -> Seq<Seq<char>> {
        self@.reconcile.spec_args()
    }

    open spec fn spec_global_opts(&self) -> Option<GlobalOptsView> {
        None
    }

    fn name(&self) -> (r: &str) {
        "replica-filter-reconcile"
    }

    fn inject_local_args(&self, args: &mut Vec<String>) {
        self.reconcile.inject_args(args);
    }

    fn global_opts(&self) -> (r: Option<&GlobalOpts>) {
        None
    }
}

impl Admin<ReplicaFilterReconcile<Unselected>> {
    /// `--restrict-only`: only remove data that the filters exclude.
    pub fn restrict_only(self) -> (r: Admin<ReplicaFilterReconcile<reconcile::RestrictOnly>>)
        ensures
            r@.bin == self@.bin,
            r@.global_opts == self@.global_opts,
            r@.sub_command@.reconcile == reconcile::RestrictOnly,
    {
        Admin {
            bin: self.bin,
            global_opts: self.global_opts,
            sub_command: ReplicaFilterReconcile { reconcile: reconcile::RestrictOnly },
        }
    }

    /// `--expand-only`: only add data that the filters newly include.
    pub fn expand_only(self) -> (r: Admin<ReplicaFilterReconcile<reconcile::ExpandOnly>>)
        ensures
            r@.bin == self@.bin,
            r@.global_opts == self@.global_opts,
            r@.sub_command@.reconcile == reconcile::ExpandOnly,
    {
        Admin {
            bin: self.bin,
            global_opts: self.global_opts,
            sub_command: ReplicaFilterReconcile { reconcile: reconcile::ExpandOnly },
        }
    }
}

} // verus!
