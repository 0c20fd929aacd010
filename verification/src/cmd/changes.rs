//! `p4 changes` (alias `p4 changelists`): list submitted and pending changelists.
use vstd::prelude::*;

use crate::argv::{
    flag_args,
    lemma_args_concat_assoc,
    number_args,
    opt_as_slice,
    opt_push,
    opt_ref_view,
    opt_repeated_args,
    opt_slice_view,
    opt_str_view,
    opt_strings_view,
    opt_vec_push,
    push_arg,
    push_flag,
    push_number,
    push_pair,
    push_repeated,
    push_value,
    value_args,
};
use crate::cmd::{command_args, ExclusiveOption, SubCommand, Unselected};
use crate::command::CommandLine;
use crate::global::{GlobalOpts, GlobalOptsView};

verus! {

broadcast use lemma_args_concat_assoc;

/// `-l`: show the full text of each changelist description.
#[derive(Debug, Clone, Copy, Default, PartialEq, Eq, Structural)]
pub struct FullDescription;

impl ExclusiveOption for FullDescription {
    open spec fn spec_args(&self) -> Seq<Seq<char>> {
        seq!["-l"@]
    }

    fn inject_args(&self, args: &mut Vec<String>) {
        push_arg(args, "-l");
    }
}

/// `-L`: show the full text of each changelist description, truncated at 250
/// characters.
#[derive(Debug, Clone, Copy, Default, PartialEq, Eq, Structural)]
pub struct TruncatedDescription;

impl ExclusiveOption for TruncatedDescription {
    open spec fn spec_args(&self) -> Seq<Seq<char>> {
        seq!["-L"@]
    }

    fn inject_args(&self, args: &mut Vec<String>) {
        push_arg(args, "-L");
    }
}

/// A user whose changes `-u` / `--me` select.
#[derive(Debug, Clone, PartialEq, Eq)]
pub enum User {
    /// `-u user`: the named user.
    User(String),
    /// `--me`: the current user.
    Me,
}

/// The mathematical view of [`User`].
pub enum UserView {
    User(Seq<char>),
    Me,
}

impl View for User {
    type V = UserView;

    open spec fn view(&self) -> UserView {
        match self {
            User::User(name) => UserView::User(name@),
            User::Me => UserView::Me,
        }
    }
}

/// The view of an optional list of users.
pub open spec fn opt_users_view(v: Option<Vec<User>>) -> Option<Seq<UserView>> {
    match v {
        Some(us) => Some(us@.map_values(|u: User| u@)),
        None => None,
    }
}

/// The view of an optional borrowed slice of users.
pub open spec fn opt_user_slice_view(v: Option<&[User]>) -> Option<Seq<UserView>> {
    match v {
        Some(us) => Some(us@.map_values(|u: User| u@)),
        None => None,
    }
}

/// The arguments that select one user.
pub open spec fn user_args(u: UserView) -> Seq<Seq<char>> {
    match u {
        UserView::User(name) => seq!["-u"@, name],
        UserView::Me => seq!["--me"@],
    }
}

/// The arguments that select each of the users, in order.
pub open spec fn users_args(us: Seq<UserView>) -> Seq<Seq<char>>
    decreases us.len(),
{
    if us.len() == 0 {
        seq![]
    } else {
        users_args(us.drop_last()) + user_args(us.last())
    }
}

/// The arguments of an optional list of users.
pub open spec fn opt_users_args(us: Option<Seq<UserView>>) -> Seq<Seq<char>> {
    match us {
        Some(v) => users_args(v),
        None => seq![],
    }
}

/// The list of users with `u` appended; a missing list counts as empty.
pub open spec fn opt_users_push(us: Option<Seq<UserView>>, u: UserView) -> Option<Seq<UserView>> {
    match us {
        Some(v) => Some(v.push(u)),
        None => Some(seq![u]),
    }
}

/// The status of a changelist.
#[derive(Debug, Clone, Copy, PartialEq, Eq, Structural)]
pub enum Status {
    Pending,
    Submitted,
    Shelved,
}

impl Status {
    /// The spelling of a status on the command line.
    pub open spec fn spec_str(self) -> Seq<char> {
        match self {
            Status::Pending => "pending"@,
            Status::Submitted => "submitted"@,
            Status::Shelved => "shelved"@,
        }
    }

    /// Returns the command-line spelling of this status.
    pub fn as_str(&self) -> (r: &'static str)
        ensures
            r@ == self.spec_str(),
    {
        match self {
            Status::Pending => "pending",
            Status::Submitted => "submitted",
            Status::Shelved => "shelved",
        }
    }
}

/// `-s status` when a status is selected, nothing otherwise.
pub open spec fn status_args(status: Option<Status>) -> Seq<Seq<char>> {
    match status {
        Some(s) => seq!["-s"@, s.spec_str()],
        None => seq![],
    }
}

/// `--stream` or `--nostream` when the stream filter is set, nothing otherwise.
pub open spec fn stream_args(stream: Option<bool>) -> Seq<Seq<char>> {
    match stream {
        Some(true) => seq!["--stream"@],
        Some(false) => seq!["--nostream"@],
        None => seq![],
    }
}

fn push_status(args: &mut Vec<String>, status: Option<Status>)
    ensures
        final(args).deep_view() == old(args).deep_view() + status_args(status),
{
    match status {
        Some(s) => {
            push_arg(args, "-s");
            push_arg(args, s.as_str());
        },
        None => {
            assert(args.deep_view() =~= old(args).deep_view() + status_args(status));
        },
    }
}

fn push_stream(args: &mut Vec<String>, stream: Option<bool>)
    ensures
        final(args).deep_view() == old(args).deep_view() + stream_args(stream),
{
    match stream {
        Some(true) => push_arg(args, "--stream"),
        Some(false) => push_arg(args, "--nostream"),
        None => {
            assert(args.deep_view() =~= old(args).deep_view() + stream_args(stream));
        },
    }
}

fn push_users(args: &mut Vec<String>, users: &Option<Vec<User>>)
    ensures
        final(args).deep_view() == old(args).deep_view() + opt_users_args(opt_users_view(*users)),
{
    match users {
        Some(us) => {
            let ghost views = us@.map_values(|u: User| u@);
            let mut i: usize = 0;
            while i < us.len()
                invariant
                    i <= us.len(),
                    views == us@.map_values(|u: User| u@),
                    args.deep_view() == old(args).deep_view() + users_args(views.take(i as int)),
                decreases us.len() - i,
            {
                let ghost before = args.deep_view();
                assert(views[i as int] == us[i as int]@);
                match &us[i] {
                    User::User(name) => {
                        push_pair(args, "-u", name);
                    },
                    User::Me => {
                        push_arg(args, "--me");
                    },
                }
                assert(args.deep_view() =~= before + user_args(views[i as int]));
                assert(views.take(i + 1).drop_last() =~= views.take(i as int));
                i = i + 1;
            }
            assert(views.take(us.len() as int) =~= views);
        },
        None => {
            assert(args.deep_view() =~= old(args).deep_view() + Seq::<Seq<char>>::empty());
        },
    }
}

fn users_push(users: &mut Option<Vec<User>>, u: User)
    ensures
        opt_users_view(*final(users)) == opt_users_push(opt_users_view(*old(users)), u@),
{
    match users {
        Some(us) => {
            us.push(u);
            assert(us@.map_values(|x: User| x@) =~= old(users)->0@.map_values(|x: User| x@).push(u@));
        },
        None => {
            let mut us: Vec<User> = Vec::new();
            us.push(u);
            assert(us@.map_values(|x: User| x@) =~= seq![u@]);
            *users = Some(us);
        },
    }
}

fn users_as_slice(users: &Option<Vec<User>>) -> (r: Option<&[User]>)
    ensures
        opt_user_slice_view(r) == opt_users_view(*users),
{
    match users {
        Some(us) => Some(us.as_slice()),
        None => None,
    }
}

/// `p4 [g-opts] changes [options] [file[revRange] ...]`
///
/// List submitted and pending changelists.
///
/// The long output mode (`-l` / `-L`) is a mutually exclusive option group
/// selected with [`Changes::long_output_full`] or
/// [`Changes::long_output_truncated`].
#[derive(Debug)]
pub struct Changes<L = Unselected> {
    bin: String,
    global_opts: GlobalOpts,
    min_change_list: Option<String>,
    include_restricted: bool,
    include_integrated: bool,
    include_time: bool,
    long_output: L,
    limit: Option<u64>,
    reverse_order: bool,
    filter_status: Option<Status>,
    filter_users: Option<Vec<User>>,
    filter_clients: Option<Vec<String>>,
    client_case_insensitive: bool,
    stream: Option<bool>,
}

/// The mathematical view of [`Changes`].
pub struct ChangesView<L> {
    pub bin: Seq<char>,
    pub global_opts: GlobalOptsView,
    pub min_change_list: Option<Seq<char>>,
    pub include_restricted: bool,
    pub include_integrated: bool,
    pub include_time: bool,
    pub long_output: L,
    pub limit: Option<u64>,
    pub reverse_order: bool,
    pub filter_status: Option<Status>,
    pub filter_users: Option<Seq<UserView>>,
    pub filter_clients: Option<Seq<Seq<char>>>,
    pub client_case_insensitive: bool,
    pub stream: Option<bool>,
}

impl<L> View for Changes<L> {
    type V = ChangesView<L>;

    closed spec fn view(&self) -> ChangesView<L> {
        ChangesView {
            bin: self.bin@,
            global_opts: self.global_opts@,
            min_change_list: opt_str_view(self.min_change_list),
            include_restricted: self.include_restricted,
            include_integrated: self.include_integrated,
            include_time: self.include_time,
            long_output: self.long_output,
            limit: self.limit,
            reverse_order: self.reverse_order,
            filter_status: self.filter_status,
            filter_users: opt_users_view(self.filter_users),
            filter_clients: opt_strings_view(self.filter_clients),
            client_case_insensitive: self.client_case_insensitive,
            stream: self.stream,
        }
    }
}

impl<L: ExclusiveOption> SubCommand for Changes<L> {
    open spec fn spec_name(&self) -> Seq<char> {
        "changes"@
    }

    open spec fn spec_local_args(&self) -> Seq<Seq<char>> {
        opt_repeated_args("-c"@, self@.filter_clients)
        + flag_args(self@.client_case_insensitive, "--client-case-insensitive"@)
        + value_args("-e"@, self@.min_change_list)
        + flag_args(self@.include_restricted, "-f"@)
        + flag_args(self@.include_integrated, "-i"@)
        + self@.long_output.spec_args()
        + number_args("-m"@, self@.limit)
        + flag_args(self@.reverse_order, "-r"@)
        + status_args(self@.filter_status)
        + flag_args(self@.include_time, "-t"@)
        + opt_users_args(self@.filter_users)
        + stream_args(self@.stream)
    }

    open spec fn spec_global_opts(&self) -> Option<GlobalOptsView> {
        Some(self@.global_opts)
    }

    fn name(&self) -> (r: &str) {
        "changes"
    }

    fn inject_local_args(&self, args: &mut Vec<String>) {
        push_repeated(args, "-c", &self.filter_clients);
        push_flag(args, self.client_case_insensitive, "--client-case-insensitive");
        push_value(args, "-e", &self.min_change_list);
        push_flag(args, self.include_restricted, "-f");
        push_flag(args, self.include_integrated, "-i");
        self.long_output.inject_args(args);
        push_number(args, "-m", self.limit);
        push_flag(args, self.reverse_order, "-r");
        push_status(args, self.filter_status);
        push_flag(args, self.include_time, "-t");
        push_users(args, &self.filter_users);
        push_stream(args, self.stream);
    }

    fn global_opts(&self) -> (r: Option<&GlobalOpts>) {
        Some(&self.global_opts)
    }
}

impl Changes<Unselected> {
    /// List submitted and pending changelists.
    ///
    /// `bin` is the path to the Perforce command-line executable.
    pub fn new(bin: &str, global_opts: GlobalOpts) -> (r: Self)
        ensures
            r@.bin == bin@,
            r@.global_opts == global_opts@,
            r@.min_change_list is None,
            r@.include_restricted == false,
            r@.include_integrated == false,
            r@.include_time == false,
            r@.long_output == Unselected,
            r@.limit is None,
            r@.reverse_order == false,
            r@.filter_status is None,
            r@.filter_users is None,
            r@.filter_clients is None,
            r@.client_case_insensitive == false,
            r@.stream is None,
    {
        Changes {
            bin: bin.to_owned(),
            global_opts: global_opts,
            min_change_list: None,
            include_restricted: false,
            include_integrated: false,
            include_time: false,
            long_output: Unselected,
            limit: None,
            reverse_order: false,
            filter_status: None,
            filter_users: None,
            filter_clients: None,
            client_case_insensitive: false,
            stream: None,
        }
    }

    /// `-l`: selects the long output mode showing the full text of each changelist
    /// description.
    pub fn long_output_full(self) -> (r: Changes<FullDescription>)
        ensures
            r@.bin == self@.bin,
            r@.global_opts == self@.global_opts,
            r@.min_change_list == self@.min_change_list,
            r@.include_restricted == self@.include_restricted,
            r@.include_integrated == self@.include_integrated,
            r@.include_time == self@.include_time,
            r@.long_output == FullDescription,
            r@.limit == self@.limit,
            r@.reverse_order == self@.reverse_order,
            r@.filter_status == self@.filter_status,
            r@.filter_users == self@.filter_users,
            r@.filter_clients == self@.filter_clients,
            r@.client_case_insensitive == self@.client_case_insensitive,
            r@.stream == self@.stream,
    {
        Changes {
            bin: self.bin,
            global_opts: self.global_opts,
            min_change_list: self.min_change_list,
            include_restricted: self.include_restricted,
            include_integrated: self.include_integrated,
            include_time: self.include_time,
            long_output: FullDescription,
            limit: self.limit,
            reverse_order: self.reverse_order,
            filter_status: self.filter_status,
            filter_users: self.filter_users,
            filter_clients: self.filter_clients,
            client_case_insensitive: self.client_case_insensitive,
            stream: self.stream,
        }
    }

    /// `-L`: selects the long output mode showing the full text of each changelist
    /// description, truncated at 250 characters.
    pub fn long_output_truncated(self) -> (r: Changes<TruncatedDescription>)
        ensures
            r@.bin == self@.bin,
            r@.global_opts == self@.global_opts,
            r@.min_change_list == self@.min_change_list,
            r@.include_restricted == self@.include_restricted,
            r@.include_integrated == self@.include_integrated,
            r@.include_time == self@.include_time,
            r@.long_output == TruncatedDescription,
            r@.limit == self@.limit,
            r@.reverse_order == self@.reverse_order,
            r@.filter_status == self@.filter_status,
            r@.filter_users == self@.filter_users,
            r@.filter_clients == self@.filter_clients,
            r@.client_case_insensitive == self@.client_case_insensitive,
            r@.stream == self@.stream,
    {
        Changes {
            bin: self.bin,
            global_opts: self.global_opts,
            min_change_list: self.min_change_list,
            include_restricted: self.include_restricted,
            include_integrated: self.include_integrated,
            include_time: self.include_time,
            long_output: TruncatedDescription,
            limit: self.limit,
            reverse_order: self.reverse_order,
            filter_status: self.filter_status,
            filter_users: self.filter_users,
            filter_clients: self.filter_clients,
            client_case_insensitive: self.client_case_insensitive,
            stream: self.stream,
        }
    }
}

impl<L: ExclusiveOption> Changes<L> {
    /// The command line that runs this command with the stored `p4` executable;
    /// operands (files, changelists, ...) follow it.
    pub fn command_line(&self) -> (c: CommandLine)
        ensures
            c@.program == self@.bin,
            c@.args == command_args(self),
    {
        self.setup_command(self.bin.as_str())
    }

    /// g-opts: the global options that precede the command; see [`GlobalOpts`].
    pub fn get_global_opts(&self) -> (r: &GlobalOpts)
        ensures
            r@ == self@.global_opts,
    {
        &self.global_opts
    }

    /// g-opts: the global options that precede the command; see [`GlobalOpts`].
    pub fn set_global_opts(&mut self, v: GlobalOpts) -> (r: &mut Self)
        ensures
            r@ == (ChangesView { global_opts: v@, ..old(self)@ }),
            *final(self) == *final(r),
    {
        self.global_opts = v;
        self
    }

    /// g-opts: the global options that precede the command; see [`GlobalOpts`].
    pub fn global_opts(self, v: GlobalOpts) -> (r: Self)
        ensures
            r@ == (ChangesView { global_opts: v@, ..self@ }),
    {
        let mut s = self;
        s.global_opts = v;
        s
    }

    /// `-c client`: lists only changes made from the named client workspace; each call
    /// adds one `-c`.
    pub fn get_clients(&self) -> (r: Option<&[String]>)
        ensures
            opt_slice_view(r) == self@.filter_clients,
    {
        opt_as_slice(&self.filter_clients)
    }

    /// `-c client`: lists only changes made from the named client workspace; each call
    /// adds one `-c`.
    pub fn set_client(&mut self, v: &str) -> (r: &mut Self)
        ensures
            r@ == (ChangesView {
                filter_clients: opt_push(old(self)@.filter_clients, v@),
                ..old(self)@
            }),
            *final(self) == *final(r),
    {
        opt_vec_push(&mut self.filter_clients, v.to_owned());
        self
    }

    /// `-c client`: lists only changes made from the named client workspace; each call
    /// adds one `-c`.
    pub fn client(self, v: &str) -> (r: Self)
        ensures
            r@ == (ChangesView { filter_clients: opt_push(self@.filter_clients, v@), ..self@ }),
    {
        let mut s = self;
        opt_vec_push(&mut s.filter_clients, v.to_owned());
        s
    }

    /// `-e changelist`: displays only changelists that are greater than or equal to the
    /// specified changelist number.
    pub fn get_min_change_list(&self) -> (r: Option<&String>)
        ensures
            opt_ref_view(r) == self@.min_change_list,
    {
        self.min_change_list.as_ref()
    }

    /// `-e changelist`: displays only changelists that are greater than or equal to the
    /// specified changelist number.
    pub fn set_min_change_list(&mut self, v: &str) -> (r: &mut Self)
        ensures
            r@ == (ChangesView { min_change_list: Some(v@), ..old(self)@ }),
            *final(self) == *final(r),
    {
        self.min_change_list = Some(v.to_owned());
        self
    }

    /// `-e changelist`: displays only changelists that are greater than or equal to the
    /// specified changelist number.
    pub fn min_change_list(self, v: &str) -> (r: Self)
        ensures
            r@ == (ChangesView { min_change_list: Some(v@), ..self@ }),
    {
        let mut s = self;
        s.min_change_list = Some(v.to_owned());
        s
    }

    /// `-f`: enables admin users to view restricted changes.
    pub fn get_include_restricted(&self) -> (r: bool)
        ensures
            r == self@.include_restricted,
    {
        self.include_restricted
    }

    /// `-f`: enables admin users to view restricted changes.
    pub fn set_include_restricted(&mut self, v: bool) -> (r: &mut Self)
        ensures
            r@ == (ChangesView { include_restricted: v, ..old(self)@ }),
            *final(self) == *final(r),
    {
        self.include_restricted = v;
        self
    }

    /// `-f`: enables admin users to view restricted changes.
    pub fn include_restricted(self, v: bool) -> (r: Self)
        ensures
            r@ == (ChangesView { include_restricted: v, ..self@ }),
    {
        let mut s = self;
        s.include_restricted = v;
        s
    }

    /// `-i`: includes changelists that affected files that were integrated with the
    /// specified files.
    pub fn get_include_integrated(&self) -> (r: bool)
        ensures
            r == self@.include_integrated,
    {
        self.include_integrated
    }

    /// `-i`: includes changelists that affected files that were integrated with the
    /// specified files.
    pub fn set_include_integrated(&mut self, v: bool) -> (r: &mut Self)
        ensures
            r@ == (ChangesView { include_integrated: v, ..old(self)@ }),
            *final(self) == *final(r),
    {
        self.include_integrated = v;
        self
    }

    /// `-i`: includes changelists that affected files that were integrated with the
    /// specified files.
    pub fn include_integrated(self, v: bool) -> (r: Self)
        ensures
            r@ == (ChangesView { include_integrated: v, ..self@ }),
    {
        let mut s = self;
        s.include_integrated = v;
        s
    }

    /// `-m max`: lists only the highest numbered `max` changes.
    pub fn get_limit(&self) -> (r: Option<u64>)
        ensures
            r == self@.limit,
    {
        self.limit
    }

    /// `-m max`: lists only the highest numbered `max` changes.
    pub fn set_limit(&mut self, v: u64) -> (r: &mut Self)
        ensures
            r@ == (ChangesView { limit: Some(v), ..old(self)@ }),
            *final(self) == *final(r),
    {
        self.limit = Some(v);
        self
    }

    /// `-m max`: lists only the highest numbered `max` changes.
    pub fn limit(self, v: u64) -> (r: Self)
        ensures
            r@ == (ChangesView { limit: Some(v), ..self@ }),
    {
        let mut s = self;
        s.limit = Some(v);
        s
    }

    /// `-r`: sorts the output in reverse order.
    pub fn get_reverse_order(&self) -> (r: bool)
        ensures
            r == self@.reverse_order,
    {
        self.reverse_order
    }

    /// `-r`: sorts the output in reverse order.
    pub fn set_reverse_order(&mut self, v: bool) -> (r: &mut Self)
        ensures
            r@ == (ChangesView { reverse_order: v, ..old(self)@ }),
            *final(self) == *final(r),
    {
        self.reverse_order = v;
        self
    }

    /// `-r`: sorts the output in reverse order.
    pub fn reverse_order(self, v: bool) -> (r: Self)
        ensures
            r@ == (ChangesView { reverse_order: v, ..self@ }),
    {
        let mut s = self;
        s.reverse_order = v;
        s
    }

    /// `-s status`: limits the output to changelists with the given status.
    pub fn get_status(&self) -> (r: Option<Status>)
        ensures
            r == self@.filter_status,
    {
        self.filter_status
    }

    /// `-s status`: limits the output to changelists with the given status.
    pub fn set_status(&mut self, v: Status) -> (r: &mut Self)
        ensures
            r@ == (ChangesView { filter_status: Some(v), ..old(self)@ }),
            *final(self) == *final(r),
    {
        self.filter_status = Some(v);
        self
    }

    /// `-s status`: limits the output to changelists with the given status.
    pub fn status(self, v: Status) -> (r: Self)
        ensures
            r@ == (ChangesView { filter_status: Some(v), ..self@ }),
    {
        let mut s = self;
        s.filter_status = Some(v);
        s
    }

    /// `-t`: displays the time as well as the date of each change.
    pub fn get_include_time(&self) -> (r: bool)
        ensures
            r == self@.include_time,
    {
        self.include_time
    }

    /// `-t`: displays the time as well as the date of each change.
    pub fn set_include_time(&mut self, v: bool) -> (r: &mut Self)
        ensures
            r@ == (ChangesView { include_time: v, ..old(self)@ }),
            *final(self) == *final(r),
    {
        self.include_time = v;
        self
    }

    /// `-t`: displays the time as well as the date of each change.
    pub fn include_time(self, v: bool) -> (r: Self)
        ensures
            r@ == (ChangesView { include_time: v, ..self@ }),
    {
        let mut s = self;
        s.include_time = v;
        s
    }

    /// `-u user` / `--me`: lists only changes made by the named user, or by the
    /// current user; each call adds one.
    pub fn get_users(&self) -> (r: Option<&[User]>)
        ensures
            opt_user_slice_view(r) == self@.filter_users,
    {
        users_as_slice(&self.filter_users)
    }

    /// `-u user` / `--me`: lists only changes made by the named user, or by the
    /// current user; each call adds one.
    pub fn set_user_name(&mut self, v: &str) -> (r: &mut Self)
        ensures
            r@ == (ChangesView {
                filter_users: opt_users_push(old(self)@.filter_users, UserView::User(v@)),
                ..old(self)@
            }),
            *final(self) == *final(r),
    {
        users_push(&mut self.filter_users, User::User(v.to_owned()));
        self
    }

    /// `-u user` / `--me`: lists only changes made by the named user, or by the
    /// current user; each call adds one.
    pub fn set_me(&mut self) -> (r: &mut Self)
        ensures
            r@ == (ChangesView {
                filter_users: opt_users_push(old(self)@.filter_users, UserView::Me),
                ..old(self)@
            }),
            *final(self) == *final(r),
    {
        users_push(&mut self.filter_users, User::Me);
        self
    }

    /// `-u user` / `--me`: lists only changes made by the named user, or by the
    /// current user; each call adds one.
    pub fn user_name(self, v: &str) -> (r: Self)
        ensures
            r@ == (ChangesView {
                filter_users: opt_users_push(self@.filter_users, UserView::User(v@)),
                ..self@
            }),
    {
        let mut s = self;
        users_push(&mut s.filter_users, User::User(v.to_owned()));
        s
    }

    /// `-u user` / `--me`: lists only changes made by the named user, or by the
    /// current user; each call adds one.
    pub fn me(self) -> (r: Self)
        ensures
            r@ == (ChangesView {
                filter_users: opt_users_push(self@.filter_users, UserView::Me),
                ..self@
            }),
    {
        let mut s = self;
        users_push(&mut s.filter_users, User::Me);
        s
    }

    /// `--client-case-insensitive`: matches the `-c client` names case-insensitively.
    pub fn get_client_case_insensitive(&self) -> (r: bool)
        ensures
            r == self@.client_case_insensitive,
    {
        self.client_case_insensitive
    }

    /// `--client-case-insensitive`: matches the `-c client` names case-insensitively.
    pub fn set_client_case_insensitive(&mut self, v: bool) -> (r: &mut Self)
        ensures
            r@ == (ChangesView { client_case_insensitive: v, ..old(self)@ }),
            *final(self) == *final(r),
    {
        self.client_case_insensitive = v;
        self
    }

    /// `--client-case-insensitive`: matches the `-c client` names case-insensitively.
    pub fn client_case_insensitive(self, v: bool) -> (r: Self)
        ensures
            r@ == (ChangesView { client_case_insensitive: v, ..self@ }),
    {
        let mut s = self;
        s.client_case_insensitive = v;
        s
    }

    /// `--stream` / `--nostream`: `Some(true)` lists only changes to stream specs,
    /// `Some(false)` only changes without stream specs.
    pub fn get_stream(&self) -> (r: Option<bool>)
        ensures
            r == self@.stream,
    {
        self.stream
    }

    /// `--stream` / `--nostream`: `Some(true)` lists only changes to stream specs,
    /// `Some(false)` only changes without stream specs.
    pub fn set_stream(&mut self, v: Option<bool>) -> (r: &mut Self)
        ensures
            r@ == (ChangesView { stream: v, ..old(self)@ }),
            *final(self) == *final(r),
    {
        self.stream = v;
        self
    }

    /// `--stream` / `--nostream`: `Some(true)` lists only changes to stream specs,
    /// `Some(false)` only changes without stream specs.
    pub fn stream(self, v: Option<bool>) -> (r: Self)
        ensures
            r@ == (ChangesView { stream: v, ..self@ }),
    {
        let mut s = self;
        s.stream = v;
        s
    }
}

} // verus!
