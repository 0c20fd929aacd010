//! `p4 filelog`: print detailed information about the revisions of files.
use vstd::prelude::*;

use crate::argv::{
    flag_args,
    lemma_args_concat_assoc,
    number_args,
    opt_ref_view,
    opt_str_view,
    push_arg,
    push_flag,
    push_number,
    push_value,
    value_args,
};
use crate::cmd::{command_args, ExclusiveOption, SubCommand, Unselected};
use crate::command::CommandLine;
use crate::global::{GlobalOpts, GlobalOptsView};

verus! {

broadcast use lemma_args_concat_assoc;

/// `-l`: lists the full text of the changelist descriptions.
#[derive(Debug, Clone, Copy, Default, PartialEq, Eq, Structural)]
pub struct FullDescription;

impl ExclusiveOption for FullDescription {
    open spec fn spec_args(&self) -> Seq<Seq<char>> {
        seq!["-l"@]
    }

    fn inject_args(&self, args: &mut Vec<String>) {
        push_arg(args, "-l");
    }
}

/// `-L`: lists the full text of the changelist descriptions, truncated to 250
/// characters.
#[derive(Debug, Clone, Copy, Default, PartialEq, Eq, Structural)]
pub struct TruncatedDescription;

impl ExclusiveOption for TruncatedDescription {
    open spec fn spec_args(&self) -> Seq<Seq<char>> {
        seq!["-L"@]
    }

    fn inject_args(&self, args: &mut Vec<String>) {
        push_arg(args, "-L");
    }
}

/// `-h`: displays the file content history instead of the file name history,
/// optionally skipping promoted task streams (`-p`).
#[derive(Debug, Clone, Copy, Default, PartialEq, Eq)]
pub struct DisplayContentHistory {
    skip_promoted_tasks: bool,
}

/// The mathematical view of [`DisplayContentHistory`].
pub struct DisplayContentHistoryView {
    pub skip_promoted_tasks: bool,
}

impl View for DisplayContentHistory {
    type V = DisplayContentHistoryView;

    closed spec fn view(&self) -> DisplayContentHistoryView {
        DisplayContentHistoryView {
            skip_promoted_tasks: self.skip_promoted_tasks,
        }
    }
}

impl ExclusiveOption for DisplayContentHistory {
    open spec fn spec_args(&self) -> Seq<Seq<char>> {
        seq!["-h"@]
        + flag_args(self@.skip_promoted_tasks, "-p"@)
    }

    fn inject_args(&self, args: &mut Vec<String>) {
        push_arg(args, "-h");
        push_flag(args, self.skip_promoted_tasks, "-p");
    }
}

/// `p4 [g-opts] filelog [-c changelist# -h -i -l -L -t -m max -p -s] file[revRange] ...`
///
/// Print detailed information about the revisions of files.
///
/// The long output modes (`-l` / `-L`) and the content history (`-h`) are
/// selected through the type parameters.
#[derive(Debug)]
pub struct FileLog<L = Unselected, H = Unselected> {
    bin: String,
    global_opts: GlobalOpts,
    changelist: Option<String>,
    content_history: H,
    follow_branches: bool,
    long_output: L,
    limit: Option<u64>,
    ignore_non_contributory: bool,
    include_time: bool,
}

/// The mathematical view of [`FileLog`].
pub struct FileLogView<L, H> {
    pub bin: Seq<char>,
    pub global_opts: GlobalOptsView,
    pub changelist: Option<Seq<char>>,
    pub content_history: H,
    pub follow_branches: bool,
    pub long_output: L,
    pub limit: Option<u64>,
    pub ignore_non_contributory: bool,
    pub include_time: bool,
}

impl<L, H> View for FileLog<L, H> {
    type V = FileLogView<L, H>;

    closed spec fn view(&self) -> FileLogView<L, H> {
        FileLogView {
            bin: self.bin@,
            global_opts: self.global_opts@,
            changelist: opt_str_view(self.changelist),
            content_history: self.content_history,
            follow_branches: self.follow_branches,
            long_output: self.long_output,
            limit: self.limit,
            ignore_non_contributory: self.ignore_non_contributory,
            include_time: self.include_time,
        }
    }
}

impl<L: ExclusiveOption, H: ExclusiveOption> SubCommand for FileLog<L, H> {
    open spec fn spec_name(&self) -> Seq<char> {
        "filelog"@
    }

    open spec fn spec_local_args(&self) -> Seq<Seq<char>> {
        value_args("-c"@, self@.changelist)
        + self@.content_history.spec_args()
        + flag_args(self@.follow_branches, "-i"@)
        + self@.long_output.spec_args()
        + number_args("-m"@, self@.limit)
        + flag_args(self@.ignore_non_contributory, "-s"@)
        + flag_args(self@.include_time, "-t"@)
    }

    open spec fn spec_global_opts(&self) -> Option<GlobalOptsView> {
        Some(self@.global_opts)
    }

    fn name(&self) -> (r: &str) {
        "filelog"
    }

    fn inject_local_args(&self, args: &mut Vec<String>) {
        push_value(args, "-c", &self.changelist);
        self.content_history.inject_args(args);
        push_flag(args, self.follow_branches, "-i");
        self.long_output.inject_args(args);
        push_number(args, "-m", self.limit);
        push_flag(args, self.ignore_non_contributory, "-s");
        push_flag(args, self.include_time, "-t");
    }

    fn global_opts(&self) -> (r: Option<&GlobalOpts>) {
        Some(&self.global_opts)
    }
}

impl FileLog<Unselected, Unselected> {
    /// Print detailed information about the revisions of files.
    ///
    /// `bin` is the path to the Perforce command-line executable.
    pub fn new(bin: &str, global_opts: GlobalOpts) -> (r: Self)
        ensures
            r@.bin == bin@,
            r@.global_opts == global_opts@,
            r@.changelist is None,
            r@.content_history == Unselected,
            r@.follow_branches == false,
            r@.long_output == Unselected,
            r@.limit is None,
            r@.ignore_non_contributory == false,
            r@.include_time == false,
    {
        FileLog {
            bin: bin.to_owned(),
            global_opts: global_opts,
            changelist: None,
            content_history: Unselected,
            follow_branches: false,
            long_output: Unselected,
            limit: None,
            ignore_non_contributory: false,
            include_time: false,
        }
    }
}

impl<H: ExclusiveOption> FileLog<Unselected, H> {
    /// `-l`: selects the full descriptions; excludes `-L`.
    pub fn full_description(self) -> (r: FileLog<FullDescription, H>)
        ensures
            r@.bin == self@.bin,
            r@.global_opts == self@.global_opts,
            r@.changelist == self@.changelist,
            r@.content_history == self@.content_history,
            r@.follow_branches == self@.follow_branches,
            r@.long_output == FullDescription,
            r@.limit == self@.limit,
            r@.ignore_non_contributory == self@.ignore_non_contributory,
            r@.include_time == self@.include_time,
    {
        FileLog {
            bin: self.bin,
            global_opts: self.global_opts,
            changelist: self.changelist,
            content_history: self.content_history,
            follow_branches: self.follow_branches,
            long_output: FullDescription,
            limit: self.limit,
            ignore_non_contributory: self.ignore_non_contributory,
            include_time: self.include_time,
        }
    }

    /// `-L`: selects the truncated full descriptions; excludes `-l`.
    pub fn truncated_description(self) -> (r: FileLog<TruncatedDescription, H>)
        ensures
            r@.bin == self@.bin,
            r@.global_opts == self@.global_opts,
            r@.changelist == self@.changelist,
            r@.content_history == self@.content_history,
            r@.follow_branches == self@.follow_branches,
            r@.long_output == TruncatedDescription,
            r@.limit == self@.limit,
            r@.ignore_non_contributory == self@.ignore_non_contributory,
            r@.include_time == self@.include_time,
    {
        FileLog {
            bin: self.bin,
            global_opts: self.global_opts,
            changelist: self.changelist,
            content_history: self.content_history,
            follow_branches: self.follow_branches,
            long_output: TruncatedDescription,
            limit: self.limit,
            ignore_non_contributory: self.ignore_non_contributory,
            include_time: self.include_time,
        }
    }
}

impl<L: ExclusiveOption> FileLog<L, Unselected> {
    /// `-h`: displays the file content history.
    pub fn content_history(self) -> (r: FileLog<L, DisplayContentHistory>)
        ensures
            r@.bin == self@.bin,
            r@.global_opts == self@.global_opts,
            r@.changelist == self@.changelist,
            r@.content_history@.skip_promoted_tasks == false,
            r@.follow_branches == self@.follow_branches,
            r@.long_output == self@.long_output,
            r@.limit == self@.limit,
            r@.ignore_non_contributory == self@.ignore_non_contributory,
            r@.include_time == self@.include_time,
    {
        FileLog {
            bin: self.bin,
            global_opts: self.global_opts,
            changelist: self.changelist,
            content_history: DisplayContentHistory { skip_promoted_tasks: false },
            follow_branches: self.follow_branches,
            long_output: self.long_output,
            limit: self.limit,
            ignore_non_contributory: self.ignore_non_contributory,
            include_time: self.include_time,
        }
    }
}

impl<L: ExclusiveOption, H: ExclusiveOption> FileLog<L, H> {
    /// The command line that runs this command with the stored `p4` executable;
    /// operands (files, changelists, ...) follow it.
    pub fn command_line(&self) -> (c: CommandLine)
        ensures
            c@.program == self@.bin,
            c@.args == command_args(self),
    {
        self.setup_command(self.bin.as_str())
    }

    /// g-opts: the global options that precede the command; see [`GlobalOpts`].
    pub fn get_global_opts(&self) -> (r: &GlobalOpts)
        ensures
            r@ == self@.global_opts,
    {
        &self.global_opts
    }

    /// g-opts: the global options that precede the command; see [`GlobalOpts`].
    pub fn set_global_opts(&mut self, v: GlobalOpts) -> (r: &mut Self)
        ensures
            r@ == (FileLogView { global_opts: v@, ..old(self)@ }),
            *final(self) == *final(r),
    {
        self.global_opts = v;
        self
    }

    /// g-opts: the global options that precede the command; see [`GlobalOpts`].
    pub fn global_opts(self, v: GlobalOpts) -> (r: Self)
        ensures
            r@ == (FileLogView { global_opts: v@, ..self@ }),
    {
        let mut s = self;
        s.global_opts = v;
        s
    }

    /// `-c changelist#`: displays the files submitted at the specified changelist.
    pub fn get_changelist(&self) -> (r: Option<&String>)
        ensures
            opt_ref_view(r) == self@.changelist,
    {
        self.changelist.as_ref()
    }

    /// `-c changelist#`: displays the files submitted at the specified changelist.
    pub fn set_changelist(&mut self, v: &str) -> (r: &mut Self)
        ensures
            r@ == (FileLogView { changelist: Some(v@), ..old(self)@ }),
            *final(self) == *final(r),
    {
        self.changelist = Some(v.to_owned());
        self
    }

    /// `-c changelist#`: displays the files submitted at the specified changelist.
    pub fn changelist(self, v: &str) -> (r: Self)
        ensures
            r@ == (FileLogView { changelist: Some(v@), ..self@ }),
    {
        let mut s = self;
        s.changelist = Some(v.to_owned());
        s
    }

    /// `-i`: includes inherited file history.
    pub fn get_follow_branches(&self) -> (r: bool)
        ensures
            r == self@.follow_branches,
    {
        self.follow_branches
    }

    /// `-i`: includes inherited file history.
    pub fn set_follow_branches(&mut self, v: bool) -> (r: &mut Self)
        ensures
            r@ == (FileLogView { follow_branches: v, ..old(self)@ }),
            *final(self) == *final(r),
    {
        self.follow_branches = v;
        self
    }

    /// `-i`: includes inherited file history.
    pub fn follow_branches(self, v: bool) -> (r: Self)
        ensures
            r@ == (FileLogView { follow_branches: v, ..self@ }),
    {
        let mut s = self;
        s.follow_branches = v;
        s
    }

    /// `-m max`: displays at most `max` revisions per file.
    pub fn get_limit(&self) -> (r: Option<u64>)
        ensures
            r == self@.limit,
    {
        self.limit
    }

    /// `-m max`: displays at most `max` revisions per file.
    pub fn set_limit(&mut self, v: u64) -> (r: &mut Self)
        ensures
            r@ == (FileLogView { limit: Some(v), ..old(self)@ }),
            *final(self) == *final(r),
    {
        self.limit = Some(v);
        self
    }

    /// `-m max`: displays at most `max` revisions per file.
    pub fn limit(self, v: u64) -> (r: Self)
        ensures
            r@ == (FileLogView { limit: Some(v), ..self@ }),
    {
        let mut s = self;
        s.limit = Some(v);
        s
    }

    /// `-s`: displays a shortened form of the output that ignores
    /// non-contributory integrations.
    pub fn get_ignore_non_contributory(&self) -> (r: bool)
        ensures
            r == self@.ignore_non_contributory,
    {
        self.ignore_non_contributory
    }

    /// `-s`: displays a shortened form of the output that ignores
    /// non-contributory integrations.
    pub fn set_ignore_non_contributory(&mut self, v: bool) -> (r: &mut Self)
        ensures
            r@ == (FileLogView { ignore_non_contributory: v, ..old(self)@ }),
            *final(self) == *final(r),
    {
        self.ignore_non_contributory = v;
        self
    }

    /// `-s`: displays a shortened form of the output that ignores
    /// non-contributory integrations.
    pub fn ignore_non_contributory(self, v: bool) -> (r: Self)
        ensures
            r@ == (FileLogView { ignore_non_contributory: v, ..self@ }),
    {
        let mut s = self;
        s.ignore_non_contributory = v;
        s
    }

    /// `-t`: displays the time as well as the date.
    pub fn get_include_time(&self) -> (r: bool)
        ensures
            r == self@.include_time,
    {
        self.include_time
    }

    /// `-t`: displays the time as well as the date.
    pub fn set_include_time(&mut self, v: bool) -> (r: &mut Self)
        ensures
            r@ == (FileLogView { include_time: v, ..old(self)@ }),
            *final(self) == *final(r),
    {
        self.include_time = v;
        self
    }

    /// `-t`: displays the time as well as the date.
    pub fn include_time(self, v: bool) -> (r: Self)
        ensures
            r@ == (FileLogView { include_time: v, ..self@ }),
    {
        let mut s = self;
        s.include_time = v;
        s
    }
}

impl<L: ExclusiveOption> FileLog<L, DisplayContentHistory> {
    /// `-p`: with `-h`, does not follow content of promoted task streams.
    pub fn get_skip_promoted_tasks(&self) -> (r: bool)
        ensures
            r == self@.content_history@.skip_promoted_tasks,
    {
        self.content_history.skip_promoted_tasks
    }

    /// `-p`: with `-h`, does not follow content of promoted task streams.
    pub fn set_skip_promoted_tasks(&mut self, v: bool) -> (r: &mut Self)
        ensures
            r@.bin == old(self)@.bin,
            r@.global_opts == old(self)@.global_opts,
            r@.changelist == old(self)@.changelist,
            r@.follow_branches == old(self)@.follow_branches,
            r@.long_output == old(self)@.long_output,
            r@.limit == old(self)@.limit,
            r@.ignore_non_contributory == old(self)@.ignore_non_contributory,
            r@.include_time == old(self)@.include_time,
            r@.content_history@ == (DisplayContentHistoryView {
                skip_promoted_tasks: v,
                ..old(self)@.content_history@
            }),
            *final(self) == *final(r),
    {
        self.content_history.skip_promoted_tasks = v;
        self
    }

    /// `-p`: with `-h`, does not follow content of promoted task streams.
    pub fn skip_promoted_tasks(self, v: bool) -> (r: Self)
        ensures
            r@.bin == self@.bin,
            r@.global_opts == self@.global_opts,
            r@.changelist == self@.changelist,
            r@.follow_branches == self@.follow_branches,
            r@.long_output == self@.long_output,
            r@.limit == self@.limit,
            r@.ignore_non_contributory == self@.ignore_non_contributory,
            r@.include_time == self@.include_time,
            r@.content_history@ == (DisplayContentHistoryView {
                skip_promoted_tasks: v,
                ..self@.content_history@
            }),
    {
        let mut s = self;
        s.content_history.skip_promoted_tasks = v;
        s
    }
}

} // verus!
