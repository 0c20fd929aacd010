//! `p4 sync`: copy files from the depot into the workspace.
use vstd::prelude::*;

use crate::argv::{
    decimal,
    decimal_string,
    flag_args,
    lemma_args_concat_assoc,
    number_args,
    opt_deref,
    push_arg,
    push_flag,
    push_number,
};
use crate::cmd::{command_args, ExclusiveOption, SubCommand, Unselected};
use crate::command::CommandLine;
use crate::global::{GlobalOpts, GlobalOptsView};

verus! {

broadcast use lemma_args_concat_assoc;

/// The settings of `--parallel=threads=N[,batch=N][,batchsize=N][,min=N][,minsize=N]`.
#[derive(Debug, Clone, Default, PartialEq, Eq)]
pub struct ParallelConfig {
    /// `threads=N`: the number of threads.
    pub threads: u64,
    /// `batch=N`: the number of files in a batch.
    pub batch_files: Option<u64>,
    /// `batchsize=N`: the number of bytes in a batch.
    pub batch_size_bytes: Option<u64>,
    /// `min=N`: the minimum number of files for a parallel sync.
    pub min_files: Option<u64>,
    /// `minsize=N`: the minimum number of bytes for a parallel sync.
    pub min_size_bytes: Option<u64>,
}

/// `,key=N` when the setting is present, nothing otherwise.
pub open spec fn setting_chars(key: Seq<char>, value: Option<u64>) -> Seq<char> {
    match value {
        Some(n) => seq![','] + key + seq!['='] + decimal(n as nat),
        None => seq![],
    }
}

/// The comma-separated `key=N` settings, `threads` first and then the
/// settings that are present, in the order `batch`, `batchsize`, `min`,
/// `minsize`.
pub open spec fn parallel_chars(p: ParallelConfig) -> Seq<char> {
    "threads="@ + decimal(p.threads as nat) + setting_chars("batch"@, p.batch_files) + setting_chars(
        "batchsize"@,
        p.batch_size_bytes,
    ) + setting_chars("min"@, p.min_files) + setting_chars("minsize"@, p.min_size_bytes)
}

/// `--parallel=settings` when parallel sync is configured, nothing otherwise.
pub open spec fn parallel_args(p: Option<ParallelConfig>) -> Seq<Seq<char>> {
    match p {
        Some(c) => seq!["--parallel="@ + parallel_chars(c)],
        None => seq![],
    }
}

fn append_setting(s: &mut String, key: &str, value: Option<u64>)
    ensures
        final(s)@ == old(s)@ + setting_chars(key@, value),
{
    proof {
        reveal_strlit(",");
        reveal_strlit("=");
    }
    match value {
        Some(n) => {
            s.append(",");
            s.append(key);
            s.append("=");
            s.append(decimal_string(n).as_str());
            assert(s@ =~= old(s)@ + setting_chars(key@, value));
        },
        None => {
            assert(s@ =~= old(s)@ + setting_chars(key@, value));
        },
    }
}

impl ParallelConfig {
    /// The settings as the value of `--parallel=`: `threads=N` followed by
    /// `,batch=N`, `,batchsize=N`, `,min=N`, `,minsize=N` for the settings
    /// that are present.
    pub fn as_arg(&self) -> (s: String)
        ensures
            s@ == parallel_chars(*self),
    {
        let mut s = String::from_str("threads=");
        s.append(decimal_string(self.threads).as_str());
        append_setting(&mut s, "batch", self.batch_files);
        append_setting(&mut s, "batchsize", self.batch_size_bytes);
        append_setting(&mut s, "min", self.min_files);
        append_setting(&mut s, "minsize", self.min_size_bytes);
        assert(s@ =~= parallel_chars(*self));
        s
    }
}

fn push_parallel(args: &mut Vec<String>, p: &Option<ParallelConfig>)
    ensures
        final(args).deep_view() == old(args).deep_view() + parallel_args(*p),
{
    match p {
        Some(c) => {
            let arg = String::from_str("--parallel=").concat(c.as_arg().as_str());
            args.push(arg);
        },
        None => {},
    }
    assert(args.deep_view() =~= old(args).deep_view() + parallel_args(*p));
}

/// The version of the stream spec that `--use-stream-change` selects.
#[derive(Debug, Clone, Copy, PartialEq, Eq, Structural)]
pub enum StreamSpecVersion {
    /// `--use-stream-change`: the version as of the highest change in the
    /// synced file list.
    MaxInFilelists,
    /// `--use-stream-change=0`: the current version.
    Current,
    /// `--use-stream-change=N`: the version as of change `N`.
    ChangeNumber(u32),
}

impl StreamSpecVersion {
    /// The argument that selects a stream spec version.
    pub open spec fn spec_arg(self) -> Seq<char> {
        match self {
            StreamSpecVersion::MaxInFilelists => "--use-stream-change"@,
            StreamSpecVersion::Current => "--use-stream-change=0"@,
            StreamSpecVersion::ChangeNumber(n) => "--use-stream-change="@ + decimal(n as nat),
        }
    }

    /// `--use-stream-change`.
    pub fn max_in_filelists() -> (r: Self)
        ensures
            r == StreamSpecVersion::MaxInFilelists,
    {
        StreamSpecVersion::MaxInFilelists
    }

    /// `--use-stream-change=0`.
    pub fn current() -> (r: Self)
        ensures
            r == StreamSpecVersion::Current,
    {
        StreamSpecVersion::Current
    }

    /// `--use-stream-change=N`.
    pub fn at_change(n: u32) -> (r: Self)
        ensures
            r == StreamSpecVersion::ChangeNumber(n),
    {
        StreamSpecVersion::ChangeNumber(n)
    }

    /// Appends the argument that selects this version.
    pub fn inject_arg(&self, args: &mut Vec<String>)
        ensures
            final(args).deep_view() == old(args).deep_view() + seq![self.spec_arg()],
    {
        match self {
            StreamSpecVersion::MaxInFilelists => push_arg(args, "--use-stream-change"),
            StreamSpecVersion::Current => push_arg(args, "--use-stream-change=0"),
            StreamSpecVersion::ChangeNumber(n) => {
                let arg = String::from_str("--use-stream-change=").concat(
                    decimal_string(*n as u64).as_str(),
                );
                args.push(arg);
                assert(args.deep_view() =~= old(args).deep_view() + seq![self.spec_arg()]);
            },
        }
    }
}

/// The argument of an optional stream spec version.
pub open spec fn stream_spec_version_args(v: Option<StreamSpecVersion>) -> Seq<Seq<char>> {
    match v {
        Some(s) => seq![s.spec_arg()],
        None => seq![],
    }
}

fn push_stream_spec_version(args: &mut Vec<String>, v: Option<StreamSpecVersion>)
    ensures
        final(args).deep_view() == old(args).deep_view() + stream_spec_version_args(v),
{
    match v {
        Some(s) => s.inject_arg(args),
        None => {
            assert(args.deep_view() =~= old(args).deep_view() + stream_spec_version_args(v));
        },
    }
}

/// `-n`: previews the result of the sync without updating the workspace.
#[derive(Debug, Clone, Copy, Default, PartialEq, Eq, Structural)]
pub struct PreviewResult;

impl ExclusiveOption for PreviewResult {
    open spec fn spec_args(&self) -> Seq<Seq<char>> {
        seq!["-n"@]
    }

    fn inject_args(&self, args: &mut Vec<String>) {
        push_arg(args, "-n");
    }
}

/// `-N`: previews the network traffic of the sync.
#[derive(Debug, Clone, Copy, Default, PartialEq, Eq, Structural)]
pub struct PreviewNetworkTraffic;

impl ExclusiveOption for PreviewNetworkTraffic {
    open spec fn spec_args(&self) -> Seq<Seq<char>> {
        seq!["-N"@]
    }

    fn inject_args(&self, args: &mut Vec<String>) {
        push_arg(args, "-N");
    }
}

/// Forcing the sync: forcing files to be resynced (`-f`), updating the
/// metadata only (`-k`), and reopening moved files (`-r`).
#[derive(Debug, Clone, Copy, PartialEq, Eq)]
pub struct ForceRegularMode {
    force: bool,
    metadata_only: bool,
    reopen_moved_files: bool,
}

/// The mathematical view of [`ForceRegularMode`].
pub struct ForceRegularModeView {
    pub force: bool,
    pub metadata_only: bool,
    pub reopen_moved_files: bool,
}

impl View for ForceRegularMode {
    type V = ForceRegularModeView;

    closed spec fn view(&self) -> ForceRegularModeView {
        ForceRegularModeView {
            force: self.force,
            metadata_only: self.metadata_only,
            reopen_moved_files: self.reopen_moved_files,
        }
    }
}

impl ExclusiveOption for ForceRegularMode {
    open spec fn spec_args(&self) -> Seq<Seq<char>> {
        flag_args(self@.force, "-f"@)
        + flag_args(self@.metadata_only, "-k"@)
        + flag_args(self@.reopen_moved_files, "-r"@)
    }

    fn inject_args(&self, args: &mut Vec<String>) {
        push_flag(args, self.force, "-f");
        push_flag(args, self.metadata_only, "-k");
        push_flag(args, self.reopen_moved_files, "-r");
    }
}

impl Default for ForceRegularMode {
    fn default() -> (r: Self)
        ensures
            r@ == (ForceRegularModeView {
                force: false,
                metadata_only: false,
                reopen_moved_files: false,
            }),
    {
        ForceRegularMode { force: false, metadata_only: false, reopen_moved_files: false }
    }
}

/// `-s`: syncs only the files whose content in the workspace is as expected
/// (a safe sync).
#[derive(Debug, Clone, Copy, Default, PartialEq, Eq, Structural)]
pub struct SafeCheckMode;

impl ExclusiveOption for SafeCheckMode {
    open spec fn spec_args(&self) -> Seq<Seq<char>> {
        seq!["-s"@]
    }

    fn inject_args(&self, args: &mut Vec<String>) {
        push_arg(args, "-s");
    }
}

/// `-p`: populates the workspace without recording the synced revisions on
/// the server.
#[derive(Debug, Clone, Copy, Default, PartialEq, Eq, Structural)]
pub struct PopulateMode;

impl ExclusiveOption for PopulateMode {
    open spec fn spec_args(&self) -> Seq<Seq<char>> {
        seq!["-p"@]
    }

    fn inject_args(&self, args: &mut Vec<String>) {
        push_arg(args, "-p");
    }
}

/// The regular form of `p4 sync`, with the options shared by every sub-mode,
/// a sub-mode (force, safe check or populate) and a preview selection.
#[derive(Debug, Clone, PartialEq, Eq)]
pub struct RegularMode<Mode = Unselected, P = Unselected> {
    verify_edge_replication: bool,
    script_list_mode: bool,
    suppress_keyword_expansion: bool,
    quiet_mode: bool,
    limit: Option<u64>,
    parallel: Option<ParallelConfig>,
    stream_spec_version: Option<StreamSpecVersion>,
    mode: Mode,
    preview: P,
}

/// The mathematical view of [`RegularMode`].
pub struct RegularModeView<Mode, P> {
    pub verify_edge_replication: bool,
    pub script_list_mode: bool,
    pub suppress_keyword_expansion: bool,
    pub quiet_mode: bool,
    pub limit: Option<u64>,
    pub parallel: Option<ParallelConfig>,
    pub stream_spec_version: Option<StreamSpecVersion>,
    pub mode: Mode,
    pub preview: P,
}

impl<Mode, P> View for RegularMode<Mode, P> {
    type V = RegularModeView<Mode, P>;

    closed spec fn view(&self) -> RegularModeView<Mode, P> {
        RegularModeView {
            verify_edge_replication: self.verify_edge_replication,
            script_list_mode: self.script_list_mode,
            suppress_keyword_expansion: self.suppress_keyword_expansion,
            quiet_mode: self.quiet_mode,
            limit: self.limit,
            parallel: self.parallel,
            stream_spec_version: self.stream_spec_version,
            mode: self.mode,
            preview: self.preview,
        }
    }
}

impl<Mode: ExclusiveOption, P: ExclusiveOption> ExclusiveOption for RegularMode<Mode, P> {
    open spec fn spec_args(&self) -> Seq<Seq<char>> {
        flag_args(self@.verify_edge_replication, "-E"@)
        + flag_args(self@.script_list_mode, "-L"@)
        + flag_args(self@.suppress_keyword_expansion, "-K"@)
        + flag_args(self@.quiet_mode, "-q"@)
        + self@.mode.spec_args()
        + self@.preview.spec_args()
        + number_args("-m"@, self@.limit)
        + parallel_args(self@.parallel)
        + stream_spec_version_args(self@.stream_spec_version)
    }

    fn inject_args(&self, args: &mut Vec<String>) {
        push_flag(args, self.verify_edge_replication, "-E");
        push_flag(args, self.script_list_mode, "-L");
        push_flag(args, self.suppress_keyword_expansion, "-K");
        push_flag(args, self.quiet_mode, "-q");
        self.mode.inject_args(args);
        self.preview.inject_args(args);
        push_number(args, "-m", self.limit);
        push_parallel(args, &self.parallel);
        push_stream_spec_version(args, self.stream_spec_version);
    }
}

impl Default for RegularMode {
    fn default() -> (r: Self)
        ensures
            r@.verify_edge_replication == false,
            r@.script_list_mode == false,
            r@.suppress_keyword_expansion == false,
            r@.quiet_mode == false,
            r@.limit is None,
            r@.parallel is None,
            r@.stream_spec_version is None,
            r@.mode == Unselected,
            r@.preview == Unselected,
    {
        RegularMode {
            verify_edge_replication: false,
            script_list_mode: false,
            suppress_keyword_expansion: false,
            quiet_mode: false,
            limit: None,
            parallel: None,
            stream_spec_version: None,
            mode: Unselected,
            preview: Unselected,
        }
    }
}

/// `-k --sync-time=time`: updates the metadata as of the given time.
#[derive(Debug, Clone, PartialEq, Eq)]
pub struct SyncTimeMode {
    sync_time: String,
}

/// The mathematical view of [`SyncTimeMode`].
pub struct SyncTimeModeView {
    pub sync_time: Seq<char>,
}

impl View for SyncTimeMode {
    type V = SyncTimeModeView;

    closed spec fn view(&self) -> SyncTimeModeView {
        SyncTimeModeView { sync_time: self.sync_time@ }
    }
}

impl ExclusiveOption for SyncTimeMode {
    open spec fn spec_args(&self) -> Seq<Seq<char>> {
        seq!["-k"@, "--sync-time="@ + self@.sync_time]
    }

    fn inject_args(&self, args: &mut Vec<String>) {
        push_arg(args, "-k");
        let arg = String::from_str("--sync-time=").concat(self.sync_time.as_str());
        assert(arg@ == "--sync-time="@ + self@.sync_time);
        let ghost before = args.deep_view();
        args.push(arg);
        assert(args.deep_view() =~= before + seq![arg@]);
        assert(args.deep_view() =~= old(args).deep_view() + self.spec_args());
    }
}

/// `p4 [g-opts] sync [options] [file[revRange] ...]`
///
/// Copy files from the depot into the workspace.
///
/// The regular form (with its sub-modes: force `-f`/`-k`/`-r`, safe check
/// `-s`, populate `-p`, and the previews `-n`/`-N`) and the sync-time form
/// (`-k --sync-time`) are selected through the mode type parameter, so that
/// mutually exclusive options cannot be combined.
#[derive(Debug)]
pub struct Sync<M = Unselected> {
    bin: String,
    global_opts: GlobalOpts,
    mode: M,
}

/// The mathematical view of [`Sync`].
pub struct SyncView<M> {
    pub bin: Seq<char>,
    pub global_opts: GlobalOptsView,
    pub mode: M,
}

impl<M> View for Sync<M> {
    type V = SyncView<M>;

    closed spec fn view(&self) -> SyncView<M> {
        SyncView {
            bin: self.bin@,
            global_opts: self.global_opts@,
            mode: self.mode,
        }
    }
}

impl<M: ExclusiveOption> SubCommand for Sync<M> {
    open spec fn spec_name(&self) -> Seq<char> {
        "sync"@
    }

    open spec fn spec_local_args(&self) -> Seq<Seq<char>> {
        self@.mode.spec_args()
    }

    open spec fn spec_global_opts(&self) -> Option<GlobalOptsView> {
        Some(self@.global_opts)
    }

    fn name(&self) -> (r: &str) {
        "sync"
    }

    fn inject_local_args(&self, args: &mut Vec<String>) {
        self.mode.inject_args(args);
        assert(args.deep_view() =~= old(args).deep_view() + self.spec_local_args());
    }

    fn global_opts(&self) -> (r: Option<&GlobalOpts>) {
        Some(&self.global_opts)
    }
}

impl Sync<Unselected> {
    /// Copy files from the depot into the workspace.
    ///
    /// `bin` is the path to the Perforce command-line executable.
    pub fn new(bin: &str, global_opts: GlobalOpts) -> (r: Self)
        ensures
            r@.bin == bin@,
            r@.global_opts == global_opts@,
            r@.mode == Unselected,
    {
        Sync {
            bin: bin.to_owned(),
            global_opts: global_opts,
            mode: Unselected,
        }
    }

    /// `--sync-time=time`: the time as of which the metadata is updated; selects the sync-time form.
    pub fn sync_time(self, time: &str) -> (r: Sync<SyncTimeMode>)
        ensures
            r@.bin == self@.bin,
            r@.global_opts == self@.global_opts,
            r@.mode@.sync_time == time@,
    {
        Sync {
            bin: self.bin,
            global_opts: self.global_opts,
            mode: SyncTimeMode { sync_time: time.to_owned() },
        }
    }

    /// `-s`: selects the regular form in the safe check sub-mode.
    pub fn enable_safe_check(self) -> (r: Sync<RegularMode<SafeCheckMode>>)
        ensures
            r@.bin == self@.bin,
            r@.global_opts == self@.global_opts,
            r@.mode@.verify_edge_replication == false,
            r@.mode@.script_list_mode == false,
            r@.mode@.suppress_keyword_expansion == false,
            r@.mode@.quiet_mode == false,
            r@.mode@.limit is None,
            r@.mode@.parallel is None,
            r@.mode@.stream_spec_version is None,
            r@.mode@.mode == SafeCheckMode,
            r@.mode@.preview == Unselected,
    {
        Sync {
            bin: self.bin,
            global_opts: self.global_opts,
            mode: RegularMode {
                verify_edge_replication: false,
                script_list_mode: false,
                suppress_keyword_expansion: false,
                quiet_mode: false,
                limit: None,
                parallel: None,
                stream_spec_version: None,
                mode: SafeCheckMode,
                preview: Unselected,
            },
        }
    }

    /// `-p`: selects the regular form in the populate sub-mode.
    pub fn populate_client_workspace(self) -> (r: Sync<RegularMode<PopulateMode>>)
        ensures
            r@.bin == self@.bin,
            r@.global_opts == self@.global_opts,
            r@.mode@.verify_edge_replication == false,
            r@.mode@.script_list_mode == false,
            r@.mode@.suppress_keyword_expansion == false,
            r@.mode@.quiet_mode == false,
            r@.mode@.limit is None,
            r@.mode@.parallel is None,
            r@.mode@.stream_spec_version is None,
            r@.mode@.mode == PopulateMode,
            r@.mode@.preview == Unselected,
    {
        Sync {
            bin: self.bin,
            global_opts: self.global_opts,
            mode: RegularMode {
                verify_edge_replication: false,
                script_list_mode: false,
                suppress_keyword_expansion: false,
                quiet_mode: false,
                limit: None,
                parallel: None,
                stream_spec_version: None,
                mode: PopulateMode,
                preview: Unselected,
            },
        }
    }

    /// `-E`: verifies that the files on an edge server are replicated; selects the regular form.
    pub fn verify_edge_replication(self, v: bool) -> (r: Sync<RegularMode>)
        ensures
            r@.bin == self@.bin,
            r@.global_opts == self@.global_opts,
            r@.mode@.verify_edge_replication == v,
            r@.mode@.script_list_mode == false,
            r@.mode@.suppress_keyword_expansion == false,
            r@.mode@.quiet_mode == false,
            r@.mode@.limit is None,
            r@.mode@.parallel is None,
            r@.mode@.stream_spec_version is None,
            r@.mode@.mode == Unselected,
            r@.mode@.preview == Unselected,
    {
        Sync {
            bin: self.bin,
            global_opts: self.global_opts,
            mode: RegularMode {
                verify_edge_replication: v,
                script_list_mode: false,
                suppress_keyword_expansion: false,
                quiet_mode: false,
                limit: None,
                parallel: None,
                stream_spec_version: None,
                mode: Unselected,
                preview: Unselected,
            },
        }
    }

    /// `-L`: writes the file list in a form for scripts, with the full revision
    /// specifiers; selects the regular form.
    pub fn script_list_mode(self, v: bool) -> (r: Sync<RegularMode>)
        ensures
            r@.bin == self@.bin,
            r@.global_opts == self@.global_opts,
            r@.mode@.verify_edge_replication == false,
            r@.mode@.script_list_mode == v,
            r@.mode@.suppress_keyword_expansion == false,
            r@.mode@.quiet_mode == false,
            r@.mode@.limit is None,
            r@.mode@.parallel is None,
            r@.mode@.stream_spec_version is None,
            r@.mode@.mode == Unselected,
            r@.mode@.preview == Unselected,
    {
        Sync {
            bin: self.bin,
            global_opts: self.global_opts,
            mode: RegularMode {
                verify_edge_replication: false,
                script_list_mode: v,
                suppress_keyword_expansion: false,
                quiet_mode: false,
                limit: None,
                parallel: None,
                stream_spec_version: None,
                mode: Unselected,
                preview: Unselected,
            },
        }
    }

    /// `-K`: suppresses keyword expansion; selects the regular form.
    pub fn suppress_keyword_expansion(self, v: bool) -> (r: Sync<RegularMode>)
        ensures
            r@.bin == self@.bin,
            r@.global_opts == self@.global_opts,
            r@.mode@.verify_edge_replication == false,
            r@.mode@.script_list_mode == false,
            r@.mode@.suppress_keyword_expansion == v,
            r@.mode@.quiet_mode == false,
            r@.mode@.limit is None,
            r@.mode@.parallel is None,
            r@.mode@.stream_spec_version is None,
            r@.mode@.mode == Unselected,
            r@.mode@.preview == Unselected,
    {
        Sync {
            bin: self.bin,
            global_opts: self.global_opts,
            mode: RegularMode {
                verify_edge_replication: false,
                script_list_mode: false,
                suppress_keyword_expansion: v,
                quiet_mode: false,
                limit: None,
                parallel: None,
                stream_spec_version: None,
                mode: Unselected,
                preview: Unselected,
            },
        }
    }

    /// `-q`: suppresses the normal output messages; selects the regular form.
    pub fn quiet_mode(self, v: bool) -> (r: Sync<RegularMode>)
        ensures
            r@.bin == self@.bin,
            r@.global_opts == self@.global_opts,
            r@.mode@.verify_edge_replication == false,
            r@.mode@.script_list_mode == false,
            r@.mode@.suppress_keyword_expansion == false,
            r@.mode@.quiet_mode == v,
            r@.mode@.limit is None,
            r@.mode@.parallel is None,
            r@.mode@.stream_spec_version is None,
            r@.mode@.mode == Unselected,
            r@.mode@.preview == Unselected,
    {
        Sync {
            bin: self.bin,
            global_opts: self.global_opts,
            mode: RegularMode {
                verify_edge_replication: false,
                script_list_mode: false,
                suppress_keyword_expansion: false,
                quiet_mode: v,
                limit: None,
                parallel: None,
                stream_spec_version: None,
                mode: Unselected,
                preview: Unselected,
            },
        }
    }

    /// `-m max`: syncs only the first `max` files; selects the regular form.
    pub fn limit(self, v: u64) -> (r: Sync<RegularMode>)
        ensures
            r@.bin == self@.bin,
            r@.global_opts == self@.global_opts,
            r@.mode@.verify_edge_replication == false,
            r@.mode@.script_list_mode == false,
            r@.mode@.suppress_keyword_expansion == false,
            r@.mode@.quiet_mode == false,
            r@.mode@.limit == Some(v),
            r@.mode@.parallel is None,
            r@.mode@.stream_spec_version is None,
            r@.mode@.mode == Unselected,
            r@.mode@.preview == Unselected,
    {
        Sync {
            bin: self.bin,
            global_opts: self.global_opts,
            mode: RegularMode {
                verify_edge_replication: false,
                script_list_mode: false,
                suppress_keyword_expansion: false,
                quiet_mode: false,
                limit: Some(v),
                parallel: None,
                stream_spec_version: None,
                mode: Unselected,
                preview: Unselected,
            },
        }
    }

    /// `--parallel=...`: syncs in parallel with the given settings; selects the regular form.
    pub fn parallel(self, v: ParallelConfig) -> (r: Sync<RegularMode>)
        ensures
            r@.bin == self@.bin,
            r@.global_opts == self@.global_opts,
            r@.mode@.verify_edge_replication == false,
            r@.mode@.script_list_mode == false,
            r@.mode@.suppress_keyword_expansion == false,
            r@.mode@.quiet_mode == false,
            r@.mode@.limit is None,
            r@.mode@.parallel == Some(v),
            r@.mode@.stream_spec_version is None,
            r@.mode@.mode == Unselected,
            r@.mode@.preview == Unselected,
    {
        Sync {
            bin: self.bin,
            global_opts: self.global_opts,
            mode: RegularMode {
                verify_edge_replication: false,
                script_list_mode: false,
                suppress_keyword_expansion: false,
                quiet_mode: false,
                limit: None,
                parallel: Some(v),
                stream_spec_version: None,
                mode: Unselected,
                preview: Unselected,
            },
        }
    }

    /// `--use-stream-change[=N]`: the version of the stream spec to use; selects the regular form.
    pub fn stream_spec_version(self, v: StreamSpecVersion) -> (r: Sync<RegularMode>)
        ensures
            r@.bin == self@.bin,
            r@.global_opts == self@.global_opts,
            r@.mode@.verify_edge_replication == false,
            r@.mode@.script_list_mode == false,
            r@.mode@.suppress_keyword_expansion == false,
            r@.mode@.quiet_mode == false,
            r@.mode@.limit is None,
            r@.mode@.parallel is None,
            r@.mode@.stream_spec_version == Some(v),
            r@.mode@.mode == Unselected,
            r@.mode@.preview == Unselected,
    {
        Sync {
            bin: self.bin,
            global_opts: self.global_opts,
            mode: RegularMode {
                verify_edge_replication: false,
                script_list_mode: false,
                suppress_keyword_expansion: false,
                quiet_mode: false,
                limit: None,
                parallel: None,
                stream_spec_version: Some(v),
                mode: Unselected,
                preview: Unselected,
            },
        }
    }

    /// `--use-stream-change`: selects the regular form.
    pub fn sc_max_change_number(self) -> (r: Sync<RegularMode>)
        ensures
            r@.bin == self@.bin,
            r@.global_opts == self@.global_opts,
            r@.mode@.verify_edge_replication == false,
            r@.mode@.script_list_mode == false,
            r@.mode@.suppress_keyword_expansion == false,
            r@.mode@.quiet_mode == false,
            r@.mode@.limit is None,
            r@.mode@.parallel is None,
            r@.mode@.stream_spec_version == Some(StreamSpecVersion::MaxInFilelists),
            r@.mode@.mode == Unselected,
            r@.mode@.preview == Unselected,
    {
        Sync {
            bin: self.bin,
            global_opts: self.global_opts,
            mode: RegularMode {
                verify_edge_replication: false,
                script_list_mode: false,
                suppress_keyword_expansion: false,
                quiet_mode: false,
                limit: None,
                parallel: None,
                stream_spec_version: Some(StreamSpecVersion::MaxInFilelists),
                mode: Unselected,
                preview: Unselected,
            },
        }
    }

    /// `--use-stream-change=0`: selects the regular form.
    pub fn sc_current_stream_spec(self) -> (r: Sync<RegularMode>)
        ensures
            r@.bin == self@.bin,
            r@.global_opts == self@.global_opts,
            r@.mode@.verify_edge_replication == false,
            r@.mode@.script_list_mode == false,
            r@.mode@.suppress_keyword_expansion == false,
            r@.mode@.quiet_mode == false,
            r@.mode@.limit is None,
            r@.mode@.parallel is None,
            r@.mode@.stream_spec_version == Some(StreamSpecVersion::Current),
            r@.mode@.mode == Unselected,
            r@.mode@.preview == Unselected,
    {
        Sync {
            bin: self.bin,
            global_opts: self.global_opts,
            mode: RegularMode {
                verify_edge_replication: false,
                script_list_mode: false,
                suppress_keyword_expansion: false,
                quiet_mode: false,
                limit: None,
                parallel: None,
                stream_spec_version: Some(StreamSpecVersion::Current),
                mode: Unselected,
                preview: Unselected,
            },
        }
    }

    /// `--use-stream-change=N`: selects the regular form.
    pub fn sc_change_number(self, n: u32) -> (r: Sync<RegularMode>)
        ensures
            r@.bin == self@.bin,
            r@.global_opts == self@.global_opts,
            r@.mode@.verify_edge_replication == false,
            r@.mode@.script_list_mode == false,
            r@.mode@.suppress_keyword_expansion == false,
            r@.mode@.quiet_mode == false,
            r@.mode@.limit is None,
            r@.mode@.parallel is None,
            r@.mode@.stream_spec_version == Some(StreamSpecVersion::ChangeNumber(n)),
            r@.mode@.mode == Unselected,
            r@.mode@.preview == Unselected,
    {
        Sync {
            bin: self.bin,
            global_opts: self.global_opts,
            mode: RegularMode {
                verify_edge_replication: false,
                script_list_mode: false,
                suppress_keyword_expansion: false,
                quiet_mode: false,
                limit: None,
                parallel: None,
                stream_spec_version: Some(StreamSpecVersion::ChangeNumber(n)),
                mode: Unselected,
                preview: Unselected,
            },
        }
    }

    /// `-n`: selects the regular form with a preview of the result.
    pub fn preview_result(self) -> (r: Sync<RegularMode<Unselected, PreviewResult>>)
        ensures
            r@.bin == self@.bin,
            r@.global_opts == self@.global_opts,
            r@.mode@.verify_edge_replication == false,
            r@.mode@.script_list_mode == false,
            r@.mode@.suppress_keyword_expansion == false,
            r@.mode@.quiet_mode == false,
            r@.mode@.limit is None,
            r@.mode@.parallel is None,
            r@.mode@.stream_spec_version is None,
            r@.mode@.mode == Unselected,
            r@.mode@.preview == PreviewResult,
    {
        Sync {
            bin: self.bin,
            global_opts: self.global_opts,
            mode: RegularMode {
                verify_edge_replication: false,
                script_list_mode: false,
                suppress_keyword_expansion: false,
                quiet_mode: false,
                limit: None,
                parallel: None,
                stream_spec_version: None,
                mode: Unselected,
                preview: PreviewResult,
            },
        }
    }

    /// `-N`: selects the regular form with a preview of the network traffic.
    pub fn preview_network_traffic(self) -> (r: Sync<RegularMode<Unselected, PreviewNetworkTraffic>>)
        ensures
            r@.bin == self@.bin,
            r@.global_opts == self@.global_opts,
            r@.mode@.verify_edge_replication == false,
            r@.mode@.script_list_mode == false,
            r@.mode@.suppress_keyword_expansion == false,
            r@.mode@.quiet_mode == false,
            r@.mode@.limit is None,
            r@.mode@.parallel is None,
            r@.mode@.stream_spec_version is None,
            r@.mode@.mode == Unselected,
            r@.mode@.preview == PreviewNetworkTraffic,
    {
        Sync {
            bin: self.bin,
            global_opts: self.global_opts,
            mode: RegularMode {
                verify_edge_replication: false,
                script_list_mode: false,
                suppress_keyword_expansion: false,
                quiet_mode: false,
                limit: None,
                parallel: None,
                stream_spec_version: None,
                mode: Unselected,
                preview: PreviewNetworkTraffic,
            },
        }
    }

    /// `-f`: forces a resync, overwriting writable files in the workspace; selects the regular form in the force sub-mode.
    pub fn force(self, v: bool) -> (r: Sync<RegularMode<ForceRegularMode>>)
        ensures
            r@.bin == self@.bin,
            r@.global_opts == self@.global_opts,
            r@.mode@.verify_edge_replication == false,
            r@.mode@.script_list_mode == false,
            r@.mode@.suppress_keyword_expansion == false,
            r@.mode@.quiet_mode == false,
            r@.mode@.limit is None,
            r@.mode@.parallel is None,
            r@.mode@.stream_spec_version is None,
            r@.mode@.mode@ == (ForceRegularModeView {
                force: v,
                metadata_only: false,
                reopen_moved_files: false,
            }),
            r@.mode@.preview == Unselected,
    {
        Sync {
            bin: self.bin,
            global_opts: self.global_opts,
            mode: RegularMode {
                verify_edge_replication: false,
                script_list_mode: false,
                suppress_keyword_expansion: false,
                quiet_mode: false,
                limit: None,
                parallel: None,
                stream_spec_version: None,
                mode: ForceRegularMode {
                    force: v,
                    metadata_only: false,
                    reopen_moved_files: false,
                },
                preview: Unselected,
            },
        }
    }

    /// `-k`: updates the metadata only, without transferring file content; selects the regular form in the force sub-mode.
    pub fn metadata_only(self, v: bool) -> (r: Sync<RegularMode<ForceRegularMode>>)
        ensures
            r@.bin == self@.bin,
            r@.global_opts == self@.global_opts,
            r@.mode@.verify_edge_replication == false,
            r@.mode@.script_list_mode == false,
            r@.mode@.suppress_keyword_expansion == false,
            r@.mode@.quiet_mode == false,
            r@.mode@.limit is None,
            r@.mode@.parallel is None,
            r@.mode@.stream_spec_version is None,
            r@.mode@.mode@ == (ForceRegularModeView {
                force: false,
                metadata_only: v,
                reopen_moved_files: false,
            }),
            r@.mode@.preview == Unselected,
    {
        Sync {
            bin: self.bin,
            global_opts: self.global_opts,
            mode: RegularMode {
                verify_edge_replication: false,
                script_list_mode: false,
                suppress_keyword_expansion: false,
                quiet_mode: false,
                limit: None,
                parallel: None,
                stream_spec_version: None,
                mode: ForceRegularMode {
                    force: false,
                    metadata_only: v,
                    reopen_moved_files: false,
                },
                preview: Unselected,
            },
        }
    }

    /// `-r`: reopens moved files in the new location; selects the regular form in the force sub-mode.
    pub fn reopen_moved_files(self, v: bool) -> (r: Sync<RegularMode<ForceRegularMode>>)
        ensures
            r@.bin == self@.bin,
            r@.global_opts == self@.global_opts,
            r@.mode@.verify_edge_replication == false,
            r@.mode@.script_list_mode == false,
            r@.mode@.suppress_keyword_expansion == false,
            r@.mode@.quiet_mode == false,
            r@.mode@.limit is None,
            r@.mode@.parallel is None,
            r@.mode@.stream_spec_version is None,
            r@.mode@.mode@ == (ForceRegularModeView {
                force: false,
                metadata_only: false,
                reopen_moved_files: v,
            }),
            r@.mode@.preview == Unselected,
    {
        Sync {
            bin: self.bin,
            global_opts: self.global_opts,
            mode: RegularMode {
                verify_edge_replication: false,
                script_list_mode: false,
                suppress_keyword_expansion: false,
                quiet_mode: false,
                limit: None,
                parallel: None,
                stream_spec_version: None,
                mode: ForceRegularMode {
                    force: false,
                    metadata_only: false,
                    reopen_moved_files: v,
                },
                preview: Unselected,
            },
        }
    }
}

impl<Mode: ExclusiveOption, P: ExclusiveOption> Sync<RegularMode<Mode, P>> {
    /// `-E`: verifies that the files on an edge server are replicated.
    pub fn get_verify_edge_replication(&self) -> (r: bool)
        ensures
            r == self@.mode@.verify_edge_replication,
    {
        self.mode.verify_edge_replication
    }

    /// `-E`: verifies that the files on an edge server are replicated.
    pub fn set_verify_edge_replication(&mut self, v: bool) -> (r: &mut Self)
        ensures
            r@.bin == old(self)@.bin,
            r@.global_opts == old(self)@.global_opts,
            r@.mode@ == (RegularModeView { verify_edge_replication: v, ..old(self)@.mode@ }),
            *final(self) == *final(r),
    {
        self.mode.verify_edge_replication = v;
        self
    }

    /// `-E`: verifies that the files on an edge server are replicated.
    pub fn verify_edge_replication(self, v: bool) -> (r: Self)
        ensures
            r@.bin == self@.bin,
            r@.global_opts == self@.global_opts,
            r@.mode@ == (RegularModeView { verify_edge_replication: v, ..self@.mode@ }),
    {
        let mut s = self;
        s.mode.verify_edge_replication = v;
        s
    }

    /// `-L`: writes the file list in a form for scripts, with the full revision
    /// specifiers.
    pub fn get_script_list_mode(&self) -> (r: bool)
        ensures
            r == self@.mode@.script_list_mode,
    {
        self.mode.script_list_mode
    }

    /// `-L`: writes the file list in a form for scripts, with the full revision
    /// specifiers.
    pub fn set_script_list_mode(&mut self, v: bool) -> (r: &mut Self)
        ensures
            r@.bin == old(self)@.bin,
            r@.global_opts == old(self)@.global_opts,
            r@.mode@ == (RegularModeView { script_list_mode: v, ..old(self)@.mode@ }),
            *final(self) == *final(r),
    {
        self.mode.script_list_mode = v;
        self
    }

    /// `-L`: writes the file list in a form for scripts, with the full revision
    /// specifiers.
    pub fn script_list_mode(self, v: bool) -> (r: Self)
        ensures
            r@.bin == self@.bin,
            r@.global_opts == self@.global_opts,
            r@.mode@ == (RegularModeView { script_list_mode: v, ..self@.mode@ }),
    {
        let mut s = self;
        s.mode.script_list_mode = v;
        s
    }

    /// `-K`: suppresses keyword expansion.
    pub fn get_suppress_keyword_expansion(&self) -> (r: bool)
        ensures
            r == self@.mode@.suppress_keyword_expansion,
    {
        self.mode.suppress_keyword_expansion
    }

    /// `-K`: suppresses keyword expansion.
    pub fn set_suppress_keyword_expansion(&mut self, v: bool) -> (r: &mut Self)
        ensures
            r@.bin == old(self)@.bin,
            r@.global_opts == old(self)@.global_opts,
            r@.mode@ == (RegularModeView { suppress_keyword_expansion: v, ..old(self)@.mode@ }),
            *final(self) == *final(r),
    {
        self.mode.suppress_keyword_expansion = v;
        self
    }

    /// `-K`: suppresses keyword expansion.
    pub fn suppress_keyword_expansion(self, v: bool) -> (r: Self)
        ensures
            r@.bin == self@.bin,
            r@.global_opts == self@.global_opts,
            r@.mode@ == (RegularModeView { suppress_keyword_expansion: v, ..self@.mode@ }),
    {
        let mut s = self;
        s.mode.suppress_keyword_expansion = v;
        s
    }

    /// `-q`: suppresses the normal output messages.
    pub fn get_quiet_mode(&self) -> (r: bool)
        ensures
            r == self@.mode@.quiet_mode,
    {
        self.mode.quiet_mode
    }

    /// `-q`: suppresses the normal output messages.
    pub fn set_quiet_mode(&mut self, v: bool) -> (r: &mut Self)
        ensures
            r@.bin == old(self)@.bin,
            r@.global_opts == old(self)@.global_opts,
            r@.mode@ == (RegularModeView { quiet_mode: v, ..old(self)@.mode@ }),
            *final(self) == *final(r),
    {
        self.mode.quiet_mode = v;
        self
    }

    /// `-q`: suppresses the normal output messages.
    pub fn quiet_mode(self, v: bool) -> (r: Self)
        ensures
            r@.bin == self@.bin,
            r@.global_opts == self@.global_opts,
            r@.mode@ == (RegularModeView { quiet_mode: v, ..self@.mode@ }),
    {
        let mut s = self;
        s.mode.quiet_mode = v;
        s
    }

    /// `-m max`: syncs only the first `max` files.
    pub fn get_limit(&self) -> (r: Option<u64>)
        ensures
            r == self@.mode@.limit,
    {
        self.mode.limit
    }

    /// `-m max`: syncs only the first `max` files.
    pub fn set_limit(&mut self, v: u64) -> (r: &mut Self)
        ensures
            r@.bin == old(self)@.bin,
            r@.global_opts == old(self)@.global_opts,
            r@.mode@ == (RegularModeView { limit: Some(v), ..old(self)@.mode@ }),
            *final(self) == *final(r),
    {
        self.mode.limit = Some(v);
        self
    }

    /// `-m max`: syncs only the first `max` files.
    pub fn limit(self, v: u64) -> (r: Self)
        ensures
            r@.bin == self@.bin,
            r@.global_opts == self@.global_opts,
            r@.mode@ == (RegularModeView { limit: Some(v), ..self@.mode@ }),
    {
        let mut s = self;
        s.mode.limit = Some(v);
        s
    }

    /// `--parallel=...`: syncs in parallel with the given settings.
    pub fn get_parallel(&self) -> (r: Option<&ParallelConfig>)
        ensures
            opt_deref(r) == self@.mode@.parallel,
    {
        self.mode.parallel.as_ref()
    }

    /// `--parallel=...`: syncs in parallel with the given settings.
    pub fn set_parallel(&mut self, v: ParallelConfig) -> (r: &mut Self)
        ensures
            r@.bin == old(self)@.bin,
            r@.global_opts == old(self)@.global_opts,
            r@.mode@ == (RegularModeView { parallel: Some(v), ..old(self)@.mode@ }),
            *final(self) == *final(r),
    {
        self.mode.parallel = Some(v);
        self
    }

    /// `--parallel=...`: syncs in parallel with the given settings.
    pub fn parallel(self, v: ParallelConfig) -> (r: Self)
        ensures
            r@.bin == self@.bin,
            r@.global_opts == self@.global_opts,
            r@.mode@ == (RegularModeView { parallel: Some(v), ..self@.mode@ }),
    {
        let mut s = self;
        s.mode.parallel = Some(v);
        s
    }

    /// `--use-stream-change[=N]`: the version of the stream spec to use.
    pub fn get_stream_spec_version(&self) -> (r: Option<StreamSpecVersion>)
        ensures
            r == self@.mode@.stream_spec_version,
    {
        self.mode.stream_spec_version
    }

    /// `--use-stream-change[=N]`: the version of the stream spec to use.
    pub fn set_stream_spec_version(&mut self, v: StreamSpecVersion) -> (r: &mut Self)
        ensures
            r@.bin == old(self)@.bin,
            r@.global_opts == old(self)@.global_opts,
            r@.mode@ == (RegularModeView { stream_spec_version: Some(v), ..old(self)@.mode@ }),
            *final(self) == *final(r),
    {
        self.mode.stream_spec_version = Some(v);
        self
    }

    /// `--use-stream-change[=N]`: the version of the stream spec to use.
    pub fn stream_spec_version(self, v: StreamSpecVersion) -> (r: Self)
        ensures
            r@.bin == self@.bin,
            r@.global_opts == self@.global_opts,
            r@.mode@ == (RegularModeView { stream_spec_version: Some(v), ..self@.mode@ }),
    {
        let mut s = self;
        s.mode.stream_spec_version = Some(v);
        s
    }

    /// `--use-stream-change`: selects the version of the stream spec.
    pub fn set_sc_max_change_number(&mut self) -> (r: &mut Self)
        ensures
            r@.bin == old(self)@.bin,
            r@.global_opts == old(self)@.global_opts,
            r@.mode@ == (RegularModeView {
                stream_spec_version: Some(StreamSpecVersion::MaxInFilelists),
                ..old(self)@.mode@
            }),
            *final(self) == *final(r),
    {
        self.mode.stream_spec_version = Some(StreamSpecVersion::MaxInFilelists);
        self
    }

    /// `--use-stream-change`: selects the version of the stream spec.
    pub fn sc_max_change_number(self) -> (r: Self)
        ensures
            r@.bin == self@.bin,
            r@.global_opts == self@.global_opts,
            r@.mode@ == (RegularModeView {
                stream_spec_version: Some(StreamSpecVersion::MaxInFilelists),
                ..self@.mode@
            }),
    {
        let mut s = self;
        s.mode.stream_spec_version = Some(StreamSpecVersion::MaxInFilelists);
        s
    }

    /// `--use-stream-change=0`: selects the version of the stream spec.
    pub fn set_sc_current_stream_spec(&mut self) -> (r: &mut Self)
        ensures
            r@.bin == old(self)@.bin,
            r@.global_opts == old(self)@.global_opts,
            r@.mode@ == (RegularModeView {
                stream_spec_version: Some(StreamSpecVersion::Current),
                ..old(self)@.mode@
            }),
            *final(self) == *final(r),
    {
        self.mode.stream_spec_version = Some(StreamSpecVersion::Current);
        self
    }

    /// `--use-stream-change=0`: selects the version of the stream spec.
    pub fn sc_current_stream_spec(self) -> (r: Self)
        ensures
            r@.bin == self@.bin,
            r@.global_opts == self@.global_opts,
            r@.mode@ == (RegularModeView {
                stream_spec_version: Some(StreamSpecVersion::Current),
                ..self@.mode@
            }),
    {
        let mut s = self;
        s.mode.stream_spec_version = Some(StreamSpecVersion::Current);
        s
    }

    /// `--use-stream-change=N`: selects the version of the stream spec.
    pub fn set_sc_change_number(&mut self, n: u32) -> (r: &mut Self)
        ensures
            r@.bin == old(self)@.bin,
            r@.global_opts == old(self)@.global_opts,
            r@.mode@ == (RegularModeView {
                stream_spec_version: Some(StreamSpecVersion::ChangeNumber(n)),
                ..old(self)@.mode@
            }),
            *final(self) == *final(r),
    {
        self.mode.stream_spec_version = Some(StreamSpecVersion::ChangeNumber(n));
        self
    }

    /// `--use-stream-change=N`: selects the version of the stream spec.
    pub fn sc_change_number(self, n: u32) -> (r: Self)
        ensures
            r@.bin == self@.bin,
            r@.global_opts == self@.global_opts,
            r@.mode@ == (RegularModeView {
                stream_spec_version: Some(StreamSpecVersion::ChangeNumber(n)),
                ..self@.mode@
            }),
    {
        let mut s = self;
        s.mode.stream_spec_version = Some(StreamSpecVersion::ChangeNumber(n));
        s
    }
}

impl<P: ExclusiveOption> Sync<RegularMode<Unselected, P>> {
    /// `-f`: forces a resync, overwriting writable files in the workspace; selects the force sub-mode, keeping the other options.
    pub fn force(self, v: bool) -> (r: Sync<RegularMode<ForceRegularMode, P>>)
        ensures
            r@.bin == self@.bin,
            r@.global_opts == self@.global_opts,
            r@.mode@.verify_edge_replication == self@.mode@.verify_edge_replication,
            r@.mode@.script_list_mode == self@.mode@.script_list_mode,
            r@.mode@.suppress_keyword_expansion == self@.mode@.suppress_keyword_expansion,
            r@.mode@.quiet_mode == self@.mode@.quiet_mode,
            r@.mode@.limit == self@.mode@.limit,
            r@.mode@.parallel == self@.mode@.parallel,
            r@.mode@.stream_spec_version == self@.mode@.stream_spec_version,
            r@.mode@.mode@ == (ForceRegularModeView {
                force: v,
                metadata_only: false,
                reopen_moved_files: false,
            }),
            r@.mode@.preview == self@.mode@.preview,
    {
        Sync {
            bin: self.bin,
            global_opts: self.global_opts,
            mode: RegularMode {
                verify_edge_replication: self.mode.verify_edge_replication,
                script_list_mode: self.mode.script_list_mode,
                suppress_keyword_expansion: self.mode.suppress_keyword_expansion,
                quiet_mode: self.mode.quiet_mode,
                limit: self.mode.limit,
                parallel: self.mode.parallel,
                stream_spec_version: self.mode.stream_spec_version,
                mode: ForceRegularMode {
                    force: v,
                    metadata_only: false,
                    reopen_moved_files: false,
                },
                preview: self.mode.preview,
            },
        }
    }

    /// `-k`: updates the metadata only, without transferring file content; selects the force sub-mode, keeping the other options.
    pub fn metadata_only(self, v: bool) -> (r: Sync<RegularMode<ForceRegularMode, P>>)
        ensures
            r@.bin == self@.bin,
            r@.global_opts == self@.global_opts,
            r@.mode@.verify_edge_replication == self@.mode@.verify_edge_replication,
            r@.mode@.script_list_mode == self@.mode@.script_list_mode,
            r@.mode@.suppress_keyword_expansion == self@.mode@.suppress_keyword_expansion,
            r@.mode@.quiet_mode == self@.mode@.quiet_mode,
            r@.mode@.limit == self@.mode@.limit,
            r@.mode@.parallel == self@.mode@.parallel,
            r@.mode@.stream_spec_version == self@.mode@.stream_spec_version,
            r@.mode@.mode@ == (ForceRegularModeView {
                force: false,
                metadata_only: v,
                reopen_moved_files: false,
            }),
            r@.mode@.preview == self@.mode@.preview,
    {
        Sync {
            bin: self.bin,
            global_opts: self.global_opts,
            mode: RegularMode {
                verify_edge_replication: self.mode.verify_edge_replication,
                script_list_mode: self.mode.script_list_mode,
                suppress_keyword_expansion: self.mode.suppress_keyword_expansion,
                quiet_mode: self.mode.quiet_mode,
                limit: self.mode.limit,
                parallel: self.mode.parallel,
                stream_spec_version: self.mode.stream_spec_version,
                mode: ForceRegularMode {
                    force: false,
                    metadata_only: v,
                    reopen_moved_files: false,
                },
                preview: self.mode.preview,
            },
        }
    }

    /// `-r`: reopens moved files in the new location; selects the force sub-mode, keeping the other options.
    pub fn reopen_moved_files(self, v: bool) -> (r: Sync<RegularMode<ForceRegularMode, P>>)
        ensures
            r@.bin == self@.bin,
            r@.global_opts == self@.global_opts,
            r@.mode@.verify_edge_replication == self@.mode@.verify_edge_replication,
            r@.mode@.script_list_mode == self@.mode@.script_list_mode,
            r@.mode@.suppress_keyword_expansion == self@.mode@.suppress_keyword_expansion,
            r@.mode@.quiet_mode == self@.mode@.quiet_mode,
            r@.mode@.limit == self@.mode@.limit,
            r@.mode@.parallel == self@.mode@.parallel,
            r@.mode@.stream_spec_version == self@.mode@.stream_spec_version,
            r@.mode@.mode@ == (ForceRegularModeView {
                force: false,
                metadata_only: false,
                reopen_moved_files: v,
            }),
            r@.mode@.preview == self@.mode@.preview,
    {
        Sync {
            bin: self.bin,
            global_opts: self.global_opts,
            mode: RegularMode {
                verify_edge_replication: self.mode.verify_edge_replication,
                script_list_mode: self.mode.script_list_mode,
                suppress_keyword_expansion: self.mode.suppress_keyword_expansion,
                quiet_mode: self.mode.quiet_mode,
                limit: self.mode.limit,
                parallel: self.mode.parallel,
                stream_spec_version: self.mode.stream_spec_version,
                mode: ForceRegularMode {
                    force: false,
                    metadata_only: false,
                    reopen_moved_files: v,
                },
                preview: self.mode.preview,
            },
        }
    }

    /// `-s`: selects the safe check sub-mode, keeping the other options.
    pub fn safe_check(self) -> (r: Sync<RegularMode<SafeCheckMode, P>>)
        ensures
            r@.bin == self@.bin,
            r@.global_opts == self@.global_opts,
            r@.mode@.verify_edge_replication == self@.mode@.verify_edge_replication,
            r@.mode@.script_list_mode == self@.mode@.script_list_mode,
            r@.mode@.suppress_keyword_expansion == self@.mode@.suppress_keyword_expansion,
            r@.mode@.quiet_mode == self@.mode@.quiet_mode,
            r@.mode@.limit == self@.mode@.limit,
            r@.mode@.parallel == self@.mode@.parallel,
            r@.mode@.stream_spec_version == self@.mode@.stream_spec_version,
            r@.mode@.mode == SafeCheckMode,
            r@.mode@.preview == self@.mode@.preview,
    {
        Sync {
            bin: self.bin,
            global_opts: self.global_opts,
            mode: RegularMode {
                verify_edge_replication: self.mode.verify_edge_replication,
                script_list_mode: self.mode.script_list_mode,
                suppress_keyword_expansion: self.mode.suppress_keyword_expansion,
                quiet_mode: self.mode.quiet_mode,
                limit: self.mode.limit,
                parallel: self.mode.parallel,
                stream_spec_version: self.mode.stream_spec_version,
                mode: SafeCheckMode,
                preview: self.mode.preview,
            },
        }
    }

    /// `-p`: selects the populate sub-mode, keeping the other options.
    pub fn populate(self) -> (r: Sync<RegularMode<PopulateMode, P>>)
        ensures
            r@.bin == self@.bin,
            r@.global_opts == self@.global_opts,
            r@.mode@.verify_edge_replication == self@.mode@.verify_edge_replication,
            r@.mode@.script_list_mode == self@.mode@.script_list_mode,
            r@.mode@.suppress_keyword_expansion == self@.mode@.suppress_keyword_expansion,
            r@.mode@.quiet_mode == self@.mode@.quiet_mode,
            r@.mode@.limit == self@.mode@.limit,
            r@.mode@.parallel == self@.mode@.parallel,
            r@.mode@.stream_spec_version == self@.mode@.stream_spec_version,
            r@.mode@.mode == PopulateMode,
            r@.mode@.preview == self@.mode@.preview,
    {
        Sync {
            bin: self.bin,
            global_opts: self.global_opts,
            mode: RegularMode {
                verify_edge_replication: self.mode.verify_edge_replication,
                script_list_mode: self.mode.script_list_mode,
                suppress_keyword_expansion: self.mode.suppress_keyword_expansion,
                quiet_mode: self.mode.quiet_mode,
                limit: self.mode.limit,
                parallel: self.mode.parallel,
                stream_spec_version: self.mode.stream_spec_version,
                mode: PopulateMode,
                preview: self.mode.preview,
            },
        }
    }
}

impl<Mode: ExclusiveOption> Sync<RegularMode<Mode, Unselected>> {
    /// `-n`: previews the result, keeping the other options.
    pub fn preview_result(self) -> (r: Sync<RegularMode<Mode, PreviewResult>>)
        ensures
            r@.bin == self@.bin,
            r@.global_opts == self@.global_opts,
            r@.mode@.verify_edge_replication == self@.mode@.verify_edge_replication,
            r@.mode@.script_list_mode == self@.mode@.script_list_mode,
            r@.mode@.suppress_keyword_expansion == self@.mode@.suppress_keyword_expansion,
            r@.mode@.quiet_mode == self@.mode@.quiet_mode,
            r@.mode@.limit == self@.mode@.limit,
            r@.mode@.parallel == self@.mode@.parallel,
            r@.mode@.stream_spec_version == self@.mode@.stream_spec_version,
            r@.mode@.mode == self@.mode@.mode,
            r@.mode@.preview == PreviewResult,
    {
        Sync {
            bin: self.bin,
            global_opts: self.global_opts,
            mode: RegularMode {
                verify_edge_replication: self.mode.verify_edge_replication,
                script_list_mode: self.mode.script_list_mode,
                suppress_keyword_expansion: self.mode.suppress_keyword_expansion,
                quiet_mode: self.mode.quiet_mode,
                limit: self.mode.limit,
                parallel: self.mode.parallel,
                stream_spec_version: self.mode.stream_spec_version,
                mode: self.mode.mode,
                preview: PreviewResult,
            },
        }
    }

    /// `-N`: previews the network traffic, keeping the other options.
    pub fn preview_network_traffic(self) -> (r: Sync<RegularMode<Mode, PreviewNetworkTraffic>>)
        ensures
            r@.bin == self@.bin,
            r@.global_opts == self@.global_opts,
            r@.mode@.verify_edge_replication == self@.mode@.verify_edge_replication,
            r@.mode@.script_list_mode == self@.mode@.script_list_mode,
            r@.mode@.suppress_keyword_expansion == self@.mode@.suppress_keyword_expansion,
            r@.mode@.quiet_mode == self@.mode@.quiet_mode,
            r@.mode@.limit == self@.mode@.limit,
            r@.mode@.parallel == self@.mode@.parallel,
            r@.mode@.stream_spec_version == self@.mode@.stream_spec_version,
            r@.mode@.mode == self@.mode@.mode,
            r@.mode@.preview == PreviewNetworkTraffic,
    {
        Sync {
            bin: self.bin,
            global_opts: self.global_opts,
            mode: RegularMode {
                verify_edge_replication: self.mode.verify_edge_replication,
                script_list_mode: self.mode.script_list_mode,
                suppress_keyword_expansion: self.mode.suppress_keyword_expansion,
                quiet_mode: self.mode.quiet_mode,
                limit: self.mode.limit,
                parallel: self.mode.parallel,
                stream_spec_version: self.mode.stream_spec_version,
                mode: self.mode.mode,
                preview: PreviewNetworkTraffic,
            },
        }
    }
}

impl<P: ExclusiveOption> Sync<RegularMode<ForceRegularMode, P>> {
    /// `-f`: forces a resync, overwriting writable files in the workspace.
    pub fn get_force(&self) -> (r: bool)
        ensures
            r == self@.mode@.mode@.force,
    {
        self.mode.mode.force
    }

    /// `-f`: forces a resync, overwriting writable files in the workspace.
    pub fn set_force(&mut self, v: bool) -> (r: &mut Self)
        ensures
            r@.bin == old(self)@.bin,
            r@.global_opts == old(self)@.global_opts,
            r@.mode@.verify_edge_replication == old(self)@.mode@.verify_edge_replication,
            r@.mode@.script_list_mode == old(self)@.mode@.script_list_mode,
            r@.mode@.suppress_keyword_expansion == old(self)@.mode@.suppress_keyword_expansion,
            r@.mode@.quiet_mode == old(self)@.mode@.quiet_mode,
            r@.mode@.limit == old(self)@.mode@.limit,
            r@.mode@.parallel == old(self)@.mode@.parallel,
            r@.mode@.stream_spec_version == old(self)@.mode@.stream_spec_version,
            r@.mode@.preview == old(self)@.mode@.preview,
            r@.mode@.mode@ == (ForceRegularModeView { force: v, ..old(self)@.mode@.mode@ }),
            *final(self) == *final(r),
    {
        self.mode.mode.force = v;
        self
    }

    /// `-f`: forces a resync, overwriting writable files in the workspace.
    pub fn force(self, v: bool) -> (r: Self)
        ensures
            r@.bin == self@.bin,
            r@.global_opts == self@.global_opts,
            r@.mode@.verify_edge_replication == self@.mode@.verify_edge_replication,
            r@.mode@.script_list_mode == self@.mode@.script_list_mode,
            r@.mode@.suppress_keyword_expansion == self@.mode@.suppress_keyword_expansion,
            r@.mode@.quiet_mode == self@.mode@.quiet_mode,
            r@.mode@.limit == self@.mode@.limit,
            r@.mode@.parallel == self@.mode@.parallel,
            r@.mode@.stream_spec_version == self@.mode@.stream_spec_version,
            r@.mode@.preview == self@.mode@.preview,
            r@.mode@.mode@ == (ForceRegularModeView { force: v, ..self@.mode@.mode@ }),
    {
        let mut s = self;
        s.mode.mode.force = v;
        s
    }

    /// `-k`: updates the metadata only, without transferring file content.
    pub fn get_metadata_only(&self) -> (r: bool)
        ensures
            r == self@.mode@.mode@.metadata_only,
    {
        self.mode.mode.metadata_only
    }

    /// `-k`: updates the metadata only, without transferring file content.
    pub fn set_metadata_only(&mut self, v: bool) -> (r: &mut Self)
        ensures
            r@.bin == old(self)@.bin,
            r@.global_opts == old(self)@.global_opts,
            r@.mode@.verify_edge_replication == old(self)@.mode@.verify_edge_replication,
            r@.mode@.script_list_mode == old(self)@.mode@.script_list_mode,
            r@.mode@.suppress_keyword_expansion == old(self)@.mode@.suppress_keyword_expansion,
            r@.mode@.quiet_mode == old(self)@.mode@.quiet_mode,
            r@.mode@.limit == old(self)@.mode@.limit,
            r@.mode@.parallel == old(self)@.mode@.parallel,
            r@.mode@.stream_spec_version == old(self)@.mode@.stream_spec_version,
            r@.mode@.preview == old(self)@.mode@.preview,
            r@.mode@.mode@ == (ForceRegularModeView { metadata_only: v, ..old(self)@.mode@.mode@ }),
            *final(self) == *final(r),
    {
        self.mode.mode.metadata_only = v;
        self
    }

    /// `-k`: updates the metadata only, without transferring file content.
    pub fn metadata_only(self, v: bool) -> (r: Self)
        ensures
            r@.bin == self@.bin,
            r@.global_opts == self@.global_opts,
            r@.mode@.verify_edge_replication == self@.mode@.verify_edge_replication,
            r@.mode@.script_list_mode == self@.mode@.script_list_mode,
            r@.mode@.suppress_keyword_expansion == self@.mode@.suppress_keyword_expansion,
            r@.mode@.quiet_mode == self@.mode@.quiet_mode,
            r@.mode@.limit == self@.mode@.limit,
            r@.mode@.parallel == self@.mode@.parallel,
            r@.mode@.stream_spec_version == self@.mode@.stream_spec_version,
            r@.mode@.preview == self@.mode@.preview,
            r@.mode@.mode@ == (ForceRegularModeView { metadata_only: v, ..self@.mode@.mode@ }),
    {
        let mut s = self;
        s.mode.mode.metadata_only = v;
        s
    }

    /// `-r`: reopens moved files in the new location.
    pub fn get_reopen_moved_files(&self) -> (r: bool)
        ensures
            r == self@.mode@.mode@.reopen_moved_files,
    {
        self.mode.mode.reopen_moved_files
    }

    /// `-r`: reopens moved files in the new location.
    pub fn set_reopen_moved_files(&mut self, v: bool) -> (r: &mut Self)
        ensures
            r@.bin == old(self)@.bin,
            r@.global_opts == old(self)@.global_opts,
            r@.mode@.verify_edge_replication == old(self)@.mode@.verify_edge_replication,
            r@.mode@.script_list_mode == old(self)@.mode@.script_list_mode,
            r@.mode@.suppress_keyword_expansion == old(self)@.mode@.suppress_keyword_expansion,
            r@.mode@.quiet_mode == old(self)@.mode@.quiet_mode,
            r@.mode@.limit == old(self)@.mode@.limit,
            r@.mode@.parallel == old(self)@.mode@.parallel,
            r@.mode@.stream_spec_version == old(self)@.mode@.stream_spec_version,
            r@.mode@.preview == old(self)@.mode@.preview,
            r@.mode@.mode@ == (ForceRegularModeView {
                reopen_moved_files: v,
                ..old(self)@.mode@.mode@
            }),
            *final(self) == *final(r),
    {
        self.mode.mode.reopen_moved_files = v;
        self
    }

    /// `-r`: reopens moved files in the new location.
    pub fn reopen_moved_files(self, v: bool) -> (r: Self)
        ensures
            r@.bin == self@.bin,
            r@.global_opts == self@.global_opts,
            r@.mode@.verify_edge_replication == self@.mode@.verify_edge_replication,
            r@.mode@.script_list_mode == self@.mode@.script_list_mode,
            r@.mode@.suppress_keyword_expansion == self@.mode@.suppress_keyword_expansion,
            r@.mode@.quiet_mode == self@.mode@.quiet_mode,
            r@.mode@.limit == self@.mode@.limit,
            r@.mode@.parallel == self@.mode@.parallel,
            r@.mode@.stream_spec_version == self@.mode@.stream_spec_version,
            r@.mode@.preview == self@.mode@.preview,
            r@.mode@.mode@ == (ForceRegularModeView { reopen_moved_files: v, ..self@.mode@.mode@ }),
    {
        let mut s = self;
        s.mode.mode.reopen_moved_files = v;
        s
    }
}

impl Sync<SyncTimeMode> {
    /// `--sync-time=time`: the time as of which the metadata is updated.
    pub fn get_sync_time(&self) -> (r: &str)
        ensures
            r@ == self@.mode@.sync_time,
    {
        self.mode.sync_time.as_str()
    }

    /// `--sync-time=time`: the time as of which the metadata is updated.
    pub fn set_sync_time(&mut self, v: &str) -> (r: &mut Self)
        ensures
            r@.bin == old(self)@.bin,
            r@.global_opts == old(self)@.global_opts,
            r@.mode@ == (SyncTimeModeView { sync_time: v@, ..old(self)@.mode@ }),
            *final(self) == *final(r),
    {
        self.mode.sync_time = v.to_owned();
        self
    }

    /// `--sync-time=time`: the time as of which the metadata is updated.
    pub fn sync_time(self, v: &str) -> (r: Self)
        ensures
            r@.bin == self@.bin,
            r@.global_opts == self@.global_opts,
            r@.mode@ == (SyncTimeModeView { sync_time: v@, ..self@.mode@ }),
    {
        let mut s = self;
        s.mode.sync_time = v.to_owned();
        s
    }
}

impl<M: ExclusiveOption> Sync<M> {
    /// The command line that runs this command with the stored `p4` executable;
    /// operands (files, changelists, ...) follow it.
    pub fn command_line(&self) -> (c: CommandLine)
        ensures
            c@.program == self@.bin,
            c@.args == command_args(self),
    {
        self.setup_command(self.bin.as_str())
    }

    /// g-opts: the global options that precede the command; see [`GlobalOpts`].
    pub fn get_global_opts(&self) -> (r: &GlobalOpts)
        ensures
            r@ == self@.global_opts,
    {
        &self.global_opts
    }

    /// g-opts: the global options that precede the command; see [`GlobalOpts`].
    pub fn set_global_opts(&mut self, v: GlobalOpts) -> (r: &mut Self)
        ensures
            r@ == (SyncView { global_opts: v@, ..old(self)@ }),
            *final(self) == *final(r),
    {
        self.global_opts = v;
        self
    }

    /// g-opts: the global options that precede the command; see [`GlobalOpts`].
    pub fn global_opts(self, v: GlobalOpts) -> (r: Self)
        ensures
            r@ == (SyncView { global_opts: v@, ..self@ }),
    {
        let mut s = self;
        s.global_opts = v;
        s
    }
}

} // verus!
