//! `p4 print`: write the contents of depot files to standard output.
use vstd::prelude::*;

use crate::argv::{
    flag_args,
    lemma_args_concat_assoc,
    number_args,
    opt_ref_view,
    opt_str_ref_view,
    opt_str_view,
    push_arg,
    push_flag,
    push_number,
    push_pair,
    push_value,
    value_args,
};
use crate::cmd::{command_args, ExclusiveOption, SubCommand, Unselected};
use crate::command::CommandLine;
use crate::global::{GlobalOpts, GlobalOptsView};

verus! {

broadcast use lemma_args_concat_assoc;

/// Whether `p4 print` writes a UTF-8 byte order mark (`-B`).
#[derive(Debug, Clone, Copy, PartialEq, Eq, Structural)]
pub enum Utf8Bom {
    /// `-B 0`: no byte order mark.
    No,
    /// `-B 1`: a byte order mark.
    Yes,
    /// `-B 2`: a byte order mark on Windows only.
    WindowsOnly,
}

impl Utf8Bom {
    /// The command-line spelling of a byte order mark setting.
    pub open spec fn spec_str(self) -> Seq<char> {
        match self {
            Utf8Bom::No => "0"@,
            Utf8Bom::Yes => "1"@,
            Utf8Bom::WindowsOnly => "2"@,
        }
    }

    /// Returns the command-line spelling of this setting.
    pub fn as_str(&self) -> (r: &'static str)
        ensures
            r@ == self.spec_str(),
    {
        match self {
            Utf8Bom::No => "0",
            Utf8Bom::Yes => "1",
            Utf8Bom::WindowsOnly => "2",
        }
    }
}

/// The line-ending convention of `p4 print -L`.
#[derive(Debug, Clone, Copy, PartialEq, Eq, Structural)]
pub enum LineEnding {
    /// `-L unix`.
    Unix,
    /// `-L win`.
    Win,
    /// `-L mac`.
    Mac,
}

impl LineEnding {
    /// The command-line spelling of a line-ending convention.
    pub open spec fn spec_str(self) -> Seq<char> {
        match self {
            LineEnding::Unix => "unix"@,
            LineEnding::Win => "win"@,
            LineEnding::Mac => "mac"@,
        }
    }

    /// Returns the command-line spelling of this convention.
    pub fn as_str(&self) -> (r: &'static str)
        ensures
            r@ == self.spec_str(),
    {
        match self {
            LineEnding::Unix => "unix",
            LineEnding::Win => "win",
            LineEnding::Mac => "mac",
        }
    }
}

/// `-B n` when a byte order mark setting is chosen, nothing otherwise.
pub open spec fn utf8bom_args(v: Option<Utf8Bom>) -> Seq<Seq<char>> {
    match v {
        Some(b) => seq!["-B"@, b.spec_str()],
        None => seq![],
    }
}

/// `-L convention` when a line-ending convention is chosen, nothing otherwise.
pub open spec fn line_ending_args(v: Option<LineEnding>) -> Seq<Seq<char>> {
    match v {
        Some(l) => seq!["-L"@, l.spec_str()],
        None => seq![],
    }
}

fn push_utf8bom(args: &mut Vec<String>, v: Option<Utf8Bom>)
    ensures
        final(args).deep_view() == old(args).deep_view() + utf8bom_args(v),
{
    match v {
        Some(b) => {
            push_arg(args, "-B");
            push_arg(args, b.as_str());
        },
        None => {
            assert(args.deep_view() =~= old(args).deep_view() + utf8bom_args(v));
        },
    }
}

fn push_line_ending(args: &mut Vec<String>, v: Option<LineEnding>)
    ensures
        final(args).deep_view() == old(args).deep_view() + line_ending_args(v),
{
    match v {
        Some(l) => {
            push_arg(args, "-L");
            push_arg(args, l.as_str());
        },
        None => {
            assert(args.deep_view() =~= old(args).deep_view() + line_ending_args(v));
        },
    }
}

/// The byte order mark setting that `write_utf8bom(v)` chooses.
pub open spec fn utf8bom_of(v: bool) -> Utf8Bom {
    if v {
        Utf8Bom::Yes
    } else {
        Utf8Bom::No
    }
}

/// The standard form of `p4 print`, with its options.
#[derive(Debug, Clone, PartialEq, Eq)]
pub struct StandardPrintMode {
    all_revisions: bool,
    from_archive_depots: bool,
    suppress_keyword_expansion: bool,
    line_ending: Option<LineEnding>,
    charset: Option<String>,
    utf8bom: Option<Utf8Bom>,
    limit: Option<u64>,
    offset: Option<u64>,
    size: Option<u64>,
    redirect_output: Option<String>,
    quiet_mode: bool,
    ignore_changeview: bool,
}

/// The mathematical view of [`StandardPrintMode`].
pub struct StandardPrintModeView {
    pub all_revisions: bool,
    pub from_archive_depots: bool,
    pub suppress_keyword_expansion: bool,
    pub line_ending: Option<LineEnding>,
    pub charset: Option<Seq<char>>,
    pub utf8bom: Option<Utf8Bom>,
    pub limit: Option<u64>,
    pub offset: Option<u64>,
    pub size: Option<u64>,
    pub redirect_output: Option<Seq<char>>,
    pub quiet_mode: bool,
    pub ignore_changeview: bool,
}

impl View for StandardPrintMode {
    type V = StandardPrintModeView;

    closed spec fn view(&self) -> StandardPrintModeView {
        StandardPrintModeView {
            all_revisions: self.all_revisions,
            from_archive_depots: self.from_archive_depots,
            suppress_keyword_expansion: self.suppress_keyword_expansion,
            line_ending: self.line_ending,
            charset: opt_str_view(self.charset),
            utf8bom: self.utf8bom,
            limit: self.limit,
            offset: self.offset,
            size: self.size,
            redirect_output: opt_str_view(self.redirect_output),
            quiet_mode: self.quiet_mode,
            ignore_changeview: self.ignore_changeview,
        }
    }
}

impl ExclusiveOption for StandardPrintMode {
    open spec fn spec_args(&self) -> Seq<Seq<char>> {
        flag_args(self@.all_revisions, "-a"@)
        + flag_args(self@.from_archive_depots, "-A"@)
        + flag_args(self@.suppress_keyword_expansion, "-K"@)
        + value_args("-o"@, self@.redirect_output)
        + flag_args(self@.quiet_mode, "-q"@)
        + number_args("-m"@, self@.limit)
        + number_args("--offset"@, self@.offset)
        + number_args("--size"@, self@.size)
        + value_args("-Q"@, self@.charset)
        + utf8bom_args(self@.utf8bom)
        + line_ending_args(self@.line_ending)
        + flag_args(self@.ignore_changeview, "--ignore-changeview"@)
    }

    fn inject_args(&self, args: &mut Vec<String>) {
        push_flag(args, self.all_revisions, "-a");
        push_flag(args, self.from_archive_depots, "-A");
        push_flag(args, self.suppress_keyword_expansion, "-K");
        push_value(args, "-o", &self.redirect_output);
        push_flag(args, self.quiet_mode, "-q");
        push_number(args, "-m", self.limit);
        push_number(args, "--offset", self.offset);
        push_number(args, "--size", self.size);
        push_value(args, "-Q", &self.charset);
        push_utf8bom(args, self.utf8bom);
        push_line_ending(args, self.line_ending);
        push_flag(args, self.ignore_changeview, "--ignore-changeview");
    }
}

/// The standard options before any is set.
pub open spec fn default_standard_print() -> StandardPrintModeView {
    StandardPrintModeView {
        all_revisions: false,
        from_archive_depots: false,
        suppress_keyword_expansion: false,
        line_ending: None,
        charset: None,
        utf8bom: None,
        limit: None,
        offset: None,
        size: None,
        redirect_output: None,
        quiet_mode: false,
        ignore_changeview: false,
    }
}

impl Default for StandardPrintMode {
    fn default() -> (r: Self)
        ensures
            r@ == default_standard_print(),
    {
        StandardPrintMode {
            all_revisions: false,
            from_archive_depots: false,
            suppress_keyword_expansion: false,
            line_ending: None,
            charset: None,
            utf8bom: None,
            limit: None,
            offset: None,
            size: None,
            redirect_output: None,
            quiet_mode: false,
            ignore_changeview: false,
        }
    }
}

/// `-U`: prints files from the unload depot.
#[derive(Debug, Clone, Copy, Default, PartialEq, Eq, Structural)]
pub struct UnloadDepotMode;

impl ExclusiveOption for UnloadDepotMode {
    open spec fn spec_args(&self) -> Seq<Seq<char>> {
        seq!["-U"@]
    }

    fn inject_args(&self, args: &mut Vec<String>) {
        push_arg(args, "-U");
    }
}

/// `-T attribute`: prints the value of a trait attribute of the files.
#[derive(Debug, Clone, PartialEq, Eq)]
pub struct AttributeTraitMode {
    all_revisions: bool,
    redirect_output: Option<String>,
    quiet_mode: bool,
    attribute: String,
    ignore_changeview: bool,
}

/// The mathematical view of [`AttributeTraitMode`].
pub struct AttributeTraitModeView {
    pub all_revisions: bool,
    pub redirect_output: Option<Seq<char>>,
    pub quiet_mode: bool,
    pub attribute: Seq<char>,
    pub ignore_changeview: bool,
}

impl View for AttributeTraitMode {
    type V = AttributeTraitModeView;

    closed spec fn view(&self) -> AttributeTraitModeView {
        AttributeTraitModeView {
            all_revisions: self.all_revisions,
            redirect_output: opt_str_view(self.redirect_output),
            quiet_mode: self.quiet_mode,
            attribute: self.attribute@,
            ignore_changeview: self.ignore_changeview,
        }
    }
}

impl ExclusiveOption for AttributeTraitMode {
    open spec fn spec_args(&self) -> Seq<Seq<char>> {
        seq!["-T"@, self@.attribute]
        + flag_args(self@.all_revisions, "-a"@)
        + value_args("-o"@, self@.redirect_output)
        + flag_args(self@.quiet_mode, "-q"@)
        + flag_args(self@.ignore_changeview, "--ignore-changeview"@)
    }

    fn inject_args(&self, args: &mut Vec<String>) {
        push_pair(args, "-T", &self.attribute);
        push_flag(args, self.all_revisions, "-a");
        push_value(args, "-o", &self.redirect_output);
        push_flag(args, self.quiet_mode, "-q");
        push_flag(args, self.ignore_changeview, "--ignore-changeview");
    }
}

/// `p4 [g-opts] print [-a -A -K -o localFile -q -m max ...] file[revRange] ...`
/// `p4 [g-opts] print -U unloadfile ...`
/// `p4 [g-opts] print -T attribute [-a -o localFile -q] file[revRange] ...`
///
/// Write the contents of depot files to standard output; the standard form,
/// the unload depot form and the trait attribute form are selected through the
/// mode type parameter.
#[derive(Debug)]
pub struct Print<M = Unselected> {
    bin: String,
    global_opts: GlobalOpts,
    mode: M,
}

/// The mathematical view of [`Print`].
pub struct PrintView<M> {
    pub bin: Seq<char>,
    pub global_opts: GlobalOptsView,
    pub mode: M,
}

impl<M> View for Print<M> {
    type V = PrintView<M>;

    closed spec fn view(&self) -> PrintView<M> {
        PrintView {
            bin: self.bin@,
            global_opts: self.global_opts@,
            mode: self.mode,
        }
    }
}

impl<M: ExclusiveOption> SubCommand for Print<M> {
    open spec fn spec_name(&self) -> Seq<char> {
        "print"@
    }

    open spec fn spec_local_args(&self) -> Seq<Seq<char>> {
        self@.mode.spec_args()
    }

    open spec fn spec_global_opts(&self) -> Option<GlobalOptsView> {
        Some(self@.global_opts)
    }

    fn name(&self) -> (r: &str) {
        "print"
    }

    fn inject_local_args(&self, args: &mut Vec<String>) {
        self.mode.inject_args(args);
        assert(args.deep_view() =~= old(args).deep_view() + self.spec_local_args());
    }

    fn global_opts(&self) -> (r: Option<&GlobalOpts>) {
        Some(&self.global_opts)
    }
}

impl Print<Unselected> {
    /// Write the contents of depot files to standard output.
    ///
    /// `bin` is the path to the Perforce command-line executable.
    pub fn new(bin: &str, global_opts: GlobalOpts) -> (r: Self)
        ensures
            r@.bin == bin@,
            r@.global_opts == global_opts@,
            r@.mode == Unselected,
    {
        Print {
            bin: bin.to_owned(),
            global_opts: global_opts,
            mode: Unselected,
        }
    }

    /// `-U`: selects the unload depot form.
    pub fn from_unload_depot(self) -> (r: Print<UnloadDepotMode>)
        ensures
            r@.bin == self@.bin,
            r@.global_opts == self@.global_opts,
            r@.mode == UnloadDepotMode,
    {
        Print {
            bin: self.bin,
            global_opts: self.global_opts,
            mode: UnloadDepotMode,
        }
    }

    /// `-T attribute`: selects the trait attribute form.
    pub fn extract_attribute(self, name: &str) -> (r: Print<AttributeTraitMode>)
        ensures
            r@.bin == self@.bin,
            r@.global_opts == self@.global_opts,
            r@.mode@ == (AttributeTraitModeView {
                all_revisions: false,
                redirect_output: None,
                quiet_mode: false,
                attribute: name@,
                ignore_changeview: false,
            }),
    {
        Print {
            bin: self.bin,
            global_opts: self.global_opts,
            mode: AttributeTraitMode {
                all_revisions: false,
                redirect_output: None,
                quiet_mode: false,
                attribute: name.to_owned(),
                ignore_changeview: false,
            },
        }
    }

    /// `-a`: prints all revisions within the specified range, rather than just the
    /// highest revision in the range; selects the standard form.
    pub fn all_revisions(self, v: bool) -> (r: Print<StandardPrintMode>)
        ensures
            r@.bin == self@.bin,
            r@.global_opts == self@.global_opts,
            r@.mode@ == (StandardPrintModeView { all_revisions: v, ..default_standard_print() }),
    {
        let mut mode = StandardPrintMode::default();
        mode.all_revisions = v;
        Print { bin: self.bin, global_opts: self.global_opts, mode }
    }

    /// `-A`: prints files in archive depots; selects the standard form.
    pub fn archive_depots(self, v: bool) -> (r: Print<StandardPrintMode>)
        ensures
            r@.bin == self@.bin,
            r@.global_opts == self@.global_opts,
            r@.mode@ == (StandardPrintModeView {
                from_archive_depots: v,
                ..default_standard_print()
            }),
    {
        let mut mode = StandardPrintMode::default();
        mode.from_archive_depots = v;
        Print { bin: self.bin, global_opts: self.global_opts, mode }
    }

    /// `-K`: suppresses keyword expansion; selects the standard form.
    pub fn suppress_keyword_expansion(self, v: bool) -> (r: Print<StandardPrintMode>)
        ensures
            r@.bin == self@.bin,
            r@.global_opts == self@.global_opts,
            r@.mode@ == (StandardPrintModeView {
                suppress_keyword_expansion: v,
                ..default_standard_print()
            }),
    {
        let mut mode = StandardPrintMode::default();
        mode.suppress_keyword_expansion = v;
        Print { bin: self.bin, global_opts: self.global_opts, mode }
    }

    /// `-o localFile`: redirects the output to the specified file on the client; selects the standard form.
    pub fn redirect_output(self, v: &str) -> (r: Print<StandardPrintMode>)
        ensures
            r@.bin == self@.bin,
            r@.global_opts == self@.global_opts,
            r@.mode@ == (StandardPrintModeView {
                redirect_output: Some(v@),
                ..default_standard_print()
            }),
    {
        let mut mode = StandardPrintMode::default();
        mode.redirect_output = Some(v.to_owned());
        Print { bin: self.bin, global_opts: self.global_opts, mode }
    }

    /// `-q`: suppresses the initial line that displays the file name and revision; selects the standard form.
    pub fn quiet_mode(self, v: bool) -> (r: Print<StandardPrintMode>)
        ensures
            r@.bin == self@.bin,
            r@.global_opts == self@.global_opts,
            r@.mode@ == (StandardPrintModeView { quiet_mode: v, ..default_standard_print() }),
    {
        let mut mode = StandardPrintMode::default();
        mode.quiet_mode = v;
        Print { bin: self.bin, global_opts: self.global_opts, mode }
    }

    /// `-m max`: prints at most `max` files; selects the standard form.
    pub fn limit(self, v: u64) -> (r: Print<StandardPrintMode>)
        ensures
            r@.bin == self@.bin,
            r@.global_opts == self@.global_opts,
            r@.mode@ == (StandardPrintModeView { limit: Some(v), ..default_standard_print() }),
    {
        let mut mode = StandardPrintMode::default();
        mode.limit = Some(v);
        Print { bin: self.bin, global_opts: self.global_opts, mode }
    }

    /// `--offset=N`: the byte offset at which printing starts; selects the standard form.
    pub fn offset(self, v: u64) -> (r: Print<StandardPrintMode>)
        ensures
            r@.bin == self@.bin,
            r@.global_opts == self@.global_opts,
            r@.mode@ == (StandardPrintModeView { offset: Some(v), ..default_standard_print() }),
    {
        let mut mode = StandardPrintMode::default();
        mode.offset = Some(v);
        Print { bin: self.bin, global_opts: self.global_opts, mode }
    }

    /// `--size=N`: the number of bytes to print; selects the standard form.
    pub fn size(self, v: u64) -> (r: Print<StandardPrintMode>)
        ensures
            r@.bin == self@.bin,
            r@.global_opts == self@.global_opts,
            r@.mode@ == (StandardPrintModeView { size: Some(v), ..default_standard_print() }),
    {
        let mut mode = StandardPrintMode::default();
        mode.size = Some(v);
        Print { bin: self.bin, global_opts: self.global_opts, mode }
    }

    /// `-Q charset`: the character set of the output; selects the standard form.
    pub fn charset(self, v: &str) -> (r: Print<StandardPrintMode>)
        ensures
            r@.bin == self@.bin,
            r@.global_opts == self@.global_opts,
            r@.mode@ == (StandardPrintModeView { charset: Some(v@), ..default_standard_print() }),
    {
        let mut mode = StandardPrintMode::default();
        mode.charset = Some(v.to_owned());
        Print { bin: self.bin, global_opts: self.global_opts, mode }
    }

    /// `-B 0|1|2`: whether a UTF-8 byte order mark is written; selects the standard form.
    pub fn write_utf8bom(self, v: bool) -> (r: Print<StandardPrintMode>)
        ensures
            r@.bin == self@.bin,
            r@.global_opts == self@.global_opts,
            r@.mode@ == (StandardPrintModeView {
                utf8bom: Some(utf8bom_of(v)),
                ..default_standard_print()
            }),
    {
        let mut mode = StandardPrintMode::default();
        mode.utf8bom = Some(if v { Utf8Bom::Yes } else { Utf8Bom::No });
        Print { bin: self.bin, global_opts: self.global_opts, mode }
    }

    /// `-B 0|1|2`: whether a UTF-8 byte order mark is written; selects the standard form.
    pub fn write_utf8bom_windows_only(self) -> (r: Print<StandardPrintMode>)
        ensures
            r@.bin == self@.bin,
            r@.global_opts == self@.global_opts,
            r@.mode@ == (StandardPrintModeView {
                utf8bom: Some(Utf8Bom::WindowsOnly),
                ..default_standard_print()
            }),
    {
        let mut mode = StandardPrintMode::default();
        mode.utf8bom = Some(Utf8Bom::WindowsOnly);
        Print { bin: self.bin, global_opts: self.global_opts, mode }
    }

    /// `-L unix|win|mac`: the line-ending convention of the output; selects the standard form.
    pub fn line_ending_unix(self) -> (r: Print<StandardPrintMode>)
        ensures
            r@.bin == self@.bin,
            r@.global_opts == self@.global_opts,
            r@.mode@ == (StandardPrintModeView {
                line_ending: Some(LineEnding::Unix),
                ..default_standard_print()
            }),
    {
        let mut mode = StandardPrintMode::default();
        mode.line_ending = Some(LineEnding::Unix);
        Print { bin: self.bin, global_opts: self.global_opts, mode }
    }

    /// `-L unix|win|mac`: the line-ending convention of the output; selects the standard form.
    pub fn line_ending_win(self) -> (r: Print<StandardPrintMode>)
        ensures
            r@.bin == self@.bin,
            r@.global_opts == self@.global_opts,
            r@.mode@ == (StandardPrintModeView {
                line_ending: Some(LineEnding::Win),
                ..default_standard_print()
            }),
    {
        let mut mode = StandardPrintMode::default();
        mode.line_ending = Some(LineEnding::Win);
        Print { bin: self.bin, global_opts: self.global_opts, mode }
    }

    /// `-L unix|win|mac`: the line-ending convention of the output; selects the standard form.
    pub fn line_ending_mac(self) -> (r: Print<StandardPrintMode>)
        ensures
            r@.bin == self@.bin,
            r@.global_opts == self@.global_opts,
            r@.mode@ == (StandardPrintModeView {
                line_ending: Some(LineEnding::Mac),
                ..default_standard_print()
            }),
    {
        let mut mode = StandardPrintMode::default();
        mode.line_ending = Some(LineEnding::Mac);
        Print { bin: self.bin, global_opts: self.global_opts, mode }
    }

    /// `--ignore-changeview`: ignores the ChangeView of the client; selects the standard form.
    pub fn ignore_changeview(self, v: bool) -> (r: Print<StandardPrintMode>)
        ensures
            r@.bin == self@.bin,
            r@.global_opts == self@.global_opts,
            r@.mode@ == (StandardPrintModeView {
                ignore_changeview: v,
                ..default_standard_print()
            }),
    {
        let mut mode = StandardPrintMode::default();
        mode.ignore_changeview = v;
        Print { bin: self.bin, global_opts: self.global_opts, mode }
    }
}

impl<M: ExclusiveOption> Print<M> {
    /// The command line that runs this command with the stored `p4` executable;
    /// operands (files, changelists, ...) follow it.
    pub fn command_line(&self) -> (c: CommandLine)
        ensures
            c@.program == self@.bin,
            c@.args == command_args(self),
    {
        self.setup_command(self.bin.as_str())
    }

    /// g-opts: the global options that precede the command; see [`GlobalOpts`].
    pub fn get_global_opts(&self) -> (r: &GlobalOpts)
        ensures
            r@ == self@.global_opts,
    {
        &self.global_opts
    }

    /// g-opts: the global options that precede the command; see [`GlobalOpts`].
    pub fn set_global_opts(&mut self, v: GlobalOpts) -> (r: &mut Self)
        ensures
            r@ == (PrintView { global_opts: v@, ..old(self)@ }),
            *final(self) == *final(r),
    {
        self.global_opts = v;
        self
    }

    /// g-opts: the global options that precede the command; see [`GlobalOpts`].
    pub fn global_opts(self, v: GlobalOpts) -> (r: Self)
        ensures
            r@ == (PrintView { global_opts: v@, ..self@ }),
    {
        let mut s = self;
        s.global_opts = v;
        s
    }
}

impl Print<StandardPrintMode> {
    /// `-a`: prints all revisions within the specified range, rather than just the
    /// highest revision in the range.
    pub fn get_all_revisions(&self) -> (r: bool)
        ensures
            r == self@.mode@.all_revisions,
    {
        self.mode.all_revisions
    }

    /// `-a`: prints all revisions within the specified range, rather than just the
    /// highest revision in the range.
    pub fn set_all_revisions(&mut self, v: bool) -> (r: &mut Self)
        ensures
            r@.bin == old(self)@.bin,
            r@.global_opts == old(self)@.global_opts,
            r@.mode@ == (StandardPrintModeView { all_revisions: v, ..old(self)@.mode@ }),
            *final(self) == *final(r),
    {
        self.mode.all_revisions = v;
        self
    }

    /// `-a`: prints all revisions within the specified range, rather than just the
    /// highest revision in the range.
    pub fn all_revisions(self, v: bool) -> (r: Self)
        ensures
            r@.bin == self@.bin,
            r@.global_opts == self@.global_opts,
            r@.mode@ == (StandardPrintModeView { all_revisions: v, ..self@.mode@ }),
    {
        let mut s = self;
        s.mode.all_revisions = v;
        s
    }

    /// `-A`: prints files in archive depots.
    pub fn get_archive_depots(&self) -> (r: bool)
        ensures
            r == self@.mode@.from_archive_depots,
    {
        self.mode.from_archive_depots
    }

    /// `-A`: prints files in archive depots.
    pub fn set_archive_depots(&mut self, v: bool) -> (r: &mut Self)
        ensures
            r@.bin == old(self)@.bin,
            r@.global_opts == old(self)@.global_opts,
            r@.mode@ == (StandardPrintModeView { from_archive_depots: v, ..old(self)@.mode@ }),
            *final(self) == *final(r),
    {
        self.mode.from_archive_depots = v;
        self
    }

    /// `-A`: prints files in archive depots.
    pub fn archive_depots(self, v: bool) -> (r: Self)
        ensures
            r@.bin == self@.bin,
            r@.global_opts == self@.global_opts,
            r@.mode@ == (StandardPrintModeView { from_archive_depots: v, ..self@.mode@ }),
    {
        let mut s = self;
        s.mode.from_archive_depots = v;
        s
    }

    /// `-K`: suppresses keyword expansion.
    pub fn get_suppress_keyword_expansion(&self) -> (r: bool)
        ensures
            r == self@.mode@.suppress_keyword_expansion,
    {
        self.mode.suppress_keyword_expansion
    }

    /// `-K`: suppresses keyword expansion.
    pub fn set_suppress_keyword_expansion(&mut self, v: bool) -> (r: &mut Self)
        ensures
            r@.bin == old(self)@.bin,
            r@.global_opts == old(self)@.global_opts,
            r@.mode@ == (StandardPrintModeView {
                suppress_keyword_expansion: v,
                ..old(self)@.mode@
            }),
            *final(self) == *final(r),
    {
        self.mode.suppress_keyword_expansion = v;
        self
    }

    /// `-K`: suppresses keyword expansion.
    pub fn suppress_keyword_expansion(self, v: bool) -> (r: Self)
        ensures
            r@.bin == self@.bin,
            r@.global_opts == self@.global_opts,
            r@.mode@ == (StandardPrintModeView { suppress_keyword_expansion: v, ..self@.mode@ }),
    {
        let mut s = self;
        s.mode.suppress_keyword_expansion = v;
        s
    }

    /// `-o localFile`: redirects the output to the specified file on the client.
    pub fn get_redirect_output(&self) -> (r: Option<&String>)
        ensures
            opt_ref_view(r) == self@.mode@.redirect_output,
    {
        self.mode.redirect_output.as_ref()
    }

    /// `-o localFile`: redirects the output to the specified file on the client.
    pub fn set_redirect_output(&mut self, v: &str) -> (r: &mut Self)
        ensures
            r@.bin == old(self)@.bin,
            r@.global_opts == old(self)@.global_opts,
            r@.mode@ == (StandardPrintModeView { redirect_output: Some(v@), ..old(self)@.mode@ }),
            *final(self) == *final(r),
    {
        self.mode.redirect_output = Some(v.to_owned());
        self
    }

    /// `-o localFile`: redirects the output to the specified file on the client.
    pub fn redirect_output(self, v: &str) -> (r: Self)
        ensures
            r@.bin == self@.bin,
            r@.global_opts == self@.global_opts,
            r@.mode@ == (StandardPrintModeView { redirect_output: Some(v@), ..self@.mode@ }),
    {
        let mut s = self;
        s.mode.redirect_output = Some(v.to_owned());
        s
    }

    /// `-q`: suppresses the initial line that displays the file name and revision.
    pub fn get_quiet_mode(&self) -> (r: bool)
        ensures
            r == self@.mode@.quiet_mode,
    {
        self.mode.quiet_mode
    }

    /// `-q`: suppresses the initial line that displays the file name and revision.
    pub fn set_quiet_mode(&mut self, v: bool) -> (r: &mut Self)
        ensures
            r@.bin == old(self)@.bin,
            r@.global_opts == old(self)@.global_opts,
            r@.mode@ == (StandardPrintModeView { quiet_mode: v, ..old(self)@.mode@ }),
            *final(self) == *final(r),
    {
        self.mode.quiet_mode = v;
        self
    }

    /// `-q`: suppresses the initial line that displays the file name and revision.
    pub fn quiet_mode(self, v: bool) -> (r: Self)
        ensures
            r@.bin == self@.bin,
            r@.global_opts == self@.global_opts,
            r@.mode@ == (StandardPrintModeView { quiet_mode: v, ..self@.mode@ }),
    {
        let mut s = self;
        s.mode.quiet_mode = v;
        s
    }

    /// `-m max`: prints at most `max` files.
    pub fn get_limit(&self) -> (r: Option<u64>)
        ensures
            r == self@.mode@.limit,
    {
        self.mode.limit
    }

    /// `-m max`: prints at most `max` files.
    pub fn set_limit(&mut self, v: u64) -> (r: &mut Self)
        ensures
            r@.bin == old(self)@.bin,
            r@.global_opts == old(self)@.global_opts,
            r@.mode@ == (StandardPrintModeView { limit: Some(v), ..old(self)@.mode@ }),
            *final(self) == *final(r),
    {
        self.mode.limit = Some(v);
        self
    }

    /// `-m max`: prints at most `max` files.
    pub fn limit(self, v: u64) -> (r: Self)
        ensures
            r@.bin == self@.bin,
            r@.global_opts == self@.global_opts,
            r@.mode@ == (StandardPrintModeView { limit: Some(v), ..self@.mode@ }),
    {
        let mut s = self;
        s.mode.limit = Some(v);
        s
    }

    /// `--offset=N`: the byte offset at which printing starts.
    pub fn get_offset(&self) -> (r: Option<u64>)
        ensures
            r == self@.mode@.offset,
    {
        self.mode.offset
    }

    /// `--offset=N`: the byte offset at which printing starts.
    pub fn set_offset(&mut self, v: u64) -> (r: &mut Self)
        ensures
            r@.bin == old(self)@.bin,
            r@.global_opts == old(self)@.global_opts,
            r@.mode@ == (StandardPrintModeView { offset: Some(v), ..old(self)@.mode@ }),
            *final(self) == *final(r),
    {
        self.mode.offset = Some(v);
        self
    }

    /// `--offset=N`: the byte offset at which printing starts.
    pub fn offset(self, v: u64) -> (r: Self)
        ensures
            r@.bin == self@.bin,
            r@.global_opts == self@.global_opts,
            r@.mode@ == (StandardPrintModeView { offset: Some(v), ..self@.mode@ }),
    {
        let mut s = self;
        s.mode.offset = Some(v);
        s
    }

    /// `--size=N`: the number of bytes to print.
    pub fn get_size(&self) -> (r: Option<u64>)
        ensures
            r == self@.mode@.size,
    {
        self.mode.size
    }

    /// `--size=N`: the number of bytes to print.
    pub fn set_size(&mut self, v: u64) -> (r: &mut Self)
        ensures
            r@.bin == old(self)@.bin,
            r@.global_opts == old(self)@.global_opts,
            r@.mode@ == (StandardPrintModeView { size: Some(v), ..old(self)@.mode@ }),
            *final(self) == *final(r),
    {
        self.mode.size = Some(v);
        self
    }

    /// `--size=N`: the number of bytes to print.
    pub fn size(self, v: u64) -> (r: Self)
        ensures
            r@.bin == self@.bin,
            r@.global_opts == self@.global_opts,
            r@.mode@ == (StandardPrintModeView { size: Some(v), ..self@.mode@ }),
    {
        let mut s = self;
        s.mode.size = Some(v);
        s
    }

    /// `-Q charset`: the character set of the output.
    pub fn get_charset(&self) -> (r: Option<&str>)
        ensures
            opt_str_ref_view(r) == self@.mode@.charset,
    {
        match &self.mode.charset {
            Some(c) => Some(c.as_str()),
            None => None,
        }
    }

    /// `-Q charset`: the character set of the output.
    pub fn set_charset(&mut self, v: &str) -> (r: &mut Self)
        ensures
            r@.bin == old(self)@.bin,
            r@.global_opts == old(self)@.global_opts,
            r@.mode@ == (StandardPrintModeView { charset: Some(v@), ..old(self)@.mode@ }),
            *final(self) == *final(r),
    {
        self.mode.charset = Some(v.to_owned());
        self
    }

    /// `-Q charset`: the character set of the output.
    pub fn charset(self, v: &str) -> (r: Self)
        ensures
            r@.bin == self@.bin,
            r@.global_opts == self@.global_opts,
            r@.mode@ == (StandardPrintModeView { charset: Some(v@), ..self@.mode@ }),
    {
        let mut s = self;
        s.mode.charset = Some(v.to_owned());
        s
    }

    /// `-B 0|1|2`: whether a UTF-8 byte order mark is written.
    pub fn get_utf8bom(&self) -> (r: Option<Utf8Bom>)
        ensures
            r == self@.mode@.utf8bom,
    {
        self.mode.utf8bom
    }

    /// `-L unix|win|mac`: the line-ending convention of the output.
    pub fn get_line_ending(&self) -> (r: Option<LineEnding>)
        ensures
            r == self@.mode@.line_ending,
    {
        self.mode.line_ending
    }

    /// `-B 0|1|2`: whether a UTF-8 byte order mark is written.
    pub fn set_write_utf8bom(&mut self, v: bool) -> (r: &mut Self)
        ensures
            r@.bin == old(self)@.bin,
            r@.global_opts == old(self)@.global_opts,
            r@.mode@ == (StandardPrintModeView {
                utf8bom: Some(utf8bom_of(v)),
                ..old(self)@.mode@
            }),
            *final(self) == *final(r),
    {
        self.mode.utf8bom = Some(if v { Utf8Bom::Yes } else { Utf8Bom::No });
        self
    }

    /// `-B 0|1|2`: whether a UTF-8 byte order mark is written.
    pub fn write_utf8bom(self, v: bool) -> (r: Self)
        ensures
            r@.bin == self@.bin,
            r@.global_opts == self@.global_opts,
            r@.mode@ == (StandardPrintModeView { utf8bom: Some(utf8bom_of(v)), ..self@.mode@ }),
    {
        let mut s = self;
        s.mode.utf8bom = Some(if v { Utf8Bom::Yes } else { Utf8Bom::No });
        s
    }

    /// `-B 0|1|2`: whether a UTF-8 byte order mark is written.
    pub fn set_write_utf8bom_windows_only(&mut self) -> (r: &mut Self)
        ensures
            r@.bin == old(self)@.bin,
            r@.global_opts == old(self)@.global_opts,
            r@.mode@ == (StandardPrintModeView {
                utf8bom: Some(Utf8Bom::WindowsOnly),
                ..old(self)@.mode@
            }),
            *final(self) == *final(r),
    {
        self.mode.utf8bom = Some(Utf8Bom::WindowsOnly);
        self
    }

    /// `-B 0|1|2`: whether a UTF-8 byte order mark is written.
    pub fn write_utf8bom_windows_only(self) -> (r: Self)
        ensures
            r@.bin == self@.bin,
            r@.global_opts == self@.global_opts,
            r@.mode@ == (StandardPrintModeView {
                utf8bom: Some(Utf8Bom::WindowsOnly),
                ..self@.mode@
            }),
    {
        let mut s = self;
        s.mode.utf8bom = Some(Utf8Bom::WindowsOnly);
        s
    }

    /// `-L unix|win|mac`: the line-ending convention of the output.
    pub fn set_line_ending_unix(&mut self) -> (r: &mut Self)
        ensures
            r@.bin == old(self)@.bin,
            r@.global_opts == old(self)@.global_opts,
            r@.mode@ == (StandardPrintModeView {
                line_ending: Some(LineEnding::Unix),
                ..old(self)@.mode@
            }),
            *final(self) == *final(r),
    {
        self.mode.line_ending = Some(LineEnding::Unix);
        self
    }

    /// `-L unix|win|mac`: the line-ending convention of the output.
    pub fn line_ending_unix(self) -> (r: Self)
        ensures
            r@.bin == self@.bin,
            r@.global_opts == self@.global_opts,
            r@.mode@ == (StandardPrintModeView {
                line_ending: Some(LineEnding::Unix),
                ..self@.mode@
            }),
    {
        let mut s = self;
        s.mode.line_ending = Some(LineEnding::Unix);
        s
    }

    /// `-L unix|win|mac`: the line-ending convention of the output.
    pub fn set_line_ending_win(&mut self) -> (r: &mut Self)
        ensures
            r@.bin == old(self)@.bin,
            r@.global_opts == old(self)@.global_opts,
            r@.mode@ == (StandardPrintModeView {
                line_ending: Some(LineEnding::Win),
                ..old(self)@.mode@
            }),
            *final(self) == *final(r),
    {
        self.mode.line_ending = Some(LineEnding::Win);
        self
    }

    /// `-L unix|win|mac`: the line-ending convention of the output.
    pub fn line_ending_win(self) -> (r: Self)
        ensures
            r@.bin == self@.bin,
            r@.global_opts == self@.global_opts,
            r@.mode@ == (StandardPrintModeView {
                line_ending: Some(LineEnding::Win),
                ..self@.mode@
            }),
    {
        let mut s = self;
        s.mode.line_ending = Some(LineEnding::Win);
        s
    }

    /// `-L unix|win|mac`: the line-ending convention of the output.
    pub fn set_line_ending_mac(&mut self) -> (r: &mut Self)
        ensures
            r@.bin == old(self)@.bin,
            r@.global_opts == old(self)@.global_opts,
            r@.mode@ == (StandardPrintModeView {
                line_ending: Some(LineEnding::Mac),
                ..old(self)@.mode@
            }),
            *final(self) == *final(r),
    {
        self.mode.line_ending = Some(LineEnding::Mac);
        self
    }

    /// `-L unix|win|mac`: the line-ending convention of the output.
    pub fn line_ending_mac(self) -> (r: Self)
        ensures
            r@.bin == self@.bin,
            r@.global_opts == self@.global_opts,
            r@.mode@ == (StandardPrintModeView {
                line_ending: Some(LineEnding::Mac),
                ..self@.mode@
            }),
    {
        let mut s = self;
        s.mode.line_ending = Some(LineEnding::Mac);
        s
    }

    /// `--ignore-changeview`: ignores the ChangeView of the client.
    pub fn get_ignore_changeview(&self) -> (r: bool)
        ensures
            r == self@.mode@.ignore_changeview,
    {
        self.mode.ignore_changeview
    }

    /// `--ignore-changeview`: ignores the ChangeView of the client.
    pub fn set_ignore_changeview(&mut self, v: bool) -> (r: &mut Self)
        ensures
            r@.bin == old(self)@.bin,
            r@.global_opts == old(self)@.global_opts,
            r@.mode@ == (StandardPrintModeView { ignore_changeview: v, ..old(self)@.mode@ }),
            *final(self) == *final(r),
    {
        self.mode.ignore_changeview = v;
        self
    }

    /// `--ignore-changeview`: ignores the ChangeView of the client.
    pub fn ignore_changeview(self, v: bool) -> (r: Self)
        ensures
            r@.bin == self@.bin,
            r@.global_opts == self@.global_opts,
            r@.mode@ == (StandardPrintModeView { ignore_changeview: v, ..self@.mode@ }),
    {
        let mut s = self;
        s.mode.ignore_changeview = v;
        s
    }
}

impl Print<AttributeTraitMode> {
    /// `-T attribute`: the trait attribute to print.
    pub fn get_attribute(&self) -> (r: &str)
        ensures
            r@ == self@.mode@.attribute,
    {
        self.mode.attribute.as_str()
    }

    /// `-T attribute`: the trait attribute to print.
    pub fn set_attribute(&mut self, v: &str) -> (r: &mut Self)
        ensures
            r@.bin == old(self)@.bin,
            r@.global_opts == old(self)@.global_opts,
            r@.mode@ == (AttributeTraitModeView { attribute: v@, ..old(self)@.mode@ }),
            *final(self) == *final(r),
    {
        self.mode.attribute = v.to_owned();
        self
    }

    /// `-T attribute`: the trait attribute to print.
    pub fn attribute(self, v: &str) -> (r: Self)
        ensures
            r@.bin == self@.bin,
            r@.global_opts == self@.global_opts,
            r@.mode@ == (AttributeTraitModeView { attribute: v@, ..self@.mode@ }),
    {
        let mut s = self;
        s.mode.attribute = v.to_owned();
        s
    }

    /// `-a`: prints all revisions within the specified range, rather than just the
    /// highest revision in the range.
    pub fn get_all_revisions(&self) -> (r: bool)
        ensures
            r == self@.mode@.all_revisions,
    {
        self.mode.all_revisions
    }

    /// `-a`: prints all revisions within the specified range, rather than just the
    /// highest revision in the range.
    pub fn set_all_revisions(&mut self, v: bool) -> (r: &mut Self)
        ensures
            r@.bin == old(self)@.bin,
            r@.global_opts == old(self)@.global_opts,
            r@.mode@ == (AttributeTraitModeView { all_revisions: v, ..old(self)@.mode@ }),
            *final(self) == *final(r),
    {
        self.mode.all_revisions = v;
        self
    }

    /// `-a`: prints all revisions within the specified range, rather than just the
    /// highest revision in the range.
    pub fn all_revisions(self, v: bool) -> (r: Self)
        ensures
            r@.bin == self@.bin,
            r@.global_opts == self@.global_opts,
            r@.mode@ == (AttributeTraitModeView { all_revisions: v, ..self@.mode@ }),
    {
        let mut s = self;
        s.mode.all_revisions = v;
        s
    }

    /// `-o localFile`: redirects the output to the specified file on the client.
    pub fn get_redirect_output(&self) -> (r: Option<&String>)
        ensures
            opt_ref_view(r) == self@.mode@.redirect_output,
    {
        self.mode.redirect_output.as_ref()
    }

    /// `-o localFile`: redirects the output to the specified file on the client.
    pub fn set_redirect_output(&mut self, v: &str) -> (r: &mut Self)
        ensures
            r@.bin == old(self)@.bin,
            r@.global_opts == old(self)@.global_opts,
            r@.mode@ == (AttributeTraitModeView { redirect_output: Some(v@), ..old(self)@.mode@ }),
            *final(self) == *final(r),
    {
        self.mode.redirect_output = Some(v.to_owned());
        self
    }

    /// `-o localFile`: redirects the output to the specified file on the client.
    pub fn redirect_output(self, v: &str) -> (r: Self)
        ensures
            r@.bin == self@.bin,
            r@.global_opts == self@.global_opts,
            r@.mode@ == (AttributeTraitModeView { redirect_output: Some(v@), ..self@.mode@ }),
    {
        let mut s = self;
        s.mode.redirect_output = Some(v.to_owned());
        s
    }

    /// `-q`: suppresses the initial line that displays the file name and revision.
    pub fn get_quiet_mode(&self) -> (r: bool)
        ensures
            r == self@.mode@.quiet_mode,
    {
        self.mode.quiet_mode
    }

    /// `-q`: suppresses the initial line that displays the file name and revision.
    pub fn set_quiet_mode(&mut self, v: bool) -> (r: &mut Self)
        ensures
            r@.bin == old(self)@.bin,
            r@.global_opts == old(self)@.global_opts,
            r@.mode@ == (AttributeTraitModeView { quiet_mode: v, ..old(self)@.mode@ }),
            *final(self) == *final(r),
    {
        self.mode.quiet_mode = v;
        self
    }

    /// `-q`: suppresses the initial line that displays the file name and revision.
    pub fn quiet_mode(self, v: bool) -> (r: Self)
        ensures
            r@.bin == self@.bin,
            r@.global_opts == self@.global_opts,
            r@.mode@ == (AttributeTraitModeView { quiet_mode: v, ..self@.mode@ }),
    {
        let mut s = self;
        s.mode.quiet_mode = v;
        s
    }

    /// `--ignore-changeview`: ignores the ChangeView of the client.
    pub fn get_ignore_changeview(&self) -> (r: bool)
        ensures
            r == self@.mode@.ignore_changeview,
    {
        self.mode.ignore_changeview
    }

    /// `--ignore-changeview`: ignores the ChangeView of the client.
    pub fn set_ignore_changeview(&mut self, v: bool) -> (r: &mut Self)
        ensures
            r@.bin == old(self)@.bin,
            r@.global_opts == old(self)@.global_opts,
            r@.mode@ == (AttributeTraitModeView { ignore_changeview: v, ..old(self)@.mode@ }),
            *final(self) == *final(r),
    {
        self.mode.ignore_changeview = v;
        self
    }

    /// `--ignore-changeview`: ignores the ChangeView of the client.
    pub fn ignore_changeview(self, v: bool) -> (r: Self)
        ensures
            r@.bin == self@.bin,
            r@.global_opts == self@.global_opts,
            r@.mode@ == (AttributeTraitModeView { ignore_changeview: v, ..self@.mode@ }),
    {
        let mut s = self;
        s.mode.ignore_changeview = v;
        s
    }
}

} // verus!
