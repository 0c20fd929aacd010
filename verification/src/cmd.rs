//! The `p4` commands, and what they share: the [`SubCommand`] trait that
//! assembles a command line, the [`ExclusiveOption`] trait of mutually
//! exclusive option groups, and the `-d` diff options.
use vstd::prelude::*;
use vstd::seq_lib::lemma_concat_associative;

use crate::argv::{decimal, decimal_string, push_arg};
use crate::command::CommandLine;
use crate::global::{global_args, GlobalOpts, GlobalOptsView};

pub mod add;
pub mod admin;
pub mod aliases;
pub mod annotate;
pub mod archive;
pub mod attribute;
pub mod changes;
pub mod describe;
pub mod diff;
pub mod diff2;
pub mod edit;
pub mod filelog;
pub mod print;
pub mod sync;
pub mod where_cmd;

pub use add::Add;
pub use admin::AdminEntry;
pub use aliases::Aliases;
pub use annotate::Annotate;
pub use archive::Archive;
pub use attribute::Attribute;
pub use changes::Changes;
pub use describe::Describe;
pub use diff::Diff;
pub use diff2::Diff2;
pub use edit::Edit;
pub use filelog::FileLog;
pub use print::Print;
pub use sync::Sync;
pub use where_cmd::Where;

verus! {

/// Long output mode for changelist descriptions shared by commands such as
/// `p4 changes` and `p4 filelog`.
///
/// By default, only the first 30 (or 31) characters of the description are
/// shown.
#[derive(Debug, Clone, Copy, PartialEq, Eq, Structural)]
pub enum LongOutput {
    /// Show the full text of each changelist description (`-l`).
    Default,
    /// Show the full text truncated at 250 characters (`-L`).
    Truncated,
}

impl LongOutput {
    /// The command-line flag of a long output mode.
    pub open spec fn flag(self) -> Seq<char> {
        match self {
            LongOutput::Default => "-l"@,
            LongOutput::Truncated => "-L"@,
        }
    }

    /// Returns the command-line flag for this long output mode.
    pub fn as_str(&self) -> (r: &'static str)
        ensures
            r@ == self.flag(),
    {
        match self {
            LongOutput::Default => "-l",
            LongOutput::Truncated => "-L",
        }
    }
}

/// Output format of the diff routine passed via `-doptions`.
///
/// This is one of two orthogonal dimensions of [`DiffOptions`] (the other
/// being [`WhitespaceHandling`]). Exactly one format may be selected; the
/// [`Default`](DiffFormat::Default) variant corresponds to no format flag.
#[derive(Debug, Clone, Copy, PartialEq, Eq, Structural)]
pub enum DiffFormat {
    /// Default diff output format (no format flag).
    Default,
    /// Context output format (`-dc[num]`), showing `num` lines of context
    /// around the changes.
    Context(Option<u32>),
    /// RCS output format (`-dn`), showing additions and deletions with
    /// associated line ranges.
    Rcs,
    /// Summary output format (`-ds`), showing only the number of chunks and
    /// lines added, deleted, or changed.
    Summary,
    /// Unified output format (`-du[num]`), showing added and deleted lines
    /// with `num` lines of context, in a form compatible with `patch(1)`.
    Unified(Option<u32>),
}

impl Default for DiffFormat {
    fn default() -> (r: Self)
        ensures
            r == DiffFormat::Default,
    {
        DiffFormat::Default
    }
}

/// Whitespace handling of the diff routine passed via `-doptions`.
///
/// This is one of two orthogonal dimensions of [`DiffOptions`] (the other
/// being [`DiffFormat`]). The [`IgnoreChangesWithinWhitespace`] and
/// [`IgnoreAllWhitespace`] variants each imply [`IgnoreLineEndings`].
///
/// [`IgnoreChangesWithinWhitespace`]: WhitespaceHandling::IgnoreChangesWithinWhitespace
/// [`IgnoreAllWhitespace`]: WhitespaceHandling::IgnoreAllWhitespace
/// [`IgnoreLineEndings`]: WhitespaceHandling::IgnoreLineEndings
#[derive(Debug, Clone, Copy, PartialEq, Eq, Structural)]
pub enum WhitespaceHandling {
    /// No whitespace handling.
    NoHandling,
    /// Ignore line-ending (CR/LF) convention when finding diffs (`-dl`).
    IgnoreLineEndings,
    /// Ignore changes made within whitespace (`-db`); implies `-dl`.
    IgnoreChangesWithinWhitespace,
    /// Ignore whitespace altogether (`-dw`); implies `-dl`.
    IgnoreAllWhitespace,
}

impl Default for WhitespaceHandling {
    fn default() -> (r: Self)
        ensures
            r == WhitespaceHandling::NoHandling,
    {
        WhitespaceHandling::NoHandling
    }
}

/// Diff routine options passed via `-doptions`, shared by commands such as
/// `p4 diff`, `p4 diff2`, `p4 describe`, and `p4 annotate`.
///
/// The structured ([`Typed`](DiffOptions::Typed)) options split into two
/// orthogonal dimensions — [`DiffFormat`] (output format) and
/// [`WhitespaceHandling`] — each of which is internally mutually exclusive.
/// All options are assembled with a [`DiffOptionsBuilder`], whose mode type
/// parameter tracks whether structured or raw options are being built; both
/// builder states convert into this type via [`From`].
#[derive(Debug, Clone, PartialEq, Eq)]
pub enum DiffOptions {
    /// Structured diff options (the documented subset of the standard UNIX
    /// diff flags).
    Typed { format: DiffFormat, whitespace: WhitespaceHandling },
    /// Raw option string passed directly to the underlying diff routine
    /// (useful with an external diff program configured via `P4DIFF`).
    Raw(String),
}

/// The mathematical view of [`DiffOptions`].
pub enum DiffOptionsView {
    Typed { format: DiffFormat, whitespace: WhitespaceHandling },
    Raw(Seq<char>),
}

impl View for DiffOptions {
    type V = DiffOptionsView;

    open spec fn view(&self) -> DiffOptionsView {
        match self {
            DiffOptions::Typed { format, whitespace } => DiffOptionsView::Typed {
                format: *format,
                whitespace: *whitespace,
            },
            DiffOptions::Raw(s) => DiffOptionsView::Raw(s@),
        }
    }
}

/// The view of optional diff options.
pub open spec fn opt_diff_view(v: Option<DiffOptions>) -> Option<DiffOptionsView> {
    match v {
        Some(d) => Some(d@),
        None => None,
    }
}

/// The view of optional borrowed diff options.
pub open spec fn opt_diff_ref_view(v: Option<&DiffOptions>) -> Option<DiffOptionsView> {
    match v {
        Some(d) => Some(d@),
        None => None,
    }
}

/// The optional decimal line count that follows `c` or `u`.
pub open spec fn context_chars(num: Option<u32>) -> Seq<char> {
    match num {
        Some(n) => decimal(n as nat),
        None => seq![],
    }
}

/// The letters that select an output format after `-d`.
pub open spec fn format_chars(format: DiffFormat) -> Seq<char> {
    match format {
        DiffFormat::Default => seq![],
        DiffFormat::Context(num) => seq!['c'] + context_chars(num),
        DiffFormat::Rcs => seq!['n'],
        DiffFormat::Summary => seq!['s'],
        DiffFormat::Unified(num) => seq!['u'] + context_chars(num),
    }
}

/// The letter that selects a whitespace handling after `-d`.
pub open spec fn whitespace_chars(whitespace: WhitespaceHandling) -> Seq<char> {
    match whitespace {
        WhitespaceHandling::NoHandling => seq![],
        WhitespaceHandling::IgnoreLineEndings => seq!['l'],
        WhitespaceHandling::IgnoreChangesWithinWhitespace => seq!['b'],
        WhitespaceHandling::IgnoreAllWhitespace => seq!['w'],
    }
}

/// The arguments that diff options contribute: nothing for the defaults,
/// otherwise a single `-d` argument with the format letter (and line count)
/// followed by the whitespace letter, or `-d` followed by the raw string.
pub open spec fn diff_options_args(d: DiffOptionsView) -> Seq<Seq<char>> {
    match d {
        DiffOptionsView::Raw(s) => seq!["-d"@ + s],
        DiffOptionsView::Typed { format, whitespace } => {
            if format == DiffFormat::Default && whitespace == WhitespaceHandling::NoHandling {
                seq![]
            } else {
                seq!["-d"@ + format_chars(format) + whitespace_chars(whitespace)]
            }
        },
    }
}

/// The output format of typed diff options (the default format for raw ones,
/// which carry none).
pub open spec fn typed_format(d: DiffOptionsView) -> DiffFormat {
    match d {
        DiffOptionsView::Typed { format, .. } => format,
        DiffOptionsView::Raw(_) => DiffFormat::Default,
    }
}

/// The arguments of optional diff options.
pub open spec fn opt_diff_options_args(d: Option<DiffOptionsView>) -> Seq<Seq<char>> {
    match d {
        Some(v) => diff_options_args(v),
        None => seq![],
    }
}

impl Default for DiffOptions {
    fn default() -> (r: Self)
        ensures
            r@ == (DiffOptionsView::Typed {
                format: DiffFormat::Default,
                whitespace: WhitespaceHandling::NoHandling,
            }),
    {
        DiffOptions::Typed {
            format: DiffFormat::Default,
            whitespace: WhitespaceHandling::NoHandling,
        }
    }
}

/// Appends the optional line count of a context or unified format.
fn append_context(s: &mut String, num: Option<u32>)
    ensures
        final(s)@ == old(s)@ + context_chars(num),
{
    match num {
        Some(n) => {
            let digits = decimal_string(n as u64);
            s.append(digits.as_str());
        },
        None => {
            assert(s@ =~= old(s)@ + Seq::<char>::empty());
        },
    }
}

impl DiffOptions {
    /// Returns the selected output format, or `None` if this is a
    /// [`Raw`](DiffOptions::Raw) value.
    pub fn format(&self) -> (r: Option<DiffFormat>)
        ensures
            r == (match self@ {
                DiffOptionsView::Typed { format, .. } => Some(format),
                DiffOptionsView::Raw(_) => None,
            }),
    {
        match self {
            DiffOptions::Typed { format, .. } => Some(*format),
            DiffOptions::Raw(_) => None,
        }
    }

    /// Returns the selected whitespace handling, or `None` if this is a
    /// [`Raw`](DiffOptions::Raw) value.
    pub fn whitespace_handling(&self) -> (r: Option<WhitespaceHandling>)
        ensures
            r == (match self@ {
                DiffOptionsView::Typed { whitespace, .. } => Some(whitespace),
                DiffOptionsView::Raw(_) => None,
            }),
    {
        match self {
            DiffOptions::Typed { whitespace, .. } => Some(*whitespace),
            DiffOptions::Raw(_) => None,
        }
    }

    /// Returns the raw option string, or `None` if this is a
    /// [`Typed`](DiffOptions::Typed) value.
    pub fn raw_str(&self) -> (r: Option<&str>)
        ensures
            match self@ {
                DiffOptionsView::Typed { .. } => r is None,
                DiffOptionsView::Raw(s) => r is Some && r->0@ == s,
            },
    {
        match self {
            DiffOptions::Typed { .. } => None,
            DiffOptions::Raw(s) => Some(s.as_str()),
        }
    }

    /// Appends the `-doptions` argument to `args`.
    ///
    /// If this is a [`Typed`](DiffOptions::Typed) value with both the format
    /// and whitespace handling at their defaults, no `-d` argument is emitted.
    pub fn inject_arg(&self, args: &mut Vec<String>)
        ensures
            final(args).deep_view() == old(args).deep_view() + diff_options_args(self@),
    {
        proof {
            reveal_strlit("-d");
            reveal_strlit("c");
            reveal_strlit("n");
            reveal_strlit("s");
            reveal_strlit("u");
            reveal_strlit("l");
            reveal_strlit("b");
            reveal_strlit("w");
        }
        let (format, whitespace) = match self {
            DiffOptions::Typed { format, whitespace } => (*format, *whitespace),
            DiffOptions::Raw(s) => {
                let arg = String::from_str("-d").concat(s.as_str());
                args.push(arg);
                assert(args.deep_view() =~= old(args).deep_view() + diff_options_args(self@));
                return;
            },
        };
        if format == DiffFormat::Default && whitespace == WhitespaceHandling::NoHandling {
            assert(args.deep_view() =~= old(args).deep_view() + diff_options_args(self@));
            return;
        }
        let mut s = String::from_str("-d");
        match format {
            DiffFormat::Default => {},
            DiffFormat::Context(num) => {
                s.append("c");
                append_context(&mut s, num);
            },
            DiffFormat::Rcs => s.append("n"),
            DiffFormat::Summary => s.append("s"),
            DiffFormat::Unified(num) => {
                s.append("u");
                append_context(&mut s, num);
            },
        }
        assert(s@ =~= "-d"@ + format_chars(format));
        match whitespace {
            WhitespaceHandling::NoHandling => {},
            WhitespaceHandling::IgnoreLineEndings => s.append("l"),
            WhitespaceHandling::IgnoreChangesWithinWhitespace => s.append("b"),
            WhitespaceHandling::IgnoreAllWhitespace => s.append("w"),
        }
        assert(s@ =~= "-d"@ + format_chars(format) + whitespace_chars(whitespace));
        args.push(s);
        assert(args.deep_view() =~= old(args).deep_view() + diff_options_args(self@));
    }
}

/// Appends the `-doptions` argument of optional diff options.
pub fn push_diff_options(args: &mut Vec<String>, diff_options: &Option<DiffOptions>)
    ensures
        final(args).deep_view() == old(args).deep_view() + opt_diff_options_args(
            opt_diff_view(*diff_options),
        ),
{
    match diff_options {
        Some(d) => d.inject_arg(args),
        None => {
            assert(args.deep_view() =~= old(args).deep_view() + Seq::<Seq<char>>::empty());
        },
    }
}

impl From<String> for DiffOptions {
    fn from(s: String) -> (r: Self)
        ensures
            r@ == DiffOptionsView::Raw(s@),
    {
        DiffOptions::Raw(s)
    }
}

impl vstd::std_specs::convert::FromSpecImpl<String> for DiffOptions {
    open spec fn obeys_from_spec() -> bool {
        true
    }

    open spec fn from_spec(v: String) -> Self {
        DiffOptions::Raw(v)
    }
}

/// The structured ([`Typed`](DiffOptions::Typed)) state of a
/// [`DiffOptionsBuilder`], holding the selected [`DiffFormat`] and
/// [`WhitespaceHandling`].
#[derive(Debug, Clone, Copy, PartialEq, Eq)]
pub struct DiffOptionsTypedMode {
    format: DiffFormat,
    whitespace: WhitespaceHandling,
}

impl View for DiffOptionsTypedMode {
    type V = DiffOptionsView;

    closed spec fn view(&self) -> DiffOptionsView {
        DiffOptionsView::Typed { format: self.format, whitespace: self.whitespace }
    }
}

impl Default for DiffOptionsTypedMode {
    fn default() -> (r: Self)
        ensures
            r@ == (DiffOptionsView::Typed {
                format: DiffFormat::Default,
                whitespace: WhitespaceHandling::NoHandling,
            }),
    {
        DiffOptionsTypedMode {
            format: DiffFormat::Default,
            whitespace: WhitespaceHandling::NoHandling,
        }
    }
}

/// The raw ([`Raw`](DiffOptions::Raw)) state of a [`DiffOptionsBuilder`],
/// holding the option string passed verbatim to the underlying diff routine.
#[derive(Debug, Clone, PartialEq, Eq)]
pub struct DiffOptionsRawMode {
    raw: String,
}

impl View for DiffOptionsRawMode {
    type V = DiffOptionsView;

    closed spec fn view(&self) -> DiffOptionsView {
        DiffOptionsView::Raw(self.raw@)
    }
}

/// Builder for [`DiffOptions`], shared by commands such as `p4 diff`,
/// `p4 diff2`, `p4 describe`, and `p4 annotate`.
///
/// The mode type parameter tracks which kind of options are being assembled.
/// The format constructors ([`DiffOptionsBuilder::context`],
/// [`DiffOptionsBuilder::rcs`], [`DiffOptionsBuilder::summary`],
/// [`DiffOptionsBuilder::unified`], and [`DiffOptionsBuilder::new`]) produce
/// the [`DiffOptionsTypedMode`] state, where the whitespace builders become
/// available; [`DiffOptionsBuilder::raw`] produces the [`DiffOptionsRawMode`]
/// state, which offers no further options — the two states never mix.
///
/// The view of a builder is the [`DiffOptions`] it converts into.
#[derive(Debug, Clone, Copy, PartialEq, Eq)]
pub struct DiffOptionsBuilder<M> {
    mode: M,
}

impl<M: View<V = DiffOptionsView>> View for DiffOptionsBuilder<M> {
    type V = DiffOptionsView;

    closed spec fn view(&self) -> DiffOptionsView {
        self.mode@
    }
}

impl DiffOptionsBuilder<DiffOptionsTypedMode> {
    /// Creates a new builder in the [`DiffOptionsTypedMode`] state with the
    /// default format and no whitespace handling; the resulting
    /// [`DiffOptions`] emits no `-d` flag.
    pub fn new() -> (r: Self)
        ensures
            r@ == (DiffOptionsView::Typed {
                format: DiffFormat::Default,
                whitespace: WhitespaceHandling::NoHandling,
            }),
    {
        DiffOptionsBuilder { mode: DiffOptionsTypedMode::default() }
    }

    /// `-dc[num]`: context output format with `num` lines of context.
    pub fn context(num: Option<u32>) -> (r: Self)
        ensures
            r@ == (DiffOptionsView::Typed {
                format: DiffFormat::Context(num),
                whitespace: WhitespaceHandling::NoHandling,
            }),
    {
        DiffOptionsBuilder {
            mode: DiffOptionsTypedMode {
                format: DiffFormat::Context(num),
                whitespace: WhitespaceHandling::NoHandling,
            },
        }
    }

    /// `-dn`: RCS output format.
    pub fn rcs() -> (r: Self)
        ensures
            r@ == (DiffOptionsView::Typed {
                format: DiffFormat::Rcs,
                whitespace: WhitespaceHandling::NoHandling,
            }),
    {
        DiffOptionsBuilder {
            mode: DiffOptionsTypedMode {
                format: DiffFormat::Rcs,
                whitespace: WhitespaceHandling::NoHandling,
            },
        }
    }

    /// `-ds`: summary output format.
    pub fn summary() -> (r: Self)
        ensures
            r@ == (DiffOptionsView::Typed {
                format: DiffFormat::Summary,
                whitespace: WhitespaceHandling::NoHandling,
            }),
    {
        DiffOptionsBuilder {
            mode: DiffOptionsTypedMode {
                format: DiffFormat::Summary,
                whitespace: WhitespaceHandling::NoHandling,
            },
        }
    }

    /// `-du[num]`: unified output format with `num` lines of context.
    pub fn unified(num: Option<u32>) -> (r: Self)
        ensures
            r@ == (DiffOptionsView::Typed {
                format: DiffFormat::Unified(num),
                whitespace: WhitespaceHandling::NoHandling,
            }),
    {
        DiffOptionsBuilder {
            mode: DiffOptionsTypedMode {
                format: DiffFormat::Unified(num),
                whitespace: WhitespaceHandling::NoHandling,
            },
        }
    }


    /// `-dl`: ignore line-ending (CR/LF) convention when finding diffs.
    pub fn ignore_line_endings(self) -> (r: Self)
        ensures
            r@ == (DiffOptionsView::Typed {
                format: typed_format(self@),
                whitespace: WhitespaceHandling::IgnoreLineEndings,
            }),
    {
        let mut b = self;
        b.mode.whitespace = WhitespaceHandling::IgnoreLineEndings;
        b
    }

    /// `-db`: ignore changes made within whitespace (implies `-dl`).
    pub fn ignore_changes_within_whitespace(self) -> (r: Self)
        ensures
            r@ == (DiffOptionsView::Typed {
                format: typed_format(self@),
                whitespace: WhitespaceHandling::IgnoreChangesWithinWhitespace,
            }),
    {
        let mut b = self;
        b.mode.whitespace = WhitespaceHandling::IgnoreChangesWithinWhitespace;
        b
    }

    /// `-dw`: ignore whitespace altogether (implies `-dl`).
    pub fn ignore_all_whitespace(self) -> (r: Self)
        ensures
            r@ == (DiffOptionsView::Typed {
                format: typed_format(self@),
                whitespace: WhitespaceHandling::IgnoreAllWhitespace,
            }),
    {
        let mut b = self;
        b.mode.whitespace = WhitespaceHandling::IgnoreAllWhitespace;
        b
    }
}

impl DiffOptionsBuilder<DiffOptionsRawMode> {
    /// Passes an arbitrary option string directly to the underlying diff
    /// routine (for use with an external diff program).
    ///
    /// The string is appended to `-d` verbatim. For example,
    /// `DiffOptionsBuilder::raw("-C 25")` produces `-d-C 25`.
    pub fn raw(s: &str) -> (r: Self)
        ensures
            r@ == DiffOptionsView::Raw(s@),
    {
        DiffOptionsBuilder { mode: DiffOptionsRawMode { raw: s.to_owned() } }
    }
}

impl From<DiffOptionsBuilder<DiffOptionsTypedMode>> for DiffOptions {
    fn from(builder: DiffOptionsBuilder<DiffOptionsTypedMode>) -> (r: Self)
        ensures
            r@ == builder@,
    {
        DiffOptions::Typed { format: builder.mode.format, whitespace: builder.mode.whitespace }
    }
}

impl vstd::std_specs::convert::FromSpecImpl<DiffOptionsBuilder<DiffOptionsTypedMode>> for DiffOptions {
    open spec fn obeys_from_spec() -> bool {
        true
    }

    closed spec fn from_spec(v: DiffOptionsBuilder<DiffOptionsTypedMode>) -> Self {
        DiffOptions::Typed { format: v.mode.format, whitespace: v.mode.whitespace }
    }
}

impl From<DiffOptionsBuilder<DiffOptionsRawMode>> for DiffOptions {
    fn from(builder: DiffOptionsBuilder<DiffOptionsRawMode>) -> (r: Self)
        ensures
            r@ == builder@,
    {
        DiffOptions::Raw(builder.mode.raw)
    }
}

impl vstd::std_specs::convert::FromSpecImpl<DiffOptionsBuilder<DiffOptionsRawMode>> for DiffOptions {
    open spec fn obeys_from_spec() -> bool {
        true
    }

    closed spec fn from_spec(v: DiffOptionsBuilder<DiffOptionsRawMode>) -> Self {
        DiffOptions::Raw(v.mode.raw)
    }
}

/// The default "no option selected" variant, shared by every
/// [`ExclusiveOption`] group.
///
/// Its [`ExclusiveOption::inject_args`] adds nothing, so any mutually
/// exclusive option group can use it as its default type parameter instead
/// of defining its own empty variant.
#[derive(Debug, Clone, Copy, Default, PartialEq, Eq, Structural)]
pub struct Unselected;

/// A mutually exclusive option group.
///
/// Some Perforce commands accept a set of options where only one may be
/// selected at a time (for example `p4 admin checkpoint [-z | -Z]` or
/// `p4 admin updatespecdepot [-a | -s type]`). Each variant of such a group
/// implements this trait to inject its own CLI arguments; the selected
/// variant is encoded in a type parameter so that the alternatives are
/// unavailable at compile time.
///
/// Variants may carry their own data (for example the `type` argument of
/// `-s type`) and inject any number of arguments.
pub trait ExclusiveOption {
    /// The arguments that this selection contributes.
    spec fn spec_args(&self) -> Seq<Seq<char>>;

    /// Appends the CLI arguments corresponding to this selection to `args`.
    fn inject_args(&self, args: &mut Vec<String>)
        ensures
            final(args).deep_view() == old(args).deep_view() + self.spec_args(),
    ;
}

impl ExclusiveOption for Unselected {
    open spec fn spec_args(&self) -> Seq<Seq<char>> {
        seq![]
    }

    fn inject_args(&self, args: &mut Vec<String>) {
        assert(args.deep_view() =~= old(args).deep_view() + Seq::<Seq<char>>::empty());
    }
}

/// The arguments of optional global options.
pub open spec fn opt_global_args(g: Option<GlobalOptsView>) -> Seq<Seq<char>> {
    match g {
        Some(opts) => global_args(opts),
        None => seq![],
    }
}

/// The whole argument list of a command: its global options, its name, then
/// its own options.
pub open spec fn command_args<C: SubCommand + ?Sized>(c: &C) -> Seq<Seq<char>> {
    opt_global_args(c.spec_global_opts()) + seq![c.spec_name()] + c.spec_local_args()
}

/// A `p4` command (or an `admin` subcommand) that knows its name, its own
/// options and, for top-level commands, the global options that precede it.
pub trait SubCommand {
    /// The name of the command.
    spec fn spec_name(&self) -> Seq<char>;

    /// The arguments of the command's own options, in order.
    spec fn spec_local_args(&self) -> Seq<Seq<char>>;

    /// The global options that precede the command, if it carries any.
    spec fn spec_global_opts(&self) -> Option<GlobalOptsView>;

    /// The name of the command, as it appears on the command line.
    fn name(&self) -> (r: &str)
        ensures
            r@ == self.spec_name(),
    ;

    /// Appends the command's own options to `args`.
    fn inject_local_args(&self, args: &mut Vec<String>)
        ensures
            final(args).deep_view() == old(args).deep_view() + self.spec_local_args(),
    ;

    /// The global options of the command, if it carries any.
    fn global_opts(&self) -> (r: Option<&GlobalOpts>)
        ensures
            match r {
                Some(g) => self.spec_global_opts() == Some(g@),
                None => self.spec_global_opts() is None,
            },
    ;

    /// Appends the global options, the command name and the command's own
    /// options to `args`.
    fn inject_args(&self, args: &mut Vec<String>)
        ensures
            final(args).deep_view() == old(args).deep_view() + (opt_global_args(
                self.spec_global_opts(),
            ) + seq![self.spec_name()] + self.spec_local_args()),
    {
        let ghost start = args.deep_view();
        if let Some(global_opts) = self.global_opts() {
            global_opts.setup_args(args);
        } else {
            assert(args.deep_view() =~= start + opt_global_args(self.spec_global_opts()));
        }
        let name = self.name();
        push_arg(args, name);
        proof {
            lemma_concat_associative(
                start,
                opt_global_args(self.spec_global_opts()),
                seq![self.spec_name()],
            );
        }
        self.inject_local_args(args);
        proof {
            lemma_concat_associative(
                start,
                opt_global_args(self.spec_global_opts()) + seq![self.spec_name()],
                self.spec_local_args(),
            );
        }
    }

    /// The command line that runs `bin` with this command's arguments.
    fn setup_command(&self, bin: &str) -> (c: CommandLine)
        ensures
            c@.program == bin@,
            c@.args == opt_global_args(self.spec_global_opts()) + seq![self.spec_name()]
                + self.spec_local_args(),
    {
        let mut args: Vec<String> = Vec::new();
        self.inject_args(&mut args);
        assert(args.deep_view() =~= opt_global_args(self.spec_global_opts()) + seq![
            self.spec_name(),
        ] + self.spec_local_args());
        CommandLine::with_args(bin, args)
    }
}

} // verus!
