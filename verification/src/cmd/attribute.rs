//! `p4 attribute`: set per-revision attributes on file revisions.
use vstd::prelude::*;

pub mod storage;

use crate::argv::{
    flag_args,
    lemma_args_concat_assoc,
    opt_str_view,
    push_arg,
    push_flag,
    push_pair,
    push_value,
    value_args,
};
use self::storage::{DatabaseTraits, TraitDepot};
use crate::cmd::{command_args, ExclusiveOption, SubCommand, Unselected};
use crate::command::CommandLine;
use crate::global::{GlobalOpts, GlobalOptsView};

verus! {

broadcast use lemma_args_concat_assoc;

/// The view of one `-n name [-v value]` pair.
pub open spec fn pair_view(p: (String, Option<String>)) -> (Seq<char>, Option<Seq<char>>) {
    (p.0@, opt_str_view(p.1))
}

/// The view of the optional list of name/value pairs.
pub open spec fn opt_pairs_view(v: Option<Vec<(String, Option<String>)>>) -> Option<
    Seq<(Seq<char>, Option<Seq<char>>)>,
> {
    match v {
        Some(ps) => Some(ps@.map_values(|p: (String, Option<String>)| pair_view(p))),
        None => None,
    }
}

/// `-n name`, followed by `-v value` when a value is set (a missing value
/// clears the attribute).
pub open spec fn pair_args(p: (Seq<char>, Option<Seq<char>>)) -> Seq<Seq<char>> {
    seq!["-n"@, p.0] + value_args("-v"@, p.1)
}

/// The arguments of each name/value pair, in order.
pub open spec fn pairs_args(ps: Seq<(Seq<char>, Option<Seq<char>>)>) -> Seq<Seq<char>>
    decreases ps.len(),
{
    if ps.len() == 0 {
        seq![]
    } else {
        pairs_args(ps.drop_last()) + pair_args(ps.last())
    }
}

/// The arguments of the optional list of name/value pairs.
pub open spec fn opt_pairs_args(ps: Option<Seq<(Seq<char>, Option<Seq<char>>)>>) -> Seq<Seq<char>> {
    match ps {
        Some(v) => pairs_args(v),
        None => seq![],
    }
}

/// The list with the pair appended; a missing list counts as empty.
pub open spec fn opt_pairs_push(
    ps: Option<Seq<(Seq<char>, Option<Seq<char>>)>>,
    p: (Seq<char>, Option<Seq<char>>),
) -> Option<Seq<(Seq<char>, Option<Seq<char>>)>> {
    match ps {
        Some(v) => Some(v.push(p)),
        None => Some(seq![p]),
    }
}

fn push_pairs(args: &mut Vec<String>, pairs: &Option<Vec<(String, Option<String>)>>)
    ensures
        final(args).deep_view() == old(args).deep_view() + opt_pairs_args(opt_pairs_view(*pairs)),
{
    match pairs {
        Some(ps) => {
            let ghost views = ps@.map_values(|p: (String, Option<String>)| pair_view(p));
            let mut i: usize = 0;
            while i < ps.len()
                invariant
                    i <= ps.len(),
                    views == ps@.map_values(|p: (String, Option<String>)| pair_view(p)),
                    args.deep_view() == old(args).deep_view() + pairs_args(views.take(i as int)),
                decreases ps.len() - i,
            {
                let ghost before = args.deep_view();
                assert(views[i as int] == pair_view(ps[i as int]));
                let (name, value) = &ps[i];
                push_pair(args, "-n", name);
                push_value(args, "-v", value);
                assert(args.deep_view() =~= before + pair_args(views[i as int]));
                assert(views.take(i + 1).drop_last() =~= views.take(i as int));
                i = i + 1;
            }
            assert(views.take(ps.len() as int) =~= views);
        },
        None => {
            assert(args.deep_view() =~= old(args).deep_view() + Seq::<Seq<char>>::empty());
        },
    }
}

fn pairs_push(pairs: &mut Option<Vec<(String, Option<String>)>>, p: (String, Option<String>))
    ensures
        opt_pairs_view(*final(pairs)) == opt_pairs_push(opt_pairs_view(*old(pairs)), pair_view(p)),
{
    match pairs {
        Some(ps) => {
            ps.push(p);
            assert(ps@.map_values(|q: (String, Option<String>)| pair_view(q)) =~= old(
                pairs,
            )->0@.map_values(|q: (String, Option<String>)| pair_view(q)).push(pair_view(p)));
        },
        None => {
            let mut ps: Vec<(String, Option<String>)> = Vec::new();
            ps.push(p);
            assert(ps@.map_values(|q: (String, Option<String>)| pair_view(q)) =~= seq![pair_view(p)]);
            *pairs = Some(ps);
        },
    }
}

/// The default source: attributes set (`-n name -v value`) or cleared
/// (`-n name`) on the command line, optionally hex-encoded (`-e`).
#[derive(Debug, Clone)]
pub struct Standard {
    values: Option<Vec<(String, Option<String>)>>,
    hex: bool,
}

/// The mathematical view of [`Standard`].
pub struct StandardView {
    pub values: Option<Seq<(Seq<char>, Option<Seq<char>>)>>,
    pub hex: bool,
}

impl View for Standard {
    type V = StandardView;

    closed spec fn view(&self) -> StandardView {
        StandardView { values: opt_pairs_view(self.values), hex: self.hex }
    }
}

impl ExclusiveOption for Standard {
    open spec fn spec_args(&self) -> Seq<Seq<char>> {
        flag_args(self@.hex, "-e"@) + opt_pairs_args(self@.values)
    }

    fn inject_args(&self, args: &mut Vec<String>) {
        push_flag(args, self.hex, "-e");
        push_pairs(args, &self.values);
    }
}

/// `-i -n name`: the value of the attribute named `name` is read from standard
/// input, optionally hex-encoded (`-e`).
#[derive(Debug, Clone)]
pub struct FromStdin {
    hex: bool,
    name: String,
}

/// The mathematical view of [`FromStdin`].
pub struct FromStdinView {
    pub hex: bool,
    pub name: Seq<char>,
}

impl View for FromStdin {
    type V = FromStdinView;

    closed spec fn view(&self) -> FromStdinView {
        FromStdinView { hex: self.hex, name: self.name@ }
    }
}

impl ExclusiveOption for FromStdin {
    open spec fn spec_args(&self) -> Seq<Seq<char>> {
        flag_args(self@.hex, "-e"@) + seq!["-i"@, "-n"@, self@.name]
    }

    fn inject_args(&self, args: &mut Vec<String>) {
        push_flag(args, self.hex, "-e");
        push_arg(args, "-i");
        push_pair(args, "-n", &self.name);
    }
}

/// `-I file -n name`: the value of the attribute named `name` is read from
/// `file`.
#[derive(Debug, Clone)]
pub struct FromFile {
    name: String,
    file: String,
}

/// The mathematical view of [`FromFile`].
pub struct FromFileView {
    pub name: Seq<char>,
    pub file: Seq<char>,
}

impl View for FromFile {
    type V = FromFileView;

    closed spec fn view(&self) -> FromFileView {
        FromFileView { name: self.name@, file: self.file@ }
    }
}

impl ExclusiveOption for FromFile {
    open spec fn spec_args(&self) -> Seq<Seq<char>> {
        seq!["-I"@, self@.file, "-n"@, self@.name]
    }

    fn inject_args(&self, args: &mut Vec<String>) {
        push_pair(args, "-I", &self.file);
        push_pair(args, "-n", &self.name);
    }
}

/// `p4 [g-opts] attribute [-e -f -p -T0|-T1] -n name [-v value] files...`
/// `p4 [g-opts] attribute [-e -f -p -T0|-T1] -i -n name file`
/// `p4 [g-opts] attribute [-f -p -T0|-T1] -I file -n name file`
///
/// Set per-revision attributes on file revisions.
///
/// The source of the values (the command line, standard input or a file) and
/// the storage location (`-T0` / `-T1`) are selected through the type
/// parameters.
#[derive(Debug)]
pub struct Attribute<S = Standard, T = Unselected> {
    bin: String,
    global_opts: GlobalOpts,
    source: S,
    storage: T,
    on_submitted_files: bool,
    propagating: bool,
}

/// The mathematical view of [`Attribute`].
pub struct AttributeView<S, T> {
    pub bin: Seq<char>,
    pub global_opts: GlobalOptsView,
    pub source: S,
    pub storage: T,
    pub on_submitted_files: bool,
    pub propagating: bool,
}

impl<S, T> View for Attribute<S, T> {
    type V = AttributeView<S, T>;

    closed spec fn view(&self) -> AttributeView<S, T> {
        AttributeView {
            bin: self.bin@,
            global_opts: self.global_opts@,
            source: self.source,
            storage: self.storage,
            on_submitted_files: self.on_submitted_files,
            propagating: self.propagating,
        }
    }
}

impl<S: ExclusiveOption, T: ExclusiveOption> SubCommand for Attribute<S, T> {
    open spec fn spec_name(&self) -> Seq<char> {
        "attribute"@
    }

    open spec fn spec_local_args(&self) -> Seq<Seq<char>> {
        flag_args(self@.on_submitted_files, "-f"@)
        + flag_args(self@.propagating, "-p"@)
        + self@.storage.spec_args()
        + self@.source.spec_args()
    }

    open spec fn spec_global_opts(&self) -> Option<GlobalOptsView> {
        Some(self@.global_opts)
    }

    fn name(&self) -> (r: &str) {
        "attribute"
    }

    fn inject_local_args(&self, args: &mut Vec<String>) {
        push_flag(args, self.on_submitted_files, "-f");
        push_flag(args, self.propagating, "-p");
        self.storage.inject_args(args);
        self.source.inject_args(args);
    }

    fn global_opts(&self) -> (r: Option<&GlobalOpts>) {
        Some(&self.global_opts)
    }
}

impl Attribute<Standard, Unselected> {
    /// Set per-revision attributes on file revisions.
    ///
    /// `bin` is the path to the Perforce command-line executable.
    pub fn new(bin: &str, global_opts: GlobalOpts) -> (r: Self)
        ensures
            r@.bin == bin@,
            r@.global_opts == global_opts@,
            r@.source@.values is None,
            r@.source@.hex == false,
            r@.storage == Unselected,
            r@.on_submitted_files == false,
            r@.propagating == false,
    {
        Attribute {
            bin: bin.to_owned(),
            global_opts: global_opts,
            source: Standard { values: None, hex: false },
            storage: Unselected,
            on_submitted_files: false,
            propagating: false,
        }
    }
}

impl<T: ExclusiveOption> Attribute<Standard, T> {
    /// `-n name -v value`: sets the attribute `name` to `value`; each call adds a
    /// pair.
    pub fn set(&mut self, name: &str, value: &str) -> (r: &mut Self)
        ensures
            r@.bin == old(self)@.bin,
            r@.global_opts == old(self)@.global_opts,
            r@.storage == old(self)@.storage,
            r@.on_submitted_files == old(self)@.on_submitted_files,
            r@.propagating == old(self)@.propagating,
            r@.source@.values == opt_pairs_push(old(self)@.source@.values, (name@, Some(value@))),
            r@.source@.hex == old(self)@.source@.hex,
            *final(self) == *final(r),
    {
        pairs_push(&mut self.source.values, (name.to_owned(), Some(value.to_owned())));
        self
    }

    /// `-n name`: clears the attribute `name`; each call adds a pair.
    pub fn clear(&mut self, name: &str) -> (r: &mut Self)
        ensures
            r@.bin == old(self)@.bin,
            r@.global_opts == old(self)@.global_opts,
            r@.storage == old(self)@.storage,
            r@.on_submitted_files == old(self)@.on_submitted_files,
            r@.propagating == old(self)@.propagating,
            r@.source@.values == opt_pairs_push(old(self)@.source@.values, (name@, None)),
            r@.source@.hex == old(self)@.source@.hex,
            *final(self) == *final(r),
    {
        pairs_push(&mut self.source.values, (name.to_owned(), None));
        self
    }

    /// `-e`: the values are given in hex.
    pub fn get_hex(&self) -> (r: bool)
        ensures
            r == self@.source@.hex,
    {
        self.source.hex
    }

    /// `-e`: the values are given in hex.
    pub fn set_hex(&mut self, v: bool) -> (r: &mut Self)
        ensures
            r@.bin == old(self)@.bin,
            r@.global_opts == old(self)@.global_opts,
            r@.storage == old(self)@.storage,
            r@.on_submitted_files == old(self)@.on_submitted_files,
            r@.propagating == old(self)@.propagating,
            r@.source@ == (StandardView { hex: v, ..old(self)@.source@ }),
            *final(self) == *final(r),
    {
        self.source.hex = v;
        self
    }

    /// `-e`: the values are given in hex.
    pub fn hex(self, v: bool) -> (r: Self)
        ensures
            r@.bin == self@.bin,
            r@.global_opts == self@.global_opts,
            r@.storage == self@.storage,
            r@.on_submitted_files == self@.on_submitted_files,
            r@.propagating == self@.propagating,
            r@.source@ == (StandardView { hex: v, ..self@.source@ }),
    {
        let mut s = self;
        s.source.hex = v;
        s
    }

    /// `-i -n name`: reads the value of the attribute `name` from standard input;
    /// the name/value pairs set so far no longer apply, the hex setting stays.
    pub fn read_from_stdin(self, name: String) -> (r: Attribute<FromStdin, T>)
        ensures
            r@.bin == self@.bin,
            r@.global_opts == self@.global_opts,
            r@.storage == self@.storage,
            r@.on_submitted_files == self@.on_submitted_files,
            r@.propagating == self@.propagating,
            r@.source@.hex == self@.source@.hex,
            r@.source@.name == name@,
    {
        Attribute {
            source: FromStdin { hex: self.source.hex, name },
            bin: self.bin,
            global_opts: self.global_opts,
            storage: self.storage,
            on_submitted_files: self.on_submitted_files,
            propagating: self.propagating,
        }
    }

    /// `-I file -n name`: reads the value of the attribute `name` from `file`;
    /// the name/value pairs set so far no longer apply.
    pub fn read_from_file(self, name: String, file: &str) -> (r: Attribute<FromFile, T>)
        ensures
            r@.bin == self@.bin,
            r@.global_opts == self@.global_opts,
            r@.storage == self@.storage,
            r@.on_submitted_files == self@.on_submitted_files,
            r@.propagating == self@.propagating,
            r@.source@.name == name@,
            r@.source@.file == file@,
    {
        Attribute {
            source: FromFile { name, file: file.to_owned() },
            bin: self.bin,
            global_opts: self.global_opts,
            storage: self.storage,
            on_submitted_files: self.on_submitted_files,
            propagating: self.propagating,
        }
    }
}

impl<T: ExclusiveOption> Attribute<FromStdin, T> {
    /// `-e`: the values are given in hex.
    pub fn get_hex(&self) -> (r: bool)
        ensures
            r == self@.source@.hex,
    {
        self.source.hex
    }

    /// `-e`: the values are given in hex.
    pub fn set_hex(&mut self, v: bool) -> (r: &mut Self)
        ensures
            r@.bin == old(self)@.bin,
            r@.global_opts == old(self)@.global_opts,
            r@.storage == old(self)@.storage,
            r@.on_submitted_files == old(self)@.on_submitted_files,
            r@.propagating == old(self)@.propagating,
            r@.source@ == (FromStdinView { hex: v, ..old(self)@.source@ }),
            *final(self) == *final(r),
    {
        self.source.hex = v;
        self
    }

    /// `-e`: the values are given in hex.
    pub fn hex(self, v: bool) -> (r: Self)
        ensures
            r@.bin == self@.bin,
            r@.global_opts == self@.global_opts,
            r@.storage == self@.storage,
            r@.on_submitted_files == self@.on_submitted_files,
            r@.propagating == self@.propagating,
            r@.source@ == (FromStdinView { hex: v, ..self@.source@ }),
    {
        let mut s = self;
        s.source.hex = v;
        s
    }

    /// `-n name`: the name of the attribute.
    pub fn get_name(&self) -> (r: &str)
        ensures
            r@ == self@.source@.name,
    {
        self.source.name.as_str()
    }

    /// `-n name`: the name of the attribute.
    pub fn set_name(&mut self, v: &str) -> (r: &mut Self)
        ensures
            r@.bin == old(self)@.bin,
            r@.global_opts == old(self)@.global_opts,
            r@.storage == old(self)@.storage,
            r@.on_submitted_files == old(self)@.on_submitted_files,
            r@.propagating == old(self)@.propagating,
            r@.source@ == (FromStdinView { name: v@, ..old(self)@.source@ }),
            *final(self) == *final(r),
    {
        self.source.name = v.to_owned();
        self
    }

    /// `-n name`: the name of the attribute.
    pub fn name(self, v: &str) -> (r: Self)
        ensures
            r@.bin == self@.bin,
            r@.global_opts == self@.global_opts,
            r@.storage == self@.storage,
            r@.on_submitted_files == self@.on_submitted_files,
            r@.propagating == self@.propagating,
            r@.source@ == (FromStdinView { name: v@, ..self@.source@ }),
    {
        let mut s = self;
        s.source.name = v.to_owned();
        s
    }
}

impl<T: ExclusiveOption> Attribute<FromFile, T> {
    /// `-n name`: the name of the attribute.
    pub fn get_name(&self) -> (r: &str)
        ensures
            r@ == self@.source@.name,
    {
        self.source.name.as_str()
    }

    /// `-n name`: the name of the attribute.
    pub fn set_name(&mut self, v: &str) -> (r: &mut Self)
        ensures
            r@.bin == old(self)@.bin,
            r@.global_opts == old(self)@.global_opts,
            r@.storage == old(self)@.storage,
            r@.on_submitted_files == old(self)@.on_submitted_files,
            r@.propagating == old(self)@.propagating,
            r@.source@ == (FromFileView { name: v@, ..old(self)@.source@ }),
            *final(self) == *final(r),
    {
        self.source.name = v.to_owned();
        self
    }

    /// `-n name`: the name of the attribute.
    pub fn name(self, v: &str) -> (r: Self)
        ensures
            r@.bin == self@.bin,
            r@.global_opts == self@.global_opts,
            r@.storage == self@.storage,
            r@.on_submitted_files == self@.on_submitted_files,
            r@.propagating == self@.propagating,
            r@.source@ == (FromFileView { name: v@, ..self@.source@ }),
    {
        let mut s = self;
        s.source.name = v.to_owned();
        s
    }

    /// `-I file`: the file from which the value is read.
    pub fn get_file(&self) -> (r: &str)
        ensures
            r@ == self@.source@.file,
    {
        self.source.file.as_str()
    }
}

impl<S: ExclusiveOption, T: ExclusiveOption> Attribute<S, T> {
    /// The command line that runs this command with the stored `p4` executable;
    /// operands (files, changelists, ...) follow it.
    pub fn command_line(&self) -> (c: CommandLine)
        ensures
            c@.program == self@.bin,
            c@.args == command_args(self),
    {
        self.setup_command(self.bin.as_str())
    }

    /// g-opts: the global options that precede the command; see [`GlobalOpts`].
    pub fn get_global_opts(&self) -> (r: &GlobalOpts)
        ensures
            r@ == self@.global_opts,
    {
        &self.global_opts
    }

    /// g-opts: the global options that precede the command; see [`GlobalOpts`].
    pub fn set_global_opts(&mut self, v: GlobalOpts) -> (r: &mut Self)
        ensures
            r@ == (AttributeView { global_opts: v@, ..old(self)@ }),
            *final(self) == *final(r),
    {
        self.global_opts = v;
        self
    }

    /// g-opts: the global options that precede the command; see [`GlobalOpts`].
    pub fn global_opts(self, v: GlobalOpts) -> (r: Self)
        ensures
            r@ == (AttributeView { global_opts: v@, ..self@ }),
    {
        let mut s = self;
        s.global_opts = v;
        s
    }

    /// `-f`: sets the attributes on submitted files rather than on opened files.
    pub fn get_on_submitted_files(&self) -> (r: bool)
        ensures
            r == self@.on_submitted_files,
    {
        self.on_submitted_files
    }

    /// `-f`: sets the attributes on submitted files rather than on opened files.
    pub fn set_on_submitted_files(&mut self, v: bool) -> (r: &mut Self)
        ensures
            r@ == (AttributeView { on_submitted_files: v, ..old(self)@ }),
            *final(self) == *final(r),
    {
        self.on_submitted_files = v;
        self
    }

    /// `-f`: sets the attributes on submitted files rather than on opened files.
    pub fn on_submitted_files(self, v: bool) -> (r: Self)
        ensures
            r@ == (AttributeView { on_submitted_files: v, ..self@ }),
    {
        let mut s = self;
        s.on_submitted_files = v;
        s
    }

    /// `-p`: creates attributes whose values are propagated when the files are
    /// opened with `p4 add`, `p4 edit`, or `p4 delete`.
    pub fn get_propagating(&self) -> (r: bool)
        ensures
            r == self@.propagating,
    {
        self.propagating
    }

    /// `-p`: creates attributes whose values are propagated when the files are
    /// opened with `p4 add`, `p4 edit`, or `p4 delete`.
    pub fn set_propagating(&mut self, v: bool) -> (r: &mut Self)
        ensures
            r@ == (AttributeView { propagating: v, ..old(self)@ }),
            *final(self) == *final(r),
    {
        self.propagating = v;
        self
    }

    /// `-p`: creates attributes whose values are propagated when the files are
    /// opened with `p4 add`, `p4 edit`, or `p4 delete`.
    pub fn propagating(self, v: bool) -> (r: Self)
        ensures
            r@ == (AttributeView { propagating: v, ..self@ }),
    {
        let mut s = self;
        s.propagating = v;
        s
    }

    /// `-T0`: stores the attribute in the database; excludes `-T1`.
    pub fn store_in_database_traits(self) -> (r: Attribute<S, DatabaseTraits>)
        ensures
            r@.bin == self@.bin,
            r@.global_opts == self@.global_opts,
            r@.source == self@.source,
            r@.storage == DatabaseTraits,
            r@.on_submitted_files == self@.on_submitted_files,
            r@.propagating == self@.propagating,
    {
        Attribute {
            bin: self.bin,
            global_opts: self.global_opts,
            source: self.source,
            storage: DatabaseTraits,
            on_submitted_files: self.on_submitted_files,
            propagating: self.propagating,
        }
    }

    /// `-T1`: stores the attribute in the trait depot; excludes `-T0`.
    pub fn store_in_trait_depot(self) -> (r: Attribute<S, TraitDepot>)
        ensures
            r@.bin == self@.bin,
            r@.global_opts == self@.global_opts,
            r@.source == self@.source,
            r@.storage == TraitDepot,
            r@.on_submitted_files == self@.on_submitted_files,
            r@.propagating == self@.propagating,
    {
        Attribute {
            bin: self.bin,
            global_opts: self.global_opts,
            source: self.source,
            storage: TraitDepot,
            on_submitted_files: self.on_submitted_files,
            propagating: self.propagating,
        }
    }
}

} // verus!
