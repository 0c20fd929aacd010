//! Building blocks for command-line argument lists.
//!
//! Every `p4` invocation is modelled as a sequence of arguments; in
//! specifications an argument is a `Seq<char>` and an argument list a
//! `Seq<Seq<char>>`. The spec functions here describe the pieces that options
//! contribute, and the executable helpers append exactly those pieces.
use vstd::prelude::*;

verus! {

/// The character that spells the decimal digit `d` (`d < 10`).
pub open spec fn digit_char(d: nat) -> char {
    if d == 0 {
        '0'
    } else if d == 1 {
        '1'
    } else if d == 2 {
        '2'
    } else if d == 3 {
        '3'
    } else if d == 4 {
        '4'
    } else if d == 5 {
        '5'
    } else if d == 6 {
        '6'
    } else if d == 7 {
        '7'
    } else if d == 8 {
        '8'
    } else {
        '9'
    }
}

/// The numeric value of a decimal digit character (`'0'..='9'`).
pub open spec fn digit_value(c: char) -> nat {
    if c == '0' {
        0
    } else if c == '1' {
        1
    } else if c == '2' {
        2
    } else if c == '3' {
        3
    } else if c == '4' {
        4
    } else if c == '5' {
        5
    } else if c == '6' {
        6
    } else if c == '7' {
        7
    } else if c == '8' {
        8
    } else {
        9
    }
}

/// Whether `c` is one of the ASCII digits `'0'..='9'`.
pub open spec fn is_digit(c: char) -> bool {
    '0' <= c && c <= '9'
}

/// The shortest decimal spelling of `n`, as `u64::to_string` writes it.
pub open spec fn decimal(n: nat) -> Seq<char>
    decreases n,
{
    if n < 10 {
        seq![digit_char(n)]
    } else {
        decimal(n / 10).push(digit_char(n % 10))
    }
}

/// The number that a string of decimal digits denotes.
pub open spec fn decimal_value(s: Seq<char>) -> nat
    decreases s.len(),
{
    if s.len() == 0 {
        0
    } else {
        decimal_value(s.drop_last()) * 10 + digit_value(s.last())
    }
}

/// `digit_char` and `digit_value` are inverse on the digits.
pub proof fn lemma_digit_round_trip(d: nat)
    requires
        d < 10,
    ensures
        digit_value(digit_char(d)) == d,
        is_digit(digit_char(d)),
        d > 0 ==> digit_char(d) != '0',
{
}

/// `decimal(n)` is a non-empty string of digits without a superfluous
/// leading zero, and it reads back as `n`.
pub proof fn lemma_decimal_round_trip(n: nat)
    ensures
        decimal(n).len() > 0,
        decimal(n).len() == 1 <==> n < 10,
        forall|i: int| 0 <= i < decimal(n).len() ==> is_digit(#[trigger] decimal(n)[i]),
        n > 0 ==> decimal(n)[0] != '0',
        decimal_value(decimal(n)) == n,
    decreases n,
{
    if n < 10 {
        lemma_digit_round_trip(n);
        assert(decimal(n).drop_last() =~= Seq::<char>::empty());
        assert(decimal_value(Seq::<char>::empty()) == 0);
        assert(decimal_value(decimal(n)) == decimal_value(Seq::<char>::empty()) * 10 + digit_value(
            digit_char(n),
        ));
    } else {
        lemma_decimal_round_trip(n / 10);
        lemma_digit_round_trip(n % 10);
        let s = decimal(n / 10);
        assert(decimal(n).drop_last() =~= s);
        assert forall|i: int| 0 <= i < decimal(n).len() implies is_digit(#[trigger] decimal(n)[i]) by {
            if i < s.len() {
                assert(decimal(n)[i] == s[i]);
            }
        }
        assert(decimal(n)[0] == s[0]);
        assert(decimal(n).last() == digit_char(n % 10));
        assert(decimal_value(decimal(n)) == decimal_value(s) * 10 + digit_value(digit_char(n % 10)));
        assert(n == (n / 10) * 10 + n % 10);
    }
}

/// Appending argument lists is associative; as an ambient fact this lets
/// the argument list that a sequence of appends builds be compared with the
/// sum of its pieces.
pub broadcast proof fn lemma_args_concat_assoc(
    a: Seq<Seq<char>>,
    b: Seq<Seq<char>>,
    c: Seq<Seq<char>>,
)
    ensures
        #[trigger] (a + (b + c)) == (a + b) + c,
{
    assert(a + (b + c) =~= (a + b) + c);
}

/// The arguments of a switch: the flag alone when it is on, nothing otherwise.
pub open spec fn flag_args(on: bool, flag: Seq<char>) -> Seq<Seq<char>> {
    if on {
        seq![flag]
    } else {
        seq![]
    }
}

/// The arguments of an option that takes a value: the flag followed by the
/// value when it is set, nothing otherwise.
pub open spec fn value_args(flag: Seq<char>, value: Option<Seq<char>>) -> Seq<Seq<char>> {
    match value {
        Some(v) => seq![flag, v],
        None => seq![],
    }
}

/// The arguments of a numeric option: the flag followed by the number in
/// decimal when it is set, nothing otherwise.
pub open spec fn number_args(flag: Seq<char>, value: Option<u64>) -> Seq<Seq<char>> {
    match value {
        Some(n) => seq![flag, decimal(n as nat)],
        None => seq![],
    }
}

/// The single argument `prefix` + `value` when the value is set (as in
/// `--remote=origin`), nothing otherwise.
pub open spec fn joined_args(prefix: Seq<char>, value: Option<Seq<char>>) -> Seq<Seq<char>> {
    match value {
        Some(v) => seq![prefix + v],
        None => seq![],
    }
}

/// The arguments `flag v` for every value `v` of the list, in order.
pub open spec fn repeated_args(flag: Seq<char>, values: Seq<Seq<char>>) -> Seq<Seq<char>>
    decreases values.len(),
{
    if values.len() == 0 {
        seq![]
    } else {
        repeated_args(flag, values.drop_last()) + seq![flag, values.last()]
    }
}

/// The arguments `flag v` for every value `v` of the list when there is a
/// list, nothing otherwise.
pub open spec fn opt_repeated_args(flag: Seq<char>, values: Option<Seq<Seq<char>>>) -> Seq<Seq<char>> {
    match values {
        Some(vs) => repeated_args(flag, vs),
        None => seq![],
    }
}

/// The view of an optional list of strings.
pub open spec fn opt_strings_view(v: Option<Vec<String>>) -> Option<Seq<Seq<char>>> {
    match v {
        Some(vs) => Some(vs.deep_view()),
        None => None,
    }
}

/// The view of an optional borrowed slice of strings.
pub open spec fn opt_slice_view(v: Option<&[String]>) -> Option<Seq<Seq<char>>> {
    match v {
        Some(vs) => Some(vs.deep_view()),
        None => None,
    }
}

/// The list with `value` appended; a missing list counts as empty.
pub open spec fn opt_push(values: Option<Seq<Seq<char>>>, value: Seq<char>) -> Option<Seq<Seq<char>>> {
    match values {
        Some(vs) => Some(vs.push(value)),
        None => Some(seq![value]),
    }
}

/// An optional borrowed value, dereferenced.
pub open spec fn opt_deref<T>(v: Option<&T>) -> Option<T> {
    match v {
        Some(x) => Some(*x),
        None => None,
    }
}

/// An optional borrowed copyable value, copied.
pub open spec fn opt_copied<T: Copy>(v: Option<&T>) -> Option<T> {
    match v {
        Some(x) => Some(*x),
        None => None,
    }
}

/// The view of an optional string.
pub open spec fn opt_str_view(v: Option<String>) -> Option<Seq<char>> {
    match v {
        Some(s) => Some(s@),
        None => None,
    }
}

/// The view of an optional borrowed string.
pub open spec fn opt_ref_view(v: Option<&String>) -> Option<Seq<char>> {
    match v {
        Some(s) => Some(s@),
        None => None,
    }
}

/// The view of an optional borrowed `str`.
pub open spec fn opt_str_ref_view(v: Option<&str>) -> Option<Seq<char>> {
    match v {
        Some(s) => Some(s@),
        None => None,
    }
}

/// An optional `u32` widened to `u64`.
pub open spec fn widen(v: Option<u32>) -> Option<u64> {
    match v {
        Some(n) => Some(n as u64),
        None => None,
    }
}

/// The one-character string that spells the digit `d`.
fn digit_str(d: u64) -> (s: &'static str)
    requires
        d < 10,
    ensures
        s@ == seq![digit_char(d as nat)],
{
    proof {
        reveal_strlit("0");
        reveal_strlit("1");
        reveal_strlit("2");
        reveal_strlit("3");
        reveal_strlit("4");
        reveal_strlit("5");
        reveal_strlit("6");
        reveal_strlit("7");
        reveal_strlit("8");
        reveal_strlit("9");
    }
    if d == 0 {
        "0"
    } else if d == 1 {
        "1"
    } else if d == 2 {
        "2"
    } else if d == 3 {
        "3"
    } else if d == 4 {
        "4"
    } else if d == 5 {
        "5"
    } else if d == 6 {
        "6"
    } else if d == 7 {
        "7"
    } else if d == 8 {
        "8"
    } else {
        "9"
    }
}

/// Renders `n` in decimal, as `n.to_string()` does.
pub fn decimal_string(n: u64) -> (s: String)
    ensures
        s@ == decimal(n as nat),
    decreases n,
{
    if n < 10 {
        String::from_str(digit_str(n))
    } else {
        let mut s = decimal_string(n / 10);
        s.append(digit_str(n % 10));
        s
    }
}

/// Widens an optional `u32` to `u64`.
pub fn widen_u32(v: Option<u32>) -> (r: Option<u64>)
    ensures
        r == widen(v),
{
    match v {
        Some(n) => Some(n as u64),
        None => None,
    }
}

/// Appends `flag v` for every value `v` of the list, when there is a list.
pub fn push_repeated(args: &mut Vec<String>, flag: &str, values: &Option<Vec<String>>)
    ensures
        final(args).deep_view() == old(args).deep_view() + opt_repeated_args(
            flag@,
            opt_strings_view(*values),
        ),
{
    match values {
        Some(vs) => {
            let mut i: usize = 0;
            while i < vs.len()
                invariant
                    i <= vs.len(),
                    args.deep_view() =~= old(args).deep_view() + repeated_args(
                        flag@,
                        vs.deep_view().take(i as int),
                    ),
                decreases vs.len() - i,
            {
                let ghost before = args.deep_view();
                args.push(String::from_str(flag));
                args.push(vs[i].clone());
                assert(vs.deep_view().take(i + 1).drop_last() =~= vs.deep_view().take(i as int));
                assert(args.deep_view() =~= before + seq![flag@, vs.deep_view()[i as int]]);
                i = i + 1;
            }
            assert(vs.deep_view().take(vs.len() as int) =~= vs.deep_view());
        },
        None => {
            assert(args.deep_view() =~= old(args).deep_view() + Seq::<Seq<char>>::empty());
        },
    }
}

/// Appends `value` to the optional list, starting a list when there is none.
pub fn opt_vec_push(values: &mut Option<Vec<String>>, value: String)
    ensures
        opt_strings_view(*final(values)) == opt_push(opt_strings_view(*old(values)), value@),
{
    match values {
        Some(vs) => {
            vs.push(value);
            assert(vs.deep_view() =~= old(values)->0.deep_view().push(value@));
        },
        None => {
            let mut vs: Vec<String> = Vec::new();
            vs.push(value);
            assert(vs.deep_view() =~= seq![value@]);
            *values = Some(vs);
        },
    }
}

/// Copies an optional list of strings.
pub fn clone_opt_strings(v: &Option<Vec<String>>) -> (r: Option<Vec<String>>)
    ensures
        opt_strings_view(r) == opt_strings_view(*v),
{
    match v {
        Some(vs) => Some(clone_strings(vs)),
        None => None,
    }
}

/// Borrows the optional list as a slice.
pub fn opt_as_slice(v: &Option<Vec<String>>) -> (r: Option<&[String]>)
    ensures
        opt_slice_view(r) == opt_strings_view(*v),
{
    match v {
        Some(vs) => Some(vs.as_slice()),
        None => None,
    }
}

/// Appends `flag` when `on` holds.
pub fn push_flag(args: &mut Vec<String>, on: bool, flag: &str)
    ensures
        final(args).deep_view() == old(args).deep_view() + flag_args(on, flag@),
{
    if on {
        args.push(String::from_str(flag));
    }
    assert(args.deep_view() =~= old(args).deep_view() + flag_args(on, flag@));
}

/// Appends the single argument `arg`.
pub fn push_arg(args: &mut Vec<String>, arg: &str)
    ensures
        final(args).deep_view() == old(args).deep_view() + seq![arg@],
{
    args.push(String::from_str(arg));
    assert(args.deep_view() =~= old(args).deep_view() + seq![arg@]);
}

/// Appends `flag` followed by `value`.
pub fn push_pair(args: &mut Vec<String>, flag: &str, value: &String)
    ensures
        final(args).deep_view() == old(args).deep_view() + seq![flag@, value@],
{
    args.push(String::from_str(flag));
    args.push(value.clone());
    assert(args.deep_view() =~= old(args).deep_view() + seq![flag@, value@]);
}

/// Appends `flag` and the value when the value is set.
pub fn push_value(args: &mut Vec<String>, flag: &str, value: &Option<String>)
    ensures
        final(args).deep_view() == old(args).deep_view() + value_args(flag@, opt_str_view(*value)),
{
    match value {
        Some(v) => {
            args.push(String::from_str(flag));
            args.push(v.clone());
        },
        None => {},
    }
    assert(args.deep_view() =~= old(args).deep_view() + value_args(flag@, opt_str_view(*value)));
}

/// Appends `flag` and the number in decimal when the number is set.
pub fn push_number(args: &mut Vec<String>, flag: &str, value: Option<u64>)
    ensures
        final(args).deep_view() == old(args).deep_view() + number_args(flag@, value),
{
    match value {
        Some(n) => {
            args.push(String::from_str(flag));
            args.push(decimal_string(n));
        },
        None => {},
    }
    assert(args.deep_view() =~= old(args).deep_view() + number_args(flag@, value));
}

/// Appends the single argument `prefix` + value when the value is set.
pub fn push_joined(args: &mut Vec<String>, prefix: &str, value: &Option<String>)
    ensures
        final(args).deep_view() == old(args).deep_view() + joined_args(prefix@, opt_str_view(*value)),
{
    match value {
        Some(v) => {
            let joined = String::from_str(prefix).concat(v.as_str());
            args.push(joined);
        },
        None => {},
    }
    assert(args.deep_view() =~= old(args).deep_view() + joined_args(prefix@, opt_str_view(*value)));
}

/// Copies an optional string.
pub fn clone_opt_str(v: &Option<String>) -> (r: Option<String>)
    ensures
        opt_str_view(r) == opt_str_view(*v),
{
    match v {
        Some(s) => Some(s.clone()),
        None => None,
    }
}

/// Copies a list of strings.
pub fn clone_strings(v: &Vec<String>) -> (r: Vec<String>)
    ensures
        r.deep_view() == v.deep_view(),
{
    let mut r: Vec<String> = Vec::new();
    let mut i: usize = 0;
    while i < v.len()
        invariant
            i <= v.len(),
            r.deep_view() =~= v.deep_view().take(i as int),
        decreases v.len() - i,
    {
        r.push(v[i].clone());
        assert(v.deep_view().take(i + 1) =~= v.deep_view().take(i as int).push(v[i as int]@));
        i = i + 1;
    }
    assert(v.deep_view().take(v.len() as int) =~= v.deep_view());
    r
}

} // verus!
