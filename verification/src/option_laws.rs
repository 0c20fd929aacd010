//! What each option contributes on its own: the spelling of every keyword
//! value, the key of every `--parallel` setting, the independence of the
//! global options from one another, and the two orthogonal parts of `-d`.
use vstd::prelude::*;

use crate::argv::{
    decimal, flag_args, number_args, opt_push, opt_repeated_args, repeated_args, value_args, widen,
};
use crate::cmd::admin::SpecifiedType;
use crate::cmd::changes::Status;
use crate::cmd::print::{LineEnding, Utf8Bom};
use crate::cmd::sync::{parallel_args, setting_chars, ParallelConfig};
use crate::cmd::diff::DisplayOptions;
use crate::cmd::{diff_options_args, DiffFormat, DiffOptionsView, LongOutput, WhitespaceHandling};
use crate::global::{global_args, tagged_args, GlobalOptsView};

verus! {

/// `a` is `b` with `piece` inserted at position `i`.
pub open spec fn inserted_at(
    a: Seq<Seq<char>>,
    b: Seq<Seq<char>>,
    piece: Seq<Seq<char>>,
    i: int,
) -> bool {
    0 <= i <= b.len() && a == b.take(i) + piece + b.skip(i)
}

/// `a` is `b` with `piece` inserted somewhere.
#[verifier::opaque]
pub open spec fn inserts(a: Seq<Seq<char>>, b: Seq<Seq<char>>, piece: Seq<Seq<char>>) -> bool {
    exists|i: int| #[trigger] inserted_at(a, b, piece, i)
}

/// Appending the same piece after an insertion keeps the insertion.
proof fn lemma_insert_then_append(
    a: Seq<Seq<char>>,
    b: Seq<Seq<char>>,
    piece: Seq<Seq<char>>,
    i: int,
    p: Seq<Seq<char>>,
)
    requires
        inserted_at(a, b, piece, i),
    ensures
        inserted_at(a + p, b + p, piece, i),
{
    assert((b + p).take(i) =~= b.take(i));
    assert((b + p).skip(i) =~= b.skip(i) + p);
    assert(a + p =~= (b + p).take(i) + piece + (b + p).skip(i));
}

/// Replacing the last piece `q + piece` of a join by `q` removes exactly
/// `piece` from its end.
proof fn lemma_insert_last(
    a: Seq<Seq<char>>,
    p: Seq<Seq<char>>,
    q: Seq<Seq<char>>,
    piece: Seq<Seq<char>>,
)
    requires
        p == q + piece,
    ensures
        inserted_at(a + p, a + q, piece, (a + q).len() as int),
{
    let b = a + q;
    assert(b.take(b.len() as int) =~= b);
    assert(b.skip(b.len() as int) =~= Seq::<Seq<char>>::empty());
    assert(a + p =~= b + piece);
}

/// Slot 0 of the global arguments: replacing `q + piece` there by `q`
/// removes exactly `piece`.
proof fn lemma_global_slot_0(
    p: Seq<Seq<char>>,
    q: Seq<Seq<char>>,
    piece: Seq<Seq<char>>,
    r1: Seq<Seq<char>>,
    r2: Seq<Seq<char>>,
    r3: Seq<Seq<char>>,
    r4: Seq<Seq<char>>,
    r5: Seq<Seq<char>>,
    r6: Seq<Seq<char>>,
    r7: Seq<Seq<char>>,
    r8: Seq<Seq<char>>,
    r9: Seq<Seq<char>>,
    r10: Seq<Seq<char>>,
    r11: Seq<Seq<char>>,
    r12: Seq<Seq<char>>,
    r13: Seq<Seq<char>>,
    r14: Seq<Seq<char>>,
    r15: Seq<Seq<char>>,
    r16: Seq<Seq<char>>,
    r17: Seq<Seq<char>>,
    r18: Seq<Seq<char>>,
    r19: Seq<Seq<char>>,
    r20: Seq<Seq<char>>,
    r21: Seq<Seq<char>>,
    r22: Seq<Seq<char>>,
)
    requires
        p == q + piece,
    ensures
        inserts(
            p + r1 + r2 + r3 + r4 + r5 + r6 + r7 + r8 + r9 + r10 + r11 + r12 + r13
                + r14 + r15 + r16 + r17 + r18 + r19 + r20 + r21 + r22,
            q + r1 + r2 + r3 + r4 + r5 + r6 + r7 + r8 + r9 + r10 + r11 + r12 + r13
                + r14 + r15 + r16 + r17 + r18 + r19 + r20 + r21 + r22,
            piece,
        ),
{
    reveal(inserts);
    assert(Seq::<Seq<char>>::empty() + p =~= p);
    assert(Seq::<Seq<char>>::empty() + q =~= q);
    lemma_insert_last(Seq::<Seq<char>>::empty(), p, q, piece);
    let i = q.len() as int;
    let with = p;
    let without = q;
    lemma_insert_then_append(with, without, piece, i, r1);
    let with = with + r1;
    let without = without + r1;
    lemma_insert_then_append(with, without, piece, i, r2);
    let with = with + r2;
    let without = without + r2;
    lemma_insert_then_append(with, without, piece, i, r3);
    let with = with + r3;
    let without = without + r3;
    lemma_insert_then_append(with, without, piece, i, r4);
    let with = with + r4;
    let without = without + r4;
    lemma_insert_then_append(with, without, piece, i, r5);
    let with = with + r5;
    let without = without + r5;
    lemma_insert_then_append(with, without, piece, i, r6);
    let with = with + r6;
    let without = without + r6;
    lemma_insert_then_append(with, without, piece, i, r7);
    let with = with + r7;
    let without = without + r7;
    lemma_insert_then_append(with, without, piece, i, r8);
    let with = with + r8;
    let without = without + r8;
    lemma_insert_then_append(with, without, piece, i, r9);
    let with = with + r9;
    let without = without + r9;
    lemma_insert_then_append(with, without, piece, i, r10);
    let with = with + r10;
    let without = without + r10;
    lemma_insert_then_append(with, without, piece, i, r11);
    let with = with + r11;
    let without = without + r11;
    lemma_insert_then_append(with, without, piece, i, r12);
    let with = with + r12;
    let without = without + r12;
    lemma_insert_then_append(with, without, piece, i, r13);
    let with = with + r13;
    let without = without + r13;
    lemma_insert_then_append(with, without, piece, i, r14);
    let with = with + r14;
    let without = without + r14;
    lemma_insert_then_append(with, without, piece, i, r15);
    let with = with + r15;
    let without = without + r15;
    lemma_insert_then_append(with, without, piece, i, r16);
    let with = with + r16;
    let without = without + r16;
    lemma_insert_then_append(with, without, piece, i, r17);
    let with = with + r17;
    let without = without + r17;
    lemma_insert_then_append(with, without, piece, i, r18);
    let with = with + r18;
    let without = without + r18;
    lemma_insert_then_append(with, without, piece, i, r19);
    let with = with + r19;
    let without = without + r19;
    lemma_insert_then_append(with, without, piece, i, r20);
    let with = with + r20;
    let without = without + r20;
    lemma_insert_then_append(with, without, piece, i, r21);
    let with = with + r21;
    let without = without + r21;
    lemma_insert_then_append(with, without, piece, i, r22);
    let with = with + r22;
    let without = without + r22;
    assert(inserted_at(with, without, piece, i));
}

/// Slot 1 of the global arguments: replacing `q + piece` there by `q`
/// removes exactly `piece`.
proof fn lemma_global_slot_1(
    a: Seq<Seq<char>>,
    p: Seq<Seq<char>>,
    q: Seq<Seq<char>>,
    piece: Seq<Seq<char>>,
    r2: Seq<Seq<char>>,
    r3: Seq<Seq<char>>,
    r4: Seq<Seq<char>>,
    r5: Seq<Seq<char>>,
    r6: Seq<Seq<char>>,
    r7: Seq<Seq<char>>,
    r8: Seq<Seq<char>>,
    r9: Seq<Seq<char>>,
    r10: Seq<Seq<char>>,
    r11: Seq<Seq<char>>,
    r12: Seq<Seq<char>>,
    r13: Seq<Seq<char>>,
    r14: Seq<Seq<char>>,
    r15: Seq<Seq<char>>,
    r16: Seq<Seq<char>>,
    r17: Seq<Seq<char>>,
    r18: Seq<Seq<char>>,
    r19: Seq<Seq<char>>,
    r20: Seq<Seq<char>>,
    r21: Seq<Seq<char>>,
    r22: Seq<Seq<char>>,
)
    requires
        p == q + piece,
    ensures
        inserts(
            a + p + r2 + r3 + r4 + r5 + r6 + r7 + r8 + r9 + r10 + r11 + r12 + r13
                + r14 + r15 + r16 + r17 + r18 + r19 + r20 + r21 + r22,
            a + q + r2 + r3 + r4 + r5 + r6 + r7 + r8 + r9 + r10 + r11 + r12 + r13
                + r14 + r15 + r16 + r17 + r18 + r19 + r20 + r21 + r22,
            piece,
        ),
{
    reveal(inserts);
    lemma_insert_last(a, p, q, piece);
    let i = (a + q).len() as int;
    let with = a + p;
    let without = a + q;
    lemma_insert_then_append(with, without, piece, i, r2);
    let with = with + r2;
    let without = without + r2;
    lemma_insert_then_append(with, without, piece, i, r3);
    let with = with + r3;
    let without = without + r3;
    lemma_insert_then_append(with, without, piece, i, r4);
    let with = with + r4;
    let without = without + r4;
    lemma_insert_then_append(with, without, piece, i, r5);
    let with = with + r5;
    let without = without + r5;
    lemma_insert_then_append(with, without, piece, i, r6);
    let with = with + r6;
    let without = without + r6;
    lemma_insert_then_append(with, without, piece, i, r7);
    let with = with + r7;
    let without = without + r7;
    lemma_insert_then_append(with, without, piece, i, r8);
    let with = with + r8;
    let without = without + r8;
    lemma_insert_then_append(with, without, piece, i, r9);
    let with = with + r9;
    let without = without + r9;
    lemma_insert_then_append(with, without, piece, i, r10);
    let with = with + r10;
    let without = without + r10;
    lemma_insert_then_append(with, without, piece, i, r11);
    let with = with + r11;
    let without = without + r11;
    lemma_insert_then_append(with, without, piece, i, r12);
    let with = with + r12;
    let without = without + r12;
    lemma_insert_then_append(with, without, piece, i, r13);
    let with = with + r13;
    let without = without + r13;
    lemma_insert_then_append(with, without, piece, i, r14);
    let with = with + r14;
    let without = without + r14;
    lemma_insert_then_append(with, without, piece, i, r15);
    let with = with + r15;
    let without = without + r15;
    lemma_insert_then_append(with, without, piece, i, r16);
    let with = with + r16;
    let without = without + r16;
    lemma_insert_then_append(with, without, piece, i, r17);
    let with = with + r17;
    let without = without + r17;
    lemma_insert_then_append(with, without, piece, i, r18);
    let with = with + r18;
    let without = without + r18;
    lemma_insert_then_append(with, without, piece, i, r19);
    let with = with + r19;
    let without = without + r19;
    lemma_insert_then_append(with, without, piece, i, r20);
    let with = with + r20;
    let without = without + r20;
    lemma_insert_then_append(with, without, piece, i, r21);
    let with = with + r21;
    let without = without + r21;
    lemma_insert_then_append(with, without, piece, i, r22);
    let with = with + r22;
    let without = without + r22;
    assert(inserted_at(with, without, piece, i));
}

/// Slot 2 of the global arguments: replacing `q + piece` there by `q`
/// removes exactly `piece`.
proof fn lemma_global_slot_2(
    a: Seq<Seq<char>>,
    p: Seq<Seq<char>>,
    q: Seq<Seq<char>>,
    piece: Seq<Seq<char>>,
    r3: Seq<Seq<char>>,
    r4: Seq<Seq<char>>,
    r5: Seq<Seq<char>>,
    r6: Seq<Seq<char>>,
    r7: Seq<Seq<char>>,
    r8: Seq<Seq<char>>,
    r9: Seq<Seq<char>>,
    r10: Seq<Seq<char>>,
    r11: Seq<Seq<char>>,
    r12: Seq<Seq<char>>,
    r13: Seq<Seq<char>>,
    r14: Seq<Seq<char>>,
    r15: Seq<Seq<char>>,
    r16: Seq<Seq<char>>,
    r17: Seq<Seq<char>>,
    r18: Seq<Seq<char>>,
    r19: Seq<Seq<char>>,
    r20: Seq<Seq<char>>,
    r21: Seq<Seq<char>>,
    r22: Seq<Seq<char>>,
)
    requires
        p == q + piece,
    ensures
        inserts(
            a + p + r3 + r4 + r5 + r6 + r7 + r8 + r9 + r10 + r11 + r12 + r13 + r14
                + r15 + r16 + r17 + r18 + r19 + r20 + r21 + r22,
            a + q + r3 + r4 + r5 + r6 + r7 + r8 + r9 + r10 + r11 + r12 + r13 + r14
                + r15 + r16 + r17 + r18 + r19 + r20 + r21 + r22,
            piece,
        ),
{
    reveal(inserts);
    lemma_insert_last(a, p, q, piece);
    let i = (a + q).len() as int;
    let with = a + p;
    let without = a + q;
    lemma_insert_then_append(with, without, piece, i, r3);
    let with = with + r3;
    let without = without + r3;
    lemma_insert_then_append(with, without, piece, i, r4);
    let with = with + r4;
    let without = without + r4;
    lemma_insert_then_append(with, without, piece, i, r5);
    let with = with + r5;
    let without = without + r5;
    lemma_insert_then_append(with, without, piece, i, r6);
    let with = with + r6;
    let without = without + r6;
    lemma_insert_then_append(with, without, piece, i, r7);
    let with = with + r7;
    let without = without + r7;
    lemma_insert_then_append(with, without, piece, i, r8);
    let with = with + r8;
    let without = without + r8;
    lemma_insert_then_append(with, without, piece, i, r9);
    let with = with + r9;
    let without = without + r9;
    lemma_insert_then_append(with, without, piece, i, r10);
    let with = with + r10;
    let without = without + r10;
    lemma_insert_then_append(with, without, piece, i, r11);
    let with = with + r11;
    let without = without + r11;
    lemma_insert_then_append(with, without, piece, i, r12);
    let with = with + r12;
    let without = without + r12;
    lemma_insert_then_append(with, without, piece, i, r13);
    let with = with + r13;
    let without = without + r13;
    lemma_insert_then_append(with, without, piece, i, r14);
    let with = with + r14;
    let without = without + r14;
    lemma_insert_then_append(with, without, piece, i, r15);
    let with = with + r15;
    let without = without + r15;
    lemma_insert_then_append(with, without, piece, i, r16);
    let with = with + r16;
    let without = without + r16;
    lemma_insert_then_append(with, without, piece, i, r17);
    let with = with + r17;
    let without = without + r17;
    lemma_insert_then_append(with, without, piece, i, r18);
    let with = with + r18;
    let without = without + r18;
    lemma_insert_then_append(with, without, piece, i, r19);
    let with = with + r19;
    let without = without + r19;
    lemma_insert_then_append(with, without, piece, i, r20);
    let with = with + r20;
    let without = without + r20;
    lemma_insert_then_append(with, without, piece, i, r21);
    let with = with + r21;
    let without = without + r21;
    lemma_insert_then_append(with, without, piece, i, r22);
    let with = with + r22;
    let without = without + r22;
    assert(inserted_at(with, without, piece, i));
}

/// Slot 3 of the global arguments: replacing `q + piece` there by `q`
/// removes exactly `piece`.
proof fn lemma_global_slot_3(
    a: Seq<Seq<char>>,
    p: Seq<Seq<char>>,
    q: Seq<Seq<char>>,
    piece: Seq<Seq<char>>,
    r4: Seq<Seq<char>>,
    r5: Seq<Seq<char>>,
    r6: Seq<Seq<char>>,
    r7: Seq<Seq<char>>,
    r8: Seq<Seq<char>>,
    r9: Seq<Seq<char>>,
    r10: Seq<Seq<char>>,
    r11: Seq<Seq<char>>,
    r12: Seq<Seq<char>>,
    r13: Seq<Seq<char>>,
    r14: Seq<Seq<char>>,
    r15: Seq<Seq<char>>,
    r16: Seq<Seq<char>>,
    r17: Seq<Seq<char>>,
    r18: Seq<Seq<char>>,
    r19: Seq<Seq<char>>,
    r20: Seq<Seq<char>>,
    r21: Seq<Seq<char>>,
    r22: Seq<Seq<char>>,
)
    requires
        p == q + piece,
    ensures
        inserts(
            a + p + r4 + r5 + r6 + r7 + r8 + r9 + r10 + r11 + r12 + r13 + r14
                + r15 + r16 + r17 + r18 + r19 + r20 + r21 + r22,
            a + q + r4 + r5 + r6 + r7 + r8 + r9 + r10 + r11 + r12 + r13 + r14
                + r15 + r16 + r17 + r18 + r19 + r20 + r21 + r22,
            piece,
        ),
{
    reveal(inserts);
    lemma_insert_last(a, p, q, piece);
    let i = (a + q).len() as int;
    let with = a + p;
    let without = a + q;
    lemma_insert_then_append(with, without, piece, i, r4);
    let with = with + r4;
    let without = without + r4;
    lemma_insert_then_append(with, without, piece, i, r5);
    let with = with + r5;
    let without = without + r5;
    lemma_insert_then_append(with, without, piece, i, r6);
    let with = with + r6;
    let without = without + r6;
    lemma_insert_then_append(with, without, piece, i, r7);
    let with = with + r7;
    let without = without + r7;
    lemma_insert_then_append(with, without, piece, i, r8);
    let with = with + r8;
    let without = without + r8;
    lemma_insert_then_append(with, without, piece, i, r9);
    let with = with + r9;
    let without = without + r9;
    lemma_insert_then_append(with, without, piece, i, r10);
    let with = with + r10;
    let without = without + r10;
    lemma_insert_then_append(with, without, piece, i, r11);
    let with = with + r11;
    let without = without + r11;
    lemma_insert_then_append(with, without, piece, i, r12);
    let with = with + r12;
    let without = without + r12;
    lemma_insert_then_append(with, without, piece, i, r13);
    let with = with + r13;
    let without = without + r13;
    lemma_insert_then_append(with, without, piece, i, r14);
    let with = with + r14;
    let without = without + r14;
    lemma_insert_then_append(with, without, piece, i, r15);
    let with = with + r15;
    let without = without + r15;
    lemma_insert_then_append(with, without, piece, i, r16);
    let with = with + r16;
    let without = without + r16;
    lemma_insert_then_append(with, without, piece, i, r17);
    let with = with + r17;
    let without = without + r17;
    lemma_insert_then_append(with, without, piece, i, r18);
    let with = with + r18;
    let without = without + r18;
    lemma_insert_then_append(with, without, piece, i, r19);
    let with = with + r19;
    let without = without + r19;
    lemma_insert_then_append(with, without, piece, i, r20);
    let with = with + r20;
    let without = without + r20;
    lemma_insert_then_append(with, without, piece, i, r21);
    let with = with + r21;
    let without = without + r21;
    lemma_insert_then_append(with, without, piece, i, r22);
    let with = with + r22;
    let without = without + r22;
    assert(inserted_at(with, without, piece, i));
}

/// Slot 4 of the global arguments: replacing `q + piece` there by `q`
/// removes exactly `piece`.
proof fn lemma_global_slot_4(
    a: Seq<Seq<char>>,
    p: Seq<Seq<char>>,
    q: Seq<Seq<char>>,
    piece: Seq<Seq<char>>,
    r5: Seq<Seq<char>>,
    r6: Seq<Seq<char>>,
    r7: Seq<Seq<char>>,
    r8: Seq<Seq<char>>,
    r9: Seq<Seq<char>>,
    r10: Seq<Seq<char>>,
    r11: Seq<Seq<char>>,
    r12: Seq<Seq<char>>,
    r13: Seq<Seq<char>>,
    r14: Seq<Seq<char>>,
    r15: Seq<Seq<char>>,
    r16: Seq<Seq<char>>,
    r17: Seq<Seq<char>>,
    r18: Seq<Seq<char>>,
    r19: Seq<Seq<char>>,
    r20: Seq<Seq<char>>,
    r21: Seq<Seq<char>>,
    r22: Seq<Seq<char>>,
)
    requires
        p == q + piece,
    ensures
        inserts(
            a + p + r5 + r6 + r7 + r8 + r9 + r10 + r11 + r12 + r13 + r14 + r15
                + r16 + r17 + r18 + r19 + r20 + r21 + r22,
            a + q + r5 + r6 + r7 + r8 + r9 + r10 + r11 + r12 + r13 + r14 + r15
                + r16 + r17 + r18 + r19 + r20 + r21 + r22,
            piece,
        ),
{
    reveal(inserts);
    lemma_insert_last(a, p, q, piece);
    let i = (a + q).len() as int;
    let with = a + p;
    let without = a + q;
    lemma_insert_then_append(with, without, piece, i, r5);
    let with = with + r5;
    let without = without + r5;
    lemma_insert_then_append(with, without, piece, i, r6);
    let with = with + r6;
    let without = without + r6;
    lemma_insert_then_append(with, without, piece, i, r7);
    let with = with + r7;
    let without = without + r7;
    lemma_insert_then_append(with, without, piece, i, r8);
    let with = with + r8;
    let without = without + r8;
    lemma_insert_then_append(with, without, piece, i, r9);
    let with = with + r9;
    let without = without + r9;
    lemma_insert_then_append(with, without, piece, i, r10);
    let with = with + r10;
    let without = without + r10;
    lemma_insert_then_append(with, without, piece, i, r11);
    let with = with + r11;
    let without = without + r11;
    lemma_insert_then_append(with, without, piece, i, r12);
    let with = with + r12;
    let without = without + r12;
    lemma_insert_then_append(with, without, piece, i, r13);
    let with = with + r13;
    let without = without + r13;
    lemma_insert_then_append(with, without, piece, i, r14);
    let with = with + r14;
    let without = without + r14;
    lemma_insert_then_append(with, without, piece, i, r15);
    let with = with + r15;
    let without = without + r15;
    lemma_insert_then_append(with, without, piece, i, r16);
    let with = with + r16;
    let without = without + r16;
    lemma_insert_then_append(with, without, piece, i, r17);
    let with = with + r17;
    let without = without + r17;
    lemma_insert_then_append(with, without, piece, i, r18);
    let with = with + r18;
    let without = without + r18;
    lemma_insert_then_append(with, without, piece, i, r19);
    let with = with + r19;
    let without = without + r19;
    lemma_insert_then_append(with, without, piece, i, r20);
    let with = with + r20;
    let without = without + r20;
    lemma_insert_then_append(with, without, piece, i, r21);
    let with = with + r21;
    let without = without + r21;
    lemma_insert_then_append(with, without, piece, i, r22);
    let with = with + r22;
    let without = without + r22;
    assert(inserted_at(with, without, piece, i));
}

/// Slot 5 of the global arguments: replacing `q + piece` there by `q`
/// removes exactly `piece`.
proof fn lemma_global_slot_5(
    a: Seq<Seq<char>>,
    p: Seq<Seq<char>>,
    q: Seq<Seq<char>>,
    piece: Seq<Seq<char>>,
    r6: Seq<Seq<char>>,
    r7: Seq<Seq<char>>,
    r8: Seq<Seq<char>>,
    r9: Seq<Seq<char>>,
    r10: Seq<Seq<char>>,
    r11: Seq<Seq<char>>,
    r12: Seq<Seq<char>>,
    r13: Seq<Seq<char>>,
    r14: Seq<Seq<char>>,
    r15: Seq<Seq<char>>,
    r16: Seq<Seq<char>>,
    r17: Seq<Seq<char>>,
    r18: Seq<Seq<char>>,
    r19: Seq<Seq<char>>,
    r20: Seq<Seq<char>>,
    r21: Seq<Seq<char>>,
    r22: Seq<Seq<char>>,
)
    requires
        p == q + piece,
    ensures
        inserts(
            a + p + r6 + r7 + r8 + r9 + r10 + r11 + r12 + r13 + r14 + r15 + r16
                + r17 + r18 + r19 + r20 + r21 + r22,
            a + q + r6 + r7 + r8 + r9 + r10 + r11 + r12 + r13 + r14 + r15 + r16
                + r17 + r18 + r19 + r20 + r21 + r22,
            piece,
        ),
{
    reveal(inserts);
    lemma_insert_last(a, p, q, piece);
    let i = (a + q).len() as int;
    let with = a + p;
    let without = a + q;
    lemma_insert_then_append(with, without, piece, i, r6);
    let with = with + r6;
    let without = without + r6;
    lemma_insert_then_append(with, without, piece, i, r7);
    let with = with + r7;
    let without = without + r7;
    lemma_insert_then_append(with, without, piece, i, r8);
    let with = with + r8;
    let without = without + r8;
    lemma_insert_then_append(with, without, piece, i, r9);
    let with = with + r9;
    let without = without + r9;
    lemma_insert_then_append(with, without, piece, i, r10);
    let with = with + r10;
    let without = without + r10;
    lemma_insert_then_append(with, without, piece, i, r11);
    let with = with + r11;
    let without = without + r11;
    lemma_insert_then_append(with, without, piece, i, r12);
    let with = with + r12;
    let without = without + r12;
    lemma_insert_then_append(with, without, piece, i, r13);
    let with = with + r13;
    let without = without + r13;
    lemma_insert_then_append(with, without, piece, i, r14);
    let with = with + r14;
    let without = without + r14;
    lemma_insert_then_append(with, without, piece, i, r15);
    let with = with + r15;
    let without = without + r15;
    lemma_insert_then_append(with, without, piece, i, r16);
    let with = with + r16;
    let without = without + r16;
    lemma_insert_then_append(with, without, piece, i, r17);
    let with = with + r17;
    let without = without + r17;
    lemma_insert_then_append(with, without, piece, i, r18);
    let with = with + r18;
    let without = without + r18;
    lemma_insert_then_append(with, without, piece, i, r19);
    let with = with + r19;
    let without = without + r19;
    lemma_insert_then_append(with, without, piece, i, r20);
    let with = with + r20;
    let without = without + r20;
    lemma_insert_then_append(with, without, piece, i, r21);
    let with = with + r21;
    let without = without + r21;
    lemma_insert_then_append(with, without, piece, i, r22);
    let with = with + r22;
    let without = without + r22;
    assert(inserted_at(with, without, piece, i));
}

/// Slot 6 of the global arguments: replacing `q + piece` there by `q`
/// removes exactly `piece`.
proof fn lemma_global_slot_6(
    a: Seq<Seq<char>>,
    p: Seq<Seq<char>>,
    q: Seq<Seq<char>>,
    piece: Seq<Seq<char>>,
    r7: Seq<Seq<char>>,
    r8: Seq<Seq<char>>,
    r9: Seq<Seq<char>>,
    r10: Seq<Seq<char>>,
    r11: Seq<Seq<char>>,
    r12: Seq<Seq<char>>,
    r13: Seq<Seq<char>>,
    r14: Seq<Seq<char>>,
    r15: Seq<Seq<char>>,
    r16: Seq<Seq<char>>,
    r17: Seq<Seq<char>>,
    r18: Seq<Seq<char>>,
    r19: Seq<Seq<char>>,
    r20: Seq<Seq<char>>,
    r21: Seq<Seq<char>>,
    r22: Seq<Seq<char>>,
)
    requires
        p == q + piece,
    ensures
        inserts(
            a + p + r7 + r8 + r9 + r10 + r11 + r12 + r13 + r14 + r15 + r16 + r17
                + r18 + r19 + r20 + r21 + r22,
            a + q + r7 + r8 + r9 + r10 + r11 + r12 + r13 + r14 + r15 + r16 + r17
                + r18 + r19 + r20 + r21 + r22,
            piece,
        ),
{
    reveal(inserts);
    lemma_insert_last(a, p, q, piece);
    let i = (a + q).len() as int;
    let with = a + p;
    let without = a + q;
    lemma_insert_then_append(with, without, piece, i, r7);
    let with = with + r7;
    let without = without + r7;
    lemma_insert_then_append(with, without, piece, i, r8);
    let with = with + r8;
    let without = without + r8;
    lemma_insert_then_append(with, without, piece, i, r9);
    let with = with + r9;
    let without = without + r9;
    lemma_insert_then_append(with, without, piece, i, r10);
    let with = with + r10;
    let without = without + r10;
    lemma_insert_then_append(with, without, piece, i, r11);
    let with = with + r11;
    let without = without + r11;
    lemma_insert_then_append(with, without, piece, i, r12);
    let with = with + r12;
    let without = without + r12;
    lemma_insert_then_append(with, without, piece, i, r13);
    let with = with + r13;
    let without = without + r13;
    lemma_insert_then_append(with, without, piece, i, r14);
    let with = with + r14;
    let without = without + r14;
    lemma_insert_then_append(with, without, piece, i, r15);
    let with = with + r15;
    let without = without + r15;
    lemma_insert_then_append(with, without, piece, i, r16);
    let with = with + r16;
    let without = without + r16;
    lemma_insert_then_append(with, without, piece, i, r17);
    let with = with + r17;
    let without = without + r17;
    lemma_insert_then_append(with, without, piece, i, r18);
    let with = with + r18;
    let without = without + r18;
    lemma_insert_then_append(with, without, piece, i, r19);
    let with = with + r19;
    let without = without + r19;
    lemma_insert_then_append(with, without, piece, i, r20);
    let with = with + r20;
    let without = without + r20;
    lemma_insert_then_append(with, without, piece, i, r21);
    let with = with + r21;
    let without = without + r21;
    lemma_insert_then_append(with, without, piece, i, r22);
    let with = with + r22;
    let without = without + r22;
    assert(inserted_at(with, without, piece, i));
}

/// Slot 7 of the global arguments: replacing `q + piece` there by `q`
/// removes exactly `piece`.
proof fn lemma_global_slot_7(
    a: Seq<Seq<char>>,
    p: Seq<Seq<char>>,
    q: Seq<Seq<char>>,
    piece: Seq<Seq<char>>,
    r8: Seq<Seq<char>>,
    r9: Seq<Seq<char>>,
    r10: Seq<Seq<char>>,
    r11: Seq<Seq<char>>,
    r12: Seq<Seq<char>>,
    r13: Seq<Seq<char>>,
    r14: Seq<Seq<char>>,
    r15: Seq<Seq<char>>,
    r16: Seq<Seq<char>>,
    r17: Seq<Seq<char>>,
    r18: Seq<Seq<char>>,
    r19: Seq<Seq<char>>,
    r20: Seq<Seq<char>>,
    r21: Seq<Seq<char>>,
    r22: Seq<Seq<char>>,
)
    requires
        p == q + piece,
    ensures
        inserts(
            a + p + r8 + r9 + r10 + r11 + r12 + r13 + r14 + r15 + r16 + r17 + r18
                + r19 + r20 + r21 + r22,
            a + q + r8 + r9 + r10 + r11 + r12 + r13 + r14 + r15 + r16 + r17 + r18
                + r19 + r20 + r21 + r22,
            piece,
        ),
{
    reveal(inserts);
    lemma_insert_last(a, p, q, piece);
    let i = (a + q).len() as int;
    let with = a + p;
    let without = a + q;
    lemma_insert_then_append(with, without, piece, i, r8);
    let with = with + r8;
    let without = without + r8;
    lemma_insert_then_append(with, without, piece, i, r9);
    let with = with + r9;
    let without = without + r9;
    lemma_insert_then_append(with, without, piece, i, r10);
    let with = with + r10;
    let without = without + r10;
    lemma_insert_then_append(with, without, piece, i, r11);
    let with = with + r11;
    let without = without + r11;
    lemma_insert_then_append(with, without, piece, i, r12);
    let with = with + r12;
    let without = without + r12;
    lemma_insert_then_append(with, without, piece, i, r13);
    let with = with + r13;
    let without = without + r13;
    lemma_insert_then_append(with, without, piece, i, r14);
    let with = with + r14;
    let without = without + r14;
    lemma_insert_then_append(with, without, piece, i, r15);
    let with = with + r15;
    let without = without + r15;
    lemma_insert_then_append(with, without, piece, i, r16);
    let with = with + r16;
    let without = without + r16;
    lemma_insert_then_append(with, without, piece, i, r17);
    let with = with + r17;
    let without = without + r17;
    lemma_insert_then_append(with, without, piece, i, r18);
    let with = with + r18;
    let without = without + r18;
    lemma_insert_then_append(with, without, piece, i, r19);
    let with = with + r19;
    let without = without + r19;
    lemma_insert_then_append(with, without, piece, i, r20);
    let with = with + r20;
    let without = without + r20;
    lemma_insert_then_append(with, without, piece, i, r21);
    let with = with + r21;
    let without = without + r21;
    lemma_insert_then_append(with, without, piece, i, r22);
    let with = with + r22;
    let without = without + r22;
    assert(inserted_at(with, without, piece, i));
}

/// Slot 8 of the global arguments: replacing `q + piece` there by `q`
/// removes exactly `piece`.
proof fn lemma_global_slot_8(
    a: Seq<Seq<char>>,
    p: Seq<Seq<char>>,
    q: Seq<Seq<char>>,
    piece: Seq<Seq<char>>,
    r9: Seq<Seq<char>>,
    r10: Seq<Seq<char>>,
    r11: Seq<Seq<char>>,
    r12: Seq<Seq<char>>,
    r13: Seq<Seq<char>>,
    r14: Seq<Seq<char>>,
    r15: Seq<Seq<char>>,
    r16: Seq<Seq<char>>,
    r17: Seq<Seq<char>>,
    r18: Seq<Seq<char>>,
    r19: Seq<Seq<char>>,
    r20: Seq<Seq<char>>,
    r21: Seq<Seq<char>>,
    r22: Seq<Seq<char>>,
)
    requires
        p == q + piece,
    ensures
        inserts(
            a + p + r9 + r10 + r11 + r12 + r13 + r14 + r15 + r16 + r17 + r18 + r19
                + r20 + r21 + r22,
            a + q + r9 + r10 + r11 + r12 + r13 + r14 + r15 + r16 + r17 + r18 + r19
                + r20 + r21 + r22,
            piece,
        ),
{
    reveal(inserts);
    lemma_insert_last(a, p, q, piece);
    let i = (a + q).len() as int;
    let with = a + p;
    let without = a + q;
    lemma_insert_then_append(with, without, piece, i, r9);
    let with = with + r9;
    let without = without + r9;
    lemma_insert_then_append(with, without, piece, i, r10);
    let with = with + r10;
    let without = without + r10;
    lemma_insert_then_append(with, without, piece, i, r11);
    let with = with + r11;
    let without = without + r11;
    lemma_insert_then_append(with, without, piece, i, r12);
    let with = with + r12;
    let without = without + r12;
    lemma_insert_then_append(with, without, piece, i, r13);
    let with = with + r13;
    let without = without + r13;
    lemma_insert_then_append(with, without, piece, i, r14);
    let with = with + r14;
    let without = without + r14;
    lemma_insert_then_append(with, without, piece, i, r15);
    let with = with + r15;
    let without = without + r15;
    lemma_insert_then_append(with, without, piece, i, r16);
    let with = with + r16;
    let without = without + r16;
    lemma_insert_then_append(with, without, piece, i, r17);
    let with = with + r17;
    let without = without + r17;
    lemma_insert_then_append(with, without, piece, i, r18);
    let with = with + r18;
    let without = without + r18;
    lemma_insert_then_append(with, without, piece, i, r19);
    let with = with + r19;
    let without = without + r19;
    lemma_insert_then_append(with, without, piece, i, r20);
    let with = with + r20;
    let without = without + r20;
    lemma_insert_then_append(with, without, piece, i, r21);
    let with = with + r21;
    let without = without + r21;
    lemma_insert_then_append(with, without, piece, i, r22);
    let with = with + r22;
    let without = without + r22;
    assert(inserted_at(with, without, piece, i));
}

/// Slot 9 of the global arguments: replacing `q + piece` there by `q`
/// removes exactly `piece`.
proof fn lemma_global_slot_9(
    a: Seq<Seq<char>>,
    p: Seq<Seq<char>>,
    q: Seq<Seq<char>>,
    piece: Seq<Seq<char>>,
    r10: Seq<Seq<char>>,
    r11: Seq<Seq<char>>,
    r12: Seq<Seq<char>>,
    r13: Seq<Seq<char>>,
    r14: Seq<Seq<char>>,
    r15: Seq<Seq<char>>,
    r16: Seq<Seq<char>>,
    r17: Seq<Seq<char>>,
    r18: Seq<Seq<char>>,
    r19: Seq<Seq<char>>,
    r20: Seq<Seq<char>>,
    r21: Seq<Seq<char>>,
    r22: Seq<Seq<char>>,
)
    requires
        p == q + piece,
    ensures
        inserts(
            a + p + r10 + r11 + r12 + r13 + r14 + r15 + r16 + r17 + r18 + r19
                + r20 + r21 + r22,
            a + q + r10 + r11 + r12 + r13 + r14 + r15 + r16 + r17 + r18 + r19
                + r20 + r21 + r22,
            piece,
        ),
{
    reveal(inserts);
    lemma_insert_last(a, p, q, piece);
    let i = (a + q).len() as int;
    let with = a + p;
    let without = a + q;
    lemma_insert_then_append(with, without, piece, i, r10);
    let with = with + r10;
    let without = without + r10;
    lemma_insert_then_append(with, without, piece, i, r11);
    let with = with + r11;
    let without = without + r11;
    lemma_insert_then_append(with, without, piece, i, r12);
    let with = with + r12;
    let without = without + r12;
    lemma_insert_then_append(with, without, piece, i, r13);
    let with = with + r13;
    let without = without + r13;
    lemma_insert_then_append(with, without, piece, i, r14);
    let with = with + r14;
    let without = without + r14;
    lemma_insert_then_append(with, without, piece, i, r15);
    let with = with + r15;
    let without = without + r15;
    lemma_insert_then_append(with, without, piece, i, r16);
    let with = with + r16;
    let without = without + r16;
    lemma_insert_then_append(with, without, piece, i, r17);
    let with = with + r17;
    let without = without + r17;
    lemma_insert_then_append(with, without, piece, i, r18);
    let with = with + r18;
    let without = without + r18;
    lemma_insert_then_append(with, without, piece, i, r19);
    let with = with + r19;
    let without = without + r19;
    lemma_insert_then_append(with, without, piece, i, r20);
    let with = with + r20;
    let without = without + r20;
    lemma_insert_then_append(with, without, piece, i, r21);
    let with = with + r21;
    let without = without + r21;
    lemma_insert_then_append(with, without, piece, i, r22);
    let with = with + r22;
    let without = without + r22;
    assert(inserted_at(with, without, piece, i));
}

/// Slot 10 of the global arguments: replacing `q + piece` there by `q`
/// removes exactly `piece`.
proof fn lemma_global_slot_10(
    a: Seq<Seq<char>>,
    p: Seq<Seq<char>>,
    q: Seq<Seq<char>>,
    piece: Seq<Seq<char>>,
    r11: Seq<Seq<char>>,
    r12: Seq<Seq<char>>,
    r13: Seq<Seq<char>>,
    r14: Seq<Seq<char>>,
    r15: Seq<Seq<char>>,
    r16: Seq<Seq<char>>,
    r17: Seq<Seq<char>>,
    r18: Seq<Seq<char>>,
    r19: Seq<Seq<char>>,
    r20: Seq<Seq<char>>,
    r21: Seq<Seq<char>>,
    r22: Seq<Seq<char>>,
)
    requires
        p == q + piece,
    ensures
        inserts(
            a + p + r11 + r12 + r13 + r14 + r15 + r16 + r17 + r18 + r19 + r20
                + r21 + r22,
            a + q + r11 + r12 + r13 + r14 + r15 + r16 + r17 + r18 + r19 + r20
                + r21 + r22,
            piece,
        ),
{
    reveal(inserts);
    lemma_insert_last(a, p, q, piece);
    let i = (a + q).len() as int;
    let with = a + p;
    let without = a + q;
    lemma_insert_then_append(with, without, piece, i, r11);
    let with = with + r11;
    let without = without + r11;
    lemma_insert_then_append(with, without, piece, i, r12);
    let with = with + r12;
    let without = without + r12;
    lemma_insert_then_append(with, without, piece, i, r13);
    let with = with + r13;
    let without = without + r13;
    lemma_insert_then_append(with, without, piece, i, r14);
    let with = with + r14;
    let without = without + r14;
    lemma_insert_then_append(with, without, piece, i, r15);
    let with = with + r15;
    let without = without + r15;
    lemma_insert_then_append(with, without, piece, i, r16);
    let with = with + r16;
    let without = without + r16;
    lemma_insert_then_append(with, without, piece, i, r17);
    let with = with + r17;
    let without = without + r17;
    lemma_insert_then_append(with, without, piece, i, r18);
    let with = with + r18;
    let without = without + r18;
    lemma_insert_then_append(with, without, piece, i, r19);
    let with = with + r19;
    let without = without + r19;
    lemma_insert_then_append(with, without, piece, i, r20);
    let with = with + r20;
    let without = without + r20;
    lemma_insert_then_append(with, without, piece, i, r21);
    let with = with + r21;
    let without = without + r21;
    lemma_insert_then_append(with, without, piece, i, r22);
    let with = with + r22;
    let without = without + r22;
    assert(inserted_at(with, without, piece, i));
}

/// Slot 11 of the global arguments: replacing `q + piece` there by `q`
/// removes exactly `piece`.
proof fn lemma_global_slot_11(
    a: Seq<Seq<char>>,
    p: Seq<Seq<char>>,
    q: Seq<Seq<char>>,
    piece: Seq<Seq<char>>,
    r12: Seq<Seq<char>>,
    r13: Seq<Seq<char>>,
    r14: Seq<Seq<char>>,
    r15: Seq<Seq<char>>,
    r16: Seq<Seq<char>>,
    r17: Seq<Seq<char>>,
    r18: Seq<Seq<char>>,
    r19: Seq<Seq<char>>,
    r20: Seq<Seq<char>>,
    r21: Seq<Seq<char>>,
    r22: Seq<Seq<char>>,
)
    requires
        p == q + piece,
    ensures
        inserts(
            a + p + r12 + r13 + r14 + r15 + r16 + r17 + r18 + r19 + r20 + r21
                + r22,
            a + q + r12 + r13 + r14 + r15 + r16 + r17 + r18 + r19 + r20 + r21
                + r22,
            piece,
        ),
{
    reveal(inserts);
    lemma_insert_last(a, p, q, piece);
    let i = (a + q).len() as int;
    let with = a + p;
    let without = a + q;
    lemma_insert_then_append(with, without, piece, i, r12);
    let with = with + r12;
    let without = without + r12;
    lemma_insert_then_append(with, without, piece, i, r13);
    let with = with + r13;
    let without = without + r13;
    lemma_insert_then_append(with, without, piece, i, r14);
    let with = with + r14;
    let without = without + r14;
    lemma_insert_then_append(with, without, piece, i, r15);
    let with = with + r15;
    let without = without + r15;
    lemma_insert_then_append(with, without, piece, i, r16);
    let with = with + r16;
    let without = without + r16;
    lemma_insert_then_append(with, without, piece, i, r17);
    let with = with + r17;
    let without = without + r17;
    lemma_insert_then_append(with, without, piece, i, r18);
    let with = with + r18;
    let without = without + r18;
    lemma_insert_then_append(with, without, piece, i, r19);
    let with = with + r19;
    let without = without + r19;
    lemma_insert_then_append(with, without, piece, i, r20);
    let with = with + r20;
    let without = without + r20;
    lemma_insert_then_append(with, without, piece, i, r21);
    let with = with + r21;
    let without = without + r21;
    lemma_insert_then_append(with, without, piece, i, r22);
    let with = with + r22;
    let without = without + r22;
    assert(inserted_at(with, without, piece, i));
}

/// Slot 12 of the global arguments: replacing `q + piece` there by `q`
/// removes exactly `piece`.
proof fn lemma_global_slot_12(
    a: Seq<Seq<char>>,
    p: Seq<Seq<char>>,
    q: Seq<Seq<char>>,
    piece: Seq<Seq<char>>,
    r13: Seq<Seq<char>>,
    r14: Seq<Seq<char>>,
    r15: Seq<Seq<char>>,
    r16: Seq<Seq<char>>,
    r17: Seq<Seq<char>>,
    r18: Seq<Seq<char>>,
    r19: Seq<Seq<char>>,
    r20: Seq<Seq<char>>,
    r21: Seq<Seq<char>>,
    r22: Seq<Seq<char>>,
)
    requires
        p == q + piece,
    ensures
        inserts(
            a + p + r13 + r14 + r15 + r16 + r17 + r18 + r19 + r20 + r21 + r22,
            a + q + r13 + r14 + r15 + r16 + r17 + r18 + r19 + r20 + r21 + r22,
            piece,
        ),
{
    reveal(inserts);
    lemma_insert_last(a, p, q, piece);
    let i = (a + q).len() as int;
    let with = a + p;
    let without = a + q;
    lemma_insert_then_append(with, without, piece, i, r13);
    let with = with + r13;
    let without = without + r13;
    lemma_insert_then_append(with, without, piece, i, r14);
    let with = with + r14;
    let without = without + r14;
    lemma_insert_then_append(with, without, piece, i, r15);
    let with = with + r15;
    let without = without + r15;
    lemma_insert_then_append(with, without, piece, i, r16);
    let with = with + r16;
    let without = without + r16;
    lemma_insert_then_append(with, without, piece, i, r17);
    let with = with + r17;
    let without = without + r17;
    lemma_insert_then_append(with, without, piece, i, r18);
    let with = with + r18;
    let without = without + r18;
    lemma_insert_then_append(with, without, piece, i, r19);
    let with = with + r19;
    let without = without + r19;
    lemma_insert_then_append(with, without, piece, i, r20);
    let with = with + r20;
    let without = without + r20;
    lemma_insert_then_append(with, without, piece, i, r21);
    let with = with + r21;
    let without = without + r21;
    lemma_insert_then_append(with, without, piece, i, r22);
    let with = with + r22;
    let without = without + r22;
    assert(inserted_at(with, without, piece, i));
}

/// Slot 13 of the global arguments: replacing `q + piece` there by `q`
/// removes exactly `piece`.
proof fn lemma_global_slot_13(
    a: Seq<Seq<char>>,
    p: Seq<Seq<char>>,
    q: Seq<Seq<char>>,
    piece: Seq<Seq<char>>,
    r14: Seq<Seq<char>>,
    r15: Seq<Seq<char>>,
    r16: Seq<Seq<char>>,
    r17: Seq<Seq<char>>,
    r18: Seq<Seq<char>>,
    r19: Seq<Seq<char>>,
    r20: Seq<Seq<char>>,
    r21: Seq<Seq<char>>,
    r22: Seq<Seq<char>>,
)
    requires
        p == q + piece,
    ensures
        inserts(
            a + p + r14 + r15 + r16 + r17 + r18 + r19 + r20 + r21 + r22,
            a + q + r14 + r15 + r16 + r17 + r18 + r19 + r20 + r21 + r22,
            piece,
        ),
{
    reveal(inserts);
    lemma_insert_last(a, p, q, piece);
    let i = (a + q).len() as int;
    let with = a + p;
    let without = a + q;
    lemma_insert_then_append(with, without, piece, i, r14);
    let with = with + r14;
    let without = without + r14;
    lemma_insert_then_append(with, without, piece, i, r15);
    let with = with + r15;
    let without = without + r15;
    lemma_insert_then_append(with, without, piece, i, r16);
    let with = with + r16;
    let without = without + r16;
    lemma_insert_then_append(with, without, piece, i, r17);
    let with = with + r17;
    let without = without + r17;
    lemma_insert_then_append(with, without, piece, i, r18);
    let with = with + r18;
    let without = without + r18;
    lemma_insert_then_append(with, without, piece, i, r19);
    let with = with + r19;
    let without = without + r19;
    lemma_insert_then_append(with, without, piece, i, r20);
    let with = with + r20;
    let without = without + r20;
    lemma_insert_then_append(with, without, piece, i, r21);
    let with = with + r21;
    let without = without + r21;
    lemma_insert_then_append(with, without, piece, i, r22);
    let with = with + r22;
    let without = without + r22;
    assert(inserted_at(with, without, piece, i));
}

/// Slot 14 of the global arguments: replacing `q + piece` there by `q`
/// removes exactly `piece`.
proof fn lemma_global_slot_14(
    a: Seq<Seq<char>>,
    p: Seq<Seq<char>>,
    q: Seq<Seq<char>>,
    piece: Seq<Seq<char>>,
    r15: Seq<Seq<char>>,
    r16: Seq<Seq<char>>,
    r17: Seq<Seq<char>>,
    r18: Seq<Seq<char>>,
    r19: Seq<Seq<char>>,
    r20: Seq<Seq<char>>,
    r21: Seq<Seq<char>>,
    r22: Seq<Seq<char>>,
)
    requires
        p == q + piece,
    ensures
        inserts(
            a + p + r15 + r16 + r17 + r18 + r19 + r20 + r21 + r22,
            a + q + r15 + r16 + r17 + r18 + r19 + r20 + r21 + r22,
            piece,
        ),
{
    reveal(inserts);
    lemma_insert_last(a, p, q, piece);
    let i = (a + q).len() as int;
    let with = a + p;
    let without = a + q;
    lemma_insert_then_append(with, without, piece, i, r15);
    let with = with + r15;
    let without = without + r15;
    lemma_insert_then_append(with, without, piece, i, r16);
    let with = with + r16;
    let without = without + r16;
    lemma_insert_then_append(with, without, piece, i, r17);
    let with = with + r17;
    let without = without + r17;
    lemma_insert_then_append(with, without, piece, i, r18);
    let with = with + r18;
    let without = without + r18;
    lemma_insert_then_append(with, without, piece, i, r19);
    let with = with + r19;
    let without = without + r19;
    lemma_insert_then_append(with, without, piece, i, r20);
    let with = with + r20;
    let without = without + r20;
    lemma_insert_then_append(with, without, piece, i, r21);
    let with = with + r21;
    let without = without + r21;
    lemma_insert_then_append(with, without, piece, i, r22);
    let with = with + r22;
    let without = without + r22;
    assert(inserted_at(with, without, piece, i));
}

/// Slot 15 of the global arguments: replacing `q + piece` there by `q`
/// removes exactly `piece`.
proof fn lemma_global_slot_15(
    a: Seq<Seq<char>>,
    p: Seq<Seq<char>>,
    q: Seq<Seq<char>>,
    piece: Seq<Seq<char>>,
    r16: Seq<Seq<char>>,
    r17: Seq<Seq<char>>,
    r18: Seq<Seq<char>>,
    r19: Seq<Seq<char>>,
    r20: Seq<Seq<char>>,
    r21: Seq<Seq<char>>,
    r22: Seq<Seq<char>>,
)
    requires
        p == q + piece,
    ensures
        inserts(
            a + p + r16 + r17 + r18 + r19 + r20 + r21 + r22,
            a + q + r16 + r17 + r18 + r19 + r20 + r21 + r22,
            piece,
        ),
{
    reveal(inserts);
    lemma_insert_last(a, p, q, piece);
    let i = (a + q).len() as int;
    let with = a + p;
    let without = a + q;
    lemma_insert_then_append(with, without, piece, i, r16);
    let with = with + r16;
    let without = without + r16;
    lemma_insert_then_append(with, without, piece, i, r17);
    let with = with + r17;
    let without = without + r17;
    lemma_insert_then_append(with, without, piece, i, r18);
    let with = with + r18;
    let without = without + r18;
    lemma_insert_then_append(with, without, piece, i, r19);
    let with = with + r19;
    let without = without + r19;
    lemma_insert_then_append(with, without, piece, i, r20);
    let with = with + r20;
    let without = without + r20;
    lemma_insert_then_append(with, without, piece, i, r21);
    let with = with + r21;
    let without = without + r21;
    lemma_insert_then_append(with, without, piece, i, r22);
    let with = with + r22;
    let without = without + r22;
    assert(inserted_at(with, without, piece, i));
}

/// Slot 16 of the global arguments: replacing `q + piece` there by `q`
/// removes exactly `piece`.
proof fn lemma_global_slot_16(
    a: Seq<Seq<char>>,
    p: Seq<Seq<char>>,
    q: Seq<Seq<char>>,
    piece: Seq<Seq<char>>,
    r17: Seq<Seq<char>>,
    r18: Seq<Seq<char>>,
    r19: Seq<Seq<char>>,
    r20: Seq<Seq<char>>,
    r21: Seq<Seq<char>>,
    r22: Seq<Seq<char>>,
)
    requires
        p == q + piece,
    ensures
        inserts(
            a + p + r17 + r18 + r19 + r20 + r21 + r22,
            a + q + r17 + r18 + r19 + r20 + r21 + r22,
            piece,
        ),
{
    reveal(inserts);
    lemma_insert_last(a, p, q, piece);
    let i = (a + q).len() as int;
    let with = a + p;
    let without = a + q;
    lemma_insert_then_append(with, without, piece, i, r17);
    let with = with + r17;
    let without = without + r17;
    lemma_insert_then_append(with, without, piece, i, r18);
    let with = with + r18;
    let without = without + r18;
    lemma_insert_then_append(with, without, piece, i, r19);
    let with = with + r19;
    let without = without + r19;
    lemma_insert_then_append(with, without, piece, i, r20);
    let with = with + r20;
    let without = without + r20;
    lemma_insert_then_append(with, without, piece, i, r21);
    let with = with + r21;
    let without = without + r21;
    lemma_insert_then_append(with, without, piece, i, r22);
    let with = with + r22;
    let without = without + r22;
    assert(inserted_at(with, without, piece, i));
}

/// Slot 17 of the global arguments: replacing `q + piece` there by `q`
/// removes exactly `piece`.
proof fn lemma_global_slot_17(
    a: Seq<Seq<char>>,
    p: Seq<Seq<char>>,
    q: Seq<Seq<char>>,
    piece: Seq<Seq<char>>,
    r18: Seq<Seq<char>>,
    r19: Seq<Seq<char>>,
    r20: Seq<Seq<char>>,
    r21: Seq<Seq<char>>,
    r22: Seq<Seq<char>>,
)
    requires
        p == q + piece,
    ensures
        inserts(
            a + p + r18 + r19 + r20 + r21 + r22,
            a + q + r18 + r19 + r20 + r21 + r22,
            piece,
        ),
{
    reveal(inserts);
    lemma_insert_last(a, p, q, piece);
    let i = (a + q).len() as int;
    let with = a + p;
    let without = a + q;
    lemma_insert_then_append(with, without, piece, i, r18);
    let with = with + r18;
    let without = without + r18;
    lemma_insert_then_append(with, without, piece, i, r19);
    let with = with + r19;
    let without = without + r19;
    lemma_insert_then_append(with, without, piece, i, r20);
    let with = with + r20;
    let without = without + r20;
    lemma_insert_then_append(with, without, piece, i, r21);
    let with = with + r21;
    let without = without + r21;
    lemma_insert_then_append(with, without, piece, i, r22);
    let with = with + r22;
    let without = without + r22;
    assert(inserted_at(with, without, piece, i));
}

/// Slot 18 of the global arguments: replacing `q + piece` there by `q`
/// removes exactly `piece`.
proof fn lemma_global_slot_18(
    a: Seq<Seq<char>>,
    p: Seq<Seq<char>>,
    q: Seq<Seq<char>>,
    piece: Seq<Seq<char>>,
    r19: Seq<Seq<char>>,
    r20: Seq<Seq<char>>,
    r21: Seq<Seq<char>>,
    r22: Seq<Seq<char>>,
)
    requires
        p == q + piece,
    ensures
        inserts(
            a + p + r19 + r20 + r21 + r22,
            a + q + r19 + r20 + r21 + r22,
            piece,
        ),
{
    reveal(inserts);
    lemma_insert_last(a, p, q, piece);
    let i = (a + q).len() as int;
    let with = a + p;
    let without = a + q;
    lemma_insert_then_append(with, without, piece, i, r19);
    let with = with + r19;
    let without = without + r19;
    lemma_insert_then_append(with, without, piece, i, r20);
    let with = with + r20;
    let without = without + r20;
    lemma_insert_then_append(with, without, piece, i, r21);
    let with = with + r21;
    let without = without + r21;
    lemma_insert_then_append(with, without, piece, i, r22);
    let with = with + r22;
    let without = without + r22;
    assert(inserted_at(with, without, piece, i));
}

/// Slot 19 of the global arguments: replacing `q + piece` there by `q`
/// removes exactly `piece`.
proof fn lemma_global_slot_19(
    a: Seq<Seq<char>>,
    p: Seq<Seq<char>>,
    q: Seq<Seq<char>>,
    piece: Seq<Seq<char>>,
    r20: Seq<Seq<char>>,
    r21: Seq<Seq<char>>,
    r22: Seq<Seq<char>>,
)
    requires
        p == q + piece,
    ensures
        inserts(
            a + p + r20 + r21 + r22,
            a + q + r20 + r21 + r22,
            piece,
        ),
{
    reveal(inserts);
    lemma_insert_last(a, p, q, piece);
    let i = (a + q).len() as int;
    let with = a + p;
    let without = a + q;
    lemma_insert_then_append(with, without, piece, i, r20);
    let with = with + r20;
    let without = without + r20;
    lemma_insert_then_append(with, without, piece, i, r21);
    let with = with + r21;
    let without = without + r21;
    lemma_insert_then_append(with, without, piece, i, r22);
    let with = with + r22;
    let without = without + r22;
    assert(inserted_at(with, without, piece, i));
}

/// Slot 20 of the global arguments: replacing `q + piece` there by `q`
/// removes exactly `piece`.
proof fn lemma_global_slot_20(
    a: Seq<Seq<char>>,
    p: Seq<Seq<char>>,
    q: Seq<Seq<char>>,
    piece: Seq<Seq<char>>,
    r21: Seq<Seq<char>>,
    r22: Seq<Seq<char>>,
)
    requires
        p == q + piece,
    ensures
        inserts(
            a + p + r21 + r22,
            a + q + r21 + r22,
            piece,
        ),
{
    reveal(inserts);
    lemma_insert_last(a, p, q, piece);
    let i = (a + q).len() as int;
    let with = a + p;
    let without = a + q;
    lemma_insert_then_append(with, without, piece, i, r21);
    let with = with + r21;
    let without = without + r21;
    lemma_insert_then_append(with, without, piece, i, r22);
    let with = with + r22;
    let without = without + r22;
    assert(inserted_at(with, without, piece, i));
}

/// Slot 21 of the global arguments: replacing `q + piece` there by `q`
/// removes exactly `piece`.
proof fn lemma_global_slot_21(
    a: Seq<Seq<char>>,
    p: Seq<Seq<char>>,
    q: Seq<Seq<char>>,
    piece: Seq<Seq<char>>,
    r22: Seq<Seq<char>>,
)
    requires
        p == q + piece,
    ensures
        inserts(
            a + p + r22,
            a + q + r22,
            piece,
        ),
{
    reveal(inserts);
    lemma_insert_last(a, p, q, piece);
    let i = (a + q).len() as int;
    let with = a + p;
    let without = a + q;
    lemma_insert_then_append(with, without, piece, i, r22);
    let with = with + r22;
    let without = without + r22;
    assert(inserted_at(with, without, piece, i));
}

/// Slot 22 of the global arguments: replacing `q + piece` there by `q`
/// removes exactly `piece`.
proof fn lemma_global_slot_22(
    a: Seq<Seq<char>>,
    p: Seq<Seq<char>>,
    q: Seq<Seq<char>>,
    piece: Seq<Seq<char>>,
)
    requires
        p == q + piece,
    ensures
        inserts(
            a + p,
            a + q,
            piece,
        ),
{
    reveal(inserts);
    lemma_insert_last(a, p, q, piece);
    let i = (a + q).len() as int;
    let with = a + p;
    let without = a + q;
    assert(inserted_at(with, without, piece, i));
}

/// Setting the batch size adds exactly `-b` followed by the number in decimal
/// to the global arguments, whatever the other options are; every other
/// argument stays as it was.
pub proof fn law_global_batch_size_is_independent(g: GlobalOptsView, n: u32)
    ensures
        inserts(
            global_args(GlobalOptsView { batch_size: Some(n), ..g }),
            global_args(GlobalOptsView { batch_size: None, ..g }),
            seq!["-b"@, decimal(n as nat)],
        ),
{
    let g1 = GlobalOptsView { batch_size: Some(n), ..g };
    let g0 = GlobalOptsView { batch_size: None, ..g };
    assert(number_args("-b"@, widen(g1.batch_size))
        =~= number_args("-b"@, widen(g0.batch_size)) + seq!["-b"@, decimal(n as nat)]);
    lemma_global_slot_0(
        number_args("-b"@, widen(g1.batch_size)),
        number_args("-b"@, widen(g0.batch_size)),
        seq!["-b"@, decimal(n as nat)],
        value_args("-c"@, g1.client),
        value_args("-d"@, g1.dir),
        flag_args(g1.progress_indicators, "-I"@),
        flag_args(g1.standard_in, "-i"@),
        flag_args(g1.marshalled_formatted, "-G"@),
        flag_args(g1.json_formatted, "-Mj"@),
        value_args("-H"@, g1.host),
        flag_args(g1.standard_out, "-o"@),
        value_args("-p"@, g1.port),
        value_args("-P"@, g1.pass),
        number_args("-r"@, widen(g1.retries)),
        flag_args(g1.prepend_descriptive, "-s"@),
        value_args("-u"@, g1.user),
        value_args("-x"@, g1.argfile),
        value_args("-C"@, g1.charset),
        value_args("-Q"@, g1.command_charset),
        value_args("-L"@, g1.language),
        tagged_args(g1.tagged_format),
        flag_args(g1.quiet_mode, "-q"@),
        opt_repeated_args("-v"@, g1.debug_variable),
        flag_args(g1.display_version, "-V"@),
        flag_args(g1.display_help, "-h"@),
    );
}

/// Setting the client workspace adds exactly `-c` followed by the value to the
/// global arguments, whatever the other options are; every other argument stays
/// as it was.
pub proof fn law_global_client_is_independent(g: GlobalOptsView, v: Seq<char>)
    ensures
        inserts(
            global_args(GlobalOptsView { client: Some(v), ..g }),
            global_args(GlobalOptsView { client: None, ..g }),
            seq!["-c"@, v],
        ),
{
    let g1 = GlobalOptsView { client: Some(v), ..g };
    let g0 = GlobalOptsView { client: None, ..g };
    assert(value_args("-c"@, g1.client) =~= value_args("-c"@, g0.client) + seq!["-c"@, v]);
    lemma_global_slot_1(
        number_args("-b"@, widen(g1.batch_size)),
        value_args("-c"@, g1.client),
        value_args("-c"@, g0.client),
        seq!["-c"@, v],
        value_args("-d"@, g1.dir),
        flag_args(g1.progress_indicators, "-I"@),
        flag_args(g1.standard_in, "-i"@),
        flag_args(g1.marshalled_formatted, "-G"@),
        flag_args(g1.json_formatted, "-Mj"@),
        value_args("-H"@, g1.host),
        flag_args(g1.standard_out, "-o"@),
        value_args("-p"@, g1.port),
        value_args("-P"@, g1.pass),
        number_args("-r"@, widen(g1.retries)),
        flag_args(g1.prepend_descriptive, "-s"@),
        value_args("-u"@, g1.user),
        value_args("-x"@, g1.argfile),
        value_args("-C"@, g1.charset),
        value_args("-Q"@, g1.command_charset),
        value_args("-L"@, g1.language),
        tagged_args(g1.tagged_format),
        flag_args(g1.quiet_mode, "-q"@),
        opt_repeated_args("-v"@, g1.debug_variable),
        flag_args(g1.display_version, "-V"@),
        flag_args(g1.display_help, "-h"@),
    );
}

/// Setting the working directory adds exactly `-d` followed by the value to the
/// global arguments, whatever the other options are; every other argument stays
/// as it was.
pub proof fn law_global_dir_is_independent(g: GlobalOptsView, v: Seq<char>)
    ensures
        inserts(
            global_args(GlobalOptsView { dir: Some(v), ..g }),
            global_args(GlobalOptsView { dir: None, ..g }),
            seq!["-d"@, v],
        ),
{
    let g1 = GlobalOptsView { dir: Some(v), ..g };
    let g0 = GlobalOptsView { dir: None, ..g };
    assert(value_args("-d"@, g1.dir) =~= value_args("-d"@, g0.dir) + seq!["-d"@, v]);
    lemma_global_slot_2(
        number_args("-b"@, widen(g1.batch_size))
            + value_args("-c"@, g1.client),
        value_args("-d"@, g1.dir),
        value_args("-d"@, g0.dir),
        seq!["-d"@, v],
        flag_args(g1.progress_indicators, "-I"@),
        flag_args(g1.standard_in, "-i"@),
        flag_args(g1.marshalled_formatted, "-G"@),
        flag_args(g1.json_formatted, "-Mj"@),
        value_args("-H"@, g1.host),
        flag_args(g1.standard_out, "-o"@),
        value_args("-p"@, g1.port),
        value_args("-P"@, g1.pass),
        number_args("-r"@, widen(g1.retries)),
        flag_args(g1.prepend_descriptive, "-s"@),
        value_args("-u"@, g1.user),
        value_args("-x"@, g1.argfile),
        value_args("-C"@, g1.charset),
        value_args("-Q"@, g1.command_charset),
        value_args("-L"@, g1.language),
        tagged_args(g1.tagged_format),
        flag_args(g1.quiet_mode, "-q"@),
        opt_repeated_args("-v"@, g1.debug_variable),
        flag_args(g1.display_version, "-V"@),
        flag_args(g1.display_help, "-h"@),
    );
}

/// Setting progress indicators adds exactly `-I` to the global arguments,
/// whatever the other options are; every other argument stays as it was.
pub proof fn law_global_progress_indicators_is_independent(g: GlobalOptsView)
    ensures
        inserts(
            global_args(GlobalOptsView { progress_indicators: true, ..g }),
            global_args(GlobalOptsView { progress_indicators: false, ..g }),
            seq!["-I"@],
        ),
{
    let g1 = GlobalOptsView { progress_indicators: true, ..g };
    let g0 = GlobalOptsView { progress_indicators: false, ..g };
    assert(flag_args(g1.progress_indicators, "-I"@)
        =~= flag_args(g0.progress_indicators, "-I"@) + seq!["-I"@]);
    lemma_global_slot_3(
        number_args("-b"@, widen(g1.batch_size))
            + value_args("-c"@, g1.client)
            + value_args("-d"@, g1.dir),
        flag_args(g1.progress_indicators, "-I"@),
        flag_args(g0.progress_indicators, "-I"@),
        seq!["-I"@],
        flag_args(g1.standard_in, "-i"@),
        flag_args(g1.marshalled_formatted, "-G"@),
        flag_args(g1.json_formatted, "-Mj"@),
        value_args("-H"@, g1.host),
        flag_args(g1.standard_out, "-o"@),
        value_args("-p"@, g1.port),
        value_args("-P"@, g1.pass),
        number_args("-r"@, widen(g1.retries)),
        flag_args(g1.prepend_descriptive, "-s"@),
        value_args("-u"@, g1.user),
        value_args("-x"@, g1.argfile),
        value_args("-C"@, g1.charset),
        value_args("-Q"@, g1.command_charset),
        value_args("-L"@, g1.language),
        tagged_args(g1.tagged_format),
        flag_args(g1.quiet_mode, "-q"@),
        opt_repeated_args("-v"@, g1.debug_variable),
        flag_args(g1.display_version, "-V"@),
        flag_args(g1.display_help, "-h"@),
    );
}

/// Setting reading arguments from standard input adds exactly `-i` to the
/// global arguments, whatever the other options are; every other argument stays
/// as it was.
pub proof fn law_global_standard_in_is_independent(g: GlobalOptsView)
    ensures
        inserts(
            global_args(GlobalOptsView { standard_in: true, ..g }),
            global_args(GlobalOptsView { standard_in: false, ..g }),
            seq!["-i"@],
        ),
{
    let g1 = GlobalOptsView { standard_in: true, ..g };
    let g0 = GlobalOptsView { standard_in: false, ..g };
    assert(flag_args(g1.standard_in, "-i"@) =~= flag_args(g0.standard_in, "-i"@) + seq!["-i"@]);
    lemma_global_slot_4(
        number_args("-b"@, widen(g1.batch_size))
            + value_args("-c"@, g1.client)
            + value_args("-d"@, g1.dir)
            + flag_args(g1.progress_indicators, "-I"@),
        flag_args(g1.standard_in, "-i"@),
        flag_args(g0.standard_in, "-i"@),
        seq!["-i"@],
        flag_args(g1.marshalled_formatted, "-G"@),
        flag_args(g1.json_formatted, "-Mj"@),
        value_args("-H"@, g1.host),
        flag_args(g1.standard_out, "-o"@),
        value_args("-p"@, g1.port),
        value_args("-P"@, g1.pass),
        number_args("-r"@, widen(g1.retries)),
        flag_args(g1.prepend_descriptive, "-s"@),
        value_args("-u"@, g1.user),
        value_args("-x"@, g1.argfile),
        value_args("-C"@, g1.charset),
        value_args("-Q"@, g1.command_charset),
        value_args("-L"@, g1.language),
        tagged_args(g1.tagged_format),
        flag_args(g1.quiet_mode, "-q"@),
        opt_repeated_args("-v"@, g1.debug_variable),
        flag_args(g1.display_version, "-V"@),
        flag_args(g1.display_help, "-h"@),
    );
}

/// Setting marshalled output adds exactly `-G` to the global arguments,
/// whatever the other options are; every other argument stays as it was.
pub proof fn law_global_marshalled_formatted_is_independent(g: GlobalOptsView)
    ensures
        inserts(
            global_args(GlobalOptsView { marshalled_formatted: true, ..g }),
            global_args(GlobalOptsView { marshalled_formatted: false, ..g }),
            seq!["-G"@],
        ),
{
    let g1 = GlobalOptsView { marshalled_formatted: true, ..g };
    let g0 = GlobalOptsView { marshalled_formatted: false, ..g };
    assert(flag_args(g1.marshalled_formatted, "-G"@)
        =~= flag_args(g0.marshalled_formatted, "-G"@) + seq!["-G"@]);
    lemma_global_slot_5(
        number_args("-b"@, widen(g1.batch_size))
            + value_args("-c"@, g1.client)
            + value_args("-d"@, g1.dir)
            + flag_args(g1.progress_indicators, "-I"@)
            + flag_args(g1.standard_in, "-i"@),
        flag_args(g1.marshalled_formatted, "-G"@),
        flag_args(g0.marshalled_formatted, "-G"@),
        seq!["-G"@],
        flag_args(g1.json_formatted, "-Mj"@),
        value_args("-H"@, g1.host),
        flag_args(g1.standard_out, "-o"@),
        value_args("-p"@, g1.port),
        value_args("-P"@, g1.pass),
        number_args("-r"@, widen(g1.retries)),
        flag_args(g1.prepend_descriptive, "-s"@),
        value_args("-u"@, g1.user),
        value_args("-x"@, g1.argfile),
        value_args("-C"@, g1.charset),
        value_args("-Q"@, g1.command_charset),
        value_args("-L"@, g1.language),
        tagged_args(g1.tagged_format),
        flag_args(g1.quiet_mode, "-q"@),
        opt_repeated_args("-v"@, g1.debug_variable),
        flag_args(g1.display_version, "-V"@),
        flag_args(g1.display_help, "-h"@),
    );
}

/// Setting JSON output adds exactly `-Mj` to the global arguments, whatever the
/// other options are; every other argument stays as it was.
pub proof fn law_global_json_formatted_is_independent(g: GlobalOptsView)
    ensures
        inserts(
            global_args(GlobalOptsView { json_formatted: true, ..g }),
            global_args(GlobalOptsView { json_formatted: false, ..g }),
            seq!["-Mj"@],
        ),
{
    let g1 = GlobalOptsView { json_formatted: true, ..g };
    let g0 = GlobalOptsView { json_formatted: false, ..g };
    assert(flag_args(g1.json_formatted, "-Mj"@)
        =~= flag_args(g0.json_formatted, "-Mj"@) + seq!["-Mj"@]);
    lemma_global_slot_6(
        number_args("-b"@, widen(g1.batch_size))
            + value_args("-c"@, g1.client)
            + value_args("-d"@, g1.dir)
            + flag_args(g1.progress_indicators, "-I"@)
            + flag_args(g1.standard_in, "-i"@)
            + flag_args(g1.marshalled_formatted, "-G"@),
        flag_args(g1.json_formatted, "-Mj"@),
        flag_args(g0.json_formatted, "-Mj"@),
        seq!["-Mj"@],
        value_args("-H"@, g1.host),
        flag_args(g1.standard_out, "-o"@),
        value_args("-p"@, g1.port),
        value_args("-P"@, g1.pass),
        number_args("-r"@, widen(g1.retries)),
        flag_args(g1.prepend_descriptive, "-s"@),
        value_args("-u"@, g1.user),
        value_args("-x"@, g1.argfile),
        value_args("-C"@, g1.charset),
        value_args("-Q"@, g1.command_charset),
        value_args("-L"@, g1.language),
        tagged_args(g1.tagged_format),
        flag_args(g1.quiet_mode, "-q"@),
        opt_repeated_args("-v"@, g1.debug_variable),
        flag_args(g1.display_version, "-V"@),
        flag_args(g1.display_help, "-h"@),
    );
}

/// Setting the host name adds exactly `-H` followed by the value to the global
/// arguments, whatever the other options are; every other argument stays as it
/// was.
pub proof fn law_global_host_is_independent(g: GlobalOptsView, v: Seq<char>)
    ensures
        inserts(
            global_args(GlobalOptsView { host: Some(v), ..g }),
            global_args(GlobalOptsView { host: None, ..g }),
            seq!["-H"@, v],
        ),
{
    let g1 = GlobalOptsView { host: Some(v), ..g };
    let g0 = GlobalOptsView { host: None, ..g };
    assert(value_args("-H"@, g1.host) =~= value_args("-H"@, g0.host) + seq!["-H"@, v]);
    lemma_global_slot_7(
        number_args("-b"@, widen(g1.batch_size))
            + value_args("-c"@, g1.client)
            + value_args("-d"@, g1.dir)
            + flag_args(g1.progress_indicators, "-I"@)
            + flag_args(g1.standard_in, "-i"@)
            + flag_args(g1.marshalled_formatted, "-G"@)
            + flag_args(g1.json_formatted, "-Mj"@),
        value_args("-H"@, g1.host),
        value_args("-H"@, g0.host),
        seq!["-H"@, v],
        flag_args(g1.standard_out, "-o"@),
        value_args("-p"@, g1.port),
        value_args("-P"@, g1.pass),
        number_args("-r"@, widen(g1.retries)),
        flag_args(g1.prepend_descriptive, "-s"@),
        value_args("-u"@, g1.user),
        value_args("-x"@, g1.argfile),
        value_args("-C"@, g1.charset),
        value_args("-Q"@, g1.command_charset),
        value_args("-L"@, g1.language),
        tagged_args(g1.tagged_format),
        flag_args(g1.quiet_mode, "-q"@),
        opt_repeated_args("-v"@, g1.debug_variable),
        flag_args(g1.display_version, "-V"@),
        flag_args(g1.display_help, "-h"@),
    );
}

/// Setting redirecting errors to standard output adds exactly `-o` to the
/// global arguments, whatever the other options are; every other argument stays
/// as it was.
pub proof fn law_global_standard_out_is_independent(g: GlobalOptsView)
    ensures
        inserts(
            global_args(GlobalOptsView { standard_out: true, ..g }),
            global_args(GlobalOptsView { standard_out: false, ..g }),
            seq!["-o"@],
        ),
{
    let g1 = GlobalOptsView { standard_out: true, ..g };
    let g0 = GlobalOptsView { standard_out: false, ..g };
    assert(flag_args(g1.standard_out, "-o"@) =~= flag_args(g0.standard_out, "-o"@) + seq!["-o"@]);
    lemma_global_slot_8(
        number_args("-b"@, widen(g1.batch_size))
            + value_args("-c"@, g1.client)
            + value_args("-d"@, g1.dir)
            + flag_args(g1.progress_indicators, "-I"@)
            + flag_args(g1.standard_in, "-i"@)
            + flag_args(g1.marshalled_formatted, "-G"@)
            + flag_args(g1.json_formatted, "-Mj"@)
            + value_args("-H"@, g1.host),
        flag_args(g1.standard_out, "-o"@),
        flag_args(g0.standard_out, "-o"@),
        seq!["-o"@],
        value_args("-p"@, g1.port),
        value_args("-P"@, g1.pass),
        number_args("-r"@, widen(g1.retries)),
        flag_args(g1.prepend_descriptive, "-s"@),
        value_args("-u"@, g1.user),
        value_args("-x"@, g1.argfile),
        value_args("-C"@, g1.charset),
        value_args("-Q"@, g1.command_charset),
        value_args("-L"@, g1.language),
        tagged_args(g1.tagged_format),
        flag_args(g1.quiet_mode, "-q"@),
        opt_repeated_args("-v"@, g1.debug_variable),
        flag_args(g1.display_version, "-V"@),
        flag_args(g1.display_help, "-h"@),
    );
}

/// Setting the server port adds exactly `-p` followed by the value to the
/// global arguments, whatever the other options are; every other argument stays
/// as it was.
pub proof fn law_global_port_is_independent(g: GlobalOptsView, v: Seq<char>)
    ensures
        inserts(
            global_args(GlobalOptsView { port: Some(v), ..g }),
            global_args(GlobalOptsView { port: None, ..g }),
            seq!["-p"@, v],
        ),
{
    let g1 = GlobalOptsView { port: Some(v), ..g };
    let g0 = GlobalOptsView { port: None, ..g };
    assert(value_args("-p"@, g1.port) =~= value_args("-p"@, g0.port) + seq!["-p"@, v]);
    lemma_global_slot_9(
        number_args("-b"@, widen(g1.batch_size))
            + value_args("-c"@, g1.client)
            + value_args("-d"@, g1.dir)
            + flag_args(g1.progress_indicators, "-I"@)
            + flag_args(g1.standard_in, "-i"@)
            + flag_args(g1.marshalled_formatted, "-G"@)
            + flag_args(g1.json_formatted, "-Mj"@)
            + value_args("-H"@, g1.host)
            + flag_args(g1.standard_out, "-o"@),
        value_args("-p"@, g1.port),
        value_args("-p"@, g0.port),
        seq!["-p"@, v],
        value_args("-P"@, g1.pass),
        number_args("-r"@, widen(g1.retries)),
        flag_args(g1.prepend_descriptive, "-s"@),
        value_args("-u"@, g1.user),
        value_args("-x"@, g1.argfile),
        value_args("-C"@, g1.charset),
        value_args("-Q"@, g1.command_charset),
        value_args("-L"@, g1.language),
        tagged_args(g1.tagged_format),
        flag_args(g1.quiet_mode, "-q"@),
        opt_repeated_args("-v"@, g1.debug_variable),
        flag_args(g1.display_version, "-V"@),
        flag_args(g1.display_help, "-h"@),
    );
}

/// Setting the password adds exactly `-P` followed by the value to the global
/// arguments, whatever the other options are; every other argument stays as it
/// was.
pub proof fn law_global_pass_is_independent(g: GlobalOptsView, v: Seq<char>)
    ensures
        inserts(
            global_args(GlobalOptsView { pass: Some(v), ..g }),
            global_args(GlobalOptsView { pass: None, ..g }),
            seq!["-P"@, v],
        ),
{
    let g1 = GlobalOptsView { pass: Some(v), ..g };
    let g0 = GlobalOptsView { pass: None, ..g };
    assert(value_args("-P"@, g1.pass) =~= value_args("-P"@, g0.pass) + seq!["-P"@, v]);
    lemma_global_slot_10(
        number_args("-b"@, widen(g1.batch_size))
            + value_args("-c"@, g1.client)
            + value_args("-d"@, g1.dir)
            + flag_args(g1.progress_indicators, "-I"@)
            + flag_args(g1.standard_in, "-i"@)
            + flag_args(g1.marshalled_formatted, "-G"@)
            + flag_args(g1.json_formatted, "-Mj"@)
            + value_args("-H"@, g1.host)
            + flag_args(g1.standard_out, "-o"@)
            + value_args("-p"@, g1.port),
        value_args("-P"@, g1.pass),
        value_args("-P"@, g0.pass),
        seq!["-P"@, v],
        number_args("-r"@, widen(g1.retries)),
        flag_args(g1.prepend_descriptive, "-s"@),
        value_args("-u"@, g1.user),
        value_args("-x"@, g1.argfile),
        value_args("-C"@, g1.charset),
        value_args("-Q"@, g1.command_charset),
        value_args("-L"@, g1.language),
        tagged_args(g1.tagged_format),
        flag_args(g1.quiet_mode, "-q"@),
        opt_repeated_args("-v"@, g1.debug_variable),
        flag_args(g1.display_version, "-V"@),
        flag_args(g1.display_help, "-h"@),
    );
}

/// Setting the retry count adds exactly `-r` followed by the number in decimal
/// to the global arguments, whatever the other options are; every other
/// argument stays as it was.
pub proof fn law_global_retries_is_independent(g: GlobalOptsView, n: u32)
    ensures
        inserts(
            global_args(GlobalOptsView { retries: Some(n), ..g }),
            global_args(GlobalOptsView { retries: None, ..g }),
            seq!["-r"@, decimal(n as nat)],
        ),
{
    let g1 = GlobalOptsView { retries: Some(n), ..g };
    let g0 = GlobalOptsView { retries: None, ..g };
    assert(number_args("-r"@, widen(g1.retries))
        =~= number_args("-r"@, widen(g0.retries)) + seq!["-r"@, decimal(n as nat)]);
    lemma_global_slot_11(
        number_args("-b"@, widen(g1.batch_size))
            + value_args("-c"@, g1.client)
            + value_args("-d"@, g1.dir)
            + flag_args(g1.progress_indicators, "-I"@)
            + flag_args(g1.standard_in, "-i"@)
            + flag_args(g1.marshalled_formatted, "-G"@)
            + flag_args(g1.json_formatted, "-Mj"@)
            + value_args("-H"@, g1.host)
            + flag_args(g1.standard_out, "-o"@)
            + value_args("-p"@, g1.port)
            + value_args("-P"@, g1.pass),
        number_args("-r"@, widen(g1.retries)),
        number_args("-r"@, widen(g0.retries)),
        seq!["-r"@, decimal(n as nat)],
        flag_args(g1.prepend_descriptive, "-s"@),
        value_args("-u"@, g1.user),
        value_args("-x"@, g1.argfile),
        value_args("-C"@, g1.charset),
        value_args("-Q"@, g1.command_charset),
        value_args("-L"@, g1.language),
        tagged_args(g1.tagged_format),
        flag_args(g1.quiet_mode, "-q"@),
        opt_repeated_args("-v"@, g1.debug_variable),
        flag_args(g1.display_version, "-V"@),
        flag_args(g1.display_help, "-h"@),
    );
}

/// Setting descriptive prefixes adds exactly `-s` to the global arguments,
/// whatever the other options are; every other argument stays as it was.
pub proof fn law_global_prepend_descriptive_is_independent(g: GlobalOptsView)
    ensures
        inserts(
            global_args(GlobalOptsView { prepend_descriptive: true, ..g }),
            global_args(GlobalOptsView { prepend_descriptive: false, ..g }),
            seq!["-s"@],
        ),
{
    let g1 = GlobalOptsView { prepend_descriptive: true, ..g };
    let g0 = GlobalOptsView { prepend_descriptive: false, ..g };
    assert(flag_args(g1.prepend_descriptive, "-s"@)
        =~= flag_args(g0.prepend_descriptive, "-s"@) + seq!["-s"@]);
    lemma_global_slot_12(
        number_args("-b"@, widen(g1.batch_size))
            + value_args("-c"@, g1.client)
            + value_args("-d"@, g1.dir)
            + flag_args(g1.progress_indicators, "-I"@)
            + flag_args(g1.standard_in, "-i"@)
            + flag_args(g1.marshalled_formatted, "-G"@)
            + flag_args(g1.json_formatted, "-Mj"@)
            + value_args("-H"@, g1.host)
            + flag_args(g1.standard_out, "-o"@)
            + value_args("-p"@, g1.port)
            + value_args("-P"@, g1.pass)
            + number_args("-r"@, widen(g1.retries)),
        flag_args(g1.prepend_descriptive, "-s"@),
        flag_args(g0.prepend_descriptive, "-s"@),
        seq!["-s"@],
        value_args("-u"@, g1.user),
        value_args("-x"@, g1.argfile),
        value_args("-C"@, g1.charset),
        value_args("-Q"@, g1.command_charset),
        value_args("-L"@, g1.language),
        tagged_args(g1.tagged_format),
        flag_args(g1.quiet_mode, "-q"@),
        opt_repeated_args("-v"@, g1.debug_variable),
        flag_args(g1.display_version, "-V"@),
        flag_args(g1.display_help, "-h"@),
    );
}

/// Setting the user name adds exactly `-u` followed by the value to the global
/// arguments, whatever the other options are; every other argument stays as it
/// was.
pub proof fn law_global_user_is_independent(g: GlobalOptsView, v: Seq<char>)
    ensures
        inserts(
            global_args(GlobalOptsView { user: Some(v), ..g }),
            global_args(GlobalOptsView { user: None, ..g }),
            seq!["-u"@, v],
        ),
{
    let g1 = GlobalOptsView { user: Some(v), ..g };
    let g0 = GlobalOptsView { user: None, ..g };
    assert(value_args("-u"@, g1.user) =~= value_args("-u"@, g0.user) + seq!["-u"@, v]);
    lemma_global_slot_13(
        number_args("-b"@, widen(g1.batch_size))
            + value_args("-c"@, g1.client)
            + value_args("-d"@, g1.dir)
            + flag_args(g1.progress_indicators, "-I"@)
            + flag_args(g1.standard_in, "-i"@)
            + flag_args(g1.marshalled_formatted, "-G"@)
            + flag_args(g1.json_formatted, "-Mj"@)
            + value_args("-H"@, g1.host)
            + flag_args(g1.standard_out, "-o"@)
            + value_args("-p"@, g1.port)
            + value_args("-P"@, g1.pass)
            + number_args("-r"@, widen(g1.retries))
            + flag_args(g1.prepend_descriptive, "-s"@),
        value_args("-u"@, g1.user),
        value_args("-u"@, g0.user),
        seq!["-u"@, v],
        value_args("-x"@, g1.argfile),
        value_args("-C"@, g1.charset),
        value_args("-Q"@, g1.command_charset),
        value_args("-L"@, g1.language),
        tagged_args(g1.tagged_format),
        flag_args(g1.quiet_mode, "-q"@),
        opt_repeated_args("-v"@, g1.debug_variable),
        flag_args(g1.display_version, "-V"@),
        flag_args(g1.display_help, "-h"@),
    );
}

/// Setting the argument file adds exactly `-x` followed by the value to the
/// global arguments, whatever the other options are; every other argument stays
/// as it was.
pub proof fn law_global_argfile_is_independent(g: GlobalOptsView, v: Seq<char>)
    ensures
        inserts(
            global_args(GlobalOptsView { argfile: Some(v), ..g }),
            global_args(GlobalOptsView { argfile: None, ..g }),
            seq!["-x"@, v],
        ),
{
    let g1 = GlobalOptsView { argfile: Some(v), ..g };
    let g0 = GlobalOptsView { argfile: None, ..g };
    assert(value_args("-x"@, g1.argfile) =~= value_args("-x"@, g0.argfile) + seq!["-x"@, v]);
    lemma_global_slot_14(
        number_args("-b"@, widen(g1.batch_size))
            + value_args("-c"@, g1.client)
            + value_args("-d"@, g1.dir)
            + flag_args(g1.progress_indicators, "-I"@)
            + flag_args(g1.standard_in, "-i"@)
            + flag_args(g1.marshalled_formatted, "-G"@)
            + flag_args(g1.json_formatted, "-Mj"@)
            + value_args("-H"@, g1.host)
            + flag_args(g1.standard_out, "-o"@)
            + value_args("-p"@, g1.port)
            + value_args("-P"@, g1.pass)
            + number_args("-r"@, widen(g1.retries))
            + flag_args(g1.prepend_descriptive, "-s"@)
            + value_args("-u"@, g1.user),
        value_args("-x"@, g1.argfile),
        value_args("-x"@, g0.argfile),
        seq!["-x"@, v],
        value_args("-C"@, g1.charset),
        value_args("-Q"@, g1.command_charset),
        value_args("-L"@, g1.language),
        tagged_args(g1.tagged_format),
        flag_args(g1.quiet_mode, "-q"@),
        opt_repeated_args("-v"@, g1.debug_variable),
        flag_args(g1.display_version, "-V"@),
        flag_args(g1.display_help, "-h"@),
    );
}

/// Setting the character set adds exactly `-C` followed by the value to the
/// global arguments, whatever the other options are; every other argument stays
/// as it was.
pub proof fn law_global_charset_is_independent(g: GlobalOptsView, v: Seq<char>)
    ensures
        inserts(
            global_args(GlobalOptsView { charset: Some(v), ..g }),
            global_args(GlobalOptsView { charset: None, ..g }),
            seq!["-C"@, v],
        ),
{
    let g1 = GlobalOptsView { charset: Some(v), ..g };
    let g0 = GlobalOptsView { charset: None, ..g };
    assert(value_args("-C"@, g1.charset) =~= value_args("-C"@, g0.charset) + seq!["-C"@, v]);
    lemma_global_slot_15(
        number_args("-b"@, widen(g1.batch_size))
            + value_args("-c"@, g1.client)
            + value_args("-d"@, g1.dir)
            + flag_args(g1.progress_indicators, "-I"@)
            + flag_args(g1.standard_in, "-i"@)
            + flag_args(g1.marshalled_formatted, "-G"@)
            + flag_args(g1.json_formatted, "-Mj"@)
            + value_args("-H"@, g1.host)
            + flag_args(g1.standard_out, "-o"@)
            + value_args("-p"@, g1.port)
            + value_args("-P"@, g1.pass)
            + number_args("-r"@, widen(g1.retries))
            + flag_args(g1.prepend_descriptive, "-s"@)
            + value_args("-u"@, g1.user)
            + value_args("-x"@, g1.argfile),
        value_args("-C"@, g1.charset),
        value_args("-C"@, g0.charset),
        seq!["-C"@, v],
        value_args("-Q"@, g1.command_charset),
        value_args("-L"@, g1.language),
        tagged_args(g1.tagged_format),
        flag_args(g1.quiet_mode, "-q"@),
        opt_repeated_args("-v"@, g1.debug_variable),
        flag_args(g1.display_version, "-V"@),
        flag_args(g1.display_help, "-h"@),
    );
}

/// Setting the command character set adds exactly `-Q` followed by the value to
/// the global arguments, whatever the other options are; every other argument
/// stays as it was.
pub proof fn law_global_command_charset_is_independent(g: GlobalOptsView, v: Seq<char>)
    ensures
        inserts(
            global_args(GlobalOptsView { command_charset: Some(v), ..g }),
            global_args(GlobalOptsView { command_charset: None, ..g }),
            seq!["-Q"@, v],
        ),
{
    let g1 = GlobalOptsView { command_charset: Some(v), ..g };
    let g0 = GlobalOptsView { command_charset: None, ..g };
    assert(value_args("-Q"@, g1.command_charset)
        =~= value_args("-Q"@, g0.command_charset) + seq!["-Q"@, v]);
    lemma_global_slot_16(
        number_args("-b"@, widen(g1.batch_size))
            + value_args("-c"@, g1.client)
            + value_args("-d"@, g1.dir)
            + flag_args(g1.progress_indicators, "-I"@)
            + flag_args(g1.standard_in, "-i"@)
            + flag_args(g1.marshalled_formatted, "-G"@)
            + flag_args(g1.json_formatted, "-Mj"@)
            + value_args("-H"@, g1.host)
            + flag_args(g1.standard_out, "-o"@)
            + value_args("-p"@, g1.port)
            + value_args("-P"@, g1.pass)
            + number_args("-r"@, widen(g1.retries))
            + flag_args(g1.prepend_descriptive, "-s"@)
            + value_args("-u"@, g1.user)
            + value_args("-x"@, g1.argfile)
            + value_args("-C"@, g1.charset),
        value_args("-Q"@, g1.command_charset),
        value_args("-Q"@, g0.command_charset),
        seq!["-Q"@, v],
        value_args("-L"@, g1.language),
        tagged_args(g1.tagged_format),
        flag_args(g1.quiet_mode, "-q"@),
        opt_repeated_args("-v"@, g1.debug_variable),
        flag_args(g1.display_version, "-V"@),
        flag_args(g1.display_help, "-h"@),
    );
}

/// Setting the message language adds exactly `-L` followed by the value to the
/// global arguments, whatever the other options are; every other argument stays
/// as it was.
pub proof fn law_global_language_is_independent(g: GlobalOptsView, v: Seq<char>)
    ensures
        inserts(
            global_args(GlobalOptsView { language: Some(v), ..g }),
            global_args(GlobalOptsView { language: None, ..g }),
            seq!["-L"@, v],
        ),
{
    let g1 = GlobalOptsView { language: Some(v), ..g };
    let g0 = GlobalOptsView { language: None, ..g };
    assert(value_args("-L"@, g1.language) =~= value_args("-L"@, g0.language) + seq!["-L"@, v]);
    lemma_global_slot_17(
        number_args("-b"@, widen(g1.batch_size))
            + value_args("-c"@, g1.client)
            + value_args("-d"@, g1.dir)
            + flag_args(g1.progress_indicators, "-I"@)
            + flag_args(g1.standard_in, "-i"@)
            + flag_args(g1.marshalled_formatted, "-G"@)
            + flag_args(g1.json_formatted, "-Mj"@)
            + value_args("-H"@, g1.host)
            + flag_args(g1.standard_out, "-o"@)
            + value_args("-p"@, g1.port)
            + value_args("-P"@, g1.pass)
            + number_args("-r"@, widen(g1.retries))
            + flag_args(g1.prepend_descriptive, "-s"@)
            + value_args("-u"@, g1.user)
            + value_args("-x"@, g1.argfile)
            + value_args("-C"@, g1.charset)
            + value_args("-Q"@, g1.command_charset),
        value_args("-L"@, g1.language),
        value_args("-L"@, g0.language),
        seq!["-L"@, v],
        tagged_args(g1.tagged_format),
        flag_args(g1.quiet_mode, "-q"@),
        opt_repeated_args("-v"@, g1.debug_variable),
        flag_args(g1.display_version, "-V"@),
        flag_args(g1.display_help, "-h"@),
    );
}

/// Setting tagged output adds exactly `-z tag` to the global arguments,
/// whatever the other options are; every other argument stays as it was.
pub proof fn law_global_tagged_format_is_independent(g: GlobalOptsView)
    ensures
        inserts(
            global_args(GlobalOptsView { tagged_format: true, ..g }),
            global_args(GlobalOptsView { tagged_format: false, ..g }),
            seq!["-z"@, "tag"@],
        ),
{
    let g1 = GlobalOptsView { tagged_format: true, ..g };
    let g0 = GlobalOptsView { tagged_format: false, ..g };
    assert(tagged_args(g1.tagged_format) =~= tagged_args(g0.tagged_format) + seq!["-z"@, "tag"@]);
    lemma_global_slot_18(
        number_args("-b"@, widen(g1.batch_size))
            + value_args("-c"@, g1.client)
            + value_args("-d"@, g1.dir)
            + flag_args(g1.progress_indicators, "-I"@)
            + flag_args(g1.standard_in, "-i"@)
            + flag_args(g1.marshalled_formatted, "-G"@)
            + flag_args(g1.json_formatted, "-Mj"@)
            + value_args("-H"@, g1.host)
            + flag_args(g1.standard_out, "-o"@)
            + value_args("-p"@, g1.port)
            + value_args("-P"@, g1.pass)
            + number_args("-r"@, widen(g1.retries))
            + flag_args(g1.prepend_descriptive, "-s"@)
            + value_args("-u"@, g1.user)
            + value_args("-x"@, g1.argfile)
            + value_args("-C"@, g1.charset)
            + value_args("-Q"@, g1.command_charset)
            + value_args("-L"@, g1.language),
        tagged_args(g1.tagged_format),
        tagged_args(g0.tagged_format),
        seq!["-z"@, "tag"@],
        flag_args(g1.quiet_mode, "-q"@),
        opt_repeated_args("-v"@, g1.debug_variable),
        flag_args(g1.display_version, "-V"@),
        flag_args(g1.display_help, "-h"@),
    );
}

/// Setting quiet mode adds exactly `-q` to the global arguments, whatever the
/// other options are; every other argument stays as it was.
pub proof fn law_global_quiet_mode_is_independent(g: GlobalOptsView)
    ensures
        inserts(
            global_args(GlobalOptsView { quiet_mode: true, ..g }),
            global_args(GlobalOptsView { quiet_mode: false, ..g }),
            seq!["-q"@],
        ),
{
    let g1 = GlobalOptsView { quiet_mode: true, ..g };
    let g0 = GlobalOptsView { quiet_mode: false, ..g };
    assert(flag_args(g1.quiet_mode, "-q"@) =~= flag_args(g0.quiet_mode, "-q"@) + seq!["-q"@]);
    lemma_global_slot_19(
        number_args("-b"@, widen(g1.batch_size))
            + value_args("-c"@, g1.client)
            + value_args("-d"@, g1.dir)
            + flag_args(g1.progress_indicators, "-I"@)
            + flag_args(g1.standard_in, "-i"@)
            + flag_args(g1.marshalled_formatted, "-G"@)
            + flag_args(g1.json_formatted, "-Mj"@)
            + value_args("-H"@, g1.host)
            + flag_args(g1.standard_out, "-o"@)
            + value_args("-p"@, g1.port)
            + value_args("-P"@, g1.pass)
            + number_args("-r"@, widen(g1.retries))
            + flag_args(g1.prepend_descriptive, "-s"@)
            + value_args("-u"@, g1.user)
            + value_args("-x"@, g1.argfile)
            + value_args("-C"@, g1.charset)
            + value_args("-Q"@, g1.command_charset)
            + value_args("-L"@, g1.language)
            + tagged_args(g1.tagged_format),
        flag_args(g1.quiet_mode, "-q"@),
        flag_args(g0.quiet_mode, "-q"@),
        seq!["-q"@],
        opt_repeated_args("-v"@, g1.debug_variable),
        flag_args(g1.display_version, "-V"@),
        flag_args(g1.display_help, "-h"@),
    );
}

/// Adding a debug variable adds exactly `-v` followed by the variable to the
/// global arguments, after the variables added before, whatever the other
/// options are; every other argument stays as it was.
#[verifier::rlimit(40)]
pub proof fn law_global_debug_variable_is_independent(
    g: GlobalOptsView,
    d: Option<Seq<Seq<char>>>,
    v: Seq<char>,
)
    ensures
        inserts(
            global_args(GlobalOptsView { debug_variable: opt_push(d, v), ..g }),
            global_args(GlobalOptsView { debug_variable: d, ..g }),
            seq!["-v"@, v],
        ),
{
    let g1 = GlobalOptsView { debug_variable: opt_push(d, v), ..g };
    let g0 = GlobalOptsView { debug_variable: d, ..g };
    assert(opt_repeated_args("-v"@, g1.debug_variable)
        =~= opt_repeated_args("-v"@, g0.debug_variable)
        + seq!["-v"@, v]) by {
        match d {
            Some(vs) => {
                assert(vs.push(v).drop_last() =~= vs);
            },
            None => {
                assert(seq![v].drop_last() =~= Seq::<Seq<char>>::empty());
                assert(repeated_args("-v"@, Seq::<Seq<char>>::empty()) == Seq::<Seq<char>>::empty());
                assert(Seq::<Seq<char>>::empty() + seq!["-v"@, v] =~= seq!["-v"@, v]);
            },
        }
    }
    lemma_global_slot_20(
        number_args("-b"@, widen(g1.batch_size))
            + value_args("-c"@, g1.client)
            + value_args("-d"@, g1.dir)
            + flag_args(g1.progress_indicators, "-I"@)
            + flag_args(g1.standard_in, "-i"@)
            + flag_args(g1.marshalled_formatted, "-G"@)
            + flag_args(g1.json_formatted, "-Mj"@)
            + value_args("-H"@, g1.host)
            + flag_args(g1.standard_out, "-o"@)
            + value_args("-p"@, g1.port)
            + value_args("-P"@, g1.pass)
            + number_args("-r"@, widen(g1.retries))
            + flag_args(g1.prepend_descriptive, "-s"@)
            + value_args("-u"@, g1.user)
            + value_args("-x"@, g1.argfile)
            + value_args("-C"@, g1.charset)
            + value_args("-Q"@, g1.command_charset)
            + value_args("-L"@, g1.language)
            + tagged_args(g1.tagged_format)
            + flag_args(g1.quiet_mode, "-q"@),
        opt_repeated_args("-v"@, g1.debug_variable),
        opt_repeated_args("-v"@, g0.debug_variable),
        seq!["-v"@, v],
        flag_args(g1.display_version, "-V"@),
        flag_args(g1.display_help, "-h"@),
    );
}

/// Setting the version display adds exactly `-V` to the global arguments,
/// whatever the other options are; every other argument stays as it was.
pub proof fn law_global_display_version_is_independent(g: GlobalOptsView)
    ensures
        inserts(
            global_args(GlobalOptsView { display_version: true, ..g }),
            global_args(GlobalOptsView { display_version: false, ..g }),
            seq!["-V"@],
        ),
{
    let g1 = GlobalOptsView { display_version: true, ..g };
    let g0 = GlobalOptsView { display_version: false, ..g };
    assert(flag_args(g1.display_version, "-V"@)
        =~= flag_args(g0.display_version, "-V"@) + seq!["-V"@]);
    lemma_global_slot_21(
        number_args("-b"@, widen(g1.batch_size))
            + value_args("-c"@, g1.client)
            + value_args("-d"@, g1.dir)
            + flag_args(g1.progress_indicators, "-I"@)
            + flag_args(g1.standard_in, "-i"@)
            + flag_args(g1.marshalled_formatted, "-G"@)
            + flag_args(g1.json_formatted, "-Mj"@)
            + value_args("-H"@, g1.host)
            + flag_args(g1.standard_out, "-o"@)
            + value_args("-p"@, g1.port)
            + value_args("-P"@, g1.pass)
            + number_args("-r"@, widen(g1.retries))
            + flag_args(g1.prepend_descriptive, "-s"@)
            + value_args("-u"@, g1.user)
            + value_args("-x"@, g1.argfile)
            + value_args("-C"@, g1.charset)
            + value_args("-Q"@, g1.command_charset)
            + value_args("-L"@, g1.language)
            + tagged_args(g1.tagged_format)
            + flag_args(g1.quiet_mode, "-q"@)
            + opt_repeated_args("-v"@, g1.debug_variable),
        flag_args(g1.display_version, "-V"@),
        flag_args(g0.display_version, "-V"@),
        seq!["-V"@],
        flag_args(g1.display_help, "-h"@),
    );
}

/// Setting the help display adds exactly `-h` to the global arguments, whatever
/// the other options are; every other argument stays as it was.
pub proof fn law_global_display_help_is_independent(g: GlobalOptsView)
    ensures
        inserts(
            global_args(GlobalOptsView { display_help: true, ..g }),
            global_args(GlobalOptsView { display_help: false, ..g }),
            seq!["-h"@],
        ),
{
    let g1 = GlobalOptsView { display_help: true, ..g };
    let g0 = GlobalOptsView { display_help: false, ..g };
    assert(flag_args(g1.display_help, "-h"@) =~= flag_args(g0.display_help, "-h"@) + seq!["-h"@]);
    lemma_global_slot_22(
        number_args("-b"@, widen(g1.batch_size))
            + value_args("-c"@, g1.client)
            + value_args("-d"@, g1.dir)
            + flag_args(g1.progress_indicators, "-I"@)
            + flag_args(g1.standard_in, "-i"@)
            + flag_args(g1.marshalled_formatted, "-G"@)
            + flag_args(g1.json_formatted, "-Mj"@)
            + value_args("-H"@, g1.host)
            + flag_args(g1.standard_out, "-o"@)
            + value_args("-p"@, g1.port)
            + value_args("-P"@, g1.pass)
            + number_args("-r"@, widen(g1.retries))
            + flag_args(g1.prepend_descriptive, "-s"@)
            + value_args("-u"@, g1.user)
            + value_args("-x"@, g1.argfile)
            + value_args("-C"@, g1.charset)
            + value_args("-Q"@, g1.command_charset)
            + value_args("-L"@, g1.language)
            + tagged_args(g1.tagged_format)
            + flag_args(g1.quiet_mode, "-q"@)
            + opt_repeated_args("-v"@, g1.debug_variable)
            + flag_args(g1.display_version, "-V"@),
        flag_args(g1.display_help, "-h"@),
        flag_args(g0.display_help, "-h"@),
        seq!["-h"@],
    );
}

/// Each spec type of `p4 admin updatespecdepot -s type` is spelled by its own
/// name.
pub proof fn law_specified_type_spellings()
    ensures
        SpecifiedType::Client.spec_str() == "client"@,
        SpecifiedType::Depot.spec_str() == "depot"@,
        SpecifiedType::Repo.spec_str() == "repo"@,
        SpecifiedType::Branch.spec_str() == "branch"@,
        SpecifiedType::Label.spec_str() == "label"@,
        SpecifiedType::TypeMap.spec_str() == "typemap"@,
        SpecifiedType::Group.spec_str() == "group"@,
        SpecifiedType::User.spec_str() == "user"@,
        SpecifiedType::Job.spec_str() == "job"@,
        SpecifiedType::Stream.spec_str() == "stream"@,
        SpecifiedType::Triggers.spec_str() == "triggers"@,
        SpecifiedType::Protect.spec_str() == "protect"@,
        SpecifiedType::Server.spec_str() == "server"@,
        SpecifiedType::License.spec_str() == "license"@,
        SpecifiedType::JobSpec.spec_str() == "jobspec"@,
{
}

/// The line-ending conventions of `p4 print -L` are spelled `unix`, `win`
/// and `mac`; distinct conventions have distinct spellings.
pub proof fn law_line_ending_spellings(a: LineEnding, b: LineEnding)
    ensures
        LineEnding::Unix.spec_str() == "unix"@,
        LineEnding::Win.spec_str() == "win"@,
        LineEnding::Mac.spec_str() == "mac"@,
        a != b ==> a.spec_str() != b.spec_str(),
{
    reveal_strlit("unix");
    reveal_strlit("win");
    reveal_strlit("mac");
    if a != b {
        assert(a.spec_str()[0] != b.spec_str()[0]);
    }
}

/// The byte order mark settings of `p4 print -B` are spelled `0` (none), `1`
/// (always) and `2` (on Windows only).
pub proof fn law_utf8bom_spellings()
    ensures
        Utf8Bom::No.spec_str() == "0"@,
        Utf8Bom::Yes.spec_str() == "1"@,
        Utf8Bom::WindowsOnly.spec_str() == "2"@,
{
}

/// The changelist statuses of `p4 changes -s` are spelled `pending`,
/// `submitted` and `shelved`; distinct statuses have distinct spellings.
pub proof fn law_status_spellings(a: Status, b: Status)
    ensures
        Status::Pending.spec_str() == "pending"@,
        Status::Submitted.spec_str() == "submitted"@,
        Status::Shelved.spec_str() == "shelved"@,
        a != b ==> a.spec_str() != b.spec_str(),
{
    reveal_strlit("pending");
    reveal_strlit("submitted");
    reveal_strlit("shelved");
    if a != b {
        assert(a.spec_str()[1] != b.spec_str()[1] || a.spec_str().len() != b.spec_str().len());
    }
}

/// `t` occurs in `a` as a whole comma-separated setting: it starts at `i`
/// and is followed by a comma or by the end of `a`.
pub open spec fn setting_at(a: Seq<char>, t: Seq<char>, i: int) -> bool {
    &&& 0 <= i
    &&& i + t.len() <= a.len()
    &&& a.subrange(i, i + t.len()) == t
    &&& (i + t.len() == a.len() || a[i + t.len()] == ',')
}

/// `t` occurs somewhere in `a` as a whole comma-separated setting.
#[verifier::opaque]
pub open spec fn has_setting(a: Seq<char>, t: Seq<char>) -> bool {
    exists|i: int| #[trigger] setting_at(a, t, i)
}

/// Empty, or starting with a comma.
spec fn comma_led(s: Seq<char>) -> bool {
    s.len() == 0 || s[0] == ','
}

proof fn lemma_setting_comma_led(key: Seq<char>, v: Option<u64>)
    ensures
        comma_led(setting_chars(key, v)),
{
}

proof fn lemma_comma_led_concat(x: Seq<char>, y: Seq<char>)
    requires
        comma_led(x),
        comma_led(y),
    ensures
        comma_led(x + y),
{
}

/// A setting `s` between `x` and a comma-led rest `y` occurs as a whole.
proof fn lemma_setting_between(x: Seq<char>, s: Seq<char>, y: Seq<char>)
    requires
        comma_led(y),
    ensures
        has_setting(x + s + y, s),
{
    reveal(has_setting);
    let a = x + s + y;
    assert(a.subrange(x.len() as int, (x.len() + s.len()) as int) =~= s);
    if y.len() > 0 {
        assert(a[(x.len() + s.len()) as int] == y[0]);
    }
    assert(setting_at(a, s, x.len() as int));
}

/// The single argument of `--parallel` with settings `p`.
pub open spec fn parallel_arg(p: ParallelConfig) -> Seq<char> {
    parallel_args(Some(p))[0]
}

/// The `--parallel` argument is its head `--parallel=threads=N` followed by
/// the settings in order.
proof fn lemma_parallel_shape(p: ParallelConfig)
    ensures
        parallel_args(Some(p)).len() == 1,
        equal(
            parallel_arg(p),
            "--parallel=threads="@ + decimal(p.threads as nat)
                + setting_chars("batch"@, p.batch_files)
                + setting_chars("batchsize"@, p.batch_size_bytes)
                + setting_chars("min"@, p.min_files)
                + setting_chars("minsize"@, p.min_size_bytes),
        ),
{
    reveal_strlit("--parallel=");
    reveal_strlit("threads=");
    reveal_strlit("--parallel=threads=");
    assert(parallel_arg(p) =~= "--parallel=threads="@ + decimal(p.threads as nat)
        + setting_chars("batch"@, p.batch_files) + setting_chars("batchsize"@, p.batch_size_bytes)
        + setting_chars("min"@, p.min_files) + setting_chars("minsize"@, p.min_size_bytes));
}

/// A present setting is `,key=N`.
proof fn lemma_setting_text(key: Seq<char>, text: Seq<char>, v: Option<u64>, n: u64)
    requires
        v == Some(n),
        text == seq![','] + key + seq!['='],
    ensures
        setting_chars(key, v) == text + decimal(n as nat),
{
    assert(setting_chars(key, v) =~= text + decimal(n as nat));
}

/// The value of `p4 sync --parallel=...` starts with `threads=N` and carries
/// every setting that is present under its own key: `batch=N` for the files
/// in a batch, `batchsize=N` for the bytes in a batch, `min=N` for the
/// minimum number of files, `minsize=N` for the minimum number of bytes,
/// each number in decimal.
pub proof fn law_parallel_settings_keys(p: ParallelConfig)
    ensures
        parallel_args(Some(p)).len() == 1,
        parallel_arg(p).take(("--parallel=threads="@ + decimal(p.threads as nat)).len() as int)
            == "--parallel=threads="@ + decimal(p.threads as nat),
        p.batch_files matches Some(n)
            ==> has_setting(parallel_arg(p), ",batch="@ + decimal(n as nat)),
        p.batch_size_bytes matches Some(n)
            ==> has_setting(parallel_arg(p), ",batchsize="@ + decimal(n as nat)),
        p.min_files matches Some(n)
            ==> has_setting(parallel_arg(p), ",min="@ + decimal(n as nat)),
        p.min_size_bytes matches Some(n)
            ==> has_setting(parallel_arg(p), ",minsize="@ + decimal(n as nat)),
{
    let head = "--parallel=threads="@ + decimal(p.threads as nat);
    let s1 = setting_chars("batch"@, p.batch_files);
    let s2 = setting_chars("batchsize"@, p.batch_size_bytes);
    let s3 = setting_chars("min"@, p.min_files);
    let s4 = setting_chars("minsize"@, p.min_size_bytes);
    let a = parallel_arg(p);
    lemma_parallel_shape(p);
    assert(a.take(head.len() as int) =~= head);
    lemma_setting_comma_led("batch"@, p.batch_files);
    lemma_setting_comma_led("batchsize"@, p.batch_size_bytes);
    lemma_setting_comma_led("min"@, p.min_files);
    lemma_setting_comma_led("minsize"@, p.min_size_bytes);
    lemma_comma_led_concat(s3, s4);
    lemma_comma_led_concat(s2, s3 + s4);
    if let Some(n) = p.batch_files {
        reveal_strlit(",batch=");
        reveal_strlit("batch");
        assert(",batch="@ =~= seq![','] + "batch"@ + seq!['=']);
        lemma_setting_text("batch"@, ",batch="@, p.batch_files, n);
        assert(a =~= head + s1 + (s2 + s3 + s4));
        lemma_setting_between(head, s1, s2 + s3 + s4);
    }
    if let Some(n) = p.batch_size_bytes {
        reveal_strlit(",batchsize=");
        reveal_strlit("batchsize");
        assert(",batchsize="@ =~= seq![','] + "batchsize"@ + seq!['=']);
        lemma_setting_text("batchsize"@, ",batchsize="@, p.batch_size_bytes, n);
        assert(a =~= (head + s1) + s2 + (s3 + s4));
        lemma_setting_between(head + s1, s2, s3 + s4);
    }
    if let Some(n) = p.min_files {
        reveal_strlit(",min=");
        reveal_strlit("min");
        assert(",min="@ =~= seq![','] + "min"@ + seq!['=']);
        lemma_setting_text("min"@, ",min="@, p.min_files, n);
        lemma_setting_between(head + s1 + s2, s3, s4);
    }
    if let Some(n) = p.min_size_bytes {
        reveal_strlit(",minsize=");
        reveal_strlit("minsize");
        assert(",minsize="@ =~= seq![','] + "minsize"@ + seq!['=']);
        lemma_setting_text("minsize"@, ",minsize="@, p.min_size_bytes, n);
        assert(comma_led(Seq::<char>::empty()));
        assert(a =~= (head + s1 + s2 + s3) + s4 + Seq::<char>::empty());
        lemma_setting_between(head + s1 + s2 + s3, s4, Seq::<char>::empty());
    }
}

/// The arguments of typed diff options with format `f` and whitespace
/// handling `w`.
pub open spec fn typed_args(f: DiffFormat, w: WhitespaceHandling) -> Seq<Seq<char>> {
    diff_options_args(DiffOptionsView::Typed { format: f, whitespace: w })
}

/// The letter of a whitespace handling after `-d`: `l` for line endings,
/// `b` for changes within whitespace, `w` for all whitespace.
pub open spec fn whitespace_letter(w: WhitespaceHandling) -> char {
    match w {
        WhitespaceHandling::IgnoreLineEndings => 'l',
        WhitespaceHandling::IgnoreChangesWithinWhitespace => 'b',
        _ => 'w',
    }
}

/// Format and whitespace handling of `-d<flags>` are orthogonal: with any
/// format, a whitespace handling adds its own letter at the end of the
/// argument the format alone gives (`-d` alone for the default format).
pub proof fn law_diff_whitespace_is_orthogonal(f: DiffFormat, w: WhitespaceHandling)
    requires
        w != WhitespaceHandling::NoHandling,
    ensures
        typed_args(f, w).len() == 1,
        f != DiffFormat::Default ==> typed_args(f, w)[0]
            == typed_args(f, WhitespaceHandling::NoHandling)[0]
                .push(whitespace_letter(w)),
        f == DiffFormat::Default ==> typed_args(f, w)[0]
            == "-d"@.push(whitespace_letter(w)),
{
    reveal_strlit("-d");
    let fw = typed_args(f, w)[0];
    let fo = typed_args(f, WhitespaceHandling::NoHandling)[0];
    match w {
        WhitespaceHandling::IgnoreLineEndings => {
            if f != DiffFormat::Default {
                assert(fw =~= fo.push('l'));
            } else {
                assert(fw =~= "-d"@.push('l'));
            }
        },
        WhitespaceHandling::IgnoreChangesWithinWhitespace => {
            if f != DiffFormat::Default {
                assert(fw =~= fo.push('b'));
            } else {
                assert(fw =~= "-d"@.push('b'));
            }
        },
        _ => {
            if f != DiffFormat::Default {
                assert(fw =~= fo.push('w'));
            } else {
                assert(fw =~= "-d"@.push('w'));
            }
        },
    }
}

/// Without whitespace handling, a format gives `-d` followed by its letter
/// (`c` context, `n` RCS, `s` summary, `u` unified) and, for context and
/// unified output, the number of context lines in decimal when given.
pub proof fn law_diff_format_letters(n: u32)
    ensures
        typed_args(DiffFormat::Context(None), WhitespaceHandling::NoHandling) == seq!["-dc"@],
        typed_args(DiffFormat::Context(Some(n)), WhitespaceHandling::NoHandling)
            == seq!["-dc"@ + decimal(n as nat)],
        typed_args(DiffFormat::Rcs, WhitespaceHandling::NoHandling) == seq!["-dn"@],
        typed_args(DiffFormat::Summary, WhitespaceHandling::NoHandling) == seq!["-ds"@],
        typed_args(DiffFormat::Unified(None), WhitespaceHandling::NoHandling) == seq!["-du"@],
        typed_args(DiffFormat::Unified(Some(n)), WhitespaceHandling::NoHandling)
            == seq!["-du"@ + decimal(n as nat)],
{
    reveal_strlit("-d");
    reveal_strlit("-dc");
    reveal_strlit("-dn");
    reveal_strlit("-ds");
    reveal_strlit("-du");
    assert(typed_args(DiffFormat::Context(None), WhitespaceHandling::NoHandling)[0] =~= "-dc"@);
    assert(typed_args(DiffFormat::Context(Some(n)), WhitespaceHandling::NoHandling)[0]
        =~= "-dc"@ + decimal(n as nat));
    assert(typed_args(DiffFormat::Rcs, WhitespaceHandling::NoHandling)[0] =~= "-dn"@);
    assert(typed_args(DiffFormat::Summary, WhitespaceHandling::NoHandling)[0] =~= "-ds"@);
    assert(typed_args(DiffFormat::Unified(None), WhitespaceHandling::NoHandling)[0] =~= "-du"@);
    assert(typed_args(DiffFormat::Unified(Some(n)), WhitespaceHandling::NoHandling)[0]
        =~= "-du"@ + decimal(n as nat));
}

/// The file selections of `p4 diff -s<flag>` are `-sa` (opened, changed or
/// missing), `-sb` (resolved, then modified), `-sd` (unopened, missing),
/// `-se` (unopened, changed), `-sl` (every unopened file with its status)
/// and `-sr` (opened, identical).
pub proof fn law_display_option_flags()
    ensures
        DisplayOptions::OpenedChangedOrMissing.spec_str() == "-sa"@,
        DisplayOptions::ResolvedThenModified.spec_str() == "-sb"@,
        DisplayOptions::UnopenedMissing.spec_str() == "-sd"@,
        DisplayOptions::UnopenedChanged.spec_str() == "-se"@,
        DisplayOptions::ListWithStatus.spec_str() == "-sl"@,
        DisplayOptions::OpenedIdentical.spec_str() == "-sr"@,
{
}

/// The long output of changelist descriptions is `-l` in full and `-L`
/// truncated.
pub proof fn law_long_output_flags()
    ensures
        LongOutput::Default.flag() == "-l"@,
        LongOutput::Truncated.flag() == "-L"@,
{
}

} // verus!
