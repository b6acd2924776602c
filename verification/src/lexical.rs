//! The lexicographic order of strings by their characters' code points.

use vstd::prelude::*;
use crate::text::chars_of;

verus! {

/// Whether `a` comes strictly before `b`: at the first place where they
/// differ `a` has the smaller character, or `a` is a proper prefix of `b`.
pub open spec fn text_lt(a: Seq<char>, b: Seq<char>) -> bool
    decreases a.len(),
{
    if b.len() == 0 {
        false
    } else if a.len() == 0 {
        true
    } else if a[0] != b[0] {
        (a[0] as int) < (b[0] as int)
    } else {
        text_lt(a.skip(1), b.skip(1))
    }
}

/// No string comes before itself.
pub proof fn lemma_text_lt_irreflexive(a: Seq<char>)
    ensures
        !text_lt(a, a),
    decreases a.len(),
{
    if a.len() > 0 {
        lemma_text_lt_irreflexive(a.skip(1));
    }
}

/// Of two different strings one comes before the other.
pub proof fn lemma_text_lt_total(a: Seq<char>, b: Seq<char>)
    ensures
        text_lt(a, b) || text_lt(b, a) || a == b,
    decreases a.len(),
{
    if a.len() == 0 || b.len() == 0 {
        if a.len() == 0 && b.len() == 0 {
            assert(a =~= b);
        }
    } else if a[0] != b[0] {
        assert(a[0] as int != b[0] as int);
    } else {
        lemma_text_lt_total(a.skip(1), b.skip(1));
        if a.skip(1) == b.skip(1) {
            assert(a =~= seq![a[0]] + a.skip(1));
            assert(b =~= seq![b[0]] + b.skip(1));
        }
    }
}

/// The order is transitive.
pub proof fn lemma_text_lt_transitive(a: Seq<char>, b: Seq<char>, c: Seq<char>)
    requires
        text_lt(a, b),
        text_lt(b, c),
    ensures
        text_lt(a, c),
    decreases a.len(),
{
    if a.len() > 0 {
        if a[0] == b[0] && b[0] == c[0] {
            lemma_text_lt_transitive(a.skip(1), b.skip(1), c.skip(1));
        }
    }
}

/// Two strings cannot each come before the other.
pub proof fn lemma_text_lt_asymmetric(a: Seq<char>, b: Seq<char>)
    requires
        text_lt(a, b),
    ensures
        !text_lt(b, a),
{
    if text_lt(b, a) {
        lemma_text_lt_transitive(a, b, a);
        lemma_text_lt_irreflexive(a);
    }
}

/// Whether the characters of `a` from `from` on come before those of `b`
/// from `from` on.
fn chars_less_from(a: &Vec<char>, b: &Vec<char>, from: usize) -> (less: bool)
    requires
        from <= a.len(),
        from <= b.len(),
    ensures
        less == text_lt(a@.skip(from as int), b@.skip(from as int)),
    decreases a.len() - from,
{
    let ghost ra = a@.skip(from as int);
    let ghost rb = b@.skip(from as int);
    if from >= b.len() {
        false
    } else if from >= a.len() {
        true
    } else {
        assert(ra[0] == a[from as int] && rb[0] == b[from as int]);
        let x: char = a[from];
        let y: char = b[from];
        if x != y {
            x < y
        } else {
            assert(ra.skip(1) =~= a@.skip(from + 1));
            assert(rb.skip(1) =~= b@.skip(from + 1));
            chars_less_from(a, b, from + 1)
        }
    }
}

/// Whether `a` comes strictly before `b` in the lexicographic order.
pub fn text_less(a: &str, b: &str) -> (less: bool)
    ensures
        less == text_lt(a@, b@),
{
    let left = chars_of(a);
    let right = chars_of(b);
    assert(left@.skip(0) =~= a@);
    assert(right@.skip(0) =~= b@);
    chars_less_from(&left, &right, 0)
}

} // verus!

