//! Three-way comparison of integers and of text, the orders the listings are
//! sorted by. Text compares character by character by code point, which is
//! the byte order of its UTF-8 form.

use vstd::prelude::*;

verus! {

#[derive(Debug, Clone, Copy, PartialEq, Eq, Structural)]
pub enum Comparison {
    Less,
    Equal,
    Greater,
}

pub open spec fn flip(c: Comparison) -> Comparison {
    match c {
        Comparison::Less => Comparison::Greater,
        Comparison::Equal => Comparison::Equal,
        Comparison::Greater => Comparison::Less,
    }
}

pub open spec fn compare_int(a: int, b: int) -> Comparison {
    if a < b {
        Comparison::Less
    } else if a > b {
        Comparison::Greater
    } else {
        Comparison::Equal
    }
}

/// Lexicographic order of character sequences, a proper prefix first.
pub open spec fn compare_text(a: Seq<char>, b: Seq<char>) -> Comparison
    decreases a.len(),
{
    if a.len() == 0 {
        if b.len() == 0 {
            Comparison::Equal
        } else {
            Comparison::Less
        }
    } else if b.len() == 0 {
        Comparison::Greater
    } else if (a[0] as int) < (b[0] as int) {
        Comparison::Less
    } else if (a[0] as int) > (b[0] as int) {
        Comparison::Greater
    } else {
        compare_text(a.drop_first(), b.drop_first())
    }
}

/// Swapping the operands flips the outcome.
pub proof fn lemma_compare_text_flip(a: Seq<char>, b: Seq<char>)
    ensures
        compare_text(b, a) == flip(compare_text(a, b)),
    decreases a.len(),
{
    if a.len() > 0 && b.len() > 0 && a[0] == b[0] {
        lemma_compare_text_flip(a.drop_first(), b.drop_first());
    }
}

/// Text compares equal to exactly itself.
pub proof fn lemma_compare_text_equal(a: Seq<char>, b: Seq<char>)
    ensures
        (compare_text(a, b) == Comparison::Equal) == (a == b),
    decreases a.len(),
{
    if a.len() > 0 && b.len() > 0 {
        if (a[0] as int) == (b[0] as int) {
            lemma_compare_text_equal(a.drop_first(), b.drop_first());
            if a.drop_first() == b.drop_first() {
                assert(a =~= seq![a[0]] + a.drop_first());
                assert(b =~= seq![b[0]] + b.drop_first());
            }
        } else {
            assert(a[0] != b[0]);
        }
    } else if a.len() == 0 && b.len() == 0 {
        assert(a =~= b);
    }
}

/// The order is transitive, and strictly so where either step is strict.
pub proof fn lemma_compare_text_trans(a: Seq<char>, b: Seq<char>, c: Seq<char>)
    requires
        compare_text(a, b) != Comparison::Greater,
        compare_text(b, c) != Comparison::Greater,
    ensures
        compare_text(a, c) != Comparison::Greater,
        (compare_text(a, b) == Comparison::Less || compare_text(b, c) == Comparison::Less)
            ==> compare_text(a, c) == Comparison::Less,
    decreases a.len(),
{
    if a.len() > 0 && b.len() > 0 && c.len() > 0 && a[0] == b[0] && b[0] == c[0] {
        lemma_compare_text_trans(a.drop_first(), b.drop_first(), c.drop_first());
    }
}

pub fn compare_i64(a: i64, b: i64) -> (r: Comparison)
    ensures
        r == compare_int(a as int, b as int),
{
    if a < b {
        Comparison::Less
    } else if a > b {
        Comparison::Greater
    } else {
        Comparison::Equal
    }
}

proof fn lemma_compare_text_skip(a: Seq<char>, b: Seq<char>, i: int)
    requires
        0 <= i < a.len(),
        i < b.len(),
        a[i] == b[i],
    ensures
        compare_text(a.skip(i), b.skip(i)) == compare_text(a.skip(i + 1), b.skip(i + 1)),
{
    assert(a.skip(i).drop_first() =~= a.skip(i + 1));
    assert(b.skip(i).drop_first() =~= b.skip(i + 1));
}

/// `Ord::cmp` of two strings, given as their characters.
pub fn compare_chars(a: &[char], b: &[char]) -> (r: Comparison)
    ensures
        r == compare_text(a@, b@),
{
    let mut i: usize = 0;
    assert(a@.skip(0) =~= a@);
    assert(b@.skip(0) =~= b@);
    while i < a.len() && i < b.len()
        invariant
            i <= a.len(),
            i <= b.len(),
            compare_text(a@, b@) == compare_text(a@.skip(i as int), b@.skip(i as int)),
        decreases a.len() - i,
    {
        let x = a[i];
        let y = b[i];
        if x < y {
            return Comparison::Less;
        }
        if x > y {
            return Comparison::Greater;
        }
        proof {
            lemma_compare_text_skip(a@, b@, i as int);
        }
        i += 1;
    }
    if i < b.len() {
        Comparison::Less
    } else if i < a.len() {
        Comparison::Greater
    } else {
        Comparison::Equal
    }
}

} // verus!
