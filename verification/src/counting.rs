//! Character-counting over sequences of characters, used to state and prove
//! syntactic properties of the generated expressions (such as brace balance)
//! and where a given substring occurs.

use vstd::prelude::*;

verus! {

/// The number of occurrences of `c` among the first `n` characters of `s`.
pub open spec fn count_char_upto(s: Seq<char>, c: char, n: int) -> nat
    decreases n,
{
    if n <= 0 {
        0nat
    } else {
        count_char_upto(s, c, n - 1) + (if s[n - 1] == c {
            1nat
        } else {
            0nat
        })
    }
}

/// The number of occurrences of `c` in `s`.
pub open spec fn count_char(s: Seq<char>, c: char) -> nat {
    count_char_upto(s, c, s.len() as int)
}

/// `needle` occurs in `hay` starting at index `i`.
pub open spec fn occurs_at(hay: Seq<char>, needle: Seq<char>, i: int) -> bool {
    0 <= i && i + needle.len() <= hay.len() && hay.subrange(i, i + needle.len()) == needle
}

proof fn lemma_count_char_upto_prefix(a: Seq<char>, b: Seq<char>, c: char, n: int)
    requires
        0 <= n <= a.len(),
    ensures
        count_char_upto(a + b, c, n) == count_char_upto(a, c, n),
    decreases n,
{
    if n > 0 {
        lemma_count_char_upto_prefix(a, b, c, n - 1);
        assert((a + b)[n - 1] == a[n - 1]);
    }
}

proof fn lemma_count_char_upto_concat(a: Seq<char>, b: Seq<char>, c: char, k: int)
    requires
        0 <= k <= b.len(),
    ensures
        count_char_upto(a + b, c, a.len() + k) == count_char_upto(a, c, a.len() as int)
            + count_char_upto(b, c, k),
    decreases k,
{
    if k <= 0 {
        lemma_count_char_upto_prefix(a, b, c, a.len() as int);
    } else {
        lemma_count_char_upto_concat(a, b, c, k - 1);
        assert((a + b)[a.len() + k - 1] == b[k - 1]);
    }
}

/// Counting characters distributes over concatenation.
pub proof fn lemma_count_char_concat(a: Seq<char>, b: Seq<char>, c: char)
    ensures
        count_char(a + b, c) == count_char(a, c) + count_char(b, c),
{
    lemma_count_char_upto_concat(a, b, c, b.len() as int);
}

proof fn lemma_count_char_upto_absent(s: Seq<char>, c: char, n: int)
    requires
        0 <= n <= s.len(),
        forall|i: int| 0 <= i < s.len() ==> s[i] != c,
    ensures
        count_char_upto(s, c, n) == 0,
    decreases n,
{
    if n > 0 {
        lemma_count_char_upto_absent(s, c, n - 1);
    }
}

/// A sequence that nowhere holds `c` counts zero occurrences of it.
pub proof fn lemma_count_char_absent(s: Seq<char>, c: char)
    requires
        forall|i: int| 0 <= i < s.len() ==> s[i] != c,
    ensures
        count_char(s, c) == 0,
{
    lemma_count_char_upto_absent(s, c, s.len() as int);
}

} // verus!
