//! Classification of a submitted guess against the secret answer.
//!
//! Both words are sequences of five characters. Every guess position is
//! classified as exactly one of: correct (the answer has this letter at this
//! very position), present (the letter occurs elsewhere in the answer and
//! that occurrence is not already claimed), or absent. Repeated letters are
//! handled by budgeting: for a letter `c`, at most `count_char(answer, c)`
//! guess positions may be classified correct or present, exact matches claim
//! the budget first, and the remaining budget goes to non-exact positions
//! from left to right.

use vstd::prelude::*;

verus! {

/// Number of positions `j < n` of `s` holding the character `c`.
pub open spec fn count_char_upto(s: Seq<char>, c: char, n: int) -> int
    decreases n,
{
    if n <= 0 {
        0
    } else {
        count_char_upto(s, c, n - 1) + if s[n - 1] == c {
            1int
        } else {
            0int
        }
    }
}

/// Number of occurrences of `c` in `s`.
pub open spec fn count_char(s: Seq<char>, c: char) -> int {
    count_char_upto(s, c, s.len() as int)
}

/// Number of positions `j < n` where the guess holds `c` and the answer
/// holds `c` at the same position (exact matches of the letter `c`).
pub open spec fn count_exact_upto(g: Seq<char>, a: Seq<char>, c: char, n: int) -> int
    decreases n,
{
    if n <= 0 {
        0
    } else {
        count_exact_upto(g, a, c, n - 1) + if g[n - 1] == c && a[n - 1] == c {
            1int
        } else {
            0int
        }
    }
}

/// Number of positions `j < n` where the guess holds `c` but the answer
/// holds a different character at that position.
pub open spec fn count_miss_upto(g: Seq<char>, a: Seq<char>, c: char, n: int) -> int
    decreases n,
{
    if n <= 0 {
        0
    } else {
        count_miss_upto(g, a, c, n - 1) + if g[n - 1] == c && a[n - 1] != c {
            1int
        } else {
            0int
        }
    }
}

/// Position `i` of the guess is an exact match.
pub open spec fn correct_at(g: Seq<char>, a: Seq<char>, i: int) -> bool {
    g[i] == a[i]
}

/// Position `i` of the guess is a non-exact match that still fits the
/// letter's budget: the answer's occurrences of `g[i]` are not exhausted by
/// the exact matches plus the earlier non-exact positions of the same
/// letter, which claim remaining occurrences from left to right.
pub open spec fn present_at(g: Seq<char>, a: Seq<char>, i: int) -> bool {
    &&& g[i] != a[i]
    &&& count_exact_upto(g, a, g[i], g.len() as int) + count_miss_upto(g, a, g[i], i)
        < count_char(a, g[i])
}

/// Number of positions `j < n` holding `c` that classify correct or present.
pub open spec fn scored_upto(g: Seq<char>, a: Seq<char>, c: char, n: int) -> int
    decreases n,
{
    if n <= 0 {
        0
    } else {
        scored_upto(g, a, c, n - 1) + if g[n - 1] == c && (correct_at(g, a, n - 1)
            || present_at(g, a, n - 1)) {
            1int
        } else {
            0int
        }
    }
}

/// Number of positions `j < n` holding `c` that classify present.
pub open spec fn present_upto(g: Seq<char>, a: Seq<char>, c: char, n: int) -> int
    decreases n,
{
    if n <= 0 {
        0
    } else {
        present_upto(g, a, c, n - 1) + if g[n - 1] == c && present_at(g, a, n - 1) {
            1int
        } else {
            0int
        }
    }
}

proof fn lemma_count_char_nonneg(s: Seq<char>, c: char, n: int)
    ensures
        0 <= count_char_upto(s, c, n),
    decreases n,
{
    if n > 0 {
        lemma_count_char_nonneg(s, c, n - 1);
    }
}

proof fn lemma_count_miss_nonneg(g: Seq<char>, a: Seq<char>, c: char, n: int)
    ensures
        0 <= count_miss_upto(g, a, c, n),
    decreases n,
{
    if n > 0 {
        lemma_count_miss_nonneg(g, a, c, n - 1);
    }
}

proof fn lemma_count_exact_nonneg(g: Seq<char>, a: Seq<char>, c: char, n: int)
    ensures
        0 <= count_exact_upto(g, a, c, n),
    decreases n,
{
    if n > 0 {
        lemma_count_exact_nonneg(g, a, c, n - 1);
    }
}

/// Exact matches of `c` are occurrences of `c` in the answer.
proof fn lemma_exact_le_count(g: Seq<char>, a: Seq<char>, c: char, n: int)
    ensures
        count_exact_upto(g, a, c, n) <= count_char_upto(a, c, n),
    decreases n,
{
    if n > 0 {
        lemma_exact_le_count(g, a, c, n - 1);
    }
}

/// The present positions of `c` below `n` are exactly the first non-exact
/// positions of `c`, up to the budget the exact matches leave over.
proof fn lemma_present_upto_value(g: Seq<char>, a: Seq<char>, c: char, n: int)
    requires
        0 <= n,
    ensures
        ({
            let budget = count_char(a, c) - count_exact_upto(g, a, c, g.len() as int);
            let cap = if budget >= 0 {
                budget
            } else {
                0int
            };
            present_upto(g, a, c, n) == if count_miss_upto(g, a, c, n) <= cap {
                count_miss_upto(g, a, c, n)
            } else {
                cap
            }
        }),
    decreases n,
{
    lemma_count_miss_nonneg(g, a, c, n);
    if n > 0 {
        lemma_present_upto_value(g, a, c, n - 1);
        lemma_count_miss_nonneg(g, a, c, n - 1);
    }
}

/// A position holding `c` scores iff it is an exact match of `c` or a
/// present position of `c`, and the two cases are disjoint.
proof fn lemma_scored_decompose(g: Seq<char>, a: Seq<char>, c: char, n: int)
    ensures
        scored_upto(g, a, c, n) == count_exact_upto(g, a, c, n) + present_upto(g, a, c, n),
    decreases n,
{
    if n > 0 {
        lemma_scored_decompose(g, a, c, n - 1);
    }
}

/// For every letter `c`, the number of guess positions holding `c` that
/// classify correct or present never exceeds the number of occurrences of
/// `c` in the answer.
pub proof fn lemma_scored_bounded(g: Seq<char>, a: Seq<char>, c: char)
    requires
        g.len() == a.len(),
    ensures
        scored_upto(g, a, c, g.len() as int) <= count_char(a, c),
{
    let n = g.len() as int;
    lemma_scored_decompose(g, a, c, n);
    lemma_present_upto_value(g, a, c, n);
    lemma_exact_le_count(g, a, c, n);
    lemma_count_exact_nonneg(g, a, c, n);
    lemma_count_char_nonneg(a, c, n);
}


/// If `c` occurs nowhere in `s` then no position of `s` holds `c`.
proof fn lemma_count_char_zero(s: Seq<char>, c: char, n: int)
    requires
        count_char_upto(s, c, n) == 0,
    ensures
        forall|j: int| 0 <= j < n ==> s[j] != c,
    decreases n,
{
    if n > 0 {
        lemma_count_char_nonneg(s, c, n - 1);
        lemma_count_char_zero(s, c, n - 1);
    }
}

/// A letter of the guess that occurs nowhere in the answer classifies
/// neither correct nor present at any of its positions: it is absent.
pub proof fn lemma_missing_letter_absent(g: Seq<char>, a: Seq<char>, c: char)
    requires
        g.len() == a.len(),
        count_char(a, c) == 0,
    ensures
        forall|i: int| 0 <= i < g.len() && g[i] == c ==> !correct_at(g, a, i) && !present_at(
            g,
            a,
            i,
        ),
{
    lemma_count_char_zero(a, c, a.len() as int);
    assert forall|i: int| 0 <= i < g.len() && g[i] == c implies !correct_at(g, a, i)
        && !present_at(g, a, i) by {
        lemma_count_exact_nonneg(g, a, c, g.len() as int);
        lemma_count_miss_nonneg(g, a, c, i);
    }
}

/// Occurrences of `c` among the first `n` characters of `v`.
pub fn count_char_in(v: &Vec<char>, c: char, n: usize) -> (r: usize)
    requires
        n <= v@.len(),
    ensures
        r == count_char_upto(v@, c, n as int),
        r <= n,
{
    let mut r: usize = 0;
    let mut j: usize = 0;
    while j < n
        invariant
            j <= n <= v@.len(),
            r == count_char_upto(v@, c, j as int),
            r <= j,
        decreases n - j,
    {
        if v[j] == c {
            r = r + 1;
        }
        j = j + 1;
    }
    r
}

/// Exact matches of `c` among the first `n` positions.
pub fn count_exact_in(g: &Vec<char>, a: &Vec<char>, c: char, n: usize) -> (r: usize)
    requires
        n <= g@.len(),
        n <= a@.len(),
    ensures
        r == count_exact_upto(g@, a@, c, n as int),
        r <= n,
{
    let mut r: usize = 0;
    let mut j: usize = 0;
    while j < n
        invariant
            j <= n <= g@.len(),
            n <= a@.len(),
            r == count_exact_upto(g@, a@, c, j as int),
            r <= j,
        decreases n - j,
    {
        if g[j] == c && a[j] == c {
            r = r + 1;
        }
        j = j + 1;
    }
    r
}

/// Non-exact positions of `c` among the first `n` positions.
pub fn count_miss_in(g: &Vec<char>, a: &Vec<char>, c: char, n: usize) -> (r: usize)
    requires
        n <= g@.len(),
        n <= a@.len(),
    ensures
        r == count_miss_upto(g@, a@, c, n as int),
        r <= n,
{
    let mut r: usize = 0;
    let mut j: usize = 0;
    while j < n
        invariant
            j <= n <= g@.len(),
            n <= a@.len(),
            r == count_miss_upto(g@, a@, c, j as int),
            r <= j,
        decreases n - j,
    {
        if g[j] == c && a[j] != c {
            r = r + 1;
        }
        j = j + 1;
    }
    r
}

} // verus!
