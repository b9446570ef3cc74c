//! The line structure of a sequence of characters.
//!
//! A line break is one of LF, VT, FF, CR, NEL, LS, PS, or the pair CR LF,
//! which counts as one break. A break belongs to the line it ends; the
//! start of the text and every position just after a break start a line.

use vstd::prelude::*;

verus! {

/// Whether `c` alone can end a line.
pub open spec fn is_break_char(c: char) -> bool {
    c == '\n' || c == '\u{0B}' || c == '\u{0C}' || c == '\r' || c == '\u{85}' || c == '\u{2028}'
        || c == '\u{2029}'
}

/// Whether a line break ends with the character at index `i`: a break
/// character that is not the CR of a CR LF pair.
pub open spec fn ends_break(s: Seq<char>, i: int) -> bool {
    &&& 0 <= i < s.len()
    &&& is_break_char(s[i])
    &&& !(s[i] == '\r' && i + 1 < s.len() && s[i + 1] == '\n')
}

/// The number of line breaks that end before index `n`.
pub open spec fn breaks_before(s: Seq<char>, n: int) -> nat
    decreases n,
{
    if n <= 0 {
        0
    } else {
        breaks_before(s, n - 1) + if ends_break(s, n - 1) {
            1nat
        } else {
            0nat
        }
    }
}

/// The number of lines: one more than the number of line breaks.
pub open spec fn line_count(s: Seq<char>) -> nat {
    breaks_before(s, s.len() as int) + 1
}

/// The first index at or after `from` that follows a line break, or the
/// length of the text where no break ends at or after `from`.
pub open spec fn next_start(s: Seq<char>, from: int) -> int
    decreases s.len() - from,
{
    if from >= s.len() {
        s.len() as int
    } else if ends_break(s, from) {
        from + 1
    } else {
        next_start(s, from + 1)
    }
}

/// The index at which line `k` starts; the length of the text for every
/// `k` from `line_count(s)` on.
pub open spec fn line_start(s: Seq<char>, k: nat) -> int
    decreases k,
{
    if k == 0 {
        0
    } else {
        next_start(s, line_start(s, (k - 1) as nat))
    }
}

/// The number of characters of line `k`, its line break included.
pub open spec fn line_len(s: Seq<char>, k: nat) -> int {
    line_start(s, k + 1) - line_start(s, k)
}

/// The characters of line `k`, its line break included.
pub open spec fn line_text(s: Seq<char>, k: nat) -> Seq<char> {
    s.subrange(line_start(s, k), line_start(s, k + 1))
}

/// The text `s` with `t` put in at index `at`.
pub open spec fn spliced(s: Seq<char>, at: int, t: Seq<char>) -> Seq<char> {
    s.subrange(0, at) + t + s.subrange(at, s.len() as int)
}

/// The largest column of line `k` that a cursor can rest on: the index of
/// its last character, or 0 where the line is empty.
pub open spec fn last_column(s: Seq<char>, k: nat) -> int {
    if line_len(s, k) > 0 {
        line_len(s, k) - 1
    } else {
        0
    }
}

/// The break count never shrinks as the index grows.
pub proof fn lemma_breaks_monotone(s: Seq<char>, a: int, b: int)
    requires
        a <= b,
    ensures
        breaks_before(s, a) <= breaks_before(s, b),
    decreases b - a,
{
    if a < b {
        lemma_breaks_monotone(s, a, b - 1);
    }
}

/// Two texts whose breaks end at the same indices below `n` have the same
/// break count there.
pub proof fn lemma_breaks_agree(s: Seq<char>, t: Seq<char>, n: int)
    requires
        forall|i: int| 0 <= i < n ==> ends_break(s, i) == ends_break(t, i),
    ensures
        breaks_before(s, n) == breaks_before(t, n),
    decreases n,
{
    if n > 0 {
        lemma_breaks_agree(s, t, n - 1);
    }
}

/// Where the breaks of `s` from `a` up to `n` are those of `t` moved by
/// `d`, the two texts count as many breaks over that stretch.
pub proof fn lemma_breaks_shifted(s: Seq<char>, t: Seq<char>, a: int, n: int, d: int)
    requires
        0 <= a <= n,
        0 <= a + d,
        forall|i: int| a <= i < n ==> ends_break(s, i) == ends_break(t, i + d),
    ensures
        breaks_before(s, n) - breaks_before(s, a) == breaks_before(t, n + d) - breaks_before(
            t,
            a + d,
        ),
    decreases n - a,
{
    if a < n {
        lemma_breaks_shifted(s, t, a, n - 1, d);
    }
}

/// What `next_start` finds: the index after the first break that ends at
/// or after `from`, or the end of the text where there is none.
pub proof fn lemma_next_start(s: Seq<char>, from: int)
    requires
        0 <= from <= s.len(),
    ensures
        from <= next_start(s, from) <= s.len(),
        from < s.len() ==> from < next_start(s, from),
        breaks_before(s, s.len() as int) > breaks_before(s, from) ==> {
            &&& ends_break(s, next_start(s, from) - 1)
            &&& breaks_before(s, next_start(s, from)) == breaks_before(s, from) + 1
        },
        breaks_before(s, s.len() as int) == breaks_before(s, from) ==> next_start(s, from)
            == s.len(),
    decreases s.len() - from,
{
    lemma_breaks_monotone(s, from, s.len() as int);
    if from < s.len() {
        lemma_breaks_monotone(s, from + 1, s.len() as int);
        if !ends_break(s, from) {
            lemma_next_start(s, from + 1);
        }
    }
}

/// Where line `k` starts: inside the text, after exactly `k` breaks, and
/// just behind a break unless it is the first line. From `line_count(s)`
/// on, the start is the end of the text.
pub proof fn lemma_line_start(s: Seq<char>, k: nat)
    ensures
        0 <= line_start(s, k) <= s.len(),
        k < line_count(s) ==> breaks_before(s, line_start(s, k)) == k,
        0 < k < line_count(s) ==> ends_break(s, line_start(s, k) - 1),
        k >= line_count(s) ==> line_start(s, k) == s.len(),
    decreases k,
{
    if k > 0 {
        let j = (k - 1) as nat;
        lemma_line_start(s, j);
        lemma_next_start(s, line_start(s, j));
    }
}

/// Consecutive line starts: every line but the last holds at least its
/// break, and the last line ends where the text ends.
pub proof fn lemma_line_len(s: Seq<char>, k: nat)
    ensures
        0 <= line_len(s, k),
        line_start(s, k) + line_len(s, k) <= s.len(),
        k + 1 < line_count(s) ==> 1 <= line_len(s, k),
        k + 1 >= line_count(s) ==> line_start(s, k) + line_len(s, k) == s.len(),
        0 <= last_column(s, k),
        line_start(s, k) + last_column(s, k) <= s.len(),
        line_text(s, k).len() == line_len(s, k),
{
    lemma_line_start(s, k);
    lemma_line_start(s, k + 1);
    lemma_next_start(s, line_start(s, k));
}

/// An index that follows exactly `k` breaks and stands at the start of the
/// text or just behind a break is the start of line `k`.
pub proof fn lemma_line_start_unique(s: Seq<char>, k: nat, n: int)
    requires
        0 <= n <= s.len(),
        breaks_before(s, n) == k,
        n == 0 || ends_break(s, n - 1),
    ensures
        k < line_count(s),
        line_start(s, k) == n,
{
    lemma_breaks_monotone(s, n, s.len() as int);
    lemma_line_start(s, k);
    let m = line_start(s, k);
    if m < n {
        lemma_breaks_monotone(s, m, n - 1);
    } else if n < m {
        lemma_breaks_monotone(s, n, m - 1);
    }
}

} // verus!
