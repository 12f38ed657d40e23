//! Character- and sequence-level text helpers: ASCII case folding,
//! case-insensitive substring matching, and whitespace trimming.
//!
//! Case-insensitivity throughout this crate means ASCII case folding:
//! the command vocabulary is ASCII, and user names are compared byte-for-byte
//! except where a suggestion filter folds letters `A`..`Z` to lower case.

use vstd::prelude::*;

verus! {

/// ASCII case folding of a single character: `A`..`Z` map to `a`..`z`,
/// every other character is unchanged.
pub open spec fn lower_char(c: char) -> char {
    match c {
        'A' => 'a',
        'B' => 'b',
        'C' => 'c',
        'D' => 'd',
        'E' => 'e',
        'F' => 'f',
        'G' => 'g',
        'H' => 'h',
        'I' => 'i',
        'J' => 'j',
        'K' => 'k',
        'L' => 'l',
        'M' => 'm',
        'N' => 'n',
        'O' => 'o',
        'P' => 'p',
        'Q' => 'q',
        'R' => 'r',
        'S' => 's',
        'T' => 't',
        'U' => 'u',
        'V' => 'v',
        'W' => 'w',
        'X' => 'x',
        'Y' => 'y',
        'Z' => 'z',
        _ => c,
    }
}

/// ASCII case folding of a character sequence.
pub open spec fn lower_seq(s: Seq<char>) -> Seq<char> {
    s.map_values(|c: char| lower_char(c))
}

/// `needle` occurs contiguously inside `hay`.
pub open spec fn contains_seq(hay: Seq<char>, needle: Seq<char>) -> bool {
    exists|k: int|
        0 <= k && k + needle.len() <= hay.len() && #[trigger] hay.subrange(
            k,
            k + needle.len() as int,
        ) == needle
}

/// Case-insensitive substring match: the folded `needle` occurs inside the
/// folded `hay`.
pub open spec fn contains_ci(hay: Seq<char>, needle: Seq<char>) -> bool {
    contains_seq(lower_seq(hay), lower_seq(needle))
}

/// Folding is idempotent: folding an already folded sequence changes nothing.
pub proof fn lemma_lower_seq_idempotent(s: Seq<char>)
    ensures
        lower_seq(lower_seq(s)) == lower_seq(s),
{
    assert(lower_seq(lower_seq(s)) =~= lower_seq(s));
}

/// The folded `needle` matches `hay` folded at offset `at`.
fn match_at(hay: &str, needle: &str, at: usize) -> (r: bool)
    requires
        at + needle@.len() <= hay@.len(),
    ensures
        r == (lower_seq(hay@).subrange(at as int, at + needle@.len() as int) == lower_seq(
            needle@,
        )),
{
    let hn = hay.unicode_len();
    let m = needle.unicode_len();
    let mut j: usize = 0;
    while j < m
        invariant
            hn == hay@.len(),
            m == needle@.len(),
            at + m <= hn,
            j <= m,
            forall|p: int|
                0 <= p < j ==> lower_char(hay@[at + p]) == lower_char(#[trigger] needle@[p]),
        decreases m - j,
    {
        let hc = to_lower(hay.get_char(at + j));
        let nc = to_lower(needle.get_char(j));
        if hc != nc {
            assert(lower_seq(hay@).subrange(at as int, at + m as int)[j as int] != lower_seq(
                needle@,
            )[j as int]);
            return false;
        }
        j = j + 1;
    }
    assert(lower_seq(hay@).subrange(at as int, at + m as int) =~= lower_seq(needle@));
    true
}

/// Executable case-insensitive substring test over two strings.
pub fn contains_ci_str(hay: &str, needle: &str) -> (r: bool)
    ensures
        r == contains_ci(hay@, needle@),
{
    let n = hay.unicode_len();
    let m = needle.unicode_len();
    proof {
        assert(lower_seq(hay@).len() == hay@.len());
        assert(lower_seq(needle@).len() == needle@.len());
    }
    if m > n {
        assert(!contains_ci(hay@, needle@));
        return false;
    }
    if m == 0 {
        assert(lower_seq(hay@).subrange(0, 0 + lower_seq(needle@).len() as int) =~= lower_seq(
            needle@,
        ));
        assert(contains_ci(hay@, needle@));
        return true;
    }
    let mut k: usize = 0;
    while k <= n - m
        invariant
            n == hay@.len(),
            m == needle@.len(),
            0 < m <= n,
            k <= n - m + 1,
            lower_seq(hay@).len() == n,
            lower_seq(needle@).len() == m,
            forall|p: int|
                0 <= p < k ==> #[trigger] lower_seq(hay@).subrange(p, p + m as int) != lower_seq(
                    needle@,
                ),
        decreases n - k,
    {
        if match_at(hay, needle, k) {
            assert(lower_seq(hay@).subrange(k as int, k + lower_seq(needle@).len() as int)
                == lower_seq(needle@));
            assert(contains_ci(hay@, needle@));
            return true;
        }
        assert(lower_seq(hay@).subrange(k as int, k + m as int) != lower_seq(needle@));
        k = k + 1;
    }
    assert forall|p: int| 0 <= p && p + lower_seq(needle@).len() <= lower_seq(hay@).len()
        implies #[trigger] lower_seq(hay@).subrange(p, p + lower_seq(needle@).len() as int)
        != lower_seq(needle@) by {
        assert(lower_seq(hay@).subrange(p, p + m as int) != lower_seq(needle@));
    }
    assert(!contains_ci(hay@, needle@));
    false
}

/// ASCII whitespace: space, tab, line feed, form feed, carriage return.
pub open spec fn is_space(c: char) -> bool {
    c == ' ' || c == '\t' || c == '\n' || c == '\u{c}' || c == '\r'
}

/// The sequence without its leading whitespace.
pub open spec fn trim_front(s: Seq<char>) -> Seq<char>
    decreases s.len(),
{
    if s.len() > 0 && is_space(s[0]) {
        trim_front(s.drop_first())
    } else {
        s
    }
}

/// The sequence without its trailing whitespace.
pub open spec fn trim_back(s: Seq<char>) -> Seq<char>
    decreases s.len(),
{
    if s.len() > 0 && is_space(s.last()) {
        trim_back(s.drop_last())
    } else {
        s
    }
}

/// The sequence without leading and trailing whitespace.
pub open spec fn trim_seq(s: Seq<char>) -> Seq<char> {
    trim_back(trim_front(s))
}

/// If the first `i` characters are whitespace and the character at `i`
/// (when there is one) is not, the front-trimmed sequence starts at `i`.
proof fn lemma_trim_front_at(s: Seq<char>, i: int)
    requires
        0 <= i <= s.len(),
        forall|j: int| 0 <= j < i ==> is_space(#[trigger] s[j]),
        i < s.len() ==> !is_space(s[i]),
    ensures
        trim_front(s) == s.subrange(i, s.len() as int),
    decreases i,
{
    if i == 0 {
        assert(trim_front(s) =~= s.subrange(0, s.len() as int));
    } else {
        lemma_trim_front_at(s.drop_first(), i - 1);
        assert(s.drop_first().subrange(i - 1, s.drop_first().len() as int) =~= s.subrange(
            i,
            s.len() as int,
        ));
    }
}

/// If the characters from `k` on are whitespace and the character before `k`
/// (when there is one) is not, the back-trimmed sequence ends at `k`.
proof fn lemma_trim_back_at(s: Seq<char>, k: int)
    requires
        0 <= k <= s.len(),
        forall|j: int| k <= j < s.len() ==> is_space(#[trigger] s[j]),
        k > 0 ==> !is_space(s[k - 1]),
    ensures
        trim_back(s) == s.subrange(0, k),
    decreases s.len() - k,
{
    if k == s.len() {
        assert(trim_back(s) =~= s.subrange(0, k));
    } else {
        lemma_trim_back_at(s.drop_last(), k);
        assert(s.drop_last().subrange(0, k) =~= s.subrange(0, k));
    }
}

/// Executable ASCII whitespace test.
pub fn is_space_char(c: char) -> (r: bool)
    ensures
        r == is_space(c),
{
    c == ' ' || c == '\t' || c == '\n' || c == '\u{c}' || c == '\r'
}

/// Strip leading and trailing ASCII whitespace from a string slice.
pub fn trim_ws(s: &str) -> (r: &str)
    ensures
        r@ == trim_seq(s@),
{
    let n = s.unicode_len();
    let mut start: usize = 0;
    while start < n && is_space_char(s.get_char(start))
        invariant
            n == s@.len(),
            start <= n,
            forall|j: int| 0 <= j < start ==> is_space(#[trigger] s@[j]),
        decreases n - start,
    {
        start = start + 1;
    }
    proof {
        lemma_trim_front_at(s@, start as int);
    }
    let mut end: usize = n;
    while end > start && is_space_char(s.get_char(end - 1))
        invariant
            n == s@.len(),
            start <= end <= n,
            forall|j: int| end <= j < n ==> is_space(#[trigger] s@[j]),
        decreases end,
    {
        end = end - 1;
    }
    proof {
        let front = s@.subrange(start as int, n as int);
        assert(forall|j: int|
            end - start <= j < front.len() ==> is_space(#[trigger] front[j]) && front[j] == s@[j
                + start]);
        lemma_trim_back_at(front, end - start);
        assert(front.subrange(0, end - start) =~= s@.subrange(start as int, end as int));
    }
    s.substring_char(start, end)
}

/// Executable ASCII case folding of one character.
pub fn to_lower(c: char) -> (r: char)
    ensures
        r == lower_char(c),
{
    match c {
        'A' => 'a',
        'B' => 'b',
        'C' => 'c',
        'D' => 'd',
        'E' => 'e',
        'F' => 'f',
        'G' => 'g',
        'H' => 'h',
        'I' => 'i',
        'J' => 'j',
        'K' => 'k',
        'L' => 'l',
        'M' => 'm',
        'N' => 'n',
        'O' => 'o',
        'P' => 'p',
        'Q' => 'q',
        'R' => 'r',
        'S' => 's',
        'T' => 't',
        'U' => 'u',
        'V' => 'v',
        'W' => 'w',
        'X' => 'x',
        'Y' => 'y',
        'Z' => 'z',
        _ => c,
    }
}

} // verus!
