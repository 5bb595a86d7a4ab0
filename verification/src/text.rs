//! Character-level text helpers shared by the guests and the services:
//! Unicode white space, word counting, trimming, substring search and
//! decimal rendering of integers.
use vstd::prelude::*;
use vstd::string::*;

verus! {

broadcast use vstd::string::group_string_axioms;

/// The characters with the Unicode `White_Space` property, which is what
/// `char::is_whitespace` tests.
pub open spec fn is_white_space(c: char) -> bool {
    let u = c as u32;
    ||| 0x09 <= u <= 0x0d
    ||| u == 0x20
    ||| u == 0x85
    ||| u == 0xa0
    ||| u == 0x1680
    ||| 0x2000 <= u <= 0x200a
    ||| u == 0x2028
    ||| u == 0x2029
    ||| u == 0x202f
    ||| u == 0x205f
    ||| u == 0x3000
}

/// Tests whether `c` is Unicode white space.
pub fn white_space(c: char) -> (b: bool)
    ensures
        b == is_white_space(c),
{
    let u = c as u32;
    (0x09 <= u && u <= 0x0d) || u == 0x20 || u == 0x85 || u == 0xa0 || u == 0x1680 || (0x2000
        <= u && u <= 0x200a) || u == 0x2028 || u == 0x2029 || u == 0x202f || u == 0x205f || u
        == 0x3000
}

/// Among ASCII characters, exactly tab, line feed, vertical tab, form feed,
/// carriage return and space are white space: no letter, digit or
/// punctuation mark is.
pub proof fn law_ascii_white_space(c: char)
    requires
        (c as u32) < 0x80,
    ensures
        is_white_space(c) <==> (c == '\t' || c == '\n' || c == '\x0B' || c == '\x0C' || c
            == '\r' || c == ' '),
{
}

/// Between U+0080 and U+00FF only the next-line control and the no-break
/// space are white space.
pub proof fn law_latin1_white_space(c: char)
    requires
        0x80 <= (c as u32) < 0x100,
    ensures
        is_white_space(c) <==> (c == '\u{85}' || c == '\u{a0}'),
{
}

/// A visible ASCII character (from `!` to `~`) is never white space.
pub open spec fn is_visible_ascii(c: char) -> bool {
    0x21 <= (c as u32) <= 0x7e
}

/// Position `i` of `s` starts a word: it holds a non-white-space character
/// that is first in `s` or follows white space.
pub open spec fn starts_word(s: Seq<char>, i: int) -> bool {
    &&& 0 <= i < s.len()
    &&& !is_white_space(s[i])
    &&& (i == 0 || is_white_space(s[i - 1]))
}

/// The number of words that start among the first `n` positions of `s`.
pub open spec fn words_in_prefix(s: Seq<char>, n: int) -> nat
    decreases n,
{
    if n <= 0 {
        0
    } else {
        words_in_prefix(s, n - 1) + if starts_word(s, n - 1) {
            1nat
        } else {
            0nat
        }
    }
}

/// The number of maximal runs of non-white-space characters in `s`: the
/// number of items that `str::split_whitespace` yields.
pub open spec fn word_count(s: Seq<char>) -> nat {
    words_in_prefix(s, s.len() as int)
}

/// A prefix never holds more words than it has characters.
proof fn lemma_words_in_prefix_bound(s: Seq<char>, n: int)
    requires
        0 <= n,
    ensures
        words_in_prefix(s, n) <= n,
    decreases n,
{
    if n > 0 {
        lemma_words_in_prefix_bound(s, n - 1);
    }
}


/// Every character of `w` is white space.
pub open spec fn all_white_space(w: Seq<char>) -> bool {
    forall|i: int| 0 <= i < w.len() ==> is_white_space(#[trigger] w[i])
}

/// Joining `x` and `y` fuses the last word of `x` with the first word of `y`:
/// both are non-empty and neither side of the seam is white space.
pub open spec fn glued(x: Seq<char>, y: Seq<char>) -> bool {
    x.len() > 0 && y.len() > 0 && !is_white_space(x.last()) && !is_white_space(y[0])
}

/// The word count of a prefix depends on that prefix alone.
proof fn lemma_words_in_prefix_agree(s: Seq<char>, t: Seq<char>, n: int)
    requires
        0 <= n <= s.len(),
        n <= t.len(),
        forall|i: int| 0 <= i < n ==> s[i] == t[i],
    ensures
        words_in_prefix(s, n) == words_in_prefix(t, n),
    decreases n,
{
    if n > 0 {
        lemma_words_in_prefix_agree(s, t, n - 1);
        assert(starts_word(s, n - 1) == starts_word(t, n - 1));
    }
}

/// Counting `x + y` up to `k` characters into `y`.
proof fn lemma_words_in_concat_prefix(x: Seq<char>, y: Seq<char>, k: int)
    requires
        0 <= k <= y.len(),
    ensures
        words_in_prefix(x + y, x.len() + k) + (if k > 0 && glued(x, y) {
            1int
        } else {
            0int
        }) == word_count(x) + words_in_prefix(y, k),
    decreases k,
{
    let s = x + y;
    if k == 0 {
        lemma_words_in_prefix_agree(s, x, x.len() as int);
    } else {
        lemma_words_in_concat_prefix(x, y, k - 1);
        let i = x.len() + k - 1;
        assert(s[i] == y[k - 1]);
        if k > 1 {
            assert(s[i - 1] == y[k - 2]);
            assert(starts_word(s, i) == starts_word(y, k - 1));
        } else if x.len() > 0 {
            assert(s[i - 1] == x.last());
        }
    }
}

/// The words of `x + y` are those of `x` and of `y`, less one where the seam
/// joins two words into one.
pub proof fn lemma_word_count_concat(x: Seq<char>, y: Seq<char>)
    ensures
        word_count(x + y) + (if glued(x, y) {
            1int
        } else {
            0int
        }) == word_count(x) + word_count(y),
{
    lemma_words_in_concat_prefix(x, y, y.len() as int);
    if y.len() == 0 {
        assert(!glued(x, y));
    }
}

/// White space holds no words.
pub proof fn lemma_white_space_has_no_words(w: Seq<char>, n: int)
    requires
        all_white_space(w),
        0 <= n <= w.len(),
    ensures
        words_in_prefix(w, n) == 0,
    decreases n,
{
    if n > 0 {
        lemma_white_space_has_no_words(w, n - 1);
        assert(is_white_space(w[n - 1]));
    }
}

/// A non-empty text of visible ASCII characters, punctuation such as `-`
/// included, is one word.
pub proof fn law_visible_ascii_is_one_word(s: Seq<char>)
    requires
        s.len() > 0,
        forall|i: int| 0 <= i < s.len() ==> is_visible_ascii(#[trigger] s[i]),
    ensures
        word_count(s) == 1,
{
    lemma_visible_ascii_prefix(s, s.len() as int);
}

/// Every non-empty prefix of a visible-ASCII text holds one word.
proof fn lemma_visible_ascii_prefix(s: Seq<char>, n: int)
    requires
        0 < n <= s.len(),
        forall|i: int| 0 <= i < s.len() ==> is_visible_ascii(#[trigger] s[i]),
    ensures
        words_in_prefix(s, n) == 1,
    decreases n,
{
    assert(is_visible_ascii(s[n - 1]));
    assert(!is_white_space(s[n - 1]));
    if n > 1 {
        lemma_visible_ascii_prefix(s, n - 1);
        assert(is_visible_ascii(s[n - 2]));
        assert(!starts_word(s, n - 1));
    } else {
        assert(words_in_prefix(s, 0) == 0);
        assert(starts_word(s, 0));
    }
}

/// Joining two texts with a white-space character adds their word counts.
pub proof fn law_words_of_spaced_join(a: Seq<char>, c: char, b: Seq<char>)
    requires
        is_white_space(c),
    ensures
        word_count(a + seq![c] + b) == word_count(a) + word_count(b),
{
    let w = seq![c];
    lemma_word_count_concat(a, w);
    lemma_white_space_has_no_words(w, 1);
    lemma_word_count_concat(a + w, b);
    assert((a + w).last() == c);
}

/// White space added before or after a text leaves its word count unchanged.
pub proof fn law_white_space_padding(w1: Seq<char>, a: Seq<char>, w2: Seq<char>)
    requires
        all_white_space(w1),
        all_white_space(w2),
    ensures
        word_count(w1 + a + w2) == word_count(a),
{
    lemma_white_space_has_no_words(w1, w1.len() as int);
    lemma_white_space_has_no_words(w2, w2.len() as int);
    lemma_word_count_concat(w1, a);
    lemma_word_count_concat(w1 + a, w2);
    if w1.len() > 0 {
        assert(!glued(w1, a));
    }
    if w2.len() > 0 {
        assert(is_white_space(w2[0]));
        assert(!glued(w1 + a, w2));
    }
}

/// A run of white space counts the same as a single space.
pub proof fn law_white_space_run_collapses(x: Seq<char>, w: Seq<char>, y: Seq<char>)
    requires
        w.len() > 0,
        all_white_space(w),
    ensures
        word_count(x + w + y) == word_count(x + seq![' '] + y),
{
    lemma_white_space_has_no_words(w, w.len() as int);
    lemma_word_count_concat(x, w);
    assert(is_white_space(w[0]));
    lemma_word_count_concat(x + w, y);
    assert((x + w).last() == w.last());
    assert(is_white_space(w[w.len() - 1]));
    assert(is_white_space(' '));
    law_words_of_spaced_join(x, ' ', y);
}

/// Counts the white-space separated words of `s`.
pub fn count_words(s: &str) -> (n: usize)
    ensures
        n == word_count(s@),
{
    let cs = chars_of(s);
    let len = cs.len();
    let mut n: usize = 0;
    let mut i: usize = 0;
    while i < len
        invariant
            len == cs@.len(),
            cs@ == s@,
            i <= len,
            n == words_in_prefix(s@, i as int),
        decreases len - i,
    {
        proof {
            lemma_words_in_prefix_bound(s@, i as int);
        }
        let here = !white_space(cs[i]);
        let after_space = i == 0 || white_space(cs[i - 1]);
        if here && after_space {
            n = n + 1;
        }
        i = i + 1;
    }
    n
}


/// `s` with its leading white space removed, as `str::trim_start` does.
pub open spec fn trim_start_spec(s: Seq<char>) -> Seq<char>
    decreases s.len(),
{
    if s.len() > 0 && is_white_space(s[0]) {
        trim_start_spec(s.drop_first())
    } else {
        s
    }
}

/// `s` with its trailing white space removed, as `str::trim_end` does.
pub open spec fn trim_end_spec(s: Seq<char>) -> Seq<char>
    decreases s.len(),
{
    if s.len() > 0 && is_white_space(s.last()) {
        trim_end_spec(s.drop_last())
    } else {
        s
    }
}

/// `s` with leading and trailing white space removed, as `str::trim` does.
pub open spec fn trim_spec(s: Seq<char>) -> Seq<char> {
    trim_end_spec(trim_start_spec(s))
}

/// Copies `s` without its leading and trailing white space.
pub fn trim(s: &str) -> (r: String)
    ensures
        r@ == trim_spec(s@),
{
    let cs = chars_of(s);
    let len = cs.len();
    let mut i: usize = 0;
    assert(s@.skip(0) =~= s@);
    while i < len && white_space(cs[i])
        invariant
            len == cs@.len(),
            cs@ == s@,
            i <= len,
            trim_start_spec(s@.skip(i as int)) == trim_start_spec(s@),
        decreases len - i,
    {
        assert(s@.skip(i as int).drop_first() =~= s@.skip(i + 1));
        i = i + 1;
    }
    let ghost rest = s@.skip(i as int);
    assert(trim_start_spec(rest) == rest);
    let mut j: usize = len;
    assert(rest.take((j - i) as int) =~= rest);
    while j > i && white_space(cs[j - 1])
        invariant
            len == cs@.len(),
            cs@ == s@,
            i <= j <= len,
            rest == s@.skip(i as int),
            trim_end_spec(rest.take((j - i) as int)) == trim_end_spec(rest),
        decreases j,
    {
        assert(rest.take((j - i) as int).drop_last() =~= rest.take((j - 1 - i) as int));
        j = j - 1;
    }
    assert(trim_end_spec(rest.take((j - i) as int)) == rest.take((j - i) as int));
    assert(rest.take((j - i) as int) =~= s@.subrange(i as int, j as int));
    let piece = s.substring_char(i, j);
    piece.to_owned()
}

/// `needle` occurs in `haystack` as a contiguous run (the empty run occurs
/// everywhere).
pub open spec fn occurs_in(haystack: Seq<char>, needle: Seq<char>) -> bool {
    exists|k: int|
        0 <= k && k + needle.len() <= haystack.len() && #[trigger] haystack.subrange(
            k,
            k + needle.len(),
        ) == needle
}

/// Whether `needle` matches `haystack` at position `k`.
fn matches_at(haystack: &Vec<char>, needle: &Vec<char>, k: usize) -> (b: bool)
    requires
        k + needle@.len() <= haystack@.len(),
    ensures
        b == (haystack@.subrange(k as int, k + needle@.len()) == needle@),
{
    let n = needle.len();
    let hl = haystack.len();
    let mut t: usize = 0;
    while t < n
        invariant
            n == needle@.len(),
            hl == haystack@.len(),
            k + n <= haystack@.len(),
            t <= n,
            forall|u: int| 0 <= u < t ==> haystack@[k + u] == needle@[u],
        decreases n - t,
    {
        if haystack[k + t] != needle[t] {
            assert(haystack@.subrange(k as int, k + n)[t as int] != needle@[t as int]);
            return false;
        }
        t = t + 1;
    }
    assert(haystack@.subrange(k as int, k + n) =~= needle@);
    true
}

/// Tests whether `needle` occurs in `haystack`, as `str::contains` does for a
/// string pattern.
pub fn contains(haystack: &str, needle: &str) -> (b: bool)
    ensures
        b == occurs_in(haystack@, needle@),
{
    let h = chars_of(haystack);
    let n = chars_of(needle);
    if n.len() > h.len() {
        return false;
    }
    let last = h.len() - n.len();
    let mut k: usize = 0;
    loop
        invariant
            h@ == haystack@,
            n@ == needle@,
            last == h@.len() - n@.len(),
            k <= last,
            forall|q: int| 0 <= q < k ==> #[trigger] h@.subrange(q, q + n@.len()) != n@,
        decreases last - k,
    {
        if matches_at(&h, &n, k) {
            return true;
        }
        if k == last {
            assert(!occurs_in(haystack@, needle@));
            return false;
        }
        k = k + 1;
    }
}

/// The decimal digit character for `d < 10`.
pub open spec fn digit_char(d: nat) -> char {
    if d == 0 {
        '0'
    } else if d == 1 {
        '1'
    } else if d == 2 {
        '2'
    } else if d == 3 {
        '3'
    } else if d == 4 {
        '4'
    } else if d == 5 {
        '5'
    } else if d == 6 {
        '6'
    } else if d == 7 {
        '7'
    } else if d == 8 {
        '8'
    } else {
        '9'
    }
}

/// The decimal rendering of `n`, without sign or leading zeros, as
/// `Display` writes an unsigned integer.
pub open spec fn decimal(n: nat) -> Seq<char>
    decreases n,
{
    if n < 10 {
        seq![digit_char(n)]
    } else {
        decimal(n / 10).push(digit_char(n % 10))
    }
}

/// A one-character string holding the digit `d`.
fn digit_str(d: u64) -> (s: &'static str)
    requires
        d < 10,
    ensures
        s@ == seq![digit_char(d as nat)],
{
    proof {
        reveal_strlit("0");
        reveal_strlit("1");
        reveal_strlit("2");
        reveal_strlit("3");
        reveal_strlit("4");
        reveal_strlit("5");
        reveal_strlit("6");
        reveal_strlit("7");
        reveal_strlit("8");
        reveal_strlit("9");
    }
    if d == 0 {
        "0"
    } else if d == 1 {
        "1"
    } else if d == 2 {
        "2"
    } else if d == 3 {
        "3"
    } else if d == 4 {
        "4"
    } else if d == 5 {
        "5"
    } else if d == 6 {
        "6"
    } else if d == 7 {
        "7"
    } else if d == 8 {
        "8"
    } else {
        "9"
    }
}

/// Appends the decimal rendering of `n` to `out`.
pub fn push_decimal(out: &mut String, n: u64)
    ensures
        final(out)@ == old(out)@ + decimal(n as nat),
    decreases n,
{
    if n >= 10 {
        push_decimal(out, n / 10);
    }
    out.append(digit_str(n % 10));
    assert(old(out)@ + decimal(n as nat) =~= if n >= 10 {
        old(out)@ + decimal((n / 10) as nat) + seq![digit_char((n % 10) as nat)]
    } else {
        old(out)@ + seq![digit_char((n % 10) as nat)]
    });
}

/// Collects the characters of `s`, in order.
pub fn chars_of(s: &str) -> (v: Vec<char>)
    ensures
        v@ == s@,
{
    let mut v: Vec<char> = Vec::new();
    for c in it: s.chars()
        invariant
            v@ == it.seq().take(it.index()),
            it.seq() == s@,
    {
        v.push(c);
    }
    v
}

} // verus!
