//! Character- and byte-level helpers shared by the label, parser, and
//! formatter checks.

use vstd::prelude::*;
use vstd::utf8::encode_utf8;

verus! {

/// Length in bytes of the UTF-8 encoding of a character sequence.
pub open spec fn utf8_len(s: Seq<char>) -> nat {
    encode_utf8(s).len()
}

/// Bytes allowed in stable labels: ASCII digits (0x30..=0x39), lower- and
/// upper-case letters, and `:` `_` `-` `.` `/` `@`.
pub open spec fn is_label_byte(b: u8) -> bool {
    (0x30 <= b <= 0x39) || (0x61 <= b <= 0x7a) || (0x41 <= b <= 0x5a) || b == 0x3a || b == 0x5f
        || b == 0x2d || b == 0x2e || b == 0x2f || b == 0x40
}

/// Executable form of [`is_label_byte`].
pub fn is_label_byte_exec(b: u8) -> (r: bool)
    ensures
        r == is_label_byte(b),
{
    (0x30 <= b && b <= 0x39) || (0x61 <= b && b <= 0x7a) || (0x41 <= b && b <= 0x5a) || b == 0x3a
        || b == 0x5f || b == 0x2d || b == 0x2e || b == 0x2f || b == 0x40
}


/// Unicode `White_Space` characters, the set that `char::is_whitespace`
/// recognises: U+0009..=U+000D, U+0020, U+0085, U+00A0, U+1680,
/// U+2000..=U+200A, U+2028, U+2029, U+202F, U+205F and U+3000.
pub open spec fn is_ws(c: char) -> bool {
    let u = c as u32;
    (0x09 <= u <= 0x0d) || u == 0x20 || u == 0x85 || u == 0xa0 || u == 0x1680 || (0x2000 <= u
        <= 0x200a) || u == 0x2028 || u == 0x2029 || u == 0x202f || u == 0x205f || u == 0x3000
}

/// Executable form of [`is_ws`].
pub fn is_ws_exec(c: char) -> (r: bool)
    ensures
        r == is_ws(c),
{
    let u = c as u32;
    (0x09 <= u && u <= 0x0d) || u == 0x20 || u == 0x85 || u == 0xa0 || u == 0x1680 || (0x2000 <= u
        && u <= 0x200a) || u == 0x2028 || u == 0x2029 || u == 0x202f || u == 0x205f || u == 0x3000
}

/// The first index at or after `i` that does not hold whitespace
/// (`s.len()` when there is none).
pub open spec fn skip_ws(s: Seq<char>, i: int) -> int
    decreases s.len() - i,
{
    if 0 <= i < s.len() && is_ws(s[i]) {
        skip_ws(s, i + 1)
    } else {
        i
    }
}

/// The first index at or after `i` that holds whitespace (`s.len()` when
/// there is none): the end of the word that starts at `i`.
pub open spec fn word_end(s: Seq<char>, i: int) -> int
    decreases s.len() - i,
{
    if 0 <= i < s.len() && !is_ws(s[i]) {
        word_end(s, i + 1)
    } else {
        i
    }
}

/// The end of `s.subrange(0, j)` once its trailing whitespace is dropped.
pub open spec fn rskip_ws(s: Seq<char>, j: int) -> int
    decreases j,
{
    if 0 < j <= s.len() && is_ws(s[j - 1]) {
        rskip_ws(s, j - 1)
    } else {
        j
    }
}

/// `s` without leading and trailing whitespace (`str::trim`).
pub open spec fn trim(s: Seq<char>) -> Seq<char> {
    let a = skip_ws(s, 0);
    if a >= s.len() {
        Seq::empty()
    } else {
        s.subrange(a, rskip_ws(s, s.len() as int))
    }
}

pub proof fn lemma_skip_ws_bounds(s: Seq<char>, i: int)
    requires
        0 <= i <= s.len(),
    ensures
        i <= skip_ws(s, i) <= s.len(),
        skip_ws(s, i) < s.len() ==> !is_ws(s[skip_ws(s, i)]),
        forall|k: int| i <= k < skip_ws(s, i) ==> is_ws(#[trigger] s[k]),
    decreases s.len() - i,
{
    if i < s.len() && is_ws(s[i]) {
        lemma_skip_ws_bounds(s, i + 1);
    }
}

pub proof fn lemma_word_end_bounds(s: Seq<char>, i: int)
    requires
        0 <= i <= s.len(),
    ensures
        i <= word_end(s, i) <= s.len(),
        word_end(s, i) < s.len() ==> is_ws(s[word_end(s, i)]),
        forall|k: int| i <= k < word_end(s, i) ==> !is_ws(#[trigger] s[k]),
    decreases s.len() - i,
{
    if i < s.len() && !is_ws(s[i]) {
        lemma_word_end_bounds(s, i + 1);
    }
}

pub proof fn lemma_rskip_ws_bounds(s: Seq<char>, j: int)
    requires
        0 <= j <= s.len(),
    ensures
        0 <= rskip_ws(s, j) <= j,
        rskip_ws(s, j) > 0 ==> !is_ws(s[rskip_ws(s, j) - 1]),
        forall|k: int| rskip_ws(s, j) <= k < j ==> is_ws(#[trigger] s[k]),
    decreases j,
{
    if 0 < j && is_ws(s[j - 1]) {
        lemma_rskip_ws_bounds(s, j - 1);
    }
}

/// The whitespace-separated words of `s` from index `i` on
/// (`str::split_whitespace`): maximal runs of non-whitespace characters.
pub open spec fn words_from(s: Seq<char>, i: int) -> Seq<Seq<char>>
    decreases s.len() - i,
    when 0 <= i <= s.len()
{
    let a = skip_ws(s, i);
    if a >= s.len() {
        Seq::empty()
    } else {
        proof {
            lemma_skip_ws_bounds(s, i);
            lemma_word_end_bounds(s, a + 1);
        }
        seq![s.subrange(a, word_end(s, a))] + words_from(s, word_end(s, a))
    }
}

/// The index of the first line feed at or after `i` (`s.len()` when there
/// is none): the end of the line that starts at `i`.
pub open spec fn line_end(s: Seq<char>, i: int) -> int
    decreases s.len() - i,
{
    if 0 <= i < s.len() && s[i] != '\n' {
        line_end(s, i + 1)
    } else {
        i
    }
}

pub proof fn lemma_line_end_bounds(s: Seq<char>, i: int)
    requires
        0 <= i <= s.len(),
    ensures
        i <= line_end(s, i) <= s.len(),
        line_end(s, i) < s.len() ==> s[line_end(s, i)] == '\n',
        forall|k: int| i <= k < line_end(s, i) ==> #[trigger] s[k] != '\n',
    decreases s.len() - i,
{
    if i < s.len() && s[i] != '\n' {
        lemma_line_end_bounds(s, i + 1);
    }
}

/// The pieces of `s` from index `i` on, split at every line feed; a script's
/// lines are these pieces (a trailing line feed yields one more, empty, piece).
pub open spec fn line_segments(s: Seq<char>, i: int) -> Seq<Seq<char>>
    decreases s.len() - i,
    when 0 <= i <= s.len()
{
    proof {
        lemma_line_end_bounds(s, i);
    }
    let e = line_end(s, i);
    if e >= s.len() {
        seq![s.subrange(i, e)]
    } else {
        seq![s.subrange(i, e)] + line_segments(s, e + 1)
    }
}

/// Whether `pat` occurs in `hay` starting at index `k`.
pub open spec fn matches_at(hay: Seq<u8>, pat: Seq<u8>, k: int) -> bool {
    0 <= k && k + pat.len() <= hay.len() && hay.subrange(k, k + pat.len()) == pat
}

/// Whether `pat` occurs anywhere in `hay` (`str::contains` on bytes).
pub open spec fn has_infix(hay: Seq<u8>, pat: Seq<u8>) -> bool {
    exists|k: int| #[trigger] matches_at(hay, pat, k)
}

/// Whether the byte string begins with byte `x`.
pub open spec fn starts_with_byte(b: Seq<u8>, x: u8) -> bool {
    b.len() > 0 && b[0] == x
}

/// Whether the byte string ends with byte `x`.
pub open spec fn ends_with_byte(b: Seq<u8>, x: u8) -> bool {
    b.len() > 0 && b[b.len() - 1] == x
}

/// Whether byte `x` occurs in the byte string.
pub open spec fn contains_byte(b: Seq<u8>, x: u8) -> bool {
    exists|i: int| 0 <= i < b.len() && b[i] == x
}

/// Searches `hay` for `pat`.
pub fn bytes_contain(hay: &[u8], pat: &[u8]) -> (r: bool)
    ensures
        r == has_infix(hay@, pat@),
{
    if pat.len() > hay.len() {
        assert forall|k: int| !matches_at(hay@, pat@, k) by {}
        return false;
    }
    if pat.len() == 0 {
        assert(hay@.subrange(0, 0) =~= pat@);
        assert(matches_at(hay@, pat@, 0));
        return true;
    }
    let hay_len = hay.len();
    let last = hay_len - pat.len();
    let mut i: usize = 0;
    while i <= last
        invariant
            last == hay@.len() - pat@.len(),
            hay_len == hay@.len(),
            pat@.len() > 0,
            forall|k: int| 0 <= k < i ==> !#[trigger] matches_at(hay@, pat@, k),
        decreases last + 1 - i,
    {
        let mut j: usize = 0;
        let mut same = true;
        while j < pat.len()
            invariant
                i <= last,
                last == hay@.len() - pat@.len(),
                hay_len == hay@.len(),
                pat@.len() > 0,
                j <= pat@.len(),
                same ==> forall|t: int| 0 <= t < j ==> hay@[i + t] == pat@[t],
                !same ==> exists|t: int| 0 <= t < pat@.len() && hay@[i + t] != pat@[t],
            decreases pat@.len() - j,
        {
            if hay[i + j] != pat[j] {
                same = false;
            }
            j = j + 1;
        }
        if same {
            assert(hay@.subrange(i as int, i + pat@.len()) =~= pat@);
            assert(matches_at(hay@, pat@, i as int));
            return true;
        }
        proof {
            let t = choose|t: int| 0 <= t < pat@.len() && hay@[i + t] != pat@[t];
            if matches_at(hay@, pat@, i as int) {
                assert(hay@.subrange(i as int, i + pat@.len())[t] == hay@[i + t]);
            }
        }
        i = i + 1;
    }
    assert forall|k: int| !#[trigger] matches_at(hay@, pat@, k) by {
        if 0 <= k && k < i {
        }
    }
    false
}

/// Whether byte `x` occurs in `b`.
pub fn bytes_contain_byte(b: &[u8], x: u8) -> (r: bool)
    ensures
        r == contains_byte(b@, x),
{
    let mut i: usize = 0;
    while i < b.len()
        invariant
            i <= b@.len(),
            forall|k: int| 0 <= k < i ==> b@[k] != x,
        decreases b@.len() - i,
    {
        if b[i] == x {
            return true;
        }
        i = i + 1;
    }
    false
}

/// Index of the first non-whitespace character of `s` at or after `i`.
pub fn skip_ws_exec(s: &str, n: usize, i: usize) -> (r: usize)
    requires
        n == s@.len(),
        i <= n,
    ensures
        r == skip_ws(s@, i as int),
        i <= r <= n,
{
    proof {
        lemma_skip_ws_bounds(s@, i as int);
    }
    let mut k = i;
    while k < n && is_ws_exec(s.get_char(k))
        invariant
            n == s@.len(),
            i <= k <= n,
            skip_ws(s@, k as int) == skip_ws(s@, i as int),
        decreases n - k,
    {
        k = k + 1;
    }
    k
}

/// End of the word of `s` that starts at `i`.
pub fn word_end_exec(s: &str, n: usize, i: usize) -> (r: usize)
    requires
        n == s@.len(),
        i <= n,
    ensures
        r == word_end(s@, i as int),
        i <= r <= n,
{
    proof {
        lemma_word_end_bounds(s@, i as int);
    }
    let mut k = i;
    while k < n && !is_ws_exec(s.get_char(k))
        invariant
            n == s@.len(),
            i <= k <= n,
            word_end(s@, k as int) == word_end(s@, i as int),
        decreases n - k,
    {
        k = k + 1;
    }
    k
}

/// End of `s.subrange(0, j)` with trailing whitespace dropped.
pub fn rskip_ws_exec(s: &str, n: usize, j: usize) -> (r: usize)
    requires
        n == s@.len(),
        j <= n,
    ensures
        r == rskip_ws(s@, j as int),
        r <= j,
{
    proof {
        lemma_rskip_ws_bounds(s@, j as int);
    }
    let mut k = j;
    while k > 0 && is_ws_exec(s.get_char(k - 1))
        invariant
            n == s@.len(),
            k <= j <= n,
            rskip_ws(s@, k as int) == rskip_ws(s@, j as int),
        decreases k,
    {
        k = k - 1;
    }
    k
}

/// End of the line of `s` that starts at `i`.
pub fn line_end_exec(s: &str, n: usize, i: usize) -> (r: usize)
    requires
        n == s@.len(),
        i <= n,
    ensures
        r == line_end(s@, i as int),
        i <= r <= n,
{
    proof {
        lemma_line_end_bounds(s@, i as int);
    }
    let mut k = i;
    while k < n && s.get_char(k) != '\n'
        invariant
            n == s@.len(),
            i <= k <= n,
            line_end(s@, k as int) == line_end(s@, i as int),
        decreases n - k,
    {
        k = k + 1;
    }
    k
}

/// `s` without leading and trailing whitespace (`str::trim`).
pub fn trim_str<'a>(s: &'a str) -> (r: &'a str)
    ensures
        r@ == trim(s@),
{
    let n = s.unicode_len();
    let a = skip_ws_exec(s, n, 0);
    if a >= n {
        return s.substring_char(0, 0);
    }
    let b = rskip_ws_exec(s, n, n);
    proof {
        lemma_skip_ws_bounds(s@, 0);
        lemma_rskip_ws_bounds(s@, n as int);
        // a < n holds a non-whitespace character, so trailing whitespace stops after it
        if b <= a {
            assert(is_ws(s@[a as int]));
        }
    }
    s.substring_char(a, b)
}


/// Compares two strings character for character.
pub fn str_eq(a: &str, b: &str) -> (r: bool)
    ensures
        r == (a@ == b@),
{
    let x = a.as_bytes();
    let y = b.as_bytes();
    if x.len() != y.len() {
        return false;
    }
    let mut i: usize = 0;
    while i < x.len()
        invariant
            x@.len() == y@.len(),
            x@ == encode_utf8(a@),
            y@ == encode_utf8(b@),
            i <= x@.len(),
            forall|k: int| 0 <= k < i ==> x@[k] == y@[k],
        decreases x@.len() - i,
    {
        if x[i] != y[i] {
            return false;
        }
        i = i + 1;
    }
    proof {
        assert(x@ =~= y@);
        vstd::utf8::encode_utf8_decode_utf8(a@);
        vstd::utf8::encode_utf8_decode_utf8(b@);
    }
    true
}


/// An ASCII character sequence whose characters are all label bytes is a
/// valid label of any bound at least its length.
pub proof fn lemma_ascii_label(s: Seq<char>, max_len: nat)
    requires
        0 < s.len() <= max_len,
        vstd::utf8::is_ascii_chars(s),
        forall|i: int| 0 <= i < s.len() ==> #[trigger] is_label_byte(s[i] as u8),
    ensures
        crate::label_outcome(s, max_len) is Ok,
{
    vstd::utf8::is_ascii_chars_encode_utf8(s);
    assert forall|i: int| 0 <= i < encode_utf8(s).len() implies #[trigger] is_label_byte(
        encode_utf8(s)[i],
    ) by {
        assert(s[i] as u8 == encode_utf8(s)[i]);
    }
}


/// UTF-8 encoding distributes over concatenation.
pub proof fn lemma_encode_utf8_concat(a: Seq<char>, b: Seq<char>)
    ensures
        encode_utf8(a + b) == encode_utf8(a) + encode_utf8(b),
    decreases a.len(),
{
    if a.len() == 0 {
        assert(a + b =~= b);
        assert(encode_utf8(a) + encode_utf8(b) =~= encode_utf8(b));
    } else {
        assert((a + b)[0] == a[0]);
        assert((a + b).drop_first() =~= a.drop_first() + b);
        lemma_encode_utf8_concat(a.drop_first(), b);
        assert(encode_utf8(a + b) =~= encode_utf8(a) + encode_utf8(b));
    }
}

/// A piece of a character sequence never encodes to more bytes than the
/// whole sequence.
pub proof fn lemma_utf8_len_subrange(s: Seq<char>, i: int, j: int)
    requires
        0 <= i <= j <= s.len(),
    ensures
        utf8_len(s.subrange(i, j)) <= utf8_len(s),
{
    let x = s.subrange(0, i);
    let y = s.subrange(i, j);
    let z = s.subrange(j, s.len() as int);
    assert(s =~= x + y + z);
    lemma_encode_utf8_concat(x + y, z);
    lemma_encode_utf8_concat(x, y);
}

/// Trimming is idempotent, and a trimmed sequence never encodes to more
/// bytes than the original.
pub proof fn lemma_trim_idempotent(s: Seq<char>)
    ensures
        trim(trim(s)) == trim(s),
        utf8_len(trim(s)) <= utf8_len(s),
{
    let a = skip_ws(s, 0);
    lemma_skip_ws_bounds(s, 0);
    if a < s.len() {
        let e = rskip_ws(s, s.len() as int);
        lemma_rskip_ws_bounds(s, s.len() as int);
        if e <= a {
            assert(is_ws(s[a]));
        }
        let t = s.subrange(a, e);
        assert(t[0] == s[a]);
        assert(t[t.len() - 1] == s[e - 1]);
        assert(skip_ws(t, 0) == 0);
        assert(rskip_ws(t, t.len() as int) == t.len());
        assert(t.subrange(0, t.len() as int) =~= t);
        lemma_utf8_len_subrange(s, a, e);
    } else {
        assert(trim(s) =~= Seq::<char>::empty());
        assert(skip_ws(Seq::<char>::empty(), 0) == 0);
        assert(encode_utf8(Seq::<char>::empty()) =~= Seq::<u8>::empty());
    }
}

} // verus!
