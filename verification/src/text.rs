//! Character-sequence helpers shared by the text-processing modules.
//!
//! Strings are modelled by their `Seq<char>` view. Byte lengths are the
//! length of the UTF-8 encoding of that view.
use vstd::prelude::*;
use vstd::utf8::*;

verus! {

// ---------------------------------------------------------------------------
// Specifications
// ---------------------------------------------------------------------------

/// The character view of an optional string.
pub open spec fn opt_view(o: Option<String>) -> Option<Seq<char>> {
    match o {
        Some(s) => Some(s@),
        None => None,
    }
}

/// The character view of an optional string slice.
pub open spec fn opt_str_view(o: Option<&str>) -> Option<Seq<char>> {
    match o {
        Some(s) => Some(s@),
        None => None,
    }
}

/// Length of the common prefix of `a` and `b`, scanning from index `i`.
pub open spec fn lcp_len_from<A>(a: Seq<A>, b: Seq<A>, i: int) -> int
    decreases a.len() - i,
{
    if 0 <= i < a.len() && i < b.len() && a[i] == b[i] {
        lcp_len_from(a, b, i + 1)
    } else {
        i
    }
}

/// Length of the longest common prefix of `a` and `b`.
pub open spec fn lcp_len<A>(a: Seq<A>, b: Seq<A>) -> int {
    lcp_len_from(a, b, 0)
}

/// The longest common prefix of `a` and `b`.
pub open spec fn lcp<A>(a: Seq<A>, b: Seq<A>) -> Seq<A> {
    a.take(lcp_len(a, b))
}

/// Number of bytes in the UTF-8 encoding of `s`.
pub open spec fn byte_len(s: Seq<char>) -> nat {
    encode_utf8(s).len()
}

/// Number of bytes in the UTF-8 encoding of one character.
pub open spec fn char_width(c: char) -> nat {
    encode_scalar(c as u32).len()
}

/// The `White_Space` property of the Unicode Character Database.
pub open spec fn is_white_space(c: char) -> bool {
    ||| c == '\t' || c == '\n' || c == '\u{0B}' || c == '\u{0C}' || c == '\r'
    ||| c == ' ' || c == '\u{85}' || c == '\u{A0}' || c == '\u{1680}'
    ||| ('\u{2000}' <= c && c <= '\u{200A}')
    ||| c == '\u{2028}' || c == '\u{2029}' || c == '\u{202F}' || c == '\u{205F}'
    ||| c == '\u{3000}'
}

/// `s` without its leading white space.
pub open spec fn trim_start(s: Seq<char>) -> Seq<char>
    decreases s.len(),
{
    if s.len() > 0 && is_white_space(s[0]) {
        trim_start(s.drop_first())
    } else {
        s
    }
}

/// `s` without its trailing white space.
pub open spec fn trim_end(s: Seq<char>) -> Seq<char>
    decreases s.len(),
{
    if s.len() > 0 && is_white_space(s.last()) {
        trim_end(s.drop_last())
    } else {
        s
    }
}

/// `s` without leading and trailing white space.
pub open spec fn trim(s: Seq<char>) -> Seq<char> {
    trim_end(trim_start(s))
}

/// True when `s` consists of white space only (its trim is empty).
pub open spec fn all_white_space(s: Seq<char>) -> bool {
    forall|i: int| 0 <= i < s.len() ==> is_white_space(#[trigger] s[i])
}

/// True when `needle` occurs in `s` at index `i`.
pub open spec fn occurs_at<A>(s: Seq<A>, needle: Seq<A>, i: int) -> bool {
    0 <= i && i + needle.len() <= s.len() && s.subrange(i, i + needle.len()) =~= needle
}

/// True when `needle` occurs somewhere in `s`.
pub open spec fn contains_seq<A>(s: Seq<A>, needle: Seq<A>) -> bool {
    exists|i: int| occurs_at(s, needle, i)
}

/// Index of the first occurrence of `needle` in `s` at or after `i`, if any.
pub open spec fn find_from<A>(s: Seq<A>, needle: Seq<A>, i: int) -> Option<int>
    decreases s.len() - i,
{
    if i < 0 || i + needle.len() > s.len() {
        None
    } else if occurs_at(s, needle, i) {
        Some(i)
    } else {
        find_from(s, needle, i + 1)
    }
}

/// Index of the first occurrence of `needle` in `s`, if any.
pub open spec fn find<A>(s: Seq<A>, needle: Seq<A>) -> Option<int> {
    find_from(s, needle, 0)
}

/// Number of characters before the first line feed of `s` (or its length).
pub open spec fn line_len(s: Seq<char>) -> nat
    decreases s.len(),
{
    if s.len() == 0 || s[0] == '\n' {
        0
    } else {
        1 + line_len(s.drop_first())
    }
}

/// The lines of `s`: the pieces between line feeds.
pub open spec fn split_lines(s: Seq<char>) -> Seq<Seq<char>>
    decreases s.len(),
{
    let n = line_len(s);
    if n >= s.len() {
        seq![s]
    } else {
        seq![s.take(n as int)] + split_lines(s.skip(n as int + 1))
    }
}

/// Length of the leading run of characters of `s` that are not `c`.
pub open spec fn run_without(s: Seq<char>, c: char) -> nat
    decreases s.len(),
{
    if s.len() == 0 || s[0] == c {
        0
    } else {
        1 + run_without(s.drop_first(), c)
    }
}

/// Length of the leading run of non-white-space characters of `s`.
pub open spec fn word_len(s: Seq<char>) -> nat
    decreases s.len(),
{
    if s.len() == 0 || is_white_space(s[0]) {
        0
    } else {
        1 + word_len(s.drop_first())
    }
}

/// The first white-space-separated word of `s`, if any.
pub open spec fn first_word(s: Seq<char>) -> Option<Seq<char>> {
    let u = trim_start(s);
    if u.len() == 0 {
        None
    } else {
        Some(u.take(word_len(u) as int))
    }
}

/// `s` without leading occurrences of `c`.
pub open spec fn strip_start_char(s: Seq<char>, c: char) -> Seq<char>
    decreases s.len(),
{
    if s.len() > 0 && s[0] == c {
        strip_start_char(s.drop_first(), c)
    } else {
        s
    }
}

/// `s` without trailing occurrences of `c`.
pub open spec fn strip_end_char(s: Seq<char>, c: char) -> Seq<char>
    decreases s.len(),
{
    if s.len() > 0 && s.last() == c {
        strip_end_char(s.drop_last(), c)
    } else {
        s
    }
}

/// `s` without leading and trailing occurrences of `c`.
pub open spec fn strip_char(s: Seq<char>, c: char) -> Seq<char> {
    strip_end_char(strip_start_char(s, c), c)
}

/// The white-space-separated words of `s[i..]`, `cur` being the part of a
/// word already read (as `str::split_whitespace` gives them).
pub open spec fn words_from(s: Seq<char>, i: int, cur: Seq<char>) -> Seq<Seq<char>>
    decreases s.len() - i,
{
    if i < 0 || i >= s.len() {
        if cur.len() > 0 { seq![cur] } else { Seq::empty() }
    } else if is_white_space(s[i]) {
        (if cur.len() > 0 { seq![cur] } else { Seq::empty() }) + words_from(s, i + 1, Seq::empty())
    } else {
        words_from(s, i + 1, cur.push(s[i]))
    }
}

/// The white-space-separated words of `s`.
pub open spec fn words(s: Seq<char>) -> Seq<Seq<char>> {
    words_from(s, 0, Seq::empty())
}

/// The index of the last `c` in `s[..i]`, if any.
pub open spec fn last_index_before(s: Seq<char>, c: char, i: int) -> Option<int>
    decreases i,
{
    if i <= 0 || i > s.len() {
        None
    } else if s[i - 1] == c {
        Some(i - 1)
    } else {
        last_index_before(s, c, i - 1)
    }
}

/// The index of the last `c` in `s`, if any.
pub open spec fn last_index_of(s: Seq<char>, c: char) -> Option<int> {
    last_index_before(s, c, s.len() as int)
}

// ---------------------------------------------------------------------------
// Names for what std's Unicode tables return
// ---------------------------------------------------------------------------

/// What `char::is_alphabetic` returns for a character (the Unicode
/// `Alphabetic` property).
pub uninterp spec fn unicode_alphabetic(c: char) -> bool;

/// What `char::is_alphanumeric` returns for a character (`Alphabetic` or
/// `Numeric`).
pub uninterp spec fn unicode_alphanumeric(c: char) -> bool;

/// What `str::to_lowercase` returns for a string.
pub uninterp spec fn unicode_lowercase(s: Seq<char>) -> Seq<char>;

/// `a` followed by `b`.
pub fn concat_str(a: &str, b: &str) -> (r: String)
    ensures
        r@ == a@ + b@,
{
    let mut s = a.to_string();
    s.append(b);
    s
}

/// Whether `c` has the Unicode `White_Space` property (what
/// `char::is_whitespace` tests), by the list in [`is_white_space`].
pub(crate) fn char_is_whitespace(c: char) -> (r: bool)
    ensures
        r == is_white_space(c),
{
    c == '\t' || c == '\n' || c == '\u{0B}' || c == '\u{0C}' || c == '\r' || c == ' ' || c == '\u{85}'
        || c == '\u{A0}' || c == '\u{1680}' || ('\u{2000}' <= c && c <= '\u{200A}') || c == '\u{2028}'
        || c == '\u{2029}' || c == '\u{202F}' || c == '\u{205F}' || c == '\u{3000}'
}

// ---------------------------------------------------------------------------
// Trusted wrappers around std
// ---------------------------------------------------------------------------

/// Appends one character to a string.
///
/// Wraps `String::push`, which appends the character to the end.
#[verifier::external_body]
pub(crate) fn string_push(s: &mut String, c: char)
    ensures
        final(s)@ == old(s)@.push(c),
{
    s.push(c);
}

/// Wraps `char::is_alphabetic`; its result is named by [`unicode_alphabetic`].
#[verifier::external_body]
pub(crate) fn char_is_alphabetic(c: char) -> (r: bool)
    ensures
        r == unicode_alphabetic(c),
{
    c.is_alphabetic()
}

/// Wraps `char::is_alphanumeric`; its result is named by [`unicode_alphanumeric`].
#[verifier::external_body]
pub(crate) fn char_is_alphanumeric(c: char) -> (r: bool)
    ensures
        r == unicode_alphanumeric(c),
{
    c.is_alphanumeric()
}

/// Wraps `str::to_lowercase`; its result is named by [`unicode_lowercase`].
#[verifier::external_body]
pub(crate) fn str_to_lowercase(s: &str) -> (r: String)
    ensures
        r@ == unicode_lowercase(s@),
{
    s.to_lowercase()
}

// ---------------------------------------------------------------------------
// Lemmas
// ---------------------------------------------------------------------------

proof fn lemma_lcp_len_from<A>(a: Seq<A>, b: Seq<A>, i: int)
    requires
        0 <= i <= a.len(),
        i <= b.len(),
        forall|j: int| 0 <= j < i ==> a[j] == b[j],
    ensures
        i <= lcp_len_from(a, b, i) <= a.len(),
        lcp_len_from(a, b, i) <= b.len(),
        forall|j: int| 0 <= j < lcp_len_from(a, b, i) ==> a[j] == b[j],
        lcp_len_from(a, b, i) == a.len() || lcp_len_from(a, b, i) == b.len()
            || a[lcp_len_from(a, b, i)] != b[lcp_len_from(a, b, i)],
    decreases a.len() - i,
{
    if 0 <= i < a.len() && i < b.len() && a[i] == b[i] {
        lemma_lcp_len_from(a, b, i + 1);
    }
}

/// The defining properties of the longest common prefix length.
pub proof fn lemma_lcp<A>(a: Seq<A>, b: Seq<A>)
    ensures
        0 <= lcp_len(a, b) <= a.len(),
        lcp_len(a, b) <= b.len(),
        forall|j: int| 0 <= j < lcp_len(a, b) ==> a[j] == b[j],
        lcp_len(a, b) == a.len() || lcp_len(a, b) == b.len() || a[lcp_len(a, b)] != b[lcp_len(
            a,
            b,
        )],
        lcp(a, b).is_prefix_of(a),
        lcp(a, b).is_prefix_of(b),
        lcp(a, b).len() == lcp_len(a, b),
{
    lemma_lcp_len_from(a, b, 0);
    assert(lcp(a, b) =~= b.subrange(0, lcp_len(a, b)));
}

/// Any common prefix of `a` and `b` is a prefix of their longest common prefix.
pub proof fn lemma_lcp_maximal<A>(a: Seq<A>, b: Seq<A>, p: Seq<A>)
    requires
        p.is_prefix_of(a),
        p.is_prefix_of(b),
    ensures
        p.is_prefix_of(lcp(a, b)),
{
    lemma_lcp(a, b);
    let n = lcp_len(a, b);
    if p.len() > n {
        assert(a[n] == p[n]);
        assert(b[n] == p[n]);
    }
    assert(p =~= lcp(a, b).subrange(0, p.len() as int));
}

/// The longest common prefix of a sequence with itself is the sequence.
pub proof fn lemma_lcp_self<A>(a: Seq<A>)
    ensures
        lcp(a, a) == a,
{
    lemma_lcp(a, a);
    assert(lcp(a, a) =~= a);
}

/// Two prefixes of the same sequence: the shorter is a prefix of the longer.
pub proof fn lemma_prefixes_comparable<A>(p: Seq<A>, q: Seq<A>, s: Seq<A>)
    requires
        p.is_prefix_of(s),
        q.is_prefix_of(s),
        p.len() <= q.len(),
    ensures
        p.is_prefix_of(q),
{
    assert(p =~= q.subrange(0, p.len() as int));
}

/// Prefix is transitive.
pub proof fn lemma_prefix_trans<A>(p: Seq<A>, q: Seq<A>, s: Seq<A>)
    requires
        p.is_prefix_of(q),
        q.is_prefix_of(s),
    ensures
        p.is_prefix_of(s),
{
    assert(p =~= s.subrange(0, p.len() as int));
}

/// A UTF-8 encoding of a concatenation is the concatenation of the encodings.
pub proof fn lemma_encode_concat(a: Seq<char>, b: Seq<char>)
    ensures
        encode_utf8(a + b) == encode_utf8(a) + encode_utf8(b),
    decreases a.len(),
{
    if a.len() == 0 {
        assert(a + b =~= b);
        assert(encode_utf8(a) =~= Seq::<u8>::empty());
        assert(encode_utf8(a) + encode_utf8(b) =~= encode_utf8(b));
    } else {
        lemma_encode_concat(a.drop_first(), b);
        assert((a + b).drop_first() =~= a.drop_first() + b);
        assert(encode_utf8(a + b) =~= encode_scalar(a[0] as u32) + encode_utf8(a.drop_first() + b));
    }
}

/// Every character takes one to four bytes.
pub proof fn lemma_char_width(c: char)
    ensures
        1 <= char_width(c) <= 4,
        (c as u32) <= 0x7F ==> char_width(c) == 1,
        0x80 <= (c as u32) <= 0x7FF ==> char_width(c) == 2,
        0x800 <= (c as u32) <= 0xFFFF ==> char_width(c) == 3,
        0x10000 <= (c as u32) ==> char_width(c) == 4,
{
    broadcast use char_is_scalar;

    assert(is_scalar(c as u32));
}

/// A text has at least as many bytes as characters.
pub proof fn lemma_len_le_byte_len(s: Seq<char>)
    ensures
        s.len() <= byte_len(s),
    decreases s.len(),
{
    if s.len() > 0 {
        lemma_len_le_byte_len(s.drop_last());
        lemma_byte_len_push(s.drop_last(), s.last());
        lemma_char_width(s.last());
        assert(s.drop_last().push(s.last()) =~= s);
    }
}

/// Byte length of a sequence with one more character.
pub proof fn lemma_byte_len_push(s: Seq<char>, c: char)
    ensures
        byte_len(s.push(c)) == byte_len(s) + char_width(c),
{
    lemma_encode_concat(s, seq![c]);
    assert(s.push(c) =~= s + seq![c]);
    assert(seq![c].drop_first() =~= Seq::<char>::empty());
    assert(encode_utf8(seq![c]) =~= encode_scalar(c as u32) + encode_utf8(Seq::<char>::empty()));
}

/// Byte length of a concatenation.
pub proof fn lemma_byte_len_concat(a: Seq<char>, b: Seq<char>)
    ensures
        byte_len(a + b) == byte_len(a) + byte_len(b),
{
    lemma_encode_concat(a, b);
}

/// Longer prefixes take strictly more bytes.
pub proof fn lemma_byte_len_take_mono(s: Seq<char>, i: int, j: int)
    requires
        0 <= i <= j <= s.len(),
    ensures
        byte_len(s.take(i)) <= byte_len(s.take(j)),
        i < j ==> byte_len(s.take(i)) < byte_len(s.take(j)),
{
    lemma_byte_len_concat(s.take(i), s.subrange(i, j));
    assert(s.take(j) =~= s.take(i) + s.subrange(i, j));
    if i < j {
        lemma_byte_len_concat(seq![s[i]], s.subrange(i + 1, j));
        assert(s.subrange(i, j) =~= seq![s[i]] + s.subrange(i + 1, j));
        lemma_byte_len_push(Seq::<char>::empty(), s[i]);
        assert(Seq::<char>::empty().push(s[i]) =~= seq![s[i]]);
        assert(encode_utf8(Seq::<char>::empty()) =~= Seq::<u8>::empty());
        lemma_char_width(s[i]);
    }
}

/// A prefix takes no more bytes than the whole sequence.
pub proof fn lemma_byte_len_prefix(p: Seq<char>, s: Seq<char>)
    requires
        p.is_prefix_of(s),
    ensures
        byte_len(p) <= byte_len(s),
        p.len() < s.len() ==> byte_len(p) < byte_len(s),
{
    assert(p =~= s.take(p.len() as int));
    assert(s =~= s.take(s.len() as int));
    lemma_byte_len_take_mono(s, p.len() as int, s.len() as int);
}

/// A piece of a sequence takes no more bytes than the whole.
pub proof fn lemma_byte_len_subrange(s: Seq<char>, lo: int, hi: int)
    requires
        0 <= lo <= hi <= s.len(),
    ensures
        byte_len(s.subrange(lo, hi)) <= byte_len(s),
{
    lemma_byte_len_concat(s.take(lo), s.subrange(lo, hi));
    lemma_byte_len_concat(s.take(hi), s.skip(hi));
    assert(s.take(hi) =~= s.take(lo) + s.subrange(lo, hi));
    assert(s =~= s.take(hi) + s.skip(hi));
}

/// Byte length of the empty sequence.
pub proof fn lemma_byte_len_empty()
    ensures
        byte_len(Seq::<char>::empty()) == 0,
{
    assert(encode_utf8(Seq::<char>::empty()) =~= Seq::<u8>::empty());
}

proof fn lemma_trim_start_shape(s: Seq<char>)
    ensures
        trim_start(s).is_suffix_of(s),
        trim_start(s).len() > 0 ==> !is_white_space(trim_start(s)[0]),
        forall|i: int|
            0 <= i < s.len() - trim_start(s).len() ==> is_white_space(#[trigger] s[i]),
    decreases s.len(),
{
    if s.len() > 0 && is_white_space(s[0]) {
        lemma_trim_start_shape(s.drop_first());
        let t = trim_start(s.drop_first());
        assert(t =~= s.subrange(s.len() - t.len(), s.len() as int));
        assert forall|i: int| 0 <= i < s.len() - t.len() implies is_white_space(#[trigger] s[i]) by {
            if i > 0 {
                assert(s[i] == s.drop_first()[i - 1]);
            }
        }
    } else {
        assert(s =~= s.subrange(0, s.len() as int));
    }
}

proof fn lemma_trim_end_shape(s: Seq<char>)
    ensures
        trim_end(s).is_prefix_of(s),
        trim_end(s).len() > 0 ==> !is_white_space(trim_end(s).last()),
        forall|i: int| trim_end(s).len() <= i < s.len() ==> is_white_space(#[trigger] s[i]),
    decreases s.len(),
{
    if s.len() > 0 && is_white_space(s.last()) {
        lemma_trim_end_shape(s.drop_last());
        let t = trim_end(s.drop_last());
        assert(t =~= s.subrange(0, t.len() as int));
        assert forall|i: int| t.len() <= i < s.len() implies is_white_space(#[trigger] s[i]) by {
            if i < s.len() - 1 {
                assert(s[i] == s.drop_last()[i]);
            }
        }
    } else {
        assert(s =~= s.subrange(0, s.len() as int));
    }
}

/// `trim` removes exactly a white-space prefix and a white-space suffix.
pub proof fn lemma_trim_shape(s: Seq<char>)
    ensures
        exists|lo: int, hi: int|
            0 <= lo <= hi <= s.len() && trim(s) =~= s.subrange(lo, hi) && (forall|i: int|
                0 <= i < lo ==> is_white_space(#[trigger] s[i])) && (forall|i: int|
                hi <= i < s.len() ==> is_white_space(#[trigger] s[i])),
        trim(s).len() > 0 ==> !is_white_space(trim(s)[0]) && !is_white_space(trim(s).last()),
        trim(s).len() == 0 <==> all_white_space(s),
{
    lemma_trim_start_shape(s);
    let a = trim_start(s);
    lemma_trim_end_shape(a);
    let b = trim_end(a);
    let lo = s.len() - a.len();
    let hi = lo + b.len();
    assert(b =~= s.subrange(lo, hi));
    assert forall|i: int| hi <= i < s.len() implies is_white_space(#[trigger] s[i]) by {
        assert(s[i] == a[i - lo]);
    }
    if b.len() > 0 {
        assert(b[0] == a[0]);
    }
    if b.len() == 0 {
        assert forall|i: int| 0 <= i < s.len() implies is_white_space(#[trigger] s[i]) by {
            if i >= lo {
                assert(s[i] == a[i - lo]);
            }
        }
    } else {
        assert(!is_white_space(s[lo]));
    }
}

// ---------------------------------------------------------------------------
// Executable helpers
// ---------------------------------------------------------------------------

/// The characters of `s`, in order.
pub fn chars_of(s: &str) -> (v: Vec<char>)
    ensures
        v@ == s@,
{
    let mut v: Vec<char> = Vec::new();
    for c in it: s.chars()
        invariant
            v@ == it.seq().take(it.index() as int),
            it.seq() == s@,
    {
        v.push(c);
    }
    v
}

/// A copy of a character vector.
pub fn copy_chars(v: &Vec<char>) -> (r: Vec<char>)
    ensures
        r@ == v@,
{
    let mut r: Vec<char> = Vec::new();
    let mut i: usize = 0;
    while i < v.len()
        invariant
            i <= v.len(),
            r@ == v@.take(i as int),
        decreases v.len() - i,
    {
        r.push(v[i]);
        i = i + 1;
        assert(r@ =~= v@.take(i as int));
    }
    assert(v@.take(v.len() as int) =~= v@);
    r
}

/// A string holding the characters `v[lo..hi]`.
pub fn string_of_range(v: &Vec<char>, lo: usize, hi: usize) -> (s: String)
    requires
        lo <= hi <= v.len(),
    ensures
        s@ == v@.subrange(lo as int, hi as int),
{
    let mut s = String::new();
    let mut i = lo;
    while i < hi
        invariant
            lo <= i <= hi <= v.len(),
            s@ == v@.subrange(lo as int, i as int),
        decreases hi - i,
    {
        string_push(&mut s, v[i]);
        i = i + 1;
        assert(s@ =~= v@.subrange(lo as int, i as int));
    }
    s
}

/// A string holding all the characters of `v`.
pub fn string_of(v: &Vec<char>) -> (s: String)
    ensures
        s@ == v@,
{
    let s = string_of_range(v, 0, v.len());
    assert(v@.subrange(0, v.len() as int) =~= v@);
    s
}

/// A copy of `s`.
pub fn copy_str(s: &str) -> (r: String)
    ensures
        r@ == s@,
{
    let v = chars_of(s);
    string_of(&v)
}

// ---------------------------------------------------------------------------
// Decimal numbers
// ---------------------------------------------------------------------------

/// The ASCII digit for `d` (`0..=9`).
pub open spec fn digit_char(d: nat) -> char {
    if d == 0 { '0' } else if d == 1 { '1' } else if d == 2 { '2' } else if d == 3 { '3' }
    else if d == 4 { '4' } else if d == 5 { '5' } else if d == 6 { '6' } else if d == 7 { '7' }
    else if d == 8 { '8' } else { '9' }
}

/// The value of an ASCII digit character.
pub open spec fn digit_value(c: char) -> int {
    c as int - '0' as int
}

/// Whether `c` is an ASCII digit.
pub open spec fn is_digit(c: char) -> bool {
    '0' <= c <= '9'
}

/// The decimal text of `n`, without leading zeros (`"0"` for zero).
pub open spec fn decimal(n: nat) -> Seq<char>
    decreases n,
{
    if n < 10 {
        seq![digit_char(n)]
    } else {
        decimal(n / 10) + seq![digit_char(n % 10)]
    }
}

/// The value of a string of decimal digits (0 for the empty string).
pub open spec fn digits_value(s: Seq<char>) -> int
    decreases s.len(),
{
    if s.len() == 0 {
        0
    } else {
        digits_value(s.drop_last()) * 10 + digit_value(s.last())
    }
}

/// Whether every character of `s` is an ASCII digit.
pub open spec fn all_digits(s: Seq<char>) -> bool {
    forall|i: int| 0 <= i < s.len() ==> is_digit(#[trigger] s[i])
}

/// What std's unsigned `from_str` accepts for a type whose largest value is
/// `max`: an optional `+`, then one or more ASCII digits whose value is at
/// most `max`.
pub open spec fn parse_decimal(s: Seq<char>, max: int) -> Option<int> {
    let d = if s.len() > 0 && s[0] == '+' { s.drop_first() } else { s };
    if d.len() > 0 && all_digits(d) && digits_value(d) <= max {
        Some(digits_value(d))
    } else {
        None
    }
}

/// What `u32::from_str` returns.
pub open spec fn parse_u32(s: Seq<char>) -> Option<u32> {
    match parse_decimal(s, u32::MAX as int) {
        Some(v) => Some(v as u32),
        None => None,
    }
}

/// What `usize::from_str` returns.
pub open spec fn parse_usize(s: Seq<char>) -> Option<usize> {
    match parse_decimal(s, usize::MAX as int) {
        Some(v) => Some(v as usize),
        None => None,
    }
}

/// What `i32::from_str` returns: an optional sign, then one or more ASCII
/// digits whose value fits in `i32`.
pub open spec fn parse_i32(s: Seq<char>) -> Option<i32> {
    if s.len() > 0 && s[0] == '-' {
        let d = s.drop_first();
        if d.len() > 0 && all_digits(d) && digits_value(d) <= 0x8000_0000 {
            Some((-digits_value(d)) as i32)
        } else {
            None
        }
    } else {
        match parse_decimal(s, i32::MAX as int) {
            Some(v) => Some(v as i32),
            None => None,
        }
    }
}

/// The digit character for `d < 10`.
pub fn digit_char_exec(d: u64) -> (c: char)
    requires
        d < 10,
    ensures
        c == digit_char(d as nat),
{
    if d == 0 { '0' } else if d == 1 { '1' } else if d == 2 { '2' } else if d == 3 { '3' }
    else if d == 4 { '4' } else if d == 5 { '5' } else if d == 6 { '6' } else if d == 7 { '7' }
    else if d == 8 { '8' } else { '9' }
}

/// Appends the decimal text of `n` to `s`.
pub fn push_decimal(s: &mut String, n: u64)
    ensures
        final(s)@ == old(s)@ + decimal(n as nat),
    decreases n,
{
    if n >= 10 {
        push_decimal(s, n / 10);
    }
    let c = digit_char_exec(n % 10);
    string_push(s, c);
    if n >= 10 {
        assert(decimal(n as nat) == decimal((n / 10) as nat) + seq![digit_char((n % 10) as nat)]);
    }
    assert(final(s)@ =~= old(s)@ + decimal(n as nat)) by {
        if n < 10 {
            assert(n % 10 == n);
        }
    }
}

/// The decimal text of `n`.
pub fn decimal_string(n: u64) -> (r: String)
    ensures
        r@ == decimal(n as nat),
{
    let mut s = String::new();
    push_decimal(&mut s, n);
    assert(s@ =~= Seq::<char>::empty() + decimal(n as nat));
    s
}

proof fn lemma_digits_value_nonneg(s: Seq<char>)
    requires
        all_digits(s),
    ensures
        digits_value(s) >= 0,
    decreases s.len(),
{
    if s.len() > 0 {
        lemma_digits_value_nonneg(s.drop_last());
        assert(is_digit(s[s.len() - 1]));
    }
}

/// A digit string's value is at least that of any of its prefixes.
proof fn lemma_digits_value_prefix(s: Seq<char>, i: int)
    requires
        all_digits(s),
        0 <= i <= s.len(),
    ensures
        digits_value(s.take(i)) <= digits_value(s),
    decreases s.len() - i,
{
    if i < s.len() {
        lemma_digits_value_prefix(s, i + 1);
        let t = s.take(i + 1);
        assert(t.drop_last() =~= s.take(i));
        assert(is_digit(t.last()));
        lemma_digits_value_nonneg(s.take(i));
        assert(all_digits(s.take(i)));
        let v = digits_value(s.take(i));
        assert(v <= v * 10) by (nonlinear_arith)
            requires v >= 0;
    } else {
        assert(s.take(i) =~= s);
    }
}

/// Parses an unsigned decimal number no larger than `max`, as std's
/// unsigned `from_str` does.
pub fn parse_decimal_exec(s: &str, max: u64) -> (r: Option<u64>)
    ensures
        r matches Some(v) ==> parse_decimal(s@, max as int) == Some(v as int),
        r is None ==> parse_decimal(s@, max as int) is None,
{
    let v = chars_of(s);
    let start: usize = if v.len() > 0 && v[0] == '+' { 1 } else { 0 };
    let ghost d = if s@.len() > 0 && s@[0] == '+' { s@.drop_first() } else { s@ };
    assert(d =~= v@.subrange(start as int, v.len() as int));
    if start >= v.len() {
        return None;
    }
    let mut acc: u128 = 0;
    let mut i: usize = start;
    while i < v.len()
        invariant
            start <= i <= v.len(),
            start < v.len(),
            d == v@.subrange(start as int, v.len() as int),
            d == (if s@.len() > 0 && s@[0] == '+' { s@.drop_first() } else { s@ }),
            all_digits(d.take(i - start)),
            acc as int == digits_value(d.take(i - start)),
            acc <= max,
        decreases v.len() - i,
    {
        let c = v[i];
        if c < '0' || c > '9' {
            assert(!is_digit(d[i - start]));
            return None;
        }
        let dv: u64 = (c as u32 - '0' as u32) as u64;
        let next: u128 = acc * 10 + dv as u128;
        let ghost k = i - start;
        assert(d.take(k + 1).drop_last() =~= d.take(k));
        assert(all_digits(d.take(k + 1)));
        assert(next as int == digits_value(d.take(k + 1)));
        if next > max as u128 {
            proof {
                if all_digits(d) {
                    lemma_digits_value_prefix(d, k + 1);
                }
            }
            return None;
        }
        acc = next;
        i = i + 1;
    }
    assert(d.take(d.len() as int) =~= d);
    Some(acc as u64)
}

/// Parses a decimal `u32` as `u32::from_str` does.
pub fn parse_u32_exec(s: &str) -> (r: Option<u32>)
    ensures
        r == parse_u32(s@),
{
    match parse_decimal_exec(s, u32::MAX as u64) {
        Some(v) => Some(v as u32),
        None => None,
    }
}

/// Parses a decimal `usize` as `usize::from_str` does.
pub fn parse_usize_exec(s: &str) -> (r: Option<usize>)
    ensures
        r == parse_usize(s@),
{
    match parse_decimal_exec(s, usize::MAX as u64) {
        Some(v) => Some(v as usize),
        None => None,
    }
}

/// Parses a decimal `i32` as `i32::from_str` does.
pub fn parse_i32_exec(s: &str) -> (r: Option<i32>)
    ensures
        r == parse_i32(s@),
{
    let v = chars_of(s);
    if v.len() > 0 && v[0] == '-' {
        if v.len() > 1 && v[1] == '+' {
            assert(!is_digit(s@.drop_first()[0]));
            return None;
        }
        let rest = string_of_range(&v, 1, v.len());
        assert(rest@ =~= s@.drop_first());
        match parse_decimal_exec(rest.as_str(), 0x8000_0000) {
            Some(n) => {
                let m: i64 = 0 - (n as i64);
                Some(m as i32)
            },
            None => None,
        }
    } else {
        match parse_decimal_exec(s, 0x7fff_ffff) {
            Some(n) => Some(n as i32),
            None => None,
        }
    }
}

/// The UTF-8 length of a string fits in `usize` (it is the length of its
/// byte slice).
pub fn byte_len_fits(s: &str)
    ensures
        byte_len(s@) <= usize::MAX,
{
    let b = s.as_bytes();
    let n = b.len();
    assert(b@.len() == n);
}

/// The white-space-separated words of `v`.
pub fn words_exec(v: &Vec<char>) -> (r: Vec<Vec<char>>)
    ensures
        r@.map_values(|w: Vec<char>| w@) == words(v@),
{
    let mut r: Vec<Vec<char>> = Vec::new();
    let mut cur: Vec<char> = Vec::new();
    let mut i: usize = 0;
    while i < v.len()
        invariant
            i <= v.len(),
            r@.map_values(|w: Vec<char>| w@) + words_from(v@, i as int, cur@) == words(v@),
        decreases v.len() - i,
    {
        let ghost before = r@.map_values(|w: Vec<char>| w@);
        let ghost old_cur = cur@;
        if char_is_whitespace(v[i]) {
            if cur.len() > 0 {
                let w = copy_chars(&cur);
                r.push(w);
                assert(r@.map_values(|w: Vec<char>| w@) =~= before + seq![old_cur]);
                assert(before + seq![old_cur] + words_from(v@, i + 1, Seq::empty()) =~= before + (
                seq![old_cur] + words_from(v@, i + 1, Seq::empty())));
            } else {
                assert(Seq::<Seq<char>>::empty() + words_from(v@, i + 1, Seq::empty()) =~= words_from(
                    v@,
                    i + 1,
                    Seq::empty(),
                ));
            }
            cur = Vec::new();
            assert(cur@ =~= Seq::<char>::empty());
        } else {
            cur.push(v[i]);
        }
        i = i + 1;
    }
    if cur.len() > 0 {
        let ghost before = r@.map_values(|w: Vec<char>| w@);
        let w = copy_chars(&cur);
        r.push(w);
        assert(r@.map_values(|w: Vec<char>| w@) =~= before + seq![cur@]);
    } else {
        assert(r@.map_values(|w: Vec<char>| w@) + Seq::<Seq<char>>::empty() =~= r@.map_values(|w: Vec<char>| w@));
    }
    r
}

/// The index of the last `c` in `v`, if any.
pub fn last_index_of_exec(v: &Vec<char>, c: char) -> (r: Option<usize>)
    ensures
        r matches Some(k) ==> last_index_of(v@, c) == Some(k as int) && k < v.len(),
        r is None ==> last_index_of(v@, c) is None,
{
    let mut i: usize = v.len();
    while i > 0
        invariant
            i <= v.len(),
            last_index_of(v@, c) == last_index_before(v@, c, i as int),
        decreases i,
    {
        if v[i - 1] == c {
            return Some(i - 1);
        }
        i = i - 1;
    }
    None
}

/// Length of the longest common prefix of `a` and `b`.
pub fn common_prefix_len(a: &Vec<char>, b: &Vec<char>) -> (n: usize)
    ensures
        n == lcp_len(a@, b@),
{
    let mut i: usize = 0;
    while i < a.len() && i < b.len() && a[i] == b[i]
        invariant
            i <= a.len(),
            i <= b.len(),
            lcp_len_from(a@, b@, i as int) == lcp_len(a@, b@),
        decreases a.len() - i,
    {
        i = i + 1;
    }
    i
}

/// Number of bytes of the UTF-8 encoding of `c`.
pub fn char_utf8_width(c: char) -> (w: usize)
    ensures
        w == char_width(c),
{
    proof {
        lemma_char_width(c);
    }
    let u = c as u32;
    if u <= 0x7F {
        1
    } else if u <= 0x7FF {
        2
    } else if u <= 0xFFFF {
        3
    } else {
        4
    }
}

/// Number of bytes of the UTF-8 encoding of `v[lo..hi]`.
pub fn utf8_len_range(v: &Vec<char>, lo: usize, hi: usize) -> (n: usize)
    requires
        lo <= hi <= v.len(),
        byte_len(v@.subrange(lo as int, hi as int)) <= usize::MAX,
    ensures
        n == byte_len(v@.subrange(lo as int, hi as int)),
{
    let mut n: usize = 0;
    let mut i = lo;
    proof {
        lemma_byte_len_empty();
        assert(v@.subrange(lo as int, lo as int) =~= Seq::<char>::empty());
    }
    while i < hi
        invariant
            lo <= i <= hi <= v.len(),
            n == byte_len(v@.subrange(lo as int, i as int)),
            byte_len(v@.subrange(lo as int, hi as int)) <= usize::MAX,
        decreases hi - i,
    {
        proof {
            lemma_byte_len_push(v@.subrange(lo as int, i as int), v@[i as int]);
            assert(v@.subrange(lo as int, i as int).push(v@[i as int]) =~= v@.subrange(
                lo as int,
                i + 1,
            ));
            let w = v@.subrange(lo as int, hi as int);
            assert(v@.subrange(lo as int, i + 1) =~= w.take(i + 1 - lo));
            assert(w =~= w.take(w.len() as int));
            lemma_byte_len_take_mono(w, i + 1 - lo, w.len() as int);
        }
        let w = char_utf8_width(v[i]);
        n = n + w;
        i = i + 1;
    }
    n
}

/// True when the UTF-8 encoding of `v` takes at least `limit` bytes.
pub fn utf8_len_at_least(v: &Vec<char>, limit: usize) -> (r: bool)
    ensures
        r == (byte_len(v@) >= limit),
{
    let mut acc: usize = 0;
    let mut i: usize = 0;
    proof {
        lemma_byte_len_empty();
        assert(v@.take(0) =~= Seq::<char>::empty());
    }
    while i < v.len()
        invariant
            i <= v.len(),
            acc == byte_len(v@.take(i as int)),
            acc < limit || limit == 0,
        decreases v.len() - i,
    {
        if acc >= limit {
            proof {
                assert(v@ =~= v@.take(v@.len() as int));
                lemma_byte_len_take_mono(v@, i as int, v@.len() as int);
            }
            return true;
        }
        proof {
            lemma_byte_len_push(v@.take(i as int), v@[i as int]);
            assert(v@.take(i as int).push(v@[i as int]) =~= v@.take(i + 1));
        }
        let w = char_utf8_width(v[i]);
        if w >= limit - acc {
            proof {
                assert(v@ =~= v@.take(v@.len() as int));
                lemma_byte_len_take_mono(v@, i + 1, v@.len() as int);
            }
            return true;
        }
        acc = acc + w;
        i = i + 1;
    }
    assert(v@ =~= v@.take(v@.len() as int));
    acc >= limit
}

/// Trims leading and trailing white space, as index bounds into `v`.
pub fn trim_bounds(v: &Vec<char>) -> (r: (usize, usize))
    ensures
        r.0 <= r.1 <= v.len(),
        v@.subrange(r.0 as int, r.1 as int) == trim(v@),
{
    let mut lo: usize = 0;
    assert(v@.subrange(0, v.len() as int) =~= v@);
    while lo < v.len() && char_is_whitespace(v[lo])
        invariant
            lo <= v.len(),
            trim_start(v@) == trim_start(v@.subrange(lo as int, v.len() as int)),
        decreases v.len() - lo,
    {
        assert(v@.subrange(lo as int + 1, v.len() as int) =~= v@.subrange(
            lo as int,
            v.len() as int,
        ).drop_first());
        lo = lo + 1;
    }
    assert(v@.subrange(0, v.len() as int) =~= v@);
    let mut hi: usize = v.len();
    while hi > lo && char_is_whitespace(v[hi - 1])
        invariant
            lo <= hi <= v.len(),
            trim_start(v@) == v@.subrange(lo as int, v.len() as int),
            trim(v@) == trim_end(v@.subrange(lo as int, hi as int)),
        decreases hi,
    {
        assert(v@.subrange(lo as int, hi - 1) =~= v@.subrange(lo as int, hi as int).drop_last());
        hi = hi - 1;
    }
    (lo, hi)
}

/// `s` with leading and trailing white space removed.
pub fn trim_str(s: &str) -> (r: String)
    ensures
        r@ == trim(s@),
{
    let v = chars_of(s);
    let (lo, hi) = trim_bounds(&v);
    string_of_range(&v, lo, hi)
}

/// True when `v[i..]` starts with `needle`.
pub fn occurs_at_exec(v: &Vec<char>, needle: &Vec<char>, i: usize) -> (r: bool)
    requires
        i <= v.len(),
    ensures
        r == occurs_at(v@, needle@, i as int),
{
    if needle.len() > v.len() - i {
        return false;
    }
    let mut k: usize = 0;
    while k < needle.len()
        invariant
            k <= needle.len(),
            i + needle.len() <= v.len(),
            forall|j: int| 0 <= j < k ==> v@[i + j] == needle@[j],
        decreases needle.len() - k,
    {
        if v[i + k] != needle[k] {
            assert(v@.subrange(i as int, i + needle.len())[k as int] != needle@[k as int]);
            return false;
        }
        k = k + 1;
    }
    assert(v@.subrange(i as int, i + needle.len()) =~= needle@);
    true
}

/// Index of the first occurrence of `needle` in `v` at or after `from`.
pub fn find_from_exec(v: &Vec<char>, needle: &Vec<char>, from: usize) -> (r: Option<usize>)
    requires
        from <= v.len(),
    ensures
        r matches Some(i) ==> find_from(v@, needle@, from as int) == Some(i as int),
        r is None ==> find_from(v@, needle@, from as int) is None,
{
    let mut i = from;
    while i <= v.len()
        invariant
            from <= i,
            i <= v.len() + 1,
            find_from(v@, needle@, from as int) == find_from(v@, needle@, i as int),
        decreases v.len() + 1 - i,
    {
        if needle.len() > v.len() - i {
            return None;
        }
        if occurs_at_exec(v, needle, i) {
            return Some(i);
        }
        i = i + 1;
    }
    None
}

/// True when `needle` occurs in `v`.
pub fn contains_exec(v: &Vec<char>, needle: &Vec<char>) -> (r: bool)
    ensures
        r == contains_seq(v@, needle@),
{
    let r = find_from_exec(v, needle, 0);
    proof {
        lemma_find_from(v@, needle@, 0);
    }
    r.is_some()
}

/// `find_from` finds the first occurrence at or after `i`.
pub proof fn lemma_find_from<A>(s: Seq<A>, needle: Seq<A>, i: int)
    requires
        0 <= i,
    ensures
        find_from(s, needle, i) matches Some(k) ==> i <= k && occurs_at(s, needle, k) && forall|
            j: int,
        | i <= j < k ==> !occurs_at(s, needle, j),
        find_from(s, needle, i) is None ==> forall|j: int| i <= j ==> !occurs_at(s, needle, j),
    decreases s.len() - i,
{
    if i + needle.len() > s.len() {
    } else if occurs_at(s, needle, i) {
    } else {
        lemma_find_from(s, needle, i + 1);
    }
}


/// Length of the leading run of `v[lo..hi]` without the character `c`.
pub fn run_without_exec(v: &Vec<char>, lo: usize, hi: usize, c: char) -> (n: usize)
    requires
        lo <= hi <= v.len(),
    ensures
        n == run_without(v@.subrange(lo as int, hi as int), c),
        lo + n <= hi,
{
    let mut e = lo;
    while e < hi && v[e] != c
        invariant
            lo <= e <= hi <= v.len(),
            run_without(v@.subrange(lo as int, hi as int), c) == (e - lo) + run_without(
                v@.subrange(e as int, hi as int),
                c,
            ),
        decreases hi - e,
    {
        assert(v@.subrange(e + 1, hi as int) =~= v@.subrange(e as int, hi as int).drop_first());
        e = e + 1;
    }
    e - lo
}

/// End of the line starting at `start`: index of the next line feed, or the length.
pub fn line_end(v: &Vec<char>, start: usize) -> (e: usize)
    requires
        start <= v.len(),
    ensures
        start <= e <= v.len(),
        e - start == line_len(v@.skip(start as int)),
{
    let n = run_without_exec(v, start, v.len(), '\n');
    proof {
        lemma_line_len_is_run(v@.skip(start as int));
        assert(v@.subrange(start as int, v.len() as int) =~= v@.skip(start as int));
    }
    start + n
}

/// `line_len` is the run without line feeds.
pub proof fn lemma_line_len_is_run(s: Seq<char>)
    ensures
        line_len(s) == run_without(s, '\n'),
        line_len(s) <= s.len(),
    decreases s.len(),
{
    if s.len() > 0 && s[0] != '\n' {
        lemma_line_len_is_run(s.drop_first());
    }
}

/// The lines after the one starting at `pos`, when it ends before the end.
pub proof fn lemma_split_lines_step(s: Seq<char>, pos: int, e: int)
    requires
        0 <= pos <= e <= s.len(),
        e - pos == line_len(s.skip(pos)),
    ensures
        e < s.len() ==> split_lines(s.skip(pos)) == seq![s.subrange(pos, e)] + split_lines(
            s.skip(e + 1),
        ),
        e == s.len() ==> split_lines(s.skip(pos)) == seq![s.subrange(pos, e)],
{
    let t = s.skip(pos);
    assert(t.take(e - pos) =~= s.subrange(pos, e));
    if e < s.len() {
        assert(t.skip(e - pos + 1) =~= s.skip(e + 1));
    } else {
        assert(t =~= s.subrange(pos, e));
    }
}

/// Trims white space off `v[lo..hi]`, as index bounds into `v`.
pub fn trim_range(v: &Vec<char>, lo: usize, hi: usize) -> (r: (usize, usize))
    requires
        lo <= hi <= v.len(),
    ensures
        lo <= r.0 <= r.1 <= hi,
        v@.subrange(r.0 as int, r.1 as int) == trim(v@.subrange(lo as int, hi as int)),
{
    let ghost w = v@.subrange(lo as int, hi as int);
    let mut a: usize = lo;
    assert(v@.subrange(lo as int, hi as int) =~= w);
    while a < hi && char_is_whitespace(v[a])
        invariant
            lo <= a <= hi <= v.len(),
            w == v@.subrange(lo as int, hi as int),
            trim_start(w) == trim_start(v@.subrange(a as int, hi as int)),
        decreases hi - a,
    {
        assert(v@.subrange(a + 1, hi as int) =~= v@.subrange(a as int, hi as int).drop_first());
        a = a + 1;
    }
    let mut b: usize = hi;
    while b > a && char_is_whitespace(v[b - 1])
        invariant
            lo <= a <= b <= hi <= v.len(),
            w == v@.subrange(lo as int, hi as int),
            trim_start(w) == v@.subrange(a as int, hi as int),
            trim(w) == trim_end(v@.subrange(a as int, b as int)),
        decreases b,
    {
        assert(v@.subrange(a as int, b - 1) =~= v@.subrange(a as int, b as int).drop_last());
        b = b - 1;
    }
    (a, b)
}

/// A copy of `v[lo..hi]`.
pub fn slice_chars(v: &Vec<char>, lo: usize, hi: usize) -> (r: Vec<char>)
    requires
        lo <= hi <= v.len(),
    ensures
        r@ == v@.subrange(lo as int, hi as int),
{
    let mut r: Vec<char> = Vec::new();
    let mut i = lo;
    while i < hi
        invariant
            lo <= i <= hi <= v.len(),
            r@ == v@.subrange(lo as int, i as int),
        decreases hi - i,
    {
        r.push(v[i]);
        i = i + 1;
        assert(r@ =~= v@.subrange(lo as int, i as int));
    }
    r
}

/// The characters of a string literal or slice as a vector (alias of
/// [`chars_of`] for patterns).
pub fn pattern(s: &str) -> (v: Vec<char>)
    ensures
        v@ == s@,
{
    chars_of(s)
}

/// The first white-space-separated word of `v`, if any.
pub fn first_word_exec(v: &Vec<char>) -> (r: Option<Vec<char>>)
    ensures
        r matches Some(w) ==> first_word(v@) == Some(w@),
        r is None ==> first_word(v@) is None,
{
    let mut a: usize = 0;
    assert(v@.subrange(0, v.len() as int) =~= v@);
    while a < v.len() && char_is_whitespace(v[a])
        invariant
            a <= v.len(),
            trim_start(v@) == trim_start(v@.subrange(a as int, v.len() as int)),
        decreases v.len() - a,
    {
        assert(v@.subrange(a + 1, v.len() as int) =~= v@.subrange(a as int, v.len() as int).drop_first());
        a = a + 1;
    }
    if a == v.len() {
        return None;
    }
    let ghost u = v@.subrange(a as int, v.len() as int);
    assert(trim_start(u) == u);
    let mut e = a;
    while e < v.len() && !char_is_whitespace(v[e])
        invariant
            a <= e <= v.len(),
            u == v@.subrange(a as int, v.len() as int),
            word_len(u) == (e - a) + word_len(v@.subrange(e as int, v.len() as int)),
        decreases v.len() - e,
    {
        assert(v@.subrange(e + 1, v.len() as int) =~= v@.subrange(e as int, v.len() as int).drop_first());
        e = e + 1;
    }
    assert(u.take(e - a) =~= v@.subrange(a as int, e as int));
    Some(slice_chars(v, a, e))
}

/// Strips leading and trailing occurrences of `c` from `v[lo..hi]`, as bounds.
pub fn strip_char_range(v: &Vec<char>, lo: usize, hi: usize, c: char) -> (r: (usize, usize))
    requires
        lo <= hi <= v.len(),
    ensures
        lo <= r.0 <= r.1 <= hi,
        v@.subrange(r.0 as int, r.1 as int) == strip_char(v@.subrange(lo as int, hi as int), c),
{
    let ghost w = v@.subrange(lo as int, hi as int);
    let mut a: usize = lo;
    while a < hi && v[a] == c
        invariant
            lo <= a <= hi <= v.len(),
            w == v@.subrange(lo as int, hi as int),
            strip_start_char(w, c) == strip_start_char(v@.subrange(a as int, hi as int), c),
        decreases hi - a,
    {
        assert(v@.subrange(a + 1, hi as int) =~= v@.subrange(a as int, hi as int).drop_first());
        a = a + 1;
    }
    let mut b: usize = hi;
    while b > a && v[b - 1] == c
        invariant
            lo <= a <= b <= hi <= v.len(),
            w == v@.subrange(lo as int, hi as int),
            strip_start_char(w, c) == v@.subrange(a as int, hi as int),
            strip_char(w, c) == strip_end_char(v@.subrange(a as int, b as int), c),
        decreases b,
    {
        assert(v@.subrange(a as int, b - 1) =~= v@.subrange(a as int, b as int).drop_last());
        b = b - 1;
    }
    (a, b)
}

/// True when `v[lo..hi]` starts with `p`.
pub fn starts_with_range(v: &Vec<char>, lo: usize, hi: usize, p: &Vec<char>) -> (r: bool)
    requires
        lo <= hi <= v.len(),
    ensures
        r == p@.is_prefix_of(v@.subrange(lo as int, hi as int)),
{
    if p.len() > hi - lo {
        return false;
    }
    let mut k: usize = 0;
    while k < p.len()
        invariant
            k <= p.len(),
            lo + p.len() <= hi <= v.len(),
            forall|j: int| 0 <= j < k ==> v@[lo + j] == p@[j],
        decreases p.len() - k,
    {
        if v[lo + k] != p[k] {
            assert(v@.subrange(lo as int, hi as int).subrange(0, p.len() as int)[k as int] != p@[k as int]);
            return false;
        }
        k = k + 1;
    }
    assert(p@ =~= v@.subrange(lo as int, hi as int).subrange(0, p.len() as int));
    true
}

/// True when `a` and `b` hold the same characters.
pub fn chars_eq(a: &Vec<char>, b: &Vec<char>) -> (r: bool)
    ensures
        r == (a@ == b@),
{
    if a.len() != b.len() {
        return false;
    }
    let mut i: usize = 0;
    while i < a.len()
        invariant
            i <= a.len() == b.len(),
            forall|j: int| 0 <= j < i ==> a@[j] == b@[j],
        decreases a.len() - i,
    {
        if a[i] != b[i] {
            return false;
        }
        i = i + 1;
    }
    assert(a@ =~= b@);
    true
}

/// True when `a` and `b` hold the same characters.
pub fn str_eq(a: &str, b: &str) -> (r: bool)
    ensures
        r == (a@ == b@),
{
    let va = chars_of(a);
    let vb = chars_of(b);
    chars_eq(&va, &vb)
}

} // verus!
