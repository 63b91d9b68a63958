//! Streaming transcription with the LocalAgreement policy.
//!
//! Text is committed only once `n` consecutive transcripts agree on it: the
//! committed text is the longest common prefix of the last `n` transcripts.
use vstd::prelude::*;
use crate::text::{
    byte_len, char_utf8_width, chars_of, copy_chars, common_prefix_len, lcp, lcp_len, lemma_byte_len_empty,
    lemma_byte_len_prefix, lemma_byte_len_push, lemma_byte_len_take_mono, lemma_lcp,
    lemma_lcp_maximal, lemma_prefix_trans, lemma_prefixes_comparable, string_of,
    string_of_range, utf8_len_range,
};

verus! {

/// Errors that can occur during streaming transcription.
#[derive(Debug, Clone, PartialEq, Eq)]
pub enum StreamingError {
    BufferOverflow,
    BackendError(String),
    VadError(String),
}

/// The description of an error.
pub open spec fn error_message(e: StreamingError) -> Seq<char> {
    match e {
        StreamingError::BufferOverflow => "Audio buffer overflow"@,
        StreamingError::BackendError(m) => "Transcription backend error: "@ + m@,
        StreamingError::VadError(m) => "VAD error: "@ + m@,
    }
}

impl StreamingError {
    /// Human-readable description of the error.
    pub fn message(&self) -> (r: String)
        ensures
            r@ == error_message(*self),
    {
        match self {
            StreamingError::BufferOverflow => "Audio buffer overflow".to_string(),
            StreamingError::BackendError(m) => {
                let mut s = "Transcription backend error: ".to_string();
                s.append(m.as_str());
                s
            },
            StreamingError::VadError(m) => {
                let mut s = "VAD error: ".to_string();
                s.append(m.as_str());
                s
            },
        }
    }
}

/// Longest common prefix of all transcripts in `h`, folded left to right.
pub open spec fn fold_lcp(h: Seq<Seq<char>>) -> Seq<char>
    decreases h.len(),
{
    if h.len() == 0 {
        Seq::empty()
    } else if h.len() == 1 {
        h[0]
    } else {
        lcp(fold_lcp(h.drop_last()), h.last())
    }
}

/// The stable (agreed) prefix of a history window: empty until `n`
/// transcripts are present, then their longest common prefix.
pub open spec fn stable_prefix(h: Seq<Seq<char>>, n: nat) -> Seq<char> {
    if h.len() < n {
        Seq::empty()
    } else {
        fold_lcp(h)
    }
}

/// The history window after adding transcript `t`: the last `n` transcripts.
pub open spec fn push_window(h: Seq<Seq<char>>, t: Seq<char>, n: nat) -> Seq<Seq<char>> {
    if h.len() + 1 > n {
        h.push(t).drop_first()
    } else {
        h.push(t)
    }
}

/// True when `s` has a character boundary `b` bytes into its UTF-8 encoding.
pub open spec fn is_byte_boundary(s: Seq<char>, b: nat) -> bool {
    exists|j: int| 0 <= j <= s.len() && byte_len(s.take(j)) == b
}

/// The characters of `s` after its first `b` bytes (`b` a character boundary).
pub open spec fn byte_suffix(s: Seq<char>, b: nat) -> Seq<char> {
    s.skip(choose|j: int| 0 <= j <= s.len() && byte_len(s.take(j)) == b)
}

/// What slicing `s` from byte `b` yields, when `s` is longer than `b` bytes;
/// otherwise the empty text.
pub open spec fn tail_after_bytes(s: Seq<char>, b: nat) -> Seq<char> {
    if byte_len(s) > b {
        byte_suffix(s, b)
    } else {
        Seq::empty()
    }
}

/// How many leading characters of `s` fit in `b` bytes of its UTF-8
/// encoding.
pub open spec fn chars_within(s: Seq<char>, b: nat) -> nat
    decreases s.len(),
{
    if s.len() == 0 {
        0
    } else if crate::text::char_width(s[0]) <= b {
        1 + chars_within(s.drop_first(), (b - crate::text::char_width(s[0])) as nat)
    } else {
        0
    }
}

/// The text that became stable when the committed text went from `before`
/// to `after`: when `after` is longer in bytes, the rest of `after` past
/// `before`'s byte length, cut at the character boundary at or before it;
/// otherwise nothing.
pub open spec fn newly_stable(before: Seq<char>, after: Seq<char>) -> Seq<char> {
    if byte_len(after) > byte_len(before) {
        after.skip(chars_within(after, byte_len(before)) as int)
    } else {
        Seq::empty()
    }
}

/// At most all the characters fit.
pub proof fn lemma_chars_within_len(s: Seq<char>, b: nat)
    ensures
        chars_within(s, b) <= s.len(),
    decreases s.len(),
{
    if s.len() > 0 && crate::text::char_width(s[0]) <= b {
        lemma_chars_within_len(s.drop_first(), (b - crate::text::char_width(s[0])) as nat);
    }
}

/// The bytes of a prefix hold exactly its characters.
pub proof fn lemma_chars_within_prefix(p: Seq<char>, s: Seq<char>)
    requires
        p.is_prefix_of(s),
    ensures
        chars_within(s, byte_len(p)) == p.len(),
    decreases p.len(),
{
    crate::text::lemma_byte_len_empty();
    if p.len() == 0 {
        if s.len() > 0 {
            crate::text::lemma_char_width(s[0]);
        }
    } else {
        assert(s[0] == p[0]) by {
            assert(s.subrange(0, p.len() as int)[0] == s[0]);
        }
        assert(byte_len(p) == crate::text::char_width(p[0]) + byte_len(p.drop_first()));
        assert(p.drop_first().is_prefix_of(s.drop_first())) by {
            assert(s.drop_first().subrange(0, p.drop_first().len() as int) =~= s.subrange(
                0,
                p.len() as int,
            ).drop_first());
        }
        lemma_chars_within_prefix(p.drop_first(), s.drop_first());
    }
}

/// What a call of [`LocalAgreementPolicy::process`] reports as newly stable
/// is exactly the text added to the committed text when the old committed
/// text is a prefix of the new one, and nothing when the committed text did
/// not grow in bytes.
pub proof fn law_newly_stable(before: Seq<char>, after: Seq<char>)
    ensures
        before.is_prefix_of(after) ==> before + newly_stable(before, after) == after,
        byte_len(after) <= byte_len(before) ==> newly_stable(before, after) == Seq::<char>::empty(),
{
    if before.is_prefix_of(after) {
        lemma_chars_within_prefix(before, after);
        lemma_byte_len_prefix(before, after);
        if byte_len(after) > byte_len(before) {
            assert(before + after.skip(before.len() as int) =~= after);
        } else {
            assert(before.len() == after.len()) by {
                if before.len() < after.len() {
                    crate::text::lemma_byte_len_take_mono(after, before.len() as int + 1, after.len() as int);
                    assert(after.take(before.len() as int) =~= before);
                    crate::text::lemma_byte_len_push(before, after[before.len() as int]);
                    crate::text::lemma_char_width(after[before.len() as int]);
                    assert(before.push(after[before.len() as int]) =~= after.take(before.len() as int + 1));
                    assert(after.take(after.len() as int) =~= after);
                }
            }
            assert(before =~= after) by {
                assert(after.subrange(0, before.len() as int) =~= after);
            }
            assert(before + Seq::<char>::empty() =~= after);
        }
    }
}

/// The longest common prefix of the window is a prefix of every member.
pub proof fn lemma_fold_lcp_prefix(h: Seq<Seq<char>>)
    ensures
        forall|i: int| 0 <= i < h.len() ==> fold_lcp(h).is_prefix_of(#[trigger] h[i]),
    decreases h.len(),
{
    if h.len() == 1 {
        assert(h[0].is_prefix_of(h[0])) by {
            assert(h[0] =~= h[0].subrange(0, h[0].len() as int));
        }
    } else if h.len() > 1 {
        lemma_fold_lcp_prefix(h.drop_last());
        let f = fold_lcp(h.drop_last());
        lemma_lcp(f, h.last());
        assert forall|i: int| 0 <= i < h.len() implies fold_lcp(h).is_prefix_of(#[trigger] h[i]) by {
            if i < h.len() - 1 {
                assert(h.drop_last()[i] == h[i]);
                lemma_prefix_trans(lcp(f, h.last()), f, h[i]);
            }
        }
    }
}

/// The longest common prefix of the window is the longest text that is a
/// prefix of every member.
pub proof fn lemma_fold_lcp_maximal(h: Seq<Seq<char>>, p: Seq<char>)
    requires
        h.len() > 0,
        forall|i: int| 0 <= i < h.len() ==> p.is_prefix_of(#[trigger] h[i]),
    ensures
        p.is_prefix_of(fold_lcp(h)),
    decreases h.len(),
{
    if h.len() > 1 {
        assert forall|i: int| 0 <= i < h.drop_last().len() implies p.is_prefix_of(
            #[trigger] h.drop_last()[i],
        ) by {
            assert(h.drop_last()[i] == h[i]);
        }
        lemma_fold_lcp_maximal(h.drop_last(), p);
        assert(p.is_prefix_of(h[h.len() - 1]));
        lemma_lcp_maximal(fold_lcp(h.drop_last()), h.last(), p);
    }
}

/// Equal byte lengths of two prefixes of one text mean equal prefixes.
pub proof fn lemma_byte_boundary_unique(s: Seq<char>, j1: int, j2: int)
    requires
        0 <= j1 <= s.len(),
        0 <= j2 <= s.len(),
        byte_len(s.take(j1)) == byte_len(s.take(j2)),
    ensures
        j1 == j2,
{
    if j1 < j2 {
        lemma_byte_len_take_mono(s, j1, j2);
    } else if j2 < j1 {
        lemma_byte_len_take_mono(s, j2, j1);
    }
}

/// For a prefix `p` of `s`, the text after `p`'s bytes is the rest of `s`.
pub proof fn lemma_byte_suffix_of_prefix(p: Seq<char>, s: Seq<char>)
    requires
        p.is_prefix_of(s),
    ensures
        is_byte_boundary(s, byte_len(p)),
        byte_suffix(s, byte_len(p)) == s.skip(p.len() as int),
        p + byte_suffix(s, byte_len(p)) == s,
{
    assert(s.take(p.len() as int) =~= p);
    let j = choose|j: int| 0 <= j <= s.len() && byte_len(s.take(j)) == byte_len(p);
    lemma_byte_boundary_unique(s, j, p.len() as int);
    assert(p + s.skip(p.len() as int) =~= s);
}

/// How many leading characters of `v` fit in `b` bytes.
fn chars_within_exec(v: &Vec<char>, b: usize) -> (j: usize)
    ensures
        j == chars_within(v@, b as nat),
        j <= v.len(),
{
    let mut j: usize = 0;
    let mut left: usize = b;
    assert(v@.skip(0) =~= v@);
    while j < v.len()
        invariant
            j <= v.len(),
            left <= b,
            chars_within(v@, b as nat) == j + chars_within(v@.skip(j as int), left as nat),
        decreases v.len() - j,
    {
        let w = char_utf8_width(v[j]);
        proof {
            let rest = v@.skip(j as int);
            assert(rest[0] == v@[j as int]);
            assert(rest.drop_first() =~= v@.skip(j + 1));
        }
        if w > left {
            return j;
        }
        left = left - w;
        j = j + 1;
    }
    proof {
        assert(v@.skip(j as int).len() == 0);
    }
    j
}

/// Finds the character index that lies `b` bytes into `v`.
fn index_at_byte(v: &Vec<char>, b: usize) -> (j: usize)
    requires
        is_byte_boundary(v@, b as nat),
    ensures
        j <= v.len(),
        byte_len(v@.take(j as int)) == b,
{
    let ghost jstar = choose|j: int| 0 <= j <= v@.len() && byte_len(v@.take(j)) == b;
    let mut j: usize = 0;
    let mut acc: usize = 0;
    proof {
        lemma_byte_len_empty();
        assert(v@.take(0) =~= Seq::<char>::empty());
    }
    while acc < b
        invariant
            j <= v.len(),
            acc == byte_len(v@.take(j as int)),
            acc <= b,
            0 <= jstar <= v@.len(),
            byte_len(v@.take(jstar)) == b,
            j <= jstar,
        decreases b - acc,
    {
        proof {
            if j == jstar {
                assert(false);
            }
            lemma_byte_len_push(v@.take(j as int), v@[j as int]);
            assert(v@.take(j as int).push(v@[j as int]) =~= v@.take(j + 1));
            lemma_byte_len_take_mono(v@, j + 1, jstar);
        }
        let w = char_utf8_width(v[j]);
        acc = acc + w;
        j = j + 1;
    }
    proof {
        if j < jstar {
            lemma_byte_len_take_mono(v@, j as int, jstar);
        }
    }
    j
}

/// Longest common prefix of two character vectors.
fn lcp_chars(a: &Vec<char>, b: &Vec<char>) -> (r: Vec<char>)
    ensures
        r@ == lcp(a@, b@),
{
    let n = common_prefix_len(a, b);
    proof {
        lemma_lcp(a@, b@);
    }
    let mut r: Vec<char> = Vec::new();
    let mut i: usize = 0;
    while i < n
        invariant
            n == lcp_len(a@, b@),
            n <= a.len(),
            i <= n,
            r@ == a@.take(i as int),
        decreases n - i,
    {
        r.push(a[i]);
        i = i + 1;
        assert(r@ =~= a@.take(i as int));
    }
    r
}

/// The longest common prefix of two strings, character by character.
pub fn common_prefix(a: &str, b: &str) -> (r: String)
    ensures
        r@ == lcp(a@, b@),
{
    let va = chars_of(a);
    let vb = chars_of(b);
    let p = lcp_chars(&va, &vb);
    string_of(&p)
}

/// LocalAgreement policy for determining stable text prefixes.
///
/// Text is committed only when `n` consecutive transcription iterations agree
/// on it, so partial words are never typed.
pub struct LocalAgreementPolicy {
    n: usize,
    history: Vec<Vec<char>>,
    committed: Vec<char>,
}

impl LocalAgreementPolicy {
    /// The transcripts in the agreement window, oldest first.
    pub closed spec fn history_view(&self) -> Seq<Seq<char>> {
        self.history@.map_values(|v: Vec<char>| v@)
    }

    /// The committed (stable) text.
    pub closed spec fn committed_view(&self) -> Seq<char> {
        self.committed@
    }

    /// Number of consecutive agreements required.
    pub closed spec fn threshold(&self) -> nat {
        self.n as nat
    }

    /// Well-formedness: the window holds at most `n` transcripts and the
    /// committed text is the window's stable prefix.
    pub closed spec fn wf(&self) -> bool {
        &&& self.n >= 1
        &&& self.history@.len() <= self.n
        &&& self.committed@ == stable_prefix(self.history_view(), self.n as nat)
        &&& byte_len(self.committed@) <= usize::MAX
        &&& forall|i: int|
            0 <= i < self.history@.len() ==> byte_len(#[trigger] self.history@[i]@) <= usize::MAX
    }

    /// Creates a policy requiring `n` consecutive agreements (at least 1).
    pub fn new(n: usize) -> (r: Self)
        ensures
            r.wf(),
            r.threshold() == if n == 0 { 1 } else { n as nat },
            r.history_view() == Seq::<Seq<char>>::empty(),
            r.committed_view() == Seq::<char>::empty(),
    {
        let r = LocalAgreementPolicy {
            n: if n == 0 { 1 } else { n },
            history: Vec::new(),
            committed: Vec::new(),
        };
        proof {
            lemma_byte_len_empty();
            assert(r.history_view() =~= Seq::<Seq<char>>::empty());
        }
        r
    }

    /// Longest common prefix of the history, when at least `n` transcripts are held.
    fn find_common_prefix(&self) -> (r: Vec<char>)
        requires
            self.n >= 1,
        ensures
            r@ == stable_prefix(self.history_view(), self.n as nat),
    {
        if self.history.len() < self.n {
            return Vec::new();
        }
        let mut prefix = copy_chars(&self.history[0]);
        let mut i: usize = 1;
        proof {
            assert(self.history_view().take(1) =~= seq![self.history_view()[0]]);
        }
        while i < self.history.len()
            invariant
                1 <= i <= self.history.len(),
                self.history@.len() >= 1,
                prefix@ == fold_lcp(self.history_view().take(i as int)),
            decreases self.history.len() - i,
        {
            let next = lcp_chars(&prefix, &self.history[i]);
            proof {
                let h = self.history_view();
                assert(h.take(i + 1).drop_last() =~= h.take(i as int));
                assert(h.take(i + 1).last() == h[i as int]);
            }
            prefix = next;
            i = i + 1;
        }
        proof {
            assert(self.history_view().take(self.history.len() as int) =~= self.history_view());
        }
        prefix
    }

    /// Processes a new transcript.
    ///
    /// Returns the text that just became stable (to be typed) and the part
    /// of the transcript that is not yet stable (to be shown as pending).
    /// Both are the byte-offset slices the policy takes: the new stable text
    /// after the previously committed text's bytes, and the transcript after
    /// the stable text's bytes.
    pub fn process(&mut self, new_transcript: String) -> (r: (String, String))
        requires
            old(self).wf(),
            byte_len(new_transcript@) <= usize::MAX,
        ensures
            final(self).wf(),
            final(self).threshold() == old(self).threshold(),
            final(self).history_view() == push_window(
                old(self).history_view(),
                new_transcript@,
                old(self).threshold(),
            ),
            final(self).committed_view() == stable_prefix(
                final(self).history_view(),
                final(self).threshold(),
            ),
            r.0@ == newly_stable(old(self).committed_view(), final(self).committed_view()),
            r.1@ == tail_after_bytes(new_transcript@, byte_len(final(self).committed_view())),
            // The stable text followed by the pending text is the transcript.
            final(self).committed_view() + r.1@ == new_transcript@,
            // With two or more agreements required, newly committed text
            // extends what was committed before.
            old(self).threshold() >= 2 && byte_len(final(self).committed_view()) > byte_len(
                old(self).committed_view(),
            ) ==> old(self).committed_view() + r.0@ == final(self).committed_view(),
    {
        let ghost old_h = self.history_view();
        let ghost old_c = self.committed@;
        let t = chars_of(new_transcript.as_str());
        let t2 = copy_chars(&t);
        self.history.push(t2);
        if self.history.len() > self.n {
            self.history.remove(0);
        }
        proof {
            let h2 = push_window(old_h, t@, self.n as nat);
            if old_h.len() + 1 > self.n {
                assert(self.history_view() =~= h2);
            } else {
                assert(self.history_view() =~= h2);
            }
        }
        let stable = self.find_common_prefix();
        let ghost h2 = self.history_view();
        let ghost st = stable@;
        proof {
            // The stable text is a prefix of the new transcript.
            if h2.len() >= self.n {
                lemma_fold_lcp_prefix(h2);
                assert(h2[h2.len() - 1] == t@);
                assert(st.is_prefix_of(t@));
            } else {
                assert(st.is_prefix_of(t@)) by {
                    assert(st =~= t@.subrange(0, 0));
                }
            }
            lemma_byte_len_prefix(st, t@);
            lemma_byte_suffix_of_prefix(st, t@);
            // Stable bytes fit in usize.
            if self.n >= 2 && old_h.len() >= 1 && old_h.len() == self.n as int
                && h2.len() >= self.n {
                // The last transcript of the old window is in the new window,
                // and both stable texts are its prefixes.
                lemma_fold_lcp_prefix(old_h);
                lemma_fold_lcp_prefix(h2);
                assert(h2[h2.len() - 2] == old_h.last());
                assert(old_c.is_prefix_of(old_h.last()));
                assert(st.is_prefix_of(old_h.last()));
                if old_c.len() <= st.len() {
                    lemma_prefixes_comparable(old_c, st, old_h.last());
                    lemma_byte_suffix_of_prefix(old_c, st);
                    lemma_chars_within_prefix(old_c, st);
                    assert(old_c + st.skip(old_c.len() as int) =~= st);
                } else {
                    lemma_prefixes_comparable(st, old_c, old_h.last());
                    lemma_byte_len_prefix(st, old_c);
                }
            } else if self.n == 1 {
                assert(h2 =~= seq![t@]);
                assert(st == t@);
            } else {
                // The old window was not full, so nothing was committed.
                assert(old_c =~= Seq::<char>::empty());
                lemma_byte_len_empty();
                assert(Seq::<char>::empty().is_prefix_of(st)) by {
                    assert(Seq::<char>::empty() =~= st.subrange(0, 0));
                }
                lemma_byte_suffix_of_prefix(Seq::<char>::empty(), st);
                lemma_chars_within_prefix(Seq::<char>::empty(), st);
                assert(st.skip(0) =~= st);
            }
        }
        proof {
            assert(self.committed@.subrange(0, self.committed@.len() as int) =~= old_c);
            assert(stable@.subrange(0, stable@.len() as int) =~= st);
            assert(t@.subrange(0, t@.len() as int) =~= t@);
        }
        let c_bytes = utf8_len_range(&self.committed, 0, self.committed.len());
        let s_bytes = utf8_len_range(&stable, 0, stable.len());
        let t_bytes = utf8_len_range(&t, 0, t.len());
        let newly = if s_bytes > c_bytes {
            let j = chars_within_exec(&stable, c_bytes);
            proof {
                assert(stable@.subrange(j as int, stable@.len() as int) =~= st.skip(j as int));
            }
            string_of_range(&stable, j, stable.len())
        } else {
            String::new()
        };
        let uncommitted = if t_bytes > s_bytes {
            let j = index_at_byte(&t, s_bytes);
            proof {
                let k = choose|k: int| 0 <= k <= t@.len() && byte_len(t@.take(k)) == s_bytes;
                lemma_byte_boundary_unique(t@, j as int, k);
                assert(t@.subrange(j as int, t@.len() as int) =~= t@.skip(j as int));
            }
            string_of_range(&t, j, t.len())
        } else {
            proof {
                assert(st.len() == t@.len()) by {
                    if st.len() < t@.len() {
                        lemma_byte_len_prefix(st, t@);
                    }
                }
                assert(st =~= t@);
                assert(st + Seq::<char>::empty() =~= t@);
            }
            String::new()
        };
        self.committed = stable;
        proof {
            lemma_byte_len_prefix(st, t@);
            assert forall|i: int| 0 <= i < self.history@.len() implies byte_len(
                #[trigger] self.history@[i]@,
            ) <= usize::MAX by {
                if i < self.history@.len() - 1 {
                    if old_h.len() + 1 > self.n {
                        assert(self.history@[i] == old(self).history@[i + 1]);
                    } else {
                        assert(self.history@[i] == old(self).history@[i]);
                    }
                } else {
                    assert(self.history@[i]@ == t@);
                }
            }
        }
        (newly, uncommitted)
    }

    /// The currently committed text.
    pub fn committed(&self) -> (r: String)
        ensures
            r@ == self.committed_view(),
    {
        string_of(&self.committed)
    }

    /// Number of transcripts currently held in the agreement window.
    pub fn history_len(&self) -> (r: usize)
        ensures
            r == self.history_view().len(),
    {
        self.history.len()
    }

    /// Clears the history and the committed text.
    pub fn reset(&mut self)
        requires
            old(self).wf(),
        ensures
            final(self).wf(),
            final(self).threshold() == old(self).threshold(),
            final(self).history_view() == Seq::<Seq<char>>::empty(),
            final(self).committed_view() == Seq::<char>::empty(),
    {
        self.history = Vec::new();
        self.committed = Vec::new();
        proof {
            lemma_byte_len_empty();
            assert(self.history_view() =~= Seq::<Seq<char>>::empty());
        }
    }
}

/// Position of the `k`-th retained sample in a ring of `cap` slots whose
/// oldest retained sample sits at `start`.
pub open spec fn ring_index(start: int, k: int, cap: int) -> int {
    if start + k < cap { start + k } else { start + k - cap }
}

/// A circular buffer holding the most recent `capacity` audio samples.
pub struct AudioBuffer<T> {
    buffer: Vec<T>,
    write_pos: usize,
    total_written: usize,
    capacity: usize,
    silence: T,
    retained: Ghost<Seq<T>>,
}

impl<T: Copy> AudioBuffer<T> {
    /// The samples held, oldest first: the last `capacity` written (all of
    /// them when fewer were written).
    pub closed spec fn samples(&self) -> Seq<T> {
        self.retained@
    }

    /// The number of samples the buffer holds at most.
    pub closed spec fn cap(&self) -> nat {
        self.capacity as nat
    }

    /// The number of samples written since creation or the last clear.
    pub closed spec fn written(&self) -> nat {
        self.total_written as nat
    }

    /// The ring's layout matches the samples it holds.
    pub closed spec fn wf(&self) -> bool {
        let len = self.retained@.len();
        let cap = self.capacity as int;
        let start = if len < cap { 0 } else { self.write_pos as int };
        &&& self.buffer@.len() == cap
        &&& len <= cap
        &&& len == if self.total_written < cap { self.total_written as int } else { cap }
        &&& (cap > 0 ==> self.write_pos < cap)
        &&& (cap == 0 ==> self.write_pos == 0)
        &&& (len < cap ==> self.write_pos == len)
        &&& forall|k: int| 0 <= k < len ==> #[trigger] self.retained@[k] == self.buffer@[ring_index(start, k, cap)]
    }

    /// A buffer of `duration_seconds` of audio at `sample_rate`, filled with
    /// `silence`.
    pub fn new(duration_seconds: usize, sample_rate: usize, silence: T) -> (r: Self)
        requires
            duration_seconds * sample_rate <= usize::MAX,
        ensures
            r.wf(),
            r.cap() == duration_seconds * sample_rate,
            r.samples() == Seq::<T>::empty(),
            r.written() == 0,
    {
        let capacity = duration_seconds * sample_rate;
        let mut buffer: Vec<T> = Vec::new();
        let mut i: usize = 0;
        while i < capacity
            invariant
                i <= capacity,
                buffer@.len() == i,
            decreases capacity - i,
        {
            buffer.push(silence);
            i = i + 1;
        }
        AudioBuffer { buffer, write_pos: 0, total_written: 0, capacity, silence, retained: Ghost(Seq::empty()) }
    }

    /// Writes samples; once full, each new sample replaces the oldest.
    pub fn write(&mut self, samples: &[T])
        requires
            old(self).wf(),
            old(self).cap() > 0 || samples@.len() == 0,
            old(self).written() + samples@.len() <= usize::MAX,
        ensures
            final(self).wf(),
            final(self).cap() == old(self).cap(),
            final(self).written() == old(self).written() + samples@.len(),
            final(self).samples() == {
                let all = old(self).samples() + samples@;
                if all.len() <= old(self).cap() { all } else { all.skip(all.len() - old(self).cap()) }
            },
    {
        let ghost start_samples = self.retained@;
        let mut i: usize = 0;
        while i < samples.len()
            invariant
                i <= samples.len(),
                self.wf(),
                self.cap() == old(self).cap(),
                self.cap() > 0 || samples@.len() == 0,
                self.written() == old(self).written() + i,
                old(self).written() + samples@.len() <= usize::MAX,
                start_samples == old(self).samples(),
                self.samples() == {
                    let all = start_samples + samples@.take(i as int);
                    if all.len() <= self.cap() { all } else { all.skip(all.len() - self.cap()) }
                },
            decreases samples.len() - i,
        {
            let x = samples[i];
            let ghost len = self.retained@.len() as int;
            let ghost cap = self.capacity as int;
            let ghost wp = self.write_pos as int;
            let ghost old_buf = self.buffer@;
            let ghost old_ret = self.retained@;
            let ghost start = if len < cap { 0 } else { wp };
            self.buffer.set(self.write_pos, x);
            self.write_pos = if self.write_pos + 1 == self.capacity { 0 } else { self.write_pos + 1 };
            self.total_written = self.total_written + 1;
            proof {
                let new_ret = if len < cap { old_ret.push(x) } else { old_ret.drop_first().push(x) };
                self.retained = Ghost(new_ret);
                let nlen = new_ret.len() as int;
                let nstart = if nlen < cap { 0 } else { self.write_pos as int };
                if len < cap {
                    assert(start == 0 && wp == len);
                    assert forall|k: int| 0 <= k < nlen implies #[trigger] new_ret[k] == self.buffer@[ring_index(nstart, k, cap)] by {
                        if k < len {
                            assert(ring_index(nstart, k, cap) == k);
                            assert(ring_index(start, k, cap) == k);
                        } else {
                            assert(ring_index(nstart, k, cap) == wp);
                        }
                    }
                } else {
                    assert(start == wp);
                    assert forall|k: int| 0 <= k < nlen implies #[trigger] new_ret[k] == self.buffer@[ring_index(nstart, k, cap)] by {
                        if k < cap - 1 {
                            assert(new_ret[k] == old_ret[k + 1]);
                            assert(ring_index(nstart, k, cap) == ring_index(start, k + 1, cap));
                        } else {
                            assert(ring_index(nstart, k, cap) == wp);
                        }
                    }
                }
                let all_prev = start_samples + samples@.take(i as int);
                let all_next = start_samples + samples@.take(i + 1);
                assert(all_next =~= all_prev.push(x));
                if all_next.len() <= cap {
                    assert(new_ret =~= all_next);
                } else if all_prev.len() <= cap {
                    assert(all_prev.len() == cap);
                    assert(new_ret =~= all_next.skip(all_next.len() - cap));
                } else {
                    assert(new_ret =~= all_next.skip(all_next.len() - cap));
                }
            }
            i = i + 1;
        }
        assert(samples@.take(samples@.len() as int) =~= samples@);
    }

    /// The most recent `num_samples` samples (fewer when fewer are held),
    /// oldest first.
    pub fn read_recent(&self, num_samples: usize) -> (r: Vec<T>)
        requires
            self.wf(),
        ensures
            r@ == self.samples().skip(
                self.samples().len() - if num_samples <= self.samples().len() { num_samples as int } else { self.samples().len() as int },
            ),
    {
        let len: usize = if self.total_written < self.capacity { self.total_written } else { self.capacity };
        let m: usize = if num_samples < len { num_samples } else { len };
        let start: usize = if len < self.capacity { 0 } else { self.write_pos };
        let first: usize = len - m;
        let mut r: Vec<T> = Vec::new();
        let mut i: usize = 0;
        while i < m
            invariant
                i <= m,
                m <= len,
                len == self.samples().len(),
                first == len - m,
                start == (if len < self.capacity { 0 } else { self.write_pos }),
                self.wf(),
                r@ == self.samples().subrange(first as int, first + i),
            decreases m - i,
        {
            let k: usize = first + i;
            let pos: usize = if k < self.capacity - start { start + k } else { k - (self.capacity - start) };
            assert(pos == ring_index(start as int, k as int, self.capacity as int));
            assert(self.samples()[k as int] == self.buffer@[pos as int]);
            r.push(self.buffer[pos]);
            i = i + 1;
            assert(r@ =~= self.samples().subrange(first as int, first + i));
        }
        assert(self.samples().subrange(first as int, len as int) =~= self.samples().skip(first as int));
        r
    }

    /// Number of samples written since creation or the last clear.
    pub fn total_written(&self) -> (r: usize)
        ensures
            r == self.written(),
    {
        self.total_written
    }

    /// Empties the buffer.
    pub fn clear(&mut self)
        requires
            old(self).wf(),
        ensures
            final(self).wf(),
            final(self).cap() == old(self).cap(),
            final(self).samples() == Seq::<T>::empty(),
            final(self).written() == 0,
    {
        let mut i: usize = 0;
        while i < self.buffer.len()
            invariant
                i <= self.buffer@.len(),
                self.buffer@.len() == self.capacity,
                self.capacity == old(self).capacity,
            decreases self.buffer@.len() - i,
        {
            let s = self.silence;
            self.buffer.set(i, s);
            i = i + 1;
        }
        self.write_pos = 0;
        self.total_written = 0;
        self.retained = Ghost(Seq::empty());
    }
}

/// Reading everything back after writes gives the last `capacity` samples
/// written, in order: a buffer never reorders or invents samples.
pub proof fn law_ring_keeps_latest<T>(held: Seq<T>, written: Seq<T>, cap: nat)
    requires
        held.len() <= cap,
    ensures
        ({
            let all = held + written;
            let kept = if all.len() <= cap { all } else { all.skip(all.len() - cap) };
            &&& kept.len() <= cap
            &&& kept.is_suffix_of(all)
            &&& (written.len() >= cap ==> kept == written.skip(written.len() - cap))
        }),
{
    let all = held + written;
    let kept = if all.len() <= cap { all } else { all.skip(all.len() - cap) };
    assert(all.subrange(all.len() - kept.len(), all.len() as int) =~= kept);
    if written.len() >= cap && all.len() > cap {
        assert(kept =~= written.skip(written.len() - cap));
    }
    if written.len() >= cap && all.len() <= cap {
        assert(held.len() == 0);
        assert(kept =~= written.skip(written.len() - cap));
    }
}

/// Configuration for streaming transcription.
#[derive(Debug, Clone)]
pub struct StreamingConfig {
    /// Chunk size in milliseconds for transcription.
    pub chunk_size_ms: u64,
    /// Audio buffer size in seconds.
    pub buffer_size_seconds: usize,
    /// LocalAgreement threshold (n).
    pub agreement_threshold: usize,
    /// Enable progressive typing.
    pub progressive_typing: bool,
    /// Enable auto-correction (backspace and retype).
    pub auto_correction: bool,
}

impl Default for StreamingConfig {
    fn default() -> (r: Self)
        ensures
            r.chunk_size_ms == 500,
            r.buffer_size_seconds == 10,
            r.agreement_threshold == 2,
            !r.progressive_typing,
            !r.auto_correction,
    {
        StreamingConfig {
            chunk_size_ms: 500,
            buffer_size_seconds: 10,
            agreement_threshold: 2,
            progressive_typing: false,
            auto_correction: false,
        }
    }
}

} // verus!
