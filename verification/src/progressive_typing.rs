//! Progressive typing with auto-correction.
//!
//! The engine tracks the text typed so far and, for each newly committed
//! text, decides what to type (and what to erase first when auto-correction
//! is on). Typing itself is performed by the caller, who reports back whether
//! it succeeded.
use vstd::prelude::*;
use crate::desktop::TypingMode;
use crate::text::{
    byte_len, chars_eq, chars_of, common_prefix_len, lcp, lcp_len, lemma_byte_len_prefix,
    lemma_lcp, string_of, string_of_range, utf8_len_range,
};

verus! {

/// Errors that can occur during progressive typing.
#[derive(Debug, Clone, PartialEq, Eq)]
pub enum ProgressiveTypingError {
    TextInputError(String),
    InvalidState(String),
}

impl ProgressiveTypingError {
    /// The error's message.
    pub fn message(&self) -> (r: String)
        ensures
            r@ == match *self {
                ProgressiveTypingError::TextInputError(m) => "Text input error: "@ + m@,
                ProgressiveTypingError::InvalidState(m) => "Invalid state: "@ + m@,
            },
    {
        match self {
            ProgressiveTypingError::TextInputError(m) => crate::text::concat_str("Text input error: ", m.as_str()),
            ProgressiveTypingError::InvalidState(m) => crate::text::concat_str("Invalid state: ", m.as_str()),
        }
    }
}

/// Configuration for progressive typing.
#[derive(Debug, Clone, Copy)]
pub struct ProgressiveTypingConfig {
    /// Enable progressive typing (type as text becomes stable).
    pub enabled: bool,
    /// Enable auto-correction (backspace and retype on changes).
    pub auto_correction: bool,
    /// Text input method.
    pub typing_mode: TypingMode,
}

impl Default for ProgressiveTypingConfig {
    fn default() -> (r: Self)
        ensures
            !r.enabled,
            !r.auto_correction,
            r.typing_mode == TypingMode::Auto,
    {
        ProgressiveTypingConfig { enabled: false, auto_correction: false, typing_mode: TypingMode::Auto }
    }
}

/// What the caller must do to bring the screen in line with committed text:
/// press BackSpace `backspaces` times, then type `text`.
#[derive(Debug, Clone)]
pub struct TypingAction {
    pub backspaces: usize,
    pub text: String,
}

/// One step of the typing engine: the action, the typed text afterwards,
/// and the count the step reports (characters erased plus characters typed).
pub struct TypingStep {
    pub backspaces: nat,
    pub text: Seq<char>,
    pub typed_after: Seq<char>,
    pub count: nat,
}

/// The step the engine takes for `committed`, given what was typed, or `None`
/// when nothing is to be done.
pub open spec fn typing_step(
    enabled: bool,
    auto_correction: bool,
    typed: Seq<char>,
    committed: Seq<char>,
) -> Option<TypingStep> {
    if !enabled || committed == typed {
        None
    } else if auto_correction && !typed.is_prefix_of(committed) {
        let keep = lcp_len(typed, committed);
        let text = committed.skip(keep);
        Some(
            TypingStep {
                backspaces: (typed.len() - keep) as nat,
                text,
                typed_after: committed,
                count: ((typed.len() - keep) + text.len()) as nat,
            },
        )
    } else if typed.is_prefix_of(committed) {
        let text = committed.skip(typed.len() as int);
        Some(TypingStep { backspaces: 0, text, typed_after: committed, count: text.len() })
    } else if byte_len(committed) > byte_len(typed) && committed.len() > typed.len() {
        // Diverged with correction off: only what lies beyond the typed
        // character count is appended.
        let text = committed.skip(typed.len() as int);
        Some(TypingStep { backspaces: 0, text, typed_after: typed + text, count: text.len() })
    } else {
        None
    }
}

/// Progressive typing engine that tracks typed text and computes diffs.
pub struct ProgressiveTypingEngine {
    typed: Vec<char>,
    config: ProgressiveTypingConfig,
}

impl ProgressiveTypingEngine {
    /// The text typed so far.
    pub closed spec fn typed_view(&self) -> Seq<char> {
        self.typed@
    }

    /// The current configuration.
    pub closed spec fn config_view(&self) -> ProgressiveTypingConfig {
        self.config
    }

    /// The step the engine takes for `committed` in its current state.
    pub open spec fn step_for(&self, committed: Seq<char>) -> Option<TypingStep> {
        typing_step(
            self.config_view().enabled,
            self.config_view().auto_correction,
            self.typed_view(),
            committed,
        )
    }

    /// Creates an engine that has typed nothing yet.
    pub fn new(config: ProgressiveTypingConfig) -> (r: Self)
        ensures
            r.typed_view() == Seq::<char>::empty(),
            r.config_view() == config,
    {
        ProgressiveTypingEngine { typed: Vec::new(), config }
    }

    /// Decides what to type for `committed_text`: `None` when no key event
    /// is to be sent (nothing to do, or the typing mode is None, which turns
    /// typing output off), otherwise the backspaces and text of the step.
    pub fn plan_update(&self, committed_text: &str) -> (r: Option<TypingAction>)
        requires
            byte_len(committed_text@) + self.typed_view().len() <= usize::MAX,
        ensures
            r is None <==> (self.step_for(committed_text@) is None || self.config_view().typing_mode
                == TypingMode::Disabled),
            r matches Some(a) ==> a.backspaces == self.step_for(committed_text@)->0.backspaces
                && a.text@ == self.step_for(committed_text@)->0.text,
    {
        if self.config.typing_mode == TypingMode::Disabled {
            return None;
        }
        match self.compute(committed_text) {
            None => None,
            Some((a, _after, _count)) => Some(a),
        }
    }

    /// Records the outcome of performing the step planned for
    /// `committed_text` (see [`Self::plan_update`]).
    ///
    /// When there is nothing to do, returns `Ok(0)`. When the typing failed,
    /// returns its error and leaves the typed text unchanged. Otherwise the
    /// typed text is updated and the step's count is returned.
    pub fn update(
        &mut self,
        committed_text: &str,
        outcome: Result<(), ProgressiveTypingError>,
    ) -> (r: Result<usize, ProgressiveTypingError>)
        requires
            byte_len(committed_text@) + old(self).typed_view().len() <= usize::MAX,
        ensures
            final(self).config_view() == old(self).config_view(),
            old(self).step_for(committed_text@) is None ==> r == Ok::<
                usize,
                ProgressiveTypingError,
            >(0) && final(self).typed_view() == old(self).typed_view(),
            old(self).step_for(committed_text@) matches Some(st) ==> match outcome {
                Ok(()) => r matches Ok(n) && n == st.count && final(self).typed_view()
                    == st.typed_after,
                Err(e) => r == Err::<usize, ProgressiveTypingError>(e) && final(self).typed_view()
                    == old(self).typed_view(),
            },
    {
        match self.compute(committed_text) {
            None => Ok(0),
            Some((_a, after, count)) => match outcome {
                Ok(()) => {
                    self.typed = after;
                    Ok(count)
                },
                Err(e) => Err(e),
            },
        }
    }

    /// The step for `committed_text`: action, typed text afterwards, count.
    fn compute(&self, committed_text: &str) -> (r: Option<(TypingAction, Vec<char>, usize)>)
        requires
            byte_len(committed_text@) + self.typed_view().len() <= usize::MAX,
        ensures
            r is None <==> self.step_for(committed_text@) is None,
            r matches Some(x) ==> {
                let st = self.step_for(committed_text@)->0;
                &&& x.0.backspaces == st.backspaces
                &&& x.0.text@ == st.text
                &&& x.1@ == st.typed_after
                &&& x.2 == st.count
            },
    {
        let c = chars_of(committed_text);
        let ghost cs = c@;
        let ghost ts = self.typed@;
        if !self.config.enabled || chars_eq(&c, &self.typed) {
            return None;
        }
        let keep = common_prefix_len(&self.typed, &c);
        proof {
            lemma_lcp(ts, cs);
            assert(ts.is_prefix_of(cs) <==> keep == ts.len()) by {
                if ts.is_prefix_of(cs) {
                    assert forall|j: int| 0 <= j < ts.len() implies ts[j] == cs[j] by {
                        assert(cs.subrange(0, ts.len() as int)[j] == cs[j]);
                    }
                    if keep < ts.len() {
                        assert(ts[keep as int] == cs[keep as int]);
                    }
                }
                if keep == ts.len() {
                    assert(ts =~= cs.subrange(0, ts.len() as int));
                }
            }
            assert(c@.subrange(0, c@.len() as int) =~= cs);
        }
        let total = utf8_len_range(&c, 0, c.len());
        if self.config.auto_correction && keep < self.typed.len() {
            proof {
                assert(c@.subrange(keep as int, c@.len() as int) =~= cs.skip(keep as int));
                lemma_byte_len_prefix(cs.take(keep as int), cs);
                crate::text::lemma_byte_len_concat(cs.take(keep as int), cs.skip(keep as int));
                assert(cs =~= cs.take(keep as int) + cs.skip(keep as int));
            }
            let text = string_of_range(&c, keep, c.len());
            let del = self.typed.len() - keep;
            proof {
                crate::text::lemma_len_le_byte_len(cs);
            }
            let a = TypingAction { backspaces: del, text };
            let count = del + (c.len() - keep);
            Some((a, c, count))
        } else if keep == self.typed.len() {
            proof {
                assert(c@.subrange(keep as int, c@.len() as int) =~= cs.skip(keep as int));
                crate::text::lemma_byte_len_concat(cs.take(keep as int), cs.skip(keep as int));
                assert(cs =~= cs.take(keep as int) + cs.skip(keep as int));
            }
            let text = string_of_range(&c, keep, c.len());
            let a = TypingAction { backspaces: 0, text };
            let count = c.len() - keep;
            Some((a, c, count))
        } else {
            let typed_covers = crate::text::utf8_len_at_least(&self.typed, total);
            if !typed_covers && c.len() > self.typed.len() {
                let n = self.typed.len();
                proof {
                    assert(c@.subrange(n as int, c@.len() as int) =~= cs.skip(n as int));
                    crate::text::lemma_byte_len_concat(cs.take(n as int), cs.skip(n as int));
                    assert(cs =~= cs.take(n as int) + cs.skip(n as int));
                    crate::text::lemma_byte_len_take_mono(cs, n as int, cs.len() as int);
                }
                let text = string_of_range(&c, n, c.len());
                let mut after = crate::text::copy_chars(&self.typed);
                let mut i = n;
                while i < c.len()
                    invariant
                        n <= i <= c.len(),
                        c@ == cs,
                        n == ts.len(),
                        after@ == ts + cs.subrange(n as int, i as int),
                    decreases c.len() - i,
                {
                    after.push(c[i]);
                    i = i + 1;
                    assert(after@ =~= ts + cs.subrange(n as int, i as int));
                }
                assert(cs.subrange(n as int, c.len() as int) =~= cs.skip(n as int));
                let a = TypingAction { backspaces: 0, text };
                Some((a, after, c.len() - n))
            } else {
                None
            }
        }
    }

    /// The text typed so far.
    pub fn typed_text(&self) -> (r: String)
        ensures
            r@ == self.typed_view(),
    {
        string_of(&self.typed)
    }

    /// Forgets what was typed (start fresh).
    pub fn reset(&mut self)
        ensures
            final(self).typed_view() == Seq::<char>::empty(),
            final(self).config_view() == old(self).config_view(),
    {
        self.typed = Vec::new();
    }

    /// Replaces the configuration.
    pub fn set_config(&mut self, config: ProgressiveTypingConfig)
        ensures
            final(self).config_view() == config,
            final(self).typed_view() == old(self).typed_view(),
    {
        self.config = config;
    }

    /// The current configuration.
    pub fn config(&self) -> (r: ProgressiveTypingConfig)
        ensures
            r == self.config_view(),
    {
        self.config
    }
}

/// The longest common prefix of two strings (character-wise).
pub fn find_common_prefix(a: &str, b: &str) -> (r: String)
    ensures
        r@ == lcp(a@, b@),
{
    crate::streaming::common_prefix(a, b)
}

/// Once the typed text equals the committed text, a second update with the
/// same text does nothing.
pub proof fn law_update_idempotent(
    enabled: bool,
    auto_correction: bool,
    typed: Seq<char>,
    committed: Seq<char>,
)
    requires
        typing_step(enabled, auto_correction, typed, committed) matches Some(st) && st.typed_after
            == committed,
    ensures
        typing_step(enabled, auto_correction, committed, committed) is None,
{
}

/// With auto-correction on, a successful step always leaves exactly the
/// committed text on screen.
pub proof fn law_correction_converges(typed: Seq<char>, committed: Seq<char>)
    requires
        typing_step(true, true, typed, committed) is Some,
    ensures
        typing_step(true, true, typed, committed)->0.typed_after == committed,
        typing_step(true, true, typed, committed)->0.backspaces + lcp_len(typed, committed)
            == typed.len(),
{
    lemma_lcp(typed, committed);
    if !typed.is_prefix_of(committed) {
    } else {
        assert(lcp(typed, committed) =~= typed) by {
            assert forall|j: int| 0 <= j < typed.len() implies typed[j] == committed[j] by {
                assert(committed.subrange(0, typed.len() as int)[j] == committed[j]);
            }
            if lcp_len(typed, committed) < typed.len() {
                let k = lcp_len(typed, committed);
                assert(typed[k] == committed[k]);
            }
        }
    }
}

} // verus!
