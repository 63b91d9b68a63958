//! The decisions of the streaming transcription engine.
//!
//! The engine listens to voice activity, transcribes each finished speech
//! segment and types what was said. The audio capture, the transcription
//! request and the typing are done by the caller; this module holds the
//! engine's state and decides, for each event, what changes and what is
//! reported.
use vstd::prelude::*;
use crate::streaming::{LocalAgreementPolicy, newly_stable, stable_prefix, push_window};
use crate::text::{byte_len, byte_len_fits, lemma_byte_len_empty, opt_str_view};
use crate::text_filters::{TextFilters, apply_filters};

verus! {

/// Errors that can occur in the streaming engine.
#[derive(Debug, Clone, PartialEq, Eq)]
pub enum StreamingEngineError {
    VadError(String),
    TranscriptionError(String),
    AudioError(String),
    ProgressiveTypingError(String),
    NotRunning,
}

impl StreamingEngineError {
    /// The error's message.
    pub fn message(&self) -> (r: String)
        ensures
            r@ == match *self {
                StreamingEngineError::VadError(m) => "VAD error: "@ + m@,
                StreamingEngineError::TranscriptionError(m) => "Transcription error: "@ + m@,
                StreamingEngineError::AudioError(m) => "Audio error: "@ + m@,
                StreamingEngineError::ProgressiveTypingError(m) => "Progressive typing error: "@ + m@,
                StreamingEngineError::NotRunning => "Engine not running"@,
            },
    {
        match self {
            StreamingEngineError::VadError(m) => crate::text::concat_str("VAD error: ", m.as_str()),
            StreamingEngineError::TranscriptionError(m) => crate::text::concat_str("Transcription error: ", m.as_str()),
            StreamingEngineError::AudioError(m) => crate::text::concat_str("Audio error: ", m.as_str()),
            StreamingEngineError::ProgressiveTypingError(m) => crate::text::concat_str("Progressive typing error: ", m.as_str()),
            StreamingEngineError::NotRunning => "Engine not running".to_string(),
        }
    }
}

/// Events emitted by the streaming engine.
#[derive(Debug, Clone, PartialEq, Eq)]
pub enum StreamingEvent {
    /// Probable speech: the first frames above the threshold, before the
    /// minimum duration is met.
    SpeechProbable,
    /// Confirmed speech (the minimum duration is met).
    SpeechStarted,
    /// End of speech.
    SpeechEnded,
    /// New transcript text.
    TranscriptUpdate { committed: String, uncommitted: String },
    /// A transcribed segment.
    SegmentCompleted { text: String, duration_ms: u64 },
    /// An error.
    Error(String),
    /// Statistics.
    StatsUpdate { segments_processed: usize, avg_latency_ms: u64 },
}

/// Statistics of the streaming engine.
#[derive(Debug, Clone, Copy, PartialEq, Eq, Structural)]
pub struct StreamingStats {
    /// Number of segments processed.
    pub segments_processed: usize,
    /// Sum of all segments' latencies, in milliseconds.
    pub total_latency_ms: u64,
    /// Average latency in milliseconds.
    pub avg_latency_ms: u64,
    /// Number of characters typed.
    pub chars_typed: usize,
    /// Number of corrections made.
    pub corrections_made: usize,
}

impl Default for StreamingStats {
    fn default() -> (r: Self)
        ensures
            r.segments_processed == 0,
            r.total_latency_ms == 0,
            r.avg_latency_ms == 0,
            r.chars_typed == 0,
            r.corrections_made == 0,
    {
        StreamingStats {
            segments_processed: 0,
            total_latency_ms: 0,
            avg_latency_ms: 0,
            chars_typed: 0,
            corrections_made: 0,
        }
    }
}

impl StreamingStats {
    /// Counts one more processed segment that took `latency_ms`, keeping the
    /// average latency as the total over the count (integer division).
    pub fn record_segment(&mut self, latency_ms: u64)
        requires
            old(self).segments_processed < usize::MAX,
            old(self).total_latency_ms + latency_ms <= u64::MAX,
        ensures
            final(self).segments_processed == old(self).segments_processed + 1,
            final(self).total_latency_ms == old(self).total_latency_ms + latency_ms,
            final(self).avg_latency_ms == (final(self).total_latency_ms as int) / (
            final(self).segments_processed as int),
            final(self).chars_typed == old(self).chars_typed,
            final(self).corrections_made == old(self).corrections_made,
    {
        self.segments_processed = self.segments_processed + 1;
        self.total_latency_ms = self.total_latency_ms + latency_ms;
        self.avg_latency_ms = self.total_latency_ms / (self.segments_processed as u64);
    }

    /// Counts typed characters.
    pub fn record_typed(&mut self, chars: usize)
        requires
            old(self).chars_typed + chars <= usize::MAX,
        ensures
            *final(self) == (StreamingStats { chars_typed: (old(self).chars_typed + chars) as usize, ..*old(self) }),
    {
        self.chars_typed = self.chars_typed + chars;
    }
}

/// The average latency, being the total over the number of segments, lies
/// between zero and the total.
pub proof fn law_average_bounded(total: u64, count: usize)
    requires
        count > 0,
    ensures
        0 <= (total as int) / (count as int) <= total,
{
    assert((total as int) / (count as int) <= total) by (nonlinear_arith)
        requires count > 0, total >= 0;
}

/// With the default threshold of two agreements, feeding a non-empty
/// transcript twice to an empty window commits all of it: the newly stable
/// text is the transcript.
pub proof fn law_double_feed_commits(t: Seq<char>)
    requires
        t.len() > 0,
    ensures
        ({
            let w1 = push_window(Seq::empty(), t, 2);
            let w2 = push_window(w1, t, 2);
            newly_stable(stable_prefix(w1, 2), stable_prefix(w2, 2)) == t
        }),
{
    let w1 = push_window(Seq::<Seq<char>>::empty(), t, 2);
    let w2 = push_window(w1, t, 2);
    assert(w1 =~= seq![t]);
    assert(w2 =~= seq![t, t]);
    assert(stable_prefix(w1, 2) == Seq::<char>::empty());
    lemma_byte_len_empty();
    assert(w2.drop_last() =~= seq![t]);
    crate::text::lemma_lcp_self(t);
    assert(crate::streaming::fold_lcp(seq![t]) == t);
    assert(crate::streaming::fold_lcp(w2) == crate::text::lcp(crate::streaming::fold_lcp(w2.drop_last()), w2.last()));
    assert(stable_prefix(w2, 2) == t);
    assert(t.take(0) =~= Seq::<char>::empty());
    crate::text::lemma_byte_len_take_mono(t, 0, t.len() as int);
    assert(t.take(t.len() as int) =~= t);
    assert(byte_len(t) > 0);
    crate::streaming::law_newly_stable(Seq::<char>::empty(), t);
    assert(Seq::<char>::empty() + crate::streaming::newly_stable(Seq::<char>::empty(), t) =~= crate::streaming::newly_stable(Seq::<char>::empty(), t));
    assert(Seq::<char>::empty().is_prefix_of(t)) by {
        assert(t.subrange(0, 0) =~= Seq::<char>::empty());
    }
}

/// The events that a voice activity frame raises: `SpeechProbable` when
/// probable speech begins and `SpeechStarted` when speech is confirmed
/// (each only on the change from false to true), in that order.
pub open spec fn vad_frame_events(was_probable: bool, was_speaking: bool, is_probable: bool, is_speaking: bool) -> Seq<StreamingEvent> {
    (if is_probable && !was_probable { seq![StreamingEvent::SpeechProbable] } else { Seq::empty() })
        + (if is_speaking && !was_speaking { seq![StreamingEvent::SpeechStarted] } else { Seq::empty() })
}

/// `acc` with newly committed text appended, separated by a space from
/// what came before.
pub open spec fn accumulate(acc: Seq<char>, newly: Seq<char>) -> Seq<char> {
    if newly.len() == 0 {
        acc
    } else if acc.len() == 0 {
        newly
    } else {
        acc + seq![' '] + newly
    }
}

/// What a transcript becomes before it is committed: nothing when empty,
/// otherwise the filtered text (unfiltered under a guided grammar), unless
/// filtering empties it.
pub open spec fn prepared_transcript(
    transcript: Seq<char>,
    guided: bool,
    filters: TextFilters,
    language: Option<Seq<char>>,
) -> Option<Seq<char>> {
    if transcript.len() == 0 {
        None
    } else {
        let t = if guided { transcript } else { apply_filters(filters, transcript, language) };
        if t.len() == 0 { None } else { Some(t) }
    }
}

/// What a transcribed segment leads to.
#[derive(Debug, Clone, PartialEq, Eq)]
pub enum SegmentOutcome {
    /// Nothing is left to commit: the transcript was empty, or emptied by the
    /// filters.
    Skip,
    /// The transcript was committed.
    Committed {
        /// The transcript after filtering.
        text: String,
        /// The text that just became stable.
        newly_committed: String,
        /// When progressive typing is on and something became stable, the
        /// whole accumulated text to bring the typed text to.
        type_to: Option<String>,
    },
}

/// The state of the streaming engine between events.
pub struct EngineCore {
    agreement: LocalAgreementPolicy,
    accumulated_text: String,
    stats: StreamingStats,
    was_speaking: bool,
    was_probably_speaking: bool,
    progressive_typing: bool,
    text_filters: TextFilters,
    language: Option<String>,
    guided: bool,
}

impl EngineCore {
    /// The accumulated committed text.
    pub closed spec fn accumulated(&self) -> Seq<char> {
        self.accumulated_text@
    }

    /// The statistics.
    pub closed spec fn stats_spec(&self) -> StreamingStats {
        self.stats
    }

    /// Whether speech was confirmed at the last frame.
    pub closed spec fn speaking(&self) -> bool {
        self.was_speaking
    }

    /// Whether speech was probable at the last frame.
    pub closed spec fn probably_speaking(&self) -> bool {
        self.was_probably_speaking
    }

    /// Whether progressive typing is on.
    pub closed spec fn typing_on(&self) -> bool {
        self.progressive_typing
    }

    /// The text filters.
    pub closed spec fn filters(&self) -> TextFilters {
        self.text_filters
    }

    /// The language given to the filters.
    pub closed spec fn language_spec(&self) -> Option<Seq<char>> {
        crate::text::opt_view(self.language)
    }

    /// Whether a guided grammar is active (filters are bypassed).
    pub closed spec fn guided_spec(&self) -> bool {
        self.guided
    }

    /// The agreement threshold.
    pub closed spec fn threshold(&self) -> nat {
        self.agreement.threshold()
    }

    /// Well-formedness of the agreement state.
    pub closed spec fn wf(&self) -> bool {
        self.agreement.wf()
    }

    /// A fresh engine state requiring `agreement_threshold` agreeing
    /// transcripts (at least one).
    pub fn new(agreement_threshold: usize, progressive_typing: bool) -> (r: Self)
        ensures
            r.wf(),
            r.threshold() == if agreement_threshold == 0 { 1 } else { agreement_threshold as nat },
            r.accumulated() == Seq::<char>::empty(),
            r.stats_spec() == StreamingStats::default_spec(),
            !r.speaking(),
            !r.probably_speaking(),
            r.typing_on() == progressive_typing,
            !r.guided_spec(),
            r.language_spec() is None,
    {
        EngineCore {
            agreement: LocalAgreementPolicy::new(agreement_threshold),
            accumulated_text: String::new(),
            stats: StreamingStats::default(),
            was_speaking: false,
            was_probably_speaking: false,
            progressive_typing,
            text_filters: TextFilters::default(),
            language: None,
            guided: false,
        }
    }

    /// The accumulated committed text.
    pub fn committed_text(&self) -> (r: &str)
        ensures
            r@ == self.accumulated(),
    {
        self.accumulated_text.as_str()
    }

    /// The statistics.
    pub fn stats(&self) -> (r: StreamingStats)
        ensures
            r == self.stats_spec(),
    {
        self.stats
    }

    /// Turns progressive typing on or off.
    pub fn set_progressive_typing(&mut self, on: bool)
        ensures
            final(self).typing_on() == on,
            final(self).wf() == old(self).wf(),
            final(self).threshold() == old(self).threshold(),
            final(self).accumulated() == old(self).accumulated(),
            final(self).stats_spec() == old(self).stats_spec(),
            final(self).speaking() == old(self).speaking(),
            final(self).probably_speaking() == old(self).probably_speaking(),
            final(self).filters() == old(self).filters(),
            final(self).language_spec() == old(self).language_spec(),
            final(self).guided_spec() == old(self).guided_spec(),
    {
        self.progressive_typing = on;
    }

    /// Sets the text filters and the language they check against.
    pub fn set_text_filters(&mut self, filters: TextFilters, language: Option<String>)
        ensures
            final(self).filters() == filters,
            final(self).language_spec() == crate::text::opt_view(language),
            final(self).wf() == old(self).wf(),
            final(self).threshold() == old(self).threshold(),
            final(self).accumulated() == old(self).accumulated(),
            final(self).stats_spec() == old(self).stats_spec(),
            final(self).typing_on() == old(self).typing_on(),
            final(self).guided_spec() == old(self).guided_spec(),
    {
        self.text_filters = filters;
        self.language = language;
    }

    /// Turns the guided grammar (which bypasses the filters) on or off.
    pub fn set_guided(&mut self, guided: bool)
        ensures
            final(self).guided_spec() == guided,
            final(self).wf() == old(self).wf(),
            final(self).threshold() == old(self).threshold(),
            final(self).accumulated() == old(self).accumulated(),
            final(self).stats_spec() == old(self).stats_spec(),
            final(self).typing_on() == old(self).typing_on(),
            final(self).filters() == old(self).filters(),
            final(self).language_spec() == old(self).language_spec(),
    {
        self.guided = guided;
    }

    /// Records a voice activity frame that ended no segment, and returns
    /// the events it raises.
    pub fn on_vad_frame(&mut self, is_probable: bool, is_speaking: bool) -> (r: Vec<StreamingEvent>)
        ensures
            r@ == vad_frame_events(old(self).probably_speaking(), old(self).speaking(), is_probable, is_speaking),
            final(self).probably_speaking() == is_probable,
            final(self).speaking() == is_speaking,
            final(self).wf() == old(self).wf(),
            final(self).threshold() == old(self).threshold(),
            final(self).accumulated() == old(self).accumulated(),
            final(self).stats_spec() == old(self).stats_spec(),
            final(self).typing_on() == old(self).typing_on(),
            final(self).filters() == old(self).filters(),
            final(self).language_spec() == old(self).language_spec(),
            final(self).guided_spec() == old(self).guided_spec(),
    {
        let mut r: Vec<StreamingEvent> = Vec::new();
        if is_probable && !self.was_probably_speaking {
            r.push(StreamingEvent::SpeechProbable);
        }
        self.was_probably_speaking = is_probable;
        if is_speaking && !self.was_speaking {
            r.push(StreamingEvent::SpeechStarted);
        }
        self.was_speaking = is_speaking;
        assert(r@ =~= vad_frame_events(old(self).probably_speaking(), old(self).speaking(), is_probable, is_speaking));
        r
    }

    /// Records that a speech segment ended; returns `SpeechEnded`.
    pub fn on_segment_end(&mut self) -> (r: StreamingEvent)
        ensures
            r == StreamingEvent::SpeechEnded,
            !final(self).speaking(),
            !final(self).probably_speaking(),
            final(self).wf() == old(self).wf(),
            final(self).threshold() == old(self).threshold(),
            final(self).accumulated() == old(self).accumulated(),
            final(self).stats_spec() == old(self).stats_spec(),
            final(self).typing_on() == old(self).typing_on(),
            final(self).filters() == old(self).filters(),
            final(self).language_spec() == old(self).language_spec(),
            final(self).guided_spec() == old(self).guided_spec(),
    {
        self.was_speaking = false;
        self.was_probably_speaking = false;
        StreamingEvent::SpeechEnded
    }

    /// Commits a segment's transcript: it is filtered (unless a guided
    /// grammar is active), then fed twice to a fresh agreement window so it
    /// is committed at once, and the newly stable text is appended to the
    /// accumulated text.
    pub fn on_transcript(&mut self, transcript: &str) -> (r: SegmentOutcome)
        requires
            old(self).wf(),
        ensures
            final(self).wf(),
            final(self).threshold() == old(self).threshold(),
            final(self).stats_spec() == old(self).stats_spec(),
            final(self).typing_on() == old(self).typing_on(),
            final(self).filters() == old(self).filters(),
            final(self).language_spec() == old(self).language_spec(),
            final(self).guided_spec() == old(self).guided_spec(),
            final(self).speaking() == old(self).speaking(),
            final(self).probably_speaking() == old(self).probably_speaking(),
            match prepared_transcript(transcript@, old(self).guided_spec(), old(self).filters(), old(self).language_spec()) {
                None => r == SegmentOutcome::Skip && final(self).accumulated() == old(self).accumulated(),
                Some(t) => r matches SegmentOutcome::Committed { text, newly_committed, type_to } && {
                    let w1 = push_window(Seq::empty(), t, old(self).threshold());
                    let w2 = push_window(w1, t, old(self).threshold());
                    let c1 = stable_prefix(w1, old(self).threshold());
                    let newly = newly_stable(c1, stable_prefix(w2, old(self).threshold()));
                    &&& text@ == t
                    &&& newly_committed@ == newly
                    &&& final(self).accumulated() == accumulate(old(self).accumulated(), newly)
                    &&& (type_to is Some) == (old(self).typing_on() && newly.len() > 0)
                    &&& (type_to matches Some(s) ==> s@ == final(self).accumulated())
                },
            },
    {
        if transcript.is_empty() {
            return SegmentOutcome::Skip;
        }
        let text = if self.guided {
            crate::text::copy_str(transcript)
        } else {
            let lang = match &self.language {
                Some(l) => Some(l.as_str()),
                None => None,
            };
            self.text_filters.apply(transcript, lang)
        };
        if text.as_str().is_empty() {
            return SegmentOutcome::Skip;
        }
        byte_len_fits(text.as_str());
        self.agreement.reset();
        proof {
            lemma_byte_len_empty();
            assert(crate::text::byte_len(text@.take(0)) == 0) by {
                assert(text@.take(0) =~= Seq::<char>::empty());
            }
        }
        let _ = self.agreement.process(crate::text::copy_str(text.as_str()));
        let ghost c1 = self.agreement.committed_view();
        proof {
            if self.agreement.threshold() == 1 {
                // With one agreement required the first feed commits the
                // whole transcript, so the second starts at its end.
                assert(c1 == text@);
            }
        }
        let (newly, _pending) = self.agreement.process(crate::text::copy_str(text.as_str()));
        if !newly.as_str().is_empty() {
            if !self.accumulated_text.as_str().is_empty() {
                crate::text::string_push(&mut self.accumulated_text, ' ');
            }
            self.accumulated_text.append(newly.as_str());
        }
        let type_to = if self.progressive_typing && !newly.as_str().is_empty() {
            Some(self.accumulated_text.clone())
        } else {
            None
        };
        SegmentOutcome::Committed { text, newly_committed: newly, type_to }
    }

    /// Records a finished segment: updates the statistics with its latency
    /// and returns the events reporting it: the accumulated text, the
    /// segment, and the statistics.
    pub fn finish_segment(&mut self, text: String, duration_ms: u64, latency_ms: u64) -> (r: Vec<StreamingEvent>)
        requires
            old(self).stats_spec().segments_processed < usize::MAX,
            old(self).stats_spec().total_latency_ms + latency_ms <= u64::MAX,
        ensures
            final(self).stats_spec().segments_processed == old(self).stats_spec().segments_processed + 1,
            final(self).stats_spec().total_latency_ms == old(self).stats_spec().total_latency_ms + latency_ms,
            final(self).stats_spec().avg_latency_ms == (final(self).stats_spec().total_latency_ms as int) / (
            final(self).stats_spec().segments_processed as int),
            r@.len() == 3,
            r@[0] matches StreamingEvent::TranscriptUpdate { committed, uncommitted }
                && committed@ == old(self).accumulated() && uncommitted@.len() == 0,
            r@[1] == (StreamingEvent::SegmentCompleted { text, duration_ms }),
            r@[2] == (StreamingEvent::StatsUpdate {
                segments_processed: final(self).stats_spec().segments_processed,
                avg_latency_ms: final(self).stats_spec().avg_latency_ms,
            }),
            final(self).wf() == old(self).wf(),
            final(self).threshold() == old(self).threshold(),
            final(self).accumulated() == old(self).accumulated(),
            final(self).typing_on() == old(self).typing_on(),
    {
        self.stats.record_segment(latency_ms);
        let mut r: Vec<StreamingEvent> = Vec::new();
        r.push(StreamingEvent::TranscriptUpdate { committed: self.accumulated_text.clone(), uncommitted: String::new() });
        r.push(StreamingEvent::SegmentCompleted { text, duration_ms });
        r.push(StreamingEvent::StatsUpdate {
            segments_processed: self.stats.segments_processed,
            avg_latency_ms: self.stats.avg_latency_ms,
        });
        r
    }

    /// Counts characters typed for a segment.
    pub fn record_typed(&mut self, chars: usize)
        requires
            old(self).stats_spec().chars_typed + chars <= usize::MAX,
        ensures
            final(self).stats_spec().chars_typed == old(self).stats_spec().chars_typed + chars,
            final(self).stats_spec().segments_processed == old(self).stats_spec().segments_processed,
            final(self).wf() == old(self).wf(),
            final(self).threshold() == old(self).threshold(),
            final(self).accumulated() == old(self).accumulated(),
            final(self).typing_on() == old(self).typing_on(),
    {
        self.stats.record_typed(chars);
    }

    /// Starts afresh: no committed text, no statistics, no speech.
    pub fn reset(&mut self)
        requires
            old(self).wf(),
        ensures
            final(self).wf(),
            final(self).threshold() == old(self).threshold(),
            final(self).accumulated() == Seq::<char>::empty(),
            final(self).stats_spec() == StreamingStats::default_spec(),
            !final(self).speaking(),
            final(self).typing_on() == old(self).typing_on(),
            final(self).filters() == old(self).filters(),
            final(self).language_spec() == old(self).language_spec(),
            final(self).guided_spec() == old(self).guided_spec(),
    {
        self.agreement.reset();
        self.accumulated_text = String::new();
        self.stats = StreamingStats::default();
        self.was_speaking = false;
    }
}

impl StreamingStats {
    /// The statistics of a fresh engine: all zero.
    pub open spec fn default_spec() -> StreamingStats {
        StreamingStats {
            segments_processed: 0,
            total_latency_ms: 0,
            avg_latency_ms: 0,
            chars_typed: 0,
            corrections_made: 0,
        }
    }
}

} // verus!
