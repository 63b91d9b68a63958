//! Rules applied to what the speech server returns: stripping the scaffold
//! of grammar-constrained replies, refusing runaway output, and dropping
//! the phrases that speech models invent on silence.
//!
//! The body of a grammar-constrained request is built here; the request
//! itself is sent by the caller.
use vstd::prelude::*;
use base64::Engine;
use crate::text::{
    byte_len, char_is_alphanumeric, chars_of, find, find_from_exec, is_white_space, opt_str_view, opt_view,
    pattern, str_eq, str_to_lowercase, string_of_range, trim, trim_bounds, trim_str,
    unicode_alphanumeric, unicode_lowercase, utf8_len_at_least, words, words_exec,
};

verus! {

/// The marker after which a grammar-constrained reply holds the text.
pub open spec fn scaffold_marker() -> Seq<char> {
    "<asr_text>"@
}

/// `s` without its trailing `.` and `。` characters.
pub open spec fn strip_sentence_end(s: Seq<char>) -> Seq<char>
    decreases s.len(),
{
    if s.len() > 0 && (s.last() == '.' || s.last() == '。') {
        strip_sentence_end(s.drop_last())
    } else {
        s
    }
}

/// The command text of a grammar-constrained reply: what follows the first
/// `<asr_text>` marker (the whole reply without one), trimmed, without
/// trailing sentence punctuation.
pub open spec fn scaffold_stripped(raw: Seq<char>) -> Seq<char> {
    let body = match find(raw, scaffold_marker()) {
        Some(i) => raw.skip(i + scaffold_marker().len()),
        None => raw,
    };
    strip_sentence_end(trim(body))
}

/// The command text of a grammar-constrained reply never ends with a full
/// stop (`.` or `。`), and it is all of what stays of the trimmed body once
/// those are removed: the body is the command text followed by full stops.
pub proof fn law_scaffold_drops_full_stops(s: Seq<char>)
    ensures
        strip_sentence_end(s).len() > 0 ==> strip_sentence_end(s).last() != '.' && strip_sentence_end(s).last()
            != '。',
        strip_sentence_end(s).len() <= s.len(),
        strip_sentence_end(s) == s.take(strip_sentence_end(s).len() as int),
        forall|i: int| strip_sentence_end(s).len() <= i < s.len() ==> s[i] == '.' || s[i] == '。',
    decreases s.len(),
{
    if s.len() > 0 && (s.last() == '.' || s.last() == '。') {
        law_scaffold_drops_full_stops(s.drop_last());
        let r = strip_sentence_end(s.drop_last());
        assert(s.drop_last().take(r.len() as int) =~= s.take(r.len() as int));
        assert forall|i: int| r.len() <= i < s.len() implies s[i] == '.' || s[i] == '。' by {
            if i < s.len() - 1 {
                assert(s.drop_last()[i] == s[i]);
            }
        }
    } else {
        assert(s.take(s.len() as int) =~= s);
    }
}

/// Strips the `language <Lang><asr_text>` scaffold and trailing sentence
/// punctuation from a grammar-constrained reply, leaving the command text.
pub fn strip_asr_scaffold(raw: &str) -> (r: String)
    ensures
        r@ == scaffold_stripped(raw@),
{
    let v = chars_of(raw);
    let marker = pattern("<asr_text>");
    proof {
        reveal_strlit("<asr_text>");
        crate::text::lemma_find_from(v@, marker@, 0);
    }
    let start: usize = match find_from_exec(&v, &marker, 0) {
        Some(i) => i + marker.len(),
        None => 0,
    };
    let body = crate::text::slice_chars(&v, start, v.len());
    assert(body@ =~= match find(raw@, scaffold_marker()) {
        Some(i) => raw@.skip(i + scaffold_marker().len()),
        None => raw@,
    });
    let (lo, hi) = trim_bounds(&body);
    let mut end = hi;
    assert(body@.subrange(lo as int, end as int) == trim(body@));
    while end > lo && (body[end - 1] == '.' || body[end - 1] == '。')
        invariant
            lo <= end <= hi <= body.len(),
            strip_sentence_end(trim(body@)) == strip_sentence_end(body@.subrange(lo as int, end as int)),
        decreases end,
    {
        assert(body@.subrange(lo as int, end - 1) =~= body@.subrange(lo as int, end as int).drop_last());
        end = end - 1;
    }
    string_of_range(&body, lo, end)
}

/// The longest word (in bytes) that real dictated commands contain.
pub const MAX_TOKEN_LEN: usize = 40;

/// Whether some white-space-separated word of `text` is longer than
/// [`MAX_TOKEN_LEN`] bytes: runaway repetition that the grammar can emit on
/// unintelligible audio.
pub open spec fn degenerate(text: Seq<char>) -> bool {
    exists|i: int| 0 <= i < words(text).len() && byte_len(#[trigger] words(text)[i]) > MAX_TOKEN_LEN
}

/// Detects runaway repetition in grammar-constrained output.
pub fn looks_degenerate(text: &str) -> (r: bool)
    ensures
        r == degenerate(text@),
{
    let v = chars_of(text);
    let ws = words_exec(&v);
    let ghost wv = ws@.map_values(|w: Vec<char>| w@);
    let mut i: usize = 0;
    while i < ws.len()
        invariant
            i <= ws.len(),
            wv == ws@.map_values(|w: Vec<char>| w@),
            wv == words(text@),
            v@ == text@,
            forall|j: int| 0 <= j < i ==> byte_len(#[trigger] wv[j]) <= MAX_TOKEN_LEN,
        decreases ws.len() - i,
    {
        assert(wv[i as int] == ws@[i as int]@);
        if utf8_len_at_least(&ws[i], MAX_TOKEN_LEN + 1) {
            assert(byte_len(wv[i as int]) > MAX_TOKEN_LEN);
            return true;
        }
        i = i + 1;
    }
    false
}

/// The phrases speech models produce on silence.
pub open spec fn silence_phrases() -> Seq<Seq<char>> {
    seq!["Thank you."@, "Thank you"@, "Thanks for watching."@, "Thanks for watching"@, "啊！"@, "嗯。"@]
}

/// Filler sounds that models write as Chinese characters on silence.
pub open spec fn is_filler(c: char) -> bool {
    c == '啊' || c == '嗯' || c == '呃' || c == '哦' || c == '噢' || c == '哎' || c == '哇' || c == '呀'
        || c == '吧' || c == '呢'
}

/// Whether the language is Chinese (`zh`, `zh-*` or `chinese`, in any
/// letter case).
pub open spec fn is_chinese_language(language: Option<Seq<char>>) -> bool {
    match language {
        Some(l) => {
            let lower = unicode_lowercase(l);
            lower == "zh"@ || (lower.len() >= 3 && lower.take(3) == "zh-"@) || lower == "chinese"@
        },
        None => false,
    }
}

/// Whether `text` is a Chinese silence artifact for a non-Chinese language:
/// non-empty, made only of filler characters and of characters that are
/// not letters or digits, with at least one filler.
pub open spec fn chinese_artifact(language: Option<Seq<char>>, text: Seq<char>) -> bool {
    &&& text.len() > 0
    &&& !is_chinese_language(language)
    &&& forall|i: int| 0 <= i < text.len() ==> (is_filler(#[trigger] text[i]) || !unicode_alphanumeric(text[i]))
    &&& exists|i: int| 0 <= i < text.len() && is_filler(#[trigger] text[i])
}

/// What remains of a transcript after dropping silence artifacts: the
/// trimmed text, or nothing when it is a silence phrase or a Chinese
/// artifact.
pub open spec fn without_silence_artifacts(language: Option<Seq<char>>, text: Seq<char>) -> Seq<char> {
    let t = trim(text);
    if silence_phrases().contains(t) || chinese_artifact(language, t) {
        Seq::empty()
    } else {
        t
    }
}

/// The known silence phrases (`Thank you.`, `Thank you`, `Thanks for
/// watching.`, `Thanks for watching`, `啊！`, `嗯。`), with any white space
/// around them, leave nothing to type, whatever the language.
pub proof fn law_silence_phrases_dropped(language: Option<Seq<char>>, text: Seq<char>)
    requires
        trim(text) == "Thank you."@ || trim(text) == "Thank you"@ || trim(text) == "Thanks for watching."@
            || trim(text) == "Thanks for watching"@ || trim(text) == "啊！"@ || trim(text) == "嗯。"@,
    ensures
        without_silence_artifacts(language, text).len() == 0,
{
    let p = silence_phrases();
    let t = trim(text);
    assert(p[0] == "Thank you."@);
    assert(p[1] == "Thank you"@);
    assert(p[2] == "Thanks for watching."@);
    assert(p[3] == "Thanks for watching"@);
    assert(p[4] == "啊！"@);
    assert(p[5] == "嗯。"@);
    if t == "Thank you."@ {
        assert(p[0] == t);
    } else if t == "Thank you"@ {
        assert(p[1] == t);
    } else if t == "Thanks for watching."@ {
        assert(p[2] == t);
    } else if t == "Thanks for watching"@ {
        assert(p[3] == t);
    } else if t == "啊！"@ {
        assert(p[4] == t);
    } else {
        assert(p[5] == t);
    }
    assert(p.contains(t));
}

/// Any other transcript is kept, trimmed, unless it is a Chinese filler
/// artifact: only the known silence phrases are dropped as phrases.
pub proof fn law_other_transcripts_kept(language: Option<Seq<char>>, text: Seq<char>)
    requires
        trim(text) != "Thank you."@,
        trim(text) != "Thank you"@,
        trim(text) != "Thanks for watching."@,
        trim(text) != "Thanks for watching"@,
        trim(text) != "啊！"@,
        trim(text) != "嗯。"@,
        !chinese_artifact(language, trim(text)),
    ensures
        without_silence_artifacts(language, text) == trim(text),
{
    let p = silence_phrases();
    let t = trim(text);
    assert(p.len() == 6);
    assert(p[0] == "Thank you."@);
    assert(p[1] == "Thank you"@);
    assert(p[2] == "Thanks for watching."@);
    assert(p[3] == "Thanks for watching"@);
    assert(p[4] == "啊！"@);
    assert(p[5] == "嗯。"@);
    assert forall|k: int| 0 <= k < p.len() implies p[k] != t by {
        if k == 0 {
        } else if k == 1 {
        } else if k == 2 {
        } else if k == 3 {
        } else if k == 4 {
        } else {
        }
    }
    assert(!p.contains(t));
}

fn is_filler_exec(c: char) -> (r: bool)
    ensures
        r == is_filler(c),
{
    c == '啊' || c == '嗯' || c == '呃' || c == '哦' || c == '噢' || c == '哎' || c == '哇' || c == '呀'
        || c == '吧' || c == '呢'
}

/// Whether the language is Chinese.
fn is_chinese_language_exec(language: Option<&str>) -> (r: bool)
    ensures
        r == is_chinese_language(opt_str_view(language)),
{
    match language {
        Some(l) => {
            let lower = str_to_lowercase(l);
            let v = chars_of(lower.as_str());
            let zh_dash = pattern("zh-");
            proof {
                reveal_strlit("zh-");
            }
            let starts = v.len() >= 3 && crate::text::starts_with_range(&v, 0, v.len(), &zh_dash);
            proof {
                if v.len() >= 3 {
                    assert(v@.subrange(0, v.len() as int).take(3) =~= v@.take(3));
                }
            }
            str_eq(lower.as_str(), "zh") || starts || str_eq(lower.as_str(), "chinese")
        },
        None => false,
    }
}

/// Whether the text is entirely filler characters, punctuation and white
/// space (with at least one filler) while the language is not Chinese.
pub fn is_chinese_artifact(language: Option<&str>, text: &str) -> (r: bool)
    ensures
        r == chinese_artifact(opt_str_view(language), text@),
{
    if text.is_empty() {
        return false;
    }
    if is_chinese_language_exec(language) {
        return false;
    }
    let v = chars_of(text);
    let mut has_filler = false;
    let mut i: usize = 0;
    while i < v.len()
        invariant
            i <= v.len(),
            v@ == text@,
            forall|j: int| 0 <= j < i ==> (is_filler(#[trigger] v@[j]) || !unicode_alphanumeric(v@[j])),
            has_filler <==> exists|j: int| 0 <= j < i && is_filler(#[trigger] v@[j]),
        decreases v.len() - i,
    {
        let c = v[i];
        if is_filler_exec(c) {
            has_filler = true;
        } else if char_is_alphanumeric(c) {
            return false;
        }
        i = i + 1;
    }
    has_filler
}

/// Drops the phrases that speech models produce on silence; otherwise
/// returns the trimmed transcript.
pub fn filter_silence_artifacts(language: Option<&str>, text: &str) -> (r: String)
    ensures
        r@ == without_silence_artifacts(opt_str_view(language), text@),
{
    let t = trim_str(text);
    let phrases: Vec<&str> = vec!["Thank you.", "Thank you", "Thanks for watching.", "Thanks for watching", "啊！", "嗯。"];
    assert(phrases@.map_values(|p: &str| p@) =~= silence_phrases());
    let mut i: usize = 0;
    while i < phrases.len()
        invariant
            i <= phrases.len(),
            phrases@.map_values(|p: &str| p@) == silence_phrases(),
            t@ == trim(text@),
            forall|j: int| 0 <= j < i ==> silence_phrases()[j] != t@,
        decreases phrases.len() - i,
    {
        assert(phrases@[i as int]@ == silence_phrases()[i as int]);
        if str_eq(t.as_str(), phrases[i]) {
            assert(silence_phrases()[i as int] == t@);
            return String::new();
        }
        i = i + 1;
    }
    assert(!silence_phrases().contains(t@));
    if is_chinese_artifact(language, t.as_str()) {
        return String::new();
    }
    t
}

/// `s` without trailing `/` characters.
pub open spec fn without_trailing_slashes(s: Seq<char>) -> Seq<char>
    decreases s.len(),
{
    if s.len() > 0 && s.last() == '/' {
        without_trailing_slashes(s.drop_last())
    } else {
        s
    }
}

/// The endpoint `path` on `server` (trailing slashes of the server dropped).
pub fn endpoint_url(server: &str, path: &str) -> (r: String)
    ensures
        r@ == without_trailing_slashes(server@) + path@,
{
    let v = chars_of(server);
    let mut n: usize = v.len();
    assert(v@.take(n as int) =~= v@);
    while n > 0 && v[n - 1] == '/'
        invariant
            n <= v.len(),
            v@ == server@,
            without_trailing_slashes(server@) == without_trailing_slashes(v@.take(n as int)),
        decreases n,
    {
        assert(v@.take(n - 1) =~= v@.take(n as int).drop_last());
        n = n - 1;
    }
    assert(without_trailing_slashes(v@.take(n as int)) == v@.take(n as int));
    let mut s = string_of_range(&v, 0, n);
    assert(v@.subrange(0, n as int) =~= v@.take(n as int));
    s.append(path);
    s
}

/// The transcription endpoint of a server.
pub fn transcription_url(server: &str) -> (r: String)
    ensures
        r@ == without_trailing_slashes(server@) + "/v1/audio/transcriptions"@,
{
    endpoint_url(server, "/v1/audio/transcriptions")
}

/// The chat-completions endpoint of a server.
pub fn chat_completions_url(server: &str) -> (r: String)
    ensures
        r@ == without_trailing_slashes(server@) + "/v1/chat/completions"@,
{
    endpoint_url(server, "/v1/chat/completions")
}

/// How long retries may go on, in milliseconds: half a second when the
/// longest backoff is under 100 ms, else thirty seconds.
pub fn retry_budget_ms(max_backoff_ms: u64) -> (r: u64)
    ensures
        r == if max_backoff_ms < 100 { 500u64 } else { 30000u64 },
{
    if max_backoff_ms < 100 { 500 } else { 30000 }
}

/// A transcript that the silence filter keeps is exactly its trimmed form;
/// filtering is idempotent on what it keeps.
pub proof fn law_filter_keeps_trimmed(language: Option<Seq<char>>, text: Seq<char>)
    ensures
        without_silence_artifacts(language, text).len() > 0 ==> without_silence_artifacts(language, text)
            == trim(text),
{
}

/// Why a transcription failed.
#[derive(Debug, Clone, PartialEq, Eq)]
pub enum WhisperError {
    /// The server could not be reached or is unhealthy.
    ConnectionError(String),
    /// The request failed or the server refused it.
    TranscriptionError(String),
    /// The audio file is missing or holds no audio.
    InvalidAudioFile(String),
    /// Nothing was left of the transcript.
    EmptyTranscription,
}

impl WhisperError {
    /// The error's message.
    pub fn message(&self) -> (r: String)
        ensures
            r@ == match *self {
                WhisperError::ConnectionError(m) => "Failed to connect to whisper server: "@ + m@,
                WhisperError::TranscriptionError(m) => "Transcription request failed: "@ + m@,
                WhisperError::InvalidAudioFile(m) => "Invalid audio file: "@ + m@,
                WhisperError::EmptyTranscription => "Server returned empty transcription"@,
            },
    {
        match self {
            WhisperError::ConnectionError(m) => crate::text::concat_str("Failed to connect to whisper server: ", m.as_str()),
            WhisperError::TranscriptionError(m) => crate::text::concat_str("Transcription request failed: ", m.as_str()),
            WhisperError::InvalidAudioFile(m) => crate::text::concat_str("Invalid audio file: ", m.as_str()),
            WhisperError::EmptyTranscription => "Server returned empty transcription".to_string(),
        }
    }
}

/// The settings of the speech server client; the HTTP client itself is
/// held by the caller.
#[derive(Debug, Clone, PartialEq, Eq)]
pub struct WhisperClient {
    /// Base URL of the server.
    pub server_url: String,
    /// Language code (`None`: the server detects it).
    pub language: Option<String>,
    /// API key sent as a bearer token.
    pub api_key: Option<String>,
    /// Model to ask for (`None`: the server's default).
    pub model: Option<String>,
    /// Prompt for context biasing.
    pub prompt: Option<String>,
    /// Maximum number of retries.
    pub max_retries: u32,
    /// First backoff delay, in milliseconds.
    pub initial_backoff_ms: u64,
    /// Longest backoff delay, in milliseconds.
    pub max_backoff_ms: u64,
}

/// The optional text fields of a transcription form, in order.
pub open spec fn optional_fields(
    language: Option<Seq<char>>,
    model: Option<Seq<char>>,
    prompt: Option<Seq<char>>,
) -> Seq<(Seq<char>, Seq<char>)> {
    (match language {
        Some(l) => seq![("language"@, l)],
        None => Seq::empty(),
    }) + (match model {
        Some(m) => seq![("model"@, m)],
        None => Seq::empty(),
    }) + (match prompt {
        Some(p) => seq![("prompt"@, p)],
        None => Seq::empty(),
    })
}

/// The views of a list of name-value pairs.
pub open spec fn pairs_view(v: Seq<(String, String)>) -> Seq<(Seq<char>, Seq<char>)> {
    v.map_values(|p: (String, String)| (p.0@, p.1@))
}

fn push_pair(v: &mut Vec<(String, String)>, name: &str, value: &str)
    ensures
        pairs_view(final(v)@) == pairs_view(old(v)@).push((name@, value@)),
{
    v.push((name.to_string(), value.to_string()));
    assert(pairs_view(v@) =~= pairs_view(old(v)@).push((name@, value@)));
}

impl WhisperClient {
    /// A client of `server_url` with the default retries: 3, backing off
    /// from 100 ms up to 5 s.
    pub fn new(server_url: &str) -> (r: Self)
        ensures
            r.server_url@ == server_url@,
            r.language is None && r.api_key is None && r.model is None && r.prompt is None,
            r.max_retries == 3,
            r.initial_backoff_ms == 100,
            r.max_backoff_ms == 5000,
    {
        WhisperClient {
            server_url: server_url.to_string(),
            language: None,
            api_key: None,
            model: None,
            prompt: None,
            max_retries: 3,
            initial_backoff_ms: 100,
            max_backoff_ms: 5000,
        }
    }

    /// A client of `server_url` with the given retries.
    pub fn with_retry_config(
        server_url: &str,
        max_retries: u32,
        initial_backoff_ms: u64,
        max_backoff_ms: u64,
    ) -> (r: Self)
        ensures
            r.server_url@ == server_url@,
            r.language is None && r.api_key is None && r.model is None && r.prompt is None,
            r.max_retries == max_retries,
            r.initial_backoff_ms == initial_backoff_ms,
            r.max_backoff_ms == max_backoff_ms,
    {
        WhisperClient {
            server_url: server_url.to_string(),
            language: None,
            api_key: None,
            model: None,
            prompt: None,
            max_retries,
            initial_backoff_ms,
            max_backoff_ms,
        }
    }

    /// The same client with this language.
    pub fn with_language(self, language: Option<String>) -> (r: Self)
        ensures
            r == (WhisperClient { language, ..self }),
    {
        WhisperClient { language, ..self }
    }

    /// The same client with this API key.
    pub fn with_api_key(self, api_key: Option<String>) -> (r: Self)
        ensures
            r == (WhisperClient { api_key, ..self }),
    {
        WhisperClient { api_key, ..self }
    }

    /// The same client with this model.
    pub fn with_model(self, model: Option<String>) -> (r: Self)
        ensures
            r == (WhisperClient { model, ..self }),
    {
        WhisperClient { model, ..self }
    }

    /// The same client with this prompt.
    pub fn with_prompt(self, prompt: Option<String>) -> (r: Self)
        ensures
            r == (WhisperClient { prompt, ..self }),
    {
        WhisperClient { prompt, ..self }
    }

    /// The text fields of a transcription request: JSON responses, then the
    /// language, model and prompt that are set.
    pub fn form_fields(&self) -> (r: Vec<(String, String)>)
        ensures
            pairs_view(r@) == seq![("response_format"@, "json"@)] + optional_fields(
                opt_view(self.language),
                opt_view(self.model),
                opt_view(self.prompt),
            ),
    {
        let mut v: Vec<(String, String)> = Vec::new();
        push_pair(&mut v, "response_format", "json");
        if let Some(l) = &self.language {
            push_pair(&mut v, "language", l.as_str());
        }
        if let Some(m) = &self.model {
            push_pair(&mut v, "model", m.as_str());
        }
        if let Some(p) = &self.prompt {
            push_pair(&mut v, "prompt", p.as_str());
        }
        assert(pairs_view(v@) =~= seq![("response_format"@, "json"@)] + optional_fields(
            opt_view(self.language),
            opt_view(self.model),
            opt_view(self.prompt),
        ));
        v
    }

    /// The endpoints tried by a health check: `/health`, then `/v1/models`.
    pub fn health_urls(&self) -> (r: (String, String))
        ensures
            r.0@ == without_trailing_slashes(self.server_url@) + "/health"@,
            r.1@ == without_trailing_slashes(self.server_url@) + "/v1/models"@,
    {
        (endpoint_url(self.server_url.as_str(), "/health"), endpoint_url(self.server_url.as_str(), "/v1/models"))
    }

    /// The model a grammar-constrained request needs.
    pub fn chat_model(&self) -> (r: Result<String, WhisperError>)
        ensures
            match self.model {
                Some(m) => r == Ok::<String, WhisperError>(m),
                None => r matches Err(WhisperError::TranscriptionError(_)),
            },
    {
        match &self.model {
            Some(m) => Ok(m.clone()),
            None => Err(WhisperError::TranscriptionError(
                "grammar-constrained (bash) mode requires a configured model".to_string(),
            )),
        }
    }

    /// What a transcription returns for the server's text: the text without
    /// silence artifacts, or [`WhisperError::EmptyTranscription`] when
    /// nothing is left.
    pub fn accept_transcript(&self, text: &str) -> (r: Result<String, WhisperError>)
        ensures
            ({
                let lang = opt_view(self.language);
                let f = without_silence_artifacts(lang, text@);
                if f.len() == 0 {
                    r == Err::<String, WhisperError>(WhisperError::EmptyTranscription)
                } else {
                    r matches Ok(t) && t@ == f
                }
            }),
    {
        let lang = match &self.language {
            Some(l) => Some(l.as_str()),
            None => None,
        };
        let f = filter_silence_artifacts(lang, text);
        if f.as_str().is_empty() {
            Err(WhisperError::EmptyTranscription)
        } else {
            Ok(f)
        }
    }
}

/// The text of a grammar-constrained reply: the scaffold stripped, and
/// nothing when the output ran away.
pub fn grammar_reply_text(raw: &str) -> (r: String)
    ensures
        r@ == (if degenerate(scaffold_stripped(raw@)) {
            Seq::empty()
        } else {
            scaffold_stripped(raw@)
        }),
{
    let t = strip_asr_scaffold(raw);
    if looks_degenerate(t.as_str()) {
        String::new()
    } else {
        t
    }
}

// ---------------------------------------------------------------------------
// The grammar-constrained request body
// ---------------------------------------------------------------------------

/// What the standard base64 engine of the `base64` crate
/// (`general_purpose::STANDARD`: the standard alphabet, padded) makes of
/// `bytes`.
pub uninterp spec fn base64_standard(bytes: Seq<u8>) -> Seq<char>;

/// Encodes `bytes` with `base64::engine::general_purpose::STANDARD`
/// (`Engine::encode`); the result is named by [`base64_standard`]. The
/// engine panics when the encoded length overflows `usize`, which the bound
/// on the input rules out.
#[verifier::external_body]
pub fn encode_base64(bytes: &[u8]) -> (r: String)
    requires
        bytes@.len() <= usize::MAX / 2,
    ensures
        r@ == base64_standard(bytes@),
{
    base64::engine::general_purpose::STANDARD.encode(bytes)
}

/// The lower-case hexadecimal digit of `d` (below 16).
pub open spec fn hex_digit(d: int) -> char {
    if d < 10 {
        (48 + d) as char
    } else {
        (87 + d) as char
    }
}

/// How a JSON string writes `c`: quote, backslash and the control
/// characters escaped (the short forms where JSON has them), everything
/// else as it is.
pub open spec fn json_escape_char(c: char) -> Seq<char> {
    if c == '"' {
        seq!['\\', '"']
    } else if c == '\\' {
        seq!['\\', '\\']
    } else if c == '\n' {
        seq!['\\', 'n']
    } else if c == '\r' {
        seq!['\\', 'r']
    } else if c == '\t' {
        seq!['\\', 't']
    } else if c == '\u{08}' {
        seq!['\\', 'b']
    } else if c == '\u{0C}' {
        seq!['\\', 'f']
    } else if (c as u32) < 32 {
        seq!['\\', 'u', '0', '0', hex_digit(((c as u32) / 16) as int), hex_digit(((c as u32) % 16) as int)]
    } else {
        seq![c]
    }
}

/// The characters of `s`, each written as a JSON string writes it.
pub open spec fn json_escaped(s: Seq<char>) -> Seq<char>
    decreases s.len(),
{
    if s.len() == 0 {
        Seq::empty()
    } else {
        json_escaped(s.drop_last()) + json_escape_char(s.last())
    }
}

/// `s` as a JSON string literal.
pub open spec fn json_string(s: Seq<char>) -> Seq<char> {
    seq!['"'] + json_escaped(s) + seq!['"']
}

/// The chat-completions request of a grammar-constrained transcription, as
/// compact JSON with its keys in order: the audio (base64 text) as an
/// `input_audio` part in WAV format, the instruction to transcribe it, at
/// most 64 tokens, temperature zero and the grammar.
pub open spec fn chat_body_text(model: Seq<char>, audio_b64: Seq<char>, grammar: Seq<char>) -> Seq<char> {
    "{\"max_tokens\":64,\"messages\":[{\"content\":[{\"input_audio\":{\"data\":"@ + json_string(audio_b64)
        + ",\"format\":\"wav\"},\"type\":\"input_audio\"},{\"text\":\"Transcribe the audio.\",\"type\":\"text\"}],\"role\":\"user\"}],\"model\":"@
        + json_string(model) + ",\"structured_outputs\":{\"grammar\":"@ + json_string(grammar)
        + "},\"temperature\":0.0}"@
}

fn hex_digit_exec(d: u8) -> (r: char)
    requires
        d < 16,
    ensures
        r == hex_digit(d as int),
{
    if d < 10 {
        (48 + d) as char
    } else {
        (87 + d) as char
    }
}

/// Appends `s` to `out` as a JSON string literal.
fn push_json_string(out: &mut String, s: &str)
    ensures
        final(out)@ == old(out)@ + json_string(s@),
{
    let v = chars_of(s);
    crate::text::string_push(out, '"');
    let ghost start = out@;
    let mut i: usize = 0;
    while i < v.len()
        invariant
            i <= v@.len(),
            v@ == s@,
            out@ == start + json_escaped(v@.take(i as int)),
        decreases v@.len() - i,
    {
        let c = v[i];
        let ghost before = out@;
        let cv: u32 = c as u32;
        if c == '"' {
            crate::text::string_push(out, '\\');
            crate::text::string_push(out, '"');
        } else if c == '\\' {
            crate::text::string_push(out, '\\');
            crate::text::string_push(out, '\\');
        } else if c == '\n' {
            crate::text::string_push(out, '\\');
            crate::text::string_push(out, 'n');
        } else if c == '\r' {
            crate::text::string_push(out, '\\');
            crate::text::string_push(out, 'r');
        } else if c == '\t' {
            crate::text::string_push(out, '\\');
            crate::text::string_push(out, 't');
        } else if c == '\u{08}' {
            crate::text::string_push(out, '\\');
            crate::text::string_push(out, 'b');
        } else if c == '\u{0C}' {
            crate::text::string_push(out, '\\');
            crate::text::string_push(out, 'f');
        } else if cv < 32 {
            let code: u8 = cv as u8;
            assert(code == cv);
            let hi = hex_digit_exec(code / 16);
            let lo = hex_digit_exec(code % 16);
            crate::text::string_push(out, '\\');
            crate::text::string_push(out, 'u');
            crate::text::string_push(out, '0');
            crate::text::string_push(out, '0');
            crate::text::string_push(out, hi);
            crate::text::string_push(out, lo);
        } else {
            crate::text::string_push(out, c);
        }
        proof {
            let t = v@.take(i + 1);
            assert(t.drop_last() =~= v@.take(i as int));
            assert(t.last() == c);
            assert(out@ =~= before + json_escape_char(c));
        }
        i = i + 1;
    }
    assert(v@.take(v@.len() as int) =~= v@);
    crate::text::string_push(out, '"');
    assert(out@ =~= old(out)@ + json_string(s@));
}

/// The body of a grammar-constrained transcription request: `audio` (the
/// WAV file's bytes) encoded in base64, with the model and the grammar (see
/// [`chat_body_text`]).
pub fn chat_request_body(model: &str, audio: &[u8], grammar: &str) -> (r: String)
    requires
        audio@.len() <= usize::MAX / 2,
    ensures
        r@ == chat_body_text(model@, base64_standard(audio@), grammar@),
{
    let b64 = encode_base64(audio);
    let mut out = String::new();
    out.append("{\"max_tokens\":64,\"messages\":[{\"content\":[{\"input_audio\":{\"data\":");
    push_json_string(&mut out, b64.as_str());
    out.append(",\"format\":\"wav\"},\"type\":\"input_audio\"},{\"text\":\"Transcribe the audio.\",\"type\":\"text\"}],\"role\":\"user\"}],\"model\":");
    push_json_string(&mut out, model);
    out.append(",\"structured_outputs\":{\"grammar\":");
    push_json_string(&mut out, grammar);
    out.append("},\"temperature\":0.0}");
    out
}

} // verus!
