//! Configurable speech-to-text provider description.
//!
//! A provider is described by its endpoint URL and headers (with `${NAME}`
//! placeholders), how the audio is sent, and where the transcript sits in
//! the JSON reply. Maps of the configuration are association lists whose
//! keys are distinct.
use vstd::prelude::*;
use crate::text::{opt_str_view, chars_of, string_of, string_of_range, parse_usize, parse_usize_exec};

verus! {

/// Request format type for sending audio to the ASR API.
#[derive(Debug, Clone, Copy, PartialEq, Eq, Structural)]
pub enum RequestFormat {
    /// Multipart form-data with audio file (OpenAI/Groq style).
    Multipart,
    /// Raw binary audio in request body (Deepgram/Azure style).
    RawBinary,
}

/// Configuration for the multipart request format.
#[derive(Debug, Clone)]
pub struct MultipartConfig {
    /// Form field name for the audio file.
    pub file_field: String,
    /// Filename to use in the multipart part.
    pub filename: String,
    /// MIME type for the audio file.
    pub mime_type: String,
    /// Additional form text fields (e.g., model, response_format, language).
    pub extra_fields: Vec<(String, String)>,
}

impl Default for MultipartConfig {
    fn default() -> (r: Self)
        ensures
            r.file_field@ == "file"@,
            r.filename@ == "recording.wav"@,
            r.mime_type@ == "audio/wav"@,
            r.extra_fields@.len() == 0,
    {
        MultipartConfig {
            file_field: "file".to_string(),
            filename: "recording.wav".to_string(),
            mime_type: "audio/wav".to_string(),
            extra_fields: Vec::new(),
        }
    }
}

/// Configuration for the raw binary request format.
#[derive(Debug, Clone)]
pub struct RawBinaryConfig {
    /// Content-Type header for the audio body.
    pub content_type: String,
    /// Query parameters appended to the URL.
    pub query_params: Vec<(String, String)>,
}

impl Default for RawBinaryConfig {
    fn default() -> (r: Self)
        ensures
            r.content_type@ == "audio/wav"@,
            r.query_params@.len() == 0,
    {
        RawBinaryConfig { content_type: "audio/wav".to_string(), query_params: Vec::new() }
    }
}

/// Request configuration.
#[derive(Debug, Clone)]
pub struct RequestConfig {
    /// Request format type.
    pub format: RequestFormat,
    /// Multipart-specific configuration.
    pub multipart_config: Option<MultipartConfig>,
    /// Raw binary-specific configuration.
    pub raw_binary_config: Option<RawBinaryConfig>,
}

/// Response configuration.
#[derive(Debug, Clone)]
pub struct ResponseConfig {
    /// Dot notation path to the transcript in the JSON reply, such as
    /// `text` or `results.channels[0].alternatives[0].transcript`.
    pub text_path: String,
}

/// Health check configuration.
#[derive(Debug, Clone)]
pub struct HealthCheckConfig {
    /// Health check URL (supports variable substitution).
    pub url: String,
    /// HTTP method (GET or HEAD).
    pub method: String,
}

/// ASR provider configuration.
#[derive(Debug, Clone)]
pub struct ProviderConfig {
    /// Human-readable provider name.
    pub name: String,
    /// Endpoint URL (supports `${NAME}` substitution).
    pub url: String,
    /// HTTP headers (values support `${NAME}` substitution).
    pub headers: Vec<(String, String)>,
    /// Request configuration.
    pub request: RequestConfig,
    /// Response configuration.
    pub response: ResponseConfig,
    /// Optional health check configuration.
    pub health_check: Option<HealthCheckConfig>,
    /// Request timeout in seconds.
    pub timeout_secs: u64,
}

/// Errors in a provider configuration or in its use.
#[derive(Debug, Clone, PartialEq, Eq)]
pub enum ProviderError {
    /// The endpoint URL is empty.
    EmptyUrl,
    /// The multipart format is chosen without its configuration.
    MissingMultipartConfig,
    /// The raw binary format is chosen without its configuration.
    MissingRawBinaryConfig,
    /// The response text path is empty.
    EmptyTextPath,
    /// The timeout is outside 1..=120 seconds.
    InvalidTimeout,
    /// A `${NAME}` placeholder names no known variable.
    UndefinedVariable(String),
    /// The URL does not parse; it is carried.
    InvalidUrl(String),
    /// Plain HTTP to a host other than the local machine; the host (or
    /// `unknown`) is carried.
    InsecureHttp(String),
    /// A scheme other than `http` and `https`; it is carried.
    UnsupportedScheme(String),
    /// A field of the path is missing from the reply.
    FieldNotFound(String),
    /// An array index of the path is missing from the reply.
    IndexNotFound(usize),
    /// The path leads to something other than a string; the path is carried.
    NotAString(String),
}

impl ProviderError {
    /// The error's message.
    pub fn message(&self) -> (r: String)
        ensures
            r@ == match *self {
                ProviderError::EmptyUrl => "Provider URL cannot be empty"@,
                ProviderError::MissingMultipartConfig => "Multipart format requires multipart_config"@,
                ProviderError::MissingRawBinaryConfig => "RawBinary format requires raw_binary_config"@,
                ProviderError::EmptyTextPath => "Response text_path cannot be empty"@,
                ProviderError::InvalidTimeout => "timeout_secs must be between 1 and 120 seconds"@,
                ProviderError::UndefinedVariable(m) => "Undefined variable: "@ + m@,
                ProviderError::InvalidUrl(m) => "Invalid URL: "@ + m@,
                ProviderError::InsecureHttp(h) => "HTTPS required for remote URLs (got HTTP for "@ + h@ + ")"@,
                ProviderError::UnsupportedScheme(m) => "URL scheme must be http or https, got: "@ + m@,
                ProviderError::FieldNotFound(n) => "Field '"@ + n@ + "' not found in response"@,
                ProviderError::IndexNotFound(i) => "Array index "@ + crate::text::decimal(i as nat) + " not found in response"@,
                ProviderError::NotAString(p) => "Path '"@ + p@ + "' did not resolve to a string value"@,
            },
    {
        match self {
            ProviderError::EmptyUrl => "Provider URL cannot be empty".to_string(),
            ProviderError::MissingMultipartConfig => "Multipart format requires multipart_config".to_string(),
            ProviderError::MissingRawBinaryConfig => "RawBinary format requires raw_binary_config".to_string(),
            ProviderError::EmptyTextPath => "Response text_path cannot be empty".to_string(),
            ProviderError::InvalidTimeout => "timeout_secs must be between 1 and 120 seconds".to_string(),
            ProviderError::UndefinedVariable(m) => crate::text::concat_str("Undefined variable: ", m.as_str()),
            ProviderError::InvalidUrl(m) => crate::text::concat_str("Invalid URL: ", m.as_str()),
            ProviderError::InsecureHttp(h) => crate::text::concat_str(crate::text::concat_str("HTTPS required for remote URLs (got HTTP for ", h.as_str()).as_str(), ")"),
            ProviderError::UnsupportedScheme(m) => crate::text::concat_str("URL scheme must be http or https, got: ", m.as_str()),
            ProviderError::FieldNotFound(n) => crate::text::concat_str(crate::text::concat_str("Field '", n.as_str()).as_str(), "' not found in response"),
            ProviderError::IndexNotFound(i) => crate::text::concat_str(crate::text::concat_str("Array index ", crate::text::decimal_string(*i as u64).as_str()).as_str(), " not found in response"),
            ProviderError::NotAString(p) => crate::text::concat_str(crate::text::concat_str("Path '", p.as_str()).as_str(), "' did not resolve to a string value"),
        }
    }
}

/// The longest timeout a provider may ask for, in seconds.
pub const MAX_TIMEOUT_SECS: u64 = 120;

/// The verdict of [`ProviderConfig::validate`]: the first failing check, in
/// the order URL, request format, text path, timeout.
pub open spec fn validation(c: ProviderConfig) -> Result<(), ProviderError> {
    if c.url@.len() == 0 {
        Err(ProviderError::EmptyUrl)
    } else if c.request.format == RequestFormat::Multipart && c.request.multipart_config is None {
        Err(ProviderError::MissingMultipartConfig)
    } else if c.request.format == RequestFormat::RawBinary && c.request.raw_binary_config is None {
        Err(ProviderError::MissingRawBinaryConfig)
    } else if c.response.text_path@.len() == 0 {
        Err(ProviderError::EmptyTextPath)
    } else if c.timeout_secs == 0 || c.timeout_secs > MAX_TIMEOUT_SECS {
        Err(ProviderError::InvalidTimeout)
    } else {
        Ok(())
    }
}

/// The character views of an association list of strings.
pub open spec fn pairs_view(v: Seq<(String, String)>) -> Seq<(Seq<char>, Seq<char>)> {
    v.map_values(|p: (String, String)| (p.0@, p.1@))
}

/// One variable binding when its value is present.
pub open spec fn binding(name: Seq<char>, value: Option<Seq<char>>) -> Seq<(Seq<char>, Seq<char>)> {
    match value {
        Some(v) => seq![(name, v)],
        None => Seq::empty(),
    }
}

/// The variables of [`ProviderConfig::build_vars`]: `SERVER`, `API_KEY`,
/// `LANGUAGE` and `MODEL`, each when its value is given.
pub open spec fn vars_of(
    server: Option<Seq<char>>,
    api_key: Option<Seq<char>>,
    language: Option<Seq<char>>,
    model: Option<Seq<char>>,
) -> Seq<(Seq<char>, Seq<char>)> {
    binding("SERVER"@, server) + binding("API_KEY"@, api_key) + binding("LANGUAGE"@, language)
        + binding("MODEL"@, model)
}

fn push_binding(vars: &mut Vec<(String, String)>, name: &str, value: Option<&str>)
    ensures
        pairs_view(final(vars)@) == pairs_view(old(vars)@) + binding(name@, opt_str_view(value)),
{
    match value {
        Some(v) => {
            vars.push((name.to_string(), v.to_string()));
        },
        None => {},
    }
    assert(pairs_view(final(vars)@) =~= pairs_view(old(vars)@) + binding(name@, opt_str_view(value)));
}

// ---------------------------------------------------------------------------
// `${NAME}` placeholders
// ---------------------------------------------------------------------------

/// A character allowed in a placeholder's name: `A`-`Z` or `_`.
pub open spec fn is_var_char(c: char) -> bool {
    ('A' <= c && c <= 'Z') || c == '_'
}

/// Length of the run of name characters starting at `i`.
pub open spec fn var_run(s: Seq<char>, i: int) -> nat
    decreases s.len() - i,
{
    if 0 <= i < s.len() && is_var_char(s[i]) {
        1 + var_run(s, i + 1)
    } else {
        0
    }
}

/// Whether a placeholder `${NAME}` (a non-empty name) starts at `i`.
pub open spec fn placeholder_at(s: Seq<char>, i: int) -> bool {
    let n = var_run(s, i + 2);
    &&& 0 <= i
    &&& i + 1 < s.len()
    &&& s[i] == '$'
    &&& s[i + 1] == '{'
    &&& n > 0
    &&& i + 2 + n < s.len()
    &&& s[i + 2 + n] == '}'
}

/// The names of the placeholders of `s` from index `i` on, leftmost first,
/// not overlapping.
pub open spec fn placeholders_from(s: Seq<char>, i: int) -> Seq<Seq<char>>
    decreases s.len() - i,
{
    if i < 0 || i >= s.len() {
        Seq::empty()
    } else if placeholder_at(s, i) {
        let n = var_run(s, i + 2);
        seq![s.subrange(i + 2, i + 2 + n)] + placeholders_from(s, i + 3 + n)
    } else {
        placeholders_from(s, i + 1)
    }
}

/// The names of the placeholders of `s`, in order of appearance.
pub open spec fn placeholders(s: Seq<char>) -> Seq<Seq<char>> {
    placeholders_from(s, 0)
}

/// The value bound to `name` at or after position `k` of an association list.
pub open spec fn lookup_from(vars: Seq<(Seq<char>, Seq<char>)>, name: Seq<char>, k: int) -> Option<Seq<char>>
    decreases vars.len() - k,
{
    if k < 0 || k >= vars.len() {
        None
    } else if vars[k].0 == name {
        Some(vars[k].1)
    } else {
        lookup_from(vars, name, k + 1)
    }
}

/// The value bound to `name` (the first binding of it).
pub open spec fn lookup(vars: Seq<(Seq<char>, Seq<char>)>, name: Seq<char>) -> Option<Seq<char>> {
    lookup_from(vars, name, 0)
}

/// The first of `names[k..]` that has no binding.
pub open spec fn first_undefined_from(
    names: Seq<Seq<char>>,
    vars: Seq<(Seq<char>, Seq<char>)>,
    k: int,
) -> Option<Seq<char>>
    decreases names.len() - k,
{
    if k < 0 || k >= names.len() {
        None
    } else if lookup(vars, names[k]) is None {
        Some(names[k])
    } else {
        first_undefined_from(names, vars, k + 1)
    }
}

/// The text of the placeholder for `name`.
pub open spec fn placeholder_text(name: Seq<char>) -> Seq<char> {
    "${"@ + name + "}"@
}

/// `s[i..]` with every occurrence of `p` replaced by `r`, scanning left to
/// right without overlap (as `str::replace` does).
pub open spec fn replace_from(s: Seq<char>, p: Seq<char>, r: Seq<char>, i: int) -> Seq<char>
    decreases s.len() - i,
{
    if i < 0 || i >= s.len() || p.len() == 0 {
        if 0 <= i <= s.len() { s.subrange(i, s.len() as int) } else { Seq::empty() }
    } else if crate::text::occurs_at(s, p, i) {
        r + replace_from(s, p, r, i + p.len())
    } else {
        seq![s[i]] + replace_from(s, p, r, i + 1)
    }
}

/// `s` with every occurrence of `p` replaced by `r`.
pub open spec fn replace_all(s: Seq<char>, p: Seq<char>, r: Seq<char>) -> Seq<char> {
    replace_from(s, p, r, 0)
}

/// `s` after replacing, in turn, the placeholder of each of `names[k..]`
/// by its value.
pub open spec fn substitute_from(
    s: Seq<char>,
    names: Seq<Seq<char>>,
    vars: Seq<(Seq<char>, Seq<char>)>,
    k: int,
) -> Seq<char>
    decreases names.len() - k,
{
    if k < 0 || k >= names.len() {
        s
    } else {
        let value = match lookup(vars, names[k]) {
            Some(v) => v,
            None => Seq::empty(),
        };
        substitute_from(replace_all(s, placeholder_text(names[k]), value), names, vars, k + 1)
    }
}

/// What substituting the variables into `template` gives: the name of the
/// first placeholder without a binding, or the text with each placeholder
/// (in order of appearance) replaced everywhere by its value.
pub open spec fn substitution(template: Seq<char>, vars: Seq<(Seq<char>, Seq<char>)>) -> Result<
    Seq<char>,
    Seq<char>,
> {
    let names = placeholders(template);
    match first_undefined_from(names, vars, 0) {
        Some(name) => Err(name),
        None => Ok(substitute_from(template, names, vars, 0)),
    }
}

fn var_run_exec(v: &Vec<char>, i: usize) -> (n: usize)
    requires
        i <= v.len(),
    ensures
        n == var_run(v@, i as int),
        i + n <= v.len(),
{
    let mut j = i;
    while j < v.len() && ((v[j] >= 'A' && v[j] <= 'Z') || v[j] == '_')
        invariant
            i <= j <= v.len(),
            var_run(v@, i as int) == (j - i) + var_run(v@, j as int),
        decreases v.len() - j,
    {
        j = j + 1;
    }
    j - i
}

/// Whether a placeholder starts at `i`, with its name's length.
fn placeholder_at_exec(v: &Vec<char>, i: usize) -> (r: (bool, usize))
    requires
        i < v.len(),
    ensures
        r.0 == placeholder_at(v@, i as int),
        r.0 ==> r.1 == var_run(v@, i + 2),
{
    if i + 1 >= v.len() || v[i] != '$' || v[i + 1] != '{' {
        return (false, 0);
    }
    let n = var_run_exec(v, i + 2);
    if n == 0 || i + 2 + n >= v.len() {
        return (false, 0);
    }
    (v[i + 2 + n] == '}', n)
}

/// The names of the placeholders of `v`, in order of appearance.
fn placeholder_names(v: &Vec<char>) -> (r: Vec<Vec<char>>)
    ensures
        r@.map_values(|w: Vec<char>| w@) == placeholders(v@),
{
    let mut r: Vec<Vec<char>> = Vec::new();
    let mut i: usize = 0;
    while i < v.len()
        invariant
            i <= v.len(),
            r@.map_values(|w: Vec<char>| w@) + placeholders_from(v@, i as int) == placeholders(v@),
        decreases v.len() - i,
    {
        let (found, n) = placeholder_at_exec(v, i);
        if found {
            let name = crate::text::slice_chars(v, i + 2, i + 2 + n);
            let ghost before = r@.map_values(|w: Vec<char>| w@);
            r.push(name);
            assert(r@.map_values(|w: Vec<char>| w@) =~= before.push(name@));
            assert(placeholders_from(v@, i as int) == seq![name@] + placeholders_from(v@, i + 3 + n));
            assert(before.push(name@) + placeholders_from(v@, i + 3 + n) =~= before + (seq![name@]
                + placeholders_from(v@, i + 3 + n)));
            i = i + 3 + n;
        } else {
            i = i + 1;
        }
    }
    assert(placeholders_from(v@, i as int) =~= Seq::<Seq<char>>::empty());
    assert(r@.map_values(|w: Vec<char>| w@) + Seq::<Seq<char>>::empty() =~= r@.map_values(
        |w: Vec<char>| w@,
    ));
    r
}

/// The position of the first binding of `name`, if any.
fn lookup_exec(vars: &Vec<(String, String)>, name: &Vec<char>) -> (r: Option<usize>)
    ensures
        r matches Some(k) ==> k < vars@.len() && lookup(pairs_view(vars@), name@) == Some(
            vars@[k as int].1@,
        ),
        r is None ==> lookup(pairs_view(vars@), name@) is None,
{
    let ghost pv = pairs_view(vars@);
    let mut k: usize = 0;
    while k < vars.len()
        invariant
            k <= vars.len(),
            pv == pairs_view(vars@),
            lookup(pv, name@) == lookup_from(pv, name@, k as int),
        decreases vars.len() - k,
    {
        let key = chars_of(vars[k].0.as_str());
        if crate::text::chars_eq(&key, name) {
            return Some(k);
        }
        k = k + 1;
    }
    None
}

/// `s` with every occurrence of `p` replaced by `r`.
fn replace_all_exec(s: &Vec<char>, p: &Vec<char>, r: &Vec<char>) -> (out: Vec<char>)
    requires
        p.len() > 0,
    ensures
        out@ == replace_all(s@, p@, r@),
{
    let mut out: Vec<char> = Vec::new();
    let mut i: usize = 0;
    while i < s.len()
        invariant
            i <= s.len(),
            p.len() > 0,
            out@ + replace_from(s@, p@, r@, i as int) == replace_all(s@, p@, r@),
        decreases s.len() - i,
    {
        let ghost before = out@;
        if crate::text::occurs_at_exec(s, p, i) {
            let mut k: usize = 0;
            while k < r.len()
                invariant
                    k <= r.len(),
                    out@ == before + r@.take(k as int),
                decreases r.len() - k,
            {
                out.push(r[k]);
                k = k + 1;
                assert(out@ =~= before + r@.take(k as int));
            }
            assert(r@.take(r.len() as int) =~= r@);
            assert(before + (r@ + replace_from(s@, p@, r@, i + p.len())) =~= out@ + replace_from(
                s@,
                p@,
                r@,
                i + p.len(),
            ));
            i = i + p.len();
        } else {
            out.push(s[i]);
            assert(before + (seq![s@[i as int]] + replace_from(s@, p@, r@, i + 1)) =~= out@
                + replace_from(s@, p@, r@, i + 1));
            i = i + 1;
        }
    }
    assert(replace_from(s@, p@, r@, i as int) =~= Seq::<char>::empty());
    assert(out@ + Seq::<char>::empty() =~= out@);
    out
}

fn placeholder_text_exec(name: &Vec<char>) -> (r: Vec<char>)
    ensures
        r@ == placeholder_text(name@),
        r@.len() > 0,
{
    let mut r: Vec<char> = Vec::new();
    r.push('$');
    r.push('{');
    let mut k: usize = 0;
    while k < name.len()
        invariant
            k <= name.len(),
            r@ == seq!['$', '{'] + name@.take(k as int),
        decreases name.len() - k,
    {
        r.push(name[k]);
        k = k + 1;
        assert(r@ =~= seq!['$', '{'] + name@.take(k as int));
    }
    r.push('}');
    proof {
        reveal_strlit("${");
        reveal_strlit("}");
        assert(name@.take(name.len() as int) =~= name@);
        assert(r@ =~= placeholder_text(name@));
    }
    r
}

// ---------------------------------------------------------------------------
// URL security
// ---------------------------------------------------------------------------

/// What the `url` crate's parser makes of a string: `None` when
/// `Url::parse` fails, else the URL's scheme (`Url::scheme`) and host text
/// (`Url::host_str`).
pub uninterp spec fn parsed_url_parts(input: Seq<char>) -> Option<(Seq<char>, Option<Seq<char>>)>;

/// The character views of a parsed URL's scheme and host.
pub open spec fn url_parts_view(p: Option<(String, Option<String>)>) -> Option<(Seq<char>, Option<Seq<char>>)> {
    match p {
        Some((scheme, host)) => Some((scheme@, crate::text::opt_view(host))),
        None => None,
    }
}

/// Parses `input` with `url::Url::parse` and returns its scheme and host
/// text; the result is named by [`parsed_url_parts`].
#[verifier::external_body]
pub(crate) fn parse_url_parts(input: &str) -> (r: Option<(String, Option<String>)>)
    ensures
        url_parts_view(r) == parsed_url_parts(input@),
{
    match url::Url::parse(input) {
        Ok(u) => {
            let host = match u.host_str() {
                Some(h) => Some(h.to_string()),
                None => None,
            };
            Some((u.scheme().to_string(), host))
        },
        Err(_) => None,
    }
}

/// What the `url` crate makes of a string as text: the serialization of
/// the parsed URL (`Url::parse` then `to_string`), or the message of the
/// parse error.
pub uninterp spec fn url_parse_text(input: Seq<char>) -> Result<Seq<char>, Seq<char>>;

/// Parses `input` with `url::Url::parse` and returns the URL's
/// serialization or the error's message; the result is named by
/// [`url_parse_text`].
#[verifier::external_body]
pub(crate) fn parse_url_text(input: &str) -> (r: Result<String, String>)
    ensures
        match r {
            Ok(t) => url_parse_text(input@) == Ok::<Seq<char>, Seq<char>>(t@),
            Err(e) => url_parse_text(input@) == Err::<Seq<char>, Seq<char>>(e@),
        },
{
    match url::Url::parse(input) {
        Ok(u) => Ok(u.to_string()),
        Err(e) => Err(e.to_string()),
    }
}

/// Hosts to which plain HTTP is allowed.
pub open spec fn is_local_host(host: Seq<char>) -> bool {
    host == "localhost"@ || host == "127.0.0.1"@ || host == "[::1]"@
}

/// Why a URL is refused, with the text that the error carries.
pub enum UrlRefusal {
    /// The URL does not parse.
    Unparsable(Seq<char>),
    /// Plain HTTP to a remote host (or to no host: `unknown`).
    InsecureHttp(Seq<char>),
    /// A scheme other than `http` and `https`.
    UnsupportedScheme(Seq<char>),
}

/// The refusal that an error reports, if it is one.
pub open spec fn url_refusal_of(e: ProviderError) -> Option<UrlRefusal> {
    match e {
        ProviderError::InvalidUrl(u) => Some(UrlRefusal::Unparsable(u@)),
        ProviderError::InsecureHttp(h) => Some(UrlRefusal::InsecureHttp(h@)),
        ProviderError::UnsupportedScheme(sc) => Some(UrlRefusal::UnsupportedScheme(sc@)),
        _ => None,
    }
}

/// The verdict on a URL given what the parser made of it: HTTPS always,
/// HTTP only to the local machine, nothing else.
pub open spec fn url_verdict(url: Seq<char>, parts: Option<(Seq<char>, Option<Seq<char>>)>) -> Result<
    (),
    UrlRefusal,
> {
    match parts {
        None => Err(UrlRefusal::Unparsable(url)),
        Some((scheme, host)) => if scheme == "http"@ {
            match host {
                Some(h) => if is_local_host(h) {
                    Ok(())
                } else {
                    Err(UrlRefusal::InsecureHttp(h))
                },
                None => Err(UrlRefusal::InsecureHttp("unknown"@)),
            }
        } else if scheme == "https"@ {
            Ok(())
        } else {
            Err(UrlRefusal::UnsupportedScheme(scheme))
        },
    }
}

/// Whether a result reports the given verdict.
pub open spec fn reports_verdict(r: Result<(), ProviderError>, v: Result<(), UrlRefusal>) -> bool {
    match v {
        Ok(()) => r is Ok,
        Err(f) => r matches Err(e) && url_refusal_of(e) == Some(f),
    }
}

/// The verdict on `url` given its parsed scheme and host (`None` when it
/// did not parse): HTTPS is accepted; HTTP only for `localhost`,
/// `127.0.0.1` and `[::1]`; any other scheme is refused.
pub fn url_security_verdict(url: &str, parts: Option<(String, Option<String>)>) -> (r: Result<
    (),
    ProviderError,
>)
    ensures
        reports_verdict(r, url_verdict(url@, url_parts_view(parts))),
{
    match parts {
        None => Err(ProviderError::InvalidUrl(url.to_string())),
        Some((scheme, host)) => {
            if crate::text::str_eq(scheme.as_str(), "http") {
                match host {
                    Some(h) => {
                        if crate::text::str_eq(h.as_str(), "localhost") || crate::text::str_eq(
                            h.as_str(),
                            "127.0.0.1",
                        ) || crate::text::str_eq(h.as_str(), "[::1]") {
                            Ok(())
                        } else {
                            Err(ProviderError::InsecureHttp(h))
                        }
                    },
                    None => {
                        Err(ProviderError::InsecureHttp("unknown".to_string()))
                    },
                }
            } else if crate::text::str_eq(scheme.as_str(), "https") {
                Ok(())
            } else {
                Err(ProviderError::UnsupportedScheme(scheme))
            }
        },
    }
}

// ---------------------------------------------------------------------------
// Transcript path in the JSON reply
// ---------------------------------------------------------------------------

/// A JSON value as the reply holds it. Numbers keep their text; objects
/// keep their members in order, with distinct keys.
#[derive(Debug)]
pub enum JsonValue {
    Null,
    Bool(bool),
    Number(String),
    Str(String),
    Array(Vec<JsonValue>),
    Object(Vec<(String, JsonValue)>),
}

/// Declares `serde_json::Value` so the parse wrapper can convert it.
#[verifier::external_type_specification]
#[verifier::external_body]
pub struct ExSerdeJsonValue(serde_json::Value);

/// What `serde_json` makes of a text: `None` when `serde_json::from_str`
/// refuses it, otherwise the parsed value, member for member (numbers as
/// the text `serde_json` prints for them).
pub uninterp spec fn json_of_text(text: Seq<char>) -> Option<JsonValue>;

/// Parses `text` with `serde_json::from_str` into a `serde_json::Value`
/// and gives it as a [`JsonValue`]; the result is named by
/// [`json_of_text`].
#[verifier::external_body]
pub fn parse_json_text(text: &str) -> (r: Option<JsonValue>)
    ensures
        r == json_of_text(text@),
{
    match serde_json::from_str::<serde_json::Value>(text) {
        Ok(v) => Some(json_value_of(&v)),
        Err(_) => None,
    }
}

/// Converts a `serde_json::Value` one for one: each variant to the
/// [`JsonValue`] variant of the same name, a number to its printed text,
/// arrays and objects member by member in `serde_json`'s order.
#[verifier::external_body]
fn json_value_of(v: &serde_json::Value) -> JsonValue {
    match v {
        serde_json::Value::Null => JsonValue::Null,
        serde_json::Value::Bool(b) => JsonValue::Bool(*b),
        serde_json::Value::Number(n) => JsonValue::Number(n.to_string()),
        serde_json::Value::String(t) => JsonValue::Str(t.clone()),
        serde_json::Value::Array(items) => JsonValue::Array(items.iter().map(json_value_of).collect()),
        serde_json::Value::Object(map) => {
            JsonValue::Object(map.iter().map(|(k, x)| (k.clone(), json_value_of(x))).collect())
        },
    }
}

/// One step of a transcript path.
#[derive(Debug, Clone, PartialEq, Eq)]
pub enum PathSegment {
    /// An object member, by key.
    Field(String),
    /// An array element, by position.
    Index(usize),
}

/// A path step as a mathematical value.
pub enum SegmentView {
    Field(Seq<char>),
    Index(usize),
}

/// The mathematical value of a path step.
pub open spec fn segment_view(p: PathSegment) -> SegmentView {
    match p {
        PathSegment::Field(name) => SegmentView::Field(name@),
        PathSegment::Index(i) => SegmentView::Index(i),
    }
}

/// The segments found so far and the pending name, after reading `c`.
pub open spec fn path_step(st: (Seq<SegmentView>, Seq<char>), c: char) -> (Seq<SegmentView>, Seq<char>) {
    let (segs, cur) = st;
    if c == '.' || c == '[' {
        if cur.len() > 0 { (segs.push(SegmentView::Field(cur)), Seq::empty()) } else { st }
    } else if c == ']' {
        if cur.len() > 0 {
            match parse_usize(cur) {
                Some(i) => (segs.push(SegmentView::Index(i)), Seq::empty()),
                None => (segs, Seq::empty()),
            }
        } else {
            st
        }
    } else {
        (segs, cur.push(c))
    }
}

/// The state after reading all of `s`.
pub open spec fn path_scan(s: Seq<char>) -> (Seq<SegmentView>, Seq<char>)
    decreases s.len(),
{
    if s.len() == 0 {
        (Seq::empty(), Seq::empty())
    } else {
        path_step(path_scan(s.drop_last()), s.last())
    }
}

/// The segments of a dot-notation path: `.` and `[` end a field name, `]`
/// ends an index (dropped when it is not a number), and a trailing name is
/// a field.
pub open spec fn path_segments(s: Seq<char>) -> Seq<SegmentView> {
    let (segs, cur) = path_scan(s);
    if cur.len() > 0 { segs.push(SegmentView::Field(cur)) } else { segs }
}

/// Splits a dot-notation path such as
/// `results.channels[0].alternatives[0].transcript` into its segments.
pub fn parse_json_path(path: &str) -> (r: Vec<PathSegment>)
    ensures
        r@.map_values(|p: PathSegment| segment_view(p)) == path_segments(path@),
{
    let v = chars_of(path);
    let mut segs: Vec<PathSegment> = Vec::new();
    let mut cur: Vec<char> = Vec::new();
    let mut i: usize = 0;
    while i < v.len()
        invariant
            i <= v.len(),
            v@ == path@,
            (segs@.map_values(|p: PathSegment| segment_view(p)), cur@) == path_scan(v@.take(i as int)),
        decreases v.len() - i,
    {
        let c = v[i];
        let ghost before = segs@.map_values(|p: PathSegment| segment_view(p));
        assert(v@.take(i + 1).drop_last() =~= v@.take(i as int));
        if c == '.' || c == '[' {
            if cur.len() > 0 {
                let name = string_of(&cur);
                segs.push(PathSegment::Field(name));
                cur = Vec::new();
                assert(segs@.map_values(|p: PathSegment| segment_view(p)) =~= before.push(
                    SegmentView::Field(name@),
                ));
            }
        } else if c == ']' {
            if cur.len() > 0 {
                let text = string_of(&cur);
                match parse_usize_exec(text.as_str()) {
                    Some(idx) => {
                        segs.push(PathSegment::Index(idx));
                        assert(segs@.map_values(|p: PathSegment| segment_view(p)) =~= before.push(
                            SegmentView::Index(idx),
                        ));
                    },
                    None => {},
                }
                cur = Vec::new();
            }
        } else {
            cur.push(c);
        }
        i = i + 1;
        assert(cur@ == path_scan(v@.take(i as int)).1);
    }
    assert(v@.take(v.len() as int) =~= v@);
    if cur.len() > 0 {
        let ghost before = segs@.map_values(|p: PathSegment| segment_view(p));
        let name = string_of(&cur);
        segs.push(PathSegment::Field(name));
        assert(segs@.map_values(|p: PathSegment| segment_view(p)) =~= before.push(
            SegmentView::Field(name@),
        ));
    }
    segs
}

/// The member named `name` at or after position `k` of an object's members.
pub open spec fn member_from(entries: Seq<(String, JsonValue)>, name: Seq<char>, k: int) -> Option<JsonValue>
    decreases entries.len() - k,
{
    if k < 0 || k >= entries.len() {
        None
    } else if entries[k].0@ == name {
        Some(entries[k].1)
    } else {
        member_from(entries, name, k + 1)
    }
}

/// Where one path step leads from `v`, if anywhere.
pub open spec fn json_step(v: JsonValue, seg: SegmentView) -> Option<JsonValue> {
    match seg {
        SegmentView::Field(name) => match v {
            JsonValue::Object(entries) => member_from(entries@, name, 0),
            _ => None,
        },
        SegmentView::Index(i) => match v {
            JsonValue::Array(items) => if i < items@.len() { Some(items@[i as int]) } else { None },
            _ => None,
        },
    }
}

/// Following `segs[k..]` from `v`: where it ends, or the first step that
/// leads nowhere.
pub open spec fn json_walk(v: JsonValue, segs: Seq<SegmentView>, k: int) -> Result<JsonValue, SegmentView>
    decreases segs.len() - k,
{
    if k < 0 || k >= segs.len() {
        Ok(v)
    } else {
        match json_step(v, segs[k]) {
            Some(next) => json_walk(next, segs, k + 1),
            None => Err(segs[k]),
        }
    }
}

/// Why a transcript could not be extracted.
pub enum ExtractFailure {
    /// A step of the path leads nowhere.
    Missing(SegmentView),
    /// The path leads to something other than a string.
    NotAString,
}

/// The transcript at `path` in `json`, or why there is none.
pub open spec fn extraction(json: JsonValue, path: Seq<char>) -> Result<Seq<char>, ExtractFailure> {
    match json_walk(json, path_segments(path), 0) {
        Err(seg) => Err(ExtractFailure::Missing(seg)),
        Ok(JsonValue::Str(t)) => Ok(t@),
        Ok(_) => Err(ExtractFailure::NotAString),
    }
}

/// Whether a result reports the given extraction for `path`.
pub open spec fn reports_extraction(
    r: Result<String, ProviderError>,
    x: Result<Seq<char>, ExtractFailure>,
    path: Seq<char>,
) -> bool {
    match x {
        Ok(t) => r matches Ok(s) && s@ == t,
        Err(ExtractFailure::Missing(SegmentView::Field(name))) => r matches Err(
            ProviderError::FieldNotFound(n),
        ) && n@ == name,
        Err(ExtractFailure::Missing(SegmentView::Index(i))) => r == Err::<String, ProviderError>(
            ProviderError::IndexNotFound(i),
        ),
        Err(ExtractFailure::NotAString) => r matches Err(ProviderError::NotAString(p)) && p@ == path,
    }
}

pub(crate) fn member_exec(entries: &Vec<(String, JsonValue)>, name: &Vec<char>) -> (r: Option<usize>)
    ensures
        r matches Some(k) ==> k < entries@.len() && member_from(entries@, name@, 0) == Some(
            entries@[k as int].1,
        ),
        r is None ==> member_from(entries@, name@, 0) is None,
{
    let mut k: usize = 0;
    while k < entries.len()
        invariant
            k <= entries.len(),
            member_from(entries@, name@, 0) == member_from(entries@, name@, k as int),
        decreases entries.len() - k,
    {
        let key = chars_of(entries[k].0.as_str());
        if crate::text::chars_eq(&key, name) {
            return Some(k);
        }
        k = k + 1;
    }
    None
}

/// The string at a dot-notation `path` in a JSON reply.
pub fn extract_json_path(json: &JsonValue, path: &str) -> (r: Result<String, ProviderError>)
    ensures
        reports_extraction(r, extraction(*json, path@), path@),
{
    let segs = parse_json_path(path);
    let ghost sv = segs@.map_values(|p: PathSegment| segment_view(p));
    let mut current: &JsonValue = json;
    let mut k: usize = 0;
    while k < segs.len()
        invariant
            k <= segs.len(),
            sv == segs@.map_values(|p: PathSegment| segment_view(p)),
            sv == path_segments(path@),
            json_walk(*json, sv, 0) == json_walk(*current, sv, k as int),
        decreases segs.len() - k,
    {
        assert(sv[k as int] == segment_view(segs@[k as int]));
        match &segs[k] {
            PathSegment::Field(name) => {
                let nv = chars_of(name.as_str());
                match current {
                    JsonValue::Object(entries) => {
                        match member_exec(entries, &nv) {
                            Some(idx) => {
                                current = &entries[idx].1;
                            },
                            None => {
                                return Err(ProviderError::FieldNotFound(name.clone()));
                            },
                        }
                    },
                    _ => {
                        return Err(ProviderError::FieldNotFound(name.clone()));
                    },
                }
            },
            PathSegment::Index(i) => {
                match current {
                    JsonValue::Array(items) => {
                        if *i < items.len() {
                            current = &items[*i];
                        } else {
                            return Err(ProviderError::IndexNotFound(*i));
                        }
                    },
                    _ => {
                        return Err(ProviderError::IndexNotFound(*i));
                    },
                }
            },
        }
        k = k + 1;
    }
    match current {
        JsonValue::Str(t) => Ok(t.clone()),
        _ => Err(ProviderError::NotAString(path.to_string())),
    }
}

impl ProviderConfig {
    /// Checks the configuration: a non-empty URL, the configuration that the
    /// request format needs, a non-empty text path and a timeout of 1 to 120
    /// seconds.
    pub fn validate(&self) -> (r: Result<(), ProviderError>)
        ensures
            r == validation(*self),
    {
        if self.url.as_str().is_empty() {
            return Err(ProviderError::EmptyUrl);
        }
        match self.request.format {
            RequestFormat::Multipart => {
                if self.request.multipart_config.is_none() {
                    return Err(ProviderError::MissingMultipartConfig);
                }
            },
            RequestFormat::RawBinary => {
                if self.request.raw_binary_config.is_none() {
                    return Err(ProviderError::MissingRawBinaryConfig);
                }
            },
        }
        if self.response.text_path.as_str().is_empty() {
            return Err(ProviderError::EmptyTextPath);
        }
        if self.timeout_secs == 0 || self.timeout_secs > MAX_TIMEOUT_SECS {
            return Err(ProviderError::InvalidTimeout);
        }
        Ok(())
    }

    /// Substitutes the variables into `template`: each `${NAME}` placeholder
    /// (a name of `A`-`Z` and `_`) is replaced by the value bound to `NAME`;
    /// a placeholder without a binding is an error naming it.
    pub fn substitute_vars(&self, template: &str, vars: &Vec<(String, String)>) -> (r: Result<
        String,
        ProviderError,
    >)
        ensures
            match substitution(template@, pairs_view(vars@)) {
                Ok(t) => r matches Ok(s) && s@ == t,
                Err(name) => r matches Err(ProviderError::UndefinedVariable(n)) && n@ == name,
            },
    {
        let v = chars_of(template);
        let names = placeholder_names(&v);
        let ghost nv = names@.map_values(|w: Vec<char>| w@);
        let ghost pv = pairs_view(vars@);
        let mut k: usize = 0;
        while k < names.len()
            invariant
                k <= names.len(),
                nv == names@.map_values(|w: Vec<char>| w@),
                nv == placeholders(template@),
                v@ == template@,
                pv == pairs_view(vars@),
                first_undefined_from(nv, pv, 0) == first_undefined_from(nv, pv, k as int),
            decreases names.len() - k,
        {
            assert(nv[k as int] == names@[k as int]@);
            if lookup_exec(vars, &names[k]).is_none() {
                return Err(ProviderError::UndefinedVariable(string_of(&names[k])));
            }
            k = k + 1;
        }
        let mut cur = crate::text::copy_chars(&v);
        let mut k: usize = 0;
        while k < names.len()
            invariant
                k <= names.len(),
                nv == names@.map_values(|w: Vec<char>| w@),
                nv == placeholders(template@),
                v@ == template@,
                pv == pairs_view(vars@),
                first_undefined_from(nv, pv, 0) is None,
                substitute_from(cur@, nv, pv, k as int) == substitute_from(v@, nv, pv, 0),
            decreases names.len() - k,
        {
            assert(nv[k as int] == names@[k as int]@);
            let ph = placeholder_text_exec(&names[k]);
            proof {
                lemma_first_undefined_none(nv, pv, k as int);
            }
            match lookup_exec(vars, &names[k]) {
                Some(idx) => {
                    let value = chars_of(vars[idx].1.as_str());
                    cur = replace_all_exec(&cur, &ph, &value);
                },
                None => {},
            }
            k = k + 1;
        }
        Ok(string_of(&cur))
    }

    /// Checks that `url` is safe to send audio to: it parses, and it is
    /// HTTPS, or HTTP to the local machine only.
    pub fn validate_url_security(url: &str) -> (r: Result<(), ProviderError>)
        ensures
            reports_verdict(r, url_verdict(url@, parsed_url_parts(url@))),
    {
        let parts = parse_url_parts(url);
        url_security_verdict(url, parts)
    }

    /// The transcript in a JSON reply, at the configured text path.
    pub fn extract_text_from_response(&self, json: &JsonValue) -> (r: Result<String, ProviderError>)
        ensures
            reports_extraction(r, extraction(*json, self.response.text_path@), self.response.text_path@),
    {
        extract_json_path(json, self.response.text_path.as_str())
    }

    /// The variable bindings from runtime values: `SERVER`, `API_KEY`,
    /// `LANGUAGE` and `MODEL`, each when given.
    pub fn build_vars(
        server: Option<&str>,
        api_key: Option<&str>,
        language: Option<&str>,
        model: Option<&str>,
    ) -> (r: Vec<(String, String)>)
        ensures
            pairs_view(r@) == vars_of(
                opt_str_view(server),
                opt_str_view(api_key),
                opt_str_view(language),
                opt_str_view(model),
            ),
    {
        let mut vars: Vec<(String, String)> = Vec::new();
        assert(pairs_view(vars@) =~= Seq::empty());
        push_binding(&mut vars, "SERVER", server);
        push_binding(&mut vars, "API_KEY", api_key);
        push_binding(&mut vars, "LANGUAGE", language);
        push_binding(&mut vars, "MODEL", model);
        vars
    }

    /// The default OpenAI-compatible provider: multipart upload to
    /// `${SERVER}/v1/audio/transcriptions` asking for JSON, transcript at
    /// `text`, health check `GET ${SERVER}/health`, 30 s timeout.
    pub fn default_openai_compatible() -> (r: Self)
        ensures
            r.name@ == "OpenAI-compatible (default)"@,
            r.url@ == "${SERVER}/v1/audio/transcriptions"@,
            r.headers@.len() == 0,
            r.request.format == RequestFormat::Multipart,
            r.request.multipart_config matches Some(m) && m.file_field@ == "file"@
                && m.filename@ == "recording.wav"@ && m.mime_type@ == "audio/wav"@
                && pairs_view(m.extra_fields@) == seq![("response_format"@, "json"@)],
            r.request.raw_binary_config is None,
            r.response.text_path@ == "text"@,
            r.health_check matches Some(h) && h.url@ == "${SERVER}/health"@ && h.method@ == "GET"@,
            r.timeout_secs == 30,
            validation(r) == Ok::<(), ProviderError>(()),
    {
        let mut extra_fields: Vec<(String, String)> = Vec::new();
        extra_fields.push(("response_format".to_string(), "json".to_string()));
        assert(pairs_view(extra_fields@) =~= seq![("response_format"@, "json"@)]);
        let r = ProviderConfig {
            name: "OpenAI-compatible (default)".to_string(),
            url: "${SERVER}/v1/audio/transcriptions".to_string(),
            headers: Vec::new(),
            request: RequestConfig {
                format: RequestFormat::Multipart,
                multipart_config: Some(
                    MultipartConfig {
                        file_field: "file".to_string(),
                        filename: "recording.wav".to_string(),
                        mime_type: "audio/wav".to_string(),
                        extra_fields,
                    },
                ),
                raw_binary_config: None,
            },
            response: ResponseConfig { text_path: "text".to_string() },
            health_check: Some(
                HealthCheckConfig {
                    url: "${SERVER}/health".to_string(),
                    method: "GET".to_string(),
                },
            ),
            timeout_secs: 30,
        };
        proof {
            reveal_strlit("${SERVER}/v1/audio/transcriptions");
            reveal_strlit("text");
        }
        r
    }
}

proof fn lemma_first_undefined_none(
    names: Seq<Seq<char>>,
    vars: Seq<(Seq<char>, Seq<char>)>,
    k: int,
)
    requires
        0 <= k < names.len(),
        first_undefined_from(names, vars, 0) is None,
    ensures
        lookup(vars, names[k]) is Some,
    decreases k,
{
    lemma_first_undefined_prefix(names, vars, 0, k);
}

proof fn lemma_first_undefined_prefix(
    names: Seq<Seq<char>>,
    vars: Seq<(Seq<char>, Seq<char>)>,
    j: int,
    k: int,
)
    requires
        0 <= j <= k < names.len(),
        first_undefined_from(names, vars, j) is None,
    ensures
        lookup(vars, names[k]) is Some,
    decreases k - j,
{
    if j < k {
        lemma_first_undefined_prefix(names, vars, j + 1, k);
    }
}

proof fn lemma_no_dollar_no_placeholders(s: Seq<char>, i: int)
    requires
        0 <= i,
        forall|j: int| 0 <= j < s.len() ==> s[j] != '$',
    ensures
        placeholders_from(s, i) == Seq::<Seq<char>>::empty(),
    decreases s.len() - i,
{
    if i < s.len() {
        lemma_no_dollar_no_placeholders(s, i + 1);
    }
}

/// A template without `$` has no placeholders, and substituting any
/// variables into it gives it back unchanged.
pub proof fn law_plain_template_unchanged(template: Seq<char>, vars: Seq<(Seq<char>, Seq<char>)>)
    requires
        forall|j: int| 0 <= j < template.len() ==> template[j] != '$',
    ensures
        placeholders(template) == Seq::<Seq<char>>::empty(),
        substitution(template, vars) == Ok::<Seq<char>, Seq<char>>(template),
{
    lemma_no_dollar_no_placeholders(template, 0);
}

/// Each variable given to `build_vars` is bound to its value.
pub proof fn law_build_vars_binds(
    server: Option<Seq<char>>,
    api_key: Option<Seq<char>>,
    language: Option<Seq<char>>,
    model: Option<Seq<char>>,
)
    ensures
        lookup(vars_of(server, api_key, language, model), "SERVER"@) == server,
        lookup(vars_of(server, api_key, language, model), "API_KEY"@) == api_key,
        lookup(vars_of(server, api_key, language, model), "LANGUAGE"@) == language,
        lookup(vars_of(server, api_key, language, model), "MODEL"@) == model,
{
    reveal_strlit("SERVER");
    reveal_strlit("API_KEY");
    reveal_strlit("LANGUAGE");
    reveal_strlit("MODEL");
    let v = vars_of(server, api_key, language, model);
    let names = seq!["SERVER"@, "API_KEY"@, "LANGUAGE"@, "MODEL"@];
    assert(names[0] != names[1] && names[0] != names[2] && names[0] != names[3]) by {
        assert(names[0][0] != names[1][0]);
        assert(names[0][0] != names[2][0]);
        assert(names[0][0] != names[3][0]);
    }
    assert(names[1] != names[2] && names[1] != names[3]) by {
        assert(names[1][0] != names[2][0]);
        assert(names[1][0] != names[3][0]);
    }
    assert(names[2] != names[3]) by {
        assert(names[2][0] != names[3][0]);
    }
    lemma_lookup_bindings(server, api_key, language, model);
}

proof fn lemma_lookup_bindings(
    server: Option<Seq<char>>,
    api_key: Option<Seq<char>>,
    language: Option<Seq<char>>,
    model: Option<Seq<char>>,
)
    requires
        "SERVER"@ != "API_KEY"@,
        "SERVER"@ != "LANGUAGE"@,
        "SERVER"@ != "MODEL"@,
        "API_KEY"@ != "LANGUAGE"@,
        "API_KEY"@ != "MODEL"@,
        "LANGUAGE"@ != "MODEL"@,
    ensures
        lookup(vars_of(server, api_key, language, model), "SERVER"@) == server,
        lookup(vars_of(server, api_key, language, model), "API_KEY"@) == api_key,
        lookup(vars_of(server, api_key, language, model), "LANGUAGE"@) == language,
        lookup(vars_of(server, api_key, language, model), "MODEL"@) == model,
{
    let v = vars_of(server, api_key, language, model);
    let b0 = binding("SERVER"@, server);
    let b1 = binding("API_KEY"@, api_key);
    let b2 = binding("LANGUAGE"@, language);
    let b3 = binding("MODEL"@, model);
    assert(v == b0 + b1 + b2 + b3);
    let o1 = b0.len() as int;
    let o2 = o1 + b1.len();
    let o3 = o2 + b2.len();
    assert forall|k: int| 0 <= k < v.len() implies (#[trigger] v[k]).0 == (if k < o1 {
        "SERVER"@
    } else if k < o2 {
        "API_KEY"@
    } else if k < o3 {
        "LANGUAGE"@
    } else {
        "MODEL"@
    }) by {}
    lemma_lookup_at(v, "SERVER"@, 0, o1, server);
    lemma_lookup_at(v, "API_KEY"@, o1, o2, api_key);
    lemma_lookup_at(v, "LANGUAGE"@, o2, o3, language);
    lemma_lookup_at(v, "MODEL"@, o3, v.len() as int, model);
}

/// If no binding before `lo` is `name`, and `name`'s bindings are exactly
/// the one at `lo` (when `value` is given, `hi == lo + 1`) up to `hi`, with
/// none after, the lookup gives `value`.
proof fn lemma_lookup_at(
    v: Seq<(Seq<char>, Seq<char>)>,
    name: Seq<char>,
    lo: int,
    hi: int,
    value: Option<Seq<char>>,
)
    requires
        0 <= lo <= hi <= v.len(),
        forall|k: int| 0 <= k < lo ==> (#[trigger] v[k]).0 != name,
        forall|k: int| hi <= k < v.len() ==> (#[trigger] v[k]).0 != name,
        value is None ==> hi == lo,
        value matches Some(x) ==> hi == lo + 1 && v[lo] == (name, x),
    ensures
        lookup(v, name) == value,
{
    lemma_lookup_skip(v, name, 0, lo);
    if value is None {
        lemma_lookup_none(v, name, hi);
    }
}

proof fn lemma_lookup_skip(v: Seq<(Seq<char>, Seq<char>)>, name: Seq<char>, j: int, lo: int)
    requires
        0 <= j <= lo <= v.len(),
        forall|k: int| 0 <= k < lo ==> (#[trigger] v[k]).0 != name,
    ensures
        lookup_from(v, name, j) == lookup_from(v, name, lo),
    decreases lo - j,
{
    if j < lo {
        lemma_lookup_skip(v, name, j + 1, lo);
    }
}

proof fn lemma_lookup_none(v: Seq<(Seq<char>, Seq<char>)>, name: Seq<char>, j: int)
    requires
        0 <= j <= v.len(),
        forall|k: int| j <= k < v.len() ==> (#[trigger] v[k]).0 != name,
    ensures
        lookup_from(v, name, j) is None,
    decreases v.len() - j,
{
    if j < v.len() {
        lemma_lookup_none(v, name, j + 1);
    }
}

} // verus!
