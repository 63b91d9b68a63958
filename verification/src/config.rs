//! Configuration rules: which file a profile reads, how settings combine,
//! which server a language uses, and which values are acceptable.
//!
//! Reading and writing the configuration file and the environment are done
//! by the caller, which hands the values over as plain strings.
use vstd::prelude::*;
use crate::provider::{parse_url_parts, parse_url_text, parsed_url_parts, url_parse_text, url_parts_view};
use crate::text::{chars_of, opt_str_view, opt_view, str_eq, string_of_range, trim, trim_str};

verus! {

/// Errors in a configuration value.
#[derive(Debug, Clone, PartialEq, Eq)]
pub enum ConfigError {
    /// The server URL does not parse; it is carried.
    InvalidUrl(String),
    /// The server URL's scheme is neither `http` nor `https`; it is carried.
    InvalidScheme(String),
    /// The server URL has no host.
    MissingHost,
    /// The device name is empty.
    EmptyDevice,
}

impl ConfigError {
    /// The error's message.
    pub fn message(&self) -> (r: String)
        ensures
            r@ == match *self {
                ConfigError::InvalidUrl(m) => "Invalid server URL: "@ + m@,
                ConfigError::InvalidScheme(s) => "Invalid server URL scheme: "@ + s@ + " (must be http or https)"@,
                ConfigError::MissingHost => "Server URL must have a host"@,
                ConfigError::EmptyDevice => "Device name cannot be empty"@,
            },
    {
        match self {
            ConfigError::InvalidUrl(m) => crate::text::concat_str("Invalid server URL: ", m.as_str()),
            ConfigError::InvalidScheme(s) => crate::text::concat_str(crate::text::concat_str("Invalid server URL scheme: ", s.as_str()).as_str(), " (must be http or https)"),
            ConfigError::MissingHost => "Server URL must have a host".to_string(),
            ConfigError::EmptyDevice => "Device name cannot be empty".to_string(),
        }
    }
}

/// The configuration file of a profile: `config.<name>.toml`, or
/// `config.toml` without one.
pub open spec fn config_file_name_spec(profile: Option<Seq<char>>) -> Seq<char> {
    match profile {
        Some(name) => "config."@ + name + ".toml"@,
        None => "config.toml"@,
    }
}

/// The configuration file name of a profile.
pub fn config_file_name(profile: Option<&str>) -> (r: String)
    ensures
        r@ == config_file_name_spec(opt_str_view(profile)),
{
    match profile {
        Some(name) => {
            let mut s = "config.".to_string();
            s.append(name);
            s.append(".toml");
            s
        },
        None => "config.toml".to_string(),
    }
}

/// Auto-correction as configured, or (when unset) following progressive
/// typing, as older configurations did.
pub fn effective_auto_correction(auto_correction: Option<bool>, progressive_typing: bool) -> (r: bool)
    ensures
        r == match auto_correction {
            Some(b) => b,
            None => progressive_typing,
        },
{
    match auto_correction {
        Some(b) => b,
        None => progressive_typing,
    }
}

/// The grammar that constrains transcription: none unless bash mode is on;
/// then the custom grammar if set, else the built-in one.
pub fn active_grammar(bash_mode: bool, guided_grammar: Option<&str>, builtin: &str) -> (r: Option<String>)
    ensures
        opt_view(r) == (if !bash_mode {
            None
        } else {
            match guided_grammar {
                Some(g) => Some(g@),
                None => Some(builtin@),
            }
        }),
{
    if !bash_mode {
        return None;
    }
    match guided_grammar {
        Some(g) => Some(g.to_string()),
        None => Some(builtin.to_string()),
    }
}

/// A language-specific speech server.
#[derive(Debug, Clone)]
pub struct LanguageServer {
    /// The server URL.
    pub server: String,
    /// The model to ask for (optional).
    pub model: Option<String>,
}

/// The entry for `language` at or after position `k` (the first one).
pub open spec fn language_entry_from(servers: Seq<(String, LanguageServer)>, language: Seq<char>, k: int) -> Option<LanguageServer>
    decreases servers.len() - k,
{
    if k < 0 || k >= servers.len() {
        None
    } else if servers[k].0@ == language {
        Some(servers[k].1)
    } else {
        language_entry_from(servers, language, k + 1)
    }
}

/// The server and model used for `language`: the language's own server
/// (with its model, or the default model when it names none) when one is
/// configured, else the default server and model.
pub open spec fn resolved_server(
    language: Option<Seq<char>>,
    servers: Seq<(String, LanguageServer)>,
    server: Seq<char>,
    model: Option<Seq<char>>,
) -> (Seq<char>, Option<Seq<char>>) {
    match language {
        Some(lang) => match language_entry_from(servers, lang, 0) {
            Some(ls) => (ls.server@, match ls.model {
                Some(m) => Some(m@),
                None => model,
            }),
            None => (server, model),
        },
        None => (server, model),
    }
}

/// Chooses the server and model for a language.
pub fn resolve_server(
    language: Option<&str>,
    language_servers: &Vec<(String, LanguageServer)>,
    server: &str,
    model: Option<&str>,
) -> (r: (String, Option<String>))
    ensures
        (r.0@, opt_view(r.1)) == resolved_server(opt_str_view(language), language_servers@, server@, opt_str_view(model)),
{
    if let Some(lang) = language {
        let mut k: usize = 0;
        while k < language_servers.len()
            invariant
                k <= language_servers.len(),
                language == Some(lang),
                language_entry_from(language_servers@, lang@, 0) == language_entry_from(
                    language_servers@,
                    lang@,
                    k as int,
                ),
            decreases language_servers.len() - k,
        {
            if str_eq(language_servers[k].0.as_str(), lang) {
                let ls = &language_servers[k].1;
                let m = match &ls.model {
                    Some(m) => Some(m.clone()),
                    None => match model {
                        Some(m) => Some(m.to_string()),
                        None => None,
                    },
                };
                return (ls.server.clone(), m);
            }
            k = k + 1;
        }
    }
    (server.to_string(), match model {
        Some(m) => Some(m.to_string()),
        None => None,
    })
}

/// `s` without trailing `/` characters.
pub open spec fn trim_trailing_slashes(s: Seq<char>) -> Seq<char>
    decreases s.len(),
{
    if s.len() > 0 && s.last() == '/' {
        trim_trailing_slashes(s.drop_last())
    } else {
        s
    }
}

/// Whether a server URL path ends in a `/v1` segment (trailing slashes
/// aside). The transcription path appended to the server starts with `/v1`,
/// so such a server would be asked for `/v1/v1/...`.
pub open spec fn redundant_v1(path: Seq<char>) -> bool {
    let t = trim_trailing_slashes(path);
    t.len() >= 3 && t.skip(t.len() - 3) == "/v1"@
}

/// Whether a server URL path (as `Url::path` gives it) ends in a `/v1`
/// segment.
pub fn server_has_redundant_v1(url_path: &str) -> (r: bool)
    ensures
        r == redundant_v1(url_path@),
{
    let v = chars_of(url_path);
    let mut n: usize = v.len();
    assert(v@.take(n as int) =~= v@);
    while n > 0 && v[n - 1] == '/'
        invariant
            n <= v.len(),
            trim_trailing_slashes(url_path@) == trim_trailing_slashes(v@.take(n as int)),
            v@ == url_path@,
        decreases n,
    {
        assert(v@.take(n - 1) =~= v@.take(n as int).drop_last());
        n = n - 1;
    }
    let ghost t = v@.take(n as int);
    assert(trim_trailing_slashes(t) == t);
    if n < 3 {
        return false;
    }
    proof {
        reveal_strlit("/v1");
        assert(t.skip(t.len() - 3) =~= seq![v@[n - 3], v@[n - 2], v@[n - 1]]);
        assert("/v1"@ =~= seq!['/', 'v', '1']);
    }
    v[n - 3] == '/' && v[n - 2] == 'v' && v[n - 1] == '1'
}

/// Why a server URL is refused, if it is, given what the parser made of it.
pub open spec fn server_url_verdict(url: Seq<char>, parts: Option<(Seq<char>, Option<Seq<char>>)>) -> Option<ConfigRefusal> {
    match parts {
        None => Some(ConfigRefusal::Unparsable(url)),
        Some((scheme, host)) => if scheme != "http"@ && scheme != "https"@ {
            Some(ConfigRefusal::Scheme(scheme))
        } else if host is None {
            Some(ConfigRefusal::NoHost)
        } else {
            None
        },
    }
}

/// Why a configuration value is refused, with the text that the error
/// carries.
pub enum ConfigRefusal {
    Unparsable(Seq<char>),
    Scheme(Seq<char>),
    NoHost,
}

/// The refusal that an error reports, if it is one.
pub open spec fn config_refusal_of(e: ConfigError) -> Option<ConfigRefusal> {
    match e {
        ConfigError::InvalidUrl(u) => Some(ConfigRefusal::Unparsable(u@)),
        ConfigError::InvalidScheme(s) => Some(ConfigRefusal::Scheme(s@)),
        ConfigError::MissingHost => Some(ConfigRefusal::NoHost),
        ConfigError::EmptyDevice => None,
    }
}

/// The verdict on a server URL given its parsed scheme and host (`None`
/// when it did not parse): it must be HTTP or HTTPS and have a host.
pub fn server_url_check(url: &str, parts: Option<(String, Option<String>)>) -> (r: Result<(), ConfigError>)
    ensures
        match server_url_verdict(url@, url_parts_view(parts)) {
            None => r is Ok,
            Some(f) => r matches Err(e) && config_refusal_of(e) == Some(f),
        },
{
    match parts {
        None => Err(ConfigError::InvalidUrl(url.to_string())),
        Some((scheme, host)) => {
            if !str_eq(scheme.as_str(), "http") && !str_eq(scheme.as_str(), "https") {
                Err(ConfigError::InvalidScheme(scheme))
            } else if host.is_none() {
                Err(ConfigError::MissingHost)
            } else {
                Ok(())
            }
        },
    }
}

/// Checks a server URL before it is saved: it parses, is HTTP or HTTPS,
/// and has a host.
pub fn check_server_url(url: &str) -> (r: Result<(), ConfigError>)
    ensures
        match server_url_verdict(url@, parsed_url_parts(url@)) {
            None => r is Ok,
            Some(f) => r matches Err(e) && config_refusal_of(e) == Some(f),
        },
{
    let parts = parse_url_parts(url);
    server_url_check(url, parts)
}

/// Checks a loaded configuration: the server's scheme and host (as parsed)
/// and a non-empty device name.
pub fn validate_config(scheme: &str, has_host: bool, device: &str) -> (r: Result<(), ConfigError>)
    ensures
        (scheme@ != "http"@ && scheme@ != "https"@) ==> (r matches Err(ConfigError::InvalidScheme(s)) && s@ == scheme@),
        (scheme@ == "http"@ || scheme@ == "https"@) && !has_host ==> r == Err::<(), ConfigError>(ConfigError::MissingHost),
        (scheme@ == "http"@ || scheme@ == "https"@) && has_host && device@.len() == 0 ==> r == Err::<(), ConfigError>(ConfigError::EmptyDevice),
        (scheme@ == "http"@ || scheme@ == "https"@) && has_host && device@.len() > 0 ==> r is Ok,
{
    if !str_eq(scheme, "http") && !str_eq(scheme, "https") {
        return Err(ConfigError::InvalidScheme(scheme.to_string()));
    }
    if !has_host {
        return Err(ConfigError::MissingHost);
    }
    if device.is_empty() {
        return Err(ConfigError::EmptyDevice);
    }
    Ok(())
}

/// An optional setting from the environment: trimmed, and unset when empty.
pub fn env_setting(value: &str) -> (r: Option<String>)
    ensures
        opt_view(r) == (if trim(value@).len() == 0 { None } else { Some(trim(value@)) }),
{
    let t = trim_str(value);
    if t.as_str().is_empty() {
        None
    } else {
        Some(t)
    }
}

/// The default profile after `set-profile <name>`: `default` and the empty
/// name clear it.
pub fn profile_choice(name: &str) -> (r: Option<String>)
    ensures
        opt_view(r) == (if name@ == "default"@ || name@.len() == 0 { None } else { Some(name@) }),
{
    if str_eq(name, "default") || name.is_empty() {
        None
    } else {
        Some(name.to_string())
    }
}

/// How a secret is shown: `set (hidden)` for eight characters or fewer,
/// else its first four and last three characters around an ellipsis.
pub open spec fn masked(secret: Seq<char>) -> Seq<char> {
    if secret.len() <= 8 {
        "set (hidden)"@
    } else {
        "set ("@ + secret.take(4) + "…"@ + secret.skip(secret.len() - 3) + ")"@
    }
}

/// Masks a secret for display: keeps a short prefix and suffix, hides the
/// middle.
pub fn mask_secret(secret: &str) -> (r: String)
    ensures
        r@ == masked(secret@),
{
    let v = chars_of(secret);
    if v.len() <= 8 {
        return "set (hidden)".to_string();
    }
    let mut s = "set (".to_string();
    let prefix = string_of_range(&v, 0, 4);
    let suffix = string_of_range(&v, v.len() - 3, v.len());
    s.append(prefix.as_str());
    s.append("…");
    s.append(suffix.as_str());
    s.append(")");
    assert(v@.subrange(0, 4) =~= secret@.take(4));
    assert(v@.subrange(v.len() - 3, v.len() as int) =~= secret@.skip(secret@.len() - 3));
    s
}

/// A masked secret never shows more than seven of its characters, and
/// never its middle: what it shows of a long secret is its first four and
/// last three characters.
pub proof fn law_mask_hides_middle(secret: Seq<char>)
    ensures
        secret.len() <= 8 ==> masked(secret) == "set (hidden)"@,
        secret.len() > 8 ==> masked(secret).len() == "set ("@.len() + 4 + "…"@.len() + 3 + ")"@.len(),
{
}

/// A setting read from a file or the environment: trimmed, and unset when
/// nothing is left.
pub open spec fn trimmed_setting(value: Seq<char>) -> Option<Seq<char>> {
    if trim(value).len() == 0 {
        None
    } else {
        Some(trim(value))
    }
}

/// The profile a run uses: the one named on the command line, else a
/// non-blank `EARS_PROFILE` (as it is), else the stored default (trimmed,
/// when not empty).
pub open spec fn chosen_profile(
    cli: Option<Seq<char>>,
    env: Option<Seq<char>>,
    stored: Option<Seq<char>>,
) -> Option<Seq<char>> {
    match cli {
        Some(p) => Some(p),
        None => match env {
            Some(e) if trim(e).len() > 0 => Some(e),
            _ => match stored {
                Some(s) => trimmed_setting(s),
                None => None,
            },
        },
    }
}

/// Chooses the profile from the command line, the `EARS_PROFILE` variable
/// and the stored default file's contents (`None` for what is absent).
pub fn resolve_profile(cli: Option<&str>, env: Option<&str>, stored: Option<&str>) -> (r: Option<String>)
    ensures
        opt_view(r) == chosen_profile(opt_str_view(cli), opt_str_view(env), opt_str_view(stored)),
{
    if let Some(p) = cli {
        return Some(p.to_string());
    }
    if let Some(e) = env {
        let t = trim_str(e);
        if !t.as_str().is_empty() {
            return Some(e.to_string());
        }
    }
    match stored {
        Some(s) => env_setting(s),
        None => None,
    }
}

/// The default profile named by the stored profile file's contents (`None`
/// when there is no file).
pub fn stored_profile(contents: Option<&str>) -> (r: Option<String>)
    ensures
        opt_view(r) == match opt_str_view(contents) {
            Some(c) => trimmed_setting(c),
            None => None,
        },
{
    match contents {
        Some(c) => env_setting(c),
        None => None,
    }
}

/// The profile a configuration file name belongs to: the part between
/// `config.` and `.toml`.
pub open spec fn profile_of_file(name: Seq<char>) -> Option<Seq<char>> {
    if name.len() >= 7 && name.take(7) == "config."@ && name.len() - 7 >= 5 && name.skip(
        name.len() - 5,
    ) == ".toml"@ {
        Some(name.subrange(7, name.len() - 5))
    } else {
        None
    }
}

/// The profile a configuration file name belongs to, if it is one.
pub fn profile_of_file_name(name: &str) -> (r: Option<String>)
    ensures
        opt_view(r) == profile_of_file(name@),
{
    let v = chars_of(name);
    let n = v.len();
    proof {
        reveal_strlit("config.");
        reveal_strlit(".toml");
    }
    if n < 12 {
        return None;
    }
    let prefix_ok = v[0] == 'c' && v[1] == 'o' && v[2] == 'n' && v[3] == 'f' && v[4] == 'i'
        && v[5] == 'g' && v[6] == '.';
    let suffix_ok = v[n - 5] == '.' && v[n - 4] == 't' && v[n - 3] == 'o' && v[n - 2] == 'm'
        && v[n - 1] == 'l';
    proof {
        assert("config."@ =~= seq!['c', 'o', 'n', 'f', 'i', 'g', '.']);
        assert(".toml"@ =~= seq!['.', 't', 'o', 'm', 'l']);
        if prefix_ok {
            assert(name@.take(7) =~= "config."@);
        }
        if suffix_ok {
            assert(name@.skip(n - 5) =~= ".toml"@);
        }
    }
    if prefix_ok && suffix_ok {
        Some(string_of_range(&v, 7, n - 5))
    } else {
        None
    }
}

/// The URL that `EARS_SERVER` sets, as the URL parser writes it, or the
/// error naming the refused value.
pub open spec fn env_server_result(value: Seq<char>) -> Result<Seq<char>, Seq<char>> {
    match url_parse_text(value) {
        Ok(u) => Ok(u),
        Err(_) => Err("Invalid EARS_SERVER URL: "@ + value),
    }
}

/// Reads the `EARS_SERVER` value: the parsed URL's text, or the error.
pub fn env_server(value: &str) -> (r: Result<String, String>)
    ensures
        match r {
            Ok(u) => env_server_result(value@) == Ok::<Seq<char>, Seq<char>>(u@),
            Err(e) => env_server_result(value@) == Err::<Seq<char>, Seq<char>>(e@),
        },
{
    match parse_url_text(value) {
        Ok(u) => Ok(u),
        Err(_) => {
            let mut m = "Invalid EARS_SERVER URL: ".to_string();
            m.append(value);
            Err(m)
        },
    }
}

/// The settings recovered from the files of the old configuration layout.
#[derive(Debug, Clone, PartialEq, Eq)]
pub struct MigratedSettings {
    /// The server, as the URL parser writes it.
    pub server: Option<String>,
    pub device: Option<String>,
    pub language: Option<String>,
    pub api_key: Option<String>,
    pub model: Option<String>,
    /// Whether anything was recovered (then the new file is written).
    pub any: bool,
}

/// The server an old `server` file names: its trimmed text, when it parses
/// as a URL.
pub open spec fn migrated_server(contents: Option<Seq<char>>) -> Option<Seq<char>> {
    match contents {
        Some(c) => match url_parse_text(trim(c)) {
            Ok(u) => Some(u),
            Err(_) => None,
        },
        None => None,
    }
}

/// A setting an old file holds: its trimmed text, when not empty.
pub open spec fn migrated_value(contents: Option<Seq<char>>) -> Option<Seq<char>> {
    match contents {
        Some(c) => trimmed_setting(c),
        None => None,
    }
}

/// Recovers the settings of the old layout from the contents of its
/// `server`, `device`, `language`, `api_key` and `model` files (`None` for
/// a missing file); `filters_found` tells whether its text filter file was
/// read.
pub fn migrate_settings(
    server: Option<&str>,
    device: Option<&str>,
    language: Option<&str>,
    api_key: Option<&str>,
    model: Option<&str>,
    filters_found: bool,
) -> (r: MigratedSettings)
    ensures
        opt_view(r.server) == migrated_server(opt_str_view(server)),
        opt_view(r.device) == migrated_value(opt_str_view(device)),
        opt_view(r.language) == migrated_value(opt_str_view(language)),
        opt_view(r.api_key) == migrated_value(opt_str_view(api_key)),
        opt_view(r.model) == migrated_value(opt_str_view(model)),
        r.any == (r.server is Some || r.device is Some || r.language is Some || r.api_key is Some
            || r.model is Some || filters_found),
{
    let server = match server {
        Some(s) => {
            let t = trim_str(s);
            match parse_url_text(t.as_str()) {
                Ok(u) => Some(u),
                Err(_) => None,
            }
        },
        None => None,
    };
    let device = stored_profile(device);
    let language = stored_profile(language);
    let api_key = stored_profile(api_key);
    let model = stored_profile(model);
    let any = server.is_some() || device.is_some() || language.is_some() || api_key.is_some()
        || model.is_some() || filters_found;
    MigratedSettings { server, device, language, api_key, model, any }
}

/// Whether `a` comes strictly before `b` in the order of their characters'
/// code points (for UTF-8 text, the order of their bytes, which is how
/// `String`s compare).
pub open spec fn text_lt(a: Seq<char>, b: Seq<char>) -> bool
    decreases a.len(),
{
    if a.len() == 0 {
        b.len() > 0
    } else if b.len() == 0 {
        false
    } else if a[0] != b[0] {
        a[0] < b[0]
    } else {
        text_lt(a.drop_first(), b.drop_first())
    }
}

/// The views of a list of strings.
pub open spec fn names_view(v: Seq<String>) -> Seq<Seq<char>> {
    v.map_values(|s: String| s@)
}

/// Sorts strings in ascending order (`slice::sort` on `String`s).
#[verifier::external_body]
fn sort_names(v: &mut Vec<String>)
    ensures
        names_view(final(v)@).to_multiset() == names_view(old(v)@).to_multiset(),
        forall|i: int, j: int|
            0 <= i < j < final(v)@.len() ==> !text_lt(#[trigger] final(v)@[j]@, #[trigger] final(v)@[i]@),
{
    v.sort();
}

/// The profiles named by a list of file names, in the list's order.
pub open spec fn profiles_in(names: Seq<Seq<char>>) -> Seq<Seq<char>>
    decreases names.len(),
{
    if names.len() == 0 {
        Seq::empty()
    } else {
        let rest = profiles_in(names.drop_last());
        match profile_of_file(names.last()) {
            Some(p) => rest.push(p),
            None => rest,
        }
    }
}

/// The profiles of a configuration directory, given its file names: each
/// `config.<name>.toml` gives `<name>`; sorted.
pub fn list_profiles(file_names: &Vec<String>) -> (r: Vec<String>)
    ensures
        names_view(r@).to_multiset() == profiles_in(names_view(file_names@)).to_multiset(),
        forall|i: int, j: int| 0 <= i < j < r@.len() ==> !text_lt(#[trigger] r@[j]@, #[trigger] r@[i]@),
{
    let mut found: Vec<String> = Vec::new();
    let mut i: usize = 0;
    while i < file_names.len()
        invariant
            i <= file_names@.len(),
            names_view(found@) == profiles_in(names_view(file_names@.take(i as int))),
        decreases file_names@.len() - i,
    {
        let ghost before = names_view(found@);
        match profile_of_file_name(file_names[i].as_str()) {
            Some(p) => {
                let ghost pv = p@;
                found.push(p);
                assert(names_view(found@) =~= before.push(pv));
            },
            None => {},
        }
        i = i + 1;
        assert(names_view(file_names@.take(i as int)).drop_last() =~= names_view(
            file_names@.take(i - 1),
        ));
    }
    assert(file_names@.take(file_names@.len() as int) =~= file_names@);
    sort_names(&mut found);
    found
}

} // verus!
