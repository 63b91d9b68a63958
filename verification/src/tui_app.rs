//! State and key handling of the terminal interface.
//!
//! The interface state changes only here. What must happen outside it
//! (saving the configuration, playing a cue, listing devices, writing an
//! export) is queued as an [`Effect`] for the caller to perform.
use vstd::prelude::*;
use crate::audio::AudioDevice;
use crate::desktop::TypingMode;
use crate::text::{
    chars_of, contains_exec, contains_seq, decimal, decimal_string, opt_view, str_eq,
    str_to_lowercase, string_push, trim, trim_str, unicode_lowercase, words, words_exec,
};
use crate::text_filters::TextFilters;
use crate::tui::{ClickAction, EditableField, LogFilter, Panel, ThemeName};
use crate::provider::{parse_url_text, url_parse_text};

verus! {

/// Work the interface asks of its caller.
#[derive(Debug, Clone, PartialEq, Eq)]
pub enum Effect {
    /// Save the interface's settings to the active configuration file.
    SaveConfig,
    /// Set the cue volume and play a preview cue.
    SetCueVolume(u8),
    /// Apply volume ducking settings.
    DuckSettings { enabled: bool, percent: u8 },
    /// Restore the volume if it is ducked.
    RestoreVolume,
    /// Duck the volume: speech is probable.
    DuckForSpeech,
    /// Play the named audio cue.
    Cue(&'static str),
    /// Fetch the server's model name.
    FetchModel,
    /// List the audio devices and report them with
    /// [`App::open_device_picker_with`].
    ListDevices,
    /// Write the logs to a file (the default location when `None`).
    ExportLogs(Option<String>),
    /// Make the named profile (or the default one) active and load it.
    SwitchProfile(Option<String>),
    /// Copy text to the clipboard.
    CopyToClipboard(String),
}

/// A key of the keyboard.
#[derive(Debug, Clone, Copy, PartialEq, Eq, Structural)]
pub enum Key {
    Char(char),
    Esc,
    Enter,
    Backspace,
    Tab,
    BackTab,
    Left,
    Right,
    Up,
    Down,
    Other,
}

/// The modifier keys held with a key.
#[derive(Debug, Clone, Copy, PartialEq, Eq, Structural)]
pub enum Modifiers {
    /// No modifier.
    Plain,
    /// Shift alone.
    Shift,
    /// Control alone.
    Control,
    /// Any other combination.
    Other,
}

/// A key press.
#[derive(Debug, Clone, Copy, PartialEq, Eq, Structural)]
pub struct KeyPress {
    pub key: Key,
    pub modifiers: Modifiers,
}

/// A rectangle of the screen, in cells.
#[derive(Debug, Clone, Copy, PartialEq, Eq, Structural)]
pub struct Rect {
    pub x: u16,
    pub y: u16,
    pub width: u16,
    pub height: u16,
}

impl Rect {
    /// Whether the cell at column `x`, row `y` lies inside.
    pub open spec fn contains_spec(self, x: u16, y: u16) -> bool {
        self.x <= x && (x as int) < self.x + self.width && self.y <= y && (y as int) < self.y
            + self.height
    }

    /// Whether the cell at column `x`, row `y` lies inside.
    pub fn contains(&self, x: u16, y: u16) -> (r: bool)
        ensures
            r == self.contains_spec(x, y),
    {
        x >= self.x && (x as u32) < (self.x as u32) + (self.width as u32) && y >= self.y && (y as u32)
            < (self.y as u32) + (self.height as u32)
    }
}

/// A clickable region of the screen.
#[derive(Debug, Clone, Copy, PartialEq, Eq, Structural)]
pub struct ClickableRegion {
    pub rect: Rect,
    pub action: ClickAction,
}

/// The settings the interface starts from (from the configuration).
#[derive(Debug, Clone)]
pub struct AppSettings {
    pub server: String,
    pub device: String,
    pub language: Option<String>,
    pub model: Option<String>,
    pub progressive_typing: bool,
    pub auto_correction: bool,
    pub auto_enter: bool,
    pub save_to_clipboard: bool,
    pub duck_enabled: bool,
    pub duck_percent: u8,
    pub bash_mode: bool,
    pub guided_grammar: Option<String>,
    pub cue_volume: u8,
    pub typing_mode: TypingMode,
    pub text_filters: TextFilters,
    pub profile: Option<String>,
    pub available_profiles: Vec<String>,
    pub external_vad_active: bool,
    pub env_server: bool,
    pub env_device: bool,
    pub env_language: bool,
    pub env_model: bool,
}

/// The model name shown until the server reports one.
pub const MODEL_PENDING: &'static str = "(connecting...)";

/// The state of the terminal interface.
pub struct App {
    pub current_panel: Panel,
    pub command_mode: bool,
    pub command_buffer: String,
    pub editing_field: Option<EditableField>,
    pub edit_buffer: String,
    pub tick_count: u64,
    pub model: String,
    pub server: String,
    pub device: String,
    pub language: Option<String>,
    pub logs: Vec<String>,
    pub selected_log: usize,
    pub vad_active: bool,
    pub external_vad_active: bool,
    pub is_speaking: bool,
    pub committed_text: String,
    pub uncommitted_text: String,
    pub progressive_typing: bool,
    pub auto_correction: bool,
    pub auto_enter: bool,
    pub save_to_clipboard: bool,
    pub duck_enabled: bool,
    pub duck_percent: u8,
    pub bash_mode: bool,
    pub guided_grammar: Option<String>,
    pub segments_processed: usize,
    pub avg_latency_ms: u64,
    pub text_filters: TextFilters,
    pub clickable_regions: Vec<ClickableRegion>,
    pub device_picker_open: bool,
    pub device_picker_devices: Vec<AudioDevice>,
    pub device_picker_selected: usize,
    pub device_picker_error: Option<String>,
    pub cue_volume: u8,
    pub typing_mode: TypingMode,
    pub profile: Option<String>,
    pub available_profiles: Vec<String>,
    pub log_filter: LogFilter,
    pub help_overlay_open: bool,
    pub search_mode: bool,
    pub search_buffer: String,
    pub search_matches: Vec<usize>,
    pub search_match_index: usize,
    pub env_server: bool,
    pub env_device: bool,
    pub env_language: bool,
    pub env_model: bool,
    pub total_transcriptions: usize,
    pub successful_transcriptions: usize,
    pub failed_transcriptions: usize,
    pub total_words: usize,
    pub theme_name: ThemeName,
    pub effects: Vec<Effect>,
}

/// The character views of a list of strings.
pub open spec fn texts(v: Seq<String>) -> Seq<Seq<char>> {
    v.map_values(|s: String| s@)
}

/// `a` followed by `b`.
fn concat(a: &str, b: &str) -> (r: String)
    ensures
        r@ == a@ + b@,
{
    let mut s = a.to_string();
    s.append(b);
    s
}

/// `"enabled"` or `"disabled"`.
pub open spec fn status_word(on: bool) -> Seq<char> {
    if on { "enabled"@ } else { "disabled"@ }
}

fn status(on: bool) -> (r: &'static str)
    ensures
        r@ == status_word(on),
{
    if on { "enabled" } else { "disabled" }
}

/// Whether the selection is on the last log line.
pub open spec fn viewing_last(logs: Seq<String>, selected: usize) -> bool {
    logs.len() > 0 && selected == logs.len() - 1
}

/// The selection after a log line is added: it follows the new line when
/// it was on the last one.
pub open spec fn follow_selection(logs: Seq<String>, selected: usize) -> usize {
    if viewing_last(logs, selected) { logs.len() as usize } else { selected }
}

/// The next language in the cycle auto → en → no → auto (any other
/// language returns to auto).
pub open spec fn next_language(lang: Option<Seq<char>>) -> Option<Seq<char>> {
    match lang {
        None => Some("en"@),
        Some(l) => if l == "en"@ { Some("no"@) } else { None },
    }
}

/// `value + delta` kept within 0..=100.
pub open spec fn clamp_percent(value: u8, delta: i16) -> u8 {
    let v = value + delta;
    if v < 0 { 0 } else if v > 100 { 100 } else { v as u8 }
}

/// Adds a log line without moving the selection.
fn log_push(logs: &mut Vec<String>, msg: String)
    ensures
        texts(final(logs)@) == texts(old(logs)@).push(msg@),
        final(logs)@.len() == old(logs)@.len() + 1,
{
    let ghost before = logs@;
    logs.push(msg);
    assert(texts(logs@) =~= texts(before).push(msg@));
}

/// Adds a log line, moving the selection to it when the last line was
/// selected.
fn log_add(logs: &mut Vec<String>, selected: &mut usize, msg: &str)
    ensures
        texts(final(logs)@) == texts(old(logs)@).push(msg@),
        final(logs)@.len() == old(logs)@.len() + 1,
        *final(selected) == follow_selection(old(logs)@, *old(selected)),
{
    let was_last = logs.len() > 0 && *selected == logs.len() - 1;
    log_push(logs, msg.to_string());
    if was_last {
        *selected = logs.len() - 1;
    }
}

/// What an engine event does to the interface: each event changes only the
/// fields named for it, as follows.
#[verifier::opaque]
pub open spec fn event_applied(o: App, f: App, event: crate::streaming_engine::StreamingEvent) -> bool {
    match event {
        crate::streaming_engine::StreamingEvent::SpeechProbable => f == (App { effects: f.effects, ..o }) && f.effects@
            == o.effects@ + seq![Effect::Cue("vad_speech_start"), Effect::DuckForSpeech],
        crate::streaming_engine::StreamingEvent::SpeechStarted => f == (App { is_speaking: f.is_speaking, effects: f.effects, ..o }) && f.is_speaking
            && f.effects@ == o.effects@.push(Effect::Cue("vad_speech_confirm")),
        crate::streaming_engine::StreamingEvent::SpeechEnded => f == (App { is_speaking: f.is_speaking, effects: f.effects, ..o }) && !f.is_speaking
            && f.effects@ == o.effects@ + seq![Effect::Cue("vad_end"), Effect::RestoreVolume],
        crate::streaming_engine::StreamingEvent::TranscriptUpdate { committed, uncommitted } =>
            f == (App { committed_text: committed, uncommitted_text: uncommitted, ..o }),
        crate::streaming_engine::StreamingEvent::SegmentCompleted { text, duration_ms } => {
            &&& f == (App {
                logs: f.logs,
                selected_log: f.selected_log,
                total_transcriptions: f.total_transcriptions,
                successful_transcriptions: f.successful_transcriptions,
                total_words: f.total_words,
                effects: f.effects,
                ..o
            })
            &&& texts(f.logs@) == texts(o.logs@).push(
                "Segment: \""@ + text@ + "\" ("@ + decimal(duration_ms as nat) + "ms)"@,
            )
            &&& f.total_transcriptions == o.total_transcriptions + 1
            &&& f.successful_transcriptions == o.successful_transcriptions + 1
            &&& f.total_words == o.total_words + words(text@).len()
            &&& f.effects@ == if o.save_to_clipboard && text@.len() > 0 {
                o.effects@.push(Effect::CopyToClipboard(text))
            } else {
                o.effects@
            }
        },
        crate::streaming_engine::StreamingEvent::StatsUpdate { segments_processed, avg_latency_ms } =>
            f == (App { segments_processed, avg_latency_ms, ..o }),
        crate::streaming_engine::StreamingEvent::Error(msg) => {
            &&& f == (App {
                logs: f.logs,
                selected_log: f.selected_log,
                total_transcriptions: f.total_transcriptions,
                failed_transcriptions: f.failed_transcriptions,
                ..o
            })
            &&& texts(f.logs@) == texts(o.logs@).push("Streaming error: "@ + msg@)
            &&& f.total_transcriptions == o.total_transcriptions + 1
            &&& f.failed_transcriptions == o.failed_transcriptions + 1
        },
    }
}

/// Stores `x` in `a`.
fn put_one<A>(a: &mut A, x: A)
    ensures
        *final(a) == x,
{
    *a = x;
}

/// Clicking device `i` of a picker: when the picker is open and `i` is one
/// of its devices, that device is chosen (logged and saved) and the picker
/// closes; otherwise nothing changes.
fn device_clicked(
    i: usize,
    open: &mut bool,
    devices: &mut Vec<AudioDevice>,
    highlighted: &mut usize,
    error: &mut Option<String>,
    device: &mut String,
    logs: &mut Vec<String>,
    selected: &mut usize,
    effects: &mut Vec<Effect>,
)
    ensures
        *old(open) && i < old(devices)@.len() ==> {
            let d = old(devices)@[i as int];
            &&& !*final(open)
            &&& final(devices)@.len() == 0
            &&& *final(highlighted) == 0
            &&& *final(error) is None
            &&& final(device)@ == d.name@
            &&& texts(final(logs)@) == texts(old(logs)@).push("Device set to: "@ + d.description@)
            &&& final(effects)@ == old(effects)@.push(Effect::SaveConfig)
            &&& *final(selected) == follow_selection(old(logs)@, *old(selected))
        },
        !(*old(open) && i < old(devices)@.len()) ==> *final(open) == *old(open) && *final(devices) == *old(
            devices,
        ) && *final(highlighted) == *old(highlighted) && *final(error) == *old(error) && *final(device)
            == *old(device) && *final(logs) == *old(logs) && *final(selected) == *old(selected)
            && *final(effects) == *old(effects),
{
    if *open && i < devices.len() {
        let name = devices[i].name.clone();
        let msg = concat("Device set to: ", devices[i].description.as_str());
        *device = name;
        effects.push(Effect::SaveConfig);
        log_add(logs, selected, msg.as_str());
        *open = false;
        *devices = Vec::new();
        *highlighted = 0;
        *error = None;
    }
}

/// Stores `x` in `a` and `y` in `b`.
fn put_pair<A, B>(a: &mut A, b: &mut B, x: A, y: B)
    ensures
        *final(a) == x,
        *final(b) == y,
{
    *a = x;
    *b = y;
}

/// Queues `a`, then `b`.
fn queue_two(effects: &mut Vec<Effect>, a: Effect, b: Effect)
    ensures
        final(effects)@ == old(effects)@ + seq![a, b],
{
    effects.push(a);
    effects.push(b);
    assert(effects@ =~= old(effects)@ + seq![a, b]);
}

/// Queues `e` when `cond` holds.
fn queue_if(effects: &mut Vec<Effect>, cond: bool, e: Effect)
    ensures
        final(effects)@ == if cond { old(effects)@.push(e) } else { old(effects)@ },
{
    if cond {
        effects.push(e);
    }
}

/// Moves a log selection down one line in the Logs panel, not past the end.
fn selection_down(selected: &mut usize, logs: &Vec<String>, panel: Panel)
    ensures
        *final(selected) == (if panel == Panel::Logs && *old(selected) + 1 < logs@.len() {
            (*old(selected) + 1) as usize
        } else {
            *old(selected)
        }),
{
    let len = logs.len();
    if panel == Panel::Logs && len > 0 && *selected < len - 1 {
        *selected = *selected + 1;
    }
}

/// What switching listening on (`on`) or off does to the transcript, the
/// segment count and the queued effects: on clears the first two, off
/// queues restoring the volume.
fn listening_switched(
    on: bool,
    committed: &mut String,
    uncommitted: &mut String,
    segments: &mut usize,
    effects: &mut Vec<Effect>,
)
    ensures
        on ==> final(committed)@.len() == 0 && final(uncommitted)@.len() == 0 && *final(segments) == 0
            && final(effects)@ == old(effects)@,
        !on ==> *final(committed) == *old(committed) && *final(uncommitted) == *old(uncommitted)
            && *final(segments) == *old(segments) && final(effects)@ == old(effects)@.push(Effect::RestoreVolume),
{
    if on {
        *committed = String::new();
        *uncommitted = String::new();
        *segments = 0;
    } else {
        effects.push(Effect::RestoreVolume);
    }
}

/// Moves a language setting on (auto, English, Norwegian, auto), logs it
/// and queues saving the configuration.
fn language_cycled(language: &mut Option<String>, logs: &mut Vec<String>, selected: &mut usize, effects: &mut Vec<Effect>)
    ensures
        opt_view(*final(language)) == next_language(opt_view(*old(language))),
        texts(final(logs)@) == texts(old(logs)@).push(
            "Language set to: "@ + match opt_view(*final(language)) {
                Some(l) => l,
                None => "auto"@,
            },
        ),
        *final(selected) == follow_selection(old(logs)@, *old(selected)),
        final(effects)@ == old(effects)@.push(Effect::SaveConfig),
{
    let next: Option<String> = match &*language {
        None => Some("en".to_string()),
        Some(lang) => if str_eq(lang.as_str(), "en") { Some("no".to_string()) } else { None },
    };
    *language = next;
    let shown: &str = match &*language {
        Some(l) => l.as_str(),
        None => "auto",
    };
    let msg = concat("Language set to: ", shown);
    log_add(logs, selected, msg.as_str());
    effects.push(Effect::SaveConfig);
}

/// Sets a duck percentage (at most 100); when it changes, logs it and
/// queues the new ducking settings and saving the configuration.
fn duck_percent_set(
    pct: &mut u8,
    enabled: bool,
    percent: u8,
    logs: &mut Vec<String>,
    selected: &mut usize,
    effects: &mut Vec<Effect>,
)
    ensures
        *final(pct) == (if percent > 100 { 100 } else { percent }),
        *final(pct) == *old(pct) ==> final(logs)@ == old(logs)@ && final(effects)@ == old(effects)@
            && *final(selected) == *old(selected),
        *final(pct) != *old(pct) ==> texts(final(logs)@) == texts(old(logs)@).push(
            "Duck percent: "@ + decimal(*final(pct) as nat) + "%"@,
        ) && *final(selected) == follow_selection(old(logs)@, *old(selected)) && final(effects)@ == old(
            effects,
        )@ + seq![Effect::DuckSettings { enabled, percent: *final(pct) }, Effect::SaveConfig],
{
    let clamped = if percent > 100 { 100 } else { percent };
    if clamped == *pct {
        return;
    }
    let ghost e0 = effects@;
    *pct = clamped;
    effects.push(Effect::DuckSettings { enabled, percent: clamped });
    let mut msg = concat("Duck percent: ", decimal_string(clamped as u64).as_str());
    msg.append("%");
    log_add(logs, selected, msg.as_str());
    effects.push(Effect::SaveConfig);
    assert(effects@ =~= e0 + seq![Effect::DuckSettings { enabled, percent: clamped }, Effect::SaveConfig]);
}

/// Queues the switch to the profile after `profile` among `profiles`
/// (default → each named profile → default), or logs that there are none.
fn profile_cycled(
    profiles: &Vec<String>,
    profile: &Option<String>,
    logs: &mut Vec<String>,
    selected: &mut usize,
    effects: &mut Vec<Effect>,
)
    ensures
        profiles@.len() == 0 ==> texts(final(logs)@) == texts(old(logs)@).push("No named profiles found"@)
            && final(effects)@ == old(effects)@ && *final(selected) == follow_selection(old(logs)@, *old(selected)),
        profiles@.len() > 0 ==> final(logs)@ == old(logs)@ && *final(selected) == *old(selected),
        profiles@.len() > 0 ==> final(effects)@.len() == old(effects)@.len() + 1,
        profiles@.len() > 0 ==> (final(effects)@.last() matches Effect::SwitchProfile(p) && opt_view(p)
            == next_profile(opt_view(*profile), texts(profiles@))),
{
    if profiles.len() == 0 {
        log_add(logs, selected, "No named profiles found");
        return;
    }
    let ghost names = texts(profiles@);
    let next: Option<String> = match profile {
        None => Some(profiles[0].clone()),
        Some(name) => {
            let mut i: usize = 0;
            let mut found: Option<usize> = None;
            while i < profiles.len()
                invariant
                    i <= profiles@.len(),
                    names == texts(profiles@),
                    found is None ==> forall|j: int| 0 <= j < i ==> names[j] != name@,
                    found matches Some(k) ==> k < profiles@.len() && names[k as int] == name@
                        && forall|j: int| 0 <= j < k ==> names[j] != name@,
                decreases profiles@.len() - i,
            {
                if found.is_none() && crate::text::str_eq(profiles[i].as_str(), name.as_str()) {
                    found = Some(i);
                }
                i = i + 1;
            }
            match found {
                Some(k) => {
                    proof {
                        let c = choose|c: int| 0 <= c < names.len() && names[c] == name@ && forall|j: int|
                            0 <= j < c ==> names[j] != name@;
                        assert(0 <= k < names.len() && names[k as int] == name@);
                        if c < k {
                        } else if c > k {
                            assert(names[k as int] != name@);
                        }
                        assert(c == k);
                    }
                    if k + 1 < profiles.len() {
                        Some(profiles[k + 1].clone())
                    } else {
                        None
                    }
                },
                None => None,
            }
        },
    };
    effects.push(Effect::SwitchProfile(next));
}


/// Logs `<what> enabled|disabled` and queues saving the configuration.
fn report_toggle(logs: &mut Vec<String>, effects: &mut Vec<Effect>, what: &str, on: bool)
    ensures
        texts(final(logs)@) == texts(old(logs)@).push(what@ + status_word(on)),
        final(effects)@ == old(effects)@.push(Effect::SaveConfig),
{
    let msg = concat(what, status(on));
    log_push(logs, msg);
    effects.push(Effect::SaveConfig);
}

/// The positions of the log lines that contain the query, ignoring case,
/// among the first `n` lines.
pub open spec fn search_hits(logs: Seq<Seq<char>>, query: Seq<char>, n: int) -> Seq<usize>
    decreases n,
{
    if n <= 0 {
        Seq::empty()
    } else {
        search_hits(logs, query, n - 1) + if contains_seq(unicode_lowercase(logs[n - 1]), unicode_lowercase(query)) {
            seq![(n - 1) as usize]
        } else {
            Seq::empty()
        }
    }
}

/// The search matches for a query: none for the empty query.
pub open spec fn search_result(logs: Seq<Seq<char>>, query: Seq<char>) -> Seq<usize> {
    if query.len() == 0 { Seq::empty() } else { search_hits(logs, query, logs.len() as int) }
}

/// `s` without its last character (unchanged when empty).
pub open spec fn pop_char(s: Seq<char>) -> Seq<char> {
    if s.len() > 0 { s.drop_last() } else { s }
}

fn popped(s: &String) -> (r: String)
    ensures
        r@ == pop_char(s@),
{
    let v = chars_of(s.as_str());
    if v.len() == 0 {
        String::new()
    } else {
        crate::text::string_of_range(&v, 0, v.len() - 1)
    }
}

fn pushed(s: &String, c: char) -> (r: String)
    ensures
        r@ == s@.push(c),
{
    let mut t = s.clone();
    string_push(&mut t, c);
    t
}

/// What a command typed after `:` does.
pub enum CommandOutcome {
    /// Nothing (an empty command).
    Nothing,
    /// Quit, after logging the given lines.
    Quit(Seq<Seq<char>>),
    /// Keep running after logging the given lines, with the theme and the
    /// logs to export (`Some(None)` for the default place).
    Continue { logged: Seq<Seq<char>>, theme: ThemeName, export: Option<Option<Seq<char>>> },
}

/// What the command `cmd` (already trimmed) does with theme `theme`.
#[verifier::opaque]
pub open spec fn command_outcome(cmd: Seq<char>, theme: ThemeName) -> CommandOutcome {
    if cmd.len() == 0 {
        CommandOutcome::Nothing
    } else if cmd == "q"@ || cmd == "quit"@ {
        CommandOutcome::Quit(Seq::empty())
    } else if cmd == "w"@ || cmd == "write"@ {
        CommandOutcome::Continue { logged: seq!["Configuration saved"@], theme, export: None }
    } else if cmd == "wq"@ {
        CommandOutcome::Quit(seq!["Configuration saved"@])
    } else if cmd == "export"@ {
        CommandOutcome::Continue { logged: Seq::empty(), theme, export: Some(None) }
    } else if cmd.len() >= 7 && cmd.take(7) == "export "@ {
        CommandOutcome::Continue { logged: Seq::empty(), theme, export: Some(Some(trim(cmd.skip(7)))) }
    } else if cmd == "theme"@ {
        let t = match theme { ThemeName::Dark => ThemeName::Light, ThemeName::Light => ThemeName::Dark };
        CommandOutcome::Continue { logged: seq!["Theme: "@ + t.label_spec()], theme: t, export: None }
    } else if cmd.len() >= 6 && cmd.take(6) == "theme "@ {
        let name = trim(cmd.skip(6));
        let lower = unicode_lowercase(name);
        if lower == "dark"@ || lower == "light"@ {
            let t = if lower == "dark"@ { ThemeName::Dark } else { ThemeName::Light };
            CommandOutcome::Continue { logged: seq!["Theme: "@ + t.label_spec()], theme: t, export: None }
        } else {
            CommandOutcome::Continue {
                logged: seq!["Unknown theme: "@ + name + " (available: dark, light)"@],
                theme,
                export: None,
            }
        }
    } else {
        CommandOutcome::Continue { logged: seq!["Unknown command: "@ + cmd], theme, export: None }
    }
}

/// Whether `s` starts with `p`.
fn starts_with_str(s: &str, p: &str) -> (r: bool)
    ensures
        r == (s@.len() >= p@.len() && s@.take(p@.len() as int) == p@),
{
    let v = chars_of(s);
    let w = chars_of(p);
    let b = crate::text::starts_with_range(&v, 0, v.len(), &w);
    assert(v@.subrange(0, v.len() as int) =~= v@);
    proof {
        if v.len() >= w.len() {
            assert(w@.is_prefix_of(v@) <==> v@.take(w@.len() as int) =~= w@);
        }
    }
    b
}

/// Whether `after` is `before` with the export of `export` queued, if any.
pub open spec fn effects_after_export(before: Seq<Effect>, after: Seq<Effect>, export: Option<Option<Seq<char>>>) -> bool {
    match export {
        None => after == before,
        Some(None) => after == before.push(Effect::ExportLogs(None)),
        Some(Some(path)) => {
            &&& after.len() == before.len() + 1
            &&& after.take(before.len() as int) == before
            &&& after.last() matches Effect::ExportLogs(Some(p)) && p@ == path
        },
    }
}

/// The kind of a non-empty command.
pub enum CommandKind {
    Quit,
    Write,
    WriteQuit,
    ExportDefault,
    ExportTo(Seq<char>),
    ThemeToggle,
    ThemeSet(Seq<char>),
    Unknown,
}

/// The kind of the non-empty command `cmd`.
pub open spec fn command_kind(cmd: Seq<char>) -> CommandKind {
    if cmd == "q"@ || cmd == "quit"@ {
        CommandKind::Quit
    } else if cmd == "w"@ || cmd == "write"@ {
        CommandKind::Write
    } else if cmd == "wq"@ {
        CommandKind::WriteQuit
    } else if cmd == "export"@ {
        CommandKind::ExportDefault
    } else if cmd.len() >= 7 && cmd.take(7) == "export "@ {
        CommandKind::ExportTo(trim(cmd.skip(7)))
    } else if cmd == "theme"@ {
        CommandKind::ThemeToggle
    } else if cmd.len() >= 6 && cmd.take(6) == "theme "@ {
        CommandKind::ThemeSet(trim(cmd.skip(6)))
    } else {
        CommandKind::Unknown
    }
}

/// Classifies a non-empty command; the path or theme name is returned for
/// the kinds that carry one.
fn classify_command(cmd: &str) -> (r: (u8, String))
    ensures
        match command_kind(cmd@) {
            CommandKind::Quit => r.0 == 0,
            CommandKind::Write => r.0 == 1,
            CommandKind::WriteQuit => r.0 == 2,
            CommandKind::ExportDefault => r.0 == 3,
            CommandKind::ExportTo(p) => r.0 == 4 && r.1@ == p,
            CommandKind::ThemeToggle => r.0 == 5,
            CommandKind::ThemeSet(n) => r.0 == 6 && r.1@ == n,
            CommandKind::Unknown => r.0 == 7,
        },
{
    if str_eq(cmd, "q") || str_eq(cmd, "quit") {
        (0, String::new())
    } else if str_eq(cmd, "w") || str_eq(cmd, "write") {
        (1, String::new())
    } else if str_eq(cmd, "wq") {
        (2, String::new())
    } else if str_eq(cmd, "export") {
        (3, String::new())
    } else if starts_with_str(cmd, "export ") {
        let v = chars_of(cmd);
        proof {
            reveal_strlit("export ");
        }
        let rest = crate::text::string_of_range(&v, 7, v.len());
        assert(rest@ =~= cmd@.skip(7));
        (4, trim_str(rest.as_str()))
    } else if str_eq(cmd, "theme") {
        (5, String::new())
    } else if starts_with_str(cmd, "theme ") {
        let v = chars_of(cmd);
        proof {
            reveal_strlit("theme ");
        }
        let rest = crate::text::string_of_range(&v, 6, v.len());
        assert(rest@ =~= cmd@.skip(6));
        (6, trim_str(rest.as_str()))
    } else {
        (7, String::new())
    }
}

/// What the non-empty command `cmd` does with theme `theme`.
pub open spec fn kind_outcome(cmd: Seq<char>, kind: CommandKind, theme: ThemeName) -> CommandOutcome {
    match kind {
        CommandKind::Quit => CommandOutcome::Quit(Seq::empty()),
        CommandKind::Write => CommandOutcome::Continue { logged: seq!["Configuration saved"@], theme, export: None },
        CommandKind::WriteQuit => CommandOutcome::Quit(seq!["Configuration saved"@]),
        CommandKind::ExportDefault => CommandOutcome::Continue { logged: Seq::empty(), theme, export: Some(None) },
        CommandKind::ExportTo(p) => CommandOutcome::Continue { logged: Seq::empty(), theme, export: Some(Some(p)) },
        CommandKind::ThemeToggle => {
            let t = match theme { ThemeName::Dark => ThemeName::Light, ThemeName::Light => ThemeName::Dark };
            CommandOutcome::Continue { logged: seq!["Theme: "@ + t.label_spec()], theme: t, export: None }
        },
        CommandKind::ThemeSet(name) => {
            let lower = unicode_lowercase(name);
            if lower == "dark"@ || lower == "light"@ {
                let t = if lower == "dark"@ { ThemeName::Dark } else { ThemeName::Light };
                CommandOutcome::Continue { logged: seq!["Theme: "@ + t.label_spec()], theme: t, export: None }
            } else {
                CommandOutcome::Continue {
                    logged: seq!["Unknown theme: "@ + name + " (available: dark, light)"@],
                    theme,
                    export: None,
                }
            }
        },
        CommandKind::Unknown => CommandOutcome::Continue { logged: seq!["Unknown command: "@ + cmd], theme, export: None },
    }
}

/// Runs a non-empty command; returns whether to keep running.
fn run_command(cmd: &str, theme: &mut ThemeName, logs: &mut Vec<String>, effects: &mut Vec<Effect>) -> (r: bool)
    requires
        cmd@.len() > 0,
    ensures
        final(logs)@.len() >= old(logs)@.len(),
        match kind_outcome(cmd@, command_kind(cmd@), *old(theme)) {
            CommandOutcome::Nothing => false,
            CommandOutcome::Quit(logged) => !r && texts(final(logs)@) == texts(old(logs)@) + logged
                && final(effects)@ == old(effects)@,
            CommandOutcome::Continue { logged, theme: t, export } => {
                &&& r
                &&& texts(final(logs)@) == texts(old(logs)@) + logged
                &&& *final(theme) == t
                &&& effects_after_export(old(effects)@, final(effects)@, export)
            },
        },
{
    let ghost logs0 = texts(logs@);
    let (kind, arg) = classify_command(cmd);
    if kind == 0 {
        return false;
    } else if kind == 1 || kind == 2 {
        log_push(logs, "Configuration saved".to_string());
        assert(texts(logs@) =~= logs0 + seq!["Configuration saved"@]);
        return kind == 1;
    } else if kind == 3 {
        effects.push(Effect::ExportLogs(None));
        assert(texts(logs@) =~= logs0 + Seq::<Seq<char>>::empty());
    } else if kind == 4 {
        let ghost e0 = effects@;
        effects.push(Effect::ExportLogs(Some(arg)));
        assert(effects@.take(e0.len() as int) =~= e0);
        assert(texts(logs@) =~= logs0 + Seq::<Seq<char>>::empty());
    } else if kind == 5 {
        *theme = theme.next();
        let msg = concat("Theme: ", theme.label());
        log_push(logs, msg);
        assert(texts(logs@) =~= logs0 + seq!["Theme: "@ + theme.label_spec()]);
    } else if kind == 6 {
        match ThemeName::parse(arg.as_str()) {
            Some(t) => {
                *theme = t;
                let msg = concat("Theme: ", t.label());
                log_push(logs, msg);
                assert(texts(logs@) =~= logs0 + seq!["Theme: "@ + t.label_spec()]);
            },
            None => {
                let mut msg = concat("Unknown theme: ", arg.as_str());
                msg.append(" (available: dark, light)");
                log_push(logs, msg);
                assert(texts(logs@) =~= logs0 + seq!["Unknown theme: "@ + arg@ + " (available: dark, light)"@]);
            },
        }
    } else {
        let msg = concat("Unknown command: ", cmd);
        log_push(logs, msg);
        assert(texts(logs@) =~= logs0 + seq!["Unknown command: "@ + cmd@]);
    }
    true
}

/// Both descriptions of a command agree.
proof fn lemma_command_outcome(cmd: Seq<char>, theme: ThemeName)
    requires
        cmd.len() > 0,
    ensures
        command_outcome(cmd, theme) == kind_outcome(cmd, command_kind(cmd), theme),
{
    reveal(command_outcome);
}

/// What saving an edited server URL does, given what the URL parser made of
/// it: a URL that parses replaces the server (normalised), resets the model
/// name, is logged, and asks for a save and a model fetch; one that does not
/// is reported and changes nothing else.
pub open spec fn server_edit_applied(
    parsed: Result<Seq<char>, Seq<char>>,
    old_server: Seq<char>,
    new_server: Seq<char>,
    new_model: Seq<char>,
    old_logs: Seq<Seq<char>>,
    new_logs: Seq<Seq<char>>,
    old_effects: Seq<Effect>,
    new_effects: Seq<Effect>,
) -> bool {
    match parsed {
        Ok(u) => {
            &&& new_server == u
            &&& new_model == MODEL_PENDING@
            &&& new_logs == old_logs.push("Server URL set to: "@ + u)
            &&& new_effects == old_effects + seq![Effect::SaveConfig, Effect::FetchModel]
        },
        Err(e) => {
            &&& new_server == old_server
            &&& new_logs == old_logs.push("Invalid URL: "@ + e)
            &&& new_effects == old_effects
        },
    }
}

fn server_edit_message(buffer: &str) -> (r: (Option<String>, String))
    ensures
        match url_parse_text(buffer@) {
            Ok(u) => r.0 matches Some(t) && t@ == u && r.1@ == "Server URL set to: "@ + u,
            Err(e) => r.0 is None && r.1@ == "Invalid URL: "@ + e,
        },
{
    match parse_url_text(buffer) {
        Ok(u) => {
            let msg = concat("Server URL set to: ", u.as_str());
            (Some(u), msg)
        },
        Err(e) => (None, concat("Invalid URL: ", e.as_str())),
    }
}

fn save_edit_fields(
    editing: &mut Option<EditableField>,
    buffer: &mut String,
    server: &mut String,
    model: &mut String,
    logs: &mut Vec<String>,
    selected: &mut usize,
    effects: &mut Vec<Effect>,
)
    ensures
        *final(editing) is None,
        final(buffer)@.len() == 0,
        *old(editing) is Some ==> server_edit_applied(
            url_parse_text(old(buffer)@),
            old(server)@,
            final(server)@,
            final(model)@,
            texts(old(logs)@),
            texts(final(logs)@),
            old(effects)@,
            final(effects)@,
        ),
        *old(editing) is None ==> final(logs)@ == old(logs)@,
        *final(selected) == if viewing_last(old(logs)@, *old(selected)) {
            (final(logs)@.len() - 1) as usize
        } else {
            *old(selected)
        },
{
    let n0 = logs.len();
    let was_last = n0 > 0 && *selected == n0 - 1;
    let ghost logs0 = texts(logs@);
    let ghost e0 = effects@;
    if editing.is_some() {
        let (new_server, msg) = server_edit_message(buffer.as_str());
        match new_server {
            Some(u) => {
                *server = u;
                effects.push(Effect::SaveConfig);
                logs.push(msg);
                *model = MODEL_PENDING.to_string();
                effects.push(Effect::FetchModel);
                assert(effects@ =~= e0 + seq![Effect::SaveConfig, Effect::FetchModel]);
            },
            None => {
                logs.push(msg);
            },
        }
        assert(texts(logs@) =~= logs0.push(msg@));
    }
    *editing = None;
    *buffer = String::new();
    if was_last {
        *selected = logs.len() - 1;
    }
}

/// Leaves a line-editing mode with an empty line.
fn clear_line(mode: &mut bool, line: &mut String)
    ensures
        !*final(mode),
        final(line)@.len() == 0,
{
    *mode = false;
    *line = String::new();
}

/// A key other than Enter in a line-editing mode: characters are added,
/// Backspace removes the last one, Esc leaves the mode with an empty line.
fn edit_line(mode: &mut bool, line: &mut String, key: Key)
    ensures
        key == Key::Esc ==> !*final(mode) && final(line)@.len() == 0,
        key matches Key::Char(c) ==> final(line)@ == old(line)@.push(c) && *final(mode) == *old(mode),
        key == Key::Backspace ==> final(line)@ == pop_char(old(line)@) && *final(mode) == *old(mode),
        !(key == Key::Esc || key is Char || key == Key::Backspace) ==> *final(line) == *old(line)
            && *final(mode) == *old(mode),
{
    match key {
        Key::Esc => {
            *mode = false;
            *line = String::new();
        },
        Key::Char(c) => {
            *line = pushed(line, c);
        },
        Key::Backspace => {
            *line = popped(line);
        },
        _ => {},
    }
}

/// What a key does outside the special modes.
#[derive(Debug, Clone, Copy, PartialEq, Eq, Structural)]
pub enum GlobalAction {
    Quit,
    OpenHelp,
    EnterCommand,
    PrevPanel,
    NextPanel,
    ScrollDown,
    ScrollUp,
    ToggleVad,
    ToggleProgressiveTyping,
    ToggleAutoCorrection,
    ToggleLowercase,
    TogglePunctuation,
    ToggleStrictAlphabet,
    CycleTypingMode,
    ToggleBash,
    CueVolumeUp,
    CueVolumeDown,
    GoToConfiguration,
    CycleLanguage,
    CycleProfile,
    EditServer,
    OpenDevicePicker,
    CycleLogFilter,
    StartSearch,
    NextMatch,
    ToggleAutoEnter,
    ToggleSaveToClipboard,
    ToggleDuck,
    DuckDown,
    DuckUp,
    PrevMatch,
    Nothing,
}

/// The key map outside the special modes, in priority order: some keys act
/// only in some panels, and `n` moves between search matches in the Logs
/// panel (when there are any) but toggles auto-enter in the Configuration
/// panel.
pub open spec fn global_action(panel: Panel, k: KeyPress, has_matches: bool) -> GlobalAction {
    let plain = k.modifiers == Modifiers::Plain;
    let shift = k.modifiers == Modifiers::Shift;
    let config = panel == Panel::Configuration;
    let logs = panel == Panel::Logs;
    let live_or_config = panel == Panel::LiveTranscription || config;
    if (k.key == Key::Char('q') && plain) || (k.key == Key::Esc && plain) || (k.key == Key::Char('c')
        && k.modifiers == Modifiers::Control) {
        GlobalAction::Quit
    } else if k.key == Key::Char('?') && plain {
        GlobalAction::OpenHelp
    } else if k.key == Key::Char(':') && plain {
        GlobalAction::EnterCommand
    } else if (k.key == Key::Char('h') || k.key == Key::Left) && plain {
        GlobalAction::PrevPanel
    } else if (k.key == Key::Char('l') || k.key == Key::Right) && plain {
        GlobalAction::NextPanel
    } else if k.key == Key::Tab && plain {
        GlobalAction::NextPanel
    } else if k.key == Key::BackTab && shift {
        GlobalAction::PrevPanel
    } else if (k.key == Key::Char('j') || k.key == Key::Down) && plain {
        GlobalAction::ScrollDown
    } else if (k.key == Key::Char('k') || k.key == Key::Up) && plain {
        GlobalAction::ScrollUp
    } else if (k.key == Key::Char(' ') || k.key == Key::Char('v')) && plain {
        GlobalAction::ToggleVad
    } else if k.key == Key::Char('t') && plain && live_or_config {
        GlobalAction::ToggleProgressiveTyping
    } else if k.key == Key::Char('a') && plain && live_or_config {
        GlobalAction::ToggleAutoCorrection
    } else if k.key == Key::Char('f') && plain && config {
        GlobalAction::ToggleLowercase
    } else if k.key == Key::Char('p') && plain && config {
        GlobalAction::TogglePunctuation
    } else if k.key == Key::Char('s') && plain && config {
        GlobalAction::ToggleStrictAlphabet
    } else if k.key == Key::Char('m') && plain && config {
        GlobalAction::CycleTypingMode
    } else if k.key == Key::Char('g') && plain {
        if config { GlobalAction::ToggleBash } else { GlobalAction::Nothing }
    } else if (k.key == Key::Char('+') || k.key == Key::Char('=')) && config {
        GlobalAction::CueVolumeUp
    } else if k.key == Key::Char('-') && plain && config {
        GlobalAction::CueVolumeDown
    } else if k.key == Key::Char('c') && plain {
        GlobalAction::GoToConfiguration
    } else if k.key == Key::Char('L') && shift {
        GlobalAction::CycleLanguage
    } else if k.key == Key::Char('P') && shift && config {
        GlobalAction::CycleProfile
    } else if k.key == Key::Char('e') && plain && config {
        GlobalAction::EditServer
    } else if k.key == Key::Char('d') && plain && config {
        GlobalAction::OpenDevicePicker
    } else if k.key == Key::Char('F') && shift && logs {
        GlobalAction::CycleLogFilter
    } else if k.key == Key::Char('/') && plain && logs {
        GlobalAction::StartSearch
    } else if k.key == Key::Char('n') && plain {
        if logs && has_matches {
            GlobalAction::NextMatch
        } else if config {
            GlobalAction::ToggleAutoEnter
        } else {
            GlobalAction::Nothing
        }
    } else if k.key == Key::Char('b') && plain && config {
        GlobalAction::ToggleSaveToClipboard
    } else if k.key == Key::Char('D') && shift {
        GlobalAction::ToggleDuck
    } else if k.key == Key::Char('[') && plain {
        if config { GlobalAction::DuckDown } else { GlobalAction::Nothing }
    } else if k.key == Key::Char(']') && plain {
        if config { GlobalAction::DuckUp } else { GlobalAction::Nothing }
    } else if k.key == Key::Char('N') && shift && logs && has_matches {
        GlobalAction::PrevMatch
    } else {
        GlobalAction::Nothing
    }
}

/// Looks a key up in the key map.
pub fn global_action_of(panel: Panel, k: KeyPress, has_matches: bool) -> (r: GlobalAction)
    ensures
        r == global_action(panel, k, has_matches),
{
    let plain = k.modifiers == Modifiers::Plain;
    let shift = k.modifiers == Modifiers::Shift;
    let config = panel == Panel::Configuration;
    let logs = panel == Panel::Logs;
    let live_or_config = panel == Panel::LiveTranscription || config;
    if (k.key == Key::Char('q') && plain) || (k.key == Key::Esc && plain) || (k.key == Key::Char('c')
        && k.modifiers == Modifiers::Control) {
        GlobalAction::Quit
    } else if k.key == Key::Char('?') && plain {
        GlobalAction::OpenHelp
    } else if k.key == Key::Char(':') && plain {
        GlobalAction::EnterCommand
    } else if (k.key == Key::Char('h') || k.key == Key::Left) && plain {
        GlobalAction::PrevPanel
    } else if (k.key == Key::Char('l') || k.key == Key::Right) && plain {
        GlobalAction::NextPanel
    } else if k.key == Key::Tab && plain {
        GlobalAction::NextPanel
    } else if k.key == Key::BackTab && shift {
        GlobalAction::PrevPanel
    } else if (k.key == Key::Char('j') || k.key == Key::Down) && plain {
        GlobalAction::ScrollDown
    } else if (k.key == Key::Char('k') || k.key == Key::Up) && plain {
        GlobalAction::ScrollUp
    } else if (k.key == Key::Char(' ') || k.key == Key::Char('v')) && plain {
        GlobalAction::ToggleVad
    } else if k.key == Key::Char('t') && plain && live_or_config {
        GlobalAction::ToggleProgressiveTyping
    } else if k.key == Key::Char('a') && plain && live_or_config {
        GlobalAction::ToggleAutoCorrection
    } else if k.key == Key::Char('f') && plain && config {
        GlobalAction::ToggleLowercase
    } else if k.key == Key::Char('p') && plain && config {
        GlobalAction::TogglePunctuation
    } else if k.key == Key::Char('s') && plain && config {
        GlobalAction::ToggleStrictAlphabet
    } else if k.key == Key::Char('m') && plain && config {
        GlobalAction::CycleTypingMode
    } else if k.key == Key::Char('g') && plain {
        if config { GlobalAction::ToggleBash } else { GlobalAction::Nothing }
    } else if (k.key == Key::Char('+') || k.key == Key::Char('=')) && config {
        GlobalAction::CueVolumeUp
    } else if k.key == Key::Char('-') && plain && config {
        GlobalAction::CueVolumeDown
    } else if k.key == Key::Char('c') && plain {
        GlobalAction::GoToConfiguration
    } else if k.key == Key::Char('L') && shift {
        GlobalAction::CycleLanguage
    } else if k.key == Key::Char('P') && shift && config {
        GlobalAction::CycleProfile
    } else if k.key == Key::Char('e') && plain && config {
        GlobalAction::EditServer
    } else if k.key == Key::Char('d') && plain && config {
        GlobalAction::OpenDevicePicker
    } else if k.key == Key::Char('F') && shift && logs {
        GlobalAction::CycleLogFilter
    } else if k.key == Key::Char('/') && plain && logs {
        GlobalAction::StartSearch
    } else if k.key == Key::Char('n') && plain {
        if logs && has_matches {
            GlobalAction::NextMatch
        } else if config {
            GlobalAction::ToggleAutoEnter
        } else {
            GlobalAction::Nothing
        }
    } else if k.key == Key::Char('b') && plain && config {
        GlobalAction::ToggleSaveToClipboard
    } else if k.key == Key::Char('D') && shift {
        GlobalAction::ToggleDuck
    } else if k.key == Key::Char('[') && plain {
        if config { GlobalAction::DuckDown } else { GlobalAction::Nothing }
    } else if k.key == Key::Char(']') && plain {
        if config { GlobalAction::DuckUp } else { GlobalAction::Nothing }
    } else if k.key == Key::Char('N') && shift && logs && has_matches {
        GlobalAction::PrevMatch
    } else {
        GlobalAction::Nothing
    }
}

/// The next position in a cyclic list of `len` items.
pub open spec fn cyclic_next(i: usize, len: usize) -> usize {
    if i + 1 >= len { 0 } else { (i + 1) as usize }
}

/// The previous position in a cyclic list of `len` items.
pub open spec fn cyclic_prev(i: usize, len: usize) -> usize {
    if i == 0 { (len - 1) as usize } else { (i - 1) as usize }
}

/// The profile after `current` in the cycle default → first → … → last →
/// default.
pub open spec fn next_profile(current: Option<Seq<char>>, profiles: Seq<Seq<char>>) -> Option<Seq<char>> {
    match current {
        None => Some(profiles[0]),
        Some(name) => {
            let i = choose|i: int| 0 <= i < profiles.len() && profiles[i] == name && forall|j: int| 0 <= j < i ==> profiles[j] != name;
            if (exists|i: int| 0 <= i < profiles.len() && profiles[i] == name) && i + 1 < profiles.len() {
                Some(profiles[i + 1])
            } else {
                None
            }
        },
    }
}

/// Moves to the next search match (wrapping) and selects its line.
fn next_match(matches: &Vec<usize>, index: &mut usize, selected: &mut usize)
    requires
        matches@.len() > 0,
        *old(index) < matches@.len(),
    ensures
        *final(index) == cyclic_next(*old(index), matches@.len() as usize),
        *final(selected) == matches@[*final(index) as int],
        *final(index) < matches@.len(),
{
    *index = if *index >= matches.len() - 1 { 0 } else { *index + 1 };
    *selected = matches[*index];
}

/// Moves to the previous search match (wrapping) and selects its line.
fn prev_match(matches: &Vec<usize>, index: &mut usize, selected: &mut usize)
    requires
        matches@.len() > 0,
        *old(index) < matches@.len(),
    ensures
        *final(index) == cyclic_prev(*old(index), matches@.len() as usize),
        *final(selected) == matches@[*final(index) as int],
        *final(index) < matches@.len(),
{
    *index = if *index == 0 { matches.len() - 1 } else { *index - 1 };
    *selected = matches[*index];
}

/// The position of the device named `name`, or the first.
fn device_position(devices: &Vec<AudioDevice>, name: &String) -> (r: usize)
    ensures
        devices@.len() > 0 ==> r < devices@.len(),
        (exists|i: int| 0 <= i < devices@.len() && devices@[i].name@ == name@) ==> devices@[r as int].name@ == name@
            && forall|j: int| 0 <= j < r ==> devices@[j].name@ != name@,
        !(exists|i: int| 0 <= i < devices@.len() && devices@[i].name@ == name@) ==> r == 0,
{
    let mut i: usize = 0;
    while i < devices.len()
        invariant
            i <= devices@.len(),
            forall|j: int| 0 <= j < i ==> devices@[j].name@ != name@,
        decreases devices@.len() - i,
    {
        if crate::text::str_eq(devices[i].name.as_str(), name.as_str()) {
            return i;
        }
        i = i + 1;
    }
    0
}

/// Whether an action moves around the interface rather than changing a
/// setting.
pub open spec fn is_navigation(a: GlobalAction) -> bool {
    a == GlobalAction::OpenHelp || a == GlobalAction::EnterCommand || a == GlobalAction::PrevPanel
        || a == GlobalAction::NextPanel || a == GlobalAction::GoToConfiguration || a == GlobalAction::ScrollDown
        || a == GlobalAction::ScrollUp || a == GlobalAction::StartSearch || a == GlobalAction::NextMatch
        || a == GlobalAction::PrevMatch || a == GlobalAction::CycleLogFilter
}

fn is_navigation_exec(a: GlobalAction) -> (r: bool)
    ensures
        r == is_navigation(a),
{
    a == GlobalAction::OpenHelp || a == GlobalAction::EnterCommand || a == GlobalAction::PrevPanel
        || a == GlobalAction::NextPanel || a == GlobalAction::GoToConfiguration || a == GlobalAction::ScrollDown
        || a == GlobalAction::ScrollUp || a == GlobalAction::StartSearch || a == GlobalAction::NextMatch
        || a == GlobalAction::PrevMatch || a == GlobalAction::CycleLogFilter
}

/// What a navigation action does to the interface.
pub open spec fn navigation_done(o: App, f: App, a: GlobalAction) -> bool {
    &&& (a == GlobalAction::OpenHelp ==> f.help_overlay_open)
    &&& (a == GlobalAction::EnterCommand ==> f.command_mode && f.command_buffer@.len() == 0)
    &&& (a == GlobalAction::PrevPanel ==> f.current_panel == o.current_panel.prev_spec())
    &&& (a == GlobalAction::NextPanel ==> f.current_panel == o.current_panel.next_spec())
    &&& (a == GlobalAction::GoToConfiguration ==> f.current_panel == Panel::Configuration)
    &&& (a == GlobalAction::ScrollDown ==> f.selected_log == (if o.current_panel == Panel::Logs && o.selected_log + 1
        < o.logs@.len() {
        (o.selected_log + 1) as usize
    } else {
        o.selected_log
    }))
    &&& (a == GlobalAction::ScrollUp ==> f.selected_log == (if o.current_panel == Panel::Logs && o.selected_log > 0 {
        (o.selected_log - 1) as usize
    } else {
        o.selected_log
    }))
    &&& (a == GlobalAction::StartSearch ==> f.search_mode && f.search_buffer@.len() == 0 && f.search_matches@.len() == 0
        && f.search_match_index == 0)
    &&& (a == GlobalAction::NextMatch ==> f.search_match_index == cyclic_next(o.search_match_index, o.search_matches@.len() as usize)
        && f.selected_log == o.search_matches@[f.search_match_index as int])
    &&& (a == GlobalAction::PrevMatch ==> f.search_match_index == cyclic_prev(o.search_match_index, o.search_matches@.len() as usize)
        && f.selected_log == o.search_matches@[f.search_match_index as int])
    &&& (a == GlobalAction::CycleLogFilter ==> f.log_filter == o.log_filter.next_spec())
}

/// What a setting action does to the interface.
pub open spec fn setting_done(o: App, f: App, a: GlobalAction) -> bool {
    &&& (a == GlobalAction::ToggleVad ==> f.vad_active == !o.vad_active)
    &&& (a == GlobalAction::ToggleProgressiveTyping ==> f.progressive_typing == !o.progressive_typing)
    &&& (a == GlobalAction::ToggleAutoCorrection ==> f.auto_correction == !o.auto_correction)
    &&& (a == GlobalAction::ToggleLowercase ==> f.text_filters.lowercase == !o.text_filters.lowercase)
    &&& (a == GlobalAction::TogglePunctuation ==> f.text_filters.remove_punctuation == !o.text_filters.remove_punctuation)
    &&& (a == GlobalAction::ToggleStrictAlphabet ==> f.text_filters.strict_alphabet == !o.text_filters.strict_alphabet)
    &&& (a == GlobalAction::CycleTypingMode ==> f.typing_mode == o.typing_mode.next_spec())
    &&& (a == GlobalAction::ToggleBash ==> f.bash_mode == !o.bash_mode)
    &&& (a == GlobalAction::CueVolumeUp ==> f.cue_volume == clamp_percent(o.cue_volume, 10i16))
    &&& (a == GlobalAction::CueVolumeDown ==> f.cue_volume == clamp_percent(o.cue_volume, -10i16))
    &&& (a == GlobalAction::CycleLanguage ==> opt_view(f.language) == next_language(opt_view(o.language)))
    &&& (a == GlobalAction::EditServer ==> (o.env_server ==> f.editing_field == o.editing_field)
        && (!o.env_server ==> f.editing_field == Some(EditableField::ServerUrl)))
    &&& (a == GlobalAction::ToggleAutoEnter ==> f.auto_enter == !o.auto_enter)
    &&& (a == GlobalAction::ToggleSaveToClipboard ==> f.save_to_clipboard == !o.save_to_clipboard)
    &&& (a == GlobalAction::ToggleDuck ==> f.duck_enabled == !o.duck_enabled)
    &&& (a == GlobalAction::DuckDown ==> f.duck_percent == clamp_percent(o.duck_percent, -5i16))
    &&& (a == GlobalAction::DuckUp ==> f.duck_percent == clamp_percent(o.duck_percent, 5i16))
    &&& (a == GlobalAction::OpenDevicePicker ==> if o.env_device {
        texts(f.logs@) == texts(o.logs@).push("Cannot change device: set via EARS_DEVICE env var"@)
            && f.effects@ == o.effects@
    } else {
        f.effects@ == o.effects@.push(Effect::ListDevices) && f.logs@ == o.logs@
    })
    &&& (a == GlobalAction::CycleProfile ==> if o.available_profiles@.len() == 0 {
        texts(f.logs@) == texts(o.logs@).push("No named profiles found"@) && f.effects@ == o.effects@
    } else {
        f.effects@.len() == o.effects@.len() + 1 && (f.effects@.last() matches Effect::SwitchProfile(p)
            && opt_view(p) == next_profile(opt_view(o.profile), texts(o.available_profiles@)))
    })
}

/// A key while a field is edited: Esc abandons the edit, Enter saves it
/// (see [`server_edit_applied`]), Backspace deletes the last character and
/// other characters are typed.
#[verifier::opaque]
pub open spec fn edit_key_done(before: App, key: Key, after: App) -> bool {
    &&& key == Key::Esc ==> after.editing_field is None && after.edit_buffer@.len() == 0 && after.logs@
        == before.logs@
    &&& key matches Key::Char(c) ==> after.edit_buffer@ == before.edit_buffer@.push(c) && after.editing_field
        == before.editing_field
    &&& key == Key::Backspace ==> after.edit_buffer@ == pop_char(before.edit_buffer@)
    &&& key == Key::Enter ==> {
        &&& after.editing_field is None
        &&& after.edit_buffer@.len() == 0
        &&& before.editing_field is Some ==> server_edit_applied(
            url_parse_text(before.edit_buffer@),
            before.server@,
            after.server@,
            after.model@,
            texts(before.logs@),
            texts(after.logs@),
            before.effects@,
            after.effects@,
        )
        &&& after.selected_log == if viewing_last(before.logs@, before.selected_log) {
            (after.logs@.len() - 1) as usize
        } else {
            before.selected_log
        }
    }
}

/// A key in the device picker: Esc closes it keeping the device, Enter
/// closes it choosing the highlighted one, `j`/Down and `k`/Up move the
/// highlight around the list. Choosing a device logs it and saves the
/// configuration.
#[verifier::opaque]
pub open spec fn picker_key_done(before: App, key: Key, after: App) -> bool {
    &&& key == Key::Esc ==> !after.device_picker_open && after.device == before.device
    &&& key == Key::Enter ==> !after.device_picker_open
    &&& key == Key::Enter && before.device_picker_devices@.len() > 0 ==> {
        let d = before.device_picker_devices@[before.device_picker_selected as int];
        &&& after.device@ == d.name@
        &&& texts(after.logs@) == texts(before.logs@).push("Device set to: "@ + d.description@)
        &&& after.effects@ == before.effects@.push(Effect::SaveConfig)
        &&& after.selected_log == follow_selection(before.logs@, before.selected_log)
    }
    &&& key == Key::Enter && before.device_picker_devices@.len() == 0 ==> after.logs@ == before.logs@
        && after.device == before.device
    &&& (key == Key::Char('j') || key == Key::Down) && before.device_picker_devices@.len() > 0
        ==> after.device_picker_selected == cyclic_next(
        before.device_picker_selected,
        before.device_picker_devices@.len() as usize,
    ) && after.device_picker_open == before.device_picker_open
    &&& (key == Key::Char('k') || key == Key::Up) && before.device_picker_devices@.len() > 0
        ==> after.device_picker_selected == cyclic_prev(
        before.device_picker_selected,
        before.device_picker_devices@.len() as usize,
    ) && after.device_picker_open == before.device_picker_open
}

/// A key in search mode: Esc abandons the search, Enter leaves search mode
/// on the first match, and characters and Backspace edit the query, the
/// matches following it. The log itself is untouched.
pub open spec fn search_key_done(before: App, key: Key, after: App) -> bool {
    &&& after.logs@ == before.logs@
    &&& after.effects@ == before.effects@
    &&& key == Key::Esc ==> !after.search_mode && after.search_buffer@.len() == 0
        && after.search_matches@.len() == 0 && after.search_match_index == 0 && after.selected_log
        == before.selected_log
    &&& key == Key::Enter ==> !after.search_mode && after.search_matches@ == before.search_matches@ && (
    before.search_matches@.len() > 0 ==> after.search_match_index == 0 && after.selected_log
        == before.search_matches@[0]) && (before.search_matches@.len() == 0 ==> after.selected_log
        == before.selected_log)
    &&& key matches Key::Char(c) ==> after.search_buffer@ == before.search_buffer@.push(c)
        && after.search_matches@ == search_result(texts(before.logs@), after.search_buffer@)
        && after.search_mode == before.search_mode
    &&& key == Key::Backspace ==> after.search_buffer@ == pop_char(before.search_buffer@)
        && after.search_matches@ == search_result(texts(before.logs@), after.search_buffer@)
}

/// A key in command mode (`keep_running` is the answer): Esc abandons the
/// command, Enter runs it (only a quit command stops the interface), and
/// characters and Backspace edit it. What a command does is its
/// [`command_outcome`]: the lines it logs, the theme it sets and the export
/// it queues.
#[verifier::opaque]
pub open spec fn command_key_done(before: App, key: Key, after: App, keep_running: bool) -> bool {
    &&& key != Key::Enter ==> keep_running
    &&& key == Key::Esc ==> !after.command_mode && after.command_buffer@.len() == 0 && after.logs@
        == before.logs@
    &&& key == Key::Enter ==> !after.command_mode && after.command_buffer@.len() == 0 && (!keep_running
        <==> command_outcome(trim(before.command_buffer@), before.theme_name) is Quit)
    &&& key == Key::Enter ==> match command_outcome(trim(before.command_buffer@), before.theme_name) {
        CommandOutcome::Nothing => after.logs@ == before.logs@ && after.effects@ == before.effects@,
        CommandOutcome::Quit(logged) => texts(after.logs@) == texts(before.logs@) + logged,
        CommandOutcome::Continue { logged, theme, export } => {
            &&& texts(after.logs@) == texts(before.logs@) + logged
            &&& after.theme_name == theme
            &&& after.selected_log == (if viewing_last(before.logs@, before.selected_log) {
                (after.logs@.len() - 1) as usize
            } else {
                before.selected_log
            })
            &&& effects_after_export(before.effects@, after.effects@, export)
        },
    }
    &&& key matches Key::Char(c) ==> after.command_buffer@ == before.command_buffer@.push(c)
        && after.command_mode == before.command_mode
    &&& key == Key::Backspace ==> after.command_buffer@ == pop_char(before.command_buffer@)
}

/// The fields a key-map action may change; every other field of the
/// interface stays as it was (`Quit` and `Nothing` change nothing).
pub open spec fn key_frame(o: App, f: App, a: GlobalAction) -> bool {
    match a {
        GlobalAction::OpenHelp => f == (App { help_overlay_open: f.help_overlay_open, ..o }),
        GlobalAction::EnterCommand => f == (App { command_mode: f.command_mode, command_buffer: f.command_buffer, ..o }),
        GlobalAction::PrevPanel => f == (App { current_panel: f.current_panel, ..o }),
        GlobalAction::NextPanel => f == (App { current_panel: f.current_panel, ..o }),
        GlobalAction::GoToConfiguration => f == (App { current_panel: f.current_panel, ..o }),
        GlobalAction::ScrollUp => f == (App { selected_log: f.selected_log, ..o }),
        GlobalAction::ScrollDown => f == (App { selected_log: f.selected_log, ..o }),
        GlobalAction::ToggleVad => f == (App { vad_active: f.vad_active, is_speaking: f.is_speaking, committed_text: f.committed_text, uncommitted_text: f.uncommitted_text, segments_processed: f.segments_processed, logs: f.logs, selected_log: f.selected_log, effects: f.effects, ..o }),
        GlobalAction::CycleLanguage => f == (App { language: f.language, logs: f.logs, selected_log: f.selected_log, effects: f.effects, ..o }),
        GlobalAction::CycleProfile => f == (App { logs: f.logs, selected_log: f.selected_log, effects: f.effects, ..o }),
        GlobalAction::DuckDown => f == (App { duck_percent: f.duck_percent, logs: f.logs, selected_log: f.selected_log, effects: f.effects, ..o }),
        GlobalAction::DuckUp => f == (App { duck_percent: f.duck_percent, logs: f.logs, selected_log: f.selected_log, effects: f.effects, ..o }),
        GlobalAction::StartSearch => f == (App { search_mode: f.search_mode, search_buffer: f.search_buffer, search_matches: f.search_matches, search_match_index: f.search_match_index, ..o }),
        GlobalAction::NextMatch => f == (App { search_match_index: f.search_match_index, selected_log: f.selected_log, ..o }),
        GlobalAction::PrevMatch => f == (App { search_match_index: f.search_match_index, selected_log: f.selected_log, ..o }),
        GlobalAction::CycleLogFilter => f == (App { log_filter: f.log_filter, logs: f.logs, selected_log: f.selected_log, ..o }),
        GlobalAction::ToggleProgressiveTyping => f == (App { progressive_typing: f.progressive_typing, logs: f.logs, selected_log: f.selected_log, effects: f.effects, ..o }),
        GlobalAction::ToggleAutoCorrection => f == (App { auto_correction: f.auto_correction, logs: f.logs, selected_log: f.selected_log, effects: f.effects, ..o }),
        GlobalAction::ToggleLowercase => f == (App { text_filters: f.text_filters, logs: f.logs, selected_log: f.selected_log, effects: f.effects, ..o }),
        GlobalAction::TogglePunctuation => f == (App { text_filters: f.text_filters, logs: f.logs, selected_log: f.selected_log, effects: f.effects, ..o }),
        GlobalAction::ToggleStrictAlphabet => f == (App { text_filters: f.text_filters, logs: f.logs, selected_log: f.selected_log, effects: f.effects, ..o }),
        GlobalAction::CycleTypingMode => f == (App { typing_mode: f.typing_mode, logs: f.logs, selected_log: f.selected_log, effects: f.effects, ..o }),
        GlobalAction::ToggleBash => f == (App { bash_mode: f.bash_mode, logs: f.logs, selected_log: f.selected_log, effects: f.effects, ..o }),
        GlobalAction::CueVolumeUp => f == (App { cue_volume: f.cue_volume, logs: f.logs, selected_log: f.selected_log, effects: f.effects, ..o }),
        GlobalAction::CueVolumeDown => f == (App { cue_volume: f.cue_volume, logs: f.logs, selected_log: f.selected_log, effects: f.effects, ..o }),
        GlobalAction::EditServer => f == (App { editing_field: f.editing_field, edit_buffer: f.edit_buffer, logs: f.logs, selected_log: f.selected_log, ..o }),
        GlobalAction::OpenDevicePicker => f == (App { logs: f.logs, selected_log: f.selected_log, effects: f.effects, ..o }),
        GlobalAction::ToggleAutoEnter => f == (App { auto_enter: f.auto_enter, logs: f.logs, selected_log: f.selected_log, effects: f.effects, ..o }),
        GlobalAction::ToggleSaveToClipboard => f == (App { save_to_clipboard: f.save_to_clipboard, logs: f.logs, selected_log: f.selected_log, effects: f.effects, ..o }),
        GlobalAction::ToggleDuck => f == (App { duck_enabled: f.duck_enabled, logs: f.logs, selected_log: f.selected_log, effects: f.effects, ..o }),
        GlobalAction::Quit => f == o,
        GlobalAction::Nothing => f == o,
    }
}

/// What clicking an action does: exactly what the matching key or method
/// does (the setting it names flips and is logged and saved, the panel, log
/// entry or duck level it names is taken, a device of the open picker
/// becomes the device), and nothing else changes; a click on a device
/// outside the open picker changes nothing.
pub open spec fn click_outcome(before: App, action: ClickAction, after: App) -> bool {
    match action {
        ClickAction::SwitchPanel(p) => clicked_panel(before, p, after),
        ClickAction::ToggleProgressiveTyping => clicked_progressive_typing(before, after),
        ClickAction::ToggleAutoCorrection => clicked_auto_correction(before, after),
        ClickAction::ToggleLowercaseFilter => clicked_lowercase_filter(before, after),
        ClickAction::TogglePunctuationFilter => clicked_punctuation_filter(before, after),
        ClickAction::ToggleStrictAlphabetFilter => clicked_strict_alphabet_filter(before, after),
        ClickAction::ToggleAutoEnter => clicked_auto_enter(before, after),
        ClickAction::ToggleSaveToClipboard => clicked_save_to_clipboard(before, after),
        ClickAction::ToggleVadMode => clicked_vad_mode(before, after),
        ClickAction::ToggleDuck => clicked_duck(before, after),
        ClickAction::SetDuckPercent(p) => clicked_duck_percent(before, p, after),
        ClickAction::CycleTypingMode => clicked_typing_mode(before, after),
        ClickAction::SelectLog(i) => clicked_log(before, i, after),
        ClickAction::SelectDevice(i) => clicked_device(before, i, after),
    }
}

/// What a click on the panel action does (an arm of [`click_outcome`]).
#[verifier::opaque]
pub open spec fn clicked_panel(before: App, p: Panel, after: App) -> bool {
    after == (App { current_panel: p, ..before })
}

/// What a click on the progressive typing action does (an arm of [`click_outcome`]).
#[verifier::opaque]
pub open spec fn clicked_progressive_typing(before: App, after: App) -> bool {
    {
        &&& after == (App { progressive_typing: after.progressive_typing, logs: after.logs, selected_log: after.selected_log, effects: after.effects, ..before })
        &&& after.progressive_typing == !before.progressive_typing
        &&& texts(after.logs@) == texts(before.logs@).push( "Progressive typing "@ + status_word(after.progressive_typing), )
        &&& after.effects@ == before.effects@.push(Effect::SaveConfig)
        &&& after.selected_log == before.selected_log
    }
}

/// What a click on the auto correction action does (an arm of [`click_outcome`]).
#[verifier::opaque]
pub open spec fn clicked_auto_correction(before: App, after: App) -> bool {
    {
        &&& after == (App { auto_correction: after.auto_correction, logs: after.logs, selected_log: after.selected_log, effects: after.effects, ..before })
        &&& after.auto_correction == !before.auto_correction
        &&& texts(after.logs@) == texts(before.logs@).push( "Auto-correction "@ + status_word(after.auto_correction), )
        &&& after.effects@ == before.effects@.push(Effect::SaveConfig)
        &&& after.selected_log == before.selected_log
    }
}

/// What a click on the lowercase filter action does (an arm of [`click_outcome`]).
#[verifier::opaque]
pub open spec fn clicked_lowercase_filter(before: App, after: App) -> bool {
    {
        &&& after == (App { text_filters: after.text_filters, logs: after.logs, selected_log: after.selected_log, effects: after.effects, ..before })
        &&& after.text_filters.lowercase == !before.text_filters.lowercase
        &&& after.text_filters.remove_punctuation == before.text_filters.remove_punctuation
        &&& after.text_filters.strict_alphabet == before.text_filters.strict_alphabet
        &&& texts(after.logs@) == texts(before.logs@).push( "Lowercase filter "@ + status_word(after.text_filters.lowercase), )
        &&& after.effects@ == before.effects@.push(Effect::SaveConfig)
        &&& after.selected_log == before.selected_log
    }
}

/// What a click on the punctuation filter action does (an arm of [`click_outcome`]).
#[verifier::opaque]
pub open spec fn clicked_punctuation_filter(before: App, after: App) -> bool {
    {
        &&& after == (App { text_filters: after.text_filters, logs: after.logs, selected_log: after.selected_log, effects: after.effects, ..before })
        &&& after.text_filters.remove_punctuation == !before.text_filters.remove_punctuation
        &&& after.text_filters.lowercase == before.text_filters.lowercase
        &&& after.text_filters.strict_alphabet == before.text_filters.strict_alphabet
        &&& texts(after.logs@) == texts(before.logs@).push( "Punctuation filter "@ + status_word(after.text_filters.remove_punctuation), )
        &&& after.effects@ == before.effects@.push(Effect::SaveConfig)
        &&& after.selected_log == before.selected_log
    }
}

/// What a click on the strict alphabet filter action does (an arm of [`click_outcome`]).
#[verifier::opaque]
pub open spec fn clicked_strict_alphabet_filter(before: App, after: App) -> bool {
    {
        &&& after == (App { text_filters: after.text_filters, logs: after.logs, selected_log: after.selected_log, effects: after.effects, ..before })
        &&& after.text_filters.strict_alphabet == !before.text_filters.strict_alphabet
        &&& after.text_filters.lowercase == before.text_filters.lowercase
        &&& after.text_filters.remove_punctuation == before.text_filters.remove_punctuation
        &&& texts(after.logs@) == texts(before.logs@).push( "Strict alphabet filter "@ + status_word(after.text_filters.strict_alphabet), )
        &&& after.effects@ == before.effects@.push(Effect::SaveConfig)
        &&& after.selected_log == before.selected_log
    }
}

/// What a click on the auto enter action does (an arm of [`click_outcome`]).
#[verifier::opaque]
pub open spec fn clicked_auto_enter(before: App, after: App) -> bool {
    {
        &&& after == (App { auto_enter: after.auto_enter, logs: after.logs, selected_log: after.selected_log, effects: after.effects, ..before })
        &&& after.auto_enter == !before.auto_enter
        &&& texts(after.logs@) == texts(before.logs@).push( "Auto-enter "@ + status_word(after.auto_enter), )
        &&& after.effects@ == before.effects@.push(Effect::SaveConfig)
        &&& after.selected_log == before.selected_log
    }
}

/// What a click on the save to clipboard action does (an arm of [`click_outcome`]).
#[verifier::opaque]
pub open spec fn clicked_save_to_clipboard(before: App, after: App) -> bool {
    {
        &&& after == (App { save_to_clipboard: after.save_to_clipboard, logs: after.logs, selected_log: after.selected_log, effects: after.effects, ..before })
        &&& after.save_to_clipboard == !before.save_to_clipboard
        &&& texts(after.logs@) == texts(before.logs@).push( "Save to clipboard "@ + status_word(after.save_to_clipboard), )
        &&& after.effects@ == before.effects@.push(Effect::SaveConfig)
        &&& after.selected_log == before.selected_log
    }
}

/// What a click on the vad mode action does (an arm of [`click_outcome`]).
#[verifier::opaque]
pub open spec fn clicked_vad_mode(before: App, after: App) -> bool {
    {
        &&& after == (App { vad_active: after.vad_active, is_speaking: after.is_speaking, committed_text: after.committed_text, uncommitted_text: after.uncommitted_text, segments_processed: after.segments_processed, logs: after.logs, selected_log: after.selected_log, effects: after.effects, ..before })
        &&& after.vad_active == !before.vad_active
        &&& !after.is_speaking
        &&& after.vad_active ==> after.committed_text@.len() == 0 && after.uncommitted_text@.len() == 0 && after.segments_processed == 0 && texts(after.logs@) == texts(before.logs@).push("VAD mode enabled"@) && after.effects@ == before.effects@
        &&& !after.vad_active ==> texts(after.logs@) == texts(before.logs@).push( "VAD mode disabled"@, ) && after.effects@ == before.effects@.push(Effect::RestoreVolume)
        &&& after.selected_log == follow_selection(before.logs@, before.selected_log)
    }
}

/// What a click on the duck action does (an arm of [`click_outcome`]).
#[verifier::opaque]
pub open spec fn clicked_duck(before: App, after: App) -> bool {
    {
        &&& after == (App { duck_enabled: after.duck_enabled, logs: after.logs, selected_log: after.selected_log, effects: after.effects, ..before })
        &&& after.duck_enabled == !before.duck_enabled
        &&& texts(after.logs@) == texts(before.logs@).push( "Volume ducking "@ + status_word(after.duck_enabled), )
        &&& after.effects@ == before.effects@ + seq![Effect::DuckSettings { enabled: after.duck_enabled, percent: before.duck_percent }] + (if after.duck_enabled { Seq::empty() } else { seq![Effect::RestoreVolume] }) + seq![Effect::SaveConfig]
        &&& after.selected_log == follow_selection(before.logs@, before.selected_log)
    }
}

/// What a click on the duck percent action does (an arm of [`click_outcome`]).
#[verifier::opaque]
pub open spec fn clicked_duck_percent(before: App, p: u8, after: App) -> bool {
    {
        &&& after == (App { duck_percent: after.duck_percent, logs: after.logs, selected_log: after.selected_log, effects: after.effects, ..before })
        &&& after.duck_percent == (if p > 100 { 100 } else { p })
        &&& after.duck_percent == before.duck_percent ==> after.logs@ == before.logs@ && after.effects@ == before.effects@
        &&& after.duck_percent != before.duck_percent ==> texts(after.logs@) == texts( before.logs@, ).push("Duck percent: "@ + decimal(after.duck_percent as nat) + "%"@) && after.effects@ == before.effects@ + seq![ Effect::DuckSettings { enabled: before.duck_enabled, percent: after.duck_percent }, Effect::SaveConfig, ]
    }
}

/// What a click on the typing mode action does (an arm of [`click_outcome`]).
#[verifier::opaque]
pub open spec fn clicked_typing_mode(before: App, after: App) -> bool {
    {
        &&& after == (App { typing_mode: after.typing_mode, logs: after.logs, selected_log: after.selected_log, effects: after.effects, ..before })
        &&& after.typing_mode == before.typing_mode.next_spec()
        &&& texts(after.logs@) == texts(before.logs@).push( "Typing mode: "@ + after.typing_mode.display_name_spec(), )
        &&& after.selected_log == follow_selection(before.logs@, before.selected_log)
        &&& after.effects@ == before.effects@.push(Effect::SaveConfig)
    }
}

/// What a click on the log action does (an arm of [`click_outcome`]).
#[verifier::opaque]
pub open spec fn clicked_log(before: App, i: usize, after: App) -> bool {
    after == (App { selected_log: i, ..before })
}

/// What a click on the device action does (an arm of [`click_outcome`]).
#[verifier::opaque]
pub open spec fn clicked_device(before: App, i: usize, after: App) -> bool {
    if before.device_picker_open && i < before.device_picker_devices@.len() {
        let d = before.device_picker_devices@[i as int];
        &&& after == (App {
            device: after.device,
            logs: after.logs,
            selected_log: after.selected_log,
            effects: after.effects,
            device_picker_open: false,
            device_picker_devices: after.device_picker_devices,
            device_picker_selected: 0,
            device_picker_error: None,
            ..before
        })
        &&& after.device@ == d.name@
        &&& after.device_picker_devices@.len() == 0
        &&& texts(after.logs@) == texts(before.logs@).push("Device set to: "@ + d.description@)
        &&& after.effects@ == before.effects@.push(Effect::SaveConfig)
        &&& after.selected_log == follow_selection(before.logs@, before.selected_log)
    } else {
        after == before
    }
}

/// The first of `regions` that holds the point (`x`, `y`).
pub open spec fn first_hit(regions: Seq<ClickableRegion>, x: u16, y: u16, i: int) -> bool {
    &&& 0 <= i < regions.len()
    &&& regions[i].rect.contains_spec(x, y)
    &&& forall|j: int| 0 <= j < i ==> !(#[trigger] regions[j]).rect.contains_spec(x, y)
}

impl App {
    /// Well-formedness: the search position and the picker selection are
    /// within their lists, and the lists are small enough to count.
    pub open spec fn wf(&self) -> bool {
        &&& (self.search_matches@.len() > 0 ==> self.search_match_index < self.search_matches@.len())
        &&& (self.device_picker_devices@.len() > 0 ==> self.device_picker_selected
            < self.device_picker_devices@.len())
    }

    /// The state of an interface that has just started, whatever its
    /// settings: the configuration panel, no mode or overlay open, the two
    /// start-up log lines with the first selected, nothing heard or counted
    /// yet, no click regions, the device picker closed and empty, no search,
    /// the dark theme and no queued effects.
    pub open spec fn fresh(&self) -> bool {
        &&& self.current_panel == Panel::Configuration
        &&& !self.command_mode && self.command_buffer@.len() == 0
        &&& self.editing_field is None && self.edit_buffer@.len() == 0
        &&& self.tick_count == 0
        &&& texts(self.logs@) == seq!["Application started"@, "TUI initialized"@]
        &&& self.selected_log == 0
        &&& !self.vad_active && !self.is_speaking
        &&& self.committed_text@.len() == 0 && self.uncommitted_text@.len() == 0
        &&& self.segments_processed == 0 && self.avg_latency_ms == 0
        &&& self.clickable_regions@.len() == 0
        &&& !self.device_picker_open && self.device_picker_devices@.len() == 0
        &&& self.device_picker_selected == 0 && self.device_picker_error is None
        &&& self.log_filter == LogFilter::All
        &&& !self.help_overlay_open
        &&& !self.search_mode && self.search_buffer@.len() == 0 && self.search_matches@.len() == 0
        &&& self.search_match_index == 0
        &&& self.total_transcriptions == 0 && self.successful_transcriptions == 0
        &&& self.failed_transcriptions == 0 && self.total_words == 0
        &&& self.theme_name == ThemeName::Dark
        &&& self.effects@.len() == 0
    }

    /// The interface state for the given settings.
    pub fn with_settings(s: AppSettings) -> (r: Self)
        ensures
            r.wf(),
            r.fresh(),
            r.server == s.server,
            r.device == s.device,
            r.language == s.language,
            r.model@ == match s.model {
                Some(m) => m@,
                None => MODEL_PENDING@,
            },
            r.progressive_typing == s.progressive_typing,
            r.auto_correction == s.auto_correction,
            r.auto_enter == s.auto_enter,
            r.save_to_clipboard == s.save_to_clipboard,
            r.duck_enabled == s.duck_enabled,
            r.duck_percent == s.duck_percent,
            r.bash_mode == s.bash_mode,
            r.guided_grammar == s.guided_grammar,
            r.cue_volume == s.cue_volume,
            r.typing_mode == s.typing_mode,
            r.text_filters == s.text_filters,
            r.profile == s.profile,
            r.available_profiles == s.available_profiles,
            r.external_vad_active == s.external_vad_active,
            r.env_server == s.env_server,
            r.env_device == s.env_device,
            r.env_language == s.env_language,
            r.env_model == s.env_model,
    {
        let mut logs: Vec<String> = Vec::new();
        logs.push("Application started".to_string());
        logs.push("TUI initialized".to_string());
        assert(texts(logs@) =~= seq!["Application started"@, "TUI initialized"@]);
        let model = match s.model {
            Some(m) => m,
            None => MODEL_PENDING.to_string(),
        };
        App {
            current_panel: Panel::Configuration,
            command_mode: false,
            command_buffer: String::new(),
            editing_field: None,
            edit_buffer: String::new(),
            tick_count: 0,
            model,
            server: s.server,
            device: s.device,
            language: s.language,
            logs,
            selected_log: 0,
            vad_active: false,
            external_vad_active: s.external_vad_active,
            is_speaking: false,
            committed_text: String::new(),
            uncommitted_text: String::new(),
            progressive_typing: s.progressive_typing,
            auto_correction: s.auto_correction,
            auto_enter: s.auto_enter,
            save_to_clipboard: s.save_to_clipboard,
            duck_enabled: s.duck_enabled,
            duck_percent: s.duck_percent,
            bash_mode: s.bash_mode,
            guided_grammar: s.guided_grammar,
            segments_processed: 0,
            avg_latency_ms: 0,
            text_filters: s.text_filters,
            clickable_regions: Vec::new(),
            device_picker_open: false,
            device_picker_devices: Vec::new(),
            device_picker_selected: 0,
            device_picker_error: None,
            cue_volume: s.cue_volume,
            typing_mode: s.typing_mode,
            profile: s.profile,
            available_profiles: s.available_profiles,
            log_filter: LogFilter::All,
            help_overlay_open: false,
            search_mode: false,
            search_buffer: String::new(),
            search_matches: Vec::new(),
            search_match_index: 0,
            env_server: s.env_server,
            env_device: s.env_device,
            env_language: s.env_language,
            env_model: s.env_model,
            total_transcriptions: 0,
            successful_transcriptions: 0,
            failed_transcriptions: 0,
            total_words: 0,
            theme_name: ThemeName::Dark,
            effects: Vec::new(),
        }
    }

    /// The interface state with the default configuration: the local
    /// server, the default device, automatic language and typing mode,
    /// auto-enter on, cues at full volume.
    pub fn new() -> (r: Self)
        ensures
            r.wf(),
            r.fresh(),
            r.server@ == "http://127.0.0.1:8178/"@,
            r.device@ == "default"@,
            r.language is None,
            r.model@ == MODEL_PENDING@,
            !r.progressive_typing && !r.auto_correction,
            r.auto_enter,
            !r.save_to_clipboard,
            !r.duck_enabled && r.duck_percent == 50,
            !r.bash_mode && r.guided_grammar is None,
            r.cue_volume == 100,
            r.typing_mode == TypingMode::Auto,
            !r.text_filters.lowercase && !r.text_filters.remove_punctuation,
            r.text_filters.strict_alphabet && r.text_filters.alphabet_threshold_permille == 500,
            r.profile is None && r.available_profiles@.len() == 0,
            !r.external_vad_active,
            !r.env_server && !r.env_device && !r.env_language && !r.env_model,
    {
        Self::with_settings(
            AppSettings {
                server: "http://127.0.0.1:8178/".to_string(),
                device: "default".to_string(),
                language: None,
                model: None,
                progressive_typing: false,
                auto_correction: false,
                auto_enter: true,
                save_to_clipboard: false,
                duck_enabled: false,
                duck_percent: 50,
                bash_mode: false,
                guided_grammar: None,
                cue_volume: 100,
                typing_mode: TypingMode::Auto,
                text_filters: TextFilters::default(),
                profile: None,
                available_profiles: Vec::new(),
                external_vad_active: false,
                env_server: false,
                env_device: false,
                env_language: false,
                env_model: false,
            },
        )
    }

    /// Takes the queued effects, in order.
    pub fn take_effects(&mut self) -> (r: Vec<Effect>)
        ensures
            r@ == old(self).effects@,
            final(self).effects@.len() == 0,
            final(self).logs@ == old(self).logs@,
            final(self).selected_log == old(self).selected_log,
            final(self).wf() == old(self).wf(),
    {
        let mut r: Vec<Effect> = Vec::new();
        std::mem::swap(&mut r, &mut self.effects);
        r
    }

    /// Adds a log line, following it when the last line was selected.
    pub fn add_log(&mut self, msg: &str)
        requires
            old(self).wf(),
        ensures
            final(self).wf(),
            texts(final(self).logs@) == texts(old(self).logs@).push(msg@),
            final(self).selected_log == follow_selection(old(self).logs@, old(self).selected_log),
            final(self).effects@ == old(self).effects@,
            final(self).current_panel == old(self).current_panel,
            *final(self) == (App { logs: final(self).logs, selected_log: final(self).selected_log, ..*old(self) }),
    {
        log_add(&mut self.logs, &mut self.selected_log, msg);
    }

    /// Recomputes the search matches for the search buffer.
    pub fn update_search_matches(&mut self)
        ensures
            final(self).search_matches@ == search_result(texts(old(self).logs@), old(self).search_buffer@),
            final(self).search_match_index == 0,
            final(self).logs@ == old(self).logs@,
            final(self).selected_log == old(self).selected_log,
            final(self).effects@ == old(self).effects@,
            final(self).search_buffer == old(self).search_buffer,
            final(self).search_mode == old(self).search_mode,
            final(self).device_picker_devices@ == old(self).device_picker_devices@,
            final(self).device_picker_selected == old(self).device_picker_selected,
    {
        let ghost lv = texts(self.logs@);
        let mut matches: Vec<usize> = Vec::new();
        if !self.search_buffer.as_str().is_empty() {
            let q = chars_of(str_to_lowercase(self.search_buffer.as_str()).as_str());
            let mut i: usize = 0;
            while i < self.logs.len()
                invariant
                    i <= self.logs@.len(),
                    lv == texts(self.logs@),
                    q@ == unicode_lowercase(self.search_buffer@),
                    matches@ == search_hits(lv, self.search_buffer@, i as int),
                decreases self.logs@.len() - i,
            {
                let line = chars_of(str_to_lowercase(self.logs[i].as_str()).as_str());
                assert(lv[i as int] == self.logs@[i as int]@);
                if contains_exec(&line, &q) {
                    matches.push(i);
                }
                i = i + 1;
            }
        }
        self.search_matches = matches;
        self.search_match_index = 0;
    }

    /// A key in search mode: characters edit the query (matches follow),
    /// Enter leaves search mode on the first match, Esc abandons the search.
    pub fn handle_search_key(&mut self, key: Key)
        requires
            old(self).wf(),
        ensures
            final(self).wf(),
            search_key_done(*old(self), key, *final(self)),
    {
        match key {
            Key::Esc => {
                self.search_mode = false;
                self.search_buffer = String::new();
                self.search_matches = Vec::new();
                self.search_match_index = 0;
            },
            Key::Enter => {
                self.search_mode = false;
                if self.search_matches.len() > 0 {
                    self.search_match_index = 0;
                    self.selected_log = self.search_matches[0];
                }
            },
            Key::Char(c) => {
                self.search_buffer = pushed(&self.search_buffer, c);
                self.update_search_matches();
            },
            Key::Backspace => {
                self.search_buffer = popped(&self.search_buffer);
                self.update_search_matches();
            },
            _ => {},
        }
    }

    /// Runs the command in the command buffer; returns whether to keep
    /// running.
    pub fn execute_command(&mut self) -> (r: bool)
        requires
            old(self).wf(),
        ensures
            final(self).wf(),
            match command_outcome(trim(old(self).command_buffer@), old(self).theme_name) {
                CommandOutcome::Nothing => r && final(self).logs@ == old(self).logs@
                    && final(self).effects@ == old(self).effects@,
                CommandOutcome::Quit(logged) => !r && texts(final(self).logs@) == texts(old(self).logs@)
                    + logged,
                CommandOutcome::Continue { logged, theme, export } => {
                    &&& r
                    &&& texts(final(self).logs@) == texts(old(self).logs@) + logged
                    &&& final(self).theme_name == theme
                    &&& final(self).selected_log == (if viewing_last(old(self).logs@, old(self).selected_log) {
                        (final(self).logs@.len() - 1) as usize
                    } else {
                        old(self).selected_log
                    })
                    &&& effects_after_export(old(self).effects@, final(self).effects@, export)
                },
            },
    {
        let cmd = trim_str(self.command_buffer.as_str());
        if cmd.as_str().is_empty() {
            proof {
                reveal(command_outcome);
            }
            return true;
        }
        let was_last = self.logs.len() > 0 && self.selected_log == self.logs.len() - 1;
        proof {
            lemma_command_outcome(cmd@, self.theme_name);
        }
        let keep = run_command(cmd.as_str(), &mut self.theme_name, &mut self.logs, &mut self.effects);
        if keep && was_last {
            self.selected_log = self.logs.len() - 1;
        }
        keep
    }

    /// A key in command mode: characters edit the command, Enter runs it and
    /// leaves command mode, Esc abandons it. Returns whether to keep running.
    pub fn handle_command_key(&mut self, key: Key) -> (r: bool)
        requires
            old(self).wf(),
        ensures
            final(self).wf(),
            command_key_done(*old(self), key, *final(self), r),
    {
        proof {
            reveal(command_key_done);
        }
        if key == Key::Enter {
            let keep = self.execute_command();
            clear_line(&mut self.command_mode, &mut self.command_buffer);
            keep
        } else {
            edit_line(&mut self.command_mode, &mut self.command_buffer, key);
            true
        }
    }

    /// Starts editing a field, unless the environment fixes it.
    pub fn start_editing(&mut self, field: EditableField)
        requires
            old(self).wf(),
        ensures
            *final(self) == (App { editing_field: final(self).editing_field, edit_buffer: final(self).edit_buffer, logs: final(self).logs, selected_log: final(self).selected_log, ..*old(self) }),
            final(self).wf(),
            old(self).env_server ==> final(self).editing_field == old(self).editing_field && texts(
                final(self).logs@,
            ) == texts(old(self).logs@).push("Cannot edit: set via EARS_SERVER env var"@),
            !old(self).env_server ==> final(self).editing_field == Some(field) && final(self).edit_buffer
                == old(self).server && final(self).logs@ == old(self).logs@,
            final(self).effects@ == old(self).effects@,
    {
        match field {
            EditableField::ServerUrl => {
                if self.env_server {
                    log_add(&mut self.logs, &mut self.selected_log, "Cannot edit: set via EARS_SERVER env var");
                    return;
                }
            },
        }
        self.editing_field = Some(field);
        self.edit_buffer = self.server.clone();
    }

    /// Saves the edited field: a server URL that parses replaces the server
    /// (in its normalised form) and refreshes the model name; one that does
    /// not is reported. Editing ends either way.
    pub fn save_edit(&mut self)
        requires
            old(self).wf(),
        ensures
            final(self).wf(),
            final(self).editing_field is None,
            final(self).edit_buffer@.len() == 0,
            old(self).editing_field is Some ==> server_edit_applied(
                url_parse_text(old(self).edit_buffer@),
                old(self).server@,
                final(self).server@,
                final(self).model@,
                texts(old(self).logs@),
                texts(final(self).logs@),
                old(self).effects@,
                final(self).effects@,
            ),
            old(self).editing_field is None ==> final(self).logs@ == old(self).logs@,
            final(self).selected_log == if viewing_last(old(self).logs@, old(self).selected_log) {
                (final(self).logs@.len() - 1) as usize
            } else {
                old(self).selected_log
            },
    {
        save_edit_fields(
            &mut self.editing_field,
            &mut self.edit_buffer,
            &mut self.server,
            &mut self.model,
            &mut self.logs,
            &mut self.selected_log,
            &mut self.effects,
        );
    }

    /// A key while editing: characters edit the value, Enter saves it, Esc
    /// abandons it.
    pub fn handle_edit_key(&mut self, key: Key)
        requires
            old(self).wf(),
        ensures
            final(self).wf(),
            edit_key_done(*old(self), key, *final(self)),
    {
        proof {
            reveal(edit_key_done);
        }
        match key {
            Key::Esc => {
                self.editing_field = None;
                self.edit_buffer = String::new();
            },
            Key::Enter => {
                self.save_edit();
            },
            Key::Char(c) => {
                self.edit_buffer = pushed(&self.edit_buffer, c);
            },
            Key::Backspace => {
                self.edit_buffer = popped(&self.edit_buffer);
            },
            _ => {},
        }
    }

    /// Opens the device picker, unless the environment fixes the device:
    /// the devices are listed by the caller.
    pub fn open_device_picker(&mut self)
        requires
            old(self).wf(),
        ensures
            *final(self) == (App { logs: final(self).logs, selected_log: final(self).selected_log, effects: final(self).effects, ..*old(self) }),
            final(self).wf(),
            old(self).env_device ==> texts(final(self).logs@) == texts(old(self).logs@).push(
                "Cannot change device: set via EARS_DEVICE env var"@,
            ) && final(self).effects@ == old(self).effects@,
            !old(self).env_device ==> final(self).effects@ == old(self).effects@.push(Effect::ListDevices)
                && final(self).logs@ == old(self).logs@,
    {
        if self.env_device {
            log_add(&mut self.logs, &mut self.selected_log, "Cannot change device: set via EARS_DEVICE env var");
            return;
        }
        self.effects.push(Effect::ListDevices);
    }

    /// Shows the device picker with the listed devices (the current device
    /// selected, else the first), or with the listing error.
    pub fn open_device_picker_with(&mut self, listed: Result<Vec<AudioDevice>, String>)
        requires
            old(self).wf(),
        ensures
            final(self).wf(),
            final(self).device_picker_open,
            match listed {
                Ok(devices) => {
                    &&& final(self).device_picker_devices@ == devices@
                    &&& (devices@.len() == 0 ==> (final(self).device_picker_error matches Some(e) && e@
                        == "No audio input devices found"@))
                    &&& (devices@.len() > 0 ==> final(self).device_picker_error is None)
                    &&& ((exists|i: int| 0 <= i < devices@.len() && devices@[i].name@ == old(self).device@)
                        ==> devices@[final(self).device_picker_selected as int].name@ == old(self).device@)
                    &&& final(self).logs@ == old(self).logs@
                },
                Err(e) => {
                    &&& final(self).device_picker_devices@.len() == 0
                    &&& final(self).device_picker_error matches Some(m) && m@ == "Failed to list devices: "@ + e@
                    &&& texts(final(self).logs@) == texts(old(self).logs@).push("Failed to list devices: "@ + e@)
                },
            },
    {
        match listed {
            Ok(devices) => {
                self.device_picker_error = if devices.len() == 0 {
                    Some("No audio input devices found".to_string())
                } else {
                    None
                };
                let idx = device_position(&devices, &self.device);
                self.device_picker_devices = devices;
                self.device_picker_selected = idx;
                self.device_picker_open = true;
            },
            Err(e) => {
                let msg = concat("Failed to list devices: ", e.as_str());
                log_push(&mut self.logs, msg.clone());
                self.device_picker_error = Some(msg);
                self.device_picker_devices = Vec::new();
                self.device_picker_selected = 0;
                self.device_picker_open = true;
            },
        }
    }

    /// Closes the device picker without choosing.
    pub fn close_device_picker(&mut self)
        requires
            old(self).wf(),
        ensures
            final(self).wf(),
            !final(self).device_picker_open,
            final(self).device_picker_devices@.len() == 0,
            final(self).device_picker_error is None,
            final(self).logs@ == old(self).logs@,
            final(self).effects@ == old(self).effects@,
            final(self).device == old(self).device,
            final(self).selected_log == old(self).selected_log,
    {
        self.device_picker_open = false;
        self.device_picker_devices = Vec::new();
        self.device_picker_selected = 0;
        self.device_picker_error = None;
    }

    /// Chooses the highlighted device and closes the picker.
    pub fn confirm_device_selection(&mut self)
        requires
            old(self).wf(),
        ensures
            final(self).wf(),
            !final(self).device_picker_open,
            old(self).device_picker_devices@.len() > 0 ==> {
                let d = old(self).device_picker_devices@[old(self).device_picker_selected as int];
                &&& final(self).device@ == d.name@
                &&& texts(final(self).logs@) == texts(old(self).logs@).push("Device set to: "@ + d.description@)
                &&& final(self).effects@ == old(self).effects@.push(Effect::SaveConfig)
                &&& final(self).selected_log == follow_selection(old(self).logs@, old(self).selected_log)
            },
            old(self).device_picker_devices@.len() == 0 ==> final(self).logs@ == old(self).logs@
                && final(self).device == old(self).device,
    {
        if self.device_picker_devices.len() == 0 {
            self.close_device_picker();
            return;
        }
        let idx = self.device_picker_selected;
        let name = self.device_picker_devices[idx].name.clone();
        let msg = concat("Device set to: ", self.device_picker_devices[idx].description.as_str());
        self.device = name;
        self.effects.push(Effect::SaveConfig);
        log_add(&mut self.logs, &mut self.selected_log, msg.as_str());
        self.close_device_picker();
    }

    /// A key in the device picker: `j`/Down and `k`/Up move the highlight
    /// (wrapping), Enter chooses, Esc closes.
    pub fn handle_device_picker_key(&mut self, key: Key)
        requires
            old(self).wf(),
        ensures
            final(self).wf(),
            picker_key_done(*old(self), key, *final(self)),
    {
        proof {
            reveal(picker_key_done);
        }
        match key {
            Key::Esc => {
                self.close_device_picker();
            },
            Key::Enter => {
                self.confirm_device_selection();
            },
            Key::Char('j') | Key::Down => {
                if self.device_picker_devices.len() > 0 {
                    self.device_picker_selected = if self.device_picker_selected + 1 >= self.device_picker_devices.len() {
                        0
                    } else {
                        self.device_picker_selected + 1
                    };
                }
            },
            Key::Char('k') | Key::Up => {
                if self.device_picker_devices.len() > 0 {
                    self.device_picker_selected = if self.device_picker_selected == 0 {
                        self.device_picker_devices.len() - 1
                    } else {
                        self.device_picker_selected - 1
                    };
                }
            },
            _ => {},
        }
    }

    /// Moves to the next configuration profile (default → each named
    /// profile → default); the caller activates and loads it.
    #[verifier::spinoff_prover]
    #[verifier::rlimit(60)]
    pub fn cycle_profile(&mut self)
        requires
            old(self).wf(),
        ensures
            *final(self) == (App { logs: final(self).logs, selected_log: final(self).selected_log, effects: final(self).effects, ..*old(self) }),
            final(self).wf(),
            old(self).available_profiles@.len() == 0 ==> texts(final(self).logs@) == texts(old(self).logs@).push(
                "No named profiles found"@,
            ) && final(self).effects@ == old(self).effects@,
            old(self).available_profiles@.len() > 0 ==> final(self).logs@ == old(self).logs@,
            old(self).available_profiles@.len() > 0 ==> final(self).effects@.len() == old(self).effects@.len() + 1,
            old(self).available_profiles@.len() > 0 ==> (final(self).effects@.last() matches Effect::SwitchProfile(p)
                && opt_view(p) == next_profile(opt_view(old(self).profile), texts(old(self).available_profiles@))),
    {
        profile_cycled(&self.available_profiles, &self.profile, &mut self.logs, &mut self.selected_log, &mut self.effects);
    }

    /// Takes the settings of the profile that became active.
    pub fn apply_profile(&mut self, profile: Option<String>, s: AppSettings)
        requires
            old(self).wf(),
        ensures
            final(self).wf(),
            final(self).profile == profile,
            final(self).server == s.server,
            final(self).device == s.device,
            final(self).language == s.language,
            final(self).model@ == match s.model {
                Some(m) => m@,
                None => MODEL_PENDING@,
            },
            final(self).progressive_typing == s.progressive_typing,
            final(self).auto_correction == s.auto_correction,
            final(self).duck_percent == s.duck_percent,
            texts(final(self).logs@) == texts(old(self).logs@).push(
                "Profile switched to: "@ + match profile {
                    Some(p) => p@,
                    None => "default"@,
                },
            ),
            final(self).effects@ == old(self).effects@.push(
                Effect::DuckSettings { enabled: s.duck_enabled, percent: final(self).duck_percent },
            ),
    {
        let msg = concat(
            "Profile switched to: ",
            match &profile {
                Some(p) => p.as_str(),
                None => "default",
            },
        );
        self.server = s.server;
        self.device = s.device;
        self.language = s.language;
        self.model = match s.model {
            Some(m) => m,
            None => MODEL_PENDING.to_string(),
        };
        self.text_filters = s.text_filters;
        self.typing_mode = s.typing_mode;
        self.progressive_typing = s.progressive_typing;
        self.save_to_clipboard = s.save_to_clipboard;
        self.auto_correction = s.auto_correction;
        self.auto_enter = s.auto_enter;
        self.duck_enabled = s.duck_enabled;
        self.duck_percent = s.duck_percent;
        self.effects.push(Effect::DuckSettings { enabled: self.duck_enabled, percent: self.duck_percent });
        self.profile = profile;
        log_add(&mut self.logs, &mut self.selected_log, msg.as_str());
    }

    /// Performs a key-map action; returns whether to keep running.
    #[verifier::spinoff_prover]
    #[verifier::rlimit(60)]
    pub fn apply_global(&mut self, action: GlobalAction) -> (r: bool)
        requires
            old(self).wf(),
            action == GlobalAction::NextMatch || action == GlobalAction::PrevMatch ==> old(self).search_matches@.len() > 0,
        ensures
            final(self).wf(),
            r == (action != GlobalAction::Quit),
            action == GlobalAction::Quit || action == GlobalAction::Nothing ==> final(self).logs@ == old(self).logs@
                && final(self).effects@ == old(self).effects@ && final(self).current_panel == old(self).current_panel,
            is_navigation(action) ==> navigation_done(*old(self), *final(self), action),
            !is_navigation(action) ==> setting_done(*old(self), *final(self), action),
            key_frame(*old(self), *final(self), action),
    {
        if action == GlobalAction::Quit {
            return false;
        }
        if action == GlobalAction::Nothing {
            return true;
        }
        if is_navigation_exec(action) {
            self.apply_navigation(action);
        } else {
            self.apply_setting(action);
        }
        true
    }

    /// Performs a navigation action.
    #[verifier::spinoff_prover]
    #[verifier::rlimit(100)]
    pub fn apply_navigation(&mut self, action: GlobalAction)
        requires
            old(self).wf(),
            is_navigation(action),
            action == GlobalAction::NextMatch || action == GlobalAction::PrevMatch ==> old(self).search_matches@.len() > 0,
        ensures
            final(self).wf(),
            navigation_done(*old(self), *final(self), action),
            key_frame(*old(self), *final(self), action),
    {
        if action == GlobalAction::PrevPanel || action == GlobalAction::NextPanel || action == GlobalAction::GoToConfiguration {
            self.navigate_panels(action);
        } else if action == GlobalAction::OpenHelp || action == GlobalAction::EnterCommand || action == GlobalAction::StartSearch {
            self.navigate_modes(action);
        } else if action == GlobalAction::ScrollDown || action == GlobalAction::ScrollUp || action == GlobalAction::CycleLogFilter {
            self.navigate_log(action);
        } else {
            self.navigate_matches(action);
        }
    }

    #[verifier::spinoff_prover]
    #[verifier::rlimit(60)]
    fn navigate_panels(&mut self, action: GlobalAction)
        requires
            old(self).wf(),
            action == GlobalAction::PrevPanel || action == GlobalAction::NextPanel || action == GlobalAction::GoToConfiguration,
            action == GlobalAction::NextMatch || action == GlobalAction::PrevMatch ==> old(self).search_matches@.len() > 0,
        ensures
            final(self).wf(),
            navigation_done(*old(self), *final(self), action),
            key_frame(*old(self), *final(self), action),
    {
        match action {
            GlobalAction::PrevPanel => {
                let p = self.current_panel.prev();
                self.show_panel(p);
            },
            GlobalAction::NextPanel => {
                let p = self.current_panel.next();
                self.show_panel(p);
            },
            GlobalAction::GoToConfiguration => self.show_panel(Panel::Configuration),
            _ => {
                assert(false);
            },
        }
    }

    #[verifier::spinoff_prover]
    #[verifier::rlimit(60)]
    fn navigate_modes(&mut self, action: GlobalAction)
        requires
            old(self).wf(),
            action == GlobalAction::OpenHelp || action == GlobalAction::EnterCommand || action == GlobalAction::StartSearch,
            action == GlobalAction::NextMatch || action == GlobalAction::PrevMatch ==> old(self).search_matches@.len() > 0,
        ensures
            final(self).wf(),
            navigation_done(*old(self), *final(self), action),
            key_frame(*old(self), *final(self), action),
    {
        match action {
            GlobalAction::OpenHelp => self.open_help(),
            GlobalAction::EnterCommand => self.enter_command_mode(),
            GlobalAction::StartSearch => self.start_search(),
            _ => {
                assert(false);
            },
        }
    }

    #[verifier::spinoff_prover]
    #[verifier::rlimit(100)]
    fn navigate_log(&mut self, action: GlobalAction)
        requires
            old(self).wf(),
            action == GlobalAction::ScrollDown || action == GlobalAction::ScrollUp || action == GlobalAction::CycleLogFilter,
            action == GlobalAction::NextMatch || action == GlobalAction::PrevMatch ==> old(self).search_matches@.len() > 0,
        ensures
            final(self).wf(),
            navigation_done(*old(self), *final(self), action),
            key_frame(*old(self), *final(self), action),
    {
        match action {
            GlobalAction::ScrollDown => self.scroll_down(),
            GlobalAction::ScrollUp => self.scroll_up(),
            GlobalAction::CycleLogFilter => self.cycle_log_filter(),
            _ => {
                assert(false);
            },
        }
    }

    #[verifier::spinoff_prover]
    #[verifier::rlimit(60)]
    fn navigate_matches(&mut self, action: GlobalAction)
        requires
            old(self).wf(),
            action == GlobalAction::NextMatch || action == GlobalAction::PrevMatch,
            action == GlobalAction::NextMatch || action == GlobalAction::PrevMatch ==> old(self).search_matches@.len() > 0,
        ensures
            final(self).wf(),
            navigation_done(*old(self), *final(self), action),
            key_frame(*old(self), *final(self), action),
    {
        match action {
            GlobalAction::NextMatch => self.goto_next_match(),
            GlobalAction::PrevMatch => self.goto_prev_match(),
            _ => {
                assert(false);
            },
        }
    }

    /// Opens the help overlay.
    pub fn open_help(&mut self)
        ensures
            *final(self) == (App { help_overlay_open: final(self).help_overlay_open, ..*old(self) }),
            final(self).help_overlay_open,
            final(self).wf() == old(self).wf(),
    {
        self.help_overlay_open = true;
    }

    /// Enters command mode with an empty command.
    pub fn enter_command_mode(&mut self)
        ensures
            *final(self) == (App { command_mode: final(self).command_mode, command_buffer: final(self).command_buffer, ..*old(self) }),
            final(self).command_mode,
            final(self).command_buffer@.len() == 0,
            final(self).wf() == old(self).wf(),
    {
        self.command_mode = true;
        self.command_buffer = String::new();
    }

    /// Shows a panel.
    #[verifier::spinoff_prover]
    #[verifier::rlimit(60)]
    pub fn show_panel(&mut self, p: Panel)
        ensures
            *final(self) == (App { current_panel: final(self).current_panel, ..*old(self) }),
            final(self).current_panel == p,
            final(self).wf() == old(self).wf(),
    {
        self.current_panel = p;
    }

    /// Starts a log search with an empty query.
    pub fn start_search(&mut self)
        requires
            old(self).wf(),
        ensures
            *final(self) == (App { search_mode: final(self).search_mode, search_buffer: final(self).search_buffer, search_matches: final(self).search_matches, search_match_index: final(self).search_match_index, ..*old(self) }),
            final(self).search_mode,
            final(self).search_buffer@.len() == 0,
            final(self).search_matches@.len() == 0,
            final(self).search_match_index == 0,
            final(self).wf(),
    {
        self.search_mode = true;
        self.search_buffer = String::new();
        self.search_matches = Vec::new();
        self.search_match_index = 0;
    }

    /// Selects the next search match (wrapping).
    pub fn goto_next_match(&mut self)
        requires
            old(self).wf(),
            old(self).search_matches@.len() > 0,
        ensures
            *final(self) == (App { search_match_index: final(self).search_match_index, selected_log: final(self).selected_log, ..*old(self) }),
            final(self).wf(),
            final(self).search_match_index == cyclic_next(old(self).search_match_index, old(self).search_matches@.len() as usize),
            final(self).selected_log == old(self).search_matches@[final(self).search_match_index as int],
    {
        next_match(&self.search_matches, &mut self.search_match_index, &mut self.selected_log);
    }

    /// Selects the previous search match (wrapping).
    pub fn goto_prev_match(&mut self)
        requires
            old(self).wf(),
            old(self).search_matches@.len() > 0,
        ensures
            *final(self) == (App { search_match_index: final(self).search_match_index, selected_log: final(self).selected_log, ..*old(self) }),
            final(self).wf(),
            final(self).search_match_index == cyclic_prev(old(self).search_match_index, old(self).search_matches@.len() as usize),
            final(self).selected_log == old(self).search_matches@[final(self).search_match_index as int],
    {
        prev_match(&self.search_matches, &mut self.search_match_index, &mut self.selected_log);
    }

    /// Cycles the log filter and logs the new one.
    pub fn cycle_log_filter(&mut self)
        requires
            old(self).wf(),
        ensures
            *final(self) == (App { log_filter: final(self).log_filter, logs: final(self).logs, selected_log: final(self).selected_log, ..*old(self) }),
            final(self).wf(),
            final(self).log_filter == old(self).log_filter.next_spec(),
            texts(final(self).logs@) == texts(old(self).logs@).push("Log filter: "@ + match final(self).log_filter {
                LogFilter::All => "All"@,
                LogFilter::Errors => "Errors"@,
                LogFilter::Warnings => "Warnings"@,
            }),
    {
        self.log_filter = self.log_filter.next();
        let msg = concat("Log filter: ", self.log_filter.label());
        log_add(&mut self.logs, &mut self.selected_log, msg.as_str());
    }

    /// Performs an action that changes a setting.
    #[verifier::spinoff_prover]
    #[verifier::rlimit(60)]
    pub fn apply_setting(&mut self, action: GlobalAction)
        requires
            old(self).wf(),
            !is_navigation(action),
        ensures
            final(self).wf(),
            setting_done(*old(self), *final(self), action),
            key_frame(*old(self), *final(self), action),
    {
        match action {
            GlobalAction::ToggleVad | GlobalAction::ToggleProgressiveTyping | GlobalAction::ToggleAutoCorrection
            | GlobalAction::ToggleLowercase | GlobalAction::TogglePunctuation | GlobalAction::ToggleStrictAlphabet
            | GlobalAction::CycleTypingMode | GlobalAction::ToggleBash | GlobalAction::CueVolumeUp
            | GlobalAction::CueVolumeDown => self.apply_transcription_setting(action),
            _ => self.apply_other_setting(action),
        }
    }

    #[verifier::spinoff_prover]
    #[verifier::rlimit(60)]
    fn apply_transcription_setting(&mut self, action: GlobalAction)
        requires
            old(self).wf(),
            action == GlobalAction::ToggleVad || action == GlobalAction::ToggleProgressiveTyping
                || action == GlobalAction::ToggleAutoCorrection || action == GlobalAction::ToggleLowercase
                || action == GlobalAction::TogglePunctuation || action == GlobalAction::ToggleStrictAlphabet
                || action == GlobalAction::CycleTypingMode || action == GlobalAction::ToggleBash
                || action == GlobalAction::CueVolumeUp || action == GlobalAction::CueVolumeDown,
        ensures
            final(self).wf(),
            setting_done(*old(self), *final(self), action),
            key_frame(*old(self), *final(self), action),
    {
        match action {
            GlobalAction::ToggleVad => self.toggle_vad_mode(),
            GlobalAction::ToggleProgressiveTyping => self.toggle_progressive_typing(),
            GlobalAction::ToggleAutoCorrection => self.toggle_auto_correction(),
            GlobalAction::ToggleLowercase => self.toggle_lowercase_filter(),
            GlobalAction::TogglePunctuation => self.toggle_punctuation_filter(),
            GlobalAction::ToggleStrictAlphabet => self.toggle_strict_alphabet_filter(),
            GlobalAction::CycleTypingMode => self.cycle_typing_mode(),
            GlobalAction::ToggleBash => self.toggle_bash_mode(),
            GlobalAction::CueVolumeUp => self.adjust_cue_volume(10),
            GlobalAction::CueVolumeDown => self.adjust_cue_volume(-10),
            _ => {
                assert(false);
            },
        }
    }

    #[verifier::spinoff_prover]
    #[verifier::rlimit(60)]
    fn apply_other_setting(&mut self, action: GlobalAction)
        requires
            old(self).wf(),
            !is_navigation(action),
            !(action == GlobalAction::ToggleVad || action == GlobalAction::ToggleProgressiveTyping
                || action == GlobalAction::ToggleAutoCorrection || action == GlobalAction::ToggleLowercase
                || action == GlobalAction::TogglePunctuation || action == GlobalAction::ToggleStrictAlphabet
                || action == GlobalAction::CycleTypingMode || action == GlobalAction::ToggleBash
                || action == GlobalAction::CueVolumeUp || action == GlobalAction::CueVolumeDown),
        ensures
            final(self).wf(),
            setting_done(*old(self), *final(self), action),
            key_frame(*old(self), *final(self), action),
    {
        match action {
            GlobalAction::CycleLanguage => self.cycle_language(),
            GlobalAction::CycleProfile => self.cycle_profile(),
            GlobalAction::EditServer => self.start_editing(EditableField::ServerUrl),
            GlobalAction::OpenDevicePicker => self.open_device_picker(),
            GlobalAction::ToggleAutoEnter => self.toggle_auto_enter(),
            GlobalAction::ToggleSaveToClipboard => self.toggle_save_to_clipboard(),
            GlobalAction::ToggleDuck => self.toggle_duck(),
            GlobalAction::DuckDown => self.adjust_duck_percent(-5),
            GlobalAction::DuckUp => self.adjust_duck_percent(5),
            _ => {},
        }
    }

    /// Handles a key press; returns whether to keep running. The help
    /// overlay takes every key first (`?` and Esc close it), then editing,
    /// the device picker, command mode and search mode; otherwise the key
    /// map applies.
    #[verifier::spinoff_prover]
    #[verifier::rlimit(60)]
    pub fn handle_key(&mut self, k: KeyPress) -> (r: bool)
        requires
            old(self).wf(),
        ensures
            final(self).wf(),
            old(self).help_overlay_open ==> *final(self) == (App {
                help_overlay_open: final(self).help_overlay_open,
                ..*old(self)
            }),
            old(self).help_overlay_open ==> r && final(self).help_overlay_open == !(k.key == Key::Char('?')
                || k.key == Key::Esc) && final(self).logs@ == old(self).logs@ && final(self).current_panel
                == old(self).current_panel,
            !old(self).help_overlay_open && old(self).editing_field is Some ==> r && edit_key_done(
                *old(self),
                k.key,
                *final(self),
            ),
            !old(self).help_overlay_open && old(self).editing_field is None && old(self).device_picker_open ==> r
                && picker_key_done(*old(self), k.key, *final(self)),
            !old(self).help_overlay_open && old(self).editing_field is None && !old(self).device_picker_open
                && old(self).command_mode ==> command_key_done(*old(self), k.key, *final(self), r),
            !old(self).help_overlay_open && old(self).editing_field is None && !old(self).device_picker_open
                && !old(self).command_mode && old(self).search_mode ==> r && search_key_done(
                *old(self),
                k.key,
                *final(self),
            ),
            !old(self).help_overlay_open && old(self).editing_field is None && !old(self).device_picker_open
                && !old(self).command_mode && !old(self).search_mode ==> r == (global_action(
                old(self).current_panel,
                k,
                old(self).search_matches@.len() > 0,
            ) != GlobalAction::Quit),
            !old(self).help_overlay_open && old(self).editing_field is None && !old(self).device_picker_open
                && !old(self).command_mode && !old(self).search_mode ==> {
                let a = global_action(old(self).current_panel, k, old(self).search_matches@.len() > 0);
                &&& (is_navigation(a) ==> navigation_done(*old(self), *final(self), a))
                &&& (a != GlobalAction::Quit && a != GlobalAction::Nothing && !is_navigation(a) ==> setting_done(
                    *old(self),
                    *final(self),
                    a,
                ))
                &&& key_frame(*old(self), *final(self), a)
            },
    {
        if self.help_overlay_open {
            if k.key == Key::Char('?') || k.key == Key::Esc {
                self.help_overlay_open = false;
            }
            return true;
        }
        if self.editing_field.is_some() {
            self.handle_edit_key(k.key);
            return true;
        }
        if self.device_picker_open {
            self.handle_device_picker_key(k.key);
            return true;
        }
        if self.command_mode {
            return self.handle_command_key(k.key);
        }
        if self.search_mode {
            self.handle_search_key(k.key);
            return true;
        }
        let action = global_action_of(self.current_panel, k, self.search_matches.len() > 0);
        self.apply_global(action)
    }

    /// Forgets the clickable regions (before a redraw).
    pub fn clear_clickable_regions(&mut self)
        ensures
            final(self).clickable_regions@.len() == 0,
            final(self).logs@ == old(self).logs@,
            final(self).wf() == old(self).wf(),
    {
        self.clickable_regions = Vec::new();
    }

    /// Registers a clickable region (while drawing).
    pub fn add_clickable_region(&mut self, rect: Rect, action: ClickAction)
        ensures
            final(self).clickable_regions@ == old(self).clickable_regions@.push(ClickableRegion { rect, action }),
            *final(self) == (App { clickable_regions: final(self).clickable_regions, ..*old(self) }),
            final(self).logs@ == old(self).logs@,
            final(self).wf() == old(self).wf(),
    {
        self.clickable_regions.push(ClickableRegion { rect, action });
    }

    /// Performs a clicked action (see [`click_outcome`]).
    pub fn apply_click(&mut self, action: ClickAction)
        requires
            old(self).wf(),
        ensures
            final(self).wf(),
            click_outcome(*old(self), action, *final(self)),
    {
        match action {
            ClickAction::SwitchPanel(p) => self.click_panel(p),
            ClickAction::ToggleProgressiveTyping => self.click_progressive_typing(),
            ClickAction::ToggleAutoCorrection => self.click_auto_correction(),
            ClickAction::ToggleLowercaseFilter => self.click_lowercase_filter(),
            ClickAction::TogglePunctuationFilter => self.click_punctuation_filter(),
            ClickAction::ToggleStrictAlphabetFilter => self.click_strict_alphabet_filter(),
            ClickAction::ToggleAutoEnter => self.click_auto_enter(),
            ClickAction::ToggleSaveToClipboard => self.click_save_to_clipboard(),
            ClickAction::ToggleVadMode => self.click_vad_mode(),
            ClickAction::ToggleDuck => self.click_duck(),
            ClickAction::SetDuckPercent(p) => self.click_duck_percent(p),
            ClickAction::CycleTypingMode => self.click_typing_mode(),
            ClickAction::SelectLog(i) => self.click_log(i),
            ClickAction::SelectDevice(i) => self.click_device(i),
        }
    }

    fn click_panel(&mut self, p: Panel)
        requires
            old(self).wf(),
        ensures
            final(self).wf(),
            click_outcome(*old(self), ClickAction::SwitchPanel(p), *final(self)),
    {
        put_one(&mut self.current_panel, p);
        proof {
            reveal(clicked_panel);
        }
    }

    fn click_progressive_typing(&mut self)
        requires
            old(self).wf(),
        ensures
            final(self).wf(),
            click_outcome(*old(self), ClickAction::ToggleProgressiveTyping, *final(self)),
    {
        self.toggle_progressive_typing();
        proof {
            reveal(clicked_progressive_typing);
        }
    }

    fn click_auto_correction(&mut self)
        requires
            old(self).wf(),
        ensures
            final(self).wf(),
            click_outcome(*old(self), ClickAction::ToggleAutoCorrection, *final(self)),
    {
        self.toggle_auto_correction();
        proof {
            reveal(clicked_auto_correction);
        }
    }

    fn click_lowercase_filter(&mut self)
        requires
            old(self).wf(),
        ensures
            final(self).wf(),
            click_outcome(*old(self), ClickAction::ToggleLowercaseFilter, *final(self)),
    {
        self.toggle_lowercase_filter();
        proof {
            reveal(clicked_lowercase_filter);
        }
    }

    fn click_punctuation_filter(&mut self)
        requires
            old(self).wf(),
        ensures
            final(self).wf(),
            click_outcome(*old(self), ClickAction::TogglePunctuationFilter, *final(self)),
    {
        self.toggle_punctuation_filter();
        proof {
            reveal(clicked_punctuation_filter);
        }
    }

    fn click_strict_alphabet_filter(&mut self)
        requires
            old(self).wf(),
        ensures
            final(self).wf(),
            click_outcome(*old(self), ClickAction::ToggleStrictAlphabetFilter, *final(self)),
    {
        self.toggle_strict_alphabet_filter();
        proof {
            reveal(clicked_strict_alphabet_filter);
        }
    }

    fn click_auto_enter(&mut self)
        requires
            old(self).wf(),
        ensures
            final(self).wf(),
            click_outcome(*old(self), ClickAction::ToggleAutoEnter, *final(self)),
    {
        self.toggle_auto_enter();
        proof {
            reveal(clicked_auto_enter);
        }
    }

    fn click_save_to_clipboard(&mut self)
        requires
            old(self).wf(),
        ensures
            final(self).wf(),
            click_outcome(*old(self), ClickAction::ToggleSaveToClipboard, *final(self)),
    {
        self.toggle_save_to_clipboard();
        proof {
            reveal(clicked_save_to_clipboard);
        }
    }

    fn click_vad_mode(&mut self)
        requires
            old(self).wf(),
        ensures
            final(self).wf(),
            click_outcome(*old(self), ClickAction::ToggleVadMode, *final(self)),
    {
        self.toggle_vad_mode();
        proof {
            reveal(clicked_vad_mode);
        }
    }

    fn click_duck(&mut self)
        requires
            old(self).wf(),
        ensures
            final(self).wf(),
            click_outcome(*old(self), ClickAction::ToggleDuck, *final(self)),
    {
        self.toggle_duck();
        proof {
            reveal(clicked_duck);
        }
    }

    fn click_duck_percent(&mut self, p: u8)
        requires
            old(self).wf(),
        ensures
            final(self).wf(),
            click_outcome(*old(self), ClickAction::SetDuckPercent(p), *final(self)),
    {
        self.set_duck_percent(p);
        proof {
            reveal(clicked_duck_percent);
        }
    }

    fn click_typing_mode(&mut self)
        requires
            old(self).wf(),
        ensures
            final(self).wf(),
            click_outcome(*old(self), ClickAction::CycleTypingMode, *final(self)),
    {
        self.cycle_typing_mode();
        proof {
            reveal(clicked_typing_mode);
        }
    }

    fn click_log(&mut self, i: usize)
        requires
            old(self).wf(),
        ensures
            final(self).wf(),
            click_outcome(*old(self), ClickAction::SelectLog(i), *final(self)),
    {
        put_one(&mut self.selected_log, i);
        proof {
            reveal(clicked_log);
        }
    }

    fn click_device(&mut self, i: usize)
        requires
            old(self).wf(),
        ensures
            final(self).wf(),
            click_outcome(*old(self), ClickAction::SelectDevice(i), *final(self)),
    {
        if self.device_picker_open && i < self.device_picker_devices.len() {
            self.pick_device(i);
        }
        proof {
            reveal(clicked_device);
        }
    }

    fn pick_device(&mut self, i: usize)
        requires
            old(self).device_picker_open,
            i < old(self).device_picker_devices@.len(),
        ensures
            *final(self) == (App {
                device: final(self).device,
                logs: final(self).logs,
                selected_log: final(self).selected_log,
                effects: final(self).effects,
                device_picker_open: false,
                device_picker_devices: final(self).device_picker_devices,
                device_picker_selected: 0,
                device_picker_error: None,
                ..*old(self)
            }),
            final(self).device@ == old(self).device_picker_devices@[i as int].name@,
            final(self).device_picker_devices@.len() == 0,
            texts(final(self).logs@) == texts(old(self).logs@).push(
                "Device set to: "@ + old(self).device_picker_devices@[i as int].description@,
            ),
            final(self).effects@ == old(self).effects@.push(Effect::SaveConfig),
            final(self).selected_log == follow_selection(old(self).logs@, old(self).selected_log),
    {
        device_clicked(
            i,
            &mut self.device_picker_open,
            &mut self.device_picker_devices,
            &mut self.device_picker_selected,
            &mut self.device_picker_error,
            &mut self.device,
            &mut self.logs,
            &mut self.selected_log,
            &mut self.effects,
        );
    }

    /// Handles a mouse press at column `x`, row `y`: a left click performs
    /// the action of the first region under it. Always keeps running.
    pub fn handle_mouse(&mut self, left_click: bool, x: u16, y: u16) -> (r: bool)
        requires
            old(self).wf(),
        ensures
            final(self).wf(),
            r,
            (!left_click || (forall|i: int| 0 <= i < old(self).clickable_regions@.len() ==> !(
            #[trigger] old(self).clickable_regions@[i]).rect.contains_spec(x, y))) ==> *final(self) == *old(self),
            forall|i: int|
                left_click && #[trigger] first_hit(old(self).clickable_regions@, x, y, i) ==> click_outcome(
                    *old(self),
                    old(self).clickable_regions@[i].action,
                    *final(self),
                ),
    {
        if !left_click {
            return true;
        }
        let mut i: usize = 0;
        while i < self.clickable_regions.len()
            invariant
                i <= self.clickable_regions@.len(),
                left_click,
                self.wf(),
                *self == *old(self),
                forall|j: int| 0 <= j < i ==> !(#[trigger] self.clickable_regions@[j]).rect.contains_spec(x, y),
            decreases self.clickable_regions@.len() - i,
        {
            let region = self.clickable_regions[i];
            if region.rect.contains(x, y) {
                assert(first_hit(old(self).clickable_regions@, x, y, i as int));
                assert forall|k: int| #[trigger] first_hit(old(self).clickable_regions@, x, y, k) implies k == i by {
                    if k < i {
                        assert(!old(self).clickable_regions@[k].rect.contains_spec(x, y));
                    } else if k > i {
                        assert(!old(self).clickable_regions@[i as int].rect.contains_spec(x, y));
                    }
                }
                self.apply_click(region.action);
                return true;
            }
            i = i + 1;
        }
        true
    }

    /// Moves the log selection down (in the Logs panel, not past the end).
    #[verifier::spinoff_prover]
    #[verifier::rlimit(60)]
    pub fn scroll_down(&mut self)
        ensures
            *final(self) == (App { selected_log: final(self).selected_log, ..*old(self) }),
            final(self).wf() == old(self).wf(),
            final(self).selected_log == (if old(self).current_panel == Panel::Logs
                && old(self).selected_log + 1 < old(self).logs@.len() {
                (old(self).selected_log + 1) as usize
            } else {
                old(self).selected_log
            }),
            final(self).logs@ == old(self).logs@,
            final(self).effects@ == old(self).effects@,
    {
        selection_down(&mut self.selected_log, &self.logs, self.current_panel);
    }

    /// Moves the log selection up (in the Logs panel, not past the start).
    #[verifier::spinoff_prover]
    #[verifier::rlimit(60)]
    pub fn scroll_up(&mut self)
        ensures
            *final(self) == (App { selected_log: final(self).selected_log, ..*old(self) }),
            final(self).wf() == old(self).wf(),
            final(self).selected_log == (if old(self).current_panel == Panel::Logs && old(self).selected_log > 0 {
                (old(self).selected_log - 1) as usize
            } else {
                old(self).selected_log
            }),
            final(self).logs@ == old(self).logs@,
            final(self).effects@ == old(self).effects@,
    {
        if self.current_panel == Panel::Logs && self.selected_log > 0 {
            self.selected_log = self.selected_log - 1;
        }
    }



    /// Turns progressive typing on or off.
    pub fn toggle_progressive_typing(&mut self)
        ensures
            *final(self) == (App { progressive_typing: final(self).progressive_typing, logs: final(self).logs, selected_log: final(self).selected_log, effects: final(self).effects, ..*old(self) }),
            final(self).progressive_typing == !old(self).progressive_typing,
            texts(final(self).logs@) == texts(old(self).logs@).push(
                "Progressive typing "@ + status_word(final(self).progressive_typing),
            ),
            final(self).effects@ == old(self).effects@.push(Effect::SaveConfig),
            final(self).selected_log == old(self).selected_log,
            final(self).wf() == old(self).wf(),
    {
        self.progressive_typing = !self.progressive_typing;
        let on = self.progressive_typing;
        report_toggle(&mut self.logs, &mut self.effects, "Progressive typing ", on);
    }

    /// Turns auto-correction on or off.
    pub fn toggle_auto_correction(&mut self)
        ensures
            *final(self) == (App { auto_correction: final(self).auto_correction, logs: final(self).logs, selected_log: final(self).selected_log, effects: final(self).effects, ..*old(self) }),
            final(self).auto_correction == !old(self).auto_correction,
            texts(final(self).logs@) == texts(old(self).logs@).push(
                "Auto-correction "@ + status_word(final(self).auto_correction),
            ),
            final(self).effects@ == old(self).effects@.push(Effect::SaveConfig),
            final(self).selected_log == old(self).selected_log,
            final(self).wf() == old(self).wf(),
    {
        self.auto_correction = !self.auto_correction;
        let on = self.auto_correction;
        report_toggle(&mut self.logs, &mut self.effects, "Auto-correction ", on);
    }

    /// Turns saving transcripts to the clipboard on or off.
    pub fn toggle_save_to_clipboard(&mut self)
        ensures
            *final(self) == (App { save_to_clipboard: final(self).save_to_clipboard, logs: final(self).logs, selected_log: final(self).selected_log, effects: final(self).effects, ..*old(self) }),
            final(self).save_to_clipboard == !old(self).save_to_clipboard,
            texts(final(self).logs@) == texts(old(self).logs@).push(
                "Save to clipboard "@ + status_word(final(self).save_to_clipboard),
            ),
            final(self).effects@ == old(self).effects@.push(Effect::SaveConfig),
            final(self).selected_log == old(self).selected_log,
            final(self).wf() == old(self).wf(),
    {
        self.save_to_clipboard = !self.save_to_clipboard;
        let on = self.save_to_clipboard;
        report_toggle(&mut self.logs, &mut self.effects, "Save to clipboard ", on);
    }

    /// Turns sending Enter after each transcript on or off.
    pub fn toggle_auto_enter(&mut self)
        ensures
            *final(self) == (App { auto_enter: final(self).auto_enter, logs: final(self).logs, selected_log: final(self).selected_log, effects: final(self).effects, ..*old(self) }),
            final(self).auto_enter == !old(self).auto_enter,
            texts(final(self).logs@) == texts(old(self).logs@).push(
                "Auto-enter "@ + status_word(final(self).auto_enter),
            ),
            final(self).effects@ == old(self).effects@.push(Effect::SaveConfig),
            final(self).selected_log == old(self).selected_log,
            final(self).wf() == old(self).wf(),
    {
        self.auto_enter = !self.auto_enter;
        let on = self.auto_enter;
        report_toggle(&mut self.logs, &mut self.effects, "Auto-enter ", on);
    }

    /// Turns the lowercase filter on or off.
    pub fn toggle_lowercase_filter(&mut self)
        ensures
            *final(self) == (App { text_filters: final(self).text_filters, logs: final(self).logs, selected_log: final(self).selected_log, effects: final(self).effects, ..*old(self) }),
            final(self).text_filters.lowercase == !old(self).text_filters.lowercase,
            final(self).text_filters.remove_punctuation == old(self).text_filters.remove_punctuation,
            final(self).text_filters.strict_alphabet == old(self).text_filters.strict_alphabet,
            texts(final(self).logs@) == texts(old(self).logs@).push(
                "Lowercase filter "@ + status_word(final(self).text_filters.lowercase),
            ),
            final(self).effects@ == old(self).effects@.push(Effect::SaveConfig),
            final(self).selected_log == old(self).selected_log,
            final(self).wf() == old(self).wf(),
    {
        self.text_filters.lowercase = !self.text_filters.lowercase;
        let on = self.text_filters.lowercase;
        report_toggle(&mut self.logs, &mut self.effects, "Lowercase filter ", on);
    }

    /// Turns the punctuation filter on or off.
    pub fn toggle_punctuation_filter(&mut self)
        ensures
            *final(self) == (App { text_filters: final(self).text_filters, logs: final(self).logs, selected_log: final(self).selected_log, effects: final(self).effects, ..*old(self) }),
            final(self).text_filters.remove_punctuation == !old(self).text_filters.remove_punctuation,
            final(self).text_filters.lowercase == old(self).text_filters.lowercase,
            final(self).text_filters.strict_alphabet == old(self).text_filters.strict_alphabet,
            texts(final(self).logs@) == texts(old(self).logs@).push(
                "Punctuation filter "@ + status_word(final(self).text_filters.remove_punctuation),
            ),
            final(self).effects@ == old(self).effects@.push(Effect::SaveConfig),
            final(self).selected_log == old(self).selected_log,
            final(self).wf() == old(self).wf(),
    {
        self.text_filters.remove_punctuation = !self.text_filters.remove_punctuation;
        let on = self.text_filters.remove_punctuation;
        report_toggle(&mut self.logs, &mut self.effects, "Punctuation filter ", on);
    }

    /// Turns the strict alphabet filter on or off.
    pub fn toggle_strict_alphabet_filter(&mut self)
        ensures
            *final(self) == (App { text_filters: final(self).text_filters, logs: final(self).logs, selected_log: final(self).selected_log, effects: final(self).effects, ..*old(self) }),
            final(self).text_filters.strict_alphabet == !old(self).text_filters.strict_alphabet,
            final(self).text_filters.lowercase == old(self).text_filters.lowercase,
            final(self).text_filters.remove_punctuation == old(self).text_filters.remove_punctuation,
            texts(final(self).logs@) == texts(old(self).logs@).push(
                "Strict alphabet filter "@ + status_word(final(self).text_filters.strict_alphabet),
            ),
            final(self).effects@ == old(self).effects@.push(Effect::SaveConfig),
            final(self).selected_log == old(self).selected_log,
            final(self).wf() == old(self).wf(),
    {
        self.text_filters.strict_alphabet = !self.text_filters.strict_alphabet;
        let on = self.text_filters.strict_alphabet;
        report_toggle(&mut self.logs, &mut self.effects, "Strict alphabet filter ", on);
    }

    /// Cycles the typing mode.
    pub fn cycle_typing_mode(&mut self)
        requires
            old(self).wf(),
        ensures
            *final(self) == (App { typing_mode: final(self).typing_mode, logs: final(self).logs, selected_log: final(self).selected_log, effects: final(self).effects, ..*old(self) }),
            final(self).wf(),
            final(self).typing_mode == old(self).typing_mode.next_spec(),
            texts(final(self).logs@) == texts(old(self).logs@).push(
                "Typing mode: "@ + final(self).typing_mode.display_name_spec(),
            ),
            final(self).selected_log == follow_selection(old(self).logs@, old(self).selected_log),
            final(self).effects@ == old(self).effects@.push(Effect::SaveConfig),
    {
        self.typing_mode = self.typing_mode.next();
        let msg = concat("Typing mode: ", self.typing_mode.display_name());
        log_add(&mut self.logs, &mut self.selected_log, msg.as_str());
        self.effects.push(Effect::SaveConfig);
    }

    /// Turns bash mode (grammar-constrained transcription) on or off.
    pub fn toggle_bash_mode(&mut self)
        requires
            old(self).wf(),
        ensures
            *final(self) == (App { bash_mode: final(self).bash_mode, logs: final(self).logs, selected_log: final(self).selected_log, effects: final(self).effects, ..*old(self) }),
            final(self).wf(),
            final(self).bash_mode == !old(self).bash_mode,
            texts(final(self).logs@) == texts(old(self).logs@).push(
                "Bash mode: "@ + if final(self).bash_mode { "on"@ } else { "off"@ },
            ),
            final(self).selected_log == follow_selection(old(self).logs@, old(self).selected_log),
            final(self).effects@ == old(self).effects@.push(Effect::SaveConfig),
    {
        self.bash_mode = !self.bash_mode;
        let msg = concat("Bash mode: ", if self.bash_mode { "on" } else { "off" });
        log_add(&mut self.logs, &mut self.selected_log, msg.as_str());
        self.effects.push(Effect::SaveConfig);
    }

    /// Turns voice activity mode on or off. Turning it on clears the
    /// transcript and the segment count; turning it off restores the volume.
    #[verifier::spinoff_prover]
    #[verifier::rlimit(60)]
    pub fn toggle_vad_mode(&mut self)
        requires
            old(self).wf(),
        ensures
            *final(self) == (App {
                vad_active: final(self).vad_active,
                is_speaking: final(self).is_speaking,
                committed_text: final(self).committed_text,
                uncommitted_text: final(self).uncommitted_text,
                segments_processed: final(self).segments_processed,
                logs: final(self).logs,
                selected_log: final(self).selected_log,
                effects: final(self).effects,
                ..*old(self)
            }),
            final(self).wf(),
            final(self).vad_active == !old(self).vad_active,
            !final(self).is_speaking,
            final(self).vad_active ==> final(self).committed_text@.len() == 0
                && final(self).uncommitted_text@.len() == 0 && final(self).segments_processed == 0
                && texts(final(self).logs@) == texts(old(self).logs@).push("VAD mode enabled"@)
                && final(self).effects@ == old(self).effects@,
            !final(self).vad_active ==> texts(final(self).logs@) == texts(old(self).logs@).push(
                "VAD mode disabled"@,
            ) && final(self).effects@ == old(self).effects@.push(Effect::RestoreVolume),
            final(self).selected_log == follow_selection(old(self).logs@, old(self).selected_log),
    {
        let on = !self.vad_active;
        self.vad_active = on;
        self.is_speaking = false;
        log_add(&mut self.logs, &mut self.selected_log, if on { "VAD mode enabled" } else { "VAD mode disabled" });
        listening_switched(
            on,
            &mut self.committed_text,
            &mut self.uncommitted_text,
            &mut self.segments_processed,
            &mut self.effects,
        );
    }

    /// Turns volume ducking on or off; turning it off restores the volume.
    pub fn toggle_duck(&mut self)
        requires
            old(self).wf(),
        ensures
            *final(self) == (App { duck_enabled: final(self).duck_enabled, logs: final(self).logs, selected_log: final(self).selected_log, effects: final(self).effects, ..*old(self) }),
            final(self).wf(),
            final(self).duck_enabled == !old(self).duck_enabled,
            texts(final(self).logs@) == texts(old(self).logs@).push(
                "Volume ducking "@ + status_word(final(self).duck_enabled),
            ),
            final(self).effects@ == old(self).effects@
                + seq![Effect::DuckSettings { enabled: final(self).duck_enabled, percent: old(self).duck_percent }]
                + (if final(self).duck_enabled { Seq::empty() } else { seq![Effect::RestoreVolume] })
                + seq![Effect::SaveConfig],
            final(self).selected_log == follow_selection(old(self).logs@, old(self).selected_log),
    {
        let ghost e0 = self.effects@;
        self.duck_enabled = !self.duck_enabled;
        self.effects.push(Effect::DuckSettings { enabled: self.duck_enabled, percent: self.duck_percent });
        if !self.duck_enabled {
            self.effects.push(Effect::RestoreVolume);
        }
        let msg = concat("Volume ducking ", status(self.duck_enabled));
        log_add(&mut self.logs, &mut self.selected_log, msg.as_str());
        self.effects.push(Effect::SaveConfig);
        assert(self.effects@ =~= e0
            + seq![Effect::DuckSettings { enabled: self.duck_enabled, percent: old(self).duck_percent }]
            + (if self.duck_enabled { Seq::empty() } else { seq![Effect::RestoreVolume] })
            + seq![Effect::SaveConfig]);
    }

    /// Sets the duck percentage (at most 100); nothing happens when it does
    /// not change.
    #[verifier::spinoff_prover]
    #[verifier::rlimit(60)]
    pub fn set_duck_percent(&mut self, percent: u8)
        requires
            old(self).wf(),
        ensures
            *final(self) == (App { duck_percent: final(self).duck_percent, logs: final(self).logs, selected_log: final(self).selected_log, effects: final(self).effects, ..*old(self) }),
            final(self).wf(),
            final(self).duck_percent == (if percent > 100 { 100 } else { percent }),
            final(self).duck_percent == old(self).duck_percent ==> final(self).logs@ == old(self).logs@
                && final(self).effects@ == old(self).effects@,
            final(self).duck_percent != old(self).duck_percent ==> texts(final(self).logs@) == texts(
                old(self).logs@,
            ).push("Duck percent: "@ + decimal(final(self).duck_percent as nat) + "%"@)
                && final(self).effects@ == old(self).effects@ + seq![
                Effect::DuckSettings { enabled: old(self).duck_enabled, percent: final(self).duck_percent },
                Effect::SaveConfig,
            ],
    {
        duck_percent_set(&mut self.duck_percent, self.duck_enabled, percent, &mut self.logs, &mut self.selected_log, &mut self.effects);
    }

    /// Nudges the duck percentage by `delta`, within 0..=100.
    pub fn adjust_duck_percent(&mut self, delta: i16)
        requires
            old(self).wf(),
        ensures
            *final(self) == (App { duck_percent: final(self).duck_percent, logs: final(self).logs, selected_log: final(self).selected_log, effects: final(self).effects, ..*old(self) }),
            final(self).wf(),
            final(self).duck_percent == clamp_percent(old(self).duck_percent, delta),
    {
        let v: i32 = self.duck_percent as i32 + delta as i32;
        let new_pct: u8 = if v < 0 { 0 } else if v > 100 { 100 } else { v as u8 };
        duck_percent_set(&mut self.duck_percent, self.duck_enabled, new_pct, &mut self.logs, &mut self.selected_log, &mut self.effects);
    }

    /// Nudges the cue volume by `delta`, within 0..=100, and plays a
    /// preview cue.
    pub fn adjust_cue_volume(&mut self, delta: i16)
        requires
            old(self).wf(),
        ensures
            *final(self) == (App { cue_volume: final(self).cue_volume, logs: final(self).logs, selected_log: final(self).selected_log, effects: final(self).effects, ..*old(self) }),
            final(self).wf(),
            final(self).cue_volume == clamp_percent(old(self).cue_volume, delta),
            texts(final(self).logs@) == texts(old(self).logs@).push(
                "Cue volume: "@ + decimal(final(self).cue_volume as nat) + "%"@,
            ),
            final(self).effects@ == old(self).effects@ + seq![
                Effect::SetCueVolume(final(self).cue_volume),
                Effect::Cue("start"),
                Effect::SaveConfig,
            ],
    {
        let ghost e0 = self.effects@;
        let v: i32 = self.cue_volume as i32 + delta as i32;
        let new_vol: u8 = if v < 0 { 0 } else if v > 100 { 100 } else { v as u8 };
        self.cue_volume = new_vol;
        self.effects.push(Effect::SetCueVolume(new_vol));
        let mut msg = concat("Cue volume: ", decimal_string(new_vol as u64).as_str());
        msg.append("%");
        log_add(&mut self.logs, &mut self.selected_log, msg.as_str());
        self.effects.push(Effect::Cue("start"));
        self.effects.push(Effect::SaveConfig);
        assert(self.effects@ =~= e0 + seq![Effect::SetCueVolume(new_vol), Effect::Cue("start"), Effect::SaveConfig]);
    }

    /// Cycles the transcription language: auto, English, Norwegian, auto.
    #[verifier::spinoff_prover]
    #[verifier::rlimit(60)]
    pub fn cycle_language(&mut self)
        requires
            old(self).wf(),
        ensures
            *final(self) == (App { language: final(self).language, logs: final(self).logs, selected_log: final(self).selected_log, effects: final(self).effects, ..*old(self) }),
            final(self).wf(),
            opt_view(final(self).language) == next_language(opt_view(old(self).language)),
            texts(final(self).logs@) == texts(old(self).logs@).push(
                "Language set to: "@ + match opt_view(final(self).language) {
                    Some(l) => l,
                    None => "auto"@,
                },
            ),
            final(self).selected_log == follow_selection(old(self).logs@, old(self).selected_log),
            final(self).effects@ == old(self).effects@.push(Effect::SaveConfig),
    {
        language_cycled(&mut self.language, &mut self.logs, &mut self.selected_log, &mut self.effects);
    }

    /// Counts a timer tick; the first tick fetches the model name when none
    /// is configured.
    pub fn handle_tick(&mut self)
        requires
            old(self).tick_count < u64::MAX,
        ensures
            final(self).tick_count == old(self).tick_count + 1,
            final(self).effects@ == if final(self).tick_count == 1 && old(self).model@ == MODEL_PENDING@ {
                old(self).effects@.push(Effect::FetchModel)
            } else {
                old(self).effects@
            },
    {
        self.tick_count = self.tick_count + 1;
        if self.tick_count == 1 && str_eq(self.model.as_str(), MODEL_PENDING) {
            self.effects.push(Effect::FetchModel);
        }
    }

    /// Takes the engine's transcript and statistics.
    pub fn update_streaming_state(
        &mut self,
        committed: String,
        uncommitted: String,
        segments_processed: usize,
        avg_latency_ms: u64,
    )
        ensures
            *final(self) == (App {
                committed_text: committed,
                uncommitted_text: uncommitted,
                segments_processed,
                avg_latency_ms,
                ..*old(self)
            }),
    {
        self.committed_text = committed;
        self.uncommitted_text = uncommitted;
        self.segments_processed = segments_processed;
        self.avg_latency_ms = avg_latency_ms;
    }

    /// Applies an event of the transcription engine (see [`event_applied`]).
    pub fn handle_streaming_event(&mut self, event: crate::streaming_engine::StreamingEvent)
        requires
            old(self).wf(),
            old(self).total_transcriptions < usize::MAX,
            old(self).successful_transcriptions < usize::MAX,
            old(self).failed_transcriptions < usize::MAX,
            event matches crate::streaming_engine::StreamingEvent::SegmentCompleted { text, .. }
                ==> old(self).total_words + text@.len() <= usize::MAX,
        ensures
            final(self).wf(),
            event_applied(*old(self), *final(self), event),
    {
        match event {
            crate::streaming_engine::StreamingEvent::SpeechProbable => self.on_speech_probable(),
            crate::streaming_engine::StreamingEvent::SpeechStarted => self.on_speech_started(),
            crate::streaming_engine::StreamingEvent::SpeechEnded => self.on_speech_ended(),
            crate::streaming_engine::StreamingEvent::TranscriptUpdate { committed, uncommitted } => {
                self.on_transcript_update(committed, uncommitted);
            },
            crate::streaming_engine::StreamingEvent::SegmentCompleted { text, duration_ms } => {
                self.on_segment_completed(text, duration_ms);
            },
            crate::streaming_engine::StreamingEvent::StatsUpdate { segments_processed, avg_latency_ms } => {
                self.on_stats_update(segments_processed, avg_latency_ms);
            },
            crate::streaming_engine::StreamingEvent::Error(msg) => self.on_streaming_error(msg),
        }
    }

    fn on_speech_probable(&mut self)
        ensures
            final(self).wf() == old(self).wf(),
            event_applied(*old(self), *final(self), crate::streaming_engine::StreamingEvent::SpeechProbable),
    {
        queue_two(&mut self.effects, Effect::Cue("vad_speech_start"), Effect::DuckForSpeech);
        proof {
            reveal(event_applied);
        }
    }

    fn on_speech_started(&mut self)
        ensures
            final(self).wf() == old(self).wf(),
            event_applied(*old(self), *final(self), crate::streaming_engine::StreamingEvent::SpeechStarted),
    {
        self.is_speaking = true;
        self.effects.push(Effect::Cue("vad_speech_confirm"));
        proof {
            reveal(event_applied);
        }
    }

    fn on_speech_ended(&mut self)
        ensures
            final(self).wf() == old(self).wf(),
            event_applied(*old(self), *final(self), crate::streaming_engine::StreamingEvent::SpeechEnded),
    {
        self.is_speaking = false;
        queue_two(&mut self.effects, Effect::Cue("vad_end"), Effect::RestoreVolume);
        proof {
            reveal(event_applied);
        }
    }

    fn on_transcript_update(&mut self, committed: String, uncommitted: String)
        ensures
            final(self).wf() == old(self).wf(),
            event_applied(*old(self), *final(self), crate::streaming_engine::StreamingEvent::TranscriptUpdate { committed, uncommitted }),
    {
        put_pair(&mut self.committed_text, &mut self.uncommitted_text, committed, uncommitted);
        proof {
            reveal(event_applied);
        }
    }

    fn on_stats_update(&mut self, segments_processed: usize, avg_latency_ms: u64)
        ensures
            final(self).wf() == old(self).wf(),
            event_applied(*old(self), *final(self), crate::streaming_engine::StreamingEvent::StatsUpdate { segments_processed, avg_latency_ms }),
    {
        put_pair(&mut self.segments_processed, &mut self.avg_latency_ms, segments_processed, avg_latency_ms);
        proof {
            reveal(event_applied);
        }
    }

    fn on_segment_completed(&mut self, text: String, duration_ms: u64)
        requires
            old(self).total_transcriptions < usize::MAX,
            old(self).successful_transcriptions < usize::MAX,
            old(self).total_words + text@.len() <= usize::MAX,
        ensures
            final(self).wf() == old(self).wf(),
            event_applied(*old(self), *final(self), crate::streaming_engine::StreamingEvent::SegmentCompleted { text, duration_ms }),
    {
        let mut msg = concat("Segment: \"", text.as_str());
        msg.append("\" (");
        msg.append(decimal_string(duration_ms).as_str());
        msg.append("ms)");
        log_add(&mut self.logs, &mut self.selected_log, msg.as_str());
        self.total_transcriptions = self.total_transcriptions + 1;
        self.successful_transcriptions = self.successful_transcriptions + 1;
        let v = chars_of(text.as_str());
        let n = words_exec(&v).len();
        proof {
            lemma_words_count(text@);
        }
        self.total_words = self.total_words + n;
        let copy = self.save_to_clipboard && !text.as_str().is_empty();
        queue_if(&mut self.effects, copy, Effect::CopyToClipboard(text));
        proof {
            reveal(event_applied);
        }
    }

    fn on_streaming_error(&mut self, msg: String)
        requires
            old(self).total_transcriptions < usize::MAX,
            old(self).failed_transcriptions < usize::MAX,
        ensures
            final(self).wf() == old(self).wf(),
            event_applied(*old(self), *final(self), crate::streaming_engine::StreamingEvent::Error(msg)),
    {
        let m = concat("Streaming error: ", msg.as_str());
        log_add(&mut self.logs, &mut self.selected_log, m.as_str());
        self.total_transcriptions = self.total_transcriptions + 1;
        self.failed_transcriptions = self.failed_transcriptions + 1;
        proof {
            reveal(event_applied);
        }
    }

}

/// A text has no more words than characters.
proof fn lemma_words_count(s: Seq<char>)
    ensures
        words(s).len() <= s.len(),
{
    lemma_words_from_count(s, 0, Seq::empty());
}

proof fn lemma_words_from_count(s: Seq<char>, i: int, cur: Seq<char>)
    requires
        0 <= i <= s.len(),
    ensures
        crate::text::words_from(s, i, cur).len() <= (s.len() - i) + (if cur.len() > 0 { 1int } else { 0 }),
    decreases s.len() - i,
{
    if i < s.len() {
        if crate::text::is_white_space(s[i]) {
            lemma_words_from_count(s, i + 1, Seq::empty());
        } else {
            lemma_words_from_count(s, i + 1, cur.push(s[i]));
        }
    }
}

} // verus!
