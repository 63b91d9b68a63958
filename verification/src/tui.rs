//! Terminal interface vocabulary: panels, log filters, themes, clickable
//! actions and the typing settings that the interface hands to the engine.
use vstd::prelude::*;
use crate::text::{chars_of, contains_exec, contains_seq, pattern, str_eq, str_to_lowercase, unicode_lowercase};

verus! {

/// The panel being displayed.
#[derive(Debug, Clone, Copy, PartialEq, Eq, Hash, Structural)]
pub enum Panel {
    Configuration,
    Logs,
    LiveTranscription,
}

impl Panel {
    /// The panel to the right (wrapping around).
    pub open spec fn next_spec(self) -> Panel {
        match self {
            Panel::Configuration => Panel::Logs,
            Panel::Logs => Panel::LiveTranscription,
            Panel::LiveTranscription => Panel::Configuration,
        }
    }

    /// The panel to the left (wrapping around).
    pub open spec fn prev_spec(self) -> Panel {
        match self {
            Panel::Configuration => Panel::LiveTranscription,
            Panel::Logs => Panel::Configuration,
            Panel::LiveTranscription => Panel::Logs,
        }
    }

    /// The next panel (tab right).
    pub fn next(self) -> (r: Self)
        ensures
            r == self.next_spec(),
    {
        match self {
            Panel::Configuration => Panel::Logs,
            Panel::Logs => Panel::LiveTranscription,
            Panel::LiveTranscription => Panel::Configuration,
        }
    }

    /// The previous panel (tab left).
    pub fn prev(self) -> (r: Self)
        ensures
            r == self.prev_spec(),
    {
        match self {
            Panel::Configuration => Panel::LiveTranscription,
            Panel::Logs => Panel::Configuration,
            Panel::LiveTranscription => Panel::Logs,
        }
    }

    /// The panel's title.
    pub fn title(self) -> (r: &'static str)
        ensures
            r@ == match self {
                Panel::Configuration => "Configuration"@,
                Panel::Logs => "Logs"@,
                Panel::LiveTranscription => "Live"@,
            },
    {
        match self {
            Panel::Configuration => "Configuration",
            Panel::Logs => "Logs",
            Panel::LiveTranscription => "Live",
        }
    }
}

/// Moving right then left (or left then right) returns to the same panel,
/// and three moves in one direction visit every panel and come back.
pub proof fn law_panel_cycle(p: Panel)
    ensures
        p.next_spec().prev_spec() == p,
        p.prev_spec().next_spec() == p,
        p.next_spec().next_spec().next_spec() == p,
        p.next_spec() != p,
        p.next_spec().next_spec() != p,
{
}

/// Editable configuration fields.
#[derive(Debug, Clone, Copy, PartialEq, Eq, Structural)]
pub enum EditableField {
    ServerUrl,
}

/// Actions that can be triggered by clicking.
#[derive(Debug, Clone, Copy, PartialEq, Eq, Structural)]
pub enum ClickAction {
    /// Switch to a specific panel.
    SwitchPanel(Panel),
    /// Toggle progressive typing.
    ToggleProgressiveTyping,
    /// Toggle auto-correction.
    ToggleAutoCorrection,
    /// Toggle the lowercase filter.
    ToggleLowercaseFilter,
    /// Toggle the punctuation filter.
    TogglePunctuationFilter,
    /// Toggle the strict alphabet filter.
    ToggleStrictAlphabetFilter,
    /// Toggle auto-enter.
    ToggleAutoEnter,
    /// Toggle saving to the clipboard.
    ToggleSaveToClipboard,
    /// Toggle VAD mode.
    ToggleVadMode,
    /// Toggle volume ducking.
    ToggleDuck,
    /// Set the duck percentage (0-100), from a slider click.
    SetDuckPercent(u8),
    /// Select a log entry.
    SelectLog(usize),
    /// Cycle the typing mode.
    CycleTypingMode,
    /// Select a device from the picker (by index).
    SelectDevice(usize),
}

/// Log filter level for the Logs panel.
#[derive(Debug, Clone, Copy, PartialEq, Eq, Structural)]
pub enum LogFilter {
    All,
    Errors,
    Warnings,
}

/// Words that mark a log line as an error (matched in lower case).
pub open spec fn error_words() -> Seq<Seq<char>> {
    seq!["error"@, "failed"@, "cannot"@, "invalid"@]
}

/// Words that mark a log line as a warning, errors included.
pub open spec fn warning_words() -> Seq<Seq<char>> {
    error_words() + seq!["warning"@, "offline"@]
}

/// Whether `text` contains one of `words`.
pub open spec fn mentions_any(text: Seq<char>, words: Seq<Seq<char>>) -> bool {
    exists|i: int| 0 <= i < words.len() && contains_seq(text, #[trigger] words[i])
}

impl LogFilter {
    /// The next filter in the cycle All → Errors → Warnings → All.
    pub open spec fn next_spec(self) -> LogFilter {
        match self {
            LogFilter::All => LogFilter::Errors,
            LogFilter::Errors => LogFilter::Warnings,
            LogFilter::Warnings => LogFilter::All,
        }
    }

    /// Whether a log line passes this filter: every line for `All`; for the
    /// others, a line whose lower-case form mentions one of the filter's
    /// words.
    pub open spec fn accepts(self, msg: Seq<char>) -> bool {
        match self {
            LogFilter::All => true,
            LogFilter::Errors => mentions_any(unicode_lowercase(msg), error_words()),
            LogFilter::Warnings => mentions_any(unicode_lowercase(msg), warning_words()),
        }
    }

    /// Cycles to the next filter.
    pub fn next(self) -> (r: Self)
        ensures
            r == self.next_spec(),
    {
        match self {
            LogFilter::All => LogFilter::Errors,
            LogFilter::Errors => LogFilter::Warnings,
            LogFilter::Warnings => LogFilter::All,
        }
    }

    /// The filter's label.
    pub fn label(self) -> (r: &'static str)
        ensures
            r@ == match self {
                LogFilter::All => "All"@,
                LogFilter::Errors => "Errors"@,
                LogFilter::Warnings => "Warnings"@,
            },
    {
        match self {
            LogFilter::All => "All",
            LogFilter::Errors => "Errors",
            LogFilter::Warnings => "Warnings",
        }
    }

    /// Whether a log message passes this filter.
    pub fn matches(self, msg: &str) -> (r: bool)
        ensures
            r == self.accepts(msg@),
    {
        match self {
            LogFilter::All => true,
            LogFilter::Errors => {
                let lower = chars_of(str_to_lowercase(msg).as_str());
                mentions_any_exec(&lower, false)
            },
            LogFilter::Warnings => {
                let lower = chars_of(str_to_lowercase(msg).as_str());
                mentions_any_exec(&lower, true)
            },
        }
    }
}

/// Whether `text` mentions an error word, or (with `warnings`) a warning word.
fn mentions_any_exec(text: &Vec<char>, warnings: bool) -> (r: bool)
    ensures
        r == mentions_any(text@, if warnings { warning_words() } else { error_words() }),
{
    let words: Vec<&str> = if warnings {
        vec!["error", "failed", "cannot", "invalid", "warning", "offline"]
    } else {
        vec!["error", "failed", "cannot", "invalid"]
    };
    let ghost target = if warnings { warning_words() } else { error_words() };
    assert(words@.map_values(|w: &str| w@) =~= target);
    let mut i: usize = 0;
    while i < words.len()
        invariant
            i <= words.len(),
            words@.map_values(|w: &str| w@) == target,
            target == (if warnings { warning_words() } else { error_words() }),
            forall|j: int| 0 <= j < i ==> !contains_seq(text@, #[trigger] target[j]),
        decreases words.len() - i,
    {
        let w = pattern(words[i]);
        assert(w@ == target[i as int]);
        if contains_exec(text, &w) {
            assert(0 <= i < target.len() && contains_seq(text@, target[i as int]));
            return true;
        }
        i = i + 1;
    }
    false
}

/// Every message that the errors filter passes, the warnings filter passes
/// too; and every filter passes every message after three steps of
/// cycling back to where it began.
pub proof fn law_filters_nested(msg: Seq<char>, f: LogFilter)
    ensures
        LogFilter::Errors.accepts(msg) ==> LogFilter::Warnings.accepts(msg),
        f.accepts(msg) ==> LogFilter::All.accepts(msg),
        f.next_spec().next_spec().next_spec() == f,
{
    if LogFilter::Errors.accepts(msg) {
        let lower = unicode_lowercase(msg);
        let i = choose|i: int| 0 <= i < error_words().len() && contains_seq(lower, #[trigger] error_words()[i]);
        assert(warning_words()[i] == error_words()[i]);
    }
}

/// Available themes.
#[derive(Debug, Clone, Copy, PartialEq, Eq, Structural)]
pub enum ThemeName {
    Dark,
    Light,
}

impl ThemeName {
    /// The other theme.
    pub fn next(self) -> (r: Self)
        ensures
            r != self,
    {
        match self {
            ThemeName::Dark => ThemeName::Light,
            ThemeName::Light => ThemeName::Dark,
        }
    }

    /// The theme's name as typed in commands.
    pub open spec fn label_spec(self) -> Seq<char> {
        match self {
            ThemeName::Dark => "dark"@,
            ThemeName::Light => "light"@,
        }
    }

    /// The theme's name as typed in commands.
    pub fn label(self) -> (r: &'static str)
        ensures
            r@ == self.label_spec(),
    {
        match self {
            ThemeName::Dark => "dark",
            ThemeName::Light => "light",
        }
    }

    /// The theme named by `s`, in any letter case.
    pub fn parse(s: &str) -> (r: Option<Self>)
        ensures
            r == (if unicode_lowercase(s@) == "dark"@ {
                Some(ThemeName::Dark)
            } else if unicode_lowercase(s@) == "light"@ {
                Some(ThemeName::Light)
            } else {
                None
            }),
    {
        let lower = str_to_lowercase(s);
        if str_eq(lower.as_str(), "dark") {
            Some(ThemeName::Dark)
        } else if str_eq(lower.as_str(), "light") {
            Some(ThemeName::Light)
        } else {
            None
        }
    }
}

/// Typing settings sent from the interface to the engine.
#[derive(Debug, Clone, Copy, PartialEq, Structural)]
pub struct TypingSettings {
    pub progressive_typing: bool,
    pub auto_correction: bool,
}

impl Default for TypingSettings {
    fn default() -> (r: Self)
        ensures
            r.progressive_typing,
            r.auto_correction,
    {
        TypingSettings { progressive_typing: true, auto_correction: true }
    }
}

} // verus!
