//! On/off switch for typing transcripts into the focused window.
//!
//! When typing is off, transcripts are still published but not typed. The
//! switch is persisted as a small text file; anything but an explicit `off`
//! means typing is on.
use vstd::prelude::*;
use crate::desktop::TypingMode;
use crate::text::{chars_of, chars_eq, str_eq, trim, trim_bounds};

verus! {

/// A request carried by the `typing-*` command socket verbs.
#[derive(Debug, Clone, Copy, PartialEq, Eq, Structural)]
pub enum TypingRequest {
    On,
    Off,
    Toggle,
    Status,
}

/// The request a command verb names, if any.
pub open spec fn request_of_verb(verb: Seq<char>) -> Option<TypingRequest> {
    if verb == "typing-on"@ {
        Some(TypingRequest::On)
    } else if verb == "typing-off"@ {
        Some(TypingRequest::Off)
    } else if verb == "typing-toggle"@ {
        Some(TypingRequest::Toggle)
    } else if verb == "typing-status"@ {
        Some(TypingRequest::Status)
    } else {
        None
    }
}

/// The verb of a request.
pub open spec fn verb_of_request(r: TypingRequest) -> Seq<char> {
    match r {
        TypingRequest::On => "typing-on"@,
        TypingRequest::Off => "typing-off"@,
        TypingRequest::Toggle => "typing-toggle"@,
        TypingRequest::Status => "typing-status"@,
    }
}

/// The switch state after a request, given the current one.
pub open spec fn apply_spec(r: TypingRequest, enabled: bool) -> bool {
    match r {
        TypingRequest::On => true,
        TypingRequest::Off => false,
        TypingRequest::Toggle => !enabled,
        TypingRequest::Status => enabled,
    }
}

impl TypingRequest {
    /// Parses a command socket verb (`typing-on`, `typing-off`,
    /// `typing-toggle`, `typing-status`).
    pub fn from_command(verb: &str) -> (r: Option<Self>)
        ensures
            r == request_of_verb(verb@),
    {
        if str_eq(verb, "typing-on") {
            Some(TypingRequest::On)
        } else if str_eq(verb, "typing-off") {
            Some(TypingRequest::Off)
        } else if str_eq(verb, "typing-toggle") {
            Some(TypingRequest::Toggle)
        } else if str_eq(verb, "typing-status") {
            Some(TypingRequest::Status)
        } else {
            None
        }
    }

    /// Parses the CLI argument (`on`, `off`, `toggle`, `status`): the verb
    /// `typing-<arg>`.
    pub fn from_arg(arg: &str) -> (r: Option<Self>)
        ensures
            r == request_of_verb("typing-"@ + arg@),
    {
        let mut verb = "typing-".to_string();
        proof {
            broadcast use vstd::string::group_string_axioms;
        }
        verb.append(arg);
        Self::from_command(verb.as_str())
    }

    /// The command socket verb of this request.
    pub fn command(self) -> (r: &'static str)
        ensures
            r@ == verb_of_request(self),
    {
        match self {
            TypingRequest::On => "typing-on",
            TypingRequest::Off => "typing-off",
            TypingRequest::Toggle => "typing-toggle",
            TypingRequest::Status => "typing-status",
        }
    }

    /// The resulting state, given the current one.
    pub fn apply(self, enabled: bool) -> (r: bool)
        ensures
            r == apply_spec(self, enabled),
    {
        match self {
            TypingRequest::On => true,
            TypingRequest::Off => false,
            TypingRequest::Toggle => !enabled,
            TypingRequest::Status => enabled,
        }
    }

    /// Whether the request changes the switch (everything but `Status`).
    pub fn changes_state(self) -> (r: bool)
        ensures
            r == (self != TypingRequest::Status),
    {
        match self {
            TypingRequest::Status => false,
            _ => true,
        }
    }
}

/// The wire/CLI form of a state: `typing:on` or `typing:off`.
pub fn describe(enabled: bool) -> (r: String)
    ensures
        r@ == if enabled {
            "typing:on"@
        } else {
            "typing:off"@
        },
{
    if enabled {
        "typing:on".to_string()
    } else {
        "typing:off".to_string()
    }
}

/// Whether typing is enabled, given the persisted file's contents (`None`
/// when the file is missing or unreadable). Anything but an explicit `off`
/// means on.
pub fn enabled_from_stored(contents: Option<&str>) -> (r: bool)
    ensures
        r == match contents {
            None => true,
            Some(s) => trim(s@) != "off"@,
        },
{
    match contents {
        None => true,
        Some(s) => {
            let v = chars_of(s);
            let (lo, hi) = trim_bounds(&v);
            let t = crate::text::string_of_range(&v, lo, hi);
            !str_eq(t.as_str(), "off")
        },
    }
}

/// The file contents that persist a state.
pub fn stored_form(enabled: bool) -> (r: &'static str)
    ensures
        r@ == if enabled {
            "on\n"@
        } else {
            "off\n"@
        },
{
    if enabled {
        "on\n"
    } else {
        "off\n"
    }
}

/// The mode the engine should use: the configured mode, or no typing at all.
pub fn effective_mode(configured: TypingMode, enabled: bool) -> (r: TypingMode)
    ensures
        r == if enabled {
            configured
        } else {
            TypingMode::Disabled
        },
{
    if enabled {
        configured
    } else {
        TypingMode::Disabled
    }
}

/// Every request's verb parses back to the request.
pub proof fn law_verb_round_trip(r: TypingRequest)
    ensures
        request_of_verb(verb_of_request(r)) == Some(r),
{
    reveal_strlit("typing-on");
    reveal_strlit("typing-off");
    reveal_strlit("typing-toggle");
    reveal_strlit("typing-status");
    assert("typing-on"@[8] != "typing-off"@[8]);
    assert("typing-on"@ != "typing-off"@);
    assert("typing-on"@[7] != "typing-toggle"@[7]);
    assert("typing-on"@ != "typing-toggle"@);
    assert("typing-on"@ != "typing-status"@);
    assert("typing-off"@ != "typing-toggle"@);
    assert("typing-off"@ != "typing-status"@);
    assert("typing-toggle"@ != "typing-status"@);
}

/// A persisted state reads back as itself.
pub proof fn law_stored_round_trip(enabled: bool)
    ensures
        (trim((if enabled { "on\n"@ } else { "off\n"@ })) != "off"@) == enabled,
{
    reveal_strlit("on\n");
    reveal_strlit("off\n");
    reveal_strlit("off");
    let s: Seq<char> = if enabled { "on\n"@ } else { "off\n"@ };
    crate::text::lemma_trim_shape(s);
    if enabled {
        assert(s =~= seq!['o', 'n', '\n']);
        assert(trim(s).len() <= 3);
        if trim(s) == "off"@ {
            assert(trim(s).len() == 3);
            assert(trim(s) =~= s);
            assert(s[0] == 'f');
        }
    } else {
        assert(s =~= seq!['o', 'f', 'f', '\n']);
        assert(crate::text::trim_start(s) =~= s);
        assert(s.drop_last() =~= seq!['o', 'f', 'f']);
        assert(crate::text::trim_end(s.drop_last()) =~= s.drop_last());
        assert(trim(s) =~= "off"@);
    }
}

/// Toggling twice restores the state; `On`/`Off` are idempotent.
pub proof fn law_toggle_involution(enabled: bool)
    ensures
        apply_spec(TypingRequest::Toggle, apply_spec(TypingRequest::Toggle, enabled)) == enabled,
        apply_spec(TypingRequest::On, apply_spec(TypingRequest::On, enabled)) == apply_spec(
            TypingRequest::On,
            enabled,
        ),
        apply_spec(TypingRequest::Off, apply_spec(TypingRequest::Off, enabled)) == apply_spec(
            TypingRequest::Off,
            enabled,
        ),
        apply_spec(TypingRequest::Status, enabled) == enabled,
{
}

} // verus!
