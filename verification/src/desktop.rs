//! Desktop integration rules: typing modes, keyboard-layout parsing,
//! notification urgencies and audio-cue volume.
use vstd::prelude::*;
use crate::text::{
    byte_len, chars_of, opt_view, opt_str_view, contains_exec, contains_seq, find, find_from_exec, first_word,
    first_word_exec, line_end, lemma_find_from, lemma_split_lines_step, occurs_at, pattern,
    run_without, run_without_exec, slice_chars, split_lines, starts_with_range, str_eq,
    str_to_lowercase, string_of, strip_char, strip_char_range, trim, trim_range,
    unicode_lowercase, utf8_len_range,
};

verus! {

/// Text input method for typing transcribed text.
#[derive(Debug, Clone, Copy, PartialEq, Eq, Structural)]
pub enum TypingMode {
    /// Disable typing output entirely (useful for IPC-only mode).
    Disabled,
    /// Auto-detect: wtype on Omarchy/Hyprland, clipboard paste otherwise.
    Auto,
    /// Force wtype (character-by-character with inter-key delay).
    Wtype,
    /// Force clipboard paste (wl-copy + Ctrl+V, instant).
    Paste,
}

impl Default for TypingMode {
    fn default() -> (r: Self)
        ensures
            r == TypingMode::Auto,
    {
        TypingMode::Auto
    }
}

impl TypingMode {
    /// The mode's name as the interface shows it.
    pub open spec fn display_name_spec(self) -> Seq<char> {
        match self {
            TypingMode::Auto => "Auto"@,
            TypingMode::Wtype => "Wtype"@,
            TypingMode::Paste => "Paste"@,
            TypingMode::Disabled => "None"@,
        }
    }

    /// Display name for rendering.
    pub fn display_name(self) -> (r: &'static str)
        ensures
            r@ == self.display_name_spec(),
    {
        match self {
            TypingMode::Auto => "Auto",
            TypingMode::Wtype => "Wtype",
            TypingMode::Paste => "Paste",
            TypingMode::Disabled => "None",
        }
    }

    /// The next mode in the cycle Auto, Wtype, Paste, Auto; from None
    /// (typing off) the cycle resumes at Auto.
    pub open spec fn next_spec(self) -> TypingMode {
        match self {
            TypingMode::Auto => TypingMode::Wtype,
            TypingMode::Wtype => TypingMode::Paste,
            TypingMode::Paste => TypingMode::Auto,
            TypingMode::Disabled => TypingMode::Auto,
        }
    }

    /// Cycles to the next mode.
    pub fn next(self) -> (r: Self)
        ensures
            r == self.next_spec(),
    {
        match self {
            TypingMode::Auto => TypingMode::Wtype,
            TypingMode::Wtype => TypingMode::Paste,
            TypingMode::Paste => TypingMode::Auto,
            TypingMode::Disabled => TypingMode::Auto,
        }
    }
}

/// Cycling through typing modes visits Auto, Wtype and Paste and returns to
/// the start after three steps; it never lands on None, and from None it
/// resumes at Auto.
pub proof fn law_typing_mode_cycle(m: TypingMode)
    ensures
        m != TypingMode::Disabled ==> m.next_spec().next_spec().next_spec() == m,
        m.next_spec() != m,
        m.next_spec() != TypingMode::Disabled,
        TypingMode::Disabled.next_spec() == TypingMode::Auto,
{
}


// ---------------------------------------------------------------------------
// Keyboard layout detection
// ---------------------------------------------------------------------------

/// The transcription language for a keyboard layout code.
pub open spec fn language_of_layout(layout: Seq<char>) -> Option<Seq<char>> {
    if layout == "us"@ || layout == "gb"@ || layout == "uk"@ {
        Some("en"@)
    } else if layout == "no"@ || layout == "no+nodeadkeys"@ {
        Some("no"@)
    } else if layout == "de"@ {
        Some("de"@)
    } else if layout == "fr"@ {
        Some("fr"@)
    } else if layout == "es"@ {
        Some("es"@)
    } else if layout == "se"@ {
        Some("sv"@)
    } else if layout == "dk"@ {
        Some("da"@)
    } else if layout == "fi"@ {
        Some("fi"@)
    } else {
        None
    }
}

/// The ISO 639-1 transcription language of each keyboard layout that the
/// program recognises, as (layout, language) pairs.
pub open spec fn layout_language_table() -> Seq<(Seq<char>, Seq<char>)> {
    seq![
        ("us"@, "en"@),
        ("gb"@, "en"@),
        ("uk"@, "en"@),
        ("no"@, "no"@),
        ("no+nodeadkeys"@, "no"@),
        ("de"@, "de"@),
        ("fr"@, "fr"@),
        ("es"@, "es"@),
        ("se"@, "sv"@),
        ("dk"@, "da"@),
        ("fi"@, "fi"@),
    ]
}

/// A recognised layout is transcribed in its language from the table
/// (Swedish `se` in `sv`, Danish `dk` in `da`, ...), and any other layout
/// gives no language.
pub proof fn law_layout_languages(layout: Seq<char>)
    ensures
        forall|i: int|
            0 <= i < layout_language_table().len() && (#[trigger] layout_language_table()[i]).0 == layout
                ==> language_of_layout(layout) == Some(layout_language_table()[i].1),
        (forall|i: int| 0 <= i < layout_language_table().len() ==> (#[trigger] layout_language_table()[i]).0
            != layout) ==> language_of_layout(layout) is None,
{
    reveal_strlit("us");
    reveal_strlit("gb");
    reveal_strlit("uk");
    reveal_strlit("no");
    reveal_strlit("no+nodeadkeys");
    reveal_strlit("de");
    reveal_strlit("fr");
    reveal_strlit("es");
    reveal_strlit("se");
    reveal_strlit("dk");
    reveal_strlit("fi");
    reveal_strlit("en");
    reveal_strlit("sv");
    reveal_strlit("da");
    let t = layout_language_table();
    assert(t[0] == ("us"@, "en"@));
    assert(t[1] == ("gb"@, "en"@));
    assert(t[2] == ("uk"@, "en"@));
    assert(t[3] == ("no"@, "no"@));
    assert(t[4] == ("no+nodeadkeys"@, "no"@));
    assert(t[5] == ("de"@, "de"@));
    assert(t[6] == ("fr"@, "fr"@));
    assert(t[7] == ("es"@, "es"@));
    assert(t[8] == ("se"@, "sv"@));
    assert(t[9] == ("dk"@, "da"@));
    assert(t[10] == ("fi"@, "fi"@));
    assert forall|i: int| 0 <= i < t.len() && (#[trigger] t[i]).0 == layout implies language_of_layout(layout)
        == Some(t[i].1) by {
        if layout.len() == 2 {
            assert(layout[0] == t[i].0[0] && layout[1] == t[i].0[1]);
        }
    }
}

/// The layout code for a human-readable keymap name.
pub open spec fn layout_of_keymap(keymap: Seq<char>) -> Option<Seq<char>> {
    let l = unicode_lowercase(keymap);
    if contains_seq(l, "english"@) && contains_seq(l, "us"@) {
        Some("us"@)
    } else if contains_seq(l, "english"@) && contains_seq(l, "uk"@) {
        Some("gb"@)
    } else if contains_seq(l, "norwegian"@) || contains_seq(l, "norsk"@) {
        Some("no"@)
    } else if contains_seq(l, "german"@) || contains_seq(l, "deutsch"@) {
        Some("de"@)
    } else if contains_seq(l, "french"@) || contains_seq(l, "français"@) {
        Some("fr"@)
    } else if contains_seq(l, "spanish"@) || contains_seq(l, "español"@) {
        Some("es"@)
    } else if contains_seq(l, "swedish"@) || contains_seq(l, "svenska"@) {
        Some("se"@)
    } else if contains_seq(l, "danish"@) || contains_seq(l, "dansk"@) {
        Some("dk"@)
    } else if contains_seq(l, "finnish"@) || contains_seq(l, "suomi"@) {
        Some("fi"@)
    } else {
        match first_word(keymap) {
            Some(w) => if byte_len(w) == 2 {
                Some(unicode_lowercase(w))
            } else {
                None
            },
            None => None,
        }
    }
}

/// The first layout in a dconf `mru-sources` value such as
/// `[('xkb', 'no'), ('xkb', 'us')]`.
pub open spec fn mru_first_layout(sources: Seq<char>) -> Option<Seq<char>> {
    let t = trim(sources);
    if !(t.len() > 0 && t[0] == '[' && t.last() == ']') {
        None
    } else {
        match find(t, "('xkb', '"@) {
            Some(i) => {
                let after = t.skip(i + 9);
                match find(after, "')"@) {
                    Some(e) => Some(after.take(e)),
                    None => None,
                }
            },
            None => None,
        }
    }
}

/// The keymap value on a `"active_keymap": "..."` line (already trimmed),
/// when the line has a colon.
pub open spec fn keymap_value(line: Seq<char>) -> Option<Seq<char>> {
    match find(line, ":"@) {
        Some(c) => Some(trim(strip_char(strip_char(trim(line.skip(c + 1)), ','), '"'))),
        None => None,
    }
}

/// The decision of the first line whose trimmed text names `"active_keymap"`
/// and has a colon: the layout of its keymap value (`None` inside when the
/// keymap is unknown). `None` when no line decides.
pub open spec fn first_keymap_decision(lines: Seq<Seq<char>>) -> Option<Option<Seq<char>>>
    decreases lines.len(),
{
    if lines.len() == 0 {
        None
    } else {
        let t = trim(lines[0]);
        if contains_seq(t, "\"active_keymap\""@) && keymap_value(t) is Some {
            Some(layout_of_keymap(keymap_value(t)->0))
        } else {
            first_keymap_decision(lines.drop_first())
        }
    }
}

/// The active keymap layout in `hyprctl devices -j` output: the first
/// `"active_keymap"` line after `"keyboards"`.
pub open spec fn hyprctl_devices_layout(json: Seq<char>) -> Option<Seq<char>> {
    match find(json, "\"keyboards\""@) {
        Some(k) => match first_keymap_decision(split_lines(json.skip(k))) {
            Some(d) => d,
            None => None,
        },
        None => None,
    }
}

/// The first comma-separated field of a `str: us,no` option line (after the
/// `str:` prefix), trimmed.
pub open spec fn option_first_layout(line: Seq<char>) -> Seq<char> {
    let layout = trim(trim(line).skip(4));
    trim(layout.take(run_without(layout, ',') as int))
}

/// The first non-empty layout named on a `str:` line of
/// `hyprctl getoption input:kb_layout` output.
pub open spec fn first_option_layout(lines: Seq<Seq<char>>) -> Option<Seq<char>>
    decreases lines.len(),
{
    if lines.len() == 0 {
        None
    } else if "str:"@.is_prefix_of(trim(lines[0])) && option_first_layout(lines[0]).len() > 0 {
        Some(option_first_layout(lines[0]))
    } else {
        first_option_layout(lines.drop_first())
    }
}

/// Keyboard layout detection for Hyprland and GNOME.
pub struct KeyboardLayout;

/// `Some` of a copied vector, as a string.
fn some_string(v: &Vec<char>) -> (r: Option<String>)
    ensures
        opt_view(r) == Some(v@),
{
    Some(string_of(v))
}

impl KeyboardLayout {
    /// The transcription language for the detected layout: the Hyprland
    /// layout when the compositor reported one, otherwise the GNOME layout.
    /// The GNOME probe only matters when Hyprland reported none.
    pub fn detect_language(
        hyprland_layout: Option<&str>,
        gnome_layout: Option<&str>,
    ) -> (r: Option<String>)
        ensures
            opt_view(r) == match opt_str_view(hyprland_layout) {
                Some(h) => language_of_layout(h),
                None => match opt_str_view(gnome_layout) {
                    Some(g) => language_of_layout(g),
                    None => None,
                },
            },
    {
        match hyprland_layout {
            Some(h) => Self::layout_to_language(h),
            None => match gnome_layout {
                Some(g) => Self::layout_to_language(g),
                None => None,
            },
        }
    }

    /// Maps a keyboard layout code to a transcription language code.
    pub fn layout_to_language(layout: &str) -> (r: Option<String>)
        ensures
            opt_view(r) == language_of_layout(layout@),
    {
        let code = if str_eq(layout, "us") || str_eq(layout, "gb") || str_eq(layout, "uk") {
            "en"
        } else if str_eq(layout, "no") || str_eq(layout, "no+nodeadkeys") {
            "no"
        } else if str_eq(layout, "de") {
            "de"
        } else if str_eq(layout, "fr") {
            "fr"
        } else if str_eq(layout, "es") {
            "es"
        } else if str_eq(layout, "se") {
            "sv"
        } else if str_eq(layout, "dk") {
            "da"
        } else if str_eq(layout, "fi") {
            "fi"
        } else {
            return None;
        };
        Some(code.to_string())
    }

    /// Maps a human-readable keymap name (e.g. `English (US)`) to a layout code.
    pub fn keymap_name_to_layout(keymap: &str) -> (r: Option<String>)
        ensures
            opt_view(r) == layout_of_keymap(keymap@),
    {
        let lower = str_to_lowercase(keymap);
        let l = chars_of(lower.as_str());
        let has = |p: &str| -> (b: bool)
            ensures
                b == contains_seq(l@, p@),
            { contains_exec(&l, &pattern(p)) };
        let code = if has("english") && has("us") {
            "us"
        } else if has("english") && has("uk") {
            "gb"
        } else if has("norwegian") || has("norsk") {
            "no"
        } else if has("german") || has("deutsch") {
            "de"
        } else if has("french") || has("français") {
            "fr"
        } else if has("spanish") || has("español") {
            "es"
        } else if has("swedish") || has("svenska") {
            "se"
        } else if has("danish") || has("dansk") {
            "dk"
        } else if has("finnish") || has("suomi") {
            "fi"
        } else {
            let k = chars_of(keymap);
            return match first_word_exec(&k) {
                Some(w) => {
                    let wb = if w.len() <= 2 {
                        proof {
                            assert(w@.subrange(0, w@.len() as int) =~= w@);
                            lemma_short_byte_len(w@);
                        }
                        utf8_len_range(&w, 0, w.len()) == 2
                    } else {
                        proof {
                            lemma_long_byte_len(w@);
                        }
                        false
                    };
                    if wb {
                        let ws = string_of(&w);
                        Some(str_to_lowercase(ws.as_str()))
                    } else {
                        None
                    }
                },
                None => None,
            };
        };
        Some(code.to_string())
    }

    /// Parses `hyprctl devices -j` output for the active keymap's layout.
    pub fn parse_hyprctl_devices(json_str: &str) -> (r: Option<String>)
        ensures
            opt_view(r) == hyprctl_devices_layout(json_str@),
    {
        let v = chars_of(json_str);
        let k = match find_from_exec(&v, &pattern("\"keyboards\""), 0) {
            Some(k) => k,
            None => return None,
        };
        proof {
            lemma_find_from(v@, "\"keyboards\""@, 0);
        }
        let sec = slice_chars(&v, k, v.len());
        assert(sec@ =~= v@.skip(k as int));
        let marker = pattern("\"active_keymap\"");
        let colon = pattern(":");
        let mut pos: usize = 0;
        assert(sec@.skip(0) =~= sec@);
        loop
            invariant
                pos <= sec.len(),
                sec@ == v@.skip(k as int),
                v@ == json_str@,
                find(v@, "\"keyboards\""@) == Some(k as int),
                marker@ == "\"active_keymap\""@,
                colon@ == ":"@,
                first_keymap_decision(split_lines(sec@)) == first_keymap_decision(
                    split_lines(sec@.skip(pos as int)),
                ),
            decreases sec.len() - pos,
        {
            let e = line_end(&sec, pos);
            proof {
                lemma_split_lines_step(sec@, pos as int, e as int);
                if e < sec.len() {
                    let rest = split_lines(sec@.skip(e + 1));
                    assert((seq![sec@.subrange(pos as int, e as int)] + rest).drop_first() =~= rest);
                    assert((seq![sec@.subrange(pos as int, e as int)] + rest)[0] == sec@.subrange(pos as int, e as int));
                } else {
                    assert(seq![sec@.subrange(pos as int, e as int)].drop_first() =~= Seq::<Seq<char>>::empty());
                }
                assert(split_lines(sec@.skip(pos as int)).len() > 0);
                assert(split_lines(sec@.skip(pos as int))[0] == sec@.subrange(pos as int, e as int));
                assert(first_option_layout(Seq::<Seq<char>>::empty()) is None);
                assert(first_keymap_decision(Seq::<Seq<char>>::empty()) is None);
            }
            let ghost line = sec@.subrange(pos as int, e as int);
            let (a, b) = trim_range(&sec, pos, e);
            let t = slice_chars(&sec, a, b);
            if contains_exec(&t, &marker) {
                let c = find_from_exec(&t, &colon, 0);
                proof {
                    lemma_find_from(t@, ":"@, 0);
                    reveal_strlit(":");
                }
                if let Some(c) = c {
                    let (a1, b1) = trim_range(&t, c + 1, t.len());
                    assert(t@.subrange(c + 1, t@.len() as int) =~= t@.skip(c + 1));
                    let (a2, b2) = strip_char_range(&t, a1, b1, ',');
                    let (a3, b3) = strip_char_range(&t, a2, b2, '"');
                    let (a4, b4) = trim_range(&t, a3, b3);
                    let value = string_of(&slice_chars(&t, a4, b4));
                    return Self::keymap_name_to_layout(value.as_str());
                }
            }
            if e == sec.len() {
                return None;
            }
            pos = e + 1;
        }
    }

    /// Parses a dconf `mru-sources` value for the first (current) layout.
    pub fn parse_dconf_mru_sources(sources: &str) -> (r: Option<String>)
        ensures
            opt_view(r) == mru_first_layout(sources@),
    {
        let v = chars_of(sources);
        let (a, b) = trim_range(&v, 0, v.len());
        assert(v@.subrange(0, v@.len() as int) =~= v@);
        let t = slice_chars(&v, a, b);
        if !(t.len() > 0 && t[0] == '[' && t[t.len() - 1] == ']') {
            return None;
        }
        let i = match find_from_exec(&t, &pattern("('xkb', '"), 0) {
            Some(i) => i,
            None => return None,
        };
        proof {
            lemma_find_from(t@, "('xkb', '"@, 0);
            reveal_strlit("('xkb', '");
        }
        let after = slice_chars(&t, i + 9, t.len());
        assert(after@ =~= t@.skip(i + 9));
        match find_from_exec(&after, &pattern("')"), 0) {
            Some(e) => {
                proof {
                    lemma_find_from(after@, "')"@, 0);
                }
                let s = slice_chars(&after, 0, e);
                assert(s@ =~= after@.take(e as int));
                some_string(&s)
            },
            None => None,
        }
    }

    /// Parses `hyprctl getoption input:kb_layout` output (`str: us,no`) for
    /// the first configured layout.
    pub fn parse_kb_layout_option(output: &str) -> (r: Option<String>)
        ensures
            opt_view(r) == first_option_layout(split_lines(output@)),
    {
        let v = chars_of(output);
        let prefix = pattern("str:");
        let mut pos: usize = 0;
        assert(v@.skip(0) =~= v@);
        loop
            invariant
                pos <= v.len(),
                prefix@ == "str:"@,
                v@ == output@,
                first_option_layout(split_lines(v@)) == first_option_layout(
                    split_lines(v@.skip(pos as int)),
                ),
            decreases v.len() - pos,
        {
            let e = line_end(&v, pos);
            proof {
                lemma_split_lines_step(v@, pos as int, e as int);
                if e < v.len() {
                    let rest = split_lines(v@.skip(e + 1));
                    assert((seq![v@.subrange(pos as int, e as int)] + rest).drop_first() =~= rest);
                    assert((seq![v@.subrange(pos as int, e as int)] + rest)[0] == v@.subrange(pos as int, e as int));
                } else {
                    assert(seq![v@.subrange(pos as int, e as int)].drop_first() =~= Seq::<Seq<char>>::empty());
                }
                assert(split_lines(v@.skip(pos as int)).len() > 0);
                assert(split_lines(v@.skip(pos as int))[0] == v@.subrange(pos as int, e as int));
                assert(first_option_layout(Seq::<Seq<char>>::empty()) is None);
                assert(first_keymap_decision(Seq::<Seq<char>>::empty()) is None);
            }
            let line = slice_chars(&v, pos, e);
            let (a, b) = trim_range(&line, 0, line.len());
            assert(line@.subrange(0, line@.len() as int) =~= line@);
            if starts_with_range(&line, a, b, &prefix) {
                proof {
                    reveal_strlit("str:");
                }
                let (a1, b1) = trim_range(&line, a + 4, b);
                assert(line@.subrange(a + 4, b as int) =~= trim(line@).skip(4));
                let n = run_without_exec(&line, a1, b1, ',');
                let (a2, b2) = trim_range(&line, a1, a1 + n);
                assert(line@.subrange(a1 as int, a1 + n) =~= line@.subrange(a1 as int, b1 as int).take(n as int));
                if b2 > a2 {
                    return some_string(&slice_chars(&line, a2, b2));
                }
            }
            if e == v.len() {
                return None;
            }
            pos = e + 1;
        }
    }
}

/// A word of at most two characters has its byte length computable in `usize`.
proof fn lemma_short_byte_len(w: Seq<char>)
    requires
        w.len() <= 2,
    ensures
        byte_len(w) <= 8,
{
    if w.len() == 0 {
        crate::text::lemma_byte_len_empty();
    } else if w.len() == 1 {
        crate::text::lemma_byte_len_empty();
        crate::text::lemma_byte_len_push(Seq::<char>::empty(), w[0]);
        assert(Seq::<char>::empty().push(w[0]) =~= w);
        crate::text::lemma_char_width(w[0]);
    } else {
        crate::text::lemma_byte_len_empty();
        crate::text::lemma_byte_len_push(Seq::<char>::empty(), w[0]);
        crate::text::lemma_byte_len_push(seq![w[0]], w[1]);
        assert(Seq::<char>::empty().push(w[0]) =~= seq![w[0]]);
        assert(seq![w[0]].push(w[1]) =~= w);
        crate::text::lemma_char_width(w[0]);
        crate::text::lemma_char_width(w[1]);
    }
}

/// A word of three or more characters takes more than two bytes.
proof fn lemma_long_byte_len(w: Seq<char>)
    requires
        w.len() > 2,
    ensures
        byte_len(w) > 2,
{
    assert(w =~= w.take(w.len() as int));
    crate::text::lemma_byte_len_take_mono(w, 0, 1);
    crate::text::lemma_byte_len_take_mono(w, 1, 2);
    crate::text::lemma_byte_len_take_mono(w, 2, 3);
    crate::text::lemma_byte_len_take_mono(w, 3, w.len() as int);
    crate::text::lemma_byte_len_empty();
    assert(w.take(0) =~= Seq::<char>::empty());
}


// ---------------------------------------------------------------------------
// Notifications
// ---------------------------------------------------------------------------

/// Notification urgency levels.
#[derive(Debug, Clone, Copy, PartialEq, Eq, Structural)]
pub enum Urgency {
    Low,
    Normal,
    Critical,
}

/// The `notify-send` name of an urgency.
pub open spec fn urgency_text(u: Urgency) -> Seq<char> {
    match u {
        Urgency::Low => "low"@,
        Urgency::Normal => "normal"@,
        Urgency::Critical => "critical"@,
    }
}

impl Urgency {
    /// The `notify-send` name of this urgency.
    pub fn as_str(&self) -> (r: &'static str)
        ensures
            r@ == urgency_text(*self),
    {
        match self {
            Urgency::Low => "low",
            Urgency::Normal => "normal",
            Urgency::Critical => "critical",
        }
    }
}

/// The `notify-send` arguments for a notification.
pub open spec fn notify_args(message: Seq<char>, urgency: Urgency) -> Seq<Seq<char>> {
    seq!["-u"@, urgency_text(urgency), "-a"@, "ears"@, message]
}

/// The views of a list of strings.
pub open spec fn strings_view(v: Seq<String>) -> Seq<Seq<char>> {
    v.map_values(|s: String| s@)
}

/// Desktop notifications, sent with `notify-send`. The library builds the
/// argument list; the caller runs the program.
pub struct Notifications;

impl Notifications {
    /// The `notify-send` arguments for `message` at `urgency`.
    pub fn command_args(message: &str, urgency: Urgency) -> (r: Vec<String>)
        ensures
            strings_view(r@) == notify_args(message@, urgency),
    {
        let mut r: Vec<String> = Vec::new();
        r.push("-u".to_string());
        r.push(urgency.as_str().to_string());
        r.push("-a".to_string());
        r.push("ears".to_string());
        r.push(crate::text::copy_str(message));
        proof {
            broadcast use vstd::string::group_string_axioms;
        }
        assert(strings_view(r@) =~= notify_args(message@, urgency));
        r
    }

    /// The `notify-send` arguments for a low-priority notification.
    pub fn info(message: &str) -> (r: Vec<String>)
        ensures
            strings_view(r@) == notify_args(message@, Urgency::Low),
    {
        Self::command_args(message, Urgency::Low)
    }

    /// The `notify-send` arguments for a normal-priority notification.
    pub fn warn(message: &str) -> (r: Vec<String>)
        ensures
            strings_view(r@) == notify_args(message@, Urgency::Normal),
    {
        Self::command_args(message, Urgency::Normal)
    }

    /// The `notify-send` arguments for a high-priority notification.
    pub fn error(message: &str) -> (r: Vec<String>)
        ensures
            strings_view(r@) == notify_args(message@, Urgency::Critical),
    {
        Self::command_args(message, Urgency::Critical)
    }
}

// ---------------------------------------------------------------------------
// Audio feedback
// ---------------------------------------------------------------------------

/// A cue to play: the sound's name (a custom `<name>.wav` overrides the
/// embedded sound) and the PulseAudio volume (0 to 65536).
#[derive(Debug, Clone, Copy, PartialEq, Eq)]
pub struct CuePlayback {
    pub name: &'static str,
    pub pa_volume: u32,
}

/// The PulseAudio volume for a cue volume in percent.
pub open spec fn pa_volume_of(volume: u8) -> u32 {
    (volume as u32 * 65536 / 100) as u32
}

/// Audio cues with a volume (0 to 100). A volume of 0 plays nothing.
pub struct AudioFeedback {
    volume: u8,
}

impl AudioFeedback {
    /// The cue volume in percent.
    pub closed spec fn volume(&self) -> u8 {
        self.volume
    }

    /// Cues at full volume.
    pub fn new() -> (r: Self)
        ensures
            r.volume() == 100,
    {
        AudioFeedback { volume: 100 }
    }

    /// Sets the cue volume, capped at 100.
    pub fn set_volume(&mut self, volume: u8)
        ensures
            final(self).volume() == if volume > 100 {
                100
            } else {
                volume
            },
    {
        self.volume = if volume > 100 { 100 } else { volume };
    }

    /// The cue volume (0 to 100).
    pub fn get_volume(&self) -> (r: u8)
        ensures
            r == self.volume(),
    {
        self.volume
    }

    /// The playback of the cue named `name`, or `None` when muted.
    pub fn cue(&self, name: &'static str) -> (r: Option<CuePlayback>)
        requires
            self.volume() <= 100,
        ensures
            self.volume() == 0 ==> r is None,
            self.volume() != 0 ==> r == Some(
                CuePlayback { name, pa_volume: pa_volume_of(self.volume()) },
            ),
    {
        if self.volume == 0 {
            return None;
        }
        let v = self.volume as u32;
        Some(CuePlayback { name, pa_volume: v * 65536 / 100 })
    }

    /// Recording started (E5).
    pub fn beep_start(&self) -> (r: Option<CuePlayback>)
        requires
            self.volume() <= 100,
        ensures
            r == (if self.volume() == 0 { None } else { Some(CuePlayback { name: "start", pa_volume: pa_volume_of(self.volume()) }) }),
    {
        self.cue("start")
    }

    /// Transcription complete (E4).
    pub fn beep_done(&self) -> (r: Option<CuePlayback>)
        requires
            self.volume() <= 100,
        ensures
            r == (if self.volume() == 0 { None } else { Some(CuePlayback { name: "done", pa_volume: pa_volume_of(self.volume()) }) }),
    {
        self.cue("done")
    }

    /// Error bell (double B4).
    pub fn beep_error(&self) -> (r: Option<CuePlayback>)
        requires
            self.volume() <= 100,
        ensures
            r == (if self.volume() == 0 { None } else { Some(CuePlayback { name: "bell", pa_volume: pa_volume_of(self.volume()) }) }),
    {
        self.cue("bell")
    }

    /// VAD mode opened.
    pub fn beep_vad_open(&self) -> (r: Option<CuePlayback>)
        requires
            self.volume() <= 100,
        ensures
            r == (if self.volume() == 0 { None } else { Some(CuePlayback { name: "vad_open", pa_volume: pa_volume_of(self.volume()) }) }),
    {
        self.cue("vad_open")
    }

    /// VAD mode closed.
    pub fn beep_vad_close(&self) -> (r: Option<CuePlayback>)
        requires
            self.volume() <= 100,
        ensures
            r == (if self.volume() == 0 { None } else { Some(CuePlayback { name: "vad_close", pa_volume: pa_volume_of(self.volume()) }) }),
    {
        self.cue("vad_close")
    }

    /// Speech detected.
    pub fn beep_vad_speech(&self) -> (r: Option<CuePlayback>)
        requires
            self.volume() <= 100,
        ensures
            r == (if self.volume() == 0 { None } else { Some(CuePlayback { name: "vad_speech", pa_volume: pa_volume_of(self.volume()) }) }),
    {
        self.cue("vad_speech")
    }

    /// Probable speech (first note).
    pub fn beep_vad_speech_start(&self) -> (r: Option<CuePlayback>)
        requires
            self.volume() <= 100,
        ensures
            r == (if self.volume() == 0 { None } else { Some(CuePlayback { name: "vad_speech_start", pa_volume: pa_volume_of(self.volume()) }) }),
    {
        self.cue("vad_speech_start")
    }

    /// Confirmed speech (second note).
    pub fn beep_vad_speech_confirm(&self) -> (r: Option<CuePlayback>)
        requires
            self.volume() <= 100,
        ensures
            r == (if self.volume() == 0 { None } else { Some(CuePlayback { name: "vad_speech_confirm", pa_volume: pa_volume_of(self.volume()) }) }),
    {
        self.cue("vad_speech_confirm")
    }

    /// Speech ended.
    pub fn beep_vad_end(&self) -> (r: Option<CuePlayback>)
        requires
            self.volume() <= 100,
        ensures
            r == (if self.volume() == 0 { None } else { Some(CuePlayback { name: "vad_end", pa_volume: pa_volume_of(self.volume()) }) }),
    {
        self.cue("vad_end")
    }

    /// Toggle switched on.
    pub fn beep_toggle_on(&self) -> (r: Option<CuePlayback>)
        requires
            self.volume() <= 100,
        ensures
            r == (if self.volume() == 0 { None } else { Some(CuePlayback { name: "toggle_on", pa_volume: pa_volume_of(self.volume()) }) }),
    {
        self.cue("toggle_on")
    }

    /// Toggle switched off.
    pub fn beep_toggle_off(&self) -> (r: Option<CuePlayback>)
        requires
            self.volume() <= 100,
        ensures
            r == (if self.volume() == 0 { None } else { Some(CuePlayback { name: "toggle_off", pa_volume: pa_volume_of(self.volume()) }) }),
    {
        self.cue("toggle_off")
    }
}

/// The cue volume never exceeds 100 once set, and full volume maps to the
/// full PulseAudio scale.
pub proof fn law_cue_volume_bounds(volume: u8)
    ensures
        volume <= 100 ==> pa_volume_of(volume) <= 65536,
        pa_volume_of(100) == 65536,
        pa_volume_of(0) == 0,
{
}

// ---------------------------------------------------------------------------
// Text input
// ---------------------------------------------------------------------------

/// The program that types the text.
#[derive(Debug, Clone, Copy, PartialEq, Eq, Structural)]
pub enum TypingBackend {
    /// `wtype`, character by character.
    Wtype,
    /// Clipboard paste (`wl-copy` then Ctrl+V).
    Paste,
}

/// Deadline in milliseconds for typing `text`: five seconds plus 20 ms per
/// character (the character count taken as a `u32`).
pub open spec fn typing_timeout_spec(text: Seq<char>) -> u64 {
    (5000 + 20 * (text.len() as u32) as int) as u64
}

/// Deadline in milliseconds for typing `text`.
pub fn typing_timeout_ms(text: &str) -> (r: u64)
    ensures
        r == typing_timeout_spec(text@),
{
    let v = chars_of(text);
    #[verifier::truncate]
    let n = v.len() as u32;
    5000 + 20 * (n as u64)
}

/// Text input automation: chooses the typing program, caching the desktop
/// capability probe (Hyprland answering and `wtype` installed).
pub struct TextInput {
    omarchy: Option<bool>,
}

impl TextInput {
    /// The cached probe result (`None` = not probed yet).
    pub closed spec fn cached(&self) -> Option<bool> {
        self.omarchy
    }

    /// No probe cached yet.
    pub fn new() -> (r: Self)
        ensures
            r.cached() is None,
    {
        TextInput { omarchy: None }
    }

    /// Forgets the cached probe so the next choice re-probes.
    pub fn refresh_capabilities(&mut self)
        ensures
            final(self).cached() is None,
    {
        self.omarchy = None;
    }

    /// The cached probe result.
    pub fn cached_capability(&self) -> (r: Option<bool>)
        ensures
            r == self.cached(),
    {
        self.omarchy
    }

    /// Chooses how to type text in `mode`: `None` types nothing, `Wtype` and
    /// `Paste` force their program, and `Auto` uses wtype when the desktop
    /// probe succeeds and paste otherwise. `probe` runs only when `Auto`
    /// needs a result that is not cached; its result is then cached.
    pub fn type_text<F: FnOnce() -> bool>(&mut self, mode: TypingMode, probe: F) -> (r: Option<
        TypingBackend,
    >)
        requires
            mode == TypingMode::Auto && old(self).cached() is None ==> call_requires(probe, ()),
        ensures
            mode == TypingMode::Disabled ==> r is None && final(self).cached() == old(self).cached(),
            mode == TypingMode::Wtype ==> r == Some(TypingBackend::Wtype) && final(self).cached()
                == old(self).cached(),
            mode == TypingMode::Paste ==> r == Some(TypingBackend::Paste) && final(self).cached()
                == old(self).cached(),
            mode == TypingMode::Auto && old(self).cached() is Some ==> final(self).cached()
                == old(self).cached() && r == Some(
                if old(self).cached()->0 {
                    TypingBackend::Wtype
                } else {
                    TypingBackend::Paste
                },
            ),
            mode == TypingMode::Auto && old(self).cached() is None ==> final(self).cached() is Some
                && call_ensures(probe, (), final(self).cached()->0) && r == Some(
                if final(self).cached()->0 {
                    TypingBackend::Wtype
                } else {
                    TypingBackend::Paste
                },
            ),
    {
        match mode {
            TypingMode::Disabled => None,
            TypingMode::Wtype => Some(TypingBackend::Wtype),
            TypingMode::Paste => Some(TypingBackend::Paste),
            TypingMode::Auto => {
                let omarchy = match self.omarchy {
                    Some(b) => b,
                    None => {
                        let b = probe();
                        self.omarchy = Some(b);
                        b
                    },
                };
                if omarchy {
                    Some(TypingBackend::Wtype)
                } else {
                    Some(TypingBackend::Paste)
                }
            },
        }
    }

    /// Records that typing in `mode` failed: an automatically chosen backend
    /// may have become unavailable, so the probe is forgotten.
    pub fn typing_failed(&mut self, mode: TypingMode)
        ensures
            mode == TypingMode::Auto ==> final(self).cached() is None,
            mode != TypingMode::Auto ==> final(self).cached() == old(self).cached(),
    {
        if mode == TypingMode::Auto {
            self.refresh_capabilities();
        }
    }
}

/// The wtype arguments for typing `text` (4 ms inter-key delay).
pub fn wtype_args(text: &str) -> (r: Vec<String>)
    ensures
        strings_view(r@) == seq!["-d"@, "4"@, "--"@, text@],
{
    let mut r: Vec<String> = Vec::new();
    r.push("-d".to_string());
    r.push("4".to_string());
    r.push("--".to_string());
    r.push(crate::text::copy_str(text));
    proof {
        broadcast use vstd::string::group_string_axioms;
    }
    assert(strings_view(r@) =~= seq!["-d"@, "4"@, "--"@, text@]);
    r
}

} // verus!
