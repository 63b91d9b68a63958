//! What the terminal interface shows: each panel as lines of toned text,
//! and the clickable regions a panel registers while it is drawn.
//!
//! The program around the library draws the lines with its terminal
//! toolkit, mapping each [`Tone`] to a colour of the active theme.
use vstd::prelude::*;
use crate::audio::AudioDevice;
use crate::desktop::TypingMode;
use crate::text::{byte_len, decimal, decimal_string, line_len, opt_view, string_push};
use crate::tui::{ClickAction, EditableField, LogFilter, Panel};
use crate::tui_app::{App, ClickableRegion, Rect};

verus! {

/// How a piece of text is drawn.
#[derive(Debug, Clone, Copy, PartialEq, Eq, Structural)]
pub enum Tone {
    /// Default style.
    Plain,
    /// Bold.
    Bold,
    /// Bold, in the active-border colour (a field being edited).
    BoldActive,
    /// The theme's text colour.
    Text,
    /// Dimmed.
    Dim,
    /// The marker of a setting taken from the environment.
    EnvMark,
    /// The theme's title colour.
    Title,
    /// The accent colour.
    Accent,
    /// Bold, in the accent colour.
    AccentBold,
    /// The error colour.
    Error,
    /// The colour of key hints and toggles.
    Toggle,
    /// The success colour.
    Success,
    /// Gray.
    Gray,
    /// Slowly blinking (a cursor).
    Blink,
    /// Cyan.
    Cyan,
    /// Dark gray.
    DarkGray,
}

/// A piece of text and how it is drawn.
#[derive(Debug, Clone, PartialEq, Eq)]
pub struct Piece {
    pub text: String,
    pub tone: Tone,
}

/// A panel's lines and whether its border is drawn as active.
#[derive(Debug, Clone, PartialEq, Eq)]
pub struct PanelView {
    pub lines: Vec<Vec<Piece>>,
    pub border_active: bool,
}

/// A piece as text and tone.
pub open spec fn pv(p: Piece) -> (Seq<char>, Tone) {
    (p.text@, p.tone)
}

/// A line as texts and tones.
pub open spec fn line_v(l: Seq<Piece>) -> Seq<(Seq<char>, Tone)> {
    l.map_values(|p: Piece| pv(p))
}

/// Lines as texts and tones.
pub open spec fn lines_v(ls: Seq<Vec<Piece>>) -> Seq<Seq<(Seq<char>, Tone)>> {
    ls.map_values(|l: Vec<Piece>| line_v(l@))
}

fn piece(text: &str, tone: Tone) -> (r: Piece)
    ensures
        pv(r) == (text@, tone),
{
    Piece { text: text.to_string(), tone }
}

fn owned(text: String, tone: Tone) -> (r: Piece)
    ensures
        pv(r) == (text@, tone),
{
    Piece { text, tone }
}

fn l0() -> (r: Vec<Piece>)
    ensures
        line_v(r@) == Seq::<(Seq<char>, Tone)>::empty(),
{
    let r: Vec<Piece> = Vec::new();
    assert(line_v(r@) =~= Seq::<(Seq<char>, Tone)>::empty());
    r
}

fn l1(a: Piece) -> (r: Vec<Piece>)
    ensures
        line_v(r@) == seq![pv(a)],
{
    let r = vec![a];
    assert(line_v(r@) =~= seq![pv(a)]);
    r
}

fn l2(a: Piece, b: Piece) -> (r: Vec<Piece>)
    ensures
        line_v(r@) == seq![pv(a), pv(b)],
{
    let r = vec![a, b];
    assert(line_v(r@) =~= seq![pv(a), pv(b)]);
    r
}

fn l3(a: Piece, b: Piece, c: Piece) -> (r: Vec<Piece>)
    ensures
        line_v(r@) == seq![pv(a), pv(b), pv(c)],
{
    let r = vec![a, b, c];
    assert(line_v(r@) =~= seq![pv(a), pv(b), pv(c)]);
    r
}

fn l4(a: Piece, b: Piece, c: Piece, d: Piece) -> (r: Vec<Piece>)
    ensures
        line_v(r@) == seq![pv(a), pv(b), pv(c), pv(d)],
{
    let r = vec![a, b, c, d];
    assert(line_v(r@) =~= seq![pv(a), pv(b), pv(c), pv(d)]);
    r
}

fn l6(a: Piece, b: Piece, c: Piece, d: Piece, e: Piece, f: Piece) -> (r: Vec<Piece>)
    ensures
        line_v(r@) == seq![pv(a), pv(b), pv(c), pv(d), pv(e), pv(f)],
{
    let r = vec![a, b, c, d, e, f];
    assert(line_v(r@) =~= seq![pv(a), pv(b), pv(c), pv(d), pv(e), pv(f)]);
    r
}

fn l8(a: Piece, b: Piece, c: Piece, d: Piece, e: Piece, f: Piece, g: Piece, h: Piece) -> (r:
    Vec<Piece>)
    ensures
        line_v(r@) == seq![pv(a), pv(b), pv(c), pv(d), pv(e), pv(f), pv(g), pv(h)],
{
    let r = vec![a, b, c, d, e, f, g, h];
    assert(line_v(r@) =~= seq![pv(a), pv(b), pv(c), pv(d), pv(e), pv(f), pv(g), pv(h)]);
    r
}

fn push_line(lines: &mut Vec<Vec<Piece>>, l: Vec<Piece>)
    ensures
        lines_v(final(lines)@) == lines_v(old(lines)@).push(line_v(l@)),
{
    let ghost lv = line_v(l@);
    lines.push(l);
    assert(lines_v(lines@) =~= lines_v(old(lines)@).push(lv));
}

fn append_lines(lines: &mut Vec<Vec<Piece>>, more: Vec<Vec<Piece>>)
    ensures
        lines_v(final(lines)@) == lines_v(old(lines)@) + lines_v(more@),
{
    let mut more = more;
    let ghost m = more@;
    lines.append(&mut more);
    assert(lines_v(lines@) =~= lines_v(old(lines)@) + lines_v(m));
}

// ---------------------------------------------------------------------------
// Common lines
// ---------------------------------------------------------------------------

/// A checkbox: `[x]` when on, `[ ]` when off.
pub open spec fn mark(on: bool) -> Seq<char> {
    if on { "[x]"@ } else { "[ ]"@ }
}

fn mark_str(on: bool) -> (r: &'static str)
    ensures
        r@ == mark(on),
{
    if on { "[x]" } else { "[ ]" }
}

/// A checkbox line for a setting.
pub open spec fn checkbox_v(on: bool, label: Seq<char>, tone: Tone) -> Seq<(Seq<char>, Tone)> {
    seq![("  "@, Tone::Plain), (mark(on), tone), (label, Tone::Plain)]
}

fn checkbox(on: bool, label: &str, tone: Tone) -> (r: Vec<Piece>)
    ensures
        line_v(r@) == checkbox_v(on, label@, tone),
{
    l3(piece("  ", Tone::Plain), piece(mark_str(on), tone), piece(label, Tone::Plain))
}

/// A bold heading.
pub open spec fn heading_v(text: Seq<char>) -> Seq<(Seq<char>, Tone)> {
    seq![(text, Tone::Bold)]
}

fn heading(text: &str) -> (r: Vec<Piece>)
    ensures
        line_v(r@) == heading_v(text@),
{
    l1(piece(text, Tone::Bold))
}

/// The empty line.
pub open spec fn blank_v() -> Seq<(Seq<char>, Tone)> {
    Seq::empty()
}

/// `Some` text, or the fallback.
pub open spec fn or_else(o: Option<Seq<char>>, fallback: Seq<char>) -> Seq<char> {
    match o {
        Some(s) => s,
        None => fallback,
    }
}

fn or_else_str(o: &Option<String>, fallback: &str) -> (r: String)
    ensures
        r@ == or_else(opt_view(*o), fallback@),
{
    match o {
        Some(s) => s.clone(),
        None => fallback.to_string(),
    }
}

/// The region covering one line of a panel's inner area (inside its
/// border).
pub open spec fn row_region(area: Rect, line: int, action: ClickAction) -> ClickableRegion {
    ClickableRegion {
        rect: Rect {
            x: (area.x + 1) as u16,
            y: (area.y + 1 + line) as u16,
            width: if area.width >= 2 { (area.width - 2) as u16 } else { 0 },
            height: 1,
        },
        action,
    }
}

// ---------------------------------------------------------------------------
// Configuration panel
// ---------------------------------------------------------------------------

/// Whether the server URL is being edited.
pub open spec fn editing_server(app: App) -> bool {
    app.editing_field == Some(EditableField::ServerUrl)
}

/// The server line: the edit buffer with a cursor while editing, else the
/// URL and its key (or an environment marker).
pub open spec fn server_line_v(app: App) -> Seq<(Seq<char>, Tone)> {
    if editing_server(app) {
        seq![("Server URL: "@, Tone::BoldActive), (app.edit_buffer@, Tone::Text), ("_"@, Tone::Blink)]
    } else {
        seq![
            ("Server URL: "@, Tone::Bold),
            (app.server@, Tone::Plain),
            if app.env_server { (" [env]"@, Tone::EnvMark) } else { (" [e]"@, Tone::Dim) },
        ]
    }
}

/// The lines above the device section.
pub open spec fn config_top_v(app: App) -> Seq<Seq<(Seq<char>, Tone)>> {
    seq![
        blank_v(),
        seq![
            ("Profile: "@, Tone::Bold),
            (or_else(opt_view(app.profile), "default"@), Tone::Title),
            (" [Shift+P]"@, Tone::Dim),
        ],
        blank_v(),
        server_line_v(app),
        blank_v(),
        if app.env_model {
            seq![("Model: "@, Tone::Bold), (app.model@, Tone::Plain), (" [env]"@, Tone::EnvMark)]
        } else {
            seq![("Model: "@, Tone::Bold), (app.model@, Tone::Plain)]
        },
        blank_v(),
    ]
}

/// One entry of the open device picker: a `>` marks the selection, which
/// is drawn in the accent colour; the current device is drawn in the title
/// colour and marked.
pub open spec fn device_entry_v(app: App, i: int) -> Seq<(Seq<char>, Tone)> {
    let d = app.device_picker_devices@[i];
    let selected = i == app.device_picker_selected;
    let current = d.name@ == app.device@;
    let tone = if selected {
        Tone::AccentBold
    } else if current {
        Tone::Title
    } else {
        Tone::Plain
    };
    let base = seq![(if selected { "  > "@ } else { "    "@ }, tone), (d.description@, tone)];
    if current {
        base.push((" (current)"@, Tone::Dim))
    } else {
        base
    }
}

/// Whether the open device picker lists devices (rather than an error).
pub open spec fn picker_lists(app: App) -> bool {
    app.device_picker_open && app.device_picker_error is None
}

/// The device section: the picker when it is open, else the device line.
pub open spec fn config_devices_v(app: App) -> Seq<Seq<(Seq<char>, Tone)>> {
    if app.device_picker_open {
        let header = seq![
            ("Audio Device: "@, Tone::BoldActive),
            ("(j/k navigate, Enter select, Esc cancel)"@, Tone::Dim),
        ];
        match app.device_picker_error {
            Some(e) => seq![header, seq![("  "@ + e@, Tone::Error)]],
            None => seq![header] + Seq::new(
                app.device_picker_devices@.len(),
                |i: int| device_entry_v(app, i),
            ),
        }
    } else {
        seq![
            seq![
                ("Audio Device: "@, Tone::Bold),
                (app.device@, Tone::Plain),
                if app.env_device { (" [env]"@, Tone::EnvMark) } else { (" [d]"@, Tone::Dim) },
            ],
        ]
    }
}

/// Number of lines of the device section.
pub open spec fn device_section_len(app: App) -> int {
    if !app.device_picker_open {
        1
    } else if app.device_picker_error is Some {
        2
    } else {
        1 + app.device_picker_devices@.len() as int
    }
}

/// The key hints at the bottom of the configuration panel.
pub open spec fn config_help_v(app: App) -> Seq<(Seq<char>, Tone)> {
    if app.device_picker_open {
        seq![
            ("[j/k] "@, Tone::Toggle),
            ("Navigate  "@, Tone::Plain),
            ("[Enter] "@, Tone::Toggle),
            ("Select  "@, Tone::Plain),
            ("[Esc] "@, Tone::Toggle),
            ("Cancel"@, Tone::Plain),
        ]
    } else if editing_server(app) {
        seq![
            ("[Enter] "@, Tone::Toggle),
            ("Save  "@, Tone::Plain),
            ("[Esc] "@, Tone::Toggle),
            ("Cancel"@, Tone::Plain),
        ]
    } else {
        seq![(CONFIG_KEYS@, Tone::Dim)]
    }
}

/// The key summary of the configuration panel.
pub const CONFIG_KEYS: &'static str =
    "[P] Profile  [e] URL  [d] Device  [L] Lang  [f] Lower  [p] Punct  [n] Enter  [t] Typing  [a] Auto-corr  [m] Mode  [+/-] Vol";

/// The display name of a typing mode.
pub open spec fn mode_name(m: TypingMode) -> Seq<char> {
    match m {
        TypingMode::Auto => "Auto"@,
        TypingMode::Wtype => "Wtype"@,
        TypingMode::Paste => "Paste"@,
        TypingMode::Disabled => "None"@,
    }
}

/// The lines below the device section: language, text filters, typing
/// settings and key hints.
pub open spec fn config_rest_v(app: App) -> Seq<Seq<(Seq<char>, Tone)>> {
    seq![
        blank_v(),
        seq![
            ("Language: "@, Tone::Bold),
            (or_else(opt_view(app.language), "auto"@), Tone::Plain),
            if app.env_language {
                (" [env]"@, Tone::EnvMark)
            } else {
                (" (Shift+L to cycle)"@, Tone::Dim)
            },
        ],
        blank_v(),
        blank_v(),
        heading_v("Text Filters:"@),
        checkbox_v(app.text_filters.lowercase, " Lowercase [f]"@, Tone::Accent),
        checkbox_v(app.text_filters.remove_punctuation, " Remove Punctuation [p]"@, Tone::Accent),
        checkbox_v(app.text_filters.strict_alphabet, " Strict Alphabet [s]"@, Tone::Accent),
        blank_v(),
        heading_v("Typing Settings:"@),
        checkbox_v(app.progressive_typing, " Progressive Typing [t]"@, Tone::Cyan),
        checkbox_v(app.auto_correction, " Auto-correction [a]"@, Tone::Cyan),
        checkbox_v(app.auto_enter, " Auto Enter [n]"@, Tone::Cyan),
        checkbox_v(app.save_to_clipboard, " Save to Clipboard [b]"@, Tone::Cyan),
        seq![("  "@, Tone::Plain), (mode_name(app.typing_mode), Tone::Cyan), (" [m]"@, Tone::DarkGray)],
        seq![
            ("  Cue Volume: "@, Tone::Plain),
            (decimal(app.cue_volume as nat) + "%"@, Tone::Cyan),
            (" [+/-]"@, Tone::DarkGray),
        ],
        blank_v(),
        config_help_v(app),
    ]
}

/// The configuration panel's lines.
pub open spec fn config_lines(app: App) -> Seq<Seq<(Seq<char>, Tone)>> {
    config_top_v(app) + config_devices_v(app) + config_rest_v(app)
}

/// The click regions of a configuration panel whose device section has
/// `d` lines and which lists `n` devices when `lists` holds, in the order
/// they are registered: each setting's checkbox line toggles it, the typing
/// mode line cycles it, and each listed device selects it.
pub open spec fn config_regions_of(area: Rect, d: int, lists: bool, n: nat) -> Seq<ClickableRegion> {
    seq![
        row_region(area, 12 + d, ClickAction::ToggleLowercaseFilter),
        row_region(area, 13 + d, ClickAction::TogglePunctuationFilter),
        row_region(area, 14 + d, ClickAction::ToggleStrictAlphabetFilter),
        row_region(area, 19 + d, ClickAction::ToggleAutoEnter),
        row_region(area, 20 + d, ClickAction::ToggleSaveToClipboard),
        row_region(area, 17 + d, ClickAction::ToggleProgressiveTyping),
        row_region(area, 18 + d, ClickAction::ToggleAutoCorrection),
        row_region(area, 21 + d, ClickAction::CycleTypingMode),
    ] + if lists {
        Seq::new(n, |i: int| row_region(area, 8 + i, ClickAction::SelectDevice(i as usize)))
    } else {
        Seq::empty()
    }
}

/// The click regions of the configuration panel of `app` drawn in `area`.
pub open spec fn config_regions(app: App, area: Rect) -> Seq<ClickableRegion> {
    config_regions_of(
        area,
        device_section_len(app),
        picker_lists(app),
        app.device_picker_devices@.len(),
    )
}

fn push_row(regions: &mut Vec<ClickableRegion>, area: Rect, line: u16, action: ClickAction)
    requires
        area.x < u16::MAX,
        area.y + 1 + line <= u16::MAX,
    ensures
        final(regions)@ == old(regions)@.push(row_region(area, line as int, action)),
{
    let width = if area.width >= 2 { area.width - 2 } else { 0 };
    let rect = Rect { x: area.x + 1, y: area.y + 1 + line, width, height: 1 };
    regions.push(ClickableRegion { rect, action });
}

fn push_config_regions(
    regions: &mut Vec<ClickableRegion>,
    area: Rect,
    d: u16,
    lists: bool,
    n: usize,
)
    requires
        area.x < u16::MAX,
        area.y + 22 + d <= u16::MAX,
        lists ==> d == 1 + n,
    ensures
        final(regions)@ == old(regions)@ + config_regions_of(area, d as int, lists, n as nat),
{
    push_row(regions, area, 12 + d, ClickAction::ToggleLowercaseFilter);
    push_row(regions, area, 13 + d, ClickAction::TogglePunctuationFilter);
    push_row(regions, area, 14 + d, ClickAction::ToggleStrictAlphabetFilter);
    push_row(regions, area, 19 + d, ClickAction::ToggleAutoEnter);
    push_row(regions, area, 20 + d, ClickAction::ToggleSaveToClipboard);
    push_row(regions, area, 17 + d, ClickAction::ToggleProgressiveTyping);
    push_row(regions, area, 18 + d, ClickAction::ToggleAutoCorrection);
    push_row(regions, area, 21 + d, ClickAction::CycleTypingMode);
    let ghost fixed = regions@;
    assert(fixed =~= old(regions)@ + config_regions_of(area, d as int, lists, n as nat).take(8));
    if lists {
        let mut i: usize = 0;
        while i < n
            invariant
                i <= n,
                d == 1 + n,
                area.x < u16::MAX,
                area.y + 22 + d <= u16::MAX,
                regions@ == fixed + Seq::new(
                    i as nat,
                    |k: int| row_region(area, 8 + k, ClickAction::SelectDevice(k as usize)),
                ),
            decreases n - i,
        {
            push_row(regions, area, 8 + i as u16, ClickAction::SelectDevice(i));
            i = i + 1;
            assert(regions@ =~= fixed + Seq::new(
                i as nat,
                |k: int| row_region(area, 8 + k, ClickAction::SelectDevice(k as usize)),
            ));
        }
    }
    assert(regions@ =~= old(regions)@ + config_regions_of(area, d as int, lists, n as nat));
}

fn config_top(app: &App) -> (r: Vec<Vec<Piece>>)
    ensures
        lines_v(r@) == config_top_v(*app),
{
    let mut lines: Vec<Vec<Piece>> = Vec::new();
    push_line(&mut lines, l0());
    push_line(
        &mut lines,
        l3(
            piece("Profile: ", Tone::Bold),
            owned(or_else_str(&app.profile, "default"), Tone::Title),
            piece(" [Shift+P]", Tone::Dim),
        ),
    );
    push_line(&mut lines, l0());
    let server = if app.editing_field == Some(EditableField::ServerUrl) {
        l3(
            piece("Server URL: ", Tone::BoldActive),
            owned(app.edit_buffer.clone(), Tone::Text),
            piece("_", Tone::Blink),
        )
    } else {
        l3(
            piece("Server URL: ", Tone::Bold),
            owned(app.server.clone(), Tone::Plain),
            if app.env_server {
                piece(" [env]", Tone::EnvMark)
            } else {
                piece(" [e]", Tone::Dim)
            },
        )
    };
    push_line(&mut lines, server);
    push_line(&mut lines, l0());
    let model = if app.env_model {
        l3(
            piece("Model: ", Tone::Bold),
            owned(app.model.clone(), Tone::Plain),
            piece(" [env]", Tone::EnvMark),
        )
    } else {
        l2(piece("Model: ", Tone::Bold), owned(app.model.clone(), Tone::Plain))
    };
    push_line(&mut lines, model);
    push_line(&mut lines, l0());
    assert(lines_v(lines@) =~= config_top_v(*app));
    lines
}

fn device_entry(app: &App, i: usize) -> (r: Vec<Piece>)
    requires
        i < app.device_picker_devices@.len(),
    ensures
        line_v(r@) == device_entry_v(*app, i as int),
{
    let d = &app.device_picker_devices[i];
    let selected = i == app.device_picker_selected;
    let current = crate::text::str_eq(d.name.as_str(), app.device.as_str());
    let tone = if selected {
        Tone::AccentBold
    } else if current {
        Tone::Title
    } else {
        Tone::Plain
    };
    let marker = if selected { "  > " } else { "    " };
    if current {
        l3(
            piece(marker, tone),
            owned(d.description.clone(), tone),
            piece(" (current)", Tone::Dim),
        )
    } else {
        l2(piece(marker, tone), owned(d.description.clone(), tone))
    }
}

fn config_devices(app: &App) -> (r: Vec<Vec<Piece>>)
    ensures
        lines_v(r@) == config_devices_v(*app),
{
    let mut lines: Vec<Vec<Piece>> = Vec::new();
    if app.device_picker_open {
        push_line(
            &mut lines,
            l2(
                piece("Audio Device: ", Tone::BoldActive),
                piece("(j/k navigate, Enter select, Esc cancel)", Tone::Dim),
            ),
        );
        match &app.device_picker_error {
            Some(e) => {
                let mut t = "  ".to_string();
                t.append(e.as_str());
                push_line(&mut lines, l1(owned(t, Tone::Error)));
                assert(lines_v(lines@) =~= config_devices_v(*app));
            },
            None => {
                let ghost header = lines_v(lines@)[0];
                let n = app.device_picker_devices.len();
                let mut i: usize = 0;
                while i < n
                    invariant
                        i <= n == app.device_picker_devices@.len(),
                        lines_v(lines@) == seq![header] + Seq::new(
                            i as nat,
                            |k: int| device_entry_v(*app, k),
                        ),
                    decreases n - i,
                {
                    let e = device_entry(app, i);
                    push_line(&mut lines, e);
                    i = i + 1;
                    assert(lines_v(lines@) =~= seq![header] + Seq::new(
                        i as nat,
                        |k: int| device_entry_v(*app, k),
                    ));
                }
                assert(lines_v(lines@) =~= config_devices_v(*app));
            },
        }
    } else {
        push_line(
            &mut lines,
            l3(
                piece("Audio Device: ", Tone::Bold),
                owned(app.device.clone(), Tone::Plain),
                if app.env_device {
                    piece(" [env]", Tone::EnvMark)
                } else {
                    piece(" [d]", Tone::Dim)
                },
            ),
        );
        assert(lines_v(lines@) =~= config_devices_v(*app));
    }
    lines
}

fn mode_str(m: TypingMode) -> (r: &'static str)
    ensures
        r@ == mode_name(m),
{
    m.display_name()
}

fn config_help(app: &App) -> (r: Vec<Piece>)
    ensures
        line_v(r@) == config_help_v(*app),
{
    if app.device_picker_open {
        l6(
            piece("[j/k] ", Tone::Toggle),
            piece("Navigate  ", Tone::Plain),
            piece("[Enter] ", Tone::Toggle),
            piece("Select  ", Tone::Plain),
            piece("[Esc] ", Tone::Toggle),
            piece("Cancel", Tone::Plain),
        )
    } else if app.editing_field == Some(EditableField::ServerUrl) {
        l4(
            piece("[Enter] ", Tone::Toggle),
            piece("Save  ", Tone::Plain),
            piece("[Esc] ", Tone::Toggle),
            piece("Cancel", Tone::Plain),
        )
    } else {
        l1(piece(CONFIG_KEYS, Tone::Dim))
    }
}

fn config_rest(app: &App) -> (r: Vec<Vec<Piece>>)
    ensures
        lines_v(r@) == config_rest_v(*app),
{
    let mut lines: Vec<Vec<Piece>> = Vec::new();
    push_line(&mut lines, l0());
    push_line(
        &mut lines,
        l3(
            piece("Language: ", Tone::Bold),
            owned(or_else_str(&app.language, "auto"), Tone::Plain),
            if app.env_language {
                piece(" [env]", Tone::EnvMark)
            } else {
                piece(" (Shift+L to cycle)", Tone::Dim)
            },
        ),
    );
    push_line(&mut lines, l0());
    push_line(&mut lines, l0());
    push_line(&mut lines, heading("Text Filters:"));
    push_line(&mut lines, checkbox(app.text_filters.lowercase, " Lowercase [f]", Tone::Accent));
    push_line(
        &mut lines,
        checkbox(app.text_filters.remove_punctuation, " Remove Punctuation [p]", Tone::Accent),
    );
    push_line(
        &mut lines,
        checkbox(app.text_filters.strict_alphabet, " Strict Alphabet [s]", Tone::Accent),
    );
    push_line(&mut lines, l0());
    push_line(&mut lines, heading("Typing Settings:"));
    push_line(&mut lines, checkbox(app.progressive_typing, " Progressive Typing [t]", Tone::Cyan));
    push_line(&mut lines, checkbox(app.auto_correction, " Auto-correction [a]", Tone::Cyan));
    push_line(&mut lines, checkbox(app.auto_enter, " Auto Enter [n]", Tone::Cyan));
    push_line(&mut lines, checkbox(app.save_to_clipboard, " Save to Clipboard [b]", Tone::Cyan));
    push_line(
        &mut lines,
        l3(
            piece("  ", Tone::Plain),
            piece(mode_str(app.typing_mode), Tone::Cyan),
            piece(" [m]", Tone::DarkGray),
        ),
    );
    let mut vol = decimal_string(app.cue_volume as u64);
    string_push(&mut vol, '%');
    assert(vol@ =~= decimal(app.cue_volume as nat) + "%"@) by {
        reveal_strlit("%");
    }
    push_line(
        &mut lines,
        l3(piece("  Cue Volume: ", Tone::Plain), owned(vol, Tone::Cyan), piece(" [+/-]", Tone::DarkGray)),
    );
    push_line(&mut lines, l0());
    push_line(&mut lines, config_help(app));
    assert(lines_v(lines@) =~= config_rest_v(*app));
    lines
}

impl App {
    /// The configuration panel's lines; registers its click regions for
    /// the panel drawn in `area`.
    pub fn config_panel_view(&mut self, area: Rect) -> (r: PanelView)
        requires
            area.x < u16::MAX,
            area.y + 22 + device_section_len(*old(self)) <= u16::MAX,
        ensures
            lines_v(r.lines@) == config_lines(*old(self)),
            r.border_active == (old(self).device_picker_open || editing_server(*old(self))),
            final(self).clickable_regions@ == old(self).clickable_regions@ + config_regions(
                *old(self),
                area,
            ),
            *final(self) == (App { clickable_regions: final(self).clickable_regions, ..*old(self) }),
    {
        let lines = config_lines_exec(self);
        let border_active = self.device_picker_open || self.editing_field == Some(
            EditableField::ServerUrl,
        );
        let d: u16 = if !self.device_picker_open {
            1
        } else if self.device_picker_error.is_some() {
            2
        } else {
            1 + self.device_picker_devices.len() as u16
        };
        let lists = self.device_picker_open && self.device_picker_error.is_none();
        let n = self.device_picker_devices.len();
        push_config_regions(&mut self.clickable_regions, area, d, lists, n);
        PanelView { lines, border_active }
    }
}

fn config_lines_exec(app: &App) -> (r: Vec<Vec<Piece>>)
    ensures
        lines_v(r@) == config_lines(*app),
{
    let mut lines = config_top(app);
    append_lines(&mut lines, config_devices(app));
    append_lines(&mut lines, config_rest(app));
    lines
}

/// Each click region of the configuration panel lies on the line that shows
/// what it acts on: the checkbox of the setting it toggles, the typing mode
/// it cycles, the device it selects.
pub proof fn law_config_clicks_hit_their_lines(app: App)
    ensures
        config_lines(app).len() == 25 + device_section_len(app),
        config_lines(app)[12 + device_section_len(app)] == checkbox_v(
            app.text_filters.lowercase,
            " Lowercase [f]"@,
            Tone::Accent,
        ),
        config_lines(app)[13 + device_section_len(app)] == checkbox_v(
            app.text_filters.remove_punctuation,
            " Remove Punctuation [p]"@,
            Tone::Accent,
        ),
        config_lines(app)[14 + device_section_len(app)] == checkbox_v(
            app.text_filters.strict_alphabet,
            " Strict Alphabet [s]"@,
            Tone::Accent,
        ),
        config_lines(app)[17 + device_section_len(app)] == checkbox_v(
            app.progressive_typing,
            " Progressive Typing [t]"@,
            Tone::Cyan,
        ),
        config_lines(app)[18 + device_section_len(app)] == checkbox_v(
            app.auto_correction,
            " Auto-correction [a]"@,
            Tone::Cyan,
        ),
        config_lines(app)[19 + device_section_len(app)] == checkbox_v(
            app.auto_enter,
            " Auto Enter [n]"@,
            Tone::Cyan,
        ),
        config_lines(app)[20 + device_section_len(app)] == checkbox_v(
            app.save_to_clipboard,
            " Save to Clipboard [b]"@,
            Tone::Cyan,
        ),
        config_lines(app)[21 + device_section_len(app)][1] == (mode_name(app.typing_mode), Tone::Cyan),
        picker_lists(app) ==> forall|i: int|
            0 <= i < app.device_picker_devices@.len() ==> #[trigger] config_lines(app)[8 + i]
                == device_entry_v(app, i),
{
    let top = config_top_v(app);
    let dev = config_devices_v(app);
    let rest = config_rest_v(app);
    assert(top.len() == 7);
    assert(dev.len() == device_section_len(app));
    assert(rest.len() == 18);
    assert(config_lines(app) == top + dev + rest);
    if picker_lists(app) {
        assert forall|i: int| 0 <= i < app.device_picker_devices@.len() implies #[trigger] config_lines(
            app,
        )[8 + i] == device_entry_v(app, i) by {
            assert(config_lines(app)[8 + i] == dev[1 + i]);
        }
    }
}

// ---------------------------------------------------------------------------
// Live transcription panel
// ---------------------------------------------------------------------------

/// A line without the carriage return that ends it, if any.
pub open spec fn strip_cr(l: Seq<char>) -> Seq<char> {
    if l.len() > 0 && l.last() == '\r' {
        l.drop_last()
    } else {
        l
    }
}

/// How one line of the transcript is shown: a line no longer (in bytes)
/// than the committed text is shown as it is; a longer one shows the
/// committed text followed by the uncommitted text, dimmed.
pub open spec fn transcript_line_v(line: Seq<char>, committed: Seq<char>, uncommitted: Seq<char>) -> Seq<
    (Seq<char>, Tone),
> {
    if byte_len(line) <= byte_len(committed) {
        seq![("  "@ + line, Tone::Text)]
    } else {
        seq![("  "@ + committed, Tone::Text), (uncommitted, Tone::Dim)]
    }
}

/// One row per line of `s`, lines split as `str::lines` does (at line
/// feeds, dropping a carriage return before one, and no empty line after a
/// final line feed).
pub open spec fn transcript_rows(s: Seq<char>, committed: Seq<char>, uncommitted: Seq<char>) -> Seq<
    Seq<(Seq<char>, Tone)>,
>
    decreases s.len(),
{
    if s.len() == 0 {
        Seq::empty()
    } else {
        let n = line_len(s);
        if n >= s.len() {
            seq![transcript_line_v(strip_cr(s), committed, uncommitted)]
        } else {
            seq![transcript_line_v(strip_cr(s.take(n as int)), committed, uncommitted)]
                + transcript_rows(s.skip(n as int + 1), committed, uncommitted)
        }
    }
}

/// The transcript section: while listening, the committed and uncommitted
/// text line by line (or a listening notice) and a legend; otherwise how to
/// start listening.
pub open spec fn transcript_v(app: App) -> Seq<Seq<(Seq<char>, Tone)>> {
    if app.vad_active {
        let full = app.committed_text@ + app.uncommitted_text@;
        (if full.len() == 0 {
            seq![seq![("  Listening..."@, Tone::Dim)]]
        } else {
            transcript_rows(full, app.committed_text@, app.uncommitted_text@)
        }) + seq![
            blank_v(),
            seq![("  ("@, Tone::Dim), ("gray"@, Tone::Dim), (" = uncommitted)"@, Tone::Dim)],
        ]
    } else {
        seq![seq![("  VAD mode is inactive. Press [Space] or [v] to enable."@, Tone::Accent)]]
    }
}

/// The VAD status line.
pub open spec fn vad_status_v(active: bool) -> Seq<(Seq<char>, Tone)> {
    if active {
        seq![("VAD Mode: "@, Tone::Bold), ("\u{25cf}"@, Tone::Success), (" "@, Tone::Plain), ("Active"@, Tone::Success)]
    } else {
        seq![("VAD Mode: "@, Tone::Bold), ("\u{25cb}"@, Tone::Gray), (" "@, Tone::Plain), ("Inactive"@, Tone::Gray)]
    }
}

/// The settings and statistics below the transcript.
pub open spec fn live_rest_v(app: App) -> Seq<Seq<(Seq<char>, Tone)>> {
    seq![
        blank_v(),
        blank_v(),
        heading_v("Settings:"@),
        checkbox_v(app.progressive_typing, " Progressive Typing [t]"@, Tone::Toggle),
        checkbox_v(app.save_to_clipboard, " Save to Clipboard [b]"@, Tone::Toggle),
        checkbox_v(app.auto_correction, " Auto-correction [a]"@, Tone::Toggle),
        blank_v(),
        blank_v(),
        heading_v("Stats:"@),
        seq![("  Latency: "@, Tone::Dim), (decimal(app.avg_latency_ms as nat) + "ms"@, Tone::Plain)],
        seq![("  Segments processed: "@, Tone::Dim), (decimal(app.segments_processed as nat), Tone::Plain)],
        seq![
            ("  Transcriptions: "@, Tone::Dim),
            (decimal(app.total_transcriptions as nat) + " total, "@ + decimal(
                app.successful_transcriptions as nat,
            ) + " ok, "@ + decimal(app.failed_transcriptions as nat) + " failed"@, Tone::Plain),
        ],
        seq![("  Words transcribed: "@, Tone::Dim), (decimal(app.total_words as nat), Tone::Plain)],
    ]
}

/// The live transcription panel's lines.
pub open spec fn live_lines(app: App) -> Seq<Seq<(Seq<char>, Tone)>> {
    seq![blank_v(), vad_status_v(app.vad_active), blank_v(), heading_v("Transcription:"@), blank_v()]
        + transcript_v(app) + live_rest_v(app)
}

/// The click regions of the live panel, in the order they are registered:
/// the status line toggles listening, the progressive typing line toggles
/// it, and the clipboard line carries both the auto-correction and the
/// clipboard toggle (the first registered wins a click).
pub open spec fn live_regions(app: App, area: Rect) -> Seq<ClickableRegion> {
    let t = 5 + transcript_v(app).len() as int;
    seq![
        row_region(area, 1, ClickAction::ToggleVadMode),
        row_region(area, t + 3, ClickAction::ToggleProgressiveTyping),
        row_region(area, t + 4, ClickAction::ToggleAutoCorrection),
        row_region(area, t + 4, ClickAction::ToggleSaveToClipboard),
    ]
}

fn concat_str(a: &str, b: &str) -> (r: String)
    ensures
        r@ == a@ + b@,
{
    let mut s = a.to_string();
    s.append(b);
    s
}

fn transcript_rows_exec(app: &App) -> (r: Vec<Vec<Piece>>)
    requires
        app.committed_text@.len() + app.uncommitted_text@.len() > 0,
    ensures
        lines_v(r@) == transcript_rows(
            app.committed_text@ + app.uncommitted_text@,
            app.committed_text@,
            app.uncommitted_text@,
        ),
{
    let ghost c = app.committed_text@;
    let ghost u = app.uncommitted_text@;
    let full = concat_str(app.committed_text.as_str(), app.uncommitted_text.as_str());
    crate::text::byte_len_fits(full.as_str());
    crate::text::byte_len_fits(app.committed_text.as_str());
    let v = crate::text::chars_of(full.as_str());
    let cv = crate::text::chars_of(app.committed_text.as_str());
    assert(cv@.subrange(0, cv@.len() as int) =~= c);
    let climit = crate::text::utf8_len_range(&cv, 0, cv.len());
    let mut out: Vec<Vec<Piece>> = Vec::new();
    let mut pos: usize = 0;
    assert(v@.skip(0) =~= v@);
    assert(lines_v(out@) + transcript_rows(v@, c, u) =~= transcript_rows(v@, c, u));
    loop
        invariant_except_break
            pos < v@.len(),
            v@ == c + u,
            c == app.committed_text@,
            u == app.uncommitted_text@,
            climit == byte_len(c),
            byte_len(v@) <= usize::MAX,
            lines_v(out@) + transcript_rows(v@.skip(pos as int), c, u) == transcript_rows(v@, c, u),
        ensures
            lines_v(out@) == transcript_rows(v@, c, u),
        decreases v@.len() - pos,
    {
        let e = crate::text::line_end(&v, pos);
        let hi = if e > pos && v[e - 1] == '\r' { e - 1 } else { e };
        proof {
            let rest = v@.skip(pos as int);
            let n = line_len(rest);
            assert(n == e - pos);
            assert(rest.take(n as int) =~= v@.subrange(pos as int, e as int));
            assert(strip_cr(v@.subrange(pos as int, e as int)) =~= v@.subrange(pos as int, hi as int));
            if e < v@.len() {
                assert(rest.skip(n as int + 1) =~= v@.skip(e + 1));
            } else {
                assert(rest =~= v@.subrange(pos as int, e as int));
            }
            crate::text::lemma_byte_len_subrange(v@, pos as int, hi as int);
        }
        let n = crate::text::utf8_len_range(&v, pos, hi);
        let line = crate::text::string_of_range(&v, pos, hi);
        let ghost before = lines_v(out@);
        let ghost l = transcript_line_v(v@.subrange(pos as int, hi as int), c, u);
        let row = if n <= climit {
            let r = l1(owned(concat_str("  ", line.as_str()), Tone::Text));
            assert(line_v(r@) == l);
            r
        } else {
            let r = l2(
                owned(concat_str("  ", app.committed_text.as_str()), Tone::Text),
                owned(app.uncommitted_text.clone(), Tone::Dim),
            );
            assert(line_v(r@) == l);
            r
        };
        push_line(&mut out, row);
        proof {
            let rest = v@.skip(pos as int);
            if e < v@.len() {
                assert(transcript_rows(rest, c, u) == seq![l] + transcript_rows(v@.skip(e + 1), c, u));
                assert(before + transcript_rows(rest, c, u) =~= before.push(l) + transcript_rows(
                    v@.skip(e + 1),
                    c,
                    u,
                ));
            } else {
                assert(transcript_rows(rest, c, u) == seq![l]);
                assert(before + seq![l] =~= before.push(l));
            }
        }
        if e >= v.len() - 1 {
            proof {
                if e + 1 == v@.len() {
                    assert(transcript_rows(v@.skip(e + 1), c, u) =~= Seq::empty());
                    assert(lines_v(out@) + Seq::empty() =~= lines_v(out@));
                }
            }
            break;
        }
        pos = e + 1;
    }
    out
}

fn transcript_section(app: &App) -> (r: Vec<Vec<Piece>>)
    ensures
        lines_v(r@) == transcript_v(*app),
{
    let mut lines: Vec<Vec<Piece>> = Vec::new();
    if app.vad_active {
        if app.committed_text.as_str().is_empty() && app.uncommitted_text.as_str().is_empty() {
            push_line(&mut lines, l1(piece("  Listening...", Tone::Dim)));
            assert(app.committed_text@.len() == 0 && app.uncommitted_text@.len() == 0);
        } else {
            lines = transcript_rows_exec(app);
        }
        push_line(&mut lines, l0());
        push_line(
            &mut lines,
            l3(piece("  (", Tone::Dim), piece("gray", Tone::Dim), piece(" = uncommitted)", Tone::Dim)),
        );
        assert(lines_v(lines@) =~= transcript_v(*app));
    } else {
        push_line(
            &mut lines,
            l1(piece("  VAD mode is inactive. Press [Space] or [v] to enable.", Tone::Accent)),
        );
        assert(lines_v(lines@) =~= transcript_v(*app));
    }
    lines
}

fn number(n: u64) -> (r: String)
    ensures
        r@ == decimal(n as nat),
{
    decimal_string(n)
}

fn live_rest(app: &App) -> (r: Vec<Vec<Piece>>)
    ensures
        lines_v(r@) == live_rest_v(*app),
{
    let mut lines: Vec<Vec<Piece>> = Vec::new();
    push_line(&mut lines, l0());
    push_line(&mut lines, l0());
    push_line(&mut lines, heading("Settings:"));
    push_line(&mut lines, checkbox(app.progressive_typing, " Progressive Typing [t]", Tone::Toggle));
    push_line(&mut lines, checkbox(app.save_to_clipboard, " Save to Clipboard [b]", Tone::Toggle));
    push_line(&mut lines, checkbox(app.auto_correction, " Auto-correction [a]", Tone::Toggle));
    push_line(&mut lines, l0());
    push_line(&mut lines, l0());
    push_line(&mut lines, heading("Stats:"));
    let lat = concat_str(number(app.avg_latency_ms).as_str(), "ms");
    push_line(&mut lines, l2(piece("  Latency: ", Tone::Dim), owned(lat, Tone::Plain)));
    push_line(
        &mut lines,
        l2(
            piece("  Segments processed: ", Tone::Dim),
            owned(number(app.segments_processed as u64), Tone::Plain),
        ),
    );
    let mut t = number(app.total_transcriptions as u64);
    t.append(" total, ");
    t.append(number(app.successful_transcriptions as u64).as_str());
    t.append(" ok, ");
    t.append(number(app.failed_transcriptions as u64).as_str());
    t.append(" failed");
    push_line(&mut lines, l2(piece("  Transcriptions: ", Tone::Dim), owned(t, Tone::Plain)));
    push_line(
        &mut lines,
        l2(piece("  Words transcribed: ", Tone::Dim), owned(number(app.total_words as u64), Tone::Plain)),
    );
    assert(lines_v(lines@) =~= live_rest_v(*app));
    lines
}

fn live_lines_exec(app: &App) -> (r: Vec<Vec<Piece>>)
    ensures
        lines_v(r@) == live_lines(*app),
{
    let mut lines: Vec<Vec<Piece>> = Vec::new();
    push_line(&mut lines, l0());
    let status = if app.vad_active {
        l4(
            piece("VAD Mode: ", Tone::Bold),
            piece("\u{25cf}", Tone::Success),
            piece(" ", Tone::Plain),
            piece("Active", Tone::Success),
        )
    } else {
        l4(
            piece("VAD Mode: ", Tone::Bold),
            piece("\u{25cb}", Tone::Gray),
            piece(" ", Tone::Plain),
            piece("Inactive", Tone::Gray),
        )
    };
    push_line(&mut lines, status);
    push_line(&mut lines, l0());
    push_line(&mut lines, heading("Transcription:"));
    push_line(&mut lines, l0());
    let ghost head = lines_v(lines@);
    assert(head =~= seq![blank_v(), vad_status_v(app.vad_active), blank_v(), heading_v("Transcription:"@), blank_v()]);
    append_lines(&mut lines, transcript_section(app));
    append_lines(&mut lines, live_rest(app));
    lines
}

/// Number of lines of the transcript section (what
/// [`App::live_panel_view`] needs to fit on the screen's rows).
pub fn transcript_section_len(app: &App) -> (r: usize)
    ensures
        r == transcript_v(*app).len(),
{
    let t = transcript_section(app);
    assert(lines_v(t@).len() == t@.len());
    t.len()
}

impl App {
    /// The live transcription panel's lines; registers its click regions
    /// for the panel drawn in `area`.
    pub fn live_panel_view(&mut self, area: Rect) -> (r: PanelView)
        requires
            area.x < u16::MAX,
            area.y + 10 + transcript_v(*old(self)).len() <= u16::MAX,
        ensures
            lines_v(r.lines@) == live_lines(*old(self)),
            !r.border_active,
            final(self).clickable_regions@ == old(self).clickable_regions@ + live_regions(
                *old(self),
                area,
            ),
            *final(self) == (App { clickable_regions: final(self).clickable_regions, ..*old(self) }),
    {
        let lines = live_lines_exec(self);
        let t = transcript_section_len(self);
        let tl: u16 = 5 + t as u16;
        let ghost r0 = self.clickable_regions@;
        push_row(&mut self.clickable_regions, area, 1, ClickAction::ToggleVadMode);
        push_row(&mut self.clickable_regions, area, tl + 3, ClickAction::ToggleProgressiveTyping);
        push_row(&mut self.clickable_regions, area, tl + 4, ClickAction::ToggleAutoCorrection);
        push_row(&mut self.clickable_regions, area, tl + 4, ClickAction::ToggleSaveToClipboard);
        assert(self.clickable_regions@ =~= r0 + live_regions(*old(self), area));
        PanelView { lines, border_active: false }
    }
}

// ---------------------------------------------------------------------------
// Header, tabs, footer and log list
// ---------------------------------------------------------------------------

/// The header: the program's name and version, and the listening status
/// (a filled dot while speech is heard).
pub open spec fn header_v(app: App, version: Seq<char>) -> Seq<(Seq<char>, Tone)> {
    let (dot, tone, status) = if app.vad_active {
        (
            if app.is_speaking { "\u{25cf}"@ } else { "\u{25c9}"@ },
            if app.is_speaking { Tone::Accent } else { Tone::Success },
            "VAD Active"@,
        )
    } else {
        ("\u{25cb}"@, Tone::Gray, "Idle"@)
    };
    seq![
        ("ears "@, Tone::Title),
        (seq!['v'] + version, Tone::Dim),
        (" \u{2502} Status: "@, Tone::Plain),
        (dot, tone),
        (" "@, Tone::Plain),
        (status, tone),
    ]
}

/// The header line; `version` is the program's version.
pub fn header_view(app: &App, version: &str) -> (r: Vec<Piece>)
    ensures
        line_v(r@) == header_v(*app, version@),
{
    let (dot, tone, status) = if app.vad_active {
        (
            if app.is_speaking { "\u{25cf}" } else { "\u{25c9}" },
            if app.is_speaking { Tone::Accent } else { Tone::Success },
            "VAD Active",
        )
    } else {
        ("\u{25cb}", Tone::Gray, "Idle")
    };
    let mut v = "v".to_string();
    v.append(version);
    assert(v@ =~= seq!['v'] + version@) by {
        reveal_strlit("v");
    }
    l6(
        piece("ears ", Tone::Title),
        owned(v, Tone::Dim),
        piece(" \u{2502} Status: ", Tone::Plain),
        piece(dot, tone),
        piece(" ", Tone::Plain),
        piece(status, tone),
    )
}

/// The tab titles.
pub open spec fn tab_titles() -> Seq<Seq<char>> {
    seq!["\u{25b8} Configuration"@, "\u{25b8} Logs"@, "\u{25b8} Live"@]
}

/// The index of a panel's tab.
pub open spec fn tab_index(p: Panel) -> usize {
    match p {
        Panel::Configuration => 0,
        Panel::Logs => 1,
        Panel::LiveTranscription => 2,
    }
}

/// The tab bar's click regions: each tab is as wide as its title's UTF-8
/// encoding plus one cell, starting inside the border.
pub open spec fn tab_regions(area: Rect) -> Seq<ClickableRegion> {
    let y = (area.y + 1) as u16;
    seq![
        ClickableRegion {
            rect: Rect { x: (area.x + 1) as u16, y, width: 18, height: 1 },
            action: ClickAction::SwitchPanel(Panel::Configuration),
        },
        ClickableRegion {
            rect: Rect { x: (area.x + 19) as u16, y, width: 9, height: 1 },
            action: ClickAction::SwitchPanel(Panel::Logs),
        },
        ClickableRegion {
            rect: Rect { x: (area.x + 28) as u16, y, width: 9, height: 1 },
            action: ClickAction::SwitchPanel(Panel::LiveTranscription),
        },
    ]
}

impl App {
    /// The tab titles and the selected tab; registers the tabs' click
    /// regions for the bar drawn in `area`.
    pub fn tabs_view(&mut self, area: Rect) -> (r: (Vec<&'static str>, usize))
        requires
            area.x + 28 <= u16::MAX,
            area.y < u16::MAX,
        ensures
            r.0@.map_values(|t: &'static str| t@) == tab_titles(),
            r.1 == tab_index(old(self).current_panel),
            final(self).clickable_regions@ == old(self).clickable_regions@ + tab_regions(area),
            *final(self) == (App { clickable_regions: final(self).clickable_regions, ..*old(self) }),
    {
        let titles: Vec<&'static str> = vec!["\u{25b8} Configuration", "\u{25b8} Logs", "\u{25b8} Live"];
        assert(titles@.map_values(|t: &'static str| t@) =~= tab_titles());
        let index: usize = match self.current_panel {
            Panel::Configuration => 0,
            Panel::Logs => 1,
            Panel::LiveTranscription => 2,
        };
        let ghost r0 = self.clickable_regions@;
        let y = area.y + 1;
        self.clickable_regions.push(ClickableRegion {
            rect: Rect { x: area.x + 1, y, width: 18, height: 1 },
            action: ClickAction::SwitchPanel(Panel::Configuration),
        });
        self.clickable_regions.push(ClickableRegion {
            rect: Rect { x: area.x + 19, y, width: 9, height: 1 },
            action: ClickAction::SwitchPanel(Panel::Logs),
        });
        self.clickable_regions.push(ClickableRegion {
            rect: Rect { x: area.x + 28, y, width: 9, height: 1 },
            action: ClickAction::SwitchPanel(Panel::LiveTranscription),
        });
        assert(self.clickable_regions@ =~= r0 + tab_regions(area));
        (titles, index)
    }
}

/// The footer: the keys of the current mode or panel, the command line, or
/// the search line with its number of matches.
pub open spec fn footer_v(app: App) -> Seq<(Seq<char>, Tone)> {
    if app.device_picker_open {
        seq![
            ("DEVICE: "@, Tone::AccentBold),
            ("[j/k] "@, Tone::Toggle),
            ("Navigate  "@, Tone::Plain),
            ("[Enter] "@, Tone::Toggle),
            ("Select  "@, Tone::Plain),
            ("[Esc] "@, Tone::Toggle),
            ("Cancel"@, Tone::Plain),
        ]
    } else if app.editing_field is Some {
        seq![
            ("EDIT: "@, Tone::AccentBold),
            ("[Enter] "@, Tone::Toggle),
            ("Save  "@, Tone::Plain),
            ("[Esc] "@, Tone::Toggle),
            ("Cancel"@, Tone::Plain),
        ]
    } else if app.command_mode {
        seq![(":"@, Tone::Accent), (app.command_buffer@, Tone::Plain), ("_"@, Tone::Blink)]
    } else if app.search_mode {
        seq![
            ("/"@, Tone::Accent),
            (app.search_buffer@, Tone::Plain),
            ("_"@, Tone::Blink),
            (if app.search_buffer@.len() == 0 {
                Seq::empty()
            } else {
                " ("@ + decimal(app.search_matches@.len()) + " matches)"@
            }, Tone::Dim),
        ]
    } else {
        match app.current_panel {
            Panel::LiveTranscription => seq![
                ("[Space/v] "@, Tone::Toggle),
                ("VAD  "@, Tone::Plain),
                ("[t] "@, Tone::Toggle),
                ("Typing  "@, Tone::Plain),
                ("[a] "@, Tone::Toggle),
                ("Auto-corr  "@, Tone::Plain),
                ("[q] "@, Tone::Toggle),
                ("Quit"@, Tone::Plain),
            ],
            Panel::Configuration => seq![
                ("[P] "@, Tone::Toggle),
                ("Profile  "@, Tone::Plain),
                ("[e] "@, Tone::Toggle),
                ("URL  "@, Tone::Plain),
                ("[d] "@, Tone::Toggle),
                ("Device  "@, Tone::Plain),
                ("[L] "@, Tone::Toggle),
                ("Lang  "@, Tone::Plain),
                ("[f] "@, Tone::Toggle),
                ("Lower  "@, Tone::Plain),
                ("[p] "@, Tone::Toggle),
                ("Punct  "@, Tone::Plain),
                ("[n] "@, Tone::Toggle),
                ("Enter  "@, Tone::Plain),
                ("[q] "@, Tone::Toggle),
                ("Quit"@, Tone::Plain),
            ],
            Panel::Logs => seq![
                ("[/] "@, Tone::Toggle),
                ("Search  "@, Tone::Plain),
                ("[F] "@, Tone::Toggle),
                ("Filter  "@, Tone::Plain),
                ("[j/k] "@, Tone::Toggle),
                ("Scroll  "@, Tone::Plain),
                ("[q] "@, Tone::Toggle),
                ("Quit"@, Tone::Plain),
            ],
        }
    }
}

fn push_piece(l: &mut Vec<Piece>, p: Piece)
    ensures
        line_v(final(l)@) == line_v(old(l)@).push(pv(p)),
        final(l)@.len() == old(l)@.len() + 1,
{
    let ghost x = pv(p);
    l.push(p);
    assert(line_v(l@) =~= line_v(old(l)@).push(x));
}

fn key_hints(keys: &Vec<(&'static str, &'static str)>) -> (r: Vec<Piece>)
    ensures
        r@.len() == 2 * keys@.len(),
        forall|i: int|
            0 <= i < keys@.len() ==> line_v(r@)[2 * i] == (keys@[i].0@, Tone::Toggle) && line_v(
                r@,
            )[2 * i + 1] == (keys@[i].1@, Tone::Plain),
{
    let mut r: Vec<Piece> = Vec::new();
    let mut i: usize = 0;
    while i < keys.len()
        invariant
            i <= keys@.len(),
            r@.len() == 2 * i,
            forall|k: int|
                0 <= k < i ==> line_v(r@)[2 * k] == (keys@[k].0@, Tone::Toggle) && line_v(r@)[2 * k
                    + 1] == (keys@[k].1@, Tone::Plain),
        decreases keys@.len() - i,
    {
        let (k, what) = keys[i];
        push_piece(&mut r, piece(k, Tone::Toggle));
        push_piece(&mut r, piece(what, Tone::Plain));
        i = i + 1;
    }
    r
}

/// The footer line.
pub fn footer_view(app: &App) -> (r: Vec<Piece>)
    ensures
        line_v(r@) == footer_v(*app),
{
    if app.device_picker_open {
        let r = l1(piece("DEVICE: ", Tone::AccentBold));
        let mut r = r;
        let keys = vec![("[j/k] ", "Navigate  "), ("[Enter] ", "Select  "), ("[Esc] ", "Cancel")];
        let h = key_hints(&keys);
        let ghost hv = line_v(h@);
        let ghost rv = line_v(r@);
        let mut h = h;
        r.append(&mut h);
        assert(line_v(r@) =~= rv + hv);
        assert(line_v(r@) =~= footer_v(*app));
        r
    } else if app.editing_field.is_some() {
        let mut r = l1(piece("EDIT: ", Tone::AccentBold));
        let keys = vec![("[Enter] ", "Save  "), ("[Esc] ", "Cancel")];
        let mut h = key_hints(&keys);
        let ghost hv = line_v(h@);
        let ghost rv = line_v(r@);
        r.append(&mut h);
        assert(line_v(r@) =~= rv + hv);
        assert(line_v(r@) =~= footer_v(*app));
        r
    } else if app.command_mode {
        l3(piece(":", Tone::Accent), owned(app.command_buffer.clone(), Tone::Plain), piece("_", Tone::Blink))
    } else if app.search_mode {
        let info = if app.search_buffer.as_str().is_empty() {
            String::new()
        } else {
            let mut t = " (".to_string();
            t.append(decimal_string(app.search_matches.len() as u64).as_str());
            t.append(" matches)");
            t
        };
        l4(
            piece("/", Tone::Accent),
            owned(app.search_buffer.clone(), Tone::Plain),
            piece("_", Tone::Blink),
            owned(info, Tone::Dim),
        )
    } else {
        let keys = match app.current_panel {
            Panel::LiveTranscription => vec![
                ("[Space/v] ", "VAD  "),
                ("[t] ", "Typing  "),
                ("[a] ", "Auto-corr  "),
                ("[q] ", "Quit"),
            ],
            Panel::Configuration => vec![
                ("[P] ", "Profile  "),
                ("[e] ", "URL  "),
                ("[d] ", "Device  "),
                ("[L] ", "Lang  "),
                ("[f] ", "Lower  "),
                ("[p] ", "Punct  "),
                ("[n] ", "Enter  "),
                ("[q] ", "Quit"),
            ],
            Panel::Logs => vec![("[/] ", "Search  "), ("[F] ", "Filter  "), ("[j/k] ", "Scroll  "), ("[q] ", "Quit")],
        };
        let r = key_hints(&keys);
        assert(line_v(r@) =~= footer_v(*app));
        r
    }
}

/// One visible entry of the log list.
#[derive(Debug, Clone, PartialEq, Eq)]
pub struct LogRow {
    /// Index of the message in the log.
    pub index: usize,
    /// Whether it is the selected message.
    pub selected: bool,
    /// Whether a search is on and the message matches it.
    pub matched: bool,
}

/// The log list's title: the active filter's name unless all are shown.
pub open spec fn logs_title_v(filter: LogFilter) -> Seq<char> {
    match filter {
        LogFilter::All => " Logs "@,
        LogFilter::Errors => " Logs [Errors] "@,
        LogFilter::Warnings => " Logs [Warnings] "@,
    }
}

/// The log list's title.
pub fn logs_title(filter: LogFilter) -> (r: &'static str)
    ensures
        r@ == logs_title_v(filter),
{
    match filter {
        LogFilter::All => " Logs ",
        LogFilter::Errors => " Logs [Errors] ",
        LogFilter::Warnings => " Logs [Warnings] ",
    }
}

/// The entries of the log list: the messages the filter accepts, in order,
/// each marked selected or matched.
pub fn log_rows(app: &App) -> (r: Vec<LogRow>)
    ensures
        forall|k: int|
            0 <= k < r@.len() ==> {
                let row = #[trigger] r@[k];
                &&& row.index < app.logs@.len()
                &&& app.log_filter.accepts(app.logs@[row.index as int]@)
                &&& row.selected == (row.index == app.selected_log)
                &&& row.matched == (app.search_buffer@.len() > 0 && app.search_matches@.contains(
                    row.index,
                ))
            },
        forall|k1: int, k2: int| 0 <= k1 < k2 < r@.len() ==> r@[k1].index < r@[k2].index,
        forall|i: int|
            0 <= i < app.logs@.len() && app.log_filter.accepts(#[trigger] app.logs@[i]@) ==> exists|
                k: int,
            | 0 <= k < r@.len() && r@[k].index == i,
{
    let search_active = !app.search_buffer.as_str().is_empty();
    let mut r: Vec<LogRow> = Vec::new();
    let mut i: usize = 0;
    while i < app.logs.len()
        invariant
            i <= app.logs@.len(),
            search_active == (app.search_buffer@.len() > 0),
            forall|k: int|
                0 <= k < r@.len() ==> {
                    let row = #[trigger] r@[k];
                    &&& row.index < i
                    &&& app.log_filter.accepts(app.logs@[row.index as int]@)
                    &&& row.selected == (row.index == app.selected_log)
                    &&& row.matched == (app.search_buffer@.len() > 0
                        && app.search_matches@.contains(row.index))
                },
            forall|k1: int, k2: int| 0 <= k1 < k2 < r@.len() ==> r@[k1].index < r@[k2].index,
            forall|j: int|
                0 <= j < i && app.log_filter.accepts(#[trigger] app.logs@[j]@) ==> exists|k: int|
                    0 <= k < r@.len() && r@[k].index == j,
        decreases app.logs@.len() - i,
    {
        if app.log_filter.matches(app.logs[i].as_str()) {
            let mut matched = false;
            if search_active {
                let mut j: usize = 0;
                while j < app.search_matches.len()
                    invariant
                        j <= app.search_matches@.len(),
                        matched == (exists|m: int| 0 <= m < j && app.search_matches@[m] == i),
                    decreases app.search_matches@.len() - j,
                {
                    if app.search_matches[j] == i {
                        matched = true;
                    }
                    j = j + 1;
                }
            }
            proof {
                if matched {
                    let m = choose|m: int| 0 <= m < app.search_matches@.len() && app.search_matches@[m] == i;
                    assert(app.search_matches@.contains(i));
                }
                if app.search_matches@.contains(i) && search_active {
                    let m = choose|m: int| 0 <= m < app.search_matches@.len() && app.search_matches@[m] == i;
                    assert(app.search_matches@[m] == i);
                }
            }
            let ghost old_r = r@;
            r.push(LogRow { index: i, selected: i == app.selected_log, matched });
            proof {
                assert forall|j: int|
                    0 <= j < i + 1 && app.log_filter.accepts(#[trigger] app.logs@[j]@) implies exists|
                        k: int,
                    | 0 <= k < r@.len() && r@[k].index == j by {
                    if j < i {
                        let k = choose|k: int| 0 <= k < old_r.len() && old_r[k].index == j;
                        assert(r@[k].index == j);
                    } else {
                        assert(r@[old_r.len() as int].index == j);
                    }
                }
            }
        }
        i = i + 1;
    }
    r
}

/// The live panel's status line and its progressive typing and clipboard
/// checkboxes lie on the lines its click regions cover. (Its auto-correction
/// region shares the clipboard line; the auto-correction checkbox is the
/// line below.)
pub proof fn law_live_clicks_hit_their_lines(app: App)
    ensures
        live_lines(app).len() == 18 + transcript_v(app).len(),
        live_lines(app)[1] == vad_status_v(app.vad_active),
        live_lines(app)[5 + transcript_v(app).len() as int + 3] == checkbox_v(
            app.progressive_typing,
            " Progressive Typing [t]"@,
            Tone::Toggle,
        ),
        live_lines(app)[5 + transcript_v(app).len() as int + 4] == checkbox_v(
            app.save_to_clipboard,
            " Save to Clipboard [b]"@,
            Tone::Toggle,
        ),
        live_lines(app)[5 + transcript_v(app).len() as int + 5] == checkbox_v(
            app.auto_correction,
            " Auto-correction [a]"@,
            Tone::Toggle,
        ),
{
    let head = seq![blank_v(), vad_status_v(app.vad_active), blank_v(), heading_v("Transcription:"@), blank_v()];
    let t = transcript_v(app);
    let rest = live_rest_v(app);
    assert(live_lines(app) == head + t + rest);
    assert(rest.len() == 13);
}

// ---------------------------------------------------------------------------
// Help overlay
// ---------------------------------------------------------------------------

/// The help overlay's lines, one piece each: the title, then the keys of
/// each part of the interface under a heading.
pub open spec fn help_v() -> Seq<(Seq<char>, Tone)> {
    seq![
        ("Help (press ? or Esc to close)"@, Tone::AccentBold),
        (""@, Tone::Plain),
        ("Global:"@, Tone::Bold),
        ("  q/Esc       Quit"@, Tone::Plain),
        ("  Tab/h/l     Switch panels"@, Tone::Plain),
        ("  j/k         Scroll"@, Tone::Plain),
        ("  v/Space     Toggle VAD"@, Tone::Plain),
        ("  :           Command mode"@, Tone::Plain),
        ("  ?           This help"@, Tone::Plain),
        (""@, Tone::Plain),
        ("Configuration Panel:"@, Tone::Bold),
        ("  e           Edit server URL"@, Tone::Plain),
        ("  d           Device picker"@, Tone::Plain),
        ("  Shift+P     Cycle profile"@, Tone::Plain),
        ("  Shift+L     Cycle language"@, Tone::Plain),
        ("  f           Toggle lowercase filter"@, Tone::Plain),
        ("  p           Toggle punctuation filter"@, Tone::Plain),
        ("  s           Toggle strict alphabet filter"@, Tone::Plain),
        ("  n           Toggle auto-enter"@, Tone::Plain),
        (""@, Tone::Plain),
        ("Live Panel:"@, Tone::Bold),
        ("  t           Toggle progressive typing"@, Tone::Plain),
        ("  a           Toggle auto-correction"@, Tone::Plain),
        (""@, Tone::Plain),
        ("Logs Panel:"@, Tone::Bold),
        ("  /           Search logs"@, Tone::Plain),
        ("  n/N         Next/prev match"@, Tone::Plain),
        ("  Shift+F     Cycle log filter"@, Tone::Plain),
        (""@, Tone::Plain),
        ("Commands:"@, Tone::Bold),
        ("  :q          Quit"@, Tone::Plain),
        ("  :export     Export logs to file"@, Tone::Plain),
        ("  :theme      Toggle dark/light theme"@, Tone::Plain),
    ]
}

/// The help overlay's lines, one piece each.
pub fn help_lines() -> (r: Vec<Piece>)
    ensures
        line_v(r@) == help_v(),
{
    let r = vec![
        piece("Help (press ? or Esc to close)", Tone::AccentBold),
        piece("", Tone::Plain),
        piece("Global:", Tone::Bold),
        piece("  q/Esc       Quit", Tone::Plain),
        piece("  Tab/h/l     Switch panels", Tone::Plain),
        piece("  j/k         Scroll", Tone::Plain),
        piece("  v/Space     Toggle VAD", Tone::Plain),
        piece("  :           Command mode", Tone::Plain),
        piece("  ?           This help", Tone::Plain),
        piece("", Tone::Plain),
        piece("Configuration Panel:", Tone::Bold),
        piece("  e           Edit server URL", Tone::Plain),
        piece("  d           Device picker", Tone::Plain),
        piece("  Shift+P     Cycle profile", Tone::Plain),
        piece("  Shift+L     Cycle language", Tone::Plain),
        piece("  f           Toggle lowercase filter", Tone::Plain),
        piece("  p           Toggle punctuation filter", Tone::Plain),
        piece("  s           Toggle strict alphabet filter", Tone::Plain),
        piece("  n           Toggle auto-enter", Tone::Plain),
        piece("", Tone::Plain),
        piece("Live Panel:", Tone::Bold),
        piece("  t           Toggle progressive typing", Tone::Plain),
        piece("  a           Toggle auto-correction", Tone::Plain),
        piece("", Tone::Plain),
        piece("Logs Panel:", Tone::Bold),
        piece("  /           Search logs", Tone::Plain),
        piece("  n/N         Next/prev match", Tone::Plain),
        piece("  Shift+F     Cycle log filter", Tone::Plain),
        piece("", Tone::Plain),
        piece("Commands:", Tone::Bold),
        piece("  :q          Quit", Tone::Plain),
        piece("  :export     Export logs to file", Tone::Plain),
        piece("  :theme      Toggle dark/light theme", Tone::Plain),
    ];
    assert(line_v(r@) =~= help_v());
    r
}

/// Width of the help overlay, borders included.
pub const HELP_WIDTH: u16 = 44;

/// Where the help overlay of `lines` lines is drawn in `area`: centred, as
/// wide as [`HELP_WIDTH`] and as tall as its lines and borders, cut to the
/// area when that is smaller.
pub fn help_area(area: Rect, lines: u16) -> (r: Rect)
    requires
        area.x + area.width <= u16::MAX,
        area.y + area.height <= u16::MAX,
        lines + 2 <= u16::MAX,
    ensures
        ({
            let h = lines + 2;
            &&& r.x == area.x + (if area.width > HELP_WIDTH { area.width - HELP_WIDTH } else { 0 }) / 2
            &&& r.y == area.y + (if area.height > h { area.height - h } else { 0int }) / 2
            &&& r.width == if HELP_WIDTH < area.width { HELP_WIDTH } else { area.width }
            &&& r.height == if h < area.height { h } else { area.height as int }
        }),
{
    let h = lines + 2;
    let spare_w: u16 = if area.width > HELP_WIDTH { area.width - HELP_WIDTH } else { 0 };
    let spare_h: u16 = if area.height > h { area.height - h } else { 0 };
    Rect {
        x: area.x + spare_w / 2,
        y: area.y + spare_h / 2,
        width: if HELP_WIDTH < area.width { HELP_WIDTH } else { area.width },
        height: if h < area.height { h } else { area.height },
    }
}

} // verus!
