use ears::audio::AudioDevice;
use ears::tui::{ClickAction, LogFilter, Panel};
use ears::tui_app::{App, Rect};
use ears::tui_view::{footer_view, header_view, log_rows, logs_title, transcript_section_len, Piece, Tone};

fn text(line: &[Piece]) -> String {
    line.iter().map(|p| p.text.as_str()).collect()
}

fn area() -> Rect {
    Rect { x: 0, y: 3, width: 80, height: 40 }
}

#[test]
fn config_panel_lines_and_regions_line_up() {
    let mut app = App::new();
    app.clickable_regions.clear();
    app.text_filters.lowercase = true;
    let view = app.config_panel_view(area());
    assert!(!view.border_active);
    assert_eq!(view.lines.len(), 26);
    assert_eq!(text(&view.lines[1]), "Profile: default [Shift+P]");
    assert!(text(&view.lines[3]).starts_with("Server URL: "));
    assert_eq!(text(&view.lines[13]), "  [x] Lowercase [f]");
    assert_eq!(text(&view.lines[14]), "  [ ] Remove Punctuation [p]");
    assert_eq!(text(&view.lines[20]), "  [x] Auto Enter [n]");
    assert_eq!(text(&view.lines[22]), "  Auto [m]");
    assert_eq!(text(&view.lines[23]), "  Cue Volume: 100% [+/-]");
    assert_eq!(view.lines[13][1].tone, Tone::Accent);
    // Every region sits on the line that shows its control.
    let regions = app.clickable_regions.clone();
    assert_eq!(regions.len(), 8);
    for r in &regions {
        let line = (r.rect.y - 4) as usize;
        let shown = text(&view.lines[line]);
        let expected = match r.action {
            ClickAction::ToggleLowercaseFilter => "Lowercase",
            ClickAction::TogglePunctuationFilter => "Remove Punctuation",
            ClickAction::ToggleStrictAlphabetFilter => "Strict Alphabet",
            ClickAction::ToggleAutoEnter => "Auto Enter",
            ClickAction::ToggleSaveToClipboard => "Save to Clipboard",
            ClickAction::ToggleProgressiveTyping => "Progressive Typing",
            ClickAction::ToggleAutoCorrection => "Auto-correction",
            ClickAction::CycleTypingMode => "[m]",
            _ => panic!("unexpected region"),
        };
        assert!(shown.contains(expected), "{:?} on {:?}", r.action, shown);
        assert_eq!(r.rect.x, 1);
        assert_eq!(r.rect.width, 78);
        assert_eq!(r.rect.height, 1);
    }
}

#[test]
fn open_device_picker_lists_devices() {
    let mut app = App::new();
    app.clickable_regions.clear();
    app.device = "b".to_string();
    app.device_picker_open = true;
    app.device_picker_devices = vec![
        AudioDevice { name: "a".to_string(), description: "Mic A".to_string() },
        AudioDevice { name: "b".to_string(), description: "Mic B".to_string() },
    ];
    app.device_picker_selected = 0;
    let view = app.config_panel_view(area());
    assert!(view.border_active);
    assert_eq!(view.lines.len(), 28);
    assert_eq!(text(&view.lines[8]), "  > Mic A");
    assert_eq!(view.lines[8][0].tone, Tone::AccentBold);
    assert_eq!(text(&view.lines[9]), "    Mic B (current)");
    assert_eq!(view.lines[9][0].tone, Tone::Title);
    assert_eq!(text(&view.lines[27]), "[j/k] Navigate  [Enter] Select  [Esc] Cancel");
    let devices: Vec<_> = app.clickable_regions.iter().filter(|r| matches!(r.action, ClickAction::SelectDevice(_))).collect();
    assert_eq!(devices.len(), 2);
    assert_eq!(devices[1].action, ClickAction::SelectDevice(1));
    assert_eq!(devices[1].rect.y, 3 + 1 + 9);
    // A click on the first device's line picks it.
    assert!(app.handle_mouse(true, 5, 12));
    assert_eq!(app.device, "a");
}

#[test]
fn device_picker_error_replaces_list() {
    let mut app = App::new();
    app.device_picker_open = true;
    app.device_picker_error = Some("pw-cli failed".to_string());
    let view = app.config_panel_view(area());
    assert_eq!(text(&view.lines[8]), "  pw-cli failed");
    assert_eq!(view.lines[8][0].tone, Tone::Error);
}

#[test]
fn live_panel_shows_transcript_lines() {
    let mut app = App::new();
    app.clickable_regions.clear();
    let view = app.live_panel_view(area());
    assert_eq!(text(&view.lines[1]), "VAD Mode: \u{25cb} Inactive");
    assert_eq!(text(&view.lines[5]), "  VAD mode is inactive. Press [Space] or [v] to enable.");
    app.vad_active = true;
    app.committed_text = "hello world".to_string();
    app.uncommitted_text = " again\nnext".to_string();
    app.clickable_regions.clear();
    assert_eq!(transcript_section_len(&app), 4);
    let view = app.live_panel_view(area());
    assert_eq!(text(&view.lines[1]), "VAD Mode: \u{25cf} Active");
    // "hello world again" is longer than the committed text: committed + dim uncommitted.
    assert_eq!(text(&view.lines[5]), "  hello world again\nnext");
    assert_eq!(view.lines[5][1].tone, Tone::Dim);
    assert_eq!(text(&view.lines[6]), "  next");
    assert_eq!(text(&view.lines[8]), "  (gray = uncommitted)");
    assert_eq!(text(&view.lines[12]), "  [ ] Progressive Typing [t]");
    assert_eq!(text(&view.lines[20]), "  Transcriptions: 0 total, 0 ok, 0 failed");
    let regions = app.clickable_regions.clone();
    assert_eq!(regions.len(), 4);
    assert_eq!(regions[0].action, ClickAction::ToggleVadMode);
    assert_eq!(regions[0].rect.y, 5);
    assert_eq!(regions[1].rect.y, 4 + 12);
    assert_eq!(regions[2].action, ClickAction::ToggleAutoCorrection);
    assert_eq!(regions[2].rect.y, 4 + 13);
    assert_eq!(regions[3].rect.y, 4 + 13);
    app.vad_active = true;
    app.committed_text.clear();
    app.uncommitted_text.clear();
    let view = app.live_panel_view(area());
    assert_eq!(text(&view.lines[5]), "  Listening...");
}

#[test]
fn header_footer_and_tabs() {
    let mut app = App::new();
    assert_eq!(text(&header_view(&app, "1.2.3")), "ears v1.2.3 \u{2502} Status: \u{25cb} Idle");
    app.vad_active = true;
    app.is_speaking = true;
    let h = header_view(&app, "1.2.3");
    assert_eq!(text(&h), "ears v1.2.3 \u{2502} Status: \u{25cf} VAD Active");
    assert_eq!(h[3].tone, Tone::Accent);
    assert_eq!(text(&footer_view(&app)), "[P] Profile  [e] URL  [d] Device  [L] Lang  [f] Lower  [p] Punct  [n] Enter  [q] Quit");
    app.current_panel = Panel::Logs;
    app.search_mode = true;
    app.search_buffer = "err".to_string();
    app.search_matches = vec![1, 4];
    assert_eq!(text(&footer_view(&app)), "/err_ (2 matches)");
    app.clickable_regions.clear();
    let (titles, index) = app.tabs_view(Rect { x: 0, y: 3, width: 80, height: 3 });
    assert_eq!(titles, vec!["\u{25b8} Configuration", "\u{25b8} Logs", "\u{25b8} Live"]);
    assert_eq!(index, 1);
    let widths: Vec<u16> = app.clickable_regions.iter().map(|r| r.rect.width).collect();
    assert_eq!(widths, titles.iter().map(|t| t.len() as u16 + 1).collect::<Vec<_>>());
    assert_eq!(app.clickable_regions[2].rect.x, 28);
    assert!(app.handle_mouse(true, 30, 4));
    assert_eq!(app.current_panel, Panel::LiveTranscription);
}

#[test]
fn log_rows_follow_filter_and_search() {
    let mut app = App::new();
    app.logs = vec!["ok".to_string(), "Error: boom".to_string(), "fine".to_string(), "failed again".to_string()];
    app.selected_log = 3;
    app.log_filter = LogFilter::Errors;
    app.search_buffer = "again".to_string();
    app.search_matches = vec![3];
    let rows = log_rows(&app);
    assert_eq!(rows.iter().map(|r| r.index).collect::<Vec<_>>(), vec![1, 3]);
    assert!(!rows[0].selected && !rows[0].matched);
    assert!(rows[1].selected && rows[1].matched);
    assert_eq!(logs_title(LogFilter::Errors), " Logs [Errors] ");
    assert_eq!(logs_title(LogFilter::All), " Logs ");
}

#[test]
fn help_overlay_lines_and_area() {
    let lines = ears::tui_view::help_lines();
    assert_eq!(lines.len(), 33);
    assert_eq!(lines[0].text, "Help (press ? or Esc to close)");
    assert_eq!(lines[0].tone, ears::tui_view::Tone::AccentBold);
    assert_eq!(lines[2].text, "Global:");
    assert_eq!(lines[32].text, "  :theme      Toggle dark/light theme");
    let area = Rect { x: 0, y: 0, width: 100, height: 40 };
    let r = ears::tui_view::help_area(area, 33);
    assert_eq!((r.x, r.y, r.width, r.height), (28, 2, 44, 35));
    let small = Rect { x: 2, y: 1, width: 30, height: 20 };
    let r = ears::tui_view::help_area(small, 33);
    assert_eq!((r.x, r.y, r.width, r.height), (2, 1, 30, 20));
}
