use ears::highlight::{search_marks, Mark};

fn m(start: usize, end: usize, hit: bool) -> Mark {
    Mark { start, end, hit }
}

#[test]
fn occurrences_are_marked_ignoring_case() {
    let r = search_marks("Hello hELLo", "ELLO");
    assert_eq!(r, vec![m(0, 1, false), m(1, 5, true), m(5, 7, false), m(7, 11, true)]);
}

#[test]
fn occurrences_do_not_overlap_and_leftmost_wins() {
    assert_eq!(search_marks("aaa", "aa"), vec![m(0, 2, true), m(2, 3, false)]);
    assert_eq!(search_marks("aaaa", "aa"), vec![m(0, 2, true), m(2, 4, true)]);
}

#[test]
fn no_occurrence_leaves_one_plain_run() {
    assert_eq!(search_marks("Streaming error: timeout", "warn"), vec![m(0, 24, false)]);
}

#[test]
fn empty_search_or_line() {
    assert_eq!(search_marks("abc", ""), vec![m(0, 3, false)]);
    assert_eq!(search_marks("", "abc"), Vec::<Mark>::new());
}

#[test]
fn highlighted_lines_are_the_search_matches() {
    let mut app = ears::tui_app::App::new();
    app.add_log("Streaming error: timeout");
    app.add_log("Segment: \"hello\" (800ms)");
    app.add_log("ERROR while typing");
    app.search_buffer = "Err".to_string();
    app.update_search_matches();
    for (i, line) in app.logs.iter().enumerate() {
        let marked = search_marks(line, &app.search_buffer).iter().any(|m| m.hit);
        assert_eq!(marked, app.search_matches.contains(&i), "line {}", i);
    }
    assert_eq!(app.search_matches, vec![2, 4]);
}
