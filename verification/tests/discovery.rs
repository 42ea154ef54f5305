use multibox::window::{build_window_list, find_by_hwnd, match_window, parse_title, DofusWindow, RawWindow};

#[test]
fn splits_title_on_first_separator() {
    let parts = parse_title("Alpha - Beta").unwrap();
    assert_eq!(parts.0, "Alpha");
    assert_eq!(parts.1, "Beta");
}

#[test]
fn split_keeps_second_segment_only() {
    let parts = parse_title("Juno - Beta 3 - extra").unwrap();
    assert_eq!(parts.0, "Juno");
    assert_eq!(parts.1, "Beta 3");
}

#[test]
fn title_without_separator_yields_nothing() {
    assert!(parse_title("AlphaBeta").is_none());
    assert!(parse_title("").is_none());
}

#[test]
fn separator_at_start_yields_empty_name() {
    let parts = parse_title(" - Beta").unwrap();
    assert_eq!(parts.0, "");
    assert_eq!(parts.1, "Beta");
}

#[test]
fn separator_at_end_yields_empty_label() {
    let parts = parse_title("Alpha - ").unwrap();
    assert_eq!(parts.0, "Alpha");
    assert_eq!(parts.1, "");
}

#[test]
fn adjacent_separators_yield_empty_middle_segment() {
    let parts = parse_title("Alpha -  - Beta").unwrap();
    assert_eq!(parts.0, "Alpha");
    assert_eq!(parts.1, "");
}

#[test]
fn matching_title_becomes_a_window() {
    let w = match_window(42, "Alpha - Beta").unwrap();
    assert_eq!(w.hwnd, 42);
    assert_eq!(w.title, "Alpha - Beta");
    assert_eq!(w.name, "Alpha");
    assert_eq!(w.class, "Beta");
}

#[test]
fn title_without_separator_is_excluded_entirely() {
    // The marker alone does not qualify a title: without the separator the
    // window is excluded, not included with empty fields.
    assert!(match_window(1, "Nothing- Beta").is_none());
}

#[test]
fn title_without_marker_is_excluded() {
    assert!(match_window(1, "Alpha - Release").is_none());
}

#[test]
fn build_list_keeps_enumeration_order_and_drops_non_matches() {
    let raw = vec![
        RawWindow { hwnd: 10, title: "One - Beta".to_string() },
        RawWindow { hwnd: 11, title: "Task Manager".to_string() },
        RawWindow { hwnd: 12, title: "Two - Beta 3".to_string() },
        RawWindow { hwnd: 13, title: "Release - build".to_string() },
    ];
    let list = build_window_list(&raw);
    assert_eq!(list.len(), 2);
    assert_eq!(list[0].hwnd, 10);
    assert_eq!(list[0].name, "One");
    assert_eq!(list[0].class, "Beta");
    assert_eq!(list[1].hwnd, 12);
    assert_eq!(list[1].name, "Two");
    assert_eq!(list[1].class, "Beta 3");
}

#[test]
fn empty_enumeration_builds_empty_list() {
    let raw: Vec<RawWindow> = vec![];
    assert!(build_window_list(&raw).is_empty());
}

#[test]
fn find_by_hwnd_returns_first_match() {
    let ws = vec![
        DofusWindow { title: "A - Beta".to_string(), hwnd: 5, name: "A".to_string(), class: "Beta".to_string() },
        DofusWindow { title: "B - Beta".to_string(), hwnd: 7, name: "B".to_string(), class: "Beta".to_string() },
    ];
    assert_eq!(find_by_hwnd(&ws, 7), Some(1));
    assert_eq!(find_by_hwnd(&ws, 5), Some(0));
    assert_eq!(find_by_hwnd(&ws, 6), None);
    assert_eq!(find_by_hwnd(&vec![], 5), None);
}

#[test]
fn cloned_window_keeps_all_fields() {
    let w = DofusWindow { title: "A - Beta".to_string(), hwnd: 5, name: "A".to_string(), class: "Beta".to_string() };
    let c = w.clone();
    assert_eq!(w, c);
}
