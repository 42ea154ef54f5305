use multibox::manager::WindowManager;
use multibox::window::DofusWindow;

fn window(hwnd: usize, name: &str) -> DofusWindow {
    DofusWindow {
        title: format!("{} - Beta", name),
        hwnd,
        name: name.to_string(),
        class: "Beta".to_string(),
    }
}

fn three_windows() -> Vec<DofusWindow> {
    vec![window(1, "One"), window(2, "Two"), window(3, "Three")]
}

#[test]
fn next_wraps_around_after_full_cycle() {
    let mut m = WindowManager::new();
    m.refresh_windows(three_windows());
    let start = m.current_index;
    let a = m.next_window().unwrap();
    let b = m.next_window().unwrap();
    let c = m.next_window().unwrap();
    assert_eq!(a.hwnd, 2);
    assert_eq!(b.hwnd, 3);
    assert_eq!(c.hwnd, 1);
    assert_eq!(m.current_index, start);
}

#[test]
fn previous_wraps_around_after_full_cycle() {
    let mut m = WindowManager::new();
    m.refresh_windows(three_windows());
    let start = m.current_index;
    let a = m.previous_window().unwrap();
    let b = m.previous_window().unwrap();
    let c = m.previous_window().unwrap();
    assert_eq!(a.hwnd, 3);
    assert_eq!(b.hwnd, 2);
    assert_eq!(c.hwnd, 1);
    assert_eq!(m.current_index, start);
}

#[test]
fn navigation_on_empty_set_is_a_no_op() {
    let mut m = WindowManager::new();
    assert!(m.next_window().is_none());
    assert!(m.previous_window().is_none());
    assert_eq!(m.current_index, 0);
    assert!(m.windows.is_empty());
}

#[test]
fn refresh_with_changed_size_resets_cursor() {
    let mut m = WindowManager::new();
    m.refresh_windows(three_windows());
    m.next_window();
    m.next_window();
    assert_eq!(m.current_index, 2);
    m.refresh_windows(vec![window(1, "One"), window(2, "Two")]);
    assert_eq!(m.current_index, 0);
}

#[test]
fn refresh_with_grown_size_resets_cursor() {
    let mut m = WindowManager::new();
    m.refresh_windows(vec![window(1, "One"), window(2, "Two")]);
    m.next_window();
    assert_eq!(m.current_index, 1);
    let mut bigger = three_windows();
    bigger.push(window(4, "Four"));
    m.refresh_windows(bigger);
    assert_eq!(m.current_index, 0);
}

#[test]
fn refresh_with_same_size_keeps_cursor() {
    let mut m = WindowManager::new();
    m.refresh_windows(three_windows());
    m.next_window();
    m.next_window();
    assert_eq!(m.current_index, 2);
    m.refresh_windows(vec![window(7, "Seven"), window(8, "Eight"), window(9, "Nine")]);
    assert_eq!(m.current_index, 2);
    assert_eq!(m.windows[2].hwnd, 9);
}

#[test]
fn refresh_to_empty_resets_cursor() {
    let mut m = WindowManager::new();
    m.refresh_windows(three_windows());
    m.next_window();
    m.refresh_windows(vec![]);
    assert_eq!(m.current_index, 0);
    assert!(m.next_window().is_none());
}
