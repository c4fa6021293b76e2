use automat_core::{Window, WindowIdentifier, WindowState};

fn win(id: u64) -> Window {
    Window::new(WindowIdentifier::new(id))
}

#[test]
fn identifier_round_trip() {
    let id = WindowIdentifier::new(0xdead_beef);
    assert_eq!(id.as_u64(), 0xdead_beef);
    assert_eq!(win(7).id(), WindowIdentifier::new(7));
}

#[test]
fn focus_compares_identifiers() {
    let w = win(3);
    assert!(w.is_focused(Some(WindowIdentifier::new(3))));
    assert!(!w.is_focused(Some(WindowIdentifier::new(4))));
    assert!(!w.is_focused(None));
}

#[test]
fn visibility_defaults_to_false_without_state() {
    let w = win(1);
    let shown = WindowState { visible: true, maximized: false, minimized: false, enabled: true };
    let hidden = WindowState { visible: false, ..shown };
    assert!(w.is_visible(Some(shown)));
    assert!(!w.is_visible(Some(hidden)));
    assert!(!w.is_visible(None));
}

#[test]
fn window_state_predicates() {
    let normal = WindowState { visible: true, maximized: false, minimized: false, enabled: true };
    assert!(normal.is_normal());
    assert!(!normal.is_hidden());
    assert!(normal.can_accept_input());
    let maximized = WindowState { maximized: true, ..normal };
    assert!(!maximized.is_normal());
    let minimized = WindowState { minimized: true, ..normal };
    assert!(!minimized.is_normal());
    let disabled = WindowState { enabled: false, ..normal };
    assert!(!disabled.can_accept_input());
    let hidden = WindowState { visible: false, ..normal };
    assert!(hidden.is_hidden());
    assert!(!hidden.can_accept_input());
    assert!(!hidden.is_normal());
}

fn candidates() -> Vec<(Window, Option<String>)> {
    vec![
        (win(1), Some("Untitled - Notepad".to_string())),
        (win(2), None),
        (win(3), Some("Mozilla Firefox".to_string())),
        (win(4), Some("notes.txt - NOTEPAD".to_string())),
        (win(5), Some("Mozilla Firefox".to_string())),
    ]
}

#[test]
fn find_by_title_ignores_case_and_keeps_order() {
    let found = Window::find_by_title(&candidates(), "NotePad");
    assert_eq!(found, vec![win(1), win(4)]);
}

#[test]
fn find_by_title_with_no_match_is_empty() {
    assert!(Window::find_by_title(&candidates(), "terminal").is_empty());
    assert!(Window::find_by_title(&Vec::new(), "x").is_empty());
}

#[test]
fn find_by_title_with_empty_search_takes_every_titled_window() {
    let found = Window::find_by_title(&candidates(), "");
    assert_eq!(found, vec![win(1), win(3), win(4), win(5)]);
}

#[test]
fn select_by_folded_title_compares_as_given() {
    let windows = vec![win(1), win(2), win(3)];
    let titles = vec![Some("abc".to_string()), Some("ABC".to_string()), None];
    assert_eq!(Window::select_by_folded_title(&windows, &titles, "b"), vec![win(1)]);
    assert_eq!(Window::select_by_folded_title(&windows, &titles, "B"), vec![win(2)]);
}

#[test]
fn find_by_exact_title_takes_the_first_match() {
    assert_eq!(Window::find_by_exact_title(&candidates(), "Mozilla Firefox"), Some(win(3)));
    assert_eq!(Window::find_by_exact_title(&candidates(), "mozilla firefox"), None);
    assert_eq!(Window::find_by_exact_title(&candidates(), "Mozilla"), None);
}
