use automat_core::{
    CloseWindow, MaximizeWindow, MinimizeWindow, OpenInBrowser, SetWindowTitle, Window,
    WindowIdentifier,
};

#[test]
fn open_in_browser_defaults_to_system_browser() {
    let a = OpenInBrowser::new("https://example.com".to_string());
    assert_eq!(a.url(), "https://example.com");
    assert_eq!(a.browser(), None);
}

#[test]
fn open_in_browser_with_browser() {
    let a = OpenInBrowser::new("https://example.com".to_string()).with_browser("firefox".to_string());
    assert_eq!(a.url(), "https://example.com");
    assert_eq!(a.browser(), Some("firefox"));
}

#[test]
fn window_actions_target_the_given_window() {
    let w = Window::new(WindowIdentifier::new(42));
    assert_eq!(CloseWindow::for_window(w).window_id, WindowIdentifier::new(42));
    assert_eq!(MaximizeWindow::for_window(w).window_id, WindowIdentifier::new(42));
    assert_eq!(MinimizeWindow::for_window(w).window_id, WindowIdentifier::new(42));
    assert_eq!(CloseWindow::from_id(WindowIdentifier::new(9)).window_id, WindowIdentifier::new(9));
    assert_eq!(MaximizeWindow::from_id(WindowIdentifier::new(9)).window_id, WindowIdentifier::new(9));
    assert_eq!(MinimizeWindow::from_id(WindowIdentifier::new(9)).window_id, WindowIdentifier::new(9));
}

#[test]
fn window_actions_need_a_focused_window() {
    let w = Window::new(WindowIdentifier::new(5));
    assert_eq!(CloseWindow::try_current(Some(w)).map(|a| a.window_id), Some(WindowIdentifier::new(5)));
    assert!(CloseWindow::try_current(None).is_none());
    assert!(MaximizeWindow::try_current(None).is_none());
    assert!(MinimizeWindow::try_current(None).is_none());
    assert!(SetWindowTitle::try_current(None, "t".to_string()).is_none());
    let s = SetWindowTitle::try_current(Some(w), "New".to_string()).unwrap();
    assert_eq!(s.window_id(), WindowIdentifier::new(5));
    assert_eq!(s.title(), "New");
}

#[test]
fn set_window_title_keeps_title_and_target() {
    let w = Window::new(WindowIdentifier::new(11));
    let a = SetWindowTitle::for_window(w, "Custom Title".to_string());
    assert_eq!(a.window_id(), WindowIdentifier::new(11));
    assert_eq!(a.title(), "Custom Title");
    let b = SetWindowTitle::from_id(WindowIdentifier::new(12), "Other".to_string());
    assert_eq!(b.window_id().as_u64(), 12);
    assert_eq!(b.title(), "Other");
}
