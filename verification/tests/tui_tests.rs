use watcher_rs::tui::{App, ScrollBar};

#[test]
fn viewer_scrolls_and_quits() {
    let mut app = App::new();
    assert!(app.running);
    app.scroll_up();
    assert_eq!(app.vertical_scroll, 0);
    app.scroll_down();
    app.scroll_down();
    assert_eq!(app.vertical_scroll, 2);
    assert_eq!(app.vertical_scroll_state, ScrollBar { content_length: 0, position: 2 });
    app.scroll_right();
    assert_eq!(app.horizontal_scroll, 3);
    assert_eq!(app.horizontal_scroll_state.position, 3);
    app.scroll_left();
    assert_eq!(app.vertical_scroll, 1);
    app.handle_key(Some('x'));
    assert!(app.running);
    app.handle_key(Some('q'));
    assert!(!app.running);
}
