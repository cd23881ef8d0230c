use watcher_rs::app::{
    match_query, row_at, App, Area, ConfigState, Effect, Key, ListSelection, Load, Mouse, UpdateDbState, ViewMode,
    LIVE_BUFFER_SIZE,
};
use watcher_rs::model::{AppEvent, Classified, EventHeader, FileOpenEvent, FileType, ProcessExitEvent, Severity, UiEvent};

fn header(pid: u32) -> EventHeader {
    EventHeader { timestamp_ns: 5, pid, tid: pid, ppid: 1, uid: 0, gid: 0, comm: "x".into() }
}

fn open_ev(pid: u32, path: &str, severity: Severity) -> AppEvent {
    AppEvent::FileOpen(Classified {
        event: FileOpenEvent { header: header(pid), file_path: path.into(), file_type: FileType::Regular, inode: 1, retval: 0, flags: 0 },
        severity,
        matched_rules: vec![],
    })
}

fn exit_ev(pid: u32) -> AppEvent {
    AppEvent::ProcessExit(Classified { event: ProcessExitEvent { header: header(pid), exit_code: 0 }, severity: Severity::Info, matched_rules: vec![] })
}

#[test]
fn new_view_is_empty() {
    let app = App::new();
    assert!(app.running && !app.follow_tail && !app.searching);
    assert_eq!(app.view_mode, ViewMode::Live);
    assert_eq!(app.selected_filters.len(), 14);
    assert_eq!(app.selected_sevs.len(), 5);
    assert!(app.events.is_empty() && app.filtered_events.is_empty());
}

#[test]
fn push_counts_and_lists() {
    let mut app = App::new();
    let copy = app.push(open_ev(3, "/etc/hosts", Severity::High)).unwrap();
    assert_eq!(copy.severity, Severity::High);
    app.push(exit_ev(4));
    assert_eq!(app.high_ev_count, 1);
    assert_eq!(app.info_ev_count, 1);
    assert_eq!(app.filtered_events, vec![0, 1]);
    app.selected_filters[3] = true;
    assert!(app.push(exit_ev(5)).is_none());
    assert_eq!(app.events.len(), 2);
    app.selected_sevs[0] = true;
    app.push(open_ev(6, "/x", Severity::Low));
    assert_eq!(app.low_ev_count, 0);
    assert_eq!(app.events.len(), 3);
}

#[test]
fn search_lists_matching_events() {
    let mut app = App::new();
    app.push(open_ev(123, "/etc/hosts", Severity::Low));
    app.push(exit_ev(45));
    app.push(open_ev(7, "/tmp/hosts.bak", Severity::Low));
    for c in "hosts".chars() {
        app.search_push(c);
    }
    assert_eq!(app.filtered_events, vec![0, 2]);
    assert_eq!(app.stream_state.selected, Some(0));
    app.search_clear();
    app.search_push('4');
    assert_eq!(app.filtered_events, vec![1]);
    app.search_pop();
    assert_eq!(app.search_query, "");
    assert_eq!(app.filtered_events, vec![0, 1, 2]);
    let e = UiEvent::new(open_ev(123, "/a", Severity::Low));
    assert!(match_query(&e, "12"));
    assert!(match_query(&e, "FileOpen"));
    assert!(match_query(&e, "open: /a"));
    assert!(!match_query(&e, "x9"));
}

#[test]
fn selection_follows_scrolling() {
    let mut app = App::new();
    for i in 0..5 {
        app.push(exit_ev(i));
    }
    app.view_port.height = 2;
    app.stream_state.select(Some(0));
    assert_eq!(app.scroll_load(false), None);
    app.scroll_down();
    assert_eq!(app.stream_state.selected, Some(1));
    app.scroll_down();
    assert_eq!((app.view_port.window_start, app.stream_state.selected), (1, Some(1)));
    assert_eq!(app.selected_event.as_ref().unwrap().event.pid(), 2);
    app.scroll_up();
    assert_eq!((app.view_port.window_start, app.stream_state.selected), (1, Some(0)));
    app.scroll_up();
    assert_eq!((app.view_port.window_start, app.stream_state.selected), (0, Some(0)));
    app.scroll_up();
    assert_eq!((app.view_port.window_start, app.stream_state.selected), (0, Some(0)));
}

#[test]
fn history_scrolling_asks_for_batches() {
    let mut app = App::new();
    app.total_batches = 3;
    app.loaded_range = (2, 2);
    app.base_global = 2000;
    app.view_port = watcher_rs::app::Viewport { height: 10, window_start: 2000 };
    app.stream_state.select(Some(0));
    assert_eq!(app.scroll_load(true), Some(Load::Range(0, 1)));
    let batch: Vec<UiEvent> = (0..3).map(|i| UiEvent::new(exit_ev(i))).collect();
    app.apply_load(Load::Range(0, 1), batch);
    assert_eq!(app.events.len(), 3);
    assert_eq!(app.loaded_range, (0, 1));
    assert_eq!(app.filtered_events, vec![0, 1, 2]);
    assert_eq!(app.batches_to_load(1500), None);
    assert_eq!(app.batches_to_load(2500), Some((2, 2)));
}

#[test]
fn live_buffer_drops_written_events() {
    let mut app = App::new();
    app.follow_tail = true;
    for i in 0..(LIVE_BUFFER_SIZE as u32 + 5) {
        app.push(exit_ev(i));
    }
    assert_eq!(app.events.len(), LIVE_BUFFER_SIZE + 5);
    app.on_flush_confirmed(3, 0);
    assert_eq!(app.events.len(), LIVE_BUFFER_SIZE + 2);
    assert_eq!(app.base_global, 3);
    assert_eq!(app.filtered_events[0], 0);
    assert_eq!(app.events[0].event.pid(), 3);
    assert_eq!(app.view_port.window_start, 3);
    app.on_flush_confirmed(100, 0);
    assert_eq!(app.events.len(), LIVE_BUFFER_SIZE);
    assert_eq!(app.base_global, 5);
}

#[test]
fn keys_drive_the_view() {
    let mut app = App::new();
    for i in 0..4 {
        app.push(exit_ev(i));
    }
    app.view_port.height = 2;
    assert_eq!(app.handle_key(Key::Char('r'), false, 0), Effect::ReloadConfig);
    assert_eq!(app.handle_key(Key::Char('U'), false, 1000), Effect::UpdateDb);
    assert_eq!(app.db_update_state, Some((UpdateDbState::Updating, 4000)));
    app.update_db_notification(3999);
    assert!(app.db_update_state.is_some());
    app.update_db_notification(4000);
    assert!(app.db_update_state.is_none());
    assert_eq!(app.handle_key(Key::Char('G'), false, 0), Effect::Nothing);
    assert!(app.follow_tail);
    assert_eq!((app.view_port.window_start, app.stream_state.selected), (2, Some(1)));
    assert_eq!(app.selected_event.as_ref().unwrap().event.pid(), 3);
    assert_eq!(app.handle_key(Key::Up, false, 0), Effect::ScrollUp);
    assert!(!app.follow_tail);
    assert_eq!(app.handle_key(Key::Char('g'), false, 0), Effect::Nothing);
    assert_eq!(app.handle_key(Key::Char('g'), false, 0), Effect::JumpTop);
    assert_eq!(app.top_load(), None);
    app.jump_top();
    assert_eq!((app.view_port.window_start, app.stream_state.selected), (0, Some(0)));
    app.handle_key(Key::Char('t'), false, 0);
    assert!(app.twle_hr_format);
    app.handle_key(Key::Char('/'), false, 0);
    assert!(app.searching);
    app.handle_key(Key::Char('q'), false, 0);
    assert!(app.running);
    assert_eq!(app.search_query, "q");
    app.handle_key(Key::Esc, false, 0);
    assert!(!app.searching);
    app.handle_key(Key::Char('p'), false, 0);
    assert!(app.pause);
    app.handle_key(Key::Char('l'), true, 0);
    assert!(app.events.is_empty());
    assert_eq!(app.info_ev_count, 0);
    app.handle_key(Key::Char('q'), false, 0);
    assert!(!app.running);
    app.check_config_state(ConfigState::ConfigReloaded, 10);
    assert_eq!(app.config_notification, Some((ConfigState::ConfigReloaded, 3010)));
}

#[test]
fn clicks_toggle_filters() {
    let mut app = App::new();
    app.sev_area = Area { x: 0, y: 0, width: 20, height: 7 };
    app.filter_area = Area { x: 0, y: 8, width: 20, height: 16 };
    assert_eq!(row_at(app.sev_area, 3, 0, 5), None);
    assert_eq!(row_at(app.sev_area, 3, 2, 5), Some(1));
    assert_eq!(row_at(app.sev_area, 30, 2, 5), None);
    assert_eq!(app.handle_mouse(Mouse::LeftDown { col: 3, row: 2 }), Effect::Nothing);
    assert!(app.selected_sevs[1]);
    assert_eq!(app.sev_state, ListSelection { selected: Some(1), offset: 0 });
    app.handle_mouse(Mouse::LeftDown { col: 1, row: 10 });
    assert!(app.selected_filters[1]);
    app.handle_mouse(Mouse::LeftDown { col: 1, row: 10 });
    assert!(!app.selected_filters[1]);
    app.follow_tail = true;
    assert_eq!(app.handle_mouse(Mouse::ScrollUp), Effect::ScrollUp);
    assert!(!app.follow_tail);
    assert_eq!(app.handle_mouse(Mouse::ScrollDown), Effect::ScrollDown);
}

#[test]
fn visible_window_and_layout() {
    let mut app = App::new();
    app.set_stream_layout(Area { x: 25, y: 1, width: 80, height: 12 });
    assert_eq!(app.view_port.height, 10);
    assert_eq!(app.stream_list_offset, 2);
    assert_eq!(app.visible_rows(), None);
    for i in 0..15 {
        app.push(exit_ev(i));
    }
    app.view_port.window_start = 12;
    app.stream_state.select(Some(7));
    assert_eq!(app.visible_rows(), Some((12, 15, 14)));
    assert_eq!(app.stream_state.selected, Some(2));
    app.stream_state.offset = 1;
    assert_eq!(app.row_at_stream(30, 5), Some(3));
    assert_eq!(app.row_at_stream(30, 1), None);
    assert_eq!(app.row_at_stream(10, 5), None);
}

#[test]
fn tick_moves_to_the_newest_event() {
    let mut app = App::new();
    app.follow_tail = true;
    app.view_port.height = 3;
    for i in 0..6 {
        app.push(exit_ev(i));
    }
    assert!(app.follow_tail_dirty);
    app.follow_tick();
    assert!(!app.follow_tail_dirty);
    assert_eq!((app.view_port.window_start, app.stream_state.selected), (3, Some(2)));
    assert_eq!(app.selected_event.as_ref().unwrap().event.pid(), 5);
    app.batches_written(2);
    assert_eq!(app.flushed_global, 2000);
    assert_eq!(watcher_rs::app::clock_offset(2_000_000_000, 1, 500), 999_999_500);
}

#[test]
fn search_delete_undoes_typing() {
    let mut app = App::new();
    app.push(open_ev(123, "/etc/hosts", Severity::Low));
    app.push(exit_ev(45));
    app.push(open_ev(7, "/tmp/hosts.bak", Severity::Low));
    for c in "host".chars() {
        app.search_push(c);
    }
    let listed = app.filtered_events.clone();
    assert_eq!(listed, vec![0, 2]);
    app.search_push('z');
    assert!(app.filtered_events.is_empty());
    app.search_pop();
    assert_eq!(app.search_query, "host");
    assert_eq!(app.filtered_events, listed);
}

#[test]
fn paused_view_ignores_events() {
    let mut app = App::new();
    app.pause = true;
    assert!(app.receive(open_ev(1, "/etc/hosts", Severity::Low)).is_none());
    assert!(app.events.is_empty() && app.low_ev_count == 0);
    app.pause = false;
    assert!(app.receive(open_ev(1, "/etc/hosts", Severity::Low)).is_some());
    assert_eq!(app.events.len(), 1);
}

#[test]
fn each_event_matches_one_filter() {
    let ev = open_ev(1, "/etc/hosts", Severity::Low);
    let hits: Vec<usize> = (0..14).filter(|&i| ev.matches_filter(i)).collect();
    assert_eq!(hits, vec![3]);
    let ex = exit_ev(2);
    let hits: Vec<usize> = (0..14).filter(|&i| ex.matches_filter(i)).collect();
    assert_eq!(hits, vec![1]);
}
