use taskpad::state::AppState;
use taskpad::viewport::visible_window;

#[test]
fn test_auto_follow_shows_last_lines() {
    assert_eq!(visible_window(100, 10, 0, true), (90, 100));
}

#[test]
fn test_scroll_cycle_restores_follow() {
    // Auto-follow viewport over 100 lines, height 10: shows [90, 100).
    let mut app = AppState::new(vec![]);
    assert!(app.log_auto_scroll);
    assert_eq!(visible_window(100, 10, app.log_scroll_offset, app.log_auto_scroll), (90, 100));

    // Scroll up 5: shows [85, 95), auto-follow off.
    app.scroll_logs_up(5);
    assert!(!app.log_auto_scroll);
    assert_eq!(app.log_scroll_offset, 5);
    assert_eq!(visible_window(100, 10, app.log_scroll_offset, app.log_auto_scroll), (85, 95));

    // Scroll down 5: back to [90, 100), auto-follow on again.
    app.scroll_logs_down(5);
    assert!(app.log_auto_scroll);
    assert_eq!(app.log_scroll_offset, 0);
    assert_eq!(visible_window(100, 10, app.log_scroll_offset, app.log_auto_scroll), (90, 100));
}

#[test]
fn test_partial_scroll_down_keeps_manual_mode() {
    let mut app = AppState::new(vec![]);
    app.scroll_logs_up(6);
    app.scroll_logs_down(2);
    assert_eq!(app.log_scroll_offset, 4);
    assert!(!app.log_auto_scroll);
}

#[test]
fn test_window_smaller_buffer_than_height() {
    assert_eq!(visible_window(3, 10, 0, true), (0, 3));
    assert_eq!(visible_window(0, 10, 0, true), (0, 0));
}

#[test]
fn test_window_offset_clamped_at_top() {
    // Scrolling farther up than the buffer allows pins the window at the top.
    assert_eq!(visible_window(100, 10, 500, false), (0, 10));
}

#[test]
fn test_scroll_to_bottom() {
    let mut app = AppState::new(vec![]);
    app.scroll_logs_up(7);
    app.scroll_logs_to_bottom();
    assert_eq!(app.log_scroll_offset, 0);
    assert!(app.log_auto_scroll);
}

#[test]
fn test_info_and_history_scrolling() {
    let mut app = AppState::new(vec![]);
    app.scroll_info_down(4);
    assert_eq!(app.info_scroll_offset, 4);
    app.scroll_info_up(9);
    assert_eq!(app.info_scroll_offset, 0);

    app.scroll_history_down(2);
    assert_eq!(app.history_scroll_offset, 2);
    app.scroll_history_up(1);
    assert_eq!(app.history_scroll_offset, 1);
    app.scroll_history_up(9);
    assert_eq!(app.history_scroll_offset, 0);
}
