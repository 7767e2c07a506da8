use taskpad::input::KeyAction;
use taskpad::input::KeyInput;
use taskpad::input::LeftRegion;
use taskpad::input::MouseKind;
use taskpad::input::RightRegion;
use taskpad::input::get_left_region;
use taskpad::input::get_right_region;
use taskpad::input::handle_key_event;
use taskpad::input::handle_mouse_event;
use taskpad::input::handle_scroll_down;
use taskpad::input::handle_scroll_up;
use taskpad::input::screen_to_log_position;
use taskpad::position::LogPosition;
use taskpad::state::AppState;
use taskpad::task::DragScrollDirection;
use taskpad::task::Task;
use taskpad::task::TaskRunner;

fn sample_tasks() -> Vec<Task> {
    vec![
        Task { id: 0, name: "build".to_string(), description: None, runner: TaskRunner::Just },
        Task { id: 1, name: "test".to_string(), description: None, runner: TaskRunner::Make },
    ]
}

fn app_with_logs(n: usize) -> AppState {
    let mut app = AppState::new(sample_tasks());
    let task = Task { id: 0, name: "build".to_string(), description: None, runner: TaskRunner::Just };
    app.start_task(task);
    for i in 0..n {
        app.append_log(format!("line {}", i));
    }
    app
}

#[test]
fn test_regions_without_boxes() {
    let app = AppState::new(vec![]);
    assert_eq!(get_left_region(&app, 0, 24), LeftRegion::TaskList);
    assert_eq!(get_left_region(&app, 20, 24), LeftRegion::TaskList);
    assert_eq!(get_right_region(&app, 0, 24), RightRegion::Logs);
    assert_eq!(get_right_region(&app, 5, 24), RightRegion::Logs);
}

#[test]
fn test_regions_with_boxes() {
    let mut app = AppState::new(vec![]);
    app.toggle_history();
    // Content height 22, history takes its bottom 8 rows: rows 15.. are history.
    assert_eq!(get_left_region(&app, 14, 24), LeftRegion::TaskList);
    assert_eq!(get_left_region(&app, 15, 24), LeftRegion::History);

    app.toggle_info();
    // Info box occupies rows 2..7 on the right.
    assert_eq!(get_right_region(&app, 2, 24), RightRegion::Info);
    assert_eq!(get_right_region(&app, 6, 24), RightRegion::Info);
    assert_eq!(get_right_region(&app, 7, 24), RightRegion::Logs);
}

#[test]
fn test_scroll_wheel_over_logs_and_tasks() {
    let mut app = app_with_logs(50);
    // Right side over logs: wheel up scrolls logs and leaves auto-follow.
    handle_scroll_up(&mut app, 40, 10, 24);
    assert_eq!(app.log_scroll_offset, 3);
    assert!(!app.log_auto_scroll);
    handle_scroll_down(&mut app, 40, 10, 24);
    assert_eq!(app.log_scroll_offset, 0);
    assert!(app.log_auto_scroll);

    // Left side over the task list: wheel moves the cursor.
    handle_scroll_down(&mut app, 2, 10, 24);
    assert_eq!(app.selected_index, 1);
    handle_scroll_up(&mut app, 2, 10, 24);
    assert_eq!(app.selected_index, 0);
}

#[test]
fn test_scroll_wheel_over_info_box() {
    let mut app = app_with_logs(5);
    app.toggle_info();
    handle_scroll_down(&mut app, 40, 3, 24);
    assert_eq!(app.info_scroll_offset, 3);
    assert_eq!(app.log_scroll_offset, 0);
    handle_scroll_up(&mut app, 40, 3, 24);
    assert_eq!(app.info_scroll_offset, 0);
}

#[test]
fn test_screen_to_log_position_maps_through_window() {
    // 30 lines, height 24: inner height 20, auto-follow start = 10.
    let app = app_with_logs(30);
    let pos = screen_to_log_position(&app, 40, 2, 24).unwrap();
    assert_eq!(pos, LogPosition::new(10, 4));

    // Outside the log pane.
    assert_eq!(screen_to_log_position(&app, 10, 5, 24), None);
    assert_eq!(screen_to_log_position(&app, 40, 1, 24), None);

    // A row past the last line resolves to nothing.
    let small = app_with_logs(3);
    assert_eq!(screen_to_log_position(&small, 40, 10, 24), None);
}

#[test]
fn test_screen_to_log_position_respects_scroll() {
    let mut app = app_with_logs(30);
    app.scroll_logs_up(5);
    let pos = screen_to_log_position(&app, 36, 2, 24).unwrap();
    assert_eq!(pos, LogPosition::new(5, 0));
}

#[test]
fn test_mouse_click_selects_task() {
    let mut app = AppState::new(sample_tasks());
    handle_mouse_event(&mut app, MouseKind::LeftDown, 5, 3, 24);
    assert_eq!(app.selected_index, 1);

    // A click below the list does nothing.
    handle_mouse_event(&mut app, MouseKind::LeftDown, 5, 10, 24);
    assert_eq!(app.selected_index, 1);
}

#[test]
fn test_mouse_drag_selection_with_edge_autoscroll() {
    let mut app = app_with_logs(30);

    // Click in the log pane starts a selection under the pointer.
    handle_mouse_event(&mut app, MouseKind::LeftDown, 38, 5, 24);
    assert!(app.is_selecting);
    let sel = app.current_task_selection().unwrap();
    assert_eq!(sel.start, LogPosition::new(13, 2));
    assert_eq!(sel.end, LogPosition::new(13, 2));

    // Dragging near the top edge arms upward auto-scroll.
    handle_mouse_event(&mut app, MouseKind::LeftDrag, 40, 3, 24);
    assert_eq!(app.drag_scroll_direction, Some(DragScrollDirection::Up));
    assert_eq!(app.last_drag_position, Some(LogPosition::new(11, 4)));
    let sel = app.current_task_selection().unwrap();
    assert_eq!(sel.start, LogPosition::new(13, 2));
    assert_eq!(sel.end, LogPosition::new(11, 4));

    // One auto-scroll tick scrolls, then re-resolves the end position.
    app.perform_drag_scroll();
    assert_eq!(app.log_scroll_offset, 1);
    assert!(!app.log_auto_scroll);
    let sel = app.current_task_selection().unwrap();
    assert_eq!(sel.end, LogPosition::new(11, 4));

    // Release freezes the selection and clears the auto-scroll state.
    handle_mouse_event(&mut app, MouseKind::LeftUp, 40, 3, 24);
    assert!(!app.is_selecting);
    assert_eq!(app.drag_scroll_direction, None);
    assert_eq!(app.last_drag_position, None);
}

#[test]
fn test_key_run_starts_selected_task() {
    let mut app = AppState::new(sample_tasks());
    let action = handle_key_event(&mut app, KeyInput::Run);
    match action {
        KeyAction::RunTask(task) => assert_eq!(task.name, "build"),
        _ => panic!("expected a run request"),
    }
    assert!(app.is_task_running());
    assert_eq!(app.log_scroll_offset, 0);
    assert!(app.log_auto_scroll);
}

#[test]
fn test_key_run_rejected_while_running() {
    let mut app = AppState::new(sample_tasks());
    let _ = handle_key_event(&mut app, KeyInput::Run);
    let action = handle_key_event(&mut app, KeyInput::Run);
    assert!(matches!(action, KeyAction::Idle));
    assert_eq!(app.message, Some("A task is already running. Wait for it to finish.".to_string()));
    assert_eq!(app.running_task.as_ref().unwrap().task.name, "build");
}

#[test]
fn test_key_reload_rejected_while_running() {
    let mut app = AppState::new(sample_tasks());
    let _ = handle_key_event(&mut app, KeyInput::Run);
    let action = handle_key_event(&mut app, KeyInput::Reload);
    assert!(matches!(action, KeyAction::Idle));
    assert_eq!(app.message, Some("Cannot reload tasks while a task is running.".to_string()));
}

#[test]
fn test_key_reload_requested_when_idle() {
    let mut app = AppState::new(sample_tasks());
    let action = handle_key_event(&mut app, KeyInput::Reload);
    assert!(matches!(action, KeyAction::ReloadRequested));
}

#[test]
fn test_key_copy_hands_out_selected_text() {
    let mut app = app_with_logs(3);
    app.start_selection(LogPosition::new(0, 0));
    app.update_selection(LogPosition::new(0, 4));
    let action = handle_key_event(&mut app, KeyInput::Copy);
    match action {
        KeyAction::CopyText(text) => assert_eq!(text, "line"),
        _ => panic!("expected copied text"),
    }

    let mut empty = AppState::new(sample_tasks());
    let action = handle_key_event(&mut empty, KeyInput::Copy);
    assert!(matches!(action, KeyAction::Idle));
}

#[test]
fn test_key_erase_logs() {
    let mut app = app_with_logs(3);
    app.start_selection(LogPosition::new(0, 0));
    let action = handle_key_event(&mut app, KeyInput::EraseLogs);
    assert!(matches!(action, KeyAction::Idle));
    assert!(app.task_logs.get(0).is_none());
    assert!(app.current_task_selection().is_none());
    assert_eq!(app.message, Some("Logs cleared".to_string()));
}

#[test]
fn test_key_paging_and_quit() {
    let mut app = app_with_logs(40);
    handle_key_event(&mut app, KeyInput::PageUp);
    assert_eq!(app.log_scroll_offset, 10);
    handle_key_event(&mut app, KeyInput::PageDown);
    assert_eq!(app.log_scroll_offset, 0);
    assert!(app.log_auto_scroll);

    handle_key_event(&mut app, KeyInput::PageUp);
    handle_key_event(&mut app, KeyInput::ScrollToBottom);
    assert_eq!(app.log_scroll_offset, 0);
    assert!(app.log_auto_scroll);

    handle_key_event(&mut app, KeyInput::Quit);
    assert!(app.quitting);
}
