use taskpad::state::AppState;
use taskpad::task::Task;
use taskpad::task::TaskRunner;
use taskpad::task::TaskStatus;

fn three_tasks() -> Vec<Task> {
    vec![
        Task { id: 0, name: "task1".to_string(), description: None, runner: TaskRunner::Just },
        Task { id: 1, name: "task2".to_string(), description: None, runner: TaskRunner::Just },
        Task { id: 2, name: "task3".to_string(), description: None, runner: TaskRunner::Just },
    ]
}

#[test]
fn test_move_selection_up() {
    let tasks = three_tasks();
    let mut app = AppState::new(tasks);
    app.selected_index = 1;

    app.move_selection_up();
    assert_eq!(app.selected_index, 0);

    // Should not go below 0
    app.move_selection_up();
    assert_eq!(app.selected_index, 0);
}

#[test]
fn test_move_selection_down() {
    let tasks = three_tasks();
    let mut app = AppState::new(tasks);

    app.move_selection_down();
    assert_eq!(app.selected_index, 1);

    app.move_selection_down();
    assert_eq!(app.selected_index, 2);

    // Should not go beyond last item
    app.move_selection_down();
    assert_eq!(app.selected_index, 2);
}

#[test]
fn test_is_task_running() {
    let mut app = AppState::new(vec![]);
    assert!(!app.is_task_running());

    let task = Task { id: 0, name: "test".to_string(), description: None, runner: TaskRunner::Just };
    app.start_task(task);
    assert!(app.is_task_running());

    app.update_task_status(TaskStatus::Success(0));
    assert!(!app.is_task_running());
}

#[test]
fn test_start_task_while_running_keeps_original() {
    let mut app = AppState::new(three_tasks());
    let first = Task { id: 0, name: "task1".to_string(), description: None, runner: TaskRunner::Just };
    app.start_task(first);
    assert!(app.is_task_running());

    let second = Task { id: 1, name: "task2".to_string(), description: None, runner: TaskRunner::Just };
    app.start_task(second);

    let running = app.running_task.as_ref().unwrap();
    assert_eq!(running.task.name, "task1");
    assert_eq!(running.status, TaskStatus::Running);
}

#[test]
fn test_append_log_only_while_running() {
    let mut app = AppState::new(three_tasks());
    app.append_log("dropped".to_string());
    assert!(app.selected_task_logs().is_none());

    let task = Task { id: 0, name: "task1".to_string(), description: None, runner: TaskRunner::Just };
    app.start_task(task);
    app.append_log("kept".to_string());

    let logs = app.selected_task_logs().unwrap();
    assert_eq!(logs, &vec!["kept".to_string()]);

    // A terminal status freezes the buffer.
    app.update_task_status(TaskStatus::Failed(2));
    app.append_log("late".to_string());
    let logs = app.selected_task_logs().unwrap();
    assert_eq!(logs, &vec!["kept".to_string()]);
}

#[test]
fn test_update_task_status_records_history() {
    let mut app = AppState::new(three_tasks());
    assert_eq!(app.task_history.len(), 0);

    let task = Task { id: 0, name: "task1".to_string(), description: None, runner: TaskRunner::Just };
    app.start_task(task);
    app.update_task_status(TaskStatus::Success(0));

    assert_eq!(app.task_history.len(), 1);
    assert_eq!(app.task_history[0].task_name, "task1");
    assert_eq!(app.task_history[0].runner, TaskRunner::Just);
    assert_eq!(app.task_history[0].status, TaskStatus::Success(0));
    assert_eq!(app.message, Some("Success (exit=0)".to_string()));
}

#[test]
fn test_update_task_status_without_running_task() {
    let mut app = AppState::new(three_tasks());
    app.update_task_status(TaskStatus::Failed(1));
    assert!(app.running_task.is_none());
    assert_eq!(app.task_history.len(), 0);
    assert!(app.message.is_none());
}

#[test]
fn test_clear_logs_empties_buffers_keeps_history() {
    let mut app = AppState::new(three_tasks());

    // A finished run leaves a history entry and a buffer.
    let first = Task { id: 0, name: "task1".to_string(), description: None, runner: TaskRunner::Just };
    app.start_task(first);
    app.append_log("old output".to_string());
    app.update_task_status(TaskStatus::Success(0));

    // A second task is running and has a buffer too.
    app.selected_index = 1;
    let second = Task { id: 1, name: "task2".to_string(), description: None, runner: TaskRunner::Just };
    app.start_task(second);
    app.append_log("running output".to_string());
    assert!(app.selected_task_logs().is_some());

    app.clear_logs();

    // Every buffer is empty, including the running task's.
    assert!(app.task_logs.get(0).is_none());
    assert!(app.task_logs.get(1).is_none());
    assert_eq!(app.running_task.as_ref().unwrap().log_lines.len(), 0);

    // Prior history entries remain.
    assert_eq!(app.task_history.len(), 1);
    assert_eq!(app.task_history[0].task_name, "task1");
}

#[test]
fn test_reload_tasks_preserves_selection_by_name() {
    let mut app = AppState::new(three_tasks());
    app.selected_index = 2;

    // task3 still exists in the new list, at a different index.
    let new_tasks = vec![
        Task { id: 0, name: "task3".to_string(), description: None, runner: TaskRunner::Just },
        Task { id: 1, name: "task4".to_string(), description: None, runner: TaskRunner::Make },
    ];
    app.reload_tasks(new_tasks);
    assert_eq!(app.selected_index, 0);
    assert_eq!(app.selected_task().unwrap().name, "task3");
    assert_eq!(app.message, Some("Tasks reloaded".to_string()));
}

#[test]
fn test_reload_tasks_resets_selection_when_absent() {
    let mut app = AppState::new(three_tasks());
    app.selected_index = 1;

    let new_tasks = vec![
        Task { id: 0, name: "other".to_string(), description: None, runner: TaskRunner::Make },
    ];
    app.reload_tasks(new_tasks);
    assert_eq!(app.selected_index, 0);
}

#[test]
fn test_adjust_task_scroll() {
    let mut app = AppState::new(three_tasks());
    app.task_scroll_offset = 2;
    app.selected_index = 1;
    app.adjust_task_scroll(2);
    assert_eq!(app.task_scroll_offset, 1);

    app.selected_index = 5;
    app.adjust_task_scroll(2);
    assert_eq!(app.task_scroll_offset, 4);

    // Already visible: nothing moves.
    app.selected_index = 5;
    app.adjust_task_scroll(2);
    assert_eq!(app.task_scroll_offset, 4);
}

#[test]
fn test_with_error_carries_message() {
    let app = AppState::with_error("discovery failed".to_string());
    assert_eq!(app.message, Some("discovery failed".to_string()));
    assert!(app.tasks.is_empty());
    assert!(app.selected_task().is_none());
}

#[test]
fn test_quit_and_toggles() {
    let mut app = AppState::new(vec![]);
    assert!(!app.quitting);
    app.quit();
    assert!(app.quitting);

    assert!(!app.show_info);
    app.toggle_info();
    assert!(app.show_info);

    assert!(!app.show_history);
    app.toggle_history();
    assert!(app.show_history);
    app.toggle_history();
    assert!(!app.show_history);
}

#[test]
fn test_status_display_strings() {
    assert_eq!(TaskStatus::Running.display_string(), "Running");
    assert_eq!(TaskStatus::Success(0).display_string(), "Success (exit=0)");
    assert_eq!(TaskStatus::Failed(-1).display_string(), "Failed (exit=-1)");
    assert_eq!(TaskStatus::Success(2147483647).display_string(), "Success (exit=2147483647)");
    assert_eq!(TaskStatus::Failed(-2147483648).display_string(), "Failed (exit=-2147483648)");
}

#[test]
fn test_runner_prefix_and_command() {
    assert_eq!(TaskRunner::Just.prefix(), "[just]");
    assert_eq!(TaskRunner::Make.prefix(), "[make]");
    assert_eq!(TaskRunner::Just.command(), "just");
    assert_eq!(TaskRunner::Make.command(), "make");
}
