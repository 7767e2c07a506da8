use taskpad::run::RunEvent;
use taskpad::run::run_step;
use taskpad::run::start_line;
use taskpad::state::AppState;
use taskpad::task::Task;
use taskpad::task::TaskRunner;
use taskpad::task::TaskStatus;

#[test]
fn test_spawn_failure_one_error_line_and_failed_status() {
    let step = run_step(RunEvent::SpawnFailed("No such file or directory".to_string()));
    assert_eq!(step.lines.len(), 1);
    assert_eq!(step.lines[0], "ERROR: Failed to spawn process: No such file or directory");
    assert!(step.lines[0].starts_with("ERROR"));
    assert_eq!(step.status, Some(TaskStatus::Failed(-1)));
}

#[test]
fn test_stdout_line_passes_through() {
    let step = run_step(RunEvent::StdoutLine("compiling".to_string()));
    assert_eq!(step.lines, vec!["compiling".to_string()]);
    assert_eq!(step.status, None);
}

#[test]
fn test_stderr_line_is_tagged() {
    let step = run_step(RunEvent::StderrLine("warning: unused".to_string()));
    assert_eq!(step.lines, vec!["[stderr] warning: unused".to_string()]);
    assert_eq!(step.status, None);
}

#[test]
fn test_read_errors_keep_run_alive() {
    let step = run_step(RunEvent::StdoutReadError("bad utf-8".to_string()));
    assert_eq!(step.lines, vec!["ERROR reading stdout: bad utf-8".to_string()]);
    assert_eq!(step.status, None);

    let step = run_step(RunEvent::StderrReadError("bad utf-8".to_string()));
    assert_eq!(step.lines, vec!["ERROR reading stderr: bad utf-8".to_string()]);
    assert_eq!(step.status, None);
}

#[test]
fn test_normal_exit_success() {
    let step = run_step(RunEvent::Exited { success: true, code: Some(0) });
    assert_eq!(step.lines, vec!["Task exited with code: 0".to_string()]);
    assert_eq!(step.status, Some(TaskStatus::Success(0)));
}

#[test]
fn test_normal_exit_failure_with_code() {
    let step = run_step(RunEvent::Exited { success: false, code: Some(3) });
    assert_eq!(step.lines, vec!["Task exited with code: 3".to_string()]);
    assert_eq!(step.status, Some(TaskStatus::Failed(3)));
}

#[test]
fn test_exit_without_code_reports_sentinel() {
    let step = run_step(RunEvent::Exited { success: false, code: None });
    assert_eq!(step.lines, vec!["Task exited with code: -1".to_string()]);
    assert_eq!(step.status, Some(TaskStatus::Failed(-1)));
}

#[test]
fn test_wait_failure() {
    let step = run_step(RunEvent::WaitFailed("interrupted".to_string()));
    assert_eq!(step.lines, vec!["ERROR: Failed to wait for process: interrupted".to_string()]);
    assert_eq!(step.status, Some(TaskStatus::Failed(-1)));
}

#[test]
fn test_start_line() {
    assert_eq!(start_line("build"), "Starting task: build");
}

#[test]
fn test_run_transcript_buffer_length() {
    // Drive a full run through the state: the buffer ends with the start
    // line, the N merged lines in arrival order, and the exit line.
    let tasks = vec![
        Task { id: 4, name: "build".to_string(), description: None, runner: TaskRunner::Just },
    ];
    let mut app = AppState::new(tasks);
    let task = Task { id: 4, name: "build".to_string(), description: None, runner: TaskRunner::Just };
    app.start_task(task);
    app.append_log(start_line("build"));

    let events = vec![
        RunEvent::StdoutLine("out one".to_string()),
        RunEvent::StderrLine("err one".to_string()),
        RunEvent::StdoutLine("out two".to_string()),
    ];
    let n = events.len();
    for event in events {
        let step = run_step(event);
        assert!(step.status.is_none());
        for line in step.lines {
            app.append_log(line);
        }
    }

    let step = run_step(RunEvent::Exited { success: true, code: Some(0) });
    for line in step.lines {
        app.append_log(line);
    }
    app.update_task_status(step.status.unwrap());

    let logs = app.selected_task_logs().unwrap();
    assert_eq!(logs.len(), n + 2);
    assert_eq!(
        logs,
        &vec![
            "Starting task: build".to_string(),
            "out one".to_string(),
            "[stderr] err one".to_string(),
            "out two".to_string(),
            "Task exited with code: 0".to_string(),
        ]
    );

    // Per-stream order: stdout lines appear in stdout order.
    let outs: Vec<&String> = logs.iter().filter(|l| l.starts_with("out")).collect();
    assert_eq!(outs, vec!["out one", "out two"]);

    assert_eq!(app.running_task.as_ref().unwrap().status, TaskStatus::Success(0));
    assert_eq!(app.task_history.len(), 1);
}
