//! Session state: task list, selection cursor, running task, per-task log
//! buffers, run status, scroll state, drag selection, and the history ledger.
//!
//! All operations are total over the state; index and offset arithmetic
//! saturates rather than underflows.

use vstd::prelude::*;

use crate::position::LogPosition;
use crate::position::LogSelection;
use crate::position::extract_selection;
use crate::position::extract_spec;
use crate::position::normalized_spec;
use crate::store::LogStore;
use crate::store::SelectionStore;
use crate::store::lines_of;
use crate::task::DragScrollDirection;
use crate::task::HistoryEntry;
use crate::task::RunningTask;
use crate::task::Task;
use crate::task::TaskRunner;
use crate::task::TaskStatus;
use crate::task::status_display_spec;

verus! {

/// Relies on std's `SystemTime` for the wall clock: returns seconds since
/// the Unix epoch, or zero where the clock reads before the epoch. Nothing
/// is promised of the value; the clock is outside the program.
#[verifier::external_body]
fn now_unix_seconds() -> u64 {
    match std::time::SystemTime::now().duration_since(std::time::SystemTime::UNIX_EPOCH) {
        Ok(d) => d.as_secs(),
        Err(_) => 0,
    }
}

/// Main application state.
///
/// This structure holds all state needed to render the UI and handle events.
/// Rendering is a pure function of this state.
#[derive(Debug)]
pub struct AppState {
    /// List of all discovered tasks
    pub tasks: Vec<Task>,
    /// Index of the currently selected task in the list
    pub selected_index: usize,
    /// The currently running or last run task (if any)
    pub running_task: Option<RunningTask>,
    /// Log history for each task (keyed by task ID)
    pub task_logs: LogStore,
    /// Text selections for each task (keyed by task ID)
    pub task_selections: SelectionStore,
    /// Temporary status message for errors, hints, etc.
    pub message: Option<String>,
    /// Flag to indicate the user wants to quit
    pub quitting: bool,
    /// Vertical scroll offset for the task list pane
    pub task_scroll_offset: usize,
    /// Whether to show the info box for the selected task
    pub show_info: bool,
    /// Scroll offset for the info box
    pub info_scroll_offset: usize,
    /// Scroll offset for the history container
    pub history_scroll_offset: usize,
    /// Scroll offset for the log pane (0 = showing latest logs)
    pub log_scroll_offset: usize,
    /// Whether auto-scroll is enabled for logs (disabled when the user scrolls up)
    pub log_auto_scroll: bool,
    /// Whether we're actively selecting text (mouse is down)
    pub is_selecting: bool,
    /// Auto-scroll direction during drag selection (if any)
    pub drag_scroll_direction: Option<DragScrollDirection>,
    /// Last mouse position during drag (for updating selection during auto-scroll)
    pub last_drag_position: Option<LogPosition>,
    /// Whether to show the history container
    pub show_history: bool,
    /// History of executed tasks
    pub task_history: Vec<HistoryEntry>,
}

/// Whether a task is currently running: there is a running-task record and
/// its status is still `Running`.
pub open spec fn is_running_spec(s: AppState) -> bool {
    match s.running_task {
        Some(rt) => rt.status == TaskStatus::Running,
        None => false,
    }
}

/// The task under the selection cursor, where the cursor is in range.
pub open spec fn selected_task_spec(s: AppState) -> Option<Task> {
    if s.selected_index < s.tasks@.len() {
        Some(s.tasks@[s.selected_index as int])
    } else {
        None
    }
}

/// The log buffer of the selected task, where the task exists and has one.
pub open spec fn selected_logs_spec(s: AppState) -> Option<Seq<String>> {
    match selected_task_spec(s) {
        Some(t) => if s.task_logs@.dom().contains(t.id) {
            Some(s.task_logs@[t.id])
        } else {
            None
        },
        None => None,
    }
}

/// The character sequences of a sequence of lines.
pub open spec fn chars_of(lines: Seq<String>) -> Seq<Seq<char>> {
    Seq::new(lines.len(), |i: int| lines[i]@)
}

/// The text the selected task's selection covers, where a selected task, a
/// recorded selection and a log buffer all exist and the normalized start
/// lies inside the buffer.
pub open spec fn selected_text_spec(s: AppState) -> Option<Seq<char>> {
    match selected_task_spec(s) {
        Some(t) => if s.task_selections@.dom().contains(t.id) {
            let sel = s.task_selections@[t.id];
            match selected_logs_spec(s) {
                Some(lines) => {
                    let norm = normalized_spec(sel);
                    if norm.0.line < lines.len() {
                        Some(extract_spec(chars_of(lines), norm.0, norm.1))
                    } else {
                        None
                    }
                },
                None => None,
            }
        } else {
            None
        },
        None => None,
    }
}

/// The task-list scroll offset after bringing the selected row back into a
/// window of `vh` rows starting at `off`, saturating at the top of `usize`.
pub open spec fn adjusted_scroll_spec(sel: int, off: int, vh: int) -> int {
    if sel < off {
        sel
    } else if sel - off >= vh {
        if sel - vh + 1 <= usize::MAX {
            sel - vh + 1
        } else {
            usize::MAX as int
        }
    } else {
        off
    }
}

impl AppState {
    /// Creates a new AppState with the given list of tasks
    pub fn new(tasks: Vec<Task>) -> (r: Self)
        ensures
            r.tasks == tasks,
            r.selected_index == 0,
            r.running_task is None,
            r.task_logs@ == Map::<usize, Seq<String>>::empty(),
            r.task_selections@ == Map::<usize, LogSelection>::empty(),
            r.message is None,
            r.quitting == false,
            r.task_scroll_offset == 0,
            r.show_info == false,
            r.info_scroll_offset == 0,
            r.history_scroll_offset == 0,
            r.log_scroll_offset == 0,
            r.log_auto_scroll == true,
            r.is_selecting == false,
            r.drag_scroll_direction is None,
            r.last_drag_position is None,
            r.show_history == false,
            r.task_history@ == Seq::<HistoryEntry>::empty(),
    {
        Self {
            tasks,
            selected_index: 0,
            running_task: None,
            task_logs: LogStore::new(),
            task_selections: SelectionStore::new(),
            message: None,
            quitting: false,
            task_scroll_offset: 0,
            show_info: false,
            info_scroll_offset: 0,
            history_scroll_offset: 0,
            log_scroll_offset: 0,
            log_auto_scroll: true,
            is_selecting: false,
            drag_scroll_direction: None,
            last_drag_position: None,
            show_history: false,
            task_history: Vec::new(),
        }
    }

    /// Creates an AppState with an error message (used when task discovery fails)
    pub fn with_error(message: String) -> (r: Self)
        ensures
            r.tasks@ == Seq::<Task>::empty(),
            r.selected_index == 0,
            r.running_task is None,
            r.task_logs@ == Map::<usize, Seq<String>>::empty(),
            r.task_selections@ == Map::<usize, LogSelection>::empty(),
            r.message == Some(message),
            r.quitting == false,
            r.task_scroll_offset == 0,
            r.show_info == false,
            r.info_scroll_offset == 0,
            r.history_scroll_offset == 0,
            r.log_scroll_offset == 0,
            r.log_auto_scroll == true,
            r.is_selecting == false,
            r.drag_scroll_direction is None,
            r.last_drag_position is None,
            r.show_history == false,
            r.task_history@ == Seq::<HistoryEntry>::empty(),
    {
        Self {
            tasks: Vec::new(),
            selected_index: 0,
            running_task: None,
            task_logs: LogStore::new(),
            task_selections: SelectionStore::new(),
            message: Some(message),
            quitting: false,
            task_scroll_offset: 0,
            show_info: false,
            info_scroll_offset: 0,
            history_scroll_offset: 0,
            log_scroll_offset: 0,
            log_auto_scroll: true,
            is_selecting: false,
            drag_scroll_direction: None,
            last_drag_position: None,
            show_history: false,
            task_history: Vec::new(),
        }
    }

    /// Returns the currently selected task, if any
    pub fn selected_task(&self) -> (r: Option<&Task>)
        ensures
            match r {
                Some(t) => selected_task_spec(*self) == Some(*t),
                None => selected_task_spec(*self) is None,
            },
    {
        if self.selected_index < self.tasks.len() {
            Some(&self.tasks[self.selected_index])
        } else {
            None
        }
    }

    /// Moves selection up by one, if not already at the top
    pub fn move_selection_up(&mut self)
        ensures
            *final(self) == (AppState {
                selected_index: if old(self).selected_index > 0 {
                    (old(self).selected_index - 1) as usize
                } else {
                    0
                },
                ..*old(self)
            }),
    {
        if self.selected_index > 0 {
            self.selected_index = self.selected_index - 1;
        }
    }

    /// Moves selection down by one, if not already at the bottom
    pub fn move_selection_down(&mut self)
        ensures
            *final(self) == (AppState {
                selected_index: if old(self).selected_index + 1 < old(self).tasks@.len() {
                    (old(self).selected_index + 1) as usize
                } else {
                    old(self).selected_index
                },
                ..*old(self)
            }),
    {
        if self.selected_index < self.tasks.len().saturating_sub(1) {
            self.selected_index = self.selected_index + 1;
        }
    }

    /// Returns true if a task is currently running
    pub fn is_task_running(&self) -> (r: bool)
        ensures
            r == is_running_spec(*self),
    {
        match &self.running_task {
            Some(rt) => rt.status == TaskStatus::Running,
            None => false,
        }
    }

    /// Starts running a task: replaces the running-task record with a fresh
    /// one and clears any status message. Does nothing while a task is
    /// already running; the caller checks `is_task_running` and surfaces a
    /// message instead.
    pub fn start_task(&mut self, task: Task)
        ensures
            is_running_spec(*old(self)) ==> *final(self) == *old(self),
            !is_running_spec(*old(self)) ==> {
                &&& final(self).running_task matches Some(rt) && rt.task == task && rt.status
                    == TaskStatus::Running && rt.log_lines@ == Seq::<String>::empty()
                &&& *final(self) == (AppState {
                    running_task: final(self).running_task,
                    message: None,
                    ..*old(self)
                })
            },
    {
        if !self.is_task_running() {
            self.running_task = Some(RunningTask::new(task));
            self.message = None;
        }
    }

    /// Appends a log line to the currently running task's buffer; does
    /// nothing if no task is running.
    pub fn append_log(&mut self, line: String)
        ensures
            !is_running_spec(*old(self)) ==> *final(self) == *old(self),
            is_running_spec(*old(self)) ==> {
                let rt = old(self).running_task->0;
                &&& final(self).running_task matches Some(rt2) && rt2.task == rt.task
                    && rt2.status == rt.status && rt2.log_lines@ == rt.log_lines@.push(line)
                &&& final(self).task_logs@ == old(self).task_logs@.insert(
                    rt.task.id,
                    lines_of(old(self).task_logs@, rt.task.id).push(line),
                )
                &&& *final(self) == (AppState {
                    running_task: final(self).running_task,
                    task_logs: final(self).task_logs,
                    ..*old(self)
                })
            },
    {
        if self.is_task_running() {
            let mut rt_opt: Option<RunningTask> = None;
            core::mem::swap(&mut rt_opt, &mut self.running_task);
            match rt_opt {
                Some(mut running) => {
                    self.task_logs.push_line(running.task.id, line.clone());
                    running.append_log(line);
                    self.running_task = Some(running);
                },
                None => {
                    self.running_task = None;
                },
            }
        }
    }

    /// Sets the running task's terminal status and surfaces it as the status
    /// message; a terminal status also appends one history entry built from
    /// the task identity captured at run start.
    pub fn update_task_status(&mut self, status: TaskStatus)
        ensures
            old(self).running_task is None ==> *final(self) == *old(self),
            old(self).running_task matches Some(rt) ==> {
                &&& final(self).running_task matches Some(rt2) && rt2.task == rt.task
                    && rt2.status == status && rt2.log_lines@ == rt.log_lines@
                &&& final(self).message matches Some(m) && m@ == status_display_spec(status)
                &&& if status == TaskStatus::Running {
                    final(self).task_history@ == old(self).task_history@
                } else {
                    exists|ts: u64|
                        final(self).task_history@ == old(self).task_history@.push(
                            (HistoryEntry {
                                task_name: rt.task.name,
                                runner: rt.task.runner,
                                timestamp: ts,
                                status,
                            }),
                        )
                }
                &&& *final(self) == (AppState {
                    running_task: final(self).running_task,
                    message: final(self).message,
                    task_history: final(self).task_history,
                    ..*old(self)
                })
            },
    {
        let history_data: Option<(String, TaskRunner)> = if status != TaskStatus::Running {
            match &self.running_task {
                Some(running) => Some((running.task.name.clone(), running.task.runner)),
                None => None,
            }
        } else {
            None
        };

        let mut rt_opt: Option<RunningTask> = None;
        core::mem::swap(&mut rt_opt, &mut self.running_task);
        match rt_opt {
            Some(mut running) => {
                running.set_status(status);
                self.running_task = Some(running);
                self.message = Some(status.display_string());
            },
            None => {
                self.running_task = None;
            },
        }

        match history_data {
            Some((task_name, runner)) => {
                self.add_to_history(task_name, runner, status);
            },
            None => {},
        }
    }

    /// Empties every task's log buffer, including the running one; history
    /// entries remain.
    pub fn clear_logs(&mut self)
        ensures
            final(self).task_logs@ == Map::<usize, Seq<String>>::empty(),
            old(self).running_task is None ==> final(self).running_task is None,
            old(self).running_task matches Some(rt) ==> final(self).running_task matches Some(rt2)
                && rt2.task == rt.task && rt2.status == rt.status && rt2.log_lines@ == Seq::<
                String,
            >::empty(),
            *final(self) == (AppState {
                task_logs: final(self).task_logs,
                running_task: final(self).running_task,
                ..*old(self)
            }),
    {
        self.task_logs.clear();
        let mut rt_opt: Option<RunningTask> = None;
        core::mem::swap(&mut rt_opt, &mut self.running_task);
        match rt_opt {
            Some(mut running) => {
                running.clear_logs();
                self.running_task = Some(running);
            },
            None => {
                self.running_task = None;
            },
        }
    }

    /// Gets the logs for the currently selected task
    pub fn selected_task_logs(&self) -> (r: Option<&Vec<String>>)
        ensures
            match r {
                Some(v) => selected_logs_spec(*self) == Some(v@),
                None => selected_logs_spec(*self) is None,
            },
    {
        if self.selected_index < self.tasks.len() {
            let id = self.tasks[self.selected_index].id;
            self.task_logs.get(id)
        } else {
            None
        }
    }

    /// Replaces the task list wholesale, preserving the selection by name
    /// where the previously selected name still exists (at its first
    /// occurrence), and resetting it to the top otherwise.
    pub fn reload_tasks(&mut self, new_tasks: Vec<Task>)
        ensures
            final(self).tasks == new_tasks,
            final(self).message matches Some(m) && m@ == "Tasks reloaded"@,
            *final(self) == (AppState {
                tasks: final(self).tasks,
                selected_index: final(self).selected_index,
                message: final(self).message,
                ..*old(self)
            }),
            match selected_task_spec(*old(self)) {
                Some(t) => {
                    if exists|i: int| 0 <= i < new_tasks@.len() && new_tasks@[i].name@ == t.name@ {
                        &&& final(self).selected_index < new_tasks@.len()
                        &&& new_tasks@[final(self).selected_index as int].name@ == t.name@
                        &&& forall|j: int|
                            0 <= j < final(self).selected_index ==> new_tasks@[j].name@ != t.name@
                    } else {
                        final(self).selected_index == 0
                    }
                },
                None => final(self).selected_index == 0,
            },
    {
        let selected_name: Option<String> = match self.selected_task() {
            Some(t) => Some(t.name.clone()),
            None => None,
        };

        self.tasks = new_tasks;

        match selected_name {
            Some(name) => {
                match position_of_name(&self.tasks, &name) {
                    Some(pos) => {
                        self.selected_index = pos;
                    },
                    None => {
                        self.selected_index = 0;
                    },
                }
            },
            None => {
                self.selected_index = 0;
            },
        }

        self.message = Some(String::from_str("Tasks reloaded"));
    }

    /// Adjusts the task-list scroll offset so the selected row is visible in
    /// a window of `visible_height` rows.
    pub fn adjust_task_scroll(&mut self, visible_height: usize)
        ensures
            *final(self) == (AppState {
                task_scroll_offset: final(self).task_scroll_offset,
                ..*old(self)
            }),
            final(self).task_scroll_offset == adjusted_scroll_spec(
                old(self).selected_index as int,
                old(self).task_scroll_offset as int,
                visible_height as int,
            ),
    {
        if self.selected_index < self.task_scroll_offset {
            self.task_scroll_offset = self.selected_index;
        } else if self.selected_index - self.task_scroll_offset >= visible_height {
            self.task_scroll_offset = (self.selected_index - visible_height).saturating_add(1);
        }
    }

    /// Sets a temporary message
    pub fn set_message(&mut self, message: String)
        ensures
            *final(self) == (AppState { message: Some(message), ..*old(self) }),
    {
        self.message = Some(message);
    }

    /// Marks the app for quitting
    pub fn quit(&mut self)
        ensures
            *final(self) == (AppState { quitting: true, ..*old(self) }),
    {
        self.quitting = true;
    }

    /// Toggles the info box display
    pub fn toggle_info(&mut self)
        ensures
            *final(self) == (AppState { show_info: !old(self).show_info, ..*old(self) }),
    {
        self.show_info = !self.show_info;
    }

    /// Toggles the history container display
    pub fn toggle_history(&mut self)
        ensures
            *final(self) == (AppState { show_history: !old(self).show_history, ..*old(self) }),
    {
        self.show_history = !self.show_history;
    }

    /// Appends one entry to the history ledger, stamped with the current
    /// wall-clock time.
    pub fn add_to_history(&mut self, task_name: String, runner: TaskRunner, status: TaskStatus)
        ensures
            exists|ts: u64|
                final(self).task_history@ == old(self).task_history@.push(
                    (HistoryEntry { task_name, runner, timestamp: ts, status }),
                ),
            *final(self) == (AppState { task_history: final(self).task_history, ..*old(self) }),
    {
        let timestamp = now_unix_seconds();
        let entry = HistoryEntry { task_name, runner, timestamp, status };
        self.task_history.push(entry);
        proof {
            assert(final(self).task_history@ == old(self).task_history@.push(
                (HistoryEntry {
                    task_name: entry.task_name,
                    runner,
                    timestamp: entry.timestamp,
                    status,
                }),
            ));
        }
    }

    /// Scrolls the log view up by the given number of lines, leaving
    /// auto-follow.
    pub fn scroll_logs_up(&mut self, lines: usize)
        ensures
            *final(self) == (AppState {
                log_scroll_offset: old(self).log_scroll_offset.saturating_add(lines),
                log_auto_scroll: false,
                ..*old(self)
            }),
    {
        self.log_scroll_offset = self.log_scroll_offset.saturating_add(lines);
        self.log_auto_scroll = false;
    }

    /// Scrolls the log view down by the given number of lines, re-enabling
    /// auto-follow exactly when the offset reaches zero.
    pub fn scroll_logs_down(&mut self, lines: usize)
        ensures
            *final(self) == (AppState {
                log_scroll_offset: old(self).log_scroll_offset.saturating_sub(lines),
                log_auto_scroll: if old(self).log_scroll_offset.saturating_sub(lines) == 0 {
                    true
                } else {
                    old(self).log_auto_scroll
                },
                ..*old(self)
            }),
    {
        self.log_scroll_offset = self.log_scroll_offset.saturating_sub(lines);
        if self.log_scroll_offset == 0 {
            self.log_auto_scroll = true;
        }
    }

    /// Scrolls to the bottom of logs and re-enables auto-scroll
    pub fn scroll_logs_to_bottom(&mut self)
        ensures
            *final(self) == (AppState {
                log_scroll_offset: 0usize,
                log_auto_scroll: true,
                ..*old(self)
            }),
    {
        self.log_scroll_offset = 0;
        self.log_auto_scroll = true;
    }

    /// Scrolls the info view up by the given number of lines (see earlier content)
    pub fn scroll_info_up(&mut self, lines: usize)
        ensures
            *final(self) == (AppState {
                info_scroll_offset: old(self).info_scroll_offset.saturating_sub(lines),
                ..*old(self)
            }),
    {
        self.info_scroll_offset = self.info_scroll_offset.saturating_sub(lines);
    }

    /// Scrolls the info view down by the given number of lines (see later content)
    pub fn scroll_info_down(&mut self, lines: usize)
        ensures
            *final(self) == (AppState {
                info_scroll_offset: old(self).info_scroll_offset.saturating_add(lines),
                ..*old(self)
            }),
    {
        self.info_scroll_offset = self.info_scroll_offset.saturating_add(lines);
    }

    /// Scrolls the history view up by the given number of lines (see earlier content)
    pub fn scroll_history_up(&mut self, lines: usize)
        ensures
            *final(self) == (AppState {
                history_scroll_offset: old(self).history_scroll_offset.saturating_sub(lines),
                ..*old(self)
            }),
    {
        self.history_scroll_offset = self.history_scroll_offset.saturating_sub(lines);
    }

    /// Scrolls the history view down by the given number of lines (see later content)
    pub fn scroll_history_down(&mut self, lines: usize)
        ensures
            *final(self) == (AppState {
                history_scroll_offset: old(self).history_scroll_offset.saturating_add(lines),
                ..*old(self)
            }),
    {
        self.history_scroll_offset = self.history_scroll_offset.saturating_add(lines);
    }
}

/// The task-logs map after appending each of `lines`, in order, to the
/// buffer of task `id` — one `append_log` step per line, in the very terms
/// of that method's contract.
pub open spec fn logs_after_appends(
    m: Map<usize, Seq<String>>,
    id: usize,
    lines: Seq<String>,
) -> Map<usize, Seq<String>>
    decreases lines.len(),
{
    if lines.len() == 0 {
        m
    } else {
        logs_after_appends(m.insert(id, lines_of(m, id).push(lines[0])), id, lines.drop_first())
    }
}

/// For any lines appended one at a time while a task runs, its buffer ends
/// as the old buffer followed by exactly those lines in order — nothing
/// dropped, duplicated or reordered, so the length grows by their number —
/// and every other task's buffer is untouched.
pub proof fn lemma_append_run(m: Map<usize, Seq<String>>, id: usize, lines: Seq<String>)
    ensures
        lines_of(logs_after_appends(m, id, lines), id) == lines_of(m, id) + lines,
        forall|k: usize|
            k != id ==> lines_of(logs_after_appends(m, id, lines), k) == lines_of(m, k),
    decreases lines.len(),
{
    if lines.len() == 0 {
        assert(lines_of(m, id) + lines =~= lines_of(m, id));
    } else {
        let m1 = m.insert(id, lines_of(m, id).push(lines[0]));
        lemma_append_run(m1, id, lines.drop_first());
        assert(lines_of(m1, id) =~= lines_of(m, id).push(lines[0]));
        assert(lines_of(m, id).push(lines[0]) + lines.drop_first() =~= lines_of(m, id) + lines);
        assert(forall|k: usize| k != id ==> lines_of(m1, k) == lines_of(m, k));
    }
}

/// The selection recorded for the selected task, where both exist.
pub open spec fn current_selection_spec(s: AppState) -> Option<LogSelection> {
    match selected_task_spec(s) {
        Some(t) => if s.task_selections@.dom().contains(t.id) {
            Some(s.task_selections@[t.id])
        } else {
            None
        },
        None => None,
    }
}

impl AppState {
    /// Starts running a task and resets log scrolling for new output
    pub fn start_task_with_scroll_reset(&mut self, task: Task)
        ensures
            is_running_spec(*old(self)) ==> *final(self) == (AppState {
                log_scroll_offset: 0usize,
                log_auto_scroll: true,
                ..*old(self)
            }),
            !is_running_spec(*old(self)) ==> {
                &&& final(self).running_task matches Some(rt) && rt.task == task && rt.status
                    == TaskStatus::Running && rt.log_lines@ == Seq::<String>::empty()
                &&& *final(self) == (AppState {
                    running_task: final(self).running_task,
                    message: None,
                    log_scroll_offset: 0usize,
                    log_auto_scroll: true,
                    ..*old(self)
                })
            },
    {
        self.start_task(task);
        self.scroll_logs_to_bottom();
    }

    /// Gets the selection for the currently selected task
    pub fn current_task_selection(&self) -> (r: Option<&LogSelection>)
        ensures
            match r {
                Some(sel) => current_selection_spec(*self) == Some(*sel),
                None => current_selection_spec(*self) is None,
            },
    {
        if self.selected_index < self.tasks.len() {
            let id = self.tasks[self.selected_index].id;
            self.task_selections.get(id)
        } else {
            None
        }
    }

    /// Starts a text selection at the given position for the current task:
    /// both endpoints sit at that position and dragging begins.
    pub fn start_selection(&mut self, pos: LogPosition)
        ensures
            selected_task_spec(*old(self)) is None ==> *final(self) == *old(self),
            selected_task_spec(*old(self)) matches Some(t) ==> {
                &&& final(self).task_selections@ == old(self).task_selections@.insert(
                    t.id,
                    (LogSelection { start: pos, end: pos }),
                )
                &&& *final(self) == (AppState {
                    task_selections: final(self).task_selections,
                    is_selecting: true,
                    ..*old(self)
                })
            },
    {
        if self.selected_index < self.tasks.len() {
            let task_id = self.tasks[self.selected_index].id;
            self.task_selections.insert(task_id, LogSelection::new(pos, pos));
            self.is_selecting = true;
        }
    }

    /// Updates the selection end position (during drag) for the current
    /// task; the start endpoint is left alone.
    pub fn update_selection(&mut self, pos: LogPosition)
        ensures
            selected_task_spec(*old(self)) is None ==> *final(self) == *old(self),
            selected_task_spec(*old(self)) matches Some(t) ==> {
                &&& *final(self) == (AppState {
                    task_selections: final(self).task_selections,
                    ..*old(self)
                })
                &&& old(self).task_selections@.dom().contains(t.id) ==> final(self).task_selections@ == old(self).task_selections@.insert(
                    t.id,
                    (LogSelection { start: old(self).task_selections@[t.id].start, end: pos }),
                )
                &&& !old(self).task_selections@.dom().contains(t.id) ==> final(self).task_selections@ == old(self).task_selections@
            },
    {
        if self.selected_index < self.tasks.len() {
            let task_id = self.tasks[self.selected_index].id;
            self.task_selections.set_end(task_id, pos);
        }
    }

    /// Ends the selection drag, freezing the selection and clearing the
    /// drag auto-scroll state.
    pub fn end_selection(&mut self)
        ensures
            *final(self) == (AppState {
                is_selecting: false,
                drag_scroll_direction: None,
                last_drag_position: None,
                ..*old(self)
            }),
    {
        self.is_selecting = false;
        self.drag_scroll_direction = None;
        self.last_drag_position = None;
    }

    /// Clears the selection for the current task
    pub fn clear_selection(&mut self)
        ensures
            *final(self) == (AppState {
                task_selections: final(self).task_selections,
                is_selecting: false,
                ..*old(self)
            }),
            match selected_task_spec(*old(self)) {
                Some(t) => final(self).task_selections@ == old(self).task_selections@.remove(t.id),
                None => final(self).task_selections@ == old(self).task_selections@,
            },
    {
        if self.selected_index < self.tasks.len() {
            let task_id = self.tasks[self.selected_index].id;
            self.task_selections.remove(task_id);
        }
        self.is_selecting = false;
    }

    /// Sets the drag scroll direction and last position
    pub fn set_drag_scroll(
        &mut self,
        direction: Option<DragScrollDirection>,
        position: Option<LogPosition>,
    )
        ensures
            *final(self) == (AppState {
                drag_scroll_direction: direction,
                last_drag_position: position,
                ..*old(self)
            }),
    {
        self.drag_scroll_direction = direction;
        self.last_drag_position = position;
    }

    /// Performs one tick of auto-scroll during drag selection: scroll one
    /// line in the recorded direction, then re-resolve the selection end at
    /// the last known pointer position — in that order, so the highlight
    /// tracks the pointer while the viewport moves.
    pub fn perform_drag_scroll(&mut self)
        ensures
            old(self).drag_scroll_direction is None ==> *final(self) == *old(self),
            old(self).drag_scroll_direction matches Some(dir) ==> {
                &&& final(self).log_scroll_offset == (if dir == DragScrollDirection::Up {
                    old(self).log_scroll_offset.saturating_add(1)
                } else {
                    old(self).log_scroll_offset.saturating_sub(1)
                })
                &&& final(self).log_auto_scroll == (if dir == DragScrollDirection::Up {
                    false
                } else if old(self).log_scroll_offset.saturating_sub(1) == 0 {
                    true
                } else {
                    old(self).log_auto_scroll
                })
                &&& *final(self) == (AppState {
                    log_scroll_offset: final(self).log_scroll_offset,
                    log_auto_scroll: final(self).log_auto_scroll,
                    task_selections: final(self).task_selections,
                    ..*old(self)
                })
                &&& match old(self).last_drag_position {
                    Some(pos) => match selected_task_spec(*old(self)) {
                        Some(t) => {
                            &&& old(self).task_selections@.dom().contains(t.id) ==> final(self).task_selections@ == old(self).task_selections@.insert(
                                t.id,
                                (LogSelection {
                                    start: old(self).task_selections@[t.id].start,
                                    end: pos,
                                }),
                            )
                            &&& !old(self).task_selections@.dom().contains(t.id) ==> final(self).task_selections@ == old(self).task_selections@
                        },
                        None => final(self).task_selections@ == old(self).task_selections@,
                    },
                    None => final(self).task_selections@ == old(self).task_selections@,
                }
            },
    {
        let dir_opt = self.drag_scroll_direction;
        match dir_opt {
            Some(DragScrollDirection::Up) => {
                self.scroll_logs_up(1);
            },
            Some(DragScrollDirection::Down) => {
                self.scroll_logs_down(1);
            },
            None => {},
        }
        match dir_opt {
            Some(_) => {
                let pos_opt = self.last_drag_position;
                match pos_opt {
                    Some(pos) => {
                        self.update_selection(pos);
                    },
                    None => {},
                }
            },
            None => {},
        }
    }

    /// Gets the selected text from logs for the current task.
    ///
    /// The stored endpoints are normalized and clamped at use time; a
    /// selection whose normalized start lies beyond the buffer yields
    /// nothing, which defends against stale selections after a clear.
    pub fn get_selected_text(&self) -> (r: Option<String>)
        ensures
            match r {
                Some(text) => selected_text_spec(*self) == Some(text@),
                None => selected_text_spec(*self) is None,
            },
    {
        if self.selected_index >= self.tasks.len() {
            return None;
        }
        let id = self.tasks[self.selected_index].id;
        let selection: LogSelection = match self.task_selections.get(id) {
            Some(s) => *s,
            None => {
                return None;
            },
        };
        let log_lines: &Vec<String> = match self.selected_task_logs() {
            Some(v) => v,
            None => {
                return None;
            },
        };

        let (start, end) = selection.normalized();

        if start.line >= log_lines.len() {
            return None;
        }

        let text = extract_selection(log_lines, start, end);
        proof {
            assert(log_lines.deep_view() =~= chars_of(log_lines@));
        }
        Some(text)
    }
}

fn position_of_name(tasks: &Vec<Task>, name: &String) -> (r: Option<usize>)
    ensures
        match r {
            Some(i) => i < tasks@.len() && tasks@[i as int].name@ == name@ && forall|j: int|
                0 <= j < i ==> tasks@[j].name@ != name@,
            None => forall|j: int| 0 <= j < tasks@.len() ==> tasks@[j].name@ != name@,
        },
{
    let mut i: usize = 0;
    while i < tasks.len()
        invariant
            i <= tasks@.len(),
            forall|j: int| 0 <= j < i ==> tasks@[j].name@ != name@,
        decreases tasks@.len() - i,
    {
        if tasks[i].name == *name {
            return Some(i);
        }
        i += 1;
    }
    None
}

} // verus!
