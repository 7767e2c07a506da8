//! Input handling over the session state: which pane a screen coordinate
//! falls in, the screen-to-log mapping shared with rendering, and the state
//! transitions for mouse and keyboard events.
//!
//! The driver decodes raw terminal events into the plain kinds below and
//! performs whatever outside work an action asks for; every decision lives
//! here.

use vstd::prelude::*;

use crate::position::LogPosition;
use crate::position::LogSelection;
use crate::state::AppState;
use crate::state::is_running_spec;
use crate::state::selected_logs_spec;
use crate::state::selected_task_spec;
use crate::state::selected_text_spec;
use crate::task::DragScrollDirection;
use crate::task::Task;
use crate::task::TaskStatus;
use crate::viewport::sub0;
use crate::viewport::visible_window;
use crate::viewport::window_start_spec;

verus! {

/// Width of the task-list pane, in columns.
pub const TASK_LIST_WIDTH: u16 = 35;

/// Which region of the left side a screen row falls in.
#[derive(Debug, Clone, Copy, PartialEq, Eq, Structural)]
pub enum LeftRegion {
    TaskList,
    History,
}

/// Which region of the right side a screen row falls in.
#[derive(Debug, Clone, Copy, PartialEq, Eq, Structural)]
pub enum RightRegion {
    Info,
    Logs,
}

/// The left-side region under a screen row: the top bar and border count as
/// the task list; with the history box shown, its eight bottom rows (capped
/// so the task list keeps one row) are history.
pub open spec fn left_region_spec(show_history: bool, row: int, terminal_height: int) -> LeftRegion {
    if row <= 1 {
        LeftRegion::TaskList
    } else {
        let content_height = sub0(terminal_height, 2);
        if show_history {
            let cap = sub0(content_height, 1);
            let history_height = if cap < 8 {
                cap
            } else {
                8
            };
            let history_start = 1 + (content_height - history_height);
            if row < history_start {
                LeftRegion::TaskList
            } else {
                LeftRegion::History
            }
        } else {
            LeftRegion::TaskList
        }
    }
}

/// The right-side region under a screen row: with the info box shown, its
/// six rows below the top border are info, everything else is logs.
pub open spec fn right_region_spec(show_info: bool, row: int) -> RightRegion {
    if row <= 1 {
        RightRegion::Logs
    } else if show_info && row < 7 {
        RightRegion::Info
    } else {
        RightRegion::Logs
    }
}

/// Calculates which left-side region the mouse is over based on layout
pub fn get_left_region(app: &AppState, row: u16, terminal_height: u16) -> (r: LeftRegion)
    ensures
        r == left_region_spec(app.show_history, row as int, terminal_height as int),
{
    if row <= 1 {
        return LeftRegion::TaskList;
    }
    let content_height = terminal_height.saturating_sub(2);
    if app.show_history {
        let cap = content_height.saturating_sub(1);
        let history_height: u16 = if cap < 8 {
            cap
        } else {
            8
        };
        let history_start = 1 + (content_height - history_height);
        if row < history_start {
            LeftRegion::TaskList
        } else {
            LeftRegion::History
        }
    } else {
        LeftRegion::TaskList
    }
}

/// Calculates which right-side region the mouse is over based on layout
pub fn get_right_region(app: &AppState, row: u16, _terminal_height: u16) -> (r: RightRegion)
    ensures
        r == right_region_spec(app.show_info, row as int),
{
    if row <= 1 {
        return RightRegion::Logs;
    }
    if app.show_info {
        if row < 7 {
            RightRegion::Info
        } else {
            RightRegion::Logs
        }
    } else {
        RightRegion::Logs
    }
}

/// The state after one wheel-up tick at the given screen position: info or
/// logs scroll up on the right, the task cursor or the history view moves on
/// the left.
pub open spec fn scroll_up_spec(s: AppState, column: int, row: int, terminal_height: int) -> AppState {
    if column >= TASK_LIST_WIDTH {
        if right_region_spec(s.show_info, row) == RightRegion::Info {
            AppState { info_scroll_offset: s.info_scroll_offset.saturating_sub(3), ..s }
        } else {
            AppState {
                log_scroll_offset: s.log_scroll_offset.saturating_add(3),
                log_auto_scroll: false,
                ..s
            }
        }
    } else {
        if left_region_spec(s.show_history, row, terminal_height) == LeftRegion::TaskList {
            AppState {
                selected_index: if s.selected_index > 0 {
                    (s.selected_index - 1) as usize
                } else {
                    0
                },
                ..s
            }
        } else {
            AppState { history_scroll_offset: s.history_scroll_offset.saturating_sub(1), ..s }
        }
    }
}

/// The state after one wheel-down tick at the given screen position.
pub open spec fn scroll_down_spec(s: AppState, column: int, row: int, terminal_height: int) -> AppState {
    if column >= TASK_LIST_WIDTH {
        if right_region_spec(s.show_info, row) == RightRegion::Info {
            AppState { info_scroll_offset: s.info_scroll_offset.saturating_add(3), ..s }
        } else {
            AppState {
                log_scroll_offset: s.log_scroll_offset.saturating_sub(3),
                log_auto_scroll: if s.log_scroll_offset.saturating_sub(3) == 0 {
                    true
                } else {
                    s.log_auto_scroll
                },
                ..s
            }
        }
    } else {
        if left_region_spec(s.show_history, row, terminal_height) == LeftRegion::TaskList {
            AppState {
                selected_index: if s.selected_index + 1 < s.tasks@.len() {
                    (s.selected_index + 1) as usize
                } else {
                    s.selected_index
                },
                ..s
            }
        } else {
            AppState { history_scroll_offset: s.history_scroll_offset.saturating_add(1), ..s }
        }
    }
}

/// Handles scroll up event
pub fn handle_scroll_up(app: &mut AppState, column: u16, row: u16, terminal_height: u16)
    ensures
        *final(app) == scroll_up_spec(*old(app), column as int, row as int, terminal_height as int),
{
    if column >= TASK_LIST_WIDTH {
        match get_right_region(app, row, terminal_height) {
            RightRegion::Info => {
                app.scroll_info_up(3);
            },
            RightRegion::Logs => {
                app.scroll_logs_up(3);
            },
        }
    } else {
        match get_left_region(app, row, terminal_height) {
            LeftRegion::TaskList => {
                app.move_selection_up();
            },
            LeftRegion::History => {
                app.scroll_history_up(1);
            },
        }
    }
}

/// Handles scroll down event
pub fn handle_scroll_down(app: &mut AppState, column: u16, row: u16, terminal_height: u16)
    ensures
        *final(app) == scroll_down_spec(
            *old(app),
            column as int,
            row as int,
            terminal_height as int,
        ),
{
    if column >= TASK_LIST_WIDTH {
        match get_right_region(app, row, terminal_height) {
            RightRegion::Info => {
                app.scroll_info_down(3);
            },
            RightRegion::Logs => {
                app.scroll_logs_down(3);
            },
        }
    } else {
        match get_left_region(app, row, terminal_height) {
            LeftRegion::TaskList => {
                app.move_selection_down();
            },
            LeftRegion::History => {
                app.scroll_history_down(1);
            },
        }
    }
}

/// The logical log position under a screen coordinate, resolved through the
/// same windowing math the renderer uses: the column relative to the log
/// pane's inner left edge, the line through the visible window's start.
/// Nothing where the coordinate lies outside the log pane's inner area, no
/// task or buffer is selected, the buffer is empty, or the row falls past
/// the last line.
pub open spec fn screen_to_log_spec(
    s: AppState,
    screen_col: int,
    screen_row: int,
    terminal_height: int,
) -> Option<LogPosition> {
    let log_inner_left: int = TASK_LIST_WIDTH + 1;
    let log_inner_top: int = if s.show_info {
        8
    } else {
        2
    };
    if screen_col < log_inner_left || screen_row < log_inner_top {
        None
    } else {
        match selected_logs_spec(s) {
            Some(lines) => if lines.len() == 0 {
                None
            } else {
                let inner_height = sub0(terminal_height, if s.show_info {
                    10
                } else {
                    4
                });
                let start = window_start_spec(
                    lines.len() as int,
                    inner_height,
                    s.log_scroll_offset as int,
                );
                let line_idx = start + (screen_row - log_inner_top);
                if line_idx >= lines.len() {
                    None
                } else {
                    Some(
                        (LogPosition {
                            line: line_idx as usize,
                            col: (screen_col - log_inner_left) as usize,
                        }),
                    )
                }
            },
            None => None,
        }
    }
}

/// Converts screen coordinates to log line and column position
pub fn screen_to_log_position(
    app: &AppState,
    screen_col: u16,
    screen_row: u16,
    terminal_height: u16,
) -> (r: Option<LogPosition>)
    ensures
        r == screen_to_log_spec(
            *app,
            screen_col as int,
            screen_row as int,
            terminal_height as int,
        ),
{
    let log_inner_left: u16 = TASK_LIST_WIDTH + 1;
    let log_inner_top: u16 = if app.show_info {
        8
    } else {
        2
    };

    if screen_col < log_inner_left || screen_row < log_inner_top {
        return None;
    }

    let col_in_log = (screen_col - log_inner_left) as usize;
    let row_in_visible_area = (screen_row - log_inner_top) as usize;

    let log_lines = match app.selected_task_logs() {
        Some(v) => v,
        None => {
            return None;
        },
    };
    if log_lines.is_empty() {
        return None;
    }

    let inner_height = (if app.show_info {
        terminal_height.saturating_sub(10)
    } else {
        terminal_height.saturating_sub(4)
    }) as usize;

    let total_lines = log_lines.len();
    let window = visible_window(total_lines, inner_height, app.log_scroll_offset, app.log_auto_scroll);

    let line_idx = window.0.saturating_add(row_in_visible_area);

    if line_idx >= total_lines {
        return None;
    }

    Some(LogPosition::new(line_idx, col_in_log))
}

/// A mouse event already decoded to what the session cares about.
#[derive(Debug, Clone, Copy, PartialEq, Eq, Structural)]
pub enum MouseKind {
    LeftDown,
    LeftDrag,
    LeftUp,
    ScrollUp,
    ScrollDown,
    Other,
}

/// Handles mouse input events: a left click in the task list moves the
/// cursor, one in the log pane starts a selection at the position under the
/// pointer; a drag moves the selection end and, within three rows of the log
/// area's edges, arms one-line-per-tick auto-scroll in that direction;
/// release freezes the selection; the wheel scrolls the pane under the
/// pointer.
pub fn handle_mouse_event(
    app: &mut AppState,
    kind: MouseKind,
    column: u16,
    row: u16,
    terminal_height: u16,
)
    ensures
        kind == MouseKind::LeftDown ==> {
            if column < TASK_LIST_WIDTH && row >= 2 {
                if left_region_spec(old(app).show_history, row as int, terminal_height as int)
                    == LeftRegion::TaskList {
                    let task_index = (row - 2) + old(app).task_scroll_offset;
                    if task_index < old(app).tasks@.len() {
                        *final(app) == (AppState {
                            selected_index: task_index as usize,
                            ..*old(app)
                        })
                    } else {
                        *final(app) == *old(app)
                    }
                } else {
                    *final(app) == *old(app)
                }
            } else if row >= 2 {
                match screen_to_log_spec(
                    *old(app),
                    column as int,
                    row as int,
                    terminal_height as int,
                ) {
                    Some(pos) => match selected_task_spec(*old(app)) {
                        Some(t) => {
                            &&& final(app).task_selections@ == old(app).task_selections@.insert(
                                t.id,
                                (LogSelection { start: pos, end: pos }),
                            )
                            &&& *final(app) == (AppState {
                                task_selections: final(app).task_selections,
                                is_selecting: true,
                                ..*old(app)
                            })
                        },
                        None => *final(app) == *old(app),
                    },
                    None => *final(app) == *old(app),
                }
            } else {
                *final(app) == *old(app)
            }
        },
        kind == MouseKind::LeftDrag ==> {
            if old(app).is_selecting && column >= TASK_LIST_WIDTH && row >= 2 {
                match screen_to_log_spec(
                    *old(app),
                    column as int,
                    row as int,
                    terminal_height as int,
                ) {
                    Some(pos) => {
                        let log_top: int = if old(app).show_info {
                            8
                        } else {
                            2
                        };
                        let dir: Option<DragScrollDirection> = if row <= log_top + 3 {
                            Some(DragScrollDirection::Up)
                        } else if row >= sub0(sub0(terminal_height as int, 1), 3) {
                            Some(DragScrollDirection::Down)
                        } else {
                            None
                        };
                        &&& *final(app) == (AppState {
                            task_selections: final(app).task_selections,
                            drag_scroll_direction: dir,
                            last_drag_position: Some(pos),
                            ..*old(app)
                        })
                        &&& match selected_task_spec(*old(app)) {
                            Some(t) => {
                                &&& old(app).task_selections@.dom().contains(t.id) ==> final(app).task_selections@ == old(app).task_selections@.insert(
                                    t.id,
                                    (LogSelection {
                                        start: old(app).task_selections@[t.id].start,
                                        end: pos,
                                    }),
                                )
                                &&& !old(app).task_selections@.dom().contains(t.id) ==> final(app).task_selections@ == old(app).task_selections@
                            },
                            None => final(app).task_selections@ == old(app).task_selections@,
                        }
                    },
                    None => *final(app) == *old(app),
                }
            } else {
                *final(app) == *old(app)
            }
        },
        kind == MouseKind::LeftUp ==> if old(app).is_selecting {
            *final(app) == (AppState {
                is_selecting: false,
                drag_scroll_direction: None,
                last_drag_position: None,
                ..*old(app)
            })
        } else {
            *final(app) == *old(app)
        },
        kind == MouseKind::ScrollUp ==> *final(app) == scroll_up_spec(
            *old(app),
            column as int,
            row as int,
            terminal_height as int,
        ),
        kind == MouseKind::ScrollDown ==> *final(app) == scroll_down_spec(
            *old(app),
            column as int,
            row as int,
            terminal_height as int,
        ),
        kind == MouseKind::Other ==> *final(app) == *old(app),
{
    match kind {
        MouseKind::LeftDown => {
            if column < TASK_LIST_WIDTH && row >= 2 {
                match get_left_region(app, row, terminal_height) {
                    LeftRegion::TaskList => {
                        let clicked_row = (row - 2) as usize;
                        let task_index = clicked_row.saturating_add(app.task_scroll_offset);
                        if task_index < app.tasks.len() {
                            app.selected_index = task_index;
                        }
                    },
                    LeftRegion::History => {},
                }
            } else if row >= 2 {
                match screen_to_log_position(app, column, row, terminal_height) {
                    Some(pos) => {
                        app.start_selection(pos);
                    },
                    None => {},
                }
            }
        },
        MouseKind::LeftDrag => {
            if app.is_selecting && column >= TASK_LIST_WIDTH && row >= 2 {
                match screen_to_log_position(app, column, row, terminal_height) {
                    Some(pos) => {
                        app.update_selection(pos);
                        let log_top: u16 = if app.show_info {
                            8
                        } else {
                            2
                        };
                        let log_bottom = terminal_height.saturating_sub(1);
                        if row <= log_top + 3 {
                            app.set_drag_scroll(Some(DragScrollDirection::Up), Some(pos));
                        } else if row >= log_bottom.saturating_sub(3) {
                            app.set_drag_scroll(Some(DragScrollDirection::Down), Some(pos));
                        } else {
                            app.set_drag_scroll(None, Some(pos));
                        }
                    },
                    None => {},
                }
            }
        },
        MouseKind::LeftUp => {
            if app.is_selecting {
                app.end_selection();
            }
        },
        MouseKind::ScrollUp => {
            handle_scroll_up(app, column, row, terminal_height);
        },
        MouseKind::ScrollDown => {
            handle_scroll_down(app, column, row, terminal_height);
        },
        MouseKind::Other => {},
    }
}

/// A keyboard event already decoded to what the session cares about.
#[derive(Debug, Clone, Copy, PartialEq, Eq, Structural)]
pub enum KeyInput {
    /// Quit the application.
    Quit,
    /// Copy the selected text.
    Copy,
    /// Cancel the selection.
    CancelSelection,
    /// Move the task cursor up.
    MoveUp,
    /// Move the task cursor down.
    MoveDown,
    /// Run the selected task.
    Run,
    /// Rediscover the task list.
    Reload,
    /// Erase all log buffers.
    EraseLogs,
    /// Toggle the info box.
    ToggleInfo,
    /// Toggle the history box.
    ToggleHistory,
    /// Scroll the logs up a page.
    PageUp,
    /// Scroll the logs down a page.
    PageDown,
    /// Jump to the newest log lines.
    ScrollToBottom,
    /// Any other key.
    Other,
}

/// Outside work a key press asks the driver for; the state itself has
/// already been updated.
#[derive(Debug)]
pub enum KeyAction {
    /// Nothing left to do.
    Idle,
    /// Hand this text to the clipboard; on success the driver reports it and
    /// clears the selection.
    CopyText(String),
    /// Spawn the carried task's process and report its run events.
    RunTask(Task),
    /// Run task discovery and hand the result to `reload_tasks`, or surface
    /// the discovery error as a message.
    ReloadRequested,
}

/// Handles keyboard input events: updates the session state and returns
/// whatever outside work (clipboard, process spawn, task discovery) the
/// driver must perform. A run or reload request while a task is running is
/// rejected with a user-visible message, never queued.
pub fn handle_key_event(app: &mut AppState, key: KeyInput) -> (action: KeyAction)
    ensures
        key == KeyInput::Quit ==> *final(app) == (AppState { quitting: true, ..*old(app) })
            && action matches KeyAction::Idle,
        key == KeyInput::Copy ==> *final(app) == *old(app) && (match selected_text_spec(
            *old(app),
        ) {
            Some(text) => action matches KeyAction::CopyText(t) && t@ == text,
            None => action matches KeyAction::Idle,
        }),
        key == KeyInput::CancelSelection ==> {
            &&& *final(app) == (AppState {
                task_selections: final(app).task_selections,
                is_selecting: false,
                ..*old(app)
            })
            &&& final(app).task_selections@ == (match selected_task_spec(*old(app)) {
                Some(t) => old(app).task_selections@.remove(t.id),
                None => old(app).task_selections@,
            })
            &&& action matches KeyAction::Idle
        },
        key == KeyInput::MoveUp ==> *final(app) == (AppState {
            selected_index: if old(app).selected_index > 0 {
                (old(app).selected_index - 1) as usize
            } else {
                0
            },
            ..*old(app)
        }) && action matches KeyAction::Idle,
        key == KeyInput::MoveDown ==> *final(app) == (AppState {
            selected_index: if old(app).selected_index + 1 < old(app).tasks@.len() {
                (old(app).selected_index + 1) as usize
            } else {
                old(app).selected_index
            },
            ..*old(app)
        }) && action matches KeyAction::Idle,
        key == KeyInput::Run ==> (if is_running_spec(*old(app)) {
            &&& *final(app) == (AppState { message: final(app).message, ..*old(app) })
            &&& final(app).message matches Some(m) && m@
                == "A task is already running. Wait for it to finish."@
            &&& action matches KeyAction::Idle
        } else {
            match selected_task_spec(*old(app)) {
                Some(t) => {
                    &&& final(app).running_task matches Some(rt) && rt.task == t && rt.status
                        == TaskStatus::Running && rt.log_lines@ == Seq::<String>::empty()
                    &&& *final(app) == (AppState {
                        running_task: final(app).running_task,
                        message: None,
                        log_scroll_offset: 0usize,
                        log_auto_scroll: true,
                        ..*old(app)
                    })
                    &&& action matches KeyAction::RunTask(rt2) && rt2 == t
                },
                None => *final(app) == *old(app) && action matches KeyAction::Idle,
            }
        }),
        key == KeyInput::Reload ==> (if is_running_spec(*old(app)) {
            &&& *final(app) == (AppState { message: final(app).message, ..*old(app) })
            &&& final(app).message matches Some(m) && m@
                == "Cannot reload tasks while a task is running."@
            &&& action matches KeyAction::Idle
        } else {
            *final(app) == *old(app) && action matches KeyAction::ReloadRequested
        }),
        key == KeyInput::EraseLogs ==> {
            &&& final(app).task_logs@ == Map::<usize, Seq<String>>::empty()
            &&& (old(app).running_task is None ==> final(app).running_task is None)
            &&& (old(app).running_task matches Some(rt) ==> final(app).running_task matches Some(
                rt2,
            ) && rt2.task == rt.task && rt2.status == rt.status && rt2.log_lines@ == Seq::<
                String,
            >::empty())
            &&& final(app).task_selections@ == (match selected_task_spec(*old(app)) {
                Some(t) => old(app).task_selections@.remove(t.id),
                None => old(app).task_selections@,
            })
            &&& final(app).message matches Some(m) && m@ == "Logs cleared"@
            &&& *final(app) == (AppState {
                task_logs: final(app).task_logs,
                running_task: final(app).running_task,
                task_selections: final(app).task_selections,
                is_selecting: false,
                message: final(app).message,
                ..*old(app)
            })
            &&& action matches KeyAction::Idle
        },
        key == KeyInput::ToggleInfo ==> *final(app) == (AppState {
            show_info: !old(app).show_info,
            ..*old(app)
        }) && action matches KeyAction::Idle,
        key == KeyInput::ToggleHistory ==> *final(app) == (AppState {
            show_history: !old(app).show_history,
            ..*old(app)
        }) && action matches KeyAction::Idle,
        key == KeyInput::PageUp ==> *final(app) == (AppState {
            log_scroll_offset: old(app).log_scroll_offset.saturating_add(10),
            log_auto_scroll: false,
            ..*old(app)
        }) && action matches KeyAction::Idle,
        key == KeyInput::PageDown ==> *final(app) == (AppState {
            log_scroll_offset: old(app).log_scroll_offset.saturating_sub(10),
            log_auto_scroll: if old(app).log_scroll_offset.saturating_sub(10) == 0 {
                true
            } else {
                old(app).log_auto_scroll
            },
            ..*old(app)
        }) && action matches KeyAction::Idle,
        key == KeyInput::ScrollToBottom ==> *final(app) == (AppState {
            log_scroll_offset: 0usize,
            log_auto_scroll: true,
            ..*old(app)
        }) && action matches KeyAction::Idle,
        key == KeyInput::Other ==> *final(app) == *old(app) && action matches KeyAction::Idle,
{
    match key {
        KeyInput::Quit => {
            app.quit();
            KeyAction::Idle
        },
        KeyInput::Copy => {
            match app.get_selected_text() {
                Some(text) => KeyAction::CopyText(text),
                None => KeyAction::Idle,
            }
        },
        KeyInput::CancelSelection => {
            app.clear_selection();
            KeyAction::Idle
        },
        KeyInput::MoveUp => {
            app.move_selection_up();
            KeyAction::Idle
        },
        KeyInput::MoveDown => {
            app.move_selection_down();
            KeyAction::Idle
        },
        KeyInput::Run => {
            if app.is_task_running() {
                app.set_message(
                    String::from_str("A task is already running. Wait for it to finish."),
                );
                KeyAction::Idle
            } else {
                match app.selected_task() {
                    Some(task_ref) => {
                        let task = task_ref.duplicate();
                        let task_for_driver = task.duplicate();
                        app.start_task_with_scroll_reset(task);
                        KeyAction::RunTask(task_for_driver)
                    },
                    None => KeyAction::Idle,
                }
            }
        },
        KeyInput::Reload => {
            if app.is_task_running() {
                app.set_message(String::from_str("Cannot reload tasks while a task is running."));
                KeyAction::Idle
            } else {
                KeyAction::ReloadRequested
            }
        },
        KeyInput::EraseLogs => {
            app.clear_logs();
            app.clear_selection();
            app.set_message(String::from_str("Logs cleared"));
            KeyAction::Idle
        },
        KeyInput::ToggleInfo => {
            app.toggle_info();
            KeyAction::Idle
        },
        KeyInput::ToggleHistory => {
            app.toggle_history();
            KeyAction::Idle
        },
        KeyInput::PageUp => {
            app.scroll_logs_up(10);
            KeyAction::Idle
        },
        KeyInput::PageDown => {
            app.scroll_logs_down(10);
            KeyAction::Idle
        },
        KeyInput::ScrollToBottom => {
            app.scroll_logs_to_bottom();
            KeyAction::Idle
        },
        KeyInput::Other => KeyAction::Idle,
    }
}

} // verus!
