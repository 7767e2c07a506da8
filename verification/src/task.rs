//! Tasks, runners, run status, and the record types built from them.

use vstd::prelude::*;

use crate::numfmt::dec_int;
use crate::numfmt::i32_to_string;

verus! {

/// Task runner kind. The runner set is closed and small: each variant maps to
/// one command name and one display prefix.
#[derive(Debug, Clone, Copy, PartialEq, Eq, Structural)]
pub enum TaskRunner {
    /// Just command runner
    Just,
    /// Make build tool
    Make,
}

/// The display prefix of a runner.
pub open spec fn runner_prefix_spec(r: TaskRunner) -> Seq<char> {
    match r {
        TaskRunner::Just => "[just]"@,
        TaskRunner::Make => "[make]"@,
    }
}

/// The command name a runner's tasks are started with.
pub open spec fn runner_command_spec(r: TaskRunner) -> Seq<char> {
    match r {
        TaskRunner::Just => "just"@,
        TaskRunner::Make => "make"@,
    }
}

impl TaskRunner {
    /// Returns the display prefix for this runner
    pub fn prefix(&self) -> (r: &'static str)
        ensures
            r@ == runner_prefix_spec(*self),
    {
        match self {
            TaskRunner::Just => "[just]",
            TaskRunner::Make => "[make]",
        }
    }

    /// Returns the command name for this runner
    pub fn command(&self) -> (r: &'static str)
        ensures
            r@ == runner_command_spec(*self),
    {
        match self {
            TaskRunner::Just => "just",
            TaskRunner::Make => "make",
        }
    }
}

/// A task that can be executed: a recipe or target exposed by a runner.
///
/// The id is stable only within one discovery snapshot; identity across
/// reloads goes by name.
#[derive(Debug, Clone)]
pub struct Task {
    /// Stable identifier for the task within one discovery snapshot
    pub id: usize,
    /// User-facing name (recipe/target name)
    pub name: String,
    /// Optional human-readable description of the task
    pub description: Option<String>,
    /// Which runner tool starts the task
    pub runner: TaskRunner,
}

impl Task {
    /// An exact copy; written out so that verified callers know the copy
    /// equals the original field by field.
    pub fn duplicate(&self) -> (r: Task)
        ensures
            r == *self,
    {
        let description = match &self.description {
            Some(d) => Some(d.clone()),
            None => None,
        };
        Task { id: self.id, name: self.name.clone(), description, runner: self.runner }
    }
}

/// Status of a task execution.
#[derive(Debug, Clone, Copy, PartialEq, Eq, Structural)]
pub enum TaskStatus {
    /// Task is currently running
    Running,
    /// Task completed successfully with the given exit code
    Success(i32),
    /// Task failed with the given exit code
    Failed(i32),
}

/// The user-facing text of a status.
pub open spec fn status_display_spec(s: TaskStatus) -> Seq<char> {
    match s {
        TaskStatus::Running => "Running"@,
        TaskStatus::Success(code) => "Success (exit="@ + dec_int(code as int) + ")"@,
        TaskStatus::Failed(code) => "Failed (exit="@ + dec_int(code as int) + ")"@,
    }
}

impl TaskStatus {
    /// Returns a user-friendly string representation of the status
    pub fn display_string(&self) -> (r: String)
        ensures
            r@ == status_display_spec(*self),
    {
        match self {
            TaskStatus::Running => String::from_str("Running"),
            TaskStatus::Success(code) => {
                let mut r = String::from_str("Success (exit=");
                let num = i32_to_string(*code);
                r.append(num.as_str());
                r.append(")");
                proof {
                    assert(r@ =~= status_display_spec(*self));
                }
                r
            },
            TaskStatus::Failed(code) => {
                let mut r = String::from_str("Failed (exit=");
                let num = i32_to_string(*code);
                r.append(num.as_str());
                r.append(")");
                proof {
                    assert(r@ =~= status_display_spec(*self));
                }
                r
            },
        }
    }
}

/// A task that is currently running or was recently run, with its status and
/// the log lines collected for this run.
#[derive(Debug)]
pub struct RunningTask {
    /// The task being executed
    pub task: Task,
    /// Current status of the execution
    pub status: TaskStatus,
    /// Log lines (stdout and stderr combined)
    pub log_lines: Vec<String>,
}

impl RunningTask {
    /// Creates a new RunningTask with empty logs and Running status
    pub fn new(task: Task) -> (r: Self)
        ensures
            r.task == task,
            r.status == TaskStatus::Running,
            r.log_lines@ == Seq::<String>::empty(),
    {
        Self { task, status: TaskStatus::Running, log_lines: Vec::new() }
    }

    /// Appends a log line to the task's output
    pub fn append_log(&mut self, line: String)
        ensures
            final(self).log_lines@ == old(self).log_lines@.push(line),
            final(self).task == old(self).task,
            final(self).status == old(self).status,
    {
        self.log_lines.push(line);
    }

    /// Updates the task's status
    pub fn set_status(&mut self, status: TaskStatus)
        ensures
            final(self).status == status,
            final(self).task == old(self).task,
            final(self).log_lines == old(self).log_lines,
    {
        self.status = status;
    }

    /// Clears all log lines
    pub fn clear_logs(&mut self)
        ensures
            final(self).log_lines@ == Seq::<String>::empty(),
            final(self).task == old(self).task,
            final(self).status == old(self).status,
    {
        self.log_lines.clear();
    }
}

/// Auto-scroll direction during drag selection
#[derive(Debug, Clone, Copy, PartialEq, Eq, Structural)]
pub enum DragScrollDirection {
    Up,
    Down,
}

/// A completed run in the history ledger: the task identity captured at run
/// start, when the run finished (seconds since the Unix epoch), and how.
#[derive(Debug, Clone)]
pub struct HistoryEntry {
    /// The task that was executed
    pub task_name: String,
    /// The runner used
    pub runner: TaskRunner,
    /// When the task finished, in seconds since the Unix epoch
    pub timestamp: u64,
    /// Final status of the task
    pub status: TaskStatus,
}

} // verus!
