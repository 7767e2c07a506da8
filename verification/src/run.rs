//! One run of a task, seen from the state side: the lines a run produces and
//! the single terminal status it ends with.
//!
//! The process itself, its two pipes and the worker threads live outside;
//! they report what happened as `RunEvent`s, and `run_step` decides — for
//! every event — which log lines appear and whether the run is over. Stream
//! readers feed lines in arrival order; the merge of the two streams keeps
//! the order within each stream and promises nothing across them.

use vstd::prelude::*;

use crate::numfmt::dec_int;
use crate::numfmt::i32_to_string;
use crate::task::TaskStatus;

verus! {

/// Something the run's workers observed: a line from one of the streams, a
/// read failure on one of them, or the way the run ended.
#[derive(Debug)]
pub enum RunEvent {
    /// The command could not be started; carries the OS error text.
    SpawnFailed(String),
    /// One line read from stdout.
    StdoutLine(String),
    /// One line read from stderr.
    StderrLine(String),
    /// Reading stdout failed; carries the error text. The other stream and
    /// the run go on.
    StdoutReadError(String),
    /// Reading stderr failed; carries the error text. The other stream and
    /// the run go on.
    StderrReadError(String),
    /// The process exited; whether it succeeded, and its exit code if the
    /// OS reported one.
    Exited { success: bool, code: Option<i32> },
    /// Waiting for the process to exit failed; carries the error text.
    WaitFailed(String),
}

/// What one event contributes: log lines to append, and the terminal status
/// if the run is over. Exactly one event of a run yields a status.
#[derive(Debug)]
pub struct RunStep {
    pub lines: Vec<String>,
    pub status: Option<TaskStatus>,
}

/// The line announcing a run.
pub open spec fn start_line_spec(name: Seq<char>) -> Seq<char> {
    "Starting task: "@ + name
}

/// A stderr line as it appears in the merged log: tagged for styling.
pub open spec fn stderr_line_spec(line: Seq<char>) -> Seq<char> {
    "[stderr] "@ + line
}

/// The single error line of a failed spawn.
pub open spec fn spawn_error_line_spec(err: Seq<char>) -> Seq<char> {
    "ERROR: Failed to spawn process: "@ + err
}

/// The error line shown when reading stdout fails.
pub open spec fn stdout_read_error_spec(err: Seq<char>) -> Seq<char> {
    "ERROR reading stdout: "@ + err
}

/// The error line shown when reading stderr fails.
pub open spec fn stderr_read_error_spec(err: Seq<char>) -> Seq<char> {
    "ERROR reading stderr: "@ + err
}

/// The error line of a failed wait on the process.
pub open spec fn wait_error_line_spec(err: Seq<char>) -> Seq<char> {
    "ERROR: Failed to wait for process: "@ + err
}

/// The synthetic line carrying the exit code.
pub open spec fn exit_line_spec(code: int) -> Seq<char> {
    "Task exited with code: "@ + dec_int(code)
}

/// The exit code reported to the user: the OS code, or `-1` where the OS
/// reported none.
pub open spec fn exit_code_spec(code: Option<i32>) -> i32 {
    match code {
        Some(c) => c,
        None => -1i32,
    }
}

/// The terminal status of a normal exit: `Success` with the code where the
/// process succeeded, `Failed` with the code otherwise.
pub open spec fn completion_status_spec(success: bool, code: Option<i32>) -> TaskStatus {
    if success {
        TaskStatus::Success(exit_code_spec(code))
    } else {
        TaskStatus::Failed(exit_code_spec(code))
    }
}

/// Builds the line announcing a run of the named task.
pub fn start_line(name: &str) -> (r: String)
    ensures
        r@ == start_line_spec(name@),
{
    let mut r = String::from_str("Starting task: ");
    r.append(name);
    r
}

fn prefixed(prefix: &str, rest: &str) -> (r: String)
    ensures
        r@ == prefix@ + rest@,
{
    let mut r = String::from_str(prefix);
    r.append(rest);
    r
}

fn exit_line(code: i32) -> (r: String)
    ensures
        r@ == exit_line_spec(code as int),
{
    let mut r = String::from_str("Task exited with code: ");
    let num = i32_to_string(code);
    r.append(num.as_str());
    r
}

fn one_line_step(line: String, status: Option<TaskStatus>) -> (r: RunStep)
    ensures
        r.lines@.len() == 1,
        r.lines@[0] == line,
        r.status == status,
{
    let mut lines: Vec<String> = Vec::new();
    lines.push(line);
    RunStep { lines, status }
}

/// Decides, for one observed event, which log lines appear and whether the
/// run ends, and how:
///
/// - a spawn failure yields exactly one `ERROR` line and ends the run as
///   `Failed(-1)`, with no further work;
/// - a stream line passes through, stderr tagged, and the run goes on;
/// - a read failure on one stream yields one visible error line on that
///   stream only and the run goes on;
/// - a normal exit yields the synthetic exit-code line and ends the run as
///   `Success(code)` if the process succeeded, else `Failed(code)`, with
///   `-1` standing in where the OS reported no code;
/// - a wait failure yields one `ERROR` line and ends the run as `Failed(-1)`.
pub fn run_step(event: RunEvent) -> (r: RunStep)
    ensures
        event matches RunEvent::SpawnFailed(e) ==> r.lines@.len() == 1 && r.lines@[0]@
            == spawn_error_line_spec(e@) && r.status == Some(TaskStatus::Failed(-1i32)),
        event matches RunEvent::StdoutLine(l) ==> r.lines@.len() == 1 && r.lines@[0] == l
            && r.status is None,
        event matches RunEvent::StderrLine(l) ==> r.lines@.len() == 1 && r.lines@[0]@
            == stderr_line_spec(l@) && r.status is None,
        event matches RunEvent::StdoutReadError(e) ==> r.lines@.len() == 1 && r.lines@[0]@
            == stdout_read_error_spec(e@) && r.status is None,
        event matches RunEvent::StderrReadError(e) ==> r.lines@.len() == 1 && r.lines@[0]@
            == stderr_read_error_spec(e@) && r.status is None,
        event matches RunEvent::Exited { success, code } ==> r.lines@.len() == 1 && r.lines@[0]@
            == exit_line_spec(exit_code_spec(code) as int) && r.status == Some(
            completion_status_spec(success, code),
        ),
        event matches RunEvent::WaitFailed(e) ==> r.lines@.len() == 1 && r.lines@[0]@
            == wait_error_line_spec(e@) && r.status == Some(TaskStatus::Failed(-1i32)),
{
    match event {
        RunEvent::SpawnFailed(e) => {
            let line = prefixed("ERROR: Failed to spawn process: ", e.as_str());
            one_line_step(line, Some(TaskStatus::Failed(-1)))
        },
        RunEvent::StdoutLine(l) => one_line_step(l, None),
        RunEvent::StderrLine(l) => {
            let line = prefixed("[stderr] ", l.as_str());
            one_line_step(line, None)
        },
        RunEvent::StdoutReadError(e) => {
            let line = prefixed("ERROR reading stdout: ", e.as_str());
            one_line_step(line, None)
        },
        RunEvent::StderrReadError(e) => {
            let line = prefixed("ERROR reading stderr: ", e.as_str());
            one_line_step(line, None)
        },
        RunEvent::Exited { success, code } => {
            let exit_code = match code {
                Some(c) => c,
                None => -1,
            };
            let line = exit_line(exit_code);
            let status = if success {
                TaskStatus::Success(exit_code)
            } else {
                TaskStatus::Failed(exit_code)
            };
            one_line_step(line, Some(status))
        },
        RunEvent::WaitFailed(e) => {
            let line = prefixed("ERROR: Failed to wait for process: ", e.as_str());
            one_line_step(line, Some(TaskStatus::Failed(-1)))
        },
    }
}

/// A buffer after a sequence of single-line appends, in order.
pub open spec fn pushed_all(buffer: Seq<String>, lines: Seq<String>) -> Seq<String>
    decreases lines.len(),
{
    if lines.len() == 0 {
        buffer
    } else {
        pushed_all(buffer.push(lines[0]), lines.drop_first())
    }
}

/// Appending lines one at a time accumulates exactly those lines, in order,
/// after the existing buffer: nothing is dropped, duplicated or reordered.
pub proof fn lemma_appends_accumulate(buffer: Seq<String>, lines: Seq<String>)
    ensures
        pushed_all(buffer, lines) == buffer + lines,
    decreases lines.len(),
{
    if lines.len() == 0 {
        assert(pushed_all(buffer, lines) =~= buffer + lines);
    } else {
        lemma_appends_accumulate(buffer.push(lines[0]), lines.drop_first());
        assert(buffer.push(lines[0]) + lines.drop_first() =~= buffer + lines);
    }
}

/// `m` is an interleaving of `a` and `b`: every line of `m` comes from one
/// of the two streams, and the order within each stream is preserved. The
/// order across the streams is left open.
pub open spec fn is_interleaving(a: Seq<String>, b: Seq<String>, m: Seq<String>) -> bool
    decreases m.len(),
{
    if m.len() == 0 {
        a.len() == 0 && b.len() == 0
    } else {
        ||| (a.len() > 0 && a[0] == m[0] && is_interleaving(a.drop_first(), b, m.drop_first()))
        ||| (b.len() > 0 && b[0] == m[0] && is_interleaving(a, b.drop_first(), m.drop_first()))
    }
}

/// Any interleaving of the two streams carries every line of both, once:
/// its length is the sum of the streams' lengths.
pub proof fn lemma_interleaving_len(a: Seq<String>, b: Seq<String>, m: Seq<String>)
    requires
        is_interleaving(a, b, m),
    ensures
        m.len() == a.len() + b.len(),
    decreases m.len(),
{
    if m.len() > 0 {
        if a.len() > 0 && a[0] == m[0] && is_interleaving(a.drop_first(), b, m.drop_first()) {
            lemma_interleaving_len(a.drop_first(), b, m.drop_first());
        } else {
            lemma_interleaving_len(a, b.drop_first(), m.drop_first());
        }
    }
}

/// For any N lines merged from the two streams while the task runs, the
/// buffer of a run that starts empty ends with the start line, those N lines
/// in merge order, and the exit line: length N plus two, the order within
/// each stream preserved by the interleaving.
pub proof fn lemma_run_buffer_shape(
    out_lines: Seq<String>,
    err_lines: Seq<String>,
    merged: Seq<String>,
    first: String,
    last: String,
)
    requires
        is_interleaving(out_lines, err_lines, merged),
    ensures
        pushed_all(Seq::empty(), seq![first] + merged + seq![last]) == seq![first] + merged + seq![
            last,
        ],
        pushed_all(Seq::empty(), seq![first] + merged + seq![last]).len() == out_lines.len()
            + err_lines.len() + 2,
{
    lemma_appends_accumulate(Seq::empty(), seq![first] + merged + seq![last]);
    lemma_interleaving_len(out_lines, err_lines, merged);
    assert(Seq::<String>::empty() + (seq![first] + merged + seq![last]) =~= seq![first] + merged
        + seq![last]);
}

} // verus!
