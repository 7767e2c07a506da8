//! The single authoritative windowing function over a growing log buffer.
//!
//! Both rendering and mouse input must resolve screen rows through the same
//! mapping, so the window math lives here and nowhere else.

use vstd::prelude::*;

verus! {

/// Saturating subtraction over the mathematical integers.
pub open spec fn sub0(a: int, b: int) -> int {
    if a >= b {
        a - b
    } else {
        0
    }
}

/// First visible line of the log window.
///
/// `scroll_offset` counts lines back from the auto-follow position: the
/// window bottom sits `scroll_offset` lines above the newest line, clamped to
/// the top of the buffer. Auto-follow holds exactly when the offset is zero,
/// so the start does not depend on the flag itself.
pub open spec fn window_start_spec(total: int, height: int, scroll_offset: int) -> int {
    sub0(sub0(total, height), scroll_offset)
}

/// One-past-the-last visible line of the log window.
pub open spec fn window_end_spec(total: int, height: int, scroll_offset: int) -> int {
    let start = window_start_spec(total, height, scroll_offset);
    if start + height <= total {
        start + height
    } else {
        total
    }
}

/// Maps (buffer length, pane height, scroll state) to the visible line range
/// `[start, end)`.
///
/// With `auto_follow` set the offset is zero and the window is the last
/// `height` lines; otherwise the window sits `scroll_offset` lines further
/// up, clamped so it never leaves the buffer.
pub fn visible_window(total_lines: usize, height: usize, scroll_offset: usize, auto_follow: bool) -> (r: (
    usize,
    usize,
))
    ensures
        r.0 == window_start_spec(total_lines as int, height as int, scroll_offset as int),
        r.1 == window_end_spec(total_lines as int, height as int, scroll_offset as int),
        r.0 <= r.1 <= total_lines,
{
    let max_scroll = total_lines.saturating_sub(height);
    let start = if auto_follow && scroll_offset == 0 {
        max_scroll
    } else {
        let actual_offset = if scroll_offset < max_scroll {
            scroll_offset
        } else {
            max_scroll
        };
        max_scroll - actual_offset
    };
    let end = if total_lines - start > height {
        start + height
    } else {
        total_lines
    };
    (start, end)
}

} // verus!
