//! Logical positions and selections inside a log buffer.
//!
//! A position addresses one display cell of one log line; a selection is an
//! unordered pair of positions recorded in drag order.

use vstd::prelude::*;

verus! {

/// A position in the log pane: line index and display-column index.
#[derive(Debug, Clone, Copy, PartialEq, Eq, Structural)]
pub struct LogPosition {
    pub line: usize,
    pub col: usize,
}

/// Ordering of log positions: first by line, then by column.
pub open spec fn pos_le(a: LogPosition, b: LogPosition) -> bool {
    a.line < b.line || (a.line == b.line && a.col <= b.col)
}

impl LogPosition {
    pub fn new(line: usize, col: usize) -> (r: Self)
        ensures
            r == (LogPosition { line, col }),
    {
        Self { line, col }
    }
}

/// Text selection state in the log pane, kept in drag order: `start` is where
/// the mouse went down, `end` is where it was dragged to.
#[derive(Debug, Clone, Copy, PartialEq, Eq, Structural)]
pub struct LogSelection {
    pub start: LogPosition,
    pub end: LogPosition,
}

/// The endpoints of a selection ordered by position: the earlier endpoint
/// first, ties (equal line and column order) keeping the drag order.
pub open spec fn normalized_spec(s: LogSelection) -> (LogPosition, LogPosition) {
    if pos_le(s.start, s.end) {
        (s.start, s.end)
    } else {
        (s.end, s.start)
    }
}

impl LogSelection {
    pub fn new(start: LogPosition, end: LogPosition) -> (r: Self)
        ensures
            r == (LogSelection { start, end }),
    {
        Self { start, end }
    }

    /// Returns the selection endpoints in normalized order (start before end),
    /// without mutating the stored raw pair.
    pub fn normalized(&self) -> (r: (LogPosition, LogPosition))
        ensures
            r == normalized_spec(*self),
            pos_le(r.0, r.1),
    {
        if self.start.line < self.end.line
            || (self.start.line == self.end.line && self.start.col <= self.end.col)
        {
            (self.start, self.end)
        } else {
            (self.end, self.start)
        }
    }
}

/// A column clamped to the end of a line.
pub open spec fn clamp_col(col: int, len: int) -> int {
    if col <= len {
        col
    } else {
        len
    }
}

/// The part of line `i` covered by a normalized selection `start..end`:
/// the single covered range where both endpoints sit on this line, the tail
/// from the start column on the first line, the head up to the end column on
/// the last line, and the whole line in between. Columns are clamped to the
/// line.
pub open spec fn line_piece(lines: Seq<Seq<char>>, i: int, start: LogPosition, end: LogPosition) -> Seq<
    char,
>
    recommends
        0 <= i < lines.len(),
{
    let line = lines[i];
    if i == start.line && i == end.line {
        let ec = clamp_col(end.col as int, line.len() as int);
        let sc = clamp_col(start.col as int, ec);
        line.subrange(sc, ec)
    } else if i == start.line {
        line.subrange(clamp_col(start.col as int, line.len() as int), line.len() as int)
    } else if i == end.line {
        line.subrange(0, clamp_col(end.col as int, line.len() as int))
    } else {
        line
    }
}

/// The pieces of lines `start.line ..= k`, joined by newlines.
pub open spec fn extract_upto(
    lines: Seq<Seq<char>>,
    start: LogPosition,
    end: LogPosition,
    k: int,
) -> Seq<char>
    recommends
        start.line <= k < lines.len(),
    decreases k,
{
    if k <= start.line {
        line_piece(lines, start.line as int, start, end)
    } else {
        extract_upto(lines, start, end, k - 1) + seq!['\n'] + line_piece(lines, k, start, end)
    }
}

/// The text a normalized selection covers: a single clamped range on one
/// line, or first-line tail, full middle lines and last-line head joined by
/// newlines, where lines past the end of the buffer contribute nothing.
pub open spec fn extract_spec(lines: Seq<Seq<char>>, start: LogPosition, end: LogPosition) -> Seq<
    char,
>
    recommends
        pos_le(start, end),
        start.line < lines.len(),
{
    if start.line == end.line {
        line_piece(lines, start.line as int, start, end)
    } else {
        let last = if end.line < lines.len() {
            end.line as int
        } else {
            lines.len() - 1
        };
        extract_upto(lines, start, end, last)
    }
}

/// Extracts the text covered by a normalized selection from a log buffer.
///
/// Columns count characters, so the cut can never split a multi-byte
/// character.
pub fn extract_selection(lines: &Vec<String>, start: LogPosition, end: LogPosition) -> (r: String)
    requires
        pos_le(start, end),
        start.line < lines@.len(),
    ensures
        r@ == extract_spec(lines.deep_view(), start, end),
{
    let ghost lv = lines.deep_view();
    let mut r = String::new();
    if start.line == end.line {
        let line = &lines[start.line];
        let n = line.as_str().unicode_len();
        let ec = if end.col < n {
            end.col
        } else {
            n
        };
        let sc = if start.col < ec {
            start.col
        } else {
            ec
        };
        let piece = line.as_str().substring_char(sc, ec);
        r.append(piece);
        proof {
            assert(r@ =~= extract_spec(lv, start, end));
        }
    } else {
        let len = lines.len();
        let last = if end.line < len {
            end.line
        } else {
            len - 1
        };
        let line = &lines[start.line];
        let n = line.as_str().unicode_len();
        let sc = if start.col < n {
            start.col
        } else {
            n
        };
        let piece = line.as_str().substring_char(sc, n);
        r.append(piece);
        proof {
            assert(r@ =~= extract_upto(lv, start, end, start.line as int));
        }
        let mut i = start.line + 1;
        while i <= last
            invariant
                start.line < end.line,
                start.line < lv.len(),
                last < lv.len(),
                lv.len() == lines@.len(),
                last < usize::MAX,
                start.line <= last,
                last == (if end.line < lv.len() {
                    end.line as int
                } else {
                    lv.len() - 1
                }),
                start.line + 1 <= i <= last + 1,
                lv == lines.deep_view(),
                r@ == extract_upto(lv, start, end, i - 1),
            decreases last + 1 - i,
        {
            r.append("\n");
            let line = &lines[i];
            let n = line.as_str().unicode_len();
            if i == end.line {
                let ec = if end.col < n {
                    end.col
                } else {
                    n
                };
                let piece = line.as_str().substring_char(0, ec);
                r.append(piece);
            } else {
                r.append(line.as_str());
            }
            proof {
                reveal_strlit("\n");
                assert("\n"@ =~= seq!['\n']);
                assert(r@ =~= extract_upto(lv, start, end, i as int));
            }
            i += 1;
        }
        proof {
            assert(r@ =~= extract_spec(lv, start, end));
        }
    }
    r
}

} // verus!
