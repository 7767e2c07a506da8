//! Core logic of a terminal task launcher: session state for discovered
//! tasks, per-task log buffers with an execution history, a scrollable
//! auto-following viewport over a growing log, and mouse-driven text
//! selection with multi-line extraction.

pub mod input;
pub mod numfmt;
pub mod position;
pub mod run;
pub mod state;
pub mod store;
pub mod task;
pub mod viewport;

use vstd::prelude::*;

verus! {

} // verus!
