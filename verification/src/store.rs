//! Keyed stores: per-task log buffers and per-task selections.
//!
//! Each store is an association list with distinct keys, viewed as a map from
//! task id to its contents.

use vstd::prelude::*;

use crate::position::LogSelection;

verus! {

/// One task's log buffer.
#[derive(Debug)]
pub struct LogEntry {
    pub id: usize,
    pub lines: Vec<String>,
}

spec fn log_ids_distinct(s: Seq<LogEntry>) -> bool {
    forall|i: int, j: int| 0 <= i < j < s.len() ==> s[i].id != s[j].id
}

spec fn log_entries_map(s: Seq<LogEntry>) -> Map<usize, Seq<String>>
    decreases s.len(),
{
    if s.len() == 0 {
        Map::empty()
    } else {
        log_entries_map(s.drop_last()).insert(s.last().id, s.last().lines@)
    }
}

proof fn lemma_log_map_contains(s: Seq<LogEntry>, k: usize)
    ensures
        log_entries_map(s).dom().contains(k) <==> exists|i: int|
            0 <= i < s.len() && s[i].id == k,
    decreases s.len(),
{
    if s.len() > 0 {
        lemma_log_map_contains(s.drop_last(), k);
        if log_entries_map(s).dom().contains(k) {
            if s.last().id == k {
                assert(s[s.len() - 1].id == k);
            } else {
                let i = choose|i: int| 0 <= i < s.drop_last().len() && s.drop_last()[i].id == k;
                assert(s[i].id == k);
            }
        }
        if exists|i: int| 0 <= i < s.len() && s[i].id == k {
            let i = choose|i: int| 0 <= i < s.len() && s[i].id == k;
            if i < s.len() - 1 {
                assert(s.drop_last()[i].id == k);
            }
        }
    }
}

proof fn lemma_log_map_value(s: Seq<LogEntry>, j: int)
    requires
        log_ids_distinct(s),
        0 <= j < s.len(),
    ensures
        log_entries_map(s).dom().contains(s[j].id),
        log_entries_map(s)[s[j].id] == s[j].lines@,
    decreases s.len(),
{
    if j == s.len() - 1 {
    } else {
        assert(log_ids_distinct(s.drop_last()));
        assert(s.drop_last()[j] == s[j]);
        lemma_log_map_value(s.drop_last(), j);
        assert(s.last().id != s[j].id);
    }
}

proof fn lemma_log_map_update(s: Seq<LogEntry>, j: int, e: LogEntry)
    requires
        log_ids_distinct(s),
        0 <= j < s.len(),
        s[j].id == e.id,
    ensures
        log_entries_map(s.update(j, e)) == log_entries_map(s).insert(e.id, e.lines@),
    decreases s.len(),
{
    let t = s.update(j, e);
    if j == s.len() - 1 {
        assert(t.drop_last() =~= s.drop_last());
        assert(t.last() == e);
        assert(log_entries_map(t) =~= log_entries_map(s).insert(e.id, e.lines@));
    } else {
        assert(log_ids_distinct(s.drop_last()));
        assert(s.drop_last()[j] == s[j]);
        lemma_log_map_update(s.drop_last(), j, e);
        assert(t.drop_last() =~= s.drop_last().update(j, e));
        assert(t.last() == s.last());
        assert(s.last().id != e.id);
        assert(log_entries_map(t) =~= log_entries_map(s).insert(e.id, e.lines@));
    }
}

/// The lines stored under a task id: its buffer, or the empty buffer where
/// none was created yet.
pub open spec fn lines_of(m: Map<usize, Seq<String>>, id: usize) -> Seq<String> {
    if m.dom().contains(id) {
        m[id]
    } else {
        Seq::empty()
    }
}

fn find_log_idx(entries: &Vec<LogEntry>, id: usize) -> (r: Option<usize>)
    ensures
        match r {
            Some(j) => j < entries@.len() && entries@[j as int].id == id,
            None => forall|i: int| 0 <= i < entries@.len() ==> entries@[i].id != id,
        },
{
    let mut i: usize = 0;
    while i < entries.len()
        invariant
            i <= entries@.len(),
            forall|k: int| 0 <= k < i ==> entries@[k].id != id,
        decreases entries@.len() - i,
    {
        if entries[i].id == id {
            return Some(i);
        }
        i += 1;
    }
    None
}

/// Per-task log buffers, keyed by task id.
#[derive(Debug)]
pub struct LogStore {
    entries: Vec<LogEntry>,
}

impl View for LogStore {
    type V = Map<usize, Seq<String>>;

    closed spec fn view(&self) -> Map<usize, Seq<String>> {
        log_entries_map(self.entries@)
    }
}

impl LogStore {
    #[verifier::type_invariant]
    spec fn wf(self) -> bool {
        log_ids_distinct(self.entries@)
    }

    /// An empty store.
    pub fn new() -> (r: Self)
        ensures
            r@ == Map::<usize, Seq<String>>::empty(),
    {
        let entries: Vec<LogEntry> = Vec::new();
        proof {
            assert(log_entries_map(entries@) =~= Map::<usize, Seq<String>>::empty());
        }
        LogStore { entries }
    }

    /// The buffer of one task, where one exists.
    pub fn get(&self, id: usize) -> (r: Option<&Vec<String>>)
        ensures
            match r {
                Some(v) => self@.dom().contains(id) && v@ == self@[id],
                None => !self@.dom().contains(id),
            },
    {
        proof {
            use_type_invariant(&*self);
            lemma_log_map_contains(self.entries@, id);
        }
        match find_log_idx(&self.entries, id) {
            Some(j) => {
                proof {
                    lemma_log_map_value(self.entries@, j as int);
                }
                Some(&self.entries[j].lines)
            },
            None => None,
        }
    }

    /// Appends one line to the buffer of the given task, creating the buffer
    /// where it does not exist yet.
    pub fn push_line(&mut self, id: usize, line: String)
        ensures
            final(self)@ == old(self)@.insert(id, lines_of(old(self)@, id).push(line)),
    {
        proof {
            use_type_invariant(&*self);
        }
        let mut entries: Vec<LogEntry> = Vec::new();
        core::mem::swap(&mut entries, &mut self.entries);
        let ghost s0 = entries@;
        match find_log_idx(&entries, id) {
            Some(j) => {
                let entry = entries.remove(j);
                let mut lines = entry.lines;
                lines.push(line);
                entries.insert(j, LogEntry { id, lines });
                proof {
                    assert(entries@ =~= s0.update(j as int, entries@[j as int]));
                    lemma_log_map_value(s0, j as int);
                    lemma_log_map_update(s0, j as int, entries@[j as int]);
                    assert(forall|i: int|
                        0 <= i < entries@.len() ==> entries@[i].id == s0[i].id);
                    assert(log_ids_distinct(entries@));
                }
            },
            None => {
                let mut lines: Vec<String> = Vec::new();
                lines.push(line);
                entries.push(LogEntry { id, lines });
                proof {
                    lemma_log_map_contains(s0, id);
                    assert(entries@.drop_last() =~= s0);
                    assert(lines_of(log_entries_map(s0), id).push(line) =~= entries@.last().lines@);
                    assert(log_ids_distinct(entries@));
                }
            },
        }
        self.entries = entries;
    }

    /// Empties the store: afterwards no task has a buffer.
    pub fn clear(&mut self)
        ensures
            final(self)@ == Map::<usize, Seq<String>>::empty(),
    {
        self.entries = Vec::new();
        proof {
            assert(log_entries_map(self.entries@) =~= Map::<usize, Seq<String>>::empty());
        }
    }
}

/// One task's recorded selection.
#[derive(Debug, Clone, Copy)]
pub struct SelectionEntry {
    pub id: usize,
    pub sel: LogSelection,
}

spec fn sel_ids_distinct(s: Seq<SelectionEntry>) -> bool {
    forall|i: int, j: int| 0 <= i < j < s.len() ==> s[i].id != s[j].id
}

spec fn sel_entries_map(s: Seq<SelectionEntry>) -> Map<usize, LogSelection>
    decreases s.len(),
{
    if s.len() == 0 {
        Map::empty()
    } else {
        sel_entries_map(s.drop_last()).insert(s.last().id, s.last().sel)
    }
}

proof fn lemma_sel_map_contains(s: Seq<SelectionEntry>, k: usize)
    ensures
        sel_entries_map(s).dom().contains(k) <==> exists|i: int|
            0 <= i < s.len() && s[i].id == k,
    decreases s.len(),
{
    if s.len() > 0 {
        lemma_sel_map_contains(s.drop_last(), k);
        if sel_entries_map(s).dom().contains(k) {
            if s.last().id == k {
                assert(s[s.len() - 1].id == k);
            } else {
                let i = choose|i: int| 0 <= i < s.drop_last().len() && s.drop_last()[i].id == k;
                assert(s[i].id == k);
            }
        }
        if exists|i: int| 0 <= i < s.len() && s[i].id == k {
            let i = choose|i: int| 0 <= i < s.len() && s[i].id == k;
            if i < s.len() - 1 {
                assert(s.drop_last()[i].id == k);
            }
        }
    }
}

proof fn lemma_sel_map_value(s: Seq<SelectionEntry>, j: int)
    requires
        sel_ids_distinct(s),
        0 <= j < s.len(),
    ensures
        sel_entries_map(s).dom().contains(s[j].id),
        sel_entries_map(s)[s[j].id] == s[j].sel,
    decreases s.len(),
{
    if j == s.len() - 1 {
    } else {
        assert(sel_ids_distinct(s.drop_last()));
        assert(s.drop_last()[j] == s[j]);
        lemma_sel_map_value(s.drop_last(), j);
        assert(s.last().id != s[j].id);
    }
}

proof fn lemma_sel_map_update(s: Seq<SelectionEntry>, j: int, e: SelectionEntry)
    requires
        sel_ids_distinct(s),
        0 <= j < s.len(),
        s[j].id == e.id,
    ensures
        sel_entries_map(s.update(j, e)) == sel_entries_map(s).insert(e.id, e.sel),
    decreases s.len(),
{
    let t = s.update(j, e);
    if j == s.len() - 1 {
        assert(t.drop_last() =~= s.drop_last());
        assert(t.last() == e);
        assert(sel_entries_map(t) =~= sel_entries_map(s).insert(e.id, e.sel));
    } else {
        assert(sel_ids_distinct(s.drop_last()));
        assert(s.drop_last()[j] == s[j]);
        lemma_sel_map_update(s.drop_last(), j, e);
        assert(t.drop_last() =~= s.drop_last().update(j, e));
        assert(t.last() == s.last());
        assert(s.last().id != e.id);
        assert(sel_entries_map(t) =~= sel_entries_map(s).insert(e.id, e.sel));
    }
}

proof fn lemma_sel_map_remove(s: Seq<SelectionEntry>, j: int)
    requires
        sel_ids_distinct(s),
        0 <= j < s.len(),
    ensures
        sel_entries_map(s.remove(j)) == sel_entries_map(s).remove(s[j].id),
    decreases s.len(),
{
    let k = s[j].id;
    let t = s.remove(j);
    if j == s.len() - 1 {
        assert(t =~= s.drop_last());
        lemma_sel_map_contains(s.drop_last(), k);
        assert(forall|i: int| 0 <= i < s.drop_last().len() ==> s.drop_last()[i].id != k);
        assert(sel_entries_map(t) =~= sel_entries_map(s).remove(k));
    } else {
        assert(sel_ids_distinct(s.drop_last()));
        assert(s.drop_last()[j] == s[j]);
        lemma_sel_map_remove(s.drop_last(), j);
        assert(t.drop_last() =~= s.drop_last().remove(j));
        assert(t.last() == s.last());
        assert(s.last().id != k);
        assert(sel_entries_map(t) =~= sel_entries_map(s).remove(k));
    }
}

fn find_sel_idx(entries: &Vec<SelectionEntry>, id: usize) -> (r: Option<usize>)
    ensures
        match r {
            Some(j) => j < entries@.len() && entries@[j as int].id == id,
            None => forall|i: int| 0 <= i < entries@.len() ==> entries@[i].id != id,
        },
{
    let mut i: usize = 0;
    while i < entries.len()
        invariant
            i <= entries@.len(),
            forall|k: int| 0 <= k < i ==> entries@[k].id != id,
        decreases entries@.len() - i,
    {
        if entries[i].id == id {
            return Some(i);
        }
        i += 1;
    }
    None
}

/// Per-task text selections, keyed by task id.
#[derive(Debug)]
pub struct SelectionStore {
    entries: Vec<SelectionEntry>,
}

impl View for SelectionStore {
    type V = Map<usize, LogSelection>;

    closed spec fn view(&self) -> Map<usize, LogSelection> {
        sel_entries_map(self.entries@)
    }
}

impl SelectionStore {
    #[verifier::type_invariant]
    spec fn wf(self) -> bool {
        sel_ids_distinct(self.entries@)
    }

    /// An empty store.
    pub fn new() -> (r: Self)
        ensures
            r@ == Map::<usize, LogSelection>::empty(),
    {
        let entries: Vec<SelectionEntry> = Vec::new();
        proof {
            assert(sel_entries_map(entries@) =~= Map::<usize, LogSelection>::empty());
        }
        SelectionStore { entries }
    }

    /// The selection recorded for one task, where one exists.
    pub fn get(&self, id: usize) -> (r: Option<&LogSelection>)
        ensures
            match r {
                Some(v) => self@.dom().contains(id) && *v == self@[id],
                None => !self@.dom().contains(id),
            },
    {
        proof {
            use_type_invariant(&*self);
            lemma_sel_map_contains(self.entries@, id);
        }
        match find_sel_idx(&self.entries, id) {
            Some(j) => {
                proof {
                    lemma_sel_map_value(self.entries@, j as int);
                }
                Some(&self.entries[j].sel)
            },
            None => None,
        }
    }

    /// Records the selection for one task, replacing any earlier one.
    pub fn insert(&mut self, id: usize, sel: LogSelection)
        ensures
            final(self)@ == old(self)@.insert(id, sel),
    {
        proof {
            use_type_invariant(&*self);
        }
        let mut entries: Vec<SelectionEntry> = Vec::new();
        core::mem::swap(&mut entries, &mut self.entries);
        let ghost s0 = entries@;
        match find_sel_idx(&entries, id) {
            Some(j) => {
                entries.set(j, SelectionEntry { id, sel });
                proof {
                    lemma_sel_map_update(s0, j as int, SelectionEntry { id, sel });
                    assert(forall|i: int|
                        0 <= i < entries@.len() ==> entries@[i].id == s0[i].id);
                    assert(sel_ids_distinct(entries@));
                }
            },
            None => {
                entries.push(SelectionEntry { id, sel });
                proof {
                    assert(entries@.drop_last() =~= s0);
                    assert(sel_ids_distinct(entries@));
                }
            },
        }
        self.entries = entries;
    }

    /// Moves the end of the selection recorded for one task; where none is
    /// recorded, does nothing.
    pub fn set_end(&mut self, id: usize, end: crate::position::LogPosition)
        ensures
            old(self)@.dom().contains(id) ==> final(self)@ == old(self)@.insert(
                id,
                (LogSelection { start: old(self)@[id].start, end }),
            ),
            !old(self)@.dom().contains(id) ==> final(self)@ == old(self)@,
    {
        proof {
            use_type_invariant(&*self);
            lemma_sel_map_contains(self.entries@, id);
        }
        let mut entries: Vec<SelectionEntry> = Vec::new();
        core::mem::swap(&mut entries, &mut self.entries);
        let ghost s0 = entries@;
        match find_sel_idx(&entries, id) {
            Some(j) => {
                let e = entries[j];
                let updated = SelectionEntry { id, sel: LogSelection { start: e.sel.start, end } };
                entries.set(j, updated);
                proof {
                    lemma_sel_map_value(s0, j as int);
                    lemma_sel_map_update(s0, j as int, updated);
                    assert(forall|i: int|
                        0 <= i < entries@.len() ==> entries@[i].id == s0[i].id);
                    assert(sel_ids_distinct(entries@));
                }
            },
            None => {},
        }
        self.entries = entries;
    }

    /// Drops the selection recorded for one task, if any.
    pub fn remove(&mut self, id: usize)
        ensures
            final(self)@ == old(self)@.remove(id),
    {
        proof {
            use_type_invariant(&*self);
            lemma_sel_map_contains(self.entries@, id);
        }
        let mut entries: Vec<SelectionEntry> = Vec::new();
        core::mem::swap(&mut entries, &mut self.entries);
        let ghost s0 = entries@;
        match find_sel_idx(&entries, id) {
            Some(j) => {
                entries.remove(j);
                proof {
                    lemma_sel_map_remove(s0, j as int);
                    assert(forall|i: int, k: int|
                        0 <= i < k < entries@.len() ==> entries@[i].id != entries@[k].id);
                }
            },
            None => {
                proof {
                    assert(sel_entries_map(s0) =~= sel_entries_map(s0).remove(id));
                }
            },
        }
        self.entries = entries;
    }
}

} // verus!
