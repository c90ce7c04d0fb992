//! The bounded log of manual moves that can be reversed.
use vstd::prelude::*;
use crate::text::text_eq;

verus! {

/// How many manual moves a log keeps.
pub const UNDO_CAPACITY: usize = 50;

/// A record sufficient to reverse one manually triggered move.
#[derive(Debug, Clone)]
pub struct UndoAction {
    /// Unique id, made from the time and a random number.
    pub id: String,
    /// The name of the file before it was moved.
    pub file_name: String,
    /// Where the file was.
    pub original_path: String,
    /// Where the file was moved to.
    pub moved_to_path: String,
    /// The category it was filed under.
    pub category: String,
    /// When it was moved, as shown to the user.
    pub timestamp: String,
    /// The watched folder the move happened in.
    pub downloads_path: String,
    /// `manual` or `monitoring`.
    pub source: String,
}

/// Why an undo did not happen.
#[derive(Debug, Clone, Copy, PartialEq, Eq, Structural)]
pub enum UndoError {
    /// No action in the log has the id.
    NotFound,
    /// The moved file is no longer where it was moved to.
    TargetGone,
    /// Something now stands at the file's original path.
    OriginalOccupied,
}

/// A copy of `a`, field by field.
pub fn copy_action(a: &UndoAction) -> (r: UndoAction)
    ensures
        r == *a,
{
    UndoAction {
        id: a.id.clone(),
        file_name: a.file_name.clone(),
        original_path: a.original_path.clone(),
        moved_to_path: a.moved_to_path.clone(),
        category: a.category.clone(),
        timestamp: a.timestamp.clone(),
        downloads_path: a.downloads_path.clone(),
        source: a.source.clone(),
    }
}

/// The log after `a` is added: the oldest entry leaves first when the log is full.
pub open spec fn log_after_add(log: Seq<UndoAction>, max_size: nat, a: UndoAction) -> Seq<UndoAction> {
    if log.len() >= max_size && log.len() > 0 {
        log.drop_first().push(a)
    } else {
        log.push(a)
    }
}

/// Up to `count` most recent entries of `log`, most recent first.
pub open spec fn latest(log: Seq<UndoAction>, count: nat) -> Seq<UndoAction> {
    let n = if count < log.len() { count } else { log.len() };
    Seq::new(n, |i: int| log[log.len() - 1 - i])
}

/// Position of the first entry of `log` with id `id`, or -1.
pub open spec fn first_with_id(log: Seq<UndoAction>, id: Seq<char>) -> int
    decreases log.len(),
{
    if log.len() == 0 {
        -1
    } else if log[0].id@ == id {
        0
    } else {
        let r = first_with_id(log.drop_first(), id);
        if r < 0 {
            -1
        } else {
            r + 1
        }
    }
}

/// The ids of `log` are pairwise distinct.
pub open spec fn ids_distinct(log: Seq<UndoAction>) -> bool {
    forall|i: int, j: int| 0 <= i < log.len() && 0 <= j < log.len() && i != j ==> #[trigger] log[i].id@ != #[trigger] log[j].id@
}

/// Some entry of `log` has id `id`.
pub open spec fn has_id(log: Seq<UndoAction>, id: Seq<char>) -> bool {
    exists|i: int| 0 <= i < log.len() && #[trigger] log[i].id@ == id
}

/// A bounded, insertion-ordered log of undoable actions.
#[derive(Debug, Clone)]
pub struct UndoHistory {
    actions: Vec<UndoAction>,
    max_size: usize,
}

impl UndoHistory {
    /// The entries, oldest first.
    pub closed spec fn actions(&self) -> Seq<UndoAction> {
        self.actions@
    }

    /// The capacity the log was made with.
    pub closed spec fn max_size(&self) -> nat {
        self.max_size as nat
    }

    /// The log holds no more than its capacity (and at least room for one entry),
    /// and no two of its records share an id.
    pub open spec fn wf(&self) -> bool {
        &&& self.actions().len() <= if self.max_size() > 0 { self.max_size() } else { 1 }
        &&& ids_distinct(self.actions())
    }

    /// An empty log that keeps at most `max_size` entries.
    pub fn new(max_size: usize) -> (r: Self)
        ensures
            r.wf(),
            r.actions() == Seq::<UndoAction>::empty(),
            r.max_size() == max_size,
    {
        UndoHistory { actions: Vec::new(), max_size }
    }

    /// Appends `action`; when the log is full, the oldest entry is dropped first.
    pub fn add_action(&mut self, action: UndoAction)
        requires
            old(self).wf(),
            !has_id(old(self).actions(), action.id@),
        ensures
            final(self).wf(),
            final(self).max_size() == old(self).max_size(),
            final(self).actions() == log_after_add(old(self).actions(), old(self).max_size(), action),
    {
        if self.actions.len() >= self.max_size && self.actions.len() > 0 {
            let _oldest = self.actions.remove(0);
        }
        self.actions.push(action);
        proof {
            assert(self.actions@ =~= log_after_add(old(self).actions(), old(self).max_size(), action));
            lemma_add_keeps_ids_distinct(old(self).actions(), old(self).max_size(), action);
        }
    }

    /// Up to `count` most recent entries, most recent first; the log is left as it is.
    pub fn get_latest_actions(&self, count: usize) -> (r: Vec<UndoAction>)
        ensures
            r@ == latest(self.actions(), count as nat),
    {
        let n = self.actions.len();
        let mut r: Vec<UndoAction> = Vec::new();
        let mut i: usize = 0;
        while i < count && i < n
            invariant
                n == self.actions@.len(),
                i <= n,
                i <= count,
                r@.len() == i,
                forall|j: int| 0 <= j < i ==> #[trigger] r@[j] == self.actions@[n - 1 - j],
            decreases n - i,
        {
            r.push(copy_action(&self.actions[n - 1 - i]));
            i = i + 1;
        }
        proof {
            assert(r@ =~= latest(self.actions(), count as nat));
        }
        r
    }

    /// The position of the first entry with id `action_id`, if any.
    fn position(&self, action_id: &str) -> (r: Option<usize>)
        ensures
            match r {
                Some(i) => i as int == first_with_id(self.actions(), action_id@),
                None => first_with_id(self.actions(), action_id@) == -1,
            },
    {
        proof {
            assert(self.actions@.skip(0) =~= self.actions@);
            lemma_first_with_id_bounds(self.actions@, action_id@);
        }
        let mut i: usize = 0;
        while i < self.actions.len()
            invariant
                i <= self.actions@.len(),
                first_with_id(self.actions@, action_id@) == if first_with_id(self.actions@.skip(i as int), action_id@) < 0 {
                    -1
                } else {
                    first_with_id(self.actions@.skip(i as int), action_id@) + i
                },
            decreases self.actions@.len() - i,
        {
            let ghost rest = self.actions@.skip(i as int);
            assert(rest.drop_first() =~= self.actions@.skip(i + 1));
            if text_eq(self.actions[i].id.as_str(), action_id) {
                return Some(i);
            }
            i = i + 1;
        }
        proof {
            assert(self.actions@.skip(i as int).len() == 0);
        }
        None
    }

    /// Removes and returns the first entry with id `action_id`, or returns none and
    /// leaves the log as it is.
    pub fn remove_action(&mut self, action_id: &str) -> (r: Option<UndoAction>)
        requires
            old(self).wf(),
        ensures
            final(self).wf(),
            final(self).max_size() == old(self).max_size(),
            ({
                let i = first_with_id(old(self).actions(), action_id@);
                match r {
                    Some(a) => 0 <= i < old(self).actions().len() && a == old(self).actions()[i]
                        && final(self).actions() == old(self).actions().remove(i),
                    None => i == -1 && final(self).actions() == old(self).actions(),
                }
            }),
            !has_id(final(self).actions(), action_id@),
    {
        proof {
            assert(self.actions@.skip(0) =~= self.actions@);
            lemma_first_with_id_bounds(self.actions@, action_id@);
        }
        match self.position(action_id) {
            Some(i) => {
                let a = self.actions.remove(i);
                proof {
                    lemma_remove_keeps_ids_distinct(old(self).actions(), i as int);
                }
                Some(a)
            },
            None => None,
        }
    }

    /// Empties the log.
    pub fn clear(&mut self)
        requires
            old(self).wf(),
        ensures
            final(self).wf(),
            final(self).max_size() == old(self).max_size(),
            final(self).actions() == Seq::<UndoAction>::empty(),
    {
        self.actions.clear();
    }

    /// Whether the log holds no entry.
    pub fn is_empty(&self) -> (r: bool)
        ensures
            r == (self.actions().len() == 0),
    {
        self.actions.len() == 0
    }

    /// The number of entries.
    pub fn len(&self) -> (r: usize)
        ensures
            r == self.actions().len(),
    {
        self.actions.len()
    }

    /// The first entry with id `action_id`, left in the log.
    pub fn find_action(&self, action_id: &str) -> (r: Option<UndoAction>)
        ensures
            ({
                let i = first_with_id(self.actions(), action_id@);
                match r {
                    Some(a) => 0 <= i < self.actions().len() && a == self.actions()[i],
                    None => i == -1,
                }
            }),
    {
        proof {
            assert(self.actions@.skip(0) =~= self.actions@);
            lemma_first_with_id_bounds(self.actions@, action_id@);
        }
        match self.position(action_id) {
            Some(i) => Some(copy_action(&self.actions[i])),
            None => None,
        }
    }
}

/// What `first_with_id` finds is an entry with that id, and -1 means there is none.
pub proof fn lemma_first_with_id_bounds(log: Seq<UndoAction>, id: Seq<char>)
    ensures
        -1 <= first_with_id(log, id) < log.len(),
        first_with_id(log, id) >= 0 ==> log[first_with_id(log, id)].id@ == id,
        first_with_id(log, id) == -1 <==> !has_id(log, id),
    decreases log.len(),
{
    if log.len() > 0 {
        let t = log.drop_first();
        lemma_first_with_id_bounds(t, id);
        if log[0].id@ != id {
            if has_id(log, id) {
                let i = choose|i: int| 0 <= i < log.len() && #[trigger] log[i].id@ == id;
                assert(t[i - 1].id@ == id);
            }
            if has_id(t, id) {
                let i = choose|i: int| 0 <= i < t.len() && #[trigger] t[i].id@ == id;
                assert(log[i + 1].id@ == id);
            }
        } else {
            assert(has_id(log, id));
        }
    }
}

/// Adding a record whose id is new keeps the ids of a log distinct.
pub proof fn lemma_add_keeps_ids_distinct(log: Seq<UndoAction>, max_size: nat, a: UndoAction)
    requires
        ids_distinct(log),
        !has_id(log, a.id@),
    ensures
        ids_distinct(log_after_add(log, max_size, a)),
        has_id(log_after_add(log, max_size, a), a.id@),
{
    let kept = if log.len() >= max_size && log.len() > 0 { log.drop_first() } else { log };
    let added = log_after_add(log, max_size, a);
    let off: int = if log.len() >= max_size && log.len() > 0 { 1 } else { 0 };
    assert(added == kept.push(a));
    assert forall|j: int| 0 <= j < kept.len() implies #[trigger] kept[j] == log[j + off] by {}
    assert forall|i: int, j: int| 0 <= i < added.len() && 0 <= j < added.len() && i != j
        implies #[trigger] added[i].id@ != #[trigger] added[j].id@ by {
        if i < kept.len() && j < kept.len() {
            assert(log[i + off].id@ != log[j + off].id@);
        } else if i < kept.len() {
            assert(added[i] == log[i + off]);
        } else {
            assert(added[j] == log[j + off]);
        }
    }
    assert(added[added.len() - 1] == a);
}

/// Removing a record from a log with distinct ids keeps them distinct, and leaves no
/// record with the removed one's id.
pub proof fn lemma_remove_keeps_ids_distinct(log: Seq<UndoAction>, i: int)
    requires
        ids_distinct(log),
        0 <= i < log.len(),
    ensures
        ids_distinct(log.remove(i)),
        !has_id(log.remove(i), log[i].id@),
{
    let rest = log.remove(i);
    assert forall|a: int, b: int| 0 <= a < rest.len() && 0 <= b < rest.len() && a != b
        implies #[trigger] rest[a].id@ != #[trigger] rest[b].id@ by {
        let a2 = if a < i { a } else { a + 1 };
        let b2 = if b < i { b } else { b + 1 };
        assert(rest[a] == log[a2]);
        assert(rest[b] == log[b2]);
    }
    assert forall|j: int| 0 <= j < rest.len() implies #[trigger] rest[j].id@ != log[i].id@ by {
        let j2 = if j < i { j } else { j + 1 };
        assert(rest[j] == log[j2]);
    }
}

/// Undoing a recorded move works exactly once: right after `a` is added to a log
/// that holds no other entry with its id, looking `a.id` up removes and yields `a`,
/// and afterwards the id is unknown to the log.
pub proof fn lemma_undo_consumes_entry(log: Seq<UndoAction>, max_size: nat, a: UndoAction)
    requires
        !has_id(log, a.id@),
    ensures
        ({
            let added = log_after_add(log, max_size, a);
            let i = first_with_id(added, a.id@);
            &&& 0 <= i < added.len()
            &&& added[i] == a
            &&& !has_id(added.remove(i), a.id@)
            &&& first_with_id(added.remove(i), a.id@) == -1
        }),
{
    let added = log_after_add(log, max_size, a);
    let n = added.len() as int;
    assert(added[n - 1] == a);
    assert forall|j: int| 0 <= j < n - 1 implies #[trigger] added[j].id@ != a.id@ by {
        if log.len() >= max_size && log.len() > 0 {
            assert(added[j] == log[j + 1]);
        } else {
            assert(added[j] == log[j]);
        }
    }
    lemma_first_with_id_bounds(added, a.id@);
    assert(has_id(added, a.id@));
    let i = first_with_id(added, a.id@);
    assert(i == n - 1);
    let rest = added.remove(i);
    assert forall|j: int| 0 <= j < rest.len() implies #[trigger] rest[j].id@ != a.id@ by {
        assert(rest[j] == added[j]);
    }
    lemma_first_with_id_bounds(rest, a.id@);
}

/// Adding to a full log of `UNDO_CAPACITY` entries evicts exactly the oldest entry:
/// the log keeps its size, holds the other entries in order followed by the new one,
/// and no entry among the latest `UNDO_CAPACITY` has the evicted entry's id.
pub proof fn lemma_full_log_evicts_oldest(log: Seq<UndoAction>, a: UndoAction)
    requires
        log.len() == UNDO_CAPACITY,
        ids_distinct(log),
        !has_id(log, a.id@),
    ensures
        ({
            let added = log_after_add(log, UNDO_CAPACITY as nat, a);
            &&& added.len() == UNDO_CAPACITY
            &&& added == log.drop_first().push(a)
            &&& forall|i: int| 0 <= i < latest(added, UNDO_CAPACITY as nat).len()
                ==> #[trigger] latest(added, UNDO_CAPACITY as nat)[i].id@ != log[0].id@
        }),
{
    let added = log_after_add(log, UNDO_CAPACITY as nat, a);
    let all = log.push(a);
    let l = latest(added, UNDO_CAPACITY as nat);
    lemma_add_keeps_ids_distinct(log, (log.len() + 1) as nat, a);
    assert(log_after_add(log, (log.len() + 1) as nat, a) == all);
    assert forall|i: int| 0 <= i < l.len() implies #[trigger] l[i].id@ != log[0].id@ by {
        let j = added.len() - 1 - i;
        assert(l[i] == added[j]);
        assert(added[j] == all[j + 1]);
        assert(all[0] == log[0]);
        assert(all[j + 1].id@ != all[0].id@);
    }
}

} // verus!
