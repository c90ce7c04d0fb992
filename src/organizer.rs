//! One managed folder: its rules, its watch lifecycle, batch organisation and undo.
use vstd::prelude::*;
use crate::classifier::{classification, classify};
use crate::config::Config;
use crate::text::{decimal, decimal_string, is_prefix, starts_with};
use crate::undo::{
    first_with_id, has_id, latest, lemma_add_keeps_ids_distinct, lemma_first_with_id_bounds, log_after_add, UndoAction,
    UndoError, UndoHistory, UNDO_CAPACITY,
};

verus! {

/// The lifecycle of a folder watch.
#[derive(Debug, Clone, Copy, PartialEq, Eq, Structural)]
pub enum SessionState {
    /// No worker runs.
    Idle,
    /// A worker watches the folder.
    Watching,
    /// The worker was asked to stop and has not exited yet.
    Stopping,
}

/// The category a directory entry is filed under by a batch run: none for folders and
/// dotfiles, else its classification.
pub open spec fn batch_category(cats: Seq<(String, Vec<String>)>, name: Seq<char>, is_dir: bool) -> Option<Seq<char>> {
    if is_dir || is_prefix("."@, name) {
        None
    } else {
        classification(cats, name)
    }
}

/// The id of an undo record made at `millis` with the random number `nonce`: `millis-nonce`.
pub open spec fn action_id_of(millis: u64, nonce: u32) -> Seq<char> {
    decimal(millis as nat) + seq!['-'] + decimal(nonce as nat)
}

/// The id of an undo record made at `millis` milliseconds with the random number `nonce`.
pub fn make_action_id(millis: u64, nonce: u32) -> (r: String)
    ensures
        r@ == action_id_of(millis, nonce),
{
    proof {
        reveal_strlit("-");
    }
    let mut r = decimal_string(millis);
    r.append("-");
    let n = decimal_string(nonce as u64);
    r.append(n.as_str());
    r
}

/// The entries of a folder listing, given as name and whether it is a folder, that a
/// batch run moves, in listing order, each with its position in the listing and its category.
pub fn select_for_organizing(entries: &Vec<(String, bool)>, categories: &Vec<(String, Vec<String>)>) -> (r: Vec<(usize, String)>)
    ensures
        forall|k: int|
            0 <= k < r@.len() ==> {
                let i = #[trigger] r@[k].0;
                &&& i < entries@.len()
                &&& batch_category(categories@, entries@[i as int].0@, entries@[i as int].1) == Some(r@[k].1@)
            },
        forall|k1: int, k2: int| 0 <= k1 < k2 < r@.len() ==> #[trigger] r@[k1].0 < #[trigger] r@[k2].0,
        forall|i: int|
            0 <= i < entries@.len() && (#[trigger] batch_category(categories@, entries@[i].0@, entries@[i].1)) is Some
                ==> exists|k: int| 0 <= k < r@.len() && r@[k].0 == i,
{
    let mut r: Vec<(usize, String)> = Vec::new();
    let mut i: usize = 0;
    while i < entries.len()
        invariant
            i <= entries@.len(),
            forall|k: int|
                0 <= k < r@.len() ==> {
                    let j = #[trigger] r@[k].0;
                    &&& j < i
                    &&& batch_category(categories@, entries@[j as int].0@, entries@[j as int].1) == Some(r@[k].1@)
                },
            forall|k1: int, k2: int| 0 <= k1 < k2 < r@.len() ==> #[trigger] r@[k1].0 < #[trigger] r@[k2].0,
            forall|j: int|
                0 <= j < i && (#[trigger] batch_category(categories@, entries@[j].0@, entries@[j].1)) is Some
                    ==> exists|k: int| 0 <= k < r@.len() && r@[k].0 == j,
        decreases entries@.len() - i,
    {
        let name = entries[i].0.as_str();
        let is_dir = entries[i].1;
        if !is_dir && !starts_with(name, ".") {
            match classify(name, categories) {
                Some(c) => {
                    let ghost before = r@;
                    r.push((i, c));
                    proof {
                        assert(r@[before.len() as int].0 == i);
                        assert forall|j: int|
                            0 <= j < i + 1 && (#[trigger] batch_category(categories@, entries@[j].0@, entries@[j].1)) is Some
                                implies exists|k: int| 0 <= k < r@.len() && r@[k].0 == j by {
                            if j < i {
                                let k = choose|k: int| 0 <= k < before.len() && before[k].0 == j;
                                assert(r@[k] == before[k]);
                            } else {
                                assert(r@[before.len() as int].0 == j);
                            }
                        }
                    }
                },
                None => {},
            }
        }
        i = i + 1;
    }
    r
}

/// The undo record of a manual move.
pub fn manual_move_record(
    id: String,
    file_name: String,
    original_path: String,
    moved_to_path: String,
    category: String,
    timestamp: String,
    downloads_path: String,
) -> (r: UndoAction)
    ensures
        r.id == id,
        r.file_name == file_name,
        r.original_path == original_path,
        r.moved_to_path == moved_to_path,
        r.category == category,
        r.timestamp == timestamp,
        r.downloads_path == downloads_path,
        r.source@ == "manual"@,
{
    UndoAction {
        id,
        file_name,
        original_path,
        moved_to_path,
        category,
        timestamp,
        downloads_path,
        source: String::from_str("manual"),
    }
}

/// Whether an undo taken out of the log may go ahead, given whether the moved file is
/// still where it was moved to and whether its original path is now occupied.
pub fn check_undo(target_exists: bool, original_occupied: bool) -> (r: Result<(), UndoError>)
    ensures
        r == if !target_exists {
            Err(UndoError::TargetGone)
        } else if original_occupied {
            Err(UndoError::OriginalOccupied)
        } else {
            Ok(())
        },
{
    if !target_exists {
        Err(UndoError::TargetGone)
    } else if original_occupied {
        Err(UndoError::OriginalOccupied)
    } else {
        Ok(())
    }
}

/// The state of one managed folder.
#[allow(non_camel_case_types)]
pub struct fileSortify {
    /// The folder being organised; category folders live directly inside it.
    pub downloads_path: String,
    pub config: Config,
    pub state: SessionState,
    pub undo_history: UndoHistory,
}

impl fileSortify {
    /// The folder's undo log holds at most `UNDO_CAPACITY` entries.
    pub open spec fn wf(&self) -> bool {
        self.undo_history.wf() && self.undo_history.max_size() == UNDO_CAPACITY
    }

    /// A managed folder with the given configuration, not watched, with an empty undo log.
    pub fn new(downloads_path: &str, config: Config) -> (r: Self)
        ensures
            r.wf(),
            r.downloads_path@ == downloads_path@,
            r.config == config,
            r.state == SessionState::Idle,
            r.undo_history.actions() == Seq::<UndoAction>::empty(),
    {
        fileSortify {
            downloads_path: String::from_str(downloads_path),
            config,
            state: SessionState::Idle,
            undo_history: UndoHistory::new(UNDO_CAPACITY),
        }
    }

    /// The category a file called `file_name` is filed under, if any.
    pub fn get_file_category(&self, file_name: &str) -> (r: Option<String>)
        ensures
            match r {
                Some(c) => classification(self.config.categories@, file_name@) == Some(c@),
                None => classification(self.config.categories@, file_name@) is None,
            },
    {
        classify(file_name, &self.config.categories)
    }

    /// Starts a watch. Returns whether a worker is still running and must be stopped
    /// first; starting an already running watch restarts it.
    pub fn start_monitoring(&mut self) -> (r: bool)
        ensures
            r == (old(self).state != SessionState::Idle),
            final(self).state == SessionState::Watching,
            final(self).downloads_path == old(self).downloads_path,
            final(self).config == old(self).config,
            final(self).undo_history == old(self).undo_history,
    {
        let running = match self.state {
            SessionState::Idle => false,
            _ => true,
        };
        self.state = SessionState::Watching;
        running
    }

    /// Asks a running watch to stop. Returns whether a stop signal must be sent to its worker.
    pub fn stop_monitoring(&mut self) -> (r: bool)
        ensures
            r == (old(self).state == SessionState::Watching),
            final(self).state == if r { SessionState::Stopping } else { old(self).state },
            final(self).downloads_path == old(self).downloads_path,
            final(self).config == old(self).config,
            final(self).undo_history == old(self).undo_history,
    {
        match self.state {
            SessionState::Watching => {
                self.state = SessionState::Stopping;
                true
            },
            _ => false,
        }
    }

    /// Records that the worker has exited.
    pub fn monitoring_stopped(&mut self)
        ensures
            final(self).state == SessionState::Idle,
            final(self).downloads_path == old(self).downloads_path,
            final(self).config == old(self).config,
            final(self).undo_history == old(self).undo_history,
    {
        self.state = SessionState::Idle;
    }

    /// Adds the record of a manual move to the undo log.
    pub fn record_manual_move(&mut self, action: UndoAction)
        requires
            old(self).wf(),
            !has_id(old(self).undo_history.actions(), action.id@),
        ensures
            has_id(final(self).undo_history.actions(), action.id@),
            final(self).wf(),
            final(self).undo_history.actions() == log_after_add(old(self).undo_history.actions(), UNDO_CAPACITY as nat, action),
            final(self).state == old(self).state,
            final(self).config == old(self).config,
    {
        proof {
            lemma_add_keeps_ids_distinct(old(self).undo_history.actions(), UNDO_CAPACITY as nat, action);
        }
        self.undo_history.add_action(action);
    }

    /// Up to `count` most recent undo records, most recent first.
    pub fn get_undo_history(&self, count: usize) -> (r: Vec<UndoAction>)
        ensures
            r@ == latest(self.undo_history.actions(), count as nat),
    {
        self.undo_history.get_latest_actions(count)
    }

    /// Takes the record with id `action_id` out of the undo log for undoing; afterwards no
    /// record has that id. The record is consumed whether or not the undo then succeeds;
    /// see `check_undo` and `undo_checked`.
    pub fn undo_action(&mut self, action_id: &str) -> (r: Result<UndoAction, UndoError>)
        requires
            old(self).wf(),
        ensures
            final(self).wf(),
            final(self).state == old(self).state,
            ({
                let log = old(self).undo_history.actions();
                let i = first_with_id(log, action_id@);
                match r {
                    Ok(a) => 0 <= i < log.len() && a == log[i] && final(self).undo_history.actions() == log.remove(i),
                    Err(e) => e == UndoError::NotFound && i == -1 && final(self).undo_history.actions() == log,
                }
            }),
            r is Ok <==> has_id(old(self).undo_history.actions(), action_id@),
            !has_id(final(self).undo_history.actions(), action_id@),
    {
        proof {
            lemma_first_with_id_bounds(self.undo_history.actions(), action_id@);
        }
        match self.undo_history.remove_action(action_id) {
            Some(a) => Ok(a),
            None => Err(UndoError::NotFound),
        }
    }

    /// Undoes the record with id `action_id` as far as the log is concerned: the record is
    /// taken out (every outcome consumes it, so it cannot be retried), then the undo is
    /// refused with `TargetGone` when the moved file no longer exists, or with
    /// `OriginalOccupied` when something stands at its original path. `target_exists` and
    /// `original_occupied` describe that record's two paths. On success the record is
    /// returned, for the caller to rename its moved-to path back to its original path.
    pub fn undo_checked(&mut self, action_id: &str, target_exists: bool, original_occupied: bool) -> (r: Result<UndoAction, UndoError>)
        requires
            old(self).wf(),
        ensures
            final(self).wf(),
            final(self).state == old(self).state,
            !has_id(final(self).undo_history.actions(), action_id@),
            ({
                let log = old(self).undo_history.actions();
                let i = first_with_id(log, action_id@);
                if i < 0 {
                    r == Err::<UndoAction, UndoError>(UndoError::NotFound) && final(self).undo_history.actions() == log
                } else {
                    &&& final(self).undo_history.actions() == log.remove(i)
                    &&& final(self).undo_history.actions().len() == log.len() - 1
                    &&& r == if !target_exists {
                        Err::<UndoAction, UndoError>(UndoError::TargetGone)
                    } else if original_occupied {
                        Err::<UndoAction, UndoError>(UndoError::OriginalOccupied)
                    } else {
                        Ok::<UndoAction, UndoError>(log[i])
                    }
                }
            }),
    {
        match self.undo_action(action_id) {
            Ok(a) => match check_undo(target_exists, original_occupied) {
                Ok(()) => Ok(a),
                Err(e) => Err(e),
            },
            Err(e) => Err(e),
        }
    }

    /// Empties the undo log.
    pub fn clear_undo_history(&mut self)
        requires
            old(self).wf(),
        ensures
            final(self).wf(),
            final(self).undo_history.actions() == Seq::<UndoAction>::empty(),
            final(self).state == old(self).state,
    {
        self.undo_history.clear();
    }

    /// The number of undo records.
    pub fn get_undo_history_count(&self) -> (r: usize)
        ensures
            r == self.undo_history.actions().len(),
    {
        self.undo_history.len()
    }

    /// The undo record with id `action_id`, left in the log.
    pub fn find_undo_action(&self, action_id: &str) -> (r: Option<UndoAction>)
        ensures
            ({
                let log = self.undo_history.actions();
                let i = first_with_id(log, action_id@);
                match r {
                    Some(a) => 0 <= i < log.len() && a == log[i],
                    None => i == -1,
                }
            }),
    {
        self.undo_history.find_action(action_id)
    }
}

} // verus!
