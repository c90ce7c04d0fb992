//! The notifications the engine hands to whoever listens: log lines, organised files and
//! undone moves.
use vstd::prelude::*;
use crate::undo::UndoAction;

verus! {

/// A log line: its text, its severity (`info`, `warning`, `error` or `success`) and when it happened.
#[derive(Debug, Clone)]
pub struct LogMessage {
    pub message: String,
    pub log_type: String,
    pub timestamp: String,
}

/// A file was organised: its name before and after the move, its category, when, the
/// watched folder, and the full paths before and after.
#[derive(Debug, Clone)]
pub struct FileOrganizedEvent {
    pub file_name: String,
    pub actual_file_name: String,
    pub category: String,
    pub timestamp: String,
    pub folder_path: String,
    pub original_path: String,
    pub moved_to_path: String,
}

/// A move was undone: the record's id, the file's name, where it is back at, its category and when.
#[derive(Debug, Clone)]
pub struct FileUndoneEvent {
    pub action_id: String,
    pub file_name: String,
    pub original_path: String,
    pub category: String,
    pub timestamp: String,
}

impl FileUndoneEvent {
    /// The notification that the move recorded in `action` was undone at `timestamp`.
    pub fn for_action(action: &UndoAction, timestamp: String) -> (r: Self)
        ensures
            r.action_id == action.id,
            r.file_name == action.file_name,
            r.original_path == action.original_path,
            r.category == action.category,
            r.timestamp == timestamp,
    {
        FileUndoneEvent {
            action_id: action.id.clone(),
            file_name: action.file_name.clone(),
            original_path: action.original_path.clone(),
            category: action.category.clone(),
            timestamp,
        }
    }
}

} // verus!
