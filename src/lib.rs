//! Folder organisation engine: classifies files by extension, plans
//! collision-free moves into category folders, keeps a bounded undo log,
//! and decides what a folder watch does with each filesystem event. Around
//! that core: message catalogs, settings, release lookup and licence rules.
pub mod text;
pub mod classifier;
pub mod mover;
pub mod keyed;
pub mod undo;
pub mod watch;
pub mod config;
mod default_names;
pub mod organizer;
pub mod events;
pub mod registry;
pub mod updater;
pub mod storekit;
pub mod settings;
pub mod i18n;
pub mod subscription;
pub mod apple;
