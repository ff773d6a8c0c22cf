//! An archival library for a real-time chat platform: the data model for a
//! message's recorded lifecycle, the pure translation of decoded stream
//! events into records, and the merge logic that folds an incoming event into
//! whatever record already exists. Event-stream and document-store plumbing
//! live outside this crate; the library only consumes decoded event values
//! and produces the next record to persist.

pub mod archiver;
pub mod config;
pub mod event;
pub mod lemmas;
pub mod merge;
pub mod record;
pub mod translate;
