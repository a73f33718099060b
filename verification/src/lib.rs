//! Reconciliation engine that keeps a remote presence display in step with
//! the playback state of a local media source.

pub mod artwork;
pub mod detector;
pub mod engine;
pub mod publisher;
pub mod selector;
pub mod text;
