//! Keeps any number of remote observers continuously synchronized with the
//! contents of a mutable record collection.
//!
//! The pipeline: a change watcher consumes mutation notifications from the
//! backing store and refetches a full snapshot on each one; snapshots are
//! serialized to a single JSON payload; a bounded, drop-oldest broadcaster
//! fans each payload out to every currently-connected observer session
//! without ever blocking the producer.

pub mod broadcast;
pub mod json;
pub mod record;
pub mod session;
pub mod watcher;
