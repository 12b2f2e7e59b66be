//! Library scanner and metadata ingestion engine of a desktop music library.
//!
//! The crate holds the decisions of a scan pass: the persisted scan record,
//! directory discovery, cleanup of vanished files, per-file upsert of
//! artists, albums and tracks, and the album art pipeline. Filesystem,
//! database and provider I/O is performed by the caller, which feeds the
//! results back into the state machines defined here.

pub mod album_item;
pub mod art;
pub mod channel;
pub mod controllers;
pub mod identity;
pub mod paths;
pub mod record;
pub mod scan;
pub mod strings;
pub mod upsert;
