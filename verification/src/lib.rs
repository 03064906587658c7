//! Progressive delivery of a large media file to a playback engine.
//!
//! A segment store cuts length-bounded byte ranges out of a file, a fetch loop
//! pulls those ranges in increasing offset order and hands them to the playback
//! engine's buffer sink, and a tracker derives the buffered percentage from the
//! ranges that the sink reports.

pub mod fetch_loop;
pub mod pump;
pub mod segment;
pub mod sink;
pub mod store;
pub mod trace;
pub mod tracker;
