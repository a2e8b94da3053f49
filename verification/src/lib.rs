//! An in-process cache from string keys to structured values, with an
//! optional time-to-live on every entry.
//!
//! The cache maps strings to [`entry::Entry`] payloads (a scalar, a
//! list, or a string-keyed table of values). Each entry carries an
//! optional absolute expiry instant; an entry whose instant has passed
//! is treated as absent and is removed by the next read that sees it
//! (lazy expiration). Entries without an instant never expire.

pub mod entry;
pub mod store;
pub mod laws;
pub mod auth;
