//! A content-addressed blob store with size-dependent retention.
//!
//! A client uploads a byte buffer and receives a stable key derived from the
//! content; a later client retrieves the bytes by presenting that key.  Each
//! stored blob's retention window shrinks as its size grows, and expired
//! entries are reclaimed by a throttled, cooperative sweep.
//!
//! This crate holds the storage/expiration engine: content addressing,
//! key validation, the retention formula, the sweep selection, and the
//! decisions and report strings of the store operations.  Filesystem and
//! clock access stay with the caller, which hands in what it observed
//! (whether a location exists, a stored file's size and name, the current
//! time) and carries out the actions the engine decides on.

pub mod banner;
pub mod decimal;
pub mod errors;
pub mod guardian;
pub mod key;
pub mod location;
pub mod model;
pub mod policy;
pub mod store;
pub mod timefmt;
