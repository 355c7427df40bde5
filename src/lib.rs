//! A lazily initialized, append-only store that hands out opaque keys.
//!
//! `Storage` holds the state that a shared container keeps behind its lock:
//! whether it has been initialized, the identity it was given, and the values
//! appended so far. Keys carry the identity of the store that issued them, so
//! a key never resolves against another store.
pub mod key;
pub mod laws;
pub mod storage;

pub use key::{CursedKey, FIRST_CONTAINER_ID, NO_CONTAINER_ID};
pub use storage::Storage;
