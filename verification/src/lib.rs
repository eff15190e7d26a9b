//! A small in-memory to-do record ("Item") and a boundary adapter that lets a
//! foreign caller create, mutate, inspect and destroy such records through
//! opaque handles instead of native composite values.
//!
//! `item` holds the record type itself and the operations on a borrowed
//! record; `store` holds the handle table that tracks which handles are live,
//! so that a released or unknown handle is a detectable fault rather than a
//! read of freed memory; `laws` states and proves the properties that relate
//! several operations.

pub mod item;
pub mod laws;
pub mod store;
