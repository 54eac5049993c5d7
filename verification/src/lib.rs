//! A read-only virtual table that exposes a metadata store's queue items to a
//! columnar query engine.
//!
//! The store's rows are fetched once per scan (by the surrounding engine, which
//! owns the asynchronous store handle); this crate turns that row snapshot into
//! typed, positionally aligned column arrays and states exactly how each array
//! relates to the snapshot.

pub mod error;
pub mod rows;
pub mod schema;
pub mod table;
pub mod columnar;
