//! A small user registry: the record types, the rules that turn each store
//! outcome into an HTTP reply, and an in-memory table that keeps the store's
//! guarantees (unique, never reused ids; one row per id).

pub mod error;
pub mod handlers;
pub mod laws;
pub mod model;
pub mod table;
