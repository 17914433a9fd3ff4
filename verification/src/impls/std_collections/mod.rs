//! Backends from the standard library.
pub mod hashmap;
