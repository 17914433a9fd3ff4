//! Backends: the containers that the entry protocol is adapted to.
pub mod counted;
pub mod json;
pub mod std_collections;
