//! A uniform entry abstraction over keyed containers: look a key up once, then
//! read, replace, remove or fill its slot through the handle that the lookup
//! returned, whatever container stands behind it.
pub mod collection;
pub mod entry_api;
pub mod impls;
pub mod model;

pub use collection::{
    Clear, Collection, CollectionMut, CollectionRef, Get, GetKeyValue, GetMut, Keyed, KeyedRef, Len,
    MapInsert, Remove,
};
pub use entry_api::{
    Entry, EntryApi, EntryFlag, EntryRefApi, EntryRefFlag, EntryTypes, LookupPath, OccupiedEntry,
    RawVacantEntry, RefOccupiedEntry, RefVacantEntry, SupportsKeyVacantEntry, ToKey, VacantEntry,
};
