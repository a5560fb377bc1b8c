//! Search core of a listing directory for two kinds of entities, bots and
//! packs.
//!
//! The crate holds the rules of the core as verified functions on plain
//! values: the live row caches and vote tables, the construction of index
//! documents, the staged fuzzy query plan, the writer's state machine, the
//! merging and paging of ranked hits, and the hydration of hits from the
//! live cache. The index engine, the row store and the transport are driven
//! by the program around this library, which hands their results in and
//! carries the library's requests out.

pub mod models;
pub mod search;
pub mod routes;
