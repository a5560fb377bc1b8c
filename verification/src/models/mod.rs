//! The authoritative rows and the per-entity tables that hits are hydrated
//! and ranked from.

pub mod bots;
pub mod packs;
pub mod utils;
