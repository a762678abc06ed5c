//! The records that readers of the cache are handed.

pub mod abilities;
pub mod games;
pub mod items;
pub mod moves;
pub mod natures;
pub mod pokemon;
pub mod settings;
pub mod sync;
pub mod types;
