//! Verified core of an offline reference-data cache: the synchronization
//! engine that fills the cache from a paginated remote API, and the parsers
//! that turn remote records into cache rows.
//!
//! The library does no input or output. Whatever waits for the network, the
//! database or the clock is left to a driver: the retry executor, the item
//! worker, the resource pipeline and the engine in [`sync`] are state
//! machines that take in what happened and say what is to be done next. Their contracts give the
//! next state and the action exactly; what holds of every run (a done
//! resource is complete, a cancelled one is marked, a resource that is done
//! is not fetched again) is proved from them.

pub mod api;
pub mod migrations;
pub mod models;
pub mod sync;
pub mod text;
