//! The remote API: its addresses, the shape of its answers and the parsers
//! that extract cache records from them.

pub mod abilities;
pub mod client;
pub mod evolution;
pub mod items;
pub mod localized;
pub mod moves;
pub mod natures;
pub mod pokemon;
pub mod species;
pub mod types;
