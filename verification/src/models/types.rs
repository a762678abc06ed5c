//! Types as readers of the cache see them.

use vstd::prelude::*;

verus! {

/// A type, such as fire or water.
#[derive(Debug, Clone)]
pub struct TypeEntry {
    pub id: i64,
    pub name_key: String,
    pub name_en: Option<String>,
    pub name_fr: Option<String>,
}

/// How much damage one type deals to another, in percent.
#[derive(Debug, Clone)]
pub struct TypeEfficacy {
    pub attacking_type_id: i64,
    pub defending_type_id: i64,
    pub damage_factor: i64,
}

} // verus!
