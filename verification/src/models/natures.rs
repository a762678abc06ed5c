//! Natures as readers of the cache see them.

use vstd::prelude::*;

verus! {

#[derive(Debug, Clone)]
pub struct NatureSummary {
    pub id: i64,
    pub name_key: String,
    pub name_en: Option<String>,
    pub name_fr: Option<String>,
    pub increased_stat: Option<String>,
    pub decreased_stat: Option<String>,
    pub likes_flavor: Option<String>,
    pub hates_flavor: Option<String>,
}

} // verus!
