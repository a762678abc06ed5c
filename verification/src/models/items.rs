//! Items as readers of the cache see them.

use vstd::prelude::*;

verus! {

/// An item in list views.
#[derive(Debug, Clone)]
pub struct ItemSummary {
    pub id: i64,
    pub name_key: String,
    pub name_en: Option<String>,
    pub name_fr: Option<String>,
    pub category: Option<String>,
    pub effect_en: Option<String>,
    pub effect_fr: Option<String>,
    pub sprite_url: Option<String>,
}

/// An item in full.
#[derive(Debug, Clone)]
pub struct ItemDetail {
    pub id: i64,
    pub name_key: String,
    pub name_en: Option<String>,
    pub name_fr: Option<String>,
    pub category: Option<String>,
    pub effect_en: Option<String>,
    pub effect_fr: Option<String>,
    pub sprite_url: Option<String>,
}

} // verus!
