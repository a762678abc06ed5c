//! Natures: the answer of the API and the record that is cached.

use crate::api::localized::{english, find_first, first_in_language, french, Localized};
use vstd::prelude::*;

verus! {

#[derive(Debug)]
pub struct ApiNature {
    pub id: i64,
    pub name: String,
    pub names: Vec<ApiNatureName>,
    pub increased_stat: Option<ApiNatureStatRef>,
    pub decreased_stat: Option<ApiNatureStatRef>,
    pub likes_flavor: Option<ApiNatureFlavorRef>,
    pub hates_flavor: Option<ApiNatureFlavorRef>,
}

#[derive(Debug)]
pub struct ApiNatureName {
    pub name: String,
    pub language: ApiNatureLangRef,
}

#[derive(Debug)]
pub struct ApiNatureLangRef {
    pub name: String,
}

#[derive(Debug)]
pub struct ApiNatureStatRef {
    pub name: String,
}

#[derive(Debug)]
pub struct ApiNatureFlavorRef {
    pub name: String,
}

/// A nature as it is cached.
#[derive(Debug, Clone)]
pub struct ParsedNature {
    pub id: i64,
    pub name_key: String,
    pub name_en: Option<String>,
    pub name_fr: Option<String>,
    pub increased_stat: Option<String>,
    pub decreased_stat: Option<String>,
    pub likes_flavor: Option<String>,
    pub hates_flavor: Option<String>,
}

impl Localized for ApiNatureName {
    open spec fn language(&self) -> Seq<char> {
        self.language.name@
    }

    fn language_code(&self) -> (code: &String) {
        &self.language.name
    }
}

/// The name that the first entry in `lang` gives.
pub open spec fn nature_name_in(names: Seq<ApiNatureName>, lang: Seq<char>) -> Option<String> {
    match first_in_language(names, lang) {
        Some(i) => Some(names[i].name),
        None => None,
    }
}

/// The name of the stat that is referred to, if one is.
pub open spec fn stat_name(stat: Option<ApiNatureStatRef>) -> Option<String> {
    match stat {
        Some(s) => Some(s.name),
        None => None,
    }
}

/// The name of the flavor that is referred to, if one is.
pub open spec fn flavor_name(flavor: Option<ApiNatureFlavorRef>) -> Option<String> {
    match flavor {
        Some(f) => Some(f.name),
        None => None,
    }
}

fn nature_name(names: &Vec<ApiNatureName>, lang: &str) -> (name: Option<String>)
    ensures
        name == nature_name_in(names@, lang@),
{
    let lang = lang.to_owned();
    match find_first(names, &lang) {
        Some(i) => Some(names[i].name.clone()),
        None => None,
    }
}

/// Extracts the cached record from the answer of the API: the key and the
/// identifier as they are, the English and the French name from the first
/// entry in each language, and the names of the stats and flavors referred to.
pub fn parse_nature(api: ApiNature) -> (parsed: ParsedNature)
    ensures
        parsed.id == api.id,
        parsed.name_key == api.name,
        parsed.name_en == nature_name_in(api.names@, english()),
        parsed.name_fr == nature_name_in(api.names@, french()),
        parsed.increased_stat == stat_name(api.increased_stat),
        parsed.decreased_stat == stat_name(api.decreased_stat),
        parsed.likes_flavor == flavor_name(api.likes_flavor),
        parsed.hates_flavor == flavor_name(api.hates_flavor),
{
    let name_en = nature_name(&api.names, "en");
    let name_fr = nature_name(&api.names, "fr");
    ParsedNature {
        id: api.id,
        name_key: api.name,
        name_en,
        name_fr,
        increased_stat: match api.increased_stat {
            Some(s) => Some(s.name),
            None => None,
        },
        decreased_stat: match api.decreased_stat {
            Some(s) => Some(s.name),
            None => None,
        },
        likes_flavor: match api.likes_flavor {
            Some(f) => Some(f.name),
            None => None,
        },
        hates_flavor: match api.hates_flavor {
            Some(f) => Some(f.name),
            None => None,
        },
    }
}

} // verus!
