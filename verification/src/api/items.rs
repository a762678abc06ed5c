//! Items: the answer of the API and the record that is cached.

use crate::api::localized::{english, find_first, first_in_language, french, Localized};
use vstd::prelude::*;

verus! {

#[derive(Debug)]
pub struct ApiItem {
    pub id: i64,
    pub name: String,
    pub names: Vec<ApiItemName>,
    pub category: ApiItemResourceRef,
    pub effect_entries: Vec<ApiItemEffectEntry>,
    pub flavor_text_entries: Vec<ApiItemFlavorText>,
    pub sprites: ApiItemSprites,
}

#[derive(Debug)]
pub struct ApiItemName {
    pub name: String,
    pub language: ApiItemLangRef,
}

#[derive(Debug)]
pub struct ApiItemResourceRef {
    pub name: String,
    pub url: String,
}

#[derive(Debug)]
pub struct ApiItemEffectEntry {
    pub effect: Option<String>,
    pub short_effect: Option<String>,
    pub language: ApiItemLangRef,
}

#[derive(Debug)]
pub struct ApiItemFlavorText {
    pub text: String,
    pub language: ApiItemLangRef,
}

#[derive(Debug)]
pub struct ApiItemLangRef {
    pub name: String,
}

#[derive(Debug)]
pub struct ApiItemSprites {
    pub default: Option<String>,
}

/// An item as it is cached.
#[derive(Debug, Clone)]
pub struct ParsedItem {
    pub id: i64,
    pub name_key: String,
    pub name_en: Option<String>,
    pub name_fr: Option<String>,
    pub category: String,
    pub effect_en: Option<String>,
    pub effect_fr: Option<String>,
    pub sprite_url: Option<String>,
}

impl Localized for ApiItemName {
    open spec fn language(&self) -> Seq<char> {
        self.language.name@
    }

    fn language_code(&self) -> (code: &String) {
        &self.language.name
    }
}

impl Localized for ApiItemEffectEntry {
    open spec fn language(&self) -> Seq<char> {
        self.language.name@
    }

    fn language_code(&self) -> (code: &String) {
        &self.language.name
    }
}

impl Localized for ApiItemFlavorText {
    open spec fn language(&self) -> Seq<char> {
        self.language.name@
    }

    fn language_code(&self) -> (code: &String) {
        &self.language.name
    }
}

/// The name that the first entry in `lang` gives.
pub open spec fn item_name_in(names: Seq<ApiItemName>, lang: Seq<char>) -> Option<String> {
    match first_in_language(names, lang) {
        Some(i) => Some(names[i].name),
        None => None,
    }
}

/// The effect that the first entry in `lang` gives: its short form, or its
/// long form where it has no short one.
pub open spec fn item_effect_in(entries: Seq<ApiItemEffectEntry>, lang: Seq<char>) -> Option<
    String,
> {
    match first_in_language(entries, lang) {
        Some(i) => if entries[i].short_effect is Some {
            entries[i].short_effect
        } else {
            entries[i].effect
        },
        None => None,
    }
}

/// The flavor text that the first entry in `lang` gives.
pub open spec fn item_flavor_in(entries: Seq<ApiItemFlavorText>, lang: Seq<char>) -> Option<
    String,
> {
    match first_in_language(entries, lang) {
        Some(i) => Some(entries[i].text),
        None => None,
    }
}

/// The French effect of an item: the one of its effect entries, or else its
/// first French flavor text.
pub open spec fn item_effect_fr(api: ApiItem) -> Option<String> {
    if item_effect_in(api.effect_entries@, french()) is Some {
        item_effect_in(api.effect_entries@, french())
    } else {
        item_flavor_in(api.flavor_text_entries@, french())
    }
}

fn item_name(names: &Vec<ApiItemName>, lang: &str) -> (name: Option<String>)
    ensures
        name == item_name_in(names@, lang@),
{
    let lang = lang.to_owned();
    match find_first(names, &lang) {
        Some(i) => Some(names[i].name.clone()),
        None => None,
    }
}

fn item_effect(entries: &Vec<ApiItemEffectEntry>, lang: &str) -> (effect: Option<String>)
    ensures
        effect == item_effect_in(entries@, lang@),
{
    let lang = lang.to_owned();
    match find_first(entries, &lang) {
        Some(i) => match &entries[i].short_effect {
            Some(short) => Some(short.clone()),
            None => match &entries[i].effect {
                Some(long) => Some(long.clone()),
                None => None,
            },
        },
        None => None,
    }
}

fn item_flavor(entries: &Vec<ApiItemFlavorText>, lang: &str) -> (text: Option<String>)
    ensures
        text == item_flavor_in(entries@, lang@),
{
    let lang = lang.to_owned();
    match find_first(entries, &lang) {
        Some(i) => Some(entries[i].text.clone()),
        None => None,
    }
}

/// Extracts the cached record from the answer of the API. Names and effects
/// come from the first entry in each language; the French effect falls back
/// on the first French flavor text.
pub fn parse_item(api: ApiItem) -> (parsed: ParsedItem)
    ensures
        parsed.id == api.id,
        parsed.name_key == api.name,
        parsed.name_en == item_name_in(api.names@, english()),
        parsed.name_fr == item_name_in(api.names@, french()),
        parsed.category == api.category.name,
        parsed.effect_en == item_effect_in(api.effect_entries@, english()),
        parsed.effect_fr == item_effect_fr(api),
        parsed.sprite_url == api.sprites.default,
{
    let name_en = item_name(&api.names, "en");
    let name_fr = item_name(&api.names, "fr");
    let effect_en = item_effect(&api.effect_entries, "en");
    let effect_fr = match item_effect(&api.effect_entries, "fr") {
        Some(effect) => Some(effect),
        None => item_flavor(&api.flavor_text_entries, "fr"),
    };
    ParsedItem {
        id: api.id,
        name_key: api.name,
        name_en,
        name_fr,
        category: api.category.name,
        effect_en,
        effect_fr,
        sprite_url: api.sprites.default,
    }
}

} // verus!
