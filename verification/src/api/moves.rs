//! Moves: the answer of the API and the record that is cached.

use crate::api::localized::{english, find_first, first_in_language, french, Localized};
use vstd::prelude::*;

verus! {

#[derive(Debug)]
pub struct ApiMove {
    pub id: i64,
    pub name: String,
    pub names: Vec<ApiMoveName>,
    pub type_info: ApiMoveResourceRef,
    pub damage_class: Option<ApiMoveResourceRef>,
    pub power: Option<i64>,
    pub accuracy: Option<i64>,
    pub pp: Option<i64>,
    pub priority: Option<i64>,
    pub effect_entries: Vec<ApiMoveEffectEntry>,
    pub flavor_text_entries: Vec<ApiMoveFlavorText>,
}

#[derive(Debug)]
pub struct ApiMoveName {
    pub name: String,
    pub language: ApiMoveLangRef,
}

#[derive(Debug)]
pub struct ApiMoveResourceRef {
    pub name: String,
    pub url: String,
}

#[derive(Debug)]
pub struct ApiMoveEffectEntry {
    pub effect: Option<String>,
    pub short_effect: Option<String>,
    pub language: ApiMoveLangRef,
}

#[derive(Debug)]
pub struct ApiMoveFlavorText {
    pub flavor_text: String,
    pub language: ApiMoveLangRef,
}

#[derive(Debug)]
pub struct ApiMoveLangRef {
    pub name: String,
}

/// A move as it is cached.
#[derive(Debug, Clone)]
pub struct ParsedMove {
    pub id: i64,
    pub name_key: String,
    pub name_en: Option<String>,
    pub name_fr: Option<String>,
    pub type_key: String,
    pub damage_class: Option<String>,
    pub power: Option<i64>,
    pub accuracy: Option<i64>,
    pub pp: Option<i64>,
    pub priority: i64,
    pub effect_en: Option<String>,
    pub effect_fr: Option<String>,
}

impl Localized for ApiMoveName {
    open spec fn language(&self) -> Seq<char> {
        self.language.name@
    }

    fn language_code(&self) -> (code: &String) {
        &self.language.name
    }
}

impl Localized for ApiMoveEffectEntry {
    open spec fn language(&self) -> Seq<char> {
        self.language.name@
    }

    fn language_code(&self) -> (code: &String) {
        &self.language.name
    }
}

impl Localized for ApiMoveFlavorText {
    open spec fn language(&self) -> Seq<char> {
        self.language.name@
    }

    fn language_code(&self) -> (code: &String) {
        &self.language.name
    }
}

/// The name that the first entry in `lang` gives.
pub open spec fn move_name_in(names: Seq<ApiMoveName>, lang: Seq<char>) -> Option<String> {
    match first_in_language(names, lang) {
        Some(i) => Some(names[i].name),
        None => None,
    }
}

/// The effect that the first entry in `lang` gives: its short form, or its
/// long form where it has no short one.
pub open spec fn move_effect_in(entries: Seq<ApiMoveEffectEntry>, lang: Seq<char>) -> Option<
    String,
> {
    match first_in_language(entries, lang) {
        Some(i) => if entries[i].short_effect is Some {
            entries[i].short_effect
        } else {
            entries[i].effect
        },
        None => None,
    }
}

/// The flavor text that the first entry in `lang` gives.
pub open spec fn move_flavor_in(entries: Seq<ApiMoveFlavorText>, lang: Seq<char>) -> Option<
    String,
> {
    match first_in_language(entries, lang) {
        Some(i) => Some(entries[i].flavor_text),
        None => None,
    }
}

/// The French effect of a move: the one of its effect entries, or else its
/// first French flavor text.
pub open spec fn move_effect_fr(api: ApiMove) -> Option<String> {
    if move_effect_in(api.effect_entries@, french()) is Some {
        move_effect_in(api.effect_entries@, french())
    } else {
        move_flavor_in(api.flavor_text_entries@, french())
    }
}

/// The name of the damage class that is referred to, if one is.
pub open spec fn damage_class_name(class: Option<ApiMoveResourceRef>) -> Option<String> {
    match class {
        Some(c) => Some(c.name),
        None => None,
    }
}

/// The priority of a move; zero where the API gives none.
pub open spec fn priority_or_zero(priority: Option<i64>) -> i64 {
    match priority {
        Some(p) => p,
        None => 0,
    }
}

fn move_name(names: &Vec<ApiMoveName>, lang: &str) -> (name: Option<String>)
    ensures
        name == move_name_in(names@, lang@),
{
    let lang = lang.to_owned();
    match find_first(names, &lang) {
        Some(i) => Some(names[i].name.clone()),
        None => None,
    }
}

fn move_effect(entries: &Vec<ApiMoveEffectEntry>, lang: &str) -> (effect: Option<String>)
    ensures
        effect == move_effect_in(entries@, lang@),
{
    let lang = lang.to_owned();
    match find_first(entries, &lang) {
        Some(i) => match &entries[i].short_effect {
            Some(short) => Some(short.clone()),
            None => match &entries[i].effect {
                Some(long) => Some(long.clone()),
                None => None,
            },
        },
        None => None,
    }
}

fn move_flavor(entries: &Vec<ApiMoveFlavorText>, lang: &str) -> (text: Option<String>)
    ensures
        text == move_flavor_in(entries@, lang@),
{
    let lang = lang.to_owned();
    match find_first(entries, &lang) {
        Some(i) => Some(entries[i].flavor_text.clone()),
        None => None,
    }
}

/// Extracts the cached record from the answer of the API. Names and effects
/// come from the first entry in each language; the French effect falls back
/// on the first French flavor text; a missing priority counts as zero.
pub fn parse_move(api: ApiMove) -> (parsed: ParsedMove)
    ensures
        parsed.id == api.id,
        parsed.name_key == api.name,
        parsed.name_en == move_name_in(api.names@, english()),
        parsed.name_fr == move_name_in(api.names@, french()),
        parsed.type_key == api.type_info.name,
        parsed.damage_class == damage_class_name(api.damage_class),
        parsed.power == api.power,
        parsed.accuracy == api.accuracy,
        parsed.pp == api.pp,
        parsed.priority == priority_or_zero(api.priority),
        parsed.effect_en == move_effect_in(api.effect_entries@, english()),
        parsed.effect_fr == move_effect_fr(api),
{
    let name_en = move_name(&api.names, "en");
    let name_fr = move_name(&api.names, "fr");
    let effect_en = move_effect(&api.effect_entries, "en");
    let effect_fr = match move_effect(&api.effect_entries, "fr") {
        Some(effect) => Some(effect),
        None => move_flavor(&api.flavor_text_entries, "fr"),
    };
    ParsedMove {
        id: api.id,
        name_key: api.name,
        name_en,
        name_fr,
        type_key: api.type_info.name,
        damage_class: match api.damage_class {
            Some(class) => Some(class.name),
            None => None,
        },
        power: api.power,
        accuracy: api.accuracy,
        pp: api.pp,
        priority: match api.priority {
            Some(p) => p,
            None => 0,
        },
        effect_en,
        effect_fr,
    }
}

} // verus!
