//! Abilities: the answer of the API and the record that is cached.

use crate::api::client::{id_from_url_spec, PokeApiClient};
use crate::api::localized::{
    english, find_first, find_last, first_in_language, french, last_in_language, Localized,
};
use vstd::prelude::*;

verus! {

#[derive(Debug)]
pub struct ApiAbility {
    pub id: i64,
    pub name: String,
    pub names: Vec<ApiAbilityName>,
    pub effect_entries: Vec<ApiAbilityEffectEntry>,
    pub flavor_text_entries: Vec<ApiAbilityFlavorText>,
    pub generation: ApiAbilityGenRef,
    pub pokemon: Vec<ApiAbilityPokemon>,
}

#[derive(Debug)]
pub struct ApiAbilityName {
    pub name: String,
    pub language: ApiAbilityLangRef,
}

#[derive(Debug)]
pub struct ApiAbilityLangRef {
    pub name: String,
}

#[derive(Debug)]
pub struct ApiAbilityEffectEntry {
    pub effect: Option<String>,
    pub short_effect: Option<String>,
    pub language: ApiAbilityLangRef,
}

#[derive(Debug)]
pub struct ApiAbilityFlavorText {
    pub flavor_text: String,
    pub language: ApiAbilityLangRef,
}

#[derive(Debug)]
pub struct ApiAbilityGenRef {
    pub name: String,
    pub url: String,
}

#[derive(Debug)]
pub struct ApiAbilityPokemon {
    pub is_hidden: bool,
    pub pokemon: ApiAbilityPokemonRef,
}

#[derive(Debug)]
pub struct ApiAbilityPokemonRef {
    pub name: String,
    pub url: String,
}

/// An ability as it is cached.
#[derive(Debug, Clone)]
pub struct ParsedAbility {
    pub id: i64,
    pub name_key: String,
    pub name_en: Option<String>,
    pub name_fr: Option<String>,
    pub effect_en: Option<String>,
    pub effect_fr: Option<String>,
    pub short_effect_en: Option<String>,
    pub short_effect_fr: Option<String>,
    pub generation: Option<i64>,
    pub pokemon: Vec<ParsedAbilityPokemon>,
}

/// One creature that has an ability.
#[derive(Debug, Clone, Copy, PartialEq, Eq, Structural)]
pub struct ParsedAbilityPokemon {
    pub pokemon_id: i64,
    pub is_hidden: bool,
}

impl Localized for ApiAbilityName {
    open spec fn language(&self) -> Seq<char> {
        self.language.name@
    }

    fn language_code(&self) -> (code: &String) {
        &self.language.name
    }
}

impl Localized for ApiAbilityEffectEntry {
    open spec fn language(&self) -> Seq<char> {
        self.language.name@
    }

    fn language_code(&self) -> (code: &String) {
        &self.language.name
    }
}

impl Localized for ApiAbilityFlavorText {
    open spec fn language(&self) -> Seq<char> {
        self.language.name@
    }

    fn language_code(&self) -> (code: &String) {
        &self.language.name
    }
}

/// The name that the first entry in `lang` gives.
pub open spec fn ability_name_in(names: Seq<ApiAbilityName>, lang: Seq<char>) -> Option<String> {
    match first_in_language(names, lang) {
        Some(i) => Some(names[i].name),
        None => None,
    }
}

/// The long effect that the first entry in `lang` gives.
pub open spec fn ability_effect_in(entries: Seq<ApiAbilityEffectEntry>, lang: Seq<char>) -> Option<
    String,
> {
    match first_in_language(entries, lang) {
        Some(i) => entries[i].effect,
        None => None,
    }
}

/// The short effect that the first entry in `lang` gives.
pub open spec fn ability_short_effect_in(
    entries: Seq<ApiAbilityEffectEntry>,
    lang: Seq<char>,
) -> Option<String> {
    match first_in_language(entries, lang) {
        Some(i) => entries[i].short_effect,
        None => None,
    }
}

/// The flavor text that the last entry in `lang` gives.
pub open spec fn ability_flavor_in(entries: Seq<ApiAbilityFlavorText>, lang: Seq<char>) -> Option<
    String,
> {
    match last_in_language(entries, lang) {
        Some(i) => Some(entries[i].flavor_text),
        None => None,
    }
}

/// The French effect of an ability: the one of its effect entries, or else
/// its last French flavor text.
pub open spec fn ability_effect_fr(api: ApiAbility) -> Option<String> {
    if ability_effect_in(api.effect_entries@, french()) is Some {
        ability_effect_in(api.effect_entries@, french())
    } else {
        ability_flavor_in(api.flavor_text_entries@, french())
    }
}

/// One entry for each creature whose address ends with an identifier, in the
/// order of the answer.
pub open spec fn ability_pokemon(entries: Seq<ApiAbilityPokemon>) -> Seq<ParsedAbilityPokemon>
    decreases entries.len(),
{
    if entries.len() == 0 {
        Seq::empty()
    } else {
        let before = ability_pokemon(entries.drop_last());
        match id_from_url_spec(entries.last().pokemon.url@) {
            Some(id) => before.push(
                ParsedAbilityPokemon { pokemon_id: id, is_hidden: entries.last().is_hidden },
            ),
            None => before,
        }
    }
}

fn ability_name(names: &Vec<ApiAbilityName>, lang: &str) -> (name: Option<String>)
    ensures
        name == ability_name_in(names@, lang@),
{
    let lang = lang.to_owned();
    match find_first(names, &lang) {
        Some(i) => Some(names[i].name.clone()),
        None => None,
    }
}

fn ability_effect(entries: &Vec<ApiAbilityEffectEntry>, lang: &str) -> (effect: Option<String>)
    ensures
        effect == ability_effect_in(entries@, lang@),
{
    let lang = lang.to_owned();
    match find_first(entries, &lang) {
        Some(i) => match &entries[i].effect {
            Some(long) => Some(long.clone()),
            None => None,
        },
        None => None,
    }
}

fn ability_short_effect(entries: &Vec<ApiAbilityEffectEntry>, lang: &str) -> (effect: Option<
    String,
>)
    ensures
        effect == ability_short_effect_in(entries@, lang@),
{
    let lang = lang.to_owned();
    match find_first(entries, &lang) {
        Some(i) => match &entries[i].short_effect {
            Some(short) => Some(short.clone()),
            None => None,
        },
        None => None,
    }
}

fn ability_flavor(entries: &Vec<ApiAbilityFlavorText>, lang: &str) -> (text: Option<String>)
    ensures
        text == ability_flavor_in(entries@, lang@),
{
    let lang = lang.to_owned();
    match find_last(entries, &lang) {
        Some(i) => Some(entries[i].flavor_text.clone()),
        None => None,
    }
}

fn collect_pokemon(entries: &Vec<ApiAbilityPokemon>) -> (out: Vec<ParsedAbilityPokemon>)
    ensures
        out@ == ability_pokemon(entries@),
{
    let mut out: Vec<ParsedAbilityPokemon> = Vec::new();
    let mut i: usize = 0;
    while i < entries.len()
        invariant
            i <= entries.len(),
            out@ == ability_pokemon(entries@.take(i as int)),
        decreases entries.len() - i,
    {
        assert(entries@.take(i + 1).drop_last() =~= entries@.take(i as int));
        match PokeApiClient::id_from_url(entries[i].pokemon.url.as_str()) {
            Some(id) => {
                out.push(ParsedAbilityPokemon { pokemon_id: id, is_hidden: entries[i].is_hidden });
            },
            None => {},
        }
        i += 1;
    }
    assert(entries@.take(entries@.len() as int) =~= entries@);
    out
}

/// Extracts the cached record from the answer of the API. Names and effects
/// come from the first entry in each language; the French effect falls back
/// on the last French flavor text; the generation is the identifier at the end
/// of its address; creatures without an identifier are left out.
pub fn parse_ability(api: ApiAbility) -> (parsed: ParsedAbility)
    ensures
        parsed.id == api.id,
        parsed.name_key == api.name,
        parsed.name_en == ability_name_in(api.names@, english()),
        parsed.name_fr == ability_name_in(api.names@, french()),
        parsed.effect_en == ability_effect_in(api.effect_entries@, english()),
        parsed.effect_fr == ability_effect_fr(api),
        parsed.short_effect_en == ability_short_effect_in(api.effect_entries@, english()),
        parsed.short_effect_fr == ability_short_effect_in(api.effect_entries@, french()),
        parsed.generation == id_from_url_spec(api.generation.url@),
        parsed.pokemon@ == ability_pokemon(api.pokemon@),
{
    let name_en = ability_name(&api.names, "en");
    let name_fr = ability_name(&api.names, "fr");
    let effect_en = ability_effect(&api.effect_entries, "en");
    let effect_fr = match ability_effect(&api.effect_entries, "fr") {
        Some(effect) => Some(effect),
        None => ability_flavor(&api.flavor_text_entries, "fr"),
    };
    let short_effect_en = ability_short_effect(&api.effect_entries, "en");
    let short_effect_fr = ability_short_effect(&api.effect_entries, "fr");
    let generation = PokeApiClient::id_from_url(api.generation.url.as_str());
    let pokemon = collect_pokemon(&api.pokemon);
    ParsedAbility {
        id: api.id,
        name_key: api.name,
        name_en,
        name_fr,
        effect_en,
        effect_fr,
        short_effect_en,
        short_effect_fr,
        generation,
        pokemon,
    }
}

} // verus!
