//! Species: the answer of the API and the record that is cached.

use crate::api::client::{id_from_url_spec, PokeApiClient};
use crate::api::localized::{english, find_first, first_in_language, french, Localized};
use crate::text::{chars_of, collapse_whitespace, push_collapsed, string_of, text_of};
use vstd::prelude::*;

verus! {

#[derive(Debug)]
pub struct ApiPokemonSpecies {
    pub id: i64,
    pub name: String,
    pub names: Vec<ApiName>,
    pub flavor_text_entries: Vec<ApiFlavorText>,
    pub evolution_chain: Option<ApiEvolutionChainRef>,
}

#[derive(Debug)]
pub struct ApiName {
    pub name: String,
    pub language: ApiLanguageRef,
}

#[derive(Debug)]
pub struct ApiFlavorText {
    pub flavor_text: String,
    pub language: ApiLanguageRef,
}

#[derive(Debug)]
pub struct ApiLanguageRef {
    pub name: String,
}

#[derive(Debug)]
pub struct ApiEvolutionChainRef {
    pub url: String,
}

/// What is cached of a species.
#[derive(Debug, Clone)]
pub struct ParsedSpecies {
    pub id: i64,
    pub name_en: Option<String>,
    pub name_fr: Option<String>,
    pub description_en: Option<String>,
    pub description_fr: Option<String>,
    pub evolution_chain_id: Option<i64>,
}

impl Localized for ApiName {
    open spec fn language(&self) -> Seq<char> {
        self.language.name@
    }

    fn language_code(&self) -> (code: &String) {
        &self.language.name
    }
}

impl Localized for ApiFlavorText {
    open spec fn language(&self) -> Seq<char> {
        self.language.name@
    }

    fn language_code(&self) -> (code: &String) {
        &self.language.name
    }
}

/// The name that the first entry in `lang` gives.
pub open spec fn species_name_in(names: Seq<ApiName>, lang: Seq<char>) -> Option<String> {
    match first_in_language(names, lang) {
        Some(i) => Some(names[i].name),
        None => None,
    }
}

/// The flavor text of the first entry in `lang`, its white space collapsed.
pub open spec fn species_description_in(entries: Seq<ApiFlavorText>, lang: Seq<char>) -> Option<
    Seq<char>,
> {
    match first_in_language(entries, lang) {
        Some(i) => Some(collapse_whitespace(entries[i].flavor_text@)),
        None => None,
    }
}

/// The identifier at the end of the address of the evolution chain, if the
/// species refers to one.
pub open spec fn chain_id_of(chain: Option<ApiEvolutionChainRef>) -> Option<i64> {
    match chain {
        Some(c) => id_from_url_spec(c.url@),
        None => None,
    }
}

/// Flavor texts of the API hold line breaks and form feeds. The clean text
/// holds the same words, separated by single spaces.
pub fn clean_flavor_text(text: &str) -> (clean: String)
    ensures
        clean@ == collapse_whitespace(text@),
{
    let chars = chars_of(text);
    let mut out: Vec<char> = Vec::new();
    push_collapsed(&mut out, &chars);
    assert(out@ =~= collapse_whitespace(text@));
    string_of(&out)
}

fn species_name(names: &Vec<ApiName>, lang: &str) -> (name: Option<String>)
    ensures
        name == species_name_in(names@, lang@),
{
    let lang = lang.to_owned();
    match find_first(names, &lang) {
        Some(i) => Some(names[i].name.clone()),
        None => None,
    }
}

fn species_description(entries: &Vec<ApiFlavorText>, lang: &str) -> (text: Option<String>)
    ensures
        text_of(text) == species_description_in(entries@, lang@),
{
    let lang = lang.to_owned();
    match find_first(entries, &lang) {
        Some(i) => Some(clean_flavor_text(entries[i].flavor_text.as_str())),
        None => None,
    }
}

/// Extracts the cached record from the answer of the API: the names and the
/// cleaned descriptions from the first entry in each language, and the
/// identifier of the evolution chain.
pub fn parse_species(api: ApiPokemonSpecies) -> (parsed: ParsedSpecies)
    ensures
        parsed.id == api.id,
        parsed.name_en == species_name_in(api.names@, english()),
        parsed.name_fr == species_name_in(api.names@, french()),
        text_of(parsed.description_en) == species_description_in(
            api.flavor_text_entries@,
            english(),
        ),
        text_of(parsed.description_fr) == species_description_in(
            api.flavor_text_entries@,
            french(),
        ),
        parsed.evolution_chain_id == chain_id_of(api.evolution_chain),
{
    let name_en = species_name(&api.names, "en");
    let name_fr = species_name(&api.names, "fr");
    let description_en = species_description(&api.flavor_text_entries, "en");
    let description_fr = species_description(&api.flavor_text_entries, "fr");
    let evolution_chain_id = match &api.evolution_chain {
        Some(chain) => PokeApiClient::id_from_url(chain.url.as_str()),
        None => None,
    };
    ParsedSpecies {
        id: api.id,
        name_en,
        name_fr,
        description_en,
        description_fr,
        evolution_chain_id,
    }
}

} // verus!
