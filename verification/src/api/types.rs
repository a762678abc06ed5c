//! Types and their damage relations: the answer of the API and the records
//! that are cached.

use crate::api::client::{id_from_url_spec, PokeApiClient};
use crate::api::localized::{english, find_first, first_in_language, french, Localized};
use vstd::prelude::*;

verus! {

#[derive(Debug)]
pub struct ApiType {
    pub id: i64,
    pub name: String,
    pub names: Vec<ApiTypeName>,
    pub damage_relations: ApiDamageRelations,
}

#[derive(Debug)]
pub struct ApiTypeName {
    pub name: String,
    pub language: ApiTypeLangRef,
}

#[derive(Debug)]
pub struct ApiTypeLangRef {
    pub name: String,
}

#[derive(Debug)]
pub struct ApiDamageRelations {
    pub double_damage_to: Vec<ApiTypeRef>,
    pub half_damage_to: Vec<ApiTypeRef>,
    pub no_damage_to: Vec<ApiTypeRef>,
    pub double_damage_from: Vec<ApiTypeRef>,
    pub half_damage_from: Vec<ApiTypeRef>,
    pub no_damage_from: Vec<ApiTypeRef>,
}

#[derive(Debug)]
pub struct ApiTypeRef {
    pub name: String,
    pub url: String,
}

/// A type as it is cached.
#[derive(Debug, Clone)]
pub struct ParsedType {
    pub id: i64,
    pub name_key: String,
    pub name_en: Option<String>,
    pub name_fr: Option<String>,
}

/// How much damage one type deals to another, in percent.
#[derive(Debug, Clone, Copy, PartialEq, Eq, Structural)]
pub struct ParsedTypeEfficacy {
    pub attacking_type_id: i64,
    pub defending_type_id: i64,
    pub damage_factor: i64,
}

impl Localized for ApiTypeName {
    open spec fn language(&self) -> Seq<char> {
        self.language.name@
    }

    fn language_code(&self) -> (code: &String) {
        &self.language.name
    }
}

/// The name that the first entry in `lang` gives.
pub open spec fn type_name_in(names: Seq<ApiTypeName>, lang: Seq<char>) -> Option<String> {
    match first_in_language(names, lang) {
        Some(i) => Some(names[i].name),
        None => None,
    }
}

/// One entry for each target whose address ends with an identifier, in the
/// order of the targets, all with the same attacker and factor.
pub open spec fn efficacies_of(attacker: i64, targets: Seq<ApiTypeRef>, factor: i64) -> Seq<
    ParsedTypeEfficacy,
>
    decreases targets.len(),
{
    if targets.len() == 0 {
        Seq::empty()
    } else {
        let before = efficacies_of(attacker, targets.drop_last(), factor);
        match id_from_url_spec(targets.last().url@) {
            Some(defender) => before.push(
                ParsedTypeEfficacy {
                    attacking_type_id: attacker,
                    defending_type_id: defender,
                    damage_factor: factor,
                },
            ),
            None => before,
        }
    }
}

/// The efficacy entries of a type as attacker: double damage as 200, half
/// damage as 50 and no damage as 0, in this order.
pub open spec fn type_efficacies(api: ApiType) -> Seq<ParsedTypeEfficacy> {
    efficacies_of(api.id, api.damage_relations.double_damage_to@, 200) + efficacies_of(
        api.id,
        api.damage_relations.half_damage_to@,
        50,
    ) + efficacies_of(api.id, api.damage_relations.no_damage_to@, 0)
}

fn name_of_type(names: &Vec<ApiTypeName>, lang: &str) -> (name: Option<String>)
    ensures
        name == type_name_in(names@, lang@),
{
    let lang = lang.to_owned();
    match find_first(names, &lang) {
        Some(i) => Some(names[i].name.clone()),
        None => None,
    }
}

fn push_efficacies(
    out: &mut Vec<ParsedTypeEfficacy>,
    attacker: i64,
    targets: &Vec<ApiTypeRef>,
    factor: i64,
)
    ensures
        final(out)@ == old(out)@ + efficacies_of(attacker, targets@, factor),
{
    let ghost before = out@;
    let mut i: usize = 0;
    assert(before + efficacies_of(attacker, targets@.take(0), factor) =~= before);
    while i < targets.len()
        invariant
            i <= targets.len(),
            out@ == before + efficacies_of(attacker, targets@.take(i as int), factor),
        decreases targets.len() - i,
    {
        assert(targets@.take(i + 1).drop_last() =~= targets@.take(i as int));
        match PokeApiClient::id_from_url(targets[i].url.as_str()) {
            Some(defender) => {
                out.push(
                    ParsedTypeEfficacy {
                        attacking_type_id: attacker,
                        defending_type_id: defender,
                        damage_factor: factor,
                    },
                );
                assert(out@ =~= before + efficacies_of(attacker, targets@.take(i + 1), factor));
            },
            None => {},
        }
        i += 1;
    }
    assert(targets@.take(targets@.len() as int) =~= targets@);
}

/// Extracts the cached records from the answer of the API: the type with its
/// English and French name, and its efficacy as attacker.
pub fn parse_type(api: ApiType) -> (parsed: (ParsedType, Vec<ParsedTypeEfficacy>))
    ensures
        parsed.0.id == api.id,
        parsed.0.name_key == api.name,
        parsed.0.name_en == type_name_in(api.names@, english()),
        parsed.0.name_fr == type_name_in(api.names@, french()),
        parsed.1@ == type_efficacies(api),
{
    let name_en = name_of_type(&api.names, "en");
    let name_fr = name_of_type(&api.names, "fr");
    let mut efficacies: Vec<ParsedTypeEfficacy> = Vec::new();
    push_efficacies(&mut efficacies, api.id, &api.damage_relations.double_damage_to, 200);
    push_efficacies(&mut efficacies, api.id, &api.damage_relations.half_damage_to, 50);
    push_efficacies(&mut efficacies, api.id, &api.damage_relations.no_damage_to, 0);
    assert(efficacies@ =~= type_efficacies(api));
    let parsed_type = ParsedType { id: api.id, name_key: api.name, name_en, name_fr };
    (parsed_type, efficacies)
}

} // verus!
