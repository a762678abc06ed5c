//! Games and the data files that describe them.

use vstd::prelude::*;

verus! {

/// A registered game.
#[derive(Debug, Clone)]
pub struct GameSummary {
    pub id: String,
    pub name_en: String,
    pub name_fr: Option<String>,
    pub base_rom: Option<String>,
    pub version: Option<String>,
    pub author: Option<String>,
    pub is_hackrom: i64,
    pub sort_order: i64,
    pub coverage: String,
}

/// What a game changes of a move.
#[derive(Debug, Clone)]
pub struct GameMoveOverride {
    pub game_id: String,
    pub move_name_key: String,
    pub power: Option<i64>,
    pub accuracy: Option<i64>,
    pub type_key: Option<String>,
    pub pp: Option<i64>,
    pub damage_class: Option<String>,
    pub effect_en: Option<String>,
}

/// A data file of a game.
#[derive(Debug, Clone)]
pub struct GameDataFile {
    pub game: GameMeta,
    pub pokemon_overrides: Vec<PokemonOverride>,
    pub move_overrides: Vec<MoveOverrideEntry>,
    pub item_locations: Vec<ItemLocationEntry>,
}

/// The head of a data file.
#[derive(Debug, Clone)]
pub struct GameMeta {
    pub id: String,
    pub name_en: String,
    pub name_fr: Option<String>,
    pub base_rom: Option<String>,
    pub version: Option<String>,
    pub author: Option<String>,
    pub is_hackrom: bool,
    pub sort_order: i64,
    pub coverage: String,
}

/// What a game changes of a creature.
#[derive(Debug, Clone)]
pub struct PokemonOverride {
    pub name_key: String,
    pub learnset: Vec<LearnsetEntry>,
    pub abilities: Vec<AbilityOverrideEntry>,
    pub evolution_method: Option<String>,
    pub locations: Vec<String>,
}

#[derive(Debug, Clone)]
pub struct LearnsetEntry {
    pub move_name_key: String,
    pub learn_method: String,
    pub level: i64,
}

#[derive(Debug, Clone)]
pub struct AbilityOverrideEntry {
    pub ability_key: String,
    pub slot: i64,
    pub is_hidden: bool,
}

#[derive(Debug, Clone)]
pub struct MoveOverrideEntry {
    pub name_key: String,
    pub power: Option<i64>,
    pub accuracy: Option<i64>,
    pub type_key: Option<String>,
    pub pp: Option<i64>,
    pub damage_class: Option<String>,
    pub effect_en: Option<String>,
}

#[derive(Debug, Clone)]
pub struct ItemLocationEntry {
    pub name_key: String,
    pub locations: Vec<String>,
}

/// The coverage of a game whose data file names none.
pub fn default_coverage() -> (coverage: String)
    ensures
        coverage@ == "full"@,
{
    "full".to_owned()
}

} // verus!
