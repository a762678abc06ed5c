//! Creatures: the answer of the API and the record that is cached.

use crate::api::client::{id_from_url_spec, PokeApiClient};
use vstd::prelude::*;

verus! {

#[derive(Debug)]
pub struct ApiPokemon {
    pub id: i64,
    pub name: String,
    pub height: Option<i64>,
    pub weight: Option<i64>,
    pub types: Vec<ApiPokemonTypeSlot>,
    pub stats: Vec<ApiPokemonStat>,
    pub abilities: Vec<ApiPokemonAbilitySlot>,
    pub moves: Vec<ApiPokemonMoveEntry>,
    pub sprites: ApiSprites,
    pub species: ApiResourceRef,
}

#[derive(Debug)]
pub struct ApiPokemonTypeSlot {
    pub slot: i64,
    pub type_info: ApiResourceRef,
}

#[derive(Debug)]
pub struct ApiPokemonStat {
    pub base_stat: i64,
    pub stat: ApiResourceRef,
}

#[derive(Debug)]
pub struct ApiPokemonAbilitySlot {
    pub ability: ApiResourceRef,
    pub is_hidden: bool,
    pub slot: i64,
}

#[derive(Debug)]
pub struct ApiPokemonMoveEntry {
    pub move_info: ApiResourceRef,
    pub version_group_details: Vec<ApiVersionGroupDetail>,
}

#[derive(Debug)]
pub struct ApiVersionGroupDetail {
    pub level_learned_at: i64,
    pub move_learn_method: ApiResourceRef,
    pub version_group: ApiResourceRef,
}

#[derive(Debug)]
pub struct ApiSprites {
    pub front_default: Option<String>,
    pub other: Option<ApiOtherSprites>,
}

#[derive(Debug)]
pub struct ApiOtherSprites {
    pub official_artwork: Option<ApiOfficialArtwork>,
}

#[derive(Debug)]
pub struct ApiOfficialArtwork {
    pub front_default: Option<String>,
}

#[derive(Debug, Clone)]
pub struct ApiResourceRef {
    pub name: String,
    pub url: String,
}

/// A creature as it is cached.
#[derive(Debug, Clone)]
pub struct ParsedPokemon {
    pub id: i64,
    pub name_key: String,
    pub type1_key: Option<String>,
    pub type2_key: Option<String>,
    pub hp: i64,
    pub atk: i64,
    pub def: i64,
    pub spa: i64,
    pub spd: i64,
    pub spe: i64,
    pub base_stat_total: i64,
    pub sprite_url: Option<String>,
    pub height: Option<i64>,
    pub weight: Option<i64>,
    pub species_url: String,
    pub abilities: Vec<ParsedAbility>,
    pub moves: Vec<ParsedPokemonMove>,
    pub version_group_moves: Vec<ParsedVersionGroupMove>,
}

/// An ability in one of the slots of a creature.
#[derive(Debug, Clone)]
pub struct ParsedAbility {
    pub ability_key: String,
    pub is_hidden: bool,
    pub slot: i64,
}

/// A move of a creature, as the most recent game teaches it.
#[derive(Debug, Clone)]
pub struct ParsedPokemonMove {
    pub move_name: String,
    pub move_id: Option<i64>,
    pub learn_method: String,
    pub level_learned_at: i64,
}

/// A move of a creature in one version group.
#[derive(Debug, Clone)]
pub struct ParsedVersionGroupMove {
    pub version_group: String,
    pub move_name: String,
    pub learn_method: String,
    pub level_learned_at: i64,
}

/// The name of the type in the first slot that is numbered `slot`.
pub open spec fn type_in_slot(types: Seq<ApiPokemonTypeSlot>, slot: i64) -> Option<String>
    decreases types.len(),
{
    if types.len() == 0 {
        None
    } else if types[0].slot == slot {
        Some(types[0].type_info.name)
    } else {
        type_in_slot(types.drop_first(), slot)
    }
}

/// The value of the first stat that is called `name`; zero when there is none.
pub open spec fn base_stat(stats: Seq<ApiPokemonStat>, name: Seq<char>) -> i64
    decreases stats.len(),
{
    if stats.len() == 0 {
        0
    } else if stats[0].stat.name@ == name {
        stats[0].base_stat
    } else {
        base_stat(stats.drop_first(), name)
    }
}

/// The sum of the six stats.
pub open spec fn base_stat_total(stats: Seq<ApiPokemonStat>) -> int {
    base_stat(stats, "hp"@) + base_stat(stats, "attack"@) + base_stat(stats, "defense"@)
        + base_stat(stats, "special-attack"@) + base_stat(stats, "special-defense"@) + base_stat(
        stats,
        "speed"@,
    )
}

/// Whether the sum of the six stats can be held in an `i64`.
pub open spec fn stats_fit(stats: Seq<ApiPokemonStat>) -> bool {
    i64::MIN <= base_stat_total(stats) <= i64::MAX
}

/// The official artwork among the sprites, if there is one.
pub open spec fn official_artwork(sprites: ApiSprites) -> Option<String> {
    match sprites.other {
        Some(other) => match other.official_artwork {
            Some(artwork) => artwork.front_default,
            None => None,
        },
        None => None,
    }
}

/// The sprite that is cached: the official artwork, or else the default front
/// sprite.
pub open spec fn preferred_sprite(sprites: ApiSprites) -> Option<String> {
    if official_artwork(sprites) is Some {
        official_artwork(sprites)
    } else {
        sprites.front_default
    }
}

/// The ability of one slot.
pub open spec fn slot_ability(slot: ApiPokemonAbilitySlot) -> ParsedAbility {
    ParsedAbility { ability_key: slot.ability.name, is_hidden: slot.is_hidden, slot: slot.slot }
}

/// How the most recent game teaches a move: the last of its version group
/// details. None where the move has no such detail.
pub open spec fn latest_move(entry: ApiPokemonMoveEntry) -> Option<ParsedPokemonMove> {
    if entry.version_group_details.len() == 0 {
        None
    } else {
        let detail = entry.version_group_details@.last();
        Some(
            ParsedPokemonMove {
                move_name: entry.move_info.name,
                move_id: id_from_url_spec(entry.move_info.url@),
                learn_method: detail.move_learn_method.name,
                level_learned_at: detail.level_learned_at,
            },
        )
    }
}

/// The moves of a creature as the most recent game teaches them, in the order
/// of the answer, moves without any detail left out.
pub open spec fn latest_moves(entries: Seq<ApiPokemonMoveEntry>) -> Seq<ParsedPokemonMove>
    decreases entries.len(),
{
    if entries.len() == 0 {
        Seq::empty()
    } else {
        match latest_move(entries.last()) {
            Some(m) => latest_moves(entries.drop_last()).push(m),
            None => latest_moves(entries.drop_last()),
        }
    }
}

/// One detail of a move as a version group teaches it.
pub open spec fn version_group_move(
    entry: ApiPokemonMoveEntry,
    detail: ApiVersionGroupDetail,
) -> ParsedVersionGroupMove {
    ParsedVersionGroupMove {
        version_group: detail.version_group.name,
        move_name: entry.move_info.name,
        learn_method: detail.move_learn_method.name,
        level_learned_at: detail.level_learned_at,
    }
}

/// All the details of one move, in order.
pub open spec fn version_group_moves_of(entry: ApiPokemonMoveEntry) -> Seq<
    ParsedVersionGroupMove,
> {
    Seq::new(
        entry.version_group_details.len() as nat,
        |i: int| version_group_move(entry, entry.version_group_details[i]),
    )
}

/// All the details of all the moves, move by move.
pub open spec fn version_group_moves(entries: Seq<ApiPokemonMoveEntry>) -> Seq<
    ParsedVersionGroupMove,
>
    decreases entries.len(),
{
    if entries.len() == 0 {
        Seq::empty()
    } else {
        version_group_moves(entries.drop_last()) + version_group_moves_of(entries.last())
    }
}

fn find_type(types: &Vec<ApiPokemonTypeSlot>, slot: i64) -> (name: Option<String>)
    ensures
        name == type_in_slot(types@, slot),
{
    let mut i: usize = 0;
    assert(types@.skip(0) =~= types@);
    while i < types.len()
        invariant
            i <= types.len(),
            type_in_slot(types@, slot) == type_in_slot(types@.skip(i as int), slot),
        decreases types.len() - i,
    {
        if types[i].slot == slot {
            return Some(types[i].type_info.name.clone());
        }
        assert(types@.skip(i as int).drop_first() =~= types@.skip(i + 1));
        i += 1;
    }
    None
}

fn find_stat(stats: &Vec<ApiPokemonStat>, name: &str) -> (value: i64)
    ensures
        value == base_stat(stats@, name@),
{
    let wanted = name.to_owned();
    let mut i: usize = 0;
    assert(stats@.skip(0) =~= stats@);
    while i < stats.len()
        invariant
            i <= stats.len(),
            wanted@ == name@,
            base_stat(stats@, name@) == base_stat(stats@.skip(i as int), name@),
        decreases stats.len() - i,
    {
        if stats[i].stat.name == wanted {
            return stats[i].base_stat;
        }
        assert(stats@.skip(i as int).drop_first() =~= stats@.skip(i + 1));
        i += 1;
    }
    0
}

fn clone_text(text: &Option<String>) -> (copy: Option<String>)
    ensures
        copy == *text,
{
    match text {
        Some(t) => Some(t.clone()),
        None => None,
    }
}

fn choose_sprite(sprites: &ApiSprites) -> (url: Option<String>)
    ensures
        url == preferred_sprite(*sprites),
{
    let official = match &sprites.other {
        Some(other) => match &other.official_artwork {
            Some(artwork) => clone_text(&artwork.front_default),
            None => None,
        },
        None => None,
    };
    match official {
        Some(url) => Some(url),
        None => clone_text(&sprites.front_default),
    }
}

fn collect_abilities(slots: &Vec<ApiPokemonAbilitySlot>) -> (out: Vec<ParsedAbility>)
    ensures
        out@ == slots@.map_values(|s: ApiPokemonAbilitySlot| slot_ability(s)),
{
    let mut out: Vec<ParsedAbility> = Vec::new();
    let mut i: usize = 0;
    while i < slots.len()
        invariant
            i <= slots.len(),
            out.len() == i,
            forall|j: int| 0 <= j < i ==> out@[j] == slot_ability(slots@[j]),
        decreases slots.len() - i,
    {
        out.push(
            ParsedAbility {
                ability_key: slots[i].ability.name.clone(),
                is_hidden: slots[i].is_hidden,
                slot: slots[i].slot,
            },
        );
        i += 1;
    }
    assert(out@ =~= slots@.map_values(|s: ApiPokemonAbilitySlot| slot_ability(s)));
    out
}

fn collect_latest_moves(entries: &Vec<ApiPokemonMoveEntry>) -> (out: Vec<ParsedPokemonMove>)
    ensures
        out@ == latest_moves(entries@),
{
    let mut out: Vec<ParsedPokemonMove> = Vec::new();
    let mut i: usize = 0;
    while i < entries.len()
        invariant
            i <= entries.len(),
            out@ == latest_moves(entries@.take(i as int)),
        decreases entries.len() - i,
    {
        assert(entries@.take(i + 1).drop_last() =~= entries@.take(i as int));
        let entry = &entries[i];
        let count = entry.version_group_details.len();
        if count > 0 {
            let detail = &entry.version_group_details[count - 1];
            out.push(
                ParsedPokemonMove {
                    move_name: entry.move_info.name.clone(),
                    move_id: PokeApiClient::id_from_url(entry.move_info.url.as_str()),
                    learn_method: detail.move_learn_method.name.clone(),
                    level_learned_at: detail.level_learned_at,
                },
            );
        }
        i += 1;
    }
    assert(entries@.take(entries@.len() as int) =~= entries@);
    out
}

fn collect_version_group_moves(entries: &Vec<ApiPokemonMoveEntry>) -> (out: Vec<
    ParsedVersionGroupMove,
>)
    ensures
        out@ == version_group_moves(entries@),
{
    let mut out: Vec<ParsedVersionGroupMove> = Vec::new();
    let mut i: usize = 0;
    while i < entries.len()
        invariant
            i <= entries.len(),
            out@ == version_group_moves(entries@.take(i as int)),
        decreases entries.len() - i,
    {
        assert(entries@.take(i + 1).drop_last() =~= entries@.take(i as int));
        let entry = &entries[i];
        let ghost before = out@;
        let mut k: usize = 0;
        while k < entry.version_group_details.len()
            invariant
                k <= entry.version_group_details.len(),
                out@.len() == before.len() + k,
                forall|j: int| 0 <= j < before.len() ==> out@[j] == before[j],
                forall|j: int|
                    0 <= j < k ==> out@[before.len() + j] == version_group_move(
                        *entry,
                        entry.version_group_details@[j],
                    ),
            decreases entry.version_group_details.len() - k,
        {
            let detail = &entry.version_group_details[k];
            out.push(
                ParsedVersionGroupMove {
                    version_group: detail.version_group.name.clone(),
                    move_name: entry.move_info.name.clone(),
                    learn_method: detail.move_learn_method.name.clone(),
                    level_learned_at: detail.level_learned_at,
                },
            );
            k += 1;
        }
        assert(out@ =~= before + version_group_moves_of(*entry));
        i += 1;
    }
    assert(entries@.take(entries@.len() as int) =~= entries@);
    out
}

/// Whether the six stats of the answer add up within the range of `i64`.
pub fn stats_in_range(api: &ApiPokemon) -> (fit: bool)
    ensures
        fit == stats_fit(api.stats@),
{
    let total: i128 = find_stat(&api.stats, "hp") as i128 + find_stat(&api.stats, "attack") as i128
        + find_stat(&api.stats, "defense") as i128 + find_stat(&api.stats, "special-attack") as i128
        + find_stat(&api.stats, "special-defense") as i128 + find_stat(&api.stats, "speed") as i128;
    -0x8000_0000_0000_0000 <= total && total <= 0x7fff_ffff_ffff_ffff
}

/// Extracts the cached record from the answer of the API: the types of the
/// first and the second slot, the six stats and their sum, the official
/// artwork or else the default sprite, the abilities slot by slot, each move
/// as the most recent game teaches it, and every version group detail.
pub fn parse_pokemon(api: ApiPokemon) -> (parsed: ParsedPokemon)
    requires
        stats_fit(api.stats@),
    ensures
        parsed.id == api.id,
        parsed.name_key == api.name,
        parsed.type1_key == type_in_slot(api.types@, 1),
        parsed.type2_key == type_in_slot(api.types@, 2),
        parsed.hp == base_stat(api.stats@, "hp"@),
        parsed.atk == base_stat(api.stats@, "attack"@),
        parsed.def == base_stat(api.stats@, "defense"@),
        parsed.spa == base_stat(api.stats@, "special-attack"@),
        parsed.spd == base_stat(api.stats@, "special-defense"@),
        parsed.spe == base_stat(api.stats@, "speed"@),
        parsed.base_stat_total == base_stat_total(api.stats@),
        parsed.sprite_url == preferred_sprite(api.sprites),
        parsed.height == api.height,
        parsed.weight == api.weight,
        parsed.species_url == api.species.url,
        parsed.abilities@ == api.abilities@.map_values(|s: ApiPokemonAbilitySlot| slot_ability(s)),
        parsed.moves@ == latest_moves(api.moves@),
        parsed.version_group_moves@ == version_group_moves(api.moves@),
{
    let type1 = find_type(&api.types, 1);
    let type2 = find_type(&api.types, 2);
    let hp = find_stat(&api.stats, "hp");
    let atk = find_stat(&api.stats, "attack");
    let def = find_stat(&api.stats, "defense");
    let spa = find_stat(&api.stats, "special-attack");
    let spd = find_stat(&api.stats, "special-defense");
    let spe = find_stat(&api.stats, "speed");
    let total: i128 = hp as i128 + atk as i128 + def as i128 + spa as i128 + spd as i128
        + spe as i128;
    let sprite_url = choose_sprite(&api.sprites);
    let abilities = collect_abilities(&api.abilities);
    let moves = collect_latest_moves(&api.moves);
    let version_group_moves = collect_version_group_moves(&api.moves);
    ParsedPokemon {
        id: api.id,
        name_key: api.name,
        type1_key: type1,
        type2_key: type2,
        hp,
        atk,
        def,
        spa,
        spd,
        spe,
        base_stat_total: total as i64,
        sprite_url,
        height: api.height,
        weight: api.weight,
        species_url: api.species.url,
        abilities,
        moves,
        version_group_moves,
    }
}

} // verus!
