//! What is written into the cache for a record: the row of the record itself
//! and the rows that hang on it, in the order in which they are written.

use crate::api::abilities::{ParsedAbility, ParsedAbilityPokemon};
use crate::api::items::ParsedItem;
use crate::api::moves::ParsedMove;
use crate::api::natures::ParsedNature;
use crate::api::pokemon::{ParsedAbility as SlotAbility, ParsedPokemon, ParsedPokemonMove};
use crate::api::types::{ParsedType, ParsedTypeEfficacy};
use crate::models::pokemon::EvolutionNode;
use crate::sync::worker::Record;
use vstd::prelude::*;

verus! {

/// One upsert into the cache.
#[derive(Debug)]
pub enum CacheWrite<'a> {
    /// A type.
    Type(&'a ParsedType),
    /// How much damage a type deals to another.
    TypeEfficacy(&'a ParsedTypeEfficacy),
    /// A move.
    Move(&'a ParsedMove),
    /// A creature.
    Pokemon(&'a ParsedPokemon),
    /// An ability in a slot of the creature `pokemon_id`.
    PokemonAbility { pokemon_id: i64, ability: &'a SlotAbility },
    /// That the creature `pokemon_id` learns the move `move_id`.
    PokemonMove { pokemon_id: i64, move_id: i64, learned: &'a ParsedPokemonMove },
    /// An item.
    Item(&'a ParsedItem),
    /// The evolution tree of the chain `chain_id`.
    EvolutionChain { chain_id: i64, root: &'a EvolutionNode },
    /// A nature.
    Nature(&'a ParsedNature),
    /// An ability.
    Ability(&'a ParsedAbility),
    /// That a creature has the ability `ability_id`.
    AbilityPokemon { ability_id: i64, holder: &'a ParsedAbilityPokemon },
}

/// One write for each efficacy entry, in order.
pub open spec fn efficacy_writes<'a>(entries: Seq<ParsedTypeEfficacy>) -> Seq<CacheWrite<'a>> {
    Seq::new(entries.len(), |i: int| CacheWrite::TypeEfficacy(&entries[i]))
}

/// One write for each slot of a creature, in order.
pub open spec fn slot_writes<'a>(pokemon_id: i64, slots: Seq<SlotAbility>) -> Seq<CacheWrite<'a>> {
    Seq::new(
        slots.len(),
        |i: int| CacheWrite::PokemonAbility { pokemon_id, ability: &slots[i] },
    )
}

/// One write for each move of a creature whose identifier is known, in order;
/// a move without an identifier cannot be referred to and is left out.
pub open spec fn move_writes<'a>(pokemon_id: i64, moves: Seq<ParsedPokemonMove>) -> Seq<
    CacheWrite<'a>,
>
    decreases moves.len(),
{
    if moves.len() == 0 {
        Seq::empty()
    } else {
        let before = move_writes(pokemon_id, moves.drop_last());
        match moves.last().move_id {
            Some(move_id) => before.push(
                CacheWrite::PokemonMove { pokemon_id, move_id, learned: &moves.last() },
            ),
            None => before,
        }
    }
}

/// One write for each creature that has an ability, in order.
pub open spec fn holder_writes<'a>(ability_id: i64, holders: Seq<ParsedAbilityPokemon>) -> Seq<
    CacheWrite<'a>,
> {
    Seq::new(
        holders.len(),
        |i: int| CacheWrite::AbilityPokemon { ability_id, holder: &holders[i] },
    )
}

/// The writes that store a record: the row of the record first, then the
/// rows that hang on it. A type is followed by its efficacy, a creature by its
/// abilities and then its moves, an ability by the creatures that have it.
pub open spec fn writes_of<'a>(record: Record) -> Seq<CacheWrite<'a>> {
    match record {
        Record::Type(parsed, efficacies) => seq![CacheWrite::Type(&parsed)] + efficacy_writes(
            efficacies@,
        ),
        Record::Move(parsed) => seq![CacheWrite::Move(&parsed)],
        Record::Pokemon(parsed) => seq![CacheWrite::Pokemon(&parsed)] + slot_writes(
            parsed.id,
            parsed.abilities@,
        ) + move_writes(parsed.id, parsed.moves@),
        Record::Item(parsed) => seq![CacheWrite::Item(&parsed)],
        Record::EvolutionChain(chain_id, root) => seq![
            CacheWrite::EvolutionChain { chain_id, root: &root },
        ],
        Record::Nature(parsed) => seq![CacheWrite::Nature(&parsed)],
        Record::Ability(parsed) => seq![CacheWrite::Ability(&parsed)] + holder_writes(
            parsed.id,
            parsed.pokemon@,
        ),
    }
}

fn push_efficacy_writes<'a>(out: &mut Vec<CacheWrite<'a>>, entries: &'a Vec<ParsedTypeEfficacy>)
    ensures
        final(out)@ == old(out)@ + efficacy_writes(entries@),
{
    let ghost before = out@;
    let mut i: usize = 0;
    while i < entries.len()
        invariant
            i <= entries.len(),
            out@.len() == before.len() + i,
            forall|j: int| 0 <= j < before.len() ==> out@[j] == before[j],
            forall|j: int|
                0 <= j < i ==> out@[before.len() + j] == CacheWrite::TypeEfficacy(&entries@[j]),
        decreases entries.len() - i,
    {
        out.push(CacheWrite::TypeEfficacy(&entries[i]));
        i += 1;
    }
    assert(out@ =~= before + efficacy_writes(entries@));
}

fn push_slot_writes<'a>(
    out: &mut Vec<CacheWrite<'a>>,
    pokemon_id: i64,
    slots: &'a Vec<SlotAbility>,
)
    ensures
        final(out)@ == old(out)@ + slot_writes(pokemon_id, slots@),
{
    let ghost before = out@;
    let mut i: usize = 0;
    while i < slots.len()
        invariant
            i <= slots.len(),
            out@.len() == before.len() + i,
            forall|j: int| 0 <= j < before.len() ==> out@[j] == before[j],
            forall|j: int|
                0 <= j < i ==> out@[before.len() + j] == (CacheWrite::PokemonAbility {
                    pokemon_id,
                    ability: &slots@[j],
                }),
        decreases slots.len() - i,
    {
        out.push(CacheWrite::PokemonAbility { pokemon_id, ability: &slots[i] });
        i += 1;
    }
    assert(out@ =~= before + slot_writes(pokemon_id, slots@));
}

fn push_move_writes<'a>(
    out: &mut Vec<CacheWrite<'a>>,
    pokemon_id: i64,
    moves: &'a Vec<ParsedPokemonMove>,
)
    ensures
        final(out)@ == old(out)@ + move_writes(pokemon_id, moves@),
{
    let ghost before = out@;
    let mut i: usize = 0;
    assert(before + move_writes(pokemon_id, moves@.take(0)) =~= before);
    while i < moves.len()
        invariant
            i <= moves.len(),
            out@ == before + move_writes(pokemon_id, moves@.take(i as int)),
        decreases moves.len() - i,
    {
        assert(moves@.take(i + 1).drop_last() =~= moves@.take(i as int));
        match moves[i].move_id {
            Some(move_id) => {
                out.push(CacheWrite::PokemonMove { pokemon_id, move_id, learned: &moves[i] });
                assert(out@ =~= before + move_writes(pokemon_id, moves@.take(i + 1)));
            },
            None => {},
        }
        i += 1;
    }
    assert(moves@.take(moves@.len() as int) =~= moves@);
}

fn push_holder_writes<'a>(
    out: &mut Vec<CacheWrite<'a>>,
    ability_id: i64,
    holders: &'a Vec<ParsedAbilityPokemon>,
)
    ensures
        final(out)@ == old(out)@ + holder_writes(ability_id, holders@),
{
    let ghost before = out@;
    let mut i: usize = 0;
    while i < holders.len()
        invariant
            i <= holders.len(),
            out@.len() == before.len() + i,
            forall|j: int| 0 <= j < before.len() ==> out@[j] == before[j],
            forall|j: int|
                0 <= j < i ==> out@[before.len() + j] == (CacheWrite::AbilityPokemon {
                    ability_id,
                    holder: &holders@[j],
                }),
        decreases holders.len() - i,
    {
        out.push(CacheWrite::AbilityPokemon { ability_id, holder: &holders[i] });
        i += 1;
    }
    assert(out@ =~= before + holder_writes(ability_id, holders@));
}

/// The writes that store `record`, in the order in which they are made. Each
/// is made whatever became of those before it.
pub fn writes<'a>(record: &'a Record) -> (plan: Vec<CacheWrite<'a>>)
    ensures
        plan@ == writes_of(*record),
{
    let mut plan: Vec<CacheWrite<'a>> = Vec::new();
    match record {
        Record::Type(parsed, efficacies) => {
            plan.push(CacheWrite::Type(parsed));
            push_efficacy_writes(&mut plan, efficacies);
        },
        Record::Move(parsed) => {
            plan.push(CacheWrite::Move(parsed));
        },
        Record::Pokemon(parsed) => {
            plan.push(CacheWrite::Pokemon(parsed));
            push_slot_writes(&mut plan, parsed.id, &parsed.abilities);
            push_move_writes(&mut plan, parsed.id, &parsed.moves);
        },
        Record::Item(parsed) => {
            plan.push(CacheWrite::Item(parsed));
        },
        Record::EvolutionChain(chain_id, root) => {
            plan.push(CacheWrite::EvolutionChain { chain_id: *chain_id, root });
        },
        Record::Nature(parsed) => {
            plan.push(CacheWrite::Nature(parsed));
        },
        Record::Ability(parsed) => {
            plan.push(CacheWrite::Ability(parsed));
            push_holder_writes(&mut plan, parsed.id, &parsed.pokemon);
        },
    }
    assert(plan@ =~= writes_of(*record));
    plan
}

} // verus!
