//! Creatures as readers of the cache see them, and evolution trees.

use vstd::prelude::*;

verus! {

/// A creature in list views, with its stats for comparing and sorting.
#[derive(Debug, Clone)]
pub struct PokemonSummary {
    pub id: i64,
    pub name_key: String,
    pub name_en: Option<String>,
    pub name_fr: Option<String>,
    pub type1_key: Option<String>,
    pub type2_key: Option<String>,
    pub hp: Option<i64>,
    pub atk: Option<i64>,
    pub def: Option<i64>,
    pub spa: Option<i64>,
    pub spd: Option<i64>,
    pub spe: Option<i64>,
    pub base_stat_total: Option<i64>,
    pub sprite_url: Option<String>,
}

/// A creature in full: stats, description, size.
#[derive(Debug, Clone)]
pub struct PokemonDetail {
    pub id: i64,
    pub name_key: String,
    pub name_en: Option<String>,
    pub name_fr: Option<String>,
    pub type1_key: Option<String>,
    pub type2_key: Option<String>,
    pub hp: Option<i64>,
    pub atk: Option<i64>,
    pub def: Option<i64>,
    pub spa: Option<i64>,
    pub spd: Option<i64>,
    pub spe: Option<i64>,
    pub base_stat_total: Option<i64>,
    pub sprite_url: Option<String>,
    pub evolution_chain_id: Option<i64>,
    pub description_en: Option<String>,
    pub description_fr: Option<String>,
    pub height: Option<i64>,
    pub weight: Option<i64>,
}

/// An ability of a creature.
#[derive(Debug, Clone)]
pub struct PokemonAbility {
    pub pokemon_id: i64,
    pub ability_key: String,
    pub ability_en: Option<String>,
    pub ability_fr: Option<String>,
    pub is_hidden: i64,
    pub slot: i64,
}

/// A move that a creature learns, with the fields of the move itself.
#[derive(Debug, Clone)]
pub struct PokemonMoveEntry {
    pub pokemon_id: i64,
    pub move_id: i64,
    pub learn_method: String,
    pub level_learned_at: i64,
    pub name_key: Option<String>,
    pub name_en: Option<String>,
    pub name_fr: Option<String>,
    pub type_key: Option<String>,
    pub damage_class: Option<String>,
    pub power: Option<i64>,
    pub accuracy: Option<i64>,
    pub pp: Option<i64>,
}

/// A node of an evolution tree.
#[derive(Debug)]
pub struct EvolutionNode {
    pub pokemon_id: Option<i64>,
    pub name_key: String,
    pub name_en: Option<String>,
    pub name_fr: Option<String>,
    pub sprite_url: Option<String>,
    pub trigger: Option<String>,
    pub trigger_detail: Option<String>,
    pub evolves_to: Vec<EvolutionNode>,
}

/// Whether two trees have the same shape and hold the same values node by
/// node.
pub open spec fn same_tree(a: EvolutionNode, b: EvolutionNode) -> bool
    decreases a,
{
    &&& a.pokemon_id == b.pokemon_id
    &&& a.name_key == b.name_key
    &&& a.name_en == b.name_en
    &&& a.name_fr == b.name_fr
    &&& a.sprite_url == b.sprite_url
    &&& a.trigger == b.trigger
    &&& a.trigger_detail == b.trigger_detail
    &&& a.evolves_to.len() == b.evolves_to.len()
    &&& forall|i: int|
        0 <= i < a.evolves_to.len() ==> same_tree(#[trigger] a.evolves_to[i], b.evolves_to[i])
}

fn clone_text(text: &Option<String>) -> (copy: Option<String>)
    ensures
        copy == *text,
{
    match text {
        Some(t) => Some(t.clone()),
        None => None,
    }
}

impl Clone for EvolutionNode {
    /// A copy of the whole tree.
    fn clone(&self) -> (copy: Self)
        ensures
            same_tree(*self, copy),
        decreases self,
    {
        let mut evolves_to: Vec<EvolutionNode> = Vec::new();
        let mut i: usize = 0;
        while i < self.evolves_to.len()
            invariant
                i <= self.evolves_to.len(),
                evolves_to.len() == i,
                forall|j: int|
                    0 <= j < i ==> same_tree(#[trigger] self.evolves_to[j], evolves_to[j]),
            decreases self.evolves_to.len() - i,
        {
            let child = self.evolves_to[i].clone();
            evolves_to.push(child);
            i += 1;
        }
        EvolutionNode {
            pokemon_id: self.pokemon_id,
            name_key: self.name_key.clone(),
            name_en: clone_text(&self.name_en),
            name_fr: clone_text(&self.name_fr),
            sprite_url: clone_text(&self.sprite_url),
            trigger: clone_text(&self.trigger),
            trigger_detail: clone_text(&self.trigger_detail),
            evolves_to,
        }
    }
}

/// The identifiers of a node and of the subtrees of its first `children`
/// children, the node first, then the subtrees from left to right.
pub open spec fn chain_ids_upto(node: EvolutionNode, children: nat) -> Seq<i64>
    decreases node, children,
{
    if children == 0 {
        match node.pokemon_id {
            Some(id) => seq![id],
            None => Seq::empty(),
        }
    } else if children <= node.evolves_to.len() {
        let child = node.evolves_to[children - 1];
        chain_ids_upto(node, (children - 1) as nat) + chain_ids_upto(
            child,
            child.evolves_to.len() as nat,
        )
    } else {
        chain_ids_upto(node, (children - 1) as nat)
    }
}

/// The identifiers of all the creatures of an evolution tree, each node before
/// its children, the children from left to right.
pub open spec fn chain_ids(node: EvolutionNode) -> Seq<i64> {
    chain_ids_upto(node, node.evolves_to.len() as nat)
}

/// Appends to `ids` the identifiers of all the creatures of the tree.
pub fn collect_chain_ids(node: &EvolutionNode, ids: &mut Vec<i64>)
    ensures
        final(ids)@ == old(ids)@ + chain_ids(*node),
    decreases node,
{
    let ghost before = ids@;
    match node.pokemon_id {
        Some(id) => {
            ids.push(id);
        },
        None => {},
    }
    assert(ids@ =~= before + chain_ids_upto(*node, 0));
    let mut i: usize = 0;
    while i < node.evolves_to.len()
        invariant
            i <= node.evolves_to.len(),
            ids@ == before + chain_ids_upto(*node, i as nat),
        decreases node.evolves_to.len() - i,
    {
        let ghost so_far = ids@;
        collect_chain_ids(&node.evolves_to[i], ids);
        i += 1;
        assert(ids@ =~= before + chain_ids_upto(*node, i as nat));
    }
}

/// The creatures among `all` whose identifier is none of `base`, in order.
pub open spec fn forms_outside(all: Seq<PokemonSummary>, base: Seq<i64>) -> Seq<PokemonSummary>
    decreases all.len(),
{
    if all.len() == 0 {
        Seq::empty()
    } else if base.contains(all.last().id) {
        forms_outside(all.drop_last(), base)
    } else {
        forms_outside(all.drop_last(), base).push(all.last())
    }
}

fn holds(ids: &Vec<i64>, id: i64) -> (found: bool)
    ensures
        found == ids@.contains(id),
{
    let mut i: usize = 0;
    while i < ids.len()
        invariant
            i <= ids.len(),
            forall|j: int| 0 <= j < i ==> ids@[j] != id,
        decreases ids.len() - i,
    {
        if ids[i] == id {
            return true;
        }
        i += 1;
    }
    false
}

/// The alternate forms of an evolution chain: of all the creatures that
/// belong to the chain, those that are no node of its tree. None where the
/// tree names no creature.
pub fn alternate_forms(chain: Option<&EvolutionNode>, all: Vec<PokemonSummary>) -> (forms: Vec<
    PokemonSummary,
>)
    ensures
        forms@ == match chain {
            Some(root) => if chain_ids(*root).len() == 0 {
                Seq::empty()
            } else {
                forms_outside(all@, chain_ids(*root))
            },
            None => Seq::empty(),
        },
{
    let mut base: Vec<i64> = Vec::new();
    match chain {
        Some(root) => {
            collect_chain_ids(root, &mut base);
            assert(base@ =~= chain_ids(*root));
        },
        None => {},
    }
    let mut forms: Vec<PokemonSummary> = Vec::new();
    if base.len() == 0 {
        return forms;
    }
    for summary in it: all.into_iter()
        invariant
            it.seq() == all@,
            forms@ == forms_outside(it.seq().take(it.index() as int), base@),
    {
        assert(it.seq().take(it.index() + 1).drop_last() =~= it.seq().take(it.index() as int));
        if !holds(&base, summary.id) {
            forms.push(summary);
        }
    }
    assert(all@.take(all@.len() as int) =~= all@);
    forms
}

} // verus!
