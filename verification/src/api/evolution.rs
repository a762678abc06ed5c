//! Evolution chains: the answer of the API and the tree that is cached.

use crate::api::client::{id_from_url_spec, PokeApiClient};
use crate::models::pokemon::EvolutionNode;
use crate::text::{decimal, join, lemma_join_push, push_decimal, push_str, string_of, text_of};
use vstd::prelude::*;

verus! {

#[derive(Debug)]
pub struct ApiEvolutionChain {
    pub id: i64,
    pub chain: ApiChainLink,
}

#[derive(Debug)]
pub struct ApiChainLink {
    pub species: ApiEvoResourceRef,
    pub evolution_details: Vec<ApiEvolutionDetail>,
    pub evolves_to: Vec<ApiChainLink>,
}

#[derive(Debug)]
pub struct ApiEvolutionDetail {
    pub trigger: Option<ApiEvoResourceRef>,
    pub min_level: Option<i64>,
    pub item: Option<ApiEvoResourceRef>,
    pub held_item: Option<ApiEvoResourceRef>,
    pub min_happiness: Option<i64>,
    pub time_of_day: Option<String>,
    pub known_move: Option<ApiEvoResourceRef>,
    pub location: Option<ApiEvoResourceRef>,
}

#[derive(Debug)]
pub struct ApiEvoResourceRef {
    pub name: String,
    pub url: String,
}

/// What separates the conditions of an evolution in its description.
pub open spec fn part_separator() -> Seq<char> {
    ", "@
}

/// The condition that a number gives: the label, then the number in decimal.
pub open spec fn number_part(label: Seq<char>, number: Option<i64>) -> Seq<Seq<char>> {
    match number {
        Some(n) => seq![label + decimal(n as int)],
        None => Seq::empty(),
    }
}

/// The condition that a reference gives: the label, then the name referred to.
pub open spec fn name_part(label: Seq<char>, reference: Option<ApiEvoResourceRef>) -> Seq<
    Seq<char>,
> {
    match reference {
        Some(r) => seq![label + r.name@],
        None => Seq::empty(),
    }
}

/// The condition that a time of day gives, unless it is empty.
pub open spec fn time_part(label: Seq<char>, time: Option<String>) -> Seq<Seq<char>> {
    match time {
        Some(t) => if t@.len() > 0 {
            seq![label + t@]
        } else {
            Seq::empty()
        },
        None => Seq::empty(),
    }
}

/// The conditions of an evolution, in the order in which they are described:
/// level, item used, item held, happiness, time of day, move known, location.
pub open spec fn trigger_parts(detail: ApiEvolutionDetail) -> Seq<Seq<char>> {
    number_part("Level "@, detail.min_level) + name_part("Use "@, detail.item) + name_part(
        "Hold "@,
        detail.held_item,
    ) + number_part("Happiness "@, detail.min_happiness) + time_part("at "@, detail.time_of_day)
        + name_part("Know "@, detail.known_move) + name_part("at "@, detail.location)
}

/// The description of an evolution: its conditions separated by a comma and a
/// space; none when it has no condition.
pub open spec fn trigger_detail_spec(detail: ApiEvolutionDetail) -> Option<Seq<char>> {
    let parts = trigger_parts(detail);
    if parts.len() == 0 {
        None
    } else {
        Some(join(parts, part_separator()))
    }
}

/// The name of the trigger of the first way to evolve, if there is one.
pub open spec fn first_trigger(details: Seq<ApiEvolutionDetail>) -> Option<String> {
    if details.len() == 0 {
        None
    } else {
        match details[0].trigger {
            Some(t) => Some(t.name),
            None => None,
        }
    }
}

/// The description of the first way to evolve, if there is one.
pub open spec fn first_trigger_detail(details: Seq<ApiEvolutionDetail>) -> Option<Seq<char>> {
    if details.len() == 0 {
        None
    } else {
        trigger_detail_spec(details[0])
    }
}

/// Whether `node` is the tree that the chain link `link` describes: at each
/// node the identifier at the end of the address of the species, its name as
/// key, no localized name and no sprite yet, the trigger and the description
/// of the first way to evolve, and one child for each link that follows.
pub open spec fn node_of_link(link: ApiChainLink, node: EvolutionNode) -> bool
    decreases link,
{
    &&& node.pokemon_id == id_from_url_spec(link.species.url@)
    &&& node.name_key == link.species.name
    &&& node.name_en is None
    &&& node.name_fr is None
    &&& node.sprite_url is None
    &&& node.trigger == first_trigger(link.evolution_details@)
    &&& text_of(node.trigger_detail) == first_trigger_detail(link.evolution_details@)
    &&& node.evolves_to.len() == link.evolves_to.len()
    &&& forall|i: int|
        0 <= i < link.evolves_to.len() ==> node_of_link(
            #[trigger] link.evolves_to[i],
            node.evolves_to[i],
        )
}

/// The conditions written so far, joined.
struct Conditions {
    text: Vec<char>,
    any: bool,
    parts: Ghost<Seq<Seq<char>>>,
}

impl Conditions {
    spec fn wf(&self) -> bool {
        &&& self.text@ == join(self.parts@, part_separator())
        &&& self.any == (self.parts@.len() > 0)
    }

    fn new() -> (list: Self)
        ensures
            list.wf(),
            list.parts@ == Seq::<Seq<char>>::empty(),
    {
        Conditions { text: Vec::new(), any: false, parts: Ghost(Seq::empty()) }
    }

    fn separate(&mut self) -> (before: Ghost<Seq<char>>)
        requires
            old(self).wf(),
        ensures
            final(self).parts == old(self).parts,
            final(self).any == old(self).any,
            before@ == old(self).text@,
            final(self).text@ == if old(self).any {
                old(self).text@ + part_separator()
            } else {
                old(self).text@
            },
    {
        let ghost before = self.text@;
        if self.any {
            push_str(&mut self.text, ", ");
        }
        Ghost(before)
    }

    fn number(&mut self, label: &str, number: Option<i64>)
        requires
            old(self).wf(),
        ensures
            final(self).wf(),
            final(self).parts@ == old(self).parts@ + number_part(label@, number),
    {
        match number {
            Some(n) => {
                let before = self.separate();
                push_str(&mut self.text, label);
                push_decimal(&mut self.text, n);
                proof {
                    lemma_join_push(self.parts@, part_separator(), label@ + decimal(n as int));
                    assert(self.text@ =~= join(
                        self.parts@.push(label@ + decimal(n as int)),
                        part_separator(),
                    ));
                    assert(self.parts@.push(label@ + decimal(n as int)) =~= self.parts@
                        + number_part(label@, number));
                    self.parts@ = self.parts@.push(label@ + decimal(n as int));
                }
                self.any = true;
            },
            None => {
                assert(self.parts@ + Seq::<Seq<char>>::empty() =~= self.parts@);
            },
        }
    }

    fn text(&mut self, label: &str, value: &str)
        requires
            old(self).wf(),
        ensures
            final(self).wf(),
            final(self).parts@ == old(self).parts@.push(label@ + value@),
    {
        let before = self.separate();
        push_str(&mut self.text, label);
        push_str(&mut self.text, value);
        proof {
            lemma_join_push(self.parts@, part_separator(), label@ + value@);
            assert(self.text@ =~= join(self.parts@.push(label@ + value@), part_separator()));
            self.parts@ = self.parts@.push(label@ + value@);
        }
        self.any = true;
    }

    fn name(&mut self, label: &str, reference: &Option<ApiEvoResourceRef>)
        requires
            old(self).wf(),
        ensures
            final(self).wf(),
            final(self).parts@ == old(self).parts@ + name_part(label@, *reference),
    {
        match reference {
            Some(r) => {
                assert(self.parts@.push(label@ + r.name@) =~= self.parts@ + name_part(
                    label@,
                    *reference,
                ));
                self.text(label, r.name.as_str());
            },
            None => {
                assert(self.parts@ + Seq::<Seq<char>>::empty() =~= self.parts@);
            },
        }
    }

    fn time(&mut self, label: &str, time: &Option<String>)
        requires
            old(self).wf(),
        ensures
            final(self).wf(),
            final(self).parts@ == old(self).parts@ + time_part(label@, *time),
    {
        match time {
            Some(t) => {
                if !t.as_str().is_empty() {
                    assert(self.parts@.push(label@ + t@) =~= self.parts@ + time_part(
                        label@,
                        *time,
                    ));
                    self.text(label, t.as_str());
                } else {
                    assert(self.parts@ + Seq::<Seq<char>>::empty() =~= self.parts@);
                }
            },
            None => {
                assert(self.parts@ + Seq::<Seq<char>>::empty() =~= self.parts@);
            },
        }
    }
}

/// Describes how an evolution is triggered, such as `Level 16` or
/// `Use thunder-stone, at night`.
pub fn build_trigger_detail(detail: &ApiEvolutionDetail) -> (text: Option<String>)
    ensures
        text_of(text) == trigger_detail_spec(*detail),
{
    let mut list = Conditions::new();
    list.number("Level ", detail.min_level);
    list.name("Use ", &detail.item);
    list.name("Hold ", &detail.held_item);
    list.number("Happiness ", detail.min_happiness);
    list.time("at ", &detail.time_of_day);
    list.name("Know ", &detail.known_move);
    list.name("at ", &detail.location);
    assert(list.parts@ =~= trigger_parts(*detail));
    if list.any {
        Some(string_of(&list.text))
    } else {
        None
    }
}

/// Builds the evolution tree that a chain link describes.
pub fn parse_chain_link(link: &ApiChainLink) -> (node: EvolutionNode)
    ensures
        node_of_link(*link, node),
    decreases link,
{
    let pokemon_id = PokeApiClient::id_from_url(link.species.url.as_str());
    let mut trigger: Option<String> = None;
    let mut trigger_detail: Option<String> = None;
    if link.evolution_details.len() > 0 {
        let detail = &link.evolution_details[0];
        trigger = match &detail.trigger {
            Some(t) => Some(t.name.clone()),
            None => None,
        };
        trigger_detail = build_trigger_detail(detail);
    }
    let mut evolves_to: Vec<EvolutionNode> = Vec::new();
    let mut i: usize = 0;
    while i < link.evolves_to.len()
        invariant
            i <= link.evolves_to.len(),
            evolves_to.len() == i,
            forall|j: int|
                0 <= j < i ==> node_of_link(#[trigger] link.evolves_to[j], evolves_to[j]),
        decreases link.evolves_to.len() - i,
    {
        let child = parse_chain_link(&link.evolves_to[i]);
        evolves_to.push(child);
        i += 1;
    }
    EvolutionNode {
        pokemon_id,
        name_key: link.species.name.clone(),
        name_en: None,
        name_fr: None,
        sprite_url: None,
        trigger,
        trigger_detail,
        evolves_to,
    }
}

/// The identifier of a chain and the tree that is cached under it.
pub fn parse_evolution_chain(api: &ApiEvolutionChain) -> (parsed: (i64, EvolutionNode))
    ensures
        parsed.0 == api.id,
        node_of_link(api.chain, parsed.1),
{
    (api.id, parse_chain_link(&api.chain))
}

} // verus!
