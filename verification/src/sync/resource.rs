//! The resource kinds that are synchronized and the states a resource can be
//! in.

use vstd::prelude::*;

verus! {

/// One of the cacheable categories of the remote API.
#[derive(Debug, Clone, Copy, PartialEq, Eq, Hash, Structural)]
pub enum ResourceKind {
    Types,
    Moves,
    Pokemon,
    Items,
    EvolutionChains,
    Natures,
    Abilities,
}

/// Where a resource stands in its synchronization.
#[derive(Debug, Clone, Copy, PartialEq, Eq, Hash, Structural)]
pub enum ResourceStatus {
    Pending,
    Syncing,
    Done,
    Error,
    Cancelled,
    Partial,
}

impl ResourceKind {
    /// The key under which the progress of this kind is kept.
    pub open spec fn key_spec(self) -> Seq<char> {
        match self {
            ResourceKind::Types => "types"@,
            ResourceKind::Moves => "moves"@,
            ResourceKind::Pokemon => "pokemon"@,
            ResourceKind::Items => "items"@,
            ResourceKind::EvolutionChains => "evolution_chains"@,
            ResourceKind::Natures => "natures"@,
            ResourceKind::Abilities => "abilities"@,
        }
    }

    /// The path of this kind below the base address of the API.
    pub open spec fn endpoint_spec(self) -> Seq<char> {
        match self {
            ResourceKind::Types => "type"@,
            ResourceKind::Moves => "move"@,
            ResourceKind::Pokemon => "pokemon"@,
            ResourceKind::Items => "item"@,
            ResourceKind::EvolutionChains => "evolution-chain"@,
            ResourceKind::Natures => "nature"@,
            ResourceKind::Abilities => "ability"@,
        }
    }

    /// After how many completed items the progress of this kind is written
    /// down again.
    pub open spec fn batch_size_spec(self) -> int {
        match self {
            ResourceKind::Types => 1,
            ResourceKind::Moves => 20,
            ResourceKind::Pokemon => 10,
            ResourceKind::Items => 20,
            ResourceKind::EvolutionChains => 20,
            ResourceKind::Natures => 1,
            ResourceKind::Abilities => 20,
        }
    }

    /// The position of this kind in the order in which the kinds are checked
    /// for integrity.
    pub open spec fn index_spec(self) -> int {
        match self {
            ResourceKind::Types => 0,
            ResourceKind::Moves => 1,
            ResourceKind::Pokemon => 2,
            ResourceKind::Items => 3,
            ResourceKind::EvolutionChains => 4,
            ResourceKind::Natures => 5,
            ResourceKind::Abilities => 6,
        }
    }

    /// The key under which the progress of this kind is kept.
    pub fn key(self) -> (key: &'static str)
        ensures
            key@ == self.key_spec(),
    {
        match self {
            ResourceKind::Types => "types",
            ResourceKind::Moves => "moves",
            ResourceKind::Pokemon => "pokemon",
            ResourceKind::Items => "items",
            ResourceKind::EvolutionChains => "evolution_chains",
            ResourceKind::Natures => "natures",
            ResourceKind::Abilities => "abilities",
        }
    }

    /// The path of this kind below the base address of the API.
    pub fn endpoint(self) -> (path: &'static str)
        ensures
            path@ == self.endpoint_spec(),
    {
        match self {
            ResourceKind::Types => "type",
            ResourceKind::Moves => "move",
            ResourceKind::Pokemon => "pokemon",
            ResourceKind::Items => "item",
            ResourceKind::EvolutionChains => "evolution-chain",
            ResourceKind::Natures => "nature",
            ResourceKind::Abilities => "ability",
        }
    }

    /// After how many completed items the progress of this kind is written
    /// down again.
    pub fn batch_size(self) -> (size: i64)
        ensures
            size == self.batch_size_spec(),
            size >= 1,
    {
        match self {
            ResourceKind::Types => 1,
            ResourceKind::Moves => 20,
            ResourceKind::Pokemon => 10,
            ResourceKind::Items => 20,
            ResourceKind::EvolutionChains => 20,
            ResourceKind::Natures => 1,
            ResourceKind::Abilities => 20,
        }
    }

    /// The position of this kind in the order in which the kinds are checked
    /// for integrity.
    pub fn index(self) -> (index: usize)
        ensures
            index == self.index_spec(),
            index < 7,
    {
        match self {
            ResourceKind::Types => 0,
            ResourceKind::Moves => 1,
            ResourceKind::Pokemon => 2,
            ResourceKind::Items => 3,
            ResourceKind::EvolutionChains => 4,
            ResourceKind::Natures => 5,
            ResourceKind::Abilities => 6,
        }
    }

    /// The kind at a position of the integrity order, if the position is one.
    pub fn at(index: usize) -> (kind: Option<ResourceKind>)
        ensures
            index < 7 <==> kind is Some,
            kind is Some ==> kind->0.index_spec() == index,
    {
        if index == 0 {
            Some(ResourceKind::Types)
        } else if index == 1 {
            Some(ResourceKind::Moves)
        } else if index == 2 {
            Some(ResourceKind::Pokemon)
        } else if index == 3 {
            Some(ResourceKind::Items)
        } else if index == 4 {
            Some(ResourceKind::EvolutionChains)
        } else if index == 5 {
            Some(ResourceKind::Natures)
        } else if index == 6 {
            Some(ResourceKind::Abilities)
        } else {
            None
        }
    }

    /// The kind that is kept under `key`, if `key` is the key of one.
    pub fn from_key(key: &str) -> (kind: Option<ResourceKind>)
        ensures
            match kind {
                Some(k) => k.key_spec() == key@,
                None => forall|k: ResourceKind| k.key_spec() != key@,
            },
    {
        let wanted = key.to_owned();
        let mut index: usize = 0;
        while index < 7
            invariant
                index <= 7,
                wanted@ == key@,
                forall|k: ResourceKind| k.index_spec() < index ==> k.key_spec() != key@,
            decreases 7 - index,
        {
            match ResourceKind::at(index) {
                Some(kind) => {
                    if kind.key().to_owned() == wanted {
                        return Some(kind);
                    }
                    assert forall|k: ResourceKind| k.index_spec() < index + 1 implies k.key_spec()
                        != key@ by {
                        if k.index_spec() == index {
                            assert(k == kind);
                        }
                    }
                },
                None => {},
            }
            index += 1;
        }
        assert forall|k: ResourceKind| k.key_spec() != key@ by {
            assert(k.index_spec() < 7);
        }
        None
    }
}

/// No two kinds share a key.
pub proof fn lemma_keys_distinct(a: ResourceKind, b: ResourceKind)
    requires
        a.key_spec() == b.key_spec(),
    ensures
        a == b,
{
    reveal_strlit("types");
    reveal_strlit("moves");
    reveal_strlit("pokemon");
    reveal_strlit("items");
    reveal_strlit("evolution_chains");
    reveal_strlit("natures");
    reveal_strlit("abilities");
    if a != b {
        let x = a.key_spec();
        let y = b.key_spec();
        assert(x.len() == y.len());
        assert(x[0] == y[0]);
        assert(x[1] == y[1]);
    }
}

impl ResourceStatus {
    /// The word under which this state is written down.
    pub open spec fn name_spec(self) -> Seq<char> {
        match self {
            ResourceStatus::Pending => "pending"@,
            ResourceStatus::Syncing => "syncing"@,
            ResourceStatus::Done => "done"@,
            ResourceStatus::Error => "error"@,
            ResourceStatus::Cancelled => "cancelled"@,
            ResourceStatus::Partial => "partial"@,
        }
    }

    /// The word under which this state is written down.
    pub fn name(self) -> (name: &'static str)
        ensures
            name@ == self.name_spec(),
    {
        match self {
            ResourceStatus::Pending => "pending",
            ResourceStatus::Syncing => "syncing",
            ResourceStatus::Done => "done",
            ResourceStatus::Error => "error",
            ResourceStatus::Cancelled => "cancelled",
            ResourceStatus::Partial => "partial",
        }
    }

    /// Whether `word` is the word of this state.
    pub fn is_named(self, word: &str) -> (named: bool)
        ensures
            named == (word@ == self.name_spec()),
    {
        word.to_owned() == self.name().to_owned()
    }

    /// The state that `word` stands for, if it stands for one.
    pub fn parse(word: &str) -> (status: Option<ResourceStatus>)
        ensures
            match status {
                Some(s) => s.name_spec() == word@,
                None => forall|s: ResourceStatus| s.name_spec() != word@,
            },
    {
        if ResourceStatus::Pending.is_named(word) {
            Some(ResourceStatus::Pending)
        } else if ResourceStatus::Syncing.is_named(word) {
            Some(ResourceStatus::Syncing)
        } else if ResourceStatus::Done.is_named(word) {
            Some(ResourceStatus::Done)
        } else if ResourceStatus::Error.is_named(word) {
            Some(ResourceStatus::Error)
        } else if ResourceStatus::Cancelled.is_named(word) {
            Some(ResourceStatus::Cancelled)
        } else if ResourceStatus::Partial.is_named(word) {
            Some(ResourceStatus::Partial)
        } else {
            None
        }
    }
}

/// No two states share a word.
pub proof fn lemma_names_distinct(a: ResourceStatus, b: ResourceStatus)
    requires
        a.name_spec() == b.name_spec(),
    ensures
        a == b,
{
    reveal_strlit("pending");
    reveal_strlit("syncing");
    reveal_strlit("done");
    reveal_strlit("error");
    reveal_strlit("cancelled");
    reveal_strlit("partial");
    if a != b {
        let x = a.name_spec();
        let y = b.name_spec();
        assert(x.len() == y.len());
        assert(x[0] == y[0]);
        assert(x[1] == y[1]);
    }
}

} // verus!
