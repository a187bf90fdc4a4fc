//! The kinds of resource a tile can bear.

use vstd::prelude::*;

verus! {

/// What a tile bears. `Desert` is barren ground: it is drawn like any other
/// kind when a board is generated, but it never produces anything.
#[derive(Clone, Copy, Debug, PartialEq, Eq, Hash, Structural)]
pub enum Resource {
    Brick,
    Wood,
    Wheat,
    Sheep,
    Ore,
    Desert,
}

impl Resource {
    /// The six kinds, in declaration order.
    pub open spec fn kinds() -> Seq<Resource> {
        seq![
            Resource::Brick,
            Resource::Wood,
            Resource::Wheat,
            Resource::Sheep,
            Resource::Ore,
            Resource::Desert,
        ]
    }

    /// Whether tiles of this kind can produce: every kind but `Desert`.
    pub open spec fn produces(self) -> bool {
        self != Resource::Desert
    }

    /// The six kinds, in declaration order.
    pub fn all() -> (kinds: [Resource; 6])
        ensures
            kinds@ == Resource::kinds(),
    {
        let kinds = [
            Resource::Brick,
            Resource::Wood,
            Resource::Wheat,
            Resource::Sheep,
            Resource::Ore,
            Resource::Desert,
        ];
        assert(kinds@ =~= Resource::kinds());
        kinds
    }

    /// Whether tiles of this kind can produce: every kind but `Desert`.
    #[verifier::when_used_as_spec(produces)]
    pub fn is_producing(self) -> (producing: bool)
        ensures
            producing == self.produces(),
    {
        match self {
            Resource::Desert => false,
            _ => true,
        }
    }
}

} // verus!
