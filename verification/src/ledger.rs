//! The ledger: how many units of each resource the player has collected.

use vstd::prelude::*;
use crate::resource::Resource;

verus! {

/// The running totals of the five producing resources; no total is kept for
/// deserts. A new ledger holds nothing; only resolving a roll adds to it.
#[derive(Clone, Copy, Debug, PartialEq, Eq)]
pub struct ResourceLedger {
    brick: i64,
    wood: i64,
    wheat: i64,
    sheep: i64,
    ore: i64,
}

impl View for ResourceLedger {
    type V = Map<Resource, int>;

    /// The total of each kind it keeps.
    closed spec fn view(&self) -> Map<Resource, int> {
        Map::new(|kind: Resource| kind.produces(), |kind: Resource| self.held(kind))
    }
}

impl ResourceLedger {
    /// The kinds a ledger keeps a total for: all but `Desert`.
    pub open spec fn kinds_kept() -> Set<Resource> {
        Set::new(|kind: Resource| kind.produces())
    }

    /// The ledger in which every kind it keeps stands at zero.
    pub open spec fn empty() -> Map<Resource, int> {
        Map::new(|kind: Resource| kind.produces(), |kind: Resource| 0int)
    }

    spec fn held(&self, kind: Resource) -> int {
        match kind {
            Resource::Brick => self.brick as int,
            Resource::Wood => self.wood as int,
            Resource::Wheat => self.wheat as int,
            Resource::Sheep => self.sheep as int,
            Resource::Ore => self.ore as int,
            Resource::Desert => 0,
        }
    }

    /// Every ledger keeps a total for exactly the producing kinds.
    pub proof fn lemma_kinds_kept(&self)
        ensures
            self@.dom() == ResourceLedger::kinds_kept(),
    {
        assert(self@.dom() =~= ResourceLedger::kinds_kept());
    }

    /// A ledger that holds nothing.
    pub fn new() -> (ledger: ResourceLedger)
        ensures
            ledger@ == ResourceLedger::empty(),
    {
        let ledger = ResourceLedger { brick: 0, wood: 0, wheat: 0, sheep: 0, ore: 0 };
        assert(ledger@ =~= ResourceLedger::empty());
        ledger
    }

    /// The total held of `kind`, or nothing for `Desert`, for which no total is kept.
    /// Reading does not change the ledger.
    pub fn count(&self, kind: Resource) -> (total: Option<i64>)
        ensures
            self@.dom() == ResourceLedger::kinds_kept(),
            match total {
                Some(n) => kind.produces() && n == self@[kind],
                None => !kind.produces(),
            },
    {
        assert(self@.dom() =~= ResourceLedger::kinds_kept());
        match kind {
            Resource::Brick => Some(self.brick),
            Resource::Wood => Some(self.wood),
            Resource::Wheat => Some(self.wheat),
            Resource::Sheep => Some(self.sheep),
            Resource::Ore => Some(self.ore),
            Resource::Desert => None,
        }
    }

    /// Adds one unit of `kind`.
    pub(crate) fn credit(&mut self, kind: Resource)
        requires
            kind.produces(),
            old(self)@[kind] < i64::MAX,
        ensures
            final(self)@ == old(self)@.insert(kind, old(self)@[kind] + 1),
            final(self)@.dom() == ResourceLedger::kinds_kept(),
    {
        match kind {
            Resource::Brick => {
                self.brick = self.brick + 1;
            },
            Resource::Wood => {
                self.wood = self.wood + 1;
            },
            Resource::Wheat => {
                self.wheat = self.wheat + 1;
            },
            Resource::Sheep => {
                self.sheep = self.sheep + 1;
            },
            Resource::Ore => {
                self.ore = self.ore + 1;
            },
            Resource::Desert => {},
        }
        assert(final(self)@ =~= old(self)@.insert(kind, old(self)@[kind] + 1));
        assert(final(self)@.dom() =~= ResourceLedger::kinds_kept());
    }
}

} // verus!
