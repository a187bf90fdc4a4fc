//! Resolving a dice roll: which claimed tiles fire, and what the ledger gains.

use vstd::prelude::*;
use crate::board::{BoardModel, Tile, TileMap};
use crate::ledger::ResourceLedger;
use crate::resource::Resource;

verus! {

/// Selects the tile indices whose tile fires on `roll`.
pub open spec fn firing(tiles: Seq<Tile>, roll: int) -> spec_fn(int) -> bool {
    |i: int| tiles[i].fires_on(roll)
}

/// Selects the tile indices whose tile fires on `roll` and bears `kind`.
pub open spec fn firing_for(tiles: Seq<Tile>, roll: int, kind: Resource) -> spec_fn(int) -> bool {
    |i: int| tiles[i].fires_on(roll) && tiles[i].resource == kind
}

/// What one firing of the tile at an index hands out: one unit of its resource.
pub open spec fn receipt(tiles: Seq<Tile>) -> spec_fn(int) -> (Resource, i64) {
    |i: int| (tiles[i].resource, 1i64)
}

impl BoardModel {
    /// What a roll produces: one receipt for every claim whose tile fires,
    /// in the order of the claims. A tile claimed twice is paid twice.
    pub open spec fn production(self, roll: int) -> Seq<(Resource, i64)> {
        self.owned.filter(firing(self.tiles, roll)).map_values(receipt(self.tiles))
    }

    /// How many units of `kind` a roll produces: the number of claims whose
    /// tile fires and bears `kind`.
    pub open spec fn yield_of(self, roll: int, kind: Resource) -> nat {
        self.owned.filter(firing_for(self.tiles, roll, kind)).len()
    }

    /// The board with only its first `n` claims.
    pub open spec fn first_claims(self, n: int) -> BoardModel {
        BoardModel { tiles: self.tiles, owned: self.owned.take(n) }
    }
}

/// The ledger after a roll: every kind it keeps has grown by what the roll
/// yields of it.
pub open spec fn credited(before: Map<Resource, int>, board: BoardModel, roll: int) -> Map<
    Resource,
    int,
> {
    Map::new(
        |kind: Resource| before.dom().contains(kind),
        |kind: Resource| before[kind] + board.yield_of(roll, kind),
    )
}

/// Whether the ledger can take what the roll yields: no total would pass
/// `i64::MAX`, the largest count the machine holds in a total. A ledger that
/// started empty is more than nine quintillion units away from that.
pub open spec fn has_room(before: Map<Resource, int>, board: BoardModel, roll: int) -> bool {
    forall|kind: Resource| #[trigger]
        before.dom().contains(kind) ==> before[kind] + board.yield_of(roll, kind) <= i64::MAX
}

/// Taking one more claim into account adds its receipt to the production if
/// its tile fires, and nothing otherwise; the yield of the tile's kind grows
/// with it, and no prefix of the claims yields more than all of them.
pub proof fn lemma_next_claim(board: BoardModel, roll: int, n: int)
    requires
        0 <= n < board.owned.len(),
    ensures
        board.first_claims(n + 1).production(roll) == if board.tiles[board.owned[n]].fires_on(roll) {
            board.first_claims(n).production(roll).push((board.tiles[board.owned[n]].resource, 1i64))
        } else {
            board.first_claims(n).production(roll)
        },
        forall|kind: Resource| #[trigger]
            board.first_claims(n + 1).yield_of(roll, kind) == board.first_claims(n).yield_of(
                roll,
                kind,
            ) + if board.tiles[board.owned[n]].fires_on(roll) && board.tiles[board.owned[n]].resource
                == kind {
                1int
            } else {
                0int
            },
        forall|kind: Resource| #[trigger]
            board.first_claims(n + 1).yield_of(roll, kind) <= board.yield_of(roll, kind),
{
    let claim = board.owned[n];
    let shorter = board.owned.take(n);
    assert(board.owned.take(n + 1) =~= shorter.push(claim));
    shorter.lemma_filter_push(claim, firing(board.tiles, roll));
    assert(board.first_claims(n + 1).production(roll) =~= if board.tiles[claim].fires_on(roll) {
        board.first_claims(n).production(roll).push((board.tiles[claim].resource, 1i64))
    } else {
        board.first_claims(n).production(roll)
    });
    assert forall|kind: Resource| #[trigger]
        board.first_claims(n + 1).yield_of(roll, kind) == board.first_claims(n).yield_of(roll, kind)
            + if board.tiles[claim].fires_on(roll) && board.tiles[claim].resource == kind {
            1int
        } else {
            0int
        } && board.first_claims(n + 1).yield_of(roll, kind) <= board.yield_of(roll, kind) by {
        shorter.lemma_filter_push(claim, firing_for(board.tiles, roll, kind));
        board.owned.lemma_filter_take_len(firing_for(board.tiles, roll, kind), n + 1);
    }
}

/// Resolves one roll against the board. Every claim whose tile carries the
/// rolled number and bears a resource adds one unit of that resource to the
/// ledger and one receipt to the returned list, in the order of the claims.
/// Deserts are passed over even when their number matches. The board is not
/// changed.
///
/// The totals are `i64`: the roll's yield must fit below `i64::MAX`, which
/// is the only ledger state the machine cannot take further.
pub fn resolve_roll(roll: i8, board: &TileMap, ledger: &mut ResourceLedger) -> (produced: Vec<
    (Resource, i64),
>)
    requires
        has_room(old(ledger)@, board@, roll as int),
    ensures
        produced@ == board@.production(roll as int),
        final(ledger)@ == credited(old(ledger)@, board@, roll as int),
{
    let tiles = board.tiles();
    let owned = board.owned_tile_indices();
    let mut produced: Vec<(Resource, i64)> = Vec::new();
    let ghost model = board@;
    let ghost before = ledger@;
    let ghost rolled = roll as int;
    proof {
        ledger.lemma_kinds_kept();
        assert(model.first_claims(0).owned =~= Seq::<int>::empty());
        reveal(Seq::filter);
        assert(model.first_claims(0).production(rolled) =~= Seq::<(Resource, i64)>::empty());
        assert(ledger@ =~= credited(before, model.first_claims(0), rolled));
    }
    let mut seen: usize = 0;
    while seen < owned.len()
        invariant
            seen <= owned.len(),
            model.wf(),
            tiles@ == model.tiles,
            owned@.map_values(|i: usize| i as int) == model.owned,
            has_room(before, model, rolled),
            before.dom() == ResourceLedger::kinds_kept(),
            rolled == roll,
            produced@ == model.first_claims(seen as int).production(rolled),
            ledger@ == credited(before, model.first_claims(seen as int), rolled),
        decreases owned.len() - seen,
    {
        let index = owned[seen];
        proof {
            lemma_next_claim(model, rolled, seen as int);
            assert(model.owned[seen as int] == index as int);
        }
        let tile = tiles[index];
        if tile.production_number == roll && tile.resource.is_producing() {
            proof {
                assert(before.dom().contains(tile.resource));
                assert(model.first_claims(seen + 1).yield_of(rolled, tile.resource) <= model.yield_of(
                    rolled,
                    tile.resource,
                ));
            }
            ledger.credit(tile.resource);
            produced.push((tile.resource, 1i64));
            assert(ledger@ =~= credited(before, model.first_claims(seen + 1), rolled));
        } else {
            assert(ledger@ =~= credited(before, model.first_claims(seen + 1), rolled));
        }
        seen += 1;
    }
    proof {
        assert(model.owned.take(seen as int) =~= model.owned);
    }
    produced
}

/// How many units of `kind` the roll would produce on this board: the number
/// of claims whose tile carries the rolled number and bears `kind`. Deserts
/// yield nothing.
pub fn count_yield(roll: i8, board: &TileMap, kind: Resource) -> (units: usize)
    ensures
        units == board@.yield_of(roll as int, kind),
{
    let tiles = board.tiles();
    let owned = board.owned_tile_indices();
    let ghost model = board@;
    let ghost rolled = roll as int;
    proof {
        assert(model.first_claims(0).owned =~= Seq::<int>::empty());
        reveal(Seq::filter);
    }
    let mut units: usize = 0;
    let mut seen: usize = 0;
    while seen < owned.len()
        invariant
            seen <= owned.len(),
            model.wf(),
            tiles@ == model.tiles,
            owned@.map_values(|i: usize| i as int) == model.owned,
            rolled == roll,
            units <= seen,
            units == model.first_claims(seen as int).yield_of(rolled, kind),
        decreases owned.len() - seen,
    {
        let index = owned[seen];
        proof {
            lemma_next_claim(model, rolled, seen as int);
            assert(model.owned[seen as int] == index as int);
            assert(model.first_claims(seen + 1).yield_of(rolled, kind) == model.first_claims(
                seen as int,
            ).yield_of(rolled, kind) + if model.tiles[index as int].fires_on(rolled)
                && model.tiles[index as int].resource == kind {
                1int
            } else {
                0int
            });
        }
        let tile = tiles[index];
        if tile.production_number == roll && tile.resource.is_producing() && tile.resource == kind {
            units += 1;
        }
        seen += 1;
    }
    proof {
        assert(model.owned.take(seen as int) =~= model.owned);
    }
    units
}

/// Decides `has_room`: whether the ledger can take what the roll yields
/// without a total passing `i64::MAX`.
pub fn roll_fits(roll: i8, board: &TileMap, ledger: &ResourceLedger) -> (fits: bool)
    ensures
        fits == has_room(ledger@, board@, roll as int),
{
    let kinds = Resource::all();
    let ghost before = ledger@;
    let ghost model = board@;
    let ghost rolled = roll as int;
    proof {
        ledger.lemma_kinds_kept();
    }
    let mut checked: usize = 0;
    while checked < kinds.len()
        invariant
            checked <= kinds.len(),
            kinds@ == Resource::kinds(),
            before == ledger@,
            model == board@,
            rolled == roll,
            before.dom() == ResourceLedger::kinds_kept(),
            forall|j: int|
                0 <= j < checked && before.dom().contains(#[trigger] kinds[j]) ==> before[kinds[j]]
                    + model.yield_of(rolled, kinds[j]) <= i64::MAX,
        decreases kinds.len() - checked,
    {
        let kind = kinds[checked];
        match ledger.count(kind) {
            Some(held) => {
                let units = count_yield(roll, board, kind);
                if held as i128 + units as i128 > i64::MAX as i128 {
                    assert(before.dom().contains(kind));
                    return false;
                }
            },
            None => {},
        }
        checked += 1;
    }
    proof {
        assert forall|kind: Resource| #[trigger] before.dom().contains(kind) implies before[kind]
            + model.yield_of(rolled, kind) <= i64::MAX by {
            let j: int = match kind {
                Resource::Brick => 0,
                Resource::Wood => 1,
                Resource::Wheat => 2,
                Resource::Sheep => 3,
                Resource::Ore => 4,
                Resource::Desert => 5,
            };
            assert(kinds[j] == kind);
        }
    }
    true
}

/// Resolves the roll as `resolve_roll` does when the ledger can take its
/// yield. When a total would pass `i64::MAX`,
/// nothing is produced and the ledger is left as it was.
pub fn try_resolve_roll(roll: i8, board: &TileMap, ledger: &mut ResourceLedger) -> (produced: Option<
    Vec<(Resource, i64)>,
>)
    ensures
        match produced {
            Some(receipts) => {
                &&& has_room(old(ledger)@, board@, roll as int)
                &&& receipts@ == board@.production(roll as int)
                &&& final(ledger)@ == credited(old(ledger)@, board@, roll as int)
            },
            None => {
                &&& !has_room(old(ledger)@, board@, roll as int)
                &&& *final(ledger) == *old(ledger)
            },
        },
{
    if roll_fits(roll, board, ledger) {
        Some(resolve_roll(roll, board, ledger))
    } else {
        None
    }
}

} // verus!
