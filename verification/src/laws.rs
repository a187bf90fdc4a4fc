//! What holds of claiming, rolling and reading, whatever the board.

use vstd::prelude::*;
use crate::board::BoardModel;
use crate::ledger::ResourceLedger;
use crate::production::{credited, firing, firing_for, has_room, lemma_next_claim};
use crate::resource::Resource;

verus! {

/// Selects the receipts that hand out `kind`.
pub open spec fn pays(kind: Resource) -> spec_fn((Resource, i64)) -> bool {
    |receipt: (Resource, i64)| receipt.0 == kind
}

/// The last tile of a board can be claimed, and the index just past it
/// cannot: a claim succeeds exactly on the indices that address a tile.
pub proof fn law_claim_boundary(board: BoardModel)
    ensures
        !board.has_tile(board.tiles.len() as int),
        board.tiles.len() > 0 ==> board.has_tile(board.tiles.len() - 1),
        !board.has_tile(-1),
{
}

/// A board without claims produces nothing, on any roll.
pub proof fn law_no_claims_no_production(board: BoardModel, roll: int)
    requires
        board.owned.len() == 0,
    ensures
        board.production(roll) == Seq::<(Resource, i64)>::empty(),
        forall|kind: Resource| #[trigger] board.yield_of(roll, kind) == 0,
{
    reveal(Seq::filter);
    assert(board.production(roll) =~= Seq::<(Resource, i64)>::empty());
}

/// One more claim, of a tile that fires on the roll, adds one receipt for the
/// tile's resource at the end of the production and one unit to the yield of
/// that resource, and changes no other yield. A claim of a tile that does not
/// fire changes nothing.
pub proof fn law_claim_effect(board: BoardModel, index: int, roll: int)
    requires
        board.has_tile(index),
    ensures
        board.tiles[index].fires_on(roll) ==> {
            &&& board.claimed(index).production(roll) == board.production(roll).push(
                (board.tiles[index].resource, 1i64),
            )
            &&& board.claimed(index).yield_of(roll, board.tiles[index].resource) == board.yield_of(
                roll,
                board.tiles[index].resource,
            ) + 1
            &&& forall|kind: Resource|
                kind != board.tiles[index].resource ==> #[trigger] board.claimed(index).yield_of(
                    roll,
                    kind,
                ) == board.yield_of(roll, kind)
        },
        !board.tiles[index].fires_on(roll) ==> {
            &&& board.claimed(index).production(roll) == board.production(roll)
            &&& forall|kind: Resource| #[trigger]
                board.claimed(index).yield_of(roll, kind) == board.yield_of(roll, kind)
        },
{
    let longer = board.claimed(index);
    let n = board.owned.len() as int;
    assert(longer.owned.take(n) =~= board.owned);
    assert(longer.owned.take(n + 1) =~= longer.owned);
    assert(longer.first_claims(n) == board);
    assert(longer.first_claims(n + 1) == longer);
    lemma_next_claim(longer, roll, n);
}

/// Claiming the same tile twice makes it pay twice: when the tile fires on
/// the roll, the yield of its resource is two more than before the two
/// claims, and so is the total the ledger ends with.
pub proof fn law_double_claim_pays_twice(
    board: BoardModel,
    index: int,
    roll: int,
    before: Map<Resource, int>,
)
    requires
        board.has_tile(index),
        board.tiles[index].fires_on(roll),
        before.dom().contains(board.tiles[index].resource),
    ensures
        board.claimed(index).claimed(index).yield_of(roll, board.tiles[index].resource)
            == board.yield_of(roll, board.tiles[index].resource) + 2,
        credited(before, board.claimed(index).claimed(index), roll)[board.tiles[index].resource]
            == credited(before, board, roll)[board.tiles[index].resource] + 2,
        board.owned.len() == 0 ==> credited(
            before,
            board.claimed(index).claimed(index),
            roll,
        )[board.tiles[index].resource] == before[board.tiles[index].resource] + 2,
{
    law_claim_effect(board, index, roll);
    law_claim_effect(board.claimed(index), index, roll);
    if board.owned.len() == 0 {
        law_no_claims_no_production(board, roll);
    }
}

/// A desert never pays: no roll yields desert, no receipt names it, and
/// claiming a desert tile changes the outcome of no roll, not even the roll
/// of the desert's own number.
pub proof fn law_desert_never_pays(board: BoardModel, index: int, roll: int)
    ensures
        board.yield_of(roll, Resource::Desert) == 0,
        forall|k: int|
            0 <= k < board.production(roll).len() ==> (#[trigger] board.production(roll)[k]).0
                != Resource::Desert,
        board.has_tile(index) && board.tiles[index].resource == Resource::Desert ==> {
            &&& board.claimed(index).production(roll) == board.production(roll)
            &&& forall|before: Map<Resource, int>| #[trigger]
                credited(before, board.claimed(index), roll) == credited(before, board, roll)
        },
{
    let fired = board.owned.filter(firing(board.tiles, roll));
    assert forall|k: int| 0 <= k < board.production(roll).len() implies (
    #[trigger] board.production(roll)[k]).0 != Resource::Desert by {
        board.owned.lemma_filter_pred(firing(board.tiles, roll), k);
        assert(firing(board.tiles, roll)(fired[k]));
    }
    let deserts = board.owned.filter(firing_for(board.tiles, roll, Resource::Desert));
    if deserts.len() > 0 {
        board.owned.lemma_filter_pred(firing_for(board.tiles, roll, Resource::Desert), 0);
        assert(firing_for(board.tiles, roll, Resource::Desert)(deserts[0]));
    }
    if board.has_tile(index) && board.tiles[index].resource == Resource::Desert {
        law_claim_effect(board, index, roll);
        assert forall|before: Map<Resource, int>| #[trigger]
            credited(before, board.claimed(index), roll) == credited(before, board, roll) by {
            assert(credited(before, board.claimed(index), roll) =~= credited(before, board, roll));
        }
    }
}

/// A roll that no claimed tile fires on produces nothing and leaves every
/// total as it was.
pub proof fn law_miss_changes_nothing(board: BoardModel, roll: int, before: Map<Resource, int>)
    requires
        forall|j: int|
            0 <= j < board.owned.len() ==> !board.tiles[#[trigger] board.owned[j]].fires_on(roll),
    ensures
        board.production(roll) == Seq::<(Resource, i64)>::empty(),
        forall|kind: Resource| #[trigger] board.yield_of(roll, kind) == 0,
        credited(before, board, roll) == before,
{
    let fired = board.owned.filter(firing(board.tiles, roll));
    if fired.len() > 0 {
        board.owned.lemma_filter_pred(firing(board.tiles, roll), 0);
        assert(firing(board.tiles, roll)(fired[0]));
        assert(fired.contains(fired[0]));
        board.owned.lemma_filter_contains_rev(firing(board.tiles, roll), fired[0]);
        let j = choose|j: int| 0 <= j < board.owned.len() && board.owned[j] == fired[0];
        assert(!board.tiles[board.owned[j]].fires_on(roll));
    }
    assert(board.production(roll) =~= Seq::<(Resource, i64)>::empty());
    assert forall|kind: Resource| #[trigger] board.yield_of(roll, kind) == 0 by {
        let hits = board.owned.filter(firing_for(board.tiles, roll, kind));
        if hits.len() > 0 {
            board.owned.lemma_filter_pred(firing_for(board.tiles, roll, kind), 0);
            assert(firing_for(board.tiles, roll, kind)(hits[0]));
            assert(hits.contains(hits[0]));
            board.owned.lemma_filter_contains_rev(firing_for(board.tiles, roll, kind), hits[0]);
            let j = choose|j: int| 0 <= j < board.owned.len() && board.owned[j] == hits[0];
            assert(!board.tiles[board.owned[j]].fires_on(roll));
        }
    }
    assert(credited(before, board, roll) =~= before);
}

/// A board whose only claim is a tile that fires on the roll produces exactly
/// one receipt, for that tile's resource, and the ledger gains exactly one
/// unit of it. On any roll the tile does not fire on, nothing is produced
/// and the ledger is unchanged.
pub proof fn law_single_claim(board: BoardModel, roll: int, before: Map<Resource, int>)
    requires
        board.owned.len() == 1,
        board.has_tile(board.owned[0]),
        before.dom().contains(board.tiles[board.owned[0]].resource),
    ensures
        board.tiles[board.owned[0]].fires_on(roll) ==> {
            &&& board.production(roll) == seq![(board.tiles[board.owned[0]].resource, 1i64)]
            &&& credited(before, board, roll) == before.insert(
                board.tiles[board.owned[0]].resource,
                before[board.tiles[board.owned[0]].resource] + 1,
            )
        },
        !board.tiles[board.owned[0]].fires_on(roll) ==> {
            &&& board.production(roll) == Seq::<(Resource, i64)>::empty()
            &&& credited(before, board, roll) == before
        },
{
    let index = board.owned[0];
    let bare = board.first_claims(0);
    assert(bare.owned =~= Seq::<int>::empty());
    assert(bare.claimed(index).owned =~= board.owned);
    assert(bare.claimed(index) == board);
    law_no_claims_no_production(bare, roll);
    law_claim_effect(bare, index, roll);
    if board.tiles[index].fires_on(roll) {
        assert(board.production(roll) =~= seq![(board.tiles[index].resource, 1i64)]);
        assert(credited(before, board, roll) =~= before.insert(
            board.tiles[index].resource,
            before[board.tiles[index].resource] + 1,
        ));
    } else {
        assert(credited(before, board, roll) =~= before);
    }
}

/// The ledger gains of each kind exactly what the receipts hand out of it:
/// the yield of a kind is the number of receipts that name it.
pub proof fn law_receipts_match_yield(board: BoardModel, roll: int, kind: Resource)
    ensures
        board.production(roll).filter(pays(kind)).len() == board.yield_of(roll, kind),
    decreases board.owned.len(),
{
    if board.owned.len() == 0 {
        law_no_claims_no_production(board, roll);
        reveal(Seq::filter);
    } else {
        let n = board.owned.len() - 1;
        let shorter = board.first_claims(n);
        law_receipts_match_yield(shorter, roll, kind);
        assert(board.owned.take(n + 1) =~= board.owned);
        assert(board.first_claims(n + 1) == board);
        lemma_next_claim(board, roll, n);
        let last = board.tiles[board.owned[n]];
        shorter.production(roll).lemma_filter_push((last.resource, 1i64), pays(kind));
        assert(board.yield_of(roll, kind) == shorter.yield_of(roll, kind) + if last.fires_on(roll)
            && last.resource == kind {
            1int
        } else {
            0int
        });
    }
}

/// A ledger has room for any roll when each of its totals could still take
/// one unit for every claim on the board: no roll yields more of a kind than
/// there are claims.
pub proof fn law_room_for_every_claim(before: Map<Resource, int>, board: BoardModel, roll: int)
    requires
        forall|kind: Resource| #[trigger]
            before.dom().contains(kind) ==> before[kind] + board.owned.len() <= i64::MAX,
    ensures
        has_room(before, board, roll),
{
    assert forall|kind: Resource| #[trigger] before.dom().contains(kind) implies before[kind]
        + board.yield_of(roll, kind) <= i64::MAX by {
        board.owned.lemma_filter_len(firing_for(board.tiles, roll, kind));
    }
}

/// Reading the ledger twice, with nothing resolved in between, gives the same
/// answer: whatever two calls of `count` on one ledger and one kind return,
/// the two results are equal.
pub proof fn law_reading_twice_agrees(
    ledger: ResourceLedger,
    kind: Resource,
    first: Option<i64>,
    second: Option<i64>,
)
    requires
        call_ensures(ResourceLedger::count, (&ledger, kind), first),
        call_ensures(ResourceLedger::count, (&ledger, kind), second),
    ensures
        first == second,
{
}

} // verus!
