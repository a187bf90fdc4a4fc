//! The board: a fixed row of tiles and the list of tiles the player has claimed.

use vstd::prelude::*;
use crate::resource::Resource;

verus! {

/// The smallest production number a tile can carry.
pub const MIN_NUMBER: i8 = 2;

/// The largest production number a tile can carry.
pub const MAX_NUMBER: i8 = 12;

/// One cell of the board: the resource it bears and the dice total on which it
/// produces.
#[derive(Clone, Copy, Debug, PartialEq, Eq, Structural)]
pub struct Tile {
    pub resource: Resource,
    pub production_number: i8,
}

impl Tile {
    /// A tile is playable when its production number is a possible total of two dice.
    pub open spec fn playable(self) -> bool {
        MIN_NUMBER <= self.production_number <= MAX_NUMBER
    }

    /// Whether this tile yields something on the given roll: the roll equals
    /// its number and it bears a resource. A desert never fires.
    pub open spec fn fires_on(self, roll: int) -> bool {
        self.production_number == roll && self.resource != Resource::Desert
    }

    /// Decides `playable`.
    pub fn is_playable(&self) -> (ok: bool)
        ensures
            ok == self.playable(),
    {
        MIN_NUMBER <= self.production_number && self.production_number <= MAX_NUMBER
    }
}

/// The mathematical content of a board: its tiles in order, and the claimed
/// tile indices in the order the claims were made. An index claimed twice
/// occurs twice.
pub struct BoardModel {
    pub tiles: Seq<Tile>,
    pub owned: Seq<int>,
}

impl BoardModel {
    /// The board after one more claim, of the tile at `index`.
    pub open spec fn claimed(self, index: int) -> BoardModel {
        BoardModel { tiles: self.tiles, owned: self.owned.push(index) }
    }

    /// Whether `index` addresses a tile of the board.
    pub open spec fn has_tile(self, index: int) -> bool {
        0 <= index < self.tiles.len()
    }

    /// Every tile is playable and every claim addresses a tile.
    pub open spec fn wf(self) -> bool {
        &&& forall|i: int| 0 <= i < self.tiles.len() ==> (#[trigger] self.tiles[i]).playable()
        &&& forall|j: int| 0 <= j < self.owned.len() ==> 0 <= #[trigger] self.owned[j] < self.tiles.len()
    }
}

/// Why a claim was refused.
#[derive(Clone, Copy, Debug, PartialEq, Eq, Structural)]
pub enum RegistrationError {
    /// The index does not address a tile of the board.
    OutOfRange,
}

/// A board in play. Its tiles never change after construction; its claims only grow.
pub struct TileMap {
    tiles: Vec<Tile>,
    owned: Vec<usize>,
}

impl View for TileMap {
    type V = BoardModel;

    closed spec fn view(&self) -> BoardModel {
        BoardModel {
            tiles: self.tiles@,
            owned: self.owned@.map_values(|i: usize| i as int),
        }
    }
}

impl TileMap {
    #[verifier::type_invariant]
    spec fn inv(&self) -> bool {
        &&& forall|i: int| 0 <= i < self.tiles.len() ==> (#[trigger] self.tiles[i]).playable()
        &&& forall|j: int| 0 <= j < self.owned.len() ==> (#[trigger] self.owned[j]) < self.tiles.len()
    }

    /// What the type maintains makes its model well formed.
    proof fn lemma_inv_is_wf(&self)
        requires
            self.inv(),
        ensures
            self@.wf(),
    {
        let claims = self.owned@.map_values(|i: usize| i as int);
        assert forall|j: int| 0 <= j < claims.len() implies 0 <= #[trigger] claims[j]
            < self.tiles.len() by {
            assert(claims[j] == self.owned[j] as int);
        }
    }

    /// Builds an unclaimed board from the given tiles, in their order.
    /// Refuses the tiles when one of them carries a number outside 2..=12.
    pub fn from_tiles(tiles: Vec<Tile>) -> (board: Option<TileMap>)
        ensures
            match board {
                Some(b) => {
                    &&& b@.tiles == tiles@
                    &&& b@.owned == Seq::<int>::empty()
                    &&& b@.wf()
                },
                None => exists|i: int| 0 <= i < tiles.len() && !(#[trigger] tiles[i]).playable(),
            },
    {
        let mut checked: usize = 0;
        while checked < tiles.len()
            invariant
                checked <= tiles.len(),
                forall|i: int| 0 <= i < checked ==> (#[trigger] tiles[i]).playable(),
            decreases tiles.len() - checked,
        {
            if !tiles[checked].is_playable() {
                return None;
            }
            checked += 1;
        }
        let board = TileMap { tiles, owned: Vec::new() };
        proof {
            board.lemma_inv_is_wf();
            assert(board@.owned =~= Seq::<int>::empty());
        }
        Some(board)
    }

    /// The tiles of the board, in order.
    pub fn tiles(&self) -> (tiles: &Vec<Tile>)
        ensures
            tiles@ == self@.tiles,
            self@.wf(),
    {
        proof {
            use_type_invariant(self);
            self.lemma_inv_is_wf();
        }
        &self.tiles
    }

    /// The claimed tile indices, in the order the claims were made.
    pub fn owned_tile_indices(&self) -> (owned: &Vec<usize>)
        ensures
            owned@.map_values(|i: usize| i as int) == self@.owned,
            self@.wf(),
    {
        proof {
            use_type_invariant(self);
            self.lemma_inv_is_wf();
        }
        &self.owned
    }
}

/// Claims the tile at `index` for the player. A tile may be claimed more than
/// once; each claim is recorded. An index that addresses no tile is refused
/// and leaves the board as it was.
pub fn register_property(board: &mut TileMap, index: i64) -> (outcome: Result<(), RegistrationError>)
    ensures
        final(board)@.wf(),
        match outcome {
            Ok(_) => old(board)@.has_tile(index as int) && final(board)@ == old(board)@.claimed(
                index as int,
            ),
            Err(e) => e == RegistrationError::OutOfRange && !old(board)@.has_tile(index as int)
                && final(board)@ == old(board)@,
        },
{
    proof {
        use_type_invariant(&*board);
        board.lemma_inv_is_wf();
    }
    if index < 0 || index as u64 >= board.tiles.len() as u64 {
        return Err(RegistrationError::OutOfRange);
    }
    // The claims leave the board while they grow, so that the board is
    // well formed at every step.
    let mut claims: Vec<usize> = Vec::new();
    std::mem::swap(&mut board.owned, &mut claims);
    claims.push(index as usize);
    std::mem::swap(&mut board.owned, &mut claims);
    proof {
        board.lemma_inv_is_wf();
        assert(board@.owned =~= old(board)@.owned.push(index as int));
    }
    Ok(())
}

} // verus!
