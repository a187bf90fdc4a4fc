//! Laying out a fresh board at random.

use vstd::prelude::*;
use rand::rngs::StdRng;
use crate::board::{Tile, TileMap, MAX_NUMBER, MIN_NUMBER};
use crate::chance::{choose_kind, draw_between};
use crate::resource::Resource;

verus! {

/// Lays out a board of `tile_count` tiles with no claims. Each tile gets a
/// resource drawn from all six kinds, desert included, and a production number
/// drawn from 2..=12, two draws per tile, in tile order.
///
/// Which tiles come out depends on the generator; what is promised holds
/// whatever it yields. The drawn tiles become a board as in
/// `TileMap::from_tiles`.
pub fn generate(tile_count: usize, rng: &mut StdRng) -> (board: TileMap)
    ensures
        board@.tiles.len() == tile_count,
        board@.owned == Seq::<int>::empty(),
        forall|i: int|
            0 <= i < tile_count ==> MIN_NUMBER <= (#[trigger] board@.tiles[i]).production_number <= MAX_NUMBER,
        board@.wf(),
{
    let kinds = Resource::all();
    let mut tiles: Vec<Tile> = Vec::new();
    let mut laid: usize = 0;
    while laid < tile_count
        invariant
            laid <= tile_count,
            tiles.len() == laid,
            kinds@ == Resource::kinds(),
            forall|i: int| 0 <= i < laid ==> (#[trigger] tiles[i]).playable(),
        decreases tile_count - laid,
    {
        let chosen = choose_kind(rng, &kinds);
        let resource = chosen.unwrap();
        let number = draw_between(rng, MIN_NUMBER, MAX_NUMBER);
        tiles.push(Tile { resource, production_number: number });
        laid += 1;
    }
    TileMap::from_tiles(tiles).unwrap()
}

} // verus!
