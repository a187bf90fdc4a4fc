use catan_core::board::{register_property, RegistrationError, Tile, TileMap, MAX_NUMBER, MIN_NUMBER};
use catan_core::resource::Resource;

fn tile(resource: Resource, number: i8) -> Tile {
    Tile { resource, production_number: number }
}

fn two_tiles() -> TileMap {
    let tiles = vec![tile(Resource::Wood, 6), tile(Resource::Desert, 6)];
    TileMap::from_tiles(tiles).expect("both tiles are playable")
}

#[test]
fn number_bounds_are_two_and_twelve() {
    assert_eq!(MIN_NUMBER, 2);
    assert_eq!(MAX_NUMBER, 12);
}

#[test]
fn tile_is_playable_exactly_from_two_to_twelve() {
    for number in i8::MIN..=i8::MAX {
        let expected = (2..=12).contains(&number);
        assert_eq!(tile(Resource::Ore, number).is_playable(), expected, "number {}", number);
    }
}

#[test]
fn from_tiles_keeps_tiles_in_order() {
    let tiles = vec![
        tile(Resource::Brick, 2),
        tile(Resource::Wood, 12),
        tile(Resource::Wheat, 7),
        tile(Resource::Sheep, 3),
        tile(Resource::Ore, 11),
        tile(Resource::Desert, 5),
    ];
    let board = TileMap::from_tiles(tiles.clone()).expect("all tiles are playable");
    assert_eq!(board.tiles(), &tiles);
    assert!(board.owned_tile_indices().is_empty());
}

#[test]
fn from_tiles_of_nothing_is_an_empty_board() {
    let board = TileMap::from_tiles(Vec::new()).expect("no tile can be unplayable");
    assert!(board.tiles().is_empty());
    assert!(board.owned_tile_indices().is_empty());
}

#[test]
fn from_tiles_refuses_a_number_below_two() {
    let tiles = vec![tile(Resource::Wood, 6), tile(Resource::Brick, 1)];
    assert!(TileMap::from_tiles(tiles).is_none());
}

#[test]
fn from_tiles_refuses_a_number_above_twelve() {
    let tiles = vec![tile(Resource::Brick, 13), tile(Resource::Wood, 6)];
    assert!(TileMap::from_tiles(tiles).is_none());
}

#[test]
fn from_tiles_refuses_an_unplayable_desert() {
    assert!(TileMap::from_tiles(vec![tile(Resource::Desert, 0)]).is_none());
    assert!(TileMap::from_tiles(vec![tile(Resource::Desert, -6)]).is_none());
}

#[test]
fn claim_at_length_is_out_of_range() {
    let mut board = two_tiles();
    assert_eq!(register_property(&mut board, 2), Err(RegistrationError::OutOfRange));
    assert!(board.owned_tile_indices().is_empty());
}

#[test]
fn claim_at_last_index_succeeds() {
    let mut board = two_tiles();
    assert_eq!(register_property(&mut board, 1), Ok(()));
    assert_eq!(board.owned_tile_indices(), &vec![1usize]);
}

#[test]
fn claim_at_first_index_succeeds() {
    let mut board = two_tiles();
    assert_eq!(register_property(&mut board, 0), Ok(()));
    assert_eq!(board.owned_tile_indices(), &vec![0usize]);
}

#[test]
fn negative_claim_is_out_of_range() {
    let mut board = two_tiles();
    assert_eq!(register_property(&mut board, -1), Err(RegistrationError::OutOfRange));
    assert_eq!(register_property(&mut board, i64::MIN), Err(RegistrationError::OutOfRange));
    assert!(board.owned_tile_indices().is_empty());
}

#[test]
fn huge_claim_is_out_of_range() {
    let mut board = two_tiles();
    assert_eq!(register_property(&mut board, i64::MAX), Err(RegistrationError::OutOfRange));
    assert!(board.owned_tile_indices().is_empty());
}

#[test]
fn any_claim_on_an_empty_board_is_out_of_range() {
    let mut board = TileMap::from_tiles(Vec::new()).expect("no tile can be unplayable");
    assert_eq!(register_property(&mut board, 0), Err(RegistrationError::OutOfRange));
    assert!(board.owned_tile_indices().is_empty());
}

#[test]
fn refused_claim_leaves_earlier_claims_in_place() {
    let mut board = two_tiles();
    assert_eq!(register_property(&mut board, 1), Ok(()));
    assert_eq!(register_property(&mut board, 5), Err(RegistrationError::OutOfRange));
    assert_eq!(board.owned_tile_indices(), &vec![1usize]);
    assert_eq!(board.tiles().len(), 2);
}

#[test]
fn claims_are_kept_in_order_with_repeats() {
    let mut board = two_tiles();
    for index in [1, 0, 1, 1, 0] {
        assert_eq!(register_property(&mut board, index), Ok(()));
    }
    assert_eq!(board.owned_tile_indices(), &vec![1usize, 0, 1, 1, 0]);
}

#[test]
fn claiming_does_not_change_the_tiles() {
    let mut board = two_tiles();
    let before = board.tiles().clone();
    assert_eq!(register_property(&mut board, 0), Ok(()));
    assert_eq!(board.tiles(), &before);
}
