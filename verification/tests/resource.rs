use catan_core::resource::Resource;

#[test]
fn all_lists_the_six_kinds_in_order() {
    assert_eq!(
        Resource::all(),
        [
            Resource::Brick,
            Resource::Wood,
            Resource::Wheat,
            Resource::Sheep,
            Resource::Ore,
            Resource::Desert,
        ]
    );
}

#[test]
fn every_kind_but_desert_produces() {
    assert!(Resource::Brick.is_producing());
    assert!(Resource::Wood.is_producing());
    assert!(Resource::Wheat.is_producing());
    assert!(Resource::Sheep.is_producing());
    assert!(Resource::Ore.is_producing());
    assert!(!Resource::Desert.is_producing());
}
