use comfort_rpg::entity_tile_pos::EntityTilePos;
use comfort_rpg::grid::{Grid, TilePos, TilemapSize};
use comfort_rpg::interact::HarvestInteraction;
use comfort_rpg::noise::NoiseSample;
use comfort_rpg::player::{
    directional_input_handle, move_player, player_harvest_action, Direction, MoveEvent, MoveKeys,
    PLAYER_START_X, PLAYER_START_Y,
};
use comfort_rpg::random::CellRolls;
use comfort_rpg::world_gen::GameWorld;

fn pos(x: u32, y: u32) -> TilePos {
    TilePos::new(x, y)
}

fn at(x: u32, y: u32) -> EntityTilePos {
    EntityTilePos { x, y }
}

fn keys(up: bool, down: bool, left: bool, right: bool) -> MoveKeys {
    MoveKeys { up, down, left, right }
}

/// Water on (3, 3), a tree on (5, 4) and (5, 5), a flower on (1, 1).
fn world() -> GameWorld {
    let size = TilemapSize::new(8, 8);
    let mut terrain = Grid::filled(size, NoiseSample::from_bits(0.5f32.to_bits())).unwrap();
    terrain.set(pos(3, 3), NoiseSample::from_bits(0.1f32.to_bits()));
    let mut trees = Grid::filled(size, NoiseSample::from_bits(0.4f32.to_bits())).unwrap();
    trees.set(pos(5, 4), NoiseSample::from_bits(0.1f32.to_bits()));
    let quiet = CellRolls { foliage_percent: 50, foliage_type: 1, flower_percent: 50, flower_type: 2 };
    let mut rolls = Grid::filled(size, quiet).unwrap();
    rolls.set(pos(1, 1), CellRolls { flower_percent: 0, flower_type: 4, ..quiet });
    GameWorld::generate(size, 0, &terrain, &trees, &rolls).unwrap()
}

#[test]
fn keys_move_the_player_by_one_cell() {
    let world = world();
    let mut facing = Direction::Down;
    let here = at(2, 2);
    assert_eq!(
        directional_input_handle(&world, &here, &mut facing, &keys(true, false, false, false)),
        Some(MoveEvent(pos(2, 3)))
    );
    assert_eq!(facing, Direction::Up);
    assert_eq!(
        directional_input_handle(&world, &here, &mut facing, &keys(false, true, false, false)),
        Some(MoveEvent(pos(2, 1)))
    );
    assert_eq!(facing, Direction::Down);
    assert_eq!(
        directional_input_handle(&world, &here, &mut facing, &keys(false, false, true, false)),
        Some(MoveEvent(pos(1, 2)))
    );
    assert_eq!(facing, Direction::Left);
    assert_eq!(
        directional_input_handle(&world, &here, &mut facing, &keys(false, false, false, true)),
        Some(MoveEvent(pos(3, 2)))
    );
    assert_eq!(facing, Direction::Right);
    // Up wins over down, right over left, and the horizontal key decides the facing.
    assert_eq!(
        directional_input_handle(&world, &here, &mut facing, &keys(true, true, true, true)),
        None
    );
    assert_eq!(facing, Direction::Right);
    assert_eq!(
        directional_input_handle(&world, &at(1, 2), &mut facing, &keys(false, true, true, false)),
        Some(MoveEvent(pos(0, 1)))
    );
    assert_eq!(facing, Direction::Left);
}

#[test]
fn no_key_means_no_move() {
    let world = world();
    let mut facing = Direction::Left;
    assert_eq!(
        directional_input_handle(&world, &at(2, 2), &mut facing, &keys(false, false, false, false)),
        None
    );
    assert_eq!(facing, Direction::Left);
}

#[test]
fn the_edge_of_the_map_stops_the_player() {
    let world = world();
    let mut facing = Direction::Up;
    assert_eq!(
        directional_input_handle(&world, &at(0, 0), &mut facing, &keys(false, true, false, false)),
        None
    );
    assert_eq!(facing, Direction::Down);
    assert_eq!(
        directional_input_handle(&world, &at(0, 0), &mut facing, &keys(false, false, true, false)),
        None
    );
    assert_eq!(facing, Direction::Left);
    assert_eq!(
        directional_input_handle(&world, &at(7, 7), &mut facing, &keys(true, false, false, false)),
        None
    );
    assert_eq!(
        directional_input_handle(&world, &at(7, 7), &mut facing, &keys(false, false, false, true)),
        None
    );
    assert_eq!(
        directional_input_handle(&world, &at(7, 7), &mut facing, &keys(false, true, true, false)),
        Some(MoveEvent(pos(6, 6)))
    );
}

#[test]
fn blocked_cells_stop_the_player_and_flowers_do_not() {
    let world = world();
    let mut facing = Direction::Up;
    let up = keys(true, false, false, false);
    // Water.
    assert_eq!(directional_input_handle(&world, &at(3, 2), &mut facing, &up), None);
    // The trunk and the canopy of the tree.
    assert_eq!(directional_input_handle(&world, &at(5, 3), &mut facing, &up), None);
    assert_eq!(
        directional_input_handle(&world, &at(4, 5), &mut facing, &keys(false, false, false, true)),
        None
    );
    // A flower.
    assert!(world.object_tile(pos(1, 1)).is_some());
    assert_eq!(
        directional_input_handle(&world, &at(1, 0), &mut facing, &up),
        Some(MoveEvent(pos(1, 1)))
    );
}

#[test]
fn move_event_sets_the_position() {
    let mut here = at(PLAYER_START_X, PLAYER_START_Y);
    assert_eq!(here, at(64, 64));
    move_player(&mut here, &MoveEvent(pos(3, 9)));
    assert_eq!(here, at(3, 9));
    assert!(here.eq_tilepos(&pos(3, 9)));
    assert!(!here.eq_tilepos(&pos(9, 3)));
    assert_eq!(here.tile_pos(), pos(3, 9));
    assert_eq!(here.center_in_world(), (24, 72));
    assert_eq!(at(u32::MAX, 0).center_in_world(), (8 * u32::MAX as u64, 0));
}

#[test]
fn harvesting_any_cell_of_a_tree_strikes_its_owner() {
    let world = world();
    assert_eq!(
        player_harvest_action(&world, &at(5, 3), &Direction::Up),
        Some(HarvestInteraction { harvested: pos(5, 4), reciever_pos: pos(5, 4) })
    );
    assert_eq!(
        player_harvest_action(&world, &at(5, 6), &Direction::Down),
        Some(HarvestInteraction { harvested: pos(5, 4), reciever_pos: pos(5, 5) })
    );
    assert_eq!(
        player_harvest_action(&world, &at(6, 5), &Direction::Left),
        Some(HarvestInteraction { harvested: pos(5, 4), reciever_pos: pos(5, 5) })
    );
    assert_eq!(
        player_harvest_action(&world, &at(4, 4), &Direction::Right),
        Some(HarvestInteraction { harvested: pos(5, 4), reciever_pos: pos(5, 4) })
    );
}

#[test]
fn harvesting_finds_nothing_on_bare_cells_flowers_water_or_off_the_map() {
    let world = world();
    assert_eq!(player_harvest_action(&world, &at(2, 2), &Direction::Up), None);
    // A flower belongs to no object.
    assert_eq!(player_harvest_action(&world, &at(1, 0), &Direction::Up), None);
    // Water lies in the terrain layer.
    assert_eq!(player_harvest_action(&world, &at(3, 2), &Direction::Up), None);
    assert_eq!(player_harvest_action(&world, &at(0, 0), &Direction::Down), None);
    assert_eq!(player_harvest_action(&world, &at(0, 0), &Direction::Left), None);
    assert_eq!(player_harvest_action(&world, &at(7, 7), &Direction::Up), None);
    assert_eq!(player_harvest_action(&world, &at(7, 7), &Direction::Right), None);
}

#[test]
fn a_removed_tree_cannot_be_harvested() {
    let mut world = world();
    world.place_medium_tree(&pos(0, 6));
    world.remove_object(pos(0, 6));
    assert_eq!(player_harvest_action(&world, &at(0, 5), &Direction::Up), None);
    world.place_medium_tree(&pos(6, 0));
    assert_eq!(
        player_harvest_action(&world, &at(6, 2), &Direction::Down),
        Some(HarvestInteraction { harvested: pos(6, 0), reciever_pos: pos(6, 1) })
    );
}
