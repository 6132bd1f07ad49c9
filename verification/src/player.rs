//! The player's moves: where a key press leads, and what a harvesting
//! action strikes.

use crate::entity_tile_pos::EntityTilePos;
use crate::grid::TilePos;
use crate::interact::HarvestInteraction;
use crate::occupancy::ObjectSize;
use crate::world_gen::GameWorld;
use vstd::prelude::*;

verus! {

/// Cells that the player moves per step.
pub const PLAYER_TILE_SPEED: u32 = 1;

/// Column of the cell on which the player starts.
pub const PLAYER_START_X: u32 = 64;

/// Row of the cell on which the player starts.
pub const PLAYER_START_Y: u32 = 64;

/// Where the player faces.
#[derive(Clone, Copy, Debug, PartialEq, Eq, Structural)]
pub enum Direction {
    Up,
    Down,
    Left,
    Right,
}

/// Which of the four movement keys are held.
#[derive(Clone, Copy, Debug, PartialEq, Eq, Structural)]
pub struct MoveKeys {
    pub up: bool,
    pub down: bool,
    pub left: bool,
    pub right: bool,
}

/// A move of the player to a cell.
#[derive(Clone, Copy, Debug, PartialEq, Eq, Structural)]
pub struct MoveEvent(pub TilePos);

impl MoveKeys {
    /// The step along the columns: right wins over left.
    pub open spec fn step_x(self) -> int {
        if self.right {
            PLAYER_TILE_SPEED as int
        } else if self.left {
            -(PLAYER_TILE_SPEED as int)
        } else {
            0
        }
    }

    /// The step along the rows: up wins over down.
    pub open spec fn step_y(self) -> int {
        if self.up {
            PLAYER_TILE_SPEED as int
        } else if self.down {
            -(PLAYER_TILE_SPEED as int)
        } else {
            0
        }
    }

    /// Where the player faces after the keys were read: the horizontal key
    /// decides, then the vertical one; with no key held the facing stays.
    pub open spec fn facing(self, before: Direction) -> Direction {
        if self.right {
            Direction::Right
        } else if self.left {
            Direction::Left
        } else if self.up {
            Direction::Up
        } else if self.down {
            Direction::Down
        } else {
            before
        }
    }
}

/// The cell in front of `position` when facing `direction`, as signed
/// coordinates: it may lie off the map.
pub open spec fn cell_ahead(position: EntityTilePos, direction: Direction) -> (int, int) {
    match direction {
        Direction::Up => (position.x as int, position.y + 1),
        Direction::Down => (position.x as int, position.y - 1),
        Direction::Left => (position.x - 1, position.y as int),
        Direction::Right => (position.x + 1, position.y as int),
    }
}

/// The move that the held keys ask for, if the world allows it: the
/// destination differs from the position, lies on the map and is not
/// blocked.
pub open spec fn allowed_move(world: &GameWorld, position: EntityTilePos, keys: MoveKeys) -> Option<
    MoveEvent,
> {
    let x = position.x + keys.step_x();
    let y = position.y + keys.step_y();
    if (keys.step_x() != 0 || keys.step_y() != 0) && world.extent().covers(x, y)
        && !world.occupancy().blocked(TilePos { x: x as u32, y: y as u32 }) {
        Some(MoveEvent(TilePos { x: x as u32, y: y as u32 }))
    } else {
        None
    }
}

/// Reads the movement keys: turns the player to face the way of the keys and
/// returns the move they ask for, or `None` when no key is held, the
/// destination lies off the map, or the destination is blocked.
pub fn directional_input_handle(
    world: &GameWorld,
    position: &EntityTilePos,
    direction: &mut Direction,
    keys: &MoveKeys,
) -> (event: Option<MoveEvent>)
    requires
        world.wf(),
    ensures
        *final(direction) == keys.facing(*old(direction)),
        event == allowed_move(world, *position, *keys),
{
    let mut x: i64 = position.x as i64;
    let mut y: i64 = position.y as i64;
    if keys.up {
        y = y + PLAYER_TILE_SPEED as i64;
        *direction = Direction::Up;
    } else if keys.down {
        y = y - PLAYER_TILE_SPEED as i64;
        *direction = Direction::Down;
    }
    if keys.right {
        x = x + PLAYER_TILE_SPEED as i64;
        *direction = Direction::Right;
    } else if keys.left {
        x = x - PLAYER_TILE_SPEED as i64;
        *direction = Direction::Left;
    }
    if (x == position.x as i64 && y == position.y as i64) || !world.is_within_bounds(x, y) {
        return None;
    }
    let dest_tile = TilePos { x: x as u32, y: y as u32 };
    if world.blocked_tiles().is_blocked(dest_tile) {
        return None;
    }
    Some(MoveEvent(dest_tile))
}

/// Moves the player to the cell of a move event.
pub fn move_player(position: &mut EntityTilePos, event: &MoveEvent)
    ensures
        final(position).x == event.0.x,
        final(position).y == event.0.y,
{
    position.x = event.0.x;
    position.y = event.0.y;
}

/// The tile of `owner` carries an interaction and blocks: the object it owns
/// can be harvested.
pub open spec fn harvestable_owner(world: &GameWorld, owner: TilePos) -> bool {
    &&& world.extent().contains(owner)
    &&& world.objects().at(owner) matches Some(tile)
    &&& tile.interact is Some
    &&& tile.blocking
}

/// What a harvesting action from `position` towards `direction` strikes:
/// the object whose tile lies on the cell ahead.  An object of one cell is
/// struck itself; a member of a larger object leads to the owner, provided
/// the owner can be harvested.  Nothing is struck off the map, on a cell
/// without an object tile, or on a tile that belongs to no object.
pub open spec fn harvest_target(
    world: &GameWorld,
    position: EntityTilePos,
    direction: Direction,
) -> Option<HarvestInteraction> {
    let (x, y) = cell_ahead(position, direction);
    let dest = TilePos { x: x as u32, y: y as u32 };
    if !world.extent().covers(x, y) {
        None
    } else {
        match world.objects().at(dest) {
            Some(tile) => match tile.size {
                Some(ObjectSize::Single) => Some(
                    HarvestInteraction { harvested: dest, reciever_pos: dest },
                ),
                Some(ObjectSize::Multi(owner)) => if harvestable_owner(world, owner) {
                    Some(HarvestInteraction { harvested: owner, reciever_pos: dest })
                } else {
                    None
                },
                None => None,
            },
            None => None,
        }
    }
}

/// Finds what the player strikes when harvesting in the direction faced.
pub fn player_harvest_action(
    world: &GameWorld,
    position: &EntityTilePos,
    direction: &Direction,
) -> (interaction: Option<HarvestInteraction>)
    requires
        world.wf(),
    ensures
        interaction == harvest_target(world, *position, *direction),
{
    let px: i64 = position.x as i64;
    let py: i64 = position.y as i64;
    let (x, y): (i64, i64) = match *direction {
        Direction::Up => (px, py + 1),
        Direction::Down => (px, py - 1),
        Direction::Left => (px - 1, py),
        Direction::Right => (px + 1, py),
    };
    if !world.is_within_bounds(x, y) {
        return None;
    }
    let dest_tile = TilePos { x: x as u32, y: y as u32 };
    let tile = match world.object_tile(dest_tile) {
        Some(tile) => tile,
        None => {
            return None;
        },
    };
    match tile.size {
        Some(ObjectSize::Single) => Some(
            HarvestInteraction { harvested: dest_tile, reciever_pos: dest_tile },
        ),
        Some(ObjectSize::Multi(owner)) => {
            let can_harvest: bool = match world.object_tile(owner) {
                Some(owner_tile) => owner_tile.interact.is_some() && owner_tile.blocking,
                None => false,
            };
            if can_harvest {
                Some(HarvestInteraction { harvested: owner, reciever_pos: dest_tile })
            } else {
                None
            }
        },
        None => None,
    }
}

} // verus!
