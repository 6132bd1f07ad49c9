//! The place of an entity on the grid, kept apart from the tiles it stands
//! on.

use crate::grid::TilePos;
use vstd::prelude::*;

verus! {

/// Width of a tile in pixels.
pub const TILE_PIXELS_X: u32 = 8;

/// Height of a tile in pixels.
pub const TILE_PIXELS_Y: u32 = 8;

/// An entity's position on the grid.
#[derive(Clone, Copy, Debug, PartialEq, Eq, Structural)]
pub struct EntityTilePos {
    pub x: u32,
    pub y: u32,
}

impl EntityTilePos {
    /// The pixel at which the entity is drawn: its cell scaled by the size
    /// of a tile.
    pub fn center_in_world(&self) -> (pixel: (u64, u64))
        ensures
            pixel.0 == TILE_PIXELS_X * self.x,
            pixel.1 == TILE_PIXELS_Y * self.y,
    {
        (TILE_PIXELS_X as u64 * self.x as u64, TILE_PIXELS_Y as u64 * self.y as u64)
    }

    /// Checks if the position names the same cell as `other`.
    pub fn eq_tilepos(&self, other: &TilePos) -> (same: bool)
        ensures
            same == (self.x == other.x && self.y == other.y),
    {
        self.x == other.x && self.y == other.y
    }

    /// The cell on which the entity stands.
    pub fn tile_pos(&self) -> (pos: TilePos)
        ensures
            pos == (TilePos { x: self.x, y: self.y }),
    {
        TilePos { x: self.x, y: self.y }
    }
}

} // verus!
