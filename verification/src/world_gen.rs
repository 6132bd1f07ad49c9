//! World generation: terrain from one noise field, trees from a second, and a
//! sparse scatter of flowers on what is left unblocked.

use crate::grid::{Grid, TilePos, TilemapSize};
use crate::interact::{Health, Interact, StrikeOutcome};
use crate::noise::NoiseSample;
use crate::occupancy::{ObjectSize, Occupancy, OccupancyIndex};
use crate::random::{draw_rolls, rolls_in_range, CellRolls};
use vstd::prelude::*;

verus! {

/// Texture of a water cell in the terrain atlas.
pub const WATER_TILE: u32 = 13;

/// Texture of bare ground in the terrain atlas.
pub const BARE_GROUND_TILE: u32 = 0;

/// A percentage roll at or above this leaves the ground bare.
pub const BARE_GROUND_FROM: u32 = 20;

/// A percentage roll at or below this grows a flower.
pub const FLOWER_UP_TO: u32 = 2;

/// Texture of a tree's trunk in the object atlas.
pub const TREE_BASE: u32 = 0;

/// Texture of a tree's canopy in the object atlas.
pub const TREE_TOP: u32 = 1;

/// Hit points of a freshly planted tree.
pub const TREE_HEALTH: u32 = 5;

/// What one cell of a layer shows and carries.
#[derive(Clone, Copy, Debug, PartialEq, Eq)]
pub struct Tile {
    /// Index of the sprite in the layer's atlas.
    pub texture_index: u32,
    /// The tile cannot be walked on.
    pub blocking: bool,
    /// The object that the tile is part of, if any.
    pub size: Option<ObjectSize>,
    /// What can be done to the object; held by the owning cell only.
    pub interact: Option<Interact>,
    /// The tile is the trunk of a tree.
    pub tree: bool,
}

/// Where a world stands in its life.
#[derive(Clone, Copy, Debug, PartialEq, Eq, Structural)]
pub enum WorldState {
    Uninitialized,
    Generating,
    Ready,
}

/// The texture of a terrain cell: water inside the water band, else bare
/// ground or, on a low percentage roll, the rolled grass variant.
pub open spec fn terrain_texture(sample: NoiseSample, rolls: CellRolls) -> u32 {
    if sample.in_water_band() {
        WATER_TILE
    } else if rolls.foliage_percent >= BARE_GROUND_FROM {
        BARE_GROUND_TILE
    } else {
        rolls.foliage_type
    }
}

/// The terrain tile of a cell.
pub open spec fn terrain_tile(sample: NoiseSample, rolls: CellRolls) -> Tile {
    Tile {
        texture_index: terrain_texture(sample, rolls),
        blocking: sample.in_water_band(),
        size: None,
        interact: None,
        tree: false,
    }
}

/// The trunk tile of the tree that stands on `base`.
pub open spec fn tree_base_tile(base: TilePos) -> Tile {
    Tile {
        texture_index: TREE_BASE,
        blocking: true,
        size: Some(ObjectSize::Multi(base)),
        interact: Some(
            Interact::Harvest(Health { max_hp: TREE_HEALTH, hp: TREE_HEALTH as i32 }),
        ),
        tree: true,
    }
}

/// The canopy tile of the tree that stands on `base`.
pub open spec fn tree_top_tile(base: TilePos) -> Tile {
    Tile {
        texture_index: TREE_TOP,
        blocking: false,
        size: Some(ObjectSize::Multi(base)),
        interact: None,
        tree: false,
    }
}

/// A flower of the given variant.
pub open spec fn flower_tile(variant: u32) -> Tile {
    Tile { texture_index: variant, blocking: false, size: None, interact: None, tree: false }
}

/// The cell on which the tree that covers `pos` would stand: trees stand on
/// even rows and reach one row up.
pub open spec fn tree_base_of(pos: TilePos) -> TilePos {
    TilePos { x: pos.x, y: (pos.y - pos.y % 2) as u32 }
}

/// The cell above `base`, which the canopy of a tree on `base` fills.
pub open spec fn tree_top_of(base: TilePos) -> TilePos {
    TilePos { x: base.x, y: (base.y + 1) as u32 }
}

/// A tree can stand on `base`: the row is even and both cells lie on the map.
pub open spec fn tree_fits(size: TilemapSize, base: TilePos) -> bool {
    base.y % 2 == 0 && size.contains(base) && base.y + 1 < size.y
}

/// The tree stage plants a tree on `base`: it fits, neither of its cells is
/// blocked in `occupancy`, and the sample of `base` lies in a tree tail.
pub open spec fn tree_planted(
    occupancy: &OccupancyIndex,
    noise: &Grid<NoiseSample>,
    base: TilePos,
) -> bool {
    &&& tree_fits(occupancy.extent(), base)
    &&& !occupancy.blocked(base)
    &&& !occupancy.blocked(tree_top_of(base))
    &&& noise.at(base).in_tree_tails()
}

/// The tile that a tree covering `pos` puts there: trunk on the even row,
/// canopy on the odd one.
pub open spec fn tree_tile_at(pos: TilePos) -> Tile {
    if pos.y % 2 == 0 {
        tree_base_tile(pos)
    } else {
        tree_top_tile(tree_base_of(pos))
    }
}

/// The flower stage puts a flower on `pos`: the cell is not blocked in
/// `occupancy` and its percentage roll is low enough.
pub open spec fn flower_grows(occupancy: &OccupancyIndex, rolls: &Grid<CellRolls>, pos: TilePos) -> bool {
    !occupancy.blocked(pos) && rolls.at(pos).flower_percent <= FLOWER_UP_TO
}

/// A finished world has a tree on `base`: a tree fits there, neither of its
/// cells is water, and the tree sample of `base` lies in a tree tail.
pub open spec fn tree_grows(
    size: TilemapSize,
    terrain: &Grid<NoiseSample>,
    trees: &Grid<NoiseSample>,
    base: TilePos,
) -> bool {
    &&& tree_fits(size, base)
    &&& !terrain.at(base).in_water_band()
    &&& !terrain.at(tree_top_of(base)).in_water_band()
    &&& trees.at(base).in_tree_tails()
}

/// The entry of `pos` in the occupancy index of a finished world: water
/// blocks its own cell, a tree blocks its two cells in the name of its base,
/// and nothing else blocks.
pub open spec fn generated_occupancy(
    size: TilemapSize,
    terrain: &Grid<NoiseSample>,
    trees: &Grid<NoiseSample>,
    pos: TilePos,
) -> Occupancy {
    if terrain.at(pos).in_water_band() {
        Occupancy::Blocked(ObjectSize::Single)
    } else if tree_grows(size, terrain, trees, tree_base_of(pos)) {
        Occupancy::Blocked(ObjectSize::Multi(tree_base_of(pos)))
    } else {
        Occupancy::Empty
    }
}

/// The tile of `pos` in the object layer of a finished world: a tree tile
/// where a tree grows, a flower on an unblocked cell with a low percentage
/// roll, and nothing elsewhere.
pub open spec fn generated_object(
    size: TilemapSize,
    terrain: &Grid<NoiseSample>,
    trees: &Grid<NoiseSample>,
    rolls: &Grid<CellRolls>,
    pos: TilePos,
) -> Option<Tile> {
    if tree_grows(size, terrain, trees, tree_base_of(pos)) {
        Some(tree_tile_at(pos))
    } else if !terrain.at(pos).in_water_band() && rolls.at(pos).flower_percent <= FLOWER_UP_TO {
        Some(flower_tile(rolls.at(pos).flower_type))
    } else {
        None
    }
}

/// Why a world could not be generated.
#[derive(Clone, Copy, Debug, PartialEq, Eq, Structural)]
pub enum WorldGenError {
    /// The terrain noise covers another extent than the world.
    TerrainExtentMismatch,
    /// The tree noise covers another extent than the world.
    TreeExtentMismatch,
    /// The rolls cover another extent than the world.
    RollsExtentMismatch,
    /// A generation pass on the world has begun and not finished.
    GenerationInProgress,
}

/// The first input that does not cover exactly `size`, if there is one.
pub open spec fn extent_error(
    size: TilemapSize,
    terrain: &Grid<NoiseSample>,
    trees: &Grid<NoiseSample>,
    rolls: &Grid<CellRolls>,
) -> Option<WorldGenError> {
    if terrain.extent() != size {
        Some(WorldGenError::TerrainExtentMismatch)
    } else if trees.extent() != size {
        Some(WorldGenError::TreeExtentMismatch)
    } else if rolls.extent() != size {
        Some(WorldGenError::RollsExtentMismatch)
    } else {
        None
    }
}

/// Finds the first input that does not cover exactly `size`.
pub fn check_extents(
    size: TilemapSize,
    terrain: &Grid<NoiseSample>,
    trees: &Grid<NoiseSample>,
    rolls: &Grid<CellRolls>,
) -> (error: Option<WorldGenError>)
    ensures
        error == extent_error(size, terrain, trees, rolls),
{
    if terrain.size() != size {
        Some(WorldGenError::TerrainExtentMismatch)
    } else if trees.size() != size {
        Some(WorldGenError::TreeExtentMismatch)
    } else if rolls.size() != size {
        Some(WorldGenError::RollsExtentMismatch)
    } else {
        None
    }
}

/// Computes the terrain tile of a cell from its sample and rolls.
pub fn make_terrain_tile(sample: NoiseSample, rolls: CellRolls) -> (tile: Tile)
    ensures
        tile == terrain_tile(sample, rolls),
{
    let water: bool = sample.is_water();
    let texture_index: u32 = if water {
        WATER_TILE
    } else if rolls.foliage_percent >= BARE_GROUND_FROM {
        BARE_GROUND_TILE
    } else {
        rolls.foliage_type
    };
    Tile { texture_index, blocking: water, size: None, interact: None, tree: false }
}

/// A generated world: two layers of tiles, the occupancy index and the seed
/// that the noise fields were made from.
pub struct GameWorld {
    floor_tiles: Grid<Option<Tile>>,
    objs_tiles: Grid<Option<Tile>>,
    blocked_tiles: OccupancyIndex,
    seed: u64,
    state: WorldState,
}

impl GameWorld {
    /// The layers and the index cover one and the same map, and once the
    /// terrain stage has run every cell holds a terrain tile.
    pub open spec fn wf(&self) -> bool {
        &&& self.floor().wf()
        &&& self.objects().wf()
        &&& self.occupancy().wf()
        &&& self.floor().extent() == self.extent()
        &&& self.objects().extent() == self.extent()
        &&& self.occupancy().extent() == self.extent()
        &&& self.life() != WorldState::Uninitialized ==> self.terrain_complete()
    }

    /// Every cell of the map holds a terrain tile.
    pub open spec fn terrain_complete(&self) -> bool {
        forall|pos: TilePos|
            self.extent().contains(pos) ==> #[trigger] self.floor().at(pos) is Some
    }

    /// The extent of the map.
    pub closed spec fn extent(&self) -> TilemapSize {
        self.floor_tiles.extent()
    }

    /// The terrain layer.
    pub closed spec fn floor(&self) -> Grid<Option<Tile>> {
        self.floor_tiles
    }

    /// The object layer.
    pub closed spec fn objects(&self) -> Grid<Option<Tile>> {
        self.objs_tiles
    }

    /// The occupancy index.
    pub closed spec fn occupancy(&self) -> OccupancyIndex {
        self.blocked_tiles
    }

    /// The seed of the world's noise fields.
    pub closed spec fn seed_value(&self) -> u64 {
        self.seed
    }

    /// Where the world stands in its life.
    pub closed spec fn life(&self) -> WorldState {
        self.state
    }

    /// No cell holds a tile and no cell is blocked.
    pub open spec fn is_blank(&self) -> bool {
        &&& self.occupancy().is_clear()
        &&& forall|pos: TilePos|
            self.extent().contains(pos) ==> #[trigger] self.floor().at(pos) is None
        &&& forall|pos: TilePos|
            self.extent().contains(pos) ==> #[trigger] self.objects().at(pos) is None
    }

    /// A world of extent `size` with nothing in it, or `None` when the number
    /// of cells does not fit the machine's address range.
    pub fn new(size: TilemapSize, seed: u64) -> (world: Option<GameWorld>)
        ensures
            world is Some <==> size.count() <= usize::MAX,
            world matches Some(w) ==> {
                &&& w.wf()
                &&& w.extent() == size
                &&& w.seed_value() == seed
                &&& w.life() == WorldState::Uninitialized
                &&& w.is_blank()
            },
    {
        let floor_tiles = match Grid::filled(size, None) {
            Some(g) => g,
            None => {
                return None;
            },
        };
        let objs_tiles = match Grid::filled(size, None) {
            Some(g) => g,
            None => {
                return None;
            },
        };
        let blocked_tiles = match OccupancyIndex::new(size) {
            Some(i) => i,
            None => {
                return None;
            },
        };
        Some(
            GameWorld {
                floor_tiles,
                objs_tiles,
                blocked_tiles,
                seed,
                state: WorldState::Uninitialized,
            },
        )
    }

    /// The extent of the map.
    pub fn size(&self) -> (size: TilemapSize)
        ensures
            size == self.extent(),
    {
        self.floor_tiles.size()
    }

    /// The seed of the world's noise fields.
    pub fn seed(&self) -> (seed: u64)
        ensures
            seed == self.seed_value(),
    {
        self.seed
    }

    /// Where the world stands in its life.
    pub fn state(&self) -> (state: WorldState)
        ensures
            state == self.life(),
    {
        self.state
    }

    /// Every cell holds its terrain tile, and the water cells are blocked and
    /// no others.
    pub open spec fn terrain_laid(&self, noise: &Grid<NoiseSample>, rolls: &Grid<CellRolls>) -> bool {
        &&& forall|pos: TilePos|
            self.extent().contains(pos) ==> #[trigger] self.floor().at(pos) == Some(
                terrain_tile(noise.at(pos), rolls.at(pos)),
            )
        &&& forall|pos: TilePos|
            self.extent().contains(pos) ==> #[trigger] self.occupancy().at(pos) == (if noise.at(
                pos,
            ).in_water_band() {
                Occupancy::Blocked(ObjectSize::Single)
            } else {
                Occupancy::Empty
            })
    }

    /// Lays the terrain, the first stage of a pass, on a world that holds
    /// nothing yet: every cell of the map gets exactly one terrain tile,
    /// chosen from its noise sample and its rolls, and every water cell is
    /// entered into the occupancy index as a blocked cell of its own.  Ground
    /// cells stay empty in the index, and the object layer is not touched.
    pub fn spawn_terrain(&mut self, noise: &Grid<NoiseSample>, rolls: &Grid<CellRolls>)
        requires
            old(self).wf(),
            old(self).life() == WorldState::Uninitialized,
            old(self).is_blank(),
            noise.wf(),
            rolls.wf(),
            noise.extent() == old(self).extent(),
            rolls.extent() == old(self).extent(),
        ensures
            final(self).wf(),
            final(self).extent() == old(self).extent(),
            final(self).seed_value() == old(self).seed_value(),
            final(self).life() == WorldState::Generating,
            final(self).objects() == old(self).objects(),
            final(self).terrain_laid(noise, rolls),
    {
        let size = self.floor_tiles.size();
        let mut x: u32 = 0;
        while x < size.x
            invariant
                self.wf(),
                noise.wf(),
                rolls.wf(),
                size == self.extent(),
                noise.extent() == size,
                rolls.extent() == size,
                self.extent() == old(self).extent(),
                self.seed == old(self).seed,
                self.objs_tiles == old(self).objs_tiles,
                x <= size.x,
                forall|pos: TilePos|
                    size.contains(pos) && pos.x < x ==> #[trigger] self.floor_tiles.at(pos)
                        == Some(terrain_tile(noise.at(pos), rolls.at(pos))),
                forall|pos: TilePos|
                    size.contains(pos) ==> #[trigger] self.blocked_tiles.at(pos) == (if pos.x < x
                        && noise.at(pos).in_water_band() {
                        Occupancy::Blocked(ObjectSize::Single)
                    } else {
                        old(self).blocked_tiles.at(pos)
                    }),
            decreases size.x - x,
        {
            let mut y: u32 = 0;
            while y < size.y
                invariant
                    self.wf(),
                    noise.wf(),
                    rolls.wf(),
                    size == self.extent(),
                    noise.extent() == size,
                    rolls.extent() == size,
                    self.extent() == old(self).extent(),
                    self.seed == old(self).seed,
                    self.objs_tiles == old(self).objs_tiles,
                    x < size.x,
                    y <= size.y,
                    forall|pos: TilePos|
                        size.contains(pos) && (pos.x < x || (pos.x == x && pos.y < y))
                            ==> #[trigger] self.floor_tiles.at(pos) == Some(
                            terrain_tile(noise.at(pos), rolls.at(pos)),
                        ),
                    forall|pos: TilePos|
                        size.contains(pos) ==> #[trigger] self.blocked_tiles.at(pos) == (if (pos.x
                            < x || (pos.x == x && pos.y < y)) && noise.at(pos).in_water_band() {
                            Occupancy::Blocked(ObjectSize::Single)
                        } else {
                            old(self).blocked_tiles.at(pos)
                        }),
                decreases size.y - y,
            {
                let tile_pos = TilePos { x, y };
                let tile = make_terrain_tile(noise.get(tile_pos), rolls.get(tile_pos));
                if tile.blocking {
                    let _ = self.blocked_tiles.set_blocked(tile_pos, ObjectSize::Single);
                }
                self.floor_tiles.set(tile_pos, Some(tile));
                y = y + 1;
            }
            x = x + 1;
        }
        self.state = WorldState::Generating;
    }

    /// Plants a tree of two cells on `base`: trunk there, canopy on the cell
    /// above.  Both cells are entered into the occupancy index as members of
    /// the object that `base` owns; the trunk alone carries the harvest data.
    /// Nothing else changes.
    pub fn place_medium_tree(&mut self, tree_base_pos: &TilePos)
        requires
            old(self).wf(),
            old(self).extent().contains(*tree_base_pos),
            tree_base_pos.y + 1 < old(self).extent().y,
        ensures
            final(self).wf(),
            final(self).extent() == old(self).extent(),
            final(self).seed_value() == old(self).seed_value(),
            final(self).life() == old(self).life(),
            final(self).floor() == old(self).floor(),
            forall|pos: TilePos|
                final(self).extent().contains(pos) ==> #[trigger] final(self).objects().at(pos)
                    == (if pos == *tree_base_pos {
                    Some(tree_base_tile(*tree_base_pos))
                } else if pos == tree_top_of(*tree_base_pos) {
                    Some(tree_top_tile(*tree_base_pos))
                } else {
                    old(self).objects().at(pos)
                }),
            forall|pos: TilePos|
                final(self).extent().contains(pos) ==> #[trigger] final(self).occupancy().at(pos)
                    == (if pos == *tree_base_pos || pos == tree_top_of(*tree_base_pos) {
                    Occupancy::Blocked(ObjectSize::Multi(*tree_base_pos))
                } else {
                    old(self).occupancy().at(pos)
                }),
    {
        let base = *tree_base_pos;
        let top = TilePos { x: base.x, y: base.y + 1 };
        let obj_size = ObjectSize::Multi(base);
        let base_tile = Tile {
            texture_index: TREE_BASE,
            blocking: true,
            size: Some(obj_size),
            interact: Some(Interact::Harvest(Health::new(TREE_HEALTH))),
            tree: true,
        };
        let top_tile = Tile {
            texture_index: TREE_TOP,
            blocking: false,
            size: Some(obj_size),
            interact: None,
            tree: false,
        };
        self.objs_tiles.set(base, Some(base_tile));
        self.objs_tiles.set(top, Some(top_tile));
        let _ = self.blocked_tiles.set_blocked(base, obj_size);
        let _ = self.blocked_tiles.set_blocked(top, obj_size);
    }

    /// Every cell of a planted tree holds its tree tile and is blocked as a
    /// member of that tree; every other cell is as it was in `before`.
    pub open spec fn trees_planted(&self, before: &GameWorld, noise: &Grid<NoiseSample>) -> bool {
        &&& forall|pos: TilePos|
            self.extent().contains(pos) ==> #[trigger] self.objects().at(pos) == (if tree_planted(
                &before.occupancy(),
                noise,
                tree_base_of(pos),
            ) {
                Some(tree_tile_at(pos))
            } else {
                before.objects().at(pos)
            })
        &&& forall|pos: TilePos|
            self.extent().contains(pos) ==> #[trigger] self.occupancy().at(pos) == (if tree_planted(
                &before.occupancy(),
                noise,
                tree_base_of(pos),
            ) {
                Occupancy::Blocked(ObjectSize::Multi(tree_base_of(pos)))
            } else {
                before.occupancy().at(pos)
            })
    }

    /// Plants the trees, the second stage of a pass, on a world whose
    /// terrain is laid.  The candidates are the cells of the even rows that
    /// have a cell above them, visited column by column and upwards.  A
    /// candidate gets a tree when neither it nor the cell above it was blocked
    /// before the stage and its noise sample lies in a tree tail.  The terrain
    /// layer is not touched.
    pub fn spawn_trees(&mut self, noise: &Grid<NoiseSample>)
        requires
            old(self).wf(),
            old(self).life() == WorldState::Generating,
            noise.wf(),
            noise.extent() == old(self).extent(),
        ensures
            final(self).wf(),
            final(self).extent() == old(self).extent(),
            final(self).seed_value() == old(self).seed_value(),
            final(self).life() == old(self).life(),
            final(self).floor() == old(self).floor(),
            final(self).trees_planted(old(self), noise),
    {
        let size = self.floor_tiles.size();
        let mut x: u32 = 0;
        while x < size.x
            invariant
                self.wf(),
                noise.wf(),
                size == self.extent(),
                noise.extent() == size,
                old(self).wf(),
                self.extent() == old(self).extent(),
                self.seed == old(self).seed,
                self.state == old(self).state,
                self.floor_tiles == old(self).floor_tiles,
                x <= size.x,
                forall|pos: TilePos|
                    size.contains(pos) ==> #[trigger] self.objs_tiles.at(pos) == (if pos.x < x
                        && tree_planted(&old(self).blocked_tiles, noise, tree_base_of(pos)) {
                        Some(tree_tile_at(pos))
                    } else {
                        old(self).objs_tiles.at(pos)
                    }),
                forall|pos: TilePos|
                    size.contains(pos) ==> #[trigger] self.blocked_tiles.at(pos) == (if pos.x < x
                        && tree_planted(&old(self).blocked_tiles, noise, tree_base_of(pos)) {
                        Occupancy::Blocked(ObjectSize::Multi(tree_base_of(pos)))
                    } else {
                        old(self).blocked_tiles.at(pos)
                    }),
            decreases size.x - x,
        {
            let mut y: u32 = 0;
            while size.y - y > 1
                invariant
                    self.wf(),
                    noise.wf(),
                    size == self.extent(),
                    noise.extent() == size,
                    old(self).wf(),
                    self.extent() == old(self).extent(),
                    self.seed == old(self).seed,
                    self.state == old(self).state,
                    self.floor_tiles == old(self).floor_tiles,
                    x < size.x,
                    y <= size.y,
                    y % 2 == 0,
                    forall|pos: TilePos|
                        size.contains(pos) ==> #[trigger] self.objs_tiles.at(pos) == (if (pos.x < x
                            || (pos.x == x && pos.y < y)) && tree_planted(
                            &old(self).blocked_tiles,
                            noise,
                            tree_base_of(pos),
                        ) {
                            Some(tree_tile_at(pos))
                        } else {
                            old(self).objs_tiles.at(pos)
                        }),
                    forall|pos: TilePos|
                        size.contains(pos) ==> #[trigger] self.blocked_tiles.at(pos) == (if (pos.x
                            < x || (pos.x == x && pos.y < y)) && tree_planted(
                            &old(self).blocked_tiles,
                            noise,
                            tree_base_of(pos),
                        ) {
                            Occupancy::Blocked(ObjectSize::Multi(tree_base_of(pos)))
                        } else {
                            old(self).blocked_tiles.at(pos)
                        }),
                decreases size.y - y,
            {
                let tree_base_pos = TilePos { x, y };
                let tree_top_pos = TilePos { x, y: y + 1 };
                let free: bool = !self.blocked_tiles.is_blocked(tree_base_pos)
                    && !self.blocked_tiles.is_blocked(tree_top_pos);
                if free && noise.get(tree_base_pos).plants_tree() {
                    self.place_medium_tree(&tree_base_pos);
                }
                y = y + 2;
            }
            x = x + 1;
        }
    }

    /// Every cell on which a flower grows holds its flower tile; every other
    /// cell of the object layer is as it was in `before`.
    pub open spec fn flowers_scattered(&self, before: &GameWorld, rolls: &Grid<CellRolls>) -> bool {
        forall|pos: TilePos|
            self.extent().contains(pos) ==> #[trigger] self.objects().at(pos) == (if flower_grows(
                &before.occupancy(),
                rolls,
                pos,
            ) {
                Some(flower_tile(rolls.at(pos).flower_type))
            } else {
                before.objects().at(pos)
            })
    }

    /// Scatters flowers, the last stage of a pass, which leaves the world
    /// ready: every cell that is not blocked and whose percentage roll is low
    /// enough gets a flower of the rolled variant in the object layer.
    /// Flowers block nothing: the occupancy index and the terrain layer are
    /// not touched.
    pub fn spawn_flowers(&mut self, rolls: &Grid<CellRolls>)
        requires
            old(self).wf(),
            old(self).life() == WorldState::Generating,
            rolls.wf(),
            rolls.extent() == old(self).extent(),
        ensures
            final(self).wf(),
            final(self).extent() == old(self).extent(),
            final(self).seed_value() == old(self).seed_value(),
            final(self).life() == WorldState::Ready,
            final(self).floor() == old(self).floor(),
            final(self).occupancy() == old(self).occupancy(),
            final(self).flowers_scattered(old(self), rolls),
    {
        let size = self.floor_tiles.size();
        let mut x: u32 = 0;
        while x < size.x
            invariant
                self.wf(),
                rolls.wf(),
                size == self.extent(),
                rolls.extent() == size,
                self.extent() == old(self).extent(),
                self.seed == old(self).seed,
                self.floor_tiles == old(self).floor_tiles,
                self.blocked_tiles == old(self).blocked_tiles,
                x <= size.x,
                forall|pos: TilePos|
                    size.contains(pos) ==> #[trigger] self.objs_tiles.at(pos) == (if pos.x < x
                        && flower_grows(&old(self).blocked_tiles, rolls, pos) {
                        Some(flower_tile(rolls.at(pos).flower_type))
                    } else {
                        old(self).objs_tiles.at(pos)
                    }),
            decreases size.x - x,
        {
            let mut y: u32 = 0;
            while y < size.y
                invariant
                    self.wf(),
                    rolls.wf(),
                    size == self.extent(),
                    rolls.extent() == size,
                    self.extent() == old(self).extent(),
                    self.seed == old(self).seed,
                    self.floor_tiles == old(self).floor_tiles,
                    self.blocked_tiles == old(self).blocked_tiles,
                    x < size.x,
                    y <= size.y,
                    forall|pos: TilePos|
                        size.contains(pos) ==> #[trigger] self.objs_tiles.at(pos) == (if (pos.x < x
                            || (pos.x == x && pos.y < y)) && flower_grows(
                            &old(self).blocked_tiles,
                            rolls,
                            pos,
                        ) {
                            Some(flower_tile(rolls.at(pos).flower_type))
                        } else {
                            old(self).objs_tiles.at(pos)
                        }),
                decreases size.y - y,
            {
                let tile_pos = TilePos { x, y };
                if !self.blocked_tiles.is_blocked(tile_pos) {
                    let cell = rolls.get(tile_pos);
                    if cell.flower_percent <= FLOWER_UP_TO {
                        self.objs_tiles.set(
                            tile_pos,
                            Some(
                                Tile {
                                    texture_index: cell.flower_type,
                                    blocking: false,
                                    size: None,
                                    interact: None,
                                    tree: false,
                                },
                            ),
                        );
                    }
                }
                y = y + 1;
            }
            x = x + 1;
        }
        self.state = WorldState::Ready;
    }

    /// Tears the world down: afterwards no cell holds a tile and no cell is
    /// blocked.  The extent and the seed stay.
    pub fn teardown(&mut self)
        requires
            old(self).wf(),
        ensures
            final(self).wf(),
            final(self).extent() == old(self).extent(),
            final(self).seed_value() == old(self).seed_value(),
            final(self).life() == WorldState::Uninitialized,
            final(self).is_blank(),
    {
        let size = self.floor_tiles.size();
        self.state = WorldState::Uninitialized;
        self.blocked_tiles.clear();
        let mut x: u32 = 0;
        while x < size.x
            invariant
                self.wf(),
                size == self.extent(),
                self.extent() == old(self).extent(),
                self.seed == old(self).seed,
                self.blocked_tiles.is_clear(),
                self.state == WorldState::Uninitialized,
                x <= size.x,
                forall|pos: TilePos|
                    size.contains(pos) && pos.x < x ==> #[trigger] self.floor_tiles.at(pos) is None,
                forall|pos: TilePos|
                    size.contains(pos) && pos.x < x ==> #[trigger] self.objs_tiles.at(pos) is None,
            decreases size.x - x,
        {
            let mut y: u32 = 0;
            while y < size.y
                invariant
                    self.wf(),
                    size == self.extent(),
                    self.extent() == old(self).extent(),
                    self.seed == old(self).seed,
                    self.blocked_tiles.is_clear(),
                    self.state == WorldState::Uninitialized,
                    x < size.x,
                    y <= size.y,
                    forall|pos: TilePos|
                        size.contains(pos) && (pos.x < x || (pos.x == x && pos.y < y))
                            ==> #[trigger] self.floor_tiles.at(pos) is None,
                    forall|pos: TilePos|
                        size.contains(pos) && (pos.x < x || (pos.x == x && pos.y < y))
                            ==> #[trigger] self.objs_tiles.at(pos) is None,
                decreases size.y - y,
            {
                let tile_pos = TilePos { x, y };
                self.floor_tiles.set(tile_pos, None);
                self.objs_tiles.set(tile_pos, None);
                y = y + 1;
            }
            x = x + 1;
        }
    }

    /// The world is what one run of the pipeline makes of these inputs: every
    /// cell holds its terrain tile, the index holds water and trees and
    /// nothing else, and the object layer holds trees and flowers.
    pub open spec fn is_generation_of(
        &self,
        size: TilemapSize,
        seed: u64,
        terrain: &Grid<NoiseSample>,
        trees: &Grid<NoiseSample>,
        rolls: &Grid<CellRolls>,
    ) -> bool {
        &&& self.wf()
        &&& self.extent() == size
        &&& self.seed_value() == seed
        &&& self.life() == WorldState::Ready
        &&& forall|pos: TilePos|
            size.contains(pos) ==> #[trigger] self.floor().at(pos) == Some(
                terrain_tile(terrain.at(pos), rolls.at(pos)),
            )
        &&& forall|pos: TilePos|
            size.contains(pos) ==> #[trigger] self.occupancy().at(pos) == generated_occupancy(
                size,
                terrain,
                trees,
                pos,
            )
        &&& forall|pos: TilePos|
            size.contains(pos) ==> #[trigger] self.objects().at(pos) == generated_object(
                size,
                terrain,
                trees,
                rolls,
                pos,
            )
    }

    /// Runs the three stages in their fixed order on a blank world.
    fn run_pipeline(
        &mut self,
        terrain: &Grid<NoiseSample>,
        trees: &Grid<NoiseSample>,
        rolls: &Grid<CellRolls>,
    )
        requires
            old(self).wf(),
            old(self).life() == WorldState::Uninitialized,
            old(self).is_blank(),
            terrain.wf(),
            trees.wf(),
            rolls.wf(),
            terrain.extent() == old(self).extent(),
            trees.extent() == old(self).extent(),
            rolls.extent() == old(self).extent(),
        ensures
            final(self).is_generation_of(
                old(self).extent(),
                old(self).seed_value(),
                terrain,
                trees,
                rolls,
            ),
    {
        self.spawn_terrain(terrain, rolls);
        self.spawn_trees(trees);
        self.spawn_flowers(rolls);
    }

    /// Generates a world of extent `size` from two noise fields and a table
    /// of rolls: terrain first, then trees, then flowers.  Fails when one of
    /// the three does not cover exactly `size`, naming the first that does
    /// not.
    pub fn generate(
        size: TilemapSize,
        seed: u64,
        terrain: &Grid<NoiseSample>,
        trees: &Grid<NoiseSample>,
        rolls: &Grid<CellRolls>,
    ) -> (world: Result<GameWorld, WorldGenError>)
        requires
            terrain.wf(),
            trees.wf(),
            rolls.wf(),
        ensures
            world matches Ok(w) ==> w.is_generation_of(size, seed, terrain, trees, rolls),
            world is Err ==> world == Err::<GameWorld, WorldGenError>(
                extent_error(size, terrain, trees, rolls)->0,
            ),
            world is Ok <==> extent_error(size, terrain, trees, rolls) is None,
    {
        if let Some(e) = check_extents(size, terrain, trees, rolls) {
            return Err(e);
        }
        proof {
            terrain.lemma_count_fits();
        }
        let mut world = GameWorld::new(size, seed).unwrap();
        world.run_pipeline(terrain, trees, rolls);
        Ok(world)
    }

    /// Why a request to regenerate the world is refused, if it is: a world
    /// in the middle of a generation pass takes no request, and the inputs
    /// must cover the world's extent.
    pub open spec fn regeneration_error(
        &self,
        terrain: &Grid<NoiseSample>,
        trees: &Grid<NoiseSample>,
        rolls: &Grid<CellRolls>,
    ) -> Option<WorldGenError> {
        if self.life() == WorldState::Generating {
            Some(WorldGenError::GenerationInProgress)
        } else {
            extent_error(self.extent(), terrain, trees, rolls)
        }
    }

    /// Replaces the world by a newly generated one of the same extent: the
    /// old tiles and entries are torn down first, so nothing of the old world
    /// is left in the new one.  A world in the middle of a generation pass
    /// refuses the request; otherwise the request fails as `generate` does.
    /// A refused or failed request leaves the world as it was.
    pub fn regenerate(
        &mut self,
        seed: u64,
        terrain: &Grid<NoiseSample>,
        trees: &Grid<NoiseSample>,
        rolls: &Grid<CellRolls>,
    ) -> (done: Result<(), WorldGenError>)
        requires
            old(self).wf(),
            terrain.wf(),
            trees.wf(),
            rolls.wf(),
        ensures
            done is Ok ==> final(self).is_generation_of(
                old(self).extent(),
                seed,
                terrain,
                trees,
                rolls,
            ),
            done is Err ==> *final(self) == *old(self) && done == Err::<(), WorldGenError>(
                old(self).regeneration_error(terrain, trees, rolls)->0,
            ),
            done is Ok <==> old(self).regeneration_error(terrain, trees, rolls) is None,
    {
        if self.state == WorldState::Generating {
            return Err(WorldGenError::GenerationInProgress);
        }
        if let Some(e) = check_extents(self.floor_tiles.size(), terrain, trees, rolls) {
            return Err(e);
        }
        self.teardown();
        self.seed = seed;
        self.run_pipeline(terrain, trees, rolls);
        Ok(())
    }

    /// Coordinate check against the map: false for a negative coordinate and
    /// for one at or beyond the extent.
    pub fn is_within_bounds(&self, x: i64, y: i64) -> (inside: bool)
        ensures
            inside == self.extent().covers(x as int, y as int),
    {
        self.floor_tiles.size().is_within_bounds(x, y)
    }

    /// The occupancy index, for reading.
    pub fn blocked_tiles(&self) -> (index: &OccupancyIndex)
        ensures
            *index == self.occupancy(),
    {
        &self.blocked_tiles
    }

    /// The terrain tile of `pos`, or `None` for a cell without one and for a
    /// coordinate off the map.
    pub fn floor_tile(&self, pos: TilePos) -> (tile: Option<Tile>)
        requires
            self.wf(),
        ensures
            tile == (if self.extent().contains(pos) {
                self.floor().at(pos)
            } else {
                None
            }),
    {
        if self.floor_tiles.size().contains_pos(pos) {
            self.floor_tiles.get(pos)
        } else {
            None
        }
    }

    /// The object tile of `pos`, or `None` for a cell without one and for a
    /// coordinate off the map.
    pub fn object_tile(&self, pos: TilePos) -> (tile: Option<Tile>)
        requires
            self.wf(),
        ensures
            tile == (if self.extent().contains(pos) {
                self.objects().at(pos)
            } else {
                None
            }),
    {
        if self.objs_tiles.size().contains_pos(pos) {
            self.objs_tiles.get(pos)
        } else {
            None
        }
    }

    /// The tile belongs to the object that `owner` owns.
    pub open spec fn tile_of(tile: Option<Tile>, owner: TilePos) -> bool {
        tile matches Some(t) && t.size == Some(ObjectSize::Multi(owner))
    }

    /// The world is `before` with the object of `owner` removed whole.
    pub open spec fn removed_from(&self, before: &GameWorld, owner: TilePos) -> bool {
        &&& self.wf()
        &&& self.extent() == before.extent()
        &&& self.floor() == before.floor()
        &&& forall|pos: TilePos|
            self.extent().contains(pos) ==> #[trigger] self.occupancy().at(pos) == (if before.occupancy().member_of(
                pos,
                owner,
            ) {
                Occupancy::Empty
            } else {
                before.occupancy().at(pos)
            })
        &&& forall|pos: TilePos|
            self.extent().contains(pos) ==> #[trigger] self.objects().at(pos) == (if GameWorld::tile_of(
                before.objects().at(pos),
                owner,
            ) {
                None
            } else {
                before.objects().at(pos)
            })
    }

    /// Removes the object that `owner` owns, whole: every cell that the index
    /// records as its member is cleared, and every tile of the object layer
    /// that belongs to it is taken away.  Nothing else changes.  The result
    /// tells whether the index held a member.
    pub fn remove_object(&mut self, owner: TilePos) -> (removed: bool)
        requires
            old(self).wf(),
        ensures
            final(self).wf(),
            final(self).extent() == old(self).extent(),
            final(self).seed_value() == old(self).seed_value(),
            final(self).life() == old(self).life(),
            final(self).floor() == old(self).floor(),
            removed <==> exists|pos: TilePos| #[trigger] old(self).occupancy().member_of(pos, owner),
            final(self).removed_from(old(self), owner),
    {
        let size = self.floor_tiles.size();
        let removed: bool = self.blocked_tiles.remove_object(owner);
        let mut x: u32 = 0;
        while x < size.x
            invariant
                self.wf(),
                size == self.extent(),
                self.extent() == old(self).extent(),
                self.seed == old(self).seed,
                self.state == old(self).state,
                self.floor_tiles == old(self).floor_tiles,
                x <= size.x,
                forall|pos: TilePos|
                    size.contains(pos) ==> #[trigger] self.blocked_tiles.at(pos) == (if old(
                        self,
                    ).blocked_tiles.member_of(pos, owner) {
                        Occupancy::Empty
                    } else {
                        old(self).blocked_tiles.at(pos)
                    }),
                forall|pos: TilePos|
                    size.contains(pos) ==> #[trigger] self.objs_tiles.at(pos) == (if pos.x < x
                        && GameWorld::tile_of(old(self).objs_tiles.at(pos), owner) {
                        None
                    } else {
                        old(self).objs_tiles.at(pos)
                    }),
            decreases size.x - x,
        {
            let mut y: u32 = 0;
            while y < size.y
                invariant
                    self.wf(),
                    size == self.extent(),
                    self.extent() == old(self).extent(),
                    self.seed == old(self).seed,
                    self.state == old(self).state,
                    self.floor_tiles == old(self).floor_tiles,
                    x < size.x,
                    y <= size.y,
                    forall|pos: TilePos|
                        size.contains(pos) ==> #[trigger] self.blocked_tiles.at(pos) == (if old(
                            self,
                        ).blocked_tiles.member_of(pos, owner) {
                            Occupancy::Empty
                        } else {
                            old(self).blocked_tiles.at(pos)
                        }),
                    forall|pos: TilePos|
                        size.contains(pos) ==> #[trigger] self.objs_tiles.at(pos) == (if (pos.x < x
                            || (pos.x == x && pos.y < y)) && GameWorld::tile_of(
                            old(self).objs_tiles.at(pos),
                            owner,
                        ) {
                            None
                        } else {
                            old(self).objs_tiles.at(pos)
                        }),
                decreases size.y - y,
            {
                let tile_pos = TilePos { x, y };
                let belongs: bool = match self.objs_tiles.get(tile_pos) {
                    Some(tile) => match tile.size {
                        Some(ObjectSize::Multi(o)) => o == owner,
                        _ => false,
                    },
                    None => false,
                };
                if belongs {
                    self.objs_tiles.set(tile_pos, None);
                }
                y = y + 1;
            }
            x = x + 1;
        }
        removed
    }

    /// Removes an object of one cell: the entry of `pos` is cleared and its
    /// object tile taken away, provided the index records an object of one
    /// cell there.  Otherwise nothing changes.  The result tells which.
    pub fn remove_single(&mut self, pos: TilePos) -> (removed: bool)
        requires
            old(self).wf(),
        ensures
            final(self).wf(),
            final(self).extent() == old(self).extent(),
            final(self).seed_value() == old(self).seed_value(),
            final(self).life() == old(self).life(),
            final(self).floor() == old(self).floor(),
            removed == (old(self).extent().contains(pos) && old(self).occupancy().at(pos)
                == Occupancy::Blocked(ObjectSize::Single)),
            !removed ==> *final(self) == *old(self),
            forall|other: TilePos|
                final(self).extent().contains(other) ==> #[trigger] final(self).occupancy().at(
                    other,
                ) == (if removed && other == pos {
                    Occupancy::Empty
                } else {
                    old(self).occupancy().at(other)
                }),
            forall|other: TilePos|
                final(self).extent().contains(other) ==> #[trigger] final(self).objects().at(other)
                    == (if removed && other == pos {
                    None
                } else {
                    old(self).objects().at(other)
                }),
    {
        let single: bool = match self.blocked_tiles.get(pos) {
            Ok(Occupancy::Blocked(ObjectSize::Single)) => true,
            _ => false,
        };
        if single {
            let _ = self.blocked_tiles.remove_single(pos);
            self.objs_tiles.set(pos, None);
        }
        single
    }

    /// The health that the object tile of `pos` carries, if it is the owning
    /// tile of a harvestable object on the map.
    pub open spec fn health_at(&self, pos: TilePos) -> Option<Health> {
        if !self.extent().contains(pos) {
            None
        } else {
            match self.objects().at(pos) {
                Some(tile) => match tile.interact {
                    Some(Interact::Harvest(health)) => Some(health),
                    _ => None,
                },
                None => None,
            }
        }
    }

    /// Strikes the harvestable object whose owning tile is on `pos`: its
    /// health takes one strike and nothing else changes.  `None`, with the
    /// world unchanged, when `pos` holds no such tile.
    pub fn strike_object(&mut self, pos: TilePos) -> (outcome: Option<StrikeOutcome>)
        requires
            old(self).wf(),
        ensures
            final(self).wf(),
            final(self).extent() == old(self).extent(),
            final(self).seed_value() == old(self).seed_value(),
            final(self).life() == old(self).life(),
            final(self).floor() == old(self).floor(),
            final(self).occupancy() == old(self).occupancy(),
            outcome == (match old(self).health_at(pos) {
                Some(health) => Some(health.outcome_of_strike()),
                None => None,
            }),
            outcome is None ==> *final(self) == *old(self),
            old(self).health_at(pos) matches Some(health) ==> final(self).objects().at(pos) == Some(
                Tile {
                    interact: Some(Interact::Harvest(health.after_strike())),
                    ..old(self).objects().at(pos)->0
                },
            ),
            forall|other: TilePos|
                final(self).extent().contains(other) && other != pos
                    ==> #[trigger] final(self).objects().at(other) == old(self).objects().at(other),
    {
        if !self.objs_tiles.size().contains_pos(pos) {
            return None;
        }
        let tile = match self.objs_tiles.get(pos) {
            Some(tile) => tile,
            None => {
                return None;
            },
        };
        let mut health = match tile.interact {
            Some(Interact::Harvest(health)) => health,
            _ => {
                return None;
            },
        };
        let outcome = health.strike();
        self.objs_tiles.set(
            pos,
            Some(
                Tile {
                    texture_index: tile.texture_index,
                    blocking: tile.blocking,
                    size: tile.size,
                    interact: Some(Interact::Harvest(health)),
                    tree: tile.tree,
                },
            ),
        );
        Some(outcome)
    }
}

/// The world came out of one run of the pipeline on these noise fields, with
/// some table of rolls in range.
pub open spec fn generated_with_some_rolls(
    world: &GameWorld,
    size: TilemapSize,
    seed: u64,
    terrain: &Grid<NoiseSample>,
    trees: &Grid<NoiseSample>,
) -> bool {
    exists|rolls: Grid<CellRolls>|
        rolls.wf() && rolls.extent() == size && rolls_in_range(&rolls)
            && #[trigger] world.is_generation_of(size, seed, terrain, trees, &rolls)
}

/// The first of the two noise fields that does not cover exactly `size`, if
/// there is one.
pub open spec fn noise_extent_error(
    size: TilemapSize,
    terrain: &Grid<NoiseSample>,
    trees: &Grid<NoiseSample>,
) -> Option<WorldGenError> {
    if terrain.extent() != size {
        Some(WorldGenError::TerrainExtentMismatch)
    } else if trees.extent() != size {
        Some(WorldGenError::TreeExtentMismatch)
    } else {
        None
    }
}

/// Creates a world of extent `size` from two noise fields, drawing the rolls
/// for grass and flowers from the thread's random generator.  Fails when a
/// noise field does not cover exactly `size`, naming the first that does not.
/// Whatever is drawn, the occupancy index and the trees are those that the
/// noise fields decide.
pub fn create_world(
    size: TilemapSize,
    seed: u64,
    terrain: &Grid<NoiseSample>,
    trees: &Grid<NoiseSample>,
) -> (world: Result<GameWorld, WorldGenError>)
    requires
        terrain.wf(),
        trees.wf(),
    ensures
        world matches Ok(w) ==> generated_with_some_rolls(&w, size, seed, terrain, trees),
        world is Err ==> world == Err::<GameWorld, WorldGenError>(
            noise_extent_error(size, terrain, trees)->0,
        ),
        world is Ok <==> noise_extent_error(size, terrain, trees) is None,
{
    if terrain.size() != size {
        return Err(WorldGenError::TerrainExtentMismatch);
    }
    if trees.size() != size {
        return Err(WorldGenError::TreeExtentMismatch);
    }
    proof {
        terrain.lemma_count_fits();
    }
    let rolls = draw_rolls(size).unwrap();
    GameWorld::generate(size, seed, terrain, trees, &rolls)
}

/// Why a request to regenerate the world from two noise fields is refused,
/// if it is.
pub open spec fn noise_regeneration_error(
    world: &GameWorld,
    terrain: &Grid<NoiseSample>,
    trees: &Grid<NoiseSample>,
) -> Option<WorldGenError> {
    if world.life() == WorldState::Generating {
        Some(WorldGenError::GenerationInProgress)
    } else {
        noise_extent_error(world.extent(), terrain, trees)
    }
}

/// Tears the world down and generates it anew with the same extent, drawing
/// fresh rolls.  Nothing of the old world is left in the new one.  A world in
/// the middle of a generation pass refuses the request; otherwise the request
/// fails as `create_world` does.  A refused or failed request leaves the world
/// as it was.
pub fn regenerate_world(
    world: &mut GameWorld,
    seed: u64,
    terrain: &Grid<NoiseSample>,
    trees: &Grid<NoiseSample>,
) -> (done: Result<(), WorldGenError>)
    requires
        old(world).wf(),
        terrain.wf(),
        trees.wf(),
    ensures
        done is Ok ==> generated_with_some_rolls(
            final(world),
            old(world).extent(),
            seed,
            terrain,
            trees,
        ),
        done is Err ==> *final(world) == *old(world) && done == Err::<(), WorldGenError>(
            noise_regeneration_error(old(world), terrain, trees)->0,
        ),
        done is Ok <==> noise_regeneration_error(old(world), terrain, trees) is None,
{
    let size = world.size();
    if world.state() == WorldState::Generating {
        return Err(WorldGenError::GenerationInProgress);
    }
    if terrain.size() != size {
        return Err(WorldGenError::TerrainExtentMismatch);
    }
    if trees.size() != size {
        return Err(WorldGenError::TreeExtentMismatch);
    }
    proof {
        terrain.lemma_count_fits();
    }
    let rolls = draw_rolls(size).unwrap();
    world.regenerate(seed, terrain, trees, &rolls)
}

} // verus!
