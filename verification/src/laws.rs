//! What holds of every generated world, proved from the contracts of the
//! generator and of the occupancy index.

use crate::grid::{Grid, TilePos, TilemapSize};
use crate::noise::NoiseSample;
use crate::random::CellRolls;
use crate::random::rolls_in_range;
use crate::world_gen::{
    generated_occupancy, tree_base_of, tree_grows, tree_tile_at, tree_top_of, GameWorld,
    BARE_GROUND_TILE, WATER_TILE,
};
use vstd::prelude::*;

verus! {

/// Generation is deterministic: two worlds generated from the same extent,
/// seed, noise fields and rolls hold the same terrain tile, the same object
/// tile and the same occupancy entry on every cell.
pub proof fn lemma_generation_is_deterministic(
    first: &GameWorld,
    second: &GameWorld,
    size: TilemapSize,
    seed: u64,
    terrain: &Grid<NoiseSample>,
    trees: &Grid<NoiseSample>,
    rolls: &Grid<CellRolls>,
)
    requires
        first.is_generation_of(size, seed, terrain, trees, rolls),
        second.is_generation_of(size, seed, terrain, trees, rolls),
    ensures
        first.extent() == second.extent(),
        first.seed_value() == second.seed_value(),
        first.life() == second.life(),
        first.floor().agrees_with(&second.floor()),
        first.objects().agrees_with(&second.objects()),
        first.occupancy().agrees_with(&second.occupancy()),
{
}

/// The occupancy index does not depend on the rolls: two worlds generated
/// from the same noise fields agree on every entry, whatever was rolled for
/// grass and flowers and whatever the seed was called.
pub proof fn lemma_occupancy_ignores_rolls(
    first: &GameWorld,
    second: &GameWorld,
    size: TilemapSize,
    terrain: &Grid<NoiseSample>,
    trees: &Grid<NoiseSample>,
    first_seed: u64,
    second_seed: u64,
    first_rolls: &Grid<CellRolls>,
    second_rolls: &Grid<CellRolls>,
)
    requires
        first.is_generation_of(size, first_seed, terrain, trees, first_rolls),
        second.is_generation_of(size, second_seed, terrain, trees, second_rolls),
    ensures
        first.occupancy().agrees_with(&second.occupancy()),
{
}

/// The terrain covers the map: every cell of a generated world holds a
/// terrain tile, and that tile is the one its sample and rolls decide.
pub proof fn lemma_terrain_covers_the_map(
    world: &GameWorld,
    size: TilemapSize,
    seed: u64,
    terrain: &Grid<NoiseSample>,
    trees: &Grid<NoiseSample>,
    rolls: &Grid<CellRolls>,
    pos: TilePos,
)
    requires
        world.is_generation_of(size, seed, terrain, trees, rolls),
        size.contains(pos),
    ensures
        world.floor().at(pos) is Some,
        world.floor().at(pos)->0.blocking == terrain.at(pos).in_water_band(),
{
}

/// Trees do not overlap, neither each other nor water.  A cell that the
/// index of a generated world gives to the tree of `owner` is the trunk or
/// the canopy of exactly that tree, the tree stands where the generator
/// plants one, and the cell is no water cell.  So a cell belongs to at most
/// one tree, and a water cell to none.
pub proof fn lemma_trees_do_not_overlap(
    world: &GameWorld,
    size: TilemapSize,
    seed: u64,
    terrain: &Grid<NoiseSample>,
    trees: &Grid<NoiseSample>,
    rolls: &Grid<CellRolls>,
    pos: TilePos,
    owner: TilePos,
)
    requires
        world.is_generation_of(size, seed, terrain, trees, rolls),
        world.occupancy().member_of(pos, owner),
    ensures
        owner == tree_base_of(pos),
        pos == owner || pos == tree_top_of(owner),
        tree_grows(size, terrain, trees, owner),
        !terrain.at(pos).in_water_band(),
        world.objects().at(pos) == Some(tree_tile_at(pos)),
        forall|other: TilePos| #[trigger]
            world.occupancy().member_of(pos, other) ==> other == owner,
{
}

/// Two different trees of a generated world share no cell.
pub proof fn lemma_distinct_trees_are_disjoint(
    size: TilemapSize,
    terrain: &Grid<NoiseSample>,
    trees: &Grid<NoiseSample>,
    first: TilePos,
    second: TilePos,
)
    requires
        tree_grows(size, terrain, trees, first),
        tree_grows(size, terrain, trees, second),
        first != second,
    ensures
        first != tree_top_of(second),
        second != tree_top_of(first),
        tree_top_of(first) != tree_top_of(second),
{
}

/// Both cells of a tree are blocked in its name: where the generator plants
/// a tree on `base`, the index of the generated world records `base` and the
/// cell above it as members of the object that `base` owns.
pub proof fn lemma_tree_blocks_both_cells(
    world: &GameWorld,
    size: TilemapSize,
    seed: u64,
    terrain: &Grid<NoiseSample>,
    trees: &Grid<NoiseSample>,
    rolls: &Grid<CellRolls>,
    base: TilePos,
)
    requires
        world.is_generation_of(size, seed, terrain, trees, rolls),
        tree_grows(size, terrain, trees, base),
    ensures
        world.occupancy().member_of(base, base),
        world.occupancy().member_of(tree_top_of(base), base),
{
}

/// Removing a tree frees both of its cells at once: after `remove_object`
/// on the owner, neither the trunk's cell nor the canopy's is blocked, no
/// cell is a member of the removed object any more, and no tile of it is
/// left in the object layer.
pub proof fn lemma_removal_is_atomic(
    before: &GameWorld,
    after: &GameWorld,
    size: TilemapSize,
    seed: u64,
    terrain: &Grid<NoiseSample>,
    trees: &Grid<NoiseSample>,
    rolls: &Grid<CellRolls>,
    owner: TilePos,
)
    requires
        before.is_generation_of(size, seed, terrain, trees, rolls),
        tree_grows(size, terrain, trees, owner),
        after.removed_from(before, owner),
    ensures
        !after.occupancy().blocked(owner),
        !after.occupancy().blocked(tree_top_of(owner)),
        after.objects().at(owner) is None,
        after.objects().at(tree_top_of(owner)) is None,
        forall|pos: TilePos| !#[trigger] after.occupancy().member_of(pos, owner),
{
}

/// Decorations block nothing: a cell of a generated world whose object tile
/// belongs to no object, which is what a flower is, is empty in the index.
pub proof fn lemma_decorations_do_not_block(
    world: &GameWorld,
    size: TilemapSize,
    seed: u64,
    terrain: &Grid<NoiseSample>,
    trees: &Grid<NoiseSample>,
    rolls: &Grid<CellRolls>,
    pos: TilePos,
)
    requires
        world.is_generation_of(size, seed, terrain, trees, rolls),
        size.contains(pos),
        world.objects().at(pos) matches Some(tile) && tile.size is None,
    ensures
        world.occupancy().at(pos) is Empty,
        !world.occupancy().blocked(pos),
{
}

/// A coordinate with a negative part, or with a part at or beyond the
/// extent, is outside the map.
pub proof fn lemma_bounds_reject_outside(size: TilemapSize, x: int, y: int)
    requires
        x < 0 || y < 0 || x >= size.x || y >= size.y,
    ensures
        !size.covers(x, y),
{
}

/// Regeneration leaves no residue: whatever the world held before, after a
/// successful `regenerate` every entry of the index is the one that the new
/// noise fields decide, so a cell is blocked only if the new world blocks it.
pub proof fn lemma_regeneration_leaves_no_residue(
    after: &GameWorld,
    size: TilemapSize,
    seed: u64,
    terrain: &Grid<NoiseSample>,
    trees: &Grid<NoiseSample>,
    rolls: &Grid<CellRolls>,
    pos: TilePos,
)
    requires
        after.is_generation_of(size, seed, terrain, trees, rolls),
        size.contains(pos),
        !terrain.at(pos).in_water_band(),
        !tree_grows(size, terrain, trees, tree_base_of(pos)),
    ensures
        after.occupancy().at(pos) is Empty,
        after.objects().at(pos) matches Some(tile) ==> tile.size is None,
{
}

/// Tiles come from their atlases: with rolls in range, the terrain tile of a
/// generated world shows water, bare ground or one of the four grass
/// variants, and a tile of the object layer that belongs to no object shows
/// one of the six flower variants.
pub proof fn lemma_textures_are_in_range(
    world: &GameWorld,
    size: TilemapSize,
    seed: u64,
    terrain: &Grid<NoiseSample>,
    trees: &Grid<NoiseSample>,
    rolls: &Grid<CellRolls>,
    pos: TilePos,
)
    requires
        world.is_generation_of(size, seed, terrain, trees, rolls),
        rolls.extent() == size,
        rolls_in_range(rolls),
        size.contains(pos),
    ensures
        world.floor().at(pos) matches Some(tile) && (tile.texture_index == WATER_TILE
            || tile.texture_index == BARE_GROUND_TILE || 1 <= tile.texture_index < 5),
        world.objects().at(pos) matches Some(tile) ==> tile.size is Some || 2
            <= tile.texture_index < 8,
{
}

} // verus!
