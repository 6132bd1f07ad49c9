//! Random draws: the world's seed and the per-cell rolls that pick grass
//! variants and scatter flowers.

use crate::grid::{Grid, TilePos, TilemapSize};
use rand::Rng;
use vstd::prelude::*;

verus! {

/// The thread-local generator of the `rand` crate; nothing is known of its
/// state.
#[verifier::external_type_specification]
#[verifier::external_body]
pub struct ExThreadRng(rand::rngs::ThreadRng);

/// `rand::thread_rng`: hands out the calling thread's generator.  Nothing is
/// claimed of it.
pub assume_specification[ rand::thread_rng ]() -> rand::rngs::ThreadRng;

/// `Rng::gen_range` on a half-open range of `u32`: the draw lies in the range.
/// The range must not be empty, on which `gen_range` panics.
#[verifier::external_body]
fn roll_between(rng: &mut rand::rngs::ThreadRng, low: u32, high: u32) -> (roll: u32)
    requires
        low < high,
    ensures
        low <= roll < high,
{
    rng.gen_range(low..high)
}

/// `rand::random::<u64>`: a draw from the thread's generator.  Nothing is
/// claimed of the value.
#[verifier::external_body]
fn random_u64() -> (value: u64) {
    rand::random::<u64>()
}

/// A fresh seed for a world.
pub fn draw_seed() -> (seed: u64) {
    random_u64()
}

/// The rolls that decorate one cell.
#[derive(Clone, Copy, Debug, PartialEq, Eq, Structural)]
pub struct CellRolls {
    /// Percentage roll that decides between bare ground and grass.
    pub foliage_percent: u32,
    /// Grass variant, used when the percentage roll picks grass.
    pub foliage_type: u32,
    /// Percentage roll that decides whether a flower grows.
    pub flower_percent: u32,
    /// Flower variant, used when the percentage roll picks a flower.
    pub flower_type: u32,
}

impl CellRolls {
    /// Each roll lies in the range it is drawn from.
    pub open spec fn in_range(self) -> bool {
        &&& self.foliage_percent < 100
        &&& 1 <= self.foliage_type < 5
        &&& self.flower_percent < 100
        &&& 2 <= self.flower_type < 8
    }

    /// Draws the four rolls of one cell.
    pub fn draw(rng: &mut rand::rngs::ThreadRng) -> (rolls: CellRolls)
        ensures
            rolls.in_range(),
    {
        let foliage_percent: u32 = roll_between(rng, 0, 100);
        let foliage_type: u32 = roll_between(rng, 1, 5);
        let flower_percent: u32 = roll_between(rng, 0, 100);
        let flower_type: u32 = roll_between(rng, 2, 8);
        CellRolls { foliage_percent, foliage_type, flower_percent, flower_type }
    }
}

/// Every cell of the table holds rolls in range.
pub open spec fn rolls_in_range(table: &Grid<CellRolls>) -> bool {
    forall|pos: TilePos| table.extent().contains(pos) ==> (#[trigger] table.at(pos)).in_range()
}

/// Draws the rolls of every cell of a map of extent `size`, or returns `None`
/// when the number of cells does not fit the machine's address range.
pub fn draw_rolls(size: TilemapSize) -> (table: Option<Grid<CellRolls>>)
    ensures
        table is Some <==> size.count() <= usize::MAX,
        table matches Some(t) ==> t.wf() && t.extent() == size && rolls_in_range(&t),
{
    let blank = CellRolls { foliage_percent: 0, foliage_type: 1, flower_percent: 0, flower_type: 2 };
    let mut table = match Grid::filled(size, blank) {
        Some(t) => t,
        None => {
            return None;
        },
    };
    let mut rng = rand::thread_rng();
    let mut x: u32 = 0;
    while x < size.x
        invariant
            table.wf(),
            table.extent() == size,
            x <= size.x,
            rolls_in_range(&table),
        decreases size.x - x,
    {
        let mut y: u32 = 0;
        while y < size.y
            invariant
                table.wf(),
                table.extent() == size,
                x < size.x,
                y <= size.y,
                rolls_in_range(&table),
            decreases size.y - y,
        {
            let rolls = CellRolls::draw(&mut rng);
            table.set(TilePos { x, y }, rolls);
            y = y + 1;
        }
        x = x + 1;
    }
    Some(table)
}

} // verus!
