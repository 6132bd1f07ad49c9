//! Grid coordinates, map extents and a dense rectangular store.

use vstd::prelude::*;

verus! {

/// Width of the default map, in tiles.
pub const MAP_SIZE_X: u32 = 128;

/// Height of the default map, in tiles.
pub const MAP_SIZE_Y: u32 = 128;

/// A cell of the grid, counted from the lower left corner.
#[derive(Clone, Copy, Debug, PartialEq, Eq, Structural, Hash)]
pub struct TilePos {
    pub x: u32,
    pub y: u32,
}

/// The extent of a map: `x` columns by `y` rows.
#[derive(Clone, Copy, Debug, PartialEq, Eq, Structural, Hash)]
pub struct TilemapSize {
    pub x: u32,
    pub y: u32,
}

impl TilePos {
    pub fn new(x: u32, y: u32) -> (pos: TilePos)
        ensures
            pos == (TilePos { x, y }),
    {
        TilePos { x, y }
    }
}

impl TilemapSize {
    pub fn new(x: u32, y: u32) -> (size: TilemapSize)
        ensures
            size == (TilemapSize { x, y }),
    {
        TilemapSize { x, y }
    }

    /// Whether the signed coordinate `(x, y)` names a cell of a map of this
    /// extent.
    pub open spec fn covers(self, x: int, y: int) -> bool {
        0 <= x < self.x && 0 <= y < self.y
    }

    /// Whether `pos` names a cell of a map of this extent.
    pub open spec fn contains(self, pos: TilePos) -> bool {
        pos.x < self.x && pos.y < self.y
    }

    /// Number of cells of a map of this extent.
    pub open spec fn count(self) -> nat {
        (self.x * self.y) as nat
    }

    /// Position of `pos` in row-major order.
    pub open spec fn index_of(self, pos: TilePos) -> int {
        pos.y * self.x + pos.x
    }

    /// Coordinate check on signed values: false for a negative coordinate and
    /// for one at or beyond the extent.
    pub fn is_within_bounds(&self, x: i64, y: i64) -> (inside: bool)
        ensures
            inside == self.covers(x as int, y as int),
    {
        x >= 0 && x < self.x as i64 && y >= 0 && y < self.y as i64
    }

    /// Row-major position of a cell, for a store of `len` cells.
    fn offset(&self, pos: TilePos, len: usize) -> (i: usize)
        requires
            self.contains(pos),
            len == self.count(),
        ensures
            i == self.index_of(pos),
            i < len,
    {
        proof {
            lemma_index_in_range(*self, pos);
            assert(0 <= (pos.y as int) * (self.x as int)) by (nonlinear_arith);
        }
        let row: usize = pos.y as usize * self.x as usize;
        row + pos.x as usize
    }

    /// Coordinate check on a cell.
    pub fn contains_pos(&self, pos: TilePos) -> (inside: bool)
        ensures
            inside == self.contains(pos),
    {
        pos.x < self.x && pos.y < self.y
    }
}

/// The extent of the default map.
pub fn world_size() -> (size: TilemapSize)
    ensures
        size == (TilemapSize { x: MAP_SIZE_X, y: MAP_SIZE_Y }),
{
    TilemapSize { x: MAP_SIZE_X, y: MAP_SIZE_Y }
}

/// Whether the signed coordinate `(x, y)` lies on the default map.
pub fn within_bounds(x: i64, y: i64) -> (inside: bool)
    ensures
        inside == (0 <= x < MAP_SIZE_X && 0 <= y < MAP_SIZE_Y),
{
    x >= 0 && x < MAP_SIZE_X as i64 && y >= 0 && y < MAP_SIZE_Y as i64
}

/// Every cell of a map has a row-major position below the number of cells.
pub proof fn lemma_index_in_range(size: TilemapSize, pos: TilePos)
    requires
        size.contains(pos),
    ensures
        0 <= size.index_of(pos) < size.count(),
{
    let w = size.x as int;
    let h = size.y as int;
    let x = pos.x as int;
    let y = pos.y as int;
    assert(y * w + x < w * h) by (nonlinear_arith)
        requires
            0 <= x < w,
            0 <= y < h,
    ;
    assert(0 <= y * w) by (nonlinear_arith)
        requires
            0 <= y,
            0 <= w,
    ;
}

/// Two different cells of a map have different row-major positions.
pub proof fn lemma_index_injective(size: TilemapSize, p: TilePos, q: TilePos)
    requires
        size.contains(p),
        size.contains(q),
        size.index_of(p) == size.index_of(q),
    ensures
        p == q,
{
    let w = size.x as int;
    let px = p.x as int;
    let py = p.y as int;
    let qx = q.x as int;
    let qy = q.y as int;
    assert(py == qy) by (nonlinear_arith)
        requires
            0 <= px < w,
            0 <= qx < w,
            py * w + px == qy * w + qx,
    ;
}

/// A dense store with one value for every cell of a map.
pub struct Grid<T> {
    size: TilemapSize,
    cells: Vec<T>,
}

impl<T: Copy> Grid<T> {
    /// The store holds exactly one value per cell.
    pub closed spec fn wf(&self) -> bool {
        self.cells@.len() == self.size.count() && self.size.count() <= usize::MAX
    }

    /// The extent that the store covers.
    pub closed spec fn extent(&self) -> TilemapSize {
        self.size
    }

    /// The value held for `pos`; meaningful for cells inside the extent.
    pub closed spec fn at(&self, pos: TilePos) -> T {
        self.cells@[self.size.index_of(pos)]
    }

    /// Two stores hold the same values on every cell of a common extent.
    pub open spec fn agrees_with(&self, other: &Grid<T>) -> bool {
        &&& self.extent() == other.extent()
        &&& forall|pos: TilePos|
            self.extent().contains(pos) ==> #[trigger] self.at(pos) == other.at(pos)
    }

    /// A store of extent `size` that holds `fill` everywhere, or `None` when
    /// the number of cells does not fit the machine's address range.
    pub fn filled(size: TilemapSize, fill: T) -> (grid: Option<Grid<T>>)
        ensures
            grid is Some <==> size.count() <= usize::MAX,
            grid matches Some(g) ==> {
                &&& g.wf()
                &&& g.extent() == size
                &&& forall|pos: TilePos| size.contains(pos) ==> #[trigger] g.at(pos) == fill
            },
    {
        let total: usize = match (size.x as usize).checked_mul(size.y as usize) {
            Some(n) => n,
            None => {
                return None;
            },
        };
        let mut cells: Vec<T> = Vec::new();
        let mut i: usize = 0;
        while i < total
            invariant
                i <= total,
                cells@.len() == i,
                forall|k: int| 0 <= k < i ==> cells@[k] == fill,
            decreases total - i,
        {
            cells.push(fill);
            i = i + 1;
        }
        let g = Grid { size, cells };
        proof {
            assert forall|pos: TilePos| size.contains(pos) implies #[trigger] g.at(pos) == fill by {
                lemma_index_in_range(size, pos);
            }
        }
        Some(g)
    }

    /// A well-formed store has no more cells than the machine can address.
    pub proof fn lemma_count_fits(&self)
        requires
            self.wf(),
        ensures
            self.extent().count() <= usize::MAX,
    {
    }

    /// A store of extent `size` that holds `cells` in row-major order: the
    /// value of `(x, y)` stands at `y * size.x + x`.  `None` when `cells` does
    /// not hold exactly one value per cell.
    pub fn from_cells(size: TilemapSize, cells: Vec<T>) -> (grid: Option<Grid<T>>)
        ensures
            grid is Some <==> cells@.len() == size.count(),
            grid matches Some(g) ==> {
                &&& g.wf()
                &&& g.extent() == size
                &&& forall|pos: TilePos|
                    size.contains(pos) ==> #[trigger] g.at(pos) == cells@[size.index_of(pos)]
            },
    {
        match (size.x as usize).checked_mul(size.y as usize) {
            Some(n) => {
                if cells.len() == n {
                    Some(Grid { size, cells })
                } else {
                    None
                }
            },
            None => {
                let held: usize = cells.len();
                None
            },
        }
    }

    /// The extent that the store covers.
    pub fn size(&self) -> (size: TilemapSize)
        ensures
            size == self.extent(),
    {
        self.size
    }

    /// Reads the value of a cell inside the extent.
    pub fn get(&self, pos: TilePos) -> (value: T)
        requires
            self.wf(),
            self.extent().contains(pos),
        ensures
            value == self.at(pos),
    {
        let i: usize = self.size.offset(pos, self.cells.len());
        self.cells[i]
    }

    /// Writes the value of a cell inside the extent; every other cell keeps
    /// its value.
    pub fn set(&mut self, pos: TilePos, value: T)
        requires
            old(self).wf(),
            old(self).extent().contains(pos),
        ensures
            final(self).wf(),
            final(self).extent() == old(self).extent(),
            final(self).at(pos) == value,
            forall|other: TilePos|
                old(self).extent().contains(other) && other != pos ==> #[trigger] final(self).at(
                    other,
                ) == old(self).at(other),
    {
        let i: usize = self.size.offset(pos, self.cells.len());
        let ghost before = *self;
        self.cells.set(i, value);
        proof {
            assert forall|other: TilePos|
                before.extent().contains(other) && other != pos implies #[trigger] self.at(other)
                == before.at(other) by {
                lemma_index_in_range(before.size, other);
                if before.size.index_of(other) == before.size.index_of(pos) {
                    lemma_index_injective(before.size, other, pos);
                }
            }
        }
    }
}

} // verus!
