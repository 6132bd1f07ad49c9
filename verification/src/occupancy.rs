//! The occupancy index: which cells are blocked, and by which object.

use crate::grid::{Grid, TilePos, TilemapSize};
use vstd::prelude::*;

verus! {

/// How many cells the object on a blocked cell spans.
#[derive(Clone, Copy, Debug, PartialEq, Eq, Structural)]
pub enum ObjectSize {
    /// The object fills this cell alone.
    Single,
    /// The cell belongs to an object of several cells; the value names the
    /// cell that owns the object.
    Multi(TilePos),
}

/// What the index records for one cell.
#[derive(Clone, Copy, Debug, PartialEq, Eq, Structural)]
pub enum Occupancy {
    Empty,
    Blocked(ObjectSize),
}

/// Why the index refused an operation.
#[derive(Clone, Copy, Debug, PartialEq, Eq, Structural)]
pub enum OccupancyError {
    /// The coordinate names no cell of the map.
    OutOfBounds,
}

/// The authoritative record of blocked cells for one map.
pub struct OccupancyIndex {
    cells: Grid<Occupancy>,
}

impl OccupancyIndex {
    /// The index holds one entry for every cell of its map.
    pub closed spec fn wf(&self) -> bool {
        self.cells.wf()
    }

    /// The extent of the map.
    pub closed spec fn extent(&self) -> TilemapSize {
        self.cells.extent()
    }

    /// The entry of a cell of the map.
    pub closed spec fn at(&self, pos: TilePos) -> Occupancy {
        self.cells.at(pos)
    }

    /// The cell lies on the map and is blocked.
    pub open spec fn blocked(&self, pos: TilePos) -> bool {
        self.extent().contains(pos) && self.at(pos) is Blocked
    }

    /// The cell lies on the map and belongs to the object owned by `owner`.
    pub open spec fn member_of(&self, pos: TilePos, owner: TilePos) -> bool {
        self.extent().contains(pos) && self.at(pos) == Occupancy::Blocked(ObjectSize::Multi(owner))
    }

    /// No cell of the map is blocked.
    pub open spec fn is_clear(&self) -> bool {
        forall|pos: TilePos| self.extent().contains(pos) ==> #[trigger] self.at(pos) is Empty
    }

    /// Two indexes record the same entry for every cell of a common map.
    pub open spec fn agrees_with(&self, other: &OccupancyIndex) -> bool {
        &&& self.extent() == other.extent()
        &&& forall|pos: TilePos|
            self.extent().contains(pos) ==> #[trigger] self.at(pos) == other.at(pos)
    }

    /// An index for a map of extent `size` with no blocked cell, or `None`
    /// when the number of cells does not fit the machine's address range.
    pub fn new(size: TilemapSize) -> (index: Option<OccupancyIndex>)
        ensures
            index is Some <==> size.count() <= usize::MAX,
            index matches Some(i) ==> i.wf() && i.extent() == size && i.is_clear(),
    {
        match Grid::filled(size, Occupancy::Empty) {
            Some(cells) => Some(OccupancyIndex { cells }),
            None => None,
        }
    }

    /// The extent of the map.
    pub fn size(&self) -> (size: TilemapSize)
        ensures
            size == self.extent(),
    {
        self.cells.size()
    }

    /// Coordinate check against the map: false for a negative coordinate and
    /// for one at or beyond the extent.
    pub fn is_within_bounds(&self, x: i64, y: i64) -> (inside: bool)
        ensures
            inside == self.extent().covers(x as int, y as int),
    {
        self.cells.size().is_within_bounds(x, y)
    }

    /// The entry of `pos`; a coordinate off the map is refused.
    pub fn get(&self, pos: TilePos) -> (entry: Result<Occupancy, OccupancyError>)
        requires
            self.wf(),
        ensures
            entry == (if self.extent().contains(pos) {
                Ok::<Occupancy, OccupancyError>(self.at(pos))
            } else {
                Err::<Occupancy, OccupancyError>(OccupancyError::OutOfBounds)
            }),
    {
        if self.cells.size().contains_pos(pos) {
            Ok(self.cells.get(pos))
        } else {
            Err(OccupancyError::OutOfBounds)
        }
    }

    /// The entry of the signed coordinate `(x, y)`; a coordinate off the map,
    /// negative or too large, is refused.
    pub fn get_at(&self, x: i64, y: i64) -> (entry: Result<Occupancy, OccupancyError>)
        requires
            self.wf(),
        ensures
            entry == (if self.extent().covers(x as int, y as int) {
                Ok::<Occupancy, OccupancyError>(self.at(TilePos { x: x as u32, y: y as u32 }))
            } else {
                Err::<Occupancy, OccupancyError>(OccupancyError::OutOfBounds)
            }),
    {
        if self.cells.size().is_within_bounds(x, y) {
            Ok(self.cells.get(TilePos { x: x as u32, y: y as u32 }))
        } else {
            Err(OccupancyError::OutOfBounds)
        }
    }

    /// Tells whether `pos` lies on the map and is blocked.
    pub fn is_blocked(&self, pos: TilePos) -> (r: bool)
        requires
            self.wf(),
        ensures
            r == self.blocked(pos),
    {
        if self.cells.size().contains_pos(pos) {
            match self.cells.get(pos) {
                Occupancy::Blocked(_) => true,
                Occupancy::Empty => false,
            }
        } else {
            false
        }
    }

    /// Marks `pos` as blocked by an object of the given size, replacing what
    /// the cell held; a coordinate off the map is refused and changes
    /// nothing.
    pub fn set_blocked(&mut self, pos: TilePos, size: ObjectSize) -> (done: Result<
        (),
        OccupancyError,
    >)
        requires
            old(self).wf(),
        ensures
            final(self).wf(),
            final(self).extent() == old(self).extent(),
            done is Ok <==> old(self).extent().contains(pos),
            done is Ok ==> final(self).at(pos) == Occupancy::Blocked(size),
            forall|other: TilePos|
                old(self).extent().contains(other) && !(done is Ok && other == pos)
                    ==> #[trigger] final(self).at(other) == old(self).at(other),
    {
        if self.cells.size().contains_pos(pos) {
            self.cells.set(pos, Occupancy::Blocked(size));
            Ok(())
        } else {
            Err(OccupancyError::OutOfBounds)
        }
    }

    /// Clears the entry of `pos` and of no other cell; a coordinate off the
    /// map is refused and changes nothing.
    pub fn remove(&mut self, pos: TilePos) -> (done: Result<(), OccupancyError>)
        requires
            old(self).wf(),
        ensures
            final(self).wf(),
            final(self).extent() == old(self).extent(),
            done is Ok <==> old(self).extent().contains(pos),
            done is Ok ==> final(self).at(pos) == Occupancy::Empty,
            forall|other: TilePos|
                old(self).extent().contains(other) && !(done is Ok && other == pos)
                    ==> #[trigger] final(self).at(other) == old(self).at(other),
    {
        if self.cells.size().contains_pos(pos) {
            self.cells.set(pos, Occupancy::Empty);
            Ok(())
        } else {
            Err(OccupancyError::OutOfBounds)
        }
    }

    /// The cell that owns the object on `pos`: the cell itself for an object
    /// of one cell, the recorded owner for a member of a larger object, and
    /// `None` for an empty cell or a coordinate off the map.
    pub open spec fn owner_at(&self, pos: TilePos) -> Option<TilePos> {
        if !self.extent().contains(pos) {
            None
        } else {
            match self.at(pos) {
                Occupancy::Empty => None,
                Occupancy::Blocked(ObjectSize::Single) => Some(pos),
                Occupancy::Blocked(ObjectSize::Multi(owner)) => Some(owner),
            }
        }
    }

    /// Resolves a cell to the cell that owns the object on it.
    pub fn owner_of(&self, pos: TilePos) -> (owner: Option<TilePos>)
        requires
            self.wf(),
        ensures
            owner == self.owner_at(pos),
    {
        if !self.cells.size().contains_pos(pos) {
            return None;
        }
        match self.cells.get(pos) {
            Occupancy::Empty => None,
            Occupancy::Blocked(ObjectSize::Single) => Some(pos),
            Occupancy::Blocked(ObjectSize::Multi(owner)) => Some(owner),
        }
    }

    /// Clears the entry of an object of one cell.  A cell that is empty or
    /// belongs to a larger object is left as it is, and so is every other
    /// cell; the result tells whether an entry was cleared.
    pub fn remove_single(&mut self, pos: TilePos) -> (removed: bool)
        requires
            old(self).wf(),
        ensures
            final(self).wf(),
            final(self).extent() == old(self).extent(),
            removed == (old(self).extent().contains(pos) && old(self).at(pos)
                == Occupancy::Blocked(ObjectSize::Single)),
            forall|other: TilePos|
                old(self).extent().contains(other) ==> #[trigger] final(self).at(other) == (if removed
                    && other == pos {
                    Occupancy::Empty
                } else {
                    old(self).at(other)
                }),
    {
        if !self.cells.size().contains_pos(pos) {
            return false;
        }
        match self.cells.get(pos) {
            Occupancy::Blocked(ObjectSize::Single) => {
                self.cells.set(pos, Occupancy::Empty);
                true
            },
            _ => false,
        }
    }

    /// Clears every cell of the object owned by `owner` in one step, and no
    /// other cell; the result tells whether any cell was cleared.
    pub fn remove_object(&mut self, owner: TilePos) -> (cleared: bool)
        requires
            old(self).wf(),
        ensures
            final(self).wf(),
            final(self).extent() == old(self).extent(),
            forall|pos: TilePos|
                old(self).extent().contains(pos) ==> #[trigger] final(self).at(pos) == (if old(
                    self,
                ).member_of(pos, owner) {
                    Occupancy::Empty
                } else {
                    old(self).at(pos)
                }),
            cleared <==> exists|pos: TilePos| #[trigger] old(self).member_of(pos, owner),
    {
        let size = self.cells.size();
        let target = Occupancy::Blocked(ObjectSize::Multi(owner));
        let mut cleared: bool = false;
        let mut x: u32 = 0;
        while x < size.x
            invariant
                self.wf(),
                self.extent() == old(self).extent(),
                size == self.extent(),
                target == Occupancy::Blocked(ObjectSize::Multi(owner)),
                x <= size.x,
                forall|pos: TilePos|
                    size.contains(pos) ==> #[trigger] self.at(pos) == (if pos.x < x && old(
                        self,
                    ).member_of(pos, owner) {
                        Occupancy::Empty
                    } else {
                        old(self).at(pos)
                    }),
                cleared <==> exists|pos: TilePos|
                    pos.x < x && #[trigger] old(self).member_of(pos, owner),
            decreases size.x - x,
        {
            let mut y: u32 = 0;
            while y < size.y
                invariant
                    self.wf(),
                    self.extent() == old(self).extent(),
                    size == self.extent(),
                    target == Occupancy::Blocked(ObjectSize::Multi(owner)),
                    x < size.x,
                    y <= size.y,
                    forall|pos: TilePos|
                        size.contains(pos) ==> #[trigger] self.at(pos) == (if (pos.x < x || (pos.x
                            == x && pos.y < y)) && old(self).member_of(pos, owner) {
                            Occupancy::Empty
                        } else {
                            old(self).at(pos)
                        }),
                    cleared <==> exists|pos: TilePos|
                        (pos.x < x || (pos.x == x && pos.y < y)) && #[trigger] old(
                            self,
                        ).member_of(pos, owner),
                decreases size.y - y,
            {
                let pos = TilePos { x, y };
                let ghost before = *self;
                assert(before.at(pos) == old(self).at(pos));
                if self.cells.get(pos) == target {
                    self.cells.set(pos, Occupancy::Empty);
                    cleared = true;
                    assert(old(self).member_of(pos, owner));
                }
                assert forall|p: TilePos| size.contains(p) implies #[trigger] self.at(p) == (if (p.x
                    < x || (p.x == x && p.y < y + 1)) && old(self).member_of(p, owner) {
                    Occupancy::Empty
                } else {
                    old(self).at(p)
                }) by {
                    assert(before.at(p) is Empty || before.at(p) is Blocked);
                }
                y = y + 1;
            }
            x = x + 1;
        }
        cleared
    }

    /// Clears every entry of the map.
    pub fn clear(&mut self)
        requires
            old(self).wf(),
        ensures
            final(self).wf(),
            final(self).extent() == old(self).extent(),
            final(self).is_clear(),
    {
        let size = self.cells.size();
        let mut x: u32 = 0;
        while x < size.x
            invariant
                self.wf(),
                self.extent() == old(self).extent(),
                size == self.extent(),
                x <= size.x,
                forall|pos: TilePos|
                    size.contains(pos) && pos.x < x ==> #[trigger] self.at(pos) is Empty,
            decreases size.x - x,
        {
            let mut y: u32 = 0;
            while y < size.y
                invariant
                    self.wf(),
                    self.extent() == old(self).extent(),
                    size == self.extent(),
                    x < size.x,
                    y <= size.y,
                    forall|pos: TilePos|
                        size.contains(pos) && (pos.x < x || (pos.x == x && pos.y < y))
                            ==> #[trigger] self.at(pos) is Empty,
                decreases size.y - y,
            {
                let ghost before = *self;
                self.cells.set(TilePos { x, y }, Occupancy::Empty);
                assert forall|p: TilePos|
                    size.contains(p) && (p.x < x || (p.x == x && p.y < y + 1))
                    implies #[trigger] self.at(p) is Empty by {
                    assert(before.at(p) is Empty || before.at(p) is Blocked);
                }
                y = y + 1;
            }
            x = x + 1;
        }
    }
}

} // verus!
