//! Items: their identifiers, their static definitions, and the events and
//! storage through which they appear in the world.

use crate::grid::{Grid, TilePos, TilemapSize};
use std::collections::HashMap;
use vstd::prelude::*;

verus! {

/// Identifies a kind of item.
#[derive(Clone, Copy, Debug, PartialEq, Eq, Structural, Hash)]
pub struct ItemId(pub u32);

/// How many of an item.
#[derive(Clone, Copy, Debug, PartialEq, Eq, Structural)]
pub struct ItemQuantity(pub u32);

/// The item that a felled object drops.
pub const HARVEST_DROP: u32 = 1;

/// A request to put one item of a kind on a cell.
#[derive(Clone, Copy, Debug, PartialEq, Eq, Structural)]
pub struct SpawnItemEvent {
    pub x: u32,
    pub y: u32,
    pub item_id: ItemId,
}

impl SpawnItemEvent {
    pub fn from(x: u32, y: u32, item_id: ItemId) -> (event: SpawnItemEvent)
        ensures
            event == (SpawnItemEvent { x, y, item_id }),
    {
        SpawnItemEvent { x, y, item_id }
    }
}

/// What is the same for every item of a kind.
#[derive(Clone, Debug)]
pub struct Item {
    /// Unique identifier of the kind.
    pub id: ItemId,
    /// Name shown to the player.
    pub name: String,
    /// Index of the sprite in the item atlas.
    pub atlas_index: u32,
}

/// The definitions of all kinds of items by identifier, filled once and
/// read from then on.
pub struct ItemDatabase {
    pub items: HashMap<u32, Item>,
}

/// The table that a list of definitions fills: each definition stands under
/// its identifier, a later one replacing an earlier one of the same kind.
pub open spec fn catalogue(items: Seq<Item>) -> Map<u32, Item>
    decreases items.len(),
{
    if items.len() == 0 {
        Map::empty()
    } else {
        catalogue(items.drop_last()).insert(items.last().id.0, items.last())
    }
}

impl View for ItemDatabase {
    type V = Map<u32, Item>;

    open spec fn view(&self) -> Map<u32, Item> {
        self.items@
    }
}

/// Builds the item database from a list of definitions.
pub fn init_item_database(items: Vec<Item>) -> (db: ItemDatabase)
    ensures
        db@ == catalogue(items@),
{
    broadcast use vstd::std_specs::hash::group_hash_axioms;

    let mut item_db: HashMap<u32, Item> = HashMap::new();
    let ghost all = items@;
    for item in iter: items
        invariant
            iter.seq() == all,
            item_db@ == catalogue(all.take(iter.index() as int)),
    {
        proof {
            let n = iter.index() as int;
            assert(all.take(n + 1).drop_last() == all.take(n));
        }
        item_db.insert(item.id.0, item);
    }
    proof {
        assert(all.take(all.len() as int) == all);
    }
    ItemDatabase { items: item_db }
}

/// An item lying on a cell.
#[derive(Clone, Copy, Debug, PartialEq, Eq)]
pub struct ItemTile {
    pub id: ItemId,
    /// Index of the sprite in the item atlas.
    pub atlas_index: u32,
    pub quantity: ItemQuantity,
}

/// The items that lie on the ground, at most one per cell.
pub struct ItemStorage {
    tiles: Grid<Option<ItemTile>>,
}

impl ItemStorage {
    /// The storage holds one slot for every cell of its map.
    pub closed spec fn wf(&self) -> bool {
        self.tiles.wf()
    }

    /// The extent of the map.
    pub closed spec fn extent(&self) -> TilemapSize {
        self.tiles.extent()
    }

    /// The item that lies on a cell of the map, if any.
    pub closed spec fn at(&self, pos: TilePos) -> Option<ItemTile> {
        self.tiles.at(pos)
    }

    /// The item that lies on `pos`; none off the map.
    pub open spec fn item_on(&self, pos: TilePos) -> Option<ItemTile> {
        if self.extent().contains(pos) {
            self.at(pos)
        } else {
            None
        }
    }

    /// Storage for a map of extent `size` with nothing on the ground, or
    /// `None` when the number of cells does not fit the machine's address
    /// range.
    pub fn empty(size: TilemapSize) -> (storage: Option<ItemStorage>)
        ensures
            storage is Some <==> size.count() <= usize::MAX,
            storage matches Some(s) ==> {
                &&& s.wf()
                &&& s.extent() == size
                &&& forall|pos: TilePos| #[trigger] s.item_on(pos) is None
            },
    {
        match Grid::filled(size, None) {
            Some(tiles) => Some(ItemStorage { tiles }),
            None => None,
        }
    }

    /// The extent of the map.
    pub fn size(&self) -> (size: TilemapSize)
        ensures
            size == self.extent(),
    {
        self.tiles.size()
    }

    /// The item that lies on `pos`, if any.
    pub fn get(&self, pos: &TilePos) -> (item: Option<ItemTile>)
        requires
            self.wf(),
        ensures
            item == self.item_on(*pos),
    {
        if self.tiles.size().contains_pos(*pos) {
            self.tiles.get(*pos)
        } else {
            None
        }
    }

    /// Puts `item` on `pos`, replacing what lay there.  A cell off the map is
    /// refused; the result tells whether the item was put down.
    pub fn set(&mut self, pos: &TilePos, item: ItemTile) -> (put: bool)
        requires
            old(self).wf(),
        ensures
            final(self).wf(),
            final(self).extent() == old(self).extent(),
            put == old(self).extent().contains(*pos),
            forall|other: TilePos| #[trigger]
                final(self).item_on(other) == (if put && other == *pos {
                    Some(item)
                } else {
                    old(self).item_on(other)
                }),
    {
        if self.tiles.size().contains_pos(*pos) {
            self.tiles.set(*pos, Some(item));
            true
        } else {
            false
        }
    }

    /// Takes away what lies on `pos` and returns it.
    pub fn remove(&mut self, pos: &TilePos) -> (item: Option<ItemTile>)
        requires
            old(self).wf(),
        ensures
            final(self).wf(),
            final(self).extent() == old(self).extent(),
            item == old(self).item_on(*pos),
            forall|other: TilePos| #[trigger]
                final(self).item_on(other) == (if other == *pos {
                    None
                } else {
                    old(self).item_on(other)
                }),
    {
        if self.tiles.size().contains_pos(*pos) {
            let item = self.tiles.get(*pos);
            self.tiles.set(*pos, None);
            item
        } else {
            None
        }
    }
}

/// The item that a spawn request puts down: one piece of the requested kind,
/// drawn as its definition says.
pub open spec fn spawned_item(db: Map<u32, Item>, ev: SpawnItemEvent) -> ItemTile {
    ItemTile {
        id: db[ev.item_id.0].id,
        atlas_index: db[ev.item_id.0].atlas_index,
        quantity: ItemQuantity(1),
    }
}

/// Serves a spawn request: when the database knows the kind and the cell
/// lies on the map, one item of that kind is put on the cell, replacing what
/// lay there.  Otherwise nothing changes.  The result tells which.
pub fn spawn_item_at_xy(storage: &mut ItemStorage, item_db: &ItemDatabase, ev: &SpawnItemEvent) -> (spawned:
    bool)
    requires
        old(storage).wf(),
    ensures
        final(storage).wf(),
        final(storage).extent() == old(storage).extent(),
        spawned == (item_db@.contains_key(ev.item_id.0) && old(storage).extent().contains(
            TilePos { x: ev.x, y: ev.y },
        )),
        forall|other: TilePos| #[trigger]
            final(storage).item_on(other) == (if spawned && other == (TilePos { x: ev.x, y: ev.y }) {
                Some(spawned_item(item_db@, *ev))
            } else {
                old(storage).item_on(other)
            }),
{
    broadcast use vstd::std_specs::hash::group_hash_axioms;

    let tile_pos = TilePos { x: ev.x, y: ev.y };
    match item_db.items.get(&ev.item_id.0) {
        Some(item) => {
            let tile = ItemTile {
                id: item.id,
                atlas_index: item.atlas_index,
                quantity: ItemQuantity(1),
            };
            storage.set(&tile_pos, tile)
        },
        None => false,
    }
}

} // verus!
