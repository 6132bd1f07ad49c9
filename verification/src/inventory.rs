//! The player's inventory: a short list of item stacks, one per kind.

use crate::entity_tile_pos::EntityTilePos;
use crate::grid::TilePos;
use crate::item_util::{ItemId, ItemQuantity, ItemStorage, ItemTile};
use crate::player::{cell_ahead, Direction};
use vstd::prelude::*;

verus! {

/// Number of stacks that a new inventory can hold.
pub const INVENTORY_SLOTS: usize = 15;

/// One stack: a kind of item and how many of it.
#[derive(Clone, Copy, Debug, PartialEq, Eq, Structural)]
pub struct InventoryItem {
    pub id: u32,
    pub amt: u32,
}

/// Index of the first stack of kind `id` at or after `from`, or the length of
/// `stacks` when there is none.
pub open spec fn first_stack(stacks: Seq<InventoryItem>, id: u32, from: int) -> int
    decreases stacks.len() - from,
{
    if from < 0 || from >= stacks.len() {
        stacks.len() as int
    } else if stacks[from].id == id {
        from
    } else {
        first_stack(stacks, id, from + 1)
    }
}

/// Index of the stack that holds kind `id`, or the length of `stacks` when
/// none does.
pub open spec fn slot_of(stacks: Seq<InventoryItem>, id: u32) -> int {
    first_stack(stacks, id, 0)
}

/// How many items of kind `id` the stacks hold.
pub open spec fn quantity_in(stacks: Seq<InventoryItem>, id: u32) -> nat {
    if slot_of(stacks, id) < stacks.len() {
        stacks[slot_of(stacks, id)].amt as nat
    } else {
        0
    }
}

/// The stacks after `amt` items of kind `id` were added: an existing stack
/// grows, else a new stack is appended while there is room.  Items for which
/// there is no room, or which the stack of their kind cannot count, are
/// dropped.
pub open spec fn with_added(stacks: Seq<InventoryItem>, room: int, id: u32, amt: u32) -> Seq<
    InventoryItem,
> {
    let slot = slot_of(stacks, id);
    if slot < stacks.len() {
        if stacks[slot].amt + amt <= u32::MAX {
            stacks.update(slot, InventoryItem { id, amt: (stacks[slot].amt + amt) as u32 })
        } else {
            stacks
        }
    } else if stacks.len() < room {
        stacks.push(InventoryItem { id, amt })
    } else {
        stacks
    }
}

/// The stacks hold at least `amt` items of kind `id` in a stack of that kind.
pub open spec fn can_take(stacks: Seq<InventoryItem>, id: u32, amt: u32) -> bool {
    slot_of(stacks, id) < stacks.len() && stacks[slot_of(stacks, id)].amt >= amt
}

/// The stacks after `amt` items of kind `id` were taken: the stack shrinks,
/// and leaves the list when nothing is left of it.  Unchanged when the items
/// cannot be taken.
pub open spec fn with_removed(stacks: Seq<InventoryItem>, id: u32, amt: u32) -> Seq<InventoryItem> {
    let slot = slot_of(stacks, id);
    if !can_take(stacks, id, amt) {
        stacks
    } else if stacks[slot].amt == amt {
        stacks.remove(slot)
    } else {
        stacks.update(slot, InventoryItem { id, amt: (stacks[slot].amt - amt) as u32 })
    }
}

/// The items that an entity carries.
pub struct Inventory {
    items: Vec<InventoryItem>,
    max_size: usize,
}

impl View for Inventory {
    type V = Seq<InventoryItem>;

    closed spec fn view(&self) -> Seq<InventoryItem> {
        self.items@
    }
}

impl Inventory {
    /// Number of stacks that the inventory can hold.
    pub closed spec fn capacity(&self) -> int {
        self.max_size as int
    }

    /// An empty inventory with room for the standard number of stacks.
    pub fn new() -> (inventory: Inventory)
        ensures
            inventory@ == Seq::<InventoryItem>::empty(),
            inventory.capacity() == INVENTORY_SLOTS,
    {
        Inventory { items: Vec::new(), max_size: INVENTORY_SLOTS }
    }

    /// Number of stacks that the inventory can hold.
    pub fn max_size(&self) -> (size: usize)
        ensures
            size == self.capacity(),
    {
        self.max_size
    }

    /// The stacks, in the order in which they are shown.
    pub fn items(&self) -> (stacks: &Vec<InventoryItem>)
        ensures
            stacks@ == self@,
    {
        &self.items
    }

    /// Finds the stack of kind `id`.
    fn position(&self, id: u32) -> (slot: Option<usize>)
        ensures
            slot matches Some(i) ==> i == slot_of(self@, id) && i < self@.len(),
            slot is None ==> slot_of(self@, id) == self@.len(),
    {
        let mut i: usize = 0;
        while i < self.items.len()
            invariant
                i <= self.items@.len(),
                first_stack(self.items@, id, 0) == first_stack(self.items@, id, i as int),
            decreases self.items@.len() - i,
        {
            if self.items[i].id == id {
                return Some(i);
            }
            i = i + 1;
        }
        None
    }

    /// Adds `amt` items of kind `id`: to the stack of that kind if there is
    /// one, else as a new stack while there is room.  Without room, or when
    /// the stack cannot count that many, the items are dropped.
    pub fn add_item(&mut self, id: ItemId, amt: &ItemQuantity)
        ensures
            final(self)@ == with_added(old(self)@, old(self).capacity(), id.0, amt.0),
            final(self).capacity() == old(self).capacity(),
    {
        match self.position(id.0) {
            Some(idx) => {
                let stack = self.items[idx];
                if let Some(total) = stack.amt.checked_add(amt.0) {
                    self.items.set(idx, InventoryItem { id: id.0, amt: total });
                }
            },
            None => {
                if self.items.len() < self.max_size {
                    self.items.push(InventoryItem { id: id.0, amt: amt.0 });
                }
            },
        }
    }

    /// Attempts to take `amt` items of kind `id` out of the inventory.  Fails,
    /// changing nothing, when the inventory holds fewer; a stack that runs
    /// empty leaves the list.
    pub fn remove_item(&mut self, id: ItemId, amt: &ItemQuantity) -> (taken: bool)
        ensures
            taken == can_take(old(self)@, id.0, amt.0),
            final(self)@ == with_removed(old(self)@, id.0, amt.0),
            final(self).capacity() == old(self).capacity(),
    {
        match self.position(id.0) {
            Some(idx) => {
                let stack = self.items[idx];
                if stack.amt >= amt.0 {
                    if stack.amt - amt.0 == 0 {
                        self.items.remove(idx);
                    } else {
                        self.items.set(idx, InventoryItem { id: id.0, amt: stack.amt - amt.0 });
                    }
                    return true;
                }
                false
            },
            None => false,
        }
    }

    /// Checks whether the inventory holds at least `amt` items of kind `id`.
    pub fn contains_item(&self, id: ItemId, amt: &ItemQuantity) -> (held: bool)
        ensures
            held == can_take(self@, id.0, amt.0),
    {
        match self.position(id.0) {
            Some(idx) => self.items[idx].amt >= amt.0,
            None => false,
        }
    }
}

/// The stacks after an attempt to pick up what lies on a cell: an item found
/// there is added, and nothing found leaves the stacks as they are.
pub open spec fn after_pickup(stacks: Seq<InventoryItem>, room: int, found: Option<ItemTile>) -> Seq<
    InventoryItem,
> {
    match found {
        Some(item) => with_added(stacks, room, item.id.0, item.quantity.0),
        None => stacks,
    }
}

/// What lies on the cell ahead of `position`; nothing when that cell is off
/// the map.
pub open spec fn item_ahead(storage: &ItemStorage, position: EntityTilePos, direction: Direction) -> Option<
    ItemTile,
> {
    let (x, y) = cell_ahead(position, direction);
    if storage.extent().covers(x, y) {
        storage.item_on(TilePos { x: x as u32, y: y as u32 })
    } else {
        None
    }
}

impl Inventory {
    /// Picks up what lies on `pos`: the item leaves the ground and is added
    /// to the inventory.
    fn pick_up(&mut self, storage: &mut ItemStorage, pos: &TilePos) -> (taken: bool)
        requires
            old(storage).wf(),
        ensures
            final(storage).wf(),
            final(storage).extent() == old(storage).extent(),
            final(self).capacity() == old(self).capacity(),
            taken == old(storage).item_on(*pos) is Some,
            final(self)@ == after_pickup(
                old(self)@,
                old(self).capacity(),
                old(storage).item_on(*pos),
            ),
            forall|other: TilePos| #[trigger]
                final(storage).item_on(other) == (if other == *pos {
                    None
                } else {
                    old(storage).item_on(other)
                }),
    {
        match storage.remove(pos) {
            Some(item) => {
                self.add_item(item.id, &item.quantity);
                true
            },
            None => false,
        }
    }
}

/// Takes items off the ground into the inventory: first what lies under the
/// player, then what lies on the cell ahead.  Both cells are left bare.  The
/// result tells whether the cell ahead held something, which is when the
/// inventory's display is due for an update.
pub fn take_item(
    inventory: &mut Inventory,
    storage: &mut ItemStorage,
    position: &EntityTilePos,
    direction: &Direction,
) -> (update: bool)
    requires
        old(storage).wf(),
    ensures
        final(storage).wf(),
        final(storage).extent() == old(storage).extent(),
        final(inventory).capacity() == old(inventory).capacity(),
        ({
            let room = old(inventory).capacity();
            let here = TilePos { x: position.x, y: position.y };
            let ahead = item_ahead(old(storage), *position, *direction);
            let (ax, ay) = cell_ahead(*position, *direction);
            let mid = after_pickup(old(inventory)@, room, old(storage).item_on(here));
            &&& final(inventory)@ == after_pickup(mid, room, ahead)
            &&& update == ahead is Some
            &&& forall|other: TilePos| #[trigger]
                final(storage).item_on(other) == (if other == here || (other.x == ax && other.y
                    == ay) {
                    None
                } else {
                    old(storage).item_on(other)
                })
        }),
{
    let here = position.tile_pos();
    inventory.pick_up(storage, &here);
    let px: i64 = position.x as i64;
    let py: i64 = position.y as i64;
    let (x, y): (i64, i64) = match *direction {
        Direction::Up => (px, py + 1),
        Direction::Down => (px, py - 1),
        Direction::Left => (px - 1, py),
        Direction::Right => (px + 1, py),
    };
    if !storage.size().is_within_bounds(x, y) {
        return false;
    }
    let there = TilePos { x: x as u32, y: y as u32 };
    inventory.pick_up(storage, &there)
}

/// The slot of the inventory's display that the cursor points at.
#[derive(Clone, Copy, Debug, PartialEq, Eq, Structural)]
pub struct InventoryPointer(pub usize);

/// Moves the cursor of the inventory's display: down one slot on `down`
/// unless it has reached the number of slots, else up one slot on `up`
/// unless it stands on the first.
pub fn move_inventory_cursor(pointer: &mut InventoryPointer, inventory: &Inventory, down: bool, up: bool)
    ensures
        final(pointer).0 == (if down {
            if old(pointer).0 < inventory.capacity() {
                old(pointer).0 + 1
            } else {
                old(pointer).0 as int
            }
        } else if up && old(pointer).0 > 0 {
            old(pointer).0 - 1
        } else {
            old(pointer).0 as int
        }),
{
    if down {
        if pointer.0 < inventory.max_size() {
            pointer.0 = pointer.0 + 1;
        }
    } else if up {
        if pointer.0 > 0 {
            pointer.0 = pointer.0 - 1;
        }
    }
}

} // verus!
