use comfort_rpg::entity_tile_pos::EntityTilePos;
use comfort_rpg::grid::{TilePos, TilemapSize};
use comfort_rpg::inventory::{
    move_inventory_cursor, take_item, Inventory, InventoryItem, InventoryPointer, INVENTORY_SLOTS,
};
use comfort_rpg::item_util::{ItemId, ItemQuantity, ItemStorage, ItemTile};
use comfort_rpg::player::Direction;

fn stack(id: u32, amt: u32) -> InventoryItem {
    InventoryItem { id, amt }
}

fn item(id: u32, quantity: u32) -> ItemTile {
    ItemTile { id: ItemId(id), atlas_index: id + 100, quantity: ItemQuantity(quantity) }
}

#[test]
fn new_inventory_is_empty() {
    let inventory = Inventory::new();
    assert!(inventory.items().is_empty());
    assert_eq!(inventory.max_size(), 15);
    assert_eq!(INVENTORY_SLOTS, 15);
    assert!(!inventory.contains_item(ItemId(1), &ItemQuantity(1)));
    // Nothing holds nothing, not even zero pieces of it.
    assert!(!inventory.contains_item(ItemId(1), &ItemQuantity(0)));
}

#[test]
fn adding_grows_a_stack_or_appends_one() {
    let mut inventory = Inventory::new();
    inventory.add_item(ItemId(7), &ItemQuantity(3));
    inventory.add_item(ItemId(2), &ItemQuantity(1));
    inventory.add_item(ItemId(7), &ItemQuantity(4));
    assert_eq!(inventory.items(), &vec![stack(7, 7), stack(2, 1)]);
    inventory.add_item(ItemId(9), &ItemQuantity(0));
    assert_eq!(inventory.items(), &vec![stack(7, 7), stack(2, 1), stack(9, 0)]);
    assert!(inventory.contains_item(ItemId(7), &ItemQuantity(7)));
    assert!(!inventory.contains_item(ItemId(7), &ItemQuantity(8)));
    assert!(inventory.contains_item(ItemId(9), &ItemQuantity(0)));
}

#[test]
fn a_full_inventory_drops_new_kinds() {
    let mut inventory = Inventory::new();
    for id in 0..15 {
        inventory.add_item(ItemId(id), &ItemQuantity(1));
    }
    assert_eq!(inventory.items().len(), 15);
    inventory.add_item(ItemId(99), &ItemQuantity(5));
    assert_eq!(inventory.items().len(), 15);
    assert!(!inventory.contains_item(ItemId(99), &ItemQuantity(1)));
    inventory.add_item(ItemId(14), &ItemQuantity(5));
    assert_eq!(inventory.items()[14], stack(14, 6));
}

#[test]
fn a_stack_that_cannot_count_more_drops_the_items() {
    let mut inventory = Inventory::new();
    inventory.add_item(ItemId(1), &ItemQuantity(u32::MAX - 1));
    inventory.add_item(ItemId(1), &ItemQuantity(2));
    assert_eq!(inventory.items(), &vec![stack(1, u32::MAX - 1)]);
    inventory.add_item(ItemId(1), &ItemQuantity(1));
    assert_eq!(inventory.items(), &vec![stack(1, u32::MAX)]);
}

#[test]
fn removing_shrinks_a_stack_and_drops_it_when_empty() {
    let mut inventory = Inventory::new();
    inventory.add_item(ItemId(1), &ItemQuantity(5));
    inventory.add_item(ItemId(2), &ItemQuantity(2));
    inventory.add_item(ItemId(3), &ItemQuantity(9));
    assert!(!inventory.remove_item(ItemId(1), &ItemQuantity(6)));
    assert!(!inventory.remove_item(ItemId(4), &ItemQuantity(1)));
    assert!(!inventory.remove_item(ItemId(4), &ItemQuantity(0)));
    assert_eq!(inventory.items(), &vec![stack(1, 5), stack(2, 2), stack(3, 9)]);
    assert!(inventory.remove_item(ItemId(1), &ItemQuantity(2)));
    assert_eq!(inventory.items(), &vec![stack(1, 3), stack(2, 2), stack(3, 9)]);
    assert!(inventory.remove_item(ItemId(2), &ItemQuantity(2)));
    assert_eq!(inventory.items(), &vec![stack(1, 3), stack(3, 9)]);
    assert!(inventory.remove_item(ItemId(1), &ItemQuantity(0)));
    assert_eq!(inventory.items(), &vec![stack(1, 3), stack(3, 9)]);
    assert!(inventory.remove_item(ItemId(3), &ItemQuantity(9)));
    assert!(inventory.remove_item(ItemId(1), &ItemQuantity(3)));
    assert!(inventory.items().is_empty());
}

#[test]
fn taking_picks_up_under_and_ahead() {
    let mut storage = ItemStorage::empty(TilemapSize::new(6, 6)).unwrap();
    assert!(storage.set(&TilePos::new(2, 2), item(1, 1)));
    assert!(storage.set(&TilePos::new(2, 3), item(1, 4)));
    assert!(storage.set(&TilePos::new(3, 2), item(5, 2)));
    let mut inventory = Inventory::new();
    let here = EntityTilePos { x: 2, y: 2 };

    assert!(take_item(&mut inventory, &mut storage, &here, &Direction::Up));
    assert_eq!(inventory.items(), &vec![stack(1, 5)]);
    assert_eq!(storage.get(&TilePos::new(2, 2)), None);
    assert_eq!(storage.get(&TilePos::new(2, 3)), None);
    assert_eq!(storage.get(&TilePos::new(3, 2)), Some(item(5, 2)));

    // Nothing under, nothing ahead.
    assert!(!take_item(&mut inventory, &mut storage, &here, &Direction::Up));
    assert!(!take_item(&mut inventory, &mut storage, &here, &Direction::Left));
    assert!(take_item(&mut inventory, &mut storage, &here, &Direction::Right));
    assert_eq!(inventory.items(), &vec![stack(1, 5), stack(5, 2)]);
    assert_eq!(storage.get(&TilePos::new(3, 2)), None);
}

#[test]
fn taking_what_lies_under_alone_asks_for_no_update() {
    let mut storage = ItemStorage::empty(TilemapSize::new(4, 4)).unwrap();
    storage.set(&TilePos::new(0, 0), item(3, 2));
    let mut inventory = Inventory::new();
    let corner = EntityTilePos { x: 0, y: 0 };
    assert!(!take_item(&mut inventory, &mut storage, &corner, &Direction::Down));
    assert_eq!(inventory.items(), &vec![stack(3, 2)]);
    assert_eq!(storage.get(&TilePos::new(0, 0)), None);
    assert!(!take_item(&mut inventory, &mut storage, &corner, &Direction::Left));
    let far = EntityTilePos { x: 3, y: 3 };
    assert!(!take_item(&mut inventory, &mut storage, &far, &Direction::Up));
    assert!(!take_item(&mut inventory, &mut storage, &far, &Direction::Right));
    assert_eq!(inventory.items(), &vec![stack(3, 2)]);
}

#[test]
fn an_item_taken_without_room_is_lost() {
    let mut storage = ItemStorage::empty(TilemapSize::new(4, 4)).unwrap();
    storage.set(&TilePos::new(1, 2), item(77, 1));
    let mut inventory = Inventory::new();
    for id in 0..15 {
        inventory.add_item(ItemId(id), &ItemQuantity(1));
    }
    let here = EntityTilePos { x: 1, y: 1 };
    assert!(take_item(&mut inventory, &mut storage, &here, &Direction::Up));
    assert_eq!(storage.get(&TilePos::new(1, 2)), None);
    assert_eq!(inventory.items().len(), 15);
    assert!(!inventory.contains_item(ItemId(77), &ItemQuantity(1)));
}

#[test]
fn cursor_moves_within_the_slots() {
    let inventory = Inventory::new();
    let mut pointer = InventoryPointer(0);
    move_inventory_cursor(&mut pointer, &inventory, false, true);
    assert_eq!(pointer, InventoryPointer(0));
    move_inventory_cursor(&mut pointer, &inventory, true, false);
    assert_eq!(pointer, InventoryPointer(1));
    move_inventory_cursor(&mut pointer, &inventory, true, true);
    assert_eq!(pointer, InventoryPointer(2));
    move_inventory_cursor(&mut pointer, &inventory, false, false);
    assert_eq!(pointer, InventoryPointer(2));
    move_inventory_cursor(&mut pointer, &inventory, false, true);
    assert_eq!(pointer, InventoryPointer(1));
    let mut last = InventoryPointer(14);
    move_inventory_cursor(&mut last, &inventory, true, false);
    assert_eq!(last, InventoryPointer(15));
    move_inventory_cursor(&mut last, &inventory, true, false);
    assert_eq!(last, InventoryPointer(15));
}
