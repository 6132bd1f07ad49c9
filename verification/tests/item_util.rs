use comfort_rpg::grid::{TilePos, TilemapSize};
use comfort_rpg::item_util::{
    init_item_database, spawn_item_at_xy, Item, ItemId, ItemQuantity, ItemStorage, ItemTile,
    SpawnItemEvent, HARVEST_DROP,
};

fn definition(id: u32, name: &str, atlas_index: u32) -> Item {
    Item { id: ItemId(id), name: name.to_string(), atlas_index }
}

#[test]
fn database_holds_each_kind_once() {
    let db = init_item_database(vec![
        definition(1, "Wood", 0),
        definition(2, "Stone", 4),
        definition(1, "Oak", 9),
    ]);
    assert_eq!(db.items.len(), 2);
    assert_eq!(db.items[&1].name, "Oak");
    assert_eq!(db.items[&1].atlas_index, 9);
    assert_eq!(db.items[&2].name, "Stone");
    assert!(!db.items.contains_key(&3));
    assert!(init_item_database(Vec::new()).items.is_empty());
}

#[test]
fn spawn_event_carries_its_arguments() {
    assert_eq!(
        SpawnItemEvent::from(3, 4, ItemId(9)),
        SpawnItemEvent { x: 3, y: 4, item_id: ItemId(9) }
    );
    assert_eq!(HARVEST_DROP, 1);
}

#[test]
fn spawning_puts_one_known_item_on_the_cell() {
    let db = init_item_database(vec![definition(1, "Wood", 6)]);
    let mut storage = ItemStorage::empty(TilemapSize::new(4, 4)).unwrap();
    assert_eq!(storage.size(), TilemapSize::new(4, 4));
    assert!(spawn_item_at_xy(&mut storage, &db, &SpawnItemEvent::from(2, 3, ItemId(1))));
    let wood = ItemTile { id: ItemId(1), atlas_index: 6, quantity: ItemQuantity(1) };
    assert_eq!(storage.get(&TilePos::new(2, 3)), Some(wood));
    assert_eq!(storage.get(&TilePos::new(3, 2)), None);
    // An unknown kind and a cell off the map are refused.
    assert!(!spawn_item_at_xy(&mut storage, &db, &SpawnItemEvent::from(0, 0, ItemId(2))));
    assert_eq!(storage.get(&TilePos::new(0, 0)), None);
    assert!(!spawn_item_at_xy(&mut storage, &db, &SpawnItemEvent::from(4, 0, ItemId(1))));
    assert_eq!(storage.get(&TilePos::new(4, 0)), None);
    assert_eq!(storage.remove(&TilePos::new(2, 3)), Some(wood));
    assert_eq!(storage.remove(&TilePos::new(2, 3)), None);
    assert_eq!(storage.remove(&TilePos::new(9, 9)), None);
    assert!(!storage.set(&TilePos::new(0, 4), wood));
}
