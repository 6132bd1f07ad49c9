use comfort_rpg::crafting::{
    craft, handle_crafting_event, init_recipe_database, CraftOutcome, Ingredient, Recipe, RecipeId,
};
use comfort_rpg::inventory::{Inventory, InventoryItem};
use comfort_rpg::item_util::{ItemId, ItemQuantity};

fn stack(id: u32, amt: u32) -> InventoryItem {
    InventoryItem { id, amt }
}

fn ingredient(id: u32, quantity: u32) -> Ingredient {
    Ingredient { item_id: ItemId(id), item_quantity: ItemQuantity(quantity) }
}

fn recipe(id: u32, ingredients: Vec<Ingredient>, output: u32, amount: u32) -> Recipe {
    Recipe {
        id: RecipeId(id),
        ingredients,
        output_id: ItemId(output),
        output_amt: ItemQuantity(amount),
    }
}

fn inventory_of(stacks: &[(u32, u32)]) -> Inventory {
    let mut inventory = Inventory::new();
    for &(id, amt) in stacks {
        inventory.add_item(ItemId(id), &ItemQuantity(amt));
    }
    inventory
}

#[test]
fn crafting_consumes_the_ingredients_and_adds_the_output() {
    let plank = recipe(1, vec![ingredient(1, 2), ingredient(2, 1)], 10, 4);
    let mut inventory = inventory_of(&[(1, 5), (2, 1), (3, 7)]);
    assert_eq!(craft(&mut inventory, &plank), CraftOutcome::Crafted);
    assert_eq!(inventory.items(), &vec![stack(1, 3), stack(3, 7), stack(10, 4)]);
    assert_eq!(craft(&mut inventory, &plank), CraftOutcome::Missing(1));
    assert_eq!(inventory.items(), &vec![stack(1, 3), stack(3, 7), stack(10, 4)]);
}

#[test]
fn a_lacking_ingredient_is_named_and_nothing_changes() {
    let tool = recipe(2, vec![ingredient(1, 1), ingredient(2, 3), ingredient(4, 1)], 11, 1);
    let mut inventory = inventory_of(&[(1, 1), (2, 2)]);
    assert_eq!(craft(&mut inventory, &tool), CraftOutcome::Missing(1));
    assert_eq!(inventory.items(), &vec![stack(1, 1), stack(2, 2)]);
    let mut bare = Inventory::new();
    assert_eq!(craft(&mut bare, &tool), CraftOutcome::Missing(0));
    assert!(bare.items().is_empty());
}

#[test]
fn a_recipe_without_ingredients_only_adds() {
    let gift = recipe(3, vec![], 5, 2);
    let mut inventory = Inventory::new();
    assert_eq!(craft(&mut inventory, &gift), CraftOutcome::Crafted);
    assert_eq!(craft(&mut inventory, &gift), CraftOutcome::Crafted);
    assert_eq!(inventory.items(), &vec![stack(5, 4)]);
}

#[test]
fn an_ingredient_listed_twice_is_checked_once_per_listing() {
    // Each listing is checked against the inventory as it stands, so two
    // listings of two pass on a stack of two; the second removal then finds
    // nothing to take.
    let twice = recipe(4, vec![ingredient(1, 2), ingredient(1, 2)], 9, 1);
    let mut inventory = inventory_of(&[(1, 2)]);
    assert_eq!(craft(&mut inventory, &twice), CraftOutcome::Crafted);
    assert_eq!(inventory.items(), &vec![stack(9, 1)]);
}

#[test]
fn recipes_are_found_by_identifier() {
    let db = init_recipe_database(vec![
        recipe(1, vec![ingredient(1, 1)], 10, 1),
        recipe(2, vec![ingredient(2, 1)], 20, 1),
        recipe(1, vec![ingredient(1, 2)], 30, 3),
    ]);
    assert_eq!(db.recipes.len(), 2);
    // The later recipe of an identifier replaces the earlier one.
    assert_eq!(db.recipes[&1].output_id, ItemId(30));
    let mut inventory = inventory_of(&[(1, 2), (2, 1)]);
    assert_eq!(
        handle_crafting_event(&mut inventory, &db, RecipeId(1)),
        CraftOutcome::Crafted
    );
    assert_eq!(inventory.items(), &vec![stack(2, 1), stack(30, 3)]);
    assert_eq!(
        handle_crafting_event(&mut inventory, &db, RecipeId(7)),
        CraftOutcome::UnknownRecipe
    );
    assert_eq!(
        handle_crafting_event(&mut inventory, &db, RecipeId(1)),
        CraftOutcome::Missing(0)
    );
    assert_eq!(inventory.items(), &vec![stack(2, 1), stack(30, 3)]);
    assert_eq!(
        handle_crafting_event(&mut inventory, &db, RecipeId(2)),
        CraftOutcome::Crafted
    );
    assert_eq!(inventory.items(), &vec![stack(30, 3), stack(20, 1)]);
}
