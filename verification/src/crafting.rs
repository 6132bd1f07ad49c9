//! Crafting: recipes, and what crafting one does to an inventory.

use crate::inventory::{can_take, with_added, with_removed, Inventory, InventoryItem};
use crate::item_util::{ItemId, ItemQuantity};
use std::collections::HashMap;
use vstd::prelude::*;

verus! {

/// Identifies a recipe.
#[derive(Clone, Copy, Debug, PartialEq, Eq, Structural, Hash)]
pub struct RecipeId(pub u32);

/// One input of a recipe.
#[derive(Clone, Copy, Debug, PartialEq, Eq, Structural)]
pub struct Ingredient {
    pub item_id: ItemId,
    pub item_quantity: ItemQuantity,
}

/// What a recipe consumes and what it yields.
#[derive(Clone, Debug)]
pub struct Recipe {
    pub id: RecipeId,
    pub ingredients: Vec<Ingredient>,
    pub output_id: ItemId,
    pub output_amt: ItemQuantity,
}

/// All recipes by identifier, filled once and read from then on.
pub struct RecipeDatabase {
    pub recipes: HashMap<u32, Recipe>,
}

impl View for RecipeDatabase {
    type V = Map<u32, Recipe>;

    open spec fn view(&self) -> Map<u32, Recipe> {
        self.recipes@
    }
}

/// How an attempt to craft ended.
#[derive(Clone, Copy, Debug, PartialEq, Eq, Structural)]
pub enum CraftOutcome {
    /// The ingredients were consumed and the output added.
    Crafted,
    /// The inventory lacks the ingredient at this place of the recipe.
    Missing(usize),
    /// The database holds no such recipe.
    UnknownRecipe,
}

/// The table that a list of recipes fills: each recipe stands under its
/// identifier, a later one replacing an earlier one of the same identifier.
pub open spec fn recipe_book(recipes: Seq<Recipe>) -> Map<u32, Recipe>
    decreases recipes.len(),
{
    if recipes.len() == 0 {
        Map::empty()
    } else {
        recipe_book(recipes.drop_last()).insert(recipes.last().id.0, recipes.last())
    }
}

/// Index of the first of the first `upto` ingredients that the stacks cannot
/// give, or `upto` when they can give each of them.
pub open spec fn first_missing(stacks: Seq<InventoryItem>, ingredients: Seq<Ingredient>, upto: int) -> int
    decreases upto,
{
    if upto <= 0 {
        0
    } else {
        let before = first_missing(stacks, ingredients, upto - 1);
        if before < upto - 1 {
            before
        } else if can_take(
            stacks,
            ingredients[upto - 1].item_id.0,
            ingredients[upto - 1].item_quantity.0,
        ) {
            upto
        } else {
            upto - 1
        }
    }
}

/// The stacks after the first `upto` ingredients were taken out, one after
/// the other.
pub open spec fn without(stacks: Seq<InventoryItem>, ingredients: Seq<Ingredient>, upto: int) -> Seq<
    InventoryItem,
>
    decreases upto,
{
    if upto <= 0 {
        stacks
    } else {
        with_removed(
            without(stacks, ingredients, upto - 1),
            ingredients[upto - 1].item_id.0,
            ingredients[upto - 1].item_quantity.0,
        )
    }
}

/// The stacks after crafting `recipe`: when the stacks can give each
/// ingredient, all are taken out and the output is added; else nothing
/// changes.
pub open spec fn after_crafting(stacks: Seq<InventoryItem>, room: int, recipe: Recipe) -> Seq<
    InventoryItem,
> {
    let n = recipe.ingredients@.len() as int;
    if first_missing(stacks, recipe.ingredients@, n) == n {
        with_added(
            without(stacks, recipe.ingredients@, n),
            room,
            recipe.output_id.0,
            recipe.output_amt.0,
        )
    } else {
        stacks
    }
}

/// Builds the recipe database from a list of recipes.
pub fn init_recipe_database(recipes: Vec<Recipe>) -> (db: RecipeDatabase)
    ensures
        db@ == recipe_book(recipes@),
{
    broadcast use vstd::std_specs::hash::group_hash_axioms;

    let mut recipe_db: HashMap<u32, Recipe> = HashMap::new();
    let ghost all = recipes@;
    for recipe in iter: recipes
        invariant
            iter.seq() == all,
            recipe_db@ == recipe_book(all.take(iter.index() as int)),
    {
        proof {
            let n = iter.index() as int;
            assert(all.take(n + 1).drop_last() == all.take(n));
        }
        recipe_db.insert(recipe.id.0, recipe);
    }
    proof {
        assert(all.take(all.len() as int) == all);
    }
    RecipeDatabase { recipes: recipe_db }
}

/// Crafts `recipe` from the inventory.  Each ingredient is first checked
/// against the inventory as it stands; if one is lacking, nothing changes and
/// the first lacking ingredient is named.  Otherwise the ingredients are
/// taken out in order and the output is added.
pub fn craft(inventory: &mut Inventory, recipe: &Recipe) -> (outcome: CraftOutcome)
    ensures
        final(inventory).capacity() == old(inventory).capacity(),
        final(inventory)@ == after_crafting(old(inventory)@, old(inventory).capacity(), *recipe),
        outcome == ({
            let n = recipe.ingredients@.len() as int;
            let missing = first_missing(old(inventory)@, recipe.ingredients@, n);
            if missing == n {
                CraftOutcome::Crafted
            } else {
                CraftOutcome::Missing(missing as usize)
            }
        }),
{
    let n: usize = recipe.ingredients.len();
    let mut i: usize = 0;
    while i < n
        invariant
            i <= n,
            n == recipe.ingredients@.len(),
            *inventory == *old(inventory),
            first_missing(inventory@, recipe.ingredients@, i as int) == i,
        decreases n - i,
    {
        let ingredient = recipe.ingredients[i];
        if !inventory.contains_item(ingredient.item_id, &ingredient.item_quantity) {
            proof {
                lemma_missing_stays(inventory@, recipe.ingredients@, i as int, n as int);
            }
            return CraftOutcome::Missing(i);
        }
        i = i + 1;
    }
    let mut j: usize = 0;
    while j < n
        invariant
            j <= n,
            n == recipe.ingredients@.len(),
            inventory.capacity() == old(inventory).capacity(),
            inventory@ == without(old(inventory)@, recipe.ingredients@, j as int),
        decreases n - j,
    {
        let ingredient = recipe.ingredients[j];
        inventory.remove_item(ingredient.item_id, &ingredient.item_quantity);
        j = j + 1;
    }
    inventory.add_item(recipe.output_id, &recipe.output_amt);
    CraftOutcome::Crafted
}

/// Once an ingredient is found lacking, looking at more ingredients names the
/// same one.
pub proof fn lemma_missing_stays(
    stacks: Seq<InventoryItem>,
    ingredients: Seq<Ingredient>,
    at: int,
    upto: int,
)
    requires
        0 <= at < upto,
        first_missing(stacks, ingredients, at) == at,
        !can_take(stacks, ingredients[at].item_id.0, ingredients[at].item_quantity.0),
    ensures
        first_missing(stacks, ingredients, upto) == at,
    decreases upto - at,
{
    if upto > at + 1 {
        lemma_missing_stays(stacks, ingredients, at, upto - 1);
    }
}

/// Serves a request to craft the recipe `recipe`: looks the recipe up and
/// crafts it.  An unknown recipe changes nothing.
pub fn handle_crafting_event(
    inventory: &mut Inventory,
    recipe_db: &RecipeDatabase,
    recipe: RecipeId,
) -> (outcome: CraftOutcome)
    ensures
        final(inventory).capacity() == old(inventory).capacity(),
        !recipe_db@.contains_key(recipe.0) ==> outcome == CraftOutcome::UnknownRecipe
            && final(inventory)@ == old(inventory)@,
        recipe_db@.contains_key(recipe.0) ==> {
            let found = recipe_db@[recipe.0];
            let n = found.ingredients@.len() as int;
            let missing = first_missing(old(inventory)@, found.ingredients@, n);
            &&& final(inventory)@ == after_crafting(
                old(inventory)@,
                old(inventory).capacity(),
                found,
            )
            &&& outcome == (if missing == n {
                CraftOutcome::Crafted
            } else {
                CraftOutcome::Missing(missing as usize)
            })
        },
{
    broadcast use vstd::std_specs::hash::group_hash_axioms;

    match recipe_db.recipes.get(&recipe.0) {
        Some(found) => craft(inventory, found),
        None => CraftOutcome::UnknownRecipe,
    }
}

} // verus!
