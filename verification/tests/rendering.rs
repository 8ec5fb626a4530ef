use anylist_cli::list::{
    display_added_item, display_list_items, display_lists_names, List, ListItem,
};
use anylist_cli::meal_plans::{
    display_created_event, display_meal_plan_events, MealPlanEvent,
};
use anylist_cli::order::sort_order;
use anylist_cli::recipes::{
    display_ingredient, display_recipe_detail, display_recipe_list, Ingredient, Recipe,
};
use anylist_cli::text::{decimal, quotient, repeat, signed_decimal};

fn item(id: &str, name: &str, checked: bool) -> ListItem {
    ListItem {
        id: String::from(id),
        name: String::from(name),
        details: String::new(),
        is_checked: checked,
        quantity: None,
        category: None,
    }
}

fn list(name: &str, items: Vec<ListItem>) -> List {
    List { id: String::from("list-1"), name: String::from(name), items }
}

fn recipe(name: &str) -> Recipe {
    Recipe {
        id: String::from("r1"),
        name: String::from(name),
        ingredients: Vec::new(),
        preparation_steps: Vec::new(),
        note: None,
        source_name: None,
        source_url: None,
        servings: None,
        prep_time: None,
        cook_time: None,
        rating: None,
    }
}

fn ingredient(name: &str, quantity: Option<&str>, note: Option<&str>) -> Ingredient {
    Ingredient {
        name: String::from(name),
        quantity: quantity.map(String::from),
        note: note.map(String::from),
    }
}

fn keys(names: &[&str]) -> Vec<String> {
    names.iter().map(|name| String::from(*name)).collect()
}

#[test]
fn decimal_writes_numbers() {
    assert_eq!(decimal(0), "0");
    assert_eq!(decimal(7), "7");
    assert_eq!(decimal(10), "10");
    assert_eq!(decimal(1203), "1203");
    assert_eq!(decimal(u64::MAX), "18446744073709551615");
}

#[test]
fn signed_decimal_writes_the_sign() {
    assert_eq!(signed_decimal(0), "0");
    assert_eq!(signed_decimal(42), "42");
    assert_eq!(signed_decimal(-5), "-5");
    assert_eq!(signed_decimal(i64::MIN), "-9223372036854775808");
    assert_eq!(signed_decimal(i64::MAX), "9223372036854775807");
}

#[test]
fn repeat_writes_the_unit_in_a_row() {
    assert_eq!(repeat("ab", 3), "ababab");
    assert_eq!(repeat("-", 1), "-");
    assert_eq!(repeat("x", 0), "");
    assert_eq!(repeat("", 5), "");
}

#[test]
fn quotient_rounds_toward_zero() {
    assert_eq!(quotient(119, 60), 1);
    assert_eq!(quotient(120, 60), 2);
    assert_eq!(quotient(59, 60), 0);
    assert_eq!(quotient(-59, 60), 0);
    assert_eq!(quotient(-61, 60), -1);
    assert_eq!(quotient(i32::MIN, 60), i32::MIN / 60);
    assert_eq!(quotient(i32::MAX, 1), i32::MAX);
}

#[test]
fn sort_order_arranges_by_key() {
    assert_eq!(sort_order(&keys(&["b", "a", "c"])), vec![1, 0, 2]);
    assert_eq!(sort_order(&keys(&[])), Vec::<usize>::new());
    assert_eq!(sort_order(&keys(&["only"])), vec![0]);
}

#[test]
fn sort_order_keeps_equal_keys_in_place() {
    assert_eq!(sort_order(&keys(&["b", "a", "b", "", "ab", "a"])), vec![3, 1, 5, 4, 0, 2]);
}

#[test]
fn sort_order_goes_by_code_point() {
    assert_eq!(sort_order(&keys(&["\u{e9}clair", "zebra", "eclair", "Zebra"])), vec![3, 2, 1, 0]);
    assert_eq!(sort_order(&keys(&["ab", "a", "abc", "aa"])), vec![1, 3, 0, 2]);
}

#[test]
fn overview_of_no_lists() {
    assert_eq!(display_lists_names(&Vec::new()), "No lists found.\n");
}

#[test]
fn overview_of_lists_counts_items() {
    let lists = vec![
        list("Groceries", vec![item("1", "milk", false), item("2", "eggs", true)]),
        List { id: String::from("list-2"), name: String::from("Hardware"), items: Vec::new() },
    ];
    assert_eq!(
        display_lists_names(&lists),
        "Your lists:\n  Groceries (2 items) - ID: list-1\n  Hardware (0 items) - ID: list-2\n"
    );
}

#[test]
fn list_shows_open_items_by_name_then_completed_ones() {
    let mut milk = item("1", "milk", false);
    milk.quantity = Some(String::from("2"));
    milk.category = Some(String::from("Dairy"));
    let mut apples = item("2", "Apples", false);
    apples.details = String::from("organic");
    let mut bread = item("3", "bread", true);
    bread.quantity = Some(String::from("1 loaf"));
    bread.details = String::from("sliced");
    bread.category = Some(String::from("Bakery"));
    let lower = item("4", "apples", false);
    let shown = display_list_items(&list("Groceries", vec![milk, apples, bread, lower]));
    assert_eq!(
        shown,
        "Groceries\n---------\n\n\
         [ ] \x1b[1mApples\x1b[0m - organic (ID: 2)\n\
         [ ] \x1b[1mapples\x1b[0m (ID: 4)\n\
         [ ] \x1b[1mmilk\x1b[0m (2) [Dairy] (ID: 1)\n\
         \nCompleted:\n\
         [\u{2713}] bread (1 loaf) (ID: 3)\n"
    );
}

#[test]
fn list_without_items_shows_its_heading_only() {
    assert_eq!(display_list_items(&list("Empty", Vec::new())), "Empty\n-----\n\n");
}

#[test]
fn list_heading_is_underlined_by_bytes() {
    assert_eq!(display_list_items(&list("Caf\u{e9}", Vec::new())), "Caf\u{e9}\n-----\n\n");
    assert_eq!(display_list_items(&list("", Vec::new())), "\n\n\n");
}

#[test]
fn list_with_completed_items_only() {
    let shown = display_list_items(&list("L", vec![item("9", "b", true), item("8", "a", true)]));
    assert_eq!(shown, "L\n-\n\n\nCompleted:\n[\u{2713}] b (ID: 9)\n[\u{2713}] a (ID: 8)\n");
}

#[test]
fn list_ignores_case_when_arranging() {
    let shown = display_list_items(&list(
        "L",
        vec![item("1", "Zebra", false), item("2", "apple", false), item("3", "Mango", false)],
    ));
    assert_eq!(
        shown,
        "L\n-\n\n[ ] \x1b[1mapple\x1b[0m (ID: 2)\n[ ] \x1b[1mMango\x1b[0m (ID: 3)\n[ ] \x1b[1mZebra\x1b[0m (ID: 1)\n"
    );
}

#[test]
fn added_item_lists_what_is_known() {
    let mut added = item("1", "Milk", false);
    assert_eq!(display_added_item(&added, "Groceries"), "Added item 'Milk' to list 'Groceries'\n");
    added.quantity = Some(String::from("2 l"));
    added.details = String::from("whole");
    added.category = Some(String::from("Dairy"));
    assert_eq!(
        display_added_item(&added, "Groceries"),
        "Added item 'Milk' to list 'Groceries'\n  Quantity: 2 l\n  Details: whole\n  Category: Dairy\n"
    );
}

#[test]
fn overview_of_no_recipes() {
    assert_eq!(display_recipe_list(&Vec::new()), "No recipes found.\n");
}

#[test]
fn overview_of_recipes_is_by_name_with_counts_and_stars() {
    let bread = recipe("zucchini bread");
    let mut pie = recipe("Apple pie");
    pie.ingredients = vec![ingredient("apples", None, None), ingredient("flour", None, None)];
    pie.preparation_steps = vec![String::from("bake")];
    pie.rating = Some(5);
    let mut banana = recipe("banana");
    banana.preparation_steps =
        vec![String::from("peel"), String::from("eat"), String::from("smile")];
    banana.rating = Some(0);
    assert_eq!(
        display_recipe_list(&vec![bread, pie, banana]),
        "\nYour Recipes:\n=============\n\n\
         \x20 \x1b[1mApple pie\x1b[0m (2 ingredients, 1 steps) \u{2605}\u{2605}\u{2605}\u{2605}\u{2605}\n\
         \x20 \x1b[1mbanana\x1b[0m (0 ingredients, 3 steps) \n\
         \x20 \x1b[1mzucchini bread\x1b[0m\n\
         \n"
    );
}

#[test]
fn ingredient_line_shows_quantity_and_note() {
    assert_eq!(display_ingredient(&ingredient("Salt", None, None)), "    \u{2022} Salt\n");
    assert_eq!(
        display_ingredient(&ingredient("Flour", Some("200g"), None)),
        "    \u{2022} Flour: 200g\n"
    );
    assert_eq!(
        display_ingredient(&ingredient("Salt", None, Some("to taste"))),
        "    \u{2022} Salt (to taste)\n"
    );
    assert_eq!(
        display_ingredient(&ingredient("Butter", Some("50g"), Some("soft"))),
        "    \u{2022} Butter: 50g (soft)\n"
    );
}

#[test]
fn recipe_in_full() {
    let mut pasta = recipe("Pasta");
    pasta.ingredients = vec![
        ingredient("Spaghetti", Some("200g"), None),
        ingredient("Salt", None, Some("to taste")),
    ];
    pasta.preparation_steps = vec![String::from("Boil water"), String::from("Cook pasta")];
    pasta.note = Some(String::from("Family favourite"));
    pasta.source_name = Some(String::from("Grandma"));
    pasta.source_url = Some(String::from("http://x"));
    pasta.servings = Some(String::from("2"));
    pasta.prep_time = Some(600);
    pasta.cook_time = Some(95);
    pasta.rating = Some(4);
    assert_eq!(
        display_recipe_detail(&pasta),
        "\n\x1b[1mPasta\x1b[0m\n=====\n\nID: r1\n\
         Rating: \u{2605}\u{2605}\u{2605}\u{2605}\n\
         Source: Grandma (http://x)\n\
         Servings: 2\n\
         Prep Time: 10 minutes\n\
         Cook Time: 1 minutes\n\
         \nNote: Family favourite\n\
         \n\x1b[1mIngredients:\x1b[0m\n\
         \x20   \u{2022} Spaghetti: 200g\n\
         \x20   \u{2022} Salt (to taste)\n\
         \n\x1b[1mPreparation:\x1b[0m\n\
         \x20 1. Boil water\n\
         \x20 2. Cook pasta\n\
         \n"
    );
}

#[test]
fn recipe_in_full_leaves_out_what_is_not_known() {
    assert_eq!(display_recipe_detail(&recipe("Tea")), "\n\x1b[1mTea\x1b[0m\n===\n\nID: r1\n\n");
}

#[test]
fn recipe_source_address_needs_a_source_name() {
    let mut tea = recipe("Tea");
    tea.source_url = Some(String::from("http://tea"));
    assert_eq!(display_recipe_detail(&tea), "\n\x1b[1mTea\x1b[0m\n===\n\nID: r1\n\n");
    tea.source_name = Some(String::from("Book"));
    tea.source_url = None;
    assert_eq!(
        display_recipe_detail(&tea),
        "\n\x1b[1mTea\x1b[0m\n===\n\nID: r1\nSource: Book\n\n"
    );
}

#[test]
fn recipe_times_round_toward_zero() {
    let mut tea = recipe("Tea");
    tea.prep_time = Some(59);
    tea.cook_time = Some(-61);
    assert_eq!(
        display_recipe_detail(&tea),
        "\n\x1b[1mTea\x1b[0m\n===\n\nID: r1\nPrep Time: 0 minutes\nCook Time: -1 minutes\n\n"
    );
}

#[test]
fn recipe_steps_are_numbered_past_nine() {
    let mut long = recipe("Long");
    long.preparation_steps = (0..11).map(|_| String::from("stir")).collect();
    let shown = display_recipe_detail(&long);
    assert!(shown.contains("  9. stir\n  10. stir\n  11. stir\n\n"));
    assert!(shown.starts_with("\n\x1b[1mLong\x1b[0m\n====\n\nID: r1\n\n\x1b[1mPreparation:\x1b[0m\n  1. stir\n"));
}

fn event(id: &str, date: &str) -> MealPlanEvent {
    MealPlanEvent {
        id: String::from(id),
        date: String::from(date),
        title: None,
        recipe_id: None,
        label_id: None,
        details: None,
    }
}

#[test]
fn listing_of_no_events() {
    assert_eq!(
        display_meal_plan_events(&Vec::new(), "2024-01-01", "2024-01-07"),
        "No meal plan events found in this date range.\n"
    );
}

#[test]
fn listing_of_events_shows_what_is_known() {
    let mut dinner = event("e1", "2024-01-02");
    dinner.title = Some(String::from("Dinner"));
    dinner.recipe_id = Some(String::from("r9"));
    dinner.label_id = Some(String::from("l3"));
    dinner.details = Some(String::from("with guests"));
    let plain = event("e2", "2024-01-03");
    assert_eq!(
        display_meal_plan_events(&vec![dinner, plain], "2024-01-01", "2024-01-07"),
        "Meal plan events (2024-01-01 to 2024-01-07):\n\n\
         Date: 2024-01-02\n  Title: Dinner\n  Recipe ID: r9\n  Label ID: l3\n  Details: with guests\n  Event ID: e1\n\n\
         Date: 2024-01-03\n  Event ID: e2\n\n"
    );
}

#[test]
fn created_event_shows_title_and_recipe() {
    let mut created = event("e1", "2024-02-01");
    assert_eq!(display_created_event(&created), "Created meal plan event for 2024-02-01\n");
    created.title = Some(String::from("Lunch"));
    created.recipe_id = Some(String::from("r2"));
    created.label_id = Some(String::from("ignored"));
    assert_eq!(
        display_created_event(&created),
        "Created meal plan event for 2024-02-01\n  Title: Lunch\n  Recipe ID: r2\n"
    );
}
