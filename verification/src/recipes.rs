//! Recipes, and what the commands show of them.

use crate::order::{indices_of, lowercase, lowercased, sort_order, sorted_order, texts_of};
use crate::text::{
    append_bracketed, arranged, bracketed, decimal, decimal_text, joined, lemma_joined_next,
    optional_text, quotient, repeat, repeated, signed_decimal, signed_decimal_text,
    truncated_quotient,
};
use vstd::prelude::*;
use vstd::string::StringExecFns;
use vstd::utf8::encode_utf8;

verus! {

/// Width of the rule under the heading of the recipe overview.
pub const OVERVIEW_RULE_WIDTH: usize = 13;

/// Seconds in a minute.
pub const SECONDS_PER_MINUTE: i32 = 60;

/// Something that goes into a recipe.
#[derive(Clone, Debug, PartialEq, Eq)]
pub struct Ingredient {
    pub name: String,
    pub quantity: Option<String>,
    pub note: Option<String>,
}

/// A recipe. Times are in seconds; the rating counts stars.
#[derive(Clone, Debug, PartialEq, Eq)]
pub struct Recipe {
    pub id: String,
    pub name: String,
    pub ingredients: Vec<Ingredient>,
    pub preparation_steps: Vec<String>,
    pub note: Option<String>,
    pub source_name: Option<String>,
    pub source_url: Option<String>,
    pub servings: Option<String>,
    pub prep_time: Option<i32>,
    pub cook_time: Option<i32>,
    pub rating: Option<u32>,
}

/// Mathematical content of an [`Ingredient`].
pub struct IngredientView {
    pub name: Seq<char>,
    pub quantity: Option<Seq<char>>,
    pub note: Option<Seq<char>>,
}

/// Mathematical content of a [`Recipe`].
pub struct RecipeView {
    pub id: Seq<char>,
    pub name: Seq<char>,
    pub ingredients: Seq<IngredientView>,
    pub preparation_steps: Seq<Seq<char>>,
    pub note: Option<Seq<char>>,
    pub source_name: Option<Seq<char>>,
    pub source_url: Option<Seq<char>>,
    pub servings: Option<Seq<char>>,
    pub prep_time: Option<int>,
    pub cook_time: Option<int>,
    pub rating: Option<nat>,
}

impl View for Ingredient {
    type V = IngredientView;

    open spec fn view(&self) -> IngredientView {
        IngredientView {
            name: self.name@,
            quantity: optional_text(self.quantity),
            note: optional_text(self.note),
        }
    }
}

/// The contents of the ingredients of a vector, in order.
pub open spec fn ingredient_views(ingredients: Seq<Ingredient>) -> Seq<IngredientView> {
    ingredients.map_values(|ingredient: Ingredient| ingredient@)
}

/// A time that may be absent, as a number.
pub open spec fn optional_time(value: Option<i32>) -> Option<int> {
    match value {
        Some(seconds) => Some(seconds as int),
        None => None,
    }
}

/// A rating that may be absent, as a number.
pub open spec fn optional_rating(value: Option<u32>) -> Option<nat> {
    match value {
        Some(stars) => Some(stars as nat),
        None => None,
    }
}

impl View for Recipe {
    type V = RecipeView;

    open spec fn view(&self) -> RecipeView {
        RecipeView {
            id: self.id@,
            name: self.name@,
            ingredients: ingredient_views(self.ingredients@),
            preparation_steps: texts_of(self.preparation_steps@),
            note: optional_text(self.note),
            source_name: optional_text(self.source_name),
            source_url: optional_text(self.source_url),
            servings: optional_text(self.servings),
            prep_time: optional_time(self.prep_time),
            cook_time: optional_time(self.cook_time),
            rating: optional_rating(self.rating),
        }
    }
}

/// The contents of the recipes of a vector, in order.
pub open spec fn recipe_views(recipes: Seq<Recipe>) -> Seq<RecipeView> {
    recipes.map_values(|recipe: Recipe| recipe@)
}

/// As many stars as the rating counts.
pub open spec fn stars_text(stars: nat) -> Seq<char> {
    repeated("\u{2605}"@, stars)
}

/// The counts of ingredients and steps, where there is any of either.
pub open spec fn counts_text(ingredients: nat, steps: nat) -> Seq<char> {
    if ingredients > 0 || steps > 0 {
        " ("@ + decimal_text(ingredients) + " ingredients, "@ + decimal_text(steps) + " steps)"@
    } else {
        Seq::empty()
    }
}

/// The stars of a rating after a blank, or nothing where there is no
/// rating.
pub open spec fn rating_suffix(rating: Option<nat>) -> Seq<char> {
    match rating {
        Some(stars) => " "@ + stars_text(stars),
        None => Seq::empty(),
    }
}

/// The line of a recipe in the overview: its name in bold, its counts, its
/// stars.
pub open spec fn recipe_line(recipe: RecipeView) -> Seq<char> {
    "  \x1B[1m"@ + recipe.name + "\x1B[0m"@ + counts_text(
        recipe.ingredients.len(),
        recipe.preparation_steps.len(),
    ) + rating_suffix(recipe.rating) + "\n"@
}

/// The keys by which recipes are arranged: their names in lowercase.
pub open spec fn recipe_keys(recipes: Seq<RecipeView>) -> Seq<Seq<char>> {
    recipes.map_values(|recipe: RecipeView| lowercased(recipe.name))
}

/// The lines of the recipes, arranged by name without regard to case.
pub open spec fn recipe_lines(recipes: Seq<RecipeView>) -> Seq<Seq<char>> {
    arranged(recipes, sorted_order(recipe_keys(recipes))).map_values(
        |recipe: RecipeView| recipe_line(recipe),
    )
}

/// The overview of recipes: a heading, then one line each, by name.
pub open spec fn recipe_list_text(recipes: Seq<RecipeView>) -> Seq<char> {
    if recipes.len() == 0 {
        "No recipes found.\n"@
    } else {
        "\nYour Recipes:\n"@ + repeated("="@, OVERVIEW_RULE_WIDTH as nat) + "\n\n"@ + joined(
            recipe_lines(recipes),
        ) + "\n"@
    }
}

/// The line of an ingredient: its name, its quantity after a colon, its
/// note in parentheses.
pub open spec fn ingredient_line(ingredient: IngredientView) -> Seq<char> {
    "    \u{2022} "@ + ingredient.name + bracketed(": "@, ingredient.quantity, ""@) + bracketed(
        " ("@,
        ingredient.note,
        ")"@,
    ) + "\n"@
}

/// The line of a rating, or nothing where there is none.
pub open spec fn rating_section(rating: Option<nat>) -> Seq<char> {
    match rating {
        Some(stars) => "Rating: "@ + stars_text(stars) + "\n"@,
        None => Seq::empty(),
    }
}

/// The line of the source, with its address in parentheses where it has
/// one; nothing where no source is named.
pub open spec fn source_section(name: Option<Seq<char>>, url: Option<Seq<char>>) -> Seq<char> {
    match name {
        Some(source) => "Source: "@ + source + bracketed(" ("@, url, ")"@) + "\n"@,
        None => Seq::empty(),
    }
}

/// The line of a time, in whole minutes, or nothing where there is none.
pub open spec fn time_section(label: Seq<char>, seconds: Option<int>) -> Seq<char> {
    match seconds {
        Some(value) => label + signed_decimal_text(
            truncated_quotient(value, SECONDS_PER_MINUTE as int),
        ) + " minutes\n"@,
        None => Seq::empty(),
    }
}

/// The lines of the ingredients under their heading, or nothing where
/// there are none.
pub open spec fn ingredients_section(ingredients: Seq<IngredientView>) -> Seq<char> {
    if ingredients.len() == 0 {
        Seq::empty()
    } else {
        "\n\x1B[1mIngredients:\x1B[0m\n"@ + joined(
            ingredients.map_values(|ingredient: IngredientView| ingredient_line(ingredient)),
        )
    }
}

/// The line of a step, numbered from one.
pub open spec fn step_line(index: int, step: Seq<char>) -> Seq<char> {
    "  "@ + decimal_text((index + 1) as nat) + ". "@ + step + "\n"@
}

/// The lines of the steps under their heading, or nothing where there are
/// none.
pub open spec fn steps_section(steps: Seq<Seq<char>>) -> Seq<char> {
    if steps.len() == 0 {
        Seq::empty()
    } else {
        "\n\x1B[1mPreparation:\x1B[0m\n"@ + joined(
            steps.map(|index: int, step: Seq<char>| step_line(index, step)),
        )
    }
}

/// The heading of a recipe shown in full: its name in bold, underlined by
/// as many marks as the name has bytes, and its id.
pub open spec fn detail_heading(recipe: RecipeView) -> Seq<char> {
    "\n\x1B[1m"@ + recipe.name + "\x1B[0m\n"@ + repeated("="@, encode_utf8(recipe.name).len())
        + "\n\n"@ + "ID: "@ + recipe.id + "\n"@
}

/// A recipe in full: heading, then what is known of it, each part on its
/// own line and left out where it is not known, then ingredients and steps.
pub open spec fn recipe_detail_text(recipe: RecipeView) -> Seq<char> {
    detail_heading(recipe) + rating_section(recipe.rating) + source_section(
        recipe.source_name,
        recipe.source_url,
    ) + bracketed("Servings: "@, recipe.servings, "\n"@) + time_section(
        "Prep Time: "@,
        recipe.prep_time,
    ) + time_section("Cook Time: "@, recipe.cook_time) + bracketed(
        "\nNote: "@,
        recipe.note,
        "\n"@,
    ) + ingredients_section(recipe.ingredients) + steps_section(recipe.preparation_steps) + "\n"@
}

/// As many stars as the rating counts.
fn stars(rating: u32) -> (result: String)
    ensures
        result@ == stars_text(rating as nat),
{
    repeat("\u{2605}", rating as usize)
}

/// The line of a recipe in the overview.
fn recipe_summary(recipe: &Recipe) -> (result: String)
    ensures
        result@ == recipe_line(recipe@),
{
    let ingredient_count = recipe.ingredients.len();
    let step_count = recipe.preparation_steps.len();
    let mut out = String::from_str("  \x1B[1m");
    out.append(recipe.name.as_str());
    out.append("\x1B[0m");
    let ghost named = out@;
    if ingredient_count > 0 || step_count > 0 {
        out.append(" (");
        out.append(decimal(ingredient_count as u64).as_str());
        out.append(" ingredients, ");
        out.append(decimal(step_count as u64).as_str());
        out.append(" steps)");
    }
    proof {
        assert(recipe@.ingredients.len() == ingredient_count);
        assert(recipe@.preparation_steps.len() == step_count);
        assert(out@ =~= named + counts_text(ingredient_count as nat, step_count as nat));
    }
    let ghost counted = out@;
    match recipe.rating {
        Some(rating) => {
            out.append(" ");
            out.append(stars(rating).as_str());
        },
        None => {},
    }
    proof {
        assert(out@ =~= counted + rating_suffix(recipe@.rating));
    }
    out.append("\n");
    out
}

/// The overview of recipes.
pub fn display_recipe_list(recipes: &Vec<Recipe>) -> (result: String)
    ensures
        result@ == recipe_list_text(recipe_views(recipes@)),
{
    if recipes.len() == 0 {
        return String::from_str("No recipes found.\n");
    }
    let ghost views = recipe_views(recipes@);
    let ghost lines = recipe_lines(views);
    let mut keys: Vec<String> = Vec::new();
    let mut index: usize = 0;
    while index < recipes.len()
        invariant
            index <= recipes.len(),
            views == recipe_views(recipes@),
            keys@.len() == index,
            forall|k: int| 0 <= k < index ==> (#[trigger] keys@[k])@ == recipe_keys(views)[k],
        decreases recipes.len() - index,
    {
        let key = lowercase(recipes[index].name.as_str());
        proof {
            assert(recipe_keys(views)[index as int] == lowercased(recipes@[index as int]@.name));
        }
        keys.push(key);
        index = index + 1;
    }
    proof {
        assert(texts_of(keys@) =~= recipe_keys(views));
    }
    let order = sort_order(&keys);

    let mut out = String::from_str("\nYour Recipes:\n");
    out.append(repeat("=", OVERVIEW_RULE_WIDTH).as_str());
    out.append("\n\n");
    let ghost heading = out@;
    let mut index: usize = 0;
    proof {
        assert(out@ =~= heading + joined(lines.take(0)));
    }
    while index < order.len()
        invariant
            index <= order.len(),
            views == recipe_views(recipes@),
            lines == recipe_lines(views),
            indices_of(order@) == sorted_order(recipe_keys(views)),
            order@.len() == recipes@.len(),
            forall|k: int| 0 <= k < order@.len() ==> (#[trigger] order@[k]) < recipes@.len(),
            out@ == heading + joined(lines.take(index as int)),
        decreases order.len() - index,
    {
        let recipe = &recipes[order[index]];
        let line = recipe_summary(recipe);
        out.append(line.as_str());
        proof {
            lemma_joined_next(lines, index as int);
            let at = indices_of(order@)[index as int];
            assert(at == order@[index as int] as int);
            assert(views[at] == recipe@);
            assert(lines[index as int] == recipe_line(recipe@));
            assert(out@ =~= heading + joined(lines.take(index + 1)));
        }
        index = index + 1;
    }
    proof {
        assert(lines.take(index as int) =~= lines);
    }
    out.append("\n");
    proof {
        assert(out@ =~= recipe_list_text(views));
    }
    out
}

/// The line of an ingredient.
pub fn display_ingredient(ingredient: &Ingredient) -> (result: String)
    ensures
        result@ == ingredient_line(ingredient@),
{
    let mut out = String::from_str("    \u{2022} ");
    out.append(ingredient.name.as_str());
    append_bracketed(&mut out, ": ", &ingredient.quantity, "");
    append_bracketed(&mut out, " (", &ingredient.note, ")");
    out.append("\n");
    out
}

/// Appends the line of a time.
fn append_time(out: &mut String, label: &str, seconds: Option<i32>)
    ensures
        final(out)@ == old(out)@ + time_section(label@, optional_time(seconds)),
{
    match seconds {
        Some(value) => {
            let minutes = quotient(value, SECONDS_PER_MINUTE);
            out.append(label);
            out.append(signed_decimal(minutes as i64).as_str());
            out.append(" minutes\n");
            proof {
                assert(out@ =~= old(out)@ + time_section(label@, Some(value as int)));
            }
        },
        None => {
            proof {
                assert(out@ =~= old(out)@ + Seq::<char>::empty());
            }
        },
    }
}

/// Appends the line of a rating.
fn append_rating(out: &mut String, rating: Option<u32>)
    ensures
        final(out)@ == old(out)@ + rating_section(optional_rating(rating)),
{
    match rating {
        Some(value) => {
            out.append("Rating: ");
            out.append(stars(value).as_str());
            out.append("\n");
            proof {
                assert(out@ =~= old(out)@ + rating_section(Some(value as nat)));
            }
        },
        None => {
            proof {
                assert(out@ =~= old(out)@ + Seq::<char>::empty());
            }
        },
    }
}

/// Appends the line of the source.
fn append_source(out: &mut String, name: &Option<String>, url: &Option<String>)
    ensures
        final(out)@ == old(out)@ + source_section(optional_text(*name), optional_text(*url)),
{
    match name {
        Some(source) => {
            out.append("Source: ");
            out.append(source.as_str());
            append_bracketed(out, " (", url, ")");
            out.append("\n");
            proof {
                assert(out@ =~= old(out)@ + source_section(Some(source@), optional_text(*url)));
            }
        },
        None => {
            proof {
                assert(out@ =~= old(out)@ + Seq::<char>::empty());
            }
        },
    }
}

/// Appends the ingredients under their heading.
fn append_ingredients(out: &mut String, ingredients: &Vec<Ingredient>)
    ensures
        final(out)@ == old(out)@ + ingredients_section(ingredient_views(ingredients@)),
{
    if ingredients.len() == 0 {
        proof {
            assert(out@ =~= old(out)@ + Seq::<char>::empty());
        }
        return ;
    }
    let ghost views = ingredient_views(ingredients@);
    let ghost lines = views.map_values(|ingredient: IngredientView| ingredient_line(ingredient));
    let ghost heading = "\n\x1B[1mIngredients:\x1B[0m\n"@;
    out.append("\n\x1B[1mIngredients:\x1B[0m\n");
    let mut index: usize = 0;
    proof {
        assert(out@ =~= old(out)@ + (heading + joined(lines.take(0))));
    }
    while index < ingredients.len()
        invariant
            index <= ingredients.len(),
            views == ingredient_views(ingredients@),
            lines == views.map_values(|ingredient: IngredientView| ingredient_line(ingredient)),
            heading == "\n\x1B[1mIngredients:\x1B[0m\n"@,
            out@ == old(out)@ + (heading + joined(lines.take(index as int))),
        decreases ingredients.len() - index,
    {
        let line = display_ingredient(&ingredients[index]);
        out.append(line.as_str());
        proof {
            lemma_joined_next(lines, index as int);
            assert(lines[index as int] == ingredient_line(ingredients@[index as int]@));
            assert(out@ =~= old(out)@ + (heading + joined(lines.take(index + 1))));
        }
        index = index + 1;
    }
    proof {
        assert(lines.take(index as int) =~= lines);
    }
}

/// Appends the steps under their heading.
fn append_steps(out: &mut String, steps: &Vec<String>)
    ensures
        final(out)@ == old(out)@ + steps_section(texts_of(steps@)),
{
    if steps.len() == 0 {
        proof {
            assert(out@ =~= old(out)@ + Seq::<char>::empty());
        }
        return ;
    }
    let ghost texts = texts_of(steps@);
    let ghost lines = texts.map(|index: int, step: Seq<char>| step_line(index, step));
    let ghost heading = "\n\x1B[1mPreparation:\x1B[0m\n"@;
    out.append("\n\x1B[1mPreparation:\x1B[0m\n");
    let mut index: usize = 0;
    proof {
        assert(out@ =~= old(out)@ + (heading + joined(lines.take(0))));
    }
    while index < steps.len()
        invariant
            index <= steps.len(),
            texts == texts_of(steps@),
            lines == texts.map(|index: int, step: Seq<char>| step_line(index, step)),
            heading == "\n\x1B[1mPreparation:\x1B[0m\n"@,
            out@ == old(out)@ + (heading + joined(lines.take(index as int))),
        decreases steps.len() - index,
    {
        let ghost before = out@;
        out.append("  ");
        out.append(decimal((index + 1) as u64).as_str());
        out.append(". ");
        out.append(steps[index].as_str());
        out.append("\n");
        proof {
            lemma_joined_next(lines, index as int);
            assert(lines[index as int] == step_line(index as int, steps@[index as int]@));
            assert(out@ =~= before + step_line(index as int, steps@[index as int]@));
            assert(out@ =~= old(out)@ + (heading + joined(lines.take(index + 1))));
        }
        index = index + 1;
    }
    proof {
        assert(lines.take(index as int) =~= lines);
    }
}

/// A recipe in full.
pub fn display_recipe_detail(recipe: &Recipe) -> (result: String)
    ensures
        result@ == recipe_detail_text(recipe@),
{
    let mut out = String::from_str("\n\x1B[1m");
    out.append(recipe.name.as_str());
    out.append("\x1B[0m\n");
    let width = recipe.name.as_str().as_bytes().len();
    out.append(repeat("=", width).as_str());
    out.append("\n\n");
    out.append("ID: ");
    out.append(recipe.id.as_str());
    out.append("\n");
    proof {
        assert(out@ =~= detail_heading(recipe@));
    }
    append_rating(&mut out, recipe.rating);
    append_source(&mut out, &recipe.source_name, &recipe.source_url);
    append_bracketed(&mut out, "Servings: ", &recipe.servings, "\n");
    append_time(&mut out, "Prep Time: ", recipe.prep_time);
    append_time(&mut out, "Cook Time: ", recipe.cook_time);
    append_bracketed(&mut out, "\nNote: ", &recipe.note, "\n");
    append_ingredients(&mut out, &recipe.ingredients);
    append_steps(&mut out, &recipe.preparation_steps);
    out.append("\n");
    out
}

} // verus!
