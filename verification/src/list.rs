//! Shopping lists, and what the commands show of them.
//!
//! Each function returns the text in full; writing it out is the caller's
//! business.

use crate::order::{indices_of, lowercase, lowercased, sort_order, sorted_order, texts_of};
use crate::text::{
    append_bracketed, arranged, bracketed, decimal, decimal_text, joined, lemma_joined_next,
    optional_text, repeat, repeated,
};
use vstd::prelude::*;
use vstd::string::StringExecFns;
use vstd::utf8::encode_utf8;

verus! {

/// An entry of a shopping list.
#[derive(Clone, Debug, PartialEq, Eq)]
pub struct ListItem {
    pub id: String,
    pub name: String,
    pub details: String,
    pub is_checked: bool,
    pub quantity: Option<String>,
    pub category: Option<String>,
}

/// A shopping list.
#[derive(Clone, Debug, PartialEq, Eq)]
pub struct List {
    pub id: String,
    pub name: String,
    pub items: Vec<ListItem>,
}

/// Mathematical content of a [`ListItem`].
pub struct ListItemView {
    pub id: Seq<char>,
    pub name: Seq<char>,
    pub details: Seq<char>,
    pub is_checked: bool,
    pub quantity: Option<Seq<char>>,
    pub category: Option<Seq<char>>,
}

/// Mathematical content of a [`List`].
pub struct ListView {
    pub id: Seq<char>,
    pub name: Seq<char>,
    pub items: Seq<ListItemView>,
}

impl View for ListItem {
    type V = ListItemView;

    open spec fn view(&self) -> ListItemView {
        ListItemView {
            id: self.id@,
            name: self.name@,
            details: self.details@,
            is_checked: self.is_checked,
            quantity: optional_text(self.quantity),
            category: optional_text(self.category),
        }
    }
}

/// The contents of the items of a vector, in order.
pub open spec fn item_views(items: Seq<ListItem>) -> Seq<ListItemView> {
    items.map_values(|item: ListItem| item@)
}

impl View for List {
    type V = ListView;

    open spec fn view(&self) -> ListView {
        ListView { id: self.id@, name: self.name@, items: item_views(self.items@) }
    }
}

/// The contents of the lists of a vector, in order.
pub open spec fn list_views(lists: Seq<List>) -> Seq<ListView> {
    lists.map_values(|list: List| list@)
}

/// The line of a list in the overview of lists.
pub open spec fn list_name_line(list: ListView) -> Seq<char> {
    "  "@ + list.name + " ("@ + decimal_text(list.items.len()) + " items) - ID: "@ + list.id
        + "\n"@
}

/// The overview of lists: one line each, in the order given.
pub open spec fn lists_names_text(lists: Seq<ListView>) -> Seq<char> {
    if lists.len() == 0 {
        "No lists found.\n"@
    } else {
        "Your lists:\n"@ + joined(lists.map_values(|list: ListView| list_name_line(list)))
    }
}

/// The line of an item that is still open: its name in bold, then what is
/// known of it, then its id.
pub open spec fn open_item_line(item: ListItemView) -> Seq<char> {
    "[ ] \x1B[1m"@ + item.name + "\x1B[0m"@ + bracketed(" ("@, item.quantity, ")"@)
        + (if item.details.len() > 0 {
        " - "@ + item.details
    } else {
        Seq::empty()
    }) + bracketed(" ["@, item.category, "]"@) + " (ID: "@ + item.id + ")\n"@
}

/// The line of an item that is checked off.
pub open spec fn done_item_line(item: ListItemView) -> Seq<char> {
    "[\u{2713}] "@ + item.name + bracketed(" ("@, item.quantity, ")"@) + " (ID: "@ + item.id
        + ")\n"@
}

/// What is said of an item that has just been added to a list: where it
/// went, then what is known of it, one line each.
pub open spec fn added_item_text(item: ListItemView, list_name: Seq<char>) -> Seq<char> {
    "Added item '"@ + item.name + "' to list '"@ + list_name + "'\n"@ + bracketed(
        "  Quantity: "@,
        item.quantity,
        "\n"@,
    ) + (if item.details.len() > 0 {
        "  Details: "@ + item.details + "\n"@
    } else {
        Seq::empty()
    }) + bracketed("  Category: "@, item.category, "\n"@)
}

/// The items that are checked off, or those that are not, in the order of
/// the list.
pub open spec fn items_marked(items: Seq<ListItemView>, checked: bool) -> Seq<ListItemView> {
    items.filter(|item: ListItemView| item.is_checked == checked)
}

/// The keys by which items are arranged: their names in lowercase.
pub open spec fn item_keys(items: Seq<ListItemView>) -> Seq<Seq<char>> {
    items.map_values(|item: ListItemView| lowercased(item.name))
}

/// The lines of the open items, arranged by name without regard to case.
pub open spec fn open_items_text(items: Seq<ListItemView>) -> Seq<char> {
    let open = items_marked(items, false);
    joined(
        arranged(open, sorted_order(item_keys(open))).map_values(
            |item: ListItemView| open_item_line(item),
        ),
    )
}

/// The section of the items that are checked off, in the order of the list;
/// nothing where there are none.
pub open spec fn done_items_text(items: Seq<ListItemView>) -> Seq<char> {
    let done = items_marked(items, true);
    if done.len() == 0 {
        Seq::empty()
    } else {
        "\nCompleted:\n"@ + joined(done.map_values(|item: ListItemView| done_item_line(item)))
    }
}

/// A list in full: its name, underlined by as many dashes as the name has
/// bytes, the open items by name, then the items checked off.
pub open spec fn list_items_text(list: ListView) -> Seq<char> {
    list.name + "\n"@ + repeated("-"@, encode_utf8(list.name).len()) + "\n\n"@ + open_items_text(
        list.items,
    ) + done_items_text(list.items)
}

/// The line of an item that is still open.
fn open_item(item: &ListItem) -> (result: String)
    ensures
        result@ == open_item_line(item@),
{
    let mut out = String::from_str("[ ] \x1B[1m");
    out.append(item.name.as_str());
    out.append("\x1B[0m");
    append_bracketed(&mut out, " (", &item.quantity, ")");
    let ghost before_details = out@;
    if !item.details.as_str().is_empty() {
        out.append(" - ");
        out.append(item.details.as_str());
    }
    proof {
        let details = if item@.details.len() > 0 {
            " - "@ + item@.details
        } else {
            Seq::<char>::empty()
        };
        assert(out@ =~= before_details + details);
    }
    append_bracketed(&mut out, " [", &item.category, "]");
    out.append(" (ID: ");
    out.append(item.id.as_str());
    out.append(")\n");
    out
}

/// The line of an item that is checked off.
fn done_item(item: &ListItem) -> (result: String)
    ensures
        result@ == done_item_line(item@),
{
    let mut out = String::from_str("[\u{2713}] ");
    out.append(item.name.as_str());
    append_bracketed(&mut out, " (", &item.quantity, ")");
    out.append(" (ID: ");
    out.append(item.id.as_str());
    out.append(")\n");
    out
}

/// What is said of an item that has just been added to a list.
pub fn display_added_item(item: &ListItem, list_name: &str) -> (result: String)
    ensures
        result@ == added_item_text(item@, list_name@),
{
    let mut out = String::from_str("Added item '");
    out.append(item.name.as_str());
    out.append("' to list '");
    out.append(list_name);
    out.append("'\n");
    append_bracketed(&mut out, "  Quantity: ", &item.quantity, "\n");
    let ghost before_details = out@;
    if !item.details.as_str().is_empty() {
        out.append("  Details: ");
        out.append(item.details.as_str());
        out.append("\n");
    }
    proof {
        let details = if item@.details.len() > 0 {
            "  Details: "@ + item@.details + "\n"@
        } else {
            Seq::<char>::empty()
        };
        assert(out@ =~= before_details + details);
    }
    append_bracketed(&mut out, "  Category: ", &item.category, "\n");
    out
}

/// The line of a list in the overview of lists.
fn list_name(list: &List) -> (result: String)
    ensures
        result@ == list_name_line(list@),
{
    let mut out = String::from_str("  ");
    out.append(list.name.as_str());
    out.append(" (");
    out.append(decimal(list.items.len() as u64).as_str());
    out.append(" items) - ID: ");
    out.append(list.id.as_str());
    out.append("\n");
    out
}

/// The overview of lists.
pub fn display_lists_names(lists: &Vec<List>) -> (result: String)
    ensures
        result@ == lists_names_text(list_views(lists@)),
{
    if lists.len() == 0 {
        return String::from_str("No lists found.\n");
    }
    let ghost lines = list_views(lists@).map_values(|list: ListView| list_name_line(list));
    let mut out = String::from_str("Your lists:\n");
    let mut index: usize = 0;
    proof {
        assert(out@ =~= "Your lists:\n"@ + joined(lines.take(0)));
    }
    while index < lists.len()
        invariant
            index <= lists.len(),
            lines == list_views(lists@).map_values(|list: ListView| list_name_line(list)),
            out@ == "Your lists:\n"@ + joined(lines.take(index as int)),
        decreases lists.len() - index,
    {
        let line = list_name(&lists[index]);
        out.append(line.as_str());
        proof {
            lemma_joined_next(lines, index as int);
            assert(lines[index as int] == list_name_line(lists@[index as int]@));
            assert(out@ =~= "Your lists:\n"@ + joined(lines.take(index + 1)));
        }
        index = index + 1;
    }
    proof {
        assert(lines.take(index as int) =~= lines);
    }
    out
}

/// The indices of the items that are checked off, or of those that are
/// not, in ascending order.
fn marked_indices(items: &Vec<ListItem>, checked: bool) -> (result: Vec<usize>)
    ensures
        forall|k: int| 0 <= k < result@.len() ==> (#[trigger] result@[k]) < items@.len(),
        arranged(item_views(items@), indices_of(result@)) == items_marked(
            item_views(items@),
            checked,
        ),
{
    let ghost views = item_views(items@);
    let mut picked: Vec<usize> = Vec::new();
    let mut index: usize = 0;
    proof {
        reveal(Seq::filter);
        assert(views.take(0) =~= Seq::<ListItemView>::empty());
        assert(arranged(views, indices_of(picked@)) =~= items_marked(views.take(0), checked));
    }
    while index < items.len()
        invariant
            index <= items.len(),
            views == item_views(items@),
            forall|k: int| 0 <= k < picked@.len() ==> (#[trigger] picked@[k]) < index,
            arranged(views, indices_of(picked@)) == items_marked(
                views.take(index as int),
                checked,
            ),
        decreases items.len() - index,
    {
        let ghost before = indices_of(picked@);
        proof {
            reveal(Seq::filter);
            assert(views.take(index + 1).drop_last() =~= views.take(index as int));
            assert(views.take(index + 1).last() == views[index as int]);
            assert(views[index as int] == items@[index as int]@);
        }
        if items[index].is_checked == checked {
            picked.push(index);
            proof {
                assert(indices_of(picked@) =~= before.push(index as int));
                assert(arranged(views, before.push(index as int)) =~= arranged(
                    views,
                    before,
                ).push(views[index as int]));
            }
        }
        index = index + 1;
    }
    proof {
        assert(views.take(index as int) =~= views);
    }
    picked
}

/// The lowercase names of the items that `picked` points at.
fn lowercase_names(items: &Vec<ListItem>, picked: &Vec<usize>) -> (result: Vec<String>)
    requires
        forall|k: int| 0 <= k < picked@.len() ==> (#[trigger] picked@[k]) < items@.len(),
    ensures
        texts_of(result@) == item_keys(arranged(item_views(items@), indices_of(picked@))),
{
    let ghost wanted = item_keys(arranged(item_views(items@), indices_of(picked@)));
    let mut keys: Vec<String> = Vec::new();
    let mut index: usize = 0;
    while index < picked.len()
        invariant
            index <= picked.len(),
            wanted == item_keys(arranged(item_views(items@), indices_of(picked@))),
            forall|k: int| 0 <= k < picked@.len() ==> (#[trigger] picked@[k]) < items@.len(),
            keys@.len() == index,
            forall|k: int| 0 <= k < index ==> (#[trigger] keys@[k])@ == wanted[k],
        decreases picked.len() - index,
    {
        let key = lowercase(items[picked[index]].name.as_str());
        proof {
            assert(wanted[index as int] == lowercased(items@[picked@[index as int] as int]@.name));
        }
        keys.push(key);
        index = index + 1;
    }
    proof {
        assert(texts_of(keys@) =~= wanted);
    }
    keys
}

/// A list in full.
pub fn display_list_items(list: &List) -> (result: String)
    ensures
        result@ == list_items_text(list@),
{
    let ghost views = item_views(list.items@);
    let mut out = String::from_str(list.name.as_str());
    out.append("\n");
    let width = list.name.as_str().as_bytes().len();
    out.append(repeat("-", width).as_str());
    out.append("\n\n");
    let ghost heading = out@;
    proof {
        assert(width as nat == encode_utf8(list.name@).len());
        assert(heading =~= list.name@ + "\n"@ + repeated("-"@, encode_utf8(list.name@).len())
            + "\n\n"@);
    }

    let open = marked_indices(&list.items, false);
    let keys = lowercase_names(&list.items, &open);
    let order = sort_order(&keys);
    let ghost open_views = items_marked(views, false);
    let ghost open_lines = arranged(open_views, sorted_order(item_keys(open_views))).map_values(
        |item: ListItemView| open_item_line(item),
    );
    let mut index: usize = 0;
    proof {
        assert(out@ =~= heading + joined(open_lines.take(0)));
    }
    while index < order.len()
        invariant
            index <= order.len(),
            views == item_views(list.items@),
            open_views == items_marked(views, false),
            open_views == arranged(views, indices_of(open@)),
            open_lines == arranged(open_views, sorted_order(item_keys(open_views))).map_values(
                |item: ListItemView| open_item_line(item),
            ),
            indices_of(order@) == sorted_order(item_keys(open_views)),
            order@.len() == open@.len(),
            forall|k: int| 0 <= k < order@.len() ==> (#[trigger] order@[k]) < open@.len(),
            forall|k: int| 0 <= k < open@.len() ==> (#[trigger] open@[k]) < list.items@.len(),
            out@ == heading + joined(open_lines.take(index as int)),
        decreases order.len() - index,
    {
        let item = &list.items[open[order[index]]];
        let line = open_item(item);
        out.append(line.as_str());
        proof {
            lemma_joined_next(open_lines, index as int);
            let at = indices_of(order@)[index as int];
            assert(at == order@[index as int] as int);
            assert(open_views[at] == views[indices_of(open@)[at]]);
            assert(views[open@[at] as int] == item@);
            assert(open_lines[index as int] == open_item_line(item@));
            assert(out@ =~= heading + joined(open_lines.take(index + 1)));
        }
        index = index + 1;
    }
    proof {
        assert(open_lines.take(index as int) =~= open_lines);
        assert(out@ == heading + open_items_text(views));
    }
    let ghost upper = out@;

    let done = marked_indices(&list.items, true);
    if done.len() > 0 {
        let ghost done_views = items_marked(views, true);
        let ghost done_lines = done_views.map_values(|item: ListItemView| done_item_line(item));
        out.append("\nCompleted:\n");
        let mut index: usize = 0;
        proof {
            assert(out@ =~= upper + ("\nCompleted:\n"@ + joined(done_lines.take(0))));
        }
        while index < done.len()
            invariant
                index <= done.len(),
                views == item_views(list.items@),
                done_views == items_marked(views, true),
                done_views == arranged(views, indices_of(done@)),
                done_lines == done_views.map_values(|item: ListItemView| done_item_line(item)),
                forall|k: int| 0 <= k < done@.len() ==> (#[trigger] done@[k]) < list.items@.len(),
                out@ == upper + ("\nCompleted:\n"@ + joined(done_lines.take(index as int))),
            decreases done.len() - index,
        {
            let item = &list.items[done[index]];
            let line = done_item(item);
            out.append(line.as_str());
            proof {
                lemma_joined_next(done_lines, index as int);
                assert(done_views[index as int] == views[indices_of(done@)[index as int]]);
                assert(views[done@[index as int] as int] == item@);
                assert(done_lines[index as int] == done_item_line(item@));
                assert(out@ =~= upper + ("\nCompleted:\n"@ + joined(done_lines.take(index + 1))));
            }
            index = index + 1;
        }
        proof {
            assert(done_lines.take(index as int) =~= done_lines);
            assert(done_views.len() == done@.len());
        }
    } else {
        proof {
            assert(items_marked(views, true).len() == done@.len());
            assert(out@ =~= upper + Seq::<char>::empty());
        }
    }
    proof {
        assert(out@ == upper + done_items_text(views));
        assert(out@ =~= list_items_text(list@));
    }
    out
}

} // verus!
