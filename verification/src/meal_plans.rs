//! Meal plan events, and what the commands show of them.

use crate::text::{append_bracketed, bracketed, joined, lemma_joined_next, optional_text};
use vstd::prelude::*;
use vstd::string::StringExecFns;

verus! {

/// An entry of the meal plan calendar.
#[derive(Clone, Debug, PartialEq, Eq)]
pub struct MealPlanEvent {
    pub id: String,
    pub date: String,
    pub title: Option<String>,
    pub recipe_id: Option<String>,
    pub label_id: Option<String>,
    pub details: Option<String>,
}

/// Mathematical content of a [`MealPlanEvent`].
pub struct MealPlanEventView {
    pub id: Seq<char>,
    pub date: Seq<char>,
    pub title: Option<Seq<char>>,
    pub recipe_id: Option<Seq<char>>,
    pub label_id: Option<Seq<char>>,
    pub details: Option<Seq<char>>,
}

impl View for MealPlanEvent {
    type V = MealPlanEventView;

    open spec fn view(&self) -> MealPlanEventView {
        MealPlanEventView {
            id: self.id@,
            date: self.date@,
            title: optional_text(self.title),
            recipe_id: optional_text(self.recipe_id),
            label_id: optional_text(self.label_id),
            details: optional_text(self.details),
        }
    }
}

/// The contents of the events of a vector, in order.
pub open spec fn event_views(events: Seq<MealPlanEvent>) -> Seq<MealPlanEventView> {
    events.map_values(|event: MealPlanEvent| event@)
}

/// The block of an event in the listing: its date, what is known of it,
/// its id, and a blank line.
pub open spec fn event_block(event: MealPlanEventView) -> Seq<char> {
    "Date: "@ + event.date + "\n"@ + bracketed("  Title: "@, event.title, "\n"@) + bracketed(
        "  Recipe ID: "@,
        event.recipe_id,
        "\n"@,
    ) + bracketed("  Label ID: "@, event.label_id, "\n"@) + bracketed(
        "  Details: "@,
        event.details,
        "\n"@,
    ) + "  Event ID: "@ + event.id + "\n\n"@
}

/// The listing of the events of a date range, in the order given.
pub open spec fn events_text(
    events: Seq<MealPlanEventView>,
    start_date: Seq<char>,
    end_date: Seq<char>,
) -> Seq<char> {
    if events.len() == 0 {
        "No meal plan events found in this date range.\n"@
    } else {
        "Meal plan events ("@ + start_date + " to "@ + end_date + "):\n\n"@ + joined(
            events.map_values(|event: MealPlanEventView| event_block(event)),
        )
    }
}

/// What is said of an event that has just been created.
pub open spec fn created_event_text(event: MealPlanEventView) -> Seq<char> {
    "Created meal plan event for "@ + event.date + "\n"@ + bracketed(
        "  Title: "@,
        event.title,
        "\n"@,
    ) + bracketed("  Recipe ID: "@, event.recipe_id, "\n"@)
}

/// The block of an event in the listing.
fn display_event(event: &MealPlanEvent) -> (result: String)
    ensures
        result@ == event_block(event@),
{
    let mut out = String::from_str("Date: ");
    out.append(event.date.as_str());
    out.append("\n");
    append_bracketed(&mut out, "  Title: ", &event.title, "\n");
    append_bracketed(&mut out, "  Recipe ID: ", &event.recipe_id, "\n");
    append_bracketed(&mut out, "  Label ID: ", &event.label_id, "\n");
    append_bracketed(&mut out, "  Details: ", &event.details, "\n");
    out.append("  Event ID: ");
    out.append(event.id.as_str());
    out.append("\n\n");
    out
}

/// The listing of the events of a date range.
pub fn display_meal_plan_events(
    events: &Vec<MealPlanEvent>,
    start_date: &str,
    end_date: &str,
) -> (result: String)
    ensures
        result@ == events_text(event_views(events@), start_date@, end_date@),
{
    if events.len() == 0 {
        return String::from_str("No meal plan events found in this date range.\n");
    }
    let ghost blocks = event_views(events@).map_values(
        |event: MealPlanEventView| event_block(event),
    );
    let mut out = String::from_str("Meal plan events (");
    out.append(start_date);
    out.append(" to ");
    out.append(end_date);
    out.append("):\n\n");
    let ghost heading = out@;
    let mut index: usize = 0;
    proof {
        assert(out@ =~= heading + joined(blocks.take(0)));
    }
    while index < events.len()
        invariant
            index <= events.len(),
            blocks == event_views(events@).map_values(
                |event: MealPlanEventView| event_block(event),
            ),
            out@ == heading + joined(blocks.take(index as int)),
        decreases events.len() - index,
    {
        let block = display_event(&events[index]);
        out.append(block.as_str());
        proof {
            lemma_joined_next(blocks, index as int);
            assert(blocks[index as int] == event_block(events@[index as int]@));
            assert(out@ =~= heading + joined(blocks.take(index + 1)));
        }
        index = index + 1;
    }
    proof {
        assert(blocks.take(index as int) =~= blocks);
    }
    out
}

/// What is said of an event that has just been created.
pub fn display_created_event(event: &MealPlanEvent) -> (result: String)
    ensures
        result@ == created_event_text(event@),
{
    let mut out = String::from_str("Created meal plan event for ");
    out.append(event.date.as_str());
    out.append("\n");
    append_bracketed(&mut out, "  Title: ", &event.title, "\n");
    append_bracketed(&mut out, "  Recipe ID: ", &event.recipe_id, "\n");
    out
}

} // verus!
