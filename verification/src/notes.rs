//! The lines that the operator's log gets: one for what the loop asks for,
//! where that is worth a line, and one for each failure that comes back.

use crate::error::{fetch_error_text, notify_error_text};
use crate::poll_loop::{Action, ActionView, Event, EventView, backoff_warning_text};
use crate::text::optional_text;
use vstd::prelude::*;
use vstd::string::StringExecFns;

verus! {

/// The line for an action, if it gets one: a fetch is announced, a message
/// is copied to the log as it goes out, and a backoff is a warning. Sleeping
/// gets no line, and neither does the end of the run.
pub open spec fn action_note(action: ActionView) -> Option<Seq<char>> {
    match action {
        ActionView::Fetch => Some("Send request to binance"@),
        ActionView::Send { message, .. } => Some(message),
        ActionView::Backoff { target, .. } => Some(backoff_warning_text(target)),
        ActionView::Sleep { .. } => None,
        ActionView::Exit { .. } => None,
    }
}

/// The line for an event, if it gets one: each failure is named, and what
/// went well gets no line.
pub open spec fn event_note(event: EventView) -> Option<Seq<char>> {
    match event {
        EventView::Fetched(Err(error)) => Some("Error binance api "@ + fetch_error_text(error)),
        EventView::Sent(Err(error)) => Some(
            "Error sending telegram msg "@ + notify_error_text(error),
        ),
        _ => None,
    }
}

/// The line that the log gets for `action`, if any.
pub fn note_for_action(action: &Action) -> (note: Option<String>)
    ensures
        optional_text(note) == action_note(action@),
{
    match action {
        Action::Fetch => Some(String::from_str("Send request to binance")),
        Action::Send { message, .. } => Some(message.clone()),
        Action::Backoff { target, .. } => Some(String::from_str(target.backoff_warning())),
        Action::Sleep { .. } => None,
        Action::Exit { .. } => None,
    }
}

/// The line that the log gets for `event`, if any.
pub fn note_for_event(event: &Event) -> (note: Option<String>)
    ensures
        optional_text(note) == event_note(event@),
{
    match event {
        Event::Fetched(Err(error)) => {
            let mut line = String::from_str("Error binance api ");
            line.append(error.describe());
            Some(line)
        },
        Event::Sent(Err(error)) => {
            let mut line = String::from_str("Error sending telegram msg ");
            line.append(error.describe());
            Some(line)
        },
        _ => None,
    }
}

} // verus!
