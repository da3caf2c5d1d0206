//! One decision per message.
//!
//! The host owns the socket and the pointer. For each message it reads the
//! cursor's position, asks [`handle_message`] what to do, and does it. No
//! state is kept between two messages.

use vstd::prelude::*;
use crate::event::{decode, decoded, Button, DecodeError, Event};
use crate::event::{document_tag, kind_named, lemma_each_name_has_its_kind};
use crate::json::json_document;
use crate::motion::{
    is_quiet, lemma_quiet_sample_holds, map_motion, mapped, CursorPosition, Motion,
    OrientationSample,
};

verus! {

/// Why a message leaves the pointer alone.
#[derive(Clone, Copy, Debug, PartialEq, Eq, Structural)]
pub enum Reason {
    /// The message is no JSON document.
    Malformed,
    /// The message names no known kind of event.
    Unrecognized,
    /// The sample's steps lie within the deadband.
    WithinDeadband,
    /// The sample's target lies beyond the coordinates that `i32` can name.
    OffRange,
}

/// What the host shall do for a message: at most one thing.
#[derive(Clone, Copy, Debug, PartialEq, Eq, Structural)]
pub enum Action {
    /// Set the cursor to this position.
    MoveTo(CursorPosition),
    /// Click this button once.
    Click(Button),
    /// Do nothing, and log why.
    Nothing(Reason),
}

/// The action that an event calls for while the cursor is at `cursor`.
pub open spec fn response(event: Event, cursor: CursorPosition) -> Action {
    match event {
        Event::Click(button) => Action::Click(button),
        Event::Orientation(sample) => match mapped(cursor, sample) {
            Motion::MoveTo(position) => Action::MoveTo(position),
            Motion::Hold => Action::Nothing(Reason::WithinDeadband),
            Motion::OffRange => Action::Nothing(Reason::OffRange),
        },
    }
}

/// The action that a message calls for while the cursor is at `cursor`.
pub open spec fn handled(text: Seq<char>, cursor: CursorPosition) -> Action {
    match decoded(text) {
        Ok(event) => response(event, cursor),
        Err(DecodeError::Malformed) => Action::Nothing(Reason::Malformed),
        Err(DecodeError::Unrecognized) => Action::Nothing(Reason::Unrecognized),
    }
}

/// Decides what to do for an event while the cursor is at `cursor`.
pub fn respond(event: &Event, cursor: CursorPosition) -> (r: Action)
    ensures
        r == response(*event, cursor),
{
    match event {
        Event::Click(button) => Action::Click(*button),
        Event::Orientation(sample) => match map_motion(cursor, sample) {
            Motion::MoveTo(position) => Action::MoveTo(position),
            Motion::Hold => Action::Nothing(Reason::WithinDeadband),
            Motion::OffRange => Action::Nothing(Reason::OffRange),
        },
    }
}

/// Decides what to do for a message while the cursor is at `cursor`.
///
/// Every text is answered: one that cannot be read yields
/// [`Action::Nothing`] with the reason.
pub fn handle_message(text: &str, cursor: CursorPosition) -> (r: Action)
    ensures
        r == handled(text@, cursor),
{
    match decode(text) {
        Ok(event) => respond(&event, cursor),
        Err(DecodeError::Malformed) => Action::Nothing(Reason::Malformed),
        Err(DecodeError::Unrecognized) => Action::Nothing(Reason::Unrecognized),
    }
}

/// An orientation event whose rates are smaller in magnitude than the
/// threshold divided by the sensitivity leaves the pointer alone, wherever
/// the cursor is.
pub proof fn lemma_quiet_sample_does_nothing(sample: OrientationSample, cursor: CursorPosition)
    requires
        is_quiet(sample),
    ensures
        response(Event::Orientation(sample), cursor) == Action::Nothing(Reason::WithinDeadband),
{
    lemma_quiet_sample_holds(cursor, sample);
}

/// A text that is no JSON document leaves the pointer alone, wherever the
/// cursor is.
pub proof fn lemma_malformed_message_does_nothing(text: Seq<char>, cursor: CursorPosition)
    requires
        json_document(text).is_none(),
    ensures
        handled(text, cursor) == Action::Nothing(Reason::Malformed),
{
}

/// A document whose `event` member is missing, is no string, or names no
/// known kind leaves the pointer alone, wherever the cursor is and whatever
/// else the document holds.
pub proof fn lemma_unknown_event_does_nothing(text: Seq<char>, cursor: CursorPosition)
    requires
        json_document(text).is_some(),
        match document_tag(json_document(text).unwrap()) {
            Some(tag) => kind_named(tag).is_none(),
            None => true,
        },
    ensures
        handled(text, cursor) == Action::Nothing(Reason::Unrecognized),
{
}

/// A click event calls for one click of the button it names, wherever the
/// cursor is.
pub proof fn lemma_click_event_clicks_its_button(button: Button, cursor: CursorPosition)
    ensures
        response(Event::Click(button), cursor) == Action::Click(button),
{
}

/// A message whose `event` member is `leftClick` or `rightClick` calls for one
/// click of that button, whatever else the document holds.
pub proof fn lemma_click_message_clicks_its_button(text: Seq<char>, cursor: CursorPosition)
    requires
        json_document(text).is_some(),
    ensures
        document_tag(json_document(text).unwrap()) == Some("leftClick"@) ==> handled(text, cursor)
            == Action::Click(Button::Left),
        document_tag(json_document(text).unwrap()) == Some("rightClick"@) ==> handled(
            text,
            cursor,
        ) == Action::Click(Button::Right),
{
    lemma_each_name_has_its_kind();
}

} // verus!
