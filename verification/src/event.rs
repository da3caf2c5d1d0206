//! Reading a message into an event.
//!
//! A message is a JSON object whose `event` member names the kind:
//!
//! ```text
//! {"event":"gyroData","data":{"x":0.5,"y":0,"z":-1.25}}
//! {"event":"leftClick"}
//! {"event":"rightClick"}
//! ```
//!
//! A rate that is missing, or is no number, counts as zero. A message that is
//! no JSON, or names no known kind, is an error for the host to log and drop.

use vstd::prelude::*;
use serde_json::Value;
use crate::json::{
    json_document, json_member, json_number, json_string, member, number_of, parse_document,
    string_of,
};
use crate::motion::OrientationSample;
use crate::text::same_text;

verus! {

/// A pointer button.
#[derive(Clone, Copy, Debug, PartialEq, Eq, Structural)]
pub enum Button {
    Left,
    Right,
}

/// The kinds of message, one for each value of the `event` member.
#[derive(Clone, Copy, Debug, PartialEq, Eq, Structural)]
pub enum EventKind {
    Orientation,
    LeftClick,
    RightClick,
}

/// What a message asks for.
#[derive(Clone, Copy, Debug, PartialEq, Eq, Structural)]
pub enum Event {
    Orientation(OrientationSample),
    Click(Button),
}

/// Why a message holds no event.
#[derive(Clone, Copy, Debug, PartialEq, Eq, Structural)]
pub enum DecodeError {
    /// The text is no JSON document.
    Malformed,
    /// The document has no `event` member that is a string, or the string
    /// names no known kind.
    Unrecognized,
}

/// The kind that a value of the `event` member names.
pub open spec fn kind_named(tag: Seq<char>) -> Option<EventKind> {
    if tag == "gyroData"@ {
        Some(EventKind::Orientation)
    } else if tag == "leftClick"@ {
        Some(EventKind::LeftClick)
    } else if tag == "rightClick"@ {
        Some(EventKind::RightClick)
    } else {
        None
    }
}

/// The button that a name stands for.
pub open spec fn button_named(name: Seq<char>) -> Option<Button> {
    if name == "left"@ {
        Some(Button::Left)
    } else if name == "right"@ {
        Some(Button::Right)
    } else {
        None
    }
}

/// A rate as read, or zero where there was none to read.
pub open spec fn rate_or_zero(found: Option<u64>) -> u64 {
    match found {
        Some(bits) => bits,
        None => 0,
    }
}

/// The sample that three rates as read make up.
pub open spec fn sample_of(x: Option<u64>, y: Option<u64>, z: Option<u64>) -> OrientationSample {
    OrientationSample { x: rate_or_zero(x), y: rate_or_zero(y), z: rate_or_zero(z) }
}

/// The event of a kind; only an orientation event takes up the sample.
pub open spec fn event_of(kind: EventKind, sample: OrientationSample) -> Event {
    match kind {
        EventKind::Orientation => Event::Orientation(sample),
        EventKind::LeftClick => Event::Click(Button::Left),
        EventKind::RightClick => Event::Click(Button::Right),
    }
}

/// The text of the `event` member of a document.
pub open spec fn document_tag(doc: Value) -> Option<Seq<char>> {
    match json_member(doc, "event"@) {
        Some(tag) => json_string(tag),
        None => None,
    }
}

/// The rate that a document holds for an axis, as the member of that name
/// under `data`.
pub open spec fn document_rate(doc: Value, axis: Seq<char>) -> Option<u64> {
    match json_member(doc, "data"@) {
        Some(data) => match json_member(data, axis) {
            Some(rate) => json_number(rate),
            None => None,
        },
        None => None,
    }
}

/// The sample that a document holds.
pub open spec fn document_sample(doc: Value) -> OrientationSample {
    sample_of(document_rate(doc, "x"@), document_rate(doc, "y"@), document_rate(doc, "z"@))
}

/// The event that a document holds.
pub open spec fn document_event(doc: Value) -> Result<Event, DecodeError> {
    match document_tag(doc) {
        Some(tag) => match kind_named(tag) {
            Some(kind) => Ok(event_of(kind, document_sample(doc))),
            None => Err(DecodeError::Unrecognized),
        },
        None => Err(DecodeError::Unrecognized),
    }
}

/// The event that a message holds.
pub open spec fn decoded(text: Seq<char>) -> Result<Event, DecodeError> {
    match json_document(text) {
        Some(doc) => document_event(doc),
        None => Err(DecodeError::Malformed),
    }
}

/// The three names of the `event` member differ, so each stands for its own
/// kind.
pub proof fn lemma_each_name_has_its_kind()
    ensures
        kind_named("gyroData"@) == Some(EventKind::Orientation),
        kind_named("leftClick"@) == Some(EventKind::LeftClick),
        kind_named("rightClick"@) == Some(EventKind::RightClick),
{
    reveal_strlit("gyroData");
    reveal_strlit("leftClick");
    reveal_strlit("rightClick");
    assert("gyroData"@.len() == 8);
    assert("leftClick"@.len() == 9);
    assert("rightClick"@.len() == 10);
}

impl Button {
    /// The button that `name` stands for: `left` or `right`, and no other.
    pub fn from_name(name: &str) -> (r: Option<Button>)
        ensures
            r == button_named(name@),
    {
        if same_text(name, "left") {
            Some(Button::Left)
        } else if same_text(name, "right") {
            Some(Button::Right)
        } else {
            None
        }
    }
}

impl OrientationSample {
    /// Makes a sample of three rates as read, zero standing in for each that
    /// is missing.
    pub fn from_fields(x: Option<u64>, y: Option<u64>, z: Option<u64>) -> (r: OrientationSample)
        ensures
            r == sample_of(x, y, z),
    {
        OrientationSample { x: or_zero(x), y: or_zero(y), z: or_zero(z) }
    }
}

fn or_zero(found: Option<u64>) -> (r: u64)
    ensures
        r == rate_or_zero(found),
{
    match found {
        Some(bits) => bits,
        None => 0,
    }
}

/// The kind of message that the value of an `event` member names.
pub fn recognize(tag: &str) -> (r: Option<EventKind>)
    ensures
        r == kind_named(tag@),
{
    if same_text(tag, "gyroData") {
        Some(EventKind::Orientation)
    } else if same_text(tag, "leftClick") {
        Some(EventKind::LeftClick)
    } else if same_text(tag, "rightClick") {
        Some(EventKind::RightClick)
    } else {
        None
    }
}

/// Makes the event of a kind. The sample goes into an orientation event and
/// is dropped for a click.
pub fn assemble(kind: EventKind, sample: OrientationSample) -> (r: Event)
    ensures
        r == event_of(kind, sample),
{
    match kind {
        EventKind::Orientation => Event::Orientation(sample),
        EventKind::LeftClick => Event::Click(Button::Left),
        EventKind::RightClick => Event::Click(Button::Right),
    }
}

/// Reads the rate of one axis from a document.
fn read_rate(doc: &Value, axis: &str) -> (r: Option<u64>)
    ensures
        r == document_rate(*doc, axis@),
{
    match member(doc, "data") {
        Some(data) => match member(data, axis) {
            Some(rate) => number_of(rate),
            None => None,
        },
        None => None,
    }
}

/// Reads the sample of an orientation message from its document.
pub fn read_sample(doc: &Value) -> (r: OrientationSample)
    ensures
        r == document_sample(*doc),
{
    let x = read_rate(doc, "x");
    let y = read_rate(doc, "y");
    let z = read_rate(doc, "z");
    OrientationSample::from_fields(x, y, z)
}

/// Reads the event that a parsed document holds.
pub fn read_event(doc: &Value) -> (r: Result<Event, DecodeError>)
    ensures
        r == document_event(*doc),
{
    let tag = match member(doc, "event") {
        Some(value) => string_of(value),
        None => None,
    };
    match tag {
        Some(tag) => match recognize(tag) {
            Some(kind) => Ok(assemble(kind, read_sample(doc))),
            None => Err(DecodeError::Unrecognized),
        },
        None => Err(DecodeError::Unrecognized),
    }
}

/// Decodes a message.
///
/// The message is parsed as JSON and told apart by its `event` member. An
/// orientation event carries the three rates under `data`.
pub fn decode(text: &str) -> (r: Result<Event, DecodeError>)
    ensures
        r == decoded(text@),
{
    match parse_document(text) {
        Ok(doc) => read_event(&doc),
        Err(_) => Err(DecodeError::Malformed),
    }
}

} // verus!
