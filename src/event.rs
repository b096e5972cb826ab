use vstd::prelude::*;
use vstd::string::StringExecFns;

use crate::color::{color_named, lemma_name_round_trip, Color};
use crate::error::DecodeError;
use crate::text::{decimal, push_decimal};

verus! {

/// Largest value of a coordinate.
pub const COORD_MAX: u64 = 65535;

/// A request, and then a notice, that the pixel at `(x, y)` takes `color`.
#[derive(Clone, Copy, Debug, PartialEq, Eq, Structural)]
pub struct Event {
    pub x: u16,
    pub y: u16,
    pub color: Color,
}

/// The JSON text of an event: `{"x":X,"y":Y,"color":"NAME"}`.
pub open spec fn event_json(e: Event) -> Seq<char> {
    "{\"x\":"@ + decimal(e.x as nat) + ",\"y\":"@ + decimal(e.y as nat) + ",\"color\":\""@
        + e.color.spec_name()@ + "\"}"@
}

/// The human-readable form of an event: `Event(x: X, y: Y, color: LABEL)`.
pub open spec fn event_text(e: Event) -> Seq<char> {
    "Event(x: "@ + decimal(e.x as nat) + ", y: "@ + decimal(e.y as nat) + ", color: "@
        + e.color.spec_label()@ + ")"@
}

/// The event that the fields of a client message denote, or why there is none.
pub open spec fn parse_event(x: u64, y: u64, color: Seq<char>) -> Result<Event, DecodeError> {
    if x > COORD_MAX || y > COORD_MAX {
        Err(DecodeError::CoordinateRange)
    } else {
        match color_named(color) {
            Some(c) => Ok(Event { x: x as u16, y: y as u16, color: c }),
            None => Err(DecodeError::UnknownColor),
        }
    }
}

/// Taking an event apart into its fields and building it again gives the same event.
pub proof fn lemma_event_round_trip(e: Event)
    ensures
        parse_event(e.x as u64, e.y as u64, e.color.spec_name()@) == Ok::<Event, DecodeError>(e),
{
    lemma_name_round_trip(e.color);
}

impl Event {
    pub fn new(x: u16, y: u16, color: Color) -> (r: Event)
        ensures
            r == (Event { x, y, color }),
    {
        Event { x, y, color }
    }

    /// Builds an event from the fields of a decoded client message: two
    /// coordinates, each of which must fit in 16 bits, and a textual color tag.
    pub fn from_parts(x: u64, y: u64, color: &str) -> (r: Result<Event, DecodeError>)
        ensures
            r == parse_event(x, y, color@),
    {
        if x > COORD_MAX || y > COORD_MAX {
            return Err(DecodeError::CoordinateRange);
        }
        match Color::from_name(color) {
            Ok(c) => Ok(Event { x: x as u16, y: y as u16, color: c }),
            Err(e) => Err(e),
        }
    }

    /// The event as a JSON object, as it is sent to clients.
    pub fn to_json(&self) -> (r: String)
        ensures
            r@ == event_json(*self),
    {
        let mut out = String::from_str("{\"x\":");
        push_decimal(&mut out, self.x as u32);
        out.append(",\"y\":");
        push_decimal(&mut out, self.y as u32);
        out.append(",\"color\":\"");
        out.append(self.color.name());
        out.append("\"}");
        assert(out@ =~= event_json(*self));
        out
    }

    /// The event in human-readable form, for diagnostics.
    pub fn describe(&self) -> (r: String)
        ensures
            r@ == event_text(*self),
    {
        let mut out = String::from_str("Event(x: ");
        push_decimal(&mut out, self.x as u32);
        out.append(", y: ");
        push_decimal(&mut out, self.y as u32);
        out.append(", color: ");
        out.append(self.color.label());
        out.append(")");
        assert(out@ =~= event_text(*self));
        out
    }
}

} // verus!
