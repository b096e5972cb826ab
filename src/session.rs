use vstd::prelude::*;

use crate::canvas::{in_bounds, Canvas};
use crate::error::DecodeError;
use crate::event::{event_json, parse_event, Event};
use crate::hub::{Delivery, Hub};

verus! {

/// A message from a client, as the transport classified it.
pub enum ClientMessage {
    /// A structured message with two coordinates and a textual color tag.
    Paint { x: u64, y: u64, color: String },
    /// A message that does not have the shape of a paint request.
    Unreadable,
    /// The client closed the connection.
    Close,
}

/// What became of one client message.
#[derive(Clone, Copy, Debug, PartialEq, Eq, Structural)]
pub enum InboundOutcome {
    /// The event was painted on the canvas and published to every session.
    Applied(Event),
    /// The event lies off the canvas: dropped, nothing published.
    OffCanvas(Event),
    /// The fields denote no event: ignored.
    Rejected(DecodeError),
    /// The message was not a paint request: ignored.
    Unreadable,
    /// The client is gone: this half of the session ends.
    Closed,
}

/// What the inbound half makes of a message, given the canvas size.
pub open spec fn inbound_outcome(width: u32, height: u32, msg: ClientMessage) -> InboundOutcome {
    match msg {
        ClientMessage::Paint { x, y, color } => match parse_event(x, y, color@) {
            Ok(e) => if in_bounds(width, height, e.x, e.y) {
                InboundOutcome::Applied(e)
            } else {
                InboundOutcome::OffCanvas(e)
            },
            Err(d) => InboundOutcome::Rejected(d),
        },
        ClientMessage::Unreadable => InboundOutcome::Unreadable,
        ClientMessage::Close => InboundOutcome::Closed,
    }
}

impl InboundOutcome {
    /// Whether the inbound half goes on reading after this outcome: it stops
    /// only when the client closed the connection.
    pub fn continues(&self) -> (r: bool)
        ensures
            r == !(*self is Closed),
    {
        match self {
            InboundOutcome::Closed => false,
            _ => true,
        }
    }
}

/// Handles one client message: a valid event on the canvas is painted and
/// then published to every session, the sender's own included; anything else
/// is dropped without a word to the client or to other sessions.
pub fn handle_inbound(canvas: &Canvas, hub: &Hub, msg: &ClientMessage) -> (r: InboundOutcome)
    requires
        canvas.wf(),
    ensures
        r == inbound_outcome(canvas.spec_width(), canvas.spec_height(), *msg),
{
    match msg {
        ClientMessage::Paint { x, y, color } => match Event::from_parts(*x, *y, color.as_str()) {
            Ok(e) => match canvas.set_pixel(e) {
                Ok(()) => {
                    hub.publish(e);
                    InboundOutcome::Applied(e)
                },
                Err(_) => InboundOutcome::OffCanvas(e),
            },
            Err(d) => InboundOutcome::Rejected(d),
        },
        ClientMessage::Unreadable => InboundOutcome::Unreadable,
        ClientMessage::Close => InboundOutcome::Closed,
    }
}

/// What the outbound half does next.
pub enum OutboundStep {
    /// Send this text to the client.
    Send(String),
    /// Nothing to send now: wait for the next event.
    Wait,
    /// No event will come again: this half of the session ends.
    Stop,
}

/// The outbound half's answer to what its subscription delivered: an event is
/// sent to the client as JSON; events lost to lagging are skipped without
/// ending the session; a closed hub ends it.
pub fn outbound_step(d: Delivery) -> (r: OutboundStep)
    ensures
        match d {
            Delivery::Event(e) => r matches OutboundStep::Send(s) && s@ == event_json(e),
            Delivery::Empty => r is Wait,
            Delivery::Lagged(_) => r is Wait,
            Delivery::Closed => r is Stop,
        },
{
    match d {
        Delivery::Event(e) => OutboundStep::Send(e.to_json()),
        Delivery::Empty => OutboundStep::Wait,
        Delivery::Lagged(_) => OutboundStep::Wait,
        Delivery::Closed => OutboundStep::Stop,
    }
}

} // verus!
