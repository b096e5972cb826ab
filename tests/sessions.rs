use pixel_canvas::canvas::Canvas;
use pixel_canvas::color::Color;
use pixel_canvas::error::DecodeError;
use pixel_canvas::event::Event;
use pixel_canvas::hub::{Delivery, Hub};
use pixel_canvas::session::{handle_inbound, outbound_step, ClientMessage, InboundOutcome, OutboundStep};

fn paint(x: u64, y: u64, color: &str) -> ClientMessage {
    ClientMessage::Paint { x, y, color: color.to_string() }
}

#[test]
fn paint_is_applied_and_broadcast() {
    let canvas = Canvas::new(4, 4);
    let hub = Hub::new(100);
    let mut b = hub.subscribe();
    let outcome = handle_inbound(&canvas, &hub, &paint(1, 2, "Red"));
    assert_eq!(outcome, InboundOutcome::Applied(Event::new(1, 2, Color::Red)));
    assert!(outcome.continues());
    let snap = canvas.snapshot();
    for (i, c) in snap.pixels.iter().enumerate() {
        if i == 9 {
            assert_eq!(*c, Color::Red);
        } else {
            assert_eq!(*c, Color::White);
        }
    }
    assert_eq!(b.try_next(), Delivery::Event(Event { x: 1, y: 2, color: Color::Red }));
    assert_eq!(b.try_next(), Delivery::Empty);
}

#[test]
fn off_canvas_paint_is_dropped_silently() {
    let canvas = Canvas::new(4, 4);
    let hub = Hub::new(100);
    let mut b = hub.subscribe();
    let before = canvas.snapshot();
    let outcome = handle_inbound(&canvas, &hub, &paint(10, 10, "Blue"));
    assert_eq!(outcome, InboundOutcome::OffCanvas(Event::new(10, 10, Color::Blue)));
    assert!(outcome.continues());
    assert_eq!(b.try_next(), Delivery::Empty);
    assert_eq!(canvas.snapshot().pixels, before.pixels);
}

#[test]
fn malformed_messages_are_ignored() {
    let canvas = Canvas::new(4, 4);
    let hub = Hub::new(100);
    let mut b = hub.subscribe();
    let r = handle_inbound(&canvas, &hub, &paint(1, 1, "Plaid"));
    assert_eq!(r, InboundOutcome::Rejected(DecodeError::UnknownColor));
    assert!(r.continues());
    let r = handle_inbound(&canvas, &hub, &paint(1, 100_000, "Red"));
    assert_eq!(r, InboundOutcome::Rejected(DecodeError::CoordinateRange));
    let r = handle_inbound(&canvas, &hub, &ClientMessage::Unreadable);
    assert_eq!(r, InboundOutcome::Unreadable);
    assert!(r.continues());
    assert_eq!(b.try_next(), Delivery::Empty);
}

#[test]
fn close_ends_the_inbound_half() {
    let canvas = Canvas::new(4, 4);
    let hub = Hub::new(100);
    let r = handle_inbound(&canvas, &hub, &ClientMessage::Close);
    assert_eq!(r, InboundOutcome::Closed);
    assert!(!r.continues());
}

#[test]
fn every_subscriber_sees_every_event_in_order() {
    let hub = Hub::new(100);
    let mut subs = vec![hub.subscribe(), hub.subscribe(), hub.subscribe()];
    let events: Vec<Event> = (0..5u16).map(|i| Event::new(i, i + 1, Color::Orange)).collect();
    for e in &events {
        assert_eq!(hub.publish(*e), 3);
    }
    for s in subs.iter_mut() {
        for e in &events {
            assert_eq!(s.try_next(), Delivery::Event(*e));
        }
        assert_eq!(s.try_next(), Delivery::Empty);
    }
}

#[test]
fn late_subscriber_sees_only_later_events() {
    let hub = Hub::new(100);
    let mut early = hub.subscribe();
    let e1 = Event::new(0, 0, Color::Black);
    let e2 = Event::new(1, 1, Color::Yellow);
    hub.publish(e1);
    let mut late = hub.subscribe();
    hub.publish(e2);
    assert_eq!(late.try_next(), Delivery::Event(e2));
    assert_eq!(late.try_next(), Delivery::Empty);
    assert_eq!(early.try_next(), Delivery::Event(e1));
    assert_eq!(early.try_next(), Delivery::Event(e2));
}

#[test]
fn publish_without_subscribers_is_a_no_op() {
    let hub = Hub::new(100);
    assert_eq!(hub.publish(Event::new(0, 0, Color::Red)), 0);
}

#[test]
fn slow_subscriber_loses_its_oldest_events() {
    let hub = Hub::new(2);
    let mut slow = hub.subscribe();
    for i in 0..5u16 {
        hub.publish(Event::new(i, 0, Color::Pink));
    }
    assert_eq!(slow.try_next(), Delivery::Lagged(3));
    assert_eq!(slow.try_next(), Delivery::Event(Event::new(3, 0, Color::Pink)));
    assert_eq!(slow.try_next(), Delivery::Event(Event::new(4, 0, Color::Pink)));
    assert_eq!(slow.try_next(), Delivery::Empty);
}

#[test]
fn outbound_sends_events_as_json() {
    match outbound_step(Delivery::Event(Event::new(1, 2, Color::Red))) {
        OutboundStep::Send(s) => assert_eq!(s, "{\"x\":1,\"y\":2,\"color\":\"Red\"}"),
        _ => panic!("expected a send"),
    }
    assert!(matches!(outbound_step(Delivery::Empty), OutboundStep::Wait));
    assert!(matches!(outbound_step(Delivery::Lagged(4)), OutboundStep::Wait));
    assert!(matches!(outbound_step(Delivery::Closed), OutboundStep::Stop));
}
