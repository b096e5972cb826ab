use pixel_canvas::canvas::{Canvas, SerializableCanvas, DEFAULT_SIDE};
use pixel_canvas::color::Color;
use pixel_canvas::error::OutOfBounds;
use pixel_canvas::event::Event;

#[test]
fn read_after_write_on_grid_value() {
    let mut g = SerializableCanvas::blank(4, 3);
    assert_eq!(g.apply(Event::new(3, 2, Color::Blue)), Ok(()));
    assert_eq!(g.color_at(3, 2), Some(Color::Blue));
    assert_eq!(g.pixels[2 * 4 + 3], Color::Blue);
    assert_eq!(g.pixels.iter().filter(|c| **c == Color::White).count(), 11);
}

#[test]
fn off_grid_write_is_refused() {
    let mut g = SerializableCanvas::blank(4, 3);
    assert_eq!(g.apply(Event::new(4, 0, Color::Red)), Err(OutOfBounds));
    assert_eq!(g.apply(Event::new(0, 3, Color::Red)), Err(OutOfBounds));
    assert!(g.pixels.iter().all(|c| *c == Color::White));
    assert_eq!(g.color_at(4, 0), None);
}

#[test]
fn same_write_twice_is_same_as_once() {
    let mut once = SerializableCanvas::blank(2, 2);
    let mut twice = SerializableCanvas::blank(2, 2);
    let e = Event::new(1, 1, Color::Lime);
    once.apply(e).unwrap();
    twice.apply(e).unwrap();
    twice.apply(e).unwrap();
    assert_eq!(once.pixels, twice.pixels);
}

#[test]
fn shared_canvas_read_after_write() {
    let canvas = Canvas::new(5, 5);
    assert_eq!(canvas.set_pixel(Event::new(4, 1, Color::Purple)), Ok(()));
    let snap = canvas.snapshot();
    assert_eq!(snap.width, 5);
    assert_eq!(snap.height, 5);
    assert_eq!(snap.pixels.len(), 25);
    assert_eq!(snap.pixels[1 * 5 + 4], Color::Purple);
}

#[test]
fn shared_canvas_off_grid_unchanged() {
    let canvas = Canvas::new(4, 4);
    let before = canvas.snapshot();
    assert_eq!(canvas.set_pixel(Event::new(10, 10, Color::Blue)), Err(OutOfBounds));
    assert_eq!(canvas.set_pixel(Event::new(0, 4, Color::Blue)), Err(OutOfBounds));
    assert_eq!(canvas.snapshot().pixels, before.pixels);
}

#[test]
fn shared_canvas_idempotent_write() {
    let canvas = Canvas::new(3, 3);
    let e = Event::new(2, 0, Color::Rose);
    canvas.set_pixel(e).unwrap();
    let once = canvas.snapshot();
    canvas.set_pixel(e).unwrap();
    assert_eq!(canvas.snapshot().pixels, once.pixels);
}

#[test]
fn two_writers_same_cell_leave_one_color() {
    let canvas = Canvas::new(4, 4);
    canvas.set_pixel(Event::new(2, 2, Color::Red)).unwrap();
    canvas.set_pixel(Event::new(2, 2, Color::Green)).unwrap();
    let c = canvas.snapshot().pixels[2 * 4 + 2];
    assert!(c == Color::Red || c == Color::Green);
    assert_eq!(c, Color::Green);
}

#[test]
fn default_canvas_size() {
    let canvas = Canvas::default();
    assert_eq!(canvas.width(), DEFAULT_SIDE);
    assert_eq!(canvas.height(), 500);
    let snap = canvas.snapshot();
    assert_eq!(snap.pixels.len(), 250_000);
    assert!(snap.pixels.iter().all(|c| *c == Color::White));
}

#[test]
fn canvas_can_be_shared_between_threads() {
    fn shareable<T: Send + Sync>() {}
    shareable::<Canvas>();
    shareable::<pixel_canvas::hub::Hub>();
}

#[test]
fn snapshot_json_text() {
    let canvas = Canvas::new(2, 1);
    canvas.set_pixel(Event::new(1, 0, Color::Red)).unwrap();
    assert_eq!(
        canvas.snapshot().to_json(),
        "{\"width\":2,\"height\":1,\"pixels\":[\"White\",\"Red\"]}"
    );
}

#[test]
fn snapshot_json_is_valid_json() {
    let canvas = Canvas::new(3, 2);
    canvas.set_pixel(Event::new(0, 1, Color::Azure)).unwrap();
    let v: serde_json::Value = serde_json::from_str(&canvas.snapshot().to_json()).unwrap();
    assert_eq!(v.get("width").unwrap().as_u64(), Some(3));
    assert_eq!(v.get("height").unwrap().as_u64(), Some(2));
    let pixels = v.get("pixels").unwrap().as_array().unwrap();
    assert_eq!(pixels.len(), 6);
    assert_eq!(pixels[3].as_str(), Some("Azure"));
}
