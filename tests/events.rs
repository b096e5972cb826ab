use pixel_canvas::color::Color;
use pixel_canvas::error::DecodeError;
use pixel_canvas::event::Event;

#[test]
fn event_from_fields() {
    assert_eq!(Event::from_parts(1, 2, "Red"), Ok(Event::new(1, 2, Color::Red)));
    assert_eq!(
        Event::from_parts(65535, 0, "Navy"),
        Ok(Event { x: 65535, y: 0, color: Color::Navy })
    );
}

#[test]
fn event_coordinate_out_of_range() {
    assert_eq!(Event::from_parts(65536, 0, "Red"), Err(DecodeError::CoordinateRange));
    assert_eq!(Event::from_parts(0, 70000, "Nothing"), Err(DecodeError::CoordinateRange));
}

#[test]
fn event_unknown_color() {
    assert_eq!(Event::from_parts(3, 4, "Crimson"), Err(DecodeError::UnknownColor));
}

#[test]
fn event_round_trip_through_fields() {
    for t in 0..34u8 {
        let c = Color::from_tag(t).unwrap();
        let e = Event::new(7, 65535, c);
        assert_eq!(Event::from_parts(e.x as u64, e.y as u64, e.color.name()), Ok(e));
    }
}

#[test]
fn event_json_text() {
    let e = Event::new(1, 2, Color::Red);
    assert_eq!(e.to_json(), "{\"x\":1,\"y\":2,\"color\":\"Red\"}");
    let e = Event::new(0, 65535, Color::WaterMelon);
    assert_eq!(e.to_json(), "{\"x\":0,\"y\":65535,\"color\":\"WaterMelon\"}");
}

#[test]
fn event_json_parses_back() {
    let e = Event::new(120, 9, Color::DarkGreen);
    let v: serde_json::Value = serde_json::from_str(&e.to_json()).unwrap();
    let x = v.get("x").unwrap().as_u64().unwrap();
    let y = v.get("y").unwrap().as_u64().unwrap();
    let color = v.get("color").unwrap().as_str().unwrap();
    assert_eq!(Event::from_parts(x, y, color), Ok(e));
}

#[test]
fn event_description() {
    let e = Event::new(10, 305, Color::LightGrey);
    assert_eq!(e.describe(), "Event(x: 10, y: 305, color: light-grey)");
}
