use gyro_mouse::control::{handle_message, respond, Action, Reason};
use gyro_mouse::event::{Button, Event};
use gyro_mouse::motion::{CursorPosition, OrientationSample};

fn at(x: i32, y: i32) -> CursorPosition {
    CursorPosition { x, y }
}

#[test]
fn unit_rate_message_moves_the_cursor_from_100_100_to_100_80() {
    let text = "{\"event\":\"gyroData\",\"data\":{\"x\":1.0,\"y\":0,\"z\":0}}";
    assert_eq!(handle_message(text, at(100, 100)), Action::MoveTo(at(100, 80)));
}

#[test]
fn orientation_message_moves_along_both_axes() {
    let text = "{\"event\":\"gyroData\",\"data\":{\"x\":-0.5,\"y\":9.0,\"z\":2.25}}";
    assert_eq!(handle_message(text, at(640, 360)), Action::MoveTo(at(595, 370)));
}

#[test]
fn quiet_message_does_nothing() {
    let text = "{\"event\":\"gyroData\",\"data\":{\"x\":0.01,\"y\":0.5,\"z\":-0.02}}";
    assert_eq!(handle_message(text, at(100, 100)), Action::Nothing(Reason::WithinDeadband));
    let text = "{\"event\":\"gyroData\"}";
    assert_eq!(handle_message(text, at(100, 100)), Action::Nothing(Reason::WithinDeadband));
}

#[test]
fn message_with_target_off_range_does_nothing() {
    let text = "{\"event\":\"gyroData\",\"data\":{\"x\":0,\"y\":0,\"z\":1}}";
    assert_eq!(handle_message(text, at(i32::MIN + 19, 0)), Action::Nothing(Reason::OffRange));
}

#[test]
fn malformed_message_does_nothing() {
    for text in ["", "{", "not json", "{\"event\":\"gyroData\",,}", "{\"event\":\"leftClick\"}}"] {
        assert_eq!(handle_message(text, at(1, 2)), Action::Nothing(Reason::Malformed));
        assert_eq!(handle_message(text, at(-7, 0)), Action::Nothing(Reason::Malformed));
    }
}

#[test]
fn unknown_event_does_nothing() {
    let texts = [
        "{\"event\":\"doubleClick\"}",
        "{\"event\":\"scroll\",\"data\":{\"x\":5.0,\"y\":5.0,\"z\":5.0}}",
        "{\"data\":{\"x\":5.0,\"y\":5.0,\"z\":5.0}}",
        "{\"event\":42}",
        "[]",
    ];
    for text in texts {
        assert_eq!(handle_message(text, at(1, 2)), Action::Nothing(Reason::Unrecognized));
        assert_eq!(handle_message(text, at(900, -3)), Action::Nothing(Reason::Unrecognized));
    }
}

#[test]
fn click_message_clicks_its_button_once() {
    assert_eq!(handle_message("{\"event\":\"leftClick\"}", at(5, 5)), Action::Click(Button::Left));
    assert_eq!(
        handle_message("{\"event\":\"rightClick\"}", at(5, 5)),
        Action::Click(Button::Right)
    );
    assert_eq!(
        handle_message("{\"event\":\"leftClick\"}", at(i32::MIN, i32::MAX)),
        Action::Click(Button::Left)
    );
}

#[test]
fn respond_answers_each_event() {
    assert_eq!(respond(&Event::Click(Button::Left), at(0, 0)), Action::Click(Button::Left));
    assert_eq!(respond(&Event::Click(Button::Right), at(0, 0)), Action::Click(Button::Right));
    let moving = OrientationSample { x: 1.0f64.to_bits(), y: 0, z: (-1.0f64).to_bits() };
    assert_eq!(respond(&Event::Orientation(moving), at(0, 0)), Action::MoveTo(at(20, -20)));
    let quiet = OrientationSample { x: 0, y: 0, z: 0 };
    assert_eq!(
        respond(&Event::Orientation(quiet), at(0, 0)),
        Action::Nothing(Reason::WithinDeadband)
    );
    assert_eq!(
        respond(&Event::Orientation(moving), at(i32::MAX, 0)),
        Action::Nothing(Reason::OffRange)
    );
}
