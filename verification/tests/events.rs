use wolf_dual_screen::command::{ButtonState, Command, Coordinates, InputEvent, KeyState};
use wolf_dual_screen::events::{handle_event, EventError, EventStructure, Field, FieldValue};

type Cmd = Command<u8, u8, u8>;

fn structure(name: &str, fields: Vec<(&str, FieldValue)>) -> EventStructure {
    EventStructure {
        name: name.to_string(),
        fields: fields
            .into_iter()
            .map(|(n, value)| Field { name: n.to_string(), value })
            .collect(),
    }
}

fn double(v: f64) -> FieldValue {
    FieldValue::Double(v.to_bits())
}

fn xy(x: f64, y: f64) -> Coordinates {
    Coordinates { x: x.to_bits(), y: y.to_bits() }
}

fn handled(s: &EventStructure) -> Result<Option<Cmd>, EventError> {
    handle_event(true, Some(s))
}

#[test]
fn other_events_are_passed_on() {
    let s = structure("TouchFrame", vec![]);
    assert_eq!(handle_event::<u8, u8, u8>(false, Some(&s)), Ok(None));
    assert_eq!(handle_event::<u8, u8, u8>(false, None), Ok(None));
    assert_eq!(handled(&structure("Unknown", vec![])), Ok(None));
    assert_eq!(handled(&structure("touchframe", vec![])), Ok(None));
}

#[test]
fn custom_event_needs_a_structure() {
    assert_eq!(handle_event::<u8, u8, u8>(true, None), Err(EventError::MissingStructure));
}

#[test]
fn input_device() {
    let s = structure("VirtualDevicesReady", vec![("path", FieldValue::Text("/dev/input/event5".into()))]);
    assert_eq!(handled(&s), Ok(Some(Cmd::InputDevice("/dev/input/event5".to_string()))));
    assert_eq!(handled(&structure("VirtualDevicesReady", vec![])), Err(EventError::MissingField));
    assert_eq!(
        handled(&structure("VirtualDevicesReady", vec![("path", FieldValue::UInt(1))])),
        Err(EventError::MissingField)
    );
}

#[test]
fn pointer_events() {
    let abs = structure("MouseMoveAbsolute", vec![("pointer_x", double(10.5)), ("pointer_y", double(20.0))]);
    assert_eq!(handled(&abs), Ok(Some(Cmd::Input(InputEvent::PointerMotionAbsolute(xy(10.5, 20.0))))));
    let rel = structure("MouseMoveRelative", vec![("pointer_y", double(-2.0)), ("pointer_x", double(1.0))]);
    assert_eq!(handled(&rel), Ok(Some(Cmd::Input(InputEvent::PointerMotion(xy(1.0, -2.0))))));
    let press = structure("MouseButton", vec![("button", FieldValue::UInt(272)), ("pressed", FieldValue::Flag(true))]);
    assert_eq!(handled(&press), Ok(Some(Cmd::Input(InputEvent::PointerButton(272, ButtonState::Pressed)))));
    let release = structure("MouseButton", vec![("button", FieldValue::UInt(272)), ("pressed", FieldValue::Flag(false))]);
    assert_eq!(handled(&release), Ok(Some(Cmd::Input(InputEvent::PointerButton(272, ButtonState::Released)))));
    let axis = structure("MouseAxis", vec![("x", double(0.0)), ("y", double(15.0))]);
    assert_eq!(handled(&axis), Ok(Some(Cmd::Input(InputEvent::PointerAxis(xy(0.0, 15.0))))));
}

#[test]
fn keyboard_events() {
    let down = structure("KeyboardKey", vec![("key", FieldValue::UInt(30)), ("pressed", FieldValue::Flag(true))]);
    assert_eq!(handled(&down), Ok(Some(Cmd::Input(InputEvent::KeyboardInput(30, KeyState::Pressed)))));
    let up = structure("KeyboardKey", vec![("key", FieldValue::UInt(30)), ("pressed", FieldValue::Flag(false))]);
    assert_eq!(handled(&up), Ok(Some(Cmd::Input(InputEvent::KeyboardInput(30, KeyState::Released)))));
}

#[test]
fn touch_events() {
    let down = structure("TouchDown", vec![("x", double(0.25)), ("y", double(0.75)), ("id", FieldValue::UInt(2))]);
    assert_eq!(handled(&down), Ok(Some(Cmd::Input(InputEvent::TouchDown(2, xy(0.25, 0.75))))));
    let motion = structure("TouchMotion", vec![("id", FieldValue::UInt(2)), ("x", double(0.5)), ("y", double(0.5))]);
    assert_eq!(handled(&motion), Ok(Some(Cmd::Input(InputEvent::TouchMotion(2, xy(0.5, 0.5))))));
    let up = structure("TouchUp", vec![("id", FieldValue::UInt(2))]);
    assert_eq!(handled(&up), Ok(Some(Cmd::Input(InputEvent::TouchUp(2)))));
    assert_eq!(handled(&structure("TouchFrame", vec![])), Ok(Some(Cmd::Input(InputEvent::TouchFrame))));
    assert_eq!(handled(&structure("TouchCancel", vec![])), Ok(Some(Cmd::Input(InputEvent::TouchCancel))));
}

#[test]
fn missing_or_mistyped_fields() {
    let cases = vec![
        structure("MouseMoveAbsolute", vec![("pointer_x", double(1.0))]),
        structure("MouseMoveRelative", vec![("pointer_y", double(1.0))]),
        structure("MouseMoveRelative", vec![("pointer_x", FieldValue::UInt(1)), ("pointer_y", double(1.0))]),
        structure("MouseButton", vec![("button", FieldValue::UInt(1))]),
        structure("MouseButton", vec![("pressed", FieldValue::Flag(true))]),
        structure("MouseAxis", vec![("x", double(1.0))]),
        structure("KeyboardKey", vec![("key", FieldValue::Flag(true)), ("pressed", FieldValue::Flag(true))]),
        structure("TouchDown", vec![("x", double(1.0)), ("y", double(1.0))]),
        structure("TouchUp", vec![]),
        structure("TouchMotion", vec![("id", FieldValue::UInt(1)), ("x", double(1.0))]),
    ];
    for s in cases {
        assert_eq!(handled(&s), Err(EventError::MissingField));
    }
}

#[test]
fn first_field_of_a_name_counts() {
    let s = structure("TouchUp", vec![("id", FieldValue::UInt(1)), ("id", FieldValue::UInt(2))]);
    assert_eq!(handled(&s), Ok(Some(Cmd::Input(InputEvent::TouchUp(1)))));
    assert_eq!(s.field("id"), Some(&FieldValue::UInt(1)));
    assert_eq!(s.field("x"), None);
    assert_eq!(s.uint("id"), Some(1));
    assert_eq!(s.flag("id"), None);
    assert_eq!(s.double("id"), None);
    assert_eq!(s.text("id"), None);
    let t = structure("TouchUp", vec![("id", FieldValue::Flag(true)), ("id", FieldValue::UInt(2))]);
    assert_eq!(handled(&t), Err(EventError::MissingField));
}
