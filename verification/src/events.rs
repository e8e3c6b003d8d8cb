//! Input events as the media pipeline delivers them, a named structure with
//! fields, and the command each one becomes.

use vstd::prelude::*;
use vstd::string::*;
use crate::command::{ButtonState, Command, Coordinates, InputEvent, KeyState};
use crate::text::same_text;

verus! {

/// The value of one field of a structure.
#[derive(Debug, PartialEq, Eq)]
pub enum FieldValue {
    /// A text.
    Text(String),
    /// A floating-point number, as the 64 bits of its binary64 form.
    Double(u64),
    /// An unsigned number.
    UInt(u32),
    /// A truth value.
    Flag(bool),
}

/// A named field.
#[derive(Debug, PartialEq, Eq)]
pub struct Field {
    pub name: String,
    pub value: FieldValue,
}

/// A named structure with fields, as a custom event carries it.
#[derive(Debug, PartialEq, Eq)]
pub struct EventStructure {
    pub name: String,
    pub fields: Vec<Field>,
}

/// Why an event could not be turned into a command.
#[derive(Clone, Copy, Debug, PartialEq, Eq, Structural)]
pub enum EventError {
    /// A custom upstream event came without a structure.
    MissingStructure,
    /// A field that the event's kind needs is missing or of another type.
    MissingField,
}

/// True when `i` is the place of the first field of `fields` called `name`.
pub open spec fn is_field(fields: Seq<Field>, name: Seq<char>, i: int) -> bool {
    &&& 0 <= i < fields.len()
    &&& fields[i].name@ == name
    &&& forall|j: int| 0 <= j < i ==> (#[trigger] fields[j]).name@ != name
}

/// The value of the first field called `name`.
pub open spec fn field_value(fields: Seq<Field>, name: Seq<char>) -> Option<FieldValue> {
    if exists|i: int| is_field(fields, name, i) {
        Some(fields[choose|i: int| is_field(fields, name, i)].value)
    } else {
        None
    }
}

/// The field `name` read as a text.
pub open spec fn text_field(fields: Seq<Field>, name: Seq<char>) -> Option<String> {
    match field_value(fields, name) {
        Some(FieldValue::Text(t)) => Some(t),
        _ => None,
    }
}

/// The field `name` read as a floating-point number.
pub open spec fn double_field(fields: Seq<Field>, name: Seq<char>) -> Option<u64> {
    match field_value(fields, name) {
        Some(FieldValue::Double(d)) => Some(d),
        _ => None,
    }
}

/// The field `name` read as an unsigned number.
pub open spec fn uint_field(fields: Seq<Field>, name: Seq<char>) -> Option<u32> {
    match field_value(fields, name) {
        Some(FieldValue::UInt(u)) => Some(u),
        _ => None,
    }
}

/// The field `name` read as a truth value.
pub open spec fn flag_field(fields: Seq<Field>, name: Seq<char>) -> Option<bool> {
    match field_value(fields, name) {
        Some(FieldValue::Flag(b)) => Some(b),
        _ => None,
    }
}

/// Two fields read as a pair of coordinates.
pub open spec fn coordinates(fields: Seq<Field>, x: Seq<char>, y: Seq<char>) -> Option<
    Coordinates,
> {
    match (double_field(fields, x), double_field(fields, y)) {
        (Some(a), Some(b)) => Some(Coordinates { x: a, y: b }),
        _ => None,
    }
}

/// The input event that a structure stands for. `Ok(None)` means that the
/// structure is of no kind known here; an error, that it is of a known kind
/// and lacks a field of that kind.
pub open spec fn input_of(name: Seq<char>, fields: Seq<Field>) -> Result<
    Option<InputEvent>,
    EventError,
> {
    if name == "MouseMoveAbsolute"@ {
        match coordinates(fields, "pointer_x"@, "pointer_y"@) {
            Some(c) => Ok(Some(InputEvent::PointerMotionAbsolute(c))),
            None => Err(EventError::MissingField),
        }
    } else if name == "MouseMoveRelative"@ {
        match coordinates(fields, "pointer_x"@, "pointer_y"@) {
            Some(c) => Ok(Some(InputEvent::PointerMotion(c))),
            None => Err(EventError::MissingField),
        }
    } else if name == "MouseButton"@ {
        match (uint_field(fields, "button"@), flag_field(fields, "pressed"@)) {
            (Some(button), Some(pressed)) => Ok(
                Some(
                    InputEvent::PointerButton(
                        button,
                        if pressed {
                            ButtonState::Pressed
                        } else {
                            ButtonState::Released
                        },
                    ),
                ),
            ),
            _ => Err(EventError::MissingField),
        }
    } else if name == "MouseAxis"@ {
        match coordinates(fields, "x"@, "y"@) {
            Some(c) => Ok(Some(InputEvent::PointerAxis(c))),
            None => Err(EventError::MissingField),
        }
    } else if name == "KeyboardKey"@ {
        match (uint_field(fields, "key"@), flag_field(fields, "pressed"@)) {
            (Some(key), Some(pressed)) => Ok(
                Some(
                    InputEvent::KeyboardInput(
                        key,
                        if pressed {
                            KeyState::Pressed
                        } else {
                            KeyState::Released
                        },
                    ),
                ),
            ),
            _ => Err(EventError::MissingField),
        }
    } else if name == "TouchDown"@ {
        match (coordinates(fields, "x"@, "y"@), uint_field(fields, "id"@)) {
            (Some(c), Some(id)) => Ok(Some(InputEvent::TouchDown(id, c))),
            _ => Err(EventError::MissingField),
        }
    } else if name == "TouchUp"@ {
        match uint_field(fields, "id"@) {
            Some(id) => Ok(Some(InputEvent::TouchUp(id))),
            None => Err(EventError::MissingField),
        }
    } else if name == "TouchMotion"@ {
        match (coordinates(fields, "x"@, "y"@), uint_field(fields, "id"@)) {
            (Some(c), Some(id)) => Ok(Some(InputEvent::TouchMotion(id, c))),
            _ => Err(EventError::MissingField),
        }
    } else if name == "TouchFrame"@ {
        Ok(Some(InputEvent::TouchFrame))
    } else if name == "TouchCancel"@ {
        Ok(Some(InputEvent::TouchCancel))
    } else {
        Ok(None)
    }
}

/// The command that a structure stands for.
pub open spec fn command_of<F, R, P>(s: EventStructure) -> Result<
    Option<Command<F, R, P>>,
    EventError,
> {
    if s.name@ == "VirtualDevicesReady"@ {
        match text_field(s.fields@, "path"@) {
            Some(path) => Ok(Some(Command::InputDevice(path))),
            None => Err(EventError::MissingField),
        }
    } else {
        match input_of(s.name@, s.fields@) {
            Ok(Some(e)) => Ok(Some(Command::Input(e))),
            Ok(None) => Ok(None),
            Err(e) => Err(e),
        }
    }
}

/// The command that an event stands for. Only custom upstream events are
/// looked at, and such an event must carry a structure.
pub open spec fn event_command<F, R, P>(
    custom_upstream: bool,
    structure: Option<&EventStructure>,
) -> Result<Option<Command<F, R, P>>, EventError> {
    if !custom_upstream {
        Ok(None)
    } else {
        match structure {
            Some(s) => command_of(*s),
            None => Err(EventError::MissingStructure),
        }
    }
}

impl EventStructure {
    /// Finds the first field called `name`.
    pub fn field(&self, name: &str) -> (value: Option<&FieldValue>)
        ensures
            match value {
                Some(v) => field_value(self.fields@, name@) == Some(*v),
                None => field_value(self.fields@, name@).is_none(),
            },
    {
        let mut i: usize = 0;
        while i < self.fields.len()
            invariant
                i <= self.fields@.len(),
                forall|j: int| 0 <= j < i ==> (#[trigger] self.fields@[j]).name@ != name@,
            decreases self.fields@.len() - i,
        {
            if same_text(self.fields[i].name.as_str(), name) {
                proof {
                    let f = self.fields@;
                    assert(is_field(f, name@, i as int));
                    let c = choose|c: int| is_field(f, name@, c);
                    assert(is_field(f, name@, c));
                    if c < i {
                        assert(f[c].name@ != name@);
                    }
                    if i < c {
                        assert(f[i as int].name@ != name@);
                    }
                }
                return Some(&self.fields[i].value);
            }
            i += 1;
        }
        proof {
            let f = self.fields@;
            if exists|c: int| is_field(f, name@, c) {
                let c = choose|c: int| is_field(f, name@, c);
                assert(f[c].name@ != name@);
            }
        }
        None
    }

    /// Reads the field `name` as a text.
    pub fn text(&self, name: &str) -> (value: Option<&String>)
        ensures
            match value {
                Some(t) => text_field(self.fields@, name@) == Some(*t),
                None => text_field(self.fields@, name@).is_none(),
            },
    {
        match self.field(name) {
            Some(FieldValue::Text(t)) => Some(t),
            _ => None,
        }
    }

    /// Reads the field `name` as a floating-point number.
    pub fn double(&self, name: &str) -> (value: Option<u64>)
        ensures
            value == double_field(self.fields@, name@),
    {
        match self.field(name) {
            Some(FieldValue::Double(d)) => Some(*d),
            _ => None,
        }
    }

    /// Reads the field `name` as an unsigned number.
    pub fn uint(&self, name: &str) -> (value: Option<u32>)
        ensures
            value == uint_field(self.fields@, name@),
    {
        match self.field(name) {
            Some(FieldValue::UInt(u)) => Some(*u),
            _ => None,
        }
    }

    /// Reads the field `name` as a truth value.
    pub fn flag(&self, name: &str) -> (value: Option<bool>)
        ensures
            value == flag_field(self.fields@, name@),
    {
        match self.field(name) {
            Some(FieldValue::Flag(b)) => Some(*b),
            _ => None,
        }
    }

    /// Reads two fields as a pair of coordinates.
    pub fn coordinates(&self, x: &str, y: &str) -> (value: Option<Coordinates>)
        ensures
            value == coordinates(self.fields@, x@, y@),
    {
        match (self.double(x), self.double(y)) {
            (Some(a), Some(b)) => Some(Coordinates { x: a, y: b }),
            _ => None,
        }
    }

    /// Reads the structure as an input event.
    pub fn input_event(&self) -> (event: Result<Option<InputEvent>, EventError>)
        ensures
            event == input_of(self.name@, self.fields@),
    {
        let name = self.name.as_str();
        if same_text(name, "MouseMoveAbsolute") {
            match self.coordinates("pointer_x", "pointer_y") {
                Some(c) => Ok(Some(InputEvent::PointerMotionAbsolute(c))),
                None => Err(EventError::MissingField),
            }
        } else if same_text(name, "MouseMoveRelative") {
            match self.coordinates("pointer_x", "pointer_y") {
                Some(c) => Ok(Some(InputEvent::PointerMotion(c))),
                None => Err(EventError::MissingField),
            }
        } else if same_text(name, "MouseButton") {
            match (self.uint("button"), self.flag("pressed")) {
                (Some(button), Some(pressed)) => {
                    let state = if pressed {
                        ButtonState::Pressed
                    } else {
                        ButtonState::Released
                    };
                    Ok(Some(InputEvent::PointerButton(button, state)))
                },
                _ => Err(EventError::MissingField),
            }
        } else if same_text(name, "MouseAxis") {
            match self.coordinates("x", "y") {
                Some(c) => Ok(Some(InputEvent::PointerAxis(c))),
                None => Err(EventError::MissingField),
            }
        } else if same_text(name, "KeyboardKey") {
            match (self.uint("key"), self.flag("pressed")) {
                (Some(key), Some(pressed)) => {
                    let state = if pressed {
                        KeyState::Pressed
                    } else {
                        KeyState::Released
                    };
                    Ok(Some(InputEvent::KeyboardInput(key, state)))
                },
                _ => Err(EventError::MissingField),
            }
        } else if same_text(name, "TouchDown") {
            match (self.coordinates("x", "y"), self.uint("id")) {
                (Some(c), Some(id)) => Ok(Some(InputEvent::TouchDown(id, c))),
                _ => Err(EventError::MissingField),
            }
        } else if same_text(name, "TouchUp") {
            match self.uint("id") {
                Some(id) => Ok(Some(InputEvent::TouchUp(id))),
                None => Err(EventError::MissingField),
            }
        } else if same_text(name, "TouchMotion") {
            match (self.coordinates("x", "y"), self.uint("id")) {
                (Some(c), Some(id)) => Ok(Some(InputEvent::TouchMotion(id, c))),
                _ => Err(EventError::MissingField),
            }
        } else if same_text(name, "TouchFrame") {
            Ok(Some(InputEvent::TouchFrame))
        } else if same_text(name, "TouchCancel") {
            Ok(Some(InputEvent::TouchCancel))
        } else {
            Ok(None)
        }
    }
}

/// Turns an event of the pipeline into the command to send to the
/// compositor.
///
/// `custom_upstream` tells whether the event is of the custom upstream kind,
/// `structure` is the structure it carries. `Ok(None)` means that the event
/// is none of ours and goes on to the next handler.
pub fn handle_event<F, R, P>(custom_upstream: bool, structure: Option<&EventStructure>) -> (command:
    Result<Option<Command<F, R, P>>, EventError>)
    ensures
        command == event_command::<F, R, P>(custom_upstream, structure),
{
    if !custom_upstream {
        return Ok(None);
    }
    match structure {
        None => Err(EventError::MissingStructure),
        Some(s) => {
            if same_text(s.name.as_str(), "VirtualDevicesReady") {
                match s.text("path") {
                    Some(path) => Ok(Some(Command::InputDevice(path.clone()))),
                    None => Err(EventError::MissingField),
                }
            } else {
                match s.input_event() {
                    Ok(Some(e)) => Ok(Some(Command::Input(e))),
                    Ok(None) => Ok(None),
                    Err(e) => Err(e),
                }
            }
        },
    }
}

} // verus!
