//! What the two video source elements have in common: the values of their
//! properties, how they answer a change of state, and how a stream ends.

use vstd::prelude::*;

verus! {

/// The value of an element's property.
#[derive(Debug, PartialEq, Eq)]
pub enum PropertyValue {
    /// A text, which may be unset.
    Text(Option<String>),
    /// A switch.
    Flag(bool),
}

/// Why a property could not be read or written.
#[derive(Clone, Copy, Debug, PartialEq, Eq, Structural)]
pub enum PropertyError {
    /// The element has no property of that name.
    UnknownProperty,
    /// The value is not of the property's type.
    WrongType,
}

/// How a change of state ended well.
#[derive(Clone, Copy, Debug, PartialEq, Eq, Structural)]
pub enum StateChangeSuccess {
    Success,
    Async,
    NoPreroll,
}

/// A change of state that failed.
#[derive(Clone, Copy, Debug, PartialEq, Eq, Structural)]
pub struct StateChangeError;

/// How a stream ends for the element that produces it.
#[derive(Clone, Copy, Debug, PartialEq, Eq, Structural)]
pub enum FlowError {
    /// The stream is over.
    Eos,
}

/// The answer of a live source to a change of state, given the answer of
/// the element it builds on and whether the change leads to the paused state.
/// A live source has no data to show while paused, so a success on the way to
/// paused becomes `NoPreroll`; every other answer is passed on.
pub fn live_change_state(
    parent: Result<StateChangeSuccess, StateChangeError>,
    next_is_paused: bool,
) -> (answer: Result<StateChangeSuccess, StateChangeError>)
    ensures
        answer == if parent == Ok::<StateChangeSuccess, StateChangeError>(
            StateChangeSuccess::Success,
        ) && next_is_paused {
            Ok::<StateChangeSuccess, StateChangeError>(StateChangeSuccess::NoPreroll)
        } else {
            parent
        },
{
    match parent {
        Ok(StateChangeSuccess::Success) => {
            if next_is_paused {
                Ok(StateChangeSuccess::NoPreroll)
            } else {
                Ok(StateChangeSuccess::Success)
            }
        },
        other => other,
    }
}

} // verus!
