//! Outputs: the virtual displays that the spaces are rendered to.

use vstd::prelude::*;
use crate::geometry::Size;

verus! {

/// The mode an output currently runs in.
#[derive(Clone, Copy, Debug, PartialEq, Eq)]
pub struct OutputMode {
    /// Size in physical pixels.
    pub size: Size,
    /// Refresh rate in millihertz.
    pub refresh: i32,
    /// The size in logical pixels, that is `size` taken through the output's
    /// scale factor by the display stack.
    pub logical_size: Size,
}

/// An output as the placement logic reads it.
#[derive(Clone, Copy, Debug, PartialEq, Eq)]
pub struct Output {
    /// The current mode; an output that was not given one yet has none.
    pub mode: Option<OutputMode>,
}

impl Output {
    /// The extent a window must take to fill the output, where the output has
    /// a mode.
    pub open spec fn fill_size(self) -> Option<Size> {
        match self.mode {
            Some(m) => Some(m.logical_size),
            None => None,
        }
    }

    /// The extent a window must take to fill the output.
    pub fn current_fill_size(&self) -> (size: Option<Size>)
        ensures
            size == self.fill_size(),
    {
        match self.mode {
            Some(m) => Some(m.logical_size),
            None => None,
        }
    }
}

} // verus!
