//! A window of either windowing stack, and what the two kinds of window
//! have in common.

use vstd::prelude::*;
use crate::compositor::{FocusTarget, Lifecycle, State};
use crate::geometry::{Rectangle, Size};
use crate::space::WindowId;
use crate::xwm::X11Window;

verus! {

/// A window: a top-level of the native windowing stack or a window of the X
/// server.
#[derive(Clone, Copy, Debug, PartialEq, Eq)]
pub enum Window {
    /// A native top-level, by the id of its surface, with its geometry.
    NativeSurface { surface: u64, geometry: Rectangle },
    /// An X11 window.
    X11Window(X11Window),
}

/// How a window is told to fill its output.
#[derive(Clone, Copy, Debug, PartialEq, Eq)]
pub enum ConfigureRequest {
    /// A native top-level is sent a configure with this size, fullscreen and
    /// activated, and sizes itself.
    Toplevel { size: Size },
    /// An X11 window is given this geometry outright.
    X11 { geometry: Rectangle },
}

impl Window {
    /// The window's identity.
    pub open spec fn window_id(self) -> WindowId {
        match self {
            Window::NativeSurface { surface, .. } => WindowId::Native(surface),
            Window::X11Window(w) => w.id(),
        }
    }

    /// What the window is as a holder of the keyboard focus.
    pub open spec fn focus_target(self) -> FocusTarget {
        match self {
            Window::NativeSurface { surface, .. } => FocusTarget {
                window: WindowId::Native(surface),
                connection: None,
            },
            Window::X11Window(w) => w.focus_target(),
        }
    }

    /// How the window is told to take up `size` at the origin of its output.
    pub open spec fn fill_request(self, size: Size) -> ConfigureRequest {
        match self {
            Window::NativeSurface { .. } => ConfigureRequest::Toplevel { size },
            Window::X11Window(_) => ConfigureRequest::X11 { geometry: Rectangle::covering(size) },
        }
    }

    /// The window's identity.
    pub fn id(&self) -> (id: WindowId)
        ensures
            id == self.window_id(),
    {
        match self {
            Window::NativeSurface { surface, .. } => WindowId::Native(*surface),
            Window::X11Window(w) => WindowId::X11(w.window),
        }
    }

    /// The window's geometry.
    pub fn geometry(&self) -> (geometry: Rectangle)
        ensures
            geometry == match *self {
                Window::NativeSurface { geometry, .. } => geometry,
                Window::X11Window(w) => w.geometry,
            },
    {
        match self {
            Window::NativeSurface { geometry, .. } => *geometry,
            Window::X11Window(w) => w.geometry,
        }
    }

    /// Tells whether the window places itself, which only an X11 window can
    /// ask for. Such a window is not routed.
    pub fn is_override_redirect(&self) -> (own_placement: bool)
        ensures
            own_placement == match *self {
                Window::NativeSurface { .. } => false,
                Window::X11Window(w) => w.override_redirect,
            },
    {
        match self {
            Window::NativeSurface { .. } => false,
            Window::X11Window(w) => w.override_redirect,
        }
    }

    /// The window as a holder of the keyboard focus.
    pub fn as_focus_target(&self) -> (target: FocusTarget)
        ensures
            target == self.focus_target(),
    {
        match self {
            Window::NativeSurface { surface, .. } => FocusTarget {
                window: WindowId::Native(*surface),
                connection: None,
            },
            Window::X11Window(w) => FocusTarget {
                window: WindowId::X11(w.window),
                connection: w.connection,
            },
        }
    }

    /// Tells the window to take up `size` at the origin of its output, each
    /// kind of window in its own way.
    pub fn configure(&self, size: Size) -> (request: ConfigureRequest)
        ensures
            request == self.fill_request(size),
    {
        match self {
            Window::NativeSurface { .. } => ConfigureRequest::Toplevel { size },
            Window::X11Window(_) => ConfigureRequest::X11 { geometry: Rectangle::at_origin(size) },
        }
    }
}

impl State {
    /// Forgets a window of either kind whose surface or X11 resource is
    /// gone. It leaves the space that shows it, the focus if it holds it, and
    /// the queue if it still waits. Returns the stage the window was in.
    pub fn window_destroyed(&mut self, window: &Window) -> (stage: Option<Lifecycle>)
        requires
            old(self).wf(),
        ensures
            final(self).wf(),
            final(self)@ == old(self)@.torn_down(window.window_id()),
            stage == old(self)@.lifecycle(window.window_id()),
            final(self)@.lifecycle(window.window_id()).is_none(),
    {
        self.teardown(window.id())
    }
}

} // verus!
