//! X11 windows: the same placement policy as for native top-levels, applied
//! to the requests of an X window manager, and the rules by which the
//! clipboard is shared with X11 clients.

use vstd::prelude::*;
use crate::compositor::{is_pending, FocusTarget, State, StateView, XwmId};
use crate::geometry::{Rectangle, Size};
use crate::output::Output;
use crate::routing::OutputKind;
use crate::space::{holds, lemma_relocated, lemma_without, relocated, without, WindowId};

verus! {

/// An X11 window as its requests describe it.
#[derive(Clone, Copy, Debug, PartialEq, Eq)]
pub struct X11Window {
    /// The X11 window id.
    pub window: u32,
    /// The window manager connection the window belongs to, where known.
    pub connection: Option<XwmId>,
    /// Whether the window opted out of the window manager's placement, as
    /// menus and tooltips do.
    pub override_redirect: bool,
    /// The geometry the window has or asks for.
    pub geometry: Rectangle,
}

/// The kind of selection an X11 client speaks of.
#[derive(Clone, Copy, Debug, PartialEq, Eq, Structural)]
pub enum SelectionTarget {
    Clipboard,
    Primary,
}

/// What the caller has to do after a map request.
#[derive(Clone, Copy, Debug, PartialEq, Eq)]
pub enum MapRequestOutcome {
    /// The window could not be marked as mapped; nothing changed.
    Refused,
    /// The window was mapped at the origin of `target` and holds the
    /// keyboard focus. Where `configure` is set, the window is to be given
    /// that geometry, which fills the output.
    Mapped { target: OutputKind, configure: Option<Rectangle> },
}

/// What the caller has to do after a window was unmapped or destroyed.
#[derive(Clone, Copy, Debug, PartialEq, Eq)]
pub struct UnmapOutcome {
    /// The space that showed the window, if one did.
    pub space: Option<OutputKind>,
    /// Whether the window is to be marked as unmapped towards the X server.
    pub mark_unmapped: bool,
}

impl X11Window {
    /// The window's identity.
    pub open spec fn id(self) -> WindowId {
        WindowId::X11(self.window)
    }

    /// The window as a holder of the keyboard focus.
    pub open spec fn focus_target(self) -> FocusTarget {
        FocusTarget { window: self.id(), connection: self.connection }
    }
}

/// The geometry that fills `output`, where there is an output with a mode.
pub open spec fn fill_geometry(output: Option<Output>) -> Option<Rectangle> {
    match output {
        Some(o) => match o.fill_size() {
            Some(size) => Some(Rectangle::covering(size)),
            None => None,
        },
        None => None,
    }
}

/// A width or height as the X server sent it, read as a signed number of the
/// same 32 bits.
pub open spec fn as_signed(v: u32) -> i32 {
    if v <= i32::MAX {
        v as i32
    } else {
        (v - 0x1_0000_0000) as i32
    }
}

/// The geometry a window is given when it asks to be configured: its size
/// may change as asked, its position is kept.
pub open spec fn requested_geometry(current: Rectangle, w: Option<u32>, h: Option<u32>) -> Rectangle {
    Rectangle {
        loc: current.loc,
        size: Size {
            w: match w {
                Some(v) => as_signed(v),
                None => current.size.w,
            },
            h: match h {
                Some(v) => as_signed(v),
                None => current.size.h,
            },
        },
    }
}

/// True when the window that holds the focus is an X11 window of the
/// connection `xwm`.
pub open spec fn focus_belongs_to(focus: Option<FocusTarget>, xwm: XwmId) -> bool {
    match focus {
        Some(f) => f.window is X11 && f.connection == Some(xwm),
        None => false,
    }
}

impl StateView {
    /// What a map request for `window` does, given whether the window could
    /// be marked as mapped.
    pub open spec fn map_window_request(self, window: X11Window, marked: bool) -> (
        StateView,
        MapRequestOutcome,
    ) {
        if marked {
            let kind = self.placement(window.id());
            (
                self.map_toplevel(window.focus_target()),
                MapRequestOutcome::Mapped {
                    target: kind,
                    configure: fill_geometry(self.output_of(kind)),
                },
            )
        } else {
            (self, MapRequestOutcome::Refused)
        }
    }

    /// An override-redirect window is shown in the primary space where it
    /// asks to be, and in no other space.
    pub open spec fn mapped_override_redirect(self, window: X11Window) -> StateView {
        StateView {
            secondary: without(self.secondary, window.id()),
            ..self.with_mapped(OutputKind::Primary, window.id(), window.geometry.loc)
        }
    }

    /// A window that moved by itself is shown at its new position by the
    /// space that holds it; stack and focus stay.
    pub open spec fn configure_notify(self, window: X11Window, geometry: Rectangle) -> StateView {
        StateView {
            primary: relocated(self.primary, window.id(), geometry.loc),
            secondary: relocated(self.secondary, window.id(), geometry.loc),
            ..self
        }
    }

    /// The geometry a window gets when it asks for fullscreen: that of the
    /// output whose space shows it, the primary output for a window that no
    /// space shows.
    pub open spec fn fullscreen_geometry(self, window: X11Window) -> Option<Rectangle> {
        if holds(self.secondary, window.id()) {
            fill_geometry(self.secondary_output)
        } else {
            fill_geometry(self.output)
        }
    }
}

/// Reads 32 bits from the X server as a signed number.
fn to_signed(v: u32) -> (r: i32)
    ensures
        r == as_signed(v),
{
    if v <= 0x7fff_ffff {
        v as i32
    } else {
        let low: u32 = v - 0x8000_0000;
        (low as i32) + i32::MIN
    }
}

/// The geometry that fills `output`.
fn geometry_filling(output: Option<Output>) -> (g: Option<Rectangle>)
    ensures
        g == fill_geometry(output),
{
    match output {
        Some(o) => match o.current_fill_size() {
            Some(size) => Some(Rectangle::at_origin(size)),
            None => None,
        },
        None => None,
    }
}

/// Tells whether requests that concern the selection `target` are passed on
/// between the X11 clients and the seat. The clipboard is; the primary
/// selection is left alone.
pub fn forwards_selection(target: SelectionTarget) -> (forwarded: bool)
    ensures
        forwarded == (target == SelectionTarget::Clipboard),
{
    match target {
        SelectionTarget::Clipboard => true,
        SelectionTarget::Primary => false,
    }
}

/// Tells whether the seat's selection is to be cleared after an X11 client
/// cleared `target`: only for the clipboard, and only while the seat holds a
/// selection that came from X11.
pub fn clears_selection(target: SelectionTarget, seat_holds_x11_selection: bool) -> (cleared: bool)
    ensures
        cleared == (target == SelectionTarget::Clipboard && seat_holds_x11_selection),
{
    forwards_selection(target) && seat_holds_x11_selection
}

impl State {
    /// Takes note that the X window manager `xwm` is connected.
    pub fn xwm_connected(&mut self, xwm: XwmId)
        ensures
            final(self)@ == (StateView { xwm: Some(xwm), ..old(self)@ }),
    {
        self.xwm = Some(xwm);
    }

    /// Handles the request of an X11 window to be mapped.
    ///
    /// The caller first marks the window as mapped towards the X server and
    /// passes on in `marked` whether that worked. Where it did, the window is
    /// routed like a native top-level, mapped at the origin, counted, and
    /// given the focus; the outcome also holds the geometry to configure the
    /// window with, since an X11 client does not size itself to its output.
    pub fn map_window_request(&mut self, window: X11Window, marked: bool) -> (outcome:
        MapRequestOutcome)
        requires
            old(self).wf(),
        ensures
            final(self).wf(),
            (final(self)@, outcome) == old(self)@.map_window_request(window, marked),
    {
        if !marked {
            return MapRequestOutcome::Refused;
        }
        let id = WindowId::X11(window.window);
        let target = FocusTarget { window: id, connection: window.connection };
        proof {
            lemma_x11_not_pending(old(self)@, id);
        }
        let kind = self.map_toplevel(target);
        let configure = geometry_filling(self.output_of(kind));
        MapRequestOutcome::Mapped { target: kind, configure }
    }

    /// Shows an override-redirect window. Such a window is not routed: it
    /// goes to the primary space, at the position it asks for, and neither
    /// the count of top-levels nor the focus changes.
    pub fn mapped_override_redirect_window(&mut self, window: X11Window)
        requires
            old(self).wf(),
        ensures
            final(self).wf(),
            final(self)@ == old(self)@.mapped_override_redirect(window),
    {
        let id = WindowId::X11(window.window);
        proof {
            lemma_x11_not_pending(old(self)@, id);
            lemma_without(old(self)@.primary, id);
            lemma_without(without(old(self)@.primary, id), id);
        }
        self.place(OutputKind::Primary, id, window.geometry.loc);
    }

    /// Takes an unmapped window out of the space that shows it, and out of
    /// the focus if it holds it. A window that no space shows changes
    /// nothing.
    pub fn unmapped_window(&mut self, window: X11Window) -> (outcome: UnmapOutcome)
        requires
            old(self).wf(),
        ensures
            final(self).wf(),
            final(self)@ == old(self)@.removed(window.id()),
            outcome == (UnmapOutcome {
                space: old(self)@.holder(window.id()),
                mark_unmapped: !window.override_redirect,
            }),
    {
        let id = WindowId::X11(window.window);
        let space = self.holder(id);
        let _ = self.remove_window(id);
        UnmapOutcome { space, mark_unmapped: !window.override_redirect }
    }

    /// Takes a destroyed window down as [`State::unmapped_window`] does.
    pub fn destroyed_window(&mut self, window: X11Window) -> (outcome: UnmapOutcome)
        requires
            old(self).wf(),
        ensures
            final(self).wf(),
            final(self)@ == old(self)@.removed(window.id()),
            outcome == (UnmapOutcome {
                space: old(self)@.holder(window.id()),
                mark_unmapped: !window.override_redirect,
            }),
    {
        self.unmapped_window(window)
    }

    /// Answers a window's request to be configured with the geometry to give
    /// it: the size it asks for at the position it has.
    pub fn configure_request(
        &self,
        window: X11Window,
        x: Option<i32>,
        y: Option<i32>,
        w: Option<u32>,
        h: Option<u32>,
    ) -> (geometry: Rectangle)
        ensures
            geometry == requested_geometry(window.geometry, w, h),
    {
        let width = match w {
            Some(v) => to_signed(v),
            None => window.geometry.size.w,
        };
        let height = match h {
            Some(v) => to_signed(v),
            None => window.geometry.size.h,
        };
        Rectangle { loc: window.geometry.loc, size: Size { w: width, h: height } }
    }

    /// Follows a window that changed its position by itself. Returns the
    /// space that shows the window, if one does.
    pub fn configure_notify(&mut self, window: X11Window, geometry: Rectangle) -> (space: Option<
        OutputKind,
    >)
        requires
            old(self).wf(),
        ensures
            final(self).wf(),
            final(self)@ == old(self)@.configure_notify(window, geometry),
            space == old(self)@.holder(window.id()),
    {
        let id = WindowId::X11(window.window);
        proof {
            lemma_relocated(old(self)@.primary, id, geometry.loc);
            lemma_relocated(old(self)@.secondary, id, geometry.loc);
        }
        let a = self.space.relocate(id, geometry.loc);
        let b = self.secondary_space.relocate(id, geometry.loc);
        if a {
            Some(OutputKind::Primary)
        } else if b {
            Some(OutputKind::Secondary)
        } else {
            None
        }
    }

    /// Answers a window's request for fullscreen with the geometry to give
    /// it, or with `None` where its output is missing or has no mode.
    pub fn fullscreen_request(&self, window: X11Window) -> (geometry: Option<Rectangle>)
        ensures
            geometry == self@.fullscreen_geometry(window),
    {
        let id = WindowId::X11(window.window);
        if self.secondary_space.contains(id) {
            geometry_filling(self.secondary_output)
        } else {
            geometry_filling(self.output)
        }
    }

    /// Turns down an interactive resize: a window always has the size of its
    /// output.
    pub fn resize_request(&self, window: X11Window, button: u32) -> (accepted: bool)
        ensures
            !accepted,
    {
        false
    }

    /// Turns down an interactive move: a window always lies at the origin of
    /// its output.
    pub fn move_request(&self, window: X11Window, button: u32) -> (accepted: bool)
        ensures
            !accepted,
    {
        false
    }

    /// Tells whether the connection `xwm` may read the selection: only while
    /// the window that holds the keyboard focus is one of its own.
    pub fn allow_selection_access(&self, xwm: XwmId, selection: SelectionTarget) -> (allowed: bool)
        ensures
            allowed == focus_belongs_to(self@.focus, xwm),
    {
        match self.focus {
            Some(f) => {
                let is_x11 = match f.window {
                    WindowId::X11(_) => true,
                    WindowId::Native(_) => false,
                };
                match f.connection {
                    Some(c) => is_x11 && c == xwm,
                    None => false,
                }
            },
            None => false,
        }
    }

    /// Forgets the X window manager after it disconnected. Windows and
    /// outputs stay as they are.
    pub fn disconnected(&mut self, xwm: XwmId)
        ensures
            final(self)@ == (StateView { xwm: None, ..old(self)@ }),
    {
        self.xwm = None;
    }
}

/// A request that reaches the compositor through the X window manager.
#[derive(Clone, Copy, Debug, PartialEq, Eq)]
pub enum X11Request {
    /// A window asks to be mapped; `marked` tells whether it could be marked
    /// as mapped towards the X server.
    MapWindow { window: X11Window, marked: bool },
    /// An override-redirect window was mapped.
    MappedOverrideRedirect { window: X11Window },
    /// A window was unmapped.
    Unmapped { window: X11Window },
    /// A window was destroyed.
    Destroyed { window: X11Window },
    /// A window asks for a position and a size.
    Configure { window: X11Window, x: Option<i32>, y: Option<i32>, w: Option<u32>, h: Option<u32> },
    /// A window changed its geometry by itself.
    ConfigureNotify { window: X11Window, geometry: Rectangle },
    /// A window asks for fullscreen.
    Fullscreen { window: X11Window },
    /// A window asks to be resized by the pointer.
    Resize { window: X11Window, button: u32 },
    /// A window asks to be moved by the pointer.
    Move { window: X11Window, button: u32 },
    /// The connection asks whether it may read a selection.
    SelectionAccess { selection: SelectionTarget },
}

/// What the caller has to do after a request of the X window manager.
#[derive(Clone, Copy, Debug, PartialEq, Eq)]
pub enum X11Response {
    /// No window manager is connected: the request was dropped and nothing
    /// changed.
    NotConnected,
    /// See [`MapRequestOutcome`].
    Mapping(MapRequestOutcome),
    /// The override-redirect window is shown in the primary space.
    Shown,
    /// See [`UnmapOutcome`].
    Unmapping(UnmapOutcome),
    /// Give the window this geometry.
    Configure(Rectangle),
    /// The window was moved in this space, if one shows it.
    Moved(Option<OutputKind>),
    /// Set the window fullscreen with this geometry, if there is one.
    Fullscreen(Option<Rectangle>),
    /// The request was turned down.
    Rejected,
    /// Whether the connection may read the selection.
    SelectionAccess(bool),
}

impl StateView {
    /// What a request of the connection `xwm` does. While no window manager
    /// is connected every request is dropped: nothing changes, and nothing is
    /// left for the caller to do.
    pub open spec fn x11_request(self, xwm: XwmId, request: X11Request) -> (
        StateView,
        X11Response,
    ) {
        if self.xwm.is_none() {
            (self, X11Response::NotConnected)
        } else {
            match request {
                X11Request::MapWindow { window, marked } => (
                    self.map_window_request(window, marked).0,
                    X11Response::Mapping(self.map_window_request(window, marked).1),
                ),
                X11Request::MappedOverrideRedirect { window } => (
                    self.mapped_override_redirect(window),
                    X11Response::Shown,
                ),
                X11Request::Unmapped { window } => (
                    self.removed(window.id()),
                    X11Response::Unmapping(
                        UnmapOutcome {
                            space: self.holder(window.id()),
                            mark_unmapped: !window.override_redirect,
                        },
                    ),
                ),
                X11Request::Destroyed { window } => (
                    self.removed(window.id()),
                    X11Response::Unmapping(
                        UnmapOutcome {
                            space: self.holder(window.id()),
                            mark_unmapped: !window.override_redirect,
                        },
                    ),
                ),
                X11Request::Configure { window, x, y, w, h } => (
                    self,
                    X11Response::Configure(requested_geometry(window.geometry, w, h)),
                ),
                X11Request::ConfigureNotify { window, geometry } => (
                    self.configure_notify(window, geometry),
                    X11Response::Moved(self.holder(window.id())),
                ),
                X11Request::Fullscreen { window } => (
                    self,
                    X11Response::Fullscreen(self.fullscreen_geometry(window)),
                ),
                X11Request::Resize { .. } => (self, X11Response::Rejected),
                X11Request::Move { .. } => (self, X11Response::Rejected),
                X11Request::SelectionAccess { .. } => (
                    self,
                    X11Response::SelectionAccess(focus_belongs_to(self.focus, xwm)),
                ),
            }
        }
    }
}

impl State {
    /// Handles a request that the connection `xwm` of the X window manager
    /// passes on. After the window manager disconnected, and until one
    /// connects again, requests are dropped; native clients are served as
    /// before.
    pub fn handle_x11(&mut self, xwm: XwmId, request: X11Request) -> (response: X11Response)
        requires
            old(self).wf(),
        ensures
            final(self).wf(),
            (final(self)@, response) == old(self)@.x11_request(xwm, request),
    {
        if self.xwm.is_none() {
            return X11Response::NotConnected;
        }
        match request {
            X11Request::MapWindow { window, marked } => X11Response::Mapping(
                self.map_window_request(window, marked),
            ),
            X11Request::MappedOverrideRedirect { window } => {
                self.mapped_override_redirect_window(window);
                X11Response::Shown
            },
            X11Request::Unmapped { window } => X11Response::Unmapping(self.unmapped_window(window)),
            X11Request::Destroyed { window } => X11Response::Unmapping(self.destroyed_window(window)),
            X11Request::Configure { window, x, y, w, h } => X11Response::Configure(
                self.configure_request(window, x, y, w, h),
            ),
            X11Request::ConfigureNotify { window, geometry } => X11Response::Moved(
                self.configure_notify(window, geometry),
            ),
            X11Request::Fullscreen { window } => X11Response::Fullscreen(
                self.fullscreen_request(window),
            ),
            X11Request::Resize { window, button } => {
                let _ = self.resize_request(window, button);
                X11Response::Rejected
            },
            X11Request::Move { window, button } => {
                let _ = self.move_request(window, button);
                X11Response::Rejected
            },
            X11Request::SelectionAccess { selection } => X11Response::SelectionAccess(
                self.allow_selection_access(xwm, selection),
            ),
        }
    }
}

/// An X11 window never waits in the queue of native top-levels.
pub proof fn lemma_x11_not_pending(s: StateView, w: WindowId)
    requires
        s.wf(),
        w is X11,
    ensures
        !is_pending(s.pending, w),
{
    if is_pending(s.pending, w) {
        let i = choose|i: int| 0 <= i < s.pending.len() && (#[trigger] s.pending[i]).window == w;
        assert(s.pending[i].window is Native);
    }
}

} // verus!
