//! The compositor's window state and the life of a native surface from its
//! first commit to being mapped.

use vstd::prelude::*;
use crate::geometry::{Point, Size};
use crate::output::Output;
use crate::routing::{chosen_output, decide, OutputKind};
use crate::space::{
    distinct, holds, lemma_mapped, lemma_without, mapped, without, Placement, Space, WindowId,
};

verus! {

/// The stages a window passes through. A window only ever moves forward
/// through them, until it is torn down.
#[derive(Clone, Copy, Debug, PartialEq, Eq, Structural)]
pub enum Lifecycle {
    /// Known, not yet sent its first configure.
    Pending,
    /// Sent its first configure, not yet shown.
    Configured,
    /// Shown in a space.
    Mapped,
}

/// The identity of one connection of an X window manager.
#[derive(Clone, Copy, Debug, PartialEq, Eq, Structural)]
pub struct XwmId {
    pub id: u64,
}

/// A top-level that asked for its first configuration and is not mapped yet.
#[derive(Clone, Copy, Debug, PartialEq, Eq, Structural)]
pub struct PendingWindow {
    pub window: WindowId,
    /// Whether its first configure was sent.
    pub configured: bool,
}

/// The window that holds keyboard focus.
#[derive(Clone, Copy, Debug, PartialEq, Eq)]
pub struct FocusTarget {
    pub window: WindowId,
    /// For an X11 window, the connection it belongs to.
    pub connection: Option<XwmId>,
}

/// What the caller has to do after a surface committed.
#[derive(Clone, Copy, Debug, PartialEq, Eq)]
pub enum CommitOutcome {
    /// Send the top-level its first configure: always activated, and where
    /// the client asked for no size of its own, fullscreen at `size`.
    Configure { target: OutputKind, size: Option<Size>, fullscreen: bool },
    /// The top-level cannot be routed yet. Nothing changed; a later commit
    /// tries again.
    Deferred,
    /// The top-level was mapped at the origin of `target` and holds the
    /// keyboard focus now.
    Mapped { target: OutputKind },
    /// The surface is a popup that was never configured: send it its first
    /// configure.
    ConfigurePopup,
    /// The surface is a top-level shown in `space`: pass the commit on to it.
    Committed { space: OutputKind },
    /// Nothing to do.
    Ignored,
}

/// An internal error from which the compositor does not recover.
#[derive(Clone, Copy, Debug, PartialEq, Eq, Structural)]
pub enum Fatal {
    /// A popup's first configure was turned down, which the protocol rules
    /// out.
    PopupConfigureFailed,
}

/// The window state as mathematics: what the contracts speak of.
#[verifier::ext_equal]
pub struct StateView {
    pub primary: Seq<Placement>,
    pub secondary: Seq<Placement>,
    pub output: Option<Output>,
    pub secondary_output: Option<Output>,
    pub pending: Seq<PendingWindow>,
    pub focus: Option<FocusTarget>,
    pub toplevel_count: nat,
    pub multi_output_enabled: bool,
    pub xwm: Option<XwmId>,
}

/// The count of mapped top-levels after one more was mapped. The count is
/// kept in 64 bits and starts again at zero after the largest value.
pub open spec fn next_count(count: nat) -> nat {
    if count >= u64::MAX {
        0
    } else {
        count + 1
    }
}

/// True when `w` waits in the queue `p`.
pub open spec fn is_pending(p: Seq<PendingWindow>, w: WindowId) -> bool {
    exists|i: int| 0 <= i < p.len() && (#[trigger] p[i]).window == w
}

/// The place of `w` in the queue `p`, where it waits there.
pub open spec fn pending_place(p: Seq<PendingWindow>, w: WindowId) -> int {
    choose|i: int| 0 <= i < p.len() && (#[trigger] p[i]).window == w
}

/// The queue `p` after the entry at `i` left it: the last entry takes its
/// place.
pub open spec fn dequeued(p: Seq<PendingWindow>, i: int) -> Seq<PendingWindow> {
    p.update(i, p.last()).drop_last()
}

/// What leaving the queue does to it.
pub proof fn lemma_dequeued(p: Seq<PendingWindow>, i: int)
    requires
        0 <= i < p.len(),
        forall|a: int, b: int|
            0 <= a < b < p.len() ==> (#[trigger] p[a]).window != (#[trigger] p[b]).window,
    ensures
        dequeued(p, i).len() == p.len() - 1,
        forall|j: int|
            0 <= j < p.len() - 1 ==> #[trigger] dequeued(p, i)[j] == if j == i {
                p[p.len() - 1]
            } else {
                p[j]
            },
        forall|a: int, b: int|
            0 <= a < b < p.len() - 1 ==> (#[trigger] dequeued(p, i)[a]).window != (
            #[trigger] dequeued(p, i)[b]).window,
        !is_pending(dequeued(p, i), p[i].window),
        forall|v: WindowId| v != p[i].window ==> is_pending(dequeued(p, i), v) == is_pending(p, v),
{
    let q = dequeued(p, i);
    let n = p.len() - 1;
    assert forall|j: int| 0 <= j < n implies #[trigger] q[j] == if j == i {
        p[n]
    } else {
        p[j]
    } by {}
    assert forall|a: int, b: int| 0 <= a < b < n implies (#[trigger] q[a]).window != (
    #[trigger] q[b]).window by {
        let x = if a == i { n } else { a };
        let y = if b == i { n } else { b };
        if x < y {
            assert(p[x].window != p[y].window);
        } else {
            assert(p[y].window != p[x].window);
        }
    }
    assert(!is_pending(q, p[i].window)) by {
        if is_pending(q, p[i].window) {
            let j = choose|j: int| 0 <= j < q.len() && (#[trigger] q[j]).window == p[i].window;
            let x = if j == i { n } else { j };
            if x < i {
                assert(p[x].window != p[i].window);
            } else {
                assert(p[i].window != p[x].window);
            }
        }
    }
    assert forall|v: WindowId| v != p[i].window implies is_pending(q, v) == is_pending(p, v) by {
        if is_pending(q, v) {
            let j = choose|j: int| 0 <= j < q.len() && (#[trigger] q[j]).window == v;
            let x = if j == i { n } else { j };
            assert(p[x].window == v);
        }
        if is_pending(p, v) {
            let j = choose|j: int| 0 <= j < p.len() && (#[trigger] p[j]).window == v;
            if j == n {
                assert(q[i].window == v);
            } else {
                assert(q[j].window == v);
            }
        }
    }
}

impl StateView {
    /// The output of one kind, where it exists.
    pub open spec fn output_of(self, kind: OutputKind) -> Option<Output> {
        match kind {
            OutputKind::Primary => self.output,
            OutputKind::Secondary => self.secondary_output,
        }
    }

    /// The space that shows `w`, if one does.
    pub open spec fn holder(self, w: WindowId) -> Option<OutputKind> {
        if holds(self.primary, w) {
            Some(OutputKind::Primary)
        } else if holds(self.secondary, w) {
            Some(OutputKind::Secondary)
        } else {
            None
        }
    }

    /// The stage `w` is in, if the compositor knows `w`.
    pub open spec fn lifecycle(self, w: WindowId) -> Option<Lifecycle> {
        if self.holder(w).is_some() {
            Some(Lifecycle::Mapped)
        } else if is_pending(self.pending, w) {
            if self.pending[pending_place(self.pending, w)].configured {
                Some(Lifecycle::Configured)
            } else {
                Some(Lifecycle::Pending)
            }
        } else {
            None
        }
    }

    /// No window is shown twice, none is in both spaces, a window that waits
    /// is a native top-level that waits once and is not shown, and the window
    /// that holds the focus is shown.
    pub open spec fn wf(self) -> bool {
        &&& match self.focus {
            Some(f) => self.holder(f.window).is_some(),
            None => true,
        }
        &&& distinct(self.primary)
        &&& distinct(self.secondary)
        &&& forall|w: WindowId| !(holds(self.primary, w) && holds(self.secondary, w))
        &&& forall|i: int, j: int|
            0 <= i < j < self.pending.len() ==> (#[trigger] self.pending[i]).window
                != (#[trigger] self.pending[j]).window
        &&& forall|i: int|
            0 <= i < self.pending.len() ==> {
                &&& (#[trigger] self.pending[i]).window is Native
                &&& !holds(self.primary, self.pending[i].window)
                &&& !holds(self.secondary, self.pending[i].window)
            }
    }

    /// The output that the routing policy picks for the next top-level.
    pub open spec fn route(self) -> OutputKind {
        chosen_output(
            self.primary.len(),
            self.secondary_output.is_some(),
            self.secondary.len(),
            self.multi_output_enabled,
        )
    }

    /// Where `w` is placed when it is mapped: a window that a space already
    /// shows stays with that space, any other goes where the policy says.
    pub open spec fn placement(self, w: WindowId) -> OutputKind {
        match self.holder(w) {
            Some(kind) => kind,
            None => self.route(),
        }
    }

    /// The state with `w` put at `loc` into the space of `kind`.
    pub open spec fn with_mapped(self, kind: OutputKind, w: WindowId, loc: Point) -> StateView {
        match kind {
            OutputKind::Primary => StateView { primary: mapped(self.primary, w, loc), ..self },
            OutputKind::Secondary => StateView {
                secondary: mapped(self.secondary, w, loc),
                ..self
            },
        }
    }

    /// Mapping a top-level: it is placed at the origin of its space, the
    /// count of mapped top-levels goes on by one, and it takes the focus.
    pub open spec fn map_toplevel(self, target: FocusTarget) -> StateView {
        StateView {
            toplevel_count: next_count(self.toplevel_count),
            focus: Some(target),
            ..self.with_mapped(self.placement(target.window), target.window, Point::origin())
        }
    }

    /// Taking a window down: it leaves the space that shows it and gives up
    /// the focus if it holds it.
    pub open spec fn removed(self, w: WindowId) -> StateView {
        StateView {
            primary: without(self.primary, w),
            secondary: without(self.secondary, w),
            focus: match self.focus {
                Some(f) => if f.window == w {
                    None
                } else {
                    self.focus
                },
                None => None,
            },
            ..self
        }
    }

    /// Forgetting a window altogether: it is taken down, and where it still
    /// waits it leaves the queue.
    pub open spec fn torn_down(self, w: WindowId) -> StateView {
        if is_pending(self.pending, w) {
            StateView {
                pending: dequeued(self.pending, pending_place(self.pending, w)),
                ..self.removed(w)
            }
        } else {
            self.removed(w)
        }
    }

    /// True when commits of waiting top-levels are acted on: the primary
    /// output exists, and so does the output that the policy picks. While
    /// the primary output is missing every such commit is put off, also one
    /// that the policy would send to the secondary output.
    pub open spec fn can_route(self) -> bool {
        self.output.is_some() && self.output_of(self.route()).is_some()
    }

    /// True when the first configure of a top-level bound for `kind` can be
    /// sent: commits are acted on, and the output of `kind` has a mode where
    /// the client left the size to the compositor.
    pub open spec fn can_configure(self, kind: OutputKind, max_size: Size) -> bool {
        self.can_route() && match self.output_of(kind) {
            Some(o) => max_size.unset() ==> o.mode.is_some(),
            None => false,
        }
    }

    /// The commit of a surface that is a waiting top-level at place `i`.
    pub open spec fn commit_pending(self, i: int, max_size: Size) -> (StateView, CommitOutcome) {
        let entry = self.pending[i];
        let kind = self.route();
        if !entry.configured {
            if self.can_configure(kind, max_size) {
                (
                    StateView {
                        pending: dequeued(self.pending, i).push(
                            PendingWindow { window: entry.window, configured: true },
                        ),
                        ..self
                    },
                    CommitOutcome::Configure {
                        target: kind,
                        size: if max_size.unset() {
                            self.output_of(kind).unwrap().fill_size()
                        } else {
                            None
                        },
                        fullscreen: max_size.unset(),
                    },
                )
            } else {
                (self, CommitOutcome::Deferred)
            }
        } else if self.can_route() {
            (
                StateView { pending: dequeued(self.pending, i), ..self }.map_toplevel(
                    FocusTarget { window: entry.window, connection: None },
                ),
                CommitOutcome::Mapped { target: kind },
            )
        } else {
            (self, CommitOutcome::Deferred)
        }
    }

    /// What a commit of `surface` does. `max_size` is the largest size the
    /// client currently allows, zero by zero where it set none. `popup` is
    /// `None` unless the surface is a popup, and then tells whether the popup
    /// has had its first configure. A surface that waits as a top-level is
    /// handled as such whatever `popup` says; a popup comes next, and a
    /// top-level that is shown last.
    pub open spec fn commit(self, surface: u64, max_size: Size, popup: Option<bool>) -> (
        StateView,
        CommitOutcome,
    ) {
        let w = WindowId::Native(surface);
        if is_pending(self.pending, w) {
            self.commit_pending(pending_place(self.pending, w), max_size)
        } else if popup == Some(false) {
            (self, CommitOutcome::ConfigurePopup)
        } else if popup.is_none() && self.holder(w).is_some() {
            (self, CommitOutcome::Committed { space: self.holder(w).unwrap() })
        } else {
            (self, CommitOutcome::Ignored)
        }
    }
}

/// The window state of one compositor.
#[derive(Debug)]
pub struct State {
    /// The windows shown on the primary output.
    pub space: Space,
    /// The windows shown on the secondary output.
    pub secondary_space: Space,
    /// The primary output, once it exists.
    pub output: Option<Output>,
    /// The secondary output, once it exists.
    pub secondary_output: Option<Output>,
    /// Top-levels that wait to be configured or mapped.
    pub pending_windows: Vec<PendingWindow>,
    /// The window that holds keyboard focus.
    pub focus: Option<FocusTarget>,
    /// How many top-levels were mapped since the compositor started, counted
    /// in 64 bits.
    pub toplevel_count: u64,
    /// Whether windows may be routed to the secondary output.
    pub multi_output_enabled: bool,
    /// The X window manager, while one is connected.
    pub xwm: Option<XwmId>,
}

impl View for State {
    type V = StateView;

    open spec fn view(&self) -> StateView {
        StateView {
            primary: self.space@,
            secondary: self.secondary_space@,
            output: self.output,
            secondary_output: self.secondary_output,
            pending: self.pending_windows@,
            focus: self.focus,
            toplevel_count: self.toplevel_count as nat,
            multi_output_enabled: self.multi_output_enabled,
            xwm: self.xwm,
        }
    }
}

/// Turns down a popup's failed first configure as the unrecoverable error it
/// is.
pub fn check_popup_configure(sent: bool) -> (checked: Result<(), Fatal>)
    ensures
        checked == if sent {
            Ok::<(), Fatal>(())
        } else {
            Err::<(), Fatal>(Fatal::PopupConfigureFailed)
        },
{
    if sent {
        Ok(())
    } else {
        Err(Fatal::PopupConfigureFailed)
    }
}

impl State {
    /// See [`StateView::wf`].
    pub open spec fn wf(&self) -> bool {
        self@.wf()
    }

    /// A compositor without outputs or windows, in single-output mode.
    pub fn new() -> (state: State)
        ensures
            state.wf(),
            state@ == (StateView {
                primary: Seq::empty(),
                secondary: Seq::empty(),
                output: None,
                secondary_output: None,
                pending: Seq::empty(),
                focus: None,
                toplevel_count: 0,
                multi_output_enabled: false,
                xwm: None,
            }),
    {
        State {
            space: Space::new(),
            secondary_space: Space::new(),
            output: None,
            secondary_output: None,
            pending_windows: Vec::new(),
            focus: None,
            toplevel_count: 0,
            multi_output_enabled: false,
            xwm: None,
        }
    }

    /// Lets windows be routed to the secondary output from now on.
    pub fn enable_multi_output(&mut self)
        ensures
            final(self)@ == (StateView { multi_output_enabled: true, ..old(self)@ }),
    {
        self.multi_output_enabled = true;
    }

    /// The output that the routing policy picks for the next top-level.
    pub fn route(&self) -> (kind: OutputKind)
        ensures
            kind == self@.route(),
    {
        decide(
            self.space.len(),
            self.secondary_output.is_some(),
            self.secondary_space.len(),
            self.multi_output_enabled,
        )
    }

    /// The output of one kind, where it exists.
    pub fn output_of(&self, kind: OutputKind) -> (output: Option<Output>)
        ensures
            output == self@.output_of(kind),
    {
        match kind {
            OutputKind::Primary => self.output,
            OutputKind::Secondary => self.secondary_output,
        }
    }

    /// Tells whether commits of waiting top-levels are acted on: see
    /// [`StateView::can_route`].
    pub fn can_route(&self) -> (ready: bool)
        ensures
            ready == self@.can_route(),
    {
        self.output.is_some() && self.output_of(self.route()).is_some()
    }

    /// The space that shows `w`, if one does.
    pub fn holder(&self, w: WindowId) -> (kind: Option<OutputKind>)
        ensures
            kind == self@.holder(w),
    {
        if self.space.contains(w) {
            Some(OutputKind::Primary)
        } else if self.secondary_space.contains(w) {
            Some(OutputKind::Secondary)
        } else {
            None
        }
    }

    /// The place at which `w` waits, if it waits.
    pub fn pending_position(&self, w: WindowId) -> (found: Option<usize>)
        requires
            self.wf(),
        ensures
            match found {
                Some(i) => is_pending(self@.pending, w) && i == pending_place(self@.pending, w),
                None => !is_pending(self@.pending, w),
            },
    {
        let mut i: usize = 0;
        while i < self.pending_windows.len()
            invariant
                i <= self.pending_windows@.len(),
                self.wf(),
                forall|j: int| 0 <= j < i ==> (#[trigger] self.pending_windows@[j]).window != w,
            decreases self.pending_windows@.len() - i,
        {
            if self.pending_windows[i].window == w {
                proof {
                    let p = self@.pending;
                    assert(p[i as int].window == w);
                    let c = pending_place(p, w);
                    if c < i {
                        assert(p[c].window != p[i as int].window);
                    }
                    if i < c {
                        assert(p[i as int].window != p[c].window);
                    }
                }
                return Some(i);
            }
            i += 1;
        }
        None
    }

    /// The stage `w` is in, if the compositor knows `w`.
    pub fn lifecycle(&self, w: WindowId) -> (stage: Option<Lifecycle>)
        requires
            self.wf(),
        ensures
            stage == self@.lifecycle(w),
    {
        if self.holder(w).is_some() {
            Some(Lifecycle::Mapped)
        } else {
            match self.pending_position(w) {
                Some(i) => if self.pending_windows[i].configured {
                    Some(Lifecycle::Configured)
                } else {
                    Some(Lifecycle::Pending)
                },
                None => None,
            }
        }
    }

    /// Takes note of a new native top-level, which then waits for its first
    /// commit. Tells whether it was new; a surface that already waits or is
    /// shown is left as it is.
    pub fn new_toplevel(&mut self, surface: u64) -> (added: bool)
        requires
            old(self).wf(),
        ensures
            final(self).wf(),
            added == old(self)@.lifecycle(WindowId::Native(surface)).is_none(),
            added ==> final(self)@ == (StateView {
                pending: old(self)@.pending.push(
                    PendingWindow { window: WindowId::Native(surface), configured: false },
                ),
                ..old(self)@
            }),
            !added ==> final(self)@ == old(self)@,
    {
        let w = WindowId::Native(surface);
        if self.holder(w).is_some() || self.pending_position(w).is_some() {
            false
        } else {
            self.pending_windows.push(PendingWindow { window: w, configured: false });
            proof {
                let p = old(self)@.pending;
                let q = self@.pending;
                assert forall|i: int, j: int| 0 <= i < j < q.len() implies (#[trigger] q[i]).window
                    != (#[trigger] q[j]).window by {
                    if j < p.len() {
                        assert(p[i].window != p[j].window);
                    } else {
                        assert(p[i].window != w);
                    }
                }
            }
            true
        }
    }

    /// Puts `w` at `loc` into the space of `kind`, taking it out of the other
    /// space.
    pub fn place(&mut self, kind: OutputKind, w: WindowId, loc: Point)
        requires
            old(self).wf(),
            !is_pending(old(self)@.pending, w),
        ensures
            final(self).wf(),
            final(self)@ == (StateView {
                primary: without(old(self)@.primary, w),
                secondary: without(old(self)@.secondary, w),
                ..old(self)@
            }).with_mapped(kind, w, loc),
    {
        proof {
            lemma_without(old(self)@.primary, w);
            lemma_without(old(self)@.secondary, w);
            lemma_mapped(old(self)@.primary, w, loc);
            lemma_mapped(old(self)@.secondary, w, loc);
            lemma_mapped(without(old(self)@.primary, w), w, loc);
            lemma_mapped(without(old(self)@.secondary, w), w, loc);
        }
        match kind {
            OutputKind::Primary => {
                let _ = self.secondary_space.unmap_elem(w);
                self.space.map_element(w, loc);
            },
            OutputKind::Secondary => {
                let _ = self.space.unmap_elem(w);
                self.secondary_space.map_element(w, loc);
            },
        }
        proof {
            let a = old(self)@;
            let b = self@;
            assert(mapped(without(a.primary, w), w, loc) == mapped(a.primary, w, loc));
            assert(mapped(without(a.secondary, w), w, loc) == mapped(a.secondary, w, loc));
            assert forall|v: WindowId| !(holds(b.primary, v) && holds(b.secondary, v)) by {
                if v != w {
                    assert(!(holds(a.primary, v) && holds(a.secondary, v)));
                }
            }
            assert forall|i: int| 0 <= i < b.pending.len() implies {
                &&& (#[trigger] b.pending[i]).window is Native
                &&& !holds(b.primary, b.pending[i].window)
                &&& !holds(b.secondary, b.pending[i].window)
            } by {
                assert(a.pending[i].window != w);
                assert(!holds(a.primary, a.pending[i].window));
            }
        }
    }

    /// Maps a top-level: see [`StateView::map_toplevel`]. Returns the space
    /// it went to.
    pub fn map_toplevel(&mut self, target: FocusTarget) -> (kind: OutputKind)
        requires
            old(self).wf(),
            !is_pending(old(self)@.pending, target.window),
        ensures
            final(self).wf(),
            final(self)@ == old(self)@.map_toplevel(target),
            kind == old(self)@.placement(target.window),
    {
        let w = target.window;
        let kind = match self.holder(w) {
            Some(kind) => kind,
            None => self.route(),
        };
        self.place(kind, w, Point::at_origin());
        self.toplevel_count = if self.toplevel_count == u64::MAX {
            0
        } else {
            self.toplevel_count + 1
        };
        self.focus = Some(target);
        proof {
            let a = old(self)@;
            lemma_without(a.primary, w);
            lemma_without(a.secondary, w);
            lemma_without(without(a.primary, w), w);
            lemma_without(without(a.secondary, w), w);
            assert(!(holds(a.primary, w) && holds(a.secondary, w)));
            lemma_mapped(a.primary, w, Point::origin());
            lemma_mapped(a.secondary, w, Point::origin());
            match kind {
                OutputKind::Primary => {
                    assert(!holds(a.secondary, w));
                    assert(self@.secondary == a.secondary);
                    assert(self@.primary == mapped(a.primary, w, Point::origin()));
                },
                OutputKind::Secondary => {
                    assert(!holds(a.primary, w));
                    assert(self@.primary == a.primary);
                    assert(self@.secondary == mapped(a.secondary, w, Point::origin()));
                },
            }
        }
        kind
    }

    /// Forgets a window whose surface is gone: see [`StateView::torn_down`].
    /// Returns the stage the window was in, if the compositor knew it.
    pub fn teardown(&mut self, w: WindowId) -> (stage: Option<Lifecycle>)
        requires
            old(self).wf(),
        ensures
            final(self).wf(),
            final(self)@ == old(self)@.torn_down(w),
            stage == old(self)@.lifecycle(w),
            final(self)@.lifecycle(w).is_none(),
    {
        let stage = self.lifecycle(w);
        let place = self.pending_position(w);
        let _ = self.remove_window(w);
        proof {
            lemma_without(old(self)@.primary, w);
            lemma_without(old(self)@.secondary, w);
        }
        match place {
            Some(i) => {
                proof {
                    lemma_dequeued(old(self)@.pending, i as int);
                }
                let _ = self.pending_windows.swap_remove(i);
                proof {
                    let p = old(self)@.pending;
                    let q = self@.pending;
                    assert forall|j: int| 0 <= j < q.len() implies {
                        &&& (#[trigger] q[j]).window is Native
                        &&& !holds(self@.primary, q[j].window)
                        &&& !holds(self@.secondary, q[j].window)
                    } by {
                        if j == i {
                            assert(q[j] == p[p.len() - 1]);
                        } else {
                            assert(q[j] == p[j]);
                        }
                    }
                }
            },
            None => {},
        }
        stage
    }

    /// Takes a window down: see [`StateView::removed`]. Tells whether a space
    /// showed it.
    pub fn remove_window(&mut self, w: WindowId) -> (removed: bool)
        requires
            old(self).wf(),
        ensures
            final(self).wf(),
            final(self)@ == old(self)@.removed(w),
            removed == old(self)@.holder(w).is_some(),
    {
        proof {
            lemma_without(old(self)@.primary, w);
            lemma_without(old(self)@.secondary, w);
        }
        let a = self.space.unmap_elem(w);
        let b = self.secondary_space.unmap_elem(w);
        let held = match self.focus {
            Some(f) => f.window == w,
            None => false,
        };
        if held {
            self.focus = None;
        }
        proof {
            let x = old(self)@;
            let y = self@;
            assert forall|v: WindowId| !(holds(y.primary, v) && holds(y.secondary, v)) by {
                if v != w {
                    assert(!(holds(x.primary, v) && holds(x.secondary, v)));
                }
            }
            assert forall|i: int| 0 <= i < y.pending.len() implies {
                &&& (#[trigger] y.pending[i]).window is Native
                &&& !holds(y.primary, y.pending[i].window)
                &&& !holds(y.secondary, y.pending[i].window)
            } by {
                assert(!holds(x.primary, x.pending[i].window));
                assert(!holds(x.secondary, x.pending[i].window));
            }
        }
        a || b
    }
}

} // verus!
