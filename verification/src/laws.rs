//! What holds of the window state whatever the sequence of events.

use vstd::prelude::*;
use crate::compositor::{
    dequeued, is_pending, lemma_dequeued, pending_place, CommitOutcome, FocusTarget, Lifecycle,
    PendingWindow, StateView, XwmId,
};
use crate::geometry::Size;
use crate::geometry::Point;
use crate::routing::OutputKind;
use crate::space::{
    distinct, holds, lemma_mapped, lemma_without, location_in, Placement, WindowId,
};
use crate::xwm::{focus_belongs_to, MapRequestOutcome, X11Request, X11Response, X11Window};

verus! {

/// The state after the top-levels `ws` were mapped one after the other.
pub open spec fn map_all(s: StateView, ws: Seq<FocusTarget>) -> StateView
    decreases ws.len(),
{
    if ws.len() == 0 {
        s
    } else {
        map_all(s, ws.drop_last()).map_toplevel(ws.last())
    }
}

/// True when no window occurs twice in `ws`.
pub open spec fn all_different(ws: Seq<FocusTarget>) -> bool {
    forall|i: int, j: int|
        0 <= i < j < ws.len() ==> (#[trigger] ws[i]).window != (#[trigger] ws[j]).window
}

/// True when `w` is one of the windows of `ws`.
pub open spec fn among(ws: Seq<FocusTarget>, w: WindowId) -> bool {
    exists|i: int| 0 <= i < ws.len() && (#[trigger] ws[i]).window == w
}

/// Mapping top-levels touches neither the outputs nor the mode, keeps each
/// space free of duplicates, and shows no window that was not shown before or
/// mapped since.
pub proof fn lemma_map_all(s: StateView, ws: Seq<FocusTarget>)
    requires
        distinct(s.primary),
        distinct(s.secondary),
    ensures
        map_all(s, ws).output == s.output,
        map_all(s, ws).secondary_output == s.secondary_output,
        map_all(s, ws).multi_output_enabled == s.multi_output_enabled,
        map_all(s, ws).pending == s.pending,
        map_all(s, ws).xwm == s.xwm,
        s.toplevel_count + ws.len() <= u64::MAX ==> map_all(s, ws).toplevel_count
            == s.toplevel_count + ws.len(),
        distinct(map_all(s, ws).primary),
        distinct(map_all(s, ws).secondary),
        map_all(s, ws).primary.len() >= s.primary.len(),
        map_all(s, ws).secondary.len() >= s.secondary.len(),
        forall|v: WindowId|
            holds(map_all(s, ws).primary, v) ==> holds(s.primary, v) || among(ws, v),
        forall|v: WindowId|
            holds(map_all(s, ws).secondary, v) ==> holds(s.secondary, v) || among(ws, v),
        forall|v: WindowId| holds(s.primary, v) ==> holds(map_all(s, ws).primary, v),
        forall|v: WindowId| holds(s.secondary, v) ==> holds(map_all(s, ws).secondary, v),
    decreases ws.len(),
{
    if ws.len() > 0 {
        let head = ws.drop_last();
        let t = map_all(s, head);
        let w = ws.last().window;
        lemma_map_all(s, head);
        lemma_mapped(t.primary, w, Point::origin());
        lemma_mapped(t.secondary, w, Point::origin());
        lemma_without(t.primary, w);
        lemma_without(t.secondary, w);
        let r = map_all(s, ws);
        assert(among(ws, w)) by {
            assert(ws[ws.len() - 1].window == w);
        }
        assert forall|v: WindowId| among(head, v) implies among(ws, v) by {
            let i = choose|i: int| 0 <= i < head.len() && (#[trigger] head[i]).window == v;
            assert(ws[i].window == v);
        }
        assert forall|v: WindowId| holds(r.primary, v) implies holds(s.primary, v) || among(
            ws,
            v,
        ) by {
            if v != w {
                assert(holds(t.primary, v));
            }
        }
        assert forall|v: WindowId| holds(r.secondary, v) implies holds(s.secondary, v) || among(
            ws,
            v,
        ) by {
            if v != w {
                assert(holds(t.secondary, v));
            }
        }
        assert forall|v: WindowId| holds(s.primary, v) implies holds(r.primary, v) by {
            assert(holds(t.primary, v));
        }
        assert forall|v: WindowId| holds(s.secondary, v) implies holds(r.secondary, v) by {
            assert(holds(t.secondary, v));
        }
    }
}

/// With multi-output mode off, every top-level of a sequence of mappings
/// goes to the primary space, and the secondary space stays as it was. The
/// one exception, which the law leaves out, is a window that the secondary
/// space already shows: it is mapped again where it is.
pub proof fn law_single_output_maps_to_primary(s: StateView, ws: Seq<FocusTarget>)
    requires
        s.wf(),
        !s.multi_output_enabled,
        forall|i: int| 0 <= i < ws.len() ==> !holds(s.secondary, (#[trigger] ws[i]).window),
    ensures
        forall|i: int|
            0 <= i < ws.len() ==> map_all(s, #[trigger] ws.take(i)).placement(ws[i].window)
                == OutputKind::Primary,
        forall|i: int| 0 <= i < ws.len() ==> holds(map_all(s, ws).primary, (#[trigger] ws[i]).window),
        map_all(s, ws).secondary == s.secondary,
    decreases ws.len(),
{
    if ws.len() > 0 {
        let head = ws.drop_last();
        let t = map_all(s, head);
        let w = ws.last().window;
        assert forall|i: int| 0 <= i < head.len() implies !holds(
            s.secondary,
            (#[trigger] head[i]).window,
        ) by {
            assert(head[i] == ws[i]);
        }
        law_single_output_maps_to_primary(s, head);
        lemma_map_all(s, head);
        assert(!holds(t.secondary, w)) by {
            assert(ws[ws.len() - 1].window == w);
        }
        assert(t.placement(w) == OutputKind::Primary);
        lemma_mapped(t.primary, w, Point::origin());
        let r = map_all(s, ws);
        assert(r.secondary == s.secondary);
        assert forall|i: int| 0 <= i < ws.len() implies map_all(s, #[trigger] ws.take(i)).placement(
            ws[i].window,
        ) == OutputKind::Primary by {
            if i < head.len() {
                assert(ws.take(i) == head.take(i));
                assert(head[i] == ws[i]);
            } else {
                assert(ws.take(i) == head);
            }
        }
        assert forall|i: int| 0 <= i < ws.len() implies holds(
            r.primary,
            (#[trigger] ws[i]).window,
        ) by {
            if i < head.len() {
                assert(head[i] == ws[i]);
                assert(holds(t.primary, head[i].window));
            }
        }
    }
}

/// With multi-output mode off, no commit and no map request sends a window
/// to the secondary output: a top-level is configured for the primary output
/// and mapped into the primary space, and the secondary space stays as it
/// was. The one window that a map request leaves in the secondary space is
/// one that this space already shows.
pub proof fn law_single_output_events(
    s: StateView,
    surface: u64,
    max_size: Size,
    popup: Option<bool>,
    window: X11Window,
    marked: bool,
)
    requires
        s.wf(),
        !s.multi_output_enabled,
    ensures
        s.commit(surface, max_size, popup).0.secondary == s.secondary,
        match s.commit(surface, max_size, popup).1 {
            CommitOutcome::Configure { target, .. } => target == OutputKind::Primary,
            CommitOutcome::Mapped { target } => target == OutputKind::Primary,
            _ => true,
        },
        !holds(s.secondary, window.id()) ==> s.map_window_request(window, marked).0.secondary
            == s.secondary,
        match s.map_window_request(window, marked).1 {
            MapRequestOutcome::Mapped { target, .. } => holds(s.secondary, window.id()) || target
                == OutputKind::Primary,
            MapRequestOutcome::Refused => true,
        },
{
    let w = WindowId::Native(surface);
    if is_pending(s.pending, w) {
        let i = pending_place(s.pending, w);
        assert(s.pending[i].window == w);
        assert(!holds(s.secondary, w));
    }
}

/// With multi-output mode on and a secondary output present, different
/// top-levels mapped into empty spaces go, in order, to the primary space,
/// to the secondary space, and from the third on to the primary space again.
/// Each lies at the origin of its space.
pub proof fn law_two_output_sequence(s: StateView, ws: Seq<FocusTarget>)
    requires
        s.multi_output_enabled,
        s.secondary_output.is_some(),
        s.primary.len() == 0,
        s.secondary.len() == 0,
        all_different(ws),
    ensures
        forall|i: int|
            0 <= i < ws.len() ==> map_all(s, #[trigger] ws.take(i)).placement(ws[i].window) == if i
                == 1 {
                OutputKind::Secondary
            } else {
                OutputKind::Primary
            },
        forall|i: int|
            0 <= i < ws.len() && i != 1 ==> location_in(
                map_all(s, ws).primary,
                (#[trigger] ws[i]).window,
            ) == Some(Point::origin()),
        ws.len() >= 2 ==> map_all(s, ws).secondary == seq![
            Placement { window: ws[1].window, loc: Point::origin() },
        ],
        ws.len() < 2 ==> map_all(s, ws).secondary.len() == 0,
        map_all(s, ws).primary.len() == if ws.len() >= 2 {
            ws.len() - 1
        } else {
            ws.len() as int
        },
    decreases ws.len(),
{
    assert(distinct(s.primary));
    assert(distinct(s.secondary));
    if ws.len() > 0 {
        let head = ws.drop_last();
        let t = map_all(s, head);
        let w = ws.last().window;
        let n = head.len() as int;
        assert(all_different(head)) by {
            assert forall|i: int, j: int| 0 <= i < j < head.len() implies (#[trigger] head[i]).window
                != (#[trigger] head[j]).window by {
                assert(ws[i].window != ws[j].window);
            }
        }
        law_two_output_sequence(s, head);
        lemma_map_all(s, head);
        assert(!among(head, w)) by {
            if among(head, w) {
                let i = choose|i: int| 0 <= i < head.len() && (#[trigger] head[i]).window == w;
                assert(ws[i].window != ws[ws.len() - 1].window);
            }
        }
        assert(!holds(t.primary, w));
        assert(!holds(t.secondary, w));
        assert(t.holder(w).is_none());
        lemma_mapped(t.primary, w, Point::origin());
        lemma_mapped(t.secondary, w, Point::origin());
        lemma_without(t.primary, w);
        lemma_without(t.secondary, w);
        let r = map_all(s, ws);
        let kind = t.placement(w);
        assert(kind == if n == 1 {
            OutputKind::Secondary
        } else {
            OutputKind::Primary
        });
        assert forall|i: int| 0 <= i < ws.len() implies map_all(s, #[trigger] ws.take(i)).placement(
            ws[i].window,
        ) == if i == 1 {
            OutputKind::Secondary
        } else {
            OutputKind::Primary
        } by {
            if i < head.len() {
                assert(ws.take(i) == head.take(i));
                assert(head[i] == ws[i]);
            } else {
                assert(ws.take(i) == head);
            }
        }
        if n == 1 {
            assert(r.secondary =~= seq![Placement { window: w, loc: Point::origin() }]);
            assert(r.primary == t.primary);
        } else {
            assert(r.secondary == t.secondary);
            if n >= 2 {
                assert(head[1] == ws[1]);
            }
        }
        assert forall|i: int| 0 <= i < ws.len() && i != 1 implies location_in(
            r.primary,
            (#[trigger] ws[i]).window,
        ) == Some(Point::origin()) by {
            if i < head.len() {
                assert(head[i] == ws[i]);
                assert(ws[i].window != ws[ws.len() - 1].window);
            }
        }
    }
}

/// Taking a window down removes it from the one space that shows it and
/// leaves the other space, and every other window, as they were. For a window
/// that no space shows nothing changes, so taking a window down twice is the
/// same as doing it once.
pub proof fn law_removal(s: StateView, w: WindowId)
    requires
        s.wf(),
    ensures
        s.removed(w).wf(),
        s.removed(w).holder(w).is_none(),
        forall|v: WindowId| v != w ==> s.removed(w).holder(v) == s.holder(v),
        forall|v: WindowId|
            v != w ==> location_in(s.removed(w).primary, v) == location_in(s.primary, v)
                && location_in(s.removed(w).secondary, v) == location_in(s.secondary, v),
        s.holder(w) == Some(OutputKind::Primary) ==> s.removed(w).primary.len() + 1
            == s.primary.len() && s.removed(w).secondary == s.secondary,
        s.holder(w) == Some(OutputKind::Secondary) ==> s.removed(w).secondary.len() + 1
            == s.secondary.len() && s.removed(w).primary == s.primary,
        s.holder(w).is_none() ==> s.removed(w) == s,
        s.removed(w).removed(w) == s.removed(w),
{
    lemma_without(s.primary, w);
    lemma_without(s.secondary, w);
    let r = s.removed(w);
    lemma_without(r.primary, w);
    lemma_without(r.secondary, w);
    assert(!(holds(s.primary, w) && holds(s.secondary, w)));
    assert forall|v: WindowId| !(holds(r.primary, v) && holds(r.secondary, v)) by {
        if v != w {
            assert(!(holds(s.primary, v) && holds(s.secondary, v)));
        }
    }
    assert forall|i: int| 0 <= i < r.pending.len() implies {
        &&& (#[trigger] r.pending[i]).window is Native
        &&& !holds(r.primary, r.pending[i].window)
        &&& !holds(r.secondary, r.pending[i].window)
    } by {
        assert(!holds(s.primary, s.pending[i].window));
        assert(!holds(s.secondary, s.pending[i].window));
    }
    if s.holder(w).is_none() {
        assert(r =~= s);
    }
    assert(r.removed(w) =~= r);
}

/// The order of the stages of a window.
pub open spec fn stage_rank(stage: Lifecycle) -> int {
    match stage {
        Lifecycle::Pending => 0,
        Lifecycle::Configured => 1,
        Lifecycle::Mapped => 2,
    }
}

/// True when every window that `before` knows is known to `after` in the
/// same stage or a later one.
pub open spec fn moved_forward(before: StateView, after: StateView) -> bool {
    forall|v: WindowId|
        before.lifecycle(v).is_some() ==> after.lifecycle(v).is_some() && stage_rank(
            #[trigger] after.lifecycle(v).unwrap(),
        ) >= stage_rank(before.lifecycle(v).unwrap())
}

/// In a queue without duplicates a window waits at one place only.
pub proof fn lemma_pending_place(p: Seq<PendingWindow>, v: WindowId, j: int)
    requires
        forall|a: int, b: int|
            0 <= a < b < p.len() ==> (#[trigger] p[a]).window != (#[trigger] p[b]).window,
        0 <= j < p.len(),
        p[j].window == v,
    ensures
        is_pending(p, v),
        pending_place(p, v) == j,
{
    let c = pending_place(p, v);
    if c < j {
        assert(p[c].window != p[j].window);
    }
    if j < c {
        assert(p[j].window != p[c].window);
    }
}

/// A commit never moves a window back: each window that was known before is
/// known after, in the stage it was in or in a later one.
pub proof fn law_commit_moves_forward(s: StateView, surface: u64, max_size: Size, popup: Option<bool>)
    requires
        s.wf(),
    ensures
        moved_forward(s, s.commit(surface, max_size, popup).0),
{
    let w = WindowId::Native(surface);
    let t = s.commit(surface, max_size, popup).0;
    if is_pending(s.pending, w) {
        let i = pending_place(s.pending, w);
        let p = s.pending;
        let d = dequeued(p, i);
        lemma_dequeued(p, i);
        assert(p[i].window == w);
        assert(!holds(s.primary, w) && !holds(s.secondary, w));
        if t != s {
            if !p[i].configured {
                let q = t.pending;
                assert(q == d.push(PendingWindow { window: w, configured: true }));
                assert forall|a: int, b: int| 0 <= a < b < q.len() implies (#[trigger] q[a]).window
                    != (#[trigger] q[b]).window by {
                    if b == q.len() - 1 {
                        assert(d[a] == q[a]);
                    } else {
                        assert(d[a] == q[a] && d[b] == q[b]);
                    }
                }
                assert forall|v: WindowId| s.lifecycle(v).is_some() implies t.lifecycle(
                    v,
                ).is_some() && stage_rank(#[trigger] t.lifecycle(v).unwrap()) >= stage_rank(
                    s.lifecycle(v).unwrap(),
                ) by {
                    if s.holder(v).is_none() {
                        if v == w {
                            lemma_pending_place(q, w, q.len() - 1);
                        } else {
                            let j = pending_place(p, v);
                            assert(p[j].window == v);
                            assert(is_pending(d, v));
                            let k = pending_place(d, v);
                            assert(d[k].window == v);
                            assert(q[k] == d[k]);
                            lemma_pending_place(q, v, k);
                            let x = if k == i {
                                p.len() - 1
                            } else {
                                k
                            };
                            assert(d[k] == p[x]);
                            lemma_pending_place(p, v, x);
                        }
                    }
                }
            } else {
                let target = FocusTarget { window: w, connection: None };
                let m = StateView { pending: d, ..s };
                assert(t == m.map_toplevel(target));
                lemma_mapped(s.primary, w, Point::origin());
                lemma_mapped(s.secondary, w, Point::origin());
                assert forall|v: WindowId| s.lifecycle(v).is_some() implies t.lifecycle(
                    v,
                ).is_some() && stage_rank(#[trigger] t.lifecycle(v).unwrap()) >= stage_rank(
                    s.lifecycle(v).unwrap(),
                ) by {
                    if v == w {
                        assert(t.holder(w).is_some());
                    } else if s.holder(v).is_some() {
                        assert(t.holder(v).is_some());
                    } else {
                        assert(t.holder(v).is_none());
                        let j = pending_place(p, v);
                        assert(p[j].window == v);
                        assert(is_pending(d, v));
                        let k = pending_place(d, v);
                        assert(d[k].window == v);
                        let x = if k == i {
                            p.len() - 1
                        } else {
                            k
                        };
                        assert(d[k] == p[x]);
                        lemma_pending_place(p, v, x);
                    }
                }
            }
        }
    }
}

/// A map request of an X11 window never moves a window back either.
pub proof fn law_map_request_moves_forward(s: StateView, window: X11Window, marked: bool)
    requires
        s.wf(),
    ensures
        moved_forward(s, s.map_window_request(window, marked).0),
{
    let w = window.id();
    let t = s.map_window_request(window, marked).0;
    if marked {
        lemma_mapped(s.primary, w, Point::origin());
        lemma_mapped(s.secondary, w, Point::origin());
        assert forall|v: WindowId| s.lifecycle(v).is_some() implies t.lifecycle(v).is_some()
            && stage_rank(#[trigger] t.lifecycle(v).unwrap()) >= stage_rank(
            s.lifecycle(v).unwrap(),
        ) by {
            if v == w {
                assert(t.holder(w).is_some());
            } else if s.holder(v).is_some() {
                assert(t.holder(v).is_some());
            } else {
                assert(t.holder(v).is_none());
            }
        }
    }
}

/// While the primary output is missing, the commit of a waiting top-level is
/// put off, whatever the policy would answer: nothing changes, and the
/// window still waits.
pub proof fn law_commit_waits_for_primary_output(
    s: StateView,
    surface: u64,
    max_size: Size,
    popup: Option<bool>,
)
    requires
        s.output.is_none(),
        is_pending(s.pending, WindowId::Native(surface)),
    ensures
        s.commit(surface, max_size, popup) == (s, CommitOutcome::Deferred),
{
}

/// Once the window manager has disconnected, its requests do nothing until
/// one connects again; what native clients see stays as it was.
pub proof fn law_disconnected_requests_do_nothing(s: StateView, xwm: XwmId, request: X11Request)
    ensures
        (StateView { xwm: None, ..s }).x11_request(xwm, request) == (
            StateView { xwm: None, ..s },
            X11Response::NotConnected,
        ),
        (StateView { xwm: None, ..s }).primary == s.primary,
        (StateView { xwm: None, ..s }).secondary == s.secondary,
        (StateView { xwm: None, ..s }).pending == s.pending,
        (StateView { xwm: None, ..s }).wf() == s.wf(),
{
}

/// At most one connection is let at the selection at a time: where the
/// focused window belongs to one connection, every other connection is
/// turned away, whatever windows it has mapped.
pub proof fn law_selection_access_is_exclusive(s: StateView, a: XwmId, b: XwmId)
    requires
        focus_belongs_to(s.focus, a),
        a != b,
    ensures
        !focus_belongs_to(s.focus, b),
{
}

} // verus!
