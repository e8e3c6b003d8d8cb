//! A space: the mapped windows of one output, bottom first, each with the
//! offset at which it is placed.

use vstd::prelude::*;
use crate::geometry::Point;

verus! {

/// The identity of a window. A native surface and an X11 window are never the
/// same window, whatever their numbers.
#[derive(Clone, Copy, Debug, PartialEq, Eq, Structural)]
pub enum WindowId {
    /// A top-level of the native windowing stack, by the id of its surface.
    Native(u64),
    /// A window of the X server, by its X11 window id.
    X11(u32),
}

/// A mapped window and the offset at which its space shows it.
#[derive(Clone, Copy, Debug, PartialEq, Eq, Structural)]
pub struct Placement {
    pub window: WindowId,
    pub loc: Point,
}

/// True when `w` is among the windows of `s`.
pub open spec fn holds(s: Seq<Placement>, w: WindowId) -> bool {
    exists|i: int| 0 <= i < s.len() && (#[trigger] s[i]).window == w
}

/// True when no window occurs twice in `s`.
pub open spec fn distinct(s: Seq<Placement>) -> bool {
    forall|i: int, j: int|
        0 <= i < j < s.len() ==> (#[trigger] s[i]).window != (#[trigger] s[j]).window
}

/// `s` with every placement of `w` taken out, the others in their order.
pub open spec fn without(s: Seq<Placement>, w: WindowId) -> Seq<Placement>
    decreases s.len(),
{
    if s.len() == 0 {
        s
    } else if s.last().window == w {
        without(s.drop_last(), w)
    } else {
        without(s.drop_last(), w).push(s.last())
    }
}

/// `s` after `w` was mapped at `loc`: an earlier placement of `w` is gone and
/// the new one lies on top.
pub open spec fn mapped(s: Seq<Placement>, w: WindowId, loc: Point) -> Seq<Placement> {
    without(s, w).push(Placement { window: w, loc })
}

/// `s` with `w` moved to `loc` where it stands in the stack. A window that `s`
/// does not hold leaves `s` as it is.
pub open spec fn relocated(s: Seq<Placement>, w: WindowId, loc: Point) -> Seq<Placement> {
    Seq::new(
        s.len(),
        |i: int|
            if s[i].window == w {
                Placement { window: w, loc }
            } else {
                s[i]
            },
    )
}

/// The offset at which `s` shows `w`, if it holds `w`.
pub open spec fn location_in(s: Seq<Placement>, w: WindowId) -> Option<Point>
    decreases s.len(),
{
    if s.len() == 0 {
        None
    } else if s.last().window == w {
        Some(s.last().loc)
    } else {
        location_in(s.drop_last(), w)
    }
}

/// What taking `w` out of `s` keeps and what it drops.
pub proof fn lemma_without(s: Seq<Placement>, w: WindowId)
    ensures
        !holds(without(s, w), w),
        forall|v: WindowId| v != w ==> holds(without(s, w), v) == holds(s, v),
        forall|v: WindowId| v != w ==> location_in(without(s, w), v) == location_in(s, v),
        distinct(s) ==> distinct(without(s, w)),
        !holds(s, w) ==> without(s, w) == s,
        without(s, w).len() <= s.len(),
        holds(s, w) ==> without(s, w).len() < s.len(),
        holds(s, w) && distinct(s) ==> without(s, w).len() + 1 == s.len(),
    decreases s.len(),
{
    if s.len() == 0 {
    } else {
        let t = s.drop_last();
        let last = s.last();
        lemma_without(t, w);
        let r = without(s, w);
        let rt = without(t, w);
        assert forall|v: WindowId| holds(s, v) == (holds(t, v) || last.window == v) by {
            if holds(s, v) {
                let i = choose|i: int| 0 <= i < s.len() && (#[trigger] s[i]).window == v;
                if i < t.len() {
                    assert(t[i].window == v);
                }
            }
            if holds(t, v) {
                let i = choose|i: int| 0 <= i < t.len() && (#[trigger] t[i]).window == v;
                assert(s[i].window == v);
            }
            if last.window == v {
                assert(s[s.len() - 1].window == v);
            }
        }
        if last.window == w {
            assert(r == rt);
            assert forall|v: WindowId| v != w implies location_in(r, v) == location_in(s, v) by {
                assert(location_in(rt, v) == location_in(t, v));
                assert(location_in(s, v) == location_in(t, v));
            }
            if distinct(s) {
                assert(distinct(t)) by {
                    assert forall|i: int, j: int| 0 <= i < j < t.len() implies (#[trigger] t[i]).window
                        != (#[trigger] t[j]).window by {
                        assert(s[i].window != s[j].window);
                    }
                }
                if holds(t, w) {
                    let i = choose|i: int| 0 <= i < t.len() && (#[trigger] t[i]).window == w;
                    assert(s[i].window != s[s.len() - 1].window);
                }
            }
        } else {
            assert(r == rt.push(last));
            assert forall|v: WindowId| holds(r, v) == (holds(rt, v) || last.window == v) by {
                if holds(r, v) {
                    let i = choose|i: int| 0 <= i < r.len() && (#[trigger] r[i]).window == v;
                    if i < rt.len() {
                        assert(rt[i].window == v);
                    }
                }
                if holds(rt, v) {
                    let i = choose|i: int| 0 <= i < rt.len() && (#[trigger] rt[i]).window == v;
                    assert(r[i].window == v);
                }
                if last.window == v {
                    assert(r[r.len() - 1].window == v);
                }
            }
            assert(r.drop_last() =~= rt);
            assert(r.last() == last);
            assert forall|v: WindowId| v != w implies location_in(r, v) == location_in(s, v) by {
                assert(location_in(rt, v) == location_in(t, v));
            }
            if distinct(s) {
                assert(distinct(t)) by {
                    assert forall|i: int, j: int| 0 <= i < j < t.len() implies (#[trigger] t[i]).window
                        != (#[trigger] t[j]).window by {
                        assert(s[i].window != s[j].window);
                    }
                }
                assert(!holds(t, last.window)) by {
                    if holds(t, last.window) {
                        let i = choose|i: int|
                            0 <= i < t.len() && (#[trigger] t[i]).window == last.window;
                        assert(s[i].window != s[s.len() - 1].window);
                    }
                }
                assert(distinct(r)) by {
                    assert forall|i: int, j: int| 0 <= i < j < r.len() implies (#[trigger] r[i]).window
                        != (#[trigger] r[j]).window by {
                        if j < rt.len() {
                            assert(rt[i].window != rt[j].window);
                        } else {
                            assert(rt[i].window == r[i].window);
                            if r[i].window == last.window {
                                assert(holds(rt, last.window));
                            }
                        }
                    }
                }
            }
            if !holds(s, w) {
                assert(rt == t);
                assert(r == s);
            }
        }
    }
}

/// What mapping `w` at `loc` does to a space without duplicates.
pub proof fn lemma_mapped(s: Seq<Placement>, w: WindowId, loc: Point)
    requires
        distinct(s),
    ensures
        distinct(mapped(s, w, loc)),
        holds(mapped(s, w, loc), w),
        location_in(mapped(s, w, loc), w) == Some(loc),
        forall|v: WindowId| v != w ==> holds(mapped(s, w, loc), v) == holds(s, v),
        forall|v: WindowId| v != w ==> location_in(mapped(s, w, loc), v) == location_in(s, v),
        !holds(s, w) ==> mapped(s, w, loc) == s.push(Placement { window: w, loc }),
        holds(s, w) ==> mapped(s, w, loc).len() == s.len(),
{
    lemma_without(s, w);
    let r = without(s, w);
    let m = mapped(s, w, loc);
    assert(m.drop_last() == r);
    assert(m.last() == Placement { window: w, loc });
    assert(m[m.len() - 1].window == w);
    assert forall|v: WindowId| v != w implies holds(m, v) == holds(s, v) by {
        if holds(m, v) {
            let i = choose|i: int| 0 <= i < m.len() && (#[trigger] m[i]).window == v;
            assert(r[i].window == v);
        }
        if holds(r, v) {
            let i = choose|i: int| 0 <= i < r.len() && (#[trigger] r[i]).window == v;
            assert(m[i].window == v);
        }
    }
    assert(distinct(m)) by {
        assert forall|i: int, j: int| 0 <= i < j < m.len() implies (#[trigger] m[i]).window
            != (#[trigger] m[j]).window by {
            if j < r.len() {
                assert(r[i].window != r[j].window);
            } else {
                assert(r[i].window == m[i].window);
            }
        }
    }
}

/// The mapped windows of one output.
#[derive(Debug)]
pub struct Space {
    elements: Vec<Placement>,
}

impl View for Space {
    type V = Seq<Placement>;

    closed spec fn view(&self) -> Seq<Placement> {
        self.elements@
    }
}

impl Space {
    /// A space holds each window at most once.
    pub open spec fn wf(&self) -> bool {
        distinct(self@)
    }

    /// A space that shows nothing.
    pub fn new() -> (space: Space)
        ensures
            space@ == Seq::<Placement>::empty(),
            space.wf(),
    {
        Space { elements: Vec::new() }
    }

    /// The number of mapped windows.
    pub fn len(&self) -> (n: usize)
        ensures
            n == self@.len(),
    {
        self.elements.len()
    }

    /// The placement at `index`, counted from the bottom of the stack.
    pub fn get(&self, index: usize) -> (p: Option<Placement>)
        ensures
            p == if index < self@.len() {
                Some(self@[index as int])
            } else {
                None
            },
    {
        if index < self.elements.len() {
            Some(self.elements[index])
        } else {
            None
        }
    }

    /// Where in the stack `w` stands, the topmost place where it stands at
    /// several.
    pub fn position(&self, w: WindowId) -> (found: Option<usize>)
        ensures
            match found {
                Some(i) => i < self@.len() && self@[i as int].window == w && location_in(
                    self@,
                    w,
                ) == Some(self@[i as int].loc),
                None => !holds(self@, w) && location_in(self@, w).is_none(),
            },
    {
        let mut i: usize = self.elements.len();
        assert(self@.take(i as int) =~= self@);
        while i > 0
            invariant
                i <= self.elements@.len(),
                forall|j: int| i <= j < self@.len() ==> (#[trigger] self@[j]).window != w,
                location_in(self@, w) == location_in(self@.take(i as int), w),
            decreases i,
        {
            let ghost cur = self@.take(i as int);
            i -= 1;
            proof {
                assert(cur.drop_last() =~= self@.take(i as int));
                assert(cur.last() == self@[i as int]);
            }
            if self.elements[i].window == w {
                return Some(i);
            }
        }
        proof {
            assert(self@.take(0) =~= Seq::<Placement>::empty());
        }
        None
    }

    /// Tells whether the space shows `w`.
    pub fn contains(&self, w: WindowId) -> (b: bool)
        ensures
            b == holds(self@, w),
    {
        self.position(w).is_some()
    }

    /// The offset at which the space shows `w`.
    pub fn location_of(&self, w: WindowId) -> (loc: Option<Point>)
        ensures
            loc == location_in(self@, w),
    {
        match self.position(w) {
            Some(i) => Some(self.elements[i].loc),
            None => None,
        }
    }

    /// Maps `w` at `loc` on top of the stack. A window that is already mapped
    /// here is moved to `loc` and raised.
    pub fn map_element(&mut self, w: WindowId, loc: Point)
        requires
            old(self).wf(),
        ensures
            final(self)@ == mapped(old(self)@, w, loc),
            final(self).wf(),
    {
        let _ = self.unmap_elem(w);
        self.elements.push(Placement { window: w, loc });
        proof {
            lemma_mapped(old(self)@, w, loc);
        }
    }

    /// Moves `w` to `loc` without touching the stack. Tells whether the space
    /// shows `w`; where it does not, nothing changes.
    pub fn relocate(&mut self, w: WindowId, loc: Point) -> (moved: bool)
        requires
            old(self).wf(),
        ensures
            final(self)@ == relocated(old(self)@, w, loc),
            moved == holds(old(self)@, w),
            final(self).wf(),
    {
        match self.position(w) {
            Some(i) => {
                self.elements.set(i, Placement { window: w, loc });
                proof {
                    let s = old(self)@;
                    let r = relocated(s, w, loc);
                    assert forall|j: int| 0 <= j < s.len() implies #[trigger] self@[j] == r[j] by {
                        if j != i {
                            assert(s[j].window != s[i as int].window);
                        }
                    }
                    assert(self@ =~= r);
                    lemma_relocated(s, w, loc);
                }
                true
            },
            None => {
                proof {
                    let s = old(self)@;
                    assert(relocated(s, w, loc) =~= s);
                }
                false
            },
        }
    }

    /// Takes `w` out of the space. Tells whether the space showed `w`; where
    /// it did not, nothing changes.
    pub fn unmap_elem(&mut self, w: WindowId) -> (removed: bool)
        requires
            old(self).wf(),
        ensures
            final(self)@ == without(old(self)@, w),
            removed == holds(old(self)@, w),
            final(self).wf(),
    {
        proof {
            lemma_without(old(self)@, w);
        }
        match self.position(w) {
            Some(i) => {
                let _ = self.elements.remove(i);
                proof {
                    lemma_without_at(old(self)@, w, i as int);
                }
                true
            },
            None => false,
        }
    }
}

/// In a space without duplicates, taking `w` out removes its one placement.
pub proof fn lemma_without_at(s: Seq<Placement>, w: WindowId, i: int)
    requires
        distinct(s),
        0 <= i < s.len(),
        s[i].window == w,
    ensures
        without(s, w) == s.remove(i),
    decreases s.len(),
{
    let t = s.drop_last();
    assert(distinct(t)) by {
        assert forall|a: int, b: int| 0 <= a < b < t.len() implies (#[trigger] t[a]).window
            != (#[trigger] t[b]).window by {
            assert(s[a].window != s[b].window);
        }
    }
    if i == s.len() - 1 {
        assert(!holds(t, w)) by {
            if holds(t, w) {
                let j = choose|j: int| 0 <= j < t.len() && (#[trigger] t[j]).window == w;
                assert(s[j].window != s[i].window);
            }
        }
        lemma_without(t, w);
        assert(s.remove(i) =~= t);
    } else {
        assert(s[i].window != s[s.len() - 1].window);
        lemma_without_at(t, w, i);
        assert(t.remove(i).push(s.last()) =~= s.remove(i));
    }
}

/// Moving a window keeps the windows of a space and their number.
pub proof fn lemma_relocated(s: Seq<Placement>, w: WindowId, loc: Point)
    requires
        distinct(s),
    ensures
        distinct(relocated(s, w, loc)),
        relocated(s, w, loc).len() == s.len(),
        forall|v: WindowId| holds(relocated(s, w, loc), v) == holds(s, v),
        !holds(s, w) ==> relocated(s, w, loc) == s,
{
    let r = relocated(s, w, loc);
    assert forall|i: int| 0 <= i < s.len() implies (#[trigger] r[i]).window == s[i].window by {}
    assert forall|i: int, j: int| 0 <= i < j < r.len() implies (#[trigger] r[i]).window
        != (#[trigger] r[j]).window by {
        assert(s[i].window != s[j].window);
    }
    assert forall|v: WindowId| holds(r, v) == holds(s, v) by {
        if holds(r, v) {
            let i = choose|i: int| 0 <= i < r.len() && (#[trigger] r[i]).window == v;
            assert(s[i].window == v);
        }
        if holds(s, v) {
            let i = choose|i: int| 0 <= i < s.len() && (#[trigger] s[i]).window == v;
            assert(r[i].window == v);
        }
    }
    if !holds(s, w) {
        assert forall|i: int| 0 <= i < s.len() implies #[trigger] r[i] == s[i] by {
            assert(s[i].window != w);
        }
        assert(r =~= s);
    }
}

} // verus!
