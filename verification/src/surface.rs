//! Commits of native surfaces: the first configure of a top-level, its
//! mapping, and the first configure of a popup.

use vstd::prelude::*;
use crate::compositor::{
    dequeued, lemma_dequeued, CommitOutcome, FocusTarget, PendingWindow, State,
};
use crate::geometry::Size;
use crate::space::{holds, WindowId};

verus! {

impl State {
    /// Handles the commit of `surface`.
    ///
    /// `max_size` is the largest size the client currently allows, zero by
    /// zero where it set none. `popup` is `None` unless the display stack
    /// knows the surface as a popup, and then tells whether the popup has had
    /// its first configure.
    ///
    /// A waiting top-level is sent its first configure on its first commit
    /// and mapped on the next; both steps ask the routing policy anew. Both
    /// are put off, with nothing changed and the window still waiting, while
    /// the primary output or the chosen output is missing, and the configure
    /// also while the chosen output has no mode to take a size from. A popup
    /// is never routed. What remains for the caller to do is the outcome.
    pub fn commit(&mut self, surface: u64, max_size: Size, popup: Option<bool>) -> (outcome:
        CommitOutcome)
        requires
            old(self).wf(),
        ensures
            final(self).wf(),
            (final(self)@, outcome) == old(self)@.commit(surface, max_size, popup),
    {
        let w = WindowId::Native(surface);
        match self.pending_position(w) {
            Some(i) => {
                let entry = self.pending_windows[i];
                let kind = self.route();
                proof {
                    lemma_dequeued(old(self)@.pending, i as int);
                }
                let ready = self.can_route();
                if !entry.configured {
                    let unset = max_size.is_unset();
                    match self.output_of(kind) {
                        Some(o) => {
                            if !ready || (unset && o.mode.is_none()) {
                                CommitOutcome::Deferred
                            } else {
                                let _ = self.pending_windows.swap_remove(i);
                                self.pending_windows.push(
                                    PendingWindow { window: w, configured: true },
                                );
                                proof {
                                    let p = old(self)@.pending;
                                    let q = self@.pending;
                                    assert forall|a: int, b: int|
                                        0 <= a < b < q.len() implies (#[trigger] q[a]).window != (
                                    #[trigger] q[b]).window by {
                                        if b == q.len() - 1 {
                                            assert(dequeued(p, i as int)[a] == q[a]);
                                        }
                                    }
                                    assert forall|j: int| 0 <= j < q.len() implies {
                                        &&& (#[trigger] q[j]).window is Native
                                        &&& !holds(self@.primary, q[j].window)
                                        &&& !holds(self@.secondary, q[j].window)
                                    } by {
                                        if j == q.len() - 1 {
                                            assert(q[j].window == p[i as int].window);
                                        } else if j == i {
                                            assert(q[j] == p[p.len() - 1]);
                                        } else {
                                            assert(q[j] == p[j]);
                                        }
                                    }
                                }
                                CommitOutcome::Configure {
                                    target: kind,
                                    size: if unset {
                                        o.current_fill_size()
                                    } else {
                                        None
                                    },
                                    fullscreen: unset,
                                }
                            }
                        },
                        None => CommitOutcome::Deferred,
                    }
                } else if ready {
                    let _ = self.pending_windows.swap_remove(i);
                    proof {
                        let p = old(self)@.pending;
                        let q = self@.pending;
                        assert forall|j: int| 0 <= j < q.len() implies {
                            &&& (#[trigger] q[j]).window is Native
                            &&& !holds(self@.primary, q[j].window)
                            &&& !holds(self@.secondary, q[j].window)
                        } by {
                            if j == i {
                                assert(q[j] == p[p.len() - 1]);
                            } else {
                                assert(q[j] == p[j]);
                            }
                        }
                    }
                    let _ = self.map_toplevel(FocusTarget { window: w, connection: None });
                    CommitOutcome::Mapped { target: kind }
                } else {
                    CommitOutcome::Deferred
                }
            },
            None => match popup {
                Some(configured) => if configured {
                    CommitOutcome::Ignored
                } else {
                    CommitOutcome::ConfigurePopup
                },
                None => match self.holder(w) {
                    Some(space) => CommitOutcome::Committed { space },
                    None => CommitOutcome::Ignored,
                },
            },
        }
    }
}

} // verus!
