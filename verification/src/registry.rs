//! The registry of running compositors: from a compositor's name, which is
//! the name of its display socket, to the handle on which it takes commands.
//!
//! The registry is plain data. A process shares one between its threads by
//! putting it behind a lock; each operation here is then one step under that
//! lock.

use vstd::prelude::*;
use vstd::string::*;
use crate::text::same_text;

verus! {

/// One registration: a name and the handle registered under it.
#[derive(Debug)]
pub struct RegistryEntry<T> {
    pub name: String,
    pub sender: T,
}

/// A registration as mathematics.
pub struct EntryView<T> {
    pub name: Seq<char>,
    pub sender: T,
}

/// True when `s` holds a registration under `name`.
pub open spec fn knows<T>(s: Seq<EntryView<T>>, name: Seq<char>) -> bool {
    exists|i: int| 0 <= i < s.len() && (#[trigger] s[i]).name == name
}

/// True when no name is registered twice in `s`.
pub open spec fn unique<T>(s: Seq<EntryView<T>>) -> bool {
    forall|i: int, j: int| 0 <= i < j < s.len() ==> (#[trigger] s[i]).name != (#[trigger] s[j]).name
}

/// `s` without the registrations under `name`, the others in their order.
pub open spec fn unregistered<T>(s: Seq<EntryView<T>>, name: Seq<char>) -> Seq<EntryView<T>>
    decreases s.len(),
{
    if s.len() == 0 {
        s
    } else if s.last().name == name {
        unregistered(s.drop_last(), name)
    } else {
        unregistered(s.drop_last(), name).push(s.last())
    }
}

/// `s` after `sender` was registered under `name`: what stood under that
/// name before is gone, and the new registration is the latest.
pub open spec fn registered<T>(s: Seq<EntryView<T>>, name: Seq<char>, sender: T) -> Seq<
    EntryView<T>,
> {
    unregistered(s, name).push(EntryView { name, sender })
}

/// The handle registered under `name`, the latest where there are several.
pub open spec fn found<T>(s: Seq<EntryView<T>>, name: Seq<char>) -> Option<T>
    decreases s.len(),
{
    if s.len() == 0 {
        None
    } else if s.last().name == name {
        Some(s.last().sender)
    } else {
        found(s.drop_last(), name)
    }
}

/// The handle that was registered last, if any is registered.
pub open spec fn active<T>(s: Seq<EntryView<T>>) -> Option<T> {
    if s.len() == 0 {
        None
    } else {
        Some(s.last().sender)
    }
}

/// What unregistering a name keeps and what it drops.
pub proof fn lemma_unregistered<T>(s: Seq<EntryView<T>>, name: Seq<char>)
    ensures
        !knows(unregistered(s, name), name),
        found(unregistered(s, name), name).is_none(),
        forall|other: Seq<char>|
            other != name ==> found(unregistered(s, name), other) == found(s, other),
        forall|other: Seq<char>|
            other != name ==> knows(unregistered(s, name), other) == knows(s, other),
        unique(s) ==> unique(unregistered(s, name)),
        !knows(s, name) ==> unregistered(s, name) == s,
        unregistered(s, name).len() <= s.len(),
    decreases s.len(),
{
    if s.len() > 0 {
        let t = s.drop_last();
        let last = s.last();
        lemma_unregistered(t, name);
        let r = unregistered(s, name);
        let rt = unregistered(t, name);
        assert forall|other: Seq<char>| knows(s, other) == (knows(t, other) || last.name == other) by {
            if knows(s, other) {
                let i = choose|i: int| 0 <= i < s.len() && (#[trigger] s[i]).name == other;
                if i < t.len() {
                    assert(t[i].name == other);
                }
            }
            if knows(t, other) {
                let i = choose|i: int| 0 <= i < t.len() && (#[trigger] t[i]).name == other;
                assert(s[i].name == other);
            }
            if last.name == other {
                assert(s[s.len() - 1].name == other);
            }
        }
        if unique(s) {
            assert(unique(t)) by {
                assert forall|i: int, j: int| 0 <= i < j < t.len() implies (#[trigger] t[i]).name
                    != (#[trigger] t[j]).name by {
                    assert(s[i].name != s[j].name);
                }
            }
        }
        if last.name == name {
            assert(r == rt);
            assert forall|other: Seq<char>| other != name implies found(r, other) == found(
                s,
                other,
            ) by {
                assert(found(s, other) == found(t, other));
            }
        } else {
            assert(r.drop_last() =~= rt);
            assert(r.last() == last);
            assert forall|other: Seq<char>| knows(r, other) == (knows(rt, other) || last.name
                == other) by {
                if knows(r, other) {
                    let i = choose|i: int| 0 <= i < r.len() && (#[trigger] r[i]).name == other;
                    if i < rt.len() {
                        assert(rt[i].name == other);
                    }
                }
                if knows(rt, other) {
                    let i = choose|i: int| 0 <= i < rt.len() && (#[trigger] rt[i]).name == other;
                    assert(r[i].name == other);
                }
                if last.name == other {
                    assert(r[r.len() - 1].name == other);
                }
            }
            assert forall|other: Seq<char>| other != name implies found(r, other) == found(
                s,
                other,
            ) by {
                assert(found(rt, other) == found(t, other));
            }
            if unique(s) {
                assert(!knows(t, last.name)) by {
                    if knows(t, last.name) {
                        let i = choose|i: int|
                            0 <= i < t.len() && (#[trigger] t[i]).name == last.name;
                        assert(s[i].name != s[s.len() - 1].name);
                    }
                }
                assert(unique(r)) by {
                    assert forall|i: int, j: int| 0 <= i < j < r.len() implies (#[trigger] r[i]).name
                        != (#[trigger] r[j]).name by {
                        if j < rt.len() {
                            assert(rt[i].name != rt[j].name);
                        } else {
                            assert(rt[i].name == r[i].name);
                            if r[i].name == last.name {
                                assert(knows(rt, last.name));
                            }
                        }
                    }
                }
            }
            if !knows(s, name) {
                assert(rt == t);
                assert(r =~= s);
            }
        }
    }
}

/// Where names are unique, unregistering takes out the one registration
/// under the name, and looking a name up finds that registration.
pub proof fn lemma_entry_at<T>(s: Seq<EntryView<T>>, name: Seq<char>, i: int)
    requires
        unique(s),
        0 <= i < s.len(),
        s[i].name == name,
    ensures
        unregistered(s, name) == s.remove(i),
        found(s, name) == Some(s[i].sender),
    decreases s.len(),
{
    let t = s.drop_last();
    assert(unique(t)) by {
        assert forall|a: int, b: int| 0 <= a < b < t.len() implies (#[trigger] t[a]).name != (
        #[trigger] t[b]).name by {
            assert(s[a].name != s[b].name);
        }
    }
    if i == s.len() - 1 {
        assert(!knows(t, name)) by {
            if knows(t, name) {
                let j = choose|j: int| 0 <= j < t.len() && (#[trigger] t[j]).name == name;
                assert(s[j].name != s[i].name);
            }
        }
        lemma_unregistered(t, name);
        assert(s.remove(i) =~= t);
    } else {
        assert(s[i].name != s[s.len() - 1].name);
        lemma_entry_at(t, name, i);
        assert(t.remove(i).push(s.last()) =~= s.remove(i));
    }
}

/// After `sender` was registered under `name`, looking `name` up finds
/// `sender`, and `sender` is the active handle. Every other name is found as
/// before. Registering the same handle again changes nothing.
pub proof fn law_register_then_lookup<T>(s: Seq<EntryView<T>>, name: Seq<char>, sender: T)
    ensures
        found(registered(s, name, sender), name) == Some(sender),
        active(registered(s, name, sender)) == Some(sender),
        forall|other: Seq<char>|
            other != name ==> found(registered(s, name, sender), other) == found(s, other),
        registered(registered(s, name, sender), name, sender) == registered(s, name, sender),
        unique(s) ==> unique(registered(s, name, sender)),
{
    lemma_unregistered(s, name);
    let u = unregistered(s, name);
    let r = registered(s, name, sender);
    assert(r.drop_last() =~= u);
    assert(r.last() == EntryView { name, sender });
    assert forall|other: Seq<char>| other != name implies found(r, other) == found(s, other) by {
        assert(found(r, other) == found(u, other));
    }
    assert(unregistered(r, name) == unregistered(u, name));
    lemma_unregistered(u, name);
    if unique(s) {
        assert forall|i: int, j: int| 0 <= i < j < r.len() implies (#[trigger] r[i]).name != (
        #[trigger] r[j]).name by {
            if j < u.len() {
                assert(u[i].name != u[j].name);
            } else {
                assert(u[i].name == r[i].name);
            }
        }
    }
}

/// After `name` was unregistered, looking it up finds nothing, and every
/// other name is found as before. Unregistering twice is the same as doing it
/// once.
pub proof fn law_unregister_then_lookup<T>(s: Seq<EntryView<T>>, name: Seq<char>)
    ensures
        found(unregistered(s, name), name).is_none(),
        forall|other: Seq<char>|
            other != name ==> found(unregistered(s, name), other) == found(s, other),
        unregistered(unregistered(s, name), name) == unregistered(s, name),
{
    lemma_unregistered(s, name);
    lemma_unregistered(unregistered(s, name), name);
}

/// The compositors that are registered in a process, in the order in which
/// they were registered last.
#[derive(Debug)]
pub struct Registry<T> {
    entries: Vec<RegistryEntry<T>>,
}

impl<T> View for Registry<T> {
    type V = Seq<EntryView<T>>;

    closed spec fn view(&self) -> Seq<EntryView<T>> {
        Seq::new(
            self.entries@.len(),
            |i: int| EntryView { name: self.entries@[i].name@, sender: self.entries@[i].sender },
        )
    }
}

impl<T> Registry<T> {
    /// No name is registered twice.
    pub open spec fn wf(&self) -> bool {
        unique(self@)
    }

    /// A registry without registrations.
    pub fn new() -> (registry: Registry<T>)
        ensures
            registry@ == Seq::<EntryView<T>>::empty(),
            registry.wf(),
    {
        let registry = Registry { entries: Vec::new() };
        assert(registry@ =~= Seq::<EntryView<T>>::empty());
        registry
    }

    /// The number of registrations.
    pub fn len(&self) -> (n: usize)
        ensures
            n == self@.len(),
    {
        self.entries.len()
    }

    /// The place of the latest registration under `name`.
    fn position(&self, name: &str) -> (place: Option<usize>)
        ensures
            match place {
                Some(i) => i < self@.len() && self@[i as int].name == name@ && found(
                    self@,
                    name@,
                ) == Some(self@[i as int].sender),
                None => !knows(self@, name@) && found(self@, name@).is_none(),
            },
    {
        let mut i: usize = self.entries.len();
        assert(self@.take(i as int) =~= self@);
        while i > 0
            invariant
                i <= self.entries@.len(),
                forall|j: int| i <= j < self@.len() ==> (#[trigger] self@[j]).name != name@,
                found(self@, name@) == found(self@.take(i as int), name@),
            decreases i,
        {
            let ghost cur = self@.take(i as int);
            i -= 1;
            proof {
                assert(cur.drop_last() =~= self@.take(i as int));
                assert(cur.last() == self@[i as int]);
            }
            if same_text(self.entries[i].name.as_str(), name) {
                return Some(i);
            }
        }
        proof {
            assert(self@.take(0) =~= Seq::<EntryView<T>>::empty());
        }
        None
    }

    /// Registers `sender` under `name`. A registration that stood under the
    /// name is replaced: the last write wins.
    pub fn register(&mut self, name: &str, sender: T)
        requires
            old(self).wf(),
        ensures
            final(self).wf(),
            final(self)@ == registered(old(self)@, name@, sender),
    {
        let _ = self.unregister(name);
        let ghost mid = self@;
        self.entries.push(RegistryEntry { name: String::from_str(name), sender });
        proof {
            assert(self@ =~= mid.push(EntryView { name: name@, sender }));
            law_register_then_lookup(old(self)@, name@, sender);
        }
    }

    /// Takes the registration under `name` out. Tells whether there was one;
    /// where there was none, nothing changes.
    pub fn unregister(&mut self, name: &str) -> (removed: bool)
        requires
            old(self).wf(),
        ensures
            final(self).wf(),
            final(self)@ == unregistered(old(self)@, name@),
            removed == knows(old(self)@, name@),
    {
        proof {
            lemma_unregistered(old(self)@, name@);
        }
        match self.position(name) {
            Some(i) => {
                let _ = self.entries.remove(i);
                proof {
                    lemma_entry_at(old(self)@, name@, i as int);
                    assert(self@ =~= old(self)@.remove(i as int));
                }
                true
            },
            None => false,
        }
    }

    /// The handle registered under `name`.
    pub fn lookup(&self, name: &str) -> (sender: Option<&T>)
        ensures
            match sender {
                Some(t) => found(self@, name@) == Some(*t),
                None => found(self@, name@).is_none(),
            },
    {
        match self.position(name) {
            Some(i) => Some(&self.entries[i].sender),
            None => None,
        }
    }

    /// The handle that was registered last.
    pub fn lookup_active(&self) -> (sender: Option<&T>)
        ensures
            match sender {
                Some(t) => active(self@) == Some(*t),
                None => active(self@).is_none(),
            },
    {
        let n = self.entries.len();
        if n == 0 {
            None
        } else {
            Some(&self.entries[n - 1].sender)
        }
    }
}

} // verus!
