//! The notification registry: at most one pending live connection per
//! transaction id, delivered to exactly once.
//!
//! The registry is generic in the connection it holds: the host hands it the
//! live connections of its transport, tests hand it plain stand-ins.

use vstd::prelude::*;

verus! {

/// Does some slot in `slots` carry `id`?
pub open spec fn slots_contain<C>(slots: Seq<(String, C)>, id: Seq<char>) -> bool {
    exists|i: int| 0 <= i < slots.len() && (#[trigger] slots[i].0)@ == id
}

/// The position of the slot carrying `id`.
pub open spec fn slots_index<C>(slots: Seq<(String, C)>, id: Seq<char>) -> int {
    choose|i: int| 0 <= i < slots.len() && (#[trigger] slots[i].0)@ == id
}

/// A single-slot-per-id map from transaction id to one waiting connection.
pub struct NotificationRegistry<C> {
    pub slots: Vec<(String, C)>,
}

impl<C> NotificationRegistry<C> {
    /// The registry's invariant: one slot per id.
    pub open spec fn wf(self) -> bool {
        forall|i: int, j: int|
            0 <= i < j < self.slots@.len() ==> self.slots@[i].0@ != self.slots@[j].0@
    }

    /// Is a connection waiting on `id`?
    pub open spec fn contains_id(self, id: Seq<char>) -> bool {
        slots_contain(self.slots@, id)
    }

    /// The connection waiting on `id`.
    pub open spec fn conn_for(self, id: Seq<char>) -> C {
        self.slots@[slots_index(self.slots@, id)].1
    }

    /// An empty registry, as a fresh service instance starts with.
    pub fn new() -> (r: NotificationRegistry<C>)
        ensures
            r.wf(),
            forall|id: Seq<char>| !r.contains_id(id),
    {
        NotificationRegistry { slots: Vec::new() }
    }

    /// Find the slot position of `id`.
    fn find(&self, id: &String) -> (r: Option<usize>)
        ensures
            match r {
                Some(i) => i < self.slots@.len() && self.slots@[i as int].0@ == id@,
                None => !self.contains_id(id@),
            },
    {
        let n = self.slots.len();
        let mut i: usize = 0;
        while i < n
            invariant
                n == self.slots@.len(),
                i <= n,
                forall|j: int| 0 <= j < i ==> self.slots@[j].0@ != id@,
            decreases n - i,
        {
            if self.slots[i].0 == *id {
                return Some(i);
            }
            i += 1;
        }
        None
    }

    /// Park `conn` as the one connection waiting on `id`.  A connection
    /// already waiting there is displaced and handed back, not closed: what
    /// to do with it is the caller's decision.
    pub fn register(&mut self, id: String, conn: C) -> (displaced: Option<C>)
        requires
            old(self).wf(),
        ensures
            final(self).wf(),
            final(self).contains_id(id@),
            final(self).conn_for(id@) == conn,
            forall|x: Seq<char>|
                x != id@ ==> #[trigger] final(self).contains_id(x) == old(self).contains_id(x),
            forall|x: Seq<char>|
                x != id@ && old(self).contains_id(x) ==> #[trigger] final(self).conn_for(x) == old(
                    self,
                ).conn_for(x),
            match displaced {
                Some(c) => old(self).contains_id(id@) && c == old(self).conn_for(id@),
                None => !old(self).contains_id(id@),
            },
    {
        let ghost old_slots = self.slots@;
        let found = self.find(&id);
        match found {
            Some(i) => {
                proof {
                    let j = slots_index(old_slots, id@);
                    assert(old_slots[i as int].0@ == old_slots[j].0@);
                    assert(j == i as int);
                }
                let displaced = self.slots.remove(i);
                self.slots.insert(i, (id, conn));
                proof {
                    let s = self.slots@;
                    assert(s =~= old_slots.update(i as int, s[i as int]));
                    assert(s[i as int].0@ == old_slots[i as int].0@);
                    lemma_update_same_ids(old_slots, s, i as int);
                    let k = slots_index(s, id@);
                    assert(s[i as int].0@ == id@);
                    assert(s[k].0@ == id@);
                    if k != i as int {
                        assert(s[k].0@ != s[i as int].0@ || k == i as int);
                    }
                    assert(self.conn_for(id@) == conn);
                }
                Some(displaced.1)
            },
            None => {
                self.slots.push((id, conn));
                proof {
                    let s = self.slots@;
                    let n = old_slots.len();
                    assert(s[n as int].0@ == id@);
                    assert forall|a: int, b: int| 0 <= a < b < s.len() implies s[a].0@
                        != s[b].0@ by {
                        if b < n {
                            assert(old_slots[a].0@ != old_slots[b].0@);
                        } else {
                            assert(s[a] == old_slots[a]);
                            assert(!slots_contain(old_slots, id@));
                        }
                    }
                    assert forall|x: Seq<char>| x != id@ implies #[trigger] slots_contain(s, x)
                        == slots_contain(old_slots, x) by {
                        if slots_contain(old_slots, x) {
                            let k = slots_index(old_slots, x);
                            assert(0 <= k < old_slots.len());
                            assert(old_slots[k].0@ == x);
                            assert(s[k] == old_slots[k]);
                            assert(s[k].0@ == x);
                        }
                        if slots_contain(s, x) {
                            let k = slots_index(s, x);
                            assert(0 <= k < s.len());
                            assert(s[k].0@ == x);
                            assert(k < n);
                            assert(old_slots[k].0@ == x);
                        }
                    }
                    assert forall|x: Seq<char>|
                        x != id@ && slots_contain(old_slots, x) implies #[trigger] self.conn_for(
                        x,
                    ) == old(self).conn_for(x) by {
                        let k0 = slots_index(old_slots, x);
                        assert(old_slots[k0].0@ == x);
                        assert(s[k0] == old_slots[k0]);
                        assert(s[k0].0@ == x);
                        assert(slots_contain(s, x));
                        let k = slots_index(s, x);
                        assert(s[k].0@ == x);
                        if k != k0 {
                            assert(s[k].0@ != s[k0].0@);
                        }
                    }
                }
                None
            },
        }
    }

    /// Take the connection waiting on `id` out of the registry, if any: the
    /// slot is destroyed the moment it is delivered to.  Nobody waiting is
    /// not an error.
    pub fn take(&mut self, id: &String) -> (r: Option<C>)
        requires
            old(self).wf(),
        ensures
            final(self).wf(),
            !final(self).contains_id(id@),
            forall|x: Seq<char>|
                x != id@ ==> #[trigger] final(self).contains_id(x) == old(self).contains_id(x),
            forall|x: Seq<char>|
                x != id@ && old(self).contains_id(x) ==> #[trigger] final(self).conn_for(x) == old(
                    self,
                ).conn_for(x),
            match r {
                Some(c) => old(self).contains_id(id@) && c == old(self).conn_for(id@),
                None => !old(self).contains_id(id@),
            },
    {
        let ghost old_slots = self.slots@;
        let found = self.find(id);
        match found {
            Some(i) => {
                proof {
                    let j = slots_index(old_slots, id@);
                    assert(old_slots[i as int].0@ == old_slots[j].0@);
                    assert(j == i as int);
                }
                let pair = self.slots.remove(i);
                proof {
                    let s = self.slots@;
                    let n = old_slots.len();
                    assert forall|a: int, b: int| 0 <= a < b < s.len() implies s[a].0@
                        != s[b].0@ by {
                        let a0 = if a < i as int { a } else { a + 1 };
                        let b0 = if b < i as int { b } else { b + 1 };
                        assert(old_slots[a0].0@ != old_slots[b0].0@);
                    }
                    assert forall|x: Seq<char>| slots_contain(s, x) implies (slots_contain(
                        old_slots,
                        x,
                    ) && x != id@) by {
                        let k = slots_index(s, x);
                        let k0 = if k < i as int { k } else { k + 1 };
                        assert(old_slots[k0].0@ == x);
                        assert(k0 != i as int);
                        assert(old_slots[i as int].0@ != old_slots[k0].0@ || k0 == i as int);
                    }
                    assert forall|x: Seq<char>|
                        x != id@ && slots_contain(old_slots, x) implies slots_contain(s, x) by {
                        let k0 = slots_index(old_slots, x);
                        assert(k0 != i as int);
                        let k = if k0 < i as int { k0 } else { k0 - 1 };
                        assert(s[k].0@ == x);
                    }
                    assert forall|x: Seq<char>|
                        x != id@ && slots_contain(old_slots, x) implies #[trigger] self.conn_for(
                        x,
                    ) == old(self).conn_for(x) by {
                        let k = slots_index(s, x);
                        let k0 = slots_index(old_slots, x);
                        assert(s[k].0@ == x);
                        assert(old_slots[k0].0@ == x);
                        let k1 = if k < i as int { k } else { k + 1 };
                        assert(old_slots[k1].0@ == x);
                        assert(k1 == k0);
                        assert(s[k].1 == old_slots[k1].1);
                    }
                }
                Some(pair.1)
            },
            None => None,
        }
    }
}

/// Replacing a slot leaves every id's membership and every other id's
/// connection alone.
proof fn lemma_update_same_ids<C>(old_slots: Seq<(String, C)>, s: Seq<(String, C)>, i: int)
    requires
        0 <= i < old_slots.len(),
        s == old_slots.update(i, s[i]),
        s.len() == old_slots.len(),
        s[i].0@ == old_slots[i].0@,
        forall|a: int, b: int| 0 <= a < b < old_slots.len() ==> old_slots[a].0@ != old_slots[b].0@,
    ensures
        forall|a: int, b: int| 0 <= a < b < s.len() ==> s[a].0@ != s[b].0@,
        forall|x: Seq<char>| slots_contain(s, x) == slots_contain(old_slots, x),
        forall|x: Seq<char>|
            x != old_slots[i].0@ && slots_contain(old_slots, x) ==> s[slots_index(s, x)].1
                == old_slots[slots_index(old_slots, x)].1,
{
    assert forall|a: int, b: int| 0 <= a < b < s.len() implies s[a].0@ != s[b].0@ by {
        assert(old_slots[a].0@ != old_slots[b].0@);
        assert(s[a].0@ == old_slots[a].0@);
        assert(s[b].0@ == old_slots[b].0@);
    }
    assert forall|x: Seq<char>| slots_contain(s, x) == slots_contain(old_slots, x) by {
        if slots_contain(old_slots, x) {
            let k = slots_index(old_slots, x);
            assert(s[k].0@ == old_slots[k].0@);
            assert(s[k].0@ == x);
        }
        if slots_contain(s, x) {
            let k = slots_index(s, x);
            assert(old_slots[k].0@ == s[k].0@);
            assert(old_slots[k].0@ == x);
        }
    }
    assert forall|x: Seq<char>|
        x != old_slots[i].0@ && slots_contain(old_slots, x) implies s[slots_index(s, x)].1
        == old_slots[slots_index(old_slots, x)].1 by {
        let k = slots_index(s, x);
        let k0 = slots_index(old_slots, x);
        assert(slots_contain(s, x));
        assert(s[k].0@ == x);
        assert(old_slots[k0].0@ == x);
        assert(old_slots[k].0@ == s[k].0@);
        if k != k0 {
            if k < k0 {
                assert(old_slots[k].0@ != old_slots[k0].0@);
            } else {
                assert(old_slots[k0].0@ != old_slots[k].0@);
            }
        }
        assert(k != i);
        assert(s[k].1 == old_slots[k].1);
    }
}

/// The one terminal message a watcher receives: the outcome of its
/// transaction.
pub fn outcome_message(accepted: bool) -> (r: &'static str)
    ensures
        accepted ==> r@ == "transaction_accepted"@,
        !accepted ==> r@ == "transaction_rejected"@,
{
    if accepted {
        "transaction_accepted"
    } else {
        "transaction_rejected"
    }
}

} // verus!
