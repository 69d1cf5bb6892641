use vstd::prelude::*;

verus! {

/// The registry of in-flight session tasks, each keyed by an id that is never
/// handed out twice.
pub struct Supervisor {
    pub next_id: u64,
    pub live: Vec<u64>,
}

impl Supervisor {
    /// The ids of the tasks that were spawned and not yet drained.
    pub open spec fn tasks(&self) -> Set<u64> {
        self.live@.to_set()
    }

    /// Each live id appears once, and every id handed out is below `next_id`.
    pub open spec fn wf(&self) -> bool {
        &&& self.live@.no_duplicates()
        &&& forall|i: int| 0 <= i < self.live@.len() ==> #[trigger] self.live@[i] < self.next_id
    }

    pub fn new() -> (r: Supervisor)
        ensures
            r.wf(),
            r.tasks() == Set::<u64>::empty(),
            r.next_id == 0,
    {
        let r = Supervisor { next_id: 0, live: Vec::new() };
        proof {
            assert(r.tasks() =~= Set::<u64>::empty());
        }
        r
    }

    /// Registers a new task and returns its id; `None` once every id is used.
    pub fn spawn(&mut self) -> (r: Option<u64>)
        requires
            old(self).wf(),
        ensures
            final(self).wf(),
            old(self).next_id == u64::MAX ==> r.is_none() && *final(self) == *old(self),
            old(self).next_id < u64::MAX ==> r == Some(old(self).next_id) && final(self).next_id
                == old(self).next_id + 1 && final(self).tasks() == old(self).tasks().insert(
                old(self).next_id,
            ),
            r.is_some() ==> !old(self).tasks().contains(r.unwrap()),
    {
        if self.next_id == u64::MAX {
            return None;
        }
        let id = self.next_id;
        proof {
            self.live@.lemma_push_to_set_commute(id);
            assert(!self.live@.contains(id));
        }
        self.live.push(id);
        self.next_id = id + 1;
        proof {
            assert forall|i: int| 0 <= i < self.live@.len() implies #[trigger] self.live@[i]
                < self.next_id by {
                if i < self.live@.len() - 1 {
                    assert(self.live@[i] == old(self).live@[i]);
                }
            }
        }
        Some(id)
    }

    /// Whether any task is registered: waiting for a completion makes sense only then.
    pub fn has_pending(&self) -> (r: bool)
        requires
            self.wf(),
        ensures
            r == !self.tasks().is_empty(),
    {
        proof {
            if self.live@.len() > 0 {
                assert(self.tasks().contains(self.live@[0]));
            } else {
                assert(self.tasks() =~= Set::<u64>::empty());
            }
        }
        self.live.len() > 0
    }

    /// Drains the completion of task `id`. Returns whether it was registered; each
    /// task is drained at most once.
    pub fn complete(&mut self, id: u64) -> (r: bool)
        requires
            old(self).wf(),
        ensures
            final(self).wf(),
            r == old(self).tasks().contains(id),
            final(self).tasks() == old(self).tasks().remove(id),
            final(self).next_id == old(self).next_id,
    {
        let mut i: usize = 0;
        while i < self.live.len()
            invariant
                i <= self.live@.len(),
                self.live@ == old(self).live@,
                self.next_id == old(self).next_id,
                old(self).wf(),
                forall|j: int| 0 <= j < i ==> self.live@[j] != id,
            decreases self.live@.len() - i,
        {
            if self.live[i] == id {
                let ghost before = self.live@;
                self.live.remove(i);
                proof {
                    before.remove_ensures(i as int);
                    assert forall|x: u64| #[trigger]
                        self.live@.contains(x) <==> before.contains(x) && x != id by {
                        if before.contains(x) && x != id {
                            let k = before.index_of(x);
                            if k < i {
                                assert(self.live@[k] == x);
                            } else {
                                assert(self.live@[k - 1] == x);
                            }
                        }
                        if self.live@.contains(x) {
                            let k = self.live@.index_of(x);
                            assert(before[i as int] == id);
                            if k < i {
                                assert(before[k] == x);
                            } else {
                                assert(before[k + 1] == x);
                            }
                            assert(before.contains(x));
                        }
                    }
                    assert(self.tasks() =~= old(self).tasks().remove(id));
                    assert forall|a: int, b: int|
                        0 <= a < self.live@.len() && 0 <= b < self.live@.len() && a != b
                        implies self.live@[a] != self.live@[b] by {
                        let a2 = if a < i { a } else { a + 1 };
                        let b2 = if b < i { b } else { b + 1 };
                        assert(self.live@[a] == before[a2]);
                        assert(self.live@[b] == before[b2]);
                    }
                    assert forall|j: int| 0 <= j < self.live@.len() implies #[trigger] self.live@[j]
                        < self.next_id by {
                        if j < i {
                            assert(self.live@[j] == before[j]);
                        } else {
                            assert(self.live@[j] == before[j + 1]);
                        }
                    }
                }
                return true;
            }
            i = i + 1;
        }
        proof {
            assert(!self.live@.contains(id));
            assert(self.tasks() =~= old(self).tasks().remove(id));
        }
        false
    }

    /// Cancels every outstanding task: returns the ids of all of them, each once,
    /// and leaves the registry empty.
    pub fn cancel_all(&mut self) -> (r: Vec<u64>)
        requires
            old(self).wf(),
        ensures
            final(self).wf(),
            r@.no_duplicates(),
            r@.to_set() == old(self).tasks(),
            final(self).tasks() == Set::<u64>::empty(),
            final(self).next_id == old(self).next_id,
    {
        let mut r: Vec<u64> = Vec::new();
        core::mem::swap(&mut self.live, &mut r);
        proof {
            assert(self.tasks() =~= Set::<u64>::empty());
        }
        r
    }
}

} // verus!
