//! Replay protection: a nonce is accepted once per subject.
use vstd::prelude::*;

verus! {

/// A nonce was refused because it was already used or is not fresh.
#[derive(Debug, Clone, Copy, PartialEq, Eq, Structural)]
pub struct ReplayRejected {
    pub subject: u64,
    pub nonce: u64,
}

/// Whether the monotonic guard accepts `nonce` for `subject`, given the last
/// nonce recorded for each subject.
pub open spec fn monotonic_accepts(last: Map<u64, u64>, subject: u64, nonce: u64) -> bool {
    !last.contains_key(subject) || nonce > last[subject]
}

/// One call of the monotonic guard: whether it succeeds, and the record after it.
pub open spec fn monotonic_step(last: Map<u64, u64>, subject: u64, nonce: u64) -> (bool, Map<
    u64,
    u64,
>) {
    if monotonic_accepts(last, subject, nonce) {
        (true, last.insert(subject, nonce))
    } else {
        (false, last)
    }
}

/// One call of the unique-use guard: whether it succeeds, and the record after it.
pub open spec fn unique_step(seen: Set<(u64, u64)>, subject: u64, nonce: u64) -> (bool, Set<
    (u64, u64),
>) {
    if seen.contains((subject, nonce)) {
        (false, seen)
    } else {
        (true, seen.insert((subject, nonce)))
    }
}

/// Of two attempts with the same subject and nonce on the monotonic guard,
/// the second always fails, and the first succeeds exactly when the nonce was
/// fresh: at most one of them is accepted, and one is whenever any could be.
pub proof fn monotonic_accepts_once(last: Map<u64, u64>, subject: u64, nonce: u64)
    ensures
        monotonic_step(last, subject, nonce).0 == monotonic_accepts(last, subject, nonce),
        !monotonic_step(monotonic_step(last, subject, nonce).1, subject, nonce).0,
{
}

/// After the monotonic guard records `nonce` for `subject`, no nonce up to it
/// is accepted for that subject any more.
pub proof fn monotonic_rejects_stale(last: Map<u64, u64>, subject: u64, nonce: u64, later: u64)
    requires
        monotonic_step(last, subject, nonce).0,
        later <= nonce,
    ensures
        !monotonic_accepts(monotonic_step(last, subject, nonce).1, subject, later),
{
}

/// Of two attempts with the same subject and nonce on the unique-use guard,
/// the second always fails, and the first succeeds exactly when the pair was
/// not seen before.
pub proof fn unique_accepts_once(seen: Set<(u64, u64)>, subject: u64, nonce: u64)
    ensures
        unique_step(seen, subject, nonce).0 == !seen.contains((subject, nonce)),
        !unique_step(unique_step(seen, subject, nonce).1, subject, nonce).0,
{
}

/// Accepts for each subject only nonces strictly greater than the last one
/// it accepted for that subject.
pub struct MonotonicGuard {
    records: Vec<(u64, u64)>,
    last: Ghost<Map<u64, u64>>,
}

impl View for MonotonicGuard {
    type V = Map<u64, u64>;

    /// The last accepted nonce of each subject that has one.
    closed spec fn view(&self) -> Map<u64, u64> {
        self.last@
    }
}

impl MonotonicGuard {
    /// The records list each subject once, with its last nonce.
    pub closed spec fn wf(&self) -> bool {
        &&& forall|i: int|
            0 <= i < self.records@.len() ==> #[trigger] self.last@.contains_key(
                self.records@[i].0,
            ) && self.last@[self.records@[i].0] == self.records@[i].1
        &&& forall|k: u64|
            #[trigger] self.last@.contains_key(k) ==> exists|i: int|
                0 <= i < self.records@.len() && self.records@[i].0 == k
        &&& forall|i: int, j: int|
            0 <= i < self.records@.len() && 0 <= j < self.records@.len() && i != j
                ==> self.records@[i].0 != self.records@[j].0
    }

    /// A guard that has accepted nothing.
    pub fn new() -> (r: MonotonicGuard)
        ensures
            r.wf(),
            r@ == Map::<u64, u64>::empty(),
    {
        MonotonicGuard { records: Vec::new(), last: Ghost(Map::empty()) }
    }

    /// The last nonce accepted for `subject`, if any.
    pub fn last_nonce(&self, subject: u64) -> (r: Option<u64>)
        requires
            self.wf(),
        ensures
            r == (if self@.contains_key(subject) {
                Some(self@[subject])
            } else {
                None
            }),
    {
        match self.position(subject) {
            Some(i) => Some(self.records[i].1),
            None => None,
        }
    }

    fn position(&self, subject: u64) -> (r: Option<usize>)
        requires
            self.wf(),
        ensures
            r matches Some(i) ==> i < self.records@.len() && self.records@[i as int].0 == subject,
            r is None ==> !self@.contains_key(subject),
    {
        let mut i: usize = 0;
        while i < self.records.len()
            invariant
                self.wf(),
                i <= self.records@.len(),
                forall|j: int| 0 <= j < i ==> self.records@[j].0 != subject,
            decreases self.records@.len() - i,
        {
            if self.records[i].0 == subject {
                return Some(i);
            }
            i = i + 1;
        }
        proof {
            if self@.contains_key(subject) {
                let j = choose|j: int| 0 <= j < self.records@.len() && self.records@[j].0 == subject;
                assert(self.records@[j].0 != subject);
            }
        }
        None
    }

    /// Accepts `nonce` for `subject` if it is greater than every nonce
    /// accepted for that subject before, and records it; refuses it otherwise
    /// and changes nothing.
    pub fn check_and_record(&mut self, subject: u64, nonce: u64) -> (r: Result<(), ReplayRejected>)
        requires
            old(self).wf(),
        ensures
            final(self).wf(),
            r is Ok == monotonic_step(old(self)@, subject, nonce).0,
            final(self)@ == monotonic_step(old(self)@, subject, nonce).1,
            r matches Err(e) ==> e == (ReplayRejected { subject, nonce }),
    {
        match self.position(subject) {
            Some(i) => {
                assert(self.last@.contains_key(self.records@[i as int].0));
                if nonce <= self.records[i].1 {
                    return Err(ReplayRejected { subject, nonce });
                }
                let ghost before = self.records@;
                self.records.set(i, (subject, nonce));
                self.last = Ghost(self.last@.insert(subject, nonce));
                assert forall|k: u64| #[trigger] self.last@.contains_key(k) implies exists|j: int|
                    0 <= j < self.records@.len() && self.records@[j].0 == k by {
                    if k != subject {
                        assert(old(self).last@.contains_key(k));
                        let j = choose|j: int|
                            0 <= j < before.len() && before[j].0 == k;
                        assert(self.records@[j].0 == k);
                    } else {
                        assert(self.records@[i as int].0 == k);
                    }
                }
                Ok(())
            },
            None => {
                let ghost before = self.records@;
                self.records.push((subject, nonce));
                self.last = Ghost(self.last@.insert(subject, nonce));
                assert forall|k: u64| #[trigger] self.last@.contains_key(k) implies exists|j: int|
                    0 <= j < self.records@.len() && self.records@[j].0 == k by {
                    if k != subject {
                        assert(old(self).last@.contains_key(k));
                        let j = choose|j: int|
                            0 <= j < before.len() && before[j].0 == k;
                        assert(self.records@[j].0 == k);
                    } else {
                        assert(self.records@[before.len() as int].0 == k);
                    }
                }
                assert forall|a: int|
                    0 <= a < before.len() implies #[trigger] before[a].0 != subject by {
                    assert(old(self).last@.contains_key(before[a].0));
                }
                Ok(())
            },
        }
    }
}

/// Accepts each (subject, nonce) pair at most once.
pub struct UniqueGuard {
    seen: Vec<(u64, u64)>,
}

impl View for UniqueGuard {
    type V = Set<(u64, u64)>;

    /// The pairs accepted so far.
    closed spec fn view(&self) -> Set<(u64, u64)> {
        self.seen@.to_set()
    }
}

impl UniqueGuard {
    /// A guard that has accepted nothing.
    pub fn new() -> (r: UniqueGuard)
        ensures
            r@ == Set::<(u64, u64)>::empty(),
    {
        let r = UniqueGuard { seen: Vec::new() };
        assert(r@ =~= Set::<(u64, u64)>::empty());
        r
    }

    /// Whether the pair was accepted before.
    pub fn contains(&self, subject: u64, nonce: u64) -> (r: bool)
        ensures
            r == self@.contains((subject, nonce)),
    {
        let mut i: usize = 0;
        while i < self.seen.len()
            invariant
                i <= self.seen@.len(),
                forall|j: int| 0 <= j < i ==> self.seen@[j] != (subject, nonce),
            decreases self.seen@.len() - i,
        {
            if self.seen[i].0 == subject && self.seen[i].1 == nonce {
                assert(self.seen@.contains(self.seen@[i as int]));
                return true;
            }
            i = i + 1;
        }
        false
    }

    /// Accepts the pair if it was never accepted before, and records it;
    /// refuses it otherwise and changes nothing.
    pub fn check_and_record(&mut self, subject: u64, nonce: u64) -> (r: Result<(), ReplayRejected>)
        ensures
            r is Ok == unique_step(old(self)@, subject, nonce).0,
            final(self)@ == unique_step(old(self)@, subject, nonce).1,
            r matches Err(e) ==> e == (ReplayRejected { subject, nonce }),
    {
        if self.contains(subject, nonce) {
            return Err(ReplayRejected { subject, nonce });
        }
        self.seen.push((subject, nonce));
        proof {
            old(self).seen@.lemma_push_to_set_commute((subject, nonce));
        }
        Ok(())
    }
}

} // verus!
