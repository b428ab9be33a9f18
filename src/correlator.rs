//! The correlator: pending reply slots keyed by correlation identity.
//!
//! A slot is registered before its command is queued and is removed by the
//! first reply that carries the same identity; later replies with that identity
//! find nothing and are dropped.
use vstd::prelude::*;

verus! {

/// Why a slot could not be registered.
#[derive(Clone, Copy, Debug, PartialEq, Eq, Structural)]
pub enum CorrelatorError {
    /// A slot is already pending under this identity.
    DuplicateIdentity,
}

/// What resolving `id` against the pending slots `m` leaves, and what it hands
/// out: the slot stored under `id`, removed, or nothing when none is pending.
pub open spec fn resolve_model<S>(m: Map<Seq<char>, S>, id: Seq<char>) -> (Map<Seq<char>, S>, Option<S>) {
    if m.contains_key(id) {
        (m.remove(id), Some(m[id]))
    } else {
        (m, None)
    }
}

/// Pending reply slots, one per identity.
pub struct Correlator<S> {
    entries: Vec<(String, S)>,
    slots: Ghost<Map<Seq<char>, S>>,
}

impl<S> View for Correlator<S> {
    type V = Map<Seq<char>, S>;

    closed spec fn view(&self) -> Map<Seq<char>, S> {
        self.slots@
    }
}

impl<S> Correlator<S> {
    /// The stored entries agree with the map of pending slots, one entry per key.
    pub closed spec fn wf(&self) -> bool {
        &&& forall|i: int, j: int|
            0 <= i < j < self.entries@.len() ==> #[trigger] self.entries@[i].0@
                != #[trigger] self.entries@[j].0@
        &&& forall|i: int|
            0 <= i < self.entries@.len() ==> self.slots@.contains_key(#[trigger] self.entries@[i].0@)
                && self.slots@[self.entries@[i].0@] == self.entries@[i].1
        &&& forall|k: Seq<char>|
            #[trigger] self.slots@.contains_key(k) ==> exists|i: int|
                0 <= i < self.entries@.len() && #[trigger] self.entries@[i].0@ == k
    }

    /// No slot is pending.
    pub fn new() -> (r: Self)
        ensures
            r.wf(),
            r@ == Map::<Seq<char>, S>::empty(),
    {
        Correlator { entries: Vec::new(), slots: Ghost(Map::empty()) }
    }

    /// How many slots are pending.
    pub fn len(&self) -> (r: usize)
        requires
            self.wf(),
        ensures
            r == self@.len(),
    {
        proof {
            self.lemma_len();
        }
        self.entries.len()
    }

    proof fn lemma_len(&self)
        requires
            self.wf(),
        ensures
            self@.dom().finite(),
            self@.len() == self.entries@.len(),
    {
        let keys = self.entries@.map_values(|e: (String, S)| e.0@);
        assert forall|i: int, j: int| 0 <= i < keys.len() && 0 <= j < keys.len() && i != j
            implies keys[i] != keys[j] by {
            if i < j {
                assert(self.entries@[i].0@ != self.entries@[j].0@);
            } else {
                assert(self.entries@[j].0@ != self.entries@[i].0@);
            }
        }
        assert(keys.no_duplicates());
        assert(self@.dom() =~= keys.to_set()) by {
            assert forall|k: Seq<char>| self@.dom().contains(k) implies keys.to_set().contains(k) by {
                let i = choose|i: int| 0 <= i < self.entries@.len() && self.entries@[i].0@ == k;
                assert(keys[i] == k);
            }
            assert forall|k: Seq<char>| keys.to_set().contains(k) implies self@.dom().contains(k) by {
                let i = choose|i: int| 0 <= i < keys.len() && keys[i] == k;
                assert(self.entries@[i].0@ == k);
            }
        }
        keys.unique_seq_to_set();
    }

    /// The position of the entry for `id`, if one is pending.
    fn find(&self, id: &String) -> (r: Option<usize>)
        requires
            self.wf(),
        ensures
            match r {
                Some(i) => i < self.entries@.len() && self.entries@[i as int].0@ == id@,
                None => !self@.contains_key(id@),
            },
    {
        let mut i: usize = 0;
        while i < self.entries.len()
            invariant
                self.wf(),
                i <= self.entries@.len(),
                forall|j: int| 0 <= j < i ==> self.entries@[j].0@ != id@,
            decreases self.entries@.len() - i,
        {
            if self.entries[i].0 == *id {
                return Some(i);
            }
            i = i + 1;
        }
        None
    }

    /// Whether a slot is pending under `id`.
    pub fn contains(&self, id: &String) -> (r: bool)
        requires
            self.wf(),
        ensures
            r == self@.contains_key(id@),
    {
        self.find(id).is_some()
    }

    /// Stores `slot` under `id`. Fails, changing nothing, when a slot is already
    /// pending under `id`.
    pub fn register(&mut self, id: String, slot: S) -> (r: Result<(), CorrelatorError>)
        requires
            old(self).wf(),
        ensures
            final(self).wf(),
            old(self)@.contains_key(id@) ==> r == Err::<(), CorrelatorError>(
                CorrelatorError::DuplicateIdentity,
            ) && final(self)@ == old(self)@,
            !old(self)@.contains_key(id@) ==> r is Ok && final(self)@ == old(self)@.insert(id@, slot),
    {
        if self.find(&id).is_some() {
            return Err(CorrelatorError::DuplicateIdentity);
        }
        let ghost k = id@;
        let ghost old_entries = self.entries@;
        self.entries.push((id, slot));
        self.slots = Ghost(self.slots@.insert(k, slot));
        proof {
            assert forall|i: int| 0 <= i < self.entries@.len() implies self.slots@.contains_key(
                #[trigger] self.entries@[i].0@,
            ) && self.slots@[self.entries@[i].0@] == self.entries@[i].1 by {
                if i < old_entries.len() {
                    assert(self.entries@[i] == old_entries[i]);
                    assert(old_entries[i].0@ != k);
                }
            }
            assert forall|kk: Seq<char>| #[trigger] self.slots@.contains_key(kk) implies exists|i: int|
                0 <= i < self.entries@.len() && #[trigger] self.entries@[i].0@ == kk by {
                if kk == k {
                    assert(self.entries@[old_entries.len() as int].0@ == kk);
                } else {
                    let i = choose|i: int| 0 <= i < old_entries.len() && old_entries[i].0@ == kk;
                    assert(self.entries@[i] == old_entries[i]);
                }
            }
        }
        Ok(())
    }

    /// Takes out the slot pending under `id`, if any: the slot is handed back
    /// and removed, so a later reply with the same identity finds nothing.
    pub fn resolve(&mut self, id: &String) -> (r: Option<S>)
        requires
            old(self).wf(),
        ensures
            final(self).wf(),
            (final(self)@, r) == resolve_model(old(self)@, id@),
    {
        match self.find(id) {
            None => None,
            Some(i) => {
                let ghost old_entries = self.entries@;
                let ghost k = id@;
                let e = self.entries.remove(i);
                self.slots = Ghost(self.slots@.remove(k));
                proof {
                    assert forall|a: int, b: int|
                        0 <= a < b < self.entries@.len() implies #[trigger] self.entries@[a].0@
                        != #[trigger] self.entries@[b].0@ by {
                        let a0 = if a < i { a } else { a + 1 };
                        let b0 = if b < i { b } else { b + 1 };
                        assert(self.entries@[a] == old_entries[a0]);
                        assert(self.entries@[b] == old_entries[b0]);
                    }
                    assert forall|j: int| 0 <= j < self.entries@.len() implies self.slots@.contains_key(
                        #[trigger] self.entries@[j].0@,
                    ) && self.slots@[self.entries@[j].0@] == self.entries@[j].1 by {
                        let j0 = if j < i { j } else { j + 1 };
                        assert(self.entries@[j] == old_entries[j0]);
                        if j < i {
                            assert(old_entries[j0].0@ != old_entries[i as int].0@);
                        } else {
                            assert(old_entries[i as int].0@ != old_entries[j0].0@);
                        }
                    }
                    assert forall|kk: Seq<char>| #[trigger] self.slots@.contains_key(kk) implies exists|
                        j: int,
                    | 0 <= j < self.entries@.len() && #[trigger] self.entries@[j].0@ == kk by {
                        let j0 = choose|j0: int| 0 <= j0 < old_entries.len() && old_entries[j0].0@ == kk;
                        assert(j0 != i);
                        let j = if j0 < i { j0 } else { j0 - 1 };
                        assert(self.entries@[j] == old_entries[j0]);
                    }
                }
                Some(e.1)
            },
        }
    }
}

/// A reply resolves only the slot of its own identity: every other pending
/// slot stays as it was, so replies never cross-resolve.
pub proof fn lemma_no_cross_resolution<S>(m: Map<Seq<char>, S>, reply_id: Seq<char>, other: Seq<char>)
    requires
        reply_id != other,
    ensures
        resolve_model(m, reply_id).0.contains_key(other) == m.contains_key(other),
        m.contains_key(other) ==> resolve_model(m, reply_id).0[other] == m[other],
        resolve_model(m, reply_id).1 == (if m.contains_key(reply_id) {
            Some(m[reply_id])
        } else {
            None
        }),
{
}

/// A reply whose identity has no pending slot is dropped and changes nothing.
pub proof fn lemma_unknown_identity_ignored<S>(m: Map<Seq<char>, S>, id: Seq<char>)
    requires
        !m.contains_key(id),
    ensures
        resolve_model(m, id) == (m, None::<S>),
{
}

/// The first reply for a pending identity receives its slot and removes it; a
/// second reply with that identity finds nothing and changes nothing.
pub proof fn lemma_resolved_once<S>(m: Map<Seq<char>, S>, id: Seq<char>)
    requires
        m.contains_key(id),
    ensures
        resolve_model(m, id).1 == Some(m[id]),
        !resolve_model(m, id).0.contains_key(id),
        resolve_model(resolve_model(m, id).0, id) == (resolve_model(m, id).0, None::<S>),
{
}

} // verus!
