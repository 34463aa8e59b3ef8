//! A capacity-bounded registry that owns entities and gives each a stable
//! identity for as long as it lives.

use std::collections::HashMap;
use vstd::std_specs::iter::IteratorSpec;
use vstd::prelude::*;

verus! {

broadcast use vstd::std_specs::hash::group_hash_axioms;

/// Outcome of an operation whose caller only needs to know whether it worked.
#[derive(Debug, Clone, Copy, PartialEq, Eq, Structural)]
pub enum Status {
    Failure,
    Success,
}

/// Why the tracker refused an operation.
#[derive(Debug, Clone, Copy, PartialEq, Eq, Structural)]
pub enum TrackerError {
    /// The tracker already holds as many entities as it may.
    CapacityExceeded,
    /// No live entity has the identity that was named.
    NotFound,
}

/// A value that can carry the identity under which a tracker holds it.
pub trait WithIndex: Sized {
    /// The value with its identity set to `index` and nothing else changed.
    spec fn with_index_spec(self, index: u32) -> Self;

    /// Consumes the value and returns it with its identity set to `index`.
    fn with_index(self, index: u32) -> (r: Self)
        ensures
            r == self.with_index_spec(index),
    ;
}

/// Any value placed in a [`HashMapTracker`] implements this trait.
pub trait ForTracker: WithIndex {

}

/// Whether `entity` carries the identity `id`: it is some value with its
/// identity set to `id`.
pub open spec fn carries<I: WithIndex>(entity: I, id: u32) -> bool {
    exists|unnamed: I| entity == #[trigger] unnamed.with_index_spec(id)
}

/// Number of identities there are.
pub open spec fn identity_space() -> nat {
    0x1_0000_0000
}

/// The identity `k` steps after `cursor`, going round past the largest one.
pub open spec fn probe(cursor: u32, k: nat) -> u32 {
    ((cursor as nat + k) % identity_space()) as u32
}

/// The least number of steps, counted from `k`, after which a probe from
/// `cursor` meets an identity that is not in `live`.
pub open spec fn free_offset(cursor: u32, live: Set<u32>, k: nat) -> nat
    decreases identity_space() - k,
{
    if k >= identity_space() || !live.contains(probe(cursor, k)) {
        k
    } else {
        free_offset(cursor, live, k + 1)
    }
}

/// The identity that the next insertion assigns: the first one at or after
/// `cursor`, in wrapping order, that no live entity holds.
pub open spec fn next_identity(cursor: u32, live: Set<u32>) -> u32 {
    probe(cursor, free_offset(cursor, live, 0))
}

/// What a tracker's identity allocation depends on: the cursor and the set of
/// identities that are live.
pub struct TrackerModel {
    pub cursor: u32,
    pub live: Set<u32>,
}

impl TrackerModel {
    /// The model of a tracker that was just created.
    pub open spec fn empty() -> Self {
        TrackerModel { cursor: 0, live: Set::empty() }
    }

    /// What an insertion returns when at most `capacity` entities may live.
    pub open spec fn insert_result(self, capacity: nat) -> Result<u32, TrackerError> {
        if self.live.len() >= capacity {
            Err(TrackerError::CapacityExceeded)
        } else {
            Ok(next_identity(self.cursor, self.live))
        }
    }

    /// The model after an insertion. A refused insertion changes nothing.
    pub open spec fn after_insert(self, capacity: nat) -> Self {
        match self.insert_result(capacity) {
            Ok(id) => TrackerModel { cursor: probe(id, 1), live: self.live.insert(id) },
            Err(_) => self,
        }
    }

    /// What the removal of `id` returns.
    pub open spec fn remove_result(self, id: u32) -> Result<(), TrackerError> {
        if self.live.contains(id) {
            Ok(())
        } else {
            Err(TrackerError::NotFound)
        }
    }

    /// The model after the removal of `id`. The cursor stays where it is.
    pub open spec fn after_remove(self, id: u32) -> Self {
        TrackerModel { cursor: self.cursor, live: self.live.remove(id) }
    }
}

/// Probes from one cursor that take fewer steps than there are identities
/// never meet the same identity twice.
pub proof fn lemma_probe_injective(cursor: u32, j: nat, k: nat)
    requires
        j < k < identity_space(),
    ensures
        probe(cursor, j) != probe(cursor, k),
{
}

/// If the first `k` probes from `cursor` all meet live identities, then at
/// least `k` identities are live.
pub proof fn lemma_probes_fit(cursor: u32, live: Set<u32>, k: nat)
    requires
        live.finite(),
        k <= identity_space(),
        forall|j: nat| j < k ==> live.contains(#[trigger] probe(cursor, j)),
    ensures
        k <= live.len(),
    decreases k,
{
    if k > 0 {
        let last = probe(cursor, (k - 1) as nat);
        let rest = live.remove(last);
        assert forall|j: nat| j < (k - 1) as nat implies rest.contains(
            #[trigger] probe(cursor, j),
        ) by {
            lemma_probe_injective(cursor, j, (k - 1) as nat);
        }
        lemma_probes_fit(cursor, rest, (k - 1) as nat);
    }
}

/// While fewer identities are live than exist, the next identity is not live,
/// and every identity that the search passed over on its way is.
pub proof fn lemma_next_identity_is_free(cursor: u32, live: Set<u32>)
    requires
        live.finite(),
        live.len() < identity_space(),
    ensures
        !live.contains(next_identity(cursor, live)),
        free_offset(cursor, live, 0) <= live.len(),
        forall|j: nat|
            j < free_offset(cursor, live, 0) ==> live.contains(#[trigger] probe(cursor, j)),
{
    lemma_free_offset_from(cursor, live, 0);
}

/// The search for a free identity, resumed after `k` steps that all met live
/// identities, ends on one that is not live.
proof fn lemma_free_offset_from(cursor: u32, live: Set<u32>, k: nat)
    requires
        live.finite(),
        live.len() < identity_space(),
        k <= identity_space(),
        forall|j: nat| j < k ==> live.contains(#[trigger] probe(cursor, j)),
    ensures
        free_offset(cursor, live, k) <= live.len(),
        !live.contains(probe(cursor, free_offset(cursor, live, k))),
        forall|j: nat|
            j < free_offset(cursor, live, k) ==> live.contains(#[trigger] probe(cursor, j)),
    decreases identity_space() - k,
{
    lemma_probes_fit(cursor, live, k);
    if live.contains(probe(cursor, k)) {
        assert forall|j: nat| j < k + 1 implies live.contains(#[trigger] probe(cursor, j)) by {
            if j == k {
            }
        }
        lemma_probes_fit(cursor, live, k + 1);
        lemma_free_offset_from(cursor, live, k + 1);
    }
}

/// A registry of at most `MAX` entities, each held under an identity of its own.
///
/// The tracker owns what is placed in it. An entity's identity is assigned
/// when it is inserted and is never given to another entity while it lives.
#[derive(Debug)]
pub struct HashMapTracker<I, const MAX: u32> {
    cur_index: u32,
    tracker: HashMap<u32, I>,
}

impl<I, const MAX: u32> View for HashMapTracker<I, MAX> {
    type V = Map<u32, I>;

    /// The live entities by identity.
    closed spec fn view(&self) -> Map<u32, I> {
        self.tracker@
    }
}

impl<I, const MAX: u32> HashMapTracker<I, MAX> {
    /// Where the search for the next identity starts.
    pub closed spec fn cursor(&self) -> u32 {
        self.cur_index
    }

    /// The cursor and the live identities.
    pub open spec fn model(&self) -> TrackerModel {
        TrackerModel { cursor: self.cursor(), live: self@.dom() }
    }
}

impl<I: ForTracker, const MAX: u32> HashMapTracker<I, MAX> {
    /// The tracker's invariant: finitely many entities are live, at most
    /// `MAX`, and each carries the identity under which it is held.
    pub closed spec fn wf(&self) -> bool {
        &&& self.tracker@.dom().finite()
        &&& self.tracker@.len() <= MAX
        &&& forall|id: u32|
            self.tracker@.contains_key(id) ==> carries(#[trigger] self.tracker@[id], id)
    }

    /// Every live entity carries the identity under which the tracker holds
    /// it, from its insertion to its removal.
    pub proof fn lemma_identity_is_stable(&self, id: u32)
        requires
            self.wf(),
            self@.contains_key(id),
        ensures
            carries(self@[id], id),
    {
    }

    /// An empty tracker whose first identity is 0.
    pub fn new() -> (r: Self)
        ensures
            r.wf(),
            r@ == Map::<u32, I>::empty(),
            r.cursor() == 0,
    {
        HashMapTracker { cur_index: 0, tracker: HashMap::new() }
    }

    /// An empty tracker whose search for the first identity starts at
    /// `cursor`.
    pub fn starting_at(cursor: u32) -> (r: Self)
        ensures
            r.wf(),
            r@ == Map::<u32, I>::empty(),
            r.cursor() == cursor,
    {
        HashMapTracker { cur_index: cursor, tracker: HashMap::new() }
    }

    /// The number of live entities, which never exceeds `MAX`.
    pub fn count(&self) -> (n: usize)
        requires
            self.wf(),
        ensures
            n == self@.len(),
            n <= MAX,
            self@.dom().finite(),
    {
        self.tracker.len()
    }

    /// Takes ownership of `i` and returns the identity assigned to it.
    ///
    /// With `MAX` entities live the entity is refused, and neither the
    /// contents nor the cursor change. Otherwise the entity is stored, with
    /// its identity set, under the first identity at or after the cursor that
    /// no live entity holds, and the cursor moves just past that identity.
    pub fn insert(&mut self, i: I) -> (r: Result<u32, TrackerError>)
        requires
            old(self).wf(),
        ensures
            final(self).wf(),
            r == old(self).model().insert_result(MAX as nat),
            final(self).model() == old(self).model().after_insert(MAX as nat),
            match r {
                Ok(id) => !old(self)@.contains_key(id) && final(self)@ == old(self)@.insert(
                    id,
                    i.with_index_spec(id),
                ),
                Err(_) => final(self)@ == old(self)@,
            },
    {
        if self.tracker.len() >= MAX as usize {
            return Err(TrackerError::CapacityExceeded);
        }
        let ghost live = self.tracker@.dom();
        let ghost cursor = self.cur_index;
        let ghost mut k: nat = 0;
        let mut id: u32 = self.cur_index;
        proof {
            lemma_probes_fit(cursor, live, 0);
        }
        while self.tracker.contains_key(&id)
            invariant
                live == self.tracker@.dom(),
                live.finite(),
                live.len() < MAX,
                id == probe(cursor, k),
                k <= live.len(),
                forall|j: nat| j < k ==> live.contains(#[trigger] probe(cursor, j)),
                free_offset(cursor, live, 0) == free_offset(cursor, live, k),
            decreases live.len() - k,
        {
            proof {
                assert forall|j: nat| j < k + 1 implies live.contains(
                    #[trigger] probe(cursor, j),
                ) by {
                    if j == k {
                    }
                }
                lemma_probes_fit(cursor, live, k + 1);
                k = k + 1;
            }
            id = if id == u32::MAX {
                0
            } else {
                id + 1
            };
        }
        let entity = i.with_index(id);
        self.tracker.insert(id, entity);
        self.cur_index = if id == u32::MAX {
            0
        } else {
            id + 1
        };
        proof {
            assert(self.model().live =~= old(self).model().live.insert(id));
        }
        Ok(id)
    }

    /// Puts back an entity that was saved together with its identity: stores
    /// `i`, with its identity set, under `id`.
    ///
    /// Fails, changing nothing, exactly when a live entity holds `id` or
    /// `MAX` entities are live. The cursor does not move, so a later
    /// insertion passes over `id` while the entity lives.
    pub fn restore(&mut self, i: I, id: u32) -> (r: Status)
        requires
            old(self).wf(),
        ensures
            final(self).wf(),
            final(self).cursor() == old(self).cursor(),
            r == (if old(self)@.len() < MAX && !old(self)@.contains_key(id) {
                Status::Success
            } else {
                Status::Failure
            }),
            final(self)@ == (if r == Status::Success {
                old(self)@.insert(id, i.with_index_spec(id))
            } else {
                old(self)@
            }),
    {
        if self.tracker.len() >= MAX as usize || self.tracker.contains_key(&id) {
            Status::Failure
        } else {
            self.tracker.insert(id, i.with_index(id));
            Status::Success
        }
    }

    /// Adds `i` to the tracker, consuming it, and reports only whether it was
    /// admitted. The tracker changes exactly as [`Self::insert`] changes it.
    pub fn push(&mut self, i: I) -> (r: Status)
        requires
            old(self).wf(),
        ensures
            final(self).wf(),
            r == (if old(self)@.len() < MAX {
                Status::Success
            } else {
                Status::Failure
            }),
            final(self).model() == old(self).model().after_insert(MAX as nat),
            match old(self).model().insert_result(MAX as nat) {
                Ok(id) => final(self)@ == old(self)@.insert(id, i.with_index_spec(id)),
                Err(_) => final(self)@ == old(self)@,
            },
    {
        match self.insert(i) {
            Ok(_) => Status::Success,
            Err(_) => Status::Failure,
        }
    }

    /// Removes and drops the entity that holds `id`.
    ///
    /// Fails with `NotFound`, changing nothing, exactly when no live entity
    /// holds `id`. The cursor never moves.
    pub fn remove(&mut self, id: u32) -> (r: Result<(), TrackerError>)
        requires
            old(self).wf(),
        ensures
            final(self).wf(),
            r == old(self).model().remove_result(id),
            final(self).model() == old(self).model().after_remove(id),
            final(self)@ == old(self)@.remove(id),
    {
        let removed = self.tracker.remove(&id);
        proof {
            assert(self.model().live =~= old(self).model().live.remove(id));
        }
        match removed {
            Some(_) => Ok(()),
            None => Err(TrackerError::NotFound),
        }
    }

    /// Removes the entity that holds `index` and reports only whether there
    /// was one. The tracker changes exactly as [`Self::remove`] changes it.
    pub fn delete(&mut self, index: u32) -> (r: Status)
        requires
            old(self).wf(),
        ensures
            final(self).wf(),
            r == (if old(self)@.contains_key(index) {
                Status::Success
            } else {
                Status::Failure
            }),
            final(self).model() == old(self).model().after_remove(index),
            final(self)@ == old(self)@.remove(index),
    {
        match self.remove(index) {
            Ok(_) => Status::Success,
            Err(_) => Status::Failure,
        }
    }

    /// Read access to the live entities by identity.
    pub fn get_tracker(&self) -> (r: &HashMap<u32, I>)
        ensures
            r@ == self@,
    {
        &self.tracker
    }

    /// Whether a live entity holds `id`.
    pub fn contains(&self, id: u32) -> (r: bool)
        ensures
            r == self@.contains_key(id),
    {
        self.tracker.contains_key(&id)
    }

    /// The live entity that holds `id`, if there is one.
    pub fn get(&self, id: u32) -> (r: Option<&I>)
        ensures
            r == (if self@.contains_key(id) {
                Some(&self@[id])
            } else {
                None
            }),
    {
        self.tracker.get(&id)
    }

    /// Puts `entity`, with its identity set to `id`, in the place of the live
    /// entity that holds `id`, and returns the entity that was there.
    ///
    /// Where no live entity holds `id` nothing changes and `entity` is
    /// dropped: this never adds or removes an identity.
    pub fn replace(&mut self, id: u32, entity: I) -> (r: Option<I>)
        requires
            old(self).wf(),
        ensures
            final(self).wf(),
            final(self).cursor() == old(self).cursor(),
            final(self)@.dom() == old(self)@.dom(),
            r == (if old(self)@.contains_key(id) {
                Some(old(self)@[id])
            } else {
                None
            }),
            final(self)@ == (if old(self)@.contains_key(id) {
                old(self)@.insert(id, entity.with_index_spec(id))
            } else {
                old(self)@
            }),
    {
        if self.tracker.contains_key(&id) {
            let previous = self.tracker.insert(id, entity.with_index(id));
            proof {
                assert(self@.dom() =~= old(self)@.dom());
            }
            previous
        } else {
            None
        }
    }

    /// The identities of the live entities, each once, in no particular order.
    pub fn ids(&self) -> (r: Vec<u32>)
        requires
            self.wf(),
        ensures
            r@.no_duplicates(),
            r@.to_set() == self@.dom(),
            r@.len() == self@.len(),
    {
        let mut out: Vec<u32> = Vec::new();
        let keys = self.tracker.keys();
        let ghost walk = keys.remaining();
        for key in it: keys
            invariant
                it.seq() == walk,
                out@.len() == it.index(),
                forall|j: int| 0 <= j < out@.len() ==> out@[j] == *walk[j],
        {
            out.push(*key);
        }
        proof {
            assert(out@ =~= walk.unref());
            assert forall|i: int, j: int|
                0 <= i < out@.len() && 0 <= j < out@.len() && i != j implies out@[i] != out@[j] by {
                assert(walk[i] != walk[j]);
            }
        }
        out
    }
}

} // verus!
