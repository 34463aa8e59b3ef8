//! What holds of every sequence of insertions and removals on a tracker.
//!
//! The laws are stated over [`TrackerModel`], the cursor and the set of live
//! identities, which is all that identity allocation depends on. Every
//! operation of the tracker promises that it moves the tracker's model as the
//! model functions used here say.

use crate::util::hash_map_tracker::{
    identity_space, lemma_next_identity_is_free, probe, TrackerError, TrackerModel,
};
use vstd::prelude::*;

verus! {

/// One operation on a tracker, as far as identities are concerned.
pub enum TrackerOp {
    /// The insertion of some entity.
    Insert,
    /// The removal of the entity that holds the given identity.
    Remove(u32),
}

/// The model after `op`.
pub open spec fn step(m: TrackerModel, op: TrackerOp, capacity: nat) -> TrackerModel {
    match op {
        TrackerOp::Insert => m.after_insert(capacity),
        TrackerOp::Remove(id) => m.after_remove(id),
    }
}

/// The identity that `op` hands out: that of an insertion that is admitted,
/// and nothing for a refused insertion or a removal.
pub open spec fn issued(m: TrackerModel, op: TrackerOp, capacity: nat) -> Option<u32> {
    match op {
        TrackerOp::Insert => match m.insert_result(capacity) {
            Ok(id) => Some(id),
            Err(_) => None,
        },
        TrackerOp::Remove(_) => None,
    }
}

/// The model of a new tracker after all of `ops`, in order.
pub open spec fn run(ops: Seq<TrackerOp>, capacity: nat) -> TrackerModel
    decreases ops.len(),
{
    if ops.len() == 0 {
        TrackerModel::empty()
    } else {
        step(run(ops.drop_last(), capacity), ops.last(), capacity)
    }
}

/// The identity that the operation at position `i` of `ops` hands out.
pub open spec fn issued_at(ops: Seq<TrackerOp>, i: int, capacity: nat) -> Option<u32> {
    issued(run(ops.take(i), capacity), ops[i], capacity)
}

/// How many insertions among `ops` are admitted.
pub open spec fn admitted(ops: Seq<TrackerOp>, capacity: nat) -> nat
    decreases ops.len(),
{
    if ops.len() == 0 {
        0
    } else {
        let before = admitted(ops.drop_last(), capacity);
        if issued(run(ops.drop_last(), capacity), ops.last(), capacity) is Some {
            before + 1
        } else {
            before
        }
    }
}

/// Nothing but insertions, `n` of them.
pub open spec fn insertions(n: nat) -> Seq<TrackerOp> {
    Seq::new(n, |i: int| TrackerOp::Insert)
}

/// After any sequence of operations finitely many identities are live, and
/// never more than the capacity.
pub proof fn lemma_count_never_exceeds_capacity(ops: Seq<TrackerOp>, capacity: nat)
    ensures
        run(ops, capacity).live.finite(),
        run(ops, capacity).live.len() <= capacity,
    decreases ops.len(),
{
    if ops.len() > 0 {
        lemma_count_never_exceeds_capacity(ops.drop_last(), capacity);
    }
}

/// Of `capacity + 1` insertions into a new tracker with no removal between
/// them, every one but the last is admitted and the last is refused with
/// `CapacityExceeded`; more generally the insertion at position `i` of such a
/// run is admitted exactly when `i < capacity`.
pub proof fn lemma_capacity_respected(n: nat, capacity: nat, i: int)
    requires
        0 <= i < n,
        capacity <= identity_space(),
    ensures
        i < capacity ==> issued_at(insertions(n), i, capacity) is Some,
        i >= capacity ==> run(insertions(n).take(i), capacity).insert_result(capacity) == Err::<
            u32,
            TrackerError,
        >(TrackerError::CapacityExceeded),
        i >= capacity ==> issued_at(insertions(n), i, capacity) is None,
{
    assert(insertions(n).take(i) =~= insertions(i as nat));
    lemma_insertions_count(i as nat, capacity);
}

/// After `n` insertions into a new tracker, and no removal, the smaller of
/// `n` and the capacity is the number of live entities.
pub proof fn lemma_insertions_count(n: nat, capacity: nat)
    requires
        capacity <= identity_space(),
    ensures
        run(insertions(n), capacity).live.finite(),
        run(insertions(n), capacity).live.len() == (if n <= capacity {
            n
        } else {
            capacity
        }),
    decreases n,
{
    if n > 0 {
        let before = insertions((n - 1) as nat);
        assert(insertions(n).drop_last() =~= before);
        lemma_insertions_count((n - 1) as nat, capacity);
        let m = run(before, capacity);
        if m.live.len() < capacity {
            lemma_next_identity_is_free(m.cursor, m.live);
        }
    }
}

/// Removing the same identity twice succeeds the first time, if the identity
/// was live, and fails with `NotFound` the second time.
pub proof fn lemma_second_removal_not_found(m: TrackerModel, id: u32)
    ensures
        m.live.contains(id) ==> m.remove_result(id) == Ok::<(), TrackerError>(()),
        m.after_remove(id).remove_result(id) == Err::<(), TrackerError>(TrackerError::NotFound),
{
}

/// An identity is never handed out again while the entity that holds it
/// lives: if two insertions of one run return the same identity, that
/// identity was removed between them.
pub proof fn lemma_identity_not_reused_while_live(
    ops: Seq<TrackerOp>,
    capacity: nat,
    i: int,
    j: int,
)
    requires
        capacity <= identity_space(),
        0 <= i < j < ops.len(),
        issued_at(ops, i, capacity) is Some,
        issued_at(ops, i, capacity) == issued_at(ops, j, capacity),
    ensures
        exists|k: int| i < k < j && ops[k] == TrackerOp::Remove(issued_at(ops, i, capacity)->0),
{
    let id = issued_at(ops, i, capacity)->0;
    if !exists|k: int| i < k < j && ops[k] == TrackerOp::Remove(id) {
        lemma_stays_live(ops, capacity, i, j);
        let m = run(ops.take(j), capacity);
        lemma_count_never_exceeds_capacity(ops.take(j), capacity);
        lemma_next_identity_is_free(m.cursor, m.live);
    }
}

/// An identity handed out at position `i` is live before every later
/// position `j` up to which it has not been removed.
proof fn lemma_stays_live(ops: Seq<TrackerOp>, capacity: nat, i: int, j: int)
    requires
        0 <= i < j <= ops.len(),
        issued_at(ops, i, capacity) is Some,
        forall|k: int| i < k < j ==> ops[k] != TrackerOp::Remove(issued_at(ops, i, capacity)->0),
    ensures
        run(ops.take(j), capacity).live.contains(issued_at(ops, i, capacity)->0),
    decreases j - i,
{
    assert(ops.take(j).drop_last() =~= ops.take(j - 1));
    assert(ops.take(j).last() == ops[j - 1]);
    if j > i + 1 {
        lemma_stays_live(ops, capacity, i, j - 1);
    }
}

/// Until as many insertions have been admitted as there are identities, the
/// cursor of a tracker equals the number of insertions admitted so far, and
/// every live identity is below it.
proof fn lemma_cursor_counts_admissions(ops: Seq<TrackerOp>, capacity: nat)
    requires
        admitted(ops, capacity) <= identity_space(),
    ensures
        run(ops, capacity).cursor == probe(0, admitted(ops, capacity)),
        forall|x: u32| run(ops, capacity).live.contains(x) ==> x < admitted(ops, capacity),
        ops.len() > 0 && issued(run(ops.drop_last(), capacity), ops.last(), capacity) is Some
            ==> issued(run(ops.drop_last(), capacity), ops.last(), capacity) == Some(
            admitted(ops.drop_last(), capacity) as u32,
        ),
    decreases ops.len(),
{
    if ops.len() > 0 {
        lemma_cursor_counts_admissions(ops.drop_last(), capacity);
    }
}

/// The number of admitted insertions only grows along a run.
proof fn lemma_admitted_monotone(ops: Seq<TrackerOp>, capacity: nat, i: int, j: int)
    requires
        0 <= i <= j <= ops.len(),
    ensures
        admitted(ops.take(i), capacity) <= admitted(ops.take(j), capacity),
    decreases j - i,
{
    if i < j {
        assert(ops.take(j).drop_last() =~= ops.take(j - 1));
        lemma_admitted_monotone(ops, capacity, i, j - 1);
    }
}

/// The identity handed out at position `i` is the number of insertions
/// admitted before it, as long as no more insertions are admitted in all
/// than there are identities.
proof fn lemma_issued_is_admission_count(ops: Seq<TrackerOp>, capacity: nat, i: int)
    requires
        0 <= i < ops.len(),
        admitted(ops, capacity) <= identity_space(),
        issued_at(ops, i, capacity) is Some,
    ensures
        issued_at(ops, i, capacity) == Some(admitted(ops.take(i), capacity) as u32),
        admitted(ops.take(i), capacity) < identity_space(),
        admitted(ops.take(i + 1), capacity) == admitted(ops.take(i), capacity) + 1,
{
    let upto = ops.take(i + 1);
    assert(upto.drop_last() =~= ops.take(i));
    assert(upto.last() == ops[i]);
    assert(ops.take(ops.len() as int) =~= ops);
    lemma_admitted_monotone(ops, capacity, i + 1, ops.len() as int);
    lemma_cursor_counts_admissions(upto, capacity);
}

/// All identities that the insertions of one run return are pairwise
/// distinct, as long as the run admits no more insertions than there are
/// identities.
pub proof fn lemma_identities_pairwise_distinct(
    ops: Seq<TrackerOp>,
    capacity: nat,
    i: int,
    j: int,
)
    requires
        0 <= i < j < ops.len(),
        admitted(ops, capacity) <= identity_space(),
        issued_at(ops, i, capacity) is Some,
        issued_at(ops, j, capacity) is Some,
    ensures
        issued_at(ops, i, capacity) != issued_at(ops, j, capacity),
{
    lemma_issued_is_admission_count(ops, capacity, i);
    lemma_issued_is_admission_count(ops, capacity, j);
    lemma_admitted_monotone(ops, capacity, i + 1, j);
}

} // verus!
