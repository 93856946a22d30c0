//! Refill-chain resolution.
//!
//! Fill records are append-only; a refill is a new record for the same
//! (patient, medication) pair. The record that stands for the pair's current
//! state is the one no other record of the pair supersedes — the one with
//! the maximum identity. The resolver assumes (and a caller can check) the
//! append model's invariant: within a pair, identities grow with position.

use vstd::prelude::*;
use crate::model::Prescription;

verus! {

/// Two records belong to the same (patient, medication) pair.
pub open spec fn same_pair(a: Prescription, b: Prescription) -> bool {
    a.patient_id == b.patient_id && a.medication_id == b.medication_id
}

/// The append model's invariant: within a pair, identities grow strictly
/// with position in the record sequence.
pub open spec fn pair_ids_monotonic(recs: Seq<Prescription>) -> bool {
    forall|i: int, j: int|
        0 <= i < j < recs.len() && same_pair(#[trigger] recs[i], #[trigger] recs[j])
            ==> recs[i].id < recs[j].id
}

/// Record `i` is current: every other record of its pair has a strictly
/// smaller identity.
pub open spec fn is_current(recs: Seq<Prescription>, i: int) -> bool {
    &&& 0 <= i < recs.len()
    &&& forall|j: int|
        0 <= j < recs.len() && j != i && same_pair(#[trigger] recs[j], recs[i]) ==> recs[j].id
            < recs[i].id
}

/// The current records among the first `n`, in record order, judged against
/// the whole sequence.
pub open spec fn currents_upto(recs: Seq<Prescription>, n: nat) -> Seq<Prescription>
    decreases n,
{
    if n == 0 {
        Seq::empty()
    } else if is_current(recs, n - 1) {
        currents_upto(recs, (n - 1) as nat).push(recs[n - 1])
    } else {
        currents_upto(recs, (n - 1) as nat)
    }
}

/// The current records of a sequence, one per pair that has any, in record
/// order.
pub open spec fn spec_current_records(recs: Seq<Prescription>) -> Seq<Prescription> {
    currents_upto(recs, recs.len())
}

/// The position of the pair's last record, or `-1` if the pair has none.
pub open spec fn last_index_of_pair(recs: Seq<Prescription>, patient_id: u64, medication_id: u64) -> int
    decreases recs.len(),
{
    if recs.len() == 0 {
        -1
    } else if recs.last().patient_id == patient_id && recs.last().medication_id == medication_id {
        recs.len() - 1
    } else {
        last_index_of_pair(recs.drop_last(), patient_id, medication_id)
    }
}

/// Whether some record of the pair exists.
pub open spec fn has_pair(recs: Seq<Prescription>, patient_id: u64, medication_id: u64) -> bool {
    exists|i: int|
        0 <= i < recs.len() && (#[trigger] recs[i]).patient_id == patient_id
            && recs[i].medication_id == medication_id
}

proof fn lemma_last_index_of_pair_props(recs: Seq<Prescription>, patient_id: u64, medication_id: u64)
    requires
        has_pair(recs, patient_id, medication_id),
    ensures
        ({
            let k = last_index_of_pair(recs, patient_id, medication_id);
            &&& 0 <= k < recs.len()
            &&& recs[k].patient_id == patient_id
            &&& recs[k].medication_id == medication_id
            &&& forall|j: int|
                k < j < recs.len() ==> !((#[trigger] recs[j]).patient_id == patient_id
                    && recs[j].medication_id == medication_id)
        }),
    decreases recs.len(),
{
    let k = last_index_of_pair(recs, patient_id, medication_id);
    if recs.last().patient_id == patient_id && recs.last().medication_id == medication_id {
    } else {
        let prefix = recs.drop_last();
        assert(has_pair(prefix, patient_id, medication_id)) by {
            let w = choose|i: int|
                0 <= i < recs.len() && (#[trigger] recs[i]).patient_id == patient_id
                    && recs[i].medication_id == medication_id;
            assert(w < recs.len() - 1);
            assert(prefix[w] == recs[w]);
        }
        lemma_last_index_of_pair_props(prefix, patient_id, medication_id);
        assert(prefix[k] == recs[k]);
        assert forall|j: int| k < j < recs.len() implies !((#[trigger] recs[j]).patient_id
            == patient_id && recs[j].medication_id == medication_id) by {
            if j < recs.len() - 1 {
                assert(prefix[j] == recs[j]);
            }
        }
    }
}

/// For every pair with at least one record, exactly one record is current,
/// and it carries the maximum identity among the pair's records: the pair's
/// last record.
pub proof fn lemma_exactly_one_current_per_pair(
    recs: Seq<Prescription>,
    patient_id: u64,
    medication_id: u64,
)
    requires
        pair_ids_monotonic(recs),
        has_pair(recs, patient_id, medication_id),
    ensures
        ({
            let k = last_index_of_pair(recs, patient_id, medication_id);
            &&& 0 <= k < recs.len()
            &&& recs[k].patient_id == patient_id
            &&& recs[k].medication_id == medication_id
            &&& is_current(recs, k)
            &&& forall|j: int|
                0 <= j < recs.len() && j != k && (#[trigger] recs[j]).patient_id == patient_id
                    && recs[j].medication_id == medication_id ==> recs[j].id < recs[k].id
            &&& forall|j: int|
                is_current(recs, j) && (#[trigger] recs[j]).patient_id == patient_id
                    && recs[j].medication_id == medication_id ==> j == k
        }),
{
    lemma_last_index_of_pair_props(recs, patient_id, medication_id);
    let k = last_index_of_pair(recs, patient_id, medication_id);
    assert forall|j: int|
        0 <= j < recs.len() && j != k && same_pair(#[trigger] recs[j], recs[k]) implies recs[j].id
        < recs[k].id by {
        assert(j < k);
    }
    assert forall|j: int|
        is_current(recs, j) && (#[trigger] recs[j]).patient_id == patient_id
            && recs[j].medication_id == medication_id implies j == k by {
        if j != k {
            assert(same_pair(recs[k], recs[j]));
            assert(recs[k].id < recs[j].id);
            assert(same_pair(recs[j], recs[k]));
            assert(recs[j].id < recs[k].id);
        }
    }
}

/// Checks the append model's invariant: within every pair, identities grow
/// strictly with position.
pub fn check_pair_ids_monotonic(recs: &Vec<Prescription>) -> (r: bool)
    ensures
        r == pair_ids_monotonic(recs@),
{
    let n = recs.len();
    for i in 0..n
        invariant
            n == recs.len(),
            forall|a: int, b: int|
                0 <= a < b < recs.len() && a < i && same_pair(
                    #[trigger] recs@[a],
                    #[trigger] recs@[b],
                ) ==> recs@[a].id < recs@[b].id,
    {
        for j in (i + 1)..n
            invariant
                n == recs.len(),
                i < n,
                forall|a: int, b: int|
                    0 <= a < b < recs.len() && a < i && same_pair(
                        #[trigger] recs@[a],
                        #[trigger] recs@[b],
                    ) ==> recs@[a].id < recs@[b].id,
                forall|b: int|
                    i < b < j && same_pair(recs@[i as int], #[trigger] recs@[b]) ==> recs@[i as int].id
                        < recs@[b].id,
        {
            let same = recs[i].patient_id == recs[j].patient_id && recs[i].medication_id
                == recs[j].medication_id;
            if same && recs[i].id >= recs[j].id {
                return false;
            }
        }
    }
    true
}

/// Whether a later record of the same pair supersedes record `i`.
pub fn has_successor(recs: &Vec<Prescription>, i: usize) -> (r: bool)
    requires
        i < recs.len(),
    ensures
        r == exists|j: int|
            i < j < recs.len() && same_pair(#[trigger] recs@[j], recs@[i as int]),
{
    let n = recs.len();
    let mut j = i + 1;
    while j < n
        invariant
            i < j <= n,
            n == recs.len(),
            forall|a: int|
                i < a < j ==> !same_pair(#[trigger] recs@[a], recs@[i as int]),
        decreases n - j,
    {
        if recs[j].patient_id == recs[i].patient_id && recs[j].medication_id
            == recs[i].medication_id {
            return true;
        }
        j += 1;
    }
    false
}

/// Whether record `i` is current, under the append model's invariant: a
/// record is current exactly when no later record of its pair exists.
pub fn is_current_at(recs: &Vec<Prescription>, i: usize) -> (r: bool)
    requires
        pair_ids_monotonic(recs@),
        i < recs.len(),
    ensures
        r == is_current(recs@, i as int),
{
    let succ = has_successor(recs, i);
    proof {
        if succ {
            let w = choose|j: int|
                i < j < recs.len() && same_pair(#[trigger] recs@[j], recs@[i as int]);
            assert(recs@[i as int].id < recs@[w].id);
        } else {
            assert forall|j: int|
                0 <= j < recs.len() && j != i && same_pair(
                    #[trigger] recs@[j],
                    recs@[i as int],
                ) implies recs@[j].id < recs@[i as int].id by {
                assert(j < i);
                assert(same_pair(recs@[j], recs@[i as int]));
            }
        }
    }
    !succ
}

/// Resolves the current-record set: one record per pair that has any, in
/// record order, each carrying its pair's maximum identity.
pub fn current_records(recs: &Vec<Prescription>) -> (r: Vec<Prescription>)
    requires
        pair_ids_monotonic(recs@),
    ensures
        r@ == spec_current_records(recs@),
{
    let mut out: Vec<Prescription> = Vec::new();
    let n = recs.len();
    for i in 0..n
        invariant
            n == recs.len(),
            pair_ids_monotonic(recs@),
            out@ == currents_upto(recs@, i as nat),
    {
        if is_current_at(recs, i) {
            out.push(recs[i].clone());
        }
        proof {
            assert(currents_upto(recs@, (i + 1) as nat) == if is_current(recs@, i as int) {
                currents_upto(recs@, i as nat).push(recs@[i as int])
            } else {
                currents_upto(recs@, i as nat)
            });
        }
    }
    out
}

} // verus!
