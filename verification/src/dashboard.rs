//! Dashboard aggregation: due counters, filtered due lists and the bounded
//! upcoming-refills list, composed from the refill-chain resolver and the
//! due-date scheduler over the current-record set only — superseded history
//! is never counted.

use vstd::prelude::*;
use vstd::multiset::Multiset;
use crate::chain::{is_current, pair_ids_monotonic};
use crate::chain::is_current_at;
use crate::date::{Date, date_le, date_valid};
use crate::model::{DashboardStats, DueFilter, DueRxItem, Medication};
use crate::schedule::{classify, spec_due_status, DueStatus, SOON_HORIZON_DAYS};
use crate::store::Pharmacy;

verus! {

broadcast use vstd::seq_lib::group_to_multiset_ensures, vstd::multiset::group_multiset_axioms;

/// Medications with stock strictly below this count as low-stock.
pub const LOW_STOCK_THRESHOLD: u32 = 100;

/// The upcoming-refills list is capped at this many entries.
pub const UPCOMING_CAP: usize = 4;

/// The due class a filter selects.
pub open spec fn filter_status(f: DueFilter) -> DueStatus {
    match f {
        DueFilter::Today => DueStatus::DueToday,
        DueFilter::Soon => DueStatus::DueSoon,
    }
}

/// The due-list entry for fill record `i`: the record joined with the
/// patient's name and phone and the medication's name.
pub open spec fn spec_due_item(ph: Pharmacy, i: int) -> DueRxItem {
    let p = ph.prescriptions@[i];
    DueRxItem {
        id: p.id,
        patient_name: ph.patients@[p.patient_id - 1].name,
        medication_name: ph.medications@[p.medication_id - 1].name,
        next_refill_date: p.next_refill_date,
        phone: ph.patients@[p.patient_id - 1].phone,
        patient_id: p.patient_id,
        medication_id: p.medication_id,
        quantity: p.quantity,
        sig: p.sig,
        days_supply: p.days_supply,
        refills: p.refills,
        prescriber: p.prescriber,
    }
}

/// How many of the first `n` fill records are current and classified `st`
/// against `now`.
pub open spec fn due_count_upto(ph: Pharmacy, now: Date, st: DueStatus, n: nat) -> nat
    decreases n,
{
    if n == 0 {
        0
    } else {
        due_count_upto(ph, now, st, (n - 1) as nat) + if is_current(ph.prescriptions@, n - 1)
            && spec_due_status(ph.prescriptions@[n - 1].next_refill_date, now) == st {
            1nat
        } else {
            0nat
        }
    }
}

/// How many current records are classified `st` against `now`.
pub open spec fn spec_due_count(ph: Pharmacy, now: Date, st: DueStatus) -> nat {
    due_count_upto(ph, now, st, ph.prescriptions@.len())
}

/// How many of the first `n` medications are below the low-stock threshold.
pub open spec fn low_stock_upto(meds: Seq<Medication>, n: nat) -> nat
    decreases n,
{
    if n == 0 {
        0
    } else {
        low_stock_upto(meds, (n - 1) as nat) + if meds[n - 1].stock < LOW_STOCK_THRESHOLD {
            1nat
        } else {
            0nat
        }
    }
}

/// How many medications are below the low-stock threshold.
pub open spec fn spec_low_stock_count(ph: Pharmacy) -> nat {
    low_stock_upto(ph.medications@, ph.medications@.len())
}

/// The dashboard counters are a pure function of the store and the
/// reference date.
pub open spec fn spec_dashboard_stats(ph: Pharmacy, now: Date) -> DashboardStats {
    DashboardStats {
        due_today: spec_due_count(ph, now, DueStatus::DueToday) as u64,
        due_soon: spec_due_count(ph, now, DueStatus::DueSoon) as u64,
        low_stock: spec_low_stock_count(ph) as u64,
    }
}

/// The due-list entries, in record order, for the first `n` records that
/// are current and classified `st` against `now`.
pub open spec fn due_items_upto(ph: Pharmacy, now: Date, st: DueStatus, n: nat) -> Seq<DueRxItem>
    decreases n,
{
    if n == 0 {
        Seq::empty()
    } else if is_current(ph.prescriptions@, n - 1) && spec_due_status(
        ph.prescriptions@[n - 1].next_refill_date,
        now,
    ) == st {
        due_items_upto(ph, now, st, (n - 1) as nat).push(spec_due_item(ph, n - 1))
    } else {
        due_items_upto(ph, now, st, (n - 1) as nat)
    }
}

/// The due-list entries of all current records classified `st`.
pub open spec fn spec_due_items(ph: Pharmacy, now: Date, st: DueStatus) -> Seq<DueRxItem> {
    due_items_upto(ph, now, st, ph.prescriptions@.len())
}

/// The due-list entries of the first `n` records that are current, whatever
/// their due status.
pub open spec fn current_items_upto(ph: Pharmacy, n: nat) -> Seq<DueRxItem>
    decreases n,
{
    if n == 0 {
        Seq::empty()
    } else if is_current(ph.prescriptions@, n - 1) {
        current_items_upto(ph, (n - 1) as nat).push(spec_due_item(ph, n - 1))
    } else {
        current_items_upto(ph, (n - 1) as nat)
    }
}

/// The due-list entries of all current records.
pub open spec fn spec_current_items(ph: Pharmacy) -> Seq<DueRxItem> {
    current_items_upto(ph, ph.prescriptions@.len())
}

/// Entries in ascending next-refill-date order.
pub open spec fn due_sorted(s: Seq<DueRxItem>) -> bool {
    forall|i: int, j: int|
        0 <= i < j < s.len() ==> date_le(
            (#[trigger] s[i]).next_refill_date,
            (#[trigger] s[j]).next_refill_date,
        )
}

proof fn lemma_due_count_le(ph: Pharmacy, now: Date, st: DueStatus, n: nat)
    ensures
        due_count_upto(ph, now, st, n) <= n,
    decreases n,
{
    if n > 0 {
        lemma_due_count_le(ph, now, st, (n - 1) as nat);
    }
}

proof fn lemma_low_stock_le(meds: Seq<Medication>, n: nat)
    ensures
        low_stock_upto(meds, n) <= n,
    decreases n,
{
    if n > 0 {
        lemma_low_stock_le(meds, (n - 1) as nat);
    }
}

impl Pharmacy {
    /// Builds the due-list entry for fill record `i`.
    fn due_item_at(&self, i: usize) -> (r: DueRxItem)
        requires
            self.wf(),
            i < self.prescriptions@.len(),
        ensures
            r == spec_due_item(*self, i as int),
    {
        let plen = self.patients.len();
        let mlen = self.medications.len();
        let p = &self.prescriptions[i];
        proof {
            assert(self.rx_wf(self.prescriptions@[i as int], i as int));
        }
        assert(1 <= p.patient_id && p.patient_id <= plen as u64);
        assert(1 <= p.medication_id && p.medication_id <= mlen as u64);
        let pidx = (p.patient_id - 1) as usize;
        let midx = (p.medication_id - 1) as usize;
        DueRxItem {
            id: p.id,
            patient_name: self.patients[pidx].name.clone(),
            medication_name: self.medications[midx].name.clone(),
            next_refill_date: p.next_refill_date,
            phone: self.patients[pidx].phone.clone(),
            patient_id: p.patient_id,
            medication_id: p.medication_id,
            quantity: p.quantity,
            sig: p.sig.clone(),
            days_supply: p.days_supply,
            refills: p.refills,
            prescriber: p.prescriber.clone(),
        }
    }

    /// The dashboard counters against the reference date `now`: current
    /// records due today, current records due soon, and low-stock
    /// medications. A pure read — the counters are a function of the store
    /// and `now` alone.
    pub fn dashboard_stats(&self, now: Date) -> (r: DashboardStats)
        requires
            self.wf(),
            date_valid(now),
            now.year + SOON_HORIZON_DAYS < u32::MAX,
        ensures
            r == spec_dashboard_stats(*self, now),
    {
        proof {
            self.lemma_wf_implies_pair_ids_monotonic();
        }
        let mut due_today: u64 = 0;
        let mut due_soon: u64 = 0;
        let mut low_stock: u64 = 0;
        let n = self.prescriptions.len();
        for i in 0..n
            invariant
                n == self.prescriptions@.len(),
                self.wf(),
                date_valid(now),
                now.year + SOON_HORIZON_DAYS < u32::MAX,
                pair_ids_monotonic(self.prescriptions@),
                due_today == due_count_upto(*self, now, DueStatus::DueToday, i as nat),
                due_soon == due_count_upto(*self, now, DueStatus::DueSoon, i as nat),
                due_today <= i,
                due_soon <= i,
        {
            if is_current_at(&self.prescriptions, i) {
                match classify(self.prescriptions[i].next_refill_date, now) {
                    DueStatus::DueToday => {
                        due_today = due_today + 1;
                    },
                    DueStatus::DueSoon => {
                        due_soon = due_soon + 1;
                    },
                    DueStatus::NotDue => {},
                }
            }
        }
        let m = self.medications.len();
        for i in 0..m
            invariant
                m == self.medications@.len(),
                low_stock == low_stock_upto(self.medications@, i as nat),
                low_stock <= i,
        {
            if self.medications[i].stock < LOW_STOCK_THRESHOLD {
                low_stock = low_stock + 1;
            }
        }
        proof {
            lemma_due_count_le(*self, now, DueStatus::DueToday, n as nat);
            lemma_due_count_le(*self, now, DueStatus::DueSoon, n as nat);
            lemma_low_stock_le(self.medications@, m as nat);
        }
        DashboardStats { due_today, due_soon, low_stock }
    }

    /// The due-list entries of all current records classified as the filter
    /// asks, in record order.
    fn current_due_items(&self, st: DueStatus, now: Date) -> (r: Vec<DueRxItem>)
        requires
            self.wf(),
            date_valid(now),
            now.year + SOON_HORIZON_DAYS < u32::MAX,
        ensures
            r@ == spec_due_items(*self, now, st),
    {
        proof {
            self.lemma_wf_implies_pair_ids_monotonic();
        }
        let mut out: Vec<DueRxItem> = Vec::new();
        let n = self.prescriptions.len();
        for i in 0..n
            invariant
                n == self.prescriptions@.len(),
                self.wf(),
                date_valid(now),
                now.year + SOON_HORIZON_DAYS < u32::MAX,
                pair_ids_monotonic(self.prescriptions@),
                out@ == due_items_upto(*self, now, st, i as nat),
        {
            if is_current_at(&self.prescriptions, i) {
                let status = classify(self.prescriptions[i].next_refill_date, now);
                if status == st {
                    let item = self.due_item_at(i);
                    out.push(item);
                }
            }
        }
        out
    }

    /// The due-list entries of all current records, whatever their status,
    /// in record order.
    fn all_current_items(&self) -> (r: Vec<DueRxItem>)
        requires
            self.wf(),
        ensures
            r@ == spec_current_items(*self),
    {
        proof {
            self.lemma_wf_implies_pair_ids_monotonic();
        }
        let mut out: Vec<DueRxItem> = Vec::new();
        let n = self.prescriptions.len();
        for i in 0..n
            invariant
                n == self.prescriptions@.len(),
                self.wf(),
                pair_ids_monotonic(self.prescriptions@),
                out@ == current_items_upto(*self, i as nat),
        {
            if is_current_at(&self.prescriptions, i) {
                let item = self.due_item_at(i);
                out.push(item);
            }
        }
        out
    }

    /// The due list: every current record the filter's class matches
    /// against `now`, in ascending next-refill-date order.
    pub fn due_list(&self, filter: DueFilter, now: Date) -> (r: Vec<DueRxItem>)
        requires
            self.wf(),
            date_valid(now),
            now.year + SOON_HORIZON_DAYS < u32::MAX,
        ensures
            r@.to_multiset() == spec_due_items(*self, now, filter_status(filter)).to_multiset(),
            due_sorted(r@),
    {
        let st = match filter {
            DueFilter::Today => DueStatus::DueToday,
            DueFilter::Soon => DueStatus::DueSoon,
        };
        let items = self.current_due_items(st, now);
        sort_due_items(items)
    }

    /// The bounded upcoming list: current records of every due status, in
    /// ascending next-refill-date order, capped at [`UPCOMING_CAP`]
    /// entries. The cap keeps the earliest dates: every entry left out is
    /// no earlier than every entry kept.
    pub fn upcoming_refills(&self) -> (r: Vec<DueRxItem>)
        requires
            self.wf(),
        ensures
            r@.len() == vstd::math::min(UPCOMING_CAP as int, spec_current_items(*self).len() as int),
            due_sorted(r@),
            r@.to_multiset().subset_of(spec_current_items(*self).to_multiset()),
            forall|a: int, y: DueRxItem|
                #![trigger r@[a], r@.to_multiset().count(y)]
                0 <= a < r@.len() && spec_current_items(*self).to_multiset().count(y)
                    > r@.to_multiset().count(y) ==> date_le(
                    r@[a].next_refill_date,
                    y.next_refill_date,
                ),
    {
        let items = self.all_current_items();
        let ghost full = spec_current_items(*self);
        let mut v = sort_due_items(items);
        proof {
            v@.to_multiset_ensures();
            full.to_multiset_ensures();
            assert(v@.len() == full.len());
        }
        while v.len() > UPCOMING_CAP
            invariant
                due_sorted(v@),
                v@.to_multiset().subset_of(full.to_multiset()),
                vstd::math::min(UPCOMING_CAP as int, full.len() as int) <= v@.len() <= full.len(),
                forall|a: int, y: DueRxItem|
                    #![trigger v@[a], v@.to_multiset().count(y)]
                    0 <= a < v@.len() && full.to_multiset().count(y) > v@.to_multiset().count(y)
                        ==> date_le(v@[a].next_refill_date, y.next_refill_date),
            decreases v.len(),
        {
            let ghost prev = v@;
            let popped = v.pop();
            proof {
                prev.to_multiset_ensures();
                let last = prev[prev.len() - 1];
                assert(v@ =~= prev.remove(prev.len() - 1));
                assert(prev.remove(prev.len() - 1).to_multiset() == prev.to_multiset().remove(
                    last,
                ));
                assert(v@.to_multiset() == prev.to_multiset().remove(last));
                assert(prev.contains(last));
                assert(prev.to_multiset().count(last) > 0);
                assert forall|a: int, y: DueRxItem|
                    #![trigger v@[a], v@.to_multiset().count(y)]
                    0 <= a < v@.len() && full.to_multiset().count(y) > v@.to_multiset().count(y)
                        implies date_le(v@[a].next_refill_date, y.next_refill_date) by {
                    assert(v@[a] == prev[a]);
                    if y == last {
                        assert(date_le(prev[a].next_refill_date, last.next_refill_date));
                    } else {
                        assert(prev.to_multiset().count(y) == v@.to_multiset().count(y));
                    }
                }
            }
        }
        v
    }
}

/// Read paths are idempotent: two dashboard reads against the same store
/// and the same reference date yield identical counters — the counters are
/// a pure function of the store and the reference date.
pub proof fn lemma_dashboard_idempotent(
    ph: Pharmacy,
    now: Date,
    r1: DashboardStats,
    r2: DashboardStats,
)
    requires
        r1 == spec_dashboard_stats(ph, now),
        r2 == spec_dashboard_stats(ph, now),
    ensures
        r1 == r2,
{
}

/// Sorts due-list entries by ascending next-refill date, keeping exactly
/// the given entries.
fn sort_due_items(v: Vec<DueRxItem>) -> (r: Vec<DueRxItem>)
    ensures
        r@.to_multiset() == v@.to_multiset(),
        due_sorted(r@),
{
    let mut rem = v;
    let mut out: Vec<DueRxItem> = Vec::new();
    proof {
        assert(out@.to_multiset().add(rem@.to_multiset()) =~= v@.to_multiset());
    }
    while rem.len() > 0
        invariant
            out@.to_multiset().add(rem@.to_multiset()) == v@.to_multiset(),
            due_sorted(out@),
            forall|a: int, b: int|
                0 <= a < out@.len() && 0 <= b < rem@.len() ==> date_le(
                    (#[trigger] out@[a]).next_refill_date,
                    (#[trigger] rem@[b]).next_refill_date,
                ),
        decreases rem.len(),
    {
        let mut min_i: usize = 0;
        let mut k: usize = 1;
        while k < rem.len()
            invariant
                0 < rem@.len(),
                min_i < k <= rem@.len(),
                forall|t: int|
                    0 <= t < k ==> date_le(
                        rem@[min_i as int].next_refill_date,
                        (#[trigger] rem@[t]).next_refill_date,
                    ),
            decreases rem@.len() - k,
        {
            if rem[k].next_refill_date.lt(&rem[min_i].next_refill_date) {
                min_i = k;
            }
            k += 1;
        }
        let ghost prev_rem = rem@;
        let ghost prev_out = out@;
        let item = rem.remove(min_i);
        out.push(item);
        proof {
            assert(rem@.to_multiset() =~= prev_rem.to_multiset().remove(item));
            assert(prev_rem.to_multiset().count(item) > 0) by {
                assert(prev_rem.contains(item));
            }
            assert(out@.to_multiset().add(rem@.to_multiset()) =~= v@.to_multiset());
            assert forall|a: int, b: int|
                0 <= a < out@.len() && 0 <= b < rem@.len() implies date_le(
                (#[trigger] out@[a]).next_refill_date,
                (#[trigger] rem@[b]).next_refill_date,
            ) by {
                assert(rem@[b] == prev_rem[if b < min_i {
                    b
                } else {
                    b + 1
                }]);
                if a < prev_out.len() {
                    assert(out@[a] == prev_out[a]);
                } else {
                    assert(out@[a] == item);
                }
            }
        }
    }
    proof {
        assert(rem@.to_multiset() =~= Multiset::<DueRxItem>::empty());
        assert(out@.to_multiset() =~= v@.to_multiset());
    }
    out
}

} // verus!
