//! Read queries over the store: patient search, the sorted medication
//! catalog, a patient's fill history, and the audit log.
//!
//! Listings come back the way the command surface presents them: patients
//! newest first, medications in byte order of their names, history and audit
//! entries newest first.

use vstd::prelude::*;
use vstd::multiset::Multiset;
use crate::date::date_le;
use crate::model::{AuditLogItem, Medication, Patient, PatientHistoryItem};
use crate::store::Pharmacy;
use crate::text::{
    bytes_le, contains_ci, lemma_bytes_le_refl, lemma_bytes_le_total, lemma_bytes_le_trans,
    str_bytes, string_contains_ci, string_le,
};

verus! {

broadcast use vstd::seq_lib::group_to_multiset_ensures, vstd::multiset::group_multiset_axioms;

/// A patient matches a search pattern when the pattern occurs in the
/// patient's name, or in the name of any medication ever filled for the
/// patient — ASCII letters compared without regard to case.
pub open spec fn spec_patient_matches(ph: Pharmacy, p: Patient, pat: Seq<u8>) -> bool {
    ||| contains_ci(str_bytes(p.name), pat)
    ||| exists|i: int|
        0 <= i < ph.prescriptions@.len() && (#[trigger] ph.prescriptions@[i]).patient_id == p.id
            && contains_ci(str_bytes(ph.prescriptions@[i].medication_name), pat)
}

/// The search pattern a query selects by: none when no search text is given
/// or the text is empty.
pub open spec fn spec_search_pattern(search: Option<String>) -> Option<Seq<u8>> {
    match search {
        Some(s) => if s@.len() == 0 {
            None
        } else {
            Some(str_bytes(s))
        },
        None => None,
    }
}

/// Whether a patient passes the (optional) search pattern.
pub open spec fn spec_patient_selected(ph: Pharmacy, p: Patient, pat: Option<Seq<u8>>) -> bool {
    match pat {
        None => true,
        Some(needle) => spec_patient_matches(ph, p, needle),
    }
}

/// The selected patients among the first `n`, newest first (descending
/// identity order).
pub open spec fn patients_desc_upto(ph: Pharmacy, pat: Option<Seq<u8>>, n: nat) -> Seq<Patient>
    decreases n,
{
    if n == 0 {
        Seq::empty()
    } else if spec_patient_selected(ph, ph.patients@[n - 1], pat) {
        seq![ph.patients@[n - 1]] + patients_desc_upto(ph, pat, (n - 1) as nat)
    } else {
        patients_desc_upto(ph, pat, (n - 1) as nat)
    }
}

/// All selected patients, newest first.
pub open spec fn spec_patients_desc(ph: Pharmacy, pat: Option<Seq<u8>>) -> Seq<Patient> {
    patients_desc_upto(ph, pat, ph.patients@.len())
}

impl Pharmacy {
    /// Whether patient `i` matches the search needle.
    fn patient_matches(&self, i: usize, needle: &String) -> (r: bool)
        requires
            self.wf(),
            i < self.patients@.len(),
        ensures
            r == spec_patient_matches(*self, self.patients@[i as int], str_bytes(*needle)),
    {
        let p = &self.patients[i];
        if string_contains_ci(&p.name, needle) {
            return true;
        }
        let n = self.prescriptions.len();
        for j in 0..n
            invariant
                n == self.prescriptions@.len(),
                self.wf(),
                i < self.patients@.len(),
                p == self.patients@[i as int],
                forall|t: int|
                    0 <= t < j ==> !((#[trigger] self.prescriptions@[t]).patient_id == p.id
                        && contains_ci(
                        str_bytes(self.prescriptions@[t].medication_name),
                        str_bytes(*needle),
                    )),
        {
            if self.prescriptions[j].patient_id == p.id && string_contains_ci(
                &self.prescriptions[j].medication_name,
                needle,
            ) {
                return true;
            }
        }
        false
    }

    /// Lists patients newest first. With search text, keeps only patients
    /// whose name — or the name of any medication ever filled for them —
    /// contains the text, ASCII case ignored; empty search text selects
    /// everyone.
    pub fn get_patients(&self, search: Option<String>) -> (r: Vec<Patient>)
        requires
            self.wf(),
        ensures
            r@ == spec_patients_desc(*self, spec_search_pattern(search)),
    {
        let needle: Option<&String> = match &search {
            Some(s) => if s.as_str().is_empty() {
                None
            } else {
                Some(s)
            },
            None => None,
        };
        proof {
            match needle {
                Some(s) => {
                    assert(spec_search_pattern(search) == Some(str_bytes(*s)));
                },
                None => {
                    assert(spec_search_pattern(search) is None);
                },
            }
        }
        let ghost pat = spec_search_pattern(search);
        let len = self.patients.len();
        let mut out: Vec<Patient> = Vec::new();
        let mut i: usize = len;
        proof {
            assert(out@ + patients_desc_upto(*self, pat, len as nat) =~= patients_desc_upto(
                *self,
                pat,
                len as nat,
            ));
        }
        while i > 0
            invariant
                self.wf(),
                len == self.patients@.len(),
                i <= len,
                pat == spec_search_pattern(search),
                match needle {
                    Some(s) => pat == Some(str_bytes(*s)),
                    None => pat is None,
                },
                out@ + patients_desc_upto(*self, pat, i as nat) == patients_desc_upto(
                    *self,
                    pat,
                    len as nat,
                ),
            decreases i,
        {
            i = i - 1;
            let keep = match needle {
                Some(s) => self.patient_matches(i, s),
                None => true,
            };
            let ghost prev_out = out@;
            if keep {
                out.push(self.patients[i].clone());
                proof {
                    assert(out@ =~= prev_out + seq![self.patients@[i as int]]);
                    assert(prev_out + (seq![self.patients@[i as int]] + patients_desc_upto(
                        *self,
                        pat,
                        i as nat,
                    )) =~= (prev_out + seq![self.patients@[i as int]]) + patients_desc_upto(
                        *self,
                        pat,
                        i as nat,
                    ));
                }
            }
        }
        proof {
            assert(patients_desc_upto(*self, pat, 0) =~= Seq::<Patient>::empty());
            assert(out@ + Seq::<Patient>::empty() =~= out@);
        }
        out
    }
}


/// Medications in ascending byte order of their names.
pub open spec fn meds_sorted_by_name(s: Seq<Medication>) -> bool {
    forall|i: int, j: int|
        0 <= i < j < s.len() ==> bytes_le(
            str_bytes((#[trigger] s[i]).name),
            str_bytes((#[trigger] s[j]).name),
        )
}

/// History entries newest first: descending fill-date order.
pub open spec fn history_sorted_desc(s: Seq<PatientHistoryItem>) -> bool {
    forall|i: int, j: int|
        0 <= i < j < s.len() ==> date_le(
            (#[trigger] s[j]).date_filled,
            (#[trigger] s[i]).date_filled,
        )
}

/// Audit entries newest first: descending byte order of their timestamps.
pub open spec fn audit_sorted_desc(s: Seq<AuditLogItem>) -> bool {
    forall|i: int, j: int|
        0 <= i < j < s.len() ==> bytes_le(
            str_bytes((#[trigger] s[j]).timestamp),
            str_bytes((#[trigger] s[i]).timestamp),
        )
}

/// The history entry for fill record `i`: the record joined with the drug's
/// name.
pub open spec fn spec_history_item(ph: Pharmacy, i: int) -> PatientHistoryItem {
    let p = ph.prescriptions@[i];
    PatientHistoryItem {
        id: p.id,
        drug_name: ph.medications@[p.medication_id - 1].name,
        sig: p.sig,
        quantity: p.quantity,
        date_filled: p.date_filled,
        next_refill_date: p.next_refill_date,
    }
}

/// The history entries of the patient's fill records among the first `n`,
/// in record order.
pub open spec fn history_items_upto(ph: Pharmacy, patient_id: u64, n: nat) -> Seq<
    PatientHistoryItem,
>
    decreases n,
{
    if n == 0 {
        Seq::empty()
    } else if ph.prescriptions@[n - 1].patient_id == patient_id {
        history_items_upto(ph, patient_id, (n - 1) as nat).push(spec_history_item(ph, n - 1))
    } else {
        history_items_upto(ph, patient_id, (n - 1) as nat)
    }
}

/// All history entries of the patient's fill records, in record order.
pub open spec fn spec_history_items(ph: Pharmacy, patient_id: u64) -> Seq<PatientHistoryItem> {
    history_items_upto(ph, patient_id, ph.prescriptions@.len())
}

impl Pharmacy {
    /// Lists the medication catalog in ascending byte order of the names.
    pub fn get_medications(&self) -> (r: Vec<Medication>)
        requires
            self.wf(),
        ensures
            r@.to_multiset() == self.medications@.to_multiset(),
            meds_sorted_by_name(r@),
    {
        let n = self.medications.len();
        let mut items: Vec<Medication> = Vec::new();
        for i in 0..n
            invariant
                n == self.medications@.len(),
                items@ =~= self.medications@.subrange(0, i as int),
        {
            items.push(self.medications[i].clone());
        }
        proof {
            assert(items@ =~= self.medications@);
        }
        sort_medications(items)
    }

    /// The patient's fill history, joined with the drug names, newest
    /// fill date first.
    pub fn get_patient_history(&self, patient_id: u64) -> (r: Vec<PatientHistoryItem>)
        requires
            self.wf(),
        ensures
            r@.to_multiset() == spec_history_items(*self, patient_id).to_multiset(),
            history_sorted_desc(r@),
    {
        let n = self.prescriptions.len();
        let mut items: Vec<PatientHistoryItem> = Vec::new();
        for i in 0..n
            invariant
                n == self.prescriptions@.len(),
                self.wf(),
                items@ == history_items_upto(*self, patient_id, i as nat),
        {
            let p = &self.prescriptions[i];
            if p.patient_id == patient_id {
                let mlen = self.medications.len();
                proof {
                    assert(self.rx_wf(self.prescriptions@[i as int], i as int));
                }
                assert(1 <= p.medication_id && p.medication_id <= mlen as u64);
                let midx = (p.medication_id - 1) as usize;
                items.push(
                    PatientHistoryItem {
                        id: p.id,
                        drug_name: self.medications[midx].name.clone(),
                        sig: p.sig.clone(),
                        quantity: p.quantity,
                        date_filled: p.date_filled,
                        next_refill_date: p.next_refill_date,
                    },
                );
            }
        }
        sort_history_desc(items)
    }

    /// Appends an audit entry with the caller-supplied timestamp text and
    /// returns its identity. Append-only: entries are never read back by
    /// the engine, never edited, never removed.
    pub fn log_action(
        &mut self,
        username: String,
        action: String,
        details: Option<String>,
        timestamp: String,
    ) -> (id: u64)
        requires
            old(self).wf(),
            old(self).audit_logs@.len() < usize::MAX,
        ensures
            final(self).wf(),
            id == old(self).audit_logs@.len() + 1,
            final(self).audit_logs@ == old(self).audit_logs@.push(
                AuditLogItem { id, username, action, details, timestamp },
            ),
            final(self).patients == old(self).patients,
            final(self).medications == old(self).medications,
            final(self).prescriptions == old(self).prescriptions,
    {
        let id = self.audit_logs.len() as u64 + 1;
        self.audit_logs.push(AuditLogItem { id, username, action, details, timestamp });
        proof {
            assert forall|i: int|
                0 <= i < self.prescriptions@.len() implies self.rx_wf(
                #[trigger] self.prescriptions@[i],
                i,
            ) by {
                assert(old(self).rx_wf(self.prescriptions@[i], i));
            }
        }
        id
    }

    /// Lists the audit log, newest timestamp first.
    pub fn get_audit_logs(&self) -> (r: Vec<AuditLogItem>)
        requires
            self.wf(),
        ensures
            r@.to_multiset() == self.audit_logs@.to_multiset(),
            audit_sorted_desc(r@),
    {
        let n = self.audit_logs.len();
        let mut items: Vec<AuditLogItem> = Vec::new();
        for i in 0..n
            invariant
                n == self.audit_logs@.len(),
                items@ =~= self.audit_logs@.subrange(0, i as int),
        {
            items.push(self.audit_logs[i].clone());
        }
        proof {
            assert(items@ =~= self.audit_logs@);
        }
        sort_audit_desc(items)
    }
}

/// Sorts medications by ascending byte order of their names, keeping
/// exactly the given entries.
fn sort_medications(v: Vec<Medication>) -> (r: Vec<Medication>)
    ensures
        r@.to_multiset() == v@.to_multiset(),
        meds_sorted_by_name(r@),
{
    let mut rem = v;
    let mut out: Vec<Medication> = Vec::new();
    proof {
        assert(out@.to_multiset().add(rem@.to_multiset()) =~= v@.to_multiset());
    }
    while rem.len() > 0
        invariant
            out@.to_multiset().add(rem@.to_multiset()) == v@.to_multiset(),
            meds_sorted_by_name(out@),
            forall|a: int, b: int|
                0 <= a < out@.len() && 0 <= b < rem@.len() ==> bytes_le(
                    str_bytes((#[trigger] out@[a]).name),
                    str_bytes((#[trigger] rem@[b]).name),
                ),
        decreases rem.len(),
    {
        let mut min_i: usize = 0;
        let mut k: usize = 1;
        proof {
            lemma_bytes_le_refl(str_bytes(rem@[0].name));
        }
        while k < rem.len()
            invariant
                0 < rem@.len(),
                min_i < k <= rem@.len(),
                forall|t: int|
                    0 <= t < k ==> bytes_le(
                        str_bytes(rem@[min_i as int].name),
                        str_bytes((#[trigger] rem@[t]).name),
                    ),
            decreases rem@.len() - k,
        {
            if string_le(&rem[k].name, &rem[min_i].name) {
                proof {
                    lemma_bytes_le_refl(str_bytes(rem@[k as int].name));
                    assert forall|t: int| 0 <= t < k implies bytes_le(
                        str_bytes(rem@[k as int].name),
                        str_bytes((#[trigger] rem@[t]).name),
                    ) by {
                        lemma_bytes_le_trans(
                            str_bytes(rem@[k as int].name),
                            str_bytes(rem@[min_i as int].name),
                            str_bytes(rem@[t].name),
                        );
                    }
                }
                min_i = k;
            } else {
                proof {
                    lemma_bytes_le_total(
                        str_bytes(rem@[min_i as int].name),
                        str_bytes(rem@[k as int].name),
                    );
                }
            }
            k += 1;
        }
        let ghost prev_rem = rem@;
        let ghost prev_out = out@;
        let item = rem.remove(min_i);
        out.push(item);
        proof {
            assert(rem@.to_multiset() =~= prev_rem.to_multiset().remove(item));
            assert(prev_rem.to_multiset().count(item) > 0) by {
                assert(prev_rem.contains(item));
            }
            assert(out@.to_multiset().add(rem@.to_multiset()) =~= v@.to_multiset());
            assert forall|a: int, b: int|
                0 <= a < out@.len() && 0 <= b < rem@.len() implies bytes_le(
                str_bytes((#[trigger] out@[a]).name),
                str_bytes((#[trigger] rem@[b]).name),
            ) by {
                assert(rem@[b] == prev_rem[if b < min_i {
                    b
                } else {
                    b + 1
                }]);
                if a < prev_out.len() {
                    assert(out@[a] == prev_out[a]);
                } else {
                    assert(out@[a] == item);
                }
            }
        }
    }
    proof {
        assert(rem@.to_multiset() =~= Multiset::<Medication>::empty());
        assert(out@.to_multiset() =~= v@.to_multiset());
    }
    out
}

/// Sorts history entries newest fill date first, keeping exactly the given
/// entries.
fn sort_history_desc(v: Vec<PatientHistoryItem>) -> (r: Vec<PatientHistoryItem>)
    ensures
        r@.to_multiset() == v@.to_multiset(),
        history_sorted_desc(r@),
{
    let mut rem = v;
    let mut out: Vec<PatientHistoryItem> = Vec::new();
    proof {
        assert(out@.to_multiset().add(rem@.to_multiset()) =~= v@.to_multiset());
    }
    while rem.len() > 0
        invariant
            out@.to_multiset().add(rem@.to_multiset()) == v@.to_multiset(),
            history_sorted_desc(out@),
            forall|a: int, b: int|
                0 <= a < out@.len() && 0 <= b < rem@.len() ==> date_le(
                    (#[trigger] rem@[b]).date_filled,
                    (#[trigger] out@[a]).date_filled,
                ),
        decreases rem.len(),
    {
        let mut best: usize = 0;
        let mut k: usize = 1;
        while k < rem.len()
            invariant
                0 < rem@.len(),
                best < k <= rem@.len(),
                forall|t: int|
                    0 <= t < k ==> date_le(
                        (#[trigger] rem@[t]).date_filled,
                        rem@[best as int].date_filled,
                    ),
            decreases rem@.len() - k,
        {
            if rem[best].date_filled.lt(&rem[k].date_filled) {
                best = k;
            }
            k += 1;
        }
        let ghost prev_rem = rem@;
        let ghost prev_out = out@;
        let item = rem.remove(best);
        out.push(item);
        proof {
            assert(rem@.to_multiset() =~= prev_rem.to_multiset().remove(item));
            assert(prev_rem.to_multiset().count(item) > 0) by {
                assert(prev_rem.contains(item));
            }
            assert(out@.to_multiset().add(rem@.to_multiset()) =~= v@.to_multiset());
            assert forall|a: int, b: int|
                0 <= a < out@.len() && 0 <= b < rem@.len() implies date_le(
                (#[trigger] rem@[b]).date_filled,
                (#[trigger] out@[a]).date_filled,
            ) by {
                assert(rem@[b] == prev_rem[if b < best {
                    b
                } else {
                    b + 1
                }]);
                if a < prev_out.len() {
                    assert(out@[a] == prev_out[a]);
                } else {
                    assert(out@[a] == item);
                }
            }
        }
    }
    proof {
        assert(rem@.to_multiset() =~= Multiset::<PatientHistoryItem>::empty());
        assert(out@.to_multiset() =~= v@.to_multiset());
    }
    out
}

/// Sorts audit entries newest timestamp first, keeping exactly the given
/// entries.
fn sort_audit_desc(v: Vec<AuditLogItem>) -> (r: Vec<AuditLogItem>)
    ensures
        r@.to_multiset() == v@.to_multiset(),
        audit_sorted_desc(r@),
{
    let mut rem = v;
    let mut out: Vec<AuditLogItem> = Vec::new();
    proof {
        assert(out@.to_multiset().add(rem@.to_multiset()) =~= v@.to_multiset());
    }
    while rem.len() > 0
        invariant
            out@.to_multiset().add(rem@.to_multiset()) == v@.to_multiset(),
            audit_sorted_desc(out@),
            forall|a: int, b: int|
                0 <= a < out@.len() && 0 <= b < rem@.len() ==> bytes_le(
                    str_bytes((#[trigger] rem@[b]).timestamp),
                    str_bytes((#[trigger] out@[a]).timestamp),
                ),
        decreases rem.len(),
    {
        let mut best: usize = 0;
        let mut k: usize = 1;
        proof {
            lemma_bytes_le_refl(str_bytes(rem@[0].timestamp));
        }
        while k < rem.len()
            invariant
                0 < rem@.len(),
                best < k <= rem@.len(),
                forall|t: int|
                    0 <= t < k ==> bytes_le(
                        str_bytes((#[trigger] rem@[t]).timestamp),
                        str_bytes(rem@[best as int].timestamp),
                    ),
            decreases rem@.len() - k,
        {
            if string_le(&rem[best].timestamp, &rem[k].timestamp) {
                proof {
                    lemma_bytes_le_refl(str_bytes(rem@[k as int].timestamp));
                    assert forall|t: int| 0 <= t < k implies bytes_le(
                        str_bytes((#[trigger] rem@[t]).timestamp),
                        str_bytes(rem@[k as int].timestamp),
                    ) by {
                        lemma_bytes_le_trans(
                            str_bytes(rem@[t].timestamp),
                            str_bytes(rem@[best as int].timestamp),
                            str_bytes(rem@[k as int].timestamp),
                        );
                    }
                }
                best = k;
            } else {
                proof {
                    lemma_bytes_le_total(
                        str_bytes(rem@[best as int].timestamp),
                        str_bytes(rem@[k as int].timestamp),
                    );
                }
            }
            k += 1;
        }
        let ghost prev_rem = rem@;
        let ghost prev_out = out@;
        let item = rem.remove(best);
        out.push(item);
        proof {
            assert(rem@.to_multiset() =~= prev_rem.to_multiset().remove(item));
            assert(prev_rem.to_multiset().count(item) > 0) by {
                assert(prev_rem.contains(item));
            }
            assert(out@.to_multiset().add(rem@.to_multiset()) =~= v@.to_multiset());
            assert forall|a: int, b: int|
                0 <= a < out@.len() && 0 <= b < rem@.len() implies bytes_le(
                str_bytes((#[trigger] rem@[b]).timestamp),
                str_bytes((#[trigger] out@[a]).timestamp),
            ) by {
                assert(rem@[b] == prev_rem[if b < best {
                    b
                } else {
                    b + 1
                }]);
                if a < prev_out.len() {
                    assert(out@[a] == prev_out[a]);
                } else {
                    assert(out@[a] == item);
                }
            }
        }
    }
    proof {
        assert(rem@.to_multiset() =~= Multiset::<AuditLogItem>::empty());
        assert(out@.to_multiset() =~= v@.to_multiset());
    }
    out
}

} // verus!

