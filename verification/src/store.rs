//! The pharmacy store: patients, the medication inventory, the append-only
//! fill-record set, and the audit log, with the fulfillment transaction that
//! ties stock deduction to record insertion.
//!
//! The store is the in-memory record of truth the engine is verified
//! against. Identities are positions plus one, so they grow with creation
//! order and the refill-chain invariant holds by construction. A fulfillment
//! either completes in full — one new record, one matching stock decrement —
//! or leaves the store untouched.

use vstd::prelude::*;
use crate::chain::{pair_ids_monotonic, same_pair};
use crate::date::{Date, date_valid, spec_plus_days};
use crate::model::{
    AuditLogItem, CreateMedicationDto, CreatePatientDto, CreatePrescriptionDto, FulfillmentError,
    Medication, Patient, Prescription, UpdateMedicationDto,
};
use crate::schedule::next_refill_date;

verus! {

/// The in-memory pharmacy state.
pub struct Pharmacy {
    pub patients: Vec<Patient>,
    pub medications: Vec<Medication>,
    pub prescriptions: Vec<Prescription>,
    pub audit_logs: Vec<AuditLogItem>,
}

impl Pharmacy {
    /// A fill record in good standing: its identity is its position plus
    /// one, it references an existing patient and medication whose display
    /// names it carries, and its next refill date is the fill date advanced
    /// by the days-supply.
    pub open spec fn rx_wf(self, p: Prescription, i: int) -> bool {
        &&& p.id == i + 1
        &&& 1 <= p.patient_id <= self.patients@.len()
        &&& 1 <= p.medication_id <= self.medications@.len()
        &&& p.patient_name == self.patients@[p.patient_id - 1].name
        &&& p.medication_name == self.medications@[p.medication_id - 1].name
        &&& p.quantity >= 1
        &&& p.days_supply >= 1
        &&& date_valid(p.date_filled)
        &&& date_valid(p.next_refill_date)
        &&& p.next_refill_date == spec_plus_days(p.date_filled, p.days_supply as nat)
    }

    /// Store invariant: every identity is its position plus one, and every
    /// fill record is in good standing.
    pub open spec fn wf(self) -> bool {
        &&& forall|i: int|
            0 <= i < self.patients@.len() ==> (#[trigger] self.patients@[i]).id == i + 1
        &&& forall|i: int|
            0 <= i < self.medications@.len() ==> (#[trigger] self.medications@[i]).id == i + 1
        &&& forall|i: int|
            0 <= i < self.audit_logs@.len() ==> (#[trigger] self.audit_logs@[i]).id == i + 1
        &&& forall|i: int|
            0 <= i < self.prescriptions@.len() ==> self.rx_wf(#[trigger] self.prescriptions@[i], i)
    }

    /// A patient with this identity exists.
    pub open spec fn has_patient(self, id: u64) -> bool {
        1 <= id <= self.patients@.len()
    }

    /// A medication with this identity exists.
    pub open spec fn has_medication(self, id: u64) -> bool {
        1 <= id <= self.medications@.len()
    }

    /// The medication with identity `id`.
    pub open spec fn medication_of(self, id: u64) -> Medication {
        self.medications@[id - 1]
    }

    /// The record a fulfillment of `data` appends to this store.
    pub open spec fn spec_fill_record(self, data: CreatePrescriptionDto) -> Prescription {
        Prescription {
            id: (self.prescriptions@.len() + 1) as u64,
            patient_id: data.patient_id,
            medication_id: data.medication_id,
            patient_name: self.patients@[data.patient_id - 1].name,
            medication_name: self.medications@[data.medication_id - 1].name,
            prescriber: data.prescriber,
            sig: data.sig,
            quantity: data.quantity,
            refills: data.refills,
            days_supply: data.days_supply,
            date_filled: data.date_filled,
            next_refill_date: spec_plus_days(data.date_filled, data.days_supply as nat),
        }
    }

    /// An empty store.
    pub fn new() -> (r: Pharmacy)
        ensures
            r.wf(),
            r.patients@.len() == 0,
            r.medications@.len() == 0,
            r.prescriptions@.len() == 0,
            r.audit_logs@.len() == 0,
    {
        Pharmacy {
            patients: Vec::new(),
            medications: Vec::new(),
            prescriptions: Vec::new(),
            audit_logs: Vec::new(),
        }
    }

    /// In a well-formed store the fill records obey the append model:
    /// within every pair, identities grow strictly with position.
    pub proof fn lemma_wf_implies_pair_ids_monotonic(self)
        requires
            self.wf(),
        ensures
            pair_ids_monotonic(self.prescriptions@),
    {
        assert forall|i: int, j: int|
            0 <= i < j < self.prescriptions@.len() && same_pair(
                #[trigger] self.prescriptions@[i],
                #[trigger] self.prescriptions@[j],
            ) implies self.prescriptions@[i].id < self.prescriptions@[j].id by {
            assert(self.rx_wf(self.prescriptions@[i], i));
            assert(self.rx_wf(self.prescriptions@[j], j));
        }
    }

    /// In a well-formed store, every (patient, medication) pair with at
    /// least one fill record has exactly one current record, and it carries
    /// the maximum identity among the pair's records.
    pub proof fn lemma_exactly_one_current_record(self, patient_id: u64, medication_id: u64)
        requires
            self.wf(),
            crate::chain::has_pair(self.prescriptions@, patient_id, medication_id),
        ensures
            ({
                let k = crate::chain::last_index_of_pair(
                    self.prescriptions@,
                    patient_id,
                    medication_id,
                );
                &&& crate::chain::is_current(self.prescriptions@, k)
                &&& forall|j: int|
                    crate::chain::is_current(self.prescriptions@, j) && (
                    #[trigger] self.prescriptions@[j]).patient_id == patient_id
                        && self.prescriptions@[j].medication_id == medication_id ==> j == k
            }),
    {
        self.lemma_wf_implies_pair_ids_monotonic();
        crate::chain::lemma_exactly_one_current_per_pair(
            self.prescriptions@,
            patient_id,
            medication_id,
        );
    }

    /// Appends a patient profile and returns its identity.
    pub fn add_patient(&mut self, data: CreatePatientDto) -> (id: u64)
        requires
            old(self).wf(),
            old(self).patients@.len() < usize::MAX,
        ensures
            final(self).wf(),
            id == old(self).patients@.len() + 1,
            final(self).patients@ == old(self).patients@.push(
                Patient {
                    id,
                    name: data.name,
                    birth_date: data.birth_date,
                    phone: data.phone,
                    email: data.email,
                    address: data.address,
                    city: data.city,
                    state: data.state,
                    postal_code: data.postal_code,
                    health_card_num: data.health_card_num,
                    allergies: data.allergies,
                    insurance_provider: data.insurance_provider,
                    insurance_id: data.insurance_id,
                },
            ),
            final(self).medications == old(self).medications,
            final(self).prescriptions == old(self).prescriptions,
            final(self).audit_logs == old(self).audit_logs,
    {
        let id = self.patients.len() as u64 + 1;
        self.patients.push(
            Patient {
                id,
                name: data.name,
                birth_date: data.birth_date,
                phone: data.phone,
                email: data.email,
                address: data.address,
                city: data.city,
                state: data.state,
                postal_code: data.postal_code,
                health_card_num: data.health_card_num,
                allergies: data.allergies,
                insurance_provider: data.insurance_provider,
                insurance_id: data.insurance_id,
            },
        );
        proof {
            assert forall|i: int|
                0 <= i < self.prescriptions@.len() implies self.rx_wf(
                #[trigger] self.prescriptions@[i],
                i,
            ) by {
                assert(old(self).rx_wf(self.prescriptions@[i], i));
            }
        }
        id
    }

    /// Adds a medication to the catalog, refusing a duplicate of the
    /// mandatory catalog code. Returns the new identity, or `None` — with
    /// the store untouched — exactly when some existing medication already
    /// carries the code.
    pub fn add_medication(&mut self, data: CreateMedicationDto) -> (r: Option<u64>)
        requires
            old(self).wf(),
            old(self).medications@.len() < usize::MAX,
        ensures
            final(self).wf(),
            r is None <==> exists|i: int|
                0 <= i < old(self).medications@.len() && (#[trigger] old(
                    self,
                ).medications@[i]).din@ == data.din@,
            r is None ==> *final(self) == *old(self),
            r is Some ==> r == Some((old(self).medications@.len() + 1) as u64)
                && final(self).medications@ == old(self).medications@.push(
                Medication {
                    id: (old(self).medications@.len() + 1) as u64,
                    name: data.name,
                    din: data.din,
                    ndc: data.ndc,
                    description: data.description,
                    stock: data.stock,
                    price_cents: data.price_cents,
                    expiration: data.expiration,
                },
            ),
            final(self).patients == old(self).patients,
            final(self).prescriptions == old(self).prescriptions,
            final(self).audit_logs == old(self).audit_logs,
    {
        let n = self.medications.len();
        for i in 0..n
            invariant
                *self == *old(self),
                self.wf(),
                n == self.medications.len(),
                forall|j: int| 0 <= j < i ==> (#[trigger] self.medications@[j]).din@ != data.din@,
        {
            if self.medications[i].din == data.din {
                return None;
            }
        }
        let id = self.medications.len() as u64 + 1;
        self.medications.push(
            Medication {
                id,
                name: data.name,
                din: data.din,
                ndc: data.ndc,
                description: data.description,
                stock: data.stock,
                price_cents: data.price_cents,
                expiration: data.expiration,
            },
        );
        proof {
            assert forall|i: int|
                0 <= i < self.prescriptions@.len() implies self.rx_wf(
                #[trigger] self.prescriptions@[i],
                i,
            ) by {
                assert(old(self).rx_wf(self.prescriptions@[i], i));
            }
        }
        Some(id)
    }

    /// Edits a medication's stock, price and description, leaving its name
    /// and codes as they are. Returns the stock count the edit replaced;
    /// fails with `NotFound` — and no write — exactly when the identity
    /// does not exist.
    pub fn update_medication(&mut self, data: UpdateMedicationDto) -> (r: Result<
        u32,
        FulfillmentError,
    >)
        requires
            old(self).wf(),
        ensures
            final(self).wf(),
            r is Err <==> !old(self).has_medication(data.id),
            r is Err ==> r == Err::<u32, FulfillmentError>(FulfillmentError::NotFound)
                && *final(self) == *old(self),
            r is Ok ==> r == Ok::<u32, FulfillmentError>(
                old(self).medication_of(data.id).stock,
            ) && final(self).medications@ == old(self).medications@.update(
                data.id - 1,
                Medication {
                    stock: data.stock,
                    price_cents: data.price_cents,
                    description: data.description,
                    ..old(self).medication_of(data.id)
                },
            ),
            final(self).patients == old(self).patients,
            final(self).prescriptions == old(self).prescriptions,
            final(self).audit_logs == old(self).audit_logs,
    {
        if data.id < 1 || data.id > self.medications.len() as u64 {
            return Err(FulfillmentError::NotFound);
        }
        let idx = (data.id - 1) as usize;
        let old_stock = self.medications[idx].stock;
        self.medications[idx].stock = data.stock;
        self.medications[idx].price_cents = data.price_cents;
        self.medications[idx].description = data.description;
        proof {
            assert forall|i: int|
                0 <= i < self.medications@.len() implies (#[trigger] self.medications@[i]).id == i
                + 1 by {
                assert(old(self).medications@[i].id == i + 1);
            }
            assert forall|i: int|
                0 <= i < self.prescriptions@.len() implies self.rx_wf(
                #[trigger] self.prescriptions@[i],
                i,
            ) by {
                assert(old(self).rx_wf(self.prescriptions@[i], i));
            }
            assert(self.medications@ =~= old(self).medications@.update(
                data.id - 1,
                Medication {
                    stock: data.stock,
                    price_cents: data.price_cents,
                    description: data.description,
                    ..old(self).medication_of(data.id)
                },
            ));
        }
        Ok(old_stock)
    }

    /// Loads a historical fill record, as the seed path does: the record is
    /// appended with the next identity and its computed next refill date,
    /// and stock stays as it is — no fulfillment happens.
    pub fn import_record(
        &mut self,
        patient_id: u64,
        medication_id: u64,
        prescriber: String,
        sig: String,
        quantity: u32,
        refills: u32,
        days_supply: u32,
        date_filled: Date,
    ) -> (id: u64)
        requires
            old(self).wf(),
            old(self).has_patient(patient_id),
            old(self).has_medication(medication_id),
            quantity >= 1,
            days_supply >= 1,
            date_valid(date_filled),
            date_filled.year + days_supply < u32::MAX,
            old(self).prescriptions@.len() < usize::MAX,
        ensures
            final(self).wf(),
            id == old(self).prescriptions@.len() + 1,
            final(self).prescriptions@ == old(self).prescriptions@.push(
                Prescription {
                    id,
                    patient_id,
                    medication_id,
                    patient_name: old(self).patients@[patient_id - 1].name,
                    medication_name: old(self).medications@[medication_id - 1].name,
                    prescriber,
                    sig,
                    quantity,
                    refills,
                    days_supply,
                    date_filled,
                    next_refill_date: spec_plus_days(date_filled, days_supply as nat),
                },
            ),
            final(self).patients == old(self).patients,
            final(self).medications == old(self).medications,
            final(self).audit_logs == old(self).audit_logs,
    {
        let plen = self.patients.len();
        let mlen = self.medications.len();
        assert(1 <= patient_id && patient_id <= plen as u64);
        assert(1 <= medication_id && medication_id <= mlen as u64);
        let pidx = (patient_id - 1) as usize;
        let midx = (medication_id - 1) as usize;
        let due = next_refill_date(date_filled, days_supply);
        let id = self.prescriptions.len() as u64 + 1;
        let record = Prescription {
            id,
            patient_id,
            medication_id,
            patient_name: self.patients[pidx].name.clone(),
            medication_name: self.medications[midx].name.clone(),
            prescriber,
            sig,
            quantity,
            refills,
            days_supply,
            date_filled,
            next_refill_date: due,
        };
        self.prescriptions.push(record);
        proof {
            assert forall|i: int|
                0 <= i < self.prescriptions@.len() implies self.rx_wf(
                #[trigger] self.prescriptions@[i],
                i,
            ) by {
                if i < old(self).prescriptions@.len() {
                    assert(old(self).rx_wf(old(self).prescriptions@[i], i));
                    assert(self.prescriptions@[i] == old(self).prescriptions@[i]);
                }
            }
        }
        id
    }

    /// The fulfillment transaction: verify the pair exists, check stock,
    /// compute the next refill date, append the fill record and decrement
    /// stock — all or nothing.
    ///
    /// On success the store gains exactly one record, whose next refill
    /// date is the fill date advanced by the days-supply, and the
    /// medication's stock drops by exactly the quantity dispensed; nothing
    /// else changes. On failure the store is exactly as it was.
    pub fn fill_prescription(&mut self, data: CreatePrescriptionDto) -> (r: Result<
        u64,
        FulfillmentError,
    >)
        requires
            old(self).wf(),
            data.quantity >= 1,
            data.days_supply >= 1,
            date_valid(data.date_filled),
            data.date_filled.year + data.days_supply < u32::MAX,
            old(self).prescriptions@.len() < usize::MAX,
        ensures
            final(self).wf(),
            r is Err ==> *final(self) == *old(self),
            r == Err::<u64, FulfillmentError>(FulfillmentError::NotFound) <==> !(old(
                self,
            ).has_patient(data.patient_id) && old(self).has_medication(data.medication_id)),
            old(self).has_patient(data.patient_id) && old(self).has_medication(data.medication_id)
                ==> (r == Err::<u64, FulfillmentError>(FulfillmentError::InsufficientStock) <==>
            data.quantity > old(self).medication_of(data.medication_id).stock),
            r is Ok ==> {
                &&& r == Ok::<u64, FulfillmentError>((old(self).prescriptions@.len() + 1) as u64)
                &&& final(self).prescriptions@ == old(self).prescriptions@.push(
                    old(self).spec_fill_record(data),
                )
                &&& final(self).medications@ == old(self).medications@.update(
                    data.medication_id - 1,
                    Medication {
                        stock: (old(self).medication_of(data.medication_id).stock
                            - data.quantity) as u32,
                        ..old(self).medication_of(data.medication_id)
                    },
                )
            },
            final(self).patients == old(self).patients,
            final(self).audit_logs == old(self).audit_logs,
    {
        if data.patient_id < 1 || data.patient_id > self.patients.len() as u64 {
            return Err(FulfillmentError::NotFound);
        }
        if data.medication_id < 1 || data.medication_id > self.medications.len() as u64 {
            return Err(FulfillmentError::NotFound);
        }
        let pidx = (data.patient_id - 1) as usize;
        let midx = (data.medication_id - 1) as usize;
        let stock = self.medications[midx].stock;
        if data.quantity > stock {
            return Err(FulfillmentError::InsufficientStock);
        }
        let due = next_refill_date(data.date_filled, data.days_supply);
        let id = self.prescriptions.len() as u64 + 1;
        let record = Prescription {
            id,
            patient_id: data.patient_id,
            medication_id: data.medication_id,
            patient_name: self.patients[pidx].name.clone(),
            medication_name: self.medications[midx].name.clone(),
            prescriber: data.prescriber,
            sig: data.sig,
            quantity: data.quantity,
            refills: data.refills,
            days_supply: data.days_supply,
            date_filled: data.date_filled,
            next_refill_date: due,
        };
        self.prescriptions.push(record);
        self.medications[midx].stock = stock - data.quantity;
        proof {
            assert(self.medications@ =~= old(self).medications@.update(
                data.medication_id - 1,
                Medication {
                    stock: (old(self).medication_of(data.medication_id).stock
                        - data.quantity) as u32,
                    ..old(self).medication_of(data.medication_id)
                },
            ));
            assert forall|i: int|
                0 <= i < self.medications@.len() implies (#[trigger] self.medications@[i]).id == i
                + 1 by {
                assert(old(self).medications@[i].id == i + 1);
            }
            assert forall|i: int|
                0 <= i < self.prescriptions@.len() implies self.rx_wf(
                #[trigger] self.prescriptions@[i],
                i,
            ) by {
                if i < old(self).prescriptions@.len() {
                    assert(old(self).rx_wf(old(self).prescriptions@[i], i));
                    assert(self.prescriptions@[i] == old(self).prescriptions@[i]);
                }
            }
        }
        Ok(id)
    }
}

} // verus!
