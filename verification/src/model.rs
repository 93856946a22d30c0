//! Data model: patients, medications, fill records, dashboard views,
//! authentication and audit entries.
//!
//! Identities are positive integers assigned in creation order. Money is held
//! in integer cents. Calendar fields that the engine reasons about are
//! [`Date`] values; free-text fields (birth dates, expiry labels, audit
//! timestamps) stay strings.

use vstd::prelude::*;
use crate::date::Date;

verus! {

/// Request to create a patient profile.
pub struct CreatePatientDto {
    pub logged_in_user: String,
    pub name: String,
    pub birth_date: String,
    pub phone: String,
    pub email: Option<String>,
    pub address: String,
    pub city: String,
    pub state: String,
    pub postal_code: String,
    pub health_card_num: String,
    pub allergies: Option<String>,
    pub insurance_provider: Option<String>,
    pub insurance_id: Option<String>,
}

/// A stored patient profile.
pub struct Patient {
    pub id: u64,
    pub name: String,
    pub birth_date: String,
    pub phone: String,
    pub email: Option<String>,
    pub address: String,
    pub city: String,
    pub state: String,
    pub postal_code: String,
    pub health_card_num: String,
    pub allergies: Option<String>,
    pub insurance_provider: Option<String>,
    pub insurance_id: Option<String>,
}

/// One line of a patient's fill history, joined with the drug name.
pub struct PatientHistoryItem {
    pub id: u64,
    pub drug_name: String,
    pub sig: String,
    pub quantity: u32,
    pub date_filled: Date,
    pub next_refill_date: Date,
}

/// Request to add a medication to the inventory.
pub struct CreateMedicationDto {
    pub logged_in_user: String,
    pub name: String,
    pub din: String,
    pub ndc: Option<String>,
    pub description: Option<String>,
    pub stock: u32,
    pub price_cents: u64,
    pub expiration: String,
}

/// Request to edit a medication's stock, price or description.
pub struct UpdateMedicationDto {
    pub logged_in_user: String,
    pub id: u64,
    pub stock: u32,
    pub price_cents: u64,
    pub description: Option<String>,
}

/// A stored medication with its inventory stock count.
pub struct Medication {
    pub id: u64,
    pub name: String,
    pub din: String,
    pub ndc: Option<String>,
    pub description: Option<String>,
    pub stock: u32,
    pub price_cents: u64,
    pub expiration: String,
}

/// Request to fill a prescription for a (patient, medication) pair.
pub struct CreatePrescriptionDto {
    pub logged_in_user: String,
    pub patient_id: u64,
    pub medication_id: u64,
    pub prescriber: String,
    pub sig: String,
    pub quantity: u32,
    pub refills: u32,
    pub days_supply: u32,
    pub date_filled: Date,
}

/// An immutable fill record. A refill is a new record for the same
/// (patient, medication) pair, never an update.
pub struct Prescription {
    pub id: u64,
    pub patient_id: u64,
    pub medication_id: u64,
    pub patient_name: String,
    pub medication_name: String,
    pub prescriber: String,
    pub sig: String,
    pub quantity: u32,
    pub refills: u32,
    pub days_supply: u32,
    pub date_filled: Date,
    pub next_refill_date: Date,
}

/// Dashboard counters over the current-record set and the inventory.
#[derive(Clone, Copy, PartialEq, Eq, Structural, Debug)]
pub struct DashboardStats {
    pub due_today: u64,
    pub due_soon: u64,
    pub low_stock: u64,
}

/// A due-list entry: a current fill record joined with display fields.
pub struct DueRxItem {
    pub id: u64,
    pub patient_name: String,
    pub medication_name: String,
    pub next_refill_date: Date,
    pub phone: String,
    pub patient_id: u64,
    pub medication_id: u64,
    pub quantity: u32,
    pub sig: String,
    pub days_supply: u32,
    pub refills: u32,
    pub prescriber: String,
}

/// Login request.
pub struct LoginDto {
    pub username: String,
    pub password: String,
}

/// Successful login response.
pub struct AuthResponse {
    pub success: bool,
    pub role: String,
    pub username: String,
}

/// An append-only audit entry; written after the fact, never read back by
/// the engine.
pub struct AuditLogItem {
    pub id: u64,
    pub username: String,
    pub action: String,
    pub details: Option<String>,
    pub timestamp: String,
}

/// An exact copy of an optional string.
fn clone_opt_string(s: &Option<String>) -> (r: Option<String>)
    ensures
        r == *s,
{
    match s {
        Some(v) => Some(v.clone()),
        None => None,
    }
}

impl Clone for Patient {
    /// An exact copy.
    fn clone(&self) -> (r: Self)
        ensures
            r == *self,
    {
        Patient {
            id: self.id,
            name: self.name.clone(),
            birth_date: self.birth_date.clone(),
            phone: self.phone.clone(),
            email: clone_opt_string(&self.email),
            address: self.address.clone(),
            city: self.city.clone(),
            state: self.state.clone(),
            postal_code: self.postal_code.clone(),
            health_card_num: self.health_card_num.clone(),
            allergies: clone_opt_string(&self.allergies),
            insurance_provider: clone_opt_string(&self.insurance_provider),
            insurance_id: clone_opt_string(&self.insurance_id),
        }
    }
}

impl Clone for Medication {
    /// An exact copy.
    fn clone(&self) -> (r: Self)
        ensures
            r == *self,
    {
        Medication {
            id: self.id,
            name: self.name.clone(),
            din: self.din.clone(),
            ndc: clone_opt_string(&self.ndc),
            description: clone_opt_string(&self.description),
            stock: self.stock,
            price_cents: self.price_cents,
            expiration: self.expiration.clone(),
        }
    }
}

impl Clone for Prescription {
    /// An exact copy.
    fn clone(&self) -> (r: Self)
        ensures
            r == *self,
    {
        Prescription {
            id: self.id,
            patient_id: self.patient_id,
            medication_id: self.medication_id,
            patient_name: self.patient_name.clone(),
            medication_name: self.medication_name.clone(),
            prescriber: self.prescriber.clone(),
            sig: self.sig.clone(),
            quantity: self.quantity,
            refills: self.refills,
            days_supply: self.days_supply,
            date_filled: self.date_filled,
            next_refill_date: self.next_refill_date,
        }
    }
}

impl Clone for AuditLogItem {
    /// An exact copy.
    fn clone(&self) -> (r: Self)
        ensures
            r == *self,
    {
        AuditLogItem {
            id: self.id,
            username: self.username.clone(),
            action: self.action.clone(),
            details: clone_opt_string(&self.details),
            timestamp: self.timestamp.clone(),
        }
    }
}

/// Why a fulfillment (or a medication update) was refused. Failures leave
/// the store exactly as it was.
#[derive(Clone, Copy, PartialEq, Eq, Structural, Debug)]
pub enum FulfillmentError {
    /// The referenced patient or medication does not exist.
    NotFound,
    /// The requested quantity exceeds the medication's current stock.
    InsufficientStock,
}

/// Why a login was refused.
#[derive(Clone, Copy, PartialEq, Eq, Structural, Debug)]
pub enum AuthError {
    InvalidCredentials,
}

/// Which slice of the due list a caller asks for.
#[derive(Clone, Copy, PartialEq, Eq, Structural, Debug)]
pub enum DueFilter {
    /// Records due on or before the reference date.
    Today,
    /// Records due after the reference date but within the soon horizon.
    Soon,
}

} // verus!
