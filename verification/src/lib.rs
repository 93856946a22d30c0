//! Prescription fulfillment and refill-chain resolution engine.
//!
//! The library keeps a pharmacy's state — patients, a medication inventory,
//! and an append-only set of fill records — in memory, and verifies the rules
//! that govern it: the atomic check-and-decrement fulfillment transaction,
//! the "latest record per (patient, medication) pair is current" resolution
//! rule, calendar due-date arithmetic, and the dashboard aggregation built on
//! top of those.

pub mod auth;
pub mod chain;
pub mod dashboard;
pub mod date;
pub mod model;
pub mod queries;
pub mod seed;
pub mod schedule;
pub mod store;
pub mod text;

pub use auth::login_response;
pub use chain::{check_pair_ids_monotonic, current_records};
pub use dashboard::{LOW_STOCK_THRESHOLD, UPCOMING_CAP};
pub use date::Date;
pub use model::{
    AuditLogItem, AuthError, AuthResponse, CreateMedicationDto, CreatePatientDto,
    CreatePrescriptionDto, DashboardStats, DueFilter, DueRxItem, FulfillmentError, LoginDto,
    Medication, Patient, PatientHistoryItem, Prescription, UpdateMedicationDto,
};
pub use schedule::{DueStatus, SOON_HORIZON_DAYS};
pub use seed::seeded_pharmacy;
pub use store::Pharmacy;
