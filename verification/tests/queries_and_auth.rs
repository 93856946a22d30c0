//! Read queries, login response assembly, the audit log, and the seeded
//! demonstration store.

use pharmacy_core::{
    login_response, seeded_pharmacy, AuthError, CreateMedicationDto, CreatePatientDto,
    CreatePrescriptionDto, Date, Pharmacy,
};

fn patient_dto(name: &str) -> CreatePatientDto {
    CreatePatientDto {
        logged_in_user: String::from("tester"),
        name: String::from(name),
        birth_date: String::from("1990-01-01"),
        phone: String::from("555-0100"),
        email: None,
        address: String::from("1 Main St"),
        city: String::from("Town"),
        state: String::from("ON"),
        postal_code: String::from("A1A 1A1"),
        health_card_num: String::from("000-000"),
        allergies: None,
        insurance_provider: None,
        insurance_id: None,
    }
}

fn medication_dto(name: &str, din: &str, stock: u32) -> CreateMedicationDto {
    CreateMedicationDto {
        logged_in_user: String::from("tester"),
        name: String::from(name),
        din: String::from(din),
        ndc: None,
        description: None,
        stock,
        price_cents: 1000,
        expiration: String::from("2026-01-01"),
    }
}

fn fill_on(patient_id: u64, medication_id: u64, date_filled: Date) -> CreatePrescriptionDto {
    CreatePrescriptionDto {
        logged_in_user: String::from("tester"),
        patient_id,
        medication_id,
        prescriber: String::from("Dr. Demo"),
        sig: String::from("Take as directed"),
        quantity: 1,
        refills: 0,
        days_supply: 10,
        date_filled,
    }
}

fn d(year: u32, month: u32, day: u32) -> Date {
    Date { year, month, day }
}

#[test]
fn patients_list_newest_first() {
    let mut ph = Pharmacy::new();
    ph.add_patient(patient_dto("Alice"));
    ph.add_patient(patient_dto("Bob"));
    ph.add_patient(patient_dto("Carol"));
    let all = ph.get_patients(None);
    let names: Vec<&str> = all.iter().map(|p| p.name.as_str()).collect();
    assert_eq!(names, vec!["Carol", "Bob", "Alice"]);
}

#[test]
fn patient_search_ignores_ascii_case() {
    let mut ph = Pharmacy::new();
    ph.add_patient(patient_dto("Alice Smith"));
    ph.add_patient(patient_dto("Bob Jones"));
    let hits = ph.get_patients(Some(String::from("smith")));
    assert_eq!(hits.len(), 1);
    assert_eq!(hits[0].name, "Alice Smith");
}

#[test]
fn patient_search_matches_filled_medication_names() {
    let mut ph = Pharmacy::new();
    ph.add_patient(patient_dto("Alice"));
    ph.add_patient(patient_dto("Bob"));
    ph.add_medication(medication_dto("Amoxicillin 500mg", "10000001", 100)).unwrap();
    ph.fill_prescription(fill_on(2, 1, d(2023, 11, 1))).unwrap();
    let hits = ph.get_patients(Some(String::from("AMOX")));
    assert_eq!(hits.len(), 1);
    assert_eq!(hits[0].name, "Bob");
}

#[test]
fn an_empty_search_selects_everyone() {
    let mut ph = Pharmacy::new();
    ph.add_patient(patient_dto("Alice"));
    ph.add_patient(patient_dto("Bob"));
    let hits = ph.get_patients(Some(String::new()));
    assert_eq!(hits.len(), 2);
}

#[test]
fn medications_list_in_name_order() {
    let mut ph = Pharmacy::new();
    ph.add_medication(medication_dto("Zopiclone", "10000001", 10)).unwrap();
    ph.add_medication(medication_dto("Amoxicillin", "10000002", 10)).unwrap();
    ph.add_medication(medication_dto("Metformin", "10000003", 10)).unwrap();
    let meds = ph.get_medications();
    let names: Vec<&str> = meds.iter().map(|m| m.name.as_str()).collect();
    assert_eq!(names, vec!["Amoxicillin", "Metformin", "Zopiclone"]);
}

#[test]
fn history_lists_a_patients_fills_newest_first() {
    let mut ph = Pharmacy::new();
    ph.add_patient(patient_dto("Alice"));
    ph.add_patient(patient_dto("Bob"));
    ph.add_medication(medication_dto("Med A", "10000001", 100)).unwrap();
    ph.add_medication(medication_dto("Med B", "10000002", 100)).unwrap();
    ph.fill_prescription(fill_on(1, 1, d(2023, 9, 1))).unwrap();
    ph.fill_prescription(fill_on(2, 1, d(2023, 9, 15))).unwrap();
    ph.fill_prescription(fill_on(1, 2, d(2023, 10, 5))).unwrap();
    let history = ph.get_patient_history(1);
    assert_eq!(history.len(), 2);
    assert_eq!(history[0].drug_name, "Med B");
    assert_eq!(history[0].date_filled, d(2023, 10, 5));
    assert_eq!(history[1].drug_name, "Med A");
    assert_eq!(history[1].date_filled, d(2023, 9, 1));
}

#[test]
fn audit_entries_list_newest_timestamp_first() {
    let mut ph = Pharmacy::new();
    let id1 = ph.log_action(
        String::from("admin"),
        String::from("LOGIN"),
        None,
        String::from("2023-11-01 08:00:00"),
    );
    let id2 = ph.log_action(
        String::from("tech"),
        String::from("FILL_RX"),
        Some(String::from("Filled Rx")),
        String::from("2023-11-02 09:30:00"),
    );
    assert_eq!(id1, 1);
    assert_eq!(id2, 2);
    let logs = ph.get_audit_logs();
    assert_eq!(logs.len(), 2);
    assert_eq!(logs[0].username, "tech");
    assert_eq!(logs[1].username, "admin");
}

#[test]
fn a_matched_role_logs_in_and_carries_the_username() {
    let r = login_response(Some(String::from("admin")), String::from("admin"));
    let resp = r.unwrap();
    assert!(resp.success);
    assert_eq!(resp.role, "admin");
    assert_eq!(resp.username, "admin");
}

#[test]
fn no_matched_role_is_invalid_credentials() {
    let r = login_response(None, String::from("nobody"));
    match r {
        Ok(_) => panic!("login without a matched role must fail"),
        Err(e) => assert_eq!(e, AuthError::InvalidCredentials),
    }
}

#[test]
fn the_seeded_store_holds_the_demonstration_data() {
    let ph = seeded_pharmacy();
    assert_eq!(ph.patients.len(), 5);
    assert_eq!(ph.medications.len(), 5);
    assert_eq!(ph.prescriptions.len(), 4);
    assert_eq!(ph.audit_logs.len(), 0);
    assert_eq!(ph.patients[0].name, "John Smith");
    assert_eq!(ph.medications[3].name, "Lisinopril 10mg");
    assert_eq!(ph.medications[3].stock, 30);
    // first seeded fill: 2023-11-01 with a 10-day supply
    assert_eq!(ph.prescriptions[0].next_refill_date, d(2023, 11, 11));
    assert_eq!(ph.prescriptions[0].patient_name, "John Smith");
    assert_eq!(ph.prescriptions[0].medication_name, "Amoxicillin 500mg");
}

#[test]
fn the_seeded_store_answers_the_dashboard() {
    let ph = seeded_pharmacy();
    // Due dates: 2023-11-11, 2024-01-13, 2023-12-20, 2023-12-10; all records current.
    let stats = ph.dashboard_stats(d(2023, 11, 11));
    assert_eq!(stats.due_today, 1);
    assert_eq!(stats.due_soon, 0);
    assert_eq!(stats.low_stock, 1);
}
