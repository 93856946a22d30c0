//! Dashboard aggregation over current records only.

use pharmacy_core::{
    CreateMedicationDto, CreatePatientDto, CreatePrescriptionDto, Date, DueFilter, Pharmacy,
};

fn patient_dto(name: &str) -> CreatePatientDto {
    CreatePatientDto {
        logged_in_user: String::from("tester"),
        name: String::from(name),
        birth_date: String::from("1990-01-01"),
        phone: String::from("555-0100"),
        email: None,
        address: String::from("1 Main St"),
        city: String::from("Town"),
        state: String::from("ON"),
        postal_code: String::from("A1A 1A1"),
        health_card_num: String::from("000-000"),
        allergies: None,
        insurance_provider: None,
        insurance_id: None,
    }
}

fn medication_dto(name: &str, din: &str, stock: u32) -> CreateMedicationDto {
    CreateMedicationDto {
        logged_in_user: String::from("tester"),
        name: String::from(name),
        din: String::from(din),
        ndc: None,
        description: None,
        stock,
        price_cents: 1000,
        expiration: String::from("2026-01-01"),
    }
}

fn fill_on(patient_id: u64, medication_id: u64, date_filled: Date, days_supply: u32) -> CreatePrescriptionDto {
    CreatePrescriptionDto {
        logged_in_user: String::from("tester"),
        patient_id,
        medication_id,
        prescriber: String::from("Dr. Demo"),
        sig: String::from("Take as directed"),
        quantity: 1,
        refills: 0,
        days_supply,
        date_filled,
    }
}

fn d(year: u32, month: u32, day: u32) -> Date {
    Date { year, month, day }
}

/// One patient, three medications with plenty of stock.
fn store() -> Pharmacy {
    let mut ph = Pharmacy::new();
    ph.add_patient(patient_dto("Pat One"));
    ph.add_patient(patient_dto("Pat Two"));
    ph.add_medication(medication_dto("Med A", "10000001", 500)).unwrap();
    ph.add_medication(medication_dto("Med B", "10000002", 500)).unwrap();
    ph.add_medication(medication_dto("Med C", "10000003", 500)).unwrap();
    ph
}

#[test]
fn a_refill_due_on_the_reference_date_counts_as_due_today_only() {
    let mut ph = store();
    // next refill = 2023-11-01 + 10 days = 2023-11-11
    ph.fill_prescription(fill_on(1, 1, d(2023, 11, 1), 10)).unwrap();
    let stats = ph.dashboard_stats(d(2023, 11, 11));
    assert_eq!(stats.due_today, 1);
    assert_eq!(stats.due_soon, 0);
}

#[test]
fn counters_split_today_soon_and_not_due() {
    let mut ph = store();
    ph.fill_prescription(fill_on(1, 1, d(2023, 11, 1), 10)).unwrap(); // due 11-11
    ph.fill_prescription(fill_on(1, 2, d(2023, 11, 1), 14)).unwrap(); // due 11-15
    ph.fill_prescription(fill_on(1, 3, d(2023, 11, 1), 60)).unwrap(); // due 12-31
    let stats = ph.dashboard_stats(d(2023, 11, 11));
    assert_eq!(stats.due_today, 1);
    assert_eq!(stats.due_soon, 1);
    assert_eq!(stats.low_stock, 0);
}

#[test]
fn superseded_history_is_never_counted() {
    let mut ph = store();
    ph.fill_prescription(fill_on(1, 1, d(2023, 10, 1), 10)).unwrap(); // due 10-11, superseded
    ph.fill_prescription(fill_on(1, 1, d(2023, 12, 1), 30)).unwrap(); // due 12-31, current
    let stats = ph.dashboard_stats(d(2023, 11, 11));
    assert_eq!(stats.due_today, 0);
    assert_eq!(stats.due_soon, 0);
}

#[test]
fn reading_the_dashboard_twice_gives_identical_results() {
    let mut ph = store();
    ph.fill_prescription(fill_on(1, 1, d(2023, 11, 1), 10)).unwrap();
    ph.fill_prescription(fill_on(2, 2, d(2023, 11, 5), 12)).unwrap();
    let now = d(2023, 11, 11);
    let first = ph.dashboard_stats(now);
    let second = ph.dashboard_stats(now);
    assert_eq!(first, second);
}

#[test]
fn low_stock_counts_medications_under_the_threshold() {
    let mut ph = store();
    ph.add_medication(medication_dto("Med D", "10000004", 99)).unwrap();
    ph.add_medication(medication_dto("Med E", "10000005", 100)).unwrap();
    ph.add_medication(medication_dto("Med F", "10000006", 0)).unwrap();
    let stats = ph.dashboard_stats(d(2023, 11, 11));
    assert_eq!(stats.low_stock, 2);
}

#[test]
fn the_empty_store_has_empty_counters() {
    let ph = Pharmacy::new();
    let stats = ph.dashboard_stats(d(2023, 11, 11));
    assert_eq!(stats.due_today, 0);
    assert_eq!(stats.due_soon, 0);
    assert_eq!(stats.low_stock, 0);
}

#[test]
fn the_due_list_filters_by_class_and_sorts_by_date() {
    let mut ph = store();
    ph.fill_prescription(fill_on(1, 1, d(2023, 11, 1), 14)).unwrap(); // due 11-15
    ph.fill_prescription(fill_on(1, 2, d(2023, 11, 1), 12)).unwrap(); // due 11-13
    ph.fill_prescription(fill_on(1, 3, d(2023, 11, 1), 10)).unwrap(); // due 11-11
    let now = d(2023, 11, 11);
    let today = ph.due_list(DueFilter::Today, now);
    assert_eq!(today.len(), 1);
    assert_eq!(today[0].medication_id, 3);
    let soon = ph.due_list(DueFilter::Soon, now);
    assert_eq!(soon.len(), 2);
    assert_eq!(soon[0].next_refill_date, d(2023, 11, 13));
    assert_eq!(soon[1].next_refill_date, d(2023, 11, 15));
    assert_eq!(soon[0].patient_name, "Pat One");
    assert_eq!(soon[0].phone, "555-0100");
}

#[test]
fn upcoming_refills_keeps_the_four_earliest_dates() {
    let mut ph = store();
    ph.add_medication(medication_dto("Med D", "10000004", 500)).unwrap();
    ph.add_medication(medication_dto("Med E", "10000005", 500)).unwrap();
    ph.fill_prescription(fill_on(1, 1, d(2023, 11, 1), 50)).unwrap(); // due 12-21
    ph.fill_prescription(fill_on(1, 2, d(2023, 11, 1), 10)).unwrap(); // due 11-11
    ph.fill_prescription(fill_on(1, 3, d(2023, 11, 1), 30)).unwrap(); // due 12-01
    ph.fill_prescription(fill_on(1, 4, d(2023, 11, 1), 20)).unwrap(); // due 11-21
    ph.fill_prescription(fill_on(1, 5, d(2023, 11, 1), 40)).unwrap(); // due 12-11
    let upcoming = ph.upcoming_refills();
    assert_eq!(upcoming.len(), 4);
    assert_eq!(upcoming[0].next_refill_date, d(2023, 11, 11));
    assert_eq!(upcoming[1].next_refill_date, d(2023, 11, 21));
    assert_eq!(upcoming[2].next_refill_date, d(2023, 12, 1));
    assert_eq!(upcoming[3].next_refill_date, d(2023, 12, 11));
}

#[test]
fn upcoming_refills_spans_all_current_records_regardless_of_status() {
    let mut ph = store();
    ph.fill_prescription(fill_on(1, 1, d(2023, 11, 1), 90)).unwrap(); // far from due
    let upcoming = ph.upcoming_refills();
    assert_eq!(upcoming.len(), 1);
    assert_eq!(upcoming[0].next_refill_date, d(2024, 1, 30));
}
