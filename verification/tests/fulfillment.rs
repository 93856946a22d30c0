//! The fulfillment transaction: all-or-nothing stock deduction tied to
//! record insertion.

use pharmacy_core::{
    CreateMedicationDto, CreatePatientDto, CreatePrescriptionDto, Date, FulfillmentError,
    Pharmacy, UpdateMedicationDto,
};

fn patient_dto(name: &str) -> CreatePatientDto {
    CreatePatientDto {
        logged_in_user: String::from("tester"),
        name: String::from(name),
        birth_date: String::from("1990-01-01"),
        phone: String::from("555-0100"),
        email: None,
        address: String::from("1 Main St"),
        city: String::from("Town"),
        state: String::from("ON"),
        postal_code: String::from("A1A 1A1"),
        health_card_num: String::from("000-000"),
        allergies: None,
        insurance_provider: None,
        insurance_id: None,
    }
}

fn medication_dto(name: &str, din: &str, stock: u32) -> CreateMedicationDto {
    CreateMedicationDto {
        logged_in_user: String::from("tester"),
        name: String::from(name),
        din: String::from(din),
        ndc: None,
        description: None,
        stock,
        price_cents: 1000,
        expiration: String::from("2026-01-01"),
    }
}

fn fill_dto(patient_id: u64, medication_id: u64, quantity: u32, days_supply: u32) -> CreatePrescriptionDto {
    CreatePrescriptionDto {
        logged_in_user: String::from("tester"),
        patient_id,
        medication_id,
        prescriber: String::from("Dr. Demo"),
        sig: String::from("Take as directed"),
        quantity,
        refills: 0,
        days_supply,
        date_filled: Date { year: 2023, month: 11, day: 1 },
    }
}

fn small_store(stock: u32) -> Pharmacy {
    let mut ph = Pharmacy::new();
    ph.add_patient(patient_dto("Pat One"));
    ph.add_medication(medication_dto("Drugol 10mg", "11110000", stock)).unwrap();
    ph
}

#[test]
fn a_successful_fill_decrements_stock_and_appends_one_record() {
    let mut ph = small_store(100);
    let stock_before = ph.medications[0].stock;
    let count_before = ph.prescriptions.len();
    let id = ph.fill_prescription(fill_dto(1, 1, 30, 10)).unwrap();
    assert_eq!(id, 1);
    assert_eq!(ph.medications[0].stock, stock_before - 30);
    assert_eq!(ph.prescriptions.len(), count_before + 1);
    let rec = &ph.prescriptions[0];
    assert_eq!(rec.id, 1);
    assert_eq!(rec.patient_id, 1);
    assert_eq!(rec.medication_id, 1);
    assert_eq!(rec.quantity, 30);
    assert_eq!(rec.date_filled, Date { year: 2023, month: 11, day: 1 });
    assert_eq!(rec.next_refill_date, Date { year: 2023, month: 11, day: 11 });
    assert_eq!(rec.patient_name, "Pat One");
    assert_eq!(rec.medication_name, "Drugol 10mg");
}

#[test]
fn insufficient_stock_leaves_the_store_untouched() {
    let mut ph = small_store(10);
    let r = ph.fill_prescription(fill_dto(1, 1, 11, 10));
    assert_eq!(r, Err(FulfillmentError::InsufficientStock));
    assert_eq!(ph.medications[0].stock, 10);
    assert_eq!(ph.prescriptions.len(), 0);
    assert_eq!(ph.audit_logs.len(), 0);
}

#[test]
fn exact_stock_fills_to_zero_and_the_next_fill_is_refused() {
    let mut ph = small_store(30);
    let r1 = ph.fill_prescription(fill_dto(1, 1, 30, 10));
    assert!(r1.is_ok());
    assert_eq!(ph.medications[0].stock, 0);
    let r2 = ph.fill_prescription(fill_dto(1, 1, 1, 10));
    assert_eq!(r2, Err(FulfillmentError::InsufficientStock));
    assert_eq!(ph.medications[0].stock, 0);
    assert_eq!(ph.prescriptions.len(), 1);
}

#[test]
fn unknown_medication_is_not_found_with_no_side_effects() {
    let mut ph = small_store(50);
    let r = ph.fill_prescription(fill_dto(1, 2, 5, 10));
    assert_eq!(r, Err(FulfillmentError::NotFound));
    assert_eq!(ph.medications[0].stock, 50);
    assert_eq!(ph.prescriptions.len(), 0);
}

#[test]
fn unknown_patient_is_not_found_with_no_side_effects() {
    let mut ph = small_store(50);
    let r = ph.fill_prescription(fill_dto(7, 1, 5, 10));
    assert_eq!(r, Err(FulfillmentError::NotFound));
    assert_eq!(ph.medications[0].stock, 50);
    assert_eq!(ph.prescriptions.len(), 0);
}

#[test]
fn refills_append_new_records_with_growing_identities() {
    let mut ph = small_store(100);
    let id1 = ph.fill_prescription(fill_dto(1, 1, 10, 10)).unwrap();
    let id2 = ph.fill_prescription(fill_dto(1, 1, 10, 10)).unwrap();
    assert_eq!(id1, 1);
    assert_eq!(id2, 2);
    assert_eq!(ph.prescriptions.len(), 2);
    assert_eq!(ph.medications[0].stock, 80);
}

#[test]
fn updating_a_medication_replaces_stock_price_and_description() {
    let mut ph = small_store(50);
    let old_stock = ph
        .update_medication(UpdateMedicationDto {
            logged_in_user: String::from("tester"),
            id: 1,
            stock: 75,
            price_cents: 2500,
            description: Some(String::from("Shelf Z9")),
        })
        .unwrap();
    assert_eq!(old_stock, 50);
    assert_eq!(ph.medications[0].stock, 75);
    assert_eq!(ph.medications[0].price_cents, 2500);
    assert_eq!(ph.medications[0].description, Some(String::from("Shelf Z9")));
    assert_eq!(ph.medications[0].name, "Drugol 10mg");
}

#[test]
fn updating_an_unknown_medication_is_not_found() {
    let mut ph = small_store(50);
    let r = ph.update_medication(UpdateMedicationDto {
        logged_in_user: String::from("tester"),
        id: 9,
        stock: 1,
        price_cents: 1,
        description: None,
    });
    assert_eq!(r, Err(FulfillmentError::NotFound));
    assert_eq!(ph.medications[0].stock, 50);
}

#[test]
fn a_duplicate_catalog_code_is_refused() {
    let mut ph = small_store(50);
    let r = ph.add_medication(medication_dto("Other 5mg", "11110000", 10));
    assert!(r.is_none());
    assert_eq!(ph.medications.len(), 1);
    let r2 = ph.add_medication(medication_dto("Other 5mg", "22220000", 10));
    assert_eq!(r2, Some(2));
    assert_eq!(ph.medications.len(), 2);
}
