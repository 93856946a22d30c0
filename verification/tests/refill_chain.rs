//! Refill-chain resolution over the append-only record set.

use pharmacy_core::{check_pair_ids_monotonic, current_records, Date, Prescription};

fn record(id: u64, patient_id: u64, medication_id: u64) -> Prescription {
    Prescription {
        id,
        patient_id,
        medication_id,
        patient_name: String::from("pat"),
        medication_name: String::from("med"),
        prescriber: String::from("dr"),
        sig: String::from("sig"),
        quantity: 30,
        refills: 1,
        days_supply: 30,
        date_filled: Date { year: 2023, month: 11, day: 1 },
        next_refill_date: Date { year: 2023, month: 12, day: 1 },
    }
}

#[test]
fn later_identity_wins_within_a_pair() {
    let recs = vec![record(10, 3, 5), record(17, 3, 5)];
    assert!(check_pair_ids_monotonic(&recs));
    let current = current_records(&recs);
    assert_eq!(current.len(), 1);
    assert_eq!(current[0].id, 17);
}

#[test]
fn a_single_record_is_trivially_current() {
    let recs = vec![record(1, 1, 1)];
    let current = current_records(&recs);
    assert_eq!(current.len(), 1);
    assert_eq!(current[0].id, 1);
}

#[test]
fn one_current_record_per_pair() {
    let recs = vec![
        record(1, 1, 1),
        record(2, 2, 2),
        record(3, 1, 1),
        record(4, 2, 2),
        record(5, 1, 2),
    ];
    assert!(check_pair_ids_monotonic(&recs));
    let current = current_records(&recs);
    let ids: Vec<u64> = current.iter().map(|r| r.id).collect();
    assert_eq!(ids, vec![3, 4, 5]);
}

#[test]
fn no_records_means_no_current_state() {
    let recs: Vec<Prescription> = Vec::new();
    let current = current_records(&recs);
    assert_eq!(current.len(), 0);
}

#[test]
fn out_of_order_identities_fail_the_append_check() {
    let recs = vec![record(17, 3, 5), record(10, 3, 5)];
    assert!(!check_pair_ids_monotonic(&recs));
    let other_pairs = vec![record(9, 1, 1), record(4, 2, 2)];
    assert!(check_pair_ids_monotonic(&other_pairs));
}
