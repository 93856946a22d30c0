//! The demonstration data set: a handful of patients, a stocked medication
//! catalog, and a short fill history, assembled into a fresh store.

use vstd::prelude::*;
use crate::date::Date;
use crate::model::{CreateMedicationDto, CreatePatientDto};
use crate::store::Pharmacy;

verus! {

fn seed_patient_dto(
    name: &str,
    birth_date: &str,
    phone: &str,
    email: &str,
    address: &str,
    city: &str,
    state: &str,
    postal_code: &str,
    health_card_num: &str,
    allergies: &str,
    insurance_provider: &str,
    insurance_id: &str,
) -> CreatePatientDto {
    CreatePatientDto {
        logged_in_user: "system".to_owned(),
        name: name.to_owned(),
        birth_date: birth_date.to_owned(),
        phone: phone.to_owned(),
        email: Some(email.to_owned()),
        address: address.to_owned(),
        city: city.to_owned(),
        state: state.to_owned(),
        postal_code: postal_code.to_owned(),
        health_card_num: health_card_num.to_owned(),
        allergies: Some(allergies.to_owned()),
        insurance_provider: Some(insurance_provider.to_owned()),
        insurance_id: Some(insurance_id.to_owned()),
    }
}

fn seed_medication_dto(
    name: &str,
    din: &str,
    ndc: &str,
    description: &str,
    stock: u32,
    price_cents: u64,
    expiration: &str,
) -> (r: CreateMedicationDto)
    ensures
        r.din@ == din@,
{
    CreateMedicationDto {
        logged_in_user: "system".to_owned(),
        name: name.to_owned(),
        din: din.to_owned(),
        ndc: Some(ndc.to_owned()),
        description: Some(description.to_owned()),
        stock,
        price_cents,
        expiration: expiration.to_owned(),
    }
}

/// A fresh store filled with the demonstration data: five patients, five
/// stocked medications, and four historical fill records. The history is
/// loaded as it stood — stock counts are the catalog's, not reduced by the
/// historical fills.
pub fn seeded_pharmacy() -> (ph: Pharmacy)
    ensures
        ph.wf(),
        ph.patients@.len() == 5,
        ph.medications@.len() == 5,
        ph.prescriptions@.len() == 4,
        ph.audit_logs@.len() == 0,
{
    let mut ph = Pharmacy::new();

    let _ = ph.add_patient(
        seed_patient_dto(
            "John Smith",
            "1985-04-12",
            "416-555-0199",
            "john.s@email.com",
            "123 Maple Dr",
            "Toronto",
            "ON",
            "M5V 2T6",
            "123-456-789-AB",
            "Penicillin",
            "SunLife",
            "SL-998877",
        ),
    );
    let _ = ph.add_patient(
        seed_patient_dto(
            "Sarah Conner",
            "1992-08-23",
            "604-555-0122",
            "s.conner@skynet.net",
            "4500 Robson St",
            "Vancouver",
            "BC",
            "V6B 3K9",
            "987-654-321-CC",
            "Peanuts, Latex",
            "Manulife",
            "MN-112233",
        ),
    );
    let _ = ph.add_patient(
        seed_patient_dto(
            "Arthur Dent",
            "1978-02-11",
            "905-555-4242",
            "arthur@hitchhiker.com",
            "155 Country Ln",
            "Mississauga",
            "ON",
            "L5B 2C9",
            "424-242-424-ZZ",
            "None",
            "None",
            "None",
        ),
    );
    let _ = ph.add_patient(
        seed_patient_dto(
            "Wayne Campbell",
            "1990-01-01",
            "630-555-1010",
            "wayne@aurora.com",
            "101 Stan Mikita Way",
            "Aurora",
            "IL",
            "60506",
            "101-010-101-WW",
            "Advil",
            "BlueCross",
            "BC-555111",
        ),
    );
    let _ = ph.add_patient(
        seed_patient_dto(
            "Geralt Rivera",
            "1955-11-30",
            "212-555-1980",
            "geralt@news.com",
            "55 West St",
            "New York",
            "NY",
            "10001",
            "555-999-000-XX",
            "Sulfa Drugs",
            "Aetna",
            "AE-334455",
        ),
    );

    proof {
        reveal_strlit("02238888");
        reveal_strlit("02245555");
        reveal_strlit("02111222");
        reveal_strlit("02333444");
        reveal_strlit("02444555");
        assert(("02238888"@)[3] != ("02245555"@)[3]);
        assert(("02238888"@)[2] != ("02111222"@)[2]);
        assert(("02238888"@)[2] != ("02333444"@)[2]);
        assert(("02238888"@)[2] != ("02444555"@)[2]);
        assert(("02245555"@)[2] != ("02111222"@)[2]);
        assert(("02245555"@)[2] != ("02333444"@)[2]);
        assert(("02245555"@)[2] != ("02444555"@)[2]);
        assert(("02111222"@)[2] != ("02333444"@)[2]);
        assert(("02111222"@)[2] != ("02444555"@)[2]);
        assert(("02333444"@)[2] != ("02444555"@)[2]);
    }
    let d1 = seed_medication_dto(
        "Amoxicillin 500mg",
        "02238888",
        "00000-111-22",
        "Shelf A1",
        500,
        1299,
        "2025-12-31",
    );
    let ghost din1: Seq<char> = d1.din@;
    let m1 = ph.add_medication(d1);
    proof {
        assert(m1 is Some);
        assert(ph.medications@[0].din@ == din1);
    }
    let d2 = seed_medication_dto(
        "Atorvastatin 20mg",
        "02245555",
        "55555-333-44",
        "Shelf B3",
        200,
        4550,
        "2026-06-15",
    );
    let ghost din2: Seq<char> = d2.din@;
    let m2 = ph.add_medication(d2);
    proof {
        assert(m2 is Some);
        assert(ph.medications@[0].din@ == din1);
        assert(ph.medications@[1].din@ == din2);
    }
    let d3 = seed_medication_dto(
        "Metformin 500mg",
        "02111222",
        "12345-678-90",
        "Shelf A2",
        1000,
        825,
        "2024-11-30",
    );
    let ghost din3: Seq<char> = d3.din@;
    let m3 = ph.add_medication(d3);
    proof {
        assert(m3 is Some);
        assert(ph.medications@[0].din@ == din1);
        assert(ph.medications@[1].din@ == din2);
        assert(ph.medications@[2].din@ == din3);
    }
    let d4 = seed_medication_dto(
        "Lisinopril 10mg",
        "02333444",
        "98765-432-10",
        "Shelf C1",
        30,
        1500,
        "2023-10-01",
    );
    let ghost din4: Seq<char> = d4.din@;
    let m4 = ph.add_medication(d4);
    proof {
        assert(m4 is Some);
        assert(ph.medications@[0].din@ == din1);
        assert(ph.medications@[1].din@ == din2);
        assert(ph.medications@[2].din@ == din3);
        assert(ph.medications@[3].din@ == din4);
    }
    let d5 = seed_medication_dto(
        "Escitalopram 10mg",
        "02444555",
        "11223-344-55",
        "Shelf B2",
        150,
        2275,
        "2025-05-20",
    );
    let m5 = ph.add_medication(d5);
    proof {
        assert(m5 is Some);
    }

    let _ = ph.import_record(
        1,
        1,
        "Dr. Hibbert".to_owned(),
        "Take 1 capsule TID for 10 days".to_owned(),
        30,
        0,
        10,
        Date { year: 2023, month: 11, day: 1 },
    );
    let _ = ph.import_record(
        2,
        2,
        "Dr. Nick".to_owned(),
        "Take 1 tablet daily at bedtime".to_owned(),
        90,
        3,
        90,
        Date { year: 2023, month: 10, day: 15 },
    );
    let _ = ph.import_record(
        4,
        4,
        "Dr. House".to_owned(),
        "Take 1 tablet daily".to_owned(),
        30,
        1,
        30,
        Date { year: 2023, month: 11, day: 20 },
    );
    let _ = ph.import_record(
        3,
        5,
        "Dr. McCoy".to_owned(),
        "Take 1 tablet daily".to_owned(),
        30,
        2,
        30,
        Date { year: 2023, month: 11, day: 10 },
    );

    ph
}

} // verus!
