//! Due-date scheduling: when a current fill record comes due, and how it is
//! classified against a caller-supplied reference date.

use vstd::prelude::*;
use crate::date::{Date, date_le, date_valid, plus_days, spec_plus_days};

verus! {

/// Records whose next refill falls within this many days after the reference
/// date (exclusive of the date itself) count as due soon.
pub const SOON_HORIZON_DAYS: u32 = 7;

/// How a current record stands relative to a reference date. The classes are
/// mutually exclusive.
#[derive(Clone, Copy, PartialEq, Eq, Structural, Debug)]
pub enum DueStatus {
    /// The next refill date is on or before the reference date.
    DueToday,
    /// The next refill date is after the reference date but within the soon
    /// horizon.
    DueSoon,
    /// The next refill date is beyond the soon horizon.
    NotDue,
}

/// Classification of a next-refill date against a reference date `now`.
/// `next_refill == now` is due today, never due soon.
pub open spec fn spec_due_status(next_refill: Date, now: Date) -> DueStatus {
    if date_le(next_refill, now) {
        DueStatus::DueToday
    } else if date_le(next_refill, spec_plus_days(now, SOON_HORIZON_DAYS as nat)) {
        DueStatus::DueSoon
    } else {
        DueStatus::NotDue
    }
}

/// Computes the next refill date: the fill date advanced by the days-supply.
pub fn next_refill_date(date_filled: Date, days_supply: u32) -> (r: Date)
    requires
        date_valid(date_filled),
        date_filled.year + days_supply < u32::MAX,
    ensures
        r == spec_plus_days(date_filled, days_supply as nat),
        date_valid(r),
{
    plus_days(date_filled, days_supply)
}

/// Classifies a next-refill date against the reference date `now`.
pub fn classify(next_refill: Date, now: Date) -> (r: DueStatus)
    requires
        date_valid(now),
        now.year + SOON_HORIZON_DAYS < u32::MAX,
    ensures
        r == spec_due_status(next_refill, now),
{
    let horizon = plus_days(now, SOON_HORIZON_DAYS);
    if next_refill.le(&now) {
        DueStatus::DueToday
    } else if next_refill.le(&horizon) {
        DueStatus::DueSoon
    } else {
        DueStatus::NotDue
    }
}

/// A record whose next refill date equals the reference date is classified
/// due today — never due soon: the boundary belongs to the due-today class,
/// and the classes exclude each other.
pub proof fn lemma_boundary_is_due_today(next_refill: Date, now: Date)
    requires
        next_refill == now,
    ensures
        spec_due_status(next_refill, now) == DueStatus::DueToday,
        spec_due_status(next_refill, now) != DueStatus::DueSoon,
{
}

/// The due-today class is exactly `next_refill <= now`; due soon is exactly
/// the records past `now` but within the soon horizon. One record is never
/// in both classes.
pub proof fn lemma_classes_exclusive(next_refill: Date, now: Date)
    ensures
        (spec_due_status(next_refill, now) == DueStatus::DueToday) == date_le(next_refill, now),
        (spec_due_status(next_refill, now) == DueStatus::DueSoon) == (!date_le(next_refill, now)
            && date_le(next_refill, spec_plus_days(now, SOON_HORIZON_DAYS as nat))),
{
}

} // verus!
