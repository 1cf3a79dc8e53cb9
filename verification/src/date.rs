//! The calendar date that transactions, transfers and allocation runs carry.

use vstd::prelude::*;

verus! {

/// `chrono::NaiveDate`, a calendar date without a time zone. The ledger only
/// stores dates and hands them back, so nothing is claimed about what a date
/// holds: two dates are told apart by equality alone.
#[verifier::external_type_specification]
#[verifier::external_body]
pub struct ExNaiveDate(chrono::NaiveDate);

} // verus!
