//! Points in time, as the `chrono` crate represents them.

use vstd::prelude::*;
use chrono::{NaiveDateTime, Utc};

verus! {

/// `chrono::NaiveDateTime`: a date and a time of day without a zone. The
/// library reads every such value as UTC and carries it through unopened.
#[verifier::external_type_specification]
#[verifier::external_body]
pub struct ExNaiveDateTime(NaiveDateTime);

/// Reads the clock through `chrono::Utc::now` and drops the zone, which is
/// UTC, with `DateTime::naive_utc`. Nothing is claimed of the value: it is
/// whatever the system clock says at the moment of the call. `chrono`
/// panics where that clock stands before the Unix epoch or beyond the
/// years it can represent.
#[verifier::external_body]
pub(crate) fn current_time() -> (now: NaiveDateTime) {
    Utc::now().naive_utc()
}

} // verus!
