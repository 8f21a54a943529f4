//! The time service: reports the current time.

use vstd::prelude::*;
use chrono::NaiveDateTime;
use crate::time::current_time;

verus! {

/// The time service's answer: one point in time, in UTC.
#[derive(Debug, Clone, Copy, PartialEq, Eq)]
pub struct ServiceCModel {
    pub key_time: NaiveDateTime,
}

/// The answer that reports `now`.
pub fn time_model(now: NaiveDateTime) -> (model: ServiceCModel)
    ensures
        model.key_time == now,
{
    ServiceCModel { key_time: now }
}

/// Answers a request to the time service with the clock's reading at the
/// moment of the call. Two calls may differ: the reading is not a function
/// of anything the caller passes.
pub fn handler() -> (model: ServiceCModel) {
    time_model(current_time())
}

} // verus!
