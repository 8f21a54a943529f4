//! The health probe: a fixed answer with no dependency checks.

use vstd::prelude::*;
use vstd::string::*;

verus! {

/// Body of the health endpoint.
#[derive(Debug, Clone, PartialEq, Eq)]
pub struct HealthCheck {
    pub status: String,
}

/// The text that a running service reports as its status.
pub open spec fn healthy_text() -> Seq<char> {
    "Healthy"@
}

/// Answers the health probe: always the same status, whatever the state of
/// the dependencies.
pub fn health() -> (check: HealthCheck)
    ensures
        check.status@ == healthy_text(),
{
    HealthCheck { status: String::from_str("Healthy") }
}

} // verus!
