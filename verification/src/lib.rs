//! Verified core of a three-service HTTP chain: an edge service that asks a
//! data service and a time service in turn and merges their answers.

pub mod encoding;
pub mod health;
pub mod query;
pub mod run;
pub mod service_a;
pub mod service_b;
pub mod service_c;
pub mod time;
pub mod upstream;
