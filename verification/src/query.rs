//! The one optional query parameter that the services of the chain accept.

use vstd::prelude::*;
use vstd::string::*;

verus! {

/// Query of an inbound request: one optional text parameter.
#[derive(Debug, Clone, PartialEq, Eq)]
pub struct Prefix {
    pub p: Option<String>,
}

impl View for Prefix {
    type V = Option<Seq<char>>;

    open spec fn view(&self) -> Option<Seq<char>> {
        match self.p {
            Some(text) => Some(text@),
            None => None,
        }
    }
}

/// The value that stands in for a parameter that the request does not carry.
pub open spec fn default_param() -> Seq<char> {
    "Unknown"@
}

/// The effective value of the parameter: what the request carries, empty
/// text included, and the default only where it carries nothing.
pub open spec fn effective_param(param: Option<Seq<char>>) -> Seq<char> {
    match param {
        Some(text) => text,
        None => default_param(),
    }
}

/// Derives the effective parameter of a request. A present value passes
/// through unchanged, whatever it holds; an absent one becomes the default.
pub fn extract_param(query: &Prefix) -> (value: String)
    ensures
        value@ == effective_param(query@),
        query.p matches Some(text) ==> value@ == text@,
        query.p is None ==> value@ == "Unknown"@,
{
    match &query.p {
        Some(text) => text.clone(),
        None => String::from_str("Unknown"),
    }
}

} // verus!
