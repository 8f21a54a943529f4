//! The upstream client: what one outbound GET to a dependency asks for, and
//! how its outcome is classified.

use vstd::prelude::*;
use vstd::string::*;
use crate::encoding::{encoded, push_encoded};

verus! {

/// One parameter as it stands in a query string: name, `=`, value, both
/// percent-encoded.
pub open spec fn pair_text(param: (Seq<char>, Seq<char>)) -> Seq<char> {
    encoded(param.0) + seq!['='] + encoded(param.1)
}

/// The query string of a list of parameters: the pairs in order, with `&`
/// between one and the next.
pub open spec fn query_text(params: Seq<(Seq<char>, Seq<char>)>) -> Seq<char>
    decreases params.len(),
{
    if params.len() == 0 {
        Seq::empty()
    } else if params.len() == 1 {
        pair_text(params[0])
    } else {
        query_text(params.drop_last()) + seq!['&'] + pair_text(params.last())
    }
}

/// The URL of an outbound request: base URL, then path, then, where there
/// are parameters, `?` and their query string.
pub open spec fn url_text(
    base_url: Seq<char>,
    path: Seq<char>,
    params: Seq<(Seq<char>, Seq<char>)>,
) -> Seq<char> {
    if params.len() == 0 {
        base_url + path
    } else {
        base_url + path + seq!['?'] + query_text(params)
    }
}

/// Builds the URL of an outbound request. Base URL and path are taken as
/// they are; names and values of the parameters are percent-encoded.
pub fn request_url(base_url: &str, path: &str, params: &Vec<(String, String)>) -> (url: String)
    ensures
        url@ == url_text(base_url@, path@, params.deep_view()),
{
    let ghost all = params.deep_view();
    let mut url = String::from_str(base_url);
    url.append(path);
    let mut i: usize = 0;
    while i < params.len()
        invariant
            i <= params.len(),
            all == params.deep_view(),
            all.len() == params.len(),
            url@ == url_text(base_url@, path@, all.take(i as int)),
        decreases params.len() - i,
    {
        let ghost before = url@;
        if i == 0 {
            url.push('?');
        } else {
            url.push('&');
        }
        push_encoded(&mut url, params[i].0.as_str());
        url.push('=');
        push_encoded(&mut url, params[i].1.as_str());
        proof {
            let grown = all.take(i + 1);
            assert(grown.drop_last() =~= all.take(i as int));
            assert(grown.last() == (params[i as int].0@, params[i as int].1@));
            assert(url@ =~= before + seq![if i == 0 { '?' } else { '&' }] + pair_text(
                grown.last(),
            ));
            assert(url@ =~= url_text(base_url@, path@, grown));
        }
        i += 1;
    }
    assert(all.take(i as int) =~= all);
    url
}

/// Why a fetch gave no payload.
#[derive(Debug, Clone, Copy, PartialEq, Eq)]
pub enum FetchError {
    /// The transport failed: no response came back.
    Unreachable,
    /// The exchange completed with a status outside the 2xx range.
    UpstreamRejected(u16),
    /// The response had a 2xx status and a body that is not the payload.
    MalformedResponse,
}

/// Status of a response that carries a merged body.
pub const STATUS_OK: u16 = 200;

/// Status that reports a dependency's non-2xx answer or unusable body.
pub const STATUS_BAD_UPSTREAM: u16 = 400;

/// Status that reports a dependency that could not be reached.
pub const STATUS_TRANSPORT_ERROR: u16 = 502;

/// The statuses that count as success: 200 to 299.
pub open spec fn is_success(status: u16) -> bool {
    200 <= status < 300
}

/// What the status line alone decides: nothing yet for a 2xx status, and
/// the failure otherwise. `None` stands for an exchange that the transport
/// could not complete.
pub open spec fn head_outcome(status: Option<u16>) -> Result<(), FetchError> {
    match status {
        None => Err(FetchError::Unreachable),
        Some(code) => if is_success(code) {
            Ok(())
        } else {
            Err(FetchError::UpstreamRejected(code))
        },
    }
}

/// What the body decides once the status was 2xx. `None` stands for a body
/// that could not be read as the payload.
pub open spec fn body_outcome<P>(body: Option<P>) -> Result<P, FetchError> {
    match body {
        Some(payload) => Ok(payload),
        None => Err(FetchError::MalformedResponse),
    }
}

/// The outcome of a whole exchange. The three failures take precedence in
/// this order: no response, a non-2xx status, an unusable body. The body
/// counts only under a 2xx status.
pub open spec fn classify<P>(status: Option<u16>, body: Option<P>) -> Result<P, FetchError> {
    match head_outcome(status) {
        Err(error) => Err(error),
        Ok(_) => body_outcome(body),
    }
}

/// The status that answers the inbound request when a fetch has failed.
pub open spec fn failure_status(error: FetchError) -> u16 {
    match error {
        FetchError::Unreachable => STATUS_TRANSPORT_ERROR,
        FetchError::UpstreamRejected(_) => STATUS_BAD_UPSTREAM,
        FetchError::MalformedResponse => STATUS_BAD_UPSTREAM,
    }
}

/// Tells whether a status is in the 2xx range.
pub fn status_is_success(status: u16) -> (success: bool)
    ensures
        success == is_success(status),
{
    200 <= status && status < 300
}

/// Classifies the status line of an exchange, or its absence.
pub fn check_status(status: Option<u16>) -> (outcome: Result<(), FetchError>)
    ensures
        outcome == head_outcome(status),
        outcome is Ok <==> (status matches Some(code) && is_success(code)),
{
    match status {
        None => Err(FetchError::Unreachable),
        Some(code) => {
            if status_is_success(code) {
                Ok(())
            } else {
                Err(FetchError::UpstreamRejected(code))
            }
        },
    }
}

/// Classifies the decoded body of a 2xx response, or its absence.
pub fn check_body<P>(body: Option<P>) -> (outcome: Result<P, FetchError>)
    ensures
        outcome == body_outcome(body),
        outcome is Ok <==> body is Some,
{
    match body {
        Some(payload) => Ok(payload),
        None => Err(FetchError::MalformedResponse),
    }
}

/// Maps a failed fetch to the status of the response: the transport error
/// code for an unreachable dependency, and the same client-facing code for
/// a rejection and for a malformed body.
pub fn status_for(error: FetchError) -> (status: u16)
    ensures
        status == failure_status(error),
        status == STATUS_TRANSPORT_ERROR <==> error is Unreachable,
        status == STATUS_BAD_UPSTREAM <==> !(error is Unreachable),
{
    match error {
        FetchError::Unreachable => STATUS_TRANSPORT_ERROR,
        FetchError::UpstreamRejected(_) => STATUS_BAD_UPSTREAM,
        FetchError::MalformedResponse => STATUS_BAD_UPSTREAM,
    }
}

} // verus!
