//! The routes that tell whether the service is up.

use crate::errors::{Reply, STATUS_INTERNAL_SERVER_ERROR, STATUS_OK};
use vstd::prelude::*;

verus! {

/// The reply of a healthy service: a 200 without a body.
pub fn ping() -> (r: Reply<()>)
    ensures
        r.status == STATUS_OK,
{
    Reply { status: STATUS_OK, body: () }
}

/// What is handed on of the answer of a third party: its body under a 200
/// where it answered with success, and a 500 without a body where it did not
/// or could not be reached.
pub fn third_party_api(answer: Option<(bool, String)>) -> (r: Reply<Option<String>>)
    ensures
        match answer {
            Some((true, body)) => r.status == STATUS_OK && r.body == Some(body),
            _ => r.status == STATUS_INTERNAL_SERVER_ERROR && r.body is None,
        },
{
    match answer {
        Some((true, body)) => Reply { status: STATUS_OK, body: Some(body) },
        _ => Reply { status: STATUS_INTERNAL_SERVER_ERROR, body: None },
    }
}

} // verus!
