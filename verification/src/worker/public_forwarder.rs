//! Which requests a local worker's public forwarder lets through to its
//! pRuntime, and which answers it passes back.

use vstd::prelude::*;
use crate::broker::query_forwarder::{ForwardDecision, STATUS_BAD_GATEWAY, STATUS_BAD_REQUEST, STATUS_NOT_FOUND, STATUS_OK};
use crate::worker::runtime::WorkerRuntimeStatus;

verus! {

/// State shared by the handlers of the public forwarder.
pub struct Shared {}

/// The pRuntime methods that may be called from outside: `GetInfo` and
/// `ContractQuery`.
pub open spec fn allowed_method(method: Seq<char>) -> bool {
    method == "GetInfo"@ || method == "ContractQuery"@
}

/// Whether `method` may be called from outside.
pub fn is_allowed_method(method: &str) -> (b: bool)
    ensures
        b == allowed_method(method@),
{
    let m = String::from_str(method);
    m == String::from_str("GetInfo") || m == String::from_str("ContractQuery")
}

/// `<prefix>/prpc/PhactoryAPI.<method>`
pub open spec fn pruntime_method_url(prefix: Seq<char>, method: Seq<char>) -> Seq<char> {
    prefix + "/prpc/PhactoryAPI."@ + method
}

/// What the public forwarder does with a call of `method`: a started
/// worker forwards an allowed method to its pRuntime under
/// `pruntime_rpc_prefix` and answers `404` to any other; a worker that is
/// not started answers `502`.
pub fn public_forward_decision(status: &WorkerRuntimeStatus, method: &str, pruntime_rpc_prefix: &str) -> (d: ForwardDecision)
    ensures
        *status is Started && allowed_method(method@) ==> (d matches ForwardDecision::Forward(u)
            && u@ == pruntime_method_url(pruntime_rpc_prefix@, method@)),
        *status is Started && !allowed_method(method@) ==> d == ForwardDecision::Reject(STATUS_NOT_FOUND),
        !(*status is Started) ==> d == ForwardDecision::Reject(STATUS_BAD_GATEWAY),
{
    match status {
        WorkerRuntimeStatus::Started => {
            if !is_allowed_method(method) {
                return ForwardDecision::Reject(STATUS_NOT_FOUND);
            }
            let mut url = String::from_str(pruntime_rpc_prefix);
            url.append("/prpc/PhactoryAPI.");
            url.append(method);
            ForwardDecision::Forward(url)
        },
        _ => ForwardDecision::Reject(STATUS_BAD_GATEWAY),
    }
}

/// Whether the body of a pRuntime answer with HTTP status `status` is
/// passed back (else an empty body is): always for `200`, for `400` only
/// when it decodes as a pRPC error, never otherwise. The status itself is
/// always passed back.
pub fn passes_response_body(status: u16, decodes_as_error: bool) -> (b: bool)
    ensures
        b == (status == STATUS_OK || (status == STATUS_BAD_REQUEST && decodes_as_error)),
{
    if status == STATUS_OK {
        true
    } else if status == STATUS_BAD_REQUEST {
        decodes_as_error
    } else {
        false
    }
}

/// How a forwarded call is answered, from the pRuntime's reply (its HTTP
/// status, and whether its body decodes as a pRPC error), or none when no
/// reply came: the reply's status, with its body passed back as
/// `passes_response_body` says; without a reply, `502` and an empty body.
/// The result is the status and whether the body is passed back.
pub fn forward_reply(reply: Option<(u16, bool)>) -> (r: (u16, bool))
    ensures
        r == match reply {
            Some((status, decodes)) => (
                status,
                status == STATUS_OK || (status == STATUS_BAD_REQUEST && decodes),
            ),
            None => (STATUS_BAD_GATEWAY, false),
        },
{
    match reply {
        Some((status, decodes)) => (status, passes_response_body(status, decodes)),
        None => (STATUS_BAD_GATEWAY, false),
    }
}

} // verus!
