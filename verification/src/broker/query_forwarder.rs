//! Where a broker sends a pRuntime query addressed to a local worker's
//! public key.

use vstd::prelude::*;
use crate::broker::local_worker::{
    after_keepalive, fresh_worker, has_key, index_of_key, keepalive_effect, lemma_with_worker_found, workers_wf,
    KnownLocalWorker, KnownLocalWorkerStatus, LocalWorkerMap, UnusableWorkerAddress,
};
use crate::mgmt_types::LocalWorkerIdentity;
use crate::text::{decimal, decimal_string};
use crate::thirdparty::url_host_port;

verus! {

/// HTTP status `404 Not Found`.
pub const STATUS_NOT_FOUND: u16 = 404;

/// HTTP status `502 Bad Gateway`.
pub const STATUS_BAD_GATEWAY: u16 = 502;

/// HTTP status `200 OK`.
pub const STATUS_OK: u16 = 200;

/// HTTP status `400 Bad Request`.
pub const STATUS_BAD_REQUEST: u16 = 400;

/// State shared by the handlers of the query forwarder.
pub struct Shared {}

/// What to do with an incoming request: forward it to a URL, or answer it
/// at once with an HTTP status and an empty body.
#[derive(Clone, Debug)]
pub enum ForwardDecision {
    Forward(String),
    Reject(u16),
}

/// `http://<hostname>:<forwarder_port>/<method>`
pub open spec fn worker_query_url(w: KnownLocalWorker, method: Seq<char>) -> Seq<char> {
    "http://"@ + w.hostname@ + ":"@ + decimal(w.forwarder_port as nat) + "/"@ + method
}

/// The decision for a query to the worker with public key `key`.
pub open spec fn query_decision(ws: Seq<KnownLocalWorker>, key: Seq<char>, method: Seq<char>, d: ForwardDecision) -> bool {
    if !has_key(ws, key) {
        d == ForwardDecision::Reject(STATUS_NOT_FOUND)
    } else {
        let w = ws[index_of_key(ws, key)];
        match w.status {
            KnownLocalWorkerStatus::Active => d matches ForwardDecision::Forward(url) && url@
                == worker_query_url(w, method),
            KnownLocalWorkerStatus::Lost => d == ForwardDecision::Reject(STATUS_BAD_GATEWAY),
            KnownLocalWorkerStatus::Dead => d == ForwardDecision::Reject(STATUS_NOT_FOUND),
        }
    }
}

/// Routes a query for `method` to the worker with public key
/// `pr_public_key`: an active worker gets it on its forwarder, a lost one
/// is answered `502`, a dead or unknown one `404`.
pub fn route_query(map: &LocalWorkerMap, pr_public_key: &str, method: &str) -> (d: ForwardDecision)
    requires
        map.wf(),
    ensures
        query_decision(map.workers@, pr_public_key@, method@, d),
{
    match map.find(pr_public_key) {
        None => ForwardDecision::Reject(STATUS_NOT_FOUND),
        Some(i) => {
            proof {
                assert(has_key(map.workers@, pr_public_key@));
                assert(index_of_key(map.workers@, pr_public_key@) == i as int);
            }
            let w = &map.workers[i];
            match w.status {
                KnownLocalWorkerStatus::Active => {
                    let mut url = String::from_str("http://");
                    url.append(w.hostname.as_str());
                    url.append(":");
                    let port = decimal_string(w.forwarder_port as u64);
                    url.append(port.as_str());
                    url.append("/");
                    url.append(method);
                    ForwardDecision::Forward(url)
                },
                KnownLocalWorkerStatus::Lost => ForwardDecision::Reject(STATUS_BAD_GATEWAY),
                KnownLocalWorkerStatus::Dead => ForwardDecision::Reject(STATUS_NOT_FOUND),
            }
        },
    }
}


/// The status a forwarded query is answered with: the status of the
/// worker's reply when one came, else `502 Bad Gateway`.
pub fn forwarded_status(reply_status: Option<u16>) -> (s: u16)
    ensures
        s == match reply_status {
            Some(x) => x,
            None => STATUS_BAD_GATEWAY,
        },
{
    match reply_status {
        Some(x) => x,
        None => STATUS_BAD_GATEWAY,
    }
}

/// With unique keys, the worker found under `k` is the one at any position
/// holding `k`.
proof fn lemma_index_of_key_unique(ws: Seq<KnownLocalWorker>, k: Seq<char>, i: int)
    requires
        workers_wf(ws),
        0 <= i < ws.len(),
        ws[i].public_key@ == k,
    ensures
        has_key(ws, k),
        index_of_key(ws, k) == i,
{
    assert(has_key(ws, k));
    let j = index_of_key(ws, k);
    if j != i {
        assert(ws[j].public_key@ != ws[i].public_key@);
    }
}

/// Once a broker has taken in a worker's keepalive, a query to that
/// worker's public key is forwarded to it.
pub proof fn law_query_forwarded_after_keepalive(
    ws: Seq<KnownLocalWorker>,
    ws2: Seq<KnownLocalWorker>,
    keys: Seq<String>,
    keys2: Seq<String>,
    lw: LocalWorkerIdentity,
    r: Result<(), UnusableWorkerAddress>,
    method: Seq<char>,
    d: ForwardDecision,
)
    requires
        workers_wf(ws),
        workers_wf(ws2),
        keepalive_effect(ws, ws2, keys, keys2, lw, r),
        r is Ok,
        query_decision(ws2, lw.public_key@, method, d),
    ensures
        d is Forward,
{
    let k = lw.public_key@;
    if has_key(ws, k) && ws[index_of_key(ws, k)].status != KnownLocalWorkerStatus::Dead {
        let j = index_of_key(ws, k);
        assert(ws2[j] == after_keepalive(ws[j], lw));
        lemma_index_of_key_unique(ws2, k, j);
    } else {
        let (host, port) = url_host_port(lw.address_string@);
        let fresh = fresh_worker(lw, ws2[index_of_key(ws2, k)].hostname, port->0);
        lemma_with_worker_found(ws, fresh);
    }
}

/// A query to a worker that the broker has marked lost is answered
/// `502 Bad Gateway`; to a dead or unknown one, `404 Not Found`.
pub proof fn law_unreachable_worker_refused(ws: Seq<KnownLocalWorker>, k: Seq<char>, method: Seq<char>, d: ForwardDecision)
    requires
        query_decision(ws, k, method, d),
    ensures
        !has_key(ws, k) ==> d == ForwardDecision::Reject(STATUS_NOT_FOUND),
        has_key(ws, k) && ws[index_of_key(ws, k)].status == KnownLocalWorkerStatus::Lost ==> d
            == ForwardDecision::Reject(STATUS_BAD_GATEWAY),
        has_key(ws, k) && ws[index_of_key(ws, k)].status == KnownLocalWorkerStatus::Dead ==> d
            == ForwardDecision::Reject(STATUS_NOT_FOUND),
{
}

/// A query to an active worker is forwarded to
/// `http://<hostname>:<forwarder_port>/<method>` on that worker, however
/// many health checks it has missed since its last keepalive; a query to
/// a lost worker is answered `502`, and one to a dead worker `404`.
pub proof fn law_query_routed_by_status(ws: Seq<KnownLocalWorker>, i: int, method: Seq<char>, d: ForwardDecision)
    requires
        workers_wf(ws),
        0 <= i < ws.len(),
        query_decision(ws, ws[i].public_key@, method, d),
    ensures
        ws[i].status == KnownLocalWorkerStatus::Active ==> (d matches ForwardDecision::Forward(url) && url@
            == "http://"@ + ws[i].hostname@ + ":"@ + decimal(ws[i].forwarder_port as nat) + "/"@ + method),
        ws[i].status == KnownLocalWorkerStatus::Lost ==> d == ForwardDecision::Reject(502),
        ws[i].status == KnownLocalWorkerStatus::Dead ==> d == ForwardDecision::Reject(404),
{
    lemma_index_of_key_unique(ws, ws[i].public_key@, i);
}

/// A query to a public key that no known worker holds is answered `404`.
pub proof fn law_unknown_key_not_found(ws: Seq<KnownLocalWorker>, k: Seq<char>, method: Seq<char>, d: ForwardDecision)
    requires
        forall|i: int| 0 <= i < ws.len() ==> (#[trigger] ws[i]).public_key@ != k,
        query_decision(ws, k, method, d),
    ensures
        d == ForwardDecision::Reject(404),
{
}

} // verus!
