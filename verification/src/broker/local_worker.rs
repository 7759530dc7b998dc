//! The local workers a broker knows from their keepalives, held in
//! ascending order of public key, and their health: a worker that misses
//! keepalives is first marked lost, then dead.

use vstd::prelude::*;
use crate::config::{BROKER_PEER_DEAD_COUNT, BROKER_PEER_LOST_COUNT};
use crate::mgmt_types::LocalWorkerIdentity;
use crate::text::{
    lemma_lex_lt_irreflexive, lemma_lex_lt_total, lemma_lex_lt_transitive, lex_lt, str_lt, string_views,
    u16_text_value,
};
use crate::thirdparty::{http_url, url_host, url_host_and_port, url_host_port};

verus! {

/// The health of a local worker as its broker sees it.
#[derive(Clone, Copy, Debug, PartialEq, Eq, Structural)]
pub enum KnownLocalWorkerStatus {
    Active,
    Lost,
    Dead,
}

/// A local worker known to a broker.
#[derive(Clone, Debug)]
pub struct KnownLocalWorker {
    pub status: KnownLocalWorkerStatus,
    pub hostname: String,
    pub forwarder_port: u16,
    pub address_string: String,
    pub public_port: u16,
    pub public_key: String,
    pub instance_name: String,
    pub instance_id: String,
    pub lost_count: u8,
    pub lost_mark: bool,
}

/// The messages a broker's local worker manager handles.
#[derive(Clone, Debug)]
pub enum LocalWorkerManagerChannelMessage {
    ShouldCheckPeerHealth,
    ReceivedKeepAlive(LocalWorkerIdentity),
}

/// A keepalive whose address has no host name or no port.
#[derive(Clone, Copy, Debug, PartialEq, Eq, Structural)]
pub struct UnusableWorkerAddress;

/// The bookkeeping of a worker's missed health checks is consistent with
/// its status: it is marked exactly when it has missed a check; an active
/// worker has missed at most `BROKER_PEER_LOST_COUNT + 1` checks, a lost one
/// from `BROKER_PEER_LOST_COUNT + 2` to `BROKER_PEER_DEAD_COUNT + 1`, and a
/// dead one exactly `BROKER_PEER_DEAD_COUNT + 2`.
pub open spec fn health_wf(w: KnownLocalWorker) -> bool {
    &&& w.lost_mark == (w.lost_count > 0)
    &&& match w.status {
        KnownLocalWorkerStatus::Active => w.lost_count <= BROKER_PEER_LOST_COUNT + 1,
        KnownLocalWorkerStatus::Lost => BROKER_PEER_LOST_COUNT + 2 <= w.lost_count
            <= BROKER_PEER_DEAD_COUNT + 1,
        KnownLocalWorkerStatus::Dead => w.lost_count == BROKER_PEER_DEAD_COUNT + 2,
    }
}

/// One health check of a worker: an active worker that has been marked and
/// has missed more than `BROKER_PEER_LOST_COUNT` checks becomes lost, a lost
/// worker that has missed more than `BROKER_PEER_DEAD_COUNT` becomes dead;
/// both count the check as missed. A dead worker is left alone.
pub open spec fn health_step(w: KnownLocalWorker) -> KnownLocalWorker {
    match w.status {
        KnownLocalWorkerStatus::Active => KnownLocalWorker {
            status: if w.lost_mark && w.lost_count > BROKER_PEER_LOST_COUNT {
                KnownLocalWorkerStatus::Lost
            } else {
                KnownLocalWorkerStatus::Active
            },
            lost_mark: true,
            lost_count: (w.lost_count + 1) as u8,
            ..w
        },
        KnownLocalWorkerStatus::Lost => KnownLocalWorker {
            status: if w.lost_count > BROKER_PEER_DEAD_COUNT {
                KnownLocalWorkerStatus::Dead
            } else {
                KnownLocalWorkerStatus::Lost
            },
            lost_mark: true,
            lost_count: (w.lost_count + 1) as u8,
            ..w
        },
        KnownLocalWorkerStatus::Dead => w,
    }
}

/// `n` health checks in a row.
pub open spec fn health_steps(w: KnownLocalWorker, n: nat) -> KnownLocalWorker
    decreases n,
{
    if n == 0 {
        w
    } else {
        health_step(health_steps(w, (n - 1) as nat))
    }
}

/// What a keepalive does to a known, not dead, worker: it takes the new
/// instance id, and the worker is active again with no missed check. The
/// address and public key stay as they were.
pub open spec fn after_keepalive(w: KnownLocalWorker, lw: LocalWorkerIdentity) -> KnownLocalWorker {
    let w1 = KnownLocalWorker { instance_id: lw.instance_id, ..w };
    match w.status {
        KnownLocalWorkerStatus::Active => KnownLocalWorker { lost_mark: false, lost_count: 0, ..w1 },
        KnownLocalWorkerStatus::Lost => KnownLocalWorker {
            status: KnownLocalWorkerStatus::Active,
            lost_count: 0,
            lost_mark: false,
            ..w1
        },
        KnownLocalWorkerStatus::Dead => w1,
    }
}

/// A worker first heard of: active, reached at `hostname:forwarder_port`.
pub open spec fn fresh_worker(lw: LocalWorkerIdentity, hostname: String, forwarder_port: u16) -> KnownLocalWorker {
    KnownLocalWorker {
        status: KnownLocalWorkerStatus::Active,
        hostname,
        forwarder_port,
        instance_name: lw.instance_name,
        instance_id: lw.instance_id,
        address_string: lw.address_string,
        public_key: lw.public_key,
        public_port: lw.public_port,
        lost_count: 0,
        lost_mark: false,
    }
}

/// The public keys of the workers that are not dead, in order.
pub open spec fn live_keys(ws: Seq<KnownLocalWorker>) -> Seq<Seq<char>>
    decreases ws.len(),
{
    if ws.len() == 0 {
        Seq::<Seq<char>>::empty()
    } else if ws.last().status == KnownLocalWorkerStatus::Dead {
        live_keys(ws.drop_last())
    } else {
        live_keys(ws.drop_last()).push(ws.last().public_key@)
    }
}

/// How many of `keys` are `k`.
pub open spec fn occurrences(keys: Seq<String>, k: Seq<char>) -> nat
    decreases keys.len(),
{
    if keys.len() == 0 {
        0
    } else {
        occurrences(keys.drop_last(), k) + if keys.last()@ == k {
            1nat
        } else {
            0nat
        }
    }
}

/// The workers are in strictly ascending order of public key.
pub open spec fn keys_ascending(ws: Seq<KnownLocalWorker>) -> bool {
    forall|i: int, j: int|
        0 <= i < j < ws.len() ==> lex_lt(#[trigger] ws[i].public_key@, #[trigger] ws[j].public_key@)
}

/// The keys are in strictly ascending order.
pub open spec fn ascending(keys: Seq<Seq<char>>) -> bool {
    forall|i: int, j: int| 0 <= i < j < keys.len() ==> lex_lt(#[trigger] keys[i], #[trigger] keys[j])
}

/// Where a worker with public key `k` goes among `ws`: before the first
/// worker whose key does not precede `k`.
pub open spec fn insertion_index(ws: Seq<KnownLocalWorker>, k: Seq<char>) -> int
    decreases ws.len(),
{
    if ws.len() == 0 || !lex_lt(ws[0].public_key@, k) {
        0
    } else {
        1 + insertion_index(ws.drop_first(), k)
    }
}

/// How many of `keys` are `k`.
pub open spec fn count_of(keys: Seq<Seq<char>>, k: Seq<char>) -> nat
    decreases keys.len(),
{
    if keys.len() == 0 {
        0
    } else {
        count_of(keys.drop_last(), k) + if keys.last() == k {
            1nat
        } else {
            0nat
        }
    }
}

/// Whether a worker that is not dead has public key `k`.
pub open spec fn live_has_key(ws: Seq<KnownLocalWorker>, k: Seq<char>) -> bool {
    exists|i: int|
        0 <= i < ws.len() && #[trigger] ws[i].public_key@ == k && ws[i].status
            != KnownLocalWorkerStatus::Dead
}

/// The key list that a broker's health checks go by names every worker
/// that is not dead exactly once.
pub open spec fn keys_cover(ws: Seq<KnownLocalWorker>, keys: Seq<String>) -> bool {
    forall|i: int|
        0 <= i < ws.len() && ws[i].status != KnownLocalWorkerStatus::Dead ==> occurrences(
            keys,
            #[trigger] ws[i].public_key@,
        ) == 1
}

/// Whether some worker has public key `k`.
pub open spec fn has_key(ws: Seq<KnownLocalWorker>, k: Seq<char>) -> bool {
    exists|i: int| 0 <= i < ws.len() && #[trigger] ws[i].public_key@ == k
}

/// The position of the worker with public key `k`.
pub open spec fn index_of_key(ws: Seq<KnownLocalWorker>, k: Seq<char>) -> int {
    choose|i: int| 0 <= i < ws.len() && #[trigger] ws[i].public_key@ == k
}

/// `ws` with `w` in place of the worker with the same public key, or with
/// `w` added in its place in the order of public keys if there is none.
pub open spec fn with_worker(ws: Seq<KnownLocalWorker>, w: KnownLocalWorker) -> Seq<KnownLocalWorker> {
    if has_key(ws, w.public_key@) {
        ws.update(index_of_key(ws, w.public_key@), w)
    } else {
        ws.insert(insertion_index(ws, w.public_key@), w)
    }
}

/// The health bookkeeping stays consistent through a health check.
pub proof fn lemma_health_step_wf(w: KnownLocalWorker)
    requires
        health_wf(w),
    ensures
        health_wf(health_step(w)),
        health_step(w).public_key == w.public_key,
{
}

/// The health bookkeeping stays consistent through any number of checks,
/// and the worker keeps its public key.
pub proof fn lemma_health_steps_wf(w: KnownLocalWorker, n: nat)
    requires
        health_wf(w),
    ensures
        health_wf(health_steps(w, n)),
        health_steps(w, n).public_key == w.public_key,
    decreases n,
{
    if n > 0 {
        lemma_health_steps_wf(w, (n - 1) as nat);
        lemma_health_step_wf(health_steps(w, (n - 1) as nat));
    }
}

/// The position `p` before which every key precedes `k`, and at which
/// (if anywhere) a key does not, is where a worker with key `k` goes.
proof fn lemma_insertion_index(ws: Seq<KnownLocalWorker>, k: Seq<char>, p: int)
    requires
        0 <= p <= ws.len(),
        forall|j: int| 0 <= j < p ==> lex_lt(#[trigger] ws[j].public_key@, k),
        p < ws.len() ==> !lex_lt(ws[p].public_key@, k),
    ensures
        insertion_index(ws, k) == p,
    decreases p,
{
    if p > 0 {
        let t = ws.drop_first();
        assert(lex_lt(ws[0].public_key@, k));
        assert forall|j: int| 0 <= j < p - 1 implies lex_lt(#[trigger] t[j].public_key@, k) by {
            assert(t[j] == ws[j + 1]);
        }
        if p < ws.len() {
            assert(t[p - 1] == ws[p]);
        }
        lemma_insertion_index(t, k, p - 1);
    }
}

/// A worker with key `k` goes somewhere from the front to the back.
proof fn lemma_insertion_index_bounds(ws: Seq<KnownLocalWorker>, k: Seq<char>)
    ensures
        0 <= insertion_index(ws, k) <= ws.len(),
    decreases ws.len(),
{
    if ws.len() > 0 {
        lemma_insertion_index_bounds(ws.drop_first(), k);
    }
}

/// After `with_worker`, the worker found under the new worker's key is the
/// new worker.
pub proof fn lemma_with_worker_found(ws: Seq<KnownLocalWorker>, w: KnownLocalWorker)
    requires
        workers_wf(with_worker(ws, w)),
    ensures
        has_key(with_worker(ws, w), w.public_key@),
        with_worker(ws, w)[index_of_key(with_worker(ws, w), w.public_key@)] == w,
{
    let k = w.public_key@;
    let r = with_worker(ws, w);
    let q = if has_key(ws, k) {
        index_of_key(ws, k)
    } else {
        insertion_index(ws, k)
    };
    if !has_key(ws, k) {
        lemma_insertion_index_bounds(ws, k);
        ws.insert_ensures(q, w);
    }
    assert(r[q] == w);
    assert(has_key(r, k));
    let j = index_of_key(r, k);
    if j != q {
        assert(r[j].public_key@ != r[q].public_key@);
    }
}

/// Every key listed by `live_keys` is the key of a worker that is not dead.
proof fn lemma_live_keys_members(ws: Seq<KnownLocalWorker>)
    ensures
        forall|i: int|
            0 <= i < live_keys(ws).len() ==> exists|j: int|
                0 <= j < ws.len() && #[trigger] ws[j].public_key@ == #[trigger] live_keys(ws)[i]
                    && ws[j].status != KnownLocalWorkerStatus::Dead,
    decreases ws.len(),
{
    if ws.len() > 0 {
        let init = ws.drop_last();
        lemma_live_keys_members(init);
        assert forall|i: int| 0 <= i < live_keys(ws).len() implies exists|j: int|
            0 <= j < ws.len() && #[trigger] ws[j].public_key@ == #[trigger] live_keys(ws)[i]
                && ws[j].status != KnownLocalWorkerStatus::Dead by {
            if i < live_keys(init).len() {
                assert(live_keys(ws)[i] == live_keys(init)[i]);
                let j = choose|j: int|
                    0 <= j < init.len() && #[trigger] init[j].public_key@ == #[trigger] live_keys(init)[i]
                        && init[j].status != KnownLocalWorkerStatus::Dead;
                assert(ws[j] == init[j]);
            } else {
                assert(ws[ws.len() - 1].public_key@ == live_keys(ws)[i]);
            }
        }
    }
}

/// Workers in ascending order of public key give their live keys in
/// ascending order.
pub proof fn lemma_live_keys_ascending(ws: Seq<KnownLocalWorker>)
    requires
        keys_ascending(ws),
    ensures
        ascending(live_keys(ws)),
    decreases ws.len(),
{
    if ws.len() > 0 {
        let init = ws.drop_last();
        assert forall|i: int, j: int| 0 <= i < j < init.len() implies lex_lt(
            #[trigger] init[i].public_key@,
            #[trigger] init[j].public_key@,
        ) by {
            assert(init[i] == ws[i] && init[j] == ws[j]);
        }
        lemma_live_keys_ascending(init);
        lemma_live_keys_members(init);
        let l = live_keys(init);
        if ws.last().status != KnownLocalWorkerStatus::Dead {
            let lk = live_keys(ws);
            assert forall|i: int, j: int| 0 <= i < j < lk.len() implies lex_lt(
                #[trigger] lk[i],
                #[trigger] lk[j],
            ) by {
                if j < l.len() {
                    assert(lk[i] == l[i] && lk[j] == l[j]);
                } else {
                    assert(lk[i] == l[i]);
                    let a = choose|a: int|
                        0 <= a < init.len() && #[trigger] init[a].public_key@ == #[trigger] l[i]
                            && init[a].status != KnownLocalWorkerStatus::Dead;
                    assert(ws[a] == init[a]);
                    assert(lex_lt(ws[a].public_key@, ws[ws.len() - 1].public_key@));
                }
            }
        }
    }
}

/// With unique keys, a key occurs in `live_keys` once if a worker that is
/// not dead holds it, and not at all otherwise.
proof fn lemma_live_keys_count(ws: Seq<KnownLocalWorker>, k: Seq<char>)
    requires
        forall|i: int, j: int|
            0 <= i < ws.len() && 0 <= j < ws.len() && i != j ==> #[trigger] ws[i].public_key@
                != #[trigger] ws[j].public_key@,
    ensures
        count_of(live_keys(ws), k) == if live_has_key(ws, k) {
            1nat
        } else {
            0nat
        },
    decreases ws.len(),
{
    if ws.len() > 0 {
        let init = ws.drop_last();
        let n = ws.len() - 1;
        assert forall|i: int, j: int|
            0 <= i < init.len() && 0 <= j < init.len() && i != j implies #[trigger] init[i].public_key@
            != #[trigger] init[j].public_key@ by {
            assert(init[i] == ws[i] && init[j] == ws[j]);
        }
        lemma_live_keys_count(init, k);
        if live_has_key(init, k) {
            let a = choose|a: int|
                0 <= a < init.len() && #[trigger] init[a].public_key@ == k && init[a].status
                    != KnownLocalWorkerStatus::Dead;
            assert(ws[a] == init[a]);
            assert(live_has_key(ws, k));
        }
        if live_has_key(ws, k) {
            let a = choose|a: int|
                0 <= a < ws.len() && #[trigger] ws[a].public_key@ == k && ws[a].status
                    != KnownLocalWorkerStatus::Dead;
            if a < n {
                assert(init[a] == ws[a]);
                assert(live_has_key(init, k));
            }
        }
        if ws.last().status != KnownLocalWorkerStatus::Dead {
            let l = live_keys(init);
            assert(live_keys(ws).drop_last() =~= l);
            if ws.last().public_key@ == k {
                assert(live_has_key(ws, k));
                if live_has_key(init, k) {
                    let a = choose|a: int|
                        0 <= a < init.len() && #[trigger] init[a].public_key@ == k && init[a].status
                            != KnownLocalWorkerStatus::Dead;
                    assert(ws[a].public_key@ == ws[n].public_key@);
                }
            }
        }
    }
}

/// Counting a key among strings is counting it among their views.
proof fn lemma_occurrences_views(keys: Seq<String>, k: Seq<char>)
    ensures
        occurrences(keys, k) == count_of(string_views(keys), k),
    decreases keys.len(),
{
    if keys.len() > 0 {
        lemma_occurrences_views(keys.drop_last(), k);
        assert(string_views(keys).drop_last() =~= string_views(keys.drop_last()));
    }
}

/// One health check, in place.
pub fn health_check(w: &mut KnownLocalWorker)
    requires
        old(w).status != KnownLocalWorkerStatus::Dead ==> old(w).lost_count < 255,
    ensures
        *final(w) == health_step(*old(w)),
{
    match w.status {
        KnownLocalWorkerStatus::Active => {
            if w.lost_mark && w.lost_count > BROKER_PEER_LOST_COUNT {
                w.status = KnownLocalWorkerStatus::Lost;
            }
            w.lost_mark = true;
            w.lost_count = w.lost_count + 1;
        },
        KnownLocalWorkerStatus::Lost => {
            if w.lost_count > BROKER_PEER_DEAD_COUNT {
                w.status = KnownLocalWorkerStatus::Dead;
            }
            w.lost_mark = true;
            w.lost_count = w.lost_count + 1;
        },
        KnownLocalWorkerStatus::Dead => {},
    }
}

/// Takes in the keepalive of a known worker that is not dead: it takes the
/// new instance id and is active again with no missed check.
pub fn update_local_worker(klw: &mut KnownLocalWorker, lw: LocalWorkerIdentity)
    ensures
        *final(klw) == after_keepalive(*old(klw), lw),
{
    klw.instance_id = lw.instance_id;
    match klw.status {
        KnownLocalWorkerStatus::Active => {
            klw.lost_mark = false;
            klw.lost_count = 0;
        },
        KnownLocalWorkerStatus::Lost => {
            klw.status = KnownLocalWorkerStatus::Active;
            klw.lost_count = 0;
            klw.lost_mark = false;
        },
        KnownLocalWorkerStatus::Dead => {},
    }
}

/// Whether the worker with public key `k` is known and not dead.
pub open spec fn known_alive(ws: Seq<KnownLocalWorker>, k: Seq<char>) -> bool {
    has_key(ws, k) && ws[index_of_key(ws, k)].status != KnownLocalWorkerStatus::Dead
}

/// A keepalive `lw` whose address is `http://<h>:<p>`, with `h` a host of
/// the characters of `is_host_char` and `p` a port text that
/// `parse::<u16>` reads as a number above 0, from a worker that is not
/// known alive, is taken in (outcome `r`): workers `ws` become `ws2`, in
/// which the worker is reached at host `h` and that port.
pub open spec fn plain_address_taken(
    ws: Seq<KnownLocalWorker>,
    ws2: Seq<KnownLocalWorker>,
    lw: LocalWorkerIdentity,
    r: Result<(), UnusableWorkerAddress>,
) -> bool {
    forall|h: Seq<char>, p: Seq<char>|
        #![trigger http_url(h, p)]
        url_host(h) && u16_text_value(p) is Some && u16_text_value(p)->0 > 0 && lw.address_string@
            == http_url(h, p) && !known_alive(ws, lw.public_key@) ==> {
            &&& r is Ok
            &&& has_key(ws2, lw.public_key@)
            &&& ws2[index_of_key(ws2, lw.public_key@)].hostname@ == h
            &&& Some(ws2[index_of_key(ws2, lw.public_key@)].forwarder_port) == u16_text_value(p)
        }
}

/// What a keepalive `lw` does: workers `ws` become `ws2`, the live keys
/// `keys` become `keys2`, and the outcome is `r`. A known worker that is not
/// dead is refreshed; any other is taken in afresh, reached at the host name
/// and port of its address, and the live keys are recomputed; an address
/// without host name or port is refused and nothing changes.
pub open spec fn keepalive_effect(
    ws: Seq<KnownLocalWorker>,
    ws2: Seq<KnownLocalWorker>,
    keys: Seq<String>,
    keys2: Seq<String>,
    lw: LocalWorkerIdentity,
    r: Result<(), UnusableWorkerAddress>,
) -> bool {
    let k = lw.public_key@;
    if has_key(ws, k) && ws[index_of_key(ws, k)].status != KnownLocalWorkerStatus::Dead {
        &&& r is Ok
        &&& ws2 == ws.update(index_of_key(ws, k), after_keepalive(ws[index_of_key(ws, k)], lw))
        &&& keys2 == keys
    } else {
        let (host, port) = url_host_port(lw.address_string@);
        if host is Some && port is Some {
            &&& r is Ok
            &&& ws2 == with_worker(ws, fresh_worker(lw, ws2[index_of_key(ws2, k)].hostname, port->0))
            &&& has_key(ws2, k)
            &&& ws2[index_of_key(ws2, k)].hostname@ == host->0
            &&& string_views(keys2) == live_keys(ws2)
        } else {
            &&& r == Err::<(), UnusableWorkerAddress>(UnusableWorkerAddress)
            &&& ws2 == ws
            &&& keys2 == keys
        }
    }
}

/// Public keys identify the workers, which are held in ascending order of
/// public key, and each worker's bookkeeping is consistent.
pub open spec fn workers_wf(ws: Seq<KnownLocalWorker>) -> bool {
    &&& keys_ascending(ws)
    &&& forall|i: int, j: int|
        0 <= i < ws.len() && 0 <= j < ws.len() && i != j ==> #[trigger] ws[i].public_key@
            != #[trigger] ws[j].public_key@
    &&& forall|i: int| 0 <= i < ws.len() ==> health_wf(#[trigger] ws[i])
}

/// The local workers a broker knows, in ascending order of public key.
#[derive(Clone, Debug)]
pub struct LocalWorkerMap {
    pub workers: Vec<KnownLocalWorker>,
}

impl LocalWorkerMap {
    /// Public keys identify the workers, which are held in ascending order
    /// of public key, and each worker's bookkeeping is consistent.
    pub open spec fn wf(&self) -> bool {
        workers_wf(self.workers@)
    }

    /// No worker known yet.
    pub fn new() -> (m: LocalWorkerMap)
        ensures
            m.wf(),
            m.workers@.len() == 0,
            keys_cover(m.workers@, Seq::<String>::empty()),
    {
        LocalWorkerMap { workers: Vec::new() }
    }

    /// The index of the worker with public key `key`, if any.
    pub fn find(&self, key: &str) -> (r: Option<usize>)
        ensures
            match r {
                Some(i) => i < self.workers@.len() && self.workers@[i as int].public_key@ == key@,
                None => !has_key(self.workers@, key@),
            },
    {
        let wanted = String::from_str(key);
        let mut i: usize = 0;
        while i < self.workers.len()
            invariant
                wanted@ == key@,
                i <= self.workers.len(),
                forall|j: int| 0 <= j < i ==> #[trigger] self.workers@[j].public_key@ != key@,
            decreases self.workers.len() - i,
        {
            if self.workers[i].public_key == wanted {
                return Some(i);
            }
            i = i + 1;
        }
        None
    }

    /// The public keys of the workers that are not dead.
    pub fn live_keys(&self) -> (keys: Vec<String>)
        ensures
            string_views(keys@) == live_keys(self.workers@),
    {
        let mut keys: Vec<String> = Vec::new();
        let mut i: usize = 0;
        while i < self.workers.len()
            invariant
                i <= self.workers.len(),
                string_views(keys@) == live_keys(self.workers@.take(i as int)),
            decreases self.workers.len() - i,
        {
            assert(self.workers@.take(i + 1).drop_last() =~= self.workers@.take(i as int));
            assert(self.workers@.take(i + 1).last() == self.workers@[i as int]);
            if self.workers[i].status != KnownLocalWorkerStatus::Dead {
                let ghost before = string_views(keys@);
                keys.push(self.workers[i].public_key.clone());
                assert(string_views(keys@) =~= before.push(self.workers@[i as int].public_key@));
            }
            i = i + 1;
        }
        assert(self.workers@.take(self.workers.len() as int) =~= self.workers@);
        keys
    }

    /// Takes in a worker first heard of (or heard of again after it died),
    /// reached at `hostname:forwarder_port`, and returns the public keys of
    /// the workers that are not dead, in ascending order.
    pub fn create_local_worker(&mut self, lw: LocalWorkerIdentity, hostname: String, forwarder_port: u16) -> (keys: Vec<String>)
        requires
            old(self).wf(),
        ensures
            final(self).wf(),
            final(self).workers@ == with_worker(old(self).workers@, fresh_worker(lw, hostname, forwarder_port)),
            string_views(keys@) == live_keys(final(self).workers@),
            ascending(string_views(keys@)),
    {
        let idx = self.find(lw.public_key.as_str());
        let ghost old_ws = self.workers@;
        let ghost fresh = fresh_worker(lw, hostname, forwarder_port);
        let ghost k = lw.public_key@;
        let w = KnownLocalWorker {
            status: KnownLocalWorkerStatus::Active,
            hostname,
            forwarder_port,
            instance_name: lw.instance_name,
            instance_id: lw.instance_id,
            address_string: lw.address_string,
            public_key: lw.public_key,
            public_port: lw.public_port,
            lost_count: 0,
            lost_mark: false,
        };
        assert(w == fresh);
        match idx {
            Some(i) => {
                self.workers.set(i, w);
                assert(has_key(old_ws, k));
                let ghost j = index_of_key(old_ws, k);
                assert(j == i as int);
                assert(self.workers@ == old_ws.update(i as int, fresh));
                let ghost ws = self.workers@;
                assert forall|a: int, b: int| 0 <= a < b < ws.len() implies lex_lt(
                    #[trigger] ws[a].public_key@,
                    #[trigger] ws[b].public_key@,
                ) by {
                    assert(ws[a].public_key@ == old_ws[a].public_key@);
                    assert(ws[b].public_key@ == old_ws[b].public_key@);
                }
            },
            None => {
                let mut p: usize = 0;
                while p < self.workers.len() && str_lt(self.workers[p].public_key.as_str(), w.public_key.as_str())
                    invariant
                        self.workers@ == old_ws,
                        w.public_key@ == k,
                        p <= old_ws.len(),
                        forall|j: int| 0 <= j < p ==> lex_lt(#[trigger] old_ws[j].public_key@, k),
                    decreases old_ws.len() - p,
                {
                    p = p + 1;
                }
                proof {
                    lemma_insertion_index(old_ws, k, p as int);
                    assert forall|j: int| p <= j < old_ws.len() implies lex_lt(
                        k,
                        #[trigger] old_ws[j].public_key@,
                    ) by {
                        assert(old_ws[p as int].public_key@ != k);
                        lemma_lex_lt_total(old_ws[p as int].public_key@, k);
                        if j > p {
                            lemma_lex_lt_transitive(k, old_ws[p as int].public_key@, old_ws[j].public_key@);
                        }
                    }
                    old_ws.insert_ensures(p as int, fresh);
                }
                self.workers.insert(p, w);
                let ghost ws = self.workers@;
                assert(ws == with_worker(old_ws, fresh));
                assert forall|a: int, b: int| 0 <= a < b < ws.len() implies lex_lt(
                    #[trigger] ws[a].public_key@,
                    #[trigger] ws[b].public_key@,
                ) by {
                    if b < p {
                        assert(ws[a] == old_ws[a] && ws[b] == old_ws[b]);
                    } else if b == p {
                        assert(ws[a] == old_ws[a]);
                    } else if a < p {
                        assert(ws[a] == old_ws[a] && ws[b] == old_ws[b - 1]);
                    } else if a == p {
                        assert(ws[b] == old_ws[b - 1]);
                    } else {
                        assert(ws[a] == old_ws[a - 1] && ws[b] == old_ws[b - 1]);
                    }
                }
                assert forall|a: int| 0 <= a < ws.len() implies health_wf(#[trigger] ws[a]) by {
                    if a < p {
                        assert(ws[a] == old_ws[a]);
                    } else if a > p {
                        assert(ws[a] == old_ws[a - 1]);
                    }
                }
                assert forall|a: int, b: int|
                    0 <= a < ws.len() && 0 <= b < ws.len() && a != b implies #[trigger] ws[a].public_key@
                    != #[trigger] ws[b].public_key@ by {
                    if a < b {
                        assert(lex_lt(ws[a].public_key@, ws[b].public_key@));
                    } else {
                        assert(lex_lt(ws[b].public_key@, ws[a].public_key@));
                    }
                    lemma_lex_lt_irreflexive(ws[a].public_key@);
                }
            },
        }
        let keys = self.live_keys();
        proof {
            lemma_live_keys_ascending(self.workers@);
        }
        keys
    }

    /// One health check of the workers named in `keys`, in order: each
    /// occurrence of a key counts as one check of that worker.
    pub fn check_peer_health(&mut self, keys: &Vec<String>)
        requires
            old(self).wf(),
        ensures
            final(self).wf(),
            final(self).workers@.len() == old(self).workers@.len(),
            forall|i: int|
                0 <= i < old(self).workers@.len() ==> #[trigger] final(self).workers@[i] == health_steps(
                    old(self).workers@[i],
                    occurrences(keys@, old(self).workers@[i].public_key@),
                ),
    {
        let ghost old_ws = self.workers@;
        let mut t: usize = 0;
        assert forall|i: int| 0 <= i < old_ws.len() implies #[trigger] self.workers@[i] == health_steps(
            old_ws[i],
            occurrences(keys@.take(0), old_ws[i].public_key@),
        ) by {
            assert(keys@.take(0).len() == 0);
        }
        while t < keys.len()
            invariant
                t <= keys.len(),
                self.workers@.len() == old_ws.len(),
                forall|i: int, j: int|
                    0 <= i < old_ws.len() && 0 <= j < old_ws.len() && i != j
                        ==> #[trigger] old_ws[i].public_key@ != #[trigger] old_ws[j].public_key@,
                forall|i: int| 0 <= i < old_ws.len() ==> health_wf(#[trigger] old_ws[i]),
                forall|i: int|
                    0 <= i < old_ws.len() ==> #[trigger] self.workers@[i] == health_steps(
                        old_ws[i],
                        occurrences(keys@.take(t as int), old_ws[i].public_key@),
                    ),
            decreases keys.len() - t,
        {
            let ghost before = self.workers@;
            assert(keys@.take(t + 1).drop_last() =~= keys@.take(t as int));
            assert(keys@.take(t + 1).last() == keys@[t as int]);
            assert forall|i: int| 0 <= i < old_ws.len() implies #[trigger] before[i].public_key
                == old_ws[i].public_key && health_wf(before[i]) by {
                lemma_health_steps_wf(old_ws[i], occurrences(keys@.take(t as int), old_ws[i].public_key@));
            }
            match self.find(keys[t].as_str()) {
                Some(i) => {
                    health_check(&mut self.workers[i]);
                    assert forall|j: int| 0 <= j < old_ws.len() implies #[trigger] self.workers@[j]
                        == health_steps(
                        old_ws[j],
                        occurrences(keys@.take(t + 1), old_ws[j].public_key@),
                    ) by {
                        if j != i as int {
                            assert(old_ws[j].public_key@ != old_ws[i as int].public_key@);
                        }
                    }
                },
                None => {
                    assert forall|j: int| 0 <= j < old_ws.len() implies #[trigger] self.workers@[j]
                        == health_steps(
                        old_ws[j],
                        occurrences(keys@.take(t + 1), old_ws[j].public_key@),
                    ) by {
                        assert(before[j].public_key@ != keys@[t as int]@);
                    }
                },
            }
            t = t + 1;
        }
        assert(keys@.take(keys.len() as int) =~= keys@);
        proof {
            assert forall|i: int| 0 <= i < self.workers@.len() implies health_wf(#[trigger] self.workers@[i])
                && self.workers@[i].public_key == old_ws[i].public_key by {
                lemma_health_steps_wf(old_ws[i], occurrences(keys@, old_ws[i].public_key@));
            }
        }
    }

    /// Takes in the keepalive of a local worker. A known worker that is
    /// not dead is refreshed (`after_keepalive`); any other is taken in
    /// afresh, reached at the host and port of its address, and `keys`
    /// becomes the public keys of the workers that are not dead. An address
    /// without host name or port is refused and nothing changes.
    pub fn receive_keepalive(&mut self, keys: &mut Vec<String>, lw: LocalWorkerIdentity) -> (r: Result<(), UnusableWorkerAddress>)
        requires
            old(self).wf(),
        ensures
            final(self).wf(),
            keepalive_effect(old(self).workers@, final(self).workers@, old(keys)@, final(keys)@, lw, r),
            plain_address_taken(old(self).workers@, final(self).workers@, lw, r),
    {
        let ghost ws = self.workers@;
        let ghost k = lw.public_key@;
        match self.find(lw.public_key.as_str()) {
            Some(i) => {
                proof {
                    let j = index_of_key(ws, k);
                    assert(has_key(ws, k));
                    assert(j == i as int);
                }
                if self.workers[i].status != KnownLocalWorkerStatus::Dead {
                    let ghost w = self.workers@[i as int];
                    update_local_worker(&mut self.workers[i], lw);
                    assert(self.workers@ == ws.update(i as int, after_keepalive(w, lw)));
                    assert(health_wf(after_keepalive(w, lw)));
                    let ghost fs = self.workers@;
                    assert forall|a: int, b: int| 0 <= a < b < fs.len() implies lex_lt(
                        #[trigger] fs[a].public_key@,
                        #[trigger] fs[b].public_key@,
                    ) by {
                        assert(fs[a].public_key@ == ws[a].public_key@);
                        assert(fs[b].public_key@ == ws[b].public_key@);
                    }
                    assert forall|a: int| 0 <= a < self.workers@.len() implies health_wf(#[trigger] self.workers@[a]) by {
                        if a != i as int {
                            assert(self.workers@[a] == ws[a]);
                        }
                    }
                    return Ok(());
                }
            },
            None => {},
        }
        let (host, port) = url_host_and_port(lw.address_string.as_str());
        match (host, port) {
            (Some(hostname), Some(forwarder_port)) => {
                let ghost fresh = fresh_worker(lw, hostname, forwarder_port);
                let ghost h = hostname;
                *keys = self.create_local_worker(lw, hostname, forwarder_port);
                proof {
                    lemma_with_worker_found(ws, fresh);
                }
                assert(self.workers@[index_of_key(self.workers@, k)] == fresh);
                Ok(())
            },
            _ => Err(UnusableWorkerAddress),
        }
    }

    /// What the local worker manager of a broker does with one message: a
    /// health check of the workers named in `keys`, or a keepalive. When
    /// `keys` names every worker that is not dead exactly once (as it does
    /// from the start, with no worker and no key), it still does afterwards,
    /// and a health check then checks each worker that is not dead once and
    /// leaves dead workers as they are.
    pub fn handle_manager_message(&mut self, keys: &mut Vec<String>, msg: LocalWorkerManagerChannelMessage) -> (r: Result<(), UnusableWorkerAddress>)
        requires
            old(self).wf(),
        ensures
            final(self).wf(),
            msg is ShouldCheckPeerHealth ==> {
                &&& r is Ok
                &&& final(keys)@ == old(keys)@
                &&& final(self).workers@.len() == old(self).workers@.len()
                &&& forall|i: int|
                    0 <= i < old(self).workers@.len() ==> #[trigger] final(self).workers@[i] == health_steps(
                        old(self).workers@[i],
                        occurrences(old(keys)@, old(self).workers@[i].public_key@),
                    )
            },
            msg matches LocalWorkerManagerChannelMessage::ReceivedKeepAlive(lw) ==> keepalive_effect(
                old(self).workers@,
                final(self).workers@,
                old(keys)@,
                final(keys)@,
                lw,
                r,
            ),
            msg matches LocalWorkerManagerChannelMessage::ReceivedKeepAlive(lw) ==> plain_address_taken(
                old(self).workers@,
                final(self).workers@,
                lw,
                r,
            ),
            keys_cover(old(self).workers@, old(keys)@) ==> keys_cover(final(self).workers@, final(keys)@),
            msg is ShouldCheckPeerHealth && keys_cover(old(self).workers@, old(keys)@) ==> forall|i: int|
                0 <= i < old(self).workers@.len() ==> #[trigger] final(self).workers@[i] == if old(
                    self,
                ).workers@[i].status == KnownLocalWorkerStatus::Dead {
                    old(self).workers@[i]
                } else {
                    health_step(old(self).workers@[i])
                },
    {
        let ghost ws = self.workers@;
        let ghost ks = keys@;
        match msg {
            LocalWorkerManagerChannelMessage::ShouldCheckPeerHealth => {
                self.check_peer_health(keys);
                proof {
                    if keys_cover(ws, ks) {
                        law_health_check_reaches_live_workers(ws, self.workers@, ks);
                    }
                }
                Ok(())
            },
            LocalWorkerManagerChannelMessage::ReceivedKeepAlive(lw) => {
                let ghost l = lw;
                let r = self.receive_keepalive(keys, lw);
                proof {
                    if keys_cover(ws, ks) {
                        law_keepalive_keeps_key_list(ws, self.workers@, ks, keys@, l, r);
                    }
                }
                r
            },
        }
    }
}


/// When the key list names every worker that is not dead exactly once, a
/// health check by that list checks each worker that is not dead once and
/// leaves dead workers as they are; the list still names every worker that
/// is not dead exactly once afterwards.
pub proof fn law_health_check_reaches_live_workers(
    ws: Seq<KnownLocalWorker>,
    ws2: Seq<KnownLocalWorker>,
    keys: Seq<String>,
)
    requires
        workers_wf(ws),
        keys_cover(ws, keys),
        ws2.len() == ws.len(),
        forall|i: int|
            0 <= i < ws.len() ==> #[trigger] ws2[i] == health_steps(
                ws[i],
                occurrences(keys, ws[i].public_key@),
            ),
    ensures
        forall|i: int|
            0 <= i < ws.len() ==> #[trigger] ws2[i] == if ws[i].status == KnownLocalWorkerStatus::Dead {
                ws[i]
            } else {
                health_step(ws[i])
            },
        keys_cover(ws2, keys),
{
    assert forall|i: int| 0 <= i < ws.len() implies #[trigger] ws2[i] == if ws[i].status
        == KnownLocalWorkerStatus::Dead {
        ws[i]
    } else {
        health_step(ws[i])
    } by {
        if ws[i].status == KnownLocalWorkerStatus::Dead {
            law_dead_stays_dead(ws[i], occurrences(keys, ws[i].public_key@));
        } else {
            assert(occurrences(keys, ws[i].public_key@) == 1);
            assert(health_steps(ws[i], 0) == ws[i]);
        }
    }
    assert forall|i: int|
        0 <= i < ws2.len() && ws2[i].status != KnownLocalWorkerStatus::Dead implies occurrences(
        keys,
        #[trigger] ws2[i].public_key@,
    ) == 1 by {
        assert(ws[i].status != KnownLocalWorkerStatus::Dead);
        assert(ws2[i].public_key == ws[i].public_key);
    }
}

/// A keepalive keeps the key list naming every worker that is not dead
/// exactly once: a worker taken in afresh comes with a new list.
pub proof fn law_keepalive_keeps_key_list(
    ws: Seq<KnownLocalWorker>,
    ws2: Seq<KnownLocalWorker>,
    keys: Seq<String>,
    keys2: Seq<String>,
    lw: LocalWorkerIdentity,
    r: Result<(), UnusableWorkerAddress>,
)
    requires
        workers_wf(ws),
        workers_wf(ws2),
        keepalive_effect(ws, ws2, keys, keys2, lw, r),
        keys_cover(ws, keys),
    ensures
        keys_cover(ws2, keys2),
{
    let k = lw.public_key@;
    if has_key(ws, k) && ws[index_of_key(ws, k)].status != KnownLocalWorkerStatus::Dead {
        let j = index_of_key(ws, k);
        assert forall|i: int|
            0 <= i < ws2.len() && ws2[i].status != KnownLocalWorkerStatus::Dead implies occurrences(
            keys2,
            #[trigger] ws2[i].public_key@,
        ) == 1 by {
            if i != j {
                assert(ws2[i] == ws[i]);
            }
        }
    } else {
        let (host, port) = url_host_port(lw.address_string@);
        if host is Some && port is Some {
            assert forall|i: int|
                0 <= i < ws2.len() && ws2[i].status != KnownLocalWorkerStatus::Dead implies occurrences(
                keys2,
                #[trigger] ws2[i].public_key@,
            ) == 1 by {
                lemma_occurrences_views(keys2, ws2[i].public_key@);
                lemma_live_keys_count(ws2, ws2[i].public_key@);
                assert(live_has_key(ws2, ws2[i].public_key@));
            }
        }
    }
}

/// A worker as a keepalive leaves it: active, no missed check, not marked.
pub open spec fn refreshed(w: KnownLocalWorker) -> bool {
    w.status == KnownLocalWorkerStatus::Active && w.lost_count == 0 && !w.lost_mark
}

/// A keepalive from a known worker that is not dead leaves it active, with
/// no missed check and unmarked, under the same public key.
pub proof fn law_keepalive_refreshes(w: KnownLocalWorker, lw: LocalWorkerIdentity)
    requires
        w.status != KnownLocalWorkerStatus::Dead,
    ensures
        refreshed(after_keepalive(w, lw)),
        after_keepalive(w, lw).public_key == w.public_key,
        health_wf(after_keepalive(w, lw)),
{
}

/// A worker heard of afresh is active, with no missed check and unmarked.
pub proof fn law_fresh_worker_refreshed(lw: LocalWorkerIdentity, hostname: String, port: u16)
    ensures
        refreshed(fresh_worker(lw, hostname, port)),
        health_wf(fresh_worker(lw, hostname, port)),
{
}

/// Health checks never bring a dead worker back: only a keepalive does.
pub proof fn law_dead_stays_dead(w: KnownLocalWorker, n: nat)
    requires
        w.status == KnownLocalWorkerStatus::Dead,
    ensures
        health_steps(w, n) == w,
    decreases n,
{
    if n > 0 {
        law_dead_stays_dead(w, (n - 1) as nat);
    }
}

/// After a keepalive, a worker that then misses `n` health checks in a row
/// is active for `n <= BROKER_PEER_LOST_COUNT + 1`, lost up to
/// `BROKER_PEER_DEAD_COUNT + 1`, and dead from then on.
pub proof fn law_missed_checks_timeline(w: KnownLocalWorker, n: nat)
    requires
        refreshed(w),
    ensures
        n <= BROKER_PEER_LOST_COUNT + 1 ==> health_steps(w, n).status == KnownLocalWorkerStatus::Active,
        BROKER_PEER_LOST_COUNT + 1 < n <= BROKER_PEER_DEAD_COUNT + 1 ==> health_steps(w, n).status
            == KnownLocalWorkerStatus::Lost,
        BROKER_PEER_DEAD_COUNT + 1 < n ==> health_steps(w, n).status == KnownLocalWorkerStatus::Dead,
    decreases n,
{
    lemma_missed_checks_count(w, n);
}

proof fn lemma_missed_checks_count(w: KnownLocalWorker, n: nat)
    requires
        refreshed(w),
    ensures
        n <= 12 ==> health_steps(w, n).lost_count == n,
        n <= 4 ==> health_steps(w, n).status == KnownLocalWorkerStatus::Active,
        n > 0 ==> health_steps(w, n).lost_mark,
        4 < n <= 11 ==> health_steps(w, n).status == KnownLocalWorkerStatus::Lost,
        11 < n ==> health_steps(w, n).status == KnownLocalWorkerStatus::Dead,
    decreases n,
{
    if n > 0 {
        lemma_missed_checks_count(w, (n - 1) as nat);
        if n > 12 {
            lemma_missed_checks_count(w, 12);
            lemma_dead_prefix(w, n);
        }
    }
}

proof fn lemma_dead_prefix(w: KnownLocalWorker, n: nat)
    requires
        health_steps(w, 12).status == KnownLocalWorkerStatus::Dead,
        n >= 12,
    ensures
        health_steps(w, n) == health_steps(w, 12),
    decreases n,
{
    if n > 12 {
        lemma_dead_prefix(w, (n - 1) as nat);
    }
}

/// A keepalive from a known worker records the keepalive's instance id
/// and leaves where the worker is reached, its address, public key, public
/// port and instance name as they were.
pub proof fn law_keepalive_keeps_worker_identity(w: KnownLocalWorker, lw: LocalWorkerIdentity)
    ensures
        after_keepalive(w, lw).instance_id == lw.instance_id,
        after_keepalive(w, lw).hostname == w.hostname,
        after_keepalive(w, lw).forwarder_port == w.forwarder_port,
        after_keepalive(w, lw).address_string == w.address_string,
        after_keepalive(w, lw).public_key == w.public_key,
        after_keepalive(w, lw).public_port == w.public_port,
        after_keepalive(w, lw).instance_name == w.instance_name,
        w.status == KnownLocalWorkerStatus::Dead ==> after_keepalive(w, lw).status == w.status,
{
}

/// A worker heard of afresh carries the keepalive's instance name and id,
/// address, public key and public port, and is reached at the given host
/// and port.
pub proof fn law_fresh_worker_from_keepalive(lw: LocalWorkerIdentity, hostname: String, port: u16)
    ensures
        fresh_worker(lw, hostname, port).instance_name == lw.instance_name,
        fresh_worker(lw, hostname, port).instance_id == lw.instance_id,
        fresh_worker(lw, hostname, port).address_string == lw.address_string,
        fresh_worker(lw, hostname, port).public_key == lw.public_key,
        fresh_worker(lw, hostname, port).public_port == lw.public_port,
        fresh_worker(lw, hostname, port).hostname == hostname,
        fresh_worker(lw, hostname, port).forwarder_port == port,
{
}

} // verus!
