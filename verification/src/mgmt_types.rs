//! The messages of the management API between local workers and brokers.

use vstd::prelude::*;
use crate::config::PeerConfig;

verus! {

/// What a local worker tells its broker in each keepalive.
#[derive(Clone, Debug)]
pub struct LocalWorkerIdentity {
    pub instance_name: String,
    pub instance_id: String,
    pub address_string: String,
    pub public_port: u16,
    pub public_key: String,
}

/// What a broker answers a keepalive with.
#[derive(Clone, Debug)]
pub struct MyIdentity {
    pub instance_name: String,
    pub instance_id: String,
}

/// Route of the keepalive of a local worker on the broker's management API.
pub const R_V0_LOCAL_WORKER_KEEPALIVE: &'static str = "/v0/local_worker/keepalive";

/// HTTP status `418 I'm a teapot`, the status of the answer to a keepalive
/// or a probe.
pub const STATUS_IM_A_TEAPOT: u16 = 418;

impl MyIdentity {
    /// The identity a peer answers with: its instance name and id.
    pub fn of(config: &PeerConfig) -> (id: MyIdentity)
        ensures
            id.instance_name == config.common.instance_name,
            id.instance_id == config.instance_id,
    {
        MyIdentity {
            instance_name: config.common.instance_name.clone(),
            instance_id: config.instance_id.clone(),
        }
    }
}

/// A broker's answer to a keepalive: status `418` and its identity.
pub fn keepalive_answer(config: &PeerConfig) -> (r: (u16, MyIdentity))
    ensures
        r.0 == STATUS_IM_A_TEAPOT,
        r.1.instance_name == config.common.instance_name,
        r.1.instance_id == config.instance_id,
{
    (STATUS_IM_A_TEAPOT, MyIdentity::of(config))
}

} // verus!
