//! The management API of a `psn_peer` peer.

use vstd::prelude::*;
use crate::mgmt_types::{MyIdentity, STATUS_IM_A_TEAPOT};
use crate::psn_peer::config::PeerConfig;

verus! {

/// Route of the liveness probe of a `psn_peer` peer.
pub const R_PING: &'static str = "/ping";

/// A `psn_peer` peer's answer to a probe: status `418` and its instance
/// name and id.
pub fn ping_reply(config: &PeerConfig) -> (r: (u16, MyIdentity))
    ensures
        r.0 == STATUS_IM_A_TEAPOT,
        r.1.instance_name == config.common.instance_name,
        r.1.instance_id == config.instance_id,
{
    (
        STATUS_IM_A_TEAPOT,
        MyIdentity { instance_name: config.common.instance_name.clone(), instance_id: config.instance_id.clone() },
    )
}

} // verus!
