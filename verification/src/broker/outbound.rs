//! Name resolution for the outbound proxy of a broker.

use vstd::prelude::*;

verus! {

/// An address a name resolved to.
#[derive(Clone, Copy, Debug)]
pub enum ResolvedAddress {
    V4([u8; 4]),
    V6([u16; 8]),
}

/// The last IPv4 address among `addrs`.
pub open spec fn last_v4(addrs: Seq<ResolvedAddress>) -> Option<[u8; 4]>
    decreases addrs.len(),
{
    if addrs.len() == 0 {
        None
    } else {
        match addrs.last() {
            ResolvedAddress::V4(a) => Some(a),
            ResolvedAddress::V6(_) => last_v4(addrs.drop_last()),
        }
    }
}

/// The address a name resolves to for the proxy: the last IPv4 address of
/// the answer (IPv6 addresses are not used); none if there is none.
pub fn pick_resolved_address(addrs: &Vec<ResolvedAddress>) -> (r: Option<[u8; 4]>)
    ensures
        r == last_v4(addrs@),
{
    let mut i: usize = addrs.len();
    assert(addrs@.take(i as int) =~= addrs@);
    while i > 0
        invariant
            i <= addrs.len(),
            last_v4(addrs@) == last_v4(addrs@.take(i as int)),
        decreases i,
    {
        assert(addrs@.take(i as int).drop_last() =~= addrs@.take(i - 1));
        assert(addrs@.take(i as int).last() == addrs@[i - 1]);
        match addrs[i - 1] {
            ResolvedAddress::V4(a) => {
                return Some(a);
            },
            ResolvedAddress::V6(_) => {},
        }
        i = i - 1;
    }
    None
}

} // verus!
