//! What a broker or local worker announces about itself over mDNS: the TXT
//! properties of its service.
//!
//! `in`: instance name, `i`: instance id, `mp`: management port, and for a
//! broker `c`: cost, `oa`: outbound bind addresses, `o`: the prefix under
//! which its inbound HTTP server is reachable.

use vstd::prelude::*;
use crate::config::PeerConfig;
use crate::config::PeerRole;
use crate::peer::broker::{prop_lookup, ServiceRecord};
use crate::text::{decimal, decimal_string, join_strings, join_with, split_on, string_views};

verus! {

/// The views of a list of properties.
pub open spec fn property_views(v: Seq<(String, String)>) -> Seq<(Seq<char>, Seq<char>)> {
    v.map_values(|p: (String, String)| (p.0@, p.1@))
}

/// The TXT properties of a broker.
pub open spec fn broker_properties_of(config: PeerConfig) -> Seq<(Seq<char>, Seq<char>)> {
    let b = config.role->PrBroker_0->0;
    seq![
        ("in"@, config.common.instance_name@),
        ("i"@, config.instance_id@),
        ("c"@, decimal(b.cost as nat)),
        ("mp"@, decimal(config.common.mgmt_port as nat)),
        ("oa"@, join_with(string_views(b.outbound_bind_addresses@), ","@)),
        ("o"@, b.inbound_http_server_accessible_address_prefix@),
    ]
}

/// The TXT properties of a local worker.
pub open spec fn local_worker_properties_of(config: PeerConfig) -> Seq<(Seq<char>, Seq<char>)> {
    seq![
        ("in"@, config.common.instance_name@),
        ("i"@, config.instance_id@),
        ("mp"@, decimal(config.common.mgmt_port as nat)),
    ]
}

fn property(key: &str, value: String) -> (p: (String, String))
    ensures
        p.0@ == key@,
        p.1 == value,
{
    (String::from_str(key), value)
}

/// The TXT properties a broker announces.
pub fn broker_txt_properties(config: &PeerConfig) -> (props: Vec<(String, String)>)
    requires
        config.role matches PeerRole::PrBroker(Some(_)),
    ensures
        property_views(props@) == broker_properties_of(*config),
{
    let b = config.broker();
    let mut props: Vec<(String, String)> = Vec::new();
    props.push(property("in", config.common.instance_name.clone()));
    props.push(property("i", config.instance_id.clone()));
    props.push(property("c", decimal_string(b.cost as u64)));
    props.push(property("mp", decimal_string(config.common.mgmt_port as u64)));
    props.push(property("oa", join_strings(&b.outbound_bind_addresses, ",")));
    props.push(property("o", b.inbound_http_server_accessible_address_prefix.clone()));
    assert(property_views(props@) =~= broker_properties_of(*config));
    props
}

/// The TXT properties a local worker announces.
pub fn local_worker_txt_properties(config: &PeerConfig) -> (props: Vec<(String, String)>)
    ensures
        property_views(props@) == local_worker_properties_of(*config),
{
    let mut props: Vec<(String, String)> = Vec::new();
    props.push(property("in", config.common.instance_name.clone()));
    props.push(property("i", config.instance_id.clone()));
    props.push(property("mp", decimal_string(config.common.mgmt_port as u64)));
    assert(property_views(props@) =~= local_worker_properties_of(*config));
    props
}


/// A local worker that receives a broker's announcement finds in its
/// outbound address property (`oa`) exactly the broker's outbound bind
/// addresses, provided none of them holds a comma; in particular the first
/// one, through which it will send its pRuntime's traffic.
pub proof fn law_announced_outbound_addresses_recovered(config: PeerConfig, info: ServiceRecord)
    requires
        config.role matches PeerRole::PrBroker(Some(b)) && b.outbound_bind_addresses@.len() > 0
            && forall|i: int|
            0 <= i < b.outbound_bind_addresses@.len() ==> !(#[trigger] b.outbound_bind_addresses@[i])@.contains(','),
        property_views(info.properties@) == broker_properties_of(config),
    ensures
        prop_lookup(info.properties@, "oa"@) matches Some(oa) && split_on(oa, ',') == string_views(
            config.role->PrBroker_0->0.outbound_bind_addresses@,
        ),
{
    let b = config.role->PrBroker_0->0;
    let ps = info.properties@;
    let views = property_views(ps);
    assert(ps.len() == 6) by {
        assert(views.len() == 6);
    }
    reveal_strlit("in");
    reveal_strlit("i");
    reveal_strlit("c");
    reveal_strlit("mp");
    reveal_strlit("oa");
    assert(views[0] == (ps[0].0@, ps[0].1@));
    assert(views[1] == (ps[1].0@, ps[1].1@));
    assert(views[2] == (ps[2].0@, ps[2].1@));
    assert(views[3] == (ps[3].0@, ps[3].1@));
    assert(views[4] == (ps[4].0@, ps[4].1@));
    assert("in"@[0] != "oa"@[0]);
    assert("i"@.len() != "oa"@.len());
    assert(ps[0].0@ == "in"@);
    assert(ps[1].0@ == "i"@);
    assert(ps[0].0@ != "oa"@);
    assert(ps[1].0@ != "oa"@);
    assert(ps[2].0@ != "oa"@);
    assert(ps[3].0@ != "oa"@);
    assert(ps[4].0@ == "oa"@);
    assert(ps.drop_first().drop_first().drop_first().drop_first()[0] == ps[4]);
    assert(prop_lookup(ps, "oa"@) == prop_lookup(ps.drop_first(), "oa"@));
    assert(prop_lookup(ps.drop_first(), "oa"@) == prop_lookup(ps.drop_first().drop_first(), "oa"@));
    assert(prop_lookup(ps.drop_first().drop_first(), "oa"@) == prop_lookup(
        ps.drop_first().drop_first().drop_first(),
        "oa"@,
    ));
    assert(prop_lookup(ps.drop_first().drop_first().drop_first(), "oa"@) == prop_lookup(
        ps.drop_first().drop_first().drop_first().drop_first(),
        "oa"@,
    ));
    let addrs = string_views(b.outbound_bind_addresses@);
    assert forall|i: int| 0 <= i < addrs.len() implies !(#[trigger] addrs[i]).contains(',') by {
        assert(addrs[i] == b.outbound_bind_addresses@[i]@);
    }
    crate::text::lemma_split_join(addrs, ',');
    assert(","@ == seq![',']) by {
        reveal_strlit(",");
    }
}

/// The first property named `key` is the one at `j` when no property
/// before it has that name.
proof fn lemma_prop_lookup_at(ps: Seq<(String, String)>, key: Seq<char>, j: int)
    requires
        0 <= j < ps.len(),
        ps[j].0@ == key,
        forall|i: int| 0 <= i < j ==> (#[trigger] ps[i]).0@ != key,
    ensures
        prop_lookup(ps, key) == Some(ps[j].1@),
    decreases j,
{
    if j > 0 {
        let t = ps.drop_first();
        assert(ps[0].0@ != key);
        assert forall|i: int| 0 <= i < j - 1 implies (#[trigger] t[i]).0@ != key by {
            assert(t[i] == ps[i + 1]);
        }
        assert(t[j - 1] == ps[j]);
        lemma_prop_lookup_at(t, key, j - 1);
    }
}

/// A peer that reads a local worker's announcement finds under `in` the
/// worker's instance name, under `i` its instance id and under `mp` its
/// management port in decimal.
pub proof fn law_local_worker_announcement_read_back(config: PeerConfig, info: ServiceRecord)
    requires
        property_views(info.properties@) == local_worker_properties_of(config),
    ensures
        prop_lookup(info.properties@, "in"@) == Some(config.common.instance_name@),
        prop_lookup(info.properties@, "i"@) == Some(config.instance_id@),
        prop_lookup(info.properties@, "mp"@) == Some(decimal(config.common.mgmt_port as nat)),
{
    let ps = info.properties@;
    let views = property_views(ps);
    assert(ps.len() == 3) by {
        assert(views.len() == 3);
    }
    reveal_strlit("in");
    reveal_strlit("i");
    reveal_strlit("mp");
    assert(views[0] == (ps[0].0@, ps[0].1@));
    assert(views[1] == (ps[1].0@, ps[1].1@));
    assert(views[2] == (ps[2].0@, ps[2].1@));
    assert(ps[0].0@ == "in"@ && ps[0].1@ == config.common.instance_name@);
    assert(ps[1].0@ == "i"@ && ps[1].1@ == config.instance_id@);
    assert(ps[2].0@ == "mp"@ && ps[2].1@ == decimal(config.common.mgmt_port as nat));
    assert("in"@ != "i"@ && "in"@ != "mp"@ && "i"@ != "mp"@) by {
        assert("in"@.len() != "i"@.len());
        assert("in"@[0] != "mp"@[0]);
        assert("i"@.len() != "mp"@.len());
    }
    lemma_prop_lookup_at(ps, "in"@, 0);
    lemma_prop_lookup_at(ps, "i"@, 1);
    lemma_prop_lookup_at(ps, "mp"@, 2);
}

/// A peer that reads a broker's announcement finds under `in` the broker's
/// instance name, under `i` its instance id, under `c` its cost and under
/// `mp` its management port, both in decimal, and under `o` the prefix
/// under which its inbound HTTP server is reached.
pub proof fn law_broker_announcement_read_back(config: PeerConfig, info: ServiceRecord)
    requires
        config.role matches PeerRole::PrBroker(Some(_)),
        property_views(info.properties@) == broker_properties_of(config),
    ensures
        prop_lookup(info.properties@, "in"@) == Some(config.common.instance_name@),
        prop_lookup(info.properties@, "i"@) == Some(config.instance_id@),
        prop_lookup(info.properties@, "c"@) == Some(decimal(config.role->PrBroker_0->0.cost as nat)),
        prop_lookup(info.properties@, "mp"@) == Some(decimal(config.common.mgmt_port as nat)),
        prop_lookup(info.properties@, "o"@) == Some(
            config.role->PrBroker_0->0.inbound_http_server_accessible_address_prefix@,
        ),
{
    let b = config.role->PrBroker_0->0;
    let ps = info.properties@;
    let views = property_views(ps);
    assert(ps.len() == 6) by {
        assert(views.len() == 6);
    }
    reveal_strlit("in");
    reveal_strlit("i");
    reveal_strlit("c");
    reveal_strlit("mp");
    reveal_strlit("oa");
    reveal_strlit("o");
    assert(views[0] == (ps[0].0@, ps[0].1@));
    assert(views[1] == (ps[1].0@, ps[1].1@));
    assert(views[2] == (ps[2].0@, ps[2].1@));
    assert(views[3] == (ps[3].0@, ps[3].1@));
    assert(views[4] == (ps[4].0@, ps[4].1@));
    assert(views[5] == (ps[5].0@, ps[5].1@));
    assert(ps[0].0@ == "in"@ && ps[0].1@ == config.common.instance_name@);
    assert(ps[1].0@ == "i"@ && ps[1].1@ == config.instance_id@);
    assert(ps[2].0@ == "c"@ && ps[2].1@ == decimal(b.cost as nat));
    assert(ps[3].0@ == "mp"@ && ps[3].1@ == decimal(config.common.mgmt_port as nat));
    assert(ps[4].0@ == "oa"@);
    assert(ps[5].0@ == "o"@ && ps[5].1@ == b.inbound_http_server_accessible_address_prefix@);
    assert("in"@[0] != "c"@[0] && "in"@[0] != "mp"@[0] && "in"@[0] != "oa"@[0] && "in"@[0] != "o"@[0]);
    assert("i"@[0] != "c"@[0] && "i"@[0] != "mp"@[0] && "i"@[0] != "o"@[0]);
    assert("i"@.len() != "in"@.len() && "i"@.len() != "oa"@.len());
    assert("c"@[0] != "mp"@[0] && "c"@[0] != "oa"@[0] && "c"@[0] != "o"@[0]);
    assert("mp"@[0] != "oa"@[0] && "mp"@[0] != "o"@[0]);
    assert("oa"@.len() != "o"@.len());
    lemma_prop_lookup_at(ps, "in"@, 0);
    lemma_prop_lookup_at(ps, "i"@, 1);
    lemma_prop_lookup_at(ps, "c"@, 2);
    lemma_prop_lookup_at(ps, "mp"@, 3);
    lemma_prop_lookup_at(ps, "o"@, 5);
}

} // verus!
