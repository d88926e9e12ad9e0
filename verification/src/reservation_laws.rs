//! What the registry hands out, publishes and tells, on the reservations and tunnels
//! themselves.

use std::collections::HashSet;

use vstd::prelude::*;

use crate::error::ServerError;
use crate::ports::PortRange;
use crate::proto::{IpAddr, PubKey, TunnelId};
use crate::registry::{
    is_valid_label, pick_free_port, slice_has, RegisteredKind, RegistryModel, ResolvedTunnel,
    TunnelInfo, TunnelRegistry, TunnelSnapshot, TunnelSnapshotKind, TunnelState,
};
use crate::tunnel::{allowlist_view, eligible_port};

verus! {

/// A new registry holds nothing, caps nobody, and keeps the pool it was given. A cap
/// set later is kept as it was given, but never below one.
pub proof fn a_new_registry_is_as_configured<C, A, L, R>(
    pool: PortRange,
    new: TunnelRegistry<C, A, L, R>,
    max: usize,
    capped: TunnelRegistry<C, A, L, R>,
)
    requires
        call_ensures(TunnelRegistry::<C, A, L, R>::new, (pool,), new),
        call_ensures(TunnelRegistry::<C, A, L, R>::with_max_http_per_ip, (new, max), capped),
    ensures
        new@.port_pool == pool,
        new@.max_http_per_ip == usize::MAX,
        new@.next_id == 1,
        forall|id: u64| !#[trigger] new@.tunnels.contains_key(id),
        forall|label: Seq<char>| !#[trigger] new@.labels.contains_key(label),
        forall|label: Seq<char>| !#[trigger] new@.used_labels.contains(label),
        forall|port: u16| !#[trigger] new@.used_ports.contains(port),
        capped@ == (RegistryModel { max_http_per_ip: capped@.max_http_per_ip, ..new@ }),
        capped@.max_http_per_ip >= 1,
        max >= 1 ==> capped@.max_http_per_ip == max,
        max == 0 ==> capped@.max_http_per_ip == 1,
{
}

/// A port is picked from the pool, free, and allowed where there is an allowlist; and
/// no lower port is all of that.
pub proof fn the_lowest_port_is_picked(
    pool: PortRange,
    used: &HashSet<u16>,
    allowlist: Option<&[u16]>,
    r: Option<u16>,
    q: u16,
)
    requires
        call_ensures(pick_free_port, (pool, used, allowlist), r),
    ensures
        r matches Some(port) ==> {
            &&& pool.lo <= port && port <= pool.hi
            &&& !used@.contains(port)
            &&& allowlist matches Some(list) ==> exists|i: int|
                0 <= i < list@.len() && #[trigger] list@[i] == port
        },
        pool.lo <= q && q <= pool.hi && !used@.contains(q) && (allowlist matches Some(list)
            ==> exists|i: int| 0 <= i < list@.len() && #[trigger] list@[i] == q) ==> (
        r matches Some(port) ==> port <= q),
{
    assert(eligible_port(pool, used@, allowlist_view(allowlist), q) <==> pool.lo <= q && q
        <= pool.hi && !used@.contains(q) && (allowlist matches Some(list) ==> list@.contains(q)));
    if let Some(list) = allowlist {
        if exists|i: int| 0 <= i < list@.len() && #[trigger] list@[i] == q {
            assert(list@.contains(q));
        }
        if let Some(port) = r {
            let i = list@.index_of(port);
            assert(list@[i] == port);
        }
    }
}

/// A TCP tunnel gets the lowest port of the registry's pool that is free, and allowed
/// where there is an allowlist. The port is reserved and an id is used up; nothing
/// else changes. Only if there is no such port the request fails, and changes nothing.
pub proof fn the_lowest_port_is_handed_out<C, A, L, R>(
    registry: &mut TunnelRegistry<C, A, L, R>,
    allowlist: Option<&[u16]>,
    r: Result<(TunnelId, u16), ServerError>,
    q: u16,
)
    requires
        call_ensures(TunnelRegistry::<C, A, L, R>::allocate_tcp, (registry, allowlist), r),
    ensures
        r matches Ok((id, port)) ==> {
            &&& old(registry)@.port_pool.lo <= port && port <= old(registry)@.port_pool.hi
            &&& !old(registry)@.used_ports.contains(port)
            &&& allowlist matches Some(list) ==> exists|i: int|
                0 <= i < list@.len() && #[trigger] list@[i] == port
            &&& id.0 == old(registry)@.next_id
            &&& final(registry)@ == (RegistryModel {
                used_ports: old(registry)@.used_ports.insert(port),
                next_id: final(registry)@.next_id,
                ..old(registry)@
            })
            &&& old(registry)@.next_id < u64::MAX ==> final(registry)@.next_id == old(
                registry,
            )@.next_id + 1
            &&& old(registry)@.next_id == u64::MAX ==> final(registry)@.next_id == 1
        },
        r matches Err(e) ==> e is PortPoolExhausted && final(registry)@ == old(registry)@,
        old(registry)@.port_pool.lo <= q && q <= old(registry)@.port_pool.hi && !old(
            registry,
        )@.used_ports.contains(q) && (allowlist matches Some(list) ==> exists|i: int|
            0 <= i < list@.len() && #[trigger] list@[i] == q) ==> (r matches Ok((_, port)) && port
            <= q),
{
    let m = old(registry)@;
    assert(m.eligible(allowlist_view(allowlist), q) <==> m.port_pool.lo <= q && q <= m.port_pool.hi
        && !m.used_ports.contains(q) && (allowlist matches Some(list) ==> list@.contains(q)));
    if let Some(list) = allowlist {
        if exists|i: int| 0 <= i < list@.len() && #[trigger] list@[i] == q {
            assert(list@.contains(q));
        }
        if let Ok((_, port)) = r {
            let i = list@.index_of(port);
            assert(list@[i] == port);
        }
    }
}

/// Two tunnels never get the same port, nor the same id unless the ids run out.
pub proof fn ports_are_handed_out_once<C, A, L, R>(
    first: &mut TunnelRegistry<C, A, L, R>,
    second: &mut TunnelRegistry<C, A, L, R>,
    allowlist: Option<&[u16]>,
    other: Option<&[u16]>,
    r: Result<(TunnelId, u16), ServerError>,
    s: Result<(TunnelId, u16), ServerError>,
)
    requires
        call_ensures(TunnelRegistry::<C, A, L, R>::allocate_tcp, (first, allowlist), r),
        *old(second) == *final(first),
        call_ensures(TunnelRegistry::<C, A, L, R>::allocate_tcp, (second, other), s),
        r is Ok,
        s is Ok,
    ensures
        r->Ok_0.1 != s->Ok_0.1,
        old(first)@.next_id < u64::MAX ==> r->Ok_0.0 != s->Ok_0.0,
{
    the_lowest_port_is_handed_out(first, allowlist, r, 0);
    the_lowest_port_is_handed_out(second, other, s, 0);
}

/// A label is reserved exactly if nobody holds it, and then nobody else gets it until
/// it is given back. Nothing else changes but the next id.
pub proof fn a_label_is_reserved_once<C, A, L, R>(
    registry: &mut TunnelRegistry<C, A, L, R>,
    label: &str,
    r: Result<TunnelId, ServerError>,
)
    requires
        call_ensures(TunnelRegistry::<C, A, L, R>::allocate_http, (registry, label), r),
    ensures
        r is Ok <==> !old(registry)@.used_labels.contains(label@),
        r matches Ok(id) ==> {
            &&& id.0 == old(registry)@.next_id
            &&& final(registry)@ == (RegistryModel {
                used_labels: old(registry)@.used_labels.insert(label@),
                next_id: final(registry)@.next_id,
                ..old(registry)@
            })
            &&& old(registry)@.next_id < u64::MAX ==> final(registry)@.next_id == old(
                registry,
            )@.next_id + 1
            &&& old(registry)@.next_id == u64::MAX ==> final(registry)@.next_id == 1
        },
        r matches Err(e) ==> {
            &&& e matches ServerError::Keys(words)
            &&& words@ == "label taken: "@ + label@
            &&& final(registry)@ == old(registry)@
        },
{
}

/// A reserved label can be given back: it is neither held nor routed then, every other
/// label is as it was, and it can be reserved again.
pub proof fn a_label_given_back_is_free<C, A, L, R>(
    given: &mut TunnelRegistry<C, A, L, R>,
    again: &mut TunnelRegistry<C, A, L, R>,
    id: TunnelId,
    label: &str,
    r: Result<TunnelId, ServerError>,
)
    requires
        call_ensures(TunnelRegistry::<C, A, L, R>::abort_http, (given, id, label), ()),
        *old(again) == *final(given),
        call_ensures(TunnelRegistry::<C, A, L, R>::allocate_http, (again, label), r),
    ensures
        final(given)@ == (RegistryModel {
            used_labels: old(given)@.used_labels.remove(label@),
            labels: old(given)@.labels.remove(label@),
            ..old(given)@
        }),
        r is Ok,
{
}

/// A tunnel is published under its id, and an HTTP tunnel under its label too. What is
/// reserved does not change, nor any other tunnel or route.
pub proof fn a_published_tunnel_is_there<C, A, L, R>(
    registry: &mut TunnelRegistry<C, A, L, R>,
    info: TunnelInfo<C, A, L, R>,
)
    requires
        call_ensures(TunnelRegistry::<C, A, L, R>::insert, (registry, info), ()),
    ensures
        final(registry)@ == (RegistryModel {
            tunnels: old(registry)@.tunnels.insert(info.id.0, info),
            labels: final(registry)@.labels,
            ..old(registry)@
        }),
        info.kind matches RegisteredKind::Http { label } ==> final(registry)@.labels == old(
            registry,
        )@.labels.insert(label@, info.id.0),
        info.kind is Tcp ==> final(registry)@.labels == old(registry)@.labels,
{
}

/// A label resolves exactly if it is routed to a tunnel that is live, and then to that
/// tunnel's connection, rate-limit state and inspect flag.
pub proof fn a_label_resolves_to_its_live_tunnel<C: Clone, A, L, R: Clone>(
    registry: &TunnelRegistry<C, A, L, R>,
    label: &str,
    r: Option<ResolvedTunnel<C, R>>,
)
    requires
        call_ensures(TunnelRegistry::<C, A, L, R>::resolve_label, (registry, label), r),
    ensures
        r is Some <==> {
            &&& registry@.labels.contains_key(label@)
            &&& registry@.tunnels.contains_key(registry@.labels[label@])
            &&& registry@.tunnels[registry@.labels[label@]].state is Live
        },
        r matches Some(t) ==> {
            let info = registry@.tunnels[registry@.labels[label@]];
            &&& t.id.0 == registry@.labels[label@]
            &&& info.state matches TunnelState::Live { connection, .. }
            &&& cloned(connection, t.connection)
            &&& cloned(info.rate, t.rate)
            &&& t.inspect == info.inspect
        },
{
}

/// A live HTTP tunnel that has just been published is what its label resolves to.
pub proof fn a_published_label_resolves<C: Clone, A, L, R: Clone>(
    registry: &mut TunnelRegistry<C, A, L, R>,
    info: TunnelInfo<C, A, L, R>,
    label: &str,
    r: Option<ResolvedTunnel<C, R>>,
)
    requires
        call_ensures(TunnelRegistry::<C, A, L, R>::insert, (registry, info), ()),
        info.kind matches RegisteredKind::Http { label: l } && l@ == label@,
        call_ensures(TunnelRegistry::<C, A, L, R>::resolve_label, (final(registry), label), r),
    ensures
        r is Some <==> info.state is Live,
        r matches Some(t) ==> {
            &&& t.id == info.id
            &&& info.state matches TunnelState::Live { connection, .. }
            &&& cloned(connection, t.connection)
            &&& cloned(info.rate, t.rate)
            &&& t.inspect == info.inspect
        },
{
}

/// The handle of a task is recorded in a tunnel that is live, in place of any earlier
/// one, and given back when the tunnel is removed. A tunnel on a lease, or none, is
/// left alone.
pub proof fn a_recorded_handle_is_given_back<C, A, L, R>(
    recorded: &mut TunnelRegistry<C, A, L, R>,
    removed: &mut TunnelRegistry<C, A, L, R>,
    id: TunnelId,
    abort: A,
    r: Option<A>,
)
    requires
        call_ensures(TunnelRegistry::<C, A, L, R>::set_tcp_abort, (recorded, id, abort), ()),
        *old(removed) == *final(recorded),
        call_ensures(TunnelRegistry::<C, A, L, R>::remove, (removed, id), r),
    ensures
        old(recorded)@.tunnels.contains_key(id.0) ==> (old(
            recorded,
        )@.tunnels[id.0].state matches TunnelState::Live { connection, .. } ==> {
            &&& final(recorded)@ == (RegistryModel {
                tunnels: old(recorded)@.tunnels.insert(
                    id.0,
                    TunnelInfo {
                        state: TunnelState::Live { connection, abort: Some(abort) },
                        ..old(recorded)@.tunnels[id.0]
                    },
                ),
                ..old(recorded)@
            })
            &&& r == Some(abort)
        }),
        !old(recorded)@.tunnels.contains_key(id.0) || old(recorded)@.tunnels[id.0].state is Dangling
            ==> final(recorded)@ == old(recorded)@ && r is None,
{
}

/// A client is admitted unless its address is known, there is a cap, and as many HTTP
/// tunnels as the cap allows were registered from that very address.
pub proof fn an_address_is_admitted_below_its_cap<C, A, L, R>(
    registry: &TunnelRegistry<C, A, L, R>,
    ip: Option<IpAddr>,
    r: bool,
)
    requires
        call_ensures(TunnelRegistry::<C, A, L, R>::admits_http_for_ip, (registry, ip), r),
    ensures
        registry@.max_http_per_ip == usize::MAX ==> r,
        ip is None ==> r,
        registry@.max_http_per_ip < usize::MAX ==> (ip matches Some(addr) ==> r == (Set::new(
            |id: u64|
                {
                    &&& registry@.tunnels.contains_key(id)
                    &&& registry@.tunnels[id].kind is Http
                    &&& registry@.tunnels[id].client_ip == Some(addr)
                },
        ).len() < registry@.max_http_per_ip)),
{
    if let Some(addr) = ip {
        assert(registry@.http_from(addr) =~= Set::new(
            |id: u64|
                {
                    &&& registry@.tunnels.contains_key(id)
                    &&& registry@.tunnels[id].kind is Http
                    &&& registry@.tunnels[id].client_ip == Some(addr)
                },
        ));
    }
}

/// The tunnels of a key are counted whatever they publish and whether or not they are
/// live, and so are all tunnels.
pub proof fn tunnels_are_counted<C, A, L, R>(
    registry: &TunnelRegistry<C, A, L, R>,
    owner: &PubKey,
    n: usize,
    all: usize,
    none: bool,
)
    requires
        call_ensures(TunnelRegistry::<C, A, L, R>::count_owned_by, (registry, owner), n),
        call_ensures(TunnelRegistry::<C, A, L, R>::len, (registry,), all),
        call_ensures(TunnelRegistry::<C, A, L, R>::is_empty, (registry,), none),
    ensures
        n == Set::new(
            |id: u64|
                registry@.tunnels.contains_key(id) && registry@.tunnels[id].owner == *owner,
        ).len(),
        all == registry@.tunnels.dom().len(),
        none <==> forall|id: u64| !#[trigger] registry@.tunnels.contains_key(id),
{
    registry.tunnels_are_finite();
    assert(registry@.owned_by(*owner) =~= Set::new(
        |id: u64| registry@.tunnels.contains_key(id) && registry@.tunnels[id].owner == *owner,
    ));
    if registry@.tunnels.dom().len() == 0 {
        registry@.tunnels.dom().lemma_len0_is_empty();
    }
    if forall|id: u64| !#[trigger] registry@.tunnels.contains_key(id) {
        assert(registry@.tunnels.dom() =~= Set::<u64>::empty());
    }
}

/// A snapshot tells of every tunnel, and of nothing else, what it publishes, whose it
/// is, and whether it is live.
pub proof fn a_snapshot_tells_of_every_tunnel<C, A, L, R>(
    registry: &TunnelRegistry<C, A, L, R>,
    out: Vec<TunnelSnapshot>,
)
    requires
        call_ensures(TunnelRegistry::<C, A, L, R>::snapshot, (registry,), out),
        forall|id: u64| #[trigger]
            registry@.tunnels.contains_key(id) ==> registry@.tunnels[id].id.0 == id,
    ensures
        out@.len() == registry@.tunnels.dom().len(),
        forall|id: u64| #[trigger]
            registry@.tunnels.contains_key(id) ==> exists|i: int|
                0 <= i < out@.len() && (#[trigger] out@[i]).tunnel_id.0 == id,
        forall|i: int|
            0 <= i < out@.len() ==> {
                let shown = #[trigger] out@[i];
                let info = registry@.tunnels[shown.tunnel_id.0];
                &&& registry@.tunnels.contains_key(shown.tunnel_id.0)
                &&& shown.owner == info.owner
                &&& shown.session_id == info.session_id
                &&& shown.inspect == info.inspect
                &&& shown.live <==> info.state is Live
                &&& match info.kind {
                    RegisteredKind::Http { label } => {
                        shown.kind matches TunnelSnapshotKind::Http { label: l } && l@ == label@
                    },
                    RegisteredKind::Tcp { public_port } => shown.kind
                        == (TunnelSnapshotKind::Tcp { public_port }),
                }
            },
{
    let ids = choose|ids: Seq<u64>|
        {
            &&& ids.no_duplicates()
            &&& #[trigger] ids.to_set() == registry@.tunnels.dom()
            &&& out@.len() == ids.len()
            &&& forall|i: int|
                0 <= i < ids.len() ==> (#[trigger] out@[i]).shows(registry@.tunnels[ids[i]])
        };
    ids.unique_seq_to_set();
    assert forall|i: int| 0 <= i < ids.len() implies registry@.tunnels.contains_key(
        #[trigger] ids[i],
    ) by {
        assert(ids.to_set().contains(ids[i]));
    }
    assert forall|i: int| 0 <= i < out@.len() implies (#[trigger] out@[i]).tunnel_id.0 == ids[i] by {
        assert(registry@.tunnels.contains_key(ids[i]));
    }
    assert forall|id: u64| #[trigger] registry@.tunnels.contains_key(id) implies exists|i: int|
        0 <= i < out@.len() && (#[trigger] out@[i]).tunnel_id.0 == id by {
        assert(ids.to_set().contains(id));
        let i = ids.index_of(id);
        assert(out@[i].tunnel_id.0 == id);
    }
}

/// A label is valid exactly if it is one to 63 characters long, all of them lower-case
/// ASCII letters, digits and hyphens, with no hyphen at either end, and is not the
/// reserved one.
pub proof fn labels_are_dns_labels(label: &str, r: bool)
    requires
        call_ensures(is_valid_label, (label,), r),
    ensures
        r <==> {
            &&& label@.len() >= 1
            &&& label@.len() <= 63
            &&& label@[0] != '-'
            &&& label@[label@.len() - 1] != '-'
            &&& label@ != "admin"@
            &&& forall|i: int|
                0 <= i < label@.len() ==> {
                    let c = #[trigger] label@[i];
                    'a' <= c <= 'z' || '0' <= c <= '9' || c == '-'
                }
        },
{
}

/// A list holds a port exactly if it stands somewhere in it.
pub proof fn a_list_holds_its_ports(list: &[u16], port: u16, r: bool)
    requires
        call_ensures(slice_has, (list, port), r),
    ensures
        r <==> exists|i: int| 0 <= i < list@.len() && #[trigger] list@[i] == port,
{
    if exists|i: int| 0 <= i < list@.len() && #[trigger] list@[i] == port {
        assert(list@.contains(port));
    }
    if r {
        assert(list@[list@.index_of(port)] == port);
    }
}

} // verus!
