//! What becomes of tunnels when their session ends: leases, resumes and reaping, told
//! on the tunnels themselves.

use vstd::prelude::*;

use crate::metrics::Metric;
use crate::proto::{PubKey, SessionId, TunnelId, DEFAULT_GRACE_PERIOD};
use crate::registry::TunnelRegistry;
use crate::server::session_over;
use crate::session::SessionOutcome;
use crate::tunnel::{
    RegisteredKind, RegistryModel, ResumeOutcome, ResumedInfo, TunnelInfo, TunnelState,
};

verus! {

/// Whether `after` is `before` less exactly the tunnels `gone`: the ports, labels and
/// routes of these are free, and nothing else is different.
pub open spec fn loses_exactly<C, A, L, R>(
    before: RegistryModel<C, A, L, R>,
    after: RegistryModel<C, A, L, R>,
    gone: Set<u64>,
) -> bool {
    &&& after.port_pool == before.port_pool
    &&& after.max_http_per_ip == before.max_http_per_ip
    &&& after.next_id == before.next_id
    &&& forall|id: u64| #[trigger]
        after.tunnels.contains_key(id) <==> before.tunnels.contains_key(id) && !gone.contains(id)
    &&& forall|id: u64| #[trigger]
        after.tunnels.contains_key(id) ==> after.tunnels[id] == before.tunnels[id]
    &&& forall|port: u16| #[trigger]
        after.used_ports.contains(port) <==> before.used_ports.contains(port) && !exists|id: u64|
            {
                &&& #[trigger] gone.contains(id)
                &&& before.tunnels.contains_key(id)
                &&& before.tunnels[id].kind == (RegisteredKind::Tcp { public_port: port })
            }
    &&& forall|label: Seq<char>| #[trigger]
        after.used_labels.contains(label) <==> before.used_labels.contains(label) && !exists|
            id: u64,
        |
            {
                &&& #[trigger] gone.contains(id)
                &&& before.tunnels.contains_key(id)
                &&& before.tunnels[id].kind matches RegisteredKind::Http { label: l } && l@ == label
            }
    &&& forall|label: Seq<char>| #[trigger]
        after.labels.contains_key(label) <==> before.labels.contains_key(label) && !exists|id: u64|
            {
                &&& #[trigger] gone.contains(id)
                &&& before.tunnels.contains_key(id)
                &&& before.tunnels[id].kind matches RegisteredKind::Http { label: l } && l@ == label
            }
    &&& forall|label: Seq<char>| #[trigger]
        after.labels.contains_key(label) ==> after.labels[label] == before.labels[label]
}

/// Taking tunnels out of a registry takes these, and frees what they held.
pub proof fn without_loses_exactly<C, A, L, R>(m: RegistryModel<C, A, L, R>, ids: Set<u64>)
    ensures
        loses_exactly(m, m.without(ids), ids),
{
    let after = m.without(ids);
    assert forall|port: u16| #[trigger] m.ports_of(ids).contains(port) <==> exists|id: u64|
        {
            &&& #[trigger] ids.contains(id)
            &&& m.tunnels.contains_key(id)
            &&& m.tunnels[id].kind == (RegisteredKind::Tcp { public_port: port })
        } by {
        if m.ports_of(ids).contains(port) {
            let id = choose|id: u64| #[trigger]
                ids.contains(id) && m.tunnels.contains_key(id) && m.tunnels[id].tcp_port() == Some(
                    port,
                );
            assert(ids.contains(id));
        }
    }
    assert forall|label: Seq<char>| #[trigger] m.labels_of(ids).contains(label) <==> exists|id: u64|
        {
            &&& #[trigger] ids.contains(id)
            &&& m.tunnels.contains_key(id)
            &&& m.tunnels[id].kind matches RegisteredKind::Http { label: l } && l@ == label
        } by {
        if m.labels_of(ids).contains(label) {
            let id = choose|id: u64| #[trigger]
                ids.contains(id) && m.tunnels.contains_key(id) && m.tunnels[id].http_label()
                    == Some(label);
            assert(ids.contains(id));
        }
    }
}

/// A client that vanishes leaves each of its live tunnels on a lease: of the
/// configured length, or of the protocol's where none is configured. A tunnel already
/// on a lease keeps it, and nothing else about any tunnel or reservation changes.
pub proof fn a_drop_leases_what_was_live<C, A, L, R>(
    registry: &mut TunnelRegistry<C, A, L, R>,
    owner: &PubKey,
    resume_grace: Option<u128>,
    now: u128,
    r: (Metric, Vec<(TunnelId, A)>),
)
    requires
        call_ensures(
            session_over::<C, A, L, R>,
            (registry, owner, Some(SessionOutcome::Dropped), resume_grace, now),
            r,
        ),
        resume_grace matches Some(grace) ==> now + grace <= u128::MAX,
        resume_grace is None ==> now + DEFAULT_GRACE_PERIOD <= u128::MAX,
    ensures
        final(registry)@ == (RegistryModel {
            tunnels: final(registry)@.tunnels,
            ..old(registry)@
        }),
        final(registry)@.tunnels.dom() == old(registry)@.tunnels.dom(),
        forall|id: u64| #[trigger]
            old(registry)@.tunnels.contains_key(id) ==> {
                let was = old(registry)@.tunnels[id];
                let now_is = final(registry)@.tunnels[id];
                if was.owner == *owner && was.state is Live {
                    &&& now_is == (TunnelInfo { state: now_is.state, ..was })
                    &&& now_is.state matches TunnelState::Dangling { expires_at }
                    &&& resume_grace matches Some(grace) ==> expires_at == now + grace
                    &&& resume_grace is None ==> expires_at == now + DEFAULT_GRACE_PERIOD
                } else {
                    now_is == was
                }
            },
        DEFAULT_GRACE_PERIOD == 30 * 1_000_000_000,
        r.0 == Metric::SessionDropped,
{
    assert(final(registry)@.tunnels.dom() =~= old(registry)@.tunnels.dom());
}

/// Any other end of a session takes the key's tunnels away, live or on a lease, and
/// frees what they held; those of other keys stay.
pub proof fn any_other_end_removes<C, A, L, R>(
    registry: &mut TunnelRegistry<C, A, L, R>,
    owner: &PubKey,
    result: Option<SessionOutcome>,
    resume_grace: Option<u128>,
    now: u128,
    r: (Metric, Vec<(TunnelId, A)>),
)
    requires
        call_ensures(
            session_over::<C, A, L, R>,
            (registry, owner, result, resume_grace, now),
            r,
        ),
        result != Some(SessionOutcome::Dropped),
    ensures
        loses_exactly(
            old(registry)@,
            final(registry)@,
            Set::new(
                |id: u64|
                    old(registry)@.tunnels.contains_key(id) && old(registry)@.tunnels[id].owner
                        == *owner,
            ),
        ),
        r.0 == Metric::SessionBye <==> result == Some(SessionOutcome::Bye),
        r.0 == Metric::SessionTerminal <==> result == Some(SessionOutcome::Terminal) || result
            is None,
{
    let m = old(registry)@;
    without_loses_exactly(m, m.owned_by(*owner));
    assert(m.owned_by(*owner) =~= Set::new(
        |id: u64| m.tunnels.contains_key(id) && m.tunnels[id].owner == *owner,
    ));
}

/// However a session ends, the tasks that serve the key's tunnels are to be stopped:
/// the handle of each live tunnel that has one is given back, once, and no other.
pub proof fn every_task_of_the_key_is_stopped<C, A, L, R>(
    registry: &mut TunnelRegistry<C, A, L, R>,
    owner: &PubKey,
    result: Option<SessionOutcome>,
    resume_grace: Option<u128>,
    now: u128,
    r: (Metric, Vec<(TunnelId, A)>),
)
    requires
        call_ensures(
            session_over::<C, A, L, R>,
            (registry, owner, result, resume_grace, now),
            r,
        ),
    ensures
        forall|i: int|
            0 <= i < r.1@.len() ==> {
                let id = (#[trigger] r.1@[i]).0.0;
                &&& old(registry)@.tunnels.contains_key(id)
                &&& old(registry)@.tunnels[id].owner == *owner
                &&& old(registry)@.tunnels[id].state matches TunnelState::Live { abort, .. }
                &&& abort == Some(r.1@[i].1)
            },
        forall|i: int, j: int|
            0 <= i < j < r.1@.len() ==> (#[trigger] r.1@[i]).0 != (#[trigger] r.1@[j]).0,
        forall|id: u64| #[trigger]
            old(registry)@.tunnels.contains_key(id) ==> old(registry)@.tunnels[id].owner == *owner
                ==> (old(registry)@.tunnels[id].state matches TunnelState::Live { abort, .. }
                ==> abort is Some ==> exists|i: int|
                0 <= i < r.1@.len() && (#[trigger] r.1@[i]).0.0 == id),
{
    let m = old(registry)@;
    assert forall|id: u64| #[trigger] m.tunnels.contains_key(id) && m.tunnels[id].owner
        == *owner implies m.owned_by(*owner).contains(id) by {}
}

/// Putting a key's tunnels on a lease changes the state of those that are live, to
/// one that ends when the grace has passed, and nothing else.
pub proof fn marking_dangling_is_exact<C, A, L, R>(
    registry: &mut TunnelRegistry<C, A, L, R>,
    owner: &PubKey,
    grace: u128,
    now: u128,
    handles: Vec<(TunnelId, A)>,
)
    requires
        call_ensures(
            TunnelRegistry::<C, A, L, R>::mark_dangling,
            (registry, owner, grace, now),
            handles,
        ),
        now + grace <= u128::MAX,
    ensures
        final(registry)@ == (RegistryModel {
            tunnels: final(registry)@.tunnels,
            ..old(registry)@
        }),
        final(registry)@.tunnels.dom() == old(registry)@.tunnels.dom(),
        forall|id: u64| #[trigger]
            old(registry)@.tunnels.contains_key(id) ==> {
                let was = old(registry)@.tunnels[id];
                let now_is = final(registry)@.tunnels[id];
                if was.owner == *owner && was.state is Live {
                    &&& now_is == (TunnelInfo { state: now_is.state, ..was })
                    &&& now_is.state matches TunnelState::Dangling { expires_at }
                    &&& expires_at == now + grace
                } else {
                    now_is == was
                }
            },
        forall|i: int|
            0 <= i < handles@.len() ==> {
                let id = (#[trigger] handles@[i]).0.0;
                &&& old(registry)@.tunnels.contains_key(id)
                &&& old(registry)@.tunnels[id].owner == *owner
                &&& old(registry)@.tunnels[id].state matches TunnelState::Live { abort, .. }
                &&& abort == Some(handles@[i].1)
            },
        forall|id: u64| #[trigger]
            old(registry)@.tunnels.contains_key(id) ==> old(registry)@.tunnels[id].owner == *owner
                ==> (old(registry)@.tunnels[id].state matches TunnelState::Live { abort, .. }
                ==> abort is Some ==> exists|i: int|
                0 <= i < handles@.len() && (#[trigger] handles@[i]).0.0 == id),
{
    let m = old(registry)@;
    assert(final(registry)@.tunnels.dom() =~= m.tunnels.dom());
    assert forall|id: u64| #[trigger] m.tunnels.contains_key(id) && m.tunnels[id].owner
        == *owner implies m.owned_by(*owner).contains(id) by {}
}

/// Dropping a second time does not prolong a lease.
pub proof fn a_second_drop_keeps_the_lease<C, A, L, R>(
    first: &mut TunnelRegistry<C, A, L, R>,
    second: &mut TunnelRegistry<C, A, L, R>,
    owner: &PubKey,
    grace: u128,
    now: u128,
    longer: u128,
    later: u128,
    handles: Vec<(TunnelId, A)>,
    more: Vec<(TunnelId, A)>,
)
    requires
        call_ensures(
            TunnelRegistry::<C, A, L, R>::mark_dangling,
            (first, owner, grace, now),
            handles,
        ),
        *old(second) == *final(first),
        call_ensures(
            TunnelRegistry::<C, A, L, R>::mark_dangling,
            (second, owner, longer, later),
            more,
        ),
        now + grace <= u128::MAX,
        later + longer <= u128::MAX,
    ensures
        final(second)@ == final(first)@,
        more@.len() == 0,
{
    marking_dangling_is_exact(first, owner, grace, now, handles);
    assert(final(second)@.tunnels =~= final(first)@.tunnels);
    if more@.len() > 0 {
        assert(more@[0] == more@[0]);
    }
}

/// A tunnel is handed over to a new connection exactly if it is on a lease that still
/// runs, of the session named, and belongs to the key that asks. It keeps all but its
/// connection, and no other tunnel or reservation changes.
pub proof fn a_lease_is_handed_over<C, A, L: Clone, R>(
    registry: &mut TunnelRegistry<C, A, L, R>,
    id: TunnelId,
    session_id: SessionId,
    pubkey: &PubKey,
    connection: C,
    now: u128,
    r: ResumeOutcome<L>,
)
    requires
        call_ensures(
            TunnelRegistry::<C, A, L, R>::reattach,
            (registry, id, session_id, pubkey, connection, now),
            r,
        ),
        old(registry)@.tunnels.contains_key(id.0),
        old(registry)@.tunnels[id.0].kind is Tcp ==> old(registry)@.tunnels[id.0].tcp_listener
            is Some,
    ensures
        ({
            let was = old(registry)@.tunnels[id.0];
            let leased = was.session_id == session_id && (was.state matches TunnelState::Dangling {
                expires_at,
            } && now < expires_at);
            &&& r is Unknown <==> !leased
            &&& r is IdentityMismatch <==> leased && was.owner != *pubkey
            &&& r is Reattached <==> leased && was.owner == *pubkey
            &&& r !is Reattached ==> final(registry)@ == old(registry)@
            &&& r matches ResumeOutcome::Reattached { tunnel_id, info, inspect } ==> {
                &&& tunnel_id == id
                &&& inspect == was.inspect
                &&& was.kind matches RegisteredKind::Http { label } ==> (info matches ResumedInfo::Http {
                    label: l,
                } && l@ == label@)
                &&& was.kind matches RegisteredKind::Tcp { public_port } ==> (
                info matches ResumedInfo::Tcp { public_port: p, listener } && p == public_port
                    && cloned(was.tcp_listener->0, listener))
                &&& final(registry)@ == (RegistryModel {
                    tunnels: old(registry)@.tunnels.insert(
                        id.0,
                        TunnelInfo { state: TunnelState::Live { connection, abort: None }, ..was },
                    ),
                    ..old(registry)@
                })
            }
        }),
{
}

/// A published label leads to its tunnel: what a resume under that label comes to is
/// what the tunnel's lease says, whatever other tunnels there are.
pub proof fn a_label_resumes_its_tunnel<C, A, L: Clone, R>(
    registry: &mut TunnelRegistry<C, A, L, R>,
    label: &str,
    session_id: SessionId,
    pubkey: &PubKey,
    connection: C,
    now: u128,
    r: ResumeOutcome<L>,
)
    requires
        call_ensures(
            TunnelRegistry::<C, A, L, R>::try_resume,
            (registry, label, session_id, pubkey, connection, now),
            r,
        ),
        old(registry)@.labels.contains_key(label@),
        old(registry)@.tunnels.contains_key(old(registry)@.labels[label@]),
        old(registry)@.tunnels[old(registry)@.labels[label@]].kind is Http,
    ensures
        ({
            let id = old(registry)@.labels[label@];
            let was = old(registry)@.tunnels[id];
            let leased = was.session_id == session_id && (was.state matches TunnelState::Dangling {
                expires_at,
            } && now < expires_at);
            &&& r is Unknown <==> !leased
            &&& r is IdentityMismatch <==> leased && was.owner != *pubkey
            &&& r is Reattached <==> leased && was.owner == *pubkey
            &&& r !is Reattached ==> final(registry)@ == old(registry)@
            &&& r matches ResumeOutcome::Reattached { tunnel_id, info, inspect } ==> {
                &&& tunnel_id.0 == id
                &&& inspect == was.inspect
                &&& was.kind matches RegisteredKind::Http { label: l }
                &&& info matches ResumedInfo::Http { label: given }
                &&& given@ == l@
                &&& final(registry)@ == (RegistryModel {
                    tunnels: old(registry)@.tunnels.insert(
                        id,
                        TunnelInfo { state: TunnelState::Live { connection, abort: None }, ..was },
                    ),
                    ..old(registry)@
                })
            }
        }),
{
}

/// Where the label names nothing, a resume is about TCP tunnels on a running lease of
/// the session: one of the key's own is handed over if there is any; otherwise the
/// lease belongs to somebody else, or there is none.
pub proof fn a_session_resumes_its_tcp_tunnels<C, A, L: Clone, R>(
    registry: &mut TunnelRegistry<C, A, L, R>,
    label: &str,
    session_id: SessionId,
    pubkey: &PubKey,
    connection: C,
    now: u128,
    r: ResumeOutcome<L>,
)
    requires
        call_ensures(
            TunnelRegistry::<C, A, L, R>::try_resume,
            (registry, label, session_id, pubkey, connection, now),
            r,
        ),
        !old(registry)@.labels.contains_key(label@),
        forall|id: u64| #[trigger]
            old(registry)@.tunnels.contains_key(id) ==> old(registry)@.tunnels[id].kind is Tcp
                ==> old(registry)@.tunnels[id].tcp_listener is Some,
    ensures
        ({
            let leased = |t: TunnelInfo<C, A, L, R>|
                t.kind is Tcp && t.session_id == session_id && (
                t.state matches TunnelState::Dangling { expires_at } && now < expires_at);
            let m = old(registry)@;
            &&& r is Reattached <==> exists|id: u64| #[trigger]
                m.tunnels.contains_key(id) && leased(m.tunnels[id]) && m.tunnels[id].owner
                    == *pubkey
            &&& r is Unknown <==> forall|id: u64| #[trigger]
                m.tunnels.contains_key(id) ==> !leased(m.tunnels[id])
            &&& r !is Reattached ==> final(registry)@ == m
            &&& r matches ResumeOutcome::Reattached { tunnel_id, info, inspect } ==> {
                let was = m.tunnels[tunnel_id.0];
                &&& m.tunnels.contains_key(tunnel_id.0)
                &&& leased(was)
                &&& was.owner == *pubkey
                &&& inspect == was.inspect
                &&& info matches ResumedInfo::Tcp { public_port, listener }
                &&& was.kind == (RegisteredKind::Tcp { public_port })
                &&& cloned(was.tcp_listener->0, listener)
                &&& final(registry)@ == (RegistryModel {
                    tunnels: m.tunnels.insert(
                        tunnel_id.0,
                        TunnelInfo { state: TunnelState::Live { connection, abort: None }, ..was },
                    ),
                    ..m
                })
            }
        }),
{
    let m = old(registry)@;
    old(registry).tunnels_are_finite();
    let leases = m.tcp_leases(session_id, now);
    let mine = leases.intersect(m.owned_by(*pubkey));
    vstd::set_lib::lemma_set_subset_finite(m.tunnels.dom(), leases);
    vstd::set_lib::lemma_set_subset_finite(m.tunnels.dom(), mine);
    if leases.len() == 0 {
        leases.lemma_len0_is_empty();
    }
    if mine.len() == 0 {
        mine.lemma_len0_is_empty();
    }
    let leased = |t: TunnelInfo<C, A, L, R>|
        t.kind is Tcp && t.session_id == session_id && (t.state matches TunnelState::Dangling {
            expires_at,
        } && now < expires_at);
    assert forall|id: u64| #[trigger] m.tunnels.contains_key(id) && leased(
        m.tunnels[id],
    ) implies leases.contains(id) by {}
    assert forall|id: u64| #[trigger] m.tunnels.contains_key(id) && leased(m.tunnels[id])
        && m.tunnels[id].owner == *pubkey implies mine.contains(id) by {}
    assert forall|id: u64| #[trigger] leases.contains(id) implies m.tunnels.contains_key(id)
        && leased(m.tunnels[id]) by {}
    if mine.len() > 0 {
        let id = mine.choose();
        assert(mine.contains(id));
        assert(m.tunnels.contains_key(id));
    }
    if leases.len() > 0 {
        let id = leases.choose();
        assert(leases.contains(id));
    }
}

/// The tunnel of a client that vanished comes back, under its id and label, at any
/// moment before the configured grace has passed, and at none after.
pub proof fn a_dropped_tunnel_waits_for_the_grace<C, A, L: Clone, R>(
    first: &mut TunnelRegistry<C, A, L, R>,
    second: &mut TunnelRegistry<C, A, L, R>,
    owner: &PubKey,
    resume_grace: Option<u128>,
    dropped_at: u128,
    ended: (Metric, Vec<(TunnelId, A)>),
    id: u64,
    label: &str,
    connection: C,
    now: u128,
    r: ResumeOutcome<L>,
)
    requires
        call_ensures(
            session_over::<C, A, L, R>,
            (first, owner, Some(SessionOutcome::Dropped), resume_grace, dropped_at),
            ended,
        ),
        resume_grace matches Some(grace) ==> dropped_at + grace <= u128::MAX,
        resume_grace is None ==> dropped_at + DEFAULT_GRACE_PERIOD <= u128::MAX,
        old(first)@.tunnels.contains_key(id),
        old(first)@.tunnels[id].state is Live,
        old(first)@.tunnels[id].owner == *owner,
        old(first)@.tunnels[id].kind matches RegisteredKind::Http { label: l } && l@ == label@,
        old(first)@.labels.contains_key(label@),
        old(first)@.labels[label@] == id,
        *old(second) == *final(first),
        call_ensures(
            TunnelRegistry::<C, A, L, R>::try_resume,
            (second, label, old(first)@.tunnels[id].session_id, owner, connection, now),
            r,
        ),
    ensures
        r is Reattached <==> match resume_grace {
            Some(grace) => now < dropped_at + grace,
            None => now < dropped_at + DEFAULT_GRACE_PERIOD,
        },
        r !is Reattached ==> r is Unknown && final(second)@ == final(first)@,
        r matches ResumeOutcome::Reattached { tunnel_id, info, inspect } ==> {
            &&& tunnel_id.0 == id
            &&& info matches ResumedInfo::Http { label: l }
            &&& l@ == label@
            &&& inspect == old(first)@.tunnels[id].inspect
            &&& final(second)@.tunnels[id] == (TunnelInfo {
                state: TunnelState::Live { connection, abort: None },
                ..old(first)@.tunnels[id]
            })
        },
{
    a_drop_leases_what_was_live(first, owner, resume_grace, dropped_at, ended);
    a_label_resumes_its_tunnel(
        second,
        label,
        old(first)@.tunnels[id].session_id,
        owner,
        connection,
        now,
        r,
    );
}

/// The only TCP tunnel that a vanished session had comes back too, on its port, at any
/// moment before the configured grace has passed, and at none after.
pub proof fn a_dropped_port_waits_for_the_grace<C, A, L: Clone, R>(
    first: &mut TunnelRegistry<C, A, L, R>,
    second: &mut TunnelRegistry<C, A, L, R>,
    owner: &PubKey,
    resume_grace: Option<u128>,
    dropped_at: u128,
    ended: (Metric, Vec<(TunnelId, A)>),
    id: u64,
    label: &str,
    connection: C,
    now: u128,
    r: ResumeOutcome<L>,
)
    requires
        call_ensures(
            session_over::<C, A, L, R>,
            (first, owner, Some(SessionOutcome::Dropped), resume_grace, dropped_at),
            ended,
        ),
        resume_grace matches Some(grace) ==> dropped_at + grace <= u128::MAX,
        resume_grace is None ==> dropped_at + DEFAULT_GRACE_PERIOD <= u128::MAX,
        old(first)@.tunnels.contains_key(id),
        old(first)@.tunnels[id].state is Live,
        old(first)@.tunnels[id].owner == *owner,
        old(first)@.tunnels[id].kind is Tcp,
        old(first)@.tunnels[id].tcp_listener is Some,
        forall|other: u64| #[trigger]
            old(first)@.tunnels.contains_key(other) && other != id ==> old(
                first,
            )@.tunnels[other].session_id != old(first)@.tunnels[id].session_id,
        !old(first)@.labels.contains_key(label@),
        *old(second) == *final(first),
        call_ensures(
            TunnelRegistry::<C, A, L, R>::try_resume,
            (second, label, old(first)@.tunnels[id].session_id, owner, connection, now),
            r,
        ),
    ensures
        r is Reattached <==> match resume_grace {
            Some(grace) => now < dropped_at + grace,
            None => now < dropped_at + DEFAULT_GRACE_PERIOD,
        },
        r !is Reattached ==> r is Unknown && final(second)@ == final(first)@,
        r matches ResumeOutcome::Reattached { tunnel_id, info, inspect } ==> {
            &&& tunnel_id.0 == id
            &&& info matches ResumedInfo::Tcp { public_port, listener }
            &&& old(first)@.tunnels[id].kind == (RegisteredKind::Tcp { public_port })
            &&& cloned(old(first)@.tunnels[id].tcp_listener->0, listener)
            &&& inspect == old(first)@.tunnels[id].inspect
            &&& final(second)@.tunnels[id] == (TunnelInfo {
                state: TunnelState::Live { connection, abort: None },
                ..old(first)@.tunnels[id]
            })
        },
{
    a_drop_leases_what_was_live(first, owner, resume_grace, dropped_at, ended);
    let session = old(first)@.tunnels[id].session_id;
    let m = old(second)@;
    old(second).tunnels_are_finite();
    assert forall|k: u64| #[trigger] m.tunnels.contains_key(k) && k != id implies m.tunnels[k].session_id
        != session by {
        assert(old(first)@.tunnels.contains_key(k));
    }
    assert(m.tunnels.contains_key(id));
    let leases = m.tcp_leases(session, now);
    let mine = leases.intersect(m.owned_by(*owner));
    vstd::set_lib::lemma_set_subset_finite(m.tunnels.dom(), leases);
    vstd::set_lib::lemma_set_subset_finite(m.tunnels.dom(), mine);
    if leases.len() == 0 {
        leases.lemma_len0_is_empty();
    }
    if mine.len() == 0 {
        mine.lemma_len0_is_empty();
    }
    assert(mine.contains(id) <==> leases.contains(id));
    assert forall|k: u64| #[trigger] leases.contains(k) implies k == id by {
        assert(m.tunnels.contains_key(k));
    }
    if leases.len() > 0 {
        assert(leases.contains(leases.choose()));
    }
}

/// Reaping takes away the tunnels whose lease has run out, HTTP or TCP, frees what
/// they held, and counts them. Live tunnels and running leases stay as they are.
pub proof fn reaping_takes_what_has_run_out<C, A, L, R>(
    registry: &mut TunnelRegistry<C, A, L, R>,
    now: u128,
    n: usize,
)
    requires
        call_ensures(TunnelRegistry::<C, A, L, R>::reap_expired, (registry, now), n),
    ensures
        ({
            let over = Set::new(
                |id: u64|
                    old(registry)@.tunnels.contains_key(id) && (
                    old(registry)@.tunnels[id].state matches TunnelState::Dangling { expires_at }
                        && expires_at <= now),
            );
            &&& loses_exactly(old(registry)@, final(registry)@, over)
            &&& n == over.len()
        }),
        forall|id: u64| #[trigger]
            final(registry)@.tunnels.contains_key(id) ==> (
            final(registry)@.tunnels[id].state matches TunnelState::Dangling { expires_at } ==> now
                < expires_at),
{
    let m = old(registry)@;
    let over = Set::new(
        |id: u64|
            m.tunnels.contains_key(id) && (m.tunnels[id].state matches TunnelState::Dangling {
                expires_at,
            } && expires_at <= now),
    );
    without_loses_exactly(m, m.expired(now));
    assert(m.expired(now) =~= over);
    assert forall|id: u64| #[trigger] final(registry)@.tunnels.contains_key(id) implies (
    final(registry)@.tunnels[id].state matches TunnelState::Dangling { expires_at } ==> now
        < expires_at) by {
        assert(!over.contains(id));
    }
}

/// At any moment a tunnel on a lease either can be resumed by its session and key, or
/// is reaped: never both and never neither.
pub proof fn a_lease_is_resumable_or_reaped<C, A, L: Clone, R>(
    resumed: &mut TunnelRegistry<C, A, L, R>,
    reaped: &mut TunnelRegistry<C, A, L, R>,
    id: u64,
    connection: C,
    now: u128,
    r: ResumeOutcome<L>,
    n: usize,
)
    requires
        *old(resumed) == *old(reaped),
        old(resumed)@.tunnels.contains_key(id),
        old(resumed)@.tunnels[id].state is Dangling,
        old(resumed)@.tunnels[id].kind is Tcp ==> old(resumed)@.tunnels[id].tcp_listener is Some,
        call_ensures(
            TunnelRegistry::<C, A, L, R>::reattach,
            (
                resumed,
                TunnelId(id),
                old(resumed)@.tunnels[id].session_id,
                &old(resumed)@.tunnels[id].owner,
                connection,
                now,
            ),
            r,
        ),
        call_ensures(TunnelRegistry::<C, A, L, R>::reap_expired, (reaped, now), n),
    ensures
        r is Reattached <==> final(reaped)@.tunnels.contains_key(id),
        r !is Reattached ==> n > 0,
{
    let m = old(reaped)@;
    old(reaped).tunnels_are_finite();
    reaping_takes_what_has_run_out(reaped, now, n);
    let over = Set::new(
        |k: u64|
            m.tunnels.contains_key(k) && (m.tunnels[k].state matches TunnelState::Dangling {
                expires_at,
            } && expires_at <= now),
    );
    vstd::set_lib::lemma_set_subset_finite(m.tunnels.dom(), over);
    if over.len() == 0 {
        over.lemma_len0_is_empty();
    }
    assert(over.contains(id) <==> r !is Reattached);
}

/// Removing a tunnel takes away that tunnel, frees what it held, and gives back the
/// handle of the task that serves it.
pub proof fn a_removed_tunnel_is_gone<C, A, L, R>(
    registry: &mut TunnelRegistry<C, A, L, R>,
    id: TunnelId,
    r: Option<A>,
)
    requires
        call_ensures(TunnelRegistry::<C, A, L, R>::remove, (registry, id), r),
    ensures
        loses_exactly(old(registry)@, final(registry)@, set![id.0]),
        r matches Some(a) ==> old(registry)@.tunnels.contains_key(id.0) && (old(
            registry,
        )@.tunnels[id.0].state matches TunnelState::Live { abort, .. } && abort == Some(a)),
        old(registry)@.tunnels.contains_key(id.0) && (old(
            registry,
        )@.tunnels[id.0].state matches TunnelState::Live { abort, .. } && abort is Some) ==> r
            is Some,
{
    without_loses_exactly(old(registry)@, set![id.0]);
}

/// Removing the tunnels of a key takes away those, live or on a lease, and no other,
/// and gives back the handles of the tasks that serve them.
pub proof fn a_removed_key_has_no_tunnels<C, A, L, R>(
    registry: &mut TunnelRegistry<C, A, L, R>,
    owner: &PubKey,
    handles: Vec<(TunnelId, A)>,
)
    requires
        call_ensures(
            TunnelRegistry::<C, A, L, R>::remove_all_owned_by,
            (registry, owner),
            handles,
        ),
    ensures
        loses_exactly(
            old(registry)@,
            final(registry)@,
            Set::new(
                |id: u64|
                    old(registry)@.tunnels.contains_key(id) && old(registry)@.tunnels[id].owner
                        == *owner,
            ),
        ),
        forall|i: int|
            0 <= i < handles@.len() ==> {
                let id = (#[trigger] handles@[i]).0.0;
                &&& old(registry)@.tunnels.contains_key(id)
                &&& old(registry)@.tunnels[id].owner == *owner
                &&& old(registry)@.tunnels[id].state matches TunnelState::Live { abort, .. }
                &&& abort == Some(handles@[i].1)
            },
        forall|id: u64| #[trigger]
            old(registry)@.tunnels.contains_key(id) ==> old(registry)@.tunnels[id].owner == *owner
                ==> (old(registry)@.tunnels[id].state matches TunnelState::Live { abort, .. }
                ==> abort is Some ==> exists|i: int|
                0 <= i < handles@.len() && (#[trigger] handles@[i]).0.0 == id),
{
    let m = old(registry)@;
    without_loses_exactly(m, m.owned_by(*owner));
    assert(m.owned_by(*owner) =~= Set::new(
        |id: u64| m.tunnels.contains_key(id) && m.tunnels[id].owner == *owner,
    ));
    assert forall|id: u64| #[trigger] m.tunnels.contains_key(id) && m.tunnels[id].owner
        == *owner implies m.owned_by(*owner).contains(id) by {}
}

/// Where there is no tunnel nothing is handed over. A TCP tunnel that has lost its
/// listener is reported as unknown although it is switched over.
pub proof fn a_tunnel_without_a_listener_is_unknown<C, A, L: Clone, R>(
    registry: &mut TunnelRegistry<C, A, L, R>,
    id: TunnelId,
    session_id: SessionId,
    pubkey: &PubKey,
    connection: C,
    now: u128,
    r: ResumeOutcome<L>,
)
    requires
        call_ensures(
            TunnelRegistry::<C, A, L, R>::reattach,
            (registry, id, session_id, pubkey, connection, now),
            r,
        ),
    ensures
        !old(registry)@.tunnels.contains_key(id.0) ==> r is Unknown && final(registry)@ == old(
            registry,
        )@,
        old(registry)@.tunnels.contains_key(id.0) ==> {
            let was = old(registry)@.tunnels[id.0];
            was.kind is Tcp && was.tcp_listener is None && was.owner == *pubkey && was.session_id
                == session_id && (was.state matches TunnelState::Dangling { expires_at } && now
                < expires_at) ==> r is Unknown && final(registry)@ == (RegistryModel {
                tunnels: old(registry)@.tunnels.insert(
                    id.0,
                    TunnelInfo { state: TunnelState::Live { connection, abort: None }, ..was },
                ),
                ..old(registry)@
            })
        },
{
}

} // verus!
