//! What holds of sessions and the registry they share.

use vstd::prelude::*;

use crate::metrics::Metric;
use crate::proto::{ClientFrame, ErrorCode, IpAddr, PubKey, SessionId, TunnelId, TunnelKind};
use crate::registry_laws::{
    a_fresh_id_keeps_wf, a_label_can_be_given_back, changing_leases_keeps_expectations,
    dangling_keeps_wf, http_tunnel_survives_a_drop, publishing_keeps_expectations,
    publishing_keeps_the_cap, publishing_keeps_wf, removed_tunnels_are_not_resumed,
    removing_keeps_expectations, removing_keeps_the_caps, removing_keeps_wf,
    reserving_a_label_keeps_wf, reserving_a_port_keeps_wf, resume_keeps_the_tunnel,
    resuming_keeps_wf,
};
use crate::registry::valid_label;
use crate::server::settled;
use crate::session::{
    federated, http_url, tcp_url, DispatchStep, Progress, RegisterStep, Session, SessionOutcome,
};
use crate::tunnel::{RegistryModel, ResumeOutcome, TunnelInfo};

verus! {

/// A peer is consulted exactly if it is both on the server's list and on the key's.
pub proof fn federation_is_intersection(
    peers: Seq<Seq<char>>,
    federation: Seq<Seq<char>>,
    peer: Seq<char>,
)
    ensures
        federated(peers, federation).contains(peer) <==> peers.contains(peer)
            && federation.contains(peer),
    decreases peers.len(),
{
    reveal(Seq::filter);
    if peers.len() > 0 {
        let rest = peers.drop_last();
        let last = peers.last();
        let sub = federated(rest, federation);
        federation_is_intersection(rest, federation, peer);
        assert(peers.contains(peer) <==> rest.contains(peer) || last == peer) by {
            if peers.contains(peer) {
                let k = peers.index_of(peer);
                if k < rest.len() {
                    assert(rest[k] == peer);
                }
            }
            if rest.contains(peer) {
                assert(peers[rest.index_of(peer)] == peer);
            }
            assert(peers[peers.len() - 1] == last);
        }
        let out = sub.push(last);
        assert(out.contains(peer) <==> sub.contains(peer) || last == peer) by {
            if out.contains(peer) {
                let k = out.index_of(peer);
                if k < sub.len() {
                    assert(sub[k] == peer);
                }
            }
            if sub.contains(peer) {
                assert(out[sub.index_of(peer)] == peer);
            }
            assert(out[sub.len() as int] == last);
        }
    }
}

/// Settling a request for an HTTP label keeps a registry consistent and every
/// address within its cap.
pub proof fn settling_http_keeps_wf<C: Clone, A, L, R: Clone>(
    session: Session<C, R>,
    m: RegistryModel<C, A, L, R>,
    label: Seq<char>,
    inspect: bool,
    after: RegistryModel<C, A, L, R>,
    metrics: Seq<Metric>,
    step: RegisterStep<L>,
)
    requires
        m.wf(),
        m.next_id < u64::MAX,
        session.settles_http(m, label, inspect, after, metrics, step),
    ensures
        after.wf(),
        m.within_address_cap() ==> after.within_address_cap(),
        after.owned_by(session.pubkey).len() <= m.owned_by(session.pubkey).len() + 1,
{
    let reserved = m.with_label(label).after_fresh_id();
    if !(session.mode is Domain) || m.used_labels.contains(label) {
    } else if !m.admits_http_for_ip(session.client_ip) {
        a_label_can_be_given_back(m, label);
        a_fresh_id_keeps_wf(m);
        assert forall|ip: IpAddr| #[trigger] after.http_from(ip) == m.http_from(ip) by {
            assert(after.http_from(ip) =~= m.http_from(ip));
        }
        assert(after.owned_by(session.pubkey) =~= m.owned_by(session.pubkey));
    } else {
        let info = after.tunnels[m.next_id];
        reserving_a_label_keeps_wf(m, label);
        assert(!m.labels.contains_key(label)) by {
            if m.labels.contains_key(label) {
                assert(m.routed(m.labels[label]));
            }
        }
        assert(!m.tunnels.contains_key(m.next_id));
        assert(reserved.expects(info));
        publishing_keeps_wf(reserved, info);
        assert forall|ip: IpAddr| #[trigger] reserved.http_from(ip) == m.http_from(ip) by {
            assert(reserved.http_from(ip) =~= m.http_from(ip));
        }
        if m.within_address_cap() {
            assert(reserved.within_address_cap());
            publishing_keeps_the_cap(reserved, info);
        }
        one_more_tunnel(m, after, m.next_id, session.pubkey);
    }
}

/// One tunnel more is one more for its owner at most.
proof fn one_more_tunnel<C, A, L, R>(
    m: RegistryModel<C, A, L, R>,
    after: RegistryModel<C, A, L, R>,
    id: u64,
    owner: PubKey,
)
    requires
        m.tunnels.dom().finite(),
        after.tunnels == m.tunnels.insert(id, after.tunnels[id]),
        !m.tunnels.contains_key(id),
    ensures
        after.owned_by(owner).len() <= m.owned_by(owner).len() + 1,
{
    let before = m.owned_by(owner);
    assert(before.subset_of(m.tunnels.dom()));
    vstd::set_lib::lemma_set_subset_finite(m.tunnels.dom(), before);
    assert(after.owned_by(owner).subset_of(before.insert(id)));
    vstd::set_lib::lemma_len_subset(after.owned_by(owner), before.insert(id));
}

/// A registration that resumes nothing keeps a registry consistent, every address
/// within its cap, and the key within the limit on its tunnels.
pub proof fn fresh_registration_keeps_wf<C: Clone, A, L, R: Clone>(
    session: Session<C, R>,
    m: RegistryModel<C, A, L, R>,
    peers: Seq<Seq<char>>,
    label: Seq<char>,
    kind: TunnelKind,
    inspect: bool,
    after: RegistryModel<C, A, L, R>,
    metrics: Seq<Metric>,
    step: RegisterStep<L>,
)
    requires
        m.wf(),
        m.next_id < u64::MAX,
        session.starts_fresh(m, peers, label, kind, inspect, after, metrics, step),
    ensures
        after.wf(),
        m.within_address_cap() ==> after.within_address_cap(),
        session.entry.max_conns matches Some(cap) ==> m.owned_by(session.pubkey).len() <= cap
            ==> after.owned_by(session.pubkey).len() <= cap,
{
    if after.tunnels == m.tunnels {
        assert forall|ip: IpAddr| #[trigger] after.http_from(ip) == m.http_from(ip) by {
            assert(after.http_from(ip) =~= m.http_from(ip));
        }
        assert(after.owned_by(session.pubkey) =~= m.owned_by(session.pubkey));
    }
    if after != m {
        match kind {
            TunnelKind::Http => {
                settling_http_keeps_wf(session, m, label, inspect, after, metrics, step);
            },
            TunnelKind::Tcp { remote_port } => {
                if let RegisterStep::Bind { port, .. } = step {
                    reserving_a_port_keeps_wf(m, session.entry.ports_for(remote_port), port);
                }
            },
        }
    }
}

/// A registration keeps a registry consistent, every address within its cap, and
/// the key within the limit on its tunnels.
pub proof fn registration_keeps_wf<C: Clone, A, L: Clone, R: Clone>(
    session: Session<C, R>,
    m: RegistryModel<C, A, L, R>,
    peers: Seq<Seq<char>>,
    label: Seq<char>,
    kind: TunnelKind,
    resume: Option<SessionId>,
    inspect: bool,
    now: u128,
    after: RegistryModel<C, A, L, R>,
    progress: Progress<L>,
)
    requires
        m.wf(),
        m.next_id < u64::MAX,
        session.registers(m, peers, label, kind, resume, inspect, now, after, progress),
    ensures
        after.wf(),
        m.within_address_cap() ==> after.within_address_cap(),
        session.entry.max_conns matches Some(cap) ==> m.owned_by(session.pubkey).len() <= cap
            ==> after.owned_by(session.pubkey).len() <= cap,
{
    match resume {
        Some(previous) => {
            let (connection, found, outcome) = choose|
                connection: C,
                found: RegistryModel<C, A, L, R>,
                outcome: ResumeOutcome<L>,
            |
                {
                    &&& cloned(session.connection, connection)
                    &&& #[trigger] m.tries_resume(
                        label,
                        previous,
                        session.pubkey,
                        connection,
                        now,
                        found,
                        outcome,
                    )
                    &&& session.after_lookup(
                        found,
                        outcome,
                        peers,
                        label,
                        kind,
                        inspect,
                        after,
                        progress,
                    )
                };
            resuming_keeps_wf(
                m,
                label,
                previous,
                session.pubkey,
                connection,
                now,
                found,
                outcome,
            );
            if m.within_address_cap() {
                assert(found.within_address_cap());
            }
            assert(found.owned_by(session.pubkey) == m.owned_by(session.pubkey));
            if outcome is Unknown {
                fresh_registration_keeps_wf(
                    session,
                    found,
                    peers,
                    label,
                    kind,
                    inspect,
                    after,
                    progress.metrics@.skip(1),
                    progress.step,
                );
            }
        },
        None => {
            fresh_registration_keeps_wf(
                session,
                m,
                peers,
                label,
                kind,
                inspect,
                after,
                progress.metrics@,
                progress.step,
            );
        },
    }
}

/// Whatever frame a client sends, the registry stays consistent and every address
/// within its cap.
pub proof fn every_frame_keeps_wf<C: Clone, A, L: Clone, R: Clone>(
    session: Session<C, R>,
    m: RegistryModel<C, A, L, R>,
    peers: Seq<Seq<char>>,
    frame: ClientFrame,
    now: u128,
    after: RegistryModel<C, A, L, R>,
    step: DispatchStep<A, L>,
)
    requires
        m.wf(),
        m.next_id < u64::MAX,
        session.dispatches(m, peers, frame, now, after, step),
    ensures
        after.wf(),
        m.within_address_cap() ==> after.within_address_cap(),
{
    match frame {
        ClientFrame::RegisterTunnel { label, kind, resume_session_id, inspect } => {
            if let DispatchStep::Register { progress } = step {
                registration_keeps_wf(
                    session,
                    m,
                    peers,
                    label@,
                    kind,
                    resume_session_id,
                    inspect,
                    now,
                    after,
                    progress,
                );
            }
        },
        ClientFrame::UnregisterTunnel { tunnel_id } => {
            removing_keeps_wf(m, set![tunnel_id.0]);
            if m.within_address_cap() {
                removing_keeps_the_caps(m, set![tunnel_id.0]);
            }
        },
        _ => {},
    }
}

/// However a session ends, the registry stays consistent and every address within
/// its cap.
pub proof fn every_ending_keeps_wf<C, A, L, R>(
    m: RegistryModel<C, A, L, R>,
    owner: PubKey,
    result: Option<SessionOutcome>,
    expires_at: u128,
)
    requires
        m.wf(),
    ensures
        settled(m, owner, result, expires_at).wf(),
        m.within_address_cap() ==> settled(m, owner, result, expires_at).within_address_cap(),
{
    dangling_keeps_wf(m, owner, expires_at);
    removing_keeps_wf(m, m.owned_by(owner));
    if m.within_address_cap() {
        removing_keeps_the_caps(m, m.owned_by(owner));
    }
}

/// A port handed out for binding is reserved for that tunnel: once bound, the tunnel
/// can be published under it.
pub proof fn a_bound_port_is_expected<C: Clone, A, L, R: Clone>(
    session: Session<C, R>,
    m: RegistryModel<C, A, L, R>,
    remote_port: Option<u16>,
    after: RegistryModel<C, A, L, R>,
    metrics: Seq<Metric>,
    step: RegisterStep<L>,
    info: TunnelInfo<C, A, L, R>,
)
    requires
        m.wf(),
        m.next_id < u64::MAX,
        session.starts_tcp(m, remote_port, after, metrics, step),
        step matches RegisterStep::Bind { tunnel_id, port } && info.id == tunnel_id
            && info.tcp_port() == Some(port),
        info.tcp_listener is Some,
    ensures
        after.expects(info),
        after.with_tunnel(info).wf(),
{
    if let RegisterStep::Bind { port, .. } = step {
        reserving_a_port_keeps_wf(m, session.entry.ports_for(remote_port), port);
        assert forall|id: u64| #[trigger]
            after.tunnels.contains_key(id) implies after.tunnels[id].tcp_port() != Some(port) by {
            assert(m.bound(id));
        }
        publishing_keeps_wf(after, info);
    }
}

/// A request that asks for no port is refused only when the pool has none left, and
/// otherwise gets the lowest free one, whatever ports its key is restricted to.
pub proof fn any_port_of_the_pool_will_do<C: Clone, A, L, R: Clone>(
    session: Session<C, R>,
    m: RegistryModel<C, A, L, R>,
    free: u16,
    after: RegistryModel<C, A, L, R>,
    metrics: Seq<Metric>,
    step: RegisterStep<L>,
)
    requires
        m.port_pool.has(free),
        !m.used_ports.contains(free),
        session.starts_tcp(m, None, after, metrics, step),
    ensures
        step matches RegisterStep::Bind { port, .. } && {
            &&& port <= free
            &&& m.port_pool.has(port)
            &&& !m.used_ports.contains(port)
            &&& forall|q: u16|
                m.port_pool.lo <= q < port ==> #[trigger] m.used_ports.contains(q)
        },
{
    assert(m.eligible(None, free));
    if let RegisterStep::Bind { port, .. } = step {
        assert forall|q: u16| m.port_pool.lo <= q < port implies #[trigger] m.used_ports.contains(
            q,
        ) by {
            assert(!m.eligible(None, q));
        }
    }
}

/// A registration that is answered with a rejection leaves every tunnel, route and
/// reservation as it was. At most an id is used up.
pub proof fn a_rejection_changes_nothing<C: Clone, A, L: Clone, R: Clone>(
    session: Session<C, R>,
    m: RegistryModel<C, A, L, R>,
    peers: Seq<Seq<char>>,
    label: Seq<char>,
    kind: TunnelKind,
    resume: Option<SessionId>,
    inspect: bool,
    now: u128,
    after: RegistryModel<C, A, L, R>,
    progress: Progress<L>,
)
    requires
        m.wf(),
        session.registers(m, peers, label, kind, resume, inspect, now, after, progress),
        progress.step matches RegisterStep::Reply { frame } && frame is TunnelRejected,
    ensures
        after == m || after == m.after_fresh_id(),
{
    match resume {
        Some(previous) => {
            let (connection, found, outcome) = choose|
                connection: C,
                found: RegistryModel<C, A, L, R>,
                outcome: ResumeOutcome<L>,
            |
                {
                    &&& cloned(session.connection, connection)
                    &&& #[trigger] m.tries_resume(
                        label,
                        previous,
                        session.pubkey,
                        connection,
                        now,
                        found,
                        outcome,
                    )
                    &&& session.after_lookup(
                        found,
                        outcome,
                        peers,
                        label,
                        kind,
                        inspect,
                        after,
                        progress,
                    )
                };
            a_failed_resume_changes_nothing(
                m,
                label,
                previous,
                session.pubkey,
                connection,
                now,
                found,
                outcome,
            );
            if outcome is Unknown {
                a_fresh_rejection_changes_nothing(
                    session,
                    m,
                    peers,
                    label,
                    kind,
                    inspect,
                    after,
                    progress.metrics@.skip(1),
                    progress.step,
                );
            }
        },
        None => {
            a_fresh_rejection_changes_nothing(
                session,
                m,
                peers,
                label,
                kind,
                inspect,
                after,
                progress.metrics@,
                progress.step,
            );
        },
    }
}

/// A resume that fails leaves a consistent registry as it was.
pub proof fn a_failed_resume_changes_nothing<C, A, L: Clone, R>(
    m: RegistryModel<C, A, L, R>,
    label: Seq<char>,
    session: SessionId,
    pubkey: PubKey,
    connection: C,
    now: u128,
    after: RegistryModel<C, A, L, R>,
    outcome: ResumeOutcome<L>,
)
    requires
        m.wf(),
        m.tries_resume(label, session, pubkey, connection, now, after, outcome),
    ensures
        outcome !is Reattached ==> after == m,
{
    if after != m {
        let id = choose|id: u64|
            m.tunnels.contains_key(id) && #[trigger] m.resumes(
                id,
                session,
                pubkey,
                connection,
                now,
                after,
                outcome,
            );
        assert(m.bound(id));
    }
}

proof fn a_fresh_rejection_changes_nothing<C: Clone, A, L, R: Clone>(
    session: Session<C, R>,
    m: RegistryModel<C, A, L, R>,
    peers: Seq<Seq<char>>,
    label: Seq<char>,
    kind: TunnelKind,
    inspect: bool,
    after: RegistryModel<C, A, L, R>,
    metrics: Seq<Metric>,
    step: RegisterStep<L>,
)
    requires
        m.wf(),
        session.starts_fresh(m, peers, label, kind, inspect, after, metrics, step),
        step matches RegisterStep::Reply { frame } && frame is TunnelRejected,
    ensures
        after == m || after == m.after_fresh_id(),
{
    if !m.used_labels.contains(label) {
        a_label_can_be_given_back(m, label);
    }
}

/// A label that the server announces as registered is served from then on, by the
/// session that asked for it.
pub proof fn an_announced_label_is_served<C: Clone, A, L, R: Clone>(
    session: Session<C, R>,
    m: RegistryModel<C, A, L, R>,
    label: Seq<char>,
    inspect: bool,
    after: RegistryModel<C, A, L, R>,
    metrics: Seq<Metric>,
    step: RegisterStep<L>,
)
    requires
        session.settles_http(m, label, inspect, after, metrics, step),
        step matches RegisterStep::Reply { frame } && frame is TunnelRegistered,
    ensures
        after.serves(label) == Some(m.next_id),
        after.tunnels[m.next_id].owner == session.pubkey,
        after.tunnels[m.next_id].session_id == session.session_id,
        after.used_labels.contains(label),
        step matches RegisterStep::Reply { frame } && frame.announces(
            TunnelId(m.next_id),
            public_url(session, after.tunnels[m.next_id]),
            public_port(after.tunnels[m.next_id]),
        ),
{
}

/// A label is announced or taken to the peers only if it is valid, the key may have
/// it, and the server runs a domain.
pub proof fn only_permitted_labels_go_on<C: Clone, A, L, R: Clone>(
    session: Session<C, R>,
    m: RegistryModel<C, A, L, R>,
    peers: Seq<Seq<char>>,
    label: Seq<char>,
    inspect: bool,
    after: RegistryModel<C, A, L, R>,
    metrics: Seq<Metric>,
    step: RegisterStep<L>,
)
    requires
        session.starts_http(m, peers, label, inspect, after, metrics, step),
        step is ConsultPeers || after != m,
    ensures
        session.mode is Domain,
        valid_label(label),
        session.entry.permits_label(label),
{
}

/// While a tunnel of some client holds a label, live or on a lease, nobody else
/// gets it.
pub proof fn a_held_label_is_refused<C: Clone, A, L, R: Clone>(
    session: Session<C, R>,
    m: RegistryModel<C, A, L, R>,
    id: u64,
    label: Seq<char>,
    inspect: bool,
    after: RegistryModel<C, A, L, R>,
    metrics: Seq<Metric>,
    step: RegisterStep<L>,
)
    requires
        m.wf(),
        m.tunnels.contains_key(id),
        m.tunnels[id].http_label() == Some(label),
        session.mode is Domain,
        session.settles_http(m, label, inspect, after, metrics, step),
    ensures
        after == m,
        step matches RegisterStep::Reply { frame } && frame.rejects(
            ErrorCode::LabelUnavailable,
            "`"@ + label + "` is taken"@,
        ),
{
    assert(m.routed(id));
}

/// The URL under which the session's server publishes a tunnel.
pub open spec fn public_url<C, A, L, R>(
    session: Session<C, R>,
    info: TunnelInfo<C, A, L, R>,
) -> Seq<char> {
    match info.http_label() {
        Some(label) => http_url(label, session.mode->apex@),
        None => tcp_url(session.mode.tcp_host(), info.tcp_port()->0),
    }
}

/// The port under which a tunnel is announced.
pub open spec fn public_port<C, A, L, R>(info: TunnelInfo<C, A, L, R>) -> Option<u16> {
    info.tcp_port()
}

/// A resumed tunnel is announced under the id, the URL and the port that it had.
/// For HTTP tunnels the server still has to run a domain.
pub proof fn a_resumed_tunnel_keeps_its_url<C: Clone, A, L: Clone, R: Clone>(
    session: Session<C, R>,
    m: RegistryModel<C, A, L, R>,
    label: Seq<char>,
    previous: SessionId,
    connection: C,
    now: u128,
    found: RegistryModel<C, A, L, R>,
    outcome: ResumeOutcome<L>,
    peers: Seq<Seq<char>>,
    kind: TunnelKind,
    inspect: bool,
    after: RegistryModel<C, A, L, R>,
    progress: Progress<L>,
    id: u64,
)
    requires
        m.tries_resume(label, previous, session.pubkey, connection, now, found, outcome),
        session.after_lookup(found, outcome, peers, label, kind, inspect, after, progress),
        outcome matches ResumeOutcome::Reattached { tunnel_id, .. } && tunnel_id.0 == id,
        m.tunnels[id].kind is Http ==> session.mode is Domain,
    ensures
        ({
            let frame = match progress.step {
                RegisterStep::Reply { frame } => Some(frame),
                RegisterStep::Respawn { frame, .. } => Some(frame),
                _ => None,
            };
            frame matches Some(f) && f.announces(
                TunnelId(id),
                public_url(session, m.tunnels[id]),
                public_port(m.tunnels[id]),
            )
        }),
        after == m.with_state_of(id, m.tunnels[id].attached_to(connection)),
{
    resume_keeps_the_tunnel(
        m,
        label,
        previous,
        session.pubkey,
        connection,
        now,
        found,
        id,
        outcome,
    );
}

/// After a goodbye, a terminal end or a failure of its session, a key resumes nothing.
pub proof fn nothing_is_resumed_after_a_goodbye<C, A, L: Clone, R>(
    m: RegistryModel<C, A, L, R>,
    owner: PubKey,
    result: Option<SessionOutcome>,
    expires_at: u128,
    label: Seq<char>,
    session: SessionId,
    connection: C,
    now: u128,
    after: RegistryModel<C, A, L, R>,
    outcome: ResumeOutcome<L>,
)
    requires
        result != Some(SessionOutcome::Dropped),
        settled(m, owner, result, expires_at).tries_resume(
            label,
            session,
            owner,
            connection,
            now,
            after,
            outcome,
        ),
    ensures
        outcome !is Reattached,
        after == settled(m, owner, result, expires_at),
{
    removed_tunnels_are_not_resumed(m, owner, label, session, connection, now, after, outcome);
}

/// After a dropped session, its key gets an HTTP tunnel back by naming the session
/// and the label before the lease runs out.
pub proof fn a_dropped_session_is_resumed<C, A, L: Clone, R>(
    m: RegistryModel<C, A, L, R>,
    id: u64,
    label: Seq<char>,
    expires_at: u128,
    connection: C,
    now: u128,
    after: RegistryModel<C, A, L, R>,
    outcome: ResumeOutcome<L>,
)
    requires
        m.wf(),
        m.tunnels.contains_key(id),
        m.tunnels[id].state is Live,
        m.tunnels[id].http_label() == Some(label),
        now < expires_at,
        settled(
            m,
            m.tunnels[id].owner,
            Some(SessionOutcome::Dropped),
            expires_at,
        ).tries_resume(
            label,
            m.tunnels[id].session_id,
            m.tunnels[id].owner,
            connection,
            now,
            after,
            outcome,
        ),
    ensures
        outcome matches ResumeOutcome::Reattached { tunnel_id, .. } && tunnel_id.0 == id,
        after.serves(label) == Some(id),
{
    http_tunnel_survives_a_drop(m, id, label, expires_at, connection, now, after, outcome);
}

/// Tunnels of other keys are untouched by the end of a session.
pub proof fn other_keys_are_untouched<C, A, L, R>(
    m: RegistryModel<C, A, L, R>,
    owner: PubKey,
    result: Option<SessionOutcome>,
    expires_at: u128,
    id: u64,
)
    requires
        m.wf(),
        m.tunnels.contains_key(id),
        m.tunnels[id].owner != owner,
    ensures
        settled(m, owner, result, expires_at).tunnels.contains_key(id),
        settled(m, owner, result, expires_at).tunnels[id] == m.tunnels[id],
        m.tunnels[id].http_label() matches Some(label) ==> settled(
            m,
            owner,
            result,
            expires_at,
        ).labels.contains_key(label) && settled(m, owner, result, expires_at).labels[label] == id,
{
    every_ending_keeps_wf(m, owner, result, expires_at);
    let after = settled(m, owner, result, expires_at);
    assert(after.tunnels.contains_key(id));
    assert(after.routed(id));
}

/// Whatever a registration that resumes nothing does, a port reserved for a tunnel
/// that is still to be bound stays reserved for it.
proof fn a_reservation_outlasts_fresh<C: Clone, A, L, R: Clone>(
    session: Session<C, R>,
    m: RegistryModel<C, A, L, R>,
    peers: Seq<Seq<char>>,
    label: Seq<char>,
    kind: TunnelKind,
    inspect: bool,
    after: RegistryModel<C, A, L, R>,
    metrics: Seq<Metric>,
    step: RegisterStep<L>,
    info: TunnelInfo<C, A, L, R>,
)
    requires
        m.wf(),
        m.next_id < u64::MAX,
        m.expects(info),
        info.kind is Tcp,
        session.starts_fresh(m, peers, label, kind, inspect, after, metrics, step),
    ensures
        after.expects(info),
{
    if after != m && kind is Http && session.mode is Domain && !m.used_labels.contains(label) {
        if m.admits_http_for_ip(session.client_ip) {
            let reserved = m.with_label(label).after_fresh_id();
            assert(reserved.expects(info)) by {
                assert(reserved.tunnels == m.tunnels);
            }
            publishing_keeps_expectations(reserved, after.tunnels[m.next_id], info);
        } else {
            a_label_can_be_given_back(m, label);
        }
    }
}

/// Whatever frames any session handles in the meantime, a port reserved for a tunnel
/// that is still to be bound stays reserved for it.
pub proof fn a_reservation_outlasts_frames<C: Clone, A, L: Clone, R: Clone>(
    session: Session<C, R>,
    m: RegistryModel<C, A, L, R>,
    peers: Seq<Seq<char>>,
    frame: ClientFrame,
    now: u128,
    after: RegistryModel<C, A, L, R>,
    step: DispatchStep<A, L>,
    info: TunnelInfo<C, A, L, R>,
)
    requires
        m.wf(),
        m.next_id < u64::MAX,
        m.expects(info),
        info.kind is Tcp,
        session.dispatches(m, peers, frame, now, after, step),
    ensures
        after.expects(info),
{
    match frame {
        ClientFrame::RegisterTunnel { label, kind, resume_session_id, inspect } => {
            if let DispatchStep::Register { progress } = step {
                match resume_session_id {
                    Some(previous) => {
                        let (connection, found, outcome) = choose|
                            connection: C,
                            found: RegistryModel<C, A, L, R>,
                            outcome: ResumeOutcome<L>,
                        |
                            {
                                &&& cloned(session.connection, connection)
                                &&& #[trigger] m.tries_resume(
                                    label@,
                                    previous,
                                    session.pubkey,
                                    connection,
                                    now,
                                    found,
                                    outcome,
                                )
                                &&& session.after_lookup(
                                    found,
                                    outcome,
                                    peers,
                                    label@,
                                    kind,
                                    inspect,
                                    after,
                                    progress,
                                )
                            };
                        resuming_keeps_wf(
                            m,
                            label@,
                            previous,
                            session.pubkey,
                            connection,
                            now,
                            found,
                            outcome,
                        );
                        resuming_keeps_expectations(
                            m,
                            label@,
                            previous,
                            session.pubkey,
                            connection,
                            now,
                            found,
                            outcome,
                            info,
                        );
                        if outcome is Unknown {
                            a_reservation_outlasts_fresh(
                                session,
                                found,
                                peers,
                                label@,
                                kind,
                                inspect,
                                after,
                                progress.metrics@.skip(1),
                                progress.step,
                                info,
                            );
                        }
                    },
                    None => {
                        a_reservation_outlasts_fresh(
                            session,
                            m,
                            peers,
                            label@,
                            kind,
                            inspect,
                            after,
                            progress.metrics@,
                            progress.step,
                            info,
                        );
                    },
                }
            }
        },
        ClientFrame::UnregisterTunnel { tunnel_id } => {
            removing_keeps_expectations(m, set![tunnel_id.0], info);
        },
        _ => {},
    }
}

proof fn resuming_keeps_expectations<C, A, L: Clone, R>(
    m: RegistryModel<C, A, L, R>,
    label: Seq<char>,
    session: SessionId,
    pubkey: PubKey,
    connection: C,
    now: u128,
    after: RegistryModel<C, A, L, R>,
    outcome: ResumeOutcome<L>,
    info: TunnelInfo<C, A, L, R>,
)
    requires
        m.expects(info),
        m.tries_resume(label, session, pubkey, connection, now, after, outcome),
    ensures
        after.expects(info),
{
    if after != m {
        let id = choose|id: u64|
            m.tunnels.contains_key(id) && #[trigger] m.resumes(
                id,
                session,
                pubkey,
                connection,
                now,
                after,
                outcome,
            );
        assert(after.tunnels.dom() =~= m.tunnels.dom());
        changing_leases_keeps_expectations(m, after, info);
    }
}

/// However any session ends in the meantime, and whatever leases are reaped, a port
/// reserved for a tunnel that is still to be bound stays reserved for it.
pub proof fn a_reservation_outlasts_endings<C, A, L, R>(
    m: RegistryModel<C, A, L, R>,
    owner: PubKey,
    result: Option<SessionOutcome>,
    expires_at: u128,
    now: u128,
    info: TunnelInfo<C, A, L, R>,
)
    requires
        m.wf(),
        m.expects(info),
    ensures
        settled(m, owner, result, expires_at).expects(info),
        m.without(m.expired(now)).expects(info),
{
    removing_keeps_expectations(m, m.owned_by(owner), info);
    removing_keeps_expectations(m, m.expired(now), info);
    let d = m.dangled(owner, expires_at);
    assert(d.tunnels.dom() =~= m.tunnels.dom());
    changing_leases_keeps_expectations(m, d, info);
}

} // verus!
