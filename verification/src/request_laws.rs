//! What the requests of a client come to, on the fields of its key's entry, of the
//! server's mode and of the registry.

use vstd::prelude::*;

use crate::config::Mode;
use crate::lease_laws::loses_exactly;
use crate::metrics::Metric;
use crate::proto::{
    ClientFrame, ErrorCode, PubKey, ServerFrame, SessionId, TunnelId, TunnelKind,
};
use crate::registry::{valid_label, TunnelRegistry};
use crate::session::{
    federated, federated_peers, revocation_step, session_step, tcp_bind_failed, CollisionCheck,
    DispatchStep, Progress, RegisterStep, RevocationEvent, RevocationStep, Session, SessionEvent,
    SessionOutcome, SessionStep,
};
use crate::text::{decimal, texts};
use crate::tunnel::{
    RegisteredKind, RegistryModel, ResumeOutcome, ResumedInfo, TunnelInfo, TunnelState,
};

verus! {

/// Filtering picks the elements that pass, each where it stands, in order.
proof fn filter_picks<T>(s: Seq<T>, pred: spec_fn(T) -> bool) -> (at: Seq<int>)
    ensures
        at.len() == s.filter(pred).len(),
        forall|k: int|
            0 <= k < at.len() ==> 0 <= #[trigger] at[k] < s.len() && pred(s[at[k]]) && s.filter(
                pred,
            )[k] == s[at[k]],
        forall|k: int, l: int| 0 <= k < l < at.len() ==> #[trigger] at[k] < #[trigger] at[l],
        forall|i: int| 0 <= i < s.len() && pred(#[trigger] s[i]) ==> at.contains(i),
    decreases s.len(),
{
    reveal(Seq::filter);
    if s.len() == 0 {
        Seq::empty()
    } else {
        let rest = s.drop_last();
        let n = s.len() - 1;
        let before = filter_picks(rest, pred);
        assert forall|k: int| 0 <= k < before.len() implies s[#[trigger] before[k]]
            == rest[before[k]] by {}
        if pred(s.last()) {
            let at = before.push(n);
            assert forall|i: int| 0 <= i < s.len() && pred(#[trigger] s[i]) implies at.contains(
                i,
            ) by {
                if i < n {
                    assert(rest[i] == s[i]);
                    let k = before.index_of(i);
                    assert(at[k] == i);
                } else {
                    assert(at[before.len() as int] == i);
                }
            }
            at
        } else {
            assert forall|i: int| 0 <= i < s.len() && pred(#[trigger] s[i]) implies before.contains(
                i,
            ) by {
                assert(rest[i] == s[i]);
            }
            before
        }
    }
}

/// The peers to consult are those of the server's list that the key's list names too,
/// in the order of the server's list: each stands where it stands there, and none that
/// is on both lists is left out.
pub proof fn shared_peers_are_consulted(
    peers: &Vec<String>,
    federation: &Vec<String>,
    out: Vec<String>,
) -> (at: Seq<int>)
    requires
        call_ensures(federated_peers, (peers, federation), out),
    ensures
        at.len() == out@.len(),
        forall|k: int|
            0 <= k < at.len() ==> 0 <= #[trigger] at[k] < peers@.len() && out@[k]@
                == peers@[at[k]]@,
        forall|k: int, l: int| 0 <= k < l < at.len() ==> #[trigger] at[k] < #[trigger] at[l],
        forall|i: int|
            0 <= i < peers@.len() ==> (at.contains(i) <==> exists|j: int|
                0 <= j < federation@.len() && #[trigger] federation@[j]@ == (
                #[trigger] peers@[i])@),
{
    let list = texts(peers@);
    let pred = |p: Seq<char>| texts(federation@).contains(p);
    let at = filter_picks(list, pred);
    assert(texts(out@).len() == out@.len());
    assert forall|k: int| 0 <= k < at.len() implies 0 <= #[trigger] at[k] < peers@.len()
        && out@[k]@ == peers@[at[k]]@ by {
        assert(texts(out@)[k] == out@[k]@);
        assert(list[at[k]] == peers@[at[k]]@);
    }
    assert forall|i: int| 0 <= i < peers@.len() implies (at.contains(i) <==> exists|j: int|
        0 <= j < federation@.len() && #[trigger] federation@[j]@ == (#[trigger] peers@[i])@) by {
        assert(list[i] == peers@[i]@);
        if at.contains(i) {
            let k = at.index_of(i);
            assert(pred(list[at[k]]));
            let j = texts(federation@).index_of(list[i]);
            assert(federation@[j]@ == peers@[i]@);
        }
        if exists|j: int| 0 <= j < federation@.len() && #[trigger] federation@[j]@ == peers@[i]@ {
            let j = choose|j: int|
                0 <= j < federation@.len() && #[trigger] federation@[j]@ == peers@[i]@;
            assert(texts(federation@)[j] == list[i]);
            assert(pred(list[i]));
        }
    }
    at
}

/// A request for an HTTP label that nobody objects to is settled by the mode, by who
/// holds the label, and by what the client's address holds already. Where all is well
/// the tunnel is published for the session, live, under the next id and the label's
/// URL; otherwise no tunnel, port or label changes hands.
pub proof fn a_label_is_published_or_refused<C: Clone, A, L, R: Clone>(
    session: Session<C, R>,
    m: RegistryModel<C, A, L, R>,
    label: Seq<char>,
    inspect: bool,
    after: RegistryModel<C, A, L, R>,
    metrics: Seq<Metric>,
    step: RegisterStep<L>,
)
    requires
        session.settles_http(m, label, inspect, after, metrics, step),
    ensures
        session.mode is Ip ==> {
            &&& after == m
            &&& metrics.len() == 0
            &&& step matches RegisterStep::Reply {
                frame: ServerFrame::TunnelRejected { code, detail },
            }
            &&& code == ErrorCode::HttpNotAvailable
            &&& detail@ == "server is in IpMode"@
        },
        session.mode is Domain && m.used_labels.contains(label) ==> {
            &&& after == m
            &&& metrics == seq![Metric::TunnelRejectedLabel]
            &&& step matches RegisterStep::Reply {
                frame: ServerFrame::TunnelRejected { code, detail },
            }
            &&& code == ErrorCode::LabelUnavailable
            &&& detail@ == "`"@ + label + "` is taken"@
        },
        session.mode is Domain && !m.used_labels.contains(label) ==> {
            let full = m.max_http_per_ip < usize::MAX && (session.client_ip matches Some(ip)
                && Set::new(
                |id: u64|
                    {
                        &&& m.tunnels.contains_key(id)
                        &&& m.tunnels[id].kind is Http
                        &&& m.tunnels[id].client_ip == Some(ip)
                    },
            ).len() >= m.max_http_per_ip);
            let info = after.tunnels[m.next_id];
            &&& after.port_pool == m.port_pool
            &&& after.max_http_per_ip == m.max_http_per_ip
            &&& after.used_ports == m.used_ports
            &&& after.next_id == (if m.next_id < u64::MAX {
                m.next_id + 1
            } else {
                1
            })
            &&& full ==> {
                &&& after.tunnels == m.tunnels
                &&& after.used_labels == m.used_labels
                &&& after.labels == m.labels.remove(label)
                &&& metrics == seq![Metric::TunnelRejectedLabel]
                &&& step matches RegisterStep::Reply {
                    frame: ServerFrame::TunnelRejected { code, detail },
                }
                &&& code == ErrorCode::LabelForbidden
                &&& detail@ == "client IP already holds the maximum number of domains"@
            }
            &&& !full ==> {
                &&& after.tunnels == m.tunnels.insert(m.next_id, info)
                &&& after.used_labels == m.used_labels.insert(label)
                &&& after.labels == m.labels.insert(label, m.next_id)
                &&& info.id.0 == m.next_id
                &&& info.owner == session.pubkey
                &&& info.session_id == session.session_id
                &&& info.kind matches RegisteredKind::Http { label: l }
                &&& l@ == label
                &&& info.state matches TunnelState::Live { connection, abort }
                &&& cloned(session.connection, connection)
                &&& abort is None
                &&& info.tcp_listener is None
                &&& cloned(session.rate, info.rate)
                &&& info.inspect == inspect
                &&& info.client_ip == session.client_ip
                &&& metrics == seq![Metric::TunnelRegisteredHttp]
                &&& step matches RegisterStep::Reply {
                    frame: ServerFrame::TunnelRegistered { tunnel_id, public_url, public_port },
                }
                &&& tunnel_id.0 == m.next_id
                &&& session.mode matches Mode::Domain { apex, .. }
                &&& public_url@ == "https://"@ + label + "."@ + apex@
                &&& public_port is None
            }
        },
{
    if let Some(ip) = session.client_ip {
        assert(m.http_from(ip) =~= Set::new(
            |id: u64|
                {
                    &&& m.tunnels.contains_key(id)
                    &&& m.tunnels[id].kind is Http
                    &&& m.tunnels[id].client_ip == Some(ip)
                },
        ));
    }
    if !m.used_labels.contains(label) {
        assert(m.used_labels.insert(label).remove(label) =~= m.used_labels);
    }
}

/// A request for an HTTP label goes on only on a server with a domain, for a valid
/// label, and if the key's entry allows every label or names this one. An entry that
/// names no label allows none. The peers on both lists are asked first, if there are
/// any.
pub proof fn a_label_needs_permission<C: Clone, A, L, R: Clone>(
    session: Session<C, R>,
    m: RegistryModel<C, A, L, R>,
    peers: Seq<Seq<char>>,
    label: Seq<char>,
    inspect: bool,
    after: RegistryModel<C, A, L, R>,
    metrics: Seq<Metric>,
    step: RegisterStep<L>,
)
    requires
        session.starts_http(m, peers, label, inspect, after, metrics, step),
    ensures
        session.mode is Ip ==> {
            &&& after == m
            &&& metrics.len() == 0
            &&& step matches RegisterStep::Reply {
                frame: ServerFrame::TunnelRejected { code, detail },
            }
            &&& code == ErrorCode::HttpNotAvailable
            &&& detail@ == "server is in IpMode"@
        },
        session.mode is Domain && !valid_label(label) ==> {
            &&& after == m
            &&& metrics == seq![Metric::TunnelRejectedLabel]
            &&& step matches RegisterStep::Reply {
                frame: ServerFrame::TunnelRejected { code, detail },
            }
            &&& code == ErrorCode::LabelInvalid
            &&& detail@ == "does not match DNS label grammar"@
        },
        session.mode is Domain && valid_label(label) ==> {
            let named = exists|i: int|
                0 <= i < session.entry.allowed_subdomains@.len()
                    && #[trigger] session.entry.allowed_subdomains@[i]@ == label;
            let asks = exists|i: int, j: int|
                0 <= i < peers.len() && 0 <= j < session.entry.federation@.len()
                    && #[trigger] session.entry.federation@[j]@ == #[trigger] peers[i];
            &&& !session.entry.allow_any_subdomain && !named ==> {
                &&& after == m
                &&& metrics == seq![Metric::TunnelRejectedLabel]
                &&& step matches RegisterStep::Reply {
                    frame: ServerFrame::TunnelRejected { code, detail },
                }
                &&& code == ErrorCode::LabelForbidden
                &&& detail@ == "`"@ + label + "` not permitted for this identity"@
            }
            &&& (session.entry.allow_any_subdomain || named) && asks ==> {
                &&& after == m
                &&& metrics.len() == 0
                &&& step matches RegisterStep::ConsultPeers { peers: asked }
                &&& asked@.len() > 0
                &&& texts(asked@) == federated(peers, texts(session.entry.federation@))
            }
            &&& (session.entry.allow_any_subdomain || named) && !asks ==> session.settles_http(
                m,
                label,
                inspect,
                after,
                metrics,
                step,
            )
        },
{
    let named = exists|i: int|
        0 <= i < session.entry.allowed_subdomains@.len()
            && #[trigger] session.entry.allowed_subdomains@[i]@ == label;
    let list = texts(session.entry.allowed_subdomains@);
    assert(named <==> list.contains(label)) by {
        if named {
            let i = choose|i: int|
                0 <= i < session.entry.allowed_subdomains@.len()
                    && #[trigger] session.entry.allowed_subdomains@[i]@ == label;
            assert(list[i] == label);
        }
        if list.contains(label) {
            let i = list.index_of(label);
            assert(session.entry.allowed_subdomains@[i]@ == label);
        }
    }
    let federation = texts(session.entry.federation@);
    let asks = exists|i: int, j: int|
        0 <= i < peers.len() && 0 <= j < session.entry.federation@.len()
            && #[trigger] session.entry.federation@[j]@ == #[trigger] peers[i];
    let at = filter_picks(peers, |p: Seq<char>| federation.contains(p));
    assert(asks <==> federated(peers, federation).len() > 0) by {
        if asks {
            let (i, j) = choose|i: int, j: int|
                0 <= i < peers.len() && 0 <= j < session.entry.federation@.len()
                    && #[trigger] session.entry.federation@[j]@ == #[trigger] peers[i];
            assert(federation[j] == peers[i]);
            assert(at.contains(i));
        }
        if federated(peers, federation).len() > 0 {
            let i = at[0];
            let j = federation.index_of(peers[i]);
            assert(session.entry.federation@[j]@ == peers[i]);
        }
    }
    if let RegisterStep::ConsultPeers { peers: asked } = step {
        assert(texts(asked@).len() == asked@.len());
    }
}

/// A request for a TCP port is refused if the key's entry lists ports and not the one
/// asked for. Otherwise it gets the lowest free port of the pool, of those listed
/// where a port was asked for, and is refused only if there is none.
pub proof fn a_port_needs_permission<C, A, L, R>(
    session: Session<C, R>,
    m: RegistryModel<C, A, L, R>,
    remote_port: Option<u16>,
    after: RegistryModel<C, A, L, R>,
    metrics: Seq<Metric>,
    step: RegisterStep<L>,
    q: u16,
)
    requires
        session.starts_tcp(m, remote_port, after, metrics, step),
    ensures
        ({
            let listed = |port: u16|
                session.entry.allowed_ports matches Some(list) ==> exists|i: int|
                    0 <= i < list@.len() && #[trigger] list@[i] == port;
            let open = |port: u16|
                {
                    &&& m.port_pool.lo <= port && port <= m.port_pool.hi
                    &&& !m.used_ports.contains(port)
                    &&& remote_port is None || listed(port)
                };
            &&& remote_port matches Some(wanted) ==> !listed(wanted) ==> {
                &&& after == m
                &&& metrics == seq![Metric::TunnelRejectedPorts]
                &&& step matches RegisterStep::Reply {
                    frame: ServerFrame::TunnelRejected { code, detail },
                }
                &&& code == ErrorCode::LabelForbidden
                &&& detail@ == "port "@ + decimal(wanted as nat)
                    + " not permitted for this identity"@
            }
            &&& (remote_port is None || listed(remote_port->0)) && open(q) ==> {
                &&& metrics.len() == 0
                &&& step matches RegisterStep::Bind { tunnel_id, port }
                &&& port <= q
                &&& open(port)
                &&& tunnel_id.0 == m.next_id
                &&& after == (RegistryModel {
                    used_ports: m.used_ports.insert(port),
                    next_id: if m.next_id < u64::MAX {
                        (m.next_id + 1) as u64
                    } else {
                        1
                    },
                    ..m
                })
            }
            &&& (remote_port is None || listed(remote_port->0)) && (forall|port: u16|
                !#[trigger] open(port)) ==> {
                &&& after == m
                &&& metrics == seq![Metric::TunnelRejectedPool]
                &&& step matches RegisterStep::Reply {
                    frame: ServerFrame::TunnelRejected { code, detail },
                }
                &&& code == ErrorCode::PortPoolExhausted
                &&& detail@ == "no free ports"@
            }
        }),
{
    let listed = |port: u16|
        session.entry.allowed_ports matches Some(list) ==> exists|i: int|
            0 <= i < list@.len() && #[trigger] list@[i] == port;
    let open = |port: u16|
        {
            &&& m.port_pool.lo <= port && port <= m.port_pool.hi
            &&& !m.used_ports.contains(port)
            &&& remote_port is None || listed(port)
        };
    let allowlist = session.entry.ports_for(remote_port);
    assert forall|port: u16| #[trigger]
        listed(port) <==> (session.entry.allowed_ports matches Some(list) ==> list@.contains(port)) by {
        if let Some(list) = session.entry.allowed_ports {
            if list@.contains(port) {
                assert(list@[list@.index_of(port)] == port);
            }
        }
    }
    assert forall|port: u16| #[trigger] open(port) <==> m.eligible(allowlist, port) by {
        assert(listed(port) <==> (session.entry.allowed_ports matches Some(list) ==> list@.contains(
            port,
        )));
    }
    if let Some(wanted) = remote_port {
        assert(listed(wanted) <==> session.entry.permits_port(remote_port));
    }
    assert(open(q) <==> m.eligible(allowlist, q));
    if forall|port: u16| !#[trigger] open(port) {
        assert forall|port: u16| !m.eligible(allowlist, port) by {
            assert(!open(port));
        }
    }
    if let RegisterStep::Bind { port, .. } = step {
        assert(open(port) <==> m.eligible(allowlist, port));
    }
}

/// A label is permitted by the key's entry, or nothing comes of the request: whenever
/// peers are asked or the registry changes, the entry allows every label or names this
/// one among those it allows.
pub proof fn only_named_labels_go_on<C: Clone, A, L, R: Clone>(
    session: &Session<C, R>,
    registry: &mut TunnelRegistry<C, A, L, R>,
    peers: &Vec<String>,
    label: &str,
    inspect: bool,
    p: Progress<L>,
)
    requires
        call_ensures(
            Session::<C, R>::register_http::<A, L>,
            (session, registry, peers, label, inspect),
            p,
        ),
    ensures
        session.starts_http(
            old(registry)@,
            texts(peers@),
            label@,
            inspect,
            final(registry)@,
            p.metrics@,
            p.step,
        ),
        p.step is ConsultPeers || final(registry)@ != old(registry)@ ==> {
            &&& session.mode is Domain
            &&& valid_label(label@)
            &&& session.entry.allow_any_subdomain || exists|i: int|
                0 <= i < session.entry.allowed_subdomains@.len()
                    && #[trigger] session.entry.allowed_subdomains@[i]@ == label@
        },
        session.mode is Domain && valid_label(label@) && !session.entry.allow_any_subdomain
            && session.entry.allowed_subdomains@.len() == 0 ==> {
            &&& p.step matches RegisterStep::Reply {
                frame: ServerFrame::TunnelRejected { code, .. },
            }
            &&& code == ErrorCode::LabelForbidden
        },
{
    a_label_needs_permission(
        *session,
        old(registry)@,
        texts(peers@),
        label@,
        inspect,
        final(registry)@,
        p.metrics@,
        p.step,
    );
}

/// A peer that has the label registered for another key has the request refused, in
/// that peer's name, and nothing changes. Where no peer objects, the request is
/// settled here.
pub proof fn a_conflict_refuses_the_label<C: Clone, A, L, R: Clone>(
    session: &Session<C, R>,
    registry: &mut TunnelRegistry<C, A, L, R>,
    label: &str,
    inspect: bool,
    check: &CollisionCheck,
    p: Progress<L>,
)
    requires
        call_ensures(
            Session::<C, R>::finish_http::<A, L>,
            (session, registry, label, inspect, check),
            p,
        ),
    ensures
        *check matches CollisionCheck::Conflict { first_conflict } ==> {
            &&& final(registry)@ == old(registry)@
            &&& p.metrics@ == seq![Metric::TunnelRejectedPeerCollision]
            &&& p.step matches RegisterStep::Reply {
                frame: ServerFrame::TunnelRejected { code, detail },
            }
            &&& code == ErrorCode::LabelUnavailable
            &&& detail@ == "`"@ + label@ + "` already registered on peer "@ + first_conflict@
                + " by a different identity"@
        },
        *check is Clear ==> session.settles_http(
            old(registry)@,
            label@,
            inspect,
            final(registry)@,
            p.metrics@,
            p.step,
        ),
{
}

/// A port that is handed out for binding lies in the registry's pool and is free, and
/// is on the key's list where a port was asked for.
pub proof fn only_listed_ports_are_bound<C, A, L, R>(
    session: &Session<C, R>,
    registry: &mut TunnelRegistry<C, A, L, R>,
    remote_port: Option<u16>,
    p: Progress<L>,
)
    requires
        call_ensures(
            Session::<C, R>::register_tcp::<A, L>,
            (session, registry, remote_port),
            p,
        ),
    ensures
        session.starts_tcp(
            old(registry)@,
            remote_port,
            final(registry)@,
            p.metrics@,
            p.step,
        ),
        p.step is Bind || p.step is Reply,
        p.step matches RegisterStep::Bind { port, .. } ==> {
            &&& old(registry)@.port_pool.lo <= port && port <= old(registry)@.port_pool.hi
            &&& !old(registry)@.used_ports.contains(port)
            &&& final(registry)@.used_ports.contains(port)
            &&& remote_port matches Some(wanted) ==> (
            session.entry.allowed_ports matches Some(list) ==> (exists|i: int|
                0 <= i < list@.len() && #[trigger] list@[i] == wanted) && (exists|i: int|
                0 <= i < list@.len() && #[trigger] list@[i] == port))
        },
{
    if let Some(list) = session.entry.allowed_ports {
        if let Some(wanted) = remote_port {
            if let RegisterStep::Bind { port, .. } = p.step {
                assert(list@[list@.index_of(wanted)] == wanted);
                assert(list@[list@.index_of(port)] == port);
            }
        }
    }
}

/// A TCP tunnel whose port is bound is published for the session, live, with its
/// listener and task, and announced under the host and the port. What is reserved and
/// what is routed stay as they are.
pub proof fn a_bound_port_is_announced<C: Clone, A, L, R: Clone>(
    session: &Session<C, R>,
    registry: &mut TunnelRegistry<C, A, L, R>,
    tunnel_id: TunnelId,
    public_port: u16,
    listener: L,
    abort: A,
    inspect: bool,
    p: Progress<L>,
)
    requires
        call_ensures(
            Session::<C, R>::finish_tcp::<A, L>,
            (session, registry, tunnel_id, public_port, listener, abort, inspect),
            p,
        ),
    ensures
        ({
            let info = final(registry)@.tunnels[tunnel_id.0];
            &&& final(registry)@ == (RegistryModel {
                tunnels: old(registry)@.tunnels.insert(tunnel_id.0, info),
                ..old(registry)@
            })
            &&& info.id == tunnel_id
            &&& info.owner == session.pubkey
            &&& info.session_id == session.session_id
            &&& info.kind == (RegisteredKind::Tcp { public_port })
            &&& info.state matches TunnelState::Live { connection, abort: a }
            &&& cloned(session.connection, connection)
            &&& a == Some(abort)
            &&& info.tcp_listener == Some(listener)
            &&& cloned(session.rate, info.rate)
            &&& info.inspect == inspect
            &&& info.client_ip == session.client_ip
        }),
        p.metrics@ == seq![Metric::TunnelRegisteredTcp],
        p.step matches RegisterStep::Reply {
            frame: ServerFrame::TunnelRegistered { tunnel_id: id, public_url, public_port: port },
        } && {
            &&& id == tunnel_id
            &&& port == Some(public_port)
            &&& session.mode matches Mode::Ip { public_host, .. } ==> public_url@ == "tcp://"@
                + public_host@ + ":"@ + decimal(public_port as nat)
            &&& session.mode matches Mode::Domain { apex, .. } ==> public_url@ == "tcp://"@ + apex@
                + ":"@ + decimal(public_port as nat)
        },
{
}

/// A tunnel that has been handed over is announced again under the id, label or port
/// that it has. An HTTP tunnel on a server without a domain is refused and removed.
pub proof fn a_resumed_tunnel_is_announced<C, L, R>(
    session: Session<C, R>,
    tunnel_id: TunnelId,
    info: ResumedInfo<L>,
    inspect: bool,
    step: RegisterStep<L>,
)
    requires
        session.ends_resume(tunnel_id, info, inspect, step),
    ensures
        info matches ResumedInfo::Http { label } ==> (session.mode matches Mode::Domain { apex, .. }
            ==> (step matches RegisterStep::Reply {
            frame: ServerFrame::TunnelRegistered { tunnel_id: id, public_url, public_port },
        } && id == tunnel_id && public_url@ == "https://"@ + label@ + "."@ + apex@ && public_port
            is None)),
        info is Http && session.mode is Ip ==> (step matches RegisterStep::ReplyThenRemove {
            frame: ServerFrame::TunnelRejected { code, detail },
            tunnel_id: gone,
        } && code == ErrorCode::InternalError && detail@ == "resume across mode change"@ && gone
            == tunnel_id),
        info matches ResumedInfo::Tcp { public_port, listener } ==> {
            &&& step matches RegisterStep::Respawn {
                tunnel_id: at,
                listener: l,
                inspect: i,
                frame: ServerFrame::TunnelRegistered {
                    tunnel_id: id,
                    public_url,
                    public_port: port,
                },
            }
            &&& at == tunnel_id
            &&& l == listener
            &&& i == inspect
            &&& id == tunnel_id
            &&& port == Some(public_port)
            &&& session.mode matches Mode::Ip { public_host, .. } ==> public_url@ == "tcp://"@
                + public_host@ + ":"@ + decimal(public_port as nat)
            &&& session.mode matches Mode::Domain { apex, .. } ==> public_url@ == "tcp://"@ + apex@
                + ":"@ + decimal(public_port as nat)
        },
{
}

/// The step after a tunnel has been handed over is the one that announces it.
pub proof fn finishing_a_resume_announces_it<C, L, R>(
    session: &Session<C, R>,
    tunnel_id: TunnelId,
    info: ResumedInfo<L>,
    inspect: bool,
    step: RegisterStep<L>,
)
    requires
        call_ensures(
            Session::<C, R>::finish_resume::<L>,
            (session, tunnel_id, info, inspect),
            step,
        ),
    ensures
        session.ends_resume(tunnel_id, info, inspect, step),
        step is ReplyThenRemove <==> info is Http && session.mode is Ip,
        step is Respawn <==> info is Tcp,
{
}

/// A key that holds as many tunnels as it may, live or on a lease, of whatever kind,
/// gets no more; otherwise the request is judged by its kind.
pub proof fn a_key_is_held_to_its_limit<C: Clone, A, L, R: Clone>(
    session: Session<C, R>,
    m: RegistryModel<C, A, L, R>,
    peers: Seq<Seq<char>>,
    label: Seq<char>,
    kind: TunnelKind,
    inspect: bool,
    after: RegistryModel<C, A, L, R>,
    metrics: Seq<Metric>,
    step: RegisterStep<L>,
)
    requires
        session.starts_fresh(m, peers, label, kind, inspect, after, metrics, step),
    ensures
        ({
            let held = Set::new(
                |id: u64| m.tunnels.contains_key(id) && m.tunnels[id].owner == session.pubkey,
            ).len();
            let full = session.entry.max_conns matches Some(cap) && held >= cap;
            &&& full ==> {
                &&& after == m
                &&& metrics == seq![Metric::TunnelRejectedConns]
                &&& step matches RegisterStep::Reply {
                    frame: ServerFrame::TunnelRejected { code, detail },
                }
                &&& code == ErrorCode::TunnelLimitExceeded
                &&& detail@ == decimal(held) + "/"@ + decimal(session.entry.max_conns->0 as nat)
                    + " concurrent tunnels"@
            }
            &&& !full && kind is Http ==> session.starts_http(
                m,
                peers,
                label,
                inspect,
                after,
                metrics,
                step,
            )
            &&& !full ==> (kind matches TunnelKind::Tcp { remote_port } ==> session.starts_tcp(
                m,
                remote_port,
                after,
                metrics,
                step,
            ))
        }),
{
    assert(m.owned_by(session.pubkey) =~= Set::new(
        |id: u64| m.tunnels.contains_key(id) && m.tunnels[id].owner == session.pubkey,
    ));
}

/// A registration that resumes nothing is judged in that way.
pub proof fn a_fresh_request_is_judged<C: Clone, A, L, R: Clone>(
    session: &Session<C, R>,
    registry: &mut TunnelRegistry<C, A, L, R>,
    peers: &Vec<String>,
    label: &str,
    kind: TunnelKind,
    inspect: bool,
    p: Progress<L>,
)
    requires
        call_ensures(
            Session::<C, R>::register_fresh::<A, L>,
            (session, registry, peers, label, kind, inspect),
            p,
        ),
    ensures
        session.starts_fresh(
            old(registry)@,
            texts(peers@),
            label@,
            kind,
            inspect,
            final(registry)@,
            p.metrics@,
            p.step,
        ),
        session.entry.max_conns matches Some(cap) ==> Set::new(
            |id: u64|
                old(registry)@.tunnels.contains_key(id) && old(registry)@.tunnels[id].owner
                    == session.pubkey,
        ).len() >= cap ==> final(registry)@ == old(registry)@ && (
        p.step matches RegisterStep::Reply { frame: ServerFrame::TunnelRejected { code, .. } }
            && code == ErrorCode::TunnelLimitExceeded),
{
    a_key_is_held_to_its_limit(
        *session,
        old(registry)@,
        texts(peers@),
        label@,
        kind,
        inspect,
        final(registry)@,
        p.metrics@,
        p.step,
    );
}

/// A client that comes back in time and names its session gets its HTTP tunnel under
/// the same id and URL. Somebody else who names that session is refused. Where the
/// label leads to no running lease of the session named, the request counts as fresh.
pub proof fn coming_back_resumes_the_label<C: Clone, A, L: Clone, R: Clone>(
    session: Session<C, R>,
    m: RegistryModel<C, A, L, R>,
    peers: Seq<Seq<char>>,
    label: Seq<char>,
    kind: TunnelKind,
    previous: SessionId,
    inspect: bool,
    now: u128,
    after: RegistryModel<C, A, L, R>,
    progress: Progress<L>,
)
    requires
        session.registers(
            m,
            peers,
            label,
            kind,
            Some(previous),
            inspect,
            now,
            after,
            progress,
        ),
        m.labels.contains_key(label),
        m.tunnels.contains_key(m.labels[label]),
        m.tunnels[m.labels[label]].kind matches RegisteredKind::Http { label: l } && l@ == label,
    ensures
        ({
            let id = m.labels[label];
            let was = m.tunnels[id];
            let leased = was.session_id == previous && (was.state matches TunnelState::Dangling {
                expires_at,
            } && now < expires_at);
            &&& leased && was.owner == session.pubkey ==> {
                &&& progress.metrics@ == seq![Metric::ResumeReattached]
                &&& after.tunnels.contains_key(id)
                &&& after.tunnels[id].state matches TunnelState::Live { connection, abort }
                &&& cloned(session.connection, connection)
                &&& abort is None
                &&& after == (RegistryModel {
                    tunnels: m.tunnels.insert(
                        id,
                        TunnelInfo { state: after.tunnels[id].state, ..was },
                    ),
                    ..m
                })
                &&& session.mode matches Mode::Domain { apex, .. } ==> (
                progress.step matches RegisterStep::Reply {
                    frame: ServerFrame::TunnelRegistered { tunnel_id, public_url, public_port },
                } && tunnel_id.0 == id && public_url@ == "https://"@ + label + "."@ + apex@
                    && public_port is None)
                &&& session.mode is Ip ==> (progress.step matches RegisterStep::ReplyThenRemove {
                    frame: ServerFrame::TunnelRejected { code, .. },
                    tunnel_id,
                } && code == ErrorCode::InternalError && tunnel_id.0 == id)
            }
            &&& leased && was.owner != session.pubkey ==> {
                &&& after == m
                &&& progress.metrics@ == seq![Metric::ResumeIdentityMismatch]
                &&& progress.step matches RegisterStep::Reply {
                    frame: ServerFrame::TunnelRejected { code, detail },
                }
                &&& code == ErrorCode::ResumeIdentityMismatch
                &&& detail@ == "resume pubkey does not match original owner"@
            }
            &&& !leased ==> {
                &&& progress.metrics@.len() >= 1
                &&& progress.metrics@[0] == Metric::ResumeUnknown
                &&& session.starts_fresh(
                    m,
                    peers,
                    label,
                    kind,
                    inspect,
                    after,
                    progress.metrics@.skip(1),
                    progress.step,
                )
            }
        }),
{
    let (connection, found, outcome) = choose|
        connection: C,
        found: RegistryModel<C, A, L, R>,
        outcome: ResumeOutcome<L>,
    |
        {
            &&& cloned(session.connection, connection)
            &&& #[trigger] m.tries_resume(
                label,
                previous,
                session.pubkey,
                connection,
                now,
                found,
                outcome,
            )
            &&& session.after_lookup(
                found,
                outcome,
                peers,
                label,
                kind,
                inspect,
                after,
                progress,
            )
        };
    assert(m.resumes(
        m.labels[label],
        previous,
        session.pubkey,
        connection,
        now,
        found,
        outcome,
    ));
}

/// Where the label names nothing, a client that comes back in time and names its
/// session gets one of its TCP tunnels under the id and port that it had. If only
/// others hold leases of that session, it is refused; if nobody does, the request
/// counts as fresh.
pub proof fn coming_back_resumes_a_port<C: Clone, A, L: Clone, R: Clone>(
    session: Session<C, R>,
    m: RegistryModel<C, A, L, R>,
    peers: Seq<Seq<char>>,
    label: Seq<char>,
    kind: TunnelKind,
    previous: SessionId,
    inspect: bool,
    now: u128,
    after: RegistryModel<C, A, L, R>,
    progress: Progress<L>,
)
    requires
        m.tunnels.dom().finite(),
        session.registers(
            m,
            peers,
            label,
            kind,
            Some(previous),
            inspect,
            now,
            after,
            progress,
        ),
        !m.labels.contains_key(label),
        forall|id: u64| #[trigger]
            m.tunnels.contains_key(id) ==> m.tunnels[id].kind is Tcp
                ==> m.tunnels[id].tcp_listener is Some,
    ensures
        ({
            let leased = |t: TunnelInfo<C, A, L, R>|
                t.kind is Tcp && t.session_id == previous && (t.state matches TunnelState::Dangling {
                    expires_at,
                } && now < expires_at);
            let any = exists|id: u64| #[trigger]
                m.tunnels.contains_key(id) && leased(m.tunnels[id]);
            let mine = exists|id: u64| #[trigger]
                m.tunnels.contains_key(id) && leased(m.tunnels[id]) && m.tunnels[id].owner
                    == session.pubkey;
            &&& mine ==> {
                &&& progress.metrics@ == seq![Metric::ResumeReattached]
                &&& progress.step matches RegisterStep::Respawn {
                    tunnel_id,
                    listener,
                    inspect: kept,
                    frame: ServerFrame::TunnelRegistered { tunnel_id: id, public_port, .. },
                }
                &&& m.tunnels.contains_key(id.0)
                &&& leased(m.tunnels[id.0])
                &&& m.tunnels[id.0].owner == session.pubkey
                &&& tunnel_id == id
                &&& cloned(m.tunnels[id.0].tcp_listener->0, listener)
                &&& kept == m.tunnels[id.0].inspect
                &&& public_port is Some
                &&& m.tunnels[id.0].kind == (RegisteredKind::Tcp { public_port: public_port->0 })
                &&& after.tunnels[id.0].state matches TunnelState::Live { connection, .. }
                &&& cloned(session.connection, connection)
                &&& after == (RegistryModel {
                    tunnels: m.tunnels.insert(
                        id.0,
                        TunnelInfo { state: after.tunnels[id.0].state, ..m.tunnels[id.0] },
                    ),
                    ..m
                })
            }
            &&& any && !mine ==> {
                &&& after == m
                &&& progress.metrics@ == seq![Metric::ResumeIdentityMismatch]
                &&& progress.step matches RegisterStep::Reply {
                    frame: ServerFrame::TunnelRejected { code, .. },
                }
                &&& code == ErrorCode::ResumeIdentityMismatch
            }
            &&& !any ==> {
                &&& progress.metrics@.len() >= 1
                &&& progress.metrics@[0] == Metric::ResumeUnknown
                &&& session.starts_fresh(
                    m,
                    peers,
                    label,
                    kind,
                    inspect,
                    after,
                    progress.metrics@.skip(1),
                    progress.step,
                )
            }
        }),
{
    let (connection, found, outcome) = choose|
        connection: C,
        found: RegistryModel<C, A, L, R>,
        outcome: ResumeOutcome<L>,
    |
        {
            &&& cloned(session.connection, connection)
            &&& #[trigger] m.tries_resume(
                label,
                previous,
                session.pubkey,
                connection,
                now,
                found,
                outcome,
            )
            &&& session.after_lookup(
                found,
                outcome,
                peers,
                label,
                kind,
                inspect,
                after,
                progress,
            )
        };
    let leased = |t: TunnelInfo<C, A, L, R>|
        t.kind is Tcp && t.session_id == previous && (t.state matches TunnelState::Dangling {
            expires_at,
        } && now < expires_at);
    let leases = m.tcp_leases(previous, now);
    let own = leases.intersect(m.owned_by(session.pubkey));
    vstd::set_lib::lemma_set_subset_finite(m.tunnels.dom(), leases);
    vstd::set_lib::lemma_set_subset_finite(m.tunnels.dom(), own);
    if leases.len() == 0 {
        leases.lemma_len0_is_empty();
    } else {
        assert(leases.contains(leases.choose()));
        assert(m.tunnels.contains_key(leases.choose()));
    }
    if own.len() == 0 {
        own.lemma_len0_is_empty();
    } else {
        assert(own.contains(own.choose()));
        assert(m.tunnels.contains_key(own.choose()));
    }
    assert forall|id: u64| #[trigger] m.tunnels.contains_key(id) && leased(
        m.tunnels[id],
    ) implies leases.contains(id) by {}
    assert forall|id: u64| #[trigger] m.tunnels.contains_key(id) && leased(m.tunnels[id])
        && m.tunnels[id].owner == session.pubkey implies own.contains(id) by {}
    if own.len() > 0 {
        let id = choose|id: u64|
            own.contains(id) && #[trigger] m.resumes(
                id,
                previous,
                session.pubkey,
                connection,
                now,
                found,
                outcome,
            );
        assert(m.tunnels.contains_key(id));
    }
}

/// A registration that names no earlier session is a fresh one, and one that does is
/// looked up first.
pub proof fn a_registration_is_looked_up_first<C: Clone, A, L: Clone, R: Clone>(
    session: &Session<C, R>,
    registry: &mut TunnelRegistry<C, A, L, R>,
    peers: &Vec<String>,
    label: &str,
    kind: TunnelKind,
    resume: Option<SessionId>,
    inspect: bool,
    now: u128,
    p: Progress<L>,
)
    requires
        call_ensures(
            Session::<C, R>::register::<A, L>,
            (session, registry, peers, label, kind, resume, inspect, now),
            p,
        ),
    ensures
        session.registers(
            old(registry)@,
            texts(peers@),
            label@,
            kind,
            resume,
            inspect,
            now,
            final(registry)@,
            p,
        ),
        resume is None ==> session.starts_fresh(
            old(registry)@,
            texts(peers@),
            label@,
            kind,
            inspect,
            final(registry)@,
            p.metrics@,
            p.step,
        ),
        resume is None ==> !p.metrics@.contains(Metric::ResumeReattached) && p.step !is Respawn,
{
    if resume is None {
        a_key_is_held_to_its_limit(
            *session,
            old(registry)@,
            texts(peers@),
            label@,
            kind,
            inspect,
            final(registry)@,
            p.metrics@,
            p.step,
        );
    }
}

/// Each control frame does what it is for: a ping is echoed, a registration is judged,
/// an unregistration takes that tunnel away, a request for peers is answered with those
/// on both lists, a goodbye ends the session, and any other frame ends it as a
/// violation. Only registrations and unregistrations touch the registry.
pub proof fn each_frame_does_its_part<C: Clone, A, L: Clone, R: Clone>(
    session: &Session<C, R>,
    registry: &mut TunnelRegistry<C, A, L, R>,
    peers: &Vec<String>,
    frame: &ClientFrame,
    now: u128,
    step: DispatchStep<A, L>,
)
    requires
        call_ensures(
            Session::<C, R>::dispatch::<A, L>,
            (session, registry, peers, frame, now),
            step,
        ),
    ensures
        !(frame is RegisterTunnel) && !(frame is UnregisterTunnel) ==> final(registry)@ == old(
            registry,
        )@,
        *frame matches ClientFrame::Ping { nonce } ==> (step matches DispatchStep::Send {
            frame: ServerFrame::Pong { nonce: n },
        } && n == nonce),
        *frame matches ClientFrame::RegisterTunnel { label, kind, resume_session_id, inspect } ==> (
        step matches DispatchStep::Register { progress } && session.registers(
            old(registry)@,
            texts(peers@),
            label@,
            kind,
            resume_session_id,
            inspect,
            now,
            final(registry)@,
            progress,
        )),
        *frame matches ClientFrame::UnregisterTunnel { tunnel_id } ==> {
            &&& loses_exactly(old(registry)@, final(registry)@, set![tunnel_id.0])
            &&& step matches DispatchStep::Removed { abort }
            &&& abort is Some <==> old(registry)@.tunnels.contains_key(tunnel_id.0) && (old(
                registry,
            )@.tunnels[tunnel_id.0].state matches TunnelState::Live { abort: a, .. } && a is Some)
            &&& abort is Some ==> (old(
                registry,
            )@.tunnels[tunnel_id.0].state matches TunnelState::Live { abort: a, .. } && a == abort)
        },
        *frame is ListPeers ==> (step matches DispatchStep::Send {
            frame: ServerFrame::Peers { relays },
        } && texts(relays@) == federated(texts(peers@), texts(session.entry.federation@))),
        *frame is Bye ==> (step matches DispatchStep::Stop { outcome } && outcome
            == SessionOutcome::Bye),
        *frame is Unexpected ==> (step matches DispatchStep::SendThenStop {
            frame: ServerFrame::ServerBye { code },
            outcome,
        } && code == ErrorCode::ProtocolViolation && outcome == SessionOutcome::Terminal),
{
    if let ClientFrame::UnregisterTunnel { tunnel_id } = *frame {
        crate::lease_laws::without_loses_exactly(old(registry)@, set![tunnel_id.0]);
    }
}

/// A session ends by its stream as a drop, and by the server as a terminal end that the
/// client is told the reason of. Frames are dispatched and posted frames forwarded.
pub proof fn a_stream_that_ends_is_a_drop(event: SessionEvent, step: SessionStep)
    requires
        call_ensures(session_step, (event,), step),
    ensures
        step matches SessionStep::Stop { outcome } ==> event is StreamEnded && outcome
            == SessionOutcome::Dropped,
        event is StreamEnded ==> step is Stop,
        step matches SessionStep::Farewell { farewell, outcome } ==> {
            &&& outcome == SessionOutcome::Terminal
            &&& farewell matches ServerFrame::ServerBye { code }
            &&& event is Shutdown || event is Revoked
            &&& event is Shutdown ==> code == ErrorCode::ServerShutdown
            &&& event is Revoked ==> code == ErrorCode::KeyRevoked
        },
        event is Shutdown || event is Revoked ==> step is Farewell,
        event matches SessionEvent::Frame(frame) ==> (step matches SessionStep::Dispatch { frame: f }
            && f == frame),
        event is Outbound <==> step is Forward,
{
}

/// A session is told of a revocation exactly if it is its own key that was revoked, and
/// goes on listening as long as there is somebody to revoke.
pub proof fn only_its_own_key_stops_a_session(
    event: &RevocationEvent,
    target: &PubKey,
    step: RevocationStep,
)
    requires
        call_ensures(revocation_step, (event, target), step),
    ensures
        step is Signal <==> (*event matches RevocationEvent::Key(key) && key == *target),
        step is Idle <==> *event is Closed,
{
}

/// The system's words reach the client whose port could not be bound.
pub proof fn a_failed_bind_is_told(message: &str, frame: ServerFrame)
    requires
        call_ensures(tcp_bind_failed, (message,), frame),
    ensures
        frame matches ServerFrame::TunnelRejected { code, detail } && code
            == ErrorCode::InternalError && detail@ == "bind failed: "@ + message@,
{
}

} // verus!
