//! Per-connection session: what to do with each control frame and each event
//! of the session loop.
//!
//! A step either is complete in itself or ends in work that only the caller can
//! do (ask the federated peers, bind a port, respawn a listener task); the caller
//! then comes back with the result. Each step also names the events to count,
//! which are counted before anything is sent.

use vstd::prelude::*;

use crate::config::Mode;
use crate::metrics::Metric;
use crate::proto::{
    ClientFrame, ErrorCode, IpAddr, PubKey, ServerFrame, SessionId, TunnelId, TunnelKind,
};
use crate::registry::{
    is_valid_label, slice_has, valid_label, RegisteredKind, RegistryModel, ResumeOutcome,
    ResumedInfo, TunnelInfo, TunnelRegistry, TunnelState,
};
use crate::seqs::{filter_take_next, filter_take_none};
use crate::text::{decimal, decimal_string, join2, join3, list_has, texts};

verus! {

/// How a session ended. Decides what becomes of its tunnels.
#[derive(Clone, Copy, Debug, PartialEq, Eq, Structural)]
pub enum SessionOutcome {
    /// The client said goodbye: its tunnels are removed and cannot be resumed.
    Bye,
    /// The control stream ended without a goodbye: the tunnels dangle for the
    /// grace period.
    Dropped,
    /// Server shutdown, key revocation or protocol violation: the tunnels are
    /// removed at once.
    Terminal,
}

/// What a client's key is allowed to do.
#[derive(Debug)]
pub struct AuthorizedEntry {
    /// Every HTTP label is allowed.
    pub allow_any_subdomain: bool,
    /// The HTTP labels allowed one by one.
    pub allowed_subdomains: Vec<String>,
    /// The TCP ports allowed, where they are restricted.
    pub allowed_ports: Option<Vec<u16>>,
    /// Most tunnels at once, where they are limited.
    pub max_conns: Option<u32>,
    /// The federated peers this key may publish on.
    pub federation: Vec<String>,
}

/// What the federated peers know of a label.
#[derive(Debug)]
pub enum CollisionCheck {
    /// Some peer has it registered for a different key.
    Conflict { first_conflict: String },
    /// No peer objects; these have it registered for the same key.
    Clear { matched_peers: Vec<String> },
}

/// State captured after a successful handshake.
#[derive(Debug)]
pub struct Session<C, R> {
    pub pubkey: PubKey,
    pub session_id: SessionId,
    pub connection: C,
    pub rate: R,
    pub mode: Mode,
    pub entry: AuthorizedEntry,
    /// Public address of the client, where the transport exposes one.
    pub client_ip: Option<IpAddr>,
}

/// What is left to do for a registration request.
#[derive(Debug)]
pub enum RegisterStep<L> {
    /// Send `frame`; the request is settled.
    Reply { frame: ServerFrame },
    /// Send `frame`, then remove the tunnel.
    ReplyThenRemove { frame: ServerFrame, tunnel_id: TunnelId },
    /// Spawn the accept task on `listener` again, record its handle in the
    /// registry, then send `frame`.
    Respawn { tunnel_id: TunnelId, listener: L, inspect: bool, frame: ServerFrame },
    /// Ask these peers about the label, then call [`Session::finish_http`].
    ConsultPeers { peers: Vec<String> },
    /// Bind `port`, then call [`Session::finish_tcp`] or, failing that, send
    /// what [`tcp_bind_failed`] returns.
    Bind { tunnel_id: TunnelId, port: u16 },
}

/// A step of a registration, with the events to count.
#[derive(Debug)]
pub struct Progress<L> {
    pub metrics: Vec<Metric>,
    pub step: RegisterStep<L>,
}

/// What to do with one control frame.
#[derive(Debug)]
pub enum DispatchStep<A, L> {
    /// Send `frame` and go on.
    Send { frame: ServerFrame },
    /// Go on with the registration.
    Register { progress: Progress<L> },
    /// Fire the handle, if there is one, and go on.
    Removed { abort: Option<A> },
    /// The session is over.
    Stop { outcome: SessionOutcome },
    /// Send `frame`; the session is over.
    SendThenStop { frame: ServerFrame, outcome: SessionOutcome },
}

/// The peers that appear in `federation`, in their own order.
pub open spec fn federated(peers: Seq<Seq<char>>, federation: Seq<Seq<char>>) -> Seq<Seq<char>> {
    peers.filter(|p: Seq<char>| federation.contains(p))
}

/// Intersects the server's peer list with the allowlist of one key. The order
/// is that of the peer list.
pub fn federated_peers(peers: &Vec<String>, federation: &Vec<String>) -> (out: Vec<String>)
    ensures
        texts(out@) == federated(texts(peers@), texts(federation@)),
{
    let ghost pred = |p: Seq<char>| texts(federation@).contains(p);
    let mut out: Vec<String> = Vec::new();
    proof {
        filter_take_none(texts(peers@), pred);
        assert(texts(out@) =~= Seq::<Seq<char>>::empty());
    }
    for i in 0..peers.len()
        invariant
            pred == |p: Seq<char>| texts(federation@).contains(p),
            texts(out@) == texts(peers@).take(i as int).filter(pred),
    {
        let ghost before = out@;
        proof {
            filter_take_next(texts(peers@), i as int, pred);
        }
        let known = list_has(federation, peers[i].as_str());
        proof {
            let p = texts(peers@)[i as int];
            assert(known == texts(federation@).contains(p)) by {
                if known {
                    let j = choose|j: int|
                        0 <= j < federation@.len() && #[trigger] federation@[j]@ == p;
                    assert(texts(federation@)[j] == p);
                }
                if texts(federation@).contains(p) {
                    let j = texts(federation@).index_of(p);
                    assert(federation@[j]@ == p);
                }
            }
        }
        if known {
            out.push(peers[i].clone());
            proof {
                assert(texts(out@) =~= texts(before).push(texts(peers@)[i as int]));
            }
        }
    }
    proof {
        assert(texts(peers@).take(peers@.len() as int) =~= texts(peers@));
    }
    out
}

/// Just `metric`.
fn counted(metric: Metric) -> (r: Vec<Metric>)
    ensures
        r@ == seq![metric],
{
    let mut r: Vec<Metric> = Vec::new();
    r.push(metric);
    r
}

fn reject(code: ErrorCode, detail: String) -> (frame: ServerFrame)
    ensures
        frame.rejects(code, detail@),
{
    ServerFrame::TunnelRejected { code, detail }
}

/// The answer to a client that asks for HTTP where no domain is served.
fn no_domain() -> (frame: ServerFrame)
    ensures
        frame.rejects(ErrorCode::HttpNotAvailable, "server is in IpMode"@),
{
    reject(ErrorCode::HttpNotAvailable, String::from_str("server is in IpMode"))
}

/// The answer to a client whose port could not be bound, with the system's words.
/// The reserved port stays reserved.
pub fn tcp_bind_failed(message: &str) -> (frame: ServerFrame)
    ensures
        frame.rejects(ErrorCode::InternalError, "bind failed: "@ + message@),
{
    reject(ErrorCode::InternalError, join2("bind failed: ", message))
}

/// The URL of an HTTP tunnel.
pub open spec fn http_url(label: Seq<char>, apex: Seq<char>) -> Seq<char> {
    "https://"@ + label + "."@ + apex
}

/// The URL of a TCP tunnel.
pub open spec fn tcp_url(host: Seq<char>, port: u16) -> Seq<char> {
    "tcp://"@ + host + ":"@ + decimal(port as nat)
}

fn http_url_string(label: &str, apex: &str) -> (r: String)
    ensures
        r@ == http_url(label@, apex@),
{
    let mut r = join3("https://", label, ".");
    r.append(apex);
    r
}

fn tcp_url_string(host: &str, port: u16) -> (r: String)
    ensures
        r@ == tcp_url(host@, port),
{
    let mut r = join3("tcp://", host, ":");
    let digits = decimal_string(port as u64);
    r.append(digits.as_str());
    r
}

/// `label` in backquotes, then `rest`.
fn quoted(label: &str, rest: &str) -> (r: String)
    ensures
        r@ == "`"@ + label@ + rest@,
{
    join3("`", label, rest)
}

impl AuthorizedEntry {
    /// Whether the key may publish the HTTP label `label`.
    pub open spec fn permits_label(self, label: Seq<char>) -> bool {
        self.allow_any_subdomain || texts(self.allowed_subdomains@).contains(label)
    }

    /// Whether the key may ask for `remote_port`. Without a request or without
    /// a restriction there is nothing to refuse.
    pub open spec fn permits_port(self, remote_port: Option<u16>) -> bool {
        match (remote_port, self.allowed_ports) {
            (Some(p), Some(list)) => list@.contains(p),
            _ => true,
        }
    }

    /// The ports that a request for `remote_port` is restricted to. The key's
    /// allowlist is consulted only where a port is asked for; otherwise the whole
    /// pool is open.
    pub open spec fn ports_for(self, remote_port: Option<u16>) -> Option<Seq<u16>> {
        match (remote_port, self.allowed_ports) {
            (Some(_), Some(list)) => Some(list@),
            _ => None,
        }
    }

    fn label_permitted(&self, label: &str) -> (r: bool)
        ensures
            r == self.permits_label(label@),
    {
        if self.allow_any_subdomain {
            return true;
        }
        let r = list_has(&self.allowed_subdomains, label);
        proof {
            if r {
                let j = choose|j: int|
                    0 <= j < self.allowed_subdomains@.len() && #[trigger] self.allowed_subdomains@[j]@
                        == label@;
                assert(texts(self.allowed_subdomains@)[j] == label@);
            }
            if texts(self.allowed_subdomains@).contains(label@) {
                let j = texts(self.allowed_subdomains@).index_of(label@);
                assert(self.allowed_subdomains@[j]@ == label@);
            }
        }
        r
    }

    fn port_permitted(&self, remote_port: Option<u16>) -> (r: bool)
        ensures
            r == self.permits_port(remote_port),
    {
        match (remote_port, &self.allowed_ports) {
            (Some(p), Some(list)) => slice_has(list.as_slice(), p),
            _ => true,
        }
    }
}

/// Why an HTTP request is refused before anybody else is asked.
pub enum HttpRefusal {
    NoDomain,
    BadLabel,
    Forbidden,
}

impl<C, R> Session<C, R> {
    /// Why a request for the HTTP label `label` is refused out of hand.
    pub open spec fn http_refusal(self, label: Seq<char>) -> Option<HttpRefusal> {
        if !(self.mode is Domain) {
            Some(HttpRefusal::NoDomain)
        } else if !valid_label(label) {
            Some(HttpRefusal::BadLabel)
        } else if !self.entry.permits_label(label) {
            Some(HttpRefusal::Forbidden)
        } else {
            None
        }
    }

    /// Whether `info` is the new tunnel `id` of this session, without regard to
    /// what it publishes.
    pub open spec fn stamps<A, L>(
        self,
        info: TunnelInfo<C, A, L, R>,
        id: u64,
        abort: Option<A>,
        inspect: bool,
    ) -> bool where C: Clone, R: Clone {
        &&& info.id.0 == id
        &&& info.owner == self.pubkey
        &&& info.session_id == self.session_id
        &&& info.state matches TunnelState::Live { connection, abort: a } && cloned(
            self.connection,
            connection,
        ) && a == abort
        &&& cloned(self.rate, info.rate)
        &&& info.inspect == inspect
        &&& info.client_ip == self.client_ip
    }

    /// How a request for an HTTP label that nobody objects to is settled. Without a
    /// domain there is nothing to publish under.
    pub open spec fn settles_http<A, L>(
        self,
        m: RegistryModel<C, A, L, R>,
        label: Seq<char>,
        inspect: bool,
        after: RegistryModel<C, A, L, R>,
        metrics: Seq<Metric>,
        step: RegisterStep<L>,
    ) -> bool where C: Clone, R: Clone {
        if !(self.mode is Domain) {
            &&& after == m
            &&& metrics == Seq::<Metric>::empty()
            &&& step matches RegisterStep::Reply { frame } && frame.rejects(
                ErrorCode::HttpNotAvailable,
                "server is in IpMode"@,
            )
        } else if m.used_labels.contains(label) {
            &&& after == m
            &&& metrics == seq![Metric::TunnelRejectedLabel]
            &&& step matches RegisterStep::Reply { frame } && frame.rejects(
                ErrorCode::LabelUnavailable,
                "`"@ + label + "` is taken"@,
            )
        } else if !m.admits_http_for_ip(self.client_ip) {
            &&& after == m.with_label(label).after_fresh_id().without_reservation(label)
            &&& metrics == seq![Metric::TunnelRejectedLabel]
            &&& step matches RegisterStep::Reply { frame } && frame.rejects(
                ErrorCode::LabelForbidden,
                "client IP already holds the maximum number of domains"@,
            )
        } else {
            let info = after.tunnels[m.next_id];
            &&& after == m.with_label(label).after_fresh_id().with_tunnel(info)
            &&& self.stamps(info, m.next_id, None, inspect)
            &&& info.http_label() == Some(label)
            &&& info.tcp_listener is None
            &&& metrics == seq![Metric::TunnelRegisteredHttp]
            &&& step matches RegisterStep::Reply { frame } && frame.announces(
                TunnelId(m.next_id),
                http_url(label, self.mode->apex@),
                None,
            )
        }
    }

    /// How a request for an HTTP label starts.
    pub open spec fn starts_http<A, L>(
        self,
        m: RegistryModel<C, A, L, R>,
        peers: Seq<Seq<char>>,
        label: Seq<char>,
        inspect: bool,
        after: RegistryModel<C, A, L, R>,
        metrics: Seq<Metric>,
        step: RegisterStep<L>,
    ) -> bool where C: Clone, R: Clone {
        let candidates = federated(peers, texts(self.entry.federation@));
        match self.http_refusal(label) {
            Some(HttpRefusal::NoDomain) => {
                &&& after == m
                &&& metrics == Seq::<Metric>::empty()
                &&& step matches RegisterStep::Reply { frame } && frame.rejects(
                    ErrorCode::HttpNotAvailable,
                    "server is in IpMode"@,
                )
            },
            Some(HttpRefusal::BadLabel) => {
                &&& after == m
                &&& metrics == seq![Metric::TunnelRejectedLabel]
                &&& step matches RegisterStep::Reply { frame } && frame.rejects(
                    ErrorCode::LabelInvalid,
                    "does not match DNS label grammar"@,
                )
            },
            Some(HttpRefusal::Forbidden) => {
                &&& after == m
                &&& metrics == seq![Metric::TunnelRejectedLabel]
                &&& step matches RegisterStep::Reply { frame } && frame.rejects(
                    ErrorCode::LabelForbidden,
                    "`"@ + label + "` not permitted for this identity"@,
                )
            },
            None => if candidates.len() > 0 {
                &&& after == m
                &&& metrics == Seq::<Metric>::empty()
                &&& step matches RegisterStep::ConsultPeers { peers: asked } && texts(asked@)
                    == candidates
            } else {
                self.settles_http(m, label, inspect, after, metrics, step)
            },
        }
    }

    /// How a request for a TCP port starts.
    pub open spec fn starts_tcp<A, L>(
        self,
        m: RegistryModel<C, A, L, R>,
        remote_port: Option<u16>,
        after: RegistryModel<C, A, L, R>,
        metrics: Seq<Metric>,
        step: RegisterStep<L>,
    ) -> bool {
        let allowlist = self.entry.ports_for(remote_port);
        if !self.entry.permits_port(remote_port) {
            &&& after == m
            &&& metrics == seq![Metric::TunnelRejectedPorts]
            &&& step matches RegisterStep::Reply { frame } && frame.rejects(
                ErrorCode::LabelForbidden,
                "port "@ + decimal(remote_port->0 as nat) + " not permitted for this identity"@,
            )
        } else if forall|p: u16| !m.eligible(allowlist, p) {
            &&& after == m
            &&& metrics == seq![Metric::TunnelRejectedPool]
            &&& step matches RegisterStep::Reply { frame } && frame.rejects(
                ErrorCode::PortPoolExhausted,
                "no free ports"@,
            )
        } else {
            &&& metrics == Seq::<Metric>::empty()
            &&& step matches RegisterStep::Bind { tunnel_id, port } && {
                &&& tunnel_id.0 == m.next_id
                &&& m.eligible(allowlist, port)
                &&& forall|q: u16| q < port ==> !#[trigger] m.eligible(allowlist, q)
                &&& after == m.with_port(port).after_fresh_id()
            }
        }
    }

    /// How a registration that resumes nothing starts.
    pub open spec fn starts_fresh<A, L>(
        self,
        m: RegistryModel<C, A, L, R>,
        peers: Seq<Seq<char>>,
        label: Seq<char>,
        kind: TunnelKind,
        inspect: bool,
        after: RegistryModel<C, A, L, R>,
        metrics: Seq<Metric>,
        step: RegisterStep<L>,
    ) -> bool where C: Clone, R: Clone {
        let live = m.owned_by(self.pubkey).len();
        if self.entry.max_conns is Some && live >= self.entry.max_conns->0 {
            &&& after == m
            &&& metrics == seq![Metric::TunnelRejectedConns]
            &&& step matches RegisterStep::Reply { frame } && frame.rejects(
                ErrorCode::TunnelLimitExceeded,
                decimal(live) + "/"@ + decimal(self.entry.max_conns->0 as nat)
                    + " concurrent tunnels"@,
            )
        } else {
            match kind {
                TunnelKind::Http => self.starts_http(
                    m,
                    peers,
                    label,
                    inspect,
                    after,
                    metrics,
                    step,
                ),
                TunnelKind::Tcp { remote_port } => self.starts_tcp(
                    m,
                    remote_port,
                    after,
                    metrics,
                    step,
                ),
            }
        }
    }

    /// What is left to do for a tunnel that has been re-attached.
    pub open spec fn ends_resume<L>(
        self,
        tunnel_id: TunnelId,
        info: ResumedInfo<L>,
        inspect: bool,
        step: RegisterStep<L>,
    ) -> bool {
        match info {
            ResumedInfo::Http { label } => match self.mode {
                Mode::Domain { apex, .. } => {
                    step matches RegisterStep::Reply { frame } && frame.announces(
                        tunnel_id,
                        http_url(label@, apex@),
                        None,
                    )
                },
                Mode::Ip { .. } => {
                    step matches RegisterStep::ReplyThenRemove { frame, tunnel_id: gone }
                        && frame.rejects(ErrorCode::InternalError, "resume across mode change"@)
                        && gone == tunnel_id
                },
            },
            ResumedInfo::Tcp { public_port, listener } => {
                step matches RegisterStep::Respawn { tunnel_id: id, listener: l, inspect: i, frame }
                    && id == tunnel_id && l == listener && i == inspect && frame.announces(
                    tunnel_id,
                    tcp_url(self.mode.tcp_host(), public_port),
                    Some(public_port),
                )
            },
        }
    }

    /// How a registration goes on once the resume lookup has ended in `outcome`
    /// and left the registry as `m`.
    pub open spec fn after_lookup<A, L>(
        self,
        m: RegistryModel<C, A, L, R>,
        outcome: ResumeOutcome<L>,
        peers: Seq<Seq<char>>,
        label: Seq<char>,
        kind: TunnelKind,
        inspect: bool,
        after: RegistryModel<C, A, L, R>,
        progress: Progress<L>,
    ) -> bool where C: Clone, R: Clone {
        match outcome {
            ResumeOutcome::Reattached { tunnel_id, info, inspect: kept } => {
                &&& after == m
                &&& progress.metrics@ == seq![Metric::ResumeReattached]
                &&& self.ends_resume(tunnel_id, info, kept, progress.step)
            },
            ResumeOutcome::IdentityMismatch => {
                &&& after == m
                &&& progress.metrics@ == seq![Metric::ResumeIdentityMismatch]
                &&& progress.step matches RegisterStep::Reply { frame } && frame.rejects(
                    ErrorCode::ResumeIdentityMismatch,
                    "resume pubkey does not match original owner"@,
                )
            },
            ResumeOutcome::Unknown => {
                &&& progress.metrics@.len() >= 1
                &&& progress.metrics@[0] == Metric::ResumeUnknown
                &&& self.starts_fresh(
                    m,
                    peers,
                    label,
                    kind,
                    inspect,
                    after,
                    progress.metrics@.skip(1),
                    progress.step,
                )
            },
        }
    }

    /// How a registration request starts.
    pub open spec fn registers<A, L>(
        self,
        m: RegistryModel<C, A, L, R>,
        peers: Seq<Seq<char>>,
        label: Seq<char>,
        kind: TunnelKind,
        resume: Option<SessionId>,
        inspect: bool,
        now: u128,
        after: RegistryModel<C, A, L, R>,
        progress: Progress<L>,
    ) -> bool where C: Clone, L: Clone, R: Clone {
        match resume {
            Some(previous) => exists|
                connection: C,
                found: RegistryModel<C, A, L, R>,
                outcome: ResumeOutcome<L>,
            |
                {
                    &&& cloned(self.connection, connection)
                    &&& #[trigger] m.tries_resume(
                        label,
                        previous,
                        self.pubkey,
                        connection,
                        now,
                        found,
                        outcome,
                    )
                    &&& self.after_lookup(
                        found,
                        outcome,
                        peers,
                        label,
                        kind,
                        inspect,
                        after,
                        progress,
                    )
                },
            None => self.starts_fresh(
                m,
                peers,
                label,
                kind,
                inspect,
                after,
                progress.metrics@,
                progress.step,
            ),
        }
    }

    /// Settles a request for an HTTP label once the peers have answered.
    ///
    /// The label is reserved first; a client address that already holds its
    /// share gives the label back.
    pub fn finish_http<A, L>(
        &self,
        registry: &mut TunnelRegistry<C, A, L, R>,
        label: &str,
        inspect: bool,
        check: &CollisionCheck,
    ) -> (p: Progress<L>) where C: Clone, R: Clone
        ensures
            match check {
                CollisionCheck::Conflict { first_conflict } => {
                    &&& final(registry)@ == old(registry)@
                    &&& p.metrics@ == seq![Metric::TunnelRejectedPeerCollision]
                    &&& p.step matches RegisterStep::Reply { frame } && frame.rejects(
                        ErrorCode::LabelUnavailable,
                        "`"@ + label@ + "` already registered on peer "@ + first_conflict@
                            + " by a different identity"@,
                    )
                },
                CollisionCheck::Clear { .. } => self.settles_http(
                    old(registry)@,
                    label@,
                    inspect,
                    final(registry)@,
                    p.metrics@,
                    p.step,
                ),
            },
    {
        if let CollisionCheck::Conflict { first_conflict } = check {
            let mut detail = quoted(label, "` already registered on peer ");
            detail.append(first_conflict.as_str());
            detail.append(" by a different identity");
            return Progress {
                metrics: counted(Metric::TunnelRejectedPeerCollision),
                step: RegisterStep::Reply { frame: reject(ErrorCode::LabelUnavailable, detail) },
            };
        }
        let apex: &str = match &self.mode {
            Mode::Domain { apex, .. } => apex.as_str(),
            Mode::Ip { .. } => {
                return Progress {
                    metrics: Vec::new(),
                    step: RegisterStep::Reply { frame: no_domain() },
                };
            },
        };
        let tunnel_id = match registry.allocate_http(label) {
            Ok(id) => id,
            Err(_) => {
                return Progress {
                    metrics: counted(Metric::TunnelRejectedLabel),
                    step: RegisterStep::Reply {
                        frame: reject(ErrorCode::LabelUnavailable, quoted(label, "` is taken")),
                    },
                };
            },
        };
        if !registry.admits_http_for_ip(self.client_ip) {
            registry.abort_http(tunnel_id, label);
            return Progress {
                metrics: counted(Metric::TunnelRejectedLabel),
                step: RegisterStep::Reply {
                    frame: reject(
                        ErrorCode::LabelForbidden,
                        String::from_str("client IP already holds the maximum number of domains"),
                    ),
                },
            };
        }
        registry.insert(
            TunnelInfo {
                id: tunnel_id,
                owner: self.pubkey,
                session_id: self.session_id,
                kind: RegisteredKind::Http { label: String::from_str(label) },
                state: TunnelState::Live { connection: self.connection.clone(), abort: None },
                tcp_listener: None,
                rate: self.rate.clone(),
                inspect,
                client_ip: self.client_ip,
            },
        );
        Progress {
            metrics: counted(Metric::TunnelRegisteredHttp),
            step: RegisterStep::Reply {
                frame: ServerFrame::TunnelRegistered {
                    tunnel_id,
                    public_url: http_url_string(label, apex),
                    public_port: None,
                },
            },
        }
    }

    /// Starts a request for an HTTP label: checks the mode, the grammar and the
    /// key's allowlist, then asks the federated peers if there are any.
    pub fn register_http<A, L>(
        &self,
        registry: &mut TunnelRegistry<C, A, L, R>,
        peers: &Vec<String>,
        label: &str,
        inspect: bool,
    ) -> (p: Progress<L>) where C: Clone, R: Clone
        ensures
            self.starts_http(
                old(registry)@,
                texts(peers@),
                label@,
                inspect,
                final(registry)@,
                p.metrics@,
                p.step,
            ),
    {
        if let Mode::Ip { .. } = &self.mode {
            return Progress {
                metrics: Vec::new(),
                step: RegisterStep::Reply { frame: no_domain() },
            };
        }
        if !is_valid_label(label) {
            return Progress {
                metrics: counted(Metric::TunnelRejectedLabel),
                step: RegisterStep::Reply {
                    frame: reject(
                        ErrorCode::LabelInvalid,
                        String::from_str("does not match DNS label grammar"),
                    ),
                },
            };
        }
        if !self.entry.label_permitted(label) {
            return Progress {
                metrics: counted(Metric::TunnelRejectedLabel),
                step: RegisterStep::Reply {
                    frame: reject(
                        ErrorCode::LabelForbidden,
                        quoted(label, "` not permitted for this identity"),
                    ),
                },
            };
        }
        let candidates = federated_peers(peers, &self.entry.federation);
        proof {
            assert(texts(candidates@).len() == candidates@.len());
        }
        if candidates.len() > 0 {
            return Progress {
                metrics: Vec::new(),
                step: RegisterStep::ConsultPeers { peers: candidates },
            };
        }
        self.finish_http(
            registry,
            label,
            inspect,
            &CollisionCheck::Clear { matched_peers: Vec::new() },
        )
    }

    /// Starts a request for a TCP port: checks the port asked for against the
    /// key's allowlist and reserves the lowest eligible port of the pool. A request
    /// that asks for no port gets the lowest free one, whatever the allowlist.
    pub fn register_tcp<A, L>(
        &self,
        registry: &mut TunnelRegistry<C, A, L, R>,
        remote_port: Option<u16>,
    ) -> (p: Progress<L>)
        ensures
            self.starts_tcp(
                old(registry)@,
                remote_port,
                final(registry)@,
                p.metrics@,
                p.step,
            ),
    {
        if !self.entry.port_permitted(remote_port) {
            let digits = match remote_port {
                Some(port) => decimal_string(port as u64),
                None => String::new(),
            };
            return Progress {
                metrics: counted(Metric::TunnelRejectedPorts),
                step: RegisterStep::Reply {
                    frame: reject(
                        ErrorCode::LabelForbidden,
                        join3("port ", digits.as_str(), " not permitted for this identity"),
                    ),
                },
            };
        }
        let allowlist: Option<&[u16]> = match (remote_port, &self.entry.allowed_ports) {
            (Some(_), Some(list)) => Some(list.as_slice()),
            _ => None,
        };
        let ghost m = registry@;
        match registry.allocate_tcp(allowlist) {
            Ok((tunnel_id, port)) => {
                proof {
                    assert(m.eligible(self.entry.ports_for(remote_port), port));
                }
                Progress {
                    metrics: Vec::new(),
                    step: RegisterStep::Bind { tunnel_id, port },
                }
            },
            Err(_) => Progress {
                metrics: counted(Metric::TunnelRejectedPool),
                step: RegisterStep::Reply {
                    frame: reject(
                        ErrorCode::PortPoolExhausted,
                        String::from_str("no free ports"),
                    ),
                },
            },
        }
    }

    /// Publishes a TCP tunnel once its port is bound and its accept task runs.
    pub fn finish_tcp<A, L>(
        &self,
        registry: &mut TunnelRegistry<C, A, L, R>,
        tunnel_id: TunnelId,
        public_port: u16,
        listener: L,
        abort: A,
        inspect: bool,
    ) -> (p: Progress<L>) where C: Clone, R: Clone
        ensures
            ({
                let info = final(registry)@.tunnels[tunnel_id.0];
                &&& final(registry)@ == old(registry)@.with_tunnel(info)
                &&& self.stamps(info, tunnel_id.0, Some(abort), inspect)
                &&& info.tcp_port() == Some(public_port)
                &&& info.tcp_listener == Some(listener)
            }),
            p.metrics@ == seq![Metric::TunnelRegisteredTcp],
            p.step matches RegisterStep::Reply { frame } && frame.announces(
                tunnel_id,
                tcp_url(self.mode.tcp_host(), public_port),
                Some(public_port),
            ),
    {
        registry.insert(
            TunnelInfo {
                id: tunnel_id,
                owner: self.pubkey,
                session_id: self.session_id,
                kind: RegisteredKind::Tcp { public_port },
                state: TunnelState::Live {
                    connection: self.connection.clone(),
                    abort: Some(abort),
                },
                tcp_listener: Some(listener),
                rate: self.rate.clone(),
                inspect,
                client_ip: self.client_ip,
            },
        );
        Progress {
            metrics: counted(Metric::TunnelRegisteredTcp),
            step: RegisterStep::Reply {
                frame: ServerFrame::TunnelRegistered {
                    tunnel_id,
                    public_url: tcp_url_string(self.mode.public_host(), public_port),
                    public_port: Some(public_port),
                },
            },
        }
    }

    /// What is left to do for a tunnel that has been re-attached. An HTTP tunnel
    /// cannot outlive the domain it was published under.
    pub fn finish_resume<L>(
        &self,
        tunnel_id: TunnelId,
        info: ResumedInfo<L>,
        inspect: bool,
    ) -> (step: RegisterStep<L>)
        ensures
            self.ends_resume(tunnel_id, info, inspect, step),
    {
        match info {
            ResumedInfo::Http { label } => match &self.mode {
                Mode::Domain { apex, .. } => RegisterStep::Reply {
                    frame: ServerFrame::TunnelRegistered {
                        tunnel_id,
                        public_url: http_url_string(label.as_str(), apex.as_str()),
                        public_port: None,
                    },
                },
                Mode::Ip { .. } => RegisterStep::ReplyThenRemove {
                    frame: reject(
                        ErrorCode::InternalError,
                        String::from_str("resume across mode change"),
                    ),
                    tunnel_id,
                },
            },
            ResumedInfo::Tcp { public_port, listener } => RegisterStep::Respawn {
                tunnel_id,
                listener,
                inspect,
                frame: ServerFrame::TunnelRegistered {
                    tunnel_id,
                    public_url: tcp_url_string(self.mode.public_host(), public_port),
                    public_port: Some(public_port),
                },
            },
        }
    }

    /// Starts a registration that resumes nothing. The limit on the key's
    /// tunnels, live or dangling, is checked before anything else.
    pub fn register_fresh<A, L>(
        &self,
        registry: &mut TunnelRegistry<C, A, L, R>,
        peers: &Vec<String>,
        label: &str,
        kind: TunnelKind,
        inspect: bool,
    ) -> (p: Progress<L>) where C: Clone, R: Clone
        ensures
            self.starts_fresh(
                old(registry)@,
                texts(peers@),
                label@,
                kind,
                inspect,
                final(registry)@,
                p.metrics@,
                p.step,
            ),
    {
        if let Some(cap) = self.entry.max_conns {
            let live = registry.count_owned_by(&self.pubkey);
            if live as u64 >= cap as u64 {
                let mut detail = decimal_string(live as u64);
                let limit = decimal_string(cap as u64);
                detail.append("/");
                detail.append(limit.as_str());
                detail.append(" concurrent tunnels");
                return Progress {
                    metrics: counted(Metric::TunnelRejectedConns),
                    step: RegisterStep::Reply {
                        frame: reject(ErrorCode::TunnelLimitExceeded, detail),
                    },
                };
            }
        }
        match kind {
            TunnelKind::Http => self.register_http(registry, peers, label, inspect),
            TunnelKind::Tcp { remote_port } => self.register_tcp(registry, remote_port),
        }
    }

    /// Starts a registration. With a previous session to resume, a tunnel on a
    /// running lease of that session is re-attached rather than a new one
    /// allocated; where there is none, the request counts as a fresh one.
    pub fn register<A, L>(
        &self,
        registry: &mut TunnelRegistry<C, A, L, R>,
        peers: &Vec<String>,
        label: &str,
        kind: TunnelKind,
        resume_session_id: Option<SessionId>,
        inspect: bool,
        now: u128,
    ) -> (p: Progress<L>) where C: Clone, L: Clone, R: Clone
        ensures
            self.registers(
                old(registry)@,
                texts(peers@),
                label@,
                kind,
                resume_session_id,
                inspect,
                now,
                final(registry)@,
                p,
            ),
    {
        let previous: SessionId = match resume_session_id {
            Some(previous) => previous,
            None => {
                return self.register_fresh(registry, peers, label, kind, inspect);
            },
        };
        let ghost m = registry@;
        let connection = self.connection.clone();
        let ghost handed = connection;
        let outcome = registry.try_resume(label, previous, &self.pubkey, connection, now);
        let ghost found = registry@;
        let ghost ended = outcome;
        let p = match outcome {
            ResumeOutcome::Reattached { tunnel_id, info, inspect: kept } => Progress {
                metrics: counted(Metric::ResumeReattached),
                step: self.finish_resume(tunnel_id, info, kept),
            },
            ResumeOutcome::IdentityMismatch => Progress {
                metrics: counted(Metric::ResumeIdentityMismatch),
                step: RegisterStep::Reply {
                    frame: reject(
                        ErrorCode::ResumeIdentityMismatch,
                        String::from_str("resume pubkey does not match original owner"),
                    ),
                },
            },
            ResumeOutcome::Unknown => {
                let fresh = self.register_fresh(registry, peers, label, kind, inspect);
                let mut counts = fresh.metrics;
                let ghost own = counts@;
                let mut metrics = counted(Metric::ResumeUnknown);
                metrics.append(&mut counts);
                proof {
                    assert(metrics@.skip(1) =~= own);
                }
                Progress { metrics, step: fresh.step }
            },
        };
        proof {
            assert(m.tries_resume(label@, previous, self.pubkey, handed, now, found, ended));
            assert(self.after_lookup(
                found,
                ended,
                texts(peers@),
                label@,
                kind,
                inspect,
                registry@,
                p,
            ));
        }
        p
    }

    /// What one control frame leads to.
    pub open spec fn dispatches<A, L>(
        self,
        m: RegistryModel<C, A, L, R>,
        peers: Seq<Seq<char>>,
        frame: ClientFrame,
        now: u128,
        after: RegistryModel<C, A, L, R>,
        step: DispatchStep<A, L>,
    ) -> bool where C: Clone, L: Clone, R: Clone {
        match frame {
            ClientFrame::Ping { nonce } => {
                &&& after == m
                &&& step matches DispatchStep::Send { frame: ServerFrame::Pong { nonce: n } } && n
                    == nonce
            },
            ClientFrame::RegisterTunnel { label, kind, resume_session_id, inspect } => {
                step matches DispatchStep::Register { progress } && self.registers(
                    m,
                    peers,
                    label@,
                    kind,
                    resume_session_id,
                    inspect,
                    now,
                    after,
                    progress,
                )
            },
            ClientFrame::UnregisterTunnel { tunnel_id } => {
                &&& after == m.without(set![tunnel_id.0])
                &&& step matches DispatchStep::Removed { abort } && abort == (
                if m.tunnels.contains_key(tunnel_id.0) {
                    m.tunnels[tunnel_id.0].abort_handle()
                } else {
                    None
                })
            },
            ClientFrame::ListPeers => {
                &&& after == m
                &&& step matches DispatchStep::Send { frame: ServerFrame::Peers { relays } }
                    && texts(relays@) == federated(peers, texts(self.entry.federation@))
            },
            ClientFrame::Bye => {
                &&& after == m
                &&& step matches DispatchStep::Stop { outcome } && outcome is Bye
            },
            ClientFrame::Unexpected => {
                &&& after == m
                &&& step matches DispatchStep::SendThenStop { frame: farewell, outcome }
                    && farewell.bids_farewell(ErrorCode::ProtocolViolation) && outcome is Terminal
            },
        }
    }

    /// Decides what to do with one control frame.
    pub fn dispatch<A, L>(
        &self,
        registry: &mut TunnelRegistry<C, A, L, R>,
        peers: &Vec<String>,
        frame: &ClientFrame,
        now: u128,
    ) -> (step: DispatchStep<A, L>) where C: Clone, L: Clone, R: Clone
        ensures
            self.dispatches(
                old(registry)@,
                texts(peers@),
                *frame,
                now,
                final(registry)@,
                step,
            ),
    {
        match frame {
            ClientFrame::Ping { nonce } => DispatchStep::Send {
                frame: ServerFrame::Pong { nonce: *nonce },
            },
            ClientFrame::RegisterTunnel { label, kind, resume_session_id, inspect } => {
                let progress = self.register(
                    registry,
                    peers,
                    label.as_str(),
                    *kind,
                    *resume_session_id,
                    *inspect,
                    now,
                );
                DispatchStep::Register { progress }
            },
            ClientFrame::UnregisterTunnel { tunnel_id } => DispatchStep::Removed {
                abort: registry.remove(*tunnel_id),
            },
            ClientFrame::ListPeers => DispatchStep::Send {
                frame: ServerFrame::Peers {
                    relays: federated_peers(peers, &self.entry.federation),
                },
            },
            ClientFrame::Bye => DispatchStep::Stop { outcome: SessionOutcome::Bye },
            ClientFrame::Unexpected => DispatchStep::SendThenStop {
                frame: ServerFrame::ServerBye { code: ErrorCode::ProtocolViolation },
                outcome: SessionOutcome::Terminal,
            },
        }
    }
}

/// What the session loop woke up for.
#[derive(Debug)]
pub enum SessionEvent {
    /// The server is shutting down.
    Shutdown,
    /// The client's key has been revoked.
    Revoked,
    /// A control frame arrived.
    Frame(ClientFrame),
    /// The control stream ended or failed.
    StreamEnded,
    /// A data path posted a frame for the client.
    Outbound,
}

/// What the session loop does next.
#[derive(Debug)]
pub enum SessionStep {
    /// Send `farewell`, finish the stream and wait for the client to have read it,
    /// whether or not that succeeds; the session is over.
    Farewell { farewell: ServerFrame, outcome: SessionOutcome },
    /// The session is over.
    Stop { outcome: SessionOutcome },
    /// Hand the frame to [`Session::dispatch`].
    Dispatch { frame: ClientFrame },
    /// Send the posted frame; a failure to do so is not fatal.
    Forward,
}

/// Decides what the session loop does on one event.
///
/// An ambiguous end of the stream counts as a drop, so that the client can resume.
pub fn session_step(event: SessionEvent) -> (step: SessionStep)
    ensures
        match event {
            SessionEvent::Shutdown => {
                step matches SessionStep::Farewell { farewell, outcome } && farewell.bids_farewell(
                    ErrorCode::ServerShutdown,
                ) && outcome is Terminal
            },
            SessionEvent::Revoked => {
                step matches SessionStep::Farewell { farewell, outcome } && farewell.bids_farewell(
                    ErrorCode::KeyRevoked,
                ) && outcome is Terminal
            },
            SessionEvent::Frame(frame) => step == (SessionStep::Dispatch { frame }),
            SessionEvent::StreamEnded => step == (SessionStep::Stop {
                outcome: SessionOutcome::Dropped,
            }),
            SessionEvent::Outbound => step is Forward,
        },
{
    match event {
        SessionEvent::Shutdown => SessionStep::Farewell {
            farewell: ServerFrame::ServerBye { code: ErrorCode::ServerShutdown },
            outcome: SessionOutcome::Terminal,
        },
        SessionEvent::Revoked => SessionStep::Farewell {
            farewell: ServerFrame::ServerBye { code: ErrorCode::KeyRevoked },
            outcome: SessionOutcome::Terminal,
        },
        SessionEvent::Frame(frame) => SessionStep::Dispatch { frame },
        SessionEvent::StreamEnded => SessionStep::Stop { outcome: SessionOutcome::Dropped },
        SessionEvent::Outbound => SessionStep::Forward,
    }
}

/// What the revocation broadcast delivered.
#[derive(Debug)]
pub enum RevocationEvent {
    /// This key has been revoked.
    Key(PubKey),
    /// Messages were missed.
    Lagged,
    /// Nobody can revoke anything any more.
    Closed,
}

/// What a session's revocation watcher does next.
#[derive(Clone, Copy, Debug, PartialEq, Eq, Structural)]
pub enum RevocationStep {
    /// Tell the session that its key is revoked.
    Signal,
    /// Wait for the next message.
    Listen,
    /// Leave the session alone from now on.
    Idle,
}

/// Decides what the watcher of `target` does with one message. Other keys and
/// missed messages are passed over; when the broadcast ends the session just runs
/// on without revocation.
pub fn revocation_step(event: &RevocationEvent, target: &PubKey) -> (step: RevocationStep)
    ensures
        step == (match event {
            RevocationEvent::Key(key) => if key == target {
                RevocationStep::Signal
            } else {
                RevocationStep::Listen
            },
            RevocationEvent::Lagged => RevocationStep::Listen,
            RevocationEvent::Closed => RevocationStep::Idle,
        }),
{
    match event {
        RevocationEvent::Key(key) => {
            if key.same(target) {
                RevocationStep::Signal
            } else {
                RevocationStep::Listen
            }
        },
        RevocationEvent::Lagged => RevocationStep::Listen,
        RevocationEvent::Closed => RevocationStep::Idle,
    }
}

} // verus!
