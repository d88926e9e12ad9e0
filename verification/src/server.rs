//! Top-level decisions: what becomes of a connection, of the tunnels of a
//! finished session, and of the accept loop.

use vstd::prelude::*;

use crate::admin::{AdminModel, AdminTokenStore};
use crate::config::{DomainTls, Mode, ServerConfig};
use crate::metrics::Metric;
use crate::paths::FilePath;
use crate::proto::{ErrorCode, PubKey, SocketAddr, TunnelId, DEFAULT_GRACE_PERIOD};
use crate::registry::{RegistryModel, TunnelRegistry};
use crate::session::SessionOutcome;
use crate::transport::TransportKind;

verus! {

/// How long a worker waits for its connections after the shutdown signal, in seconds.
pub const SHUTDOWN_DEADLINE_SECS: u64 = 5;

/// How long the whole handshake may take, in seconds.
pub const AUTH_DEADLINE_SECS: u64 = 10;

/// How often expired leases are reaped, in seconds.
pub const REAP_INTERVAL_SECS: u64 = 5;

/// What the workers of a server share.
pub struct SharedState<C, A, L, R> {
    pub config: ServerConfig,
    pub admin: AdminTokenStore,
    pub registry: TunnelRegistry<C, A, L, R>,
    /// Rate-limit states by key, filled as keys show up.
    pub rates: RateTable<R>,
}

/// The registry that a server starts with: empty, over the TCP ports of its mode,
/// with at least one HTTP tunnel allowed per address.
pub open spec fn first_registry<C, A, L, R>(config: ServerConfig) -> RegistryModel<C, A, L, R> {
    RegistryModel {
        port_pool: config.mode.tcp_ports(),
        max_http_per_ip: if config.max_http_tunnels_per_ip == 0 {
            1
        } else {
            config.max_http_tunnels_per_ip
        },
        next_id: 1,
        used_ports: Set::empty(),
        used_labels: Set::empty(),
        tunnels: Map::empty(),
        labels: Map::empty(),
    }
}

/// The token store that a server starts with.
pub open spec fn first_admin(config: ServerConfig) -> AdminModel {
    AdminModel {
        data_dir: config.data_dir@,
        reusable: config.admin_token_reusable,
        ttl: (config.admin_token_ttl_secs * 1_000_000_000) as u128,
        token: None,
    }
}

impl<C, A, L, R> SharedState<C, A, L, R> {
    /// The state of a server that has just been started with `config`.
    pub fn new(config: ServerConfig) -> (r: Self)
        ensures
            r.config == config,
            r.admin@ == first_admin(config),
            r.registry@ == first_registry::<C, A, L, R>(config),
            r.rates.wf(),
            r.rates@ == Map::<PubKey, R>::empty(),
    {
        let ttl: u128 = config.admin_token_ttl_secs as u128 * 1_000_000_000;
        let admin = AdminTokenStore::new(config.data_dir.clone()).with_reusable(
            config.admin_token_reusable,
        ).with_ttl(ttl);
        let registry = TunnelRegistry::new(config.mode.tcp_port_pool()).with_max_http_per_ip(
            config.max_http_tunnels_per_ip,
        );
        SharedState { config, admin, registry, rates: RateTable::new() }
    }
}

/// Where the server's TLS identity comes from.
#[derive(Debug)]
pub enum TlsPlan {
    /// A self-signed identity kept in the data directory.
    SelfSigned,
    /// A certificate and key in PEM files.
    PemFiles { cert: FilePath, key: FilePath },
    /// A certificate for the apex domain, obtained via ACME.
    Acme { contact: String, directory: Option<String> },
}

/// The HTTP and HTTPS routers of an apex domain. The HTTP router has to serve
/// before a certificate is requested.
#[derive(Debug)]
pub struct DomainPlan {
    pub apex: String,
    pub http_bind: SocketAddr,
    pub https_bind: SocketAddr,
}

/// What a server brings up at its start.
#[derive(Debug)]
pub struct StartPlan {
    pub tls: TlsPlan,
    pub domain: Option<DomainPlan>,
    pub quic_bind: SocketAddr,
    pub admin_bind: Option<SocketAddr>,
    pub tcp_fallback_bind: Option<SocketAddr>,
}

/// Whether `tls` is the source that `from` names.
pub open spec fn tls_planned(from: DomainTls, tls: TlsPlan) -> bool {
    match from {
        DomainTls::PemFile { cert, key } => {
            tls matches TlsPlan::PemFiles { cert: c, key: k } && c@ == cert@ && k@ == key@
        },
        DomainTls::Acme { contact, directory } => {
            tls matches TlsPlan::Acme { contact: c, directory: d } && c@ == contact@
                && match directory {
                Some(url) => d matches Some(u) && u@ == url@,
                None => d is None,
            }
        },
    }
}

fn plan_tls(from: &DomainTls) -> (tls: TlsPlan)
    ensures
        tls_planned(*from, tls),
{
    match from {
        DomainTls::PemFile { cert, key } => TlsPlan::PemFiles {
            cert: cert.clone(),
            key: key.clone(),
        },
        DomainTls::Acme { contact, directory } => TlsPlan::Acme {
            contact: contact.clone(),
            directory: match directory {
                Some(url) => Some(url.clone()),
                None => None,
            },
        },
    }
}

/// Decides what to bring up. Without a domain the server identifies itself with
/// a self-signed certificate and runs no routers.
pub fn start_plan(config: &ServerConfig) -> (plan: StartPlan)
    ensures
        plan.quic_bind == config.bind,
        plan.admin_bind == config.admin_bind,
        plan.tcp_fallback_bind == config.tcp_fallback_bind,
        match config.mode {
            Mode::Ip { .. } => plan.tls is SelfSigned && plan.domain is None,
            Mode::Domain { apex, tls, http_bind, https_bind, .. } => {
                &&& tls_planned(tls, plan.tls)
                &&& plan.domain matches Some(d)
                &&& d.apex@ == apex@
                &&& d.http_bind == http_bind
                &&& d.https_bind == https_bind
            },
        },
{
    let (tls, domain) = match &config.mode {
        Mode::Ip { .. } => (TlsPlan::SelfSigned, None),
        Mode::Domain { apex, tls, http_bind, https_bind, .. } => (
            plan_tls(tls),
            Some(
                DomainPlan { apex: apex.clone(), http_bind: *http_bind, https_bind: *https_bind },
            ),
        ),
    };
    StartPlan {
        tls,
        domain,
        quic_bind: config.bind,
        admin_bind: config.admin_bind,
        tcp_fallback_bind: config.tcp_fallback_bind,
    }
}

/// What a task that watches for the shutdown signal sees.
#[derive(Clone, Copy, Debug, PartialEq, Eq, Structural)]
pub enum WatchEvent {
    /// The signal's current value.
    Value { shutting_down: bool },
    /// Nobody is left to give the signal.
    SenderGone,
}

/// Whether the watching task has to stop.
pub fn shutdown_due(event: WatchEvent) -> (r: bool)
    ensures
        r == (event != WatchEvent::Value { shutting_down: false }),
{
    match event {
        WatchEvent::Value { shutting_down } => shutting_down,
        WatchEvent::SenderGone => true,
    }
}

/// The event to count for an accepted connection, before its handshake.
pub fn accepted_metric(kind: TransportKind) -> (metric: Metric)
    ensures
        metric == (match kind {
            TransportKind::Quic => Metric::TransportQuicAccepted,
            TransportKind::TcpFallback => Metric::TransportTcpFallbackAccepted,
        }),
{
    match kind {
        TransportKind::Quic => Metric::TransportQuicAccepted,
        TransportKind::TcpFallback => Metric::TransportTcpFallbackAccepted,
    }
}

/// How a handshake ended.
#[derive(Clone, Copy, Debug, PartialEq, Eq, Structural)]
pub enum HandshakeResult {
    /// It took longer than it may.
    TimedOut,
    /// The client asked to enroll a key and has its answer.
    EnrollmentDone { success: bool },
    /// It failed, and this is the code to close with.
    Failed { code: ErrorCode },
    /// The client is authenticated.
    Authenticated,
}

/// What to do with the connection after the handshake.
#[derive(Clone, Copy, Debug)]
pub enum ConnectionStep {
    /// Close with the code, zero if there is none, and the reason. The send
    /// stream is finished first if `finish` says so.
    Close { finish: bool, code: Option<ErrorCode>, reason: &'static str },
    /// Run the session.
    RunSession,
}

impl ConnectionStep {
    /// Whether this step closes with exactly these.
    pub open spec fn closes(self, finish: bool, code: Option<ErrorCode>, reason: Seq<char>) -> bool {
        self matches ConnectionStep::Close { finish: f, code: c, reason: r } && f == finish && c
            == code && r@ == reason
    }
}

/// The counter for a handshake that failed with `code`.
pub open spec fn failure_metric(code: ErrorCode) -> Metric {
    match code {
        ErrorCode::UnknownIdentity => Metric::HandshakeUnknownIdentity,
        ErrorCode::AuthenticationFailed => Metric::HandshakeSignatureInvalid,
        ErrorCode::TokenExpired => Metric::EnrollmentRejected,
        ErrorCode::EnrollDisabled => Metric::EnrollmentRejected,
        _ => Metric::HandshakeProtocolViolation,
    }
}

/// Decides what to count and what to do once the handshake has ended.
pub fn handshake_step(result: HandshakeResult) -> (r: (Metric, ConnectionStep))
    ensures
        match result {
            HandshakeResult::TimedOut => r.0 == Metric::HandshakeTimedOut && r.1.closes(
                false,
                Some(ErrorCode::AuthenticationFailed),
                "handshake timeout"@,
            ),
            HandshakeResult::EnrollmentDone { success } => r.0 == (if success {
                Metric::EnrollmentOk
            } else {
                Metric::EnrollmentRejected
            }) && r.1.closes(true, None, "enrolled"@),
            HandshakeResult::Failed { code } => r.0 == failure_metric(code) && r.1.closes(
                false,
                Some(code),
                "handshake failed"@,
            ),
            HandshakeResult::Authenticated => r.0 == Metric::HandshakeAuthOk && r.1 is RunSession,
        },
{
    match result {
        HandshakeResult::TimedOut => (
            Metric::HandshakeTimedOut,
            ConnectionStep::Close {
                finish: false,
                code: Some(ErrorCode::AuthenticationFailed),
                reason: "handshake timeout",
            },
        ),
        HandshakeResult::EnrollmentDone { success } => (
            if success {
                Metric::EnrollmentOk
            } else {
                Metric::EnrollmentRejected
            },
            ConnectionStep::Close { finish: true, code: None, reason: "enrolled" },
        ),
        HandshakeResult::Failed { code } => {
            let metric = match code {
                ErrorCode::UnknownIdentity => Metric::HandshakeUnknownIdentity,
                ErrorCode::AuthenticationFailed => Metric::HandshakeSignatureInvalid,
                ErrorCode::TokenExpired | ErrorCode::EnrollDisabled => Metric::EnrollmentRejected,
                _ => Metric::HandshakeProtocolViolation,
            };
            (
                metric,
                ConnectionStep::Close {
                    finish: false,
                    code: Some(code),
                    reason: "handshake failed",
                },
            )
        },
        HandshakeResult::Authenticated => (Metric::HandshakeAuthOk, ConnectionStep::RunSession),
    }
}

/// The lease that a dropped session's tunnels get.
pub open spec fn grace_or_default(resume_grace: Option<u128>) -> u128 {
    match resume_grace {
        Some(grace) => grace,
        None => DEFAULT_GRACE_PERIOD,
    }
}

/// The registry once the session of `owner` is over. `None` stands for a session
/// that failed.
pub open spec fn settled<C, A, L, R>(
    m: RegistryModel<C, A, L, R>,
    owner: PubKey,
    result: Option<SessionOutcome>,
    expires_at: u128,
) -> RegistryModel<C, A, L, R> {
    if result == Some(SessionOutcome::Dropped) {
        m.dangled(owner, expires_at)
    } else {
        m.without(m.owned_by(owner))
    }
}

/// Disposes of the tunnels of `owner` when its session is over, and says what
/// to count. Only a dropped session leaves leases behind; a goodbye, a terminal
/// end and a failure (`None`) remove the tunnels. The returned task handles are
/// for the caller to fire.
pub fn session_over<C, A, L, R>(
    registry: &mut TunnelRegistry<C, A, L, R>,
    owner: &PubKey,
    result: Option<SessionOutcome>,
    resume_grace: Option<u128>,
    now: u128,
) -> (r: (Metric, Vec<(TunnelId, A)>))
    requires
        now + grace_or_default(resume_grace) <= u128::MAX,
    ensures
        final(registry)@ == settled(
            old(registry)@,
            *owner,
            result,
            (now + grace_or_default(resume_grace)) as u128,
        ),
        old(registry)@.handles_of(old(registry)@.owned_by(*owner), r.1@),
        r.0 == (match result {
            Some(SessionOutcome::Dropped) => Metric::SessionDropped,
            Some(SessionOutcome::Bye) => Metric::SessionBye,
            Some(SessionOutcome::Terminal) | None => Metric::SessionTerminal,
        }),
{
    match result {
        Some(SessionOutcome::Dropped) => {
            let grace: u128 = match resume_grace {
                Some(grace) => grace,
                None => DEFAULT_GRACE_PERIOD,
            };
            let handles = registry.mark_dangling(owner, grace, now);
            (Metric::SessionDropped, handles)
        },
        Some(SessionOutcome::Bye) => {
            let handles = registry.remove_all_owned_by(owner);
            (Metric::SessionBye, handles)
        },
        Some(SessionOutcome::Terminal) | None => {
            let handles = registry.remove_all_owned_by(owner);
            (Metric::SessionTerminal, handles)
        },
    }
}

/// Per-key rate-limit states, kept across reconnects so that what a key has
/// used up stays used up.
pub struct RateTable<R> {
    entries: Vec<(PubKey, R)>,
}

impl<R> View for RateTable<R> {
    type V = Map<PubKey, R>;

    closed spec fn view(&self) -> Map<PubKey, R> {
        Map::new(
            |key: PubKey| exists|i: int| 0 <= i < self.entries@.len() && #[trigger] self.entries@[i].0 == key,
            |key: PubKey|
                {
                    let i = choose|i: int|
                        0 <= i < self.entries@.len() && #[trigger] self.entries@[i].0 == key;
                    self.entries@[i].1
                },
        )
    }
}

impl<R> RateTable<R> {
    /// Each key appears once.
    pub closed spec fn wf(&self) -> bool {
        forall|i: int, j: int|
            0 <= i < j < self.entries@.len() ==> (#[trigger] self.entries@[i]).0 != (
            #[trigger] self.entries@[j]).0
    }

    /// A table without entries.
    pub fn new() -> (r: Self)
        ensures
            r.wf(),
            r@ == Map::<PubKey, R>::empty(),
    {
        let r = RateTable { entries: Vec::new() };
        assert(r@ =~= Map::<PubKey, R>::empty());
        r
    }

    /// The state of `pubkey`. The first time a key is seen, `make` provides it;
    /// after that the existing state is handed out.
    pub fn ensure_rate_state<F: FnOnce() -> R>(&mut self, pubkey: &PubKey, make: F) -> (r: R) where
        R: Clone,

        requires
            old(self).wf(),
            make.requires(()),
        ensures
            final(self).wf(),
            old(self)@.contains_key(*pubkey) ==> final(self)@ == old(self)@ && cloned(
                old(self)@[*pubkey],
                r,
            ),
            !old(self)@.contains_key(*pubkey) ==> {
                let fresh = final(self)@[*pubkey];
                &&& make.ensures((), fresh)
                &&& final(self)@ == old(self)@.insert(*pubkey, fresh)
                &&& cloned(fresh, r)
            },
    {
        for i in 0..self.entries.len()
            invariant
                self.wf(),
                *self == *old(self),
                forall|j: int| 0 <= j < i ==> (#[trigger] self.entries@[j]).0 != *pubkey,
        {
            if self.entries[i].0.same(pubkey) {
                proof {
                    assert(self.entries@[i as int].0 == *pubkey);
                    let k = choose|k: int|
                        0 <= k < self.entries@.len() && #[trigger] self.entries@[k].0 == *pubkey;
                    assert(k == i);
                }
                return self.entries[i].1.clone();
            }
        }
        let ghost before = self.entries@;
        let fresh = make();
        let r = fresh.clone();
        self.entries.push((*pubkey, fresh));
        proof {
            let now = self.entries@;
            assert(now[before.len() as int].0 == *pubkey);
            assert forall|key: PubKey| #[trigger] self@.contains_key(key) <==> old(self)@.insert(
                *pubkey,
                fresh,
            ).contains_key(key) by {
                if old(self)@.contains_key(key) {
                    let i = choose|i: int|
                        0 <= i < before.len() && #[trigger] before[i].0 == key;
                    assert(now[i].0 == key);
                }
                if self@.contains_key(key) && key != *pubkey {
                    let i = choose|i: int| 0 <= i < now.len() && #[trigger] now[i].0 == key;
                    assert(before[i].0 == key);
                }
            }
            assert forall|key: PubKey| #[trigger] self@.contains_key(key) implies self@[key]
                == old(self)@.insert(*pubkey, fresh)[key] by {
                let i = choose|i: int| 0 <= i < now.len() && #[trigger] now[i].0 == key;
                if key != *pubkey {
                    let k = choose|k: int|
                        0 <= k < before.len() && #[trigger] before[k].0 == key;
                    assert(before[i].0 == key);
                    assert(now[k].0 == key);
                    assert(i == k);
                }
            }
            assert(self@ =~= old(self)@.insert(*pubkey, fresh));
        }
        r
    }
}

/// What an accept loop woke up for.
#[derive(Clone, Copy, Debug, PartialEq, Eq, Structural)]
pub enum AcceptEvent {
    /// The server is shutting down.
    Shutdown,
    /// A connection is waiting.
    Incoming,
    /// The endpoint accepts no more.
    EndpointClosed,
    /// A connection task finished.
    TaskDone,
    /// Accepting one connection failed; the listener is still there.
    AcceptFailed,
}

/// What an accept loop does next.
#[derive(Clone, Copy, Debug, PartialEq, Eq, Structural)]
pub enum AcceptStep {
    /// Leave the loop, then drain the connection tasks.
    Leave,
    /// Serve the connection in a task of its own.
    Serve,
    /// Wait for the next event.
    Wait,
    /// Pause for so many milliseconds, then wait for the next event.
    Backoff { millis: u64 },
}

/// Decides what an accept loop does on one event. A failure to accept is taken
/// for transient and never ends the loop.
pub fn accept_step(event: AcceptEvent) -> (step: AcceptStep)
    ensures
        step == (match event {
            AcceptEvent::Shutdown | AcceptEvent::EndpointClosed => AcceptStep::Leave,
            AcceptEvent::Incoming => AcceptStep::Serve,
            AcceptEvent::TaskDone => AcceptStep::Wait,
            AcceptEvent::AcceptFailed => AcceptStep::Backoff { millis: 100 },
        }),
{
    match event {
        AcceptEvent::Shutdown | AcceptEvent::EndpointClosed => AcceptStep::Leave,
        AcceptEvent::Incoming => AcceptStep::Serve,
        AcceptEvent::TaskDone => AcceptStep::Wait,
        AcceptEvent::AcceptFailed => AcceptStep::Backoff { millis: 100 },
    }
}

/// Whether a fresh admin token is due at startup: on request, or when nobody is
/// authorized yet.
pub fn needs_admin_token(requested: bool, no_keys: bool) -> (r: bool)
    ensures
        r == (requested || no_keys),
{
    requested || no_keys
}

/// Why the server cannot run one worker per core, if it cannot: it takes a core, and
/// explicit ports for every socket that the workers bind once each.
pub open spec fn obstacle(
    cores: usize,
    quic_bind: SocketAddr,
    https_bind: Option<SocketAddr>,
    r: Option<&'static str>,
) -> bool {
    if cores == 0 {
        r matches Some(why) && why@ == "run_multicore requires at least 1 core"@
    } else if quic_bind.port_of() == 0 {
        r matches Some(why) && why@ == "run_multicore requires an explicit QUIC bind port"@
    } else if https_bind is Some && https_bind->0.port_of() == 0 {
        r matches Some(why) && why@ == "run_multicore requires an explicit HTTPS bind port"@
    } else {
        r is None
    }
}

/// Why the server cannot run one worker per core, if it cannot.
pub fn multicore_obstacle(
    cores: usize,
    quic_bind: SocketAddr,
    https_bind: Option<SocketAddr>,
) -> (r: Option<&'static str>)
    ensures
        obstacle(cores, quic_bind, https_bind, r),
{
    if cores == 0 {
        return Some("run_multicore requires at least 1 core");
    }
    if quic_bind.port() == 0 {
        return Some("run_multicore requires an explicit QUIC bind port");
    }
    match https_bind {
        Some(addr) => {
            if addr.port() == 0 {
                Some("run_multicore requires an explicit HTTPS bind port")
            } else {
                None
            }
        },
        None => None,
    }
}

} // verus!
