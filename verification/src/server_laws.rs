//! What a server decides at its start, on its connections and in its loops.

use vstd::prelude::*;

use crate::config::{DomainTls, Mode, ServerConfig};
use crate::error::ServerError;
use crate::metrics::Metric;
use crate::ports::PortRange;
use crate::proto::{ErrorCode, PubKey, SocketAddr, TunnelId};
use crate::registry::TunnelRegistry;
use crate::server::{
    accept_step, accepted_metric, handshake_step, multicore_obstacle, needs_admin_token,
    shutdown_due, start_plan, AcceptEvent, AcceptStep, ConnectionStep, HandshakeResult, RateTable,
    SharedState, StartPlan, TlsPlan, WatchEvent, AUTH_DEADLINE_SECS, REAP_INTERVAL_SECS,
    SHUTDOWN_DEADLINE_SECS,
};
use crate::transport::TransportKind;

verus! {

/// A server starts with an empty registry over the ports that its mode was configured
/// with, and with the cap on tunnels per address that was configured, but at least one.
pub proof fn the_first_registry_is_as_configured<C, A, L, R>(
    config: ServerConfig,
    state: SharedState<C, A, L, R>,
)
    requires
        call_ensures(SharedState::<C, A, L, R>::new, (config,), state),
    ensures
        state.config == config,
        config.mode matches Mode::Ip { port_pool, .. } ==> state.registry@.port_pool == port_pool,
        config.mode matches Mode::Domain { tcp_port_pool, .. } ==> state.registry@.port_pool
            == tcp_port_pool,
        config.max_http_tunnels_per_ip >= 1 ==> state.registry@.max_http_per_ip
            == config.max_http_tunnels_per_ip,
        config.max_http_tunnels_per_ip == 0 ==> state.registry@.max_http_per_ip == 1,
        state.registry@.next_id == 1,
        forall|id: u64| !#[trigger] state.registry@.tunnels.contains_key(id),
        forall|label: Seq<char>| !#[trigger] state.registry@.labels.contains_key(label),
        forall|label: Seq<char>| !#[trigger] state.registry@.used_labels.contains(label),
        forall|port: u16| !#[trigger] state.registry@.used_ports.contains(port),
        state.rates.wf(),
        forall|key: PubKey| !#[trigger] state.rates@.contains_key(key),
{
}

/// The first TCP tunnel of a server gets the lowest port of the pool configured for its
/// mode, if the pool has any.
pub proof fn the_first_port_is_the_lowest_configured<C, A, L, R>(
    config: ServerConfig,
    state: SharedState<C, A, L, R>,
    pool: PortRange,
    registry: &mut TunnelRegistry<C, A, L, R>,
    r: Result<(TunnelId, u16), ServerError>,
)
    requires
        call_ensures(SharedState::<C, A, L, R>::new, (config,), state),
        config.mode matches Mode::Ip { port_pool, .. } ==> pool == port_pool,
        config.mode matches Mode::Domain { tcp_port_pool, .. } ==> pool == tcp_port_pool,
        *old(registry) == state.registry,
        call_ensures(
            TunnelRegistry::<C, A, L, R>::allocate_tcp,
            (registry, None::<&[u16]>),
            r,
        ),
    ensures
        r is Ok <==> pool.lo <= pool.hi,
        r matches Ok((id, port)) ==> port == pool.lo && id.0 == 1,
{
    the_first_registry_is_as_configured(config, state);
    crate::reservation_laws::the_lowest_port_is_handed_out(registry, None, r, pool.lo);
}

/// The mode's pool and host are those that it was configured with.
pub proof fn a_mode_keeps_its_pool_and_host(mode: &Mode, pool: PortRange, host: &str)
    requires
        call_ensures(Mode::tcp_port_pool, (mode,), pool),
        call_ensures(Mode::public_host, (mode,), host),
    ensures
        *mode matches Mode::Ip { public_host, port_pool } ==> pool == port_pool && host@
            == public_host@,
        *mode matches Mode::Domain { apex, tcp_port_pool, .. } ==> pool == tcp_port_pool && host@
            == apex@,
{
}

/// What a server brings up is what was configured. A server with a domain runs both
/// routers and takes its certificate from where it was told to; one without runs none
/// and signs its own.
pub proof fn a_server_brings_up_what_is_configured(config: &ServerConfig, plan: StartPlan)
    requires
        call_ensures(start_plan, (config,), plan),
    ensures
        plan.quic_bind == config.bind,
        plan.admin_bind == config.admin_bind,
        plan.tcp_fallback_bind == config.tcp_fallback_bind,
        plan.tls is SelfSigned <==> config.mode is Ip,
        plan.domain is Some <==> config.mode is Domain,
        config.mode matches Mode::Domain { apex, tls, http_bind, https_bind, .. } ==> {
            &&& plan.domain matches Some(d)
            &&& d.apex@ == apex@
            &&& d.http_bind == http_bind
            &&& d.https_bind == https_bind
            &&& tls matches DomainTls::PemFile { cert, key } ==> (plan.tls matches TlsPlan::PemFiles {
                cert: c,
                key: k,
            } && c@ == cert@ && k@ == key@)
            &&& tls matches DomainTls::Acme { contact, directory } ==> {
                &&& plan.tls matches TlsPlan::Acme { contact: c, directory: d }
                &&& c@ == contact@
                &&& d is Some <==> directory is Some
                &&& directory matches Some(url) ==> d->0@ == url@
            }
        },
{
}

/// A task goes on only while it is told that nothing is shutting down.
pub proof fn a_task_stops_at_shutdown(event: WatchEvent, due: bool)
    requires
        call_ensures(shutdown_due, (event,), due),
    ensures
        !due <==> (event matches WatchEvent::Value { shutting_down } && !shutting_down),
{
}

/// Connections are counted by their transport, each under a counter of its own.
pub proof fn connections_are_counted_by_transport(
    kind: TransportKind,
    metric: Metric,
    other: TransportKind,
    second: Metric,
)
    requires
        call_ensures(accepted_metric, (kind,), metric),
        call_ensures(accepted_metric, (other,), second),
    ensures
        metric == second <==> kind == other,
        kind is Quic <==> metric == Metric::TransportQuicAccepted,
        kind is TcpFallback <==> metric == Metric::TransportTcpFallbackAccepted,
{
}

/// Only an authenticated client gets a session; anything else closes the connection: a
/// failure with its own code, a timeout as a failed authentication, and an enrollment
/// without a code, once its answer has been sent. Each is counted for what it was.
pub proof fn only_the_authenticated_get_a_session(
    result: HandshakeResult,
    r: (Metric, ConnectionStep),
)
    requires
        call_ensures(handshake_step, (result,), r),
    ensures
        r.1 is RunSession <==> result is Authenticated,
        r.0 == Metric::HandshakeAuthOk <==> result is Authenticated,
        r.0 == Metric::HandshakeTimedOut <==> result is TimedOut,
        r.0 == Metric::EnrollmentOk <==> (result matches HandshakeResult::EnrollmentDone { success }
            && success),
        r.0 == Metric::EnrollmentRejected <==> (result matches HandshakeResult::EnrollmentDone {
            success,
        } && !success) || (result matches HandshakeResult::Failed { code } && (code
            == ErrorCode::TokenExpired || code == ErrorCode::EnrollDisabled)),
        r.0 == Metric::HandshakeUnknownIdentity <==> (result matches HandshakeResult::Failed { code }
            && code == ErrorCode::UnknownIdentity),
        r.0 == Metric::HandshakeSignatureInvalid <==> (result matches HandshakeResult::Failed {
            code,
        } && code == ErrorCode::AuthenticationFailed),
        result matches HandshakeResult::Failed { code } ==> (code
            != ErrorCode::UnknownIdentity && code != ErrorCode::AuthenticationFailed && code
            != ErrorCode::TokenExpired && code != ErrorCode::EnrollDisabled ==> r.0
            == Metric::HandshakeProtocolViolation),
        r.1 matches ConnectionStep::Close { finish, code, reason } ==> {
            &&& finish <==> result is EnrollmentDone
            &&& code is None <==> result is EnrollmentDone
            &&& result is EnrollmentDone ==> reason@ == "enrolled"@
            &&& result is TimedOut ==> code == Some(ErrorCode::AuthenticationFailed) && reason@
                == "handshake timeout"@
            &&& result matches HandshakeResult::Failed { code: c } ==> code == Some(c) && reason@
                == "handshake failed"@
        },
{
}

/// An accept loop serves what comes in and ends only with the server or its endpoint;
/// a connection that could not be accepted makes it pause, briefly.
pub proof fn accepting_ends_only_with_the_server(event: AcceptEvent, step: AcceptStep)
    requires
        call_ensures(accept_step, (event,), step),
    ensures
        step is Leave <==> event is Shutdown || event is EndpointClosed,
        step is Serve <==> event is Incoming,
        step is Wait <==> event is TaskDone,
        step matches AcceptStep::Backoff { millis } ==> event is AcceptFailed && millis == 100,
{
}

/// A token is issued at startup if asked for or if there is nobody to let in, and only
/// then.
pub proof fn a_token_is_issued_when_needed(requested: bool, no_keys: bool, due: bool)
    requires
        call_ensures(needs_admin_token, (requested, no_keys), due),
    ensures
        requested ==> due,
        no_keys ==> due,
        !requested && !no_keys ==> !due,
{
}

/// One worker per core takes a core and a fixed port for each socket that all workers
/// share; the first that is missing is named.
pub proof fn workers_need_fixed_ports(
    cores: usize,
    quic_bind: SocketAddr,
    https_bind: Option<SocketAddr>,
    r: Option<&'static str>,
)
    requires
        call_ensures(multicore_obstacle, (cores, quic_bind, https_bind), r),
    ensures
        ({
            let fixed = |addr: SocketAddr|
                {
                    &&& addr matches SocketAddr::V4 { port, .. } ==> port != 0
                    &&& addr matches SocketAddr::V6 { port, .. } ==> port != 0
                };
            &&& r is None <==> cores > 0 && fixed(quic_bind) && (https_bind matches Some(addr)
                ==> fixed(addr))
            &&& cores == 0 ==> r->0@ == "run_multicore requires at least 1 core"@
            &&& cores > 0 && !fixed(quic_bind) ==> r->0@
                == "run_multicore requires an explicit QUIC bind port"@
            &&& cores > 0 && fixed(quic_bind) && r is Some ==> r->0@
                == "run_multicore requires an explicit HTTPS bind port"@
        }),
{
}

/// A key's rate-limit state is made once and handed out again ever after; making one
/// leaves those of other keys alone.
pub proof fn a_rate_state_is_made_once<R: Clone, F: FnOnce() -> R, G: FnOnce() -> R>(
    first: &mut RateTable<R>,
    second: &mut RateTable<R>,
    pubkey: &PubKey,
    make: F,
    remake: G,
    r: R,
    s: R,
    other: PubKey,
)
    requires
        old(first).wf(),
        call_ensures(RateTable::<R>::ensure_rate_state::<F>, (first, pubkey, make), r),
        *old(second) == *final(first),
        call_ensures(RateTable::<R>::ensure_rate_state::<G>, (second, pubkey, remake), s),
    ensures
        final(first).wf(),
        final(first)@.contains_key(*pubkey),
        cloned(final(first)@[*pubkey], r),
        old(first)@.contains_key(*pubkey) ==> final(first)@[*pubkey] == old(first)@[*pubkey],
        !old(first)@.contains_key(*pubkey) ==> make.ensures((), final(first)@[*pubkey]),
        other != *pubkey ==> (final(first)@.contains_key(other) <==> old(first)@.contains_key(
            other,
        )),
        other != *pubkey && old(first)@.contains_key(other) ==> final(first)@[other] == old(
            first,
        )@[other],
        final(second)@ == final(first)@,
        cloned(final(first)@[*pubkey], s),
{
}

/// A new table knows nobody.
pub proof fn a_new_rate_table_is_empty<R>(table: RateTable<R>, key: PubKey)
    requires
        call_ensures(RateTable::<R>::new, (), table),
    ensures
        table.wf(),
        !table@.contains_key(key),
{
}

/// A handshake may take ten seconds. Leases are reaped every five seconds, so that none
/// outlives its end by longer, and connections get as long at a shutdown.
pub proof fn the_fixed_times_of_a_server()
    ensures
        AUTH_DEADLINE_SECS == 10,
        REAP_INTERVAL_SECS == 5,
        SHUTDOWN_DEADLINE_SECS == 5,
{
}

} // verus!
