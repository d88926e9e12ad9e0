//! Which inputs the operations answer: all of them, but for instants and lengths that
//! a machine number cannot hold.

use std::collections::HashSet;

use vstd::prelude::*;

use crate::acme::{
    acme_failure, acme_step, cert_fresh_at, cert_still_fresh, directory_url, end_is_fresh,
    issued_pair, judge_cached, load_cached_at, lookup_challenge, new_store, try_load_cached,
    AcmeCall, AcmeEvent, ChallengeStore, Phase, UtcInstant,
};
use crate::acme_request::{
    assemble_request, certificate_request, request_names, restore_credentials, save_credentials,
};
use crate::admin::{
    constant_time_eq_public, draw_token, pending_token, AdminTokenStore, PendingToken,
};
use crate::cli::{
    admin_bind_text, build_config, domain_tls, effective_bind, effective_cores, json_logs,
    runs_single_core, CliArgs,
};
use crate::config::{default_bind, Mode, ServerConfig};
use crate::error::ServerError;
use crate::paths::FilePath;
use crate::pem::{
    certificate_blocks, chain_from, key_block, key_from, key_from_pem, lines, parse_cert_chain,
    Decoded,
};
use crate::ports::PortRange;
use crate::proto::{
    ClientFrame, IpAddr, PubKey, SessionId, SocketAddr, TunnelId, TunnelKind, ADMIN_TOKEN_RAW_LEN,
    DEFAULT_GRACE_PERIOD,
};
use crate::registry::{is_valid_label, pick_free_port, slice_has, TunnelRegistry};
use crate::server::{
    accept_step, accepted_metric, handshake_step, multicore_obstacle, needs_admin_token,
    session_over, shutdown_due, start_plan, AcceptEvent, HandshakeResult, RateTable, SharedState,
    WatchEvent,
};
use crate::session::{
    federated_peers, revocation_step, session_step, tcp_bind_failed, CollisionCheck,
    RevocationEvent, Session, SessionEvent, SessionOutcome,
};
use crate::transport::{fill_start, fill_step, read_outcome, TransportKind};
use crate::tunnel::{ResumedInfo, TunnelInfo};

verus! {

/// A registry takes every request, whatever it holds.
pub proof fn a_registry_takes_every_request<C: Clone, A, L: Clone, R: Clone>(
    registry: &mut TunnelRegistry<C, A, L, R>,
    read: &TunnelRegistry<C, A, L, R>,
    own: TunnelRegistry<C, A, L, R>,
    pool: PortRange,
    used: &HashSet<u16>,
    max: usize,
    allowlist: Option<&[u16]>,
    list: &[u16],
    port: u16,
    label: &str,
    info: TunnelInfo<C, A, L, R>,
    id: TunnelId,
    owner: &PubKey,
    session_id: SessionId,
    connection: C,
    abort: A,
    ip: Option<IpAddr>,
    now: u128,
)
    ensures
        call_requires(TunnelRegistry::<C, A, L, R>::new, (pool,)),
        call_requires(TunnelRegistry::<C, A, L, R>::with_max_http_per_ip, (own, max)),
        call_requires(TunnelRegistry::<C, A, L, R>::admits_http_for_ip, (read, ip)),
        call_requires(TunnelRegistry::<C, A, L, R>::abort_http, (registry, id, label)),
        call_requires(TunnelRegistry::<C, A, L, R>::allocate_tcp, (registry, allowlist)),
        call_requires(TunnelRegistry::<C, A, L, R>::allocate_http, (registry, label)),
        call_requires(TunnelRegistry::<C, A, L, R>::insert, (registry, info)),
        call_requires(TunnelRegistry::<C, A, L, R>::resolve_label, (read, label)),
        call_requires(TunnelRegistry::<C, A, L, R>::remove, (registry, id)),
        call_requires(TunnelRegistry::<C, A, L, R>::remove_all_owned_by, (registry, owner)),
        call_requires(TunnelRegistry::<C, A, L, R>::reap_expired, (registry, now)),
        call_requires(
            TunnelRegistry::<C, A, L, R>::reattach,
            (registry, id, session_id, owner, connection, now),
        ),
        call_requires(
            TunnelRegistry::<C, A, L, R>::try_resume,
            (registry, label, session_id, owner, connection, now),
        ),
        call_requires(TunnelRegistry::<C, A, L, R>::set_tcp_abort, (registry, id, abort)),
        call_requires(TunnelRegistry::<C, A, L, R>::snapshot, (read,)),
        call_requires(TunnelRegistry::<C, A, L, R>::len, (read,)),
        call_requires(TunnelRegistry::<C, A, L, R>::is_empty, (read,)),
        call_requires(TunnelRegistry::<C, A, L, R>::count_owned_by, (read, owner)),
        call_requires(pick_free_port, (pool, used, allowlist)),
        call_requires(is_valid_label, (label,)),
        call_requires(slice_has, (list, port)),
{
}

/// A lease of any length can be had whose end is an instant of the clock.
pub proof fn a_lease_may_be_of_any_length<C, A, L, R>(
    registry: &mut TunnelRegistry<C, A, L, R>,
    owner: &PubKey,
    result: Option<SessionOutcome>,
    grace: u128,
    now: u128,
)
    ensures
        now + grace <= u128::MAX ==> call_requires(
            TunnelRegistry::<C, A, L, R>::mark_dangling,
            (registry, owner, grace, now),
        ),
        now + grace <= u128::MAX ==> call_requires(
            session_over::<C, A, L, R>,
            (registry, owner, result, Some(grace), now),
        ),
        now + DEFAULT_GRACE_PERIOD <= u128::MAX ==> call_requires(
            session_over::<C, A, L, R>,
            (registry, owner, result, None::<u128>, now),
        ),
{
}

/// A session answers every request of its client, and every event.
pub proof fn a_session_answers_every_request<C: Clone, A, L: Clone, R: Clone>(
    session: &Session<C, R>,
    registry: &mut TunnelRegistry<C, A, L, R>,
    peers: &Vec<String>,
    label: &str,
    kind: TunnelKind,
    resume: Option<SessionId>,
    remote_port: Option<u16>,
    inspect: bool,
    check: &CollisionCheck,
    tunnel_id: TunnelId,
    port: u16,
    listener: L,
    abort: A,
    info: ResumedInfo<L>,
    frame: &ClientFrame,
    now: u128,
    event: SessionEvent,
    revocation: &RevocationEvent,
    target: &PubKey,
)
    ensures
        call_requires(federated_peers, (peers, peers)),
        call_requires(tcp_bind_failed, (label,)),
        call_requires(
            Session::<C, R>::finish_http::<A, L>,
            (session, registry, label, inspect, check),
        ),
        call_requires(
            Session::<C, R>::register_http::<A, L>,
            (session, registry, peers, label, inspect),
        ),
        call_requires(Session::<C, R>::register_tcp::<A, L>, (session, registry, remote_port)),
        call_requires(
            Session::<C, R>::finish_tcp::<A, L>,
            (session, registry, tunnel_id, port, listener, abort, inspect),
        ),
        call_requires(
            Session::<C, R>::finish_resume::<L>,
            (session, tunnel_id, info, inspect),
        ),
        call_requires(
            Session::<C, R>::register_fresh::<A, L>,
            (session, registry, peers, label, kind, inspect),
        ),
        call_requires(
            Session::<C, R>::register::<A, L>,
            (session, registry, peers, label, kind, resume, inspect, now),
        ),
        call_requires(
            Session::<C, R>::dispatch::<A, L>,
            (session, registry, peers, frame, now),
        ),
        call_requires(session_step, (event,)),
        call_requires(revocation_step, (revocation, target)),
{
}

/// A server starts from every configuration and decides on every event.
pub proof fn a_server_decides_on_every_event<C, A, L, R>(
    config: ServerConfig,
    read: &ServerConfig,
    watch: WatchEvent,
    kind: TransportKind,
    result: HandshakeResult,
    event: AcceptEvent,
    requested: bool,
    no_keys: bool,
    cores: usize,
    quic_bind: SocketAddr,
    https_bind: Option<SocketAddr>,
)
    ensures
        call_requires(SharedState::<C, A, L, R>::new, (config,)),
        call_requires(start_plan, (read,)),
        call_requires(shutdown_due, (watch,)),
        call_requires(accepted_metric, (kind,)),
        call_requires(handshake_step, (result,)),
        call_requires(accept_step, (event,)),
        call_requires(needs_admin_token, (requested, no_keys)),
        call_requires(multicore_obstacle, (cores, quic_bind, https_bind)),
{
}

/// A rate table that is in order takes every key and every way to make its state.
pub proof fn a_rate_table_takes_every_key<R: Clone, F: FnOnce() -> R>(
    table: &mut RateTable<R>,
    pubkey: &PubKey,
    make: F,
)
    requires
        old(table).wf(),
        make.requires(()),
    ensures
        call_requires(RateTable::<R>::ensure_rate_state::<F>, (table, pubkey, make)),
        call_requires(RateTable::<R>::new, ()),
{
}

/// Every command line is answered, and every setting can be changed.
pub proof fn every_command_line_is_answered(
    args: CliArgs,
    available: Option<usize>,
    cert: Option<FilePath>,
    key: Option<FilePath>,
    contact: Option<String>,
    directory: Option<String>,
    flag: bool,
    format: Option<&str>,
    given: &str,
    addr: SocketAddr,
    port: Option<u16>,
    n: usize,
    secs: u64,
    config: ServerConfig,
    mode: Mode,
    read: &Mode,
    data_dir: FilePath,
    dir: &FilePath,
    bytes: Vec<u8>,
)
    ensures
        call_requires(build_config, (args, available)),
        call_requires(domain_tls, (cert, key, contact, directory, flag)),
        call_requires(json_logs, (format,)),
        call_requires(admin_bind_text, (given,)),
        call_requires(effective_bind, (addr, port)),
        call_requires(effective_cores, (n, available)),
        call_requires(runs_single_core, (n,)),
        call_requires(default_bind, ()),
        call_requires(Mode::tcp_port_pool, (read,)),
        call_requires(Mode::public_host, (read,)),
        call_requires(ServerConfig::local_in, (data_dir,)),
        call_requires(ServerConfig::with_bind, (config, addr)),
        call_requires(ServerConfig::with_mode, (config, mode)),
        call_requires(ServerConfig::with_issue_admin_token, (config, flag)),
        call_requires(ServerConfig::with_admin_token_reusable, (config, flag)),
        call_requires(ServerConfig::with_admin_token_ttl_secs, (config, secs)),
        call_requires(ServerConfig::with_tcp_fallback_bind, (config, addr)),
        call_requires(ServerConfig::with_bw_partitions, (config, n)),
        call_requires(FilePath::from_bytes, (bytes,)),
        call_requires(FilePath::from_text, (given,)),
        call_requires(FilePath::file, (dir, given)),
        call_requires(FilePath::as_bytes, (dir,)),
{
}

/// A token can be issued whenever its deadline is an instant of the clock, and every
/// text can be presented at any time.
pub proof fn every_token_is_judged(
    store: &mut AdminTokenStore,
    read: &AdminTokenStore,
    own: AdminTokenStore,
    data_dir: FilePath,
    ttl: u128,
    reusable: bool,
    pending: PendingToken,
    drawn: &PendingToken,
    raw: &[u8; ADMIN_TOKEN_RAW_LEN],
    presented: &str,
    digest: &[u8; 32],
    a: &[u8],
    b: &[u8],
    now: u128,
)
    ensures
        call_requires(AdminTokenStore::new, (data_dir,)),
        call_requires(AdminTokenStore::with_ttl, (own, ttl)),
        call_requires(AdminTokenStore::with_reusable, (own, reusable)),
        now + old(store)@.ttl <= u128::MAX ==> call_requires(
            AdminTokenStore::issue,
            (store, pending, now),
        ),
        call_requires(AdminTokenStore::consume, (store, presented, now)),
        call_requires(AdminTokenStore::consume_digest, (store, digest, now)),
        call_requires(AdminTokenStore::is_active, (read,)),
        call_requires(AdminTokenStore::hash_path, (read,)),
        call_requires(PendingToken::hash, (drawn,)),
        call_requires(pending_token, (raw,)),
        call_requires(draw_token, ()),
        call_requires(constant_time_eq_public, (a, b)),
{
}

/// Every step of an issuance is answered, whatever was read or has happened. A number
/// of days is taken if as many seconds fit into a machine number.
pub proof fn every_step_of_an_issuance_is_answered(
    store: &mut ChallengeStore,
    read: &ChallengeStore,
    token: String,
    response: String,
    asked: &str,
    end: Result<i64, String>,
    days: i64,
    now: UtcInstant,
    der: &[u8],
    chain: Vec<Vec<u8>>,
    fresh: Result<bool, ServerError>,
    key: Result<Vec<u8>, ServerError>,
    text: Option<&str>,
    other: Option<&str>,
    key_der: Vec<u8>,
    call: AcmeCall,
    phase: Phase,
    event: AcmeEvent,
    csr: Result<Vec<u8>, String>,
    creds: &instant_acme::AccountCredentials,
)
    requires
        now.nanos < 1_000_000_000,
    ensures
        call_requires(new_store, ()),
        call_requires(lookup_challenge, (read, asked)),
        call_requires(ChallengeStore::insert, (store, token, response)),
        call_requires(ChallengeStore::clear, (store,)),
        -9_223_372_036_854_775_808 <= days * 86_400 <= 9_223_372_036_854_775_807 ==> {
            &&& call_requires(end_is_fresh, (end, days, now))
            &&& call_requires(cert_fresh_at, (der, days, now))
            &&& call_requires(cert_still_fresh, (der, days))
        },
        call_requires(judge_cached, (chain, fresh, key)),
        call_requires(load_cached_at, (text, other, now)),
        call_requires(try_load_cached, (text, other)),
        call_requires(issued_pair, (asked, key_der)),
        call_requires(directory_url, (text,)),
        call_requires(acme_failure, (call, asked)),
        call_requires(acme_step, (phase, store, event)),
        call_requires(request_names, (asked,)),
        call_requires(certificate_request, (asked,)),
        call_requires(assemble_request, (token, key_der, csr)),
        call_requires(restore_credentials, (asked,)),
        call_requires(save_credentials, (creds,)),
{
}

/// Every text is read, and a buffer is filled by any reads that fit into it.
pub proof fn every_text_is_read(
    s: &str,
    decoded: Vec<Decoded>,
    one: Option<Decoded>,
    range: &PortRange,
    lo: Result<u16, String>,
    hi: Result<u16, String>,
    want: usize,
    got: usize,
    n: usize,
    addr: SocketAddr,
    read: &SocketAddr,
    port: u16,
    a: &PubKey,
    b: &PubKey,
    x: &SessionId,
    y: &SessionId,
)
    ensures
        call_requires(lines, (s,)),
        call_requires(certificate_blocks, (s,)),
        call_requires(chain_from, (decoded,)),
        call_requires(parse_cert_chain, (s,)),
        call_requires(key_block, (s,)),
        call_requires(key_from, (one,)),
        call_requires(key_from_pem, (s,)),
        call_requires(PortRange::from_str, (s,)),
        call_requires(PortRange::from_ends, (lo, hi)),
        call_requires(PortRange::to_text, (range,)),
        call_requires(fill_start, (want,)),
        got < want && n <= want - got ==> call_requires(fill_step, (got, n, want)),
        n <= want ==> call_requires(read_outcome, (n, want)),
        call_requires(SocketAddr::port, (read,)),
        call_requires(SocketAddr::with_port, (addr, port)),
        call_requires(PubKey::same, (a, b)),
        call_requires(SessionId::same, (x, y)),
{
}

} // verus!
