use krot_server::config::{DomainTls, Mode, ServerConfig};
use krot_server::metrics::Metric;
use krot_server::paths::FilePath;
use krot_server::ports::PortRange;
use krot_server::proto::{
    ClientFrame, ErrorCode, IpAddr, PubKey, ServerFrame, SessionId, SocketAddr, TunnelId,
    TunnelKind, SESSION_ID_LEN,
};
use krot_server::registry::TunnelRegistry;
use krot_server::server::{
    accept_step, accepted_metric, handshake_step, multicore_obstacle, needs_admin_token,
    session_over, shutdown_due, start_plan, AcceptEvent, AcceptStep, ConnectionStep,
    HandshakeResult, RateTable, SharedState, TlsPlan, WatchEvent,
};
use krot_server::session::{
    federated_peers, revocation_step, session_step, tcp_bind_failed, AuthorizedEntry,
    CollisionCheck, DispatchStep, Progress, RegisterStep, RevocationEvent, RevocationStep, Session,
    SessionEvent, SessionOutcome, SessionStep,
};
use krot_server::transport::{fill_start, fill_step, read_outcome, FillStep, TransportKind};

type Registry = TunnelRegistry<&'static str, u32, &'static str, u8>;

const ALICE: PubKey = PubKey([1; 32]);
const BOB: PubKey = PubKey([2; 32]);
const S1: SessionId = SessionId([1; SESSION_ID_LEN]);
const S2: SessionId = SessionId([2; SESSION_ID_LEN]);

fn addr(port: u16) -> SocketAddr {
    SocketAddr::V4 { ip4: 0, port }
}

fn domain() -> Mode {
    Mode::Domain {
        apex: "example.test".to_string(),
        tls: DomainTls::Acme { contact: "mailto:a".to_string(), directory: None },
        http_bind: addr(80),
        https_bind: addr(443),
        tcp_port_pool: PortRange { lo: 10_000, hi: 10_001 },
    }
}

fn ip_mode() -> Mode {
    Mode::Ip {
        public_host: "192.0.2.1".to_string(),
        port_pool: PortRange { lo: 10_000, hi: 10_001 },
    }
}

fn entry() -> AuthorizedEntry {
    AuthorizedEntry {
        allow_any_subdomain: true,
        allowed_subdomains: Vec::new(),
        allowed_ports: None,
        max_conns: None,
        federation: Vec::new(),
    }
}

fn session(pubkey: PubKey, session_id: SessionId, mode: Mode) -> Session<&'static str, u8> {
    Session {
        pubkey,
        session_id,
        connection: "conn",
        rate: 3,
        mode,
        entry: entry(),
        client_ip: Some(IpAddr::V4(1)),
    }
}

fn registry() -> Registry {
    TunnelRegistry::new(PortRange { lo: 10_000, hi: 10_001 })
}

fn rejected(p: Progress<&'static str>) -> (ErrorCode, String) {
    match p.step {
        RegisterStep::Reply { frame: ServerFrame::TunnelRejected { code, detail } } => (code, detail),
        other => panic!("unexpected step: {other:?}"),
    }
}

fn announced(p: Progress<&'static str>) -> (u64, String, Option<u16>) {
    match p.step {
        RegisterStep::Reply {
            frame: ServerFrame::TunnelRegistered { tunnel_id, public_url, public_port },
        }
        | RegisterStep::Respawn {
            frame: ServerFrame::TunnelRegistered { tunnel_id, public_url, public_port },
            ..
        } => (tunnel_id.0, public_url, public_port),
        other => panic!("unexpected step: {other:?}"),
    }
}

fn http(s: &Session<&'static str, u8>, reg: &mut Registry, label: &str) -> Progress<&'static str> {
    s.register(reg, &Vec::new(), label, TunnelKind::Http, None, true, 0)
}

#[test]
fn an_http_tunnel_is_registered() {
    let mut reg = registry();
    let s = session(ALICE, S1, domain());
    let p = http(&s, &mut reg, "alice");
    assert_eq!(p.metrics, vec![Metric::TunnelRegisteredHttp]);
    assert_eq!(announced(p), (1, "https://alice.example.test".to_string(), None));
    let found = reg.resolve_label("alice").unwrap();
    assert_eq!((found.id, found.connection, found.rate, found.inspect), (TunnelId(1), "conn", 3, true));
}

#[test]
fn http_refusals() {
    let mut reg = registry();
    let p = http(&session(ALICE, S1, ip_mode()), &mut reg, "alice");
    assert!(p.metrics.is_empty());
    assert_eq!(rejected(p), (ErrorCode::HttpNotAvailable, "server is in IpMode".to_string()));

    let p = http(&session(ALICE, S1, domain()), &mut reg, "Alice");
    assert_eq!(p.metrics, vec![Metric::TunnelRejectedLabel]);
    assert_eq!(
        rejected(p),
        (ErrorCode::LabelInvalid, "does not match DNS label grammar".to_string())
    );

    let mut limited = session(ALICE, S1, domain());
    limited.entry.allow_any_subdomain = false;
    limited.entry.allowed_subdomains = vec!["mine".to_string()];
    assert_eq!(
        rejected(http(&limited, &mut reg, "alice")),
        (ErrorCode::LabelForbidden, "`alice` not permitted for this identity".to_string())
    );
    assert_eq!(announced(http(&limited, &mut reg, "mine")).0, 1);

    let p = http(&session(BOB, S2, domain()), &mut reg, "mine");
    assert_eq!(p.metrics, vec![Metric::TunnelRejectedLabel]);
    assert_eq!(rejected(p), (ErrorCode::LabelUnavailable, "`mine` is taken".to_string()));
    assert_eq!(reg.len(), 1);
}

#[test]
fn the_per_address_cap_gives_the_label_back() {
    let mut reg = registry().with_max_http_per_ip(1);
    let s = session(ALICE, S1, domain());
    announced(http(&s, &mut reg, "one"));
    assert_eq!(
        rejected(http(&s, &mut reg, "two")),
        (
            ErrorCode::LabelForbidden,
            "client IP already holds the maximum number of domains".to_string()
        )
    );
    let mut elsewhere = session(BOB, S2, domain());
    elsewhere.client_ip = Some(IpAddr::V4(2));
    // An id was used up by the refusal; the label is free.
    assert_eq!(announced(http(&elsewhere, &mut reg, "two")).0, 3);
}

#[test]
fn the_limit_on_tunnels_comes_first() {
    let mut reg = registry();
    let mut s = session(ALICE, S1, domain());
    s.entry.max_conns = Some(1);
    announced(http(&s, &mut reg, "one"));
    let p = http(&s, &mut reg, "BAD LABEL");
    assert_eq!(p.metrics, vec![Metric::TunnelRejectedConns]);
    assert_eq!(
        rejected(p),
        (ErrorCode::TunnelLimitExceeded, "1/1 concurrent tunnels".to_string())
    );
    assert_eq!(reg.count_owned_by(&ALICE), 1);
}

#[test]
fn peers_are_consulted() {
    let mut reg = registry();
    let mut s = session(ALICE, S1, domain());
    s.entry.federation = vec!["b.test".to_string(), "c.test".to_string()];
    let peers = vec!["a.test".to_string(), "c.test".to_string(), "b.test".to_string()];
    let p = s.register(&mut reg, &peers, "alice", TunnelKind::Http, None, false, 0);
    match p.step {
        RegisterStep::ConsultPeers { peers } => assert_eq!(peers, vec!["c.test", "b.test"]),
        other => panic!("unexpected step: {other:?}"),
    }
    let conflict = CollisionCheck::Conflict { first_conflict: "c.test".to_string() };
    let p = s.finish_http(&mut reg, "alice", false, &conflict);
    assert_eq!(p.metrics, vec![Metric::TunnelRejectedPeerCollision]);
    assert_eq!(
        rejected(p),
        (
            ErrorCode::LabelUnavailable,
            "`alice` already registered on peer c.test by a different identity".to_string()
        )
    );
    assert!(reg.is_empty());
    let clear = CollisionCheck::Clear { matched_peers: vec!["b.test".to_string()] };
    assert_eq!(announced(s.finish_http(&mut reg, "alice", false, &clear)).0, 1);
}

#[test]
fn federation_is_an_intersection() {
    let list = |v: &[&str]| v.iter().map(|s| s.to_string()).collect::<Vec<String>>();
    assert_eq!(
        federated_peers(&list(&["a", "b", "a"]), &list(&["c", "a"])),
        vec!["a", "a"]
    );
    assert!(federated_peers(&list(&["a"]), &list(&[])).is_empty());
    assert!(federated_peers(&list(&[]), &list(&["a"])).is_empty());
}

#[test]
fn a_tcp_tunnel_is_bound_and_registered() {
    let mut reg = registry();
    let s = session(ALICE, S1, ip_mode());
    let kind = TunnelKind::Tcp { remote_port: None };
    let p = s.register(&mut reg, &Vec::new(), "x", kind, None, false, 0);
    assert!(p.metrics.is_empty());
    let (tunnel_id, port) = match p.step {
        RegisterStep::Bind { tunnel_id, port } => (tunnel_id, port),
        other => panic!("unexpected step: {other:?}"),
    };
    assert_eq!((tunnel_id, port), (TunnelId(1), 10_000));
    let p = s.finish_tcp(&mut reg, tunnel_id, port, "listener", 7, false);
    assert_eq!(p.metrics, vec![Metric::TunnelRegisteredTcp]);
    assert_eq!(announced(p), (1, "tcp://192.0.2.1:10000".to_string(), Some(10_000)));
    assert_eq!(reg.remove(tunnel_id), Some(7));
}

#[test]
fn tcp_refusals() {
    let mut reg = registry();
    let mut s = session(ALICE, S1, domain());
    s.entry.allowed_ports = Some(vec![10_001]);
    let p = s.register_tcp(&mut reg, Some(22));
    assert_eq!(p.metrics, vec![Metric::TunnelRejectedPorts]);
    assert_eq!(
        rejected(p),
        (ErrorCode::LabelForbidden, "port 22 not permitted for this identity".to_string())
    );
    let p: Progress<&'static str> = s.register_tcp(&mut reg, Some(10_001));
    assert!(matches!(p.step, RegisterStep::Bind { port: 10_001, .. }));
    let p = s.register_tcp(&mut reg, Some(10_001));
    assert_eq!(p.metrics, vec![Metric::TunnelRejectedPool]);
    assert_eq!(rejected(p), (ErrorCode::PortPoolExhausted, "no free ports".to_string()));
    // The allowlist is not consulted where no port is asked for.
    let p: Progress<&'static str> = s.register_tcp(&mut reg, None);
    assert!(matches!(p.step, RegisterStep::Bind { port: 10_000, .. }));
    let p = s.register_tcp(&mut reg, None);
    assert_eq!(p.metrics, vec![Metric::TunnelRejectedPool]);
    assert_eq!(rejected(p), (ErrorCode::PortPoolExhausted, "no free ports".to_string()));
    assert!(matches!(tcp_bind_failed("in use"),
        ServerFrame::TunnelRejected { code: ErrorCode::InternalError, detail }
            if detail == "bind failed: in use"));
}

#[test]
fn any_port_of_the_pool_will_do() {
    let mut reg = registry();
    let mut s = session(ALICE, S1, ip_mode());
    s.entry.allowed_ports = Some(vec![22]);
    let p: Progress<&'static str> = s.register_tcp(&mut reg, None);
    let RegisterStep::Bind { tunnel_id, port } = p.step else {
        panic!("refused");
    };
    assert_eq!(port, 10_000);
    let p = s.finish_tcp(&mut reg, tunnel_id, port, "l", 7, false);
    assert_eq!(announced(p).2, Some(10_000));
}

#[test]
fn a_dropped_session_resumes_under_the_same_url() {
    let mut reg = registry();
    let s = session(ALICE, S1, domain());
    let first = announced(http(&s, &mut reg, "alice"));
    let (metric, handles) = session_over(&mut reg, &ALICE, Some(SessionOutcome::Dropped), Some(100), 0);
    assert_eq!(metric, Metric::SessionDropped);
    assert!(handles.is_empty());
    let again = session(ALICE, S2, domain());
    let p = again.register(&mut reg, &Vec::new(), "alice", TunnelKind::Http, Some(S1), false, 99);
    assert_eq!(p.metrics, vec![Metric::ResumeReattached]);
    assert_eq!(announced(p), first);
    assert!(reg.resolve_label("alice").unwrap().inspect);
}

#[test]
fn a_tcp_tunnel_resumes_under_the_same_port() {
    let mut reg = registry();
    let s = session(ALICE, S1, domain());
    let p: Progress<&'static str> = s.register_tcp(&mut reg, None);
    assert!(matches!(p.step, RegisterStep::Bind { .. }));
    let first = announced(s.finish_tcp(&mut reg, TunnelId(1), 10_000, "listener", 7, true));
    let (_, handles) = session_over(&mut reg, &ALICE, Some(SessionOutcome::Dropped), None, 0);
    assert_eq!(handles, vec![(TunnelId(1), 7)]);
    let kind = TunnelKind::Tcp { remote_port: None };
    let p = s.register(&mut reg, &Vec::new(), "x", kind, Some(S1), false, 29_999_999_999);
    assert!(matches!(p.step, RegisterStep::Respawn { listener: "listener", inspect: true, .. }));
    assert_eq!(announced(p), first);
}

#[test]
fn a_goodbye_leaves_nothing_to_resume() {
    for outcome in [Some(SessionOutcome::Bye), Some(SessionOutcome::Terminal), None] {
        let mut reg = registry();
        let s = session(ALICE, S1, domain());
        announced(http(&s, &mut reg, "alice"));
        let (metric, _) = session_over(&mut reg, &ALICE, outcome, None, 0);
        let expected = match outcome {
            Some(SessionOutcome::Bye) => Metric::SessionBye,
            _ => Metric::SessionTerminal,
        };
        assert_eq!(metric, expected);
        assert!(reg.is_empty());
        let p = s.register(&mut reg, &Vec::new(), "alice", TunnelKind::Http, Some(S1), false, 1);
        assert_eq!(p.metrics, vec![Metric::ResumeUnknown, Metric::TunnelRegisteredHttp]);
        assert_eq!(announced(p).0, 2);
    }
}

#[test]
fn a_lease_of_another_key_is_refused() {
    let mut reg = registry();
    announced(http(&session(ALICE, S1, domain()), &mut reg, "alice"));
    session_over(&mut reg, &ALICE, Some(SessionOutcome::Dropped), None, 0);
    let thief = session(BOB, S2, domain());
    let p = thief.register(&mut reg, &Vec::new(), "alice", TunnelKind::Http, Some(S1), false, 1);
    assert_eq!(p.metrics, vec![Metric::ResumeIdentityMismatch]);
    assert_eq!(
        rejected(p),
        (
            ErrorCode::ResumeIdentityMismatch,
            "resume pubkey does not match original owner".to_string()
        )
    );
    let p = thief.register(&mut reg, &Vec::new(), "alice", TunnelKind::Http, Some(S2), false, 1);
    assert_eq!(p.metrics, vec![Metric::ResumeUnknown, Metric::TunnelRejectedLabel]);
    assert_eq!(rejected(p).0, ErrorCode::LabelUnavailable);
}

#[test]
fn resume_across_a_mode_change() {
    let mut reg = registry();
    announced(http(&session(ALICE, S1, domain()), &mut reg, "alice"));
    session_over(&mut reg, &ALICE, Some(SessionOutcome::Dropped), None, 0);
    let s = session(ALICE, S2, ip_mode());
    let p = s.register(&mut reg, &Vec::new(), "alice", TunnelKind::Http, Some(S1), false, 1);
    assert!(matches!(p.step, RegisterStep::ReplyThenRemove {
        frame: ServerFrame::TunnelRejected { code: ErrorCode::InternalError, detail },
        tunnel_id: TunnelId(1),
    } if detail == "resume across mode change"));
}

#[test]
fn frames_are_dispatched() {
    let mut reg = registry();
    let mut s = session(ALICE, S1, domain());
    s.entry.federation = vec!["a.test".to_string()];
    let peers = vec!["a.test".to_string(), "b.test".to_string()];
    let mut go = |f: ClientFrame| s.dispatch(&mut reg, &peers, &f, 0);
    assert!(matches!(go(ClientFrame::Ping { nonce: 5 }),
        DispatchStep::Send { frame: ServerFrame::Pong { nonce: 5 } }));
    assert!(matches!(go(ClientFrame::ListPeers),
        DispatchStep::Send { frame: ServerFrame::Peers { relays } } if relays == vec!["a.test"]));
    assert!(matches!(go(ClientFrame::Bye), DispatchStep::Stop { outcome: SessionOutcome::Bye }));
    assert!(matches!(go(ClientFrame::Unexpected), DispatchStep::SendThenStop {
        frame: ServerFrame::ServerBye { code: ErrorCode::ProtocolViolation },
        outcome: SessionOutcome::Terminal,
    }));
    let register = ClientFrame::RegisterTunnel {
        label: "x".to_string(),
        kind: TunnelKind::Tcp { remote_port: None },
        resume_session_id: None,
        inspect: false,
    };
    assert!(matches!(go(register), DispatchStep::Register { .. }));
    assert!(matches!(go(ClientFrame::UnregisterTunnel { tunnel_id: TunnelId(1) }),
        DispatchStep::Removed { abort: None }));
}

#[test]
fn unregistering_hands_out_the_handle() {
    let mut reg = registry();
    let s = session(ALICE, S1, ip_mode());
    let p: Progress<&'static str> = s.register_tcp(&mut reg, None);
    assert!(matches!(p.step, RegisterStep::Bind { .. }));
    s.finish_tcp(&mut reg, TunnelId(1), 10_000, "l", 7, false);
    let f = ClientFrame::UnregisterTunnel { tunnel_id: TunnelId(1) };
    assert!(matches!(s.dispatch(&mut reg, &Vec::new(), &f, 0), DispatchStep::Removed { abort: Some(7) }));
    assert!(reg.is_empty());
}

#[test]
fn session_events() {
    assert!(matches!(session_step(SessionEvent::Shutdown), SessionStep::Farewell {
        farewell: ServerFrame::ServerBye { code: ErrorCode::ServerShutdown },
        outcome: SessionOutcome::Terminal,
    }));
    assert!(matches!(session_step(SessionEvent::Revoked), SessionStep::Farewell {
        farewell: ServerFrame::ServerBye { code: ErrorCode::KeyRevoked },
        outcome: SessionOutcome::Terminal,
    }));
    assert!(matches!(session_step(SessionEvent::StreamEnded),
        SessionStep::Stop { outcome: SessionOutcome::Dropped }));
    assert!(matches!(session_step(SessionEvent::Outbound), SessionStep::Forward));
    assert!(matches!(session_step(SessionEvent::Frame(ClientFrame::Bye)),
        SessionStep::Dispatch { frame: ClientFrame::Bye }));
}

#[test]
fn revocations_are_filtered() {
    assert_eq!(revocation_step(&RevocationEvent::Key(ALICE), &ALICE), RevocationStep::Signal);
    assert_eq!(revocation_step(&RevocationEvent::Key(BOB), &ALICE), RevocationStep::Listen);
    assert_eq!(revocation_step(&RevocationEvent::Lagged, &ALICE), RevocationStep::Listen);
    assert_eq!(revocation_step(&RevocationEvent::Closed, &ALICE), RevocationStep::Idle);
}

#[test]
fn handshake_results() {
    let closes = |r: HandshakeResult| match handshake_step(r) {
        (metric, ConnectionStep::Close { finish, code, reason }) => (metric, finish, code, reason),
        other => panic!("unexpected step: {other:?}"),
    };
    assert_eq!(
        closes(HandshakeResult::TimedOut),
        (
            Metric::HandshakeTimedOut,
            false,
            Some(ErrorCode::AuthenticationFailed),
            "handshake timeout"
        )
    );
    assert_eq!(
        closes(HandshakeResult::EnrollmentDone { success: true }),
        (Metric::EnrollmentOk, true, None, "enrolled")
    );
    assert_eq!(
        closes(HandshakeResult::EnrollmentDone { success: false }).0,
        Metric::EnrollmentRejected
    );
    for (code, metric) in [
        (ErrorCode::UnknownIdentity, Metric::HandshakeUnknownIdentity),
        (ErrorCode::AuthenticationFailed, Metric::HandshakeSignatureInvalid),
        (ErrorCode::TokenExpired, Metric::EnrollmentRejected),
        (ErrorCode::EnrollDisabled, Metric::EnrollmentRejected),
        (ErrorCode::ProtocolViolation, Metric::HandshakeProtocolViolation),
        (ErrorCode::Other(77), Metric::HandshakeProtocolViolation),
    ] {
        assert_eq!(
            closes(HandshakeResult::Failed { code }),
            (metric, false, Some(code), "handshake failed")
        );
    }
    assert!(matches!(
        handshake_step(HandshakeResult::Authenticated),
        (Metric::HandshakeAuthOk, ConnectionStep::RunSession)
    ));
}

#[test]
fn rate_states_survive_reconnects() {
    let mut table: RateTable<u8> = RateTable::new();
    assert_eq!(table.ensure_rate_state(&ALICE, || 1), 1);
    assert_eq!(table.ensure_rate_state(&ALICE, || 2), 1);
    assert_eq!(table.ensure_rate_state(&BOB, || 3), 3);
    assert_eq!(table.ensure_rate_state(&ALICE, || 4), 1);
}

#[test]
fn accept_events() {
    assert_eq!(accept_step(AcceptEvent::Shutdown), AcceptStep::Leave);
    assert_eq!(accept_step(AcceptEvent::EndpointClosed), AcceptStep::Leave);
    assert_eq!(accept_step(AcceptEvent::Incoming), AcceptStep::Serve);
    assert_eq!(accept_step(AcceptEvent::TaskDone), AcceptStep::Wait);
    assert_eq!(accept_step(AcceptEvent::AcceptFailed), AcceptStep::Backoff { millis: 100 });
    assert_eq!(accepted_metric(TransportKind::Quic), Metric::TransportQuicAccepted);
    assert_eq!(
        accepted_metric(TransportKind::TcpFallback),
        Metric::TransportTcpFallbackAccepted
    );
    assert!(shutdown_due(WatchEvent::SenderGone));
    assert!(shutdown_due(WatchEvent::Value { shutting_down: true }));
    assert!(!shutdown_due(WatchEvent::Value { shutting_down: false }));
}

#[test]
fn startup_decisions() {
    assert!(needs_admin_token(true, false) && needs_admin_token(false, true));
    assert!(!needs_admin_token(false, false));
    assert_eq!(multicore_obstacle(1, addr(1), None), None);
    assert_eq!(multicore_obstacle(2, addr(1), Some(addr(443))), None);
    assert_eq!(
        multicore_obstacle(0, addr(0), None),
        Some("run_multicore requires at least 1 core")
    );
    assert_eq!(
        multicore_obstacle(2, addr(0), Some(addr(0))),
        Some("run_multicore requires an explicit QUIC bind port")
    );
    assert_eq!(
        multicore_obstacle(2, addr(1), Some(addr(0))),
        Some("run_multicore requires an explicit HTTPS bind port")
    );
}

#[test]
fn start_plans() {
    let local = ServerConfig::local_in(FilePath::from_text("d"));
    let plan = start_plan(&local);
    assert!(matches!(plan.tls, TlsPlan::SelfSigned));
    assert!(plan.domain.is_none());
    assert_eq!((plan.quic_bind, plan.admin_bind), (local.bind, local.admin_bind));
    let plan = start_plan(&local.with_mode(domain()).with_tcp_fallback_bind(addr(8443)));
    assert!(matches!(plan.tls, TlsPlan::Acme { contact, directory: None } if contact == "mailto:a"));
    let d = plan.domain.unwrap();
    assert_eq!((d.apex.as_str(), d.http_bind, d.https_bind), ("example.test", addr(80), addr(443)));
    assert_eq!(plan.tcp_fallback_bind, Some(addr(8443)));
}

#[test]
fn the_first_state_of_a_server() {
    let config = ServerConfig::local_in(FilePath::from_text("d"))
        .with_admin_token_ttl_secs(1)
        .with_admin_token_reusable(true);
    let mut state: SharedState<&'static str, u32, &'static str, u8> = SharedState::new(config);
    assert!(state.registry.is_empty());
    assert!(!state.admin.is_active());
    assert_eq!(state.admin.hash_path(), FilePath::from_text("d/admin_token.hash"));
    assert_eq!(state.registry.allocate_tcp(None).unwrap().1, 10_000);
    let token = state.admin.issue(krot_server::admin::draw_token(), 0);
    assert!(state.admin.consume(&token, 999_999_999).outcome.is_ok());
    assert!(state.admin.consume(&token, 1_000_000_000).outcome.is_err());
}

#[test]
fn buffers_are_filled_completely() {
    assert_eq!(fill_start(0), FillStep::Done);
    assert_eq!(fill_start(4), FillStep::ReadAt(0));
    assert_eq!(fill_step(0, 3, 4), FillStep::ReadAt(3));
    assert_eq!(fill_step(3, 1, 4), FillStep::Done);
    assert_eq!(fill_step(3, 0, 4), FillStep::UnexpectedEof);
    assert_eq!(read_outcome(0, 4), None);
    assert_eq!(read_outcome(3, 4), Some(3));
    // A read into an empty buffer is no end of the stream.
    assert_eq!(read_outcome(0, 0), Some(0));
}
