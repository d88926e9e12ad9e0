use krot_server::error::ServerError;
use krot_server::ports::PortRange;
use krot_server::proto::{IpAddr, PubKey, SessionId, TunnelId, SESSION_ID_LEN};
use krot_server::registry::{
    pick_free_port, RegisteredKind, ResumeOutcome, ResumedInfo, TunnelInfo, TunnelRegistry,
    TunnelSnapshotKind, TunnelState,
};
use std::collections::HashSet;

type Registry = TunnelRegistry<&'static str, u32, &'static str, u8>;
type Info = TunnelInfo<&'static str, u32, &'static str, u8>;

const ALICE: PubKey = PubKey([1; 32]);
const BOB: PubKey = PubKey([2; 32]);
const S1: SessionId = SessionId([1; SESSION_ID_LEN]);
const S2: SessionId = SessionId([2; SESSION_ID_LEN]);

fn registry() -> Registry {
    TunnelRegistry::new(PortRange { lo: 10_000, hi: 10_001 })
}

fn info(id: u64, owner: PubKey, session_id: SessionId, kind: RegisteredKind, abort: Option<u32>) -> Info {
    let tcp = matches!(kind, RegisteredKind::Tcp { .. });
    TunnelInfo {
        id: TunnelId(id),
        owner,
        session_id,
        kind,
        state: TunnelState::Live { connection: "old", abort },
        tcp_listener: if tcp { Some("listener") } else { None },
        rate: 9,
        inspect: id % 2 == 1,
        client_ip: None,
    }
}

fn http(reg: &mut Registry, label: &str, owner: PubKey, session: SessionId) -> u64 {
    let id = reg.allocate_http(label).unwrap();
    let kind = RegisteredKind::Http { label: label.to_string() };
    reg.insert(info(id.0, owner, session, kind, None));
    id.0
}

fn tcp(reg: &mut Registry, owner: PubKey, session: SessionId, abort: u32) -> (u64, u16) {
    let (id, port) = reg.allocate_tcp(None).unwrap();
    let kind = RegisteredKind::Tcp { public_port: port };
    reg.insert(info(id.0, owner, session, kind, Some(abort)));
    (id.0, port)
}

fn http_info(id: TunnelId, ip: Option<IpAddr>) -> Info {
    TunnelInfo {
        id,
        owner: PubKey([0u8; 32]),
        session_id: SessionId([0u8; SESSION_ID_LEN]),
        kind: RegisteredKind::Http {
            label: format!("label{id:?}"),
        },
        state: TunnelState::Dangling {
            expires_at: 60_000_000_000,
        },
        tcp_listener: None,
        rate: 0,
        inspect: false,
        client_ip: ip,
    }
}

#[test]
fn per_ip_http_cap() {
    let mut reg: Registry =
        TunnelRegistry::new(PortRange { lo: 10_000, hi: 10_001 }).with_max_http_per_ip(1);
    let ip = Some(IpAddr::V4(u32::from_be_bytes([1, 2, 3, 4])));
    assert!(reg.admits_http_for_ip(ip));
    reg.insert(http_info(TunnelId(1), ip));
    assert!(!reg.admits_http_for_ip(ip)); // cap reached
    let other = Some(IpAddr::V4(u32::from_be_bytes([5, 6, 7, 8])));
    assert!(reg.admits_http_for_ip(other)); // different IP unaffected
    reg.remove(TunnelId(1));
    assert!(reg.admits_http_for_ip(ip));
}

#[test]
fn per_ip_cap_edges() {
    let ip = Some(IpAddr::V6(7));
    let mut zero = registry().with_max_http_per_ip(0);
    assert!(zero.admits_http_for_ip(ip));
    zero.insert(http_info(TunnelId(1), ip));
    assert!(!zero.admits_http_for_ip(ip));
    assert!(zero.admits_http_for_ip(None));
    let mut unlimited = registry();
    unlimited.insert(http_info(TunnelId(1), ip));
    unlimited.insert(http_info(TunnelId(2), ip));
    assert!(unlimited.admits_http_for_ip(ip));
}

#[test]
fn labels_are_reserved_once() {
    let mut reg = registry();
    assert_eq!(reg.allocate_http("alice").unwrap(), TunnelId(1));
    assert!(matches!(reg.allocate_http("alice"),
        Err(ServerError::Keys(m)) if m == "label taken: alice"));
    assert_eq!(reg.allocate_http("bob").unwrap(), TunnelId(2));
    reg.abort_http(TunnelId(1), "alice");
    assert_eq!(reg.allocate_http("alice").unwrap(), TunnelId(3));
}

#[test]
fn ports_are_handed_out_from_below() {
    let mut reg = registry();
    assert_eq!(reg.allocate_tcp(None).unwrap(), (TunnelId(1), 10_000));
    assert_eq!(reg.allocate_tcp(None).unwrap(), (TunnelId(2), 10_001));
    assert!(matches!(reg.allocate_tcp(None), Err(ServerError::PortPoolExhausted)));
}

#[test]
fn an_allowlist_narrows_the_pool() {
    let mut reg = registry();
    assert_eq!(reg.allocate_tcp(Some(&[10_001, 9])).unwrap().1, 10_001);
    assert!(reg.allocate_tcp(Some(&[10_001, 9])).is_err());
    assert!(reg.allocate_tcp(Some(&[])).is_err());
    assert_eq!(reg.allocate_tcp(None).unwrap().1, 10_000);
}

#[test]
fn lowest_free_port() {
    let used: HashSet<u16> = [0, 1, 3].into_iter().collect();
    assert_eq!(pick_free_port(PortRange { lo: 0, hi: 9 }, &used, None), Some(2));
    assert_eq!(pick_free_port(PortRange { lo: 3, hi: 3 }, &used, None), None);
    assert_eq!(pick_free_port(PortRange { lo: 9, hi: 2 }, &used, None), None);
    assert_eq!(
        pick_free_port(PortRange { lo: 65_535, hi: 65_535 }, &used, None),
        Some(65_535)
    );
    assert_eq!(pick_free_port(PortRange { lo: 0, hi: 9 }, &used, Some(&[8, 5, 1])), Some(5));
}

#[test]
fn a_live_label_resolves() {
    let mut reg = registry();
    let id = http(&mut reg, "alice", ALICE, S1);
    let found = reg.resolve_label("alice").unwrap();
    assert_eq!(found.id, TunnelId(id));
    assert_eq!((found.connection, found.rate, found.inspect), ("old", 9, true));
    assert!(reg.resolve_label("bob").is_none());
}

#[test]
fn removing_frees_and_is_idempotent() {
    let mut reg = registry();
    let id = http(&mut reg, "alice", ALICE, S1);
    let (tid, port) = tcp(&mut reg, ALICE, S1, 77);
    assert_eq!(reg.len(), 2);
    assert_eq!(reg.remove(TunnelId(id)), None);
    assert_eq!(reg.remove(TunnelId(id)), None);
    assert!(reg.resolve_label("alice").is_none());
    assert!(reg.allocate_http("alice").is_ok());
    assert_eq!(reg.remove(TunnelId(tid)), Some(77));
    assert_eq!(reg.remove(TunnelId(tid)), None);
    assert!(reg.is_empty());
    assert_eq!(reg.allocate_tcp(None).unwrap().1, port);
}

#[test]
fn removing_a_key_leaves_the_others() {
    let mut reg = registry();
    http(&mut reg, "alice", ALICE, S1);
    tcp(&mut reg, ALICE, S2, 5);
    http(&mut reg, "bob", BOB, S2);
    assert_eq!(reg.count_owned_by(&ALICE), 2);
    let handles = reg.remove_all_owned_by(&ALICE);
    assert_eq!(handles, vec![(TunnelId(2), 5)]);
    assert_eq!(reg.count_owned_by(&ALICE), 0);
    assert_eq!(reg.count_owned_by(&BOB), 1);
    assert!(reg.resolve_label("bob").is_some());
    assert!(matches!(reg.try_resume("alice", S1, &ALICE, "new", 0), ResumeOutcome::Unknown));
}

#[test]
fn a_drop_leaves_a_lease() {
    let mut reg = registry();
    let id = http(&mut reg, "alice", ALICE, S1);
    let handles = reg.mark_dangling(&ALICE, 30, 100);
    assert!(handles.is_empty());
    assert!(reg.resolve_label("alice").is_none());
    assert!(reg.allocate_http("alice").is_err());
    assert_eq!(reg.count_owned_by(&ALICE), 1);
    match reg.try_resume("alice", S1, &ALICE, "new", 129) {
        ResumeOutcome::Reattached { tunnel_id, info: ResumedInfo::Http { label }, inspect } => {
            assert_eq!((tunnel_id, label.as_str(), inspect), (TunnelId(id), "alice", true));
        }
        other => panic!("unexpected outcome: {other:?}"),
    }
    assert_eq!(reg.resolve_label("alice").unwrap().connection, "new");
}

#[test]
fn an_expired_lease_is_unknown() {
    let mut reg = registry();
    http(&mut reg, "alice", ALICE, S1);
    reg.mark_dangling(&ALICE, 30, 100);
    assert!(matches!(reg.try_resume("alice", S1, &ALICE, "new", 130), ResumeOutcome::Unknown));
    assert!(reg.resolve_label("alice").is_none());
}

#[test]
fn a_second_drop_keeps_the_first_lease() {
    let mut reg = registry();
    http(&mut reg, "alice", ALICE, S1);
    reg.mark_dangling(&ALICE, 30, 100);
    reg.mark_dangling(&ALICE, 30, 120);
    assert_eq!(reg.reap_expired(129), 0);
    assert_eq!(reg.reap_expired(130), 1);
}

#[test]
fn resume_checks_session_and_key() {
    let mut reg = registry();
    http(&mut reg, "alice", ALICE, S1);
    assert!(matches!(reg.try_resume("alice", S1, &ALICE, "n", 0), ResumeOutcome::Unknown));
    reg.mark_dangling(&ALICE, 30, 0);
    assert!(matches!(reg.try_resume("alice", S2, &ALICE, "n", 1), ResumeOutcome::Unknown));
    assert!(matches!(reg.try_resume("alice", S1, &BOB, "n", 1), ResumeOutcome::IdentityMismatch));
    assert!(matches!(reg.try_resume("other", S1, &ALICE, "n", 1), ResumeOutcome::Unknown));
    assert!(reg.resolve_label("alice").is_none());
}

#[test]
fn a_tcp_tunnel_is_resumed_by_session() {
    let mut reg = registry();
    let (id, port) = tcp(&mut reg, ALICE, S1, 41);
    assert_eq!(reg.mark_dangling(&ALICE, 30, 0), vec![(TunnelId(id), 41)]);
    assert!(matches!(reg.try_resume("any", S1, &BOB, "n", 1), ResumeOutcome::IdentityMismatch));
    match reg.try_resume("any", S1, &ALICE, "new", 1) {
        ResumeOutcome::Reattached {
            tunnel_id,
            info: ResumedInfo::Tcp { public_port, listener },
            ..
        } => assert_eq!((tunnel_id, public_port, listener), (TunnelId(id), port, "listener")),
        other => panic!("unexpected outcome: {other:?}"),
    }
    assert_eq!(reg.remove(TunnelId(id)), None);
}

#[test]
fn one_key_is_not_shadowed_by_another() {
    let mut reg = registry();
    tcp(&mut reg, BOB, S1, 1);
    let (mine, _) = tcp(&mut reg, ALICE, S1, 2);
    reg.mark_dangling(&BOB, 30, 0);
    reg.mark_dangling(&ALICE, 30, 0);
    assert!(matches!(reg.try_resume("x", S1, &ALICE, "n", 1),
        ResumeOutcome::Reattached { tunnel_id, .. } if tunnel_id == TunnelId(mine)));
}

#[test]
fn reaping_takes_expired_leases_only() {
    let mut reg = registry();
    http(&mut reg, "alice", ALICE, S1);
    http(&mut reg, "bob", BOB, S2);
    reg.mark_dangling(&ALICE, 10, 0);
    assert_eq!(reg.reap_expired(9), 0);
    assert_eq!(reg.reap_expired(10), 1);
    assert_eq!(reg.len(), 1);
    assert!(reg.resolve_label("bob").is_some());
    assert!(reg.allocate_http("alice").is_ok());
}

#[test]
fn handles_are_recorded_in_live_tunnels_only() {
    let mut reg = registry();
    let (id, _) = tcp(&mut reg, ALICE, S1, 1);
    reg.set_tcp_abort(TunnelId(id), 2);
    reg.set_tcp_abort(TunnelId(99), 3);
    assert_eq!(reg.mark_dangling(&ALICE, 5, 0), vec![(TunnelId(id), 2)]);
    reg.set_tcp_abort(TunnelId(id), 4);
    assert_eq!(reg.remove(TunnelId(id)), None);
}

#[test]
fn a_snapshot_shows_every_tunnel() {
    let mut reg = registry();
    http(&mut reg, "alice", ALICE, S1);
    let (_, port) = tcp(&mut reg, BOB, S2, 1);
    reg.mark_dangling(&BOB, 5, 0);
    let mut shots = reg.snapshot();
    shots.sort_by_key(|s| s.tunnel_id.0);
    assert_eq!(shots.len(), 2);
    assert!(shots[0].live && shots[0].inspect && shots[0].owner.same(&ALICE));
    assert!(matches!(&shots[0].kind, TunnelSnapshotKind::Http { label } if label == "alice"));
    assert!(!shots[1].live && shots[1].session_id.same(&S2));
    assert!(matches!(shots[1].kind, TunnelSnapshotKind::Tcp { public_port } if public_port == port));
}
