use krot_server::cli::{
    admin_bind_text, build_config, domain_tls, effective_bind, effective_cores, json_logs,
    runs_single_core, CliArgs,
};
use krot_server::config::{default_bind, DomainTls, Mode, ServerConfig};
use krot_server::paths::FilePath;
use krot_server::ports::PortRange;
use krot_server::proto::SocketAddr;

fn addr(ip: u32, port: u16) -> SocketAddr {
    SocketAddr::V4 { ip4: ip, port }
}

fn args() -> CliArgs {
    CliArgs {
        domain: None,
        public_host: None,
        public_quic: None,
        bind: addr(0, 4433),
        bind_host: "0.0.0.0".to_string(),
        data_dir: FilePath::from_text("/var/lib/krot"),
        authorized_keys: FilePath::from_text("/etc/krot/authorized_keys"),
        peer_list: FilePath::from_text("/etc/krot/peers.txt"),
        tcp_fallback_bind: None,
        tcp_port_pool: PortRange { lo: 10_000, hi: 19_999 },
        issue_admin_token: true,
        admin_token_reusable: false,
        admin_token_ttl_secs: 600,
        max_http_tunnels_per_ip: 1,
        admin_bind: Some(addr(0x7f00_0001, 9700)),
        cores: 0,
        resume_grace_secs: 30,
        tls_cert: None,
        tls_key: None,
        acme_contact: None,
        acme_directory: None,
        acme_production: false,
        http_bind: addr(0, 80),
        https_bind: addr(0, 443),
    }
}

#[test]
fn port_ranges_are_read() {
    assert_eq!(
        PortRange::from_str("10000-19999"),
        Ok(PortRange { lo: 10_000, hi: 19_999 })
    );
    assert_eq!(PortRange::from_str("7-7"), Ok(PortRange { lo: 7, hi: 7 }));
    assert_eq!(PortRange::from_str("+1-0065535"), Ok(PortRange { lo: 1, hi: 65_535 }));
}

#[test]
fn bad_port_ranges_are_refused() {
    let e = |s: &str| PortRange::from_str(s).unwrap_err();
    assert_eq!(e("10000"), "expected lo-hi");
    assert_eq!(e(""), "expected lo-hi");
    assert_eq!(e("2-1"), "lo > hi");
    assert_eq!(e("-5"), "cannot parse integer from empty string");
    assert_eq!(e("5-"), "cannot parse integer from empty string");
    assert_eq!(e("x-5"), "invalid digit found in string");
    assert_eq!(e("1-2-3"), "invalid digit found in string");
    assert_eq!(e("1- 2"), "invalid digit found in string");
    assert_eq!(e("+-2"), "invalid digit found in string");
    assert_eq!(e("1-65536"), "number too large to fit in target type");
}

#[test]
fn range_from_given_ends() {
    let bad = |m: &str| Err(m.to_string());
    assert_eq!(PortRange::from_ends(Ok(1), Ok(2)), Ok(PortRange { lo: 1, hi: 2 }));
    assert_eq!(PortRange::from_ends(Ok(2), Ok(1)).unwrap_err(), "lo > hi");
    assert_eq!(PortRange::from_ends(bad("a"), bad("b")).unwrap_err(), "a");
    assert_eq!(PortRange::from_ends(Ok(1), bad("b")).unwrap_err(), "b");
}

#[test]
fn range_text_reads_back() {
    for (lo, hi) in [(0, 0), (0, 65_535), (9, 10), (10_000, 19_999), (65_535, 65_535)] {
        let range = PortRange { lo, hi };
        assert_eq!(range.to_text(), format!("{lo}-{hi}"));
        assert_eq!(PortRange::from_str(&range.to_text()), Ok(range));
    }
}

#[test]
fn local_configuration() {
    let c = ServerConfig::local_in(FilePath::from_text("/tmp/k"));
    assert_eq!(c.bind, addr(0x7f00_0001, 0));
    assert_eq!(c.data_dir, FilePath::from_text("/tmp/k"));
    assert_eq!(c.authorized_keys_path, FilePath::from_text("/tmp/k/authorized_keys"));
    assert_eq!(c.peer_list_path, FilePath::from_text("/tmp/k/peers.txt"));
    assert!(matches!(&c.mode, Mode::Ip { public_host, port_pool }
        if public_host == "127.0.0.1" && *port_pool == PortRange { lo: 10_000, hi: 19_999 }));
    assert!(!c.issue_admin_token && !c.admin_token_reusable);
    assert_eq!(c.admin_token_ttl_secs, 600);
    assert_eq!(c.max_http_tunnels_per_ip, usize::MAX);
    assert_eq!(c.admin_bind, Some(addr(0x7f00_0001, 0)));
    assert_eq!(c.tcp_fallback_bind, None);
    assert_eq!(c.bw_partitions, 1);
    assert_eq!(c.resume_grace, None);
}

#[test]
fn builders_change_one_field_each() {
    let c = ServerConfig::local_in(FilePath::from_text("d"))
        .with_bind(addr(1, 2))
        .with_issue_admin_token(true)
        .with_admin_token_reusable(true)
        .with_admin_token_ttl_secs(7)
        .with_tcp_fallback_bind(addr(3, 4))
        .with_bw_partitions(8)
        .with_mode(Mode::Ip {
            public_host: "h".to_string(),
            port_pool: PortRange { lo: 1, hi: 2 },
        });
    assert_eq!(c.bind, addr(1, 2));
    assert!(c.issue_admin_token && c.admin_token_reusable);
    assert_eq!(c.admin_token_ttl_secs, 7);
    assert_eq!(c.tcp_fallback_bind, Some(addr(3, 4)));
    assert_eq!(c.bw_partitions, 8);
    assert_eq!(c.mode.tcp_port_pool(), PortRange { lo: 1, hi: 2 });
    assert_eq!(c.mode.public_host(), "h");
    assert_eq!(c.data_dir, FilePath::from_text("d"));
    assert_eq!(ServerConfig::local_in(FilePath::from_text("d")).with_bw_partitions(0).bw_partitions, 1);
}

#[test]
fn default_bind_is_the_wildcard() {
    assert_eq!(default_bind(), addr(0, 4433));
}

#[test]
fn environment_and_argument_choices() {
    assert!(json_logs(Some("json")));
    assert!(!json_logs(Some("JSON")));
    assert!(!json_logs(None));
    assert_eq!(admin_bind_text(""), None);
    assert_eq!(admin_bind_text("127.0.0.1:9700"), Some("127.0.0.1:9700"));
    assert_eq!(effective_bind(addr(9, 1), Some(2)), addr(9, 2));
    assert_eq!(effective_bind(addr(9, 1), None), addr(9, 1));
    let v6 = |port: u16| SocketAddr::V6 { ip6: 1, port, flowinfo: 5, scope_id: 7 };
    assert_eq!(effective_bind(v6(1), Some(2)), v6(2));
    assert_eq!((v6(3).port(), addr(9, 4).port()), (3, 4));
    assert_eq!(effective_cores(3, Some(8)), 3);
    assert_eq!(effective_cores(0, Some(8)), 8);
    assert_eq!(effective_cores(0, None), 1);
    assert!(runs_single_core(0) && runs_single_core(1) && !runs_single_core(2));
}

#[test]
fn certificate_sources() {
    let s = |t: &str| Some(t.to_string());
    let p = |t: &str| Some(FilePath::from_text(t));
    assert!(matches!(domain_tls(p("c"), p("k"), None, None, false),
        Some(DomainTls::PemFile { cert, key }) if cert.as_bytes() == b"c" && key.as_bytes() == b"k"));
    assert!(matches!(domain_tls(None, None, s("m"), None, false),
        Some(DomainTls::Acme { contact, directory: None }) if contact == "m"));
    assert!(matches!(domain_tls(None, None, s("m"), None, true),
        Some(DomainTls::Acme { directory: Some(url), .. })
            if url == "https://acme-v02.api.letsencrypt.org/directory"));
    assert!(matches!(domain_tls(None, None, s("m"), s("u"), true),
        Some(DomainTls::Acme { directory: Some(url), .. }) if url == "u"));
    assert!(domain_tls(p("c"), None, None, None, false).is_none());
    assert!(domain_tls(p("c"), p("k"), s("m"), None, false).is_none());
    assert!(domain_tls(None, None, None, None, false).is_none());
}

#[test]
fn configuration_without_a_domain() {
    let mut a = args();
    a.public_quic = Some(5000);
    let start = build_config(a, Some(4)).unwrap();
    assert_eq!(start.cores, 4);
    assert_eq!(start.config.bw_partitions, 4);
    assert_eq!(start.config.bind, addr(0, 5000));
    assert_eq!(start.config.resume_grace, Some(30_000_000_000));
    assert_eq!(start.config.max_http_tunnels_per_ip, 1);
    assert!(start.config.issue_admin_token);
    assert!(matches!(&start.config.mode, Mode::Ip { public_host, .. } if public_host == "0.0.0.0"));
    let mut named = args();
    named.public_host = Some("relay.test".to_string());
    named.cores = 1;
    let start = build_config(named, None).unwrap();
    assert_eq!(start.cores, 1);
    assert_eq!(start.config.mode.public_host(), "relay.test");
}

#[test]
fn configuration_with_a_domain() {
    let mut a = args();
    a.domain = Some("example.test".to_string());
    assert_eq!(
        build_config(args_with_domain_only(), None).unwrap_err(),
        "DomainMode requires either --tls-cert + --tls-key, or --acme-contact"
    );
    a.acme_contact = Some("mailto:a@example.test".to_string());
    let start = build_config(a, None).unwrap();
    assert_eq!(start.config.mode.public_host(), "example.test");
    match start.config.mode {
        Mode::Domain { apex, tls, http_bind, https_bind, tcp_port_pool } => {
            assert_eq!(apex, "example.test");
            assert!(matches!(tls, DomainTls::Acme { directory: None, .. }));
            assert_eq!((http_bind, https_bind), (addr(0, 80), addr(0, 443)));
            assert_eq!(tcp_port_pool, PortRange { lo: 10_000, hi: 19_999 });
        }
        other => panic!("unexpected mode: {other:?}"),
    }
}

fn args_with_domain_only() -> CliArgs {
    let mut a = args();
    a.domain = Some("example.test".to_string());
    a
}
