//! Server configuration.

use vstd::prelude::*;

use crate::paths::{path_in, FilePath};
use crate::ports::PortRange;
use crate::proto::{SocketAddr, DEFAULT_UDP_PORT};

verus! {

/// Source of the apex-domain TLS certificate.
#[derive(Clone, Debug)]
pub enum DomainTls {
    /// Read a PEM-encoded certificate chain and PKCS#8 key from disk.
    PemFile { cert: FilePath, key: FilePath },
    /// Obtain a certificate via ACME HTTP-01. `contact` is passed to the ACME
    /// account; `directory` selects the ACME server, and `None` means the Let's
    /// Encrypt staging server.
    Acme { contact: String, directory: Option<String> },
}

impl DomainTls {
    /// The Let's Encrypt production directory.
    pub const LETSENCRYPT_PRODUCTION: &'static str = "https://acme-v02.api.letsencrypt.org/directory";

    /// The Let's Encrypt staging directory, the default.
    pub const LETSENCRYPT_STAGING: &'static str = "https://acme-staging-v02.api.letsencrypt.org/directory";
}

/// Deployment mode.
#[derive(Clone, Debug)]
pub enum Mode {
    /// No domain configured: TCP-only tunnels on a port pool.
    Ip {
        /// Public address or name to embed in the tunnels' URLs.
        public_host: String,
        port_pool: PortRange,
    },
    /// Apex domain configured: full HTTP routing.
    Domain {
        apex: String,
        tls: DomainTls,
        /// Where the plain HTTP router listens.
        http_bind: SocketAddr,
        /// Where the HTTPS router listens.
        https_bind: SocketAddr,
        /// Ports for TCP tunnels.
        tcp_port_pool: PortRange,
    },
}

impl Default for Mode {
    /// TCP-only tunnels for the local host.
    fn default() -> (r: Self)
        ensures
            r matches Mode::Ip { public_host, port_pool } && public_host@ == "127.0.0.1"@
                && port_pool == (PortRange { lo: 10_000, hi: 19_999 }),
    {
        Mode::Ip {
            public_host: String::from_str("127.0.0.1"),
            port_pool: PortRange { lo: 10_000, hi: 19_999 },
        }
    }
}

impl Mode {
    /// The ports from which TCP tunnels get theirs.
    pub open spec fn tcp_ports(self) -> PortRange {
        match self {
            Mode::Ip { port_pool, .. } => port_pool,
            Mode::Domain { tcp_port_pool, .. } => tcp_port_pool,
        }
    }

    /// The host part of a TCP tunnel's URL.
    pub open spec fn tcp_host(self) -> Seq<char> {
        match self {
            Mode::Ip { public_host, .. } => public_host@,
            Mode::Domain { apex, .. } => apex@,
        }
    }

    /// The ports from which TCP tunnels get theirs.
    #[must_use]
    pub fn tcp_port_pool(&self) -> (r: PortRange)
        ensures
            r == self.tcp_ports(),
    {
        match self {
            Mode::Ip { port_pool, .. } => *port_pool,
            Mode::Domain { tcp_port_pool, .. } => *tcp_port_pool,
        }
    }

    /// The host part of a TCP tunnel's URL.
    pub fn public_host(&self) -> (r: &str)
        ensures
            r@ == self.tcp_host(),
    {
        match self {
            Mode::Ip { public_host, .. } => public_host.as_str(),
            Mode::Domain { apex, .. } => apex.as_str(),
        }
    }
}

/// Lifetime of an admin API session, in nanoseconds: one hour.
pub const DEFAULT_SESSION_TTL: u128 = 3_600_000_000_000;

/// The bits of the IPv4 loopback address.
pub const LOCALHOST: u32 = 0x7f00_0001;

/// The bits of the IPv4 wildcard address.
pub const UNSPECIFIED: u32 = 0;

/// Everything the server needs at startup. Durations are in nanoseconds unless
/// a name says otherwise.
#[derive(Clone, Debug)]
pub struct ServerConfig {
    /// Where the QUIC endpoint listens.
    pub bind: SocketAddr,
    /// Directory for persistent state.
    pub data_dir: FilePath,
    /// The file of authorized keys.
    pub authorized_keys_path: FilePath,
    pub mode: Mode,
    /// Whether a fresh admin token is printed at every start.
    pub issue_admin_token: bool,
    /// Whether admin tokens stay valid until they expire.
    pub admin_token_reusable: bool,
    /// Lifetime of admin tokens in seconds; zero disables expiry.
    pub admin_token_ttl_secs: u64,
    /// Most HTTP tunnels per client address at once; `usize::MAX` disables the cap.
    pub max_http_tunnels_per_ip: usize,
    /// Where the admin API listens, if anywhere.
    pub admin_bind: Option<SocketAddr>,
    /// Lifetime of admin API sessions.
    pub admin_session_ttl: u128,
    /// The static list of federated peers.
    pub peer_list_path: FilePath,
    /// Where the TCP fallback listens, if anywhere.
    pub tcp_fallback_bind: Option<SocketAddr>,
    /// Over how many buckets each key's bandwidth cap is divided.
    pub bw_partitions: usize,
    /// How long the tunnels of a vanished client stay leased; `None` means the
    /// protocol default.
    pub resume_grace: Option<u128>,
}

impl ServerConfig {
    /// A configuration for local use with fresh state in `data_dir`.
    #[must_use]
    pub fn local_in(data_dir: FilePath) -> (r: Self)
        ensures
            r.bind == (SocketAddr::V4 { ip4: LOCALHOST, port: 0 }),
            r.data_dir@ == data_dir@,
            r.authorized_keys_path@ == path_in(data_dir@, "authorized_keys"@),
            r.peer_list_path@ == path_in(data_dir@, "peers.txt"@),
            r.mode matches Mode::Ip { public_host, port_pool } && public_host@ == "127.0.0.1"@
                && port_pool == (PortRange { lo: 10_000, hi: 19_999 }),
            !r.issue_admin_token,
            !r.admin_token_reusable,
            r.admin_token_ttl_secs == 600,
            r.max_http_tunnels_per_ip == usize::MAX,
            r.admin_bind == Some(SocketAddr::V4 { ip4: LOCALHOST, port: 0 }),
            r.admin_session_ttl == DEFAULT_SESSION_TTL,
            r.tcp_fallback_bind is None,
            r.bw_partitions == 1,
            r.resume_grace is None,
    {
        ServerConfig {
            bind: SocketAddr::V4 { ip4: LOCALHOST, port: 0 },
            authorized_keys_path: data_dir.file("authorized_keys"),
            peer_list_path: data_dir.file("peers.txt"),
            data_dir,
            mode: Mode::default(),
            issue_admin_token: false,
            admin_token_reusable: false,
            admin_token_ttl_secs: 600,
            max_http_tunnels_per_ip: usize::MAX,
            admin_bind: Some(SocketAddr::V4 { ip4: LOCALHOST, port: 0 }),
            admin_session_ttl: DEFAULT_SESSION_TTL,
            tcp_fallback_bind: None,
            bw_partitions: 1,
            resume_grace: None,
        }
    }

    /// The configuration with another QUIC address.
    #[must_use]
    pub fn with_bind(self, bind: SocketAddr) -> (r: Self)
        ensures
            r == (ServerConfig { bind, ..self }),
    {
        let mut this = self;
        this.bind = bind;
        this
    }

    /// The configuration with another mode.
    #[must_use]
    pub fn with_mode(self, mode: Mode) -> (r: Self)
        ensures
            r == (ServerConfig { mode, ..self }),
    {
        let mut this = self;
        this.mode = mode;
        this
    }

    /// The configuration that issues an admin token at every start, or not.
    #[must_use]
    pub fn with_issue_admin_token(self, issue: bool) -> (r: Self)
        ensures
            r == (ServerConfig { issue_admin_token: issue, ..self }),
    {
        let mut this = self;
        this.issue_admin_token = issue;
        this
    }

    /// The configuration with admin tokens reusable, or not.
    #[must_use]
    pub fn with_admin_token_reusable(self, reusable: bool) -> (r: Self)
        ensures
            r == (ServerConfig { admin_token_reusable: reusable, ..self }),
    {
        let mut this = self;
        this.admin_token_reusable = reusable;
        this
    }

    /// The configuration with another lifetime of admin tokens.
    #[must_use]
    pub fn with_admin_token_ttl_secs(self, secs: u64) -> (r: Self)
        ensures
            r == (ServerConfig { admin_token_ttl_secs: secs, ..self }),
    {
        let mut this = self;
        this.admin_token_ttl_secs = secs;
        this
    }

    /// The configuration with a TCP fallback listener.
    #[must_use]
    pub fn with_tcp_fallback_bind(self, addr: SocketAddr) -> (r: Self)
        ensures
            r == (ServerConfig { tcp_fallback_bind: Some(addr), ..self }),
    {
        let mut this = self;
        this.tcp_fallback_bind = Some(addr);
        this
    }

    /// The configuration with `n` bandwidth partitions, at least one.
    #[must_use]
    pub fn with_bw_partitions(self, n: usize) -> (r: Self)
        ensures
            r == (ServerConfig {
                bw_partitions: if n == 0 {
                    1
                } else {
                    n
                },
                ..self
            }),
    {
        let mut this = self;
        this.bw_partitions = if n == 0 {
            1
        } else {
            n
        };
        this
    }
}

/// The QUIC address used when none is given: every IPv4 interface, default port.
#[must_use]
pub fn default_bind() -> (r: SocketAddr)
    ensures
        r == (SocketAddr::V4 { ip4: UNSPECIFIED, port: DEFAULT_UDP_PORT }),
{
    SocketAddr::V4 { ip4: UNSPECIFIED, port: DEFAULT_UDP_PORT }
}

} // verus!
