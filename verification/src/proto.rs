//! The parts of the wire protocol that server decisions read: identities,
//! tunnel kinds, control frames and close codes.

use vstd::prelude::*;

verus! {

/// Length of a session id in bytes.
pub const SESSION_ID_LEN: usize = 16;

/// Length of an admin token before it is rendered as text, in bytes.
pub const ADMIN_TOKEN_RAW_LEN: usize = 20;

/// Default admin-token lifetime: ten minutes, in nanoseconds.
pub const ADMIN_TOKEN_TTL: u128 = 600_000_000_000;

/// Default resume grace period: thirty seconds, in nanoseconds.
pub const DEFAULT_GRACE_PERIOD: u128 = 30_000_000_000;

/// Default UDP port of the QUIC endpoint.
pub const DEFAULT_UDP_PORT: u16 = 4433;

/// Whether two byte arrays hold the same bytes.
fn bytes_eq<const N: usize>(a: &[u8; N], b: &[u8; N]) -> (r: bool)
    ensures
        r == (a == b),
{
    for i in 0..N
        invariant
            forall|j: int| 0 <= j < i ==> a@[j] == b@[j],
    {
        if a[i] != b[i] {
            return false;
        }
    }
    assert(a@ =~= b@);
    assert(*a =~= *b);
    true
}

/// A client's public key.
#[derive(Clone, Copy, Debug)]
pub struct PubKey(pub [u8; 32]);

impl PubKey {
    /// Bitwise equality.
    pub fn same(&self, other: &PubKey) -> (r: bool)
        ensures
            r == (self == other),
    {
        bytes_eq(&self.0, &other.0)
    }
}

/// Identifies one authenticated session.
#[derive(Clone, Copy, Debug)]
pub struct SessionId(pub [u8; SESSION_ID_LEN]);

impl SessionId {
    /// Bitwise equality.
    pub fn same(&self, other: &SessionId) -> (r: bool)
        ensures
            r == (self == other),
    {
        bytes_eq(&self.0, &other.0)
    }
}

/// Identifies one tunnel for as long as it is registered.
#[derive(Clone, Copy, Debug, PartialEq, Eq, Structural)]
pub struct TunnelId(pub u64);

/// An IP address as its bits, most significant first.
#[derive(Clone, Copy, Debug, PartialEq, Eq, Structural)]
pub enum IpAddr {
    V4(u32),
    V6(u128),
}

/// An IP address with a port. One of IPv6 also has its flow information and scope.
#[derive(Clone, Copy, Debug, PartialEq, Eq, Structural)]
pub enum SocketAddr {
    V4 { ip4: u32, port: u16 },
    V6 { ip6: u128, port: u16, flowinfo: u32, scope_id: u32 },
}

impl SocketAddr {
    /// The port.
    pub open spec fn port_of(self) -> u16 {
        match self {
            SocketAddr::V4 { port, .. } => port,
            SocketAddr::V6 { port, .. } => port,
        }
    }

    /// The same address on another port.
    pub open spec fn on_port(self, port: u16) -> SocketAddr {
        match self {
            SocketAddr::V4 { ip4, .. } => SocketAddr::V4 { ip4, port },
            SocketAddr::V6 { ip6, flowinfo, scope_id, .. } => SocketAddr::V6 {
                ip6,
                port,
                flowinfo,
                scope_id,
            },
        }
    }

    /// The port.
    pub fn port(&self) -> (r: u16)
        ensures
            r == self.port_of(),
    {
        match *self {
            SocketAddr::V4 { port, .. } => port,
            SocketAddr::V6 { port, .. } => port,
        }
    }

    /// The same address on another port.
    pub fn with_port(self, port: u16) -> (r: SocketAddr)
        ensures
            r == self.on_port(port),
    {
        match self {
            SocketAddr::V4 { ip4, .. } => SocketAddr::V4 { ip4, port },
            SocketAddr::V6 { ip6, flowinfo, scope_id, .. } => SocketAddr::V6 {
                ip6,
                port,
                flowinfo,
                scope_id,
            },
        }
    }
}

/// What a client asks a tunnel to carry.
#[derive(Clone, Copy, Debug, PartialEq, Eq, Structural)]
pub enum TunnelKind {
    Http,
    /// `remote_port` is the public port the client would like.
    Tcp { remote_port: Option<u16> },
}

/// Why a session, a handshake or a registration was ended by the server.
#[derive(Clone, Copy, Debug, PartialEq, Eq, Structural)]
pub enum ErrorCode {
    AuthenticationFailed,
    UnknownIdentity,
    TokenExpired,
    EnrollDisabled,
    ProtocolViolation,
    ServerShutdown,
    KeyRevoked,
    InternalError,
    HttpNotAvailable,
    LabelInvalid,
    LabelForbidden,
    LabelUnavailable,
    PortPoolExhausted,
    TunnelLimitExceeded,
    ResumeIdentityMismatch,
    /// Any code the server's own decisions never single out.
    Other(u16),
}

/// A frame sent by the client on the control stream.
#[derive(Debug)]
pub enum ClientFrame {
    Ping { nonce: u64 },
    RegisterTunnel {
        label: String,
        kind: TunnelKind,
        resume_session_id: Option<SessionId>,
        inspect: bool,
    },
    UnregisterTunnel { tunnel_id: TunnelId },
    ListPeers,
    Bye,
    /// A frame that has no meaning once the session is established.
    Unexpected,
}

/// A frame sent by the server on the control stream.
#[derive(Debug)]
pub enum ServerFrame {
    Pong { nonce: u64 },
    TunnelRegistered { tunnel_id: TunnelId, public_url: String, public_port: Option<u16> },
    TunnelRejected { code: ErrorCode, detail: String },
    Peers { relays: Vec<String> },
    ServerBye { code: ErrorCode },
}

impl ServerFrame {
    /// Whether this frame rejects a registration with `code` and the words `detail`.
    pub open spec fn rejects(self, code: ErrorCode, detail: Seq<char>) -> bool {
        self matches ServerFrame::TunnelRejected { code: c, detail: d } && c == code && d@ == detail
    }

    /// Whether this frame announces tunnel `id` under `url` and `port`.
    pub open spec fn announces(self, id: TunnelId, url: Seq<char>, port: Option<u16>) -> bool {
        self matches ServerFrame::TunnelRegistered { tunnel_id, public_url, public_port }
            && tunnel_id == id && public_url@ == url && public_port == port
    }

    /// Whether this frame bids the client farewell with `code`.
    pub open spec fn bids_farewell(self, code: ErrorCode) -> bool {
        self matches ServerFrame::ServerBye { code: c } && c == code
    }
}

} // verus!
