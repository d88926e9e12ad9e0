//! The events that the server counts.

use vstd::prelude::*;

verus! {

/// One countable event. Whoever performs a step adds one to the counter of
/// each event the step names.
#[derive(Clone, Copy, Debug, PartialEq, Eq, Structural)]
pub enum Metric {
    TransportQuicAccepted,
    TransportTcpFallbackAccepted,
    HandshakeTimedOut,
    HandshakeUnknownIdentity,
    HandshakeSignatureInvalid,
    HandshakeProtocolViolation,
    HandshakeAuthOk,
    EnrollmentOk,
    EnrollmentRejected,
    SessionDropped,
    SessionBye,
    SessionTerminal,
    ResumeReattached,
    ResumeIdentityMismatch,
    ResumeUnknown,
    TunnelRegisteredHttp,
    TunnelRegisteredTcp,
    TunnelRejectedConns,
    TunnelRejectedLabel,
    TunnelRejectedPeerCollision,
    TunnelRejectedPorts,
    TunnelRejectedPool,
}

} // verus!
