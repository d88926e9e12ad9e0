//! Tunnels, their leases, and the registry as mathematics: what is reserved, what
//! is published, and what each operation turns that into.

use vstd::prelude::*;

use crate::ports::PortRange;
use crate::proto::{IpAddr, PubKey, SessionId, TunnelId};

verus! {

/// What a tunnel publishes.
#[derive(Debug)]
pub enum RegisteredKind {
    Tcp { public_port: u16 },
    Http { label: String },
}

/// Lease state of a tunnel. `Live` is the steady state; `Dangling` is
/// entered on abnormal disconnect.
#[derive(Debug)]
pub enum TunnelState<C, A> {
    Live {
        connection: C,
        /// Handle of the TCP listener task. `None` for HTTP tunnels.
        abort: Option<A>,
    },
    Dangling { expires_at: u128 },
}

/// One live or dangling tunnel.
#[derive(Debug)]
pub struct TunnelInfo<C, A, L, R> {
    pub id: TunnelId,
    pub owner: PubKey,
    /// The session that created the tunnel. Must match on resume, along with `owner`.
    pub session_id: SessionId,
    pub kind: RegisteredKind,
    pub state: TunnelState<C, A>,
    /// Listener kept alive across resume so that the public port stays
    /// bound throughout the grace window. `None` for HTTP tunnels.
    pub tcp_listener: Option<L>,
    /// Rate-limit state of the owner.
    pub rate: R,
    /// Whether every data stream starts with an inspection prelude.
    pub inspect: bool,
    /// Public address of the client, where the transport exposes one.
    pub client_ip: Option<IpAddr>,
}

impl<C, A, L, R> TunnelInfo<C, A, L, R> {
    /// The label of an HTTP tunnel.
    pub open spec fn http_label(self) -> Option<Seq<char>> {
        match self.kind {
            RegisteredKind::Http { label } => Some(label@),
            RegisteredKind::Tcp { .. } => None,
        }
    }

    /// The public port of a TCP tunnel.
    pub open spec fn tcp_port(self) -> Option<u16> {
        match self.kind {
            RegisteredKind::Http { .. } => None,
            RegisteredKind::Tcp { public_port } => Some(public_port),
        }
    }

    /// The task handle to fire when the tunnel stops serving.
    pub open spec fn abort_handle(self) -> Option<A> {
        match self.state {
            TunnelState::Live { abort, .. } => abort,
            TunnelState::Dangling { .. } => None,
        }
    }

    /// The tunnel with its lease running until `expires_at`.
    pub open spec fn dangling_until(self, expires_at: u128) -> Self {
        TunnelInfo { state: TunnelState::Dangling { expires_at }, ..self }
    }

    /// The tunnel served again by `connection`.
    pub open spec fn attached_to(self, connection: C) -> Self {
        TunnelInfo { state: TunnelState::Live { connection, abort: None }, ..self }
    }

    /// Whether the tunnel holds a lease of `session` that still runs at `now`.
    pub open spec fn leased_by(self, session: SessionId, now: u128) -> bool {
        &&& self.state matches TunnelState::Dangling { expires_at } && now < expires_at
        &&& self.session_id == session
    }

    /// Whether the lease of a dangling tunnel has run out at `now`.
    pub open spec fn expired(self, now: u128) -> bool {
        self.state matches TunnelState::Dangling { expires_at } && expires_at <= now
    }
}

impl<C, A, L, R> TunnelInfo<C, A, L, R> {
    pub(crate) fn is_http(&self) -> (r: bool)
        ensures
            r == (self.kind is Http),
    {
        match self.kind {
            RegisteredKind::Http { .. } => true,
            RegisteredKind::Tcp { .. } => false,
        }
    }

    pub(crate) fn from_ip(&self, ip: IpAddr) -> (r: bool)
        ensures
            r == (self.client_ip == Some(ip)),
    {
        match self.client_ip {
            Some(mine) => mine == ip,
            None => false,
        }
    }

    pub(crate) fn lease_over(&self, now: u128) -> (r: bool)
        ensures
            r == self.expired(now),
    {
        match self.state {
            TunnelState::Dangling { expires_at } => expires_at <= now,
            TunnelState::Live { .. } => false,
        }
    }

    pub(crate) fn holds_lease(&self, session_id: &SessionId, now: u128) -> (r: bool)
        ensures
            r == self.leased_by(*session_id, now),
    {
        match self.state {
            TunnelState::Dangling { expires_at } => now < expires_at && self.session_id.same(
                session_id,
            ),
            TunnelState::Live { .. } => false,
        }
    }
}

/// What [`TunnelRegistry::resolve_label`] returns of a live tunnel.
#[derive(Debug)]
pub struct ResolvedTunnel<C, R> {
    pub id: TunnelId,
    pub connection: C,
    pub rate: R,
    pub inspect: bool,
}

/// Read-only view of a tunnel.
#[derive(Debug)]
pub struct TunnelSnapshot {
    pub tunnel_id: TunnelId,
    pub owner: PubKey,
    pub session_id: SessionId,
    pub inspect: bool,
    pub kind: TunnelSnapshotKind,
    pub live: bool,
}

/// What the tunnel of a [`TunnelSnapshot`] publishes.
#[derive(Debug)]
pub enum TunnelSnapshotKind {
    Http { label: String },
    Tcp { public_port: u16 },
}

impl TunnelSnapshot {
    /// Whether this snapshot tells the public fields of `info`.
    pub open spec fn shows<C, A, L, R>(self, info: TunnelInfo<C, A, L, R>) -> bool {
        &&& self.tunnel_id == info.id
        &&& self.owner == info.owner
        &&& self.session_id == info.session_id
        &&& self.inspect == info.inspect
        &&& self.live == (info.state is Live)
        &&& match self.kind {
            TunnelSnapshotKind::Http { label } => info.http_label() == Some(label@),
            TunnelSnapshotKind::Tcp { public_port } => info.tcp_port() == Some(public_port),
        }
    }
}

/// Outcome of a resume lookup.
#[derive(Debug)]
pub enum ResumeOutcome<L> {
    /// Re-attached; the inspect flag is that of the original registration.
    Reattached { tunnel_id: TunnelId, info: ResumedInfo<L>, inspect: bool },
    /// No matching lease, or one that has run out.
    Unknown,
    /// The lease exists but belongs to another key.
    IdentityMismatch,
}

/// What the caller needs to finish a resume: for TCP, the parked listener on
/// which the tunnel's accept task has to be spawned again.
#[derive(Debug)]
pub enum ResumedInfo<L> {
    Http { label: String },
    Tcp { public_port: u16, listener: L },
}

/// The registry as mathematics: what is reserved and what is published.
#[verifier::ext_equal]
pub struct RegistryModel<C, A, L, R> {
    pub port_pool: PortRange,
    pub max_http_per_ip: usize,
    pub next_id: u64,
    pub used_ports: Set<u16>,
    pub used_labels: Set<Seq<char>>,
    pub tunnels: Map<u64, TunnelInfo<C, A, L, R>>,
    pub labels: Map<Seq<char>, u64>,
}

impl<C, A, L, R> RegistryModel<C, A, L, R> {
    /// The ids of the tunnels owned by `owner`.
    pub open spec fn owned_by(self, owner: PubKey) -> Set<u64> {
        self.tunnels.dom().filter(|id: u64| self.tunnels[id].owner == owner)
    }

    /// The ids of the HTTP tunnels registered from `ip`.
    pub open spec fn http_from(self, ip: IpAddr) -> Set<u64> {
        self.tunnels.dom().filter(
            |id: u64|
                self.tunnels[id].client_ip == Some(ip) && self.tunnels[id].kind is Http,
        )
    }

    /// The ids of the tunnels whose lease has run out at `now`.
    pub open spec fn expired(self, now: u128) -> Set<u64> {
        self.tunnels.dom().filter(|id: u64| self.tunnels[id].expired(now))
    }

    /// The ids of the TCP tunnels that hold a lease of `session` at `now`.
    pub open spec fn tcp_leases(self, session: SessionId, now: u128) -> Set<u64> {
        self.tunnels.dom().filter(
            |id: u64| self.tunnels[id].leased_by(session, now) && self.tunnels[id].kind is Tcp,
        )
    }

    /// Whether `port` may be handed out: in the pool, free, and allowed.
    pub open spec fn eligible(self, allowlist: Option<Seq<u16>>, port: u16) -> bool {
        eligible_port(self.port_pool, self.used_ports, allowlist, port)
    }

    /// Whether a client from `ip` may register one more HTTP tunnel.
    pub open spec fn admits_http_for_ip(self, ip: Option<IpAddr>) -> bool {
        ||| self.max_http_per_ip == usize::MAX
        ||| ip is None
        ||| self.http_from(ip->0).len() < self.max_http_per_ip
    }

    /// The id of the live tunnel published under `label`.
    pub open spec fn serves(self, label: Seq<char>) -> Option<u64> {
        if self.labels.contains_key(label) && self.tunnels.contains_key(self.labels[label])
            && self.tunnels[self.labels[label]].state is Live {
            Some(self.labels[label])
        } else {
            None
        }
    }

    /// The registry with `port` reserved.
    pub open spec fn with_port(self, port: u16) -> Self {
        RegistryModel { used_ports: self.used_ports.insert(port), ..self }
    }

    /// The registry with `label` reserved.
    pub open spec fn with_label(self, label: Seq<char>) -> Self {
        RegistryModel { used_labels: self.used_labels.insert(label), ..self }
    }

    /// The registry with `label` neither reserved nor routed.
    pub open spec fn without_reservation(self, label: Seq<char>) -> Self {
        RegistryModel {
            used_labels: self.used_labels.remove(label),
            labels: self.labels.remove(label),
            ..self
        }
    }

    /// The registry after one more id has been given out.
    pub open spec fn after_fresh_id(self) -> Self {
        RegistryModel {
            next_id: if self.next_id == u64::MAX {
                1
            } else {
                (self.next_id + 1) as u64
            },
            ..self
        }
    }

    /// The registry with `info` published under its id.
    pub open spec fn with_tunnel(self, info: TunnelInfo<C, A, L, R>) -> Self {
        RegistryModel {
            tunnels: self.tunnels.insert(info.id.0, info),
            labels: match info.http_label() {
                Some(label) => self.labels.insert(label, info.id.0),
                None => self.labels,
            },
            ..self
        }
    }

    /// The registry with tunnel `id` replaced by `info`, reservations untouched.
    pub open spec fn with_state_of(self, id: u64, info: TunnelInfo<C, A, L, R>) -> Self {
        RegistryModel { tunnels: self.tunnels.insert(id, info), ..self }
    }

    /// The registry with `abort` recorded in tunnel `id`, if that is live.
    pub open spec fn with_abort(self, id: u64, abort: A) -> Self {
        if self.tunnels.contains_key(id) {
            match self.tunnels[id].state {
                TunnelState::Live { connection, .. } => self.with_state_of(
                    id,
                    TunnelInfo {
                        state: TunnelState::Live { connection, abort: Some(abort) },
                        ..self.tunnels[id]
                    },
                ),
                TunnelState::Dangling { .. } => self,
            }
        } else {
            self
        }
    }

    /// How a resume of tunnel `id` ends: what becomes of the registry, and
    /// what the caller is told.
    pub open spec fn resumes(
        self,
        id: u64,
        session: SessionId,
        pubkey: PubKey,
        connection: C,
        now: u128,
        after: Self,
        outcome: ResumeOutcome<L>,
    ) -> bool where L: Clone {
        let info = self.tunnels[id];
        if !self.tunnels.contains_key(id) || !info.leased_by(session, now) {
            outcome is Unknown && after == self
        } else if info.owner != pubkey {
            outcome is IdentityMismatch && after == self
        } else {
            &&& after == self.with_state_of(id, info.attached_to(connection))
            &&& match info.kind {
                RegisteredKind::Http { label } => {
                    outcome matches ResumeOutcome::Reattached {
                        tunnel_id,
                        info: ResumedInfo::Http { label: l },
                        inspect,
                    } && tunnel_id.0 == id && l@ == label@ && inspect == info.inspect
                },
                RegisteredKind::Tcp { public_port } => match info.tcp_listener {
                    Some(listener) => {
                        outcome matches ResumeOutcome::Reattached {
                            tunnel_id,
                            info: ResumedInfo::Tcp { public_port: p, listener: l },
                            inspect,
                        } && tunnel_id.0 == id && p == public_port && cloned(listener, l)
                            && inspect == info.inspect
                    },
                    None => outcome is Unknown,
                },
            }
        }
    }

    /// How a resume request ends. A published `label` names the tunnel that is
    /// meant. Without one, a TCP tunnel leased by the session is meant: one of
    /// `pubkey` if there is any.
    pub open spec fn tries_resume(
        self,
        label: Seq<char>,
        session: SessionId,
        pubkey: PubKey,
        connection: C,
        now: u128,
        after: Self,
        outcome: ResumeOutcome<L>,
    ) -> bool where L: Clone {
        let leases = self.tcp_leases(session, now);
        let mine = leases.intersect(self.owned_by(pubkey));
        if self.labels.contains_key(label) {
            self.resumes(self.labels[label], session, pubkey, connection, now, after, outcome)
        } else if mine.len() > 0 {
            exists|id: u64|
                mine.contains(id) && #[trigger] self.resumes(
                    id,
                    session,
                    pubkey,
                    connection,
                    now,
                    after,
                    outcome,
                )
        } else if leases.len() > 0 {
            outcome is IdentityMismatch && after == self
        } else {
            outcome is Unknown && after == self
        }
    }

    /// The labels of the HTTP tunnels in `ids`.
    pub open spec fn labels_of(self, ids: Set<u64>) -> Set<Seq<char>> {
        Set::new(
            |label: Seq<char>|
                exists|id: u64| #[trigger]
                    ids.contains(id) && self.tunnels.contains_key(id)
                        && self.tunnels[id].http_label() == Some(label),
        )
    }

    /// The ports of the TCP tunnels in `ids`.
    pub open spec fn ports_of(self, ids: Set<u64>) -> Set<u16> {
        Set::new(
            |port: u16|
                exists|id: u64| #[trigger]
                    ids.contains(id) && self.tunnels.contains_key(id)
                        && self.tunnels[id].tcp_port() == Some(port),
        )
    }

    /// The registry without the tunnels in `ids`, their labels and ports free again.
    pub open spec fn without(self, ids: Set<u64>) -> Self {
        RegistryModel {
            tunnels: self.tunnels.remove_keys(ids),
            used_ports: self.used_ports.difference(self.ports_of(ids)),
            used_labels: self.used_labels.difference(self.labels_of(ids)),
            labels: self.labels.remove_keys(self.labels_of(ids)),
            ..self
        }
    }

    /// The registry with every live tunnel of `owner` dangling until `expires_at`.
    pub open spec fn dangled(self, owner: PubKey, expires_at: u128) -> Self {
        RegistryModel {
            tunnels: self.tunnels.map_entries(
                |id: u64, t: TunnelInfo<C, A, L, R>|
                    if t.owner == owner && t.state is Live {
                        t.dangling_until(expires_at)
                    } else {
                        t
                    },
            ),
            ..self
        }
    }

    /// Whether `handles` are exactly the task handles of the live tunnels in
    /// `ids`, one for each tunnel that has one.
    pub open spec fn handles_of(self, ids: Set<u64>, handles: Seq<(TunnelId, A)>) -> bool {
        &&& forall|i: int|
            0 <= i < handles.len() ==> {
                let id = (#[trigger] handles[i]).0.0;
                ids.contains(id) && self.tunnels.contains_key(id)
                    && self.tunnels[id].abort_handle() == Some(handles[i].1)
            }
        &&& forall|i: int, j: int|
            0 <= i < j < handles.len() ==> (#[trigger] handles[i]).0 != (#[trigger] handles[j]).0
        &&& forall|id: u64| #[trigger]
            ids.contains(id) && self.tunnels.contains_key(id)
                && self.tunnels[id].abort_handle() is Some ==> exists|i: int|
                0 <= i < handles.len() && (#[trigger] handles[i]).0.0 == id
    }
}

/// Whether `port` lies in `pool`, is not in `used`, and is allowed.
pub open spec fn eligible_port(
    pool: PortRange,
    used: Set<u16>,
    allowlist: Option<Seq<u16>>,
    port: u16,
) -> bool {
    &&& pool.has(port)
    &&& !used.contains(port)
    &&& allowlist matches Some(list) ==> list.contains(port)
}

/// The view of an optional allowlist.
pub open spec fn allowlist_view(allowlist: Option<&[u16]>) -> Option<Seq<u16>> {
    match allowlist {
        Some(list) => Some(list@),
        None => None,
    }
}

} // verus!
