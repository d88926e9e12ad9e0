//! What holds of a registry whatever happens to it.

use vstd::prelude::*;

use crate::proto::{IpAddr, PubKey, SessionId};
use crate::tunnel::{RegistryModel, ResumeOutcome, ResumedInfo, TunnelInfo};

verus! {

impl<C, A, L, R> RegistryModel<C, A, L, R> {
    /// Tunnels, routes and reservations agree with each other: every tunnel stands
    /// under its own id, which has been given out; routes and HTTP tunnels
    /// correspond one to one; what a tunnel publishes is reserved; no two tunnels
    /// share a port; only ports of the pool are reserved; and every TCP tunnel has
    /// its listener.
    pub open spec fn wf(self) -> bool {
        &&& self.tunnels.dom().finite()
        &&& forall|id: u64| #[trigger]
            self.tunnels.contains_key(id) ==> self.tunnels[id].id.0 == id && id < self.next_id
        &&& forall|label: Seq<char>| #[trigger]
            self.labels.contains_key(label) ==> self.tunnels.contains_key(self.labels[label])
                && self.tunnels[self.labels[label]].http_label() == Some(label)
        &&& forall|id: u64| #[trigger]
            self.tunnels.contains_key(id) ==> self.routed(id) && self.bound(id)
        &&& forall|id: u64, other: u64|
            #![trigger self.tunnels.contains_key(id), self.tunnels.contains_key(other)]
            self.tunnels.contains_key(id) && self.tunnels.contains_key(other) && id != other
                && self.tunnels[id].tcp_port() is Some ==> self.tunnels[id].tcp_port()
                != self.tunnels[other].tcp_port()
        &&& forall|port: u16| #[trigger]
            self.used_ports.contains(port) ==> self.port_pool.has(port)
    }

    /// If tunnel `id` is an HTTP tunnel, its label is reserved and leads to it.
    pub open spec fn routed(self, id: u64) -> bool {
        self.tunnels[id].http_label() matches Some(label) ==> self.used_labels.contains(label)
            && self.labels.contains_key(label) && self.labels[label] == id
    }

    /// If tunnel `id` is a TCP tunnel, its port is reserved and its listener is there.
    pub open spec fn bound(self, id: u64) -> bool {
        self.tunnels[id].tcp_port() matches Some(port) ==> self.used_ports.contains(port)
            && self.tunnels[id].tcp_listener is Some
    }

    /// Whether the reservations that `info` needs have been made and nothing else
    /// is published under them.
    pub open spec fn expects(self, info: TunnelInfo<C, A, L, R>) -> bool {
        &&& info.id.0 < self.next_id
        &&& !self.tunnels.contains_key(info.id.0)
        &&& match info.http_label() {
            Some(label) => self.used_labels.contains(label) && !self.labels.contains_key(label),
            None => true,
        }
        &&& match info.tcp_port() {
            Some(port) => {
                &&& self.used_ports.contains(port)
                &&& info.tcp_listener is Some
                &&& forall|id: u64| #[trigger]
                    self.tunnels.contains_key(id) ==> self.tunnels[id].tcp_port() != Some(port)
            },
            None => true,
        }
    }

    /// No address holds more HTTP tunnels than the cap allows.
    pub open spec fn within_address_cap(self) -> bool {
        self.max_http_per_ip == usize::MAX || forall|ip: IpAddr| #[trigger]
            self.http_from(ip).len() <= self.max_http_per_ip
    }
}

/// An empty registry is consistent.
pub proof fn empty_is_wf<C, A, L, R>(m: RegistryModel<C, A, L, R>)
    requires
        m.tunnels == Map::<u64, TunnelInfo<C, A, L, R>>::empty(),
        m.labels == Map::<Seq<char>, u64>::empty(),
        m.used_ports == Set::<u16>::empty(),
    ensures
        m.wf(),
        m.within_address_cap(),
{
    assert forall|ip: IpAddr| #[trigger] m.http_from(ip).len() <= m.max_http_per_ip by {
        assert(m.http_from(ip) =~= Set::<u64>::empty());
    }
}

/// Reserving a port of the pool, and giving out an id, keeps a registry consistent.
pub proof fn reserving_a_port_keeps_wf<C, A, L, R>(
    m: RegistryModel<C, A, L, R>,
    allowlist: Option<Seq<u16>>,
    port: u16,
)
    requires
        m.wf(),
        m.next_id < u64::MAX,
        m.eligible(allowlist, port),
    ensures
        m.with_port(port).after_fresh_id().wf(),
{
    let after = m.with_port(port).after_fresh_id();
    assert(after.tunnels == m.tunnels);
    assert forall|id: u64| #[trigger] after.tunnels.contains_key(id) implies after.routed(id)
        && after.bound(id) by {
        assert(m.routed(id) && m.bound(id));
    }
}

/// Reserving a label, and giving out an id, keeps a registry consistent.
pub proof fn reserving_a_label_keeps_wf<C, A, L, R>(
    m: RegistryModel<C, A, L, R>,
    label: Seq<char>,
)
    requires
        m.wf(),
        m.next_id < u64::MAX,
    ensures
        m.with_label(label).after_fresh_id().wf(),
{
    let after = m.with_label(label).after_fresh_id();
    assert forall|id: u64| #[trigger] after.tunnels.contains_key(id) implies after.routed(id)
        && after.bound(id) by {
        assert(m.routed(id) && m.bound(id));
    }
}

/// A label that no tunnel has can be reserved and given back without a trace but
/// for the id.
pub proof fn a_label_can_be_given_back<C, A, L, R>(m: RegistryModel<C, A, L, R>, label: Seq<char>)
    requires
        m.wf(),
        !m.used_labels.contains(label),
    ensures
        m.with_label(label).after_fresh_id().without_reservation(label) == m.after_fresh_id(),
{
    if m.labels.contains_key(label) {
        assert(m.routed(m.labels[label]));
    }
    let after = m.with_label(label).after_fresh_id().without_reservation(label);
    assert(after.used_labels =~= m.used_labels);
    assert(after.labels =~= m.labels);
}

/// Giving out an id keeps a registry consistent.
pub proof fn a_fresh_id_keeps_wf<C, A, L, R>(m: RegistryModel<C, A, L, R>)
    requires
        m.wf(),
        m.next_id < u64::MAX,
    ensures
        m.after_fresh_id().wf(),
{
    let after = m.after_fresh_id();
    assert forall|id: u64| #[trigger] after.tunnels.contains_key(id) implies after.routed(id)
        && after.bound(id) by {
        assert(m.routed(id) && m.bound(id));
    }
}

/// Publishing a tunnel under reservations made for it keeps a registry consistent.
pub proof fn publishing_keeps_wf<C, A, L, R>(
    m: RegistryModel<C, A, L, R>,
    info: TunnelInfo<C, A, L, R>,
)
    requires
        m.wf(),
        m.expects(info),
    ensures
        m.with_tunnel(info).wf(),
{
    let after = m.with_tunnel(info);
    let new = info.id.0;
    assert(after.tunnels.dom() =~= m.tunnels.dom().insert(new));
    assert forall|label: Seq<char>| #[trigger]
        after.labels.contains_key(label) implies after.tunnels.contains_key(after.labels[label])
        && after.tunnels[after.labels[label]].http_label() == Some(label) by {
        if info.http_label() != Some(label) {
            assert(m.labels.contains_key(label));
        }
    }
    assert forall|id: u64| #[trigger] after.tunnels.contains_key(id) implies after.routed(id)
        && after.bound(id) by {
        if id != new {
            assert(m.tunnels.contains_key(id));
            assert(m.routed(id) && m.bound(id));
        }
    }
    assert forall|id: u64, other: u64|
        #![trigger after.tunnels.contains_key(id), after.tunnels.contains_key(other)]
        after.tunnels.contains_key(id) && after.tunnels.contains_key(other) && id != other
            && after.tunnels[id].tcp_port() is Some implies after.tunnels[id].tcp_port()
        != after.tunnels[other].tcp_port() by {
        if id != new {
            assert(m.tunnels.contains_key(id));
        }
        if other != new {
            assert(m.tunnels.contains_key(other));
        }
    }
}

/// Removing tunnels keeps a registry consistent.
pub proof fn removing_keeps_wf<C, A, L, R>(m: RegistryModel<C, A, L, R>, ids: Set<u64>)
    requires
        m.wf(),
    ensures
        m.without(ids).wf(),
{
    let after = m.without(ids);
    assert(after.tunnels.dom() =~= m.tunnels.dom().difference(ids));
    assert forall|id: u64| #[trigger] after.tunnels.contains_key(id) implies after.tunnels[id]
        == m.tunnels[id] && m.tunnels.contains_key(id) && !ids.contains(id) by {}
    assert forall|label: Seq<char>| #[trigger]
        after.labels.contains_key(label) implies after.tunnels.contains_key(after.labels[label])
        && after.tunnels[after.labels[label]].http_label() == Some(label) by {
        assert(m.labels.contains_key(label));
        let id = m.labels[label];
        if ids.contains(id) {
            assert(m.labels_of(ids).contains(label));
        }
    }
    assert forall|id: u64| #[trigger] after.tunnels.contains_key(id) implies after.routed(id)
        && after.bound(id) by {
        assert(m.routed(id) && m.bound(id));
        if let Some(label) = m.tunnels[id].http_label() {
            if m.labels_of(ids).contains(label) {
                let k = choose|k: u64| #[trigger]
                    ids.contains(k) && m.tunnels.contains_key(k) && m.tunnels[k].http_label()
                        == Some(label);
                assert(m.routed(k));
            }
        }
        if let Some(port) = m.tunnels[id].tcp_port() {
            if m.ports_of(ids).contains(port) {
                let k = choose|k: u64| #[trigger]
                    ids.contains(k) && m.tunnels.contains_key(k) && m.tunnels[k].tcp_port()
                        == Some(port);
                assert(k == id);
            }
        }
    }
}

/// Whether two tunnels differ in their lease at most.
pub open spec fn same_but_for_state<C, A, L, R>(
    a: TunnelInfo<C, A, L, R>,
    b: TunnelInfo<C, A, L, R>,
) -> bool {
    a == (TunnelInfo { state: a.state, ..b })
}

/// Changing nothing but the leases of tunnels keeps a registry consistent and
/// counts of tunnels as they are.
pub proof fn changing_leases_keeps_wf<C, A, L, R>(
    m: RegistryModel<C, A, L, R>,
    after: RegistryModel<C, A, L, R>,
)
    requires
        m.wf(),
        after == (RegistryModel { tunnels: after.tunnels, ..m }),
        after.tunnels.dom() == m.tunnels.dom(),
        forall|id: u64| #[trigger]
            m.tunnels.contains_key(id) ==> same_but_for_state(after.tunnels[id], m.tunnels[id]),
    ensures
        after.wf(),
        forall|ip: IpAddr| #[trigger] after.http_from(ip) == m.http_from(ip),
        forall|owner: PubKey| #[trigger] after.owned_by(owner) == m.owned_by(owner),
{
    assert forall|id: u64| #[trigger] after.tunnels.contains_key(id) implies after.routed(id)
        && after.bound(id) && after.tunnels[id].id.0 == id && id < after.next_id by {
        assert(m.tunnels.contains_key(id));
        assert(m.routed(id) && m.bound(id));
    }
    assert forall|label: Seq<char>| #[trigger]
        after.labels.contains_key(label) implies after.tunnels.contains_key(after.labels[label])
        && after.tunnels[after.labels[label]].http_label() == Some(label) by {
        assert(m.labels.contains_key(label));
        assert(m.tunnels.contains_key(m.labels[label]));
    }
    assert forall|id: u64, other: u64|
        #![trigger after.tunnels.contains_key(id), after.tunnels.contains_key(other)]
        after.tunnels.contains_key(id) && after.tunnels.contains_key(other) && id != other
            && after.tunnels[id].tcp_port() is Some implies after.tunnels[id].tcp_port()
        != after.tunnels[other].tcp_port() by {
        assert(m.tunnels.contains_key(id) && m.tunnels.contains_key(other));
    }
    assert forall|ip: IpAddr| #[trigger] after.http_from(ip) == m.http_from(ip) by {
        assert forall|id: u64| #[trigger] after.http_from(ip).contains(id) == m.http_from(
            ip,
        ).contains(id) by {
            if m.tunnels.contains_key(id) {
                assert(same_but_for_state(after.tunnels[id], m.tunnels[id]));
            }
            assert(after.tunnels.contains_key(id) == m.tunnels.contains_key(id));
        }
        assert(after.http_from(ip) =~= m.http_from(ip));
    }
    assert forall|owner: PubKey| #[trigger] after.owned_by(owner) == m.owned_by(owner) by {
        assert forall|id: u64| #[trigger] after.owned_by(owner).contains(id) == m.owned_by(
            owner,
        ).contains(id) by {
            if m.tunnels.contains_key(id) {
                assert(same_but_for_state(after.tunnels[id], m.tunnels[id]));
            }
            assert(after.tunnels.contains_key(id) == m.tunnels.contains_key(id));
        }
        assert(after.owned_by(owner) =~= m.owned_by(owner));
    }
}

/// Putting the tunnels of a vanished client on a lease keeps a registry consistent.
pub proof fn dangling_keeps_wf<C, A, L, R>(
    m: RegistryModel<C, A, L, R>,
    owner: PubKey,
    expires_at: u128,
)
    requires
        m.wf(),
    ensures
        m.dangled(owner, expires_at).wf(),
        m.within_address_cap() ==> m.dangled(owner, expires_at).within_address_cap(),
{
    let after = m.dangled(owner, expires_at);
    assert(after.tunnels.dom() =~= m.tunnels.dom());
    changing_leases_keeps_wf(m, after);
}

/// Recording the handle of a listener task keeps a registry consistent.
pub proof fn recording_a_handle_keeps_wf<C, A, L, R>(
    m: RegistryModel<C, A, L, R>,
    id: u64,
    abort: A,
)
    requires
        m.wf(),
    ensures
        m.with_abort(id, abort).wf(),
        m.within_address_cap() ==> m.with_abort(id, abort).within_address_cap(),
{
    let after = m.with_abort(id, abort);
    assert(after.tunnels.dom() =~= m.tunnels.dom());
    changing_leases_keeps_wf(m, after);
}

/// A resume, successful or not, keeps a registry consistent.
pub proof fn resuming_keeps_wf<C, A, L: Clone, R>(
    m: RegistryModel<C, A, L, R>,
    label: Seq<char>,
    session: SessionId,
    pubkey: PubKey,
    connection: C,
    now: u128,
    after: RegistryModel<C, A, L, R>,
    outcome: ResumeOutcome<L>,
)
    requires
        m.wf(),
        m.tries_resume(label, session, pubkey, connection, now, after, outcome),
    ensures
        after.wf(),
        forall|ip: IpAddr| #[trigger] after.http_from(ip) == m.http_from(ip),
        forall|owner: PubKey| #[trigger] after.owned_by(owner) == m.owned_by(owner),
        after == (RegistryModel { tunnels: after.tunnels, ..m }),
{
    if after != m {
        let id = choose|id: u64|
            m.tunnels.contains_key(id) && #[trigger] m.resumes(
                id,
                session,
                pubkey,
                connection,
                now,
                after,
                outcome,
            );
        assert(after.tunnels.dom() =~= m.tunnels.dom());
    }
    changing_leases_keeps_wf(m, after);
}

/// A resume that succeeds gives back one of the caller's own tunnels, which was on
/// a running lease of the session named, and keeps everything about it but its
/// connection: id, label or port, listener, rate-limit state and inspect flag. No
/// other tunnel, route or reservation changes.
pub proof fn resume_keeps_the_tunnel<C, A, L: Clone, R>(
    m: RegistryModel<C, A, L, R>,
    label: Seq<char>,
    session: SessionId,
    pubkey: PubKey,
    connection: C,
    now: u128,
    after: RegistryModel<C, A, L, R>,
    tunnel_id: u64,
    outcome: ResumeOutcome<L>,
)
    requires
        m.tries_resume(label, session, pubkey, connection, now, after, outcome),
        outcome matches ResumeOutcome::Reattached { tunnel_id: t, .. } && t.0 == tunnel_id,
    ensures
        m.tunnels.contains_key(tunnel_id),
        m.tunnels[tunnel_id].owner == pubkey,
        m.tunnels[tunnel_id].leased_by(session, now),
        after == m.with_state_of(tunnel_id, m.tunnels[tunnel_id].attached_to(connection)),
        outcome matches ResumeOutcome::Reattached { info, inspect, .. } && inspect
            == m.tunnels[tunnel_id].inspect && match info {
            ResumedInfo::Http { label } => m.tunnels[tunnel_id].http_label() == Some(label@),
            ResumedInfo::Tcp { public_port, listener } => m.tunnels[tunnel_id].tcp_port() == Some(
                public_port,
            ) && cloned(m.tunnels[tunnel_id].tcp_listener->0, listener),
        },
{
}

/// A published label leads back to its tunnel: if the client of a live HTTP tunnel
/// vanishes, the same key naming the same session and label before the lease runs
/// out gets that tunnel back, and the label is served again.
pub proof fn http_tunnel_survives_a_drop<C, A, L: Clone, R>(
    m: RegistryModel<C, A, L, R>,
    id: u64,
    label: Seq<char>,
    expires_at: u128,
    connection: C,
    now: u128,
    after: RegistryModel<C, A, L, R>,
    outcome: ResumeOutcome<L>,
)
    requires
        m.wf(),
        m.tunnels.contains_key(id),
        m.tunnels[id].state is Live,
        m.tunnels[id].http_label() == Some(label),
        now < expires_at,
        m.dangled(m.tunnels[id].owner, expires_at).tries_resume(
            label,
            m.tunnels[id].session_id,
            m.tunnels[id].owner,
            connection,
            now,
            after,
            outcome,
        ),
    ensures
        outcome matches ResumeOutcome::Reattached {
            tunnel_id,
            info: ResumedInfo::Http { label: l },
            inspect,
        } && tunnel_id.0 == id && l@ == label && inspect == m.tunnels[id].inspect,
        after.serves(label) == Some(id),
        after.tunnels[id] == m.tunnels[id].attached_to(connection),
{
    let d = m.dangled(m.tunnels[id].owner, expires_at);
    assert(m.routed(id));
    assert(d.tunnels.contains_key(id));
    assert(d.tunnels[id] == m.tunnels[id].dangling_until(expires_at));
}

/// A TCP tunnel survives a drop too: while a lease of a session and key runs, a
/// resume that names the session and no published label gives the key one of its
/// TCP tunnels back, on the port that tunnel had.
pub proof fn tcp_tunnel_survives_a_drop<C, A, L: Clone, R>(
    m: RegistryModel<C, A, L, R>,
    id: u64,
    label: Seq<char>,
    expires_at: u128,
    connection: C,
    now: u128,
    after: RegistryModel<C, A, L, R>,
    outcome: ResumeOutcome<L>,
)
    requires
        m.wf(),
        m.tunnels.contains_key(id),
        m.tunnels[id].state is Live,
        m.tunnels[id].kind is Tcp,
        !m.labels.contains_key(label),
        now < expires_at,
        m.dangled(m.tunnels[id].owner, expires_at).tries_resume(
            label,
            m.tunnels[id].session_id,
            m.tunnels[id].owner,
            connection,
            now,
            after,
            outcome,
        ),
    ensures
        outcome matches ResumeOutcome::Reattached {
            tunnel_id,
            info: ResumedInfo::Tcp { public_port, listener },
            inspect,
        } && {
            let given = m.tunnels[tunnel_id.0];
            &&& m.tunnels.contains_key(tunnel_id.0)
            &&& given.owner == m.tunnels[id].owner
            &&& given.session_id == m.tunnels[id].session_id
            &&& given.tcp_port() == Some(public_port)
            &&& cloned(given.tcp_listener->0, listener)
            &&& inspect == given.inspect
            &&& after.tunnels[tunnel_id.0] == given.attached_to(connection)
        },
{
    let owner = m.tunnels[id].owner;
    let session = m.tunnels[id].session_id;
    let d = m.dangled(owner, expires_at);
    assert(d.tunnels.dom() =~= m.tunnels.dom());
    assert(d.tunnels[id] == m.tunnels[id].dangling_until(expires_at));
    let mine = d.tcp_leases(session, now).intersect(d.owned_by(owner));
    assert(mine.contains(id));
    assert(mine.len() > 0) by {
        assert(mine.subset_of(m.tunnels.dom()));
        vstd::set_lib::lemma_set_subset_finite(m.tunnels.dom(), mine);
        if mine.len() == 0 {
            mine.lemma_len0_is_empty();
        }
    }
    let given = choose|k: u64|
        mine.contains(k) && #[trigger] d.resumes(k, session, owner, connection, now, after, outcome);
    assert(m.tunnels.contains_key(given));
    assert(m.bound(given));
    assert(d.tunnels[given].attached_to(connection) == m.tunnels[given].attached_to(connection));
}

/// Once the tunnels of a key have been removed, no resume by that key succeeds.
pub proof fn removed_tunnels_are_not_resumed<C, A, L: Clone, R>(
    m: RegistryModel<C, A, L, R>,
    owner: PubKey,
    label: Seq<char>,
    session: SessionId,
    connection: C,
    now: u128,
    after: RegistryModel<C, A, L, R>,
    outcome: ResumeOutcome<L>,
)
    requires
        m.without(m.owned_by(owner)).tries_resume(
            label,
            session,
            owner,
            connection,
            now,
            after,
            outcome,
        ),
    ensures
        outcome !is Reattached,
        after == m.without(m.owned_by(owner)),
{
    let gone = m.without(m.owned_by(owner));
    assert forall|id: u64| #[trigger] gone.tunnels.contains_key(id) implies gone.tunnels[id].owner
        != owner by {
        assert(!m.owned_by(owner).contains(id));
    }
}

/// A dangling tunnel serves nothing, but its label stays reserved and counted.
pub proof fn a_dangling_label_is_kept<C, A, L, R>(
    m: RegistryModel<C, A, L, R>,
    id: u64,
    label: Seq<char>,
    expires_at: u128,
)
    requires
        m.wf(),
        m.tunnels.contains_key(id),
        m.tunnels[id].http_label() == Some(label),
    ensures
        m.dangled(m.tunnels[id].owner, expires_at).serves(label) is None,
        m.dangled(m.tunnels[id].owner, expires_at).used_labels.contains(label),
        m.dangled(m.tunnels[id].owner, expires_at).owned_by(m.tunnels[id].owner).contains(id),
{
    let d = m.dangled(m.tunnels[id].owner, expires_at);
    assert(m.routed(id));
    assert(d.tunnels.dom() =~= m.tunnels.dom());
}

/// A live HTTP tunnel is what its label resolves to, and the only one.
pub proof fn a_live_label_resolves<C, A, L, R>(
    m: RegistryModel<C, A, L, R>,
    id: u64,
    label: Seq<char>,
)
    requires
        m.wf(),
    ensures
        m.serves(label) == Some(id) <==> m.tunnels.contains_key(id) && m.tunnels[id].state is Live
            && m.tunnels[id].http_label() == Some(label),
{
    if m.tunnels.contains_key(id) {
        assert(m.routed(id));
    }
}

/// Removing a tunnel twice is removing it once.
pub proof fn removing_is_idempotent<C, A, L, R>(m: RegistryModel<C, A, L, R>, id: u64)
    ensures
        m.without(set![id]).without(set![id]) == m.without(set![id]),
{
    let once = m.without(set![id]);
    assert(!once.tunnels.contains_key(id));
    assert(once.without(set![id]).tunnels =~= once.tunnels);
    assert(once.without(set![id]).labels =~= once.labels);
    assert(once.without(set![id]).used_labels =~= once.used_labels);
    assert(once.without(set![id]).used_ports =~= once.used_ports);
}

/// Removing a tunnel frees what it published and leaves every other tunnel alone.
pub proof fn removing_frees_reservations<C, A, L, R>(m: RegistryModel<C, A, L, R>, id: u64)
    requires
        m.wf(),
        m.tunnels.contains_key(id),
    ensures
        m.without(set![id]).tunnels == m.tunnels.remove(id),
        m.tunnels[id].http_label() matches Some(label) ==> !m.without(
            set![id],
        ).used_labels.contains(label) && m.without(set![id]).serves(label) is None,
        m.tunnels[id].tcp_port() matches Some(port) ==> m.without(set![id]).eligible(None, port),
{
    let after = m.without(set![id]);
    assert(set![id].contains(id));
    assert(after.tunnels =~= m.tunnels.remove(id));
    if let Some(label) = m.tunnels[id].http_label() {
        assert(m.labels_of(set![id]).contains(label));
    }
    if let Some(port) = m.tunnels[id].tcp_port() {
        assert(m.ports_of(set![id]).contains(port));
        assert(m.bound(id));
    }
}

/// Reaping removes exactly the tunnels whose lease has run out: nothing expired is
/// left, and everything else stays as it was.
pub proof fn reaping_is_exact<C, A, L, R>(m: RegistryModel<C, A, L, R>, now: u128)
    ensures
        m.without(m.expired(now)).expired(now) == Set::<u64>::empty(),
        forall|id: u64| #[trigger]
            m.without(m.expired(now)).tunnels.contains_key(id) <==> m.tunnels.contains_key(id)
                && !m.tunnels[id].expired(now),
        forall|id: u64| #[trigger]
            m.without(m.expired(now)).tunnels.contains_key(id) ==> m.without(
                m.expired(now),
            ).tunnels[id] == m.tunnels[id],
{
    let after = m.without(m.expired(now));
    assert forall|id: u64| #[trigger] after.tunnels.contains_key(id) <==> m.tunnels.contains_key(id)
        && !m.tunnels[id].expired(now) by {
        assert(m.expired(now).contains(id) <==> m.tunnels.contains_key(id) && m.tunnels[id].expired(
            now,
        ));
    }
    assert(after.expired(now) =~= Set::<u64>::empty());
}

/// A lease that has run out is never resumed, reaped or not.
pub proof fn an_expired_lease_is_not_resumed<C, A, L: Clone, R>(
    m: RegistryModel<C, A, L, R>,
    label: Seq<char>,
    session: SessionId,
    pubkey: PubKey,
    connection: C,
    now: u128,
    after: RegistryModel<C, A, L, R>,
    id: u64,
    outcome: ResumeOutcome<L>,
)
    requires
        m.tunnels.contains_key(id),
        m.tunnels[id].expired(now),
        m.tries_resume(label, session, pubkey, connection, now, after, outcome),
    ensures
        outcome matches ResumeOutcome::Reattached { tunnel_id, .. } ==> tunnel_id.0 != id,
        after.tunnels[id] == m.tunnels[id],
{
}

/// A reserved port is not handed out again.
pub proof fn a_reserved_port_is_taken<C, A, L, R>(
    m: RegistryModel<C, A, L, R>,
    allowlist: Option<Seq<u16>>,
    port: u16,
)
    ensures
        !m.with_port(port).after_fresh_id().eligible(allowlist, port),
{
}

/// Removing tunnels keeps every address within the cap.
pub proof fn removing_keeps_the_caps<C, A, L, R>(m: RegistryModel<C, A, L, R>, ids: Set<u64>)
    requires
        m.wf(),
        m.within_address_cap(),
    ensures
        m.without(ids).within_address_cap(),
{
    let after = m.without(ids);
    assert forall|ip: IpAddr| m.max_http_per_ip != usize::MAX implies #[trigger] after.http_from(
        ip,
    ).len() <= after.max_http_per_ip by {
        assert(after.http_from(ip).subset_of(m.http_from(ip)));
        assert(m.http_from(ip).subset_of(m.tunnels.dom()));
        vstd::set_lib::lemma_set_subset_finite(m.tunnels.dom(), m.http_from(ip));
        vstd::set_lib::lemma_len_subset(after.http_from(ip), m.http_from(ip));
    }
}

/// Publishing an HTTP tunnel for an address that is admitted stays within the cap.
pub proof fn publishing_keeps_the_cap<C, A, L, R>(
    m: RegistryModel<C, A, L, R>,
    info: TunnelInfo<C, A, L, R>,
)
    requires
        m.wf(),
        m.within_address_cap(),
        info.kind is Http ==> m.admits_http_for_ip(info.client_ip),
        !m.tunnels.contains_key(info.id.0),
    ensures
        m.with_tunnel(info).within_address_cap(),
{
    let after = m.with_tunnel(info);
    assert forall|ip: IpAddr| m.max_http_per_ip != usize::MAX implies #[trigger] after.http_from(
        ip,
    ).len() <= after.max_http_per_ip by {
        let before = m.http_from(ip);
        assert(before.subset_of(m.tunnels.dom()));
        vstd::set_lib::lemma_set_subset_finite(m.tunnels.dom(), before);
        if info.kind is Http && info.client_ip == Some(ip) {
            assert(after.http_from(ip) =~= before.insert(info.id.0));
        } else {
            assert(after.http_from(ip) =~= before);
        }
    }
}

/// Removing tunnels takes no reservation from a tunnel that is still to be published.
pub proof fn removing_keeps_expectations<C, A, L, R>(
    m: RegistryModel<C, A, L, R>,
    ids: Set<u64>,
    info: TunnelInfo<C, A, L, R>,
)
    requires
        m.wf(),
        m.expects(info),
    ensures
        m.without(ids).expects(info),
{
    let after = m.without(ids);
    if let Some(label) = info.http_label() {
        if m.labels_of(ids).contains(label) {
            let k = choose|k: u64| #[trigger]
                ids.contains(k) && m.tunnels.contains_key(k) && m.tunnels[k].http_label() == Some(
                    label,
                );
            assert(m.routed(k));
        }
    }
    if let Some(port) = info.tcp_port() {
        if m.ports_of(ids).contains(port) {
            let k = choose|k: u64| #[trigger]
                ids.contains(k) && m.tunnels.contains_key(k) && m.tunnels[k].tcp_port() == Some(
                    port,
                );
            assert(m.tunnels[k].tcp_port() != Some(port));
        }
        assert forall|id: u64| #[trigger]
            after.tunnels.contains_key(id) implies after.tunnels[id].tcp_port() != Some(port) by {
            assert(m.tunnels.contains_key(id));
        }
    }
}

/// Changing nothing but the leases of tunnels takes no reservation from a tunnel that
/// is still to be published.
pub proof fn changing_leases_keeps_expectations<C, A, L, R>(
    m: RegistryModel<C, A, L, R>,
    after: RegistryModel<C, A, L, R>,
    info: TunnelInfo<C, A, L, R>,
)
    requires
        m.expects(info),
        after == (RegistryModel { tunnels: after.tunnels, ..m }),
        after.tunnels.dom() == m.tunnels.dom(),
        forall|id: u64| #[trigger]
            m.tunnels.contains_key(id) ==> same_but_for_state(after.tunnels[id], m.tunnels[id]),
    ensures
        after.expects(info),
{
    assert(after.tunnels.contains_key(info.id.0) == m.tunnels.contains_key(info.id.0));
    if let Some(port) = info.tcp_port() {
        assert forall|id: u64| #[trigger]
            after.tunnels.contains_key(id) implies after.tunnels[id].tcp_port() != Some(port) by {
            assert(m.tunnels.contains_key(id));
            assert(same_but_for_state(after.tunnels[id], m.tunnels[id]));
        }
    }
}

/// Publishing one tunnel takes no reservation from another that is still to be
/// published, if the two share neither id nor label nor port.
pub proof fn publishing_keeps_expectations<C, A, L, R>(
    m: RegistryModel<C, A, L, R>,
    other: TunnelInfo<C, A, L, R>,
    info: TunnelInfo<C, A, L, R>,
)
    requires
        m.expects(info),
        other.id != info.id,
        other.tcp_port() is None || other.tcp_port() != info.tcp_port(),
        other.http_label() is None || other.http_label() != info.http_label(),
    ensures
        m.with_tunnel(other).expects(info),
{
    let after = m.with_tunnel(other);
    if let Some(port) = info.tcp_port() {
        assert forall|id: u64| #[trigger]
            after.tunnels.contains_key(id) implies after.tunnels[id].tcp_port() != Some(port) by {
            if id != other.id.0 {
                assert(m.tunnels.contains_key(id));
            }
        }
    }
}

} // verus!
