//! Tunnel registry: label-indexed HTTP tunnels and port-pool TCP tunnels.
//!
//! The registry also owns the lease of a tunnel whose client vanished
//! without a goodbye: the tunnel goes from [`TunnelState::Live`] to
//! [`TunnelState::Dangling`] for a bounded grace period, during which the
//! same session and key can re-attach it under the same id, label and port.
//!
//! Connections, task handles, listeners and rate-limit states are carried
//! as the type parameters `C`, `A`, `L` and `R`: the registry stores them and
//! hands them out, and never looks inside. Task handles that have to be fired
//! are returned to the caller. Instants are nanoseconds on one monotonic clock
//! that the caller reads.

use std::collections::{HashMap, HashSet};

use vstd::hash_map::StringHashMap;
use vstd::hash_set::StringHashSet;
use vstd::prelude::*;

use crate::ports::PortRange;
use crate::error::ServerError;
use crate::proto::{IpAddr, PubKey, SessionId, TunnelId};
use crate::seqs::{filter_distinct, filter_take_next, filter_take_none, lemma_push_to_set};
use crate::text::{chars_of, join2, str_eq};
use crate::tunnel::{allowlist_view, eligible_port};

pub use crate::tunnel::{
    RegisteredKind, RegistryModel, ResolvedTunnel, ResumeOutcome, ResumedInfo, TunnelInfo,
    TunnelSnapshot, TunnelSnapshotKind, TunnelState,
};

verus! {

broadcast use vstd::std_specs::hash::group_hash_axioms;

/// Taking one tunnel more out of a registry that has lost others already.
proof fn without_more<C, A, L, R>(m: RegistryModel<C, A, L, R>, ids: Set<u64>, id: u64)
    ensures
        m.without(ids).without(set![id]) == m.without(ids.insert(id)),
{
    let one = m.without(ids);
    let two = one.without(set![id]);
    let all = m.without(ids.insert(id));
    assert(set![id].contains(id));
    assert forall|l: Seq<char>| #[trigger] m.labels_of(ids.insert(id)).contains(l) <==> m.labels_of(
        ids,
    ).contains(l) || one.labels_of(set![id]).contains(l) by {
        if m.labels_of(ids).contains(l) {
            let k = choose|k: u64| #[trigger]
                ids.contains(k) && m.tunnels.contains_key(k) && m.tunnels[k].http_label() == Some(l);
            assert(ids.insert(id).contains(k));
        }
        if one.labels_of(set![id]).contains(l) {
            assert(ids.insert(id).contains(id));
        }
        if m.labels_of(ids.insert(id)).contains(l) {
            let k = choose|k: u64| #[trigger]
                ids.insert(id).contains(k) && m.tunnels.contains_key(k)
                    && m.tunnels[k].http_label() == Some(l);
            if !ids.contains(k) {
                assert(set![id].contains(k));
            }
        }
    }
    assert forall|p: u16| #[trigger] m.ports_of(ids.insert(id)).contains(p) <==> m.ports_of(
        ids,
    ).contains(p) || one.ports_of(set![id]).contains(p) by {
        if m.ports_of(ids).contains(p) {
            let k = choose|k: u64| #[trigger]
                ids.contains(k) && m.tunnels.contains_key(k) && m.tunnels[k].tcp_port() == Some(p);
            assert(ids.insert(id).contains(k));
        }
        if one.ports_of(set![id]).contains(p) {
            assert(ids.insert(id).contains(id));
        }
        if m.ports_of(ids.insert(id)).contains(p) {
            let k = choose|k: u64| #[trigger]
                ids.insert(id).contains(k) && m.tunnels.contains_key(k)
                    && m.tunnels[k].tcp_port() == Some(p);
            if !ids.contains(k) {
                assert(set![id].contains(k));
            }
        }
    }
    assert(two.tunnels =~= all.tunnels);
    assert(two.labels =~= all.labels);
    assert(two.used_labels =~= all.used_labels);
    assert(two.used_ports =~= all.used_ports);
}

/// Collecting the handle of one tunnel more.
proof fn handles_grow<C, A, L, R>(
    m: RegistryModel<C, A, L, R>,
    ids: Set<u64>,
    id: u64,
    seen: Seq<(TunnelId, A)>,
    now_seen: Seq<(TunnelId, A)>,
)
    requires
        m.handles_of(ids, seen),
        !ids.contains(id),
        m.tunnels.contains_key(id),
        now_seen == (match m.tunnels[id].abort_handle() {
            Some(a) => seen.push((TunnelId(id), a)),
            None => seen,
        }),
    ensures
        m.handles_of(ids.insert(id), now_seen),
{
    assert forall|k: u64| #[trigger]
        ids.insert(id).contains(k) && m.tunnels.contains_key(k)
            && m.tunnels[k].abort_handle() is Some implies exists|j: int|
        0 <= j < now_seen.len() && (#[trigger] now_seen[j]).0.0 == k by {
        if k != id {
            assert(ids.contains(k));
            let j = choose|j: int| 0 <= j < seen.len() && (#[trigger] seen[j]).0.0 == k;
            assert(now_seen[j].0.0 == k);
        } else {
            assert(now_seen[seen.len() as int].0.0 == k);
        }
    }
    assert forall|j: int| 0 <= j < now_seen.len() implies {
        let k = (#[trigger] now_seen[j]).0.0;
        ids.insert(id).contains(k) && m.tunnels.contains_key(k) && m.tunnels[k].abort_handle()
            == Some(now_seen[j].1)
    } by {
        if j < seen.len() {
            assert(now_seen[j] == seen[j]);
        }
    }
    assert forall|j: int, k: int| 0 <= j < k < now_seen.len() implies (#[trigger] now_seen[j]).0
        != (#[trigger] now_seen[k]).0 by {
        assert(now_seen[j] == seen[j]);
        assert(ids.contains(seen[j].0.0));
        if k < seen.len() {
            assert(now_seen[k] == seen[k]);
        }
    }
}

/// Table of all tunnels currently registered on the server.
pub struct TunnelRegistry<C, A, L, R> {
    port_pool: PortRange,
    /// Most HTTP tunnels per client address at once. `usize::MAX` means no cap.
    max_http_per_ip: usize,
    next_id: u64,
    used_ports: HashSet<u16>,
    used_labels: StringHashSet,
    tunnels: HashMap<u64, TunnelInfo<C, A, L, R>>,
    /// Reverse index for HTTP routing.
    labels: StringHashMap<u64>,
}

impl<C, A, L, R> View for TunnelRegistry<C, A, L, R> {
    type V = RegistryModel<C, A, L, R>;

    closed spec fn view(&self) -> RegistryModel<C, A, L, R> {
        RegistryModel {
            port_pool: self.port_pool,
            max_http_per_ip: self.max_http_per_ip,
            next_id: self.next_id,
            used_ports: self.used_ports@,
            used_labels: self.used_labels@,
            tunnels: self.tunnels@,
            labels: self.labels@,
        }
    }
}

impl<C, A, L, R> TunnelRegistry<C, A, L, R> {
    /// A registry holds finitely many tunnels.
    pub proof fn tunnels_are_finite(&self)
        ensures
            self@.tunnels.dom().finite(),
    {
    }

    /// An empty registry over `port_pool`, with no per-address cap.
    #[must_use]
    pub fn new(port_pool: PortRange) -> (r: Self)
        ensures
            r@ == (RegistryModel::<C, A, L, R> {
                port_pool,
                max_http_per_ip: usize::MAX,
                next_id: 1,
                used_ports: Set::empty(),
                used_labels: Set::empty(),
                tunnels: Map::empty(),
                labels: Map::empty(),
            }),
    {
        TunnelRegistry {
            port_pool,
            max_http_per_ip: usize::MAX,
            next_id: 1,
            used_ports: HashSet::new(),
            used_labels: StringHashSet::new(),
            tunnels: HashMap::new(),
            labels: StringHashMap::new(),
        }
    }

    /// Caps the number of HTTP tunnels that one client address may hold at
    /// once. A cap of zero counts as one.
    #[must_use]
    pub fn with_max_http_per_ip(self, max: usize) -> (r: Self)
        ensures
            r@ == (RegistryModel {
                max_http_per_ip: if max == 0 {
                    1
                } else {
                    max
                },
                ..self@
            }),
    {
        let mut this = self;
        this.max_http_per_ip = if max == 0 {
            1
        } else {
            max
        };
        this
    }

    /// The ids of all tunnels, in no particular order.
    fn all_ids(&self) -> (ids: Vec<u64>)
        ensures
            ids@.no_duplicates(),
            ids@.to_set() == self@.tunnels.dom(),
    {
        let mut ids: Vec<u64> = Vec::new();
        for id in it: self.tunnels.keys()
            invariant
                it.seq().no_duplicates(),
                it.seq().unref().to_set() == self@.tunnels.dom(),
                ids@ == it.seq().unref().take(it.index()),
                ids@.len() == it.seq().len() ==> ids@ == it.seq().unref(),
        {
            ids.push(*id);
        }
        ids
    }

    /// The ids of the tunnels owned by `owner`, in no particular order.
    fn ids_owned_by(&self, owner: &PubKey) -> (ids: Vec<u64>)
        ensures
            ids@.no_duplicates(),
            ids@.to_set() == self@.owned_by(*owner),
    {
        let all = self.all_ids();
        let ghost pred = |id: u64| self@.tunnels[id].owner == *owner;
        let mut ids: Vec<u64> = Vec::new();
        proof {
            filter_take_none(all@, pred);
        }
        for i in 0..all.len()
            invariant
                all@.to_set() == self@.tunnels.dom(),
                pred == |id: u64| self@.tunnels[id].owner == *owner,
                ids@ == all@.take(i as int).filter(pred),
        {
            let id = all[i];
            proof {
                assert(all@.to_set().contains(id));
                filter_take_next(all@, i as int, pred);
            }
            if let Some(info) = self.tunnels.get(&id) {
                if info.owner.same(owner) {
                    ids.push(id);
                }
            }
        }
        proof {
            assert(all@.take(all@.len() as int) =~= all@);
            filter_distinct(all@, pred);
        }
        ids
    }

    /// The ids of the HTTP tunnels registered from `ip`, in no particular order.
    fn http_ids_from(&self, ip: IpAddr) -> (ids: Vec<u64>)
        ensures
            ids@.no_duplicates(),
            ids@.to_set() == self@.http_from(ip),
    {
        let all = self.all_ids();
        let ghost pred = |id: u64| self@.tunnels[id].client_ip == Some(ip) && self@.tunnels[id].kind is Http;
        let mut ids: Vec<u64> = Vec::new();
        proof {
            filter_take_none(all@, pred);
        }
        for i in 0..all.len()
            invariant
                all@.to_set() == self@.tunnels.dom(),
                pred == |id: u64| self@.tunnels[id].client_ip == Some(ip) && self@.tunnels[id].kind is Http,
                ids@ == all@.take(i as int).filter(pred),
        {
            let id = all[i];
            proof {
                assert(all@.to_set().contains(id));
                filter_take_next(all@, i as int, pred);
            }
            if let Some(info) = self.tunnels.get(&id) {
                if info.from_ip(ip) && info.is_http() {
                    ids.push(id);
                }
            }
        }
        proof {
            assert(all@.take(all@.len() as int) =~= all@);
            filter_distinct(all@, pred);
        }
        ids
    }

    /// The ids of the tunnels whose lease has run out, in no particular order.
    fn expired_ids(&self, now: u128) -> (ids: Vec<u64>)
        ensures
            ids@.no_duplicates(),
            ids@.to_set() == self@.expired(now),
    {
        let all = self.all_ids();
        let ghost pred = |id: u64| self@.tunnels[id].expired(now);
        let mut ids: Vec<u64> = Vec::new();
        proof {
            filter_take_none(all@, pred);
        }
        for i in 0..all.len()
            invariant
                all@.to_set() == self@.tunnels.dom(),
                pred == |id: u64| self@.tunnels[id].expired(now),
                ids@ == all@.take(i as int).filter(pred),
        {
            let id = all[i];
            proof {
                assert(all@.to_set().contains(id));
                filter_take_next(all@, i as int, pred);
            }
            if let Some(info) = self.tunnels.get(&id) {
                if info.lease_over(now) {
                    ids.push(id);
                }
            }
        }
        proof {
            assert(all@.take(all@.len() as int) =~= all@);
            filter_distinct(all@, pred);
        }
        ids
    }

    /// The ids of the TCP tunnels that hold a lease of `session_id`, in no particular order.
    fn tcp_lease_ids(&self, session_id: SessionId, now: u128) -> (ids: Vec<u64>)
        ensures
            ids@.no_duplicates(),
            ids@.to_set() == self@.tcp_leases(session_id, now),
    {
        let all = self.all_ids();
        let ghost pred = |id: u64| self@.tunnels[id].leased_by(session_id, now) && self@.tunnels[id].kind is Tcp;
        let mut ids: Vec<u64> = Vec::new();
        proof {
            filter_take_none(all@, pred);
        }
        for i in 0..all.len()
            invariant
                all@.to_set() == self@.tunnels.dom(),
                pred == |id: u64| self@.tunnels[id].leased_by(session_id, now) && self@.tunnels[id].kind is Tcp,
                ids@ == all@.take(i as int).filter(pred),
        {
            let id = all[i];
            proof {
                assert(all@.to_set().contains(id));
                filter_take_next(all@, i as int, pred);
            }
            if let Some(info) = self.tunnels.get(&id) {
                if !info.is_http() && info.holds_lease(&session_id, now) {
                    ids.push(id);
                }
            }
        }
        proof {
            assert(all@.take(all@.len() as int) =~= all@);
            filter_distinct(all@, pred);
        }
        ids
    }

    /// Whether a client from `ip` may register one more HTTP tunnel. A client
    /// without a known address is not counted against anyone.
    #[must_use]
    pub fn admits_http_for_ip(&self, ip: Option<IpAddr>) -> (r: bool)
        ensures
            r == self@.admits_http_for_ip(ip),
    {
        if self.max_http_per_ip == usize::MAX {
            return true;
        }
        match ip {
            Some(ip) => {
                let ids = self.http_ids_from(ip);
                proof {
                    ids@.unique_seq_to_set();
                }
                ids.len() < self.max_http_per_ip
            },
            None => true,
        }
    }

    /// Releases a label reserved by [`Self::allocate_http`] without ever
    /// publishing the tunnel.
    pub fn abort_http(&mut self, _id: TunnelId, label: &str)
        ensures
            final(self)@ == old(self)@.without_reservation(label@),
    {
        self.used_labels.remove(label);
        self.labels.remove(label);
    }

    fn fresh_id(&mut self) -> (id: TunnelId)
        ensures
            id.0 == old(self)@.next_id,
            final(self)@ == old(self)@.after_fresh_id(),
    {
        let id = TunnelId(self.next_id);
        self.next_id = match self.next_id.checked_add(1) {
            Some(next) => next,
            None => 1,
        };
        id
    }

    /// Reserves the lowest free port for a new TCP tunnel. `allowlist`, when
    /// given, further narrows the pool: only ports that appear in it are
    /// eligible.
    pub fn allocate_tcp(&mut self, allowlist: Option<&[u16]>) -> (r: Result<
        (TunnelId, u16),
        ServerError,
    >)
        ensures
            match r {
                Ok((id, port)) => {
                    &&& old(self)@.eligible(allowlist_view(allowlist), port)
                    &&& forall|q: u16|
                        q < port ==> !#[trigger] old(self)@.eligible(allowlist_view(allowlist), q)
                    &&& id.0 == old(self)@.next_id
                    &&& final(self)@ == old(self)@.with_port(port).after_fresh_id()
                },
                Err(e) => {
                    &&& e is PortPoolExhausted
                    &&& forall|q: u16|
                        !#[trigger] old(self)@.eligible(allowlist_view(allowlist), q)
                    &&& final(self)@ == old(self)@
                },
            },
    {
        match pick_free_port(self.port_pool, &self.used_ports, allowlist) {
            Some(port) => {
                proof {
                    assert forall|q: u16| q < port implies !#[trigger] old(self)@.eligible(
                        allowlist_view(allowlist),
                        q,
                    ) by {
                        assert(!eligible_port(
                            self.port_pool,
                            self.used_ports@,
                            allowlist_view(allowlist),
                            q,
                        ));
                    }
                }
                self.used_ports.insert(port);
                let id = self.fresh_id();
                Ok((id, port))
            },
            None => {
                proof {
                    assert forall|q: u16| !#[trigger] old(self)@.eligible(
                        allowlist_view(allowlist),
                        q,
                    ) by {
                        assert(!eligible_port(
                            self.port_pool,
                            self.used_ports@,
                            allowlist_view(allowlist),
                            q,
                        ));
                    }
                }
                Err(ServerError::PortPoolExhausted)
            },
        }
    }

    /// Reserves a label for a new HTTP tunnel. Fails if the label is taken.
    pub fn allocate_http(&mut self, label: &str) -> (r: Result<TunnelId, ServerError>)
        ensures
            match r {
                Ok(id) => {
                    &&& !old(self)@.used_labels.contains(label@)
                    &&& id.0 == old(self)@.next_id
                    &&& final(self)@ == old(self)@.with_label(label@).after_fresh_id()
                },
                Err(e) => {
                    &&& old(self)@.used_labels.contains(label@)
                    &&& e.is_keys("label taken: "@ + label@)
                    &&& final(self)@ == old(self)@
                },
            },
    {
        if self.used_labels.contains(label) {
            return Err(ServerError::Keys(join2("label taken: ", label)));
        }
        self.used_labels.insert(String::from_str(label));
        Ok(self.fresh_id())
    }

    /// Publishes a fully initialised tunnel.
    pub fn insert(&mut self, info: TunnelInfo<C, A, L, R>)
        ensures
            final(self)@ == old(self)@.with_tunnel(info),
    {
        if let RegisteredKind::Http { label } = &info.kind {
            self.labels.insert(label.clone(), info.id.0);
        }
        self.tunnels.insert(info.id.0, info);
    }

    /// Looks up the tunnel that serves `label`. A dangling tunnel serves
    /// nothing: traffic in the grace window is not routed to a dead connection.
    pub fn resolve_label(&self, label: &str) -> (r: Option<ResolvedTunnel<C, R>>) where
        C: Clone,
        R: Clone,

        ensures
            r is Some <==> self@.serves(label@) is Some,
            r matches Some(t) ==> {
                let info = self@.tunnels[self@.serves(label@)->0];
                &&& t.id.0 == self@.serves(label@)->0
                &&& info.state matches TunnelState::Live { connection, .. } && cloned(
                    connection,
                    t.connection,
                )
                &&& cloned(info.rate, t.rate)
                &&& t.inspect == info.inspect
            },
    {
        let id: u64 = match self.labels.get(label) {
            Some(id) => *id,
            None => {
                return None;
            },
        };
        match self.tunnels.get(&id) {
            Some(info) => match &info.state {
                TunnelState::Live { connection, .. } => Some(
                    ResolvedTunnel {
                        id: TunnelId(id),
                        connection: connection.clone(),
                        rate: info.rate.clone(),
                        inspect: info.inspect,
                    },
                ),
                TunnelState::Dangling { .. } => None,
            },
            None => None,
        }
    }

    /// Takes tunnel `id` out and frees its port or label.
    fn remove_one(&mut self, id: u64) -> (r: Option<A>)
        ensures
            final(self)@ == old(self)@.without(set![id]),
            r == (if old(self)@.tunnels.contains_key(id) {
                old(self)@.tunnels[id].abort_handle()
            } else {
                None
            }),
    {
        let removed = self.tunnels.remove(&id);
        match removed {
            Some(info) => {
                match &info.kind {
                    RegisteredKind::Tcp { public_port } => {
                        self.used_ports.remove(public_port);
                    },
                    RegisteredKind::Http { label } => {
                        self.used_labels.remove(label.as_str());
                        self.labels.remove(label.as_str());
                    },
                }
                proof {
                    let m = old(self)@;
                    assert(set![id].contains(id));
                    assert(self@ =~= m.without(set![id]));
                }
                match info.state {
                    TunnelState::Live { abort, .. } => abort,
                    TunnelState::Dangling { .. } => None,
                }
            },
            None => {
                proof {
                    assert(self@ =~= old(self)@.without(set![id]));
                }
                None
            },
        }
    }

    /// Removes a tunnel by id and frees its port or label. Returns the handle
    /// of its listener task, which the caller fires. Idempotent.
    pub fn remove(&mut self, id: TunnelId) -> (r: Option<A>)
        ensures
            final(self)@ == old(self)@.without(set![id.0]),
            r == (if old(self)@.tunnels.contains_key(id.0) {
                old(self)@.tunnels[id.0].abort_handle()
            } else {
                None
            }),
    {
        self.remove_one(id.0)
    }

    /// Takes the tunnels `ids` out and frees their ports and labels.
    fn remove_ids(&mut self, ids: &Vec<u64>) -> (handles: Vec<(TunnelId, A)>)
        requires
            ids@.no_duplicates(),
        ensures
            final(self)@ == old(self)@.without(ids@.to_set()),
            old(self)@.handles_of(ids@.to_set(), handles@),
    {
        let ghost before = self@;
        let mut handles: Vec<(TunnelId, A)> = Vec::new();
        proof {
            assert(self@ =~= before.without(ids@.take(0).to_set()));
        }
        for i in 0..ids.len()
            invariant
                ids@.no_duplicates(),
                self@ == before.without(ids@.take(i as int).to_set()),
                before.handles_of(ids@.take(i as int).to_set(), handles@),
        {
            let id = ids[i];
            let ghost done = ids@.take(i as int).to_set();
            let ghost seen = handles@;
            proof {
                assert(ids@.take(i + 1) =~= ids@.take(i as int).push(id));
                assert(ids@.take(i + 1).to_set() =~= done.insert(id)) by {
                    lemma_push_to_set(ids@.take(i as int), id);
                }
                assert(!done.contains(id));
                without_more(before, done, id);
            }
            let handle = self.remove_one(id);
            if let Some(a) = handle {
                handles.push((TunnelId(id), a));
            }
            proof {
                if before.tunnels.contains_key(id) {
                    handles_grow(before, done, id, seen, handles@);
                } else {
                    assert(before.handles_of(done.insert(id), handles@));
                }
            }
        }
        proof {
            assert(ids@.take(ids@.len() as int) =~= ids@);
        }
        handles
    }

    /// Removes every tunnel owned by `owner` at once, so that none of them can
    /// be resumed. Returns the task handles that the caller fires.
    pub fn remove_all_owned_by(&mut self, owner: &PubKey) -> (handles: Vec<(TunnelId, A)>)
        ensures
            final(self)@ == old(self)@.without(old(self)@.owned_by(*owner)),
            old(self)@.handles_of(old(self)@.owned_by(*owner), handles@),
    {
        let ids = self.ids_owned_by(owner);
        self.remove_ids(&ids)
    }

    /// Drops every dangling tunnel whose lease has run out at `now`. Returns
    /// the number of tunnels removed.
    pub fn reap_expired(&mut self, now: u128) -> (n: usize)
        ensures
            n == old(self)@.expired(now).len(),
            final(self)@ == old(self)@.without(old(self)@.expired(now)),
    {
        let ids = self.expired_ids(now);
        proof {
            ids@.unique_seq_to_set();
        }
        self.remove_ids(&ids);
        ids.len()
    }

    /// Puts every live tunnel of `owner` on a lease of `grace` from `now`.
    /// Tunnels already dangling keep the lease they have. The listeners stay
    /// bound; the returned task handles are for the caller to fire.
    pub fn mark_dangling(&mut self, owner: &PubKey, grace: u128, now: u128) -> (handles: Vec<
        (TunnelId, A),
    >)
        requires
            now + grace <= u128::MAX,
        ensures
            final(self)@ == old(self)@.dangled(*owner, (now + grace) as u128),
            old(self)@.handles_of(old(self)@.owned_by(*owner), handles@),
    {
        let expires_at: u128 = now + grace;
        let ids = self.ids_owned_by(owner);
        let ghost before = self@;
        let mut handles: Vec<(TunnelId, A)> = Vec::new();
        for i in 0..ids.len()
            invariant
                ids@.no_duplicates(),
                ids@.to_set() == before.owned_by(*owner),
                self@ == (RegistryModel { tunnels: self@.tunnels, ..before }),
                self@.tunnels.dom() == before.tunnels.dom(),
                forall|k: u64| #[trigger]
                    before.tunnels.contains_key(k) ==> self@.tunnels[k] == (if ids@.take(
                        i as int,
                    ).contains(k) && before.tunnels[k].state is Live {
                        before.tunnels[k].dangling_until(expires_at)
                    } else {
                        before.tunnels[k]
                    }),
                before.handles_of(ids@.take(i as int).to_set(), handles@),
        {
            let id = ids[i];
            let ghost done = ids@.take(i as int).to_set();
            let ghost seen = handles@;
            let ghost mid = self@;
            proof {
                assert(ids@.take(i + 1) =~= ids@.take(i as int).push(id));
                lemma_push_to_set(ids@.take(i as int), id);
                assert(ids@.take(i + 1).to_set() =~= done.insert(id));
                assert(ids@.to_set().contains(id));
                assert(!ids@.take(i as int).contains(id));
                assert(before.tunnels.contains_key(id));
                assert(mid.tunnels[id] == before.tunnels[id]);
            }
            if let Some(info) = self.tunnels.remove(&id) {
                let TunnelInfo {
                    id: tid,
                    owner: o,
                    session_id,
                    kind,
                    state,
                    tcp_listener,
                    rate,
                    inspect,
                    client_ip,
                } = info;
                let (state, handle): (TunnelState<C, A>, Option<A>) = match state {
                    TunnelState::Live { abort, .. } => (
                        TunnelState::Dangling { expires_at },
                        abort,
                    ),
                    TunnelState::Dangling { expires_at } => (
                        TunnelState::Dangling { expires_at },
                        None,
                    ),
                };
                self.tunnels.insert(
                    id,
                    TunnelInfo {
                        id: tid,
                        owner: o,
                        session_id,
                        kind,
                        state,
                        tcp_listener,
                        rate,
                        inspect,
                        client_ip,
                    },
                );
                if let Some(a) = handle {
                    handles.push((TunnelId(id), a));
                }
                proof {
                    handles_grow(before, done, id, seen, handles@);
                    assert(self@.tunnels.dom() =~= before.tunnels.dom());
                    assert forall|k: u64| #[trigger]
                        before.tunnels.contains_key(k) implies self@.tunnels[k] == (if ids@.take(
                        i + 1,
                    ).contains(k) && before.tunnels[k].state is Live {
                        before.tunnels[k].dangling_until(expires_at)
                    } else {
                        before.tunnels[k]
                    }) by {
                        assert(ids@.take(i + 1).to_set().contains(k) <==> ids@.take(i + 1).contains(
                            k,
                        ));
                        assert(done.contains(k) <==> ids@.take(i as int).contains(k));
                    }
                }
            }
        }
        proof {
            assert(ids@.take(ids@.len() as int) =~= ids@);
            assert forall|k: u64| #[trigger]
                before.tunnels.contains_key(k) implies (ids@.contains(k)
                <==> before.tunnels[k].owner == *owner) by {
                assert(ids@.to_set().contains(k) <==> before.owned_by(*owner).contains(k));
            }
            assert(self@.tunnels =~= before.dangled(*owner, expires_at).tunnels);
        }
        handles
    }

    /// Hands tunnel `id` over to `connection`, provided that the tunnel holds a
    /// running lease of `session_id` and belongs to `pubkey`. A TCP tunnel that
    /// has no listener left is switched over but reported as unknown.
    pub fn reattach(
        &mut self,
        id: TunnelId,
        session_id: SessionId,
        pubkey: &PubKey,
        connection: C,
        now: u128,
    ) -> (r: ResumeOutcome<L>) where L: Clone
        ensures
            old(self)@.resumes(id.0, session_id, *pubkey, connection, now, final(self)@, r),
    {
        let key: u64 = id.0;
        match self.tunnels.get(&key) {
            Some(info) => {
                if !info.holds_lease(&session_id, now) {
                    return ResumeOutcome::Unknown;
                }
                if !info.owner.same(pubkey) {
                    return ResumeOutcome::IdentityMismatch;
                }
            },
            None => {
                return ResumeOutcome::Unknown;
            },
        }
        let ghost before = self@;
        match self.tunnels.remove(&key) {
            Some(found) => {
                let mut info = found;
                info.state = TunnelState::Live { connection, abort: None };
                let inspect = info.inspect;
                let resumed: Option<ResumedInfo<L>> = match &info.kind {
                    RegisteredKind::Http { label } => Some(
                        ResumedInfo::Http { label: label.clone() },
                    ),
                    RegisteredKind::Tcp { public_port } => match &info.tcp_listener {
                        Some(listener) => Some(
                            ResumedInfo::Tcp {
                                public_port: *public_port,
                                listener: listener.clone(),
                            },
                        ),
                        None => None,
                    },
                };
                self.tunnels.insert(key, info);
                proof {
                    assert(self@.tunnels =~= before.tunnels.insert(
                        key,
                        before.tunnels[key].attached_to(connection),
                    ));
                }
                match resumed {
                    Some(info) => ResumeOutcome::Reattached { tunnel_id: id, info, inspect },
                    None => ResumeOutcome::Unknown,
                }
            },
            None => ResumeOutcome::Unknown,
        }
    }

    /// Tries to resume a dangling tunnel on behalf of `pubkey`.
    ///
    /// A published `label` names the HTTP tunnel to resume. Otherwise the label
    /// carries no meaning and any TCP tunnel on a running lease of `session_id`
    /// and `pubkey` is resumed.
    pub fn try_resume(
        &mut self,
        label: &str,
        session_id: SessionId,
        pubkey: &PubKey,
        connection: C,
        now: u128,
    ) -> (r: ResumeOutcome<L>) where L: Clone
        ensures
            old(self)@.tries_resume(
                label@,
                session_id,
                *pubkey,
                connection,
                now,
                final(self)@,
                r,
            ),
    {
        if let Some(id) = self.labels.get(label) {
            let id = TunnelId(*id);
            return self.reattach(id, session_id, pubkey, connection, now);
        }
        let ghost m = self@;
        let ghost mine = m.tcp_leases(session_id, now).intersect(m.owned_by(*pubkey));
        let leases = self.tcp_lease_ids(session_id, now);
        proof {
            leases@.unique_seq_to_set();
        }
        for i in 0..leases.len()
            invariant
                self@ == m,
                m == old(self)@,
                !m.labels.contains_key(label@),
                leases@.to_set() == m.tcp_leases(session_id, now),
                mine == m.tcp_leases(session_id, now).intersect(m.owned_by(*pubkey)),
                forall|j: int|
                    0 <= j < i ==> m.tunnels[#[trigger] leases@[j]].owner != *pubkey,
        {
            let id: u64 = leases[i];
            proof {
                assert(leases@.to_set().contains(id));
            }
            let owned = match self.tunnels.get(&id) {
                Some(info) => info.owner.same(pubkey),
                None => false,
            };
            if owned {
                let r = self.reattach(TunnelId(id), session_id, pubkey, connection, now);
                proof {
                    assert(mine.contains(id));
                    assert(m.resumes(id, session_id, *pubkey, connection, now, self@, r));
                    assert(mine.finite());
                    assert(mine.len() > 0) by {
                        if mine.len() == 0 {
                            mine.lemma_len0_is_empty();
                        }
                    }
                    assert(m.tcp_leases(session_id, now).len() > 0) by {
                        if m.tcp_leases(session_id, now).len() == 0 {
                            m.tcp_leases(session_id, now).lemma_len0_is_empty();
                        }
                    }
                }
                return r;
            }
        }
        proof {
            assert(mine =~= Set::empty()) by {
                assert forall|id: u64| !mine.contains(id) by {
                    if mine.contains(id) {
                        assert(leases@.to_set().contains(id));
                        let j = leases@.index_of(id);
                        assert(leases@[j] == id);
                    }
                }
            }
        }
        if leases.len() > 0 {
            ResumeOutcome::IdentityMismatch
        } else {
            ResumeOutcome::Unknown
        }
    }

    /// Records the handle of a newly spawned listener task in a live tunnel.
    pub fn set_tcp_abort(&mut self, id: TunnelId, new_abort: A)
        ensures
            final(self)@ == old(self)@.with_abort(id.0, new_abort),
    {
        let key: u64 = id.0;
        let live = match self.tunnels.get(&key) {
            Some(info) => match info.state {
                TunnelState::Live { .. } => true,
                TunnelState::Dangling { .. } => false,
            },
            None => false,
        };
        if !live {
            return;
        }
        let ghost before = self@;
        if let Some(found) = self.tunnels.remove(&key) {
            let mut info = found;
            info.state = match info.state {
                TunnelState::Live { connection, .. } => TunnelState::Live {
                    connection,
                    abort: Some(new_abort),
                },
                TunnelState::Dangling { expires_at } => TunnelState::Dangling { expires_at },
            };
            self.tunnels.insert(key, info);
            proof {
                assert(self@.tunnels =~= before.with_abort(key, new_abort).tunnels);
            }
        }
    }

    /// The public fields of every tunnel, in no particular order.
    pub fn snapshot(&self) -> (out: Vec<TunnelSnapshot>)
        ensures
            exists|ids: Seq<u64>|
                {
                    &&& ids.no_duplicates()
                    &&& #[trigger] ids.to_set() == self@.tunnels.dom()
                    &&& out@.len() == ids.len()
                    &&& forall|i: int|
                        0 <= i < ids.len() ==> (#[trigger] out@[i]).shows(self@.tunnels[ids[i]])
                },
    {
        let ids = self.all_ids();
        let mut out: Vec<TunnelSnapshot> = Vec::new();
        for i in 0..ids.len()
            invariant
                ids@.to_set() == self@.tunnels.dom(),
                out@.len() == i,
                forall|j: int|
                    0 <= j < i ==> (#[trigger] out@[j]).shows(self@.tunnels[ids@[j]]),
        {
            let id: u64 = ids[i];
            proof {
                assert(ids@.to_set().contains(id));
            }
            if let Some(info) = self.tunnels.get(&id) {
                out.push(
                    TunnelSnapshot {
                        tunnel_id: info.id,
                        owner: info.owner,
                        session_id: info.session_id,
                        inspect: info.inspect,
                        kind: match &info.kind {
                            RegisteredKind::Http { label } => TunnelSnapshotKind::Http {
                                label: label.clone(),
                            },
                            RegisteredKind::Tcp { public_port } => TunnelSnapshotKind::Tcp {
                                public_port: *public_port,
                            },
                        },
                        live: match info.state {
                            TunnelState::Live { .. } => true,
                            TunnelState::Dangling { .. } => false,
                        },
                    },
                );
            }
        }
        out
    }

    /// Number of tunnels, live or dangling.
    pub fn len(&self) -> (n: usize)
        ensures
            n == self@.tunnels.len(),
    {
        self.tunnels.len()
    }

    /// Whether there is no tunnel.
    pub fn is_empty(&self) -> (r: bool)
        ensures
            r == (self@.tunnels.len() == 0),
    {
        self.len() == 0
    }

    /// Number of tunnels, live or dangling, owned by `owner`. Dangling tunnels
    /// count: they still hold a port or a label.
    pub fn count_owned_by(&self, owner: &PubKey) -> (n: usize)
        ensures
            n == self@.owned_by(*owner).len(),
    {
        let ids = self.ids_owned_by(owner);
        proof {
            ids@.unique_seq_to_set();
        }
        ids.len()
    }
}

/// The lowest port of `pool` that is not in `used` and that `allowlist`, when
/// given, names.
pub fn pick_free_port(pool: PortRange, used: &HashSet<u16>, allowlist: Option<&[u16]>) -> (r:
    Option<u16>)
    ensures
        match r {
            Some(port) => {
                &&& eligible_port(pool, used@, allowlist_view(allowlist), port)
                &&& forall|q: u16|
                    q < port ==> !#[trigger] eligible_port(
                        pool,
                        used@,
                        allowlist_view(allowlist),
                        q,
                    )
            },
            None => forall|q: u16|
                !#[trigger] eligible_port(pool, used@, allowlist_view(allowlist), q),
        },
{
    if pool.lo > pool.hi {
        return None;
    }
    let mut port: u16 = pool.lo;
    loop
        invariant
            pool.lo <= port <= pool.hi,
            forall|q: u16|
                q < port ==> !#[trigger] eligible_port(pool, used@, allowlist_view(allowlist), q),
        decreases pool.hi - port,
    {
        let allowed = match allowlist {
            Some(list) => slice_has(list, port),
            None => true,
        };
        if !used.contains(&port) && allowed {
            return Some(port);
        }
        if port == pool.hi {
            return None;
        }
        port = port + 1;
    }
}

/// A lower-case ASCII letter or a digit.
pub open spec fn is_label_alnum(c: char) -> bool {
    'a' <= c <= 'z' || '0' <= c <= '9'
}

/// One to 63 letters, digits and hyphens, a hyphen at neither end, and not the
/// reserved label `admin`.
pub open spec fn valid_label(label: Seq<char>) -> bool {
    &&& 1 <= label.len() <= 63
    &&& is_label_alnum(label[0])
    &&& is_label_alnum(label.last())
    &&& forall|i: int|
        0 <= i < label.len() ==> is_label_alnum(#[trigger] label[i]) || label[i] == '-'
    &&& label != "admin"@
}

fn label_alnum(c: char) -> (r: bool)
    ensures
        r == is_label_alnum(c),
{
    ('a' <= c && c <= 'z') || ('0' <= c && c <= '9')
}

/// Validates a tunnel label against the DNS label grammar
/// (`^[a-z0-9]([a-z0-9-]{0,61}[a-z0-9])?$`). Also rejects the reserved label
/// `admin`.
#[must_use]
pub fn is_valid_label(label: &str) -> (r: bool)
    ensures
        r == valid_label(label@),
{
    if str_eq(label, "admin") {
        return false;
    }
    let chars = chars_of(label);
    let len = chars.len();
    if len < 1 || len > 63 {
        return false;
    }
    if !label_alnum(chars[0]) || !label_alnum(chars[len - 1]) {
        return false;
    }
    for i in 0..len
        invariant
            len == chars@.len(),
            chars@ == label@,
            forall|j: int|
                0 <= j < i ==> is_label_alnum(#[trigger] label@[j]) || label@[j] == '-',
    {
        if !label_alnum(chars[i]) && chars[i] != '-' {
            assert(!is_label_alnum(label@[i as int]));
            return false;
        }
    }
    true
}

/// Whether `list` holds `port`.
pub fn slice_has(list: &[u16], port: u16) -> (r: bool)
    ensures
        r == list@.contains(port),
{
    for i in 0..list.len()
        invariant
            forall|j: int| 0 <= j < i ==> list@[j] != port,
    {
        if list[i] == port {
            return true;
        }
    }
    false
}

} // verus!
