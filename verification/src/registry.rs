//! The relay server's registry of live tunnels and of the dashboards that follow
//! them. Connections themselves stay with the caller: the registry holds, per
//! tunnel, what the events report, and per dashboard a handle chosen by the caller.
use vstd::prelude::*;
use vstd::multiset::Multiset;
use crate::protocol::{TunnelConnectedEvent, TunnelDisconnectedEvent, TunnelStats, StatsUpdateEvent};
use crate::text::{text_eq, copy_text, concat3};

verus! {

broadcast use vstd::seq_lib::group_to_multiset_ensures;

/// What the registry keeps of one connected tunnel client.
#[derive(Debug, Clone)]
pub struct ClientSession {
    pub subdomain: String,
    pub local_port: u16,
    pub bytes_transferred: u64,
}

/// The abstract state of one session: subdomain, local port and bytes transferred.
pub open spec fn session_state(s: ClientSession) -> (Seq<char>, u16, u64) {
    (s.subdomain@, s.local_port, s.bytes_transferred)
}

/// The public URL announced for a subdomain in dashboard events.
pub open spec fn placeholder_url(subdomain: Seq<char>) -> Seq<char> {
    "https://"@ + subdomain + ".placeholder"@
}

/// Registry of live tunnel clients, keyed by tunnel id, and of dashboard subscribers.
pub struct TunnelRegistry {
    clients: Vec<(String, ClientSession)>,
    subscribers: Vec<u64>,
}

impl TunnelRegistry {
    /// The tunnel ids, in storage order.
    pub closed spec fn ids(&self) -> Seq<Seq<char>> {
        self.clients@.map_values(|e: (String, ClientSession)| e.0@)
    }

    /// Well-formedness: no tunnel id is stored twice.
    pub closed spec fn wf(&self) -> bool {
        self.ids().no_duplicates()
    }

    /// The index at which the id `k` is stored.
    closed spec fn index_of_id(&self, k: Seq<char>) -> int {
        choose|i: int| 0 <= i < self.clients@.len() && self.clients@[i].0@ == k
    }

    /// The clients as a map from tunnel id to session state.
    pub closed spec fn clients_view(&self) -> Map<Seq<char>, (Seq<char>, u16, u64)> {
        Map::new(
            |k: Seq<char>| self.ids().contains(k),
            |k: Seq<char>| session_state(self.clients@[self.index_of_id(k)].1),
        )
    }

    /// The subscriber handles, in storage order.
    pub closed spec fn subscriber_seq(&self) -> Seq<u64> {
        self.subscribers@
    }

    /// The bytes counted for tunnel `k`, 0 when it is not registered.
    pub open spec fn bytes_of(&self, k: Seq<char>) -> int {
        if self.clients_view().dom().contains(k) {
            self.clients_view()[k].2 as int
        } else {
            0
        }
    }

    proof fn lemma_view_at(&self, i: int)
        requires
            self.wf(),
            0 <= i < self.clients@.len(),
        ensures
            self.clients_view().dom().contains(self.clients@[i].0@),
            self.clients_view()[self.clients@[i].0@] == session_state(self.clients@[i].1),
    {
        let k = self.clients@[i].0@;
        assert(self.ids()[i] == k);
        assert(self.ids().contains(k));
        let j = self.index_of_id(k);
        assert(0 <= j < self.clients@.len() && self.clients@[j].0@ == k);
        assert(self.ids()[j] == k);
    }

    proof fn lemma_view_dom(&self, k: Seq<char>)
        requires
            self.wf(),
        ensures
            self.clients_view().dom().contains(k) <==> exists|i: int| 0 <= i < self.clients@.len() && self.clients@[i].0@ == k,
    {
        if self.clients_view().dom().contains(k) {
            let i = choose|i: int| 0 <= i < self.ids().len() && self.ids()[i] == k;
            assert(self.clients@[i].0@ == k);
        }
        if exists|i: int| 0 <= i < self.clients@.len() && self.clients@[i].0@ == k {
            let i = choose|i: int| 0 <= i < self.clients@.len() && self.clients@[i].0@ == k;
            assert(self.ids()[i] == k);
        }
    }

    /// An empty registry.
    pub fn new() -> (r: Self)
        ensures
            r.wf(),
            r.clients_view() == Map::<Seq<char>, (Seq<char>, u16, u64)>::empty(),
            r.subscriber_seq() == Seq::<u64>::empty(),
    {
        let r = TunnelRegistry { clients: Vec::new(), subscribers: Vec::new() };
        assert(r.clients_view() =~= Map::<Seq<char>, (Seq<char>, u16, u64)>::empty());
        r
    }

    /// The index where tunnel `courier_id` is stored, if it is registered.
    fn find(&self, courier_id: &str) -> (r: Option<usize>)
        requires
            self.wf(),
        ensures
            match r {
                Some(i) => i < self.clients@.len() && self.clients@[i as int].0@ == courier_id@,
                None => !self.clients_view().dom().contains(courier_id@),
            },
    {
        let mut i: usize = 0;
        while i < self.clients.len()
            invariant
                self.wf(),
                i <= self.clients@.len(),
                forall|j: int| 0 <= j < i ==> self.clients@[j].0@ != courier_id@,
            decreases self.clients@.len() - i,
        {
            if text_eq(self.clients[i].0.as_str(), courier_id) {
                return Some(i);
            }
            i = i + 1;
        }
        proof {
            self.lemma_view_dom(courier_id@);
        }
        None
    }

    /// Number of registered tunnel clients.
    pub fn client_count(&self) -> (r: usize)
        requires
            self.wf(),
        ensures
            r == self.clients_view().dom().len(),
    {
        proof {
            assert(self.clients_view().dom() =~= self.ids().to_set());
            self.ids().unique_seq_to_set();
        }
        self.clients.len()
    }

    /// Whether tunnel `courier_id` is registered.
    pub fn contains_client(&self, courier_id: &str) -> (r: bool)
        requires
            self.wf(),
        ensures
            r == self.clients_view().dom().contains(courier_id@),
    {
        match self.find(courier_id) {
            Some(i) => {
                proof { self.lemma_view_at(i as int); }
                true
            },
            None => false,
        }
    }

    /// The byte counter of tunnel `courier_id`, if it is registered.
    pub fn bytes_transferred(&self, courier_id: &str) -> (r: Option<u64>)
        requires
            self.wf(),
        ensures
            match r {
                Some(b) => self.clients_view().dom().contains(courier_id@)
                    && b == self.clients_view()[courier_id@].2,
                None => !self.clients_view().dom().contains(courier_id@),
            },
    {
        match self.find(courier_id) {
            Some(i) => {
                proof { self.lemma_view_at(i as int); }
                Some(self.clients[i].1.bytes_transferred)
            },
            None => None,
        }
    }

    /// Removes tunnel `courier_id`; nothing happens when it is not registered.
    pub fn remove_client(&mut self, courier_id: &str)
        requires
            old(self).wf(),
        ensures
            final(self).wf(),
            final(self).clients_view() == old(self).clients_view().remove(courier_id@),
            final(self).subscriber_seq() == old(self).subscriber_seq(),
    {
        match self.find(courier_id) {
            None => {
                assert(old(self).clients_view().remove(courier_id@) =~= old(self).clients_view());
            },
            Some(i) => {
                let ghost pre = *self;
                self.clients.remove(i);
                proof {
                    assert(self.clients@ == pre.clients@.remove(i as int));
                    assert(self.ids() =~= pre.ids().remove(i as int));
                    assert forall|a: int, b: int| 0 <= a < b < self.ids().len() implies self.ids()[a] != self.ids()[b] by {
                        let a0 = if a < i { a } else { a + 1 };
                        let b0 = if b < i { b } else { b + 1 };
                        assert(self.ids()[a] == pre.ids()[a0]);
                        assert(self.ids()[b] == pre.ids()[b0]);
                    }
                    assert forall|k: Seq<char>| #![auto] self.clients_view().dom().contains(k) <==> pre.clients_view().remove(courier_id@).dom().contains(k) by {
                        self.lemma_view_dom(k);
                        pre.lemma_view_dom(k);
                        if pre.clients_view().remove(courier_id@).dom().contains(k) {
                            let j = choose|j: int| 0 <= j < pre.clients@.len() && pre.clients@[j].0@ == k;
                            assert(j != i);
                            let j2 = if j < i { j } else { j - 1 };
                            assert(self.clients@[j2] == pre.clients@[j]);
                        }
                        if self.clients_view().dom().contains(k) {
                            let j = choose|j: int| 0 <= j < self.clients@.len() && self.clients@[j].0@ == k;
                            let j0 = if j < i { j } else { j + 1 };
                            assert(self.clients@[j] == pre.clients@[j0]);
                            assert(pre.ids()[j0] == k);
                            assert(pre.ids()[i as int] == courier_id@);
                            assert(j0 != i);
                        }
                    }
                    assert forall|k: Seq<char>| #![auto] self.clients_view().dom().contains(k) implies self.clients_view()[k] == pre.clients_view()[k] by {
                        self.lemma_view_dom(k);
                        let j = choose|j: int| 0 <= j < self.clients@.len() && self.clients@[j].0@ == k;
                        let j0 = if j < i { j } else { j + 1 };
                        assert(self.clients@[j] == pre.clients@[j0]);
                        self.lemma_view_at(j);
                        pre.lemma_view_at(j0);
                    }
                    assert(self.clients_view() =~= pre.clients_view().remove(courier_id@));
                }
            },
        }
    }

    /// Registers a tunnel client under `courier_id`, replacing any session held
    /// under that id, and returns the event announcing it to dashboards.
    pub fn register_client(&mut self, courier_id: String, session: ClientSession) -> (ev: TunnelConnectedEvent)
        requires
            old(self).wf(),
        ensures
            final(self).wf(),
            final(self).clients_view() == old(self).clients_view().insert(courier_id@, session_state(session)),
            final(self).subscriber_seq() == old(self).subscriber_seq(),
            ev.courier_id@ == courier_id@,
            ev.subdomain@ == session.subdomain@,
            ev.public_url@ == placeholder_url(session.subdomain@),
            ev.local_port == session.local_port,
    {
        let ev = TunnelConnectedEvent {
            courier_id: copy_text(courier_id.as_str()),
            subdomain: copy_text(session.subdomain.as_str()),
            public_url: concat3("https://", session.subdomain.as_str(), ".placeholder"),
            local_port: session.local_port,
        };
        let ghost k = courier_id@;
        let ghost v = session_state(session);
        let ghost pre = *self;
        match self.find(courier_id.as_str()) {
            Some(i) => {
                self.clients.set(i, (courier_id, session));
                proof {
                    assert(self.ids() =~= pre.ids().update(i as int, k));
                    assert(pre.ids()[i as int] == k);
                    assert(self.ids() =~= pre.ids());
                    assert forall|q: Seq<char>| #![auto] self.clients_view().dom().contains(q) <==> pre.clients_view().insert(k, v).dom().contains(q) by {
                        self.lemma_view_dom(q);
                        pre.lemma_view_dom(q);
                        if pre.clients_view().dom().contains(q) {
                            let j = choose|j: int| 0 <= j < pre.clients@.len() && pre.clients@[j].0@ == q;
                            assert(self.ids()[j] == q);
                        }
                        if self.clients_view().dom().contains(q) {
                            let j = choose|j: int| 0 <= j < self.clients@.len() && self.clients@[j].0@ == q;
                            assert(pre.ids()[j] == q);
                        }
                    }
                    assert forall|q: Seq<char>| #![auto] self.clients_view().dom().contains(q) implies self.clients_view()[q] == pre.clients_view().insert(k, v)[q] by {
                        self.lemma_view_dom(q);
                        let j = choose|j: int| 0 <= j < self.clients@.len() && self.clients@[j].0@ == q;
                        self.lemma_view_at(j);
                        if j != i {
                            assert(self.clients@[j] == pre.clients@[j]);
                            pre.lemma_view_at(j);
                            assert(pre.ids()[j] != pre.ids()[i as int]);
                        }
                    }
                    assert(self.clients_view() =~= pre.clients_view().insert(k, v));
                }
            },
            None => {
                self.clients.push((courier_id, session));
                proof {
                    assert(self.ids() =~= pre.ids().push(k));
                    assert(!pre.ids().contains(k)) by {
                        if pre.ids().contains(k) {
                            let j = choose|j: int| 0 <= j < pre.ids().len() && pre.ids()[j] == k;
                            pre.lemma_view_at(j);
                        }
                    }
                    assert forall|a: int, b: int| 0 <= a < b < self.ids().len() implies self.ids()[a] != self.ids()[b] by {
                        if b == pre.ids().len() {
                            assert(pre.ids().contains(self.ids()[a]));
                        }
                    }
                    assert forall|q: Seq<char>| #![auto] self.clients_view().dom().contains(q) <==> pre.clients_view().insert(k, v).dom().contains(q) by {
                        self.lemma_view_dom(q);
                        pre.lemma_view_dom(q);
                        if pre.clients_view().dom().contains(q) {
                            let j = choose|j: int| 0 <= j < pre.clients@.len() && pre.clients@[j].0@ == q;
                            assert(self.clients@[j] == pre.clients@[j]);
                        }
                        if q == k {
                            assert(self.clients@[pre.clients@.len() as int].0@ == k);
                        }
                        if self.clients_view().dom().contains(q) && q != k {
                            let j = choose|j: int| 0 <= j < self.clients@.len() && self.clients@[j].0@ == q;
                            assert(j < pre.clients@.len());
                            assert(pre.clients@[j].0@ == q);
                        }
                    }
                    assert forall|q: Seq<char>| #![auto] self.clients_view().dom().contains(q) implies self.clients_view()[q] == pre.clients_view().insert(k, v)[q] by {
                        self.lemma_view_dom(q);
                        let j = choose|j: int| 0 <= j < self.clients@.len() && self.clients@[j].0@ == q;
                        self.lemma_view_at(j);
                        if j < pre.clients@.len() {
                            assert(self.clients@[j] == pre.clients@[j]);
                            pre.lemma_view_at(j);
                        }
                    }
                    assert(self.clients_view() =~= pre.clients_view().insert(k, v));
                }
            },
        }
        ev
    }

    /// Adds the length of a binary frame received on tunnel `courier_id` to its
    /// byte counter; frames of tunnels not registered are not counted.
    pub fn record_binary_frame(&mut self, courier_id: &str, len: u64)
        requires
            old(self).wf(),
            old(self).bytes_of(courier_id@) + len <= u64::MAX,
        ensures
            final(self).wf(),
            final(self).clients_view() == (if old(self).clients_view().dom().contains(courier_id@) {
                old(self).clients_view().insert(courier_id@, (
                    old(self).clients_view()[courier_id@].0,
                    old(self).clients_view()[courier_id@].1,
                    (old(self).clients_view()[courier_id@].2 + len) as u64,
                ))
            } else {
                old(self).clients_view()
            }),
            final(self).subscriber_seq() == old(self).subscriber_seq(),
    {
        match self.find(courier_id) {
            None => {},
            Some(i) => {
                let ghost pre = *self;
                proof { pre.lemma_view_at(i as int); }
                let id = copy_text(self.clients[i].0.as_str());
                let mut s = clone_session(&self.clients[i].1);
                s.bytes_transferred = s.bytes_transferred + len;
                let ghost k = id@;
                let ghost v = session_state(s);
                self.clients.set(i, (id, s));
                proof {
                    assert(self.ids() =~= pre.ids());
                    assert forall|q: Seq<char>| #![auto] self.clients_view().dom().contains(q) <==> pre.clients_view().dom().contains(q) by {
                        self.lemma_view_dom(q);
                        pre.lemma_view_dom(q);
                        if pre.clients_view().dom().contains(q) {
                            let j = choose|j: int| 0 <= j < pre.clients@.len() && pre.clients@[j].0@ == q;
                            assert(self.ids()[j] == q);
                        }
                        if self.clients_view().dom().contains(q) {
                            let j = choose|j: int| 0 <= j < self.clients@.len() && self.clients@[j].0@ == q;
                            assert(pre.ids()[j] == q);
                        }
                    }
                    assert forall|q: Seq<char>| #![auto] self.clients_view().dom().contains(q) implies self.clients_view()[q] == pre.clients_view().insert(k, v)[q] by {
                        self.lemma_view_dom(q);
                        let j = choose|j: int| 0 <= j < self.clients@.len() && self.clients@[j].0@ == q;
                        self.lemma_view_at(j);
                        if j != i {
                            assert(self.clients@[j] == pre.clients@[j]);
                            pre.lemma_view_at(j);
                            assert(pre.ids()[j] != pre.ids()[i as int]);
                        }
                    }
                    assert(self.clients_view() =~= pre.clients_view().insert(k, v));
                }
            },
        }
    }

    /// The events that announce every registered tunnel to a new dashboard,
    /// one per tunnel, in storage order.
    pub fn snapshot(&self) -> (r: Vec<TunnelConnectedEvent>)
        requires
            self.wf(),
        ensures
            r@.len() == self.clients_view().dom().len(),
            forall|i: int| #![auto] 0 <= i < r@.len() ==> {
                &&& self.clients_view().dom().contains(r@[i].courier_id@)
                &&& r@[i].subdomain@ == self.clients_view()[r@[i].courier_id@].0
                &&& r@[i].public_url@ == placeholder_url(r@[i].subdomain@)
                &&& r@[i].local_port == self.clients_view()[r@[i].courier_id@].1
            },
            forall|k: Seq<char>| #![auto] self.clients_view().dom().contains(k) ==> exists|i: int| 0 <= i < r@.len() && r@[i].courier_id@ == k,
            forall|i: int, j: int| 0 <= i < j < r@.len() ==> r@[i].courier_id@ != r@[j].courier_id@,
    {
        let mut out: Vec<TunnelConnectedEvent> = Vec::new();
        let mut i: usize = 0;
        while i < self.clients.len()
            invariant
                self.wf(),
                i <= self.clients@.len(),
                out@.len() == i,
                forall|j: int| #![auto] 0 <= j < i ==> {
                    &&& out@[j].courier_id@ == self.clients@[j].0@
                    &&& out@[j].subdomain@ == self.clients@[j].1.subdomain@
                    &&& out@[j].public_url@ == placeholder_url(out@[j].subdomain@)
                    &&& out@[j].local_port == self.clients@[j].1.local_port
                },
            decreases self.clients@.len() - i,
        {
            let e = &self.clients[i];
            out.push(TunnelConnectedEvent {
                courier_id: copy_text(e.0.as_str()),
                subdomain: copy_text(e.1.subdomain.as_str()),
                public_url: concat3("https://", e.1.subdomain.as_str(), ".placeholder"),
                local_port: e.1.local_port,
            });
            i = i + 1;
        }
        proof {
            assert(self.clients_view().dom() =~= self.ids().to_set());
            self.ids().unique_seq_to_set();
            assert forall|j: int| #![auto] 0 <= j < out@.len() implies {
                &&& self.clients_view().dom().contains(out@[j].courier_id@)
                &&& out@[j].subdomain@ == self.clients_view()[out@[j].courier_id@].0
                &&& out@[j].public_url@ == placeholder_url(out@[j].subdomain@)
                &&& out@[j].local_port == self.clients_view()[out@[j].courier_id@].1
            } by {
                self.lemma_view_at(j);
            }
            assert forall|k: Seq<char>| #![auto] self.clients_view().dom().contains(k) implies exists|j: int| 0 <= j < out@.len() && out@[j].courier_id@ == k by {
                self.lemma_view_dom(k);
                let j = choose|j: int| 0 <= j < self.clients@.len() && self.clients@[j].0@ == k;
                assert(out@[j].courier_id@ == k);
            }
            assert forall|a: int, b: int| 0 <= a < b < out@.len() implies out@[a].courier_id@ != out@[b].courier_id@ by {
                assert(self.ids()[a] == out@[a].courier_id@);
                assert(self.ids()[b] == out@[b].courier_id@);
            }
        }
        out
    }

    /// The traffic report of every registered tunnel, one entry per tunnel.
    pub fn stats(&self) -> (r: StatsUpdateEvent)
        requires
            self.wf(),
        ensures
            r.tunnels@.len() == self.clients_view().dom().len(),
            forall|i: int| #![auto] 0 <= i < r.tunnels@.len() ==> {
                &&& self.clients_view().dom().contains(r.tunnels@[i].courier_id@)
                &&& r.tunnels@[i].bytes_transferred == self.clients_view()[r.tunnels@[i].courier_id@].2
            },
            forall|k: Seq<char>| #![auto] self.clients_view().dom().contains(k) ==> exists|i: int| 0 <= i < r.tunnels@.len() && r.tunnels@[i].courier_id@ == k,
            forall|i: int, j: int| 0 <= i < j < r.tunnels@.len() ==> r.tunnels@[i].courier_id@ != r.tunnels@[j].courier_id@,
    {
        let mut out: Vec<TunnelStats> = Vec::new();
        let mut i: usize = 0;
        while i < self.clients.len()
            invariant
                self.wf(),
                i <= self.clients@.len(),
                out@.len() == i,
                forall|j: int| #![auto] 0 <= j < i ==> {
                    &&& out@[j].courier_id@ == self.clients@[j].0@
                    &&& out@[j].bytes_transferred == self.clients@[j].1.bytes_transferred
                },
            decreases self.clients@.len() - i,
        {
            let e = &self.clients[i];
            out.push(TunnelStats {
                courier_id: copy_text(e.0.as_str()),
                bytes_transferred: e.1.bytes_transferred,
            });
            i = i + 1;
        }
        proof {
            assert(self.clients_view().dom() =~= self.ids().to_set());
            self.ids().unique_seq_to_set();
            assert forall|j: int| #![auto] 0 <= j < out@.len() implies {
                &&& self.clients_view().dom().contains(out@[j].courier_id@)
                &&& out@[j].bytes_transferred == self.clients_view()[out@[j].courier_id@].2
            } by {
                self.lemma_view_at(j);
            }
            assert forall|k: Seq<char>| #![auto] self.clients_view().dom().contains(k) implies exists|j: int| 0 <= j < out@.len() && out@[j].courier_id@ == k by {
                self.lemma_view_dom(k);
                let j = choose|j: int| 0 <= j < self.clients@.len() && self.clients@[j].0@ == k;
                assert(out@[j].courier_id@ == k);
            }
            assert forall|a: int, b: int| 0 <= a < b < out@.len() implies out@[a].courier_id@ != out@[b].courier_id@ by {
                assert(self.ids()[a] == out@[a].courier_id@);
                assert(self.ids()[b] == out@[b].courier_id@);
            }
        }
        StatsUpdateEvent { tunnels: out }
    }

    /// The event announcing that tunnel `courier_id` went down.
    pub fn disconnected_event(courier_id: &str) -> (r: TunnelDisconnectedEvent)
        ensures
            r.courier_id@ == courier_id@,
    {
        TunnelDisconnectedEvent { courier_id: copy_text(courier_id) }
    }

    /// Adds a dashboard subscriber, identified by a handle of the caller's choice.
    pub fn add_subscriber(&mut self, handle: u64)
        requires
            old(self).wf(),
        ensures
            final(self).wf(),
            final(self).clients_view() == old(self).clients_view(),
            final(self).subscriber_seq() == old(self).subscriber_seq().push(handle),
    {
        self.subscribers.push(handle);
    }

    /// The handles of all subscribers, in the order broadcasts reach them.
    pub fn subscriber_handles(&self) -> (r: Vec<u64>)
        ensures
            r@ == self.subscriber_seq(),
    {
        let mut out: Vec<u64> = Vec::new();
        let mut i: usize = 0;
        while i < self.subscribers.len()
            invariant
                i <= self.subscribers@.len(),
                out@ =~= self.subscribers@.subrange(0, i as int),
            decreases self.subscribers@.len() - i,
        {
            out.push(self.subscribers[i]);
            i = i + 1;
        }
        out
    }

    /// Number of subscribers.
    pub fn subscriber_count(&self) -> (r: usize)
        ensures
            r == self.subscriber_seq().len(),
    {
        self.subscribers.len()
    }

    /// Drops the subscribers at the positions in `failed` (ascending, as a
    /// broadcast collects them), the last first, each by swapping the last
    /// subscriber into its place. Returns the handles dropped.
    pub fn remove_failed_subscribers(&mut self, failed: &Vec<usize>) -> (removed: Vec<u64>)
        requires
            old(self).wf(),
            forall|a: int, b: int| 0 <= a < b < failed@.len() ==> failed@[a] < failed@[b],
            forall|a: int| 0 <= a < failed@.len() ==> failed@[a] < old(self).subscriber_seq().len(),
        ensures
            final(self).wf(),
            final(self).clients_view() == old(self).clients_view(),
            final(self).subscriber_seq() == without_failed(old(self).subscriber_seq(), failed@),
            final(self).subscriber_seq().len() == old(self).subscriber_seq().len() - failed@.len(),
            removed@.to_multiset() == picked(old(self).subscriber_seq(), failed@).to_multiset(),
            final(self).subscriber_seq().to_multiset().add(removed@.to_multiset()) == old(self).subscriber_seq().to_multiset(),
    {
        let ghost orig = self.subscribers@;
        let mut removed: Vec<u64> = Vec::new();
        let mut t: usize = failed.len();
        proof {
            assert(failed@.subrange(0, failed@.len() as int) =~= failed@);
        }
        while t > 0
            invariant
                t <= failed@.len(),
                forall|a: int, b: int| 0 <= a < b < failed@.len() ==> failed@[a] < failed@[b],
                forall|a: int| 0 <= a < failed@.len() ==> failed@[a] < orig.len(),
                self.subscribers@.len() == orig.len() - (failed@.len() - t),
                t < failed@.len() ==> forall|p: int| 0 <= p < failed@[t as int] ==> self.subscribers@[p] == orig[p],
                t == failed@.len() ==> self.subscribers@ == orig,
                removed@.to_multiset() == picked(orig, failed@.subrange(t as int, failed@.len() as int)).to_multiset(),
                self.subscribers@.to_multiset().add(removed@.to_multiset()) == orig.to_multiset(),
                self.clients == old(self).clients,
                without_failed(self.subscribers@, failed@.subrange(0, t as int)) == without_failed(orig, failed@),
            decreases t,
        {
            let i = failed[t - 1];
            proof {
                if t < failed@.len() {
                    assert(failed@[t - 1] < failed@[t as int]);
                }
                assert(self.subscribers@.len() >= orig.len() - failed@.len() + t);
                lemma_increasing_bound(failed@, (t - 1) as int, orig.len() as int);
            }
            let ghost before = self.subscribers@;
            let h = self.subscribers.swap_remove(i);
            proof {
                assert(self.subscribers@ =~= swap_removed(before, i as int));
                assert(failed@.subrange(0, t as int).drop_last() =~= failed@.subrange(0, t - 1));
                assert(failed@.subrange(0, t as int).last() == i);
                assert(h == orig[i as int]);
                lemma_swap_remove_multiset(before, i as int);
                let tail_old = failed@.subrange(t as int, failed@.len() as int);
                let tail_new = failed@.subrange(t - 1, failed@.len() as int);
                assert(tail_new =~= seq![i].add(tail_old));
                assert(picked(orig, tail_new) =~= seq![orig[i as int]].add(picked(orig, tail_old)));
                vstd::seq_lib::lemma_multiset_commutative(seq![orig[i as int]], picked(orig, tail_old));
                assert(removed@.push(h).to_multiset() == removed@.to_multiset().insert(h));
                assert(seq![orig[i as int]].to_multiset() =~= Multiset::empty().insert(orig[i as int])) by {
                    assert(seq![orig[i as int]] =~= Seq::<u64>::empty().push(orig[i as int]));
                    assert(Seq::<u64>::empty().to_multiset() =~= Multiset::empty());
                }
            }
            removed.push(h);
            proof {
                assert(self.subscribers@.to_multiset().add(removed@.to_multiset()) =~= orig.to_multiset());
            }
            t = t - 1;
        }
        proof {
            assert(failed@.subrange(0, failed@.len() as int) =~= failed@);
            assert(failed@.subrange(0, 0) =~= Seq::<usize>::empty());
        }
        removed
    }
}

impl ClientSession {
    /// A session that has not transferred anything yet.
    pub fn new(subdomain: String, local_port: u16) -> (r: Self)
        ensures
            r.subdomain@ == subdomain@,
            r.local_port == local_port,
            r.bytes_transferred == 0,
    {
        ClientSession { subdomain, local_port, bytes_transferred: 0 }
    }
}

/// Copies a session.
fn clone_session(s: &ClientSession) -> (r: ClientSession)
    ensures
        session_state(r) == session_state(*s),
{
    ClientSession {
        subdomain: copy_text(s.subdomain.as_str()),
        local_port: s.local_port,
        bytes_transferred: s.bytes_transferred,
    }
}

/// `s` with its element at `i` replaced by its last one and the last one
/// dropped, as `Vec::swap_remove` leaves it.
pub open spec fn swap_removed(s: Seq<u64>, i: int) -> Seq<u64> {
    s.update(i, s.last()).drop_last()
}

/// `s` after the positions listed in `failed` are swap-removed one by one,
/// from the last listed to the first.
pub open spec fn without_failed(s: Seq<u64>, failed: Seq<usize>) -> Seq<u64>
    decreases failed.len(),
{
    if failed.len() == 0 {
        s
    } else {
        without_failed(swap_removed(s, failed.last() as int), failed.drop_last())
    }
}

/// The elements of `s` at the positions listed in `positions`, in that order.
pub open spec fn picked(s: Seq<u64>, positions: Seq<usize>) -> Seq<u64> {
    Seq::new(positions.len(), |j: int| s[positions[j] as int])
}

proof fn lemma_increasing_bound(f: Seq<usize>, j: int, n: int)
    requires
        0 <= j < f.len(),
        forall|a: int, b: int| 0 <= a < b < f.len() ==> f[a] < f[b],
        forall|a: int| 0 <= a < f.len() ==> f[a] < n,
    ensures
        f[j] + (f.len() - j) <= n,
    decreases f.len() - j,
{
    if j + 1 < f.len() {
        lemma_increasing_bound(f, j + 1, n);
    }
}

proof fn lemma_swap_remove_multiset(s: Seq<u64>, i: int)
    requires
        0 <= i < s.len(),
    ensures
        s.update(i, s.last()).drop_last().to_multiset().insert(s[i]) == s.to_multiset(),
{
    let u = s.update(i, s.last());
    vstd::seq_lib::to_multiset_update(s, i, s.last());
    assert(u.drop_last().push(u.last()) =~= u);
    vstd::seq_lib::to_multiset_build(u.drop_last(), u.last());
    assert(u.last() == s.last());
    broadcast use vstd::multiset::group_multiset_axioms;
    assert(s.to_multiset().count(s[i]) > 0) by {
        vstd::seq_lib::to_multiset_contains(s, s[i]);
        assert(s.contains(s[i]));
    }
    assert forall|x: u64| #![auto] u.drop_last().to_multiset().insert(s[i]).count(x) == s.to_multiset().count(x) by {
        assert(u.drop_last().to_multiset().insert(s.last()).count(x) == s.to_multiset().insert(s.last()).remove(s[i]).count(x));
    }
    assert(u.drop_last().to_multiset().insert(s[i]) =~= s.to_multiset());
}

} // verus!
