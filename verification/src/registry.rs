//! Snapshot of who is on the marketplace network.
//!
//! Populated from capability announcements; queried at auction time.
//! Entries are evicted once they have not been refreshed within the
//! registry's time-to-live. Peers and their dialable addresses are held
//! in their textual forms.

use vstd::prelude::*;

use crate::clock::now_ms;
use crate::text::str_eq;
use crate::types::{copy_texts, texts, CapabilitiesView, NodeCapabilities};

verus! {

/// What the registry knows about one peer.
pub struct PeerEntry {
    pub capabilities: NodeCapabilities,
    pub multiaddrs: Vec<String>,
    pub last_seen_ms: u64,
}

/// The value of a registry entry.
pub struct PeerEntryView {
    pub capabilities: CapabilitiesView,
    pub multiaddrs: Seq<Seq<char>>,
    pub last_seen_ms: u64,
}

impl PeerEntry {
    pub open spec fn view(&self) -> PeerEntryView {
        PeerEntryView {
            capabilities: self.capabilities.view(),
            multiaddrs: texts(self.multiaddrs@),
            last_seen_ms: self.last_seen_ms,
        }
    }

    /// A copy of the entry.
    pub fn duplicate(&self) -> (r: PeerEntry)
        ensures
            r.view() == self.view(),
    {
        PeerEntry {
            capabilities: self.capabilities.duplicate(),
            multiaddrs: copy_texts(&self.multiaddrs),
            last_seen_ms: self.last_seen_ms,
        }
    }
}

/// `existing` extended by each address of `added` that is not yet in
/// it, in order.
pub open spec fn merge_addrs(existing: Seq<Seq<char>>, added: Seq<Seq<char>>) -> Seq<Seq<char>>
    decreases added.len(),
{
    if added.len() == 0 {
        existing
    } else {
        let m = merge_addrs(existing, added.drop_last());
        if m.contains(added.last()) { m } else { m.push(added.last()) }
    }
}

/// The entry an upsert leaves for a peer: capabilities replaced,
/// addresses merged, last-seen time refreshed; or a fresh entry.
pub open spec fn upserted_entry(
    prior: Option<PeerEntryView>,
    caps: CapabilitiesView,
    addrs: Seq<Seq<char>>,
    now_ms: u64,
) -> PeerEntryView {
    match prior {
        Some(e) => PeerEntryView {
            capabilities: caps,
            multiaddrs: merge_addrs(e.multiaddrs, addrs),
            last_seen_ms: now_ms,
        },
        None => PeerEntryView { capabilities: caps, multiaddrs: addrs, last_seen_ms: now_ms },
    }
}

/// The entry a map holds for `k`, if any.
pub open spec fn prior_entry(peers: Map<Seq<char>, PeerEntryView>, k: Seq<char>) -> Option<PeerEntryView> {
    if peers.contains_key(k) { Some(peers[k]) } else { None }
}

/// The registry contents after upserting `peer` at time `now_ms`.
pub open spec fn after_upsert(
    peers: Map<Seq<char>, PeerEntryView>,
    peer: Seq<char>,
    caps: CapabilitiesView,
    addrs: Seq<Seq<char>>,
    now_ms: u64,
) -> Map<Seq<char>, PeerEntryView> {
    peers.insert(peer, upserted_entry(prior_entry(peers, peer), caps, addrs, now_ms))
}

/// The registry contents once entries last seen before `cutoff` are gone.
pub open spec fn after_eviction(peers: Map<Seq<char>, PeerEntryView>, cutoff: u64) -> Map<Seq<char>, PeerEntryView> {
    Map::new(|k: Seq<char>| peers.contains_key(k) && peers[k].last_seen_ms >= cutoff, |k: Seq<char>| peers[k])
}

/// `now - ttl`, floored at zero.
pub open spec fn eviction_cutoff(now_ms: u64, ttl_ms: u64) -> u64 {
    if now_ms >= ttl_ms { (now_ms - ttl_ms) as u64 } else { 0 }
}

/// Registry of live peers with a time-to-live.
pub struct PeerRegistry {
    entries: Vec<(String, PeerEntry)>,
    ttl_ms: u64,
}

impl PeerRegistry {
    /// The entries, in the order peers were first seen.
    pub closed spec fn listing(&self) -> Seq<(Seq<char>, PeerEntryView)> {
        self.entries@.map_values(|e: (String, PeerEntry)| (e.0@, e.1.view()))
    }

    /// The registry's time-to-live in milliseconds.
    pub closed spec fn ttl(&self) -> u64 {
        self.ttl_ms
    }

    /// Each peer appears at most once.
    pub open spec fn wf(&self) -> bool {
        forall|i: int, j: int|
            0 <= i < self.listing().len() && 0 <= j < self.listing().len() && i != j
                ==> #[trigger] self.listing()[i].0 != #[trigger] self.listing()[j].0
    }

    /// Whether the registry holds `peer`.
    pub open spec fn has_peer(&self, peer: Seq<char>) -> bool {
        exists|i: int| 0 <= i < self.listing().len() && (#[trigger] self.listing()[i]).0 == peer
    }

    /// The registry as a map from peer to entry.
    pub open spec fn peers(&self) -> Map<Seq<char>, PeerEntryView> {
        Map::new(
            |k: Seq<char>| self.has_peer(k),
            |k: Seq<char>| self.listing()[choose|i: int| 0 <= i < self.listing().len() && (#[trigger] self.listing()[i]).0 == k].1,
        )
    }

    /// An empty registry whose entries live for `ttl_ms` milliseconds.
    pub fn new(ttl_ms: u64) -> (r: PeerRegistry)
        ensures
            r.wf(),
            r.peers() == Map::<Seq<char>, PeerEntryView>::empty(),
            r.listing().len() == 0,
            r.ttl() == ttl_ms,
    {
        let r = PeerRegistry { entries: Vec::new(), ttl_ms };
        proof {
            assert(r.peers() =~= Map::<Seq<char>, PeerEntryView>::empty());
        }
        r
    }

    proof fn lemma_listing_index(&self, i: int)
        requires
            0 <= i < self.entries@.len(),
        ensures
            self.listing()[i] == (self.entries@[i].0@, self.entries@[i].1.view()),
            self.listing().len() == self.entries@.len(),
    {
    }

    proof fn lemma_peer_at(&self, i: int)
        requires
            self.wf(),
            0 <= i < self.listing().len(),
        ensures
            self.peers().contains_key(self.listing()[i].0),
            self.peers()[self.listing()[i].0] == self.listing()[i].1,
    {
        let k = self.listing()[i].0;
        assert(self.has_peer(k));
        let j = choose|j: int| 0 <= j < self.listing().len() && (#[trigger] self.listing()[j]).0 == k;
        assert(self.listing()[j].0 == k);
    }

    /// Position of `peer` in the entries.
    fn find(&self, peer: &str) -> (r: Option<usize>)
        requires
            self.wf(),
        ensures
            r matches Some(i) ==> i < self.listing().len() && self.listing()[i as int].0 == peer@,
            r is None ==> !self.has_peer(peer@),
            r is None <==> !self.peers().contains_key(peer@),
    {
        let mut i: usize = 0;
        while i < self.entries.len()
            invariant
                i <= self.entries@.len(),
                self.listing().len() == self.entries@.len(),
                forall|j: int| 0 <= j < i ==> (#[trigger] self.listing()[j]).0 != peer@,
            decreases self.entries@.len() - i,
        {
            proof {
                self.lemma_listing_index(i as int);
            }
            if str_eq(self.entries[i].0.as_str(), peer) {
                return Some(i);
            }
            i = i + 1;
        }
        None
    }

    /// Insert or refresh a peer's capability snapshot at time `now_ms`:
    /// capabilities overwrite, addresses merge additively without
    /// repeating a known one, the last-seen time becomes `now_ms`.
    pub fn upsert_at(&mut self, peer: String, capabilities: NodeCapabilities, addrs: Vec<String>, now_ms: u64)
        requires
            old(self).wf(),
        ensures
            final(self).wf(),
            final(self).ttl() == old(self).ttl(),
            final(self).peers() == after_upsert(old(self).peers(), peer@, capabilities.view(), texts(addrs@), now_ms),
            final(self).peers().dom().len()
                == old(self).peers().dom().len() + (if old(self).peers().contains_key(peer@) { 0int } else { 1int }),
            forall|a: Seq<char>| texts(addrs@).contains(a) ==> #[trigger] final(self).peers()[peer@].multiaddrs.contains(a),
            !old(self).peers().contains_key(peer@) ==> final(self).peers()[peer@].multiaddrs == texts(addrs@),
    {
        proof {
            law_upsert_keeps_addresses(self.peers(), peer@, capabilities.view(), texts(addrs@), now_ms);
            self.lemma_peer_count();
            law_upsert_count(self.peers(), peer@, capabilities.view(), texts(addrs@), now_ms);
        }
        match self.find(peer.as_str()) {
            Some(idx) => {
                let ghost old_entry = self.listing()[idx as int].1;
                proof {
                    self.lemma_peer_at(idx as int);
                    self.lemma_listing_index(idx as int);
                }
                let mut merged = copy_texts(&self.entries[idx].1.multiaddrs);
                merge_into(&mut merged, &addrs);
                let entry = PeerEntry { capabilities, multiaddrs: merged, last_seen_ms: now_ms };
                let key = self.entries[idx].0.clone();
                let ghost before = *self;
                self.entries.set(idx, (key, entry));
                proof {
                    self.lemma_after_set(before, idx as int);
                }
            },
            None => {
                let ghost before = *self;
                self.entries.push((peer, PeerEntry { capabilities, multiaddrs: addrs, last_seen_ms: now_ms }));
                proof {
                    self.lemma_after_push(before);
                }
            },
        }
    }

    proof fn lemma_after_set(&self, before: PeerRegistry, idx: int)
        requires
            before.wf(),
            0 <= idx < before.entries@.len(),
            self.ttl_ms == before.ttl_ms,
            self.entries@.len() == before.entries@.len(),
            forall|j: int| 0 <= j < self.entries@.len() && j != idx ==> self.entries@[j] == before.entries@[j],
            self.entries@[idx].0@ == before.entries@[idx].0@,
        ensures
            self.wf(),
            self.peers() == before.peers().insert(self.entries@[idx].0@, self.entries@[idx].1.view()),
    {
        let k = self.entries@[idx].0@;
        assert forall|j: int| 0 <= j < self.listing().len() implies
            (#[trigger] self.listing()[j]).0 == before.listing()[j].0 by {
            self.lemma_listing_index(j);
            before.lemma_listing_index(j);
        }
        assert(self.wf());
        let target = before.peers().insert(k, self.entries@[idx].1.view());
        assert forall|key: Seq<char>| #[trigger] self.peers().contains_key(key) <==> target.contains_key(key) by {
            if self.has_peer(key) {
                let j = choose|j: int| 0 <= j < self.listing().len() && (#[trigger] self.listing()[j]).0 == key;
                assert(before.listing()[j].0 == key);
            }
            if before.has_peer(key) {
                let j = choose|j: int| 0 <= j < before.listing().len() && (#[trigger] before.listing()[j]).0 == key;
                assert(self.listing()[j].0 == key);
            }
            if key == k {
                self.lemma_listing_index(idx);
                assert(self.listing()[idx].0 == key);
            }
        }
        assert forall|key: Seq<char>| #[trigger] self.peers().contains_key(key) implies self.peers()[key] == target[key] by {
            let j = choose|j: int| 0 <= j < self.listing().len() && (#[trigger] self.listing()[j]).0 == key;
            self.lemma_peer_at(j);
            self.lemma_listing_index(j);
            if j == idx {
                self.lemma_listing_index(idx);
            } else {
                before.lemma_listing_index(j);
                before.lemma_peer_at(j);
                self.lemma_listing_index(idx);
                before.lemma_listing_index(idx);
            }
        }
        assert(self.peers() =~= target);
    }

    proof fn lemma_after_push(&self, before: PeerRegistry)
        requires
            before.wf(),
            self.ttl_ms == before.ttl_ms,
            self.entries@.len() == before.entries@.len() + 1,
            forall|j: int| 0 <= j < before.entries@.len() ==> self.entries@[j] == before.entries@[j],
            !before.has_peer(self.entries@.last().0@),
        ensures
            self.wf(),
            self.peers() == before.peers().insert(self.entries@.last().0@, self.entries@.last().1.view()),
    {
        let n = before.entries@.len() as int;
        let k = self.entries@[n].0@;
        assert forall|j: int| 0 <= j < n implies (#[trigger] self.listing()[j]) == before.listing()[j] by {
            self.lemma_listing_index(j);
            before.lemma_listing_index(j);
        }
        self.lemma_listing_index(n);
        assert forall|i: int, j: int|
            0 <= i < self.listing().len() && 0 <= j < self.listing().len() && i != j
                implies #[trigger] self.listing()[i].0 != #[trigger] self.listing()[j].0 by {
            if i == n {
                assert(before.listing()[j].0 != k);
            } else if j == n {
                assert(before.listing()[i].0 != k);
            }
        }
        let target = before.peers().insert(k, self.entries@[n].1.view());
        assert forall|key: Seq<char>| #[trigger] self.peers().contains_key(key) <==> target.contains_key(key) by {
            if self.has_peer(key) {
                let j = choose|j: int| 0 <= j < self.listing().len() && (#[trigger] self.listing()[j]).0 == key;
                if j < n {
                    assert(before.listing()[j].0 == key);
                }
            }
            if before.has_peer(key) {
                let j = choose|j: int| 0 <= j < before.listing().len() && (#[trigger] before.listing()[j]).0 == key;
                assert(self.listing()[j].0 == key);
            }
            if key == k {
                assert(self.listing()[n].0 == key);
            }
        }
        assert forall|key: Seq<char>| #[trigger] self.peers().contains_key(key) implies self.peers()[key] == target[key] by {
            let j = choose|j: int| 0 <= j < self.listing().len() && (#[trigger] self.listing()[j]).0 == key;
            self.lemma_peer_at(j);
            if j < n {
                before.lemma_peer_at(j);
            }
        }
        assert(self.peers() =~= target);
    }
}

impl PeerRegistry {
    /// Insert or refresh a peer's capability snapshot, stamped with the
    /// current time.
    pub fn upsert(&mut self, peer: String, capabilities: NodeCapabilities, addrs: Vec<String>)
        requires
            old(self).wf(),
        ensures
            final(self).wf(),
            final(self).ttl() == old(self).ttl(),
            exists|t: u64| final(self).peers() == #[trigger] after_upsert(old(self).peers(), peer@, capabilities.view(), texts(addrs@), t),
    {
        let now = now_ms();
        self.upsert_at(peer, capabilities, addrs, now);
    }

    /// Record additional dialable addresses for a known peer, leaving its
    /// capabilities and last-seen time alone. Unknown peers are ignored.
    pub fn observe_addrs(&mut self, peer: &str, addrs: Vec<String>)
        requires
            old(self).wf(),
        ensures
            final(self).wf(),
            final(self).ttl() == old(self).ttl(),
            final(self).peers() == (if old(self).peers().contains_key(peer@) {
                old(self).peers().insert(
                    peer@,
                    PeerEntryView {
                        multiaddrs: merge_addrs(old(self).peers()[peer@].multiaddrs, texts(addrs@)),
                        ..old(self).peers()[peer@]
                    },
                )
            } else {
                old(self).peers()
            }),
    {
        match self.find(peer) {
            Some(idx) => {
                proof {
                    self.lemma_peer_at(idx as int);
                    self.lemma_listing_index(idx as int);
                }
                let mut merged = copy_texts(&self.entries[idx].1.multiaddrs);
                merge_into(&mut merged, &addrs);
                let entry = PeerEntry {
                    capabilities: self.entries[idx].1.capabilities.duplicate(),
                    multiaddrs: merged,
                    last_seen_ms: self.entries[idx].1.last_seen_ms,
                };
                let key = self.entries[idx].0.clone();
                let ghost before = *self;
                self.entries.set(idx, (key, entry));
                proof {
                    self.lemma_after_set(before, idx as int);
                }
            },
            None => {},
        }
    }

    /// The entry for `peer`, if the registry holds it.
    pub fn get(&self, peer: &str) -> (r: Option<PeerEntry>)
        requires
            self.wf(),
        ensures
            r is Some <==> self.peers().contains_key(peer@),
            r matches Some(e) ==> e.view() == self.peers()[peer@],
    {
        match self.find(peer) {
            Some(idx) => {
                proof {
                    self.lemma_peer_at(idx as int);
                    self.lemma_listing_index(idx as int);
                }
                Some(self.entries[idx].1.duplicate())
            },
            None => None,
        }
    }

    /// The peer ids of the entries, in order.
    pub open spec fn peer_ids(&self) -> Seq<Seq<char>> {
        self.listing().map_values(|e: (Seq<char>, PeerEntryView)| e.0)
    }

    /// A well-formed registry holds as many peers as entries.
    pub proof fn lemma_peer_count(&self)
        requires
            self.wf(),
        ensures
            self.peers().dom().finite(),
            self.peers().dom().len() == self.listing().len(),
    {
        let ids = self.peer_ids();
        assert(ids.no_duplicates()) by {
            assert forall|i: int, j: int| 0 <= i < ids.len() && 0 <= j < ids.len() && i != j implies ids[i] != ids[j] by {
                assert(ids[i] == self.listing()[i].0);
                assert(ids[j] == self.listing()[j].0);
            }
        }
        assert(self.peers().dom() =~= ids.to_set()) by {
            assert forall|k: Seq<char>| self.peers().dom().contains(k) <==> ids.to_set().contains(k) by {
                if self.has_peer(k) {
                    let i = choose|i: int| 0 <= i < self.listing().len() && (#[trigger] self.listing()[i]).0 == k;
                    assert(ids[i] == k);
                }
                if ids.contains(k) {
                    let i = choose|i: int| 0 <= i < ids.len() && ids[i] == k;
                    assert(self.listing()[i].0 == k);
                }
            }
        }
        ids.unique_seq_to_set();
        vstd::seq_lib::seq_to_set_is_finite(ids);
    }

    /// Every `(peer, entry)` pair, in the order peers were first seen.
    pub fn snapshot(&self) -> (r: Vec<(String, PeerEntry)>)
        requires
            self.wf(),
        ensures
            r@.len() == self.listing().len(),
            r@.len() == self.peers().dom().len(),
            forall|i: int| 0 <= i < r@.len() ==> (#[trigger] r@[i]).0@ == self.listing()[i].0
                && r@[i].1.view() == self.listing()[i].1,
    {
        proof {
            self.lemma_peer_count();
        }
        let mut r: Vec<(String, PeerEntry)> = Vec::new();
        let mut i: usize = 0;
        while i < self.entries.len()
            invariant
                i <= self.entries@.len(),
                r@.len() == i,
                forall|j: int| 0 <= j < i ==> (#[trigger] r@[j]).0@ == self.listing()[j].0
                    && r@[j].1.view() == self.listing()[j].1,
            decreases self.entries@.len() - i,
        {
            proof {
                self.lemma_listing_index(i as int);
            }
            r.push((self.entries[i].0.clone(), self.entries[i].1.duplicate()));
            i = i + 1;
        }
        proof {
            if self.entries@.len() > 0 {
                self.lemma_listing_index(0);
            }
        }
        r
    }

    /// Number of peers held.
    pub fn len(&self) -> (n: usize)
        ensures
            n == self.listing().len(),
            self.wf() ==> n == self.peers().dom().len(),
    {
        proof {
            if self.wf() {
                self.lemma_peer_count();
            }
            if self.entries@.len() > 0 {
                self.lemma_listing_index(0);
            }
        }
        self.entries.len()
    }

    /// Whether the registry holds no peer.
    pub fn is_empty(&self) -> (b: bool)
        ensures
            b == (self.listing().len() == 0),
            self.wf() ==> (b == (self.peers().dom().len() == 0)),
    {
        self.len() == 0
    }

    /// Drop every entry last seen before `now_ms - ttl` (the cutoff
    /// saturates at zero).
    pub fn evict_stale_at(&mut self, now_ms: u64)
        requires
            old(self).wf(),
        ensures
            final(self).wf(),
            final(self).ttl() == old(self).ttl(),
            final(self).peers() == after_eviction(old(self).peers(), eviction_cutoff(now_ms, old(self).ttl())),
            forall|k: Seq<char>| #[trigger] final(self).peers().contains_key(k)
                <==> (old(self).peers().contains_key(k) && old(self).peers()[k].last_seen_ms + old(self).ttl() >= now_ms),
    {
        proof {
            law_eviction_by_ttl(self.peers(), now_ms, self.ttl());
        }
        let cutoff: u64 = if now_ms >= self.ttl_ms { now_ms - self.ttl_ms } else { 0 };
        let mut kept: Vec<(String, PeerEntry)> = Vec::new();
        let ghost mut origin: Seq<int> = Seq::empty();
        let mut i: usize = 0;
        while i < self.entries.len()
            invariant
                i <= self.entries@.len(),
                self.wf(),
                kept@.len() == origin.len(),
                forall|p: int| #![trigger origin[p]] 0 <= p < origin.len() ==> {
                    &&& 0 <= origin[p] < i
                    &&& kept@[p].0@ == self.listing()[origin[p]].0
                    &&& kept@[p].1.view() == self.listing()[origin[p]].1
                    &&& self.listing()[origin[p]].1.last_seen_ms >= cutoff
                },
                forall|p: int, q: int| 0 <= p < q < origin.len() ==> #[trigger] origin[p] < #[trigger] origin[q],
                forall|j: int| 0 <= j < i && (#[trigger] self.listing()[j]).1.last_seen_ms >= cutoff
                    ==> exists|p: int| 0 <= p < origin.len() && origin[p] == j,
            decreases self.entries@.len() - i,
        {
            proof {
                self.lemma_listing_index(i as int);
            }
            let ghost prev = origin;
            if self.entries[i].1.last_seen_ms >= cutoff {
                kept.push((self.entries[i].0.clone(), self.entries[i].1.duplicate()));
                proof {
                    let n = origin.len();
                    origin = origin.push(i as int);
                    assert(origin[n as int] == i);
                }
            }
            proof {
                assert forall|j: int| 0 <= j < i + 1 && (#[trigger] self.listing()[j]).1.last_seen_ms >= cutoff
                    implies exists|p: int| 0 <= p < origin.len() && origin[p] == j by {
                    if j < i {
                        let p = choose|p: int| 0 <= p < prev.len() && prev[p] == j;
                        assert(origin[p] == prev[p]);
                    } else {
                        assert(origin[prev.len() as int] == j);
                    }
                }
            }
            i = i + 1;
        }
        let ghost before = *self;
        self.entries = kept;
        proof {
            self.lemma_after_filter(before, origin, cutoff);
        }
    }

    proof fn lemma_after_filter(&self, before: PeerRegistry, origin: Seq<int>, cutoff: u64)
        requires
            before.wf(),
            self.ttl_ms == before.ttl_ms,
            self.entries@.len() == origin.len(),
            forall|p: int| #![trigger origin[p]] 0 <= p < origin.len() ==> {
                &&& 0 <= origin[p] < before.listing().len()
                &&& self.entries@[p].0@ == before.listing()[origin[p]].0
                &&& self.entries@[p].1.view() == before.listing()[origin[p]].1
                &&& before.listing()[origin[p]].1.last_seen_ms >= cutoff
            },
            forall|p: int, q: int| 0 <= p < q < origin.len() ==> #[trigger] origin[p] < #[trigger] origin[q],
            forall|j: int| 0 <= j < before.listing().len() && (#[trigger] before.listing()[j]).1.last_seen_ms >= cutoff
                ==> exists|p: int| 0 <= p < origin.len() && origin[p] == j,
        ensures
            self.wf(),
            self.peers() == after_eviction(before.peers(), cutoff),
    {
        assert forall|p: int| 0 <= p < self.listing().len() implies
            (#[trigger] self.listing()[p]) == before.listing()[origin[p]] by {
            self.lemma_listing_index(p);
        }
        assert forall|p: int, q: int|
            0 <= p < self.listing().len() && 0 <= q < self.listing().len() && p != q
                implies #[trigger] self.listing()[p].0 != #[trigger] self.listing()[q].0 by {
            assert(self.listing()[p] == before.listing()[origin[p]]);
            assert(self.listing()[q] == before.listing()[origin[q]]);
            if p < q {
                assert(origin[p] < origin[q]);
            } else {
                assert(origin[q] < origin[p]);
            }
        }
        let target = after_eviction(before.peers(), cutoff);
        assert forall|key: Seq<char>| #[trigger] self.peers().contains_key(key) <==> target.contains_key(key) by {
            if self.has_peer(key) {
                let p = choose|p: int| 0 <= p < self.listing().len() && (#[trigger] self.listing()[p]).0 == key;
                assert(self.listing()[p] == before.listing()[origin[p]]);
                before.lemma_peer_at(origin[p]);
            }
            if target.contains_key(key) {
                let j = choose|j: int| 0 <= j < before.listing().len() && (#[trigger] before.listing()[j]).0 == key;
                before.lemma_peer_at(j);
                assert(before.listing()[j].1.last_seen_ms >= cutoff);
                let p = choose|p: int| 0 <= p < origin.len() && origin[p] == j;
                assert(self.listing()[p] == before.listing()[origin[p]]);
                assert(self.has_peer(key));
            }
        }
        assert forall|key: Seq<char>| #[trigger] self.peers().contains_key(key) implies self.peers()[key] == target[key] by {
            let p = choose|p: int| 0 <= p < self.listing().len() && (#[trigger] self.listing()[p]).0 == key;
            self.lemma_peer_at(p);
            assert(self.listing()[p] == before.listing()[origin[p]]);
            before.lemma_peer_at(origin[p]);
        }
        assert(self.peers() =~= target);
    }

    /// Drop every entry not refreshed within the time-to-live, as of the
    /// current time.
    pub fn evict_stale(&mut self)
        requires
            old(self).wf(),
        ensures
            final(self).wf(),
            final(self).ttl() == old(self).ttl(),
            exists|now: u64| final(self).peers() == #[trigger] after_eviction(old(self).peers(), eviction_cutoff(now, old(self).ttl())),
    {
        let now = now_ms();
        self.evict_stale_at(now);
    }
}

/// Append to `dst` each address of `added` it does not yet hold.
pub fn merge_into(dst: &mut Vec<String>, added: &Vec<String>)
    ensures
        texts(final(dst)@) == merge_addrs(texts(old(dst)@), texts(added@)),
{
    let mut i: usize = 0;
    while i < added.len()
        invariant
            i <= added@.len(),
            texts(dst@) == merge_addrs(texts(old(dst)@), texts(added@).take(i as int)),
        decreases added@.len() - i,
    {
        let present = contains_text(dst, added[i].as_str());
        let ghost before = texts(dst@);
        if !present {
            dst.push(added[i].clone());
            proof {
                assert(texts(dst@) =~= before.push(added@[i as int]@));
            }
        }
        proof {
            let t = texts(added@).take(i + 1);
            assert(t.drop_last() =~= texts(added@).take(i as int));
            assert(t.last() == added@[i as int]@);
        }
        i = i + 1;
    }
    proof {
        assert(texts(added@).take(added@.len() as int) =~= texts(added@));
    }
}

/// Whether `v` holds a string equal to `s`.
pub fn contains_text(v: &Vec<String>, s: &str) -> (r: bool)
    ensures
        r == texts(v@).contains(s@),
{
    let mut i: usize = 0;
    while i < v.len()
        invariant
            i <= v@.len(),
            forall|j: int| 0 <= j < i ==> v@[j]@ != s@,
        decreases v@.len() - i,
    {
        if str_eq(v[i].as_str(), s) {
            proof {
                assert(texts(v@)[i as int] == s@);
            }
            return true;
        }
        i = i + 1;
    }
    proof {
        if texts(v@).contains(s@) {
            let j = choose|j: int| 0 <= j < texts(v@).len() && texts(v@)[j] == s@;
            assert(v@[j]@ == s@);
        }
    }
    false
}

} // verus!

verus! {

/// Law: merging keeps what was known and adds exactly the new
/// addresses: an address is in the result iff it was known or added.
pub proof fn law_merge_addrs_members(existing: Seq<Seq<char>>, added: Seq<Seq<char>>)
    ensures
        forall|x: Seq<char>| #[trigger] merge_addrs(existing, added).contains(x)
            <==> (existing.contains(x) || added.contains(x)),
        merge_addrs(existing, added).len() >= existing.len(),
        merge_addrs(existing, added).take(existing.len() as int) == existing,
    decreases added.len(),
{
    if added.len() > 0 {
        let rest = added.drop_last();
        law_merge_addrs_members(existing, rest);
        let m = merge_addrs(existing, rest);
        assert forall|x: Seq<char>| #[trigger] merge_addrs(existing, added).contains(x)
            <==> (existing.contains(x) || added.contains(x)) by {
            if added.contains(x) && !rest.contains(x) {
                assert(x == added.last()) by {
                    let i = choose|i: int| 0 <= i < added.len() && added[i] == x;
                    if i < added.len() - 1 {
                        assert(rest[i] == x);
                    }
                }
            }
            if rest.contains(x) {
                let i = choose|i: int| 0 <= i < rest.len() && rest[i] == x;
                assert(added[i] == x);
            }
            if !m.contains(added.last()) && m.push(added.last()).contains(x) && x != added.last() {
                let i = choose|i: int| 0 <= i < m.push(added.last()).len() && m.push(added.last())[i] == x;
                assert(m[i] == x);
            }
            if m.contains(x) && !m.contains(added.last()) {
                let i = choose|i: int| 0 <= i < m.len() && m[i] == x;
                assert(m.push(added.last())[i] == x);
            }
            if x == added.last() && !m.contains(added.last()) {
                assert(m.push(added.last())[m.len() as int] == x);
            }
        }
        if !m.contains(added.last()) {
            assert(m.push(added.last()).take(existing.len() as int) =~= m.take(existing.len() as int));
        }
    } else {
        assert(existing.take(existing.len() as int) =~= existing);
    }
}

/// Law: merging never introduces a repeated address into a list that
/// had none.
pub proof fn law_merge_addrs_no_duplicates(existing: Seq<Seq<char>>, added: Seq<Seq<char>>)
    requires
        existing.no_duplicates(),
    ensures
        merge_addrs(existing, added).no_duplicates(),
    decreases added.len(),
{
    if added.len() > 0 {
        law_merge_addrs_no_duplicates(existing, added.drop_last());
        let m = merge_addrs(existing, added.drop_last());
        if !m.contains(added.last()) {
            let n = m.push(added.last());
            assert forall|i: int, j: int| 0 <= i < n.len() && 0 <= j < n.len() && i != j implies n[i] != n[j] by {
                if i == m.len() {
                    assert(n[j] == m[j]);
                } else if j == m.len() {
                    assert(n[i] == m[i]);
                } else {
                    assert(n[i] == m[i] && n[j] == m[j]);
                }
            }
        }
    }
}

/// Law: observing addresses that are all already known changes nothing,
/// so repeating an observation is harmless.
pub proof fn law_merge_addrs_idempotent(known: Seq<Seq<char>>, added: Seq<Seq<char>>)
    requires
        forall|i: int| 0 <= i < added.len() ==> known.contains(#[trigger] added[i]),
    ensures
        merge_addrs(known, added) == known,
    decreases added.len(),
{
    if added.len() > 0 {
        let rest = added.drop_last();
        assert forall|i: int| 0 <= i < rest.len() implies known.contains(#[trigger] rest[i]) by {
            assert(rest[i] == added[i]);
        }
        law_merge_addrs_idempotent(known, rest);
        assert(known.contains(added[added.len() - 1]));
    }
}

/// Law: after an upsert the registry holds the peer with exactly the
/// announced capabilities and the upsert's time, and every other peer
/// is untouched.
pub proof fn law_upsert_then_get(
    peers: Map<Seq<char>, PeerEntryView>,
    peer: Seq<char>,
    caps: CapabilitiesView,
    addrs: Seq<Seq<char>>,
    now_ms: u64,
)
    ensures
        after_upsert(peers, peer, caps, addrs, now_ms).contains_key(peer),
        after_upsert(peers, peer, caps, addrs, now_ms)[peer].capabilities == caps,
        after_upsert(peers, peer, caps, addrs, now_ms)[peer].last_seen_ms == now_ms,
        forall|k: Seq<char>| k != peer ==> (#[trigger] after_upsert(peers, peer, caps, addrs, now_ms).contains_key(k)
            == peers.contains_key(k)),
        forall|k: Seq<char>| k != peer && peers.contains_key(k) ==> #[trigger] after_upsert(peers, peer, caps, addrs, now_ms)[k]
            == peers[k],
{
}

/// Law: eviction keeps exactly the peers seen at or after the cutoff,
/// with their entries unchanged.
pub proof fn law_eviction_keeps_fresh(peers: Map<Seq<char>, PeerEntryView>, cutoff: u64)
    ensures
        forall|k: Seq<char>| #[trigger] after_eviction(peers, cutoff).contains_key(k)
            <==> (peers.contains_key(k) && peers[k].last_seen_ms >= cutoff),
        forall|k: Seq<char>| #[trigger] after_eviction(peers, cutoff).contains_key(k)
            ==> after_eviction(peers, cutoff)[k] == peers[k],
{
}

/// Law: an upsert adds one peer when the peer is new and none when it
/// is known.
pub proof fn law_upsert_count(
    peers: Map<Seq<char>, PeerEntryView>,
    peer: Seq<char>,
    caps: CapabilitiesView,
    addrs: Seq<Seq<char>>,
    now_ms: u64,
)
    requires
        peers.dom().finite(),
    ensures
        after_upsert(peers, peer, caps, addrs, now_ms).dom().finite(),
        after_upsert(peers, peer, caps, addrs, now_ms).dom().len()
            == peers.dom().len() + (if peers.contains_key(peer) { 0int } else { 1int }),
{
    assert(after_upsert(peers, peer, caps, addrs, now_ms).dom() =~= peers.dom().insert(peer));
}

/// Law: eviction at time `now_ms` keeps exactly the peers heard from
/// within the time-to-live: those whose last-seen time plus the
/// time-to-live reaches `now_ms`. Every peer silent for longer is gone.
pub proof fn law_eviction_by_ttl(peers: Map<Seq<char>, PeerEntryView>, now_ms: u64, ttl_ms: u64)
    ensures
        forall|k: Seq<char>| #[trigger] after_eviction(peers, eviction_cutoff(now_ms, ttl_ms)).contains_key(k)
            <==> (peers.contains_key(k) && peers[k].last_seen_ms + ttl_ms >= now_ms),
        forall|k: Seq<char>| peers.contains_key(k) && peers[k].last_seen_ms + ttl_ms < now_ms
            ==> !#[trigger] after_eviction(peers, eviction_cutoff(now_ms, ttl_ms)).contains_key(k),
{
}

/// Law: after an upsert the peer's entry holds every address it
/// announced, keeps every address it held before, and holds no address
/// from elsewhere; a peer seen for the first time holds exactly the
/// announced addresses, in order.
pub proof fn law_upsert_keeps_addresses(
    peers: Map<Seq<char>, PeerEntryView>,
    peer: Seq<char>,
    caps: CapabilitiesView,
    addrs: Seq<Seq<char>>,
    now_ms: u64,
)
    ensures
        forall|a: Seq<char>| addrs.contains(a) ==> #[trigger] after_upsert(peers, peer, caps, addrs, now_ms)[peer].multiaddrs.contains(a),
        peers.contains_key(peer) ==> forall|a: Seq<char>| peers[peer].multiaddrs.contains(a)
            ==> #[trigger] after_upsert(peers, peer, caps, addrs, now_ms)[peer].multiaddrs.contains(a),
        forall|a: Seq<char>| #[trigger] after_upsert(peers, peer, caps, addrs, now_ms)[peer].multiaddrs.contains(a)
            ==> addrs.contains(a) || (peers.contains_key(peer) && peers[peer].multiaddrs.contains(a)),
        !peers.contains_key(peer) ==> after_upsert(peers, peer, caps, addrs, now_ms)[peer].multiaddrs == addrs,
{
    if peers.contains_key(peer) {
        law_merge_addrs_members(peers[peer].multiaddrs, addrs);
    }
}

} // verus!
