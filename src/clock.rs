//! Peer clock registry and the network clock.
use vstd::prelude::*;
use crate::buffer::bump;
use crate::protocol::{get_current_time, is_v4_uuid, new_uuid};
use crate::sync::{saturate, saturate_i128};

verus! {

/// A peer whose last sample is older than this is stale, in nanoseconds (30 s).
pub const STALE_AFTER: i64 = 30_000_000_000;

/// Period of the maintenance tick that reaps stale peers, in nanoseconds (10 s).
pub const REAP_INTERVAL: i64 = 10_000_000_000;

/// Drift is estimated only once a peer has more samples than this.
pub const DRIFT_MIN_SAMPLES: u64 = 10;

/// Filtered clock state of one peer; instants and durations in nanoseconds.
#[derive(Debug, Clone, Copy, PartialEq, Eq, Structural)]
pub struct PeerClock {
    pub peer_id: u128,
    /// Latest filtered offset.
    pub offset: i64,
    /// Latest round-trip time.
    pub rtt: i64,
    /// Monotonic instant of the latest sample.
    pub last_update: i64,
    /// Number of samples taken.
    pub sample_count: u64,
    /// Drift of the offset, parts per million.
    pub drift_ppm: i64,
}

/// Mathematical state of a [`ClockManager`].
pub ghost struct ClockView {
    pub node_id: u128,
    /// Clock state of each known peer, by peer id.
    pub peers: Map<u128, PeerClock>,
    /// Offset of the master clock, once one is known.
    pub master_offset: Option<i64>,
    /// Latest local clock reading handed out; readings never go below it.
    pub last_local: i64,
}

/// `n / d` rounded toward zero, for positive `d`.
pub open spec fn div_toward_zero(n: int, d: int) -> int {
    if n >= 0 {
        n / d
    } else {
        -((-n) / d)
    }
}

/// Drift in parts per million of an offset change over `dt` nanoseconds.
pub open spec fn drift_ppm_of(previous: int, filtered: int, dt: int) -> i64 {
    saturate(div_toward_zero((filtered - previous) * 1_000_000, dt))
}

/// State of a peer that has just been heard of at `now`.
pub open spec fn fresh_peer(peer_id: u128, now: i64) -> PeerClock {
    PeerClock { peer_id, offset: 0, rtt: 0, last_update: now, sample_count: 0, drift_ppm: 0 }
}

/// State of a peer after a filtered sample at `now`. Drift is re-estimated
/// from the previous offset once the peer has more than
/// `DRIFT_MIN_SAMPLES` samples and time has moved forward.
pub open spec fn sampled(p: PeerClock, filtered: i64, rtt: i64, now: i64) -> PeerClock {
    let dt = now - p.last_update;
    PeerClock {
        offset: filtered,
        rtt,
        last_update: now,
        sample_count: bump(p.sample_count as int) as u64,
        drift_ppm: if p.sample_count > DRIFT_MIN_SAMPLES && dt > 0 {
            drift_ppm_of(p.offset as int, filtered as int, dt)
        } else {
            p.drift_ppm
        },
        ..p
    }
}

/// Peers after a sample from `peer_id` at `now`: the peer is created if
/// unknown, then updated.
pub open spec fn with_sample(
    peers: Map<u128, PeerClock>,
    peer_id: u128,
    filtered: i64,
    rtt: i64,
    now: i64,
) -> Map<u128, PeerClock> {
    let p = if peers.contains_key(peer_id) {
        peers[peer_id]
    } else {
        fresh_peer(peer_id, now)
    };
    peers.insert(peer_id, sampled(p, filtered, rtt, now))
}

/// Whether a peer has had no sample for more than `STALE_AFTER` at `now`.
pub open spec fn is_stale(p: PeerClock, now: int) -> bool {
    now - p.last_update > STALE_AFTER
}

/// Peers that survive a reap at `now`.
pub open spec fn reaped(peers: Map<u128, PeerClock>, now: int) -> Map<u128, PeerClock> {
    Map::new(|id: u128| peers.contains_key(id) && !is_stale(peers[id], now), |id: u128| peers[id])
}

/// Network time for a local time: local time plus the master offset, if
/// any, clamped to the range of `i64`.
pub open spec fn network_time(v: ClockView, local: int) -> i64 {
    match v.master_offset {
        Some(o) => saturate(local + o),
        None => saturate(local),
    }
}

spec fn distinct_ids(s: Seq<PeerClock>) -> bool {
    forall|i: int, j: int| 0 <= i < j < s.len() ==> s[i].peer_id != s[j].peer_id
}

spec fn has_id(s: Seq<PeerClock>, id: u128) -> bool {
    exists|i: int| 0 <= i < s.len() && s[i].peer_id == id
}

spec fn seq_to_map(s: Seq<PeerClock>) -> Map<u128, PeerClock> {
    Map::new(
        |id: u128| has_id(s, id),
        |id: u128| s[choose|i: int| 0 <= i < s.len() && s[i].peer_id == id],
    )
}

proof fn lemma_map_at(s: Seq<PeerClock>, i: int)
    requires
        distinct_ids(s),
        0 <= i < s.len(),
    ensures
        seq_to_map(s).contains_key(s[i].peer_id),
        seq_to_map(s)[s[i].peer_id] == s[i],
{
    let id = s[i].peer_id;
    assert(has_id(s, id));
    let j = choose|j: int| 0 <= j < s.len() && s[j].peer_id == id;
    assert(j == i);
}

proof fn lemma_map_push(s: Seq<PeerClock>, p: PeerClock)
    requires
        distinct_ids(s),
        !has_id(s, p.peer_id),
    ensures
        distinct_ids(s.push(p)),
        seq_to_map(s.push(p)) == seq_to_map(s).insert(p.peer_id, p),
{
    let t = s.push(p);
    assert(distinct_ids(t));
    assert forall|id: u128| #[trigger] has_id(t, id) == (has_id(s, id) || id == p.peer_id) by {
        if has_id(s, id) {
            let i = choose|i: int| 0 <= i < s.len() && s[i].peer_id == id;
            assert(t[i] == s[i]);
        }
        if id == p.peer_id {
            assert(t[s.len() as int] == p);
        }
    }
    assert forall|id: u128| #[trigger] seq_to_map(t).contains_key(id) implies seq_to_map(t)[id]
        == seq_to_map(s).insert(p.peer_id, p)[id] by {
        let i = choose|i: int| 0 <= i < t.len() && t[i].peer_id == id;
        lemma_map_at(t, i);
        if i < s.len() {
            assert(t[i] == s[i]);
            lemma_map_at(s, i);
        }
    }
    assert(seq_to_map(t) =~= seq_to_map(s).insert(p.peer_id, p));
}

proof fn lemma_map_update(s: Seq<PeerClock>, i: int, p: PeerClock)
    requires
        distinct_ids(s),
        0 <= i < s.len(),
        p.peer_id == s[i].peer_id,
    ensures
        distinct_ids(s.update(i, p)),
        seq_to_map(s.update(i, p)) == seq_to_map(s).insert(p.peer_id, p),
{
    let t = s.update(i, p);
    assert(distinct_ids(t));
    assert forall|id: u128| #[trigger] has_id(t, id) == has_id(s, id) by {
        if has_id(s, id) {
            let k = choose|k: int| 0 <= k < s.len() && s[k].peer_id == id;
            assert(t[k].peer_id == id);
        }
        if has_id(t, id) {
            let k = choose|k: int| 0 <= k < t.len() && t[k].peer_id == id;
            assert(s[k].peer_id == id);
        }
    }
    assert forall|id: u128| #[trigger] seq_to_map(t).contains_key(id) implies seq_to_map(t)[id]
        == seq_to_map(s).insert(p.peer_id, p)[id] by {
        let k = choose|k: int| 0 <= k < t.len() && t[k].peer_id == id;
        lemma_map_at(t, k);
        if k != i {
            lemma_map_at(s, k);
        }
    }
    assert(seq_to_map(t) =~= seq_to_map(s).insert(p.peer_id, p));
}

/// Registry of the clocks of all peers, and the network clock derived from
/// the master's offset.
pub struct ClockManager {
    node_id: u128,
    peers: Vec<PeerClock>,
    master_offset: Option<i64>,
    last_local: i64,
}

impl View for ClockManager {
    type V = ClockView;

    closed spec fn view(&self) -> ClockView {
        ClockView {
            node_id: self.node_id,
            peers: seq_to_map(self.peers@),
            master_offset: self.master_offset,
            last_local: self.last_local,
        }
    }
}

impl ClockManager {
    /// Well-formedness: no peer appears twice.
    pub closed spec fn wf(&self) -> bool {
        distinct_ids(self.peers@)
    }

    /// An empty registry for a node with a fresh random identifier and no
    /// master offset.
    pub fn new() -> (r: Self)
        ensures
            r.wf(),
            is_v4_uuid(r@.node_id),
            r@.peers == Map::<u128, PeerClock>::empty(),
            r@.master_offset == None::<i64>,
            r@.last_local == 0,
    {
        let r = ClockManager {
            node_id: new_uuid(),
            peers: Vec::new(),
            master_offset: None,
            last_local: 0,
        };
        assert(seq_to_map(r.peers@) =~= Map::<u128, PeerClock>::empty());
        r
    }

    /// Identifier of this node.
    pub fn node_id(&self) -> (r: u128)
        ensures
            r == self@.node_id,
    {
        self.node_id
    }

    /// Network time for the local time `local`.
    pub fn network_time_at(&self, local: i64) -> (r: i64)
        ensures
            r == network_time(self@, local as int),
    {
        match self.master_offset {
            Some(o) => saturate_i128(local as i128 + o as i128),
            None => local,
        }
    }

    /// Reads the local clock, never going below an earlier reading: a
    /// wall clock stepped back yields the previous reading again.
    pub fn local_now(&mut self) -> (r: i64)
        ensures
            r >= old(self)@.last_local,
            final(self)@ == (ClockView { last_local: r, ..old(self)@ }),
            final(self).wf() == old(self).wf(),
    {
        let reading = get_current_time();
        if reading > self.last_local {
            self.last_local = reading;
        }
        self.last_local
    }

    /// Current network time: the monotonic local reading corrected by the
    /// master offset.
    pub fn now(&mut self) -> (r: i64)
        ensures
            final(self)@ == (ClockView { last_local: final(self)@.last_local, ..old(self)@ }),
            final(self)@.last_local >= old(self)@.last_local,
            r == network_time(final(self)@, final(self)@.last_local as int),
            final(self).wf() == old(self).wf(),
    {
        let local = self.local_now();
        self.network_time_at(local)
    }

    /// Offset of the master clock, if one is known.
    pub fn master_offset(&self) -> (r: Option<i64>)
        ensures
            r == self@.master_offset,
    {
        self.master_offset
    }

    /// Publishes a new master offset.
    pub fn set_master_offset(&mut self, offset: i64)
        requires
            old(self).wf(),
        ensures
            final(self).wf(),
            final(self)@ == (ClockView { master_offset: Some(offset), ..old(self)@ }),
    {
        self.master_offset = Some(offset);
    }

    fn find_peer(&self, peer_id: u128) -> (r: Option<usize>)
        ensures
            match r {
                Some(i) => i < self.peers@.len() && self.peers@[i as int].peer_id == peer_id,
                None => !has_id(self.peers@, peer_id),
            },
    {
        let mut i: usize = 0;
        while i < self.peers.len()
            invariant
                i <= self.peers@.len(),
                forall|k: int| 0 <= k < i ==> self.peers@[k].peer_id != peer_id,
            decreases self.peers@.len() - i,
        {
            if self.peers[i].peer_id == peer_id {
                return Some(i);
            }
            i = i + 1;
        }
        None
    }

    /// Latest filtered offset of a peer, if the peer is known.
    pub fn get_peer_offset(&self, peer_id: u128) -> (r: Option<i64>)
        requires
            self.wf(),
        ensures
            r == (if self@.peers.contains_key(peer_id) {
                Some(self@.peers[peer_id].offset)
            } else {
                None::<i64>
            }),
    {
        match self.find_peer(peer_id) {
            Some(i) => {
                proof {
                    lemma_map_at(self.peers@, i as int);
                }
                Some(self.peers[i].offset)
            },
            None => None,
        }
    }

    /// Offset, round-trip time and sample count of a peer, if the peer is known.
    pub fn get_peer_stats(&self, peer_id: u128) -> (r: Option<(i64, i64, u64)>)
        requires
            self.wf(),
        ensures
            r == (if self@.peers.contains_key(peer_id) {
                let p = self@.peers[peer_id];
                Some((p.offset, p.rtt, p.sample_count))
            } else {
                None::<(i64, i64, u64)>
            }),
    {
        match self.find_peer(peer_id) {
            Some(i) => {
                proof {
                    lemma_map_at(self.peers@, i as int);
                }
                let p = self.peers[i];
                Some((p.offset, p.rtt, p.sample_count))
            },
            None => None,
        }
    }

    /// Drift of a peer's clock in parts per million, if the peer is known.
    pub fn get_peer_drift_ppm(&self, peer_id: u128) -> (r: Option<i64>)
        requires
            self.wf(),
        ensures
            r == (if self@.peers.contains_key(peer_id) {
                Some(self@.peers[peer_id].drift_ppm)
            } else {
                None::<i64>
            }),
    {
        match self.find_peer(peer_id) {
            Some(i) => {
                proof {
                    lemma_map_at(self.peers@, i as int);
                }
                Some(self.peers[i].drift_ppm)
            },
            None => None,
        }
    }

    /// Whether a peer is the master clock. Master selection is left to a
    /// collaborator outside this registry; until one exists no peer is master.
    pub fn is_master_peer(&self, peer_id: u128) -> (r: bool)
        ensures
            !r,
    {
        false
    }

    /// Records a filtered sample of a peer taken at the monotonic instant
    /// `now`: creates the peer if unknown, re-estimates its drift, caches
    /// the offset and round-trip time, and publishes the offset as the
    /// master offset when the peer is the master.
    pub fn update_peer_clock(&mut self, peer_id: u128, filtered_offset: i64, rtt: i64, now: i64)
        requires
            old(self).wf(),
        ensures
            final(self).wf(),
            final(self)@.peers == with_sample(old(self)@.peers, peer_id, filtered_offset, rtt, now),
            final(self)@.node_id == old(self)@.node_id,
            final(self)@.master_offset == old(self)@.master_offset,
    {
        let idx = match self.find_peer(peer_id) {
            Some(i) => {
                proof {
                    lemma_map_at(self.peers@, i as int);
                }
                i
            },
            None => {
                let fresh = PeerClock {
                    peer_id,
                    offset: 0,
                    rtt: 0,
                    last_update: now,
                    sample_count: 0,
                    drift_ppm: 0,
                };
                proof {
                    lemma_map_push(self.peers@, fresh);
                    lemma_map_at(self.peers@.push(fresh), self.peers@.len() as int);
                }
                self.peers.push(fresh);
                self.peers.len() - 1
            },
        };
        let ghost before = self.peers@;
        let p = self.peers[idx];
        let dt = now as i128 - p.last_update as i128;
        let drift = if p.sample_count > DRIFT_MIN_SAMPLES && dt > 0 {
            let change = (filtered_offset as i128 - p.offset as i128) * 1_000_000;
            let q = if change >= 0 {
                change / dt
            } else {
                -((-change) / dt)
            };
            saturate_i128(q)
        } else {
            p.drift_ppm
        };
        let count = if p.sample_count < u64::MAX {
            p.sample_count + 1
        } else {
            p.sample_count
        };
        let updated = PeerClock {
            peer_id,
            offset: filtered_offset,
            rtt,
            last_update: now,
            sample_count: count,
            drift_ppm: drift,
        };
        proof {
            lemma_map_update(before, idx as int, updated);
        }
        self.peers.set(idx, updated);
        if self.is_master_peer(peer_id) {
            self.master_offset = Some(filtered_offset);
        }
        proof {
            assert(seq_to_map(self.peers@) =~= with_sample(
                old(self)@.peers,
                peer_id,
                filtered_offset,
                rtt,
                now,
            ));
        }
    }

    /// Removes every peer that has had no sample for more than `STALE_AFTER`
    /// at the monotonic instant `now`.
    pub fn cleanup_stale_peers(&mut self, now: i64)
        requires
            old(self).wf(),
        ensures
            final(self).wf(),
            final(self)@.peers == reaped(old(self)@.peers, now as int),
            final(self)@.node_id == old(self)@.node_id,
            final(self)@.master_offset == old(self)@.master_offset,
    {
        let ghost old_peers = self.peers@;
        let mut kept: Vec<PeerClock> = Vec::new();
        let mut i: usize = 0;
        while i < self.peers.len()
            invariant
                i <= old_peers.len(),
                self.peers@ == old_peers,
                distinct_ids(old_peers),
                distinct_ids(kept@),
                forall|k: int| 0 <= k < kept@.len() ==> !is_stale(#[trigger] kept@[k], now as int),
                forall|id: u128| #[trigger] has_id(kept@, id) <==> exists|k: int|
                    0 <= k < i && old_peers[k].peer_id == id && !is_stale(old_peers[k], now as int),
                forall|k: int| 0 <= k < kept@.len() ==> exists|j: int|
                    0 <= j < i && old_peers[j] == #[trigger] kept@[k],
            decreases old_peers.len() - i,
        {
            let p = self.peers[i];
            let age = now as i128 - p.last_update as i128;
            if age <= STALE_AFTER as i128 {
                proof {
                    assert(!has_id(kept@, p.peer_id)) by {
                        if has_id(kept@, p.peer_id) {
                            let k = choose|k: int| 0 <= k < i && old_peers[k].peer_id == p.peer_id
                                && !is_stale(old_peers[k], now as int);
                            assert(old_peers[k].peer_id == old_peers[i as int].peer_id);
                        }
                    }
                    lemma_map_push(kept@, p);
                }
                let ghost kept_before = kept@;
                kept.push(p);
                proof {
                    assert forall|id: u128| #[trigger] has_id(kept@, id) <==> exists|k: int|
                        0 <= k < i + 1 && old_peers[k].peer_id == id && !is_stale(old_peers[k], now as int) by {
                        if has_id(kept@, id) {
                            let k = choose|k: int| 0 <= k < kept@.len() && kept@[k].peer_id == id;
                            if k < kept@.len() - 1 {
                                assert(kept@[k] == kept_before[k]);
                                assert(has_id(kept_before, id));
                                let k2 = choose|k2: int| 0 <= k2 < i && old_peers[k2].peer_id == id
                                    && !is_stale(old_peers[k2], now as int);
                                assert(0 <= k2 < i + 1);
                            } else {
                                assert(old_peers[i as int].peer_id == id);
                            }
                        }
                        if exists|k: int| 0 <= k < i + 1 && old_peers[k].peer_id == id && !is_stale(old_peers[k], now as int) {
                            let k = choose|k: int| 0 <= k < i + 1 && old_peers[k].peer_id == id
                                && !is_stale(old_peers[k], now as int);
                            if k < i {
                                assert(has_id(kept_before, id));
                                let j = choose|j: int| 0 <= j < kept_before.len() && kept_before[j].peer_id == id;
                                assert(kept@[j] == kept_before[j]);
                            } else {
                                assert(kept@[kept@.len() - 1] == p);
                            }
                        }
                    }
                    assert forall|k: int| 0 <= k < kept@.len() implies exists|j: int|
                        0 <= j < i + 1 && old_peers[j] == #[trigger] kept@[k] by {
                        if k < kept@.len() - 1 {
                            assert(kept@[k] == kept_before[k]);
                        } else {
                            assert(old_peers[i as int] == kept@[k]);
                        }
                    }
                }
            } else {
                proof {
                    assert forall|id: u128| #[trigger] has_id(kept@, id) <==> exists|k: int|
                        0 <= k < i + 1 && old_peers[k].peer_id == id && !is_stale(old_peers[k], now as int) by {
                        if exists|k: int| 0 <= k < i + 1 && old_peers[k].peer_id == id && !is_stale(old_peers[k], now as int) {
                            let k = choose|k: int| 0 <= k < i + 1 && old_peers[k].peer_id == id
                                && !is_stale(old_peers[k], now as int);
                            assert(k < i);
                        }
                    }
                }
            }
            i = i + 1;
        }
        proof {
            let m = seq_to_map(kept@);
            let r = reaped(seq_to_map(old_peers), now as int);
            assert forall|id: u128| #[trigger] m.contains_key(id) == r.contains_key(id) by {
                if m.contains_key(id) {
                    let k = choose|k: int| 0 <= k < old_peers.len() && old_peers[k].peer_id == id
                        && !is_stale(old_peers[k], now as int);
                    lemma_map_at(old_peers, k);
                }
                if r.contains_key(id) {
                    let k = choose|k: int| 0 <= k < old_peers.len() && old_peers[k].peer_id == id;
                    lemma_map_at(old_peers, k);
                }
            }
            assert forall|id: u128| #[trigger] m.contains_key(id) implies m[id] == r[id] by {
                let k = choose|k: int| 0 <= k < kept@.len() && kept@[k].peer_id == id;
                lemma_map_at(kept@, k);
                let j = choose|j: int| 0 <= j < old_peers.len() && old_peers[j] == kept@[k];
                lemma_map_at(old_peers, j);
            }
            assert(m =~= r);
        }
        self.peers = kept;
    }
}

/// A peer sampled at `t` and reaped at `now` survives exactly when the
/// sample is at most `STALE_AFTER` old: absent after the reap when no
/// sample came for longer, present when one came within it.
pub proof fn lemma_reap_after_sample(
    peers: Map<u128, PeerClock>,
    peer_id: u128,
    filtered: i64,
    rtt: i64,
    t: i64,
    now: int,
)
    ensures
        reaped(with_sample(peers, peer_id, filtered, rtt, t), now).contains_key(peer_id) <==> now - t
            <= STALE_AFTER,
{
}

} // verus!
