use vstd::prelude::*;

use crate::keyed::{
    filter_map, has_key, keys_unique, lemma_to_map_dom, lemma_to_map_filtered, lemma_to_map_index,
    lemma_push_contains, lemma_to_map_push, lemma_to_map_update, lemma_unique_push, to_map,
};
use crate::net::IpAddress;

verus! {

/// A peer that has not pinged for this many nanoseconds is taken offline.
pub const OFFLINE_AFTER_NANOS: u64 = 3_000_000_000;

/// What the registry remembers of a peer.
#[derive(Debug, Clone, Copy, PartialEq, Eq, Structural)]
pub struct ServiceRecord {
    pub ip: IpAddress,
    /// The metadata sequence number last announced by the peer.
    pub sequence: u32,
    /// When the last ping arrived, in nanoseconds on the caller's clock.
    pub update_at: u64,
}

pub struct ServiceEntry {
    pub id: String,
    pub record: ServiceRecord,
}

/// A peer taken offline by a tick.
pub struct OfflineService {
    pub id: String,
    pub ip: IpAddress,
}

/// The message broadcast every second: who we are and which metadata
/// version we hold.
pub struct Ping {
    pub id: String,
    pub sequence: u32,
}

/// What a received ping means.
#[derive(Debug, Clone, Copy, PartialEq, Eq, Structural)]
pub enum PingOutcome {
    /// Our own broadcast came back; nothing changes.
    FromSelf,
    /// A peer that was not known: it is now online, and its metadata is to be fetched.
    Online,
    /// A known peer announced another metadata sequence: its metadata is to be fetched again.
    MetadataChanged,
    /// A known peer with unchanged metadata.
    Refreshed,
}

pub open spec fn is_lower_hex(c: char) -> bool {
    ('0' <= c && c <= '9') || ('a' <= c && c <= 'f')
}

/// The lowercase hyphenated text of a random (version 4, RFC 4122 variant) UUID.
pub open spec fn is_hyphenated_uuid_v4(s: Seq<char>) -> bool {
    &&& s.len() == 36
    &&& forall|i: int|
        0 <= i < 36 ==> (if i == 8 || i == 13 || i == 18 || i == 23 {
            s[i] == '-'
        } else {
            is_lower_hex(#[trigger] s[i])
        })
    &&& s[14] == '4'
    &&& (s[19] == '8' || s[19] == '9' || s[19] == 'a' || s[19] == 'b')
}

/// Calls `uuid::Uuid::new_v4` and renders it with `to_string`. The uuid
/// crate sets the version nibble to 4 and the variant bits to `10`, and its
/// `Display` writes the lowercase hyphenated form; the other hex digits are
/// random.
#[verifier::external_body]
pub(crate) fn random_service_id() -> (id: String)
    ensures
        is_hyphenated_uuid_v4(id@),
{
    uuid::Uuid::new_v4().to_string()
}

/// Whether a peer last seen at `update_at` counts as gone at `now`; the
/// elapsed time saturates at zero when the clock reads earlier.
pub open spec fn is_stale(update_at: u64, now: u64) -> bool {
    now >= update_at && now - update_at >= OFFLINE_AFTER_NANOS
}

pub open spec fn entry_pair(e: ServiceEntry) -> (Seq<char>, ServiceRecord) {
    (e.id@, e.record)
}

pub open spec fn entry_pairs(s: Seq<ServiceEntry>) -> Seq<(Seq<char>, ServiceRecord)> {
    s.map_values(|e: ServiceEntry| entry_pair(e))
}

/// What a ping does to the registry.
pub open spec fn ping_next(
    local_id: Seq<char>,
    m: Map<Seq<char>, ServiceRecord>,
    id: Seq<char>,
    sequence: u32,
    ip: IpAddress,
    now: u64,
) -> Map<Seq<char>, ServiceRecord> {
    if id == local_id {
        m
    } else if m.dom().contains(id) {
        m.insert(id, ServiceRecord { ip: m[id].ip, sequence, update_at: now })
    } else {
        m.insert(id, ServiceRecord { ip, sequence, update_at: now })
    }
}

/// What a ping means, given the registry before it.
pub open spec fn ping_outcome(
    local_id: Seq<char>,
    m: Map<Seq<char>, ServiceRecord>,
    id: Seq<char>,
    sequence: u32,
) -> PingOutcome {
    if id == local_id {
        PingOutcome::FromSelf
    } else if !m.dom().contains(id) {
        PingOutcome::Online
    } else if m[id].sequence != sequence {
        PingOutcome::MetadataChanged
    } else {
        PingOutcome::Refreshed
    }
}

pub open spec fn still_fresh(now: u64) -> spec_fn(ServiceRecord) -> bool {
    |r: ServiceRecord| !is_stale(r.update_at, now)
}

/// What a tick leaves of the registry: the peers that are not stale.
pub open spec fn tick_next(m: Map<Seq<char>, ServiceRecord>, now: u64) -> Map<
    Seq<char>,
    ServiceRecord,
> {
    filter_map(m, still_fresh(now))
}

/// The registry of peers seen on the local network, with our own identity
/// and the metadata we publish.
pub struct DiscoveryState {
    local_id: String,
    sequence: u32,
    metadata: Option<Vec<u8>>,
    services: Vec<ServiceEntry>,
}

impl DiscoveryState {
    #[verifier::type_invariant]
    spec fn inv(self) -> bool {
        &&& keys_unique(entry_pairs(self.services@))
        &&& !has_key(entry_pairs(self.services@), self.local_id@)
    }

    /// Our own identity on the network.
    pub closed spec fn local_id_view(self) -> Seq<char> {
        self.local_id@
    }

    /// The metadata sequence number we announce.
    pub closed spec fn sequence_view(self) -> u32 {
        self.sequence
    }

    /// The metadata we publish, if any.
    pub closed spec fn metadata_view(self) -> Option<Seq<u8>> {
        match self.metadata {
            Some(v) => Some(v@),
            None => None,
        }
    }

    /// The known peers, by identity.
    pub closed spec fn services(self) -> Map<Seq<char>, ServiceRecord> {
        to_map(entry_pairs(self.services@))
    }

    /// A registry with a fresh random identity, no peers, no metadata and
    /// sequence number zero.
    pub fn new() -> (s: DiscoveryState)
        ensures
            is_hyphenated_uuid_v4(s.local_id_view()),
            s.sequence_view() == 0,
            s.metadata_view() is None,
            s.services() == Map::<Seq<char>, ServiceRecord>::empty(),
    {
        DiscoveryState::from_local_id(random_service_id())
    }

    /// A registry with the given identity, no peers, no metadata and
    /// sequence number zero.
    pub fn from_local_id(local_id: String) -> (s: DiscoveryState)
        ensures
            s.local_id_view() == local_id@,
            s.sequence_view() == 0,
            s.metadata_view() is None,
            s.services() == Map::<Seq<char>, ServiceRecord>::empty(),
    {
        let s = DiscoveryState { local_id, sequence: 0, metadata: None, services: Vec::new() };
        assert(entry_pairs(s.services@) =~= Seq::<(Seq<char>, ServiceRecord)>::empty());
        s
    }

    pub fn local_id(&self) -> (r: &str)
        ensures
            r@ == self.local_id_view(),
    {
        self.local_id.as_str()
    }

    pub fn sequence(&self) -> (r: u32)
        ensures
            r == self.sequence_view(),
    {
        self.sequence
    }

    /// The metadata served to peers that ask for it; `None` is answered
    /// with "not found".
    pub fn metadata(&self) -> (r: Option<&Vec<u8>>)
        ensures
            match r {
                Some(v) => self.metadata_view() == Some(v@),
                None => self.metadata_view() is None,
            },
    {
        self.metadata.as_ref()
    }

    /// Publishes new metadata and bumps the sequence number (wrapping), so
    /// that peers fetch it again.
    pub fn set_metadata(&mut self, metadata: Vec<u8>)
        ensures
            final(self).sequence_view() == old(self).sequence_view().wrapping_add(1),
            final(self).metadata_view() == Some(metadata@),
            final(self).local_id_view() == old(self).local_id_view(),
            final(self).services() == old(self).services(),
            !final(self).services().dom().contains(final(self).local_id_view()),
    {
        proof {
            use_type_invariant(&*self);
            lemma_to_map_dom(entry_pairs(self.services@));
        }
        self.sequence = self.sequence.wrapping_add(1);
        self.metadata = Some(metadata);
    }

    /// The ping to broadcast now.
    pub fn ping(&self) -> (p: Ping)
        ensures
            p.id@ == self.local_id_view(),
            p.sequence == self.sequence_view(),
    {
        Ping { id: self.local_id.clone(), sequence: self.sequence }
    }

    fn find(&self, id: &str) -> (r: Option<usize>)
        ensures
            match r {
                Some(i) => i < self.services@.len() && self.services@[i as int].id@ == id@,
                None => !has_key(entry_pairs(self.services@), id@),
            },
    {
        let mut i: usize = 0;
        while i < self.services.len()
            invariant
                i <= self.services@.len(),
                forall|j: int| 0 <= j < i ==> self.services@[j].id@ != id@,
            decreases self.services@.len() - i,
        {
            if crate::text::str_equals(self.services[i].id.as_str(), id) {
                return Some(i);
            }
            i = i + 1;
        }
        proof {
            let ps = entry_pairs(self.services@);
            if has_key(ps, id@) {
                let j = choose|j: int| 0 <= j < ps.len() && ps[j].0 == id@;
                assert(ps[j] == entry_pair(self.services@[j]));
            }
        }
        None
    }

    /// Takes in a ping from `id` carrying `sequence`, received from `ip` at
    /// `now`. Our own pings are ignored. A known peer keeps its address and
    /// takes the new sequence and time; an unknown one is added.
    pub fn on_ping(&mut self, id: &str, sequence: u32, ip: IpAddress, now: u64) -> (o: PingOutcome)
        ensures
            o == ping_outcome(old(self).local_id_view(), old(self).services(), id@, sequence),
            final(self).services() == ping_next(
                old(self).local_id_view(),
                old(self).services(),
                id@,
                sequence,
                ip,
                now,
            ),
            final(self).local_id_view() == old(self).local_id_view(),
            final(self).sequence_view() == old(self).sequence_view(),
            final(self).metadata_view() == old(self).metadata_view(),
            !final(self).services().dom().contains(final(self).local_id_view()),
    {
        proof {
            use_type_invariant(&*self);
            lemma_to_map_dom(entry_pairs(self.services@));
        }
        if crate::text::str_equals(self.local_id.as_str(), id) {
            return PingOutcome::FromSelf;
        }
        match self.find(id) {
            Some(i) => {
                let old_record = self.services[i].record;
                let record = ServiceRecord { ip: old_record.ip, sequence, update_at: now };
                proof {
                    let ps = entry_pairs(self.services@);
                    assert(ps[i as int] == entry_pair(self.services@[i as int]));
                    lemma_to_map_index(ps, i as int);
                    lemma_to_map_update(ps, i as int, record);
                }
                let entry = ServiceEntry { id: crate::text::owned(id), record };
                let ghost before = self.services@;
                assert(entry_pairs(before.update(i as int, entry)) =~= entry_pairs(before).update(
                    i as int,
                    (entry_pairs(before)[i as int].0, record),
                ));
                let mut services: Vec<ServiceEntry> = Vec::new();
                std::mem::swap(&mut services, &mut self.services);
                services.set(i, entry);
                proof {
                    lemma_to_map_dom(entry_pairs(services@));
                }
                self.services = services;
                if old_record.sequence != sequence {
                    PingOutcome::MetadataChanged
                } else {
                    PingOutcome::Refreshed
                }
            },
            None => {
                let record = ServiceRecord { ip, sequence, update_at: now };
                let entry = ServiceEntry { id: crate::text::owned(id), record };
                let ghost before = self.services@;
                proof {
                    lemma_unique_push(entry_pairs(before), id@, record);
                    lemma_to_map_push(entry_pairs(before), id@, record);
                    assert(entry_pairs(before.push(entry)) =~= entry_pairs(before).push(
                        (id@, record),
                    ));
                }
                let mut services: Vec<ServiceEntry> = Vec::new();
                std::mem::swap(&mut services, &mut self.services);
                services.push(entry);
                proof {
                    lemma_to_map_dom(entry_pairs(services@));
                }
                self.services = services;
                PingOutcome::Online
            },
        }
    }

    #[verifier::rlimit(40)]
    /// Takes every stale peer out of the registry and returns them, each
    /// once, with the address they were known by.
    pub fn on_tick(&mut self, now: u64) -> (offline: Vec<OfflineService>)
        ensures
            final(self).services() == tick_next(old(self).services(), now),
            final(self).local_id_view() == old(self).local_id_view(),
            final(self).sequence_view() == old(self).sequence_view(),
            final(self).metadata_view() == old(self).metadata_view(),
            !final(self).services().dom().contains(final(self).local_id_view()),
            forall|a: int| 0 <= a < offline@.len() ==> #[trigger] offline@[a].id@ != old(self).local_id_view(),
            forall|a: int, b: int|
                0 <= a < offline@.len() && 0 <= b < offline@.len() && a != b ==> offline@[a].id@
                    != offline@[b].id@,
            forall|a: int|
                0 <= a < offline@.len() ==> {
                    let k = #[trigger] offline@[a].id@;
                    &&& old(self).services().dom().contains(k)
                    &&& is_stale(old(self).services()[k].update_at, now)
                    &&& offline@[a].ip == old(self).services()[k].ip
                },
            forall|k: Seq<char>|
                old(self).services().dom().contains(k) && is_stale(
                    #[trigger] old(self).services()[k].update_at,
                    now,
                ) ==> exists|a: int| 0 <= a < offline@.len() && offline@[a].id@ == k,
    {
        proof {
            use_type_invariant(&*self);
            lemma_to_map_dom(entry_pairs(self.services@));
        }
        let ghost ps = entry_pairs(self.services@);
        let ghost m = to_map(ps);
        let mut kept: Vec<ServiceEntry> = Vec::new();
        let mut offline: Vec<OfflineService> = Vec::new();
        let mut i: usize = 0;
        while i < self.services.len()
            invariant
                i <= self.services@.len(),
                ps == entry_pairs(self.services@),
                m == to_map(ps),
                keys_unique(ps),
                !has_key(ps, self.local_id@),
                keys_unique(entry_pairs(kept@)),
                forall|p: (Seq<char>, ServiceRecord)|
                    entry_pairs(kept@).contains(p) <==> (ps.take(i as int).contains(p)
                        && !is_stale(p.1.update_at, now)),
                forall|a: int, b: int|
                    0 <= a < offline@.len() && 0 <= b < offline@.len() && a != b
                        ==> offline@[a].id@ != offline@[b].id@,
                forall|a: int|
                    #![trigger offline@[a]]
                    0 <= a < offline@.len() ==> exists|c: int|
                        0 <= c < i && #[trigger] ps[c].0 == offline@[a].id@ && is_stale(
                            ps[c].1.update_at,
                            now,
                        ) && offline@[a].ip == ps[c].1.ip,
                forall|c: int|
                    0 <= c < i && is_stale(#[trigger] ps[c].1.update_at, now) ==> exists|a: int|
                        0 <= a < offline@.len() && offline@[a].id@ == ps[c].0,
            decreases self.services@.len() - i,
        {
            let e = &self.services[i];
            let ghost pe = ps[i as int];
            assert(pe == entry_pair(self.services@[i as int]));
            assert(ps.take(i + 1) =~= ps.take(i as int).push(pe));
            let fresh = now < e.record.update_at || now - e.record.update_at < OFFLINE_AFTER_NANOS;
            if fresh {
                let ghost before = kept@;
                proof {
                    assert(!has_key(entry_pairs(before), pe.0)) by {
                        if has_key(entry_pairs(before), pe.0) {
                            let b = choose|b: int|
                                0 <= b < entry_pairs(before).len() && entry_pairs(before)[b].0
                                    == pe.0;
                            assert(entry_pairs(before).contains(entry_pairs(before)[b]));
                            assert(ps.take(i as int).contains(entry_pairs(before)[b]));
                            let c = choose|c: int|
                                0 <= c < i && ps.take(i as int)[c] == entry_pairs(before)[b];
                            assert(ps[c].0 == ps[i as int].0);
                        }
                    }
                    lemma_unique_push(entry_pairs(before), pe.0, pe.1);
                }
                kept.push(ServiceEntry { id: e.id.clone(), record: e.record });
                assert(entry_pairs(kept@) =~= entry_pairs(before).push(pe));
                assert forall|p: (Seq<char>, ServiceRecord)|
                    entry_pairs(kept@).contains(p) <==> (ps.take(i + 1).contains(p)
                        && !is_stale(p.1.update_at, now)) by {
                    lemma_push_contains(entry_pairs(before), pe, p);
                    lemma_push_contains(ps.take(i as int), pe, p);
                }
            } else {
                assert forall|p: (Seq<char>, ServiceRecord)|
                    entry_pairs(kept@).contains(p) <==> (ps.take(i + 1).contains(p)
                        && !is_stale(p.1.update_at, now)) by {
                    lemma_push_contains(ps.take(i as int), pe, p);
                }
                let ghost before = offline@;
                offline.push(OfflineService { id: e.id.clone(), ip: e.record.ip });
                proof {
                    assert forall|a: int, b: int|
                        0 <= a < offline@.len() && 0 <= b < offline@.len() && a != b implies offline@[a].id@
                            != offline@[b].id@ by {
                        if a == before.len() && b < before.len() {
                            let c = choose|c: int|
                                0 <= c < i && #[trigger] ps[c].0 == before[b].id@ && is_stale(
                                    ps[c].1.update_at,
                                    now,
                                ) && before[b].ip == ps[c].1.ip;
                            assert(ps[c].0 != ps[i as int].0);
                        } else if b == before.len() && a < before.len() {
                            let c = choose|c: int|
                                0 <= c < i && #[trigger] ps[c].0 == before[a].id@ && is_stale(
                                    ps[c].1.update_at,
                                    now,
                                ) && before[a].ip == ps[c].1.ip;
                            assert(ps[c].0 != ps[i as int].0);
                        } else {
                            assert(offline@[a] == before[a] && offline@[b] == before[b]);
                        }
                    }
                    assert forall|a: int| #![trigger offline@[a]] 0 <= a < offline@.len() implies exists|c: int|
                        0 <= c < i + 1 && #[trigger] ps[c].0 == offline@[a].id@ && is_stale(
                            ps[c].1.update_at,
                            now,
                        ) && offline@[a].ip == ps[c].1.ip by {
                        if a < before.len() {
                            assert(offline@[a] == before[a]);
                        } else {
                            assert(ps[i as int].0 == offline@[a].id@);
                        }
                    }
                    assert forall|c: int|
                        0 <= c < i + 1 && is_stale(#[trigger] ps[c].1.update_at, now) implies exists|a: int|
                        0 <= a < offline@.len() && offline@[a].id@ == ps[c].0 by {
                        if c < i {
                            let a = choose|a: int|
                                0 <= a < before.len() && before[a].id@ == ps[c].0;
                            assert(offline@[a] == before[a]);
                        } else {
                            assert(offline@[before.len() as int].id@ == ps[c].0);
                        }
                    }
                }
            }
            i = i + 1;
        }
        proof {
            assert(ps.take(i as int) =~= ps);
            lemma_to_map_filtered(ps, entry_pairs(kept@), still_fresh(now));
            lemma_to_map_dom(ps);
            assert forall|a: int| 0 <= a < offline@.len() implies {
                let k = #[trigger] offline@[a].id@;
                &&& m.dom().contains(k)
                &&& is_stale(m[k].update_at, now)
                &&& offline@[a].ip == m[k].ip
            } by {
                let c = choose|c: int|
                    0 <= c < i && #[trigger] ps[c].0 == offline@[a].id@ && is_stale(
                        ps[c].1.update_at,
                        now,
                    ) && offline@[a].ip == ps[c].1.ip;
                lemma_to_map_index(ps, c);
            }
            assert forall|k: Seq<char>|
                m.dom().contains(k) && is_stale(#[trigger] m[k].update_at, now) implies exists|a: int|
                0 <= a < offline@.len() && offline@[a].id@ == k by {
                let c = choose|c: int| 0 <= c < ps.len() && ps[c].0 == k;
                lemma_to_map_index(ps, c);
            }
        }
        proof {
            let kp = entry_pairs(kept@);
            if has_key(kp, self.local_id@) {
                let b = choose|b: int| 0 <= b < kp.len() && kp[b].0 == self.local_id@;
                assert(kp.contains(kp[b]));
                assert(ps.contains(kp[b]));
                let c = choose|c: int| 0 <= c < ps.len() && ps[c] == kp[b];
                assert(ps[c].0 == self.local_id@);
            }
            lemma_to_map_dom(kp);
        }
        self.services = kept;
        offline
    }
}

/// Our own ping, coming back from the network, neither changes the
/// registry nor counts as a peer.
pub proof fn lemma_own_ping_ignored(
    local_id: Seq<char>,
    m: Map<Seq<char>, ServiceRecord>,
    sequence: u32,
    ip: IpAddress,
    now: u64,
)
    ensures
        ping_next(local_id, m, local_id, sequence, ip, now) == m,
        ping_outcome(local_id, m, local_id, sequence) == PingOutcome::FromSelf,
{
}

/// A peer comes online once: after one of its pings, its next ping is not
/// reported as coming online again, and it asks for metadata again exactly
/// when the sequence number it announces has changed.
pub proof fn lemma_online_once(
    local_id: Seq<char>,
    m: Map<Seq<char>, ServiceRecord>,
    id: Seq<char>,
    s1: u32,
    s2: u32,
    ip: IpAddress,
    t: u64,
)
    requires
        id != local_id,
    ensures
        ping_outcome(local_id, ping_next(local_id, m, id, s1, ip, t), id, s2) != PingOutcome::Online,
        ping_outcome(local_id, ping_next(local_id, m, id, s1, ip, t), id, s2)
            == PingOutcome::MetadataChanged <==> s1 != s2,
{
}

/// A peer whose last ping is less than the offline delay old survives a
/// tick, with the record that ping left.
pub proof fn lemma_recent_peer_survives_tick(
    local_id: Seq<char>,
    m: Map<Seq<char>, ServiceRecord>,
    id: Seq<char>,
    sequence: u32,
    ip: IpAddress,
    t: u64,
    now: u64,
)
    requires
        id != local_id,
        !is_stale(t, now),
    ensures
        tick_next(ping_next(local_id, m, id, sequence, ip, t), now).dom().contains(id),
        tick_next(ping_next(local_id, m, id, sequence, ip, t), now)[id] == ping_next(
            local_id,
            m,
            id,
            sequence,
            ip,
            t,
        )[id],
{
    let m2 = ping_next(local_id, m, id, sequence, ip, t);
    assert(m2.dom().contains(id));
    assert(m2[id].update_at == t);
    assert(still_fresh(now)(m2[id]));
}

/// After a tick no stale peer is left, and every peer left is unchanged.
pub proof fn lemma_tick_leaves_no_stale(m: Map<Seq<char>, ServiceRecord>, now: u64)
    ensures
        forall|k: Seq<char>|
            #[trigger] tick_next(m, now).dom().contains(k) ==> m.dom().contains(k) && !is_stale(
                m[k].update_at,
                now,
            ) && tick_next(m, now)[k] == m[k],
{
}

/// New metadata is fetched again: once a peer has recorded our sequence
/// number, the ping that follows a change of our metadata (the sequence
/// number advanced by one, wrapping) tells it the metadata changed.
pub proof fn lemma_new_metadata_is_fetched(
    peer_id: Seq<char>,
    m: Map<Seq<char>, ServiceRecord>,
    our_id: Seq<char>,
    sequence: u32,
)
    requires
        our_id != peer_id,
        m.dom().contains(our_id),
        m[our_id].sequence == sequence,
    ensures
        ping_outcome(peer_id, m, our_id, sequence.wrapping_add(1)) == PingOutcome::MetadataChanged,
        ping_outcome(peer_id, m, our_id, sequence) == PingOutcome::Refreshed,
{
}

} // verus!
