use vstd::prelude::*;

use crate::devices::DeviceType;
use crate::keyed::{
    has_key, keys_unique, lemma_to_map_dom, lemma_to_map_index, lemma_to_map_len, lemma_to_map_push,
    lemma_to_map_remove, lemma_to_map_update, lemma_unique_push, to_map,
};
use crate::manager::is_target_id;
use crate::media::MediaStreamDescription;
use crate::net::IpAddress;
use crate::text::{owned, str_equals};

verus! {

/// How to reach a device's stream.
#[derive(Debug, Clone, Copy, PartialEq, Eq, Structural)]
pub struct DeviceMetadata {
    pub port: u16,
    pub description: MediaStreamDescription,
}

/// A device on the network as the user interface lists it.
pub struct Device {
    pub name: String,
    pub ip: IpAddress,
    pub kind: DeviceType,
    pub metadata: Option<DeviceMetadata>,
}

pub struct PeerView {
    pub name: Seq<char>,
    pub ip: IpAddress,
    pub kind: DeviceType,
    pub metadata: Option<DeviceMetadata>,
}

impl Device {
    pub open spec fn view(&self) -> PeerView {
        PeerView { name: self.name@, ip: self.ip, kind: self.kind, metadata: self.metadata }
    }
}

/// What a device publishes about itself.
pub struct ServiceMessage {
    /// The peers it is meant for; everyone when empty.
    pub targets: Vec<String>,
    pub name: String,
    pub kind: DeviceType,
    pub metadata: Option<DeviceMetadata>,
}

/// A message about the list of devices.
pub enum DiscoveryDescription {
    MediaStreamDescription(MediaStreamDescription),
}

pub struct PeerEntry {
    pub id: String,
    pub device: Device,
}

pub open spec fn peer_pairs(s: Seq<PeerEntry>) -> Seq<(Seq<char>, PeerView)> {
    s.map_values(|e: PeerEntry| (e.id@, e.device.view()))
}

fn find_peer(v: &Vec<PeerEntry>, id: &str) -> (r: Option<usize>)
    ensures
        match r {
            Some(i) => i < v@.len() && v@[i as int].id@ == id@,
            None => !has_key(peer_pairs(v@), id@),
        },
{
    let mut i: usize = 0;
    while i < v.len()
        invariant
            i <= v@.len(),
            forall|j: int| 0 <= j < i ==> v@[j].id@ != id@,
        decreases v@.len() - i,
    {
        if str_equals(v[i].id.as_str(), id) {
            return Some(i);
        }
        i = i + 1;
    }
    proof {
        let ps = peer_pairs(v@);
        if has_key(ps, id@) {
            let j = choose|j: int| 0 <= j < ps.len() && ps[j].0 == id@;
            assert(ps[j].0 == v@[j].id@);
        }
    }
    None
}

/// The devices that announced themselves to us, by their discovery identity.
pub struct PeerDevices {
    devices: Vec<PeerEntry>,
}

/// Whether a published message is meant for the peer `local_id`.
pub open spec fn meant_for(targets: Seq<String>, local_id: Seq<char>) -> bool {
    targets.len() == 0 || exists|j: int| 0 <= j < targets.len() && #[trigger] targets[j]@ == local_id
}

impl PeerDevices {
    #[verifier::type_invariant]
    spec fn inv(self) -> bool {
        keys_unique(peer_pairs(self.devices@))
    }

    pub closed spec fn devices(self) -> Map<Seq<char>, PeerView> {
        to_map(peer_pairs(self.devices@))
    }

    pub fn new() -> (p: PeerDevices)
        ensures
            p.devices() == Map::<Seq<char>, PeerView>::empty(),
    {
        let p = PeerDevices { devices: Vec::new() };
        assert(peer_pairs(p.devices@) =~= Seq::<(Seq<char>, PeerView)>::empty());
        p
    }

    /// Takes in what the peer `id` at `ip` published. It is recorded only
    /// when it is meant for us; the answer says whether the list changed.
    pub fn on_metadata(&mut self, local_id: &str, id: &str, ip: IpAddress, message: ServiceMessage) -> (changed: bool)
        ensures
            changed == meant_for(message.targets@, local_id@),
            final(self).devices() == (if changed {
                old(self).devices().insert(
                    id@,
                    PeerView { name: message.name@, ip, kind: message.kind, metadata: message.metadata },
                )
            } else {
                old(self).devices()
            }),
    {
        proof {
            use_type_invariant(&*self);
        }
        if !is_target_id(&message.targets, local_id) {
            return false;
        }
        let device = Device { name: message.name, ip, kind: message.kind, metadata: message.metadata };
        let ghost dv = device.view();
        let mut devices: Vec<PeerEntry> = Vec::new();
        std::mem::swap(&mut devices, &mut self.devices);
        let ghost before = devices@;
        match find_peer(&devices, id) {
            Some(i) => {
                proof {
                    assert(peer_pairs(before)[i as int].0 == id@);
                    lemma_to_map_update(peer_pairs(before), i as int, dv);
                }
                devices.set(i, PeerEntry { id: owned(id), device });
                assert(peer_pairs(devices@) =~= peer_pairs(before).update(
                    i as int,
                    (peer_pairs(before)[i as int].0, dv),
                ));
            },
            None => {
                proof {
                    lemma_unique_push(peer_pairs(before), id@, dv);
                    lemma_to_map_push(peer_pairs(before), id@, dv);
                }
                devices.push(PeerEntry { id: owned(id), device });
                assert(peer_pairs(devices@) =~= peer_pairs(before).push((id@, dv)));
            },
        }
        self.devices = devices;
        true
    }

    /// Forgets a peer that went offline.
    pub fn offline(&mut self, id: &str)
        ensures
            final(self).devices() == old(self).devices().remove(id@),
    {
        proof {
            use_type_invariant(&*self);
            lemma_to_map_dom(peer_pairs(self.devices@));
        }
        let mut devices: Vec<PeerEntry> = Vec::new();
        std::mem::swap(&mut devices, &mut self.devices);
        let ghost before = devices@;
        match find_peer(&devices, id) {
            Some(i) => {
                proof {
                    assert(peer_pairs(before)[i as int].0 == id@);
                    lemma_to_map_remove(peer_pairs(before), i as int);
                }
                devices.remove(i);
                assert(peer_pairs(devices@) =~= peer_pairs(before).remove(i as int));
            },
            None => {
                assert(to_map(peer_pairs(before)).remove(id@) =~= to_map(peer_pairs(before)));
            },
        }
        self.devices = devices;
    }

    /// Lists the known devices.
    pub fn get_devices(&self) -> (r: Vec<Device>)
        ensures
            r@.len() == self.devices().dom().len(),
            forall|j: int| 0 <= j < r@.len() ==> lists_peer(self.devices(), #[trigger] r@[j]),
            forall|k: Seq<char>|
                #[trigger] self.devices().dom().contains(k) ==> exists|j: int|
                    0 <= j < r@.len() && r@[j].view() == self.devices()[k],
    {
        proof {
            use_type_invariant(self);
            lemma_to_map_dom(peer_pairs(self.devices@));
            lemma_to_map_len(peer_pairs(self.devices@));
        }
        let ghost ps = peer_pairs(self.devices@);
        let mut r: Vec<Device> = Vec::new();
        let mut i: usize = 0;
        while i < self.devices.len()
            invariant
                i <= self.devices@.len(),
                ps == peer_pairs(self.devices@),
                r@.len() == i,
                forall|j: int| 0 <= j < i ==> (#[trigger] r@[j]).view() == ps[j].1,
            decreases self.devices@.len() - i,
        {
            let d = &self.devices[i].device;
            r.push(Device { name: d.name.clone(), ip: d.ip, kind: d.kind, metadata: d.metadata });
            i = i + 1;
        }
        proof {
            assert forall|j: int| 0 <= j < r@.len() implies lists_peer(self.devices(), #[trigger] r@[j]) by {
                lemma_to_map_index(ps, j);
                assert(self.devices().dom().contains(ps[j].0));
            }
            assert forall|k: Seq<char>| #[trigger] self.devices().dom().contains(k) implies exists|j: int|
                0 <= j < r@.len() && r@[j].view() == self.devices()[k] by {
                let j = choose|j: int| 0 <= j < ps.len() && ps[j].0 == k;
                lemma_to_map_index(ps, j);
                assert(r@[j].view() == self.devices()[k]);
            }
        }
        r
    }
}

/// The listed device is one of the known devices.
pub open spec fn lists_peer(m: Map<Seq<char>, PeerView>, d: Device) -> bool {
    exists|k: Seq<char>| #[trigger] m.dom().contains(k) && m[k] == d.view()
}

/// A device listed from what it published is no longer listed once it
/// goes offline, and the other devices stay as they were.
pub proof fn lemma_offline_unlists(m: Map<Seq<char>, PeerView>, id: Seq<char>, v: PeerView)
    ensures
        !m.insert(id, v).remove(id).dom().contains(id),
        forall|k: Seq<char>|
            k != id ==> (#[trigger] m.insert(id, v).remove(id).dom().contains(k) <==> m.dom().contains(k)),
{
}

} // verus!
