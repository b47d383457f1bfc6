use vstd::prelude::*;

use crate::keyed::{
    has_key, keys_unique, lemma_push_contains, lemma_to_map_dom, lemma_to_map_index,
    lemma_to_map_len, lemma_to_map_push, lemma_to_map_remove, lemma_to_map_update, lemma_unique_push, to_map,
};
use crate::media::MediaStreamDescription;
use std::collections::HashMap;
use crate::text::{owned, str_equals};

verus! {

/// The kind of machine a device runs on.
#[derive(Debug, Clone, Copy, PartialEq, Eq, Structural)]
pub enum DeviceType {
    Windows,
    Android,
    Apple,
    Linux,
}

/// A remote device as the table holds it. Addresses are IPv4 addresses
/// held as integers.
pub struct Device {
    pub name: String,
    pub kind: DeviceType,
    pub addrs: Vec<u32>,
    pub port: u16,
    pub description: Option<MediaStreamDescription>,
}

/// The abstract value of a [`Device`].
pub struct DeviceView {
    pub name: Seq<char>,
    pub kind: DeviceType,
    pub addrs: Seq<u32>,
    pub port: u16,
    pub description: Option<MediaStreamDescription>,
}

impl Device {
    pub open spec fn view(&self) -> DeviceView {
        DeviceView {
            name: self.name@,
            kind: self.kind,
            addrs: self.addrs@,
            port: self.port,
            description: self.description,
        }
    }
}

/// What is reported about a device to the user interface.
pub struct DeviceInfo {
    pub description: Option<MediaStreamDescription>,
    pub addrs: Vec<u32>,
    pub kind: DeviceType,
    pub name: String,
    pub port: u16,
}

/// Which devices to take out of the table.
pub enum DevicesRemoveParams<'a> {
    Name(String),
    IpAddr(u32),
    Names(&'a [String]),
}

pub struct DeviceEntry {
    pub name: String,
    pub device: Device,
}

/// The names of an address table, as text.
pub open spec fn names_of(m: Map<u32, String>) -> Map<u32, Seq<char>> {
    m.map_values(|s: String| s@)
}

pub open spec fn device_pairs(s: Seq<DeviceEntry>) -> Seq<(Seq<char>, DeviceView)> {
    s.map_values(|e: DeviceEntry| (e.name@, e.device.view()))
}

/// Every address of `addrs` now names `name`; other addresses keep theirs.
pub open spec fn assign_addrs(m: Map<u32, Seq<char>>, addrs: Seq<u32>, name: Seq<char>) -> Map<
    u32,
    Seq<char>,
> {
    Map::new(
        |ip: u32| m.dom().contains(ip) || addrs.contains(ip),
        |ip: u32|
            if addrs.contains(ip) {
                name
            } else {
                m[ip]
            },
    )
}

/// The addresses of `addrs` no longer name anything.
pub open spec fn drop_addrs(m: Map<u32, Seq<char>>, addrs: Seq<u32>) -> Map<u32, Seq<char>> {
    Map::new(|ip: u32| m.dom().contains(ip) && !addrs.contains(ip), |ip: u32| m[ip])
}

/// Removing one name: the device goes, and so do the address entries of
/// each of its addresses, whatever name they point to now.
pub open spec fn remove_name(
    t: Map<Seq<char>, DeviceView>,
    a: Map<u32, Seq<char>>,
    n: Seq<char>,
) -> (Map<Seq<char>, DeviceView>, Map<u32, Seq<char>>) {
    if t.dom().contains(n) {
        (t.remove(n), drop_addrs(a, t[n].addrs))
    } else {
        (t, a)
    }
}

/// Removing names one after the other.
pub open spec fn remove_names(
    t: Map<Seq<char>, DeviceView>,
    a: Map<u32, Seq<char>>,
    names: Seq<Seq<char>>,
) -> (Map<Seq<char>, DeviceView>, Map<u32, Seq<char>>)
    decreases names.len(),
{
    if names.len() == 0 {
        (t, a)
    } else {
        let r = remove_names(t, a, names.drop_last());
        remove_name(r.0, r.1, names.last())
    }
}

/// The names a removal request stands for, given the address table.
pub open spec fn removal_names(p: DevicesRemoveParams, a: Map<u32, Seq<char>>) -> Seq<Seq<char>> {
    match p {
        DevicesRemoveParams::Name(n) => seq![n@],
        DevicesRemoveParams::Names(list) => list@.map_values(|s: String| s@),
        DevicesRemoveParams::IpAddr(ip) => if a.dom().contains(ip) {
            seq![a[ip]]
        } else {
            Seq::empty()
        },
    }
}

fn copy_addrs(v: &Vec<u32>) -> (r: Vec<u32>)
    ensures
        r@ == v@,
{
    let mut r: Vec<u32> = Vec::new();
    let mut i: usize = 0;
    while i < v.len()
        invariant
            i <= v@.len(),
            r@ == v@.take(i as int),
        decreases v@.len() - i,
    {
        r.push(v[i]);
        i = i + 1;
        assert(r@ =~= v@.take(i as int));
    }
    assert(v@.take(i as int) =~= v@);
    r
}

fn addr_name(v: &HashMap<u32, String>, ip: u32) -> (r: Option<String>)
    ensures
        match r {
            Some(n) => names_of(v@).dom().contains(ip) && n@ == names_of(v@)[ip],
            None => !names_of(v@).dom().contains(ip),
        },
{
    broadcast use vstd::std_specs::hash::group_hash_axioms;

    match v.get(&ip) {
        Some(n) => Some(n.clone()),
        None => None,
    }
}

fn find_device(v: &Vec<DeviceEntry>, name: &str) -> (r: Option<usize>)
    ensures
        match r {
            Some(i) => i < v@.len() && v@[i as int].name@ == name@,
            None => !has_key(device_pairs(v@), name@),
        },
{
    let mut i: usize = 0;
    while i < v.len()
        invariant
            i <= v@.len(),
            forall|j: int| 0 <= j < i ==> v@[j].name@ != name@,
        decreases v@.len() - i,
    {
        if str_equals(v[i].name.as_str(), name) {
            return Some(i);
        }
        i = i + 1;
    }
    proof {
        let ps = device_pairs(v@);
        if has_key(ps, name@) {
            let j = choose|j: int| 0 <= j < ps.len() && ps[j].0 == name@;
            assert(ps[j].0 == v@[j].name@);
        }
    }
    None
}

fn set_addr(v: &mut HashMap<u32, String>, ip: u32, name: &str)
    ensures
        names_of(final(v)@) == names_of(old(v)@).insert(ip, name@),
{
    broadcast use vstd::std_specs::hash::group_hash_axioms;

    v.insert(ip, owned(name));
    assert(names_of(v@) =~= names_of(old(v)@).insert(ip, name@));
}

fn remove_addr(v: &mut HashMap<u32, String>, ip: u32)
    ensures
        names_of(final(v)@) == names_of(old(v)@).remove(ip),
{
    broadcast use vstd::std_specs::hash::group_hash_axioms;

    v.remove(&ip);
    assert(names_of(v@) =~= names_of(old(v)@).remove(ip));
}

/// The table of connected devices: devices by name, and the name each
/// known address belongs to.
pub struct Devices {
    anm: HashMap<u32, String>,
    table: Vec<DeviceEntry>,
}

impl Devices {
    #[verifier::type_invariant]
    spec fn inv(self) -> bool {
        keys_unique(device_pairs(self.table@))
    }

    /// The name each known address belongs to.
    pub closed spec fn addr_names(self) -> Map<u32, Seq<char>> {
        names_of(self.anm@)
    }

    /// The devices by name.
    pub closed spec fn devices(self) -> Map<Seq<char>, DeviceView> {
        to_map(device_pairs(self.table@))
    }

    pub fn new() -> (d: Devices)
        ensures
            d.addr_names() == Map::<u32, Seq<char>>::empty(),
            d.devices() == Map::<Seq<char>, DeviceView>::empty(),
    {
        let d = Devices { anm: HashMap::new(), table: Vec::new() };
        assert(names_of(d.anm@) =~= Map::<u32, Seq<char>>::empty());
        assert(device_pairs(d.table@) =~= Seq::<(Seq<char>, DeviceView)>::empty());
        d
    }

    /// Adds (or replaces) the device under `name`; each of its addresses
    /// now names it.
    pub fn add(&mut self, name: &str, device: Device)
        ensures
            final(self).devices() == old(self).devices().insert(name@, device.view()),
            final(self).addr_names() == assign_addrs(old(self).addr_names(), device.addrs@, name@),
    {
        proof {
            use_type_invariant(&*self);
        }
        let mut anm: HashMap<u32, String> = HashMap::new();
        std::mem::swap(&mut anm, &mut self.anm);
        let ghost m0 = names_of(anm@);
        let mut i: usize = 0;
        while i < device.addrs.len()
            invariant
                i <= device.addrs@.len(),
                names_of(anm@) == assign_addrs(m0, device.addrs@.take(i as int), name@),
            decreases device.addrs@.len() - i,
        {
            set_addr(&mut anm, device.addrs[i], name);
            proof {
                let t = device.addrs@.take(i + 1);
                assert(t =~= device.addrs@.take(i as int).push(device.addrs@[i as int]));
                assert forall|ip: u32| #[trigger] t.contains(ip) <==> (device.addrs@.take(
                    i as int,
                ).contains(ip) || ip == device.addrs@[i as int]) by {
                    lemma_push_contains(device.addrs@.take(i as int), device.addrs@[i as int], ip);
                }
                assert(names_of(anm@) =~= assign_addrs(m0, t, name@));
            }
            i = i + 1;
        }
        assert(device.addrs@.take(i as int) =~= device.addrs@);
        self.anm = anm;
        let mut table: Vec<DeviceEntry> = Vec::new();
        std::mem::swap(&mut table, &mut self.table);
        let ghost before = table@;
        let ghost dv = device.view();
        match find_device(&table, name) {
            Some(j) => {
                proof {
                    let ps = device_pairs(before);
                    assert(ps[j as int].0 == name@);
                    lemma_to_map_update(ps, j as int, dv);
                }
                table.set(j, DeviceEntry { name: owned(name), device });
                assert(device_pairs(table@) =~= device_pairs(before).update(
                    j as int,
                    (device_pairs(before)[j as int].0, dv),
                ));
            },
            None => {
                proof {
                    lemma_unique_push(device_pairs(before), name@, dv);
                    lemma_to_map_push(device_pairs(before), name@, dv);
                }
                table.push(DeviceEntry { name: owned(name), device });
                assert(device_pairs(table@) =~= device_pairs(before).push((name@, dv)));
            },
        }
        self.table = table;
    }

    fn remove_one(anm: &mut HashMap<u32, String>, table: &mut Vec<DeviceEntry>, name: &str)
        requires
            keys_unique(device_pairs(old(table)@)),
        ensures
            keys_unique(device_pairs(final(table)@)),
            (to_map(device_pairs(final(table)@)), names_of(final(anm)@)) == remove_name(
                to_map(device_pairs(old(table)@)),
                names_of(old(anm)@),
                name@,
            ),
    {
        let ghost t0 = to_map(device_pairs(table@));
        proof {
            lemma_to_map_dom(device_pairs(table@));
        }
        match find_device(table, name) {
            Some(j) => {
                let ghost before = table@;
                proof {
                    let ps = device_pairs(before);
                    assert(ps[j as int].0 == name@);
                    lemma_to_map_index(ps, j as int);
                    lemma_to_map_remove(ps, j as int);
                }
                let entry = table.remove(j);
                assert(device_pairs(table@) =~= device_pairs(before).remove(j as int));
                let addrs = entry.device.addrs;
                let ghost m0 = names_of(anm@);
                let mut i: usize = 0;
                while i < addrs.len()
                    invariant
                        i <= addrs@.len(),
                        names_of(anm@) == drop_addrs(m0, addrs@.take(i as int)),
                    decreases addrs@.len() - i,
                {
                    remove_addr(anm, addrs[i]);
                    proof {
                        let t = addrs@.take(i + 1);
                        assert(t =~= addrs@.take(i as int).push(addrs@[i as int]));
                        assert forall|ip: u32| #[trigger] t.contains(ip) <==> (addrs@.take(
                            i as int,
                        ).contains(ip) || ip == addrs@[i as int]) by {
                            lemma_push_contains(addrs@.take(i as int), addrs@[i as int], ip);
                        }
                        assert(names_of(anm@) =~= drop_addrs(m0, t));
                    }
                    i = i + 1;
                }
                assert(addrs@.take(i as int) =~= addrs@);
                assert(t0[name@].addrs == addrs@);
            },
            None => {
            },
        }
    }

    /// Takes devices out: one by name, several by name, or the one an
    /// address belongs to. Each device leaves with all its address entries.
    pub fn remove(&mut self, params: DevicesRemoveParams)
        ensures
            (final(self).devices(), final(self).addr_names()) == remove_names(
                old(self).devices(),
                old(self).addr_names(),
                removal_names(params, old(self).addr_names()),
            ),
    {
        proof {
            use_type_invariant(&*self);
        }
        let ghost t0 = self.devices();
        let ghost a0 = self.addr_names();
        let ghost names = removal_names(params, a0);
        let mut anm: HashMap<u32, String> = HashMap::new();
        std::mem::swap(&mut anm, &mut self.anm);
        let mut table: Vec<DeviceEntry> = Vec::new();
        std::mem::swap(&mut table, &mut self.table);
        let mut items: Vec<String> = Vec::new();
        match params {
            DevicesRemoveParams::Name(n) => {
                items.push(n);
            },
            DevicesRemoveParams::Names(list) => {
                let mut k: usize = 0;
                while k < list.len()
                    invariant
                        k <= list@.len(),
                        items@.len() == k,
                        forall|j: int| 0 <= j < k ==> #[trigger] items@[j]@ == list@[j]@,
                    decreases list@.len() - k,
                {
                    items.push(list[k].clone());
                    k = k + 1;
                }
            },
            DevicesRemoveParams::IpAddr(ip) => {
                match addr_name(&anm, ip) {
                    Some(n) => {
                        items.push(n);
                    },
                    None => {
                    },
                }
            },
        }
        assert(items@.map_values(|s: String| s@) =~= names);
        let mut i: usize = 0;
        while i < items.len()
            invariant
                i <= items@.len(),
                items@.map_values(|s: String| s@) == names,
                keys_unique(device_pairs(table@)),
                (to_map(device_pairs(table@)), names_of(anm@)) == remove_names(
                    t0,
                    a0,
                    names.take(i as int),
                ),
            decreases items@.len() - i,
        {
            Self::remove_one(&mut anm, &mut table, items[i].as_str());
            assert(names.take(i + 1).drop_last() =~= names.take(i as int));
            i = i + 1;
        }
        assert(names.take(i as int) =~= names);
        self.anm = anm;
        self.table = table;
    }

    /// Sets the stream description of the device that `addr` belongs to,
    /// if the address is known and its device is in the table.
    pub fn update_description(&mut self, addr: u32, description: Option<MediaStreamDescription>)
        ensures
            final(self).addr_names() == old(self).addr_names(),
            final(self).devices() == (if old(self).addr_names().dom().contains(addr)
                && old(self).devices().dom().contains(old(self).addr_names()[addr]) {
                old(self).devices().insert(
                    old(self).addr_names()[addr],
                    DeviceView { description, ..old(self).devices()[old(self).addr_names()[addr]] },
                )
            } else {
                old(self).devices()
            }),
    {
        proof {
            use_type_invariant(&*self);
            lemma_to_map_dom(device_pairs(self.table@));
        }
        match addr_name(&self.anm, addr) {
            Some(owner) => {
                match find_device(&self.table, owner.as_str()) {
                    Some(j) => {
                        let mut table: Vec<DeviceEntry> = Vec::new();
                        std::mem::swap(&mut table, &mut self.table);
                        let ghost before = table@;
                        let ghost ps = device_pairs(before);
                        proof {
                            lemma_to_map_index(ps, j as int);
                        }
                        let mut entry = table.remove(j);
                        entry.device.description = description;
                        let ghost dv = entry.device.view();
                        table.insert(j, entry);
                        proof {
                            assert(table@ =~= before.update(j as int, table@[j as int]));
                            lemma_to_map_update(ps, j as int, dv);
                            assert(device_pairs(table@) =~= ps.update(j as int, (ps[j as int].0, dv)));
                        }
                        self.table = table;
                    },
                    None => {
                    },
                }
            },
            None => {
            },
        }
    }

    /// Reports every device in the table, with its own name.
    pub fn get_devices(&self) -> (r: Vec<DeviceInfo>)
        ensures
            r@.len() == self.devices().dom().len(),
            forall|j: int| 0 <= j < r@.len() ==> describes_some(self.devices(), #[trigger] r@[j]),
            forall|k: Seq<char>|
                #[trigger] self.devices().dom().contains(k) ==> exists|j: int|
                    0 <= j < r@.len() && info_matches(r@[j], self.devices()[k]),
    {
        proof {
            use_type_invariant(self);
            lemma_to_map_dom(device_pairs(self.table@));
            lemma_to_map_len(device_pairs(self.table@));
        }
        let ghost ps = device_pairs(self.table@);
        let mut r: Vec<DeviceInfo> = Vec::new();
        let mut i: usize = 0;
        while i < self.table.len()
            invariant
                i <= self.table@.len(),
                ps == device_pairs(self.table@),
                keys_unique(ps),
                r@.len() == i,
                forall|j: int| 0 <= j < i ==> info_matches(#[trigger] r@[j], ps[j].1),
            decreases self.table@.len() - i,
        {
            let d = &self.table[i].device;
            r.push(
                DeviceInfo {
                    description: d.description,
                    addrs: copy_addrs(&d.addrs),
                    kind: d.kind,
                    name: d.name.clone(),
                    port: d.port,
                },
            );
            i = i + 1;
        }
        proof {
            assert forall|j: int| 0 <= j < r@.len() implies describes_some(self.devices(), #[trigger] r@[j]) by {
                lemma_to_map_index(ps, j);
                assert(self.devices().dom().contains(ps[j].0));
                assert(info_matches(r@[j], self.devices()[ps[j].0]));
            }
            assert forall|k: Seq<char>| #[trigger] self.devices().dom().contains(k) implies exists|
                j: int,
            | 0 <= j < r@.len() && info_matches(r@[j], self.devices()[k]) by {
                let j = choose|j: int| 0 <= j < ps.len() && ps[j].0 == k;
                lemma_to_map_index(ps, j);
                assert(info_matches(r@[j], self.devices()[k]));
            }
        }
        r
    }


    /// The devices a description is sent to: every device when no name is
    /// given, else the given names that are in the table, in the order and
    /// with the repetitions of the list.
    pub fn description_targets(&self, names: &Vec<String>) -> (r: Vec<String>)
        ensures
            names@.len() == 0 ==> {
                &&& r@.len() == self.devices().dom().len()
                &&& forall|a: int, b: int|
                    0 <= a < r@.len() && 0 <= b < r@.len() && a != b ==> r@[a]@ != r@[b]@
                &&& forall|k: Seq<char>|
                    self.devices().dom().contains(k) <==> exists|a: int|
                        0 <= a < r@.len() && #[trigger] r@[a]@ == k
            },
            names@.len() != 0 ==> r@.map_values(|s: String| s@) == names@.map_values(
                |s: String| s@,
            ).filter(|n: Seq<char>| self.devices().dom().contains(n)),
    {
        proof {
            use_type_invariant(self);
            lemma_to_map_dom(device_pairs(self.table@));
            lemma_to_map_len(device_pairs(self.table@));
        }
        let ghost ps = device_pairs(self.table@);
        let mut r: Vec<String> = Vec::new();
        if names.len() == 0 {
            let mut i: usize = 0;
            while i < self.table.len()
                invariant
                    i <= self.table@.len(),
                    ps == device_pairs(self.table@),
                    r@.len() == i,
                    forall|a: int| 0 <= a < i ==> #[trigger] r@[a]@ == ps[a].0,
                decreases self.table@.len() - i,
            {
                r.push(self.table[i].name.clone());
                i = i + 1;
            }
            proof {
                assert forall|k: Seq<char>| self.devices().dom().contains(k) implies exists|a: int|
                    0 <= a < r@.len() && #[trigger] r@[a]@ == k by {
                    let a = choose|a: int| 0 <= a < ps.len() && ps[a].0 == k;
                    assert(r@[a]@ == k);
                }
                assert forall|k: Seq<char>|
                    (exists|a: int| 0 <= a < r@.len() && #[trigger] r@[a]@ == k) implies self.devices().dom().contains(k) by {
                    let a = choose|a: int| 0 <= a < r@.len() && #[trigger] r@[a]@ == k;
                    assert(has_key(ps, k));
                }
            }
        } else {
            let ghost nv = names@.map_values(|s: String| s@);
            let ghost dom = self.devices().dom();
            let mut i: usize = 0;
            while i < names.len()
                invariant
                    i <= names@.len(),
                    nv == names@.map_values(|s: String| s@),
                    ps == device_pairs(self.table@),
                    dom == to_map(ps).dom(),
                    forall|k: Seq<char>| #[trigger] dom.contains(k) <==> has_key(ps, k),
                    r@.map_values(|s: String| s@) == nv.take(i as int).filter(
                        |n: Seq<char>| dom.contains(n),
                    ),
                decreases names@.len() - i,
            {
                let ghost before = r@;
                assert(nv.take(i + 1).drop_last() =~= nv.take(i as int));
                proof {
                    reveal_with_fuel(Seq::<_>::filter, 1);
                    assert(nv.take(i + 1).last() == names@[i as int]@);
                }
                match find_device(&self.table, names[i].as_str()) {
                    Some(j) => {
                        assert(ps[j as int].0 == names@[i as int]@);
                        assert(has_key(ps, names@[i as int]@));
                        r.push(names[i].clone());
                        assert(r@.map_values(|s: String| s@) =~= before.map_values(|s: String| s@).push(nv[i as int]));
                    },
                    None => {
                    },
                }
                i = i + 1;
            }
            assert(nv.take(i as int) =~= nv);
        }
        r
    }
}

/// The report describes one of the devices of the table.
pub open spec fn describes_some(m: Map<Seq<char>, DeviceView>, i: DeviceInfo) -> bool {
    exists|k: Seq<char>| #[trigger] m.dom().contains(k) && info_matches(i, m[k])
}

/// A report carries exactly what the table holds of the device.
pub open spec fn info_matches(i: DeviceInfo, d: DeviceView) -> bool {
    &&& i.description == d.description
    &&& i.addrs@ == d.addrs
    &&& i.kind == d.kind
    &&& i.name@ == d.name
    &&& i.port == d.port
}

/// A device added under a name and then removed by that name is gone,
/// together with every address it brought.
pub proof fn lemma_add_then_remove(
    t: Map<Seq<char>, DeviceView>,
    a: Map<u32, Seq<char>>,
    name: Seq<char>,
    d: DeviceView,
)
    ensures
        ({
            let r = remove_name(t.insert(name, d), assign_addrs(a, d.addrs, name), name);
            &&& !r.0.dom().contains(name)
            &&& forall|ip: u32| d.addrs.contains(ip) ==> !#[trigger] r.1.dom().contains(ip)
            &&& forall|k: Seq<char>| k != name ==> (#[trigger] r.0.dom().contains(k) <==> t.dom().contains(k))
        }),
{
    assert(t.insert(name, d).dom().contains(name));
}

/// Removing by a known address takes out the device it names, with all of
/// that device's addresses, the given one among them when the device holds it.
pub proof fn lemma_remove_by_addr(t: Map<Seq<char>, DeviceView>, a: Map<u32, Seq<char>>, ip: u32)
    requires
        a.dom().contains(ip),
        t.dom().contains(a[ip]),
    ensures
        ({
            let names = seq![a[ip]];
            let r = remove_names(t, a, names);
            &&& !r.0.dom().contains(a[ip])
            &&& forall|x: u32| t[a[ip]].addrs.contains(x) ==> !#[trigger] r.1.dom().contains(x)
        }),
{
    let names = seq![a[ip]];
    assert(names.drop_last() =~= Seq::<Seq<char>>::empty());
    assert(names.last() == a[ip]);
    assert(remove_names(t, a, names.drop_last()) == (t, a));
    assert(remove_names(t, a, names) == remove_name(t, a, a[ip]));
}

/// The description kept for devices that appear later: one sent to every
/// device (no name given) is kept, one sent to named devices clears it.
pub fn broadcast_description(names: &Vec<String>, description: MediaStreamDescription) -> (r: Option<MediaStreamDescription>)
    ensures
        r == (if names@.len() == 0 {
            Some(description)
        } else {
            None::<MediaStreamDescription>
        }),
{
    if names.len() == 0 {
        Some(description)
    } else {
        None
    }
}

/// Removing a list of names takes out exactly the listed devices that
/// were in the table, each with every address it held, leaves every other
/// device as it was, and adds no address.
pub proof fn lemma_removed_devices_gone(
    t: Map<Seq<char>, DeviceView>,
    a: Map<u32, Seq<char>>,
    names: Seq<Seq<char>>,
)
    ensures
        ({
            let r = remove_names(t, a, names);
            &&& forall|k: Seq<char>| #[trigger] r.0.dom().contains(k) <==> (t.dom().contains(k) && !names.contains(k))
            &&& forall|k: Seq<char>| #[trigger] r.0.dom().contains(k) ==> r.0[k] == t[k]
            &&& forall|n: Seq<char>, ip: u32|
                names.contains(n) && t.dom().contains(n) && #[trigger] t[n].addrs.contains(ip) ==> !#[trigger] r.1.dom().contains(ip)
            &&& forall|ip: u32| #[trigger] r.1.dom().contains(ip) ==> a.dom().contains(ip) && r.1[ip] == a[ip]
        }),
    decreases names.len(),
{
    if names.len() > 0 {
        let init = names.drop_last();
        let last = names.last();
        lemma_removed_devices_gone(t, a, init);
        let p = remove_names(t, a, init);
        let r = remove_names(t, a, names);
        assert(r == remove_name(p.0, p.1, last));
        assert forall|k: Seq<char>| names.contains(k) <==> (init.contains(k) || k == last) by {
            if names.contains(k) {
                let i = choose|i: int| 0 <= i < names.len() && names[i] == k;
                if i < names.len() - 1 {
                    assert(init[i] == k);
                }
            }
            if init.contains(k) {
                let i = choose|i: int| 0 <= i < init.len() && init[i] == k;
                assert(names[i] == k);
            }
            if k == last {
                assert(names[names.len() - 1] == k);
            }
        }
        assert forall|n: Seq<char>, ip: u32|
            names.contains(n) && t.dom().contains(n) && #[trigger] t[n].addrs.contains(ip) implies !#[trigger] r.1.dom().contains(ip) by {
            if init.contains(n) {
                assert(!p.1.dom().contains(ip));
            } else {
                assert(n == last);
                assert(p.0.dom().contains(n));
                assert(p.0[n] == t[n]);
            }
        }
    }
}

/// Removing devices keeps the entry of every address that no removed
/// device held: it still names what it named before.
pub proof fn lemma_removal_keeps_other_addresses(
    t: Map<Seq<char>, DeviceView>,
    a: Map<u32, Seq<char>>,
    names: Seq<Seq<char>>,
    ip: u32,
)
    requires
        a.dom().contains(ip),
        forall|n: Seq<char>| #[trigger] names.contains(n) && t.dom().contains(n) ==> !t[n].addrs.contains(ip),
    ensures
        remove_names(t, a, names).1.dom().contains(ip),
        remove_names(t, a, names).1[ip] == a[ip],
    decreases names.len(),
{
    if names.len() > 0 {
        let init = names.drop_last();
        let last = names.last();
        assert forall|n: Seq<char>| #[trigger] init.contains(n) && t.dom().contains(n) implies !t[n].addrs.contains(ip) by {
            let i = choose|i: int| 0 <= i < init.len() && init[i] == n;
            assert(names[i] == n);
            assert(names.contains(n));
        }
        lemma_removal_keeps_other_addresses(t, a, init, ip);
        lemma_removed_devices_gone(t, a, init);
        let p = remove_names(t, a, init);
        assert(remove_names(t, a, names) == remove_name(p.0, p.1, last));
        if p.0.dom().contains(last) {
            assert(names[names.len() - 1] == last);
            assert(names.contains(last));
            assert(p.0[last] == t[last]);
        }
    }
}

} // verus!
