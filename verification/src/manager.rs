use vstd::prelude::*;

use crate::devices::DeviceType;
use crate::discovery::{is_hyphenated_uuid_v4, random_service_id};
use crate::media::MediaStreamDescription;
use std::collections::HashMap;
use crate::text::{owned, str_equals};

verus! {

/// The two length bytes, most significant first, that announce a payload of
/// `n` bytes; the length is taken modulo 65536.
pub open spec fn length_prefix(n: nat) -> Seq<u8> {
    let m = n % 65536;
    seq![(m / 256) as u8, (m % 256) as u8]
}

/// The big-endian value of two bytes.
pub open spec fn be_u16(hi: u8, lo: u8) -> nat {
    (hi as nat) * 256 + (lo as nat)
}

/// A frame on the device information stream: the payload behind its length.
pub open spec fn frame_of(payload: Seq<u8>) -> Seq<u8> {
    length_prefix(payload.len()) + payload
}

/// Frames a payload for the device information stream.
pub fn encode_frame(payload: &[u8]) -> (r: Vec<u8>)
    ensures
        r@ == frame_of(payload@),
{
    let n: usize = payload.len() % 65536;
    let mut r: Vec<u8> = Vec::new();
    r.push((n / 256) as u8);
    r.push((n % 256) as u8);
    let mut i: usize = 0;
    while i < payload.len()
        invariant
            i <= payload@.len(),
            n == payload@.len() % 65536,
            r@ == length_prefix(payload@.len()) + payload@.take(i as int),
        decreases payload@.len() - i,
    {
        r.push(payload[i]);
        i = i + 1;
        assert(r@ =~= length_prefix(payload@.len()) + payload@.take(i as int));
    }
    assert(payload@.take(i as int) =~= payload@);
    r
}

/// What the stream reader does with the bytes it holds.
pub enum FrameStep {
    /// Read more bytes first.
    Wait,
    /// A whole payload was taken off the front of the buffer.
    Message(Vec<u8>),
}

/// Whether the bytes held start with a whole message: more than the two
/// length bytes, and at least the payload they announce.
pub open spec fn holds_message(b: Seq<u8>) -> bool {
    b.len() > 2 && be_u16(b[0], b[1]) + 2 <= b.len()
}

/// Decides on the bytes read so far. Until a whole message has arrived the
/// reader waits for more; then the first message's payload is taken off the
/// buffer and the bytes after it are kept.
pub fn frame_step(buffer: &mut Vec<u8>) -> (s: FrameStep)
    ensures
        ({
            let b = old(buffer)@;
            if !holds_message(b) {
                s is Wait && final(buffer)@ == b
            } else {
                let n = be_u16(b[0], b[1]) as int;
                &&& s matches FrameStep::Message(p) && p@ == b.subrange(2, 2 + n)
                &&& final(buffer)@ == b.subrange(2 + n, b.len() as int)
            }
        }),
{
    if buffer.len() <= 2 {
        return FrameStep::Wait;
    }
    let size: usize = (buffer[0] as usize) * 256 + (buffer[1] as usize);
    if size + 2 > buffer.len() {
        return FrameStep::Wait;
    }
    let ghost b = buffer@;
    assert(b.len() == buffer.len());
    let mut payload: Vec<u8> = Vec::new();
    let mut i: usize = 0;
    while i < size
        invariant
            buffer@ == b,
            b.len() <= usize::MAX,
            size + 2 <= b.len(),
            i <= size,
            payload@ == b.subrange(2, 2 + i),
        decreases size - i,
    {
        payload.push(buffer[2 + i]);
        i = i + 1;
        assert(payload@ =~= b.subrange(2, 2 + i));
    }
    let mut rest: Vec<u8> = Vec::new();
    let mut j: usize = 2 + size;
    while j < buffer.len()
        invariant
            buffer@ == b,
            2 + size <= j <= b.len(),
            rest@ == b.subrange(2 + size, j as int),
        decreases b.len() - j,
    {
        rest.push(buffer[j]);
        j = j + 1;
        assert(rest@ =~= b.subrange(2 + size, j as int));
    }
    *buffer = rest;
    FrameStep::Message(payload)
}

/// A framed payload of one to 65535 bytes is read back whole, whatever
/// bytes follow it, and those bytes are kept for the next message.
pub proof fn lemma_frame_round_trip(payload: Seq<u8>, rest: Seq<u8>)
    requires
        1 <= payload.len() < 65536,
    ensures
        ({
            let b = frame_of(payload) + rest;
            &&& holds_message(b)
            &&& be_u16(b[0], b[1]) == payload.len()
            &&& b.subrange(2, 2 + payload.len() as int) == payload
            &&& b.subrange(2 + payload.len() as int, b.len() as int) == rest
        }),
{
    let f = frame_of(payload);
    let b = f + rest;
    let n = payload.len();
    assert(b[0] == (n / 256) as u8 && b[1] == (n % 256) as u8);
    assert((n / 256) * 256 + n % 256 == n) by (nonlinear_arith);
    assert(b.subrange(2, 2 + n as int) =~= payload);
    assert(b.subrange(2 + n as int, b.len() as int) =~= rest);
}

/// Whether our information goes to the device at `ip`: with no target
/// every device gets it, else only the listed ones.
pub fn is_target(targets: &Vec<u32>, ip: u32) -> (r: bool)
    ensures
        r == (targets@.len() == 0 || targets@.contains(ip)),
{
    if targets.len() == 0 {
        return true;
    }
    let mut i: usize = 0;
    while i < targets.len()
        invariant
            i <= targets@.len(),
            forall|j: int| 0 <= j < i ==> targets@[j] != ip,
        decreases targets@.len() - i,
    {
        if targets[i] == ip {
            assert(targets@[i as int] == ip);
            return true;
        }
        i = i + 1;
    }
    false
}

/// Whether a message addressed to `targets` is meant for the peer `id`:
/// with no target it is meant for everyone.
pub fn is_target_id(targets: &Vec<String>, id: &str) -> (r: bool)
    ensures
        r == (targets@.len() == 0 || exists|j: int| 0 <= j < targets@.len() && #[trigger] targets@[j]@ == id@),
{
    if targets.len() == 0 {
        return true;
    }
    let mut i: usize = 0;
    while i < targets.len()
        invariant
            i <= targets@.len(),
            forall|j: int| 0 <= j < i ==> #[trigger] targets@[j]@ != id@,
        decreases targets@.len() - i,
    {
        if str_equals(targets[i].as_str(), id) {
            return true;
        }
        i = i + 1;
    }
    false
}

/// The service name a core process registers under: a fixed prefix and a
/// random UUID.
pub fn core_service_name() -> (r: String)
    ensures
        r@.len() == 50,
        r@.subrange(0, 14) == "hylarana-core="@,
        is_hyphenated_uuid_v4(r@.subrange(14, 50)),
{
    let id = random_service_id();
    let mut r = owned("hylarana-core=");
    r.append(id.as_str());
    proof {
        reveal_strlit("hylarana-core=");
        assert(r@.subrange(0, 14) =~= "hylarana-core="@);
        assert(r@.subrange(14, 50) =~= id@);
    }
    r
}

/// What a device announced about itself.
pub struct Node {
    pub name: String,
    pub kind: DeviceType,
    pub description: Option<MediaStreamDescription>,
}

pub struct NodeView {
    pub name: Seq<char>,
    pub kind: DeviceType,
    pub description: Option<MediaStreamDescription>,
}

impl Node {
    pub open spec fn view(&self) -> NodeView {
        NodeView { name: self.name@, kind: self.kind, description: self.description }
    }
}

/// A device as listed to the user: its announcement and its address.
pub struct NodeInfo {
    pub name: String,
    pub ip: u32,
    pub kind: DeviceType,
    pub description: Option<MediaStreamDescription>,
}

/// The devices connected to us, by address; the latest announcement of an
/// address wins.
pub struct NodeTable {
    nodes: HashMap<u32, Node>,
}

impl NodeTable {
    pub closed spec fn nodes(self) -> Map<u32, NodeView> {
        self.nodes@.map_values(|n: Node| n.view())
    }

    pub fn new() -> (t: NodeTable)
        ensures
            t.nodes() == Map::<u32, NodeView>::empty(),
    {
        let t = NodeTable { nodes: HashMap::new() };
        assert(t.nodes() =~= Map::<u32, NodeView>::empty());
        t
    }

    /// Records what the device at `ip` announced, replacing what it said before.
    pub fn insert(&mut self, ip: u32, node: Node)
        ensures
            final(self).nodes() == old(self).nodes().insert(ip, node.view()),
    {
        broadcast use vstd::std_specs::hash::group_hash_axioms;

        let ghost nv = node.view();
        self.nodes.insert(ip, node);
        assert(self.nodes() =~= old(self).nodes().insert(ip, nv));
    }

    /// Forgets the device at `ip`; says whether it was known, which is when
    /// the list of devices has changed.
    pub fn remove(&mut self, ip: u32) -> (changed: bool)
        ensures
            changed == old(self).nodes().dom().contains(ip),
            final(self).nodes() == old(self).nodes().remove(ip),
    {
        broadcast use vstd::std_specs::hash::group_hash_axioms;

        let removed = self.nodes.remove(&ip);
        assert(self.nodes() =~= old(self).nodes().remove(ip));
        removed.is_some()
    }

    /// Lists every known device with its address.
    pub fn get_devices(&self) -> (r: Vec<NodeInfo>)
        ensures
            r@.len() == self.nodes().dom().len(),
            forall|j: int| 0 <= j < r@.len() ==> lists_some(self.nodes(), #[trigger] r@[j]),
            forall|ip: u32|
                #[trigger] self.nodes().dom().contains(ip) ==> exists|j: int|
                    0 <= j < r@.len() && r@[j].ip == ip && node_info_matches(r@[j], self.nodes()[ip]),
    {
        broadcast use vstd::std_specs::hash::group_hash_axioms;

        let ghost items = vstd::std_specs::iter::IteratorSpec::remaining(
            &vstd::std_specs::hash::spec_hash_map_iter(&self.nodes),
        );
        let mut r: Vec<NodeInfo> = Vec::new();
        for pair in it: self.nodes.iter()
            invariant
                it.seq() == items,
                r@.len() == it.index(),
                forall|j: int|
                    0 <= j < it.index() ==> (#[trigger] r@[j]).ip == *it.seq()[j].0 && node_info_matches(
                        r@[j],
                        (*it.seq()[j].1).view(),
                    ),
        {
            let (ip, node) = pair;
            r.push(
                NodeInfo {
                    name: node.name.clone(),
                    ip: *ip,
                    kind: node.kind,
                    description: node.description,
                },
            );
        }
        proof {
            let m = self.nodes@;
            assert(r@.len() == items.len());
            assert(self.nodes().dom() =~= m.dom());
            assert forall|j: int| 0 <= j < r@.len() implies lists_some(self.nodes(), #[trigger] r@[j]) by {
                assert(m.contains_key(*items[j].0) && m[*items[j].0] == *items[j].1);
            }
            assert forall|ip: u32| #[trigger] self.nodes().dom().contains(ip) implies exists|j: int|
                0 <= j < r@.len() && r@[j].ip == ip && node_info_matches(r@[j], self.nodes()[ip]) by {
                assert(m.contains_key(ip));
                assert(items.contains((&ip, &m[ip])));
                let j = choose|j: int| 0 <= j < items.len() && items[j] == (&ip, &m[ip]);
                assert(r@[j].ip == ip);
            }
        }
        r
    }
}

pub open spec fn node_info_matches(i: NodeInfo, n: NodeView) -> bool {
    &&& i.name@ == n.name
    &&& i.kind == n.kind
    &&& i.description == n.description
}

/// The listing reports a known address with what it announced.
pub open spec fn lists_some(m: Map<u32, NodeView>, i: NodeInfo) -> bool {
    m.dom().contains(i.ip) && node_info_matches(i, m[i.ip])
}

/// A device that announced itself and then disconnected is forgotten, the
/// disconnection is reported as a change, and the other devices stay as
/// they were.
pub proof fn lemma_announce_then_disconnect(m: Map<u32, NodeView>, ip: u32, node: NodeView)
    ensures
        m.insert(ip, node).dom().contains(ip),
        m.insert(ip, node).remove(ip) == m.remove(ip),
{
    assert(m.insert(ip, node).remove(ip) =~= m.remove(ip));
}

} // verus!
