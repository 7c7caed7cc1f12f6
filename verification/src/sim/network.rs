use vstd::prelude::*;

verus! {

/// The servers of the simulated cluster are numbered 1 to this.
pub const CLUSTER_NODES: u8 = 5;

/// Server `n` listens for Raft messages on UDP port `BASE_PORT + n`.
pub const BASE_PORT: u16 = 9000;

/// The UDP port on which server `node_id` listens.
pub fn udp_port(node_id: u8) -> (r: u16)
    ensures
        r == BASE_PORT + node_id,
{
    BASE_PORT + node_id as u16
}

/// The IPv4 address of server `node_id` on the simulated network.
pub fn node_ipv4(node_id: u8) -> (r: [u8; 4])
    ensures
        r@ == seq![10u8, 0u8, 0u8, node_id],
{
    let r = [10u8, 0u8, 0u8, node_id];
    assert(r@ =~= seq![10u8, 0u8, 0u8, node_id]);
    r
}

/// An Ethernet frame queued for a server; its first `len` bytes are the frame.
#[derive(Clone, Debug)]
pub struct Packet {
    pub data: Vec<u8>,
    pub len: usize,
}

/// The hardware address of server `node_id`: locally administered, ending in its number.
pub open spec fn mac_of(node_id: u8) -> Seq<u8> {
    seq![0x02u8, 0x00u8, 0x00u8, 0x00u8, 0x00u8, node_id]
}

/// The servers among 1..=`k` other than `sender`, in increasing order.
pub open spec fn others_upto(k: nat, sender: u8) -> Seq<u8>
    decreases k,
{
    if k == 0 {
        Seq::empty()
    } else if k as u8 != sender {
        others_upto((k - 1) as nat, sender).push(k as u8)
    } else {
        others_upto((k - 1) as nat, sender)
    }
}

/// Where the simulated network delivers a frame sent by `sender`: a broadcast (first
/// destination byte 0xFF) goes to every other server; a unicast goes to the server
/// named by the last byte of the destination address, when there is one; a frame
/// shorter than an address goes nowhere.
pub open spec fn destinations(sender: u8, frame: Seq<u8>) -> Seq<u8> {
    if frame.len() < 6 {
        Seq::empty()
    } else if frame[0] == 0xFFu8 {
        others_upto(CLUSTER_NODES as nat, sender)
    } else if 1 <= frame[5] <= CLUSTER_NODES {
        seq![frame[5]]
    } else {
        Seq::empty()
    }
}

pub fn mac_address(node_id: u8) -> (r: [u8; 6])
    ensures
        r@ == mac_of(node_id),
{
    let r = [0x02u8, 0x00u8, 0x00u8, 0x00u8, 0x00u8, node_id];
    assert(r@ =~= mac_of(node_id));
    r
}

/// The servers that receive a frame sent by `sender` (see `destinations`).
pub fn frame_destinations(sender: u8, frame: &[u8]) -> (r: Vec<u8>)
    ensures
        r@ == destinations(sender, frame@),
{
    let mut out: Vec<u8> = Vec::new();
    if frame.len() < 6 {
        return out;
    }
    if frame[0] == 0xFF {
        let mut target: u8 = 1;
        while target <= CLUSTER_NODES
            invariant
                1 <= target <= CLUSTER_NODES + 1,
                out@ == others_upto((target - 1) as nat, sender),
            decreases CLUSTER_NODES + 1 - target,
        {
            if target != sender {
                out.push(target);
            }
            target = target + 1;
        }
    } else {
        let last = frame[5];
        if 1 <= last && last <= CLUSTER_NODES {
            out.push(last);
            assert(out@ =~= seq![last]);
        }
    }
    out
}

/// The packets that the simulated network queues for a frame sent by `sender`: one
/// copy of the whole frame for each of its destinations, in order.
pub fn route_frame(sender: u8, frame: &Vec<u8>) -> (r: Vec<(u8, Packet)>)
    ensures
        r@.len() == destinations(sender, frame@).len(),
        forall|k: int| 0 <= k < r@.len() ==> (#[trigger] r@[k]).0 == destinations(sender, frame@)[k]
            && r@[k].1.data@ == frame@ && r@[k].1.len == frame@.len(),
{
    let targets = frame_destinations(sender, frame.as_slice());
    let mut out: Vec<(u8, Packet)> = Vec::new();
    let mut i: usize = 0;
    while i < targets.len()
        invariant
            i <= targets@.len(),
            targets@ == destinations(sender, frame@),
            out@.len() == i,
            forall|k: int| 0 <= k < i ==> (#[trigger] out@[k]).0 == targets@[k] && out@[k].1.data@ == frame@
                && out@[k].1.len == frame@.len(),
        decreases targets@.len() - i,
    {
        let data = crate::snapshot::copy_bytes(frame);
        out.push((targets[i], Packet { data, len: frame.len() }));
        i = i + 1;
    }
    out
}

} // verus!
