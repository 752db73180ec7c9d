//! The point-in-time view of one running instance that the telemetry loop
//! hands to its subscriber, and how it is made from what the engine reports.

use crate::notation::{answer, lowercase_text, to_lowercase};
use vstd::prelude::*;

verus! {

/// A measurement that the engine reports as an IEEE 754 double, held by its
/// bit pattern. The pattern 0 is the number zero.
pub type Float64Bits = u64;

/// One entry of an instance's event log: when it happened, in milliseconds
/// since the epoch, and the event as the engine describes it.
#[derive(Debug)]
pub struct InstanceEvent {
    pub time: i64,
    pub event: String,
}

/// A peer and the route to it, as the engine reports them. A measurement
/// that the engine does not have yet is absent.
#[derive(Debug)]
pub struct PeerRoutePair {
    pub inst_id: String,
    pub hostname: String,
    pub ipv4_addr: String,
    pub version: String,
    pub cost: i32,
    pub latency_ms: Option<Float64Bits>,
    pub loss_rate: Option<Float64Bits>,
    pub tx_bytes: Option<u64>,
    pub rx_bytes: Option<u64>,
}

/// What a running instance reports of itself when it is asked.
#[derive(Debug)]
pub struct RunningInfo {
    pub virtual_ipv4: String,
    pub version: String,
    pub hostname: String,
    pub nat_type: String,
    pub events: Vec<InstanceEvent>,
    pub peer_route_pairs: Vec<PeerRoutePair>,
    pub running: bool,
}

/// The statistics of one peer.
#[derive(Debug)]
pub struct InstancePeer {
    pub id: String,
    pub name: String,
    pub ipv4: Option<String>,
    pub ipv6: Option<String>,
    pub version: String,
    pub up: u64,
    pub down: u64,
    pub cost: i32,
    pub lost: Float64Bits,
    pub latency: Float64Bits,
}

/// An `InstancePeer` by the characters of its texts.
pub struct InstancePeerView {
    pub id: Seq<char>,
    pub name: Seq<char>,
    pub ipv4: Option<Seq<char>>,
    pub ipv6: Option<Seq<char>>,
    pub version: Seq<char>,
    pub up: u64,
    pub down: u64,
    pub cost: i32,
    pub lost: Float64Bits,
    pub latency: Float64Bits,
}

impl View for InstancePeer {
    type V = InstancePeerView;

    open spec fn view(&self) -> InstancePeerView {
        InstancePeerView {
            id: self.id@,
            name: self.name@,
            ipv4: answer(self.ipv4),
            ipv6: answer(self.ipv6),
            version: self.version@,
            up: self.up,
            down: self.down,
            cost: self.cost,
            lost: self.lost,
            latency: self.latency,
        }
    }
}

/// The statistics of every peer of an instance, with the time of the cycle
/// that took them.
#[derive(Debug)]
pub struct InstanceTimePeer {
    pub time: i64,
    pub peers: Vec<InstancePeer>,
}

/// The snapshot of one instance in one cycle.
#[derive(Debug)]
pub struct InstanceInstantData {
    pub id: String,
    pub ipv4: String,
    pub version: String,
    pub hostname: String,
    pub nat_type: String,
    pub events: Vec<InstanceEvent>,
    pub prps: Vec<PeerRoutePair>,
    pub status: bool,
    pub stat: InstanceTimePeer,
}

/// A measurement, or zero where the engine has none.
pub open spec fn or_zero(measured: Option<u64>) -> u64 {
    match measured {
        Some(value) => value,
        None => 0,
    }
}

/// The statistics of the peer behind a peer/route pair: the route's
/// identity and cost, the IPv4 address always present and the IPv6 address
/// never, and each measurement that is absent counted as zero.
pub open spec fn peer_stat(pair: PeerRoutePair) -> InstancePeerView {
    InstancePeerView {
        id: pair.inst_id@,
        name: pair.hostname@,
        ipv4: Some(pair.ipv4_addr@),
        ipv6: None,
        version: pair.version@,
        up: or_zero(pair.tx_bytes),
        down: or_zero(pair.rx_bytes),
        cost: pair.cost,
        lost: or_zero(pair.loss_rate),
        latency: or_zero(pair.latency_ms),
    }
}

/// The statistics of the peers behind a list of pairs, one for each pair and
/// in the list's order.
pub open spec fn peer_stats(pairs: Seq<PeerRoutePair>) -> Seq<InstancePeerView> {
    Seq::new(pairs.len(), |i: int| peer_stat(pairs[i]))
}

/// A list of peer statistics by the characters of their texts.
pub open spec fn peer_views(peers: Seq<InstancePeer>) -> Seq<InstancePeerView> {
    Seq::new(peers.len(), |i: int| peers[i]@)
}

/// Whether `snap` is the snapshot of the instance `id` that reported `info`
/// in the cycle taken at `now`: the identifier in lower case, what the
/// instance reported of itself carried over, and the peers' statistics
/// stamped with the cycle's time.
pub open spec fn is_snapshot_of(snap: InstanceInstantData, id: Seq<char>, info: RunningInfo, now: i64) -> bool {
    &&& snap.id@ == lowercase_text(id)
    &&& snap.ipv4 == info.virtual_ipv4
    &&& snap.version == info.version
    &&& snap.hostname == info.hostname
    &&& snap.nat_type == info.nat_type
    &&& snap.events == info.events
    &&& snap.prps == info.peer_route_pairs
    &&& snap.status == info.running
    &&& snap.stat.time == now
    &&& peer_views(snap.stat.peers@) == peer_stats(info.peer_route_pairs@)
}

fn value_or_zero(measured: Option<u64>) -> (value: u64)
    ensures
        value == or_zero(measured),
{
    match measured {
        Some(value) => value,
        None => 0,
    }
}

/// The statistics of the peer behind one pair.
pub fn peer_of(pair: &PeerRoutePair) -> (peer: InstancePeer)
    ensures
        peer@ == peer_stat(*pair),
{
    InstancePeer {
        id: pair.inst_id.clone(),
        name: pair.hostname.clone(),
        ipv4: Some(pair.ipv4_addr.clone()),
        ipv6: None,
        version: pair.version.clone(),
        up: value_or_zero(pair.tx_bytes),
        down: value_or_zero(pair.rx_bytes),
        cost: pair.cost,
        lost: value_or_zero(pair.loss_rate),
        latency: value_or_zero(pair.latency_ms),
    }
}

/// The statistics of the peers behind each pair, in the pairs' order.
pub fn peers_of(pairs: &Vec<PeerRoutePair>) -> (peers: Vec<InstancePeer>)
    ensures
        peer_views(peers@) == peer_stats(pairs@),
        peers@.len() == pairs@.len(),
{
    let mut peers: Vec<InstancePeer> = Vec::new();
    let mut i: usize = 0;
    while i < pairs.len()
        invariant
            i <= pairs.len(),
            peers@.len() == i,
            forall|j: int| 0 <= j < i ==> (#[trigger] peers@[j])@ == peer_stat(pairs@[j]),
        decreases pairs.len() - i,
    {
        peers.push(peer_of(&pairs[i]));
        i = i + 1;
    }
    assert(peer_views(peers@) =~= peer_stats(pairs@));
    peers
}

/// Makes the snapshot of the instance `id` from what it reported, in the
/// cycle taken at `now`.
pub fn build_snapshot(id: &str, info: RunningInfo, now: i64) -> (snap: InstanceInstantData)
    ensures
        is_snapshot_of(snap, id@, info, now),
{
    let peers = peers_of(&info.peer_route_pairs);
    InstanceInstantData {
        id: to_lowercase(id),
        ipv4: info.virtual_ipv4,
        version: info.version,
        hostname: info.hostname,
        nat_type: info.nat_type,
        events: info.events,
        prps: info.peer_route_pairs,
        status: info.running,
        stat: InstanceTimePeer { time: now, peers },
    }
}

/// The snapshots of one cycle, all stamped with the one time at which the
/// cycle began.
#[derive(Debug)]
pub struct SnapshotCycle {
    pub time: i64,
    pub batch: Vec<InstanceInstantData>,
}

impl SnapshotCycle {
    /// Begins a cycle at the time `now`, with an empty batch.
    pub fn begin(now: i64) -> (cycle: SnapshotCycle)
        ensures
            cycle.time == now,
            cycle.batch@.len() == 0,
    {
        SnapshotCycle { time: now, batch: Vec::new() }
    }

    /// Takes in what the instance `id` answered when it was asked. An
    /// instance that answered is added to the batch as its snapshot; one
    /// that did not, because it has gone or has nothing to report, leaves
    /// the batch as it was.
    pub fn observe(&mut self, id: &str, answered: Option<RunningInfo>)
        ensures
            final(self).time == old(self).time,
            answered is None ==> final(self).batch@ == old(self).batch@,
            answered matches Some(info) ==> {
                &&& final(self).batch@.len() == old(self).batch@.len() + 1
                &&& final(self).batch@.drop_last() == old(self).batch@
                &&& is_snapshot_of(final(self).batch@.last(), id@, info, old(self).time)
            },
    {
        match answered {
            Some(info) => {
                let snap = build_snapshot(id, info, self.time);
                self.batch.push(snap);
                assert(self.batch@.drop_last() =~= old(self).batch@);
            },
            None => {},
        }
    }
}

} // verus!
