//! Network statistics per interface (`/proc/net/dev`): what changed since the previous read.

use vstd::prelude::*;
use crate::units::{definition, metric_view, MetricSpec, PrefixedUnit, Unit, UnitPrefix};

verus! {

/// The counters of an interface that are measured.
#[derive(Debug, Clone, PartialEq, Eq)]
pub struct InterfaceCounters {
    pub name: String,
    pub recv_bytes: u64,
    pub recv_packets: u64,
    pub recv_errs: u64,
    pub recv_drop: u64,
    pub sent_bytes: u64,
    pub sent_packets: u64,
    pub sent_errs: u64,
    pub sent_drop: u64,
}

/// The metrics of the network source.
#[derive(Debug, Clone, Copy, PartialEq, Eq, Structural)]
pub enum NetworkMetric {
    Bytes,
    Packets,
    Drops,
    Errors,
}

/// The direction of the traffic.
#[derive(Debug, Clone, Copy, PartialEq, Eq, Structural)]
pub enum TrafficDirection {
    /// Received (`rx`).
    Rx,
    /// Sent (`tx`).
    Tx,
}

/// A measurement of the network source: the interface, the metric, the direction and the
/// increase of the counter.
#[derive(Debug, Clone, PartialEq, Eq)]
pub struct NetworkPoint {
    pub interface: String,
    pub metric: NetworkMetric,
    pub direction: TrafficDirection,
    pub value: u64,
}

/// The counters as numbers, in the order in which they are measured: received bytes, packets,
/// drops, errors, then the same sent.
pub open spec fn counter_values(c: InterfaceCounters) -> Seq<u64> {
    seq![
        c.recv_bytes,
        c.recv_packets,
        c.recv_drop,
        c.recv_errs,
        c.sent_bytes,
        c.sent_packets,
        c.sent_drop,
        c.sent_errs,
    ]
}

/// The metric and direction of the counter at position `i` of [`counter_values`].
pub open spec fn counter_kind(i: int) -> (NetworkMetric, TrafficDirection) {
    let metric = if i % 4 == 0 {
        NetworkMetric::Bytes
    } else if i % 4 == 1 {
        NetworkMetric::Packets
    } else if i % 4 == 2 {
        NetworkMetric::Drops
    } else {
        NetworkMetric::Errors
    };
    (metric, if i < 4 { TrafficDirection::Rx } else { TrafficDirection::Tx })
}

/// The counter of an interface that counts `metric` in `direction`.
pub open spec fn counter_for(c: InterfaceCounters, metric: NetworkMetric, direction: TrafficDirection) -> u64 {
    match (metric, direction) {
        (NetworkMetric::Bytes, TrafficDirection::Rx) => c.recv_bytes,
        (NetworkMetric::Packets, TrafficDirection::Rx) => c.recv_packets,
        (NetworkMetric::Drops, TrafficDirection::Rx) => c.recv_drop,
        (NetworkMetric::Errors, TrafficDirection::Rx) => c.recv_errs,
        (NetworkMetric::Bytes, TrafficDirection::Tx) => c.sent_bytes,
        (NetworkMetric::Packets, TrafficDirection::Tx) => c.sent_packets,
        (NetworkMetric::Drops, TrafficDirection::Tx) => c.sent_drop,
        (NetworkMetric::Errors, TrafficDirection::Tx) => c.sent_errs,
    }
}

/// Each measured counter is reported under the metric and direction it counts, and no two
/// counters under the same ones.
pub proof fn lemma_counters_are_reported_as_what_they_count(c: InterfaceCounters)
    ensures
        counter_values(c).len() == 8,
        forall|j: int| 0 <= j < 8 ==> #[trigger] counter_values(c)[j] == counter_for(c, counter_kind(j).0, counter_kind(j).1),
        forall|i: int, j: int| 0 <= i < j < 8 ==> #[trigger] counter_kind(i) != #[trigger] counter_kind(j),
{
}

/// The counters of the interface named `name` in the previous read: those of its first entry,
/// or zeros for an interface that appeared since.
pub open spec fn previous_values(prev: Seq<InterfaceCounters>, name: Seq<char>) -> Seq<u64>
    decreases prev.len(),
{
    if prev.len() == 0 {
        seq![0u64, 0u64, 0u64, 0u64, 0u64, 0u64, 0u64, 0u64]
    } else if prev[0].name@ == name {
        counter_values(prev[0])
    } else {
        previous_values(prev.skip(1), name)
    }
}

/// No counter of an interface went down since the previous read.
pub open spec fn counters_grow(prev: Seq<InterfaceCounters>, now: Seq<InterfaceCounters>) -> bool {
    forall|i: int, j: int|
        0 <= i < now.len() && 0 <= j < 8 ==> (#[trigger] previous_values(prev, now[i].name@))[j]
            <= #[trigger] counter_values(now[i])[j]
}

/// What a measurement holds.
pub open spec fn point_view(p: NetworkPoint) -> (Seq<char>, NetworkMetric, TrafficDirection, u64) {
    (p.interface@, p.metric, p.direction, p.value)
}

/// The measurements of one interface: for each counter, its increase.
pub open spec fn interface_points(prev: Seq<InterfaceCounters>, c: InterfaceCounters) -> Seq<
    (Seq<char>, NetworkMetric, TrafficDirection, u64),
> {
    Seq::new(
        8,
        |j: int|
            (
                c.name@,
                counter_kind(j).0,
                counter_kind(j).1,
                (counter_values(c)[j] - previous_values(prev, c.name@)[j]) as u64,
            ),
    )
}

/// The measurements of the first `k` interfaces of the new read, in order.
pub open spec fn network_points(prev: Seq<InterfaceCounters>, now: Seq<InterfaceCounters>, k: int) -> Seq<
    (Seq<char>, NetworkMetric, TrafficDirection, u64),
>
    decreases k,
{
    if k <= 0 {
        Seq::empty()
    } else {
        network_points(prev, now, k - 1) + interface_points(prev, now[k - 1])
    }
}

fn same_name(a: &String, b: &String) -> (r: bool)
    ensures
        r == (a@ == b@),
{
    let x = crate::text::chars_of(a.as_str());
    let y = crate::text::chars_of(b.as_str());
    crate::text::same_chars(x.as_slice(), y.as_slice())
}

fn values_of(c: &InterfaceCounters) -> (r: [u64; 8])
    ensures
        r@ == counter_values(*c),
{
    let r = [
        c.recv_bytes,
        c.recv_packets,
        c.recv_drop,
        c.recv_errs,
        c.sent_bytes,
        c.sent_packets,
        c.sent_drop,
        c.sent_errs,
    ];
    assert(r@ =~= counter_values(*c));
    r
}

fn find_previous(prev: &Vec<InterfaceCounters>, name: &String) -> (r: [u64; 8])
    ensures
        r@ == previous_values(prev@, name@),
{
    let mut i: usize = 0;
    assert(prev@.skip(0) =~= prev@);
    while i < prev.len()
        invariant
            0 <= i <= prev@.len(),
            previous_values(prev@, name@) == previous_values(prev@.skip(i as int), name@),
        decreases prev.len() - i,
    {
        let ghost rest = prev@.skip(i as int);
        assert(rest[0] == prev@[i as int]);
        if same_name(&prev[i].name, name) {
            return values_of(&prev[i]);
        }
        assert(rest.skip(1) =~= prev@.skip(i + 1));
        i = i + 1;
    }
    let zeros = [0u64, 0u64, 0u64, 0u64, 0u64, 0u64, 0u64, 0u64];
    assert(prev@.skip(i as int).len() == 0);
    assert(zeros@ =~= seq![0u64, 0u64, 0u64, 0u64, 0u64, 0u64, 0u64, 0u64]);
    zeros
}

fn kind_at(j: usize) -> (r: (NetworkMetric, TrafficDirection))
    requires
        j < 8,
    ensures
        r == counter_kind(j as int),
{
    let metric = if j % 4 == 0 {
        NetworkMetric::Bytes
    } else if j % 4 == 1 {
        NetworkMetric::Packets
    } else if j % 4 == 2 {
        NetworkMetric::Drops
    } else {
        NetworkMetric::Errors
    };
    (metric, if j < 4 { TrafficDirection::Rx } else { TrafficDirection::Tx })
}

/// The measurements between two reads of `/proc/net/dev`: for each interface of the new read,
/// in order, the increase of its received and sent bytes, packets, drops and errors since the
/// previous read (since zero for an interface that appeared since).
pub fn network_measures(prev: &Vec<InterfaceCounters>, now: &Vec<InterfaceCounters>) -> (r: Vec<
    NetworkPoint,
>)
    requires
        counters_grow(prev@, now@),
    ensures
        r@.map_values(|p: NetworkPoint| point_view(p)) == network_points(prev@, now@, now@.len() as int),
{
    let mut out: Vec<NetworkPoint> = Vec::new();
    let mut i: usize = 0;
    assert(out@.map_values(|p: NetworkPoint| point_view(p)) =~= network_points(prev@, now@, 0));
    while i < now.len()
        invariant
            0 <= i <= now@.len(),
            counters_grow(prev@, now@),
            out@.map_values(|p: NetworkPoint| point_view(p)) == network_points(prev@, now@, i as int),
        decreases now.len() - i,
    {
        let c = &now[i];
        let before = find_previous(prev, &c.name);
        let values = values_of(c);
        let ghost start = out@.map_values(|p: NetworkPoint| point_view(p));
        let mut j: usize = 0;
        while j < 8
            invariant
                0 <= j <= 8,
                i < now@.len(),
                *c == now@[i as int],
                before@ == previous_values(prev@, c.name@),
                values@ == counter_values(*c),
                counters_grow(prev@, now@),
                out@.map_values(|p: NetworkPoint| point_view(p)) == start + interface_points(
                    prev@,
                    *c,
                ).take(j as int),
            decreases 8 - j,
        {
            assert(previous_values(prev@, now@[i as int].name@)[j as int] <= counter_values(
                now@[i as int],
            )[j as int]);
            let (metric, direction) = kind_at(j);
            let ghost prev_out = out@.map_values(|p: NetworkPoint| point_view(p));
            let name = c.name.clone();
            let p = NetworkPoint { interface: name, metric, direction, value: values[j] - before[j] };
            out.push(p);
            assert(out@.map_values(|p: NetworkPoint| point_view(p)) =~= prev_out.push(point_view(p)));
            assert(interface_points(prev@, *c).take(j + 1) =~= interface_points(prev@, *c).take(
                j as int,
            ).push(point_view(p)));
            j = j + 1;
        }
        assert(interface_points(prev@, *c).take(8) =~= interface_points(prev@, *c));
        i = i + 1;
    }
    out
}

/// The state of a network source between two polls: the previous read, if any.
pub struct NetworkPoller {
    pub previous: Option<Vec<InterfaceCounters>>,
}

impl NetworkPoller {
    /// A source that has not read `/proc/net/dev` yet.
    pub fn new() -> (p: Self)
        ensures
            p.previous is None,
    {
        NetworkPoller { previous: None }
    }

    /// Takes a new read: returns the measurements since the previous read, nothing on the first
    /// read (only increases are reported), and keeps the new read for the next poll.
    pub fn poll(&mut self, now: Vec<InterfaceCounters>) -> (r: Vec<NetworkPoint>)
        requires
            old(self).previous matches Some(prev) ==> counters_grow(prev@, now@),
        ensures
            final(self).previous == Some(now),
            old(self).previous is None ==> r@.len() == 0,
            old(self).previous matches Some(prev) ==> r@.map_values(|p: NetworkPoint| point_view(p))
                == network_points(prev@, now@, now@.len() as int),
    {
        let r = match &self.previous {
            Some(prev) => network_measures(prev, &now),
            None => Vec::new(),
        };
        self.previous = Some(now);
        r
    }
}


/// Whether no counter of an interface went down since the previous read, as a poll needs.
pub fn counters_grow_check(prev: &Vec<InterfaceCounters>, now: &Vec<InterfaceCounters>) -> (b: bool)
    ensures
        b == counters_grow(prev@, now@),
{
    let mut i: usize = 0;
    while i < now.len()
        invariant
            0 <= i <= now@.len(),
            forall|a: int, j: int|
                0 <= a < i && 0 <= j < 8 ==> (#[trigger] previous_values(prev@, now@[a].name@))[j]
                    <= #[trigger] counter_values(now@[a])[j],
        decreases now.len() - i,
    {
        let before = find_previous(prev, &now[i].name);
        let values = values_of(&now[i]);
        let mut j: usize = 0;
        while j < 8
            invariant
                0 <= j <= 8,
                i < now@.len(),
                before@ == previous_values(prev@, now@[i as int].name@),
                values@ == counter_values(now@[i as int]),
                forall|m: int| 0 <= m < j ==> before@[m] <= values@[m],
            decreases 8 - j,
        {
            if before[j] > values[j] {
                return false;
            }
            j = j + 1;
        }
        i = i + 1;
    }
    true
}

/// The metric that measurements of kind `m` go to: its name, unit and description.
pub open spec fn network_metric_spec(m: NetworkMetric) -> (Seq<char>, PrefixedUnit, Seq<char>) {
    match m {
        NetworkMetric::Bytes => ("network_bytes"@, PrefixedUnit { base_unit: Unit::Byte, prefix: UnitPrefix::Plain }, "Number of bytes (rx/tx) per interface"@),
        NetworkMetric::Packets => ("network_packets"@, PrefixedUnit { base_unit: Unit::Unity, prefix: UnitPrefix::Plain }, "Number of packets (rx/tx) per interface"@),
        NetworkMetric::Drops => ("network_packet_drops"@, PrefixedUnit { base_unit: Unit::Unity, prefix: UnitPrefix::Plain }, "Number of dropped packets (rx/tx) per interface"@),
        NetworkMetric::Errors => ("network_errors"@, PrefixedUnit { base_unit: Unit::Unity, prefix: UnitPrefix::Plain }, "Number of errors (rx/tx) per interface"@),
    }
}

impl NetworkMetric {
    /// The metric that measurements of this kind go to.
    pub fn spec(&self) -> (r: MetricSpec)
        ensures
            metric_view(r) == network_metric_spec(*self),
    {
        match self {
            NetworkMetric::Bytes => definition("network_bytes", Unit::Byte, UnitPrefix::Plain, "Number of bytes (rx/tx) per interface"),
            NetworkMetric::Packets => definition("network_packets", Unit::Unity, UnitPrefix::Plain, "Number of packets (rx/tx) per interface"),
            NetworkMetric::Drops => definition("network_packet_drops", Unit::Unity, UnitPrefix::Plain, "Number of dropped packets (rx/tx) per interface"),
            NetworkMetric::Errors => definition("network_errors", Unit::Unity, UnitPrefix::Plain, "Number of errors (rx/tx) per interface"),
        }
    }
}

} // verus!
