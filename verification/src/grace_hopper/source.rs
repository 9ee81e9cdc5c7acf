//! The power measurements of one poll of the Grace Hopper sensors: each sensor's power, the
//! DRAM power estimated per socket, the total per kind of sensor and the total of the superchip.

use vstd::prelude::*;
use crate::units::{definition, metric_view, MetricSpec, PrefixedUnit, Unit, UnitPrefix};
use crate::grace_hopper::hwmon::{tag_of, SensorTagKind, TelemetryKind};
use crate::grace_hopper::probe::{dram_of, DramComputation};
use crate::grace_hopper::total::{tag_at, totals_in_order, PerKindTotals};

verus! {

/// The power read on one sensor, in microwatts.
#[derive(Debug, Clone, Copy, PartialEq, Eq, Structural)]
pub struct ProbeReading {
    pub kind: TelemetryKind,
    pub power: u64,
}

/// The readings of the sensors of one socket, in the order of the sensors.
#[derive(Debug, Clone, PartialEq, Eq)]
pub struct SocketReadings {
    pub socket: u8,
    pub probes: Vec<ProbeReading>,
}

/// A power measurement of a poll.
#[derive(Debug, Clone, Copy, PartialEq, Eq, Structural)]
pub enum PowerPoint {
    /// The power of a sensor of a socket (a CPU package), tagged with the sensor's kind.
    Probe { socket: u8, kind: TelemetryKind, power: u64 },
    /// The estimated DRAM power of a socket.
    Dram { socket: u8, power: u64 },
    /// The total of a kind of sensor over the machine.
    Total { tag: SensorTagKind, power: u64 },
    /// The total of the superchip.
    Overall { power: u64 },
}

/// The last power read on a sensor of kind `k` among `p`, if any.
pub open spec fn last_power(p: Seq<ProbeReading>, k: TelemetryKind) -> Option<u64>
    decreases p.len(),
{
    if p.len() == 0 {
        None
    } else if p.last().kind == k {
        Some(p.last().power)
    } else {
        last_power(p.drop_last(), k)
    }
}

/// The DRAM power of a socket, estimated from the last grace, CPU and SysIO readings.
pub open spec fn socket_dram(p: Seq<ProbeReading>) -> Option<u64> {
    dram_of(
        DramComputation {
            grace_value: last_power(p, TelemetryKind::Grace),
            cpu_value: last_power(p, TelemetryKind::Cpu),
            sysio_value: last_power(p, TelemetryKind::SysIo),
        },
    )
}

/// Whether the DRAM estimate of a socket can be computed without overflow.
pub open spec fn dram_computable(p: Seq<ProbeReading>) -> bool {
    match (last_power(p, TelemetryKind::Grace), last_power(p, TelemetryKind::Cpu), last_power(p, TelemetryKind::SysIo)) {
        (Some(_), Some(c), Some(s)) => c + s <= u64::MAX,
        _ => true,
    }
}

/// The running total of `tag` after the readings `p`, starting from `t`.
pub open spec fn after_probes(t: Option<int>, p: Seq<ProbeReading>, tag: SensorTagKind) -> Option<int>
    decreases p.len(),
{
    if p.len() == 0 {
        t
    } else {
        let before = after_probes(t, p.drop_last(), tag);
        if tag_of(p.last().kind) == tag {
            Some(
                match before {
                    Some(x) => x,
                    None => 0,
                } + p.last().power,
            )
        } else {
            before
        }
    }
}

/// The running total of `tag` after a socket, starting from `t`: its readings, then its DRAM
/// estimate.
pub open spec fn after_socket(t: Option<int>, s: SocketReadings, tag: SensorTagKind) -> Option<int> {
    let p = after_probes(t, s.probes@, tag);
    match socket_dram(s.probes@) {
        Some(d) => if tag == SensorTagKind::Dram {
            Some(
                match p {
                    Some(x) => x,
                    None => 0,
                } + d,
            )
        } else {
            p
        },
        None => p,
    }
}

/// The total of `tag` over the sockets `ss`, if any value contributes to it.
pub open spec fn after_sockets(ss: Seq<SocketReadings>, tag: SensorTagKind) -> Option<int>
    decreases ss.len(),
{
    if ss.len() == 0 {
        None
    } else {
        after_socket(after_sockets(ss.drop_last(), tag), ss.last(), tag)
    }
}

/// The measurements of one socket: each sensor's power, then the DRAM estimate if known.
pub open spec fn socket_points(s: SocketReadings) -> Seq<PowerPoint> {
    s.probes@.map_values(
        |r: ProbeReading| PowerPoint::Probe { socket: s.socket, kind: r.kind, power: r.power },
    ) + match socket_dram(s.probes@) {
        Some(d) => seq![PowerPoint::Dram { socket: s.socket, power: d }],
        None => Seq::empty(),
    }
}

/// The measurements of the sockets, in order.
pub open spec fn sockets_points(ss: Seq<SocketReadings>) -> Seq<PowerPoint>
    decreases ss.len(),
{
    if ss.len() == 0 {
        Seq::empty()
    } else {
        sockets_points(ss.drop_last()) + socket_points(ss.last())
    }
}

/// Whether a value stays within `u64`.
pub open spec fn fits(t: Option<int>) -> bool {
    t matches Some(x) ==> 0 <= x <= u64::MAX
}

/// The totals as `u64`.
pub open spec fn as_u64(t: Option<int>) -> Option<u64> {
    match t {
        Some(x) => Some(x as u64),
        None => None,
    }
}

/// Whether a poll of the sockets `ss` can be summed up without overflow: no total of a kind
/// of sensor, and no `cpu + sysio` of a DRAM estimate, exceeds `u64::MAX`.
pub open spec fn summable(ss: Seq<SocketReadings>) -> bool {
    &&& forall|tag: SensorTagKind| #[trigger] fits(after_sockets(ss, tag))
    &&& forall|i: int| 0 <= i < ss.len() ==> dram_computable(#[trigger] ss[i].probes@)
}

/// The measurements of the totals, in tag order.
pub open spec fn total_points(t: PerKindTotals) -> Seq<PowerPoint> {
    totals_in_order(t, 0).map_values(
        |e: (SensorTagKind, u64)| PowerPoint::Total { tag: e.0, power: e.1 },
    )
}

/// The total of the superchip: the module total on Grace Hopper, or the grace total on Grace,
/// which has no module sensor.
pub open spec fn overall(t: PerKindTotals) -> Option<u64> {
    match t.total_of(SensorTagKind::Module) {
        Some(m) => Some(m),
        None => t.total_of(SensorTagKind::Grace),
    }
}

/// What a poll gives: its measurements, in order, and the totals per kind of sensor.
pub struct PowerReport {
    pub points: Vec<PowerPoint>,
    pub totals: PerKindTotals,
}

proof fn lemma_probes_from(t: Option<int>, p: Seq<ProbeReading>, tag: SensorTagKind)
    requires
        t matches Some(x) ==> x >= 0,
    ensures
        t matches Some(x) ==> after_probes(t, p, tag) matches Some(b) && x <= b,
        after_probes(t, p, tag) matches Some(b) ==> b >= 0,
    decreases p.len(),
{
    if p.len() > 0 {
        lemma_probes_from(t, p.drop_last(), tag);
    }
}

proof fn lemma_probes_grow(t: Option<int>, p: Seq<ProbeReading>, tag: SensorTagKind, j: int)
    requires
        0 <= j <= p.len(),
        t matches Some(x) ==> x >= 0,
    ensures
        after_probes(t, p.take(j), tag) matches Some(a) ==> after_probes(t, p, tag) matches Some(b) && 0
            <= a <= b,
    decreases p.len() - j,
{
    lemma_probes_from(t, p.take(j), tag);
    if j < p.len() {
        lemma_probes_grow(t, p, tag, j + 1);
        assert(p.take(j + 1).drop_last() =~= p.take(j));
        assert(p.take(j + 1).last() == p[j]);
    } else {
        assert(p.take(j) =~= p);
    }
}

proof fn lemma_socket_grows(t: Option<int>, s: SocketReadings, tag: SensorTagKind)
    requires
        t matches Some(x) ==> x >= 0,
    ensures
        t matches Some(x) ==> after_socket(t, s, tag) matches Some(b) && x <= b,
        after_socket(t, s, tag) matches Some(b) ==> b >= 0,
        after_probes(t, s.probes@, tag) matches Some(a) ==> after_socket(t, s, tag) matches Some(b)
            && a <= b,
{
    lemma_probes_from(t, s.probes@, tag);
}

proof fn lemma_sockets_nonneg(ss: Seq<SocketReadings>, tag: SensorTagKind)
    ensures
        after_sockets(ss, tag) matches Some(b) ==> b >= 0,
    decreases ss.len(),
{
    if ss.len() > 0 {
        lemma_sockets_nonneg(ss.drop_last(), tag);
        lemma_socket_grows(after_sockets(ss.drop_last(), tag), ss.last(), tag);
    }
}

proof fn lemma_sockets_grow(ss: Seq<SocketReadings>, tag: SensorTagKind, i: int)
    requires
        0 <= i <= ss.len(),
    ensures
        after_sockets(ss.take(i), tag) matches Some(a) ==> after_sockets(ss, tag) matches Some(b) && 0
            <= a <= b,
    decreases ss.len() - i,
{
    lemma_sockets_nonneg(ss.take(i), tag);
    if i < ss.len() {
        lemma_sockets_grow(ss, tag, i + 1);
        assert(ss.take(i + 1).drop_last() =~= ss.take(i));
        assert(ss.take(i + 1).last() == ss[i]);
        lemma_socket_grows(after_sockets(ss.take(i), tag), ss[i], tag);
    } else {
        assert(ss.take(i) =~= ss);
    }
}

fn push_socket(s: &SocketReadings, totals: &mut PerKindTotals, points: &mut Vec<PowerPoint>, Ghost(t0): Ghost<spec_fn(SensorTagKind) -> Option<int>>)
    requires
        forall|tag: SensorTagKind| #[trigger] old(totals).total_of(tag) == as_u64(t0(tag)),
        forall|tag: SensorTagKind| #[trigger] fits(t0(tag)),
        forall|tag: SensorTagKind| #[trigger] fits(after_socket(t0(tag), *s, tag)),
        dram_computable(s.probes@),
    ensures
        forall|tag: SensorTagKind| #[trigger] final(totals).total_of(tag) == as_u64(
            after_socket(t0(tag), *s, tag),
        ),
        final(points)@ == old(points)@ + socket_points(*s),
{
    let ghost start = points@;
    let mut grace: Option<u64> = None;
    let mut cpu: Option<u64> = None;
    let mut sysio: Option<u64> = None;
    let mut j: usize = 0;
    assert(s.probes@.take(0) =~= Seq::<ProbeReading>::empty());
    while j < s.probes.len()
        invariant
            0 <= j <= s.probes@.len(),
            forall|tag: SensorTagKind| #[trigger] fits(t0(tag)),
            forall|tag: SensorTagKind| #[trigger] fits(after_socket(t0(tag), *s, tag)),
            forall|tag: SensorTagKind| #[trigger] totals.total_of(tag) == as_u64(
                after_probes(t0(tag), s.probes@.take(j as int), tag),
            ),
            forall|tag: SensorTagKind| #[trigger] fits(after_probes(t0(tag), s.probes@.take(j as int), tag)),
            grace == last_power(s.probes@.take(j as int), TelemetryKind::Grace),
            cpu == last_power(s.probes@.take(j as int), TelemetryKind::Cpu),
            sysio == last_power(s.probes@.take(j as int), TelemetryKind::SysIo),
            points@ == start + s.probes@.take(j as int).map_values(
                |r: ProbeReading| PowerPoint::Probe { socket: s.socket, kind: r.kind, power: r.power },
            ),
        decreases s.probes.len() - j,
    {
        let r = s.probes[j];
        let ghost before = s.probes@.take(j as int);
        let ghost after = s.probes@.take(j + 1);
        assert(after.drop_last() =~= before);
        assert(after.last() == r);
        points.push(PowerPoint::Probe { socket: s.socket, kind: r.kind, power: r.power });
        assert(points@ =~= start + after.map_values(
            |r: ProbeReading| PowerPoint::Probe { socket: s.socket, kind: r.kind, power: r.power },
        ));
        match r.kind {
            TelemetryKind::Grace => grace = Some(r.power),
            TelemetryKind::Cpu => cpu = Some(r.power),
            TelemetryKind::SysIo => sysio = Some(r.power),
            TelemetryKind::Module => {},
        }
        let tag = SensorTagKind::from(r.kind);
        proof {
            assert forall|k: SensorTagKind| #[trigger] fits(after_probes(t0(k), after, k)) by {
                assert(fits(t0(k)));
                assert(fits(after_socket(t0(k), *s, k)));
                lemma_probes_grow(t0(k), s.probes@, k, j + 1);
                lemma_socket_grows(t0(k), *s, k);
            }
        }
        let ghost old_totals = *totals;
        proof {
            assert(totals.total_of(tag) == as_u64(after_probes(t0(tag), before, tag)));
            assert(fits(after_probes(t0(tag), before, tag)));
            assert(fits(after_probes(t0(tag), after, tag)));
            assert(tag_of(r.kind) == tag);
            assert(after_probes(t0(tag), after, tag) == Some(
                match after_probes(t0(tag), before, tag) {
                    Some(x) => x,
                    None => 0,
                } + r.power,
            ));
        }
        totals.push(tag, r.power);
        proof {
            assert forall|k: SensorTagKind| #[trigger] totals.total_of(k) == as_u64(
                after_probes(t0(k), after, k),
            ) by {
                if k == tag {
                } else {
                    assert(totals.total_of(k) == old_totals.total_of(k));
                    assert(old_totals.total_of(k) == as_u64(after_probes(t0(k), before, k)));
                    assert(after_probes(t0(k), after, k) == after_probes(t0(k), before, k));
                }
            }
        }
        j = j + 1;
    }
    assert(s.probes@.take(s.probes@.len() as int) =~= s.probes@);
    proof {
        let dt = SensorTagKind::Dram;
        assert(fits(t0(dt)));
        assert(fits(after_socket(t0(dt), *s, dt)));
        assert(fits(after_probes(t0(dt), s.probes@.take(s.probes@.len() as int), dt)));
        lemma_probes_from(t0(dt), s.probes@, dt);
    }
    let d = DramComputation { grace_value: grace, cpu_value: cpu, sysio_value: sysio };
    match d.compute() {
        Some(power) => {
            let ghost old_totals = *totals;
            points.push(PowerPoint::Dram { socket: s.socket, power });
            totals.push(SensorTagKind::Dram, power);
            proof {
                assert forall|k: SensorTagKind| #[trigger] totals.total_of(k) == as_u64(
                    after_socket(t0(k), *s, k),
                ) by {
                    if k != SensorTagKind::Dram {
                        assert(totals.total_of(k) == old_totals.total_of(k));
                    }
                }
            }
        },
        None => {},
    }
}

/// Sums up the power readings of a poll, socket by socket: every sensor gives its power, then
/// each socket whose grace, CPU and SysIO powers are known and consistent gives its estimated
/// DRAM power (`grace - cpu - sysio`); then come the totals per kind of sensor (in tag order),
/// and the total of the superchip, which is the module total, or else the grace total.
pub fn power_report(sockets: &[SocketReadings]) -> (r: PowerReport)
    requires
        summable(sockets@),
    ensures
        forall|tag: SensorTagKind| #[trigger] r.totals.total_of(tag) == as_u64(
            after_sockets(sockets@, tag),
        ),
        r.points@ == sockets_points(sockets@) + total_points(r.totals) + match overall(r.totals) {
            Some(p) => seq![PowerPoint::Overall { power: p }],
            None => Seq::empty(),
        },
{
    let mut totals = PerKindTotals::new();
    let mut points: Vec<PowerPoint> = Vec::new();
    let mut i: usize = 0;
    assert(sockets@.take(0) =~= Seq::<SocketReadings>::empty());
    while i < sockets.len()
        invariant
            0 <= i <= sockets@.len(),
            summable(sockets@),
            forall|tag: SensorTagKind| #[trigger] totals.total_of(tag) == as_u64(
                after_sockets(sockets@.take(i as int), tag),
            ),
            points@ == sockets_points(sockets@.take(i as int)),
        decreases sockets.len() - i,
    {
        let ghost before = sockets@.take(i as int);
        let ghost after = sockets@.take(i + 1);
        assert(after.drop_last() =~= before);
        let ghost t0 = |tag: SensorTagKind| after_sockets(before, tag);
        proof {
            assert forall|tag: SensorTagKind| #[trigger] fits(t0(tag)) by {
                lemma_sockets_grow(sockets@, tag, i as int);
                assert(fits(after_sockets(sockets@, tag)));
            }
            assert forall|tag: SensorTagKind| #[trigger] fits(after_socket(t0(tag), sockets@[i as int], tag)) by {
                lemma_sockets_grow(sockets@, tag, i + 1);
                assert(after.last() == sockets@[i as int]);
                assert(after_sockets(after, tag) == after_socket(t0(tag), sockets@[i as int], tag));
                assert(fits(after_sockets(sockets@, tag)));
            }
            assert(dram_computable(sockets@[i as int].probes@));
        }
        push_socket(&sockets[i], &mut totals, &mut points, Ghost(t0));
        proof {
            assert forall|tag: SensorTagKind| #[trigger] totals.total_of(tag) == as_u64(
                after_sockets(after, tag),
            ) by {
                assert(after.last() == sockets@[i as int]);
                assert(after_sockets(after, tag) == after_socket(t0(tag), sockets@[i as int], tag));
            }
        }
        i = i + 1;
    }
    assert(sockets@.take(sockets@.len() as int) =~= sockets@);
    let tag_totals = totals.iter();
    let mut k: usize = 0;
    let ghost base = points@;
    while k < tag_totals.len()
        invariant
            0 <= k <= tag_totals@.len(),
            tag_totals@ == totals_in_order(totals, 0),
            points@ == base + totals_in_order(totals, 0).take(k as int).map_values(
                |e: (SensorTagKind, u64)| PowerPoint::Total { tag: e.0, power: e.1 },
            ),
        decreases tag_totals.len() - k,
    {
        let (tag, power) = tag_totals[k];
        points.push(PowerPoint::Total { tag, power });
        assert(totals_in_order(totals, 0).take(k + 1) =~= totals_in_order(totals, 0).take(
            k as int,
        ).push((tag, power)));
        k = k + 1;
        assert(points@ =~= base + totals_in_order(totals, 0).take(k as int).map_values(
            |e: (SensorTagKind, u64)| PowerPoint::Total { tag: e.0, power: e.1 },
        ));
    }
    assert(totals_in_order(totals, 0).take(tag_totals@.len() as int) =~= totals_in_order(totals, 0));
    let whole = match totals.get(SensorTagKind::Module) {
        Some(m) => Some(m),
        None => totals.get(SensorTagKind::Grace),
    };
    match whole {
        Some(p) => points.push(PowerPoint::Overall { power: p }),
        None => {},
    }
    PowerReport { points, totals }
}


/// Adds `value` to the total of `tag`, unless the sum would exceed `u64::MAX`.
fn checked_push(totals: &mut PerKindTotals, tag: SensorTagKind, value: u64) -> (ok: bool)
    ensures
        ok == (old(totals).total_of(tag) matches Some(t) ==> t + value <= u64::MAX),
        ok ==> final(totals).total_of(tag) == Some(
            match old(totals).total_of(tag) {
                Some(t) => (t + value) as u64,
                None => value,
            },
        ),
        ok ==> forall|k: SensorTagKind| k != tag ==> #[trigger] final(totals).total_of(k) == old(
            totals,
        ).total_of(k),
{
    match totals.get(tag) {
        Some(t) => if t.checked_add(value).is_none() {
            return false;
        },
        None => {},
    }
    totals.push(tag, value);
    true
}

proof fn lemma_overflow_spreads(ss: Seq<SocketReadings>, i: int, j: int, tag: SensorTagKind)
    requires
        0 <= i < ss.len(),
        0 <= j <= ss[i].probes@.len(),
        fits(after_sockets(ss.take(i), tag)),
        !fits(after_probes(after_sockets(ss.take(i), tag), ss[i].probes@.take(j), tag)),
    ensures
        !fits(after_sockets(ss, tag)),
{
    let t0 = after_sockets(ss.take(i), tag);
    lemma_sockets_nonneg(ss.take(i), tag);
    lemma_probes_grow(t0, ss[i].probes@, tag, j);
    lemma_probes_from(t0, ss[i].probes@.take(j), tag);
    lemma_socket_grows(t0, ss[i], tag);
    assert(ss.take(i + 1).drop_last() =~= ss.take(i));
    assert(ss.take(i + 1).last() == ss[i]);
    lemma_sockets_grow(ss, tag, i + 1);
}

proof fn lemma_dram_overflow_spreads(ss: Seq<SocketReadings>, i: int)
    requires
        0 <= i < ss.len(),
        fits(after_sockets(ss.take(i), SensorTagKind::Dram)),
        !fits(after_socket(after_sockets(ss.take(i), SensorTagKind::Dram), ss[i], SensorTagKind::Dram)),
    ensures
        !fits(after_sockets(ss, SensorTagKind::Dram)),
{
    let tag = SensorTagKind::Dram;
    lemma_sockets_nonneg(ss.take(i), tag);
    lemma_socket_grows(after_sockets(ss.take(i), tag), ss[i], tag);
    assert(ss.take(i + 1).drop_last() =~= ss.take(i));
    assert(ss.take(i + 1).last() == ss[i]);
    lemma_sockets_grow(ss, tag, i + 1);
}

/// Whether the readings of a poll can be summed up without overflow (see [`summable`]).
pub fn power_summable(sockets: &[SocketReadings]) -> (b: bool)
    ensures
        b == summable(sockets@),
{
    let mut totals = PerKindTotals::new();
    let mut i: usize = 0;
    assert(sockets@.take(0) =~= Seq::<SocketReadings>::empty());
    while i < sockets.len()
        invariant
            0 <= i <= sockets@.len(),
            forall|tag: SensorTagKind| #[trigger] totals.total_of(tag) == as_u64(
                after_sockets(sockets@.take(i as int), tag),
            ),
            forall|tag: SensorTagKind| #[trigger] fits(after_sockets(sockets@.take(i as int), tag)),
            forall|m: int| 0 <= m < i ==> dram_computable(#[trigger] sockets@[m].probes@),
        decreases sockets.len() - i,
    {
        let s = &sockets[i];
        let ghost before = sockets@.take(i as int);
        let ghost after = sockets@.take(i + 1);
        assert(after.drop_last() =~= before);
        assert(after.last() == sockets@[i as int]);
        let ghost t0 = |tag: SensorTagKind| after_sockets(before, tag);
        let mut grace: Option<u64> = None;
        let mut cpu: Option<u64> = None;
        let mut sysio: Option<u64> = None;
        let mut j: usize = 0;
        assert(s.probes@.take(0) =~= Seq::<ProbeReading>::empty());
        while j < s.probes.len()
            invariant
                0 <= j <= s.probes@.len(),
                i < sockets@.len(),
                *s == sockets@[i as int],
                before == sockets@.take(i as int),
                forall|tag: SensorTagKind| #[trigger] fits(t0(tag)),
                forall|tag: SensorTagKind| t0(tag) == after_sockets(before, tag),
                forall|tag: SensorTagKind| #[trigger] totals.total_of(tag) == as_u64(
                    after_probes(t0(tag), s.probes@.take(j as int), tag),
                ),
                forall|tag: SensorTagKind| #[trigger] fits(after_probes(t0(tag), s.probes@.take(j as int), tag)),
                grace == last_power(s.probes@.take(j as int), TelemetryKind::Grace),
                cpu == last_power(s.probes@.take(j as int), TelemetryKind::Cpu),
                sysio == last_power(s.probes@.take(j as int), TelemetryKind::SysIo),
            decreases s.probes.len() - j,
        {
            let r = s.probes[j];
            let ghost pb = s.probes@.take(j as int);
            let ghost pa = s.probes@.take(j + 1);
            assert(pa.drop_last() =~= pb);
            assert(pa.last() == r);
            match r.kind {
                TelemetryKind::Grace => grace = Some(r.power),
                TelemetryKind::Cpu => cpu = Some(r.power),
                TelemetryKind::SysIo => sysio = Some(r.power),
                TelemetryKind::Module => {},
            }
            let tag = SensorTagKind::from(r.kind);
            let ghost old_totals = totals;
            proof {
                assert(totals.total_of(tag) == as_u64(after_probes(t0(tag), pb, tag)));
                assert(fits(after_probes(t0(tag), pb, tag)));
                assert(fits(t0(tag)));
                lemma_probes_from(t0(tag), pb, tag);
                assert(tag_of(r.kind) == tag);
            }
            if !checked_push(&mut totals, tag, r.power) {
                proof {
                    assert(!fits(after_probes(t0(tag), pa, tag)));
                    lemma_overflow_spreads(sockets@, i as int, j + 1, tag);
                    assert(!fits(after_sockets(sockets@, tag)));
                }
                return false;
            }
            proof {
                assert(after_probes(t0(tag), pa, tag) == Some(
                    match after_probes(t0(tag), pb, tag) {
                        Some(x) => x,
                        None => 0,
                    } + r.power,
                ));
                assert forall|k: SensorTagKind| #[trigger] totals.total_of(k) == as_u64(
                    after_probes(t0(k), pa, k),
                ) by {
                    assert(fits(after_probes(t0(k), pb, k)));
                    if k != tag {
                        assert(totals.total_of(k) == old_totals.total_of(k));
                        assert(old_totals.total_of(k) == as_u64(after_probes(t0(k), pb, k)));
                        assert(after_probes(t0(k), pa, k) == after_probes(t0(k), pb, k));
                    }
                }
                assert forall|k: SensorTagKind| #[trigger] fits(after_probes(t0(k), pa, k)) by {
                    assert(fits(after_probes(t0(k), pb, k)));
                    if k != tag {
                        assert(after_probes(t0(k), pa, k) == after_probes(t0(k), pb, k));
                    } else {
                        assert(old_totals.total_of(k) == as_u64(after_probes(t0(k), pb, k)));
                    }
                }
            }
            j = j + 1;
        }
        assert(s.probes@.take(s.probes@.len() as int) =~= s.probes@);
        let complete = match (grace, cpu, sysio) {
            (Some(_), Some(c), Some(v)) => c.checked_add(v).is_some(),
            _ => true,
        };
        if !complete {
            assert(!dram_computable(sockets@[i as int].probes@));
            return false;
        }
        let d = DramComputation { grace_value: grace, cpu_value: cpu, sysio_value: sysio };
        match d.compute() {
            Some(power) => {
                let ghost old_totals = totals;
                proof {
                    let dt = SensorTagKind::Dram;
                    assert(fits(t0(dt)));
                    assert(fits(after_probes(t0(dt), s.probes@, dt)));
                    lemma_probes_from(t0(dt), s.probes@, dt);
                }
                if !checked_push(&mut totals, SensorTagKind::Dram, power) {
                    proof {
                        lemma_dram_overflow_spreads(sockets@, i as int);
                    }
                    return false;
                }
                proof {
                    assert forall|k: SensorTagKind| #[trigger] totals.total_of(k) == as_u64(
                        after_socket(t0(k), *s, k),
                    ) by {
                        if k != SensorTagKind::Dram {
                            assert(totals.total_of(k) == old_totals.total_of(k));
                        }
                    }
                }
            },
            None => {},
        }
        proof {
            assert forall|k: SensorTagKind| #[trigger] fits(after_sockets(after, k)) by {
                assert(after_sockets(after, k) == after_socket(t0(k), *s, k));
                assert(fits(after_probes(t0(k), s.probes@, k)));
                assert(fits(t0(k)));
                lemma_probes_from(t0(k), s.probes@, k);
                lemma_probes_from(t0(k), s.probes@.take(s.probes@.len() as int), k);
            }
            assert forall|k: SensorTagKind| #[trigger] totals.total_of(k) == as_u64(
                after_sockets(after, k),
            ) by {
                assert(after_sockets(after, k) == after_socket(t0(k), *s, k));
            }
        }
        i = i + 1;
    }
    assert(sockets@.take(sockets@.len() as int) =~= sockets@);
    true
}

/// The metrics of the Grace Hopper source: the power, in microwatts, and the energy computed
/// from it, in millijoules.
pub open spec fn grace_metric_specs() -> Seq<(Seq<char>, PrefixedUnit, Seq<char>)> {
    seq![
        ("grace_instant_power"@, PrefixedUnit { base_unit: Unit::Watt, prefix: UnitPrefix::Micro }, "power consumption"@),
        ("grace_energy_consumption"@, PrefixedUnit { base_unit: Unit::Joule, prefix: UnitPrefix::Milli }, "energy consumption (computed from the power)"@),
    ]
}

/// The metrics that the Grace Hopper source creates.
pub fn grace_metrics() -> (r: Vec<MetricSpec>)
    ensures
        r@.map_values(|m: MetricSpec| metric_view(m)) == grace_metric_specs(),
{
    let mut out: Vec<MetricSpec> = Vec::new();
    out.push(definition("grace_instant_power", Unit::Watt, UnitPrefix::Micro, "power consumption"));
    out.push(definition("grace_energy_consumption", Unit::Joule, UnitPrefix::Milli, "energy consumption (computed from the power)"));
    assert(out@.map_values(|m: MetricSpec| metric_view(m)) =~= grace_metric_specs());
    out
}

} // verus!
