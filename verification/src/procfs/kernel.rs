//! System-level CPU time statistics (`/proc/stat`).

use vstd::prelude::*;
use crate::units::{definition, metric_view, MetricSpec, PrefixedUnit, Unit, UnitPrefix};

verus! {

/// CPU times of one CPU (or of all CPUs), in milliseconds, as `/proc/stat` reports them.
/// The optional times are not reported by older kernels.
#[derive(Debug, Clone, Copy, PartialEq, Eq, Structural)]
pub struct CpuTimeMs {
    pub user: u64,
    pub nice: u64,
    pub system: u64,
    pub idle: u64,
    pub irq: Option<u64>,
    pub softirq: Option<u64>,
    pub steal: Option<u64>,
    pub guest: Option<u64>,
    pub guest_nice: Option<u64>,
}

/// CPU time spent in each state between two reads, in milliseconds.
/// `iowait` is skipped because it is documented as unreliable.
#[derive(Debug, Clone, Copy, PartialEq, Eq, Structural)]
pub struct DeltaCpuTime {
    pub user: u64,
    pub nice: u64,
    pub system: u64,
    pub idle: u64,
    pub irq: Option<u64>,
    pub softirq: Option<u64>,
    pub steal: Option<u64>,
    pub guest: Option<u64>,
    pub guest_nice: Option<u64>,
}

/// The increase of an optional time: absent when the new read does not report it.
pub open spec fn opt_delta(prev: Option<u64>, now: Option<u64>) -> Option<u64> {
    match now {
        Some(n) => Some((n - prev->0) as u64),
        None => None,
    }
}

/// An optional time can be subtracted: when the new read reports it, so does the previous one,
/// with a value that is not larger.
pub open spec fn opt_delta_ok(prev: Option<u64>, now: Option<u64>) -> bool {
    now matches Some(n) ==> prev matches Some(p) && p <= n
}

/// The times of `now` are all at least those of `prev`.
pub open spec fn cpu_time_grows(prev: CpuTimeMs, now: CpuTimeMs) -> bool {
    &&& prev.user <= now.user
    &&& prev.nice <= now.nice
    &&& prev.system <= now.system
    &&& prev.idle <= now.idle
    &&& opt_delta_ok(prev.irq, now.irq)
    &&& opt_delta_ok(prev.softirq, now.softirq)
    &&& opt_delta_ok(prev.steal, now.steal)
    &&& opt_delta_ok(prev.guest, now.guest)
    &&& opt_delta_ok(prev.guest_nice, now.guest_nice)
}

fn sub_opt(prev: Option<u64>, now: Option<u64>) -> (r: Option<u64>)
    requires
        opt_delta_ok(prev, now),
    ensures
        r == opt_delta(prev, now),
{
    match now {
        Some(n) => match prev {
            Some(p) => Some(n - p),
            None => None,
        },
        None => None,
    }
}

/// A CPU state with its time, as reported in the `cpu_state` measurement attribute.
pub open spec fn state_values(d: DeltaCpuTime) -> Seq<(Seq<char>, u64)> {
    let base = seq![("user"@, d.user), ("nice"@, d.nice), ("system"@, d.system), ("idle"@, d.idle)];
    let with_irq = match d.irq {
        Some(v) => base.push(("irq"@, v)),
        None => base,
    };
    let with_softirq = match d.softirq {
        Some(v) => with_irq.push(("softirq"@, v)),
        None => with_irq,
    };
    let with_steal = match d.steal {
        Some(v) => with_softirq.push(("steal"@, v)),
        None => with_softirq,
    };
    let with_guest = match d.guest {
        Some(v) => with_steal.push(("guest"@, v)),
        None => with_steal,
    };
    match d.guest_nice {
        Some(v) => with_guest.push(("guest_nice"@, v)),
        None => with_guest,
    }
}

/// The time of the CPU state called `state`, read from the field of that name; none for a state
/// that is not reported or not known.
pub open spec fn cpu_state_time(d: DeltaCpuTime, state: Seq<char>) -> Option<u64> {
    if state == "user"@ {
        Some(d.user)
    } else if state == "nice"@ {
        Some(d.nice)
    } else if state == "system"@ {
        Some(d.system)
    } else if state == "idle"@ {
        Some(d.idle)
    } else if state == "irq"@ {
        d.irq
    } else if state == "softirq"@ {
        d.softirq
    } else if state == "steal"@ {
        d.steal
    } else if state == "guest"@ {
        d.guest
    } else if state == "guest_nice"@ {
        d.guest_nice
    } else {
        None
    }
}

spec fn names_fields(d: DeltaCpuTime, s: Seq<(Seq<char>, u64)>, seen: Set<Seq<char>>) -> bool {
    &&& forall|i: int| 0 <= i < s.len() ==> cpu_state_time(d, (#[trigger] s[i]).0) == Some(s[i].1)
    &&& forall|i: int, j: int| 0 <= i < j < s.len() ==> (#[trigger] s[i]).0 != (#[trigger] s[j]).0
    &&& forall|i: int| 0 <= i < s.len() ==> seen.contains((#[trigger] s[i]).0)
}

proof fn lemma_names_fields_push(
    d: DeltaCpuTime,
    s: Seq<(Seq<char>, u64)>,
    seen: Set<Seq<char>>,
    state: Seq<char>,
    t: u64,
)
    requires
        names_fields(d, s, seen),
        !seen.contains(state),
        cpu_state_time(d, state) == Some(t),
    ensures
        names_fields(d, s.push((state, t)), seen.insert(state)),
        forall|x: (Seq<char>, u64)| s.contains(x) ==> s.push((state, t)).contains(x),
        s.push((state, t)).contains((state, t)),
{
    let r = s.push((state, t));
    assert(r[s.len() as int] == (state, t));
    assert forall|x: (Seq<char>, u64)| s.contains(x) implies r.contains(x) by {
        let i = choose|i: int| 0 <= i < s.len() && s[i] == x;
        assert(r[i] == x);
    }
    assert forall|i: int, j: int| 0 <= i < j < r.len() implies (#[trigger] r[i]).0 != (#[trigger] r[j]).0 by {
        if j == s.len() {
            assert(seen.contains(s[i].0));
        } else {
            assert(r[i] == s[i] && r[j] == s[j]);
        }
    }
    assert forall|i: int| 0 <= i < r.len() implies cpu_state_time(d, (#[trigger] r[i]).0) == Some(r[i].1) by {
        if i < s.len() {
            assert(r[i] == s[i]);
        }
    }
    assert forall|i: int| 0 <= i < r.len() implies seen.insert(state).contains((#[trigger] r[i]).0) by {
        if i < s.len() {
            assert(r[i] == s[i]);
        }
    }
}

proof fn lemma_optional_step(
    d: DeltaCpuTime,
    s: Seq<(Seq<char>, u64)>,
    seen: Set<Seq<char>>,
    state: Seq<char>,
    v: Option<u64>,
) -> (r: Seq<(Seq<char>, u64)>)
    requires
        names_fields(d, s, seen),
        !seen.contains(state),
        cpu_state_time(d, state) == v,
    ensures
        r == (match v {
            Some(t) => s.push((state, t)),
            None => s,
        }),
        names_fields(d, r, seen.insert(state)),
        forall|x: (Seq<char>, u64)| s.contains(x) ==> r.contains(x),
        v matches Some(t) ==> r.contains((state, t)),
{
    match v {
        Some(t) => {
            lemma_names_fields_push(d, s, seen, state, t);
            s.push((state, t))
        },
        None => {
            assert forall|i: int| 0 <= i < s.len() implies seen.insert(state).contains((#[trigger] s[i]).0) by {
                assert(seen.contains(s[i].0));
            }
            s
        },
    }
}

/// Each CPU state is reported once, with the time of the field it names, and every state that
/// has a time is reported.
pub proof fn lemma_state_values_name_their_fields(d: DeltaCpuTime)
    ensures
        forall|i: int|
            0 <= i < state_values(d).len() ==> cpu_state_time(d, (#[trigger] state_values(d)[i]).0) == Some(
                state_values(d)[i].1,
            ),
        forall|i: int, j: int|
            0 <= i < j < state_values(d).len() ==> (#[trigger] state_values(d)[i]).0 != (#[trigger] state_values(
                d,
            )[j]).0,
        forall|state: Seq<char>, t: u64|
            cpu_state_time(d, state) == Some(t) ==> state_values(d).contains((state, t)),
{
    reveal_strlit("user");
    reveal_strlit("nice");
    reveal_strlit("system");
    reveal_strlit("idle");
    reveal_strlit("irq");
    reveal_strlit("softirq");
    reveal_strlit("steal");
    reveal_strlit("guest");
    reveal_strlit("guest_nice");
    assert("user"@[0] != "nice"@[0] && "user"@[0] != "idle"@[0] && "nice"@[0] != "idle"@[0]);
    assert("steal"@[0] != "guest"@[0]);
    let base = seq![("user"@, d.user), ("nice"@, d.nice), ("system"@, d.system), ("idle"@, d.idle)];
    let seen = set!["user"@, "nice"@, "system"@, "idle"@];
    assert(cpu_state_time(d, "user"@) == Some(d.user));
    assert(cpu_state_time(d, "nice"@) == Some(d.nice));
    assert(cpu_state_time(d, "system"@) == Some(d.system));
    assert(cpu_state_time(d, "idle"@) == Some(d.idle));
    assert(names_fields(d, base, seen)) by {
        assert forall|i: int, j: int| 0 <= i < j < base.len() implies (#[trigger] base[i]).0 != (
        #[trigger] base[j]).0 by {
        }
    }
    assert(base.contains(("user"@, d.user)) && base.contains(("nice"@, d.nice))) by {
        assert(base[0] == ("user"@, d.user) && base[1] == ("nice"@, d.nice));
    }
    assert(base.contains(("system"@, d.system)) && base.contains(("idle"@, d.idle))) by {
        assert(base[2] == ("system"@, d.system) && base[3] == ("idle"@, d.idle));
    }
    assert(!seen.contains("irq"@)) by {
        assert("irq"@.len() == 3 && "user"@.len() == 4 && "nice"@.len() == 4 && "idle"@.len() == 4);
        assert("system"@.len() == 6);
    }
    let s1 = lemma_optional_step(d, base, seen, "irq"@, d.irq);
    let seen1 = seen.insert("irq"@);
    assert(!seen1.contains("softirq"@)) by {
        assert("softirq"@.len() == 7);
    }
    let s2 = lemma_optional_step(d, s1, seen1, "softirq"@, d.softirq);
    let seen2 = seen1.insert("softirq"@);
    let s3 = lemma_optional_step(d, s2, seen2, "steal"@, d.steal);
    let seen3 = seen2.insert("steal"@);
    let s4 = lemma_optional_step(d, s3, seen3, "guest"@, d.guest);
    let seen4 = seen3.insert("guest"@);
    assert(!seen4.contains("guest_nice"@)) by {
        assert("guest_nice"@.len() == 10 && "steal"@.len() == 5 && "guest"@.len() == 5);
    }
    let s5 = lemma_optional_step(d, s4, seen4, "guest_nice"@, d.guest_nice);
    assert(s5 == state_values(d));
}

/// The time spent in each state between the reads `prev` and `now`.
pub open spec fn cpu_delta(prev: CpuTimeMs, now: CpuTimeMs) -> DeltaCpuTime {
    DeltaCpuTime {
        user: (now.user - prev.user) as u64,
        nice: (now.nice - prev.nice) as u64,
        system: (now.system - prev.system) as u64,
        idle: (now.idle - prev.idle) as u64,
        irq: opt_delta(prev.irq, now.irq),
        softirq: opt_delta(prev.softirq, now.softirq),
        steal: opt_delta(prev.steal, now.steal),
        guest: opt_delta(prev.guest, now.guest),
        guest_nice: opt_delta(prev.guest_nice, now.guest_nice),
    }
}

impl DeltaCpuTime {
    /// The time spent in each state between the reads `prev` and `now`.
    pub fn compute_diff(prev: &CpuTimeMs, now: &CpuTimeMs) -> (d: Self)
        requires
            cpu_time_grows(*prev, *now),
        ensures
            d.user == now.user - prev.user,
            d.nice == now.nice - prev.nice,
            d.system == now.system - prev.system,
            d.idle == now.idle - prev.idle,
            d.irq == opt_delta(prev.irq, now.irq),
            d.softirq == opt_delta(prev.softirq, now.softirq),
            d.steal == opt_delta(prev.steal, now.steal),
            d.guest == opt_delta(prev.guest, now.guest),
            d.guest_nice == opt_delta(prev.guest_nice, now.guest_nice),
            d == cpu_delta(*prev, *now),
    {
        DeltaCpuTime {
            user: now.user - prev.user,
            nice: now.nice - prev.nice,
            system: now.system - prev.system,
            idle: now.idle - prev.idle,
            irq: sub_opt(prev.irq, now.irq),
            softirq: sub_opt(prev.softirq, now.softirq),
            steal: sub_opt(prev.steal, now.steal),
            guest: sub_opt(prev.guest, now.guest),
            guest_nice: sub_opt(prev.guest_nice, now.guest_nice),
        }
    }

    /// The value of each CPU state to report, in order, with the state's name: the four
    /// mandatory states, then each optional one that is known.
    pub fn state_values(&self) -> (r: Vec<(&'static str, u64)>)
        ensures
            r@.map_values(|p: (&'static str, u64)| (p.0@, p.1)) == state_values(*self),
    {
        let mut r: Vec<(&'static str, u64)> = Vec::new();
        r.push(("user", self.user));
        r.push(("nice", self.nice));
        r.push(("system", self.system));
        r.push(("idle", self.idle));
        if let Some(v) = self.irq {
            r.push(("irq", v));
        }
        if let Some(v) = self.softirq {
            r.push(("softirq", v));
        }
        if let Some(v) = self.steal {
            r.push(("steal", v));
        }
        if let Some(v) = self.guest {
            r.push(("guest", v));
        }
        if let Some(v) = self.guest_nice {
            r.push(("guest_nice", v));
        }
        assert(r@.map_values(|p: (&'static str, u64)| (p.0@, p.1)) =~= state_values(*self));
        r
    }
}


/// What a read of `/proc/stat` gives.
#[derive(Debug, Clone, PartialEq, Eq)]
pub struct KernelStats {
    /// CPU times of all the CPUs together.
    pub total: CpuTimeMs,
    /// CPU times of each CPU, in order.
    pub cpu_time: Vec<CpuTimeMs>,
    /// Number of context switches since boot.
    pub ctxt: u64,
    /// Number of forks since boot.
    pub processes: u64,
    /// Number of processes in a runnable state, if reported.
    pub procs_running: Option<u32>,
    /// Number of processes blocked on I/O, if reported.
    pub procs_blocked: Option<u32>,
}

/// A measurement of CPU time: the CPU it is about (none for all of them), the CPU state and
/// the time, in milliseconds.
#[derive(Debug, Clone, Copy, PartialEq, Eq)]
pub struct CpuTimePoint {
    pub core: Option<u32>,
    pub state: &'static str,
    pub value: u64,
}

/// The counts measured between two reads.
#[derive(Debug, Clone, Copy, PartialEq, Eq, Structural)]
pub struct KernelCounts {
    pub context_switches: u64,
    pub new_forks: u64,
    pub procs_running: Option<u32>,
    pub procs_blocked: Option<u32>,
}

/// What a poll measures, once a previous read is known.
#[derive(Debug, Clone, PartialEq, Eq)]
pub struct KernelMeasures {
    pub cpu_times: Vec<CpuTimePoint>,
    pub counts: KernelCounts,
}

/// The counters of `now` are all at least those of `prev`, for the total, for each CPU that
/// both reads list, and for the context switches and forks.
pub open spec fn stats_grow(prev: KernelStats, now: KernelStats) -> bool {
    &&& cpu_time_grows(prev.total, now.total)
    &&& forall|i: int|
        0 <= i < prev.cpu_time@.len() && i < now.cpu_time@.len() ==> cpu_time_grows(
            #[trigger] prev.cpu_time@[i],
            now.cpu_time@[i],
        )
    &&& prev.ctxt <= now.ctxt
    &&& prev.processes <= now.processes
}

/// The CPU-time measurements of one CPU (or of all, `core` being none), state by state.
pub open spec fn core_points(core: Option<u32>, d: DeltaCpuTime) -> Seq<(Option<u32>, Seq<char>, u64)> {
    state_values(d).map_values(|p: (Seq<char>, u64)| (core, p.0, p.1))
}

/// The CPU-time measurements of the first `k` CPUs.
pub open spec fn per_core_points(prev: Seq<CpuTimeMs>, now: Seq<CpuTimeMs>, k: int) -> Seq<
    (Option<u32>, Seq<char>, u64),
>
    decreases k,
{
    if k <= 0 {
        Seq::empty()
    } else {
        per_core_points(prev, now, k - 1) + core_points(
            Some((k - 1) as u32),
            cpu_delta(prev[k - 1], now[k - 1]),
        )
    }
}

/// All the CPU-time measurements between two reads: those of all CPUs together, then those of
/// each CPU that both reads list.
pub open spec fn cpu_time_points(prev: KernelStats, now: KernelStats) -> Seq<(Option<u32>, Seq<char>, u64)> {
    let n = if prev.cpu_time@.len() < now.cpu_time@.len() {
        prev.cpu_time@.len()
    } else {
        now.cpu_time@.len()
    };
    core_points(None, cpu_delta(prev.total, now.total)) + per_core_points(
        prev.cpu_time@,
        now.cpu_time@,
        n as int,
    )
}

/// What a list of CPU-time measurements holds.
pub open spec fn points_view(p: Seq<CpuTimePoint>) -> Seq<(Option<u32>, Seq<char>, u64)> {
    p.map_values(|x: CpuTimePoint| (x.core, x.state@, x.value))
}

fn push_core(out: &mut Vec<CpuTimePoint>, core: Option<u32>, d: &DeltaCpuTime)
    ensures
        points_view(final(out)@) == points_view(old(out)@) + core_points(core, *d),
{
    let values = d.state_values();
    let ghost before = out@;
    let mut i: usize = 0;
    while i < values.len()
        invariant
            0 <= i <= values@.len(),
            values@.map_values(|p: (&'static str, u64)| (p.0@, p.1)) == state_values(*d),
            points_view(out@) == points_view(before) + core_points(core, *d).take(i as int),
        decreases values.len() - i,
    {
        let (name, v) = values[i];
        let ghost prev_out = out@;
        out.push(CpuTimePoint { core, state: name, value: v });
        assert(state_values(*d)[i as int] == (name@, v));
        assert(points_view(out@) =~= points_view(prev_out).push((core, name@, v)));
        assert(core_points(core, *d).take(i + 1) =~= core_points(core, *d).take(i as int).push(
            (core, name@, v),
        ));
        i = i + 1;
    }
    assert(core_points(core, *d).take(values@.len() as int) =~= core_points(core, *d));
}

/// The measurements between two reads of `/proc/stat`: the CPU time spent in each state by all
/// the CPUs and by each CPU (paired in order, as far as both reads go), and the counts of
/// context switches and forks since the previous read, with the numbers of running and
/// blocked processes of the new read.
pub fn kernel_measures(prev: &KernelStats, now: &KernelStats) -> (m: KernelMeasures)
    requires
        stats_grow(*prev, *now),
    ensures
        points_view(m.cpu_times@) == cpu_time_points(*prev, *now),
        m.counts == (KernelCounts {
            context_switches: (now.ctxt - prev.ctxt) as u64,
            new_forks: (now.processes - prev.processes) as u64,
            procs_running: now.procs_running,
            procs_blocked: now.procs_blocked,
        }),
{
    let mut out: Vec<CpuTimePoint> = Vec::new();
    let total = DeltaCpuTime::compute_diff(&prev.total, &now.total);
    assert(points_view(out@) =~= Seq::empty());
    push_core(&mut out, None, &total);
    let n = if prev.cpu_time.len() < now.cpu_time.len() {
        prev.cpu_time.len()
    } else {
        now.cpu_time.len()
    };
    let mut i: usize = 0;
    while i < n
        invariant
            0 <= i <= n,
            n <= prev.cpu_time@.len(),
            n <= now.cpu_time@.len(),
            stats_grow(*prev, *now),
            points_view(out@) == core_points(None, cpu_delta(prev.total, now.total))
                + per_core_points(prev.cpu_time@, now.cpu_time@, i as int),
        decreases n - i,
    {
        assert(cpu_time_grows(prev.cpu_time@[i as int], now.cpu_time@[i as int]));
        let d = DeltaCpuTime::compute_diff(&prev.cpu_time[i], &now.cpu_time[i]);
        push_core(&mut out, Some(i as u32), &d);
        i = i + 1;
    }
    KernelMeasures {
        cpu_times: out,
        counts: KernelCounts {
            context_switches: now.ctxt - prev.ctxt,
            new_forks: now.processes - prev.processes,
            procs_running: now.procs_running,
            procs_blocked: now.procs_blocked,
        },
    }
}

/// The state of a kernel statistics source between two polls: the previous read, if any.
pub struct KernelPoller {
    pub previous: Option<KernelStats>,
}

impl KernelPoller {
    /// A source that has not read `/proc/stat` yet.
    pub fn new() -> (p: Self)
        ensures
            p.previous is None,
    {
        KernelPoller { previous: None }
    }

    /// Takes a new read of `/proc/stat`: returns the measurements since the previous read, if
    /// there was one, and keeps the new read for the next poll.
    pub fn poll(&mut self, now: KernelStats) -> (m: Option<KernelMeasures>)
        requires
            old(self).previous matches Some(prev) ==> stats_grow(prev, now),
        ensures
            final(self).previous == Some(now),
            old(self).previous is None ==> m is None,
            old(self).previous matches Some(prev) ==> m matches Some(x) && points_view(x.cpu_times@)
                == cpu_time_points(prev, now) && x.counts == (KernelCounts {
                context_switches: (now.ctxt - prev.ctxt) as u64,
                new_forks: (now.processes - prev.processes) as u64,
                procs_running: now.procs_running,
                procs_blocked: now.procs_blocked,
            }),
    {
        let m = match &self.previous {
            Some(prev) => Some(kernel_measures(prev, &now)),
            None => None,
        };
        self.previous = Some(now);
        m
    }
}


fn opt_grows(prev: Option<u64>, now: Option<u64>) -> (b: bool)
    ensures
        b == opt_delta_ok(prev, now),
{
    match now {
        Some(n) => match prev {
            Some(p) => p <= n,
            None => false,
        },
        None => true,
    }
}

/// Whether the times of `now` are all at least those of `prev`.
pub fn cpu_time_grows_check(prev: &CpuTimeMs, now: &CpuTimeMs) -> (b: bool)
    ensures
        b == cpu_time_grows(*prev, *now),
{
    prev.user <= now.user && prev.nice <= now.nice && prev.system <= now.system && prev.idle
        <= now.idle && opt_grows(prev.irq, now.irq) && opt_grows(prev.softirq, now.softirq)
        && opt_grows(prev.steal, now.steal) && opt_grows(prev.guest, now.guest) && opt_grows(
        prev.guest_nice,
        now.guest_nice,
    )
}

/// Whether the counters of a read of `/proc/stat` are all at least those of the previous one,
/// as a poll needs them to be.
pub fn stats_grow_check(prev: &KernelStats, now: &KernelStats) -> (b: bool)
    ensures
        b == stats_grow(*prev, *now),
{
    if !cpu_time_grows_check(&prev.total, &now.total) || prev.ctxt > now.ctxt || prev.processes
        > now.processes {
        return false;
    }
    let mut i: usize = 0;
    while i < prev.cpu_time.len() && i < now.cpu_time.len()
        invariant
            0 <= i <= prev.cpu_time@.len(),
            forall|j: int| 0 <= j < i ==> cpu_time_grows(#[trigger] prev.cpu_time@[j], now.cpu_time@[j]),
        decreases prev.cpu_time.len() - i,
    {
        if !cpu_time_grows_check(&prev.cpu_time[i], &now.cpu_time[i]) {
            return false;
        }
        i = i + 1;
    }
    true
}

/// The metrics of the kernel statistics, in order: the busy CPU time, the context switches,
/// the forks, and the numbers of running and blocked processes.
pub open spec fn kernel_metric_specs() -> Seq<(Seq<char>, PrefixedUnit, Seq<char>)> {
    seq![
        ("kernel_cpu_time"@, PrefixedUnit { base_unit: Unit::Second, prefix: UnitPrefix::Milli }, "busy CPU time"@),
        ("kernel_context_switches"@, PrefixedUnit { base_unit: Unit::Unity, prefix: UnitPrefix::Plain }, "number of context switches"@),
        ("kernel_new_forks"@, PrefixedUnit { base_unit: Unit::Unity, prefix: UnitPrefix::Plain }, "number of fork operations"@),
        ("kernel_n_procs_running"@, PrefixedUnit { base_unit: Unit::Unity, prefix: UnitPrefix::Plain }, "number of processes in a runnable state"@),
        ("kernel_n_procs_blocked"@, PrefixedUnit { base_unit: Unit::Unity, prefix: UnitPrefix::Plain }, "numbers of processes that are blocked on I/O operations"@),
    ]
}

/// The metrics that the kernel statistics source creates.
pub fn kernel_metrics() -> (r: Vec<MetricSpec>)
    ensures
        r@.map_values(|m: MetricSpec| metric_view(m)) == kernel_metric_specs(),
{
    let mut out: Vec<MetricSpec> = Vec::new();
    out.push(definition("kernel_cpu_time", Unit::Second, UnitPrefix::Milli, "busy CPU time"));
    out.push(definition("kernel_context_switches", Unit::Unity, UnitPrefix::Plain, "number of context switches"));
    out.push(definition("kernel_new_forks", Unit::Unity, UnitPrefix::Plain, "number of fork operations"));
    out.push(definition("kernel_n_procs_running", Unit::Unity, UnitPrefix::Plain, "number of processes in a runnable state"));
    out.push(definition("kernel_n_procs_blocked", Unit::Unity, UnitPrefix::Plain, "numbers of processes that are blocked on I/O operations"));
    assert(out@.map_values(|m: MetricSpec| metric_view(m)) =~= kernel_metric_specs());
    out
}

} // verus!
