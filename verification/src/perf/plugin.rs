//! Decisions of the perf plugin around its sources: which metric each event feeds, which
//! events a source opens, how sources are named and in which state they start.

use vstd::prelude::*;
use crate::perf::spec::{ParsedEvent, Scope};
use crate::text::{dec_digits, dec_of, push_all, push_str, string_of};

verus! {

/// The name of the metric of an event, from its suffix.
pub open spec fn metric_name(suffix: Seq<char>) -> Seq<char> {
    "perf_"@ + suffix
}

/// The names of `names` without repetitions, in the order of their first appearance.
pub open spec fn distinct_in_order(names: Seq<Seq<char>>) -> Seq<Seq<char>>
    decreases names.len(),
{
    if names.len() == 0 {
        Seq::empty()
    } else {
        let before = distinct_in_order(names.drop_last());
        if before.contains(names.last()) {
            before
        } else {
            before.push(names.last())
        }
    }
}

/// The metric names of the events, in order.
pub open spec fn event_metric_names(events: Seq<ParsedEvent>) -> Seq<Seq<char>> {
    events.map_values(|e: ParsedEvent| metric_name(e.metric_suffix@))
}

/// Which metric each event feeds: the metrics to create, once per distinct name in the order in
/// which the names first appear, and for each event the position of its metric.
pub struct MetricPlan {
    pub names: Vec<String>,
    pub metric_of_event: Vec<usize>,
}

fn position_of(names: &Vec<String>, name: &String) -> (r: Option<usize>)
    ensures
        r matches Some(k) ==> k < names@.len() && names@[k as int]@ == name@,
        r is None ==> forall|m: int| 0 <= m < names@.len() ==> names@[m]@ != name@,
{
    let mut k: usize = 0;
    while k < names.len()
        invariant
            0 <= k <= names@.len(),
            forall|m: int| 0 <= m < k ==> names@[m]@ != name@,
        decreases names.len() - k,
    {
        if names[k] == *name {
            return Some(k);
        }
        k = k + 1;
    }
    None
}

/// Events fanned onto several core PMUs share one metric, told apart by their `pmu` attribute:
/// plans one metric per distinct name, `perf_` followed by the event's suffix, and gives each
/// event the position of its metric.
pub fn plan_metrics(events: &[ParsedEvent]) -> (p: MetricPlan)
    ensures
        p.names@.map_values(|n: String| n@) == distinct_in_order(event_metric_names(events@)),
        p.metric_of_event@.len() == events@.len(),
        forall|i: int|
            0 <= i < events@.len() ==> (#[trigger] p.metric_of_event@[i]) < p.names@.len()
                && p.names@[p.metric_of_event@[i] as int]@ == metric_name(events@[i].metric_suffix@),
{
    let mut names: Vec<String> = Vec::new();
    let mut index: Vec<usize> = Vec::new();
    let mut i: usize = 0;
    while i < events.len()
        invariant
            0 <= i <= events@.len(),
            names@.map_values(|n: String| n@) == distinct_in_order(
                event_metric_names(events@).take(i as int),
            ),
            index@.len() == i,
            forall|j: int|
                0 <= j < i ==> (#[trigger] index@[j]) < names@.len() && names@[index@[j] as int]@
                    == metric_name(events@[j].metric_suffix@),
        decreases events.len() - i,
    {
        let mut full: Vec<char> = Vec::new();
        push_str(&mut full, "perf_");
        push_str(&mut full, events[i].metric_suffix.as_str());
        let name = string_of(full.as_slice());
        assert(name@ == metric_name(events@[i as int].metric_suffix@));
        let ghost all = event_metric_names(events@);
        assert(all.take(i + 1).drop_last() =~= all.take(i as int));
        assert(all.take(i + 1).last() == name@);
        let ghost view_before = names@.map_values(|n: String| n@);
        match position_of(&names, &name) {
            Some(k) => {
                assert(view_before[k as int] == name@);
                index.push(k);
            },
            None => {
                assert(!view_before.contains(name@)) by {
                    if view_before.contains(name@) {
                        let m = choose|m: int| 0 <= m < view_before.len() && view_before[m] == name@;
                        assert(names@[m]@ == name@);
                    }
                }
                let at = names.len();
                names.push(name);
                assert(names@.map_values(|n: String| n@) =~= view_before.push(name@));
                index.push(at);
            },
        }
        i = i + 1;
    }
    assert(event_metric_names(events@).take(events@.len() as int) =~= event_metric_names(events@));
    MetricPlan { names, metric_of_event: index }
}

/// The positions of the events whose scope satisfies `keep`, in order.
pub open spec fn positions(events: Seq<ParsedEvent>, system_wide: bool, k: int) -> Seq<usize>
    decreases k,
{
    if k <= 0 {
        Seq::empty()
    } else {
        let before = positions(events, system_wide, k - 1);
        if (events[k - 1].scope is SystemWide) == system_wide {
            before.push((k - 1) as usize)
        } else {
            before
        }
    }
}

/// The positions of the system-wide events (opened once, by a machine-wide source) when
/// `system_wide` holds, else those of the task-attached events (opened by the source of each
/// process or cgroup), in order.
pub fn events_in_scope(events: &[ParsedEvent], system_wide: bool) -> (r: Vec<usize>)
    ensures
        r@ == positions(events@, system_wide, events@.len() as int),
{
    let mut r: Vec<usize> = Vec::new();
    let mut i: usize = 0;
    while i < events.len()
        invariant
            0 <= i <= events@.len(),
            r@ == positions(events@, system_wide, i as int),
        decreases events.len() - i,
    {
        let is_system = match &events[i].scope {
            Scope::SystemWide { .. } => true,
            Scope::TaskAttached { .. } => false,
        };
        if is_system == system_wide {
            r.push(i);
        }
        i = i + 1;
    }
    r
}

/// The state in which a new source starts.
#[derive(Debug, Clone, Copy, PartialEq, Eq, Structural)]
pub enum TaskState {
    Run,
    Pause,
}

/// The state in which new sources start: paused when the configuration asks for it.
pub fn initial_state(add_source_in_pause_state: bool) -> (s: TaskState)
    ensures
        s == (if add_source_in_pause_state {
            TaskState::Pause
        } else {
            TaskState::Run
        }),
{
    if add_source_in_pause_state {
        TaskState::Pause
    } else {
        TaskState::Run
    }
}

/// The name of the source that measures the process `pid`.
pub fn process_source_name(pid: u32) -> (r: String)
    ensures
        r@ == "source-pid["@ + dec_of(pid as nat) + "]"@,
{
    let mut out: Vec<char> = Vec::new();
    push_str(&mut out, "source-pid[");
    let d = dec_digits(pid as u64);
    push_all(&mut out, d.as_slice());
    push_str(&mut out, "]");
    string_of(out.as_slice())
}

/// The name of the source that measures the control group at `path`.
pub fn cgroup_source_name(path: &str) -> (r: String)
    ensures
        r@ == "source-cgroup["@ + path@ + "]"@,
{
    let mut out: Vec<char> = Vec::new();
    push_str(&mut out, "source-cgroup[");
    push_str(&mut out, path);
    push_str(&mut out, "]");
    string_of(out.as_slice())
}

/// Where a control group of the canonical path `path` lies, cgroup v2 being mounted at
/// `/sys/fs/cgroup`.
pub fn cgroup_absolute_path(path: &str) -> (r: String)
    ensures
        r@ == "/sys/fs/cgroup"@ + path@,
{
    let mut out: Vec<char> = Vec::new();
    push_str(&mut out, "/sys/fs/cgroup");
    push_str(&mut out, path);
    string_of(out.as_slice())
}

/// A consumer of resources whose measurement starts or ends.
#[derive(Debug, Clone, PartialEq, Eq)]
pub enum Consumer {
    Process { pid: u32 },
    ControlGroup { path: String },
    /// Any other consumer, which has no perf source.
    Other,
}

/// What a perf source observes.
#[derive(Debug, Clone, PartialEq, Eq)]
pub enum Observed {
    Process { pid: i32 },
    /// A control group, by its absolute path.
    Cgroup { path: String },
}

/// What the source for a consumer observes and its name: a process by its pid, a control group
/// by its path under `/sys/fs/cgroup`; other consumers get no source.
pub fn observation_for(consumer: &Consumer) -> (r: Option<(Observed, String)>)
    requires
        consumer matches Consumer::Process { pid } ==> pid <= i32::MAX,
    ensures
        match consumer {
            Consumer::Process { pid } => r matches Some((Observed::Process { pid: p }, name)) && p
                == pid && name@ == "source-pid["@ + dec_of(*pid as nat) + "]"@,
            Consumer::ControlGroup { path } => r matches Some((Observed::Cgroup { path: a }, name))
                && a@ == "/sys/fs/cgroup"@ + path@ && name@ == "source-cgroup["@ + path@ + "]"@,
            Consumer::Other => r is None,
        },
{
    match consumer {
        Consumer::Process { pid } => Some(
            (Observed::Process { pid: *pid as i32 }, process_source_name(*pid)),
        ),
        Consumer::ControlGroup { path } => Some(
            (
                Observed::Cgroup { path: cgroup_absolute_path(path.as_str()) },
                cgroup_source_name(path.as_str()),
            ),
        ),
        Consumer::Other => None,
    }
}

/// The name of the source to stop when the measurement of a consumer ends, if it has one.
pub fn source_to_stop(consumer: &Consumer) -> (r: Option<String>)
    ensures
        match consumer {
            Consumer::Process { pid } => r matches Some(name) && name@ == "source-pid["@ + dec_of(
                *pid as nat,
            ) + "]"@,
            Consumer::ControlGroup { path } => r matches Some(name) && name@ == "source-cgroup["@
                + path@ + "]"@,
            Consumer::Other => r is None,
        },
{
    match consumer {
        Consumer::Process { pid } => Some(process_source_name(*pid)),
        Consumer::ControlGroup { path } => Some(cgroup_source_name(path.as_str())),
        Consumer::Other => None,
    }
}

} // verus!
