//! Watching processes: which processes are new, which group of settings monitors a process,
//! and what a poll of a monitored process measures.

use vstd::prelude::*;
use crate::units::{definition, metric_view, MetricSpec, PrefixedUnit, Unit, UnitPrefix};
use std::collections::HashMap;
use crate::procfs::process::{DeltaCpuTime, ProcStat, ProcessFingerprint};

verus! {

broadcast use vstd::std_specs::hash::group_hash_axioms;

/// A compiled regular expression.
#[verifier::external_type_specification]
#[verifier::external_body]
pub struct ExRegex(regex::Regex);

/// The error of a regular expression that does not compile.
#[verifier::external_type_specification]
#[verifier::external_body]
pub struct ExRegexError(regex::Error);

/// Whether `regex::Regex::new` accepts `pattern`.
pub uninterp spec fn valid_regex(pattern: Seq<char>) -> bool;

/// Whether `regex::Regex::is_match`, on the expression compiled from `pattern`, finds a match
/// in `text`.
pub uninterp spec fn regex_matches(pattern: Seq<char>, text: Seq<char>) -> bool;

/// Compiles `pattern` with `regex::Regex::new`. The contract names whether it compiles; the
/// syntax of regular expressions is the regex crate's own.
#[verifier::external_body]
fn compile_regex(pattern: &str) -> (r: Result<regex::Regex, regex::Error>)
    ensures
        r is Ok == valid_regex(pattern@),
{
    regex::Regex::new(pattern)
}

/// A regular expression on the paths of executables: the pattern, and the expression compiled
/// from it. Its fields are private and only [`ExeRegex::new`] sets them, so that the expression
/// is always the one compiled from the pattern.
#[derive(Debug)]
pub struct ExeRegex {
    pattern: String,
    compiled: regex::Regex,
}

/// A pattern that does not compile.
#[derive(Debug, Clone, PartialEq, Eq)]
pub struct InvalidPattern {
    pub pattern: String,
}

/// Whether the expression of `r` matches `text`, by `regex::Regex::is_match`. The contract
/// names the result by the pattern the expression was compiled from (an `ExeRegex` always holds
/// the expression compiled from its pattern); the matching rules are the regex crate's own.
#[verifier::external_body]
fn regex_is_match(r: &ExeRegex, text: &str) -> (b: bool)
    ensures
        b == regex_matches(r.pattern(), text@),
{
    r.compiled.is_match(text)
}

impl ExeRegex {
    /// The pattern of the expression.
    pub closed spec fn pattern(&self) -> Seq<char> {
        self.pattern@
    }

    /// Compiles `pattern`.
    pub fn new(pattern: &str) -> (r: Result<ExeRegex, InvalidPattern>)
        ensures
            r is Ok <==> valid_regex(pattern@),
            r matches Ok(x) ==> x.pattern() == pattern@,
            r matches Err(e) ==> e.pattern@ == pattern@,
    {
        match compile_regex(pattern) {
            Ok(compiled) => Ok(ExeRegex { pattern: pattern.to_owned(), compiled }),
            Err(_) => Err(InvalidPattern { pattern: pattern.to_owned() }),
        }
    }

    /// Whether the expression matches `text`.
    pub fn is_match(&self, text: &str) -> (b: bool)
        ensures
            b == regex_matches(self.pattern(), text@),
    {
        regex_is_match(self, text)
    }
}

/// Why reading information about a process failed.
#[derive(Debug, Clone, PartialEq, Eq)]
pub enum ProcReadError {
    /// The process (or its file) does not exist anymore.
    NotFound,
    /// Reading is not permitted.
    PermissionDenied,
    /// An I/O error, with the operating system's error code if there is one.
    Io(Option<i32>),
    /// Any other failure, with its message.
    Other(String),
}

impl ProcReadError {
    /// A copy of this error.
    pub fn duplicate(&self) -> (r: Self)
        ensures
            r == *self,
    {
        match self {
            ProcReadError::NotFound => ProcReadError::NotFound,
            ProcReadError::PermissionDenied => ProcReadError::PermissionDenied,
            ProcReadError::Io(code) => ProcReadError::Io(*code),
            ProcReadError::Other(message) => ProcReadError::Other(message.clone()),
        }
    }
}

/// What a failed poll of a process means for its source.
#[derive(Debug, Clone, Copy, PartialEq, Eq, Structural)]
pub enum PollStop {
    /// The process is gone: the source stops normally.
    NormalStop,
    /// Anything else: the source fails.
    Fatal,
}

/// Code of the operating system's "No such process" error.
pub const NO_SUCH_PROCESS: i32 = 3;

/// How a failed read of a process stops its source: normally when the process is gone, which
/// includes the operating system's "No such process" error, else fatally.
pub open spec fn stop_kind(e: ProcReadError) -> PollStop {
    match e {
        ProcReadError::NotFound => PollStop::NormalStop,
        ProcReadError::Io(Some(code)) => if code == NO_SUCH_PROCESS {
            PollStop::NormalStop
        } else {
            PollStop::Fatal
        },
        _ => PollStop::Fatal,
    }
}

/// Decides how a failed read of a process stops its source.
pub fn stop_if_proc_not_found(err: &ProcReadError) -> (r: PollStop)
    ensures
        r == stop_kind(*err),
{
    match err {
        ProcReadError::NotFound => PollStop::NormalStop,
        ProcReadError::Io(Some(code)) => if *code == NO_SUCH_PROCESS {
            PollStop::NormalStop
        } else {
            PollStop::Fatal
        },
        _ => PollStop::Fatal,
    }
}

/// What a filter may ask of a process: its pid, its parent's pid and the path of its
/// executable (none when the path is not valid UTF-8), or why they could not be read.
pub struct ProcessFacts {
    pub pid: i32,
    pub ppid: Result<i32, ProcReadError>,
    pub exe: Result<Option<String>, ProcReadError>,
}

/// Conditions on the processes of a group: each given one must hold.
pub struct ProcessFilter {
    /// Only the process that has this pid.
    pub pid: Option<i32>,
    /// Only the processes that have this parent.
    pub ppid: Option<i32>,
    /// Only the processes whose executable path matches this expression.
    pub exe_regex: Option<ExeRegex>,
}

/// Whether a filter accepts a process, given whether the path of its executable matches the
/// filter's expression (`matched`, asked only when the filter has an expression and the path is
/// known): the pid and the parent are checked first, then the path; a process whose path is not
/// valid UTF-8 passes the path check. A failure to read what a check needs is returned.
pub open spec fn accepted(
    pid: Option<i32>,
    ppid: Option<i32>,
    has_regex: bool,
    facts: ProcessFacts,
    matched: bool,
) -> Result<bool, ProcReadError> {
    if pid matches Some(p) && facts.pid != p {
        Ok(false)
    } else {
        match ppid {
            Some(pp) => match facts.ppid {
                Err(e) => Err(e),
                Ok(actual) => if actual != pp {
                    Ok(false)
                } else {
                    exe_check(has_regex, facts.exe, matched)
                },
            },
            None => exe_check(has_regex, facts.exe, matched),
        }
    }
}

/// The path check of a filter.
pub open spec fn exe_check(has_regex: bool, exe: Result<Option<String>, ProcReadError>, matched: bool) -> Result<bool, ProcReadError> {
    if !has_regex {
        Ok(true)
    } else {
        match exe {
            Err(e) => Err(e),
            Ok(None) => Ok(true),
            Ok(Some(_)) => Ok(matched),
        }
    }
}

/// Whether the path of the executable in `exe` matches the expression `re`: false when there
/// is no expression or no path.
pub open spec fn path_matches(re: Option<ExeRegex>, exe: Result<Option<String>, ProcReadError>) -> bool {
    match (re, exe) {
        (Some(x), Ok(Some(path))) => regex_matches(x.pattern(), path@),
        _ => false,
    }
}

/// Whether deciding on `facts` asks whether the path matches the filter's expression.
pub open spec fn asks_match(pid: Option<i32>, ppid: Option<i32>, has_regex: bool, facts: ProcessFacts) -> bool {
    &&& has_regex
    &&& !(pid matches Some(p) && facts.pid != p)
    &&& (ppid matches Some(pp) ==> facts.ppid matches Ok(actual) && actual == pp)
    &&& facts.exe matches Ok(Some(_))
}

impl ProcessFilter {
    /// Decides whether the filter accepts a process, given whether its executable path matches
    /// the filter's expression.
    pub fn accepts_with(&self, facts: &ProcessFacts, matched: bool) -> (r: Result<bool, ProcReadError>)
        ensures
            r == accepted(self.pid, self.ppid, self.exe_regex is Some, *facts, matched),
    {
        if let Some(pid) = self.pid {
            if facts.pid != pid {
                return Ok(false);
            }
        }
        if let Some(ppid) = self.ppid {
            match &facts.ppid {
                Err(e) => return Err(e.duplicate()),
                Ok(actual) => if *actual != ppid {
                    return Ok(false);
                },
            }
        }
        if self.exe_regex.is_some() {
            match &facts.exe {
                Err(e) => Err(e.duplicate()),
                Ok(None) => Ok(true),
                Ok(Some(_)) => Ok(matched),
            }
        } else {
            Ok(true)
        }
    }

    /// Whether the filter accepts a process: its pid, then its parent, then whether the path
    /// of its executable matches the filter's expression.
    pub fn accepts(&self, facts: &ProcessFacts) -> (r: Result<bool, ProcReadError>)
        ensures
            r == accepted(
                self.pid,
                self.ppid,
                self.exe_regex is Some,
                *facts,
                path_matches(self.exe_regex, facts.exe),
            ),
    {
        let matched = match (&self.exe_regex, &facts.exe) {
            (Some(r), Ok(Some(path))) => r.is_match(path.as_str()),
            _ => false,
        };
        self.accepts_with(facts, matched)
    }
}

/// The group that monitors a new process, from the outcome of each group's filter in order:
/// the first group that accepts it; a group whose filter could not be applied for lack of
/// permission is passed over, and any other failure is returned.
pub open spec fn group_for(outcomes: Seq<Result<bool, ProcReadError>>) -> Result<Option<nat>, ProcReadError>
    decreases outcomes.len(),
{
    if outcomes.len() == 0 {
        Ok(None)
    } else {
        match outcomes[0] {
            Ok(true) => Ok(Some(0)),
            Ok(false) | Err(ProcReadError::PermissionDenied) => match group_for(outcomes.skip(1)) {
                Ok(Some(i)) => Ok(Some(i + 1)),
                other => other,
            },
            Err(e) => Err(e),
        }
    }
}

/// Chooses the group that monitors a new process, from the outcomes of the groups' filters.
pub fn choose_group(outcomes: &[Result<bool, ProcReadError>]) -> (r: Result<Option<usize>, ProcReadError>)
    ensures
        match group_for(outcomes@) {
            Ok(Some(i)) => r == Ok::<Option<usize>, ProcReadError>(Some(i as usize)),
            Ok(None) => r == Ok::<Option<usize>, ProcReadError>(None),
            Err(e) => r == Err::<Option<usize>, ProcReadError>(e),
        },
{
    let mut i: usize = 0;
    assert(outcomes@.skip(0) =~= outcomes@);
    assert(shifted(group_for(outcomes@), 0) == group_for(outcomes@));
    while i < outcomes.len()
        invariant
            0 <= i <= outcomes@.len(),
            group_for(outcomes@) == shifted(group_for(outcomes@.skip(i as int)), i as nat),
        decreases outcomes.len() - i,
    {
        let ghost rest = outcomes@.skip(i as int);
        assert(rest[0] == outcomes@[i as int]);
        assert(rest.skip(1) =~= outcomes@.skip(i + 1));
        match &outcomes[i] {
            Ok(true) => return Ok(Some(i)),
            Ok(false) | Err(ProcReadError::PermissionDenied) => {},
            Err(e) => return Err(e.duplicate()),
        }
        i = i + 1;
    }
    assert(outcomes@.skip(i as int) =~= Seq::<Result<bool, ProcReadError>>::empty());
    Ok(None)
}

/// `r` with its group index moved up by `k`.
pub open spec fn shifted(r: Result<Option<nat>, ProcReadError>, k: nat) -> Result<Option<nat>, ProcReadError> {
    match r {
        Ok(Some(i)) => Ok(Some(i + k)),
        other => other,
    }
}

/// Whether a process seen with `fingerprint` under `pid` is new: no process is known under
/// that pid, or the one known differs (the pid was reused).
pub open spec fn is_new_process(known: Map<i32, ProcessFingerprint>, pid: i32, fingerprint: ProcessFingerprint) -> bool {
    !(known.contains_key(pid) && known[pid] == fingerprint)
}

/// The processes already seen, by pid, each with its fingerprint.
pub struct ProcessTable {
    watched: HashMap<i32, ProcessFingerprint>,
}

impl View for ProcessTable {
    type V = Map<i32, ProcessFingerprint>;

    closed spec fn view(&self) -> Map<i32, ProcessFingerprint> {
        self.watched@
    }
}

impl ProcessTable {
    /// No process seen yet.
    pub fn new() -> (t: Self)
        ensures
            t@ == Map::<i32, ProcessFingerprint>::empty(),
    {
        ProcessTable { watched: HashMap::new() }
    }

    /// Takes a process seen under `pid` with `fingerprint`: tells whether it is new, and
    /// remembers it.
    pub fn observe(&mut self, pid: i32, fingerprint: ProcessFingerprint) -> (is_new: bool)
        ensures
            is_new == is_new_process(old(self)@, pid, fingerprint),
            final(self)@ == old(self)@.insert(pid, fingerprint),
    {
        let known = match self.watched.get(&pid) {
            Some(existing) => *existing == fingerprint,
            None => false,
        };
        if !known {
            self.watched.insert(pid, fingerprint);
        }
        proof {
            if known {
                assert(self.watched@ =~= old(self)@.insert(pid, fingerprint));
            }
        }
        !known
    }
}

/// A process that was just seen is not new when it is seen again, unchanged.
pub proof fn lemma_seen_process_is_not_new(
    known: Map<i32, ProcessFingerprint>,
    pid: i32,
    fingerprint: ProcessFingerprint,
)
    ensures
        !is_new_process(known.insert(pid, fingerprint), pid, fingerprint),
{
}

/// A process seen under a pid that another process had is new.
pub proof fn lemma_reused_pid_is_new(
    known: Map<i32, ProcessFingerprint>,
    pid: i32,
    before: ProcessFingerprint,
    after: ProcessFingerprint,
)
    requires
        before != after,
    ensures
        is_new_process(known.insert(pid, before), pid, after),
{
}

/// What a poll of a process measures in memory: resident, shared and virtual size, in bytes.
#[derive(Debug, Clone, Copy, PartialEq, Eq, Structural)]
pub struct MemoryUsage {
    pub resident: u64,
    pub shared: u64,
    pub virtual_size: u64,
}

/// Sizes of a process, in memory pages, from `/proc/<pid>/statm`.
#[derive(Debug, Clone, Copy, PartialEq, Eq, Structural)]
pub struct StatM {
    pub size: u64,
    pub resident: u64,
    pub shared: u64,
}

/// The state of the source of one process between two polls.
pub struct ProcessPoller {
    /// The previous read of `/proc/<pid>/stat`.
    pub previous: Option<ProcStat>,
    /// Whether the first read is measured too, as the CPU time since the process started.
    pub push_first_stats: bool,
    /// Nanoseconds per clock tick.
    pub ns_per_ticks: u64,
    /// Size of a memory page, in bytes.
    pub page_size: u64,
}

/// Whether the CPU times of `now` can be measured without overflow after `prev` (or from the
/// start, when there is no previous read).
pub open spec fn cpu_measurable(prev: Option<ProcStat>, now: ProcStat, ns: u64, first: bool) -> bool {
    match prev {
        Some(p) => {
            &&& p.utime <= now.utime
            &&& p.stime <= now.stime
            &&& (now.utime - p.utime) * ns <= u64::MAX
            &&& (now.stime - p.stime) * ns <= u64::MAX
            &&& now.guest_time matches Some(g) ==> p.guest_time matches Some(pg) && pg <= g && (g
                - pg) * ns <= u64::MAX
        },
        None => first ==> {
            &&& now.utime * ns <= u64::MAX
            &&& now.stime * ns <= u64::MAX
            &&& now.guest_time matches Some(g) ==> g * ns <= u64::MAX
        },
    }
}

/// The CPU time that a poll measures, in nanoseconds: since the previous read, or since the
/// start of the process on the first read when that one is measured.
pub open spec fn cpu_usage(prev: Option<ProcStat>, now: ProcStat, ns: u64, first: bool) -> Option<DeltaCpuTime> {
    match prev {
        Some(p) => Some(
            DeltaCpuTime {
                user: ((now.utime - p.utime) * ns) as u64,
                system: ((now.stime - p.stime) * ns) as u64,
                guest: match now.guest_time {
                    Some(g) => Some(((g - p.guest_time->0) * ns) as u64),
                    None => None,
                },
            },
        ),
        None => if first {
            Some(
                DeltaCpuTime {
                    user: (now.utime * ns) as u64,
                    system: (now.stime * ns) as u64,
                    guest: match now.guest_time {
                        Some(g) => Some((g * ns) as u64),
                        None => None,
                    },
                },
            )
        } else {
            None
        },
    }
}

impl ProcessPoller {
    /// Takes new reads of `/proc/<pid>/stat` and `statm`: returns the CPU time to measure, if
    /// any, and the memory usage in bytes, and keeps the read of `stat` for the next poll.
    pub fn poll(&mut self, stat: ProcStat, statm: StatM) -> (r: (Option<DeltaCpuTime>, MemoryUsage))
        requires
            cpu_measurable(old(self).previous, stat, old(self).ns_per_ticks, old(self).push_first_stats),
            statm.resident * old(self).page_size <= u64::MAX,
            statm.shared * old(self).page_size <= u64::MAX,
            statm.size * old(self).page_size <= u64::MAX,
        ensures
            r.0 == cpu_usage(old(self).previous, stat, old(self).ns_per_ticks, old(self).push_first_stats),
            r.1 == (MemoryUsage {
                resident: (statm.resident * old(self).page_size) as u64,
                shared: (statm.shared * old(self).page_size) as u64,
                virtual_size: (statm.size * old(self).page_size) as u64,
            }),
            final(self).previous == Some(stat),
            final(self).push_first_stats == old(self).push_first_stats,
            final(self).ns_per_ticks == old(self).ns_per_ticks,
            final(self).page_size == old(self).page_size,
    {
        let cpu = match &self.previous {
            Some(prev) => Some(DeltaCpuTime::compute_diff(prev, &stat, self.ns_per_ticks)),
            None => if self.push_first_stats {
                Some(DeltaCpuTime::compute_first(&stat, self.ns_per_ticks))
            } else {
                None
            },
        };
        self.previous = Some(stat);
        let memory = MemoryUsage {
            resident: crate::procfs::process::pages_to_bytes(statm.resident, self.page_size),
            shared: crate::procfs::process::pages_to_bytes(statm.shared, self.page_size),
            virtual_size: crate::procfs::process::pages_to_bytes(statm.size, self.page_size),
        };
        (cpu, memory)
    }
}


/// Whether the CPU times of `now` can be measured without overflow after `prev` (see
/// [`cpu_measurable`]).
pub fn cpu_measurable_check(prev: &Option<ProcStat>, now: &ProcStat, ns: u64, first: bool) -> (b: bool)
    ensures
        b == cpu_measurable(*prev, *now, ns, first),
{
    match prev {
        Some(p) => {
            if p.utime > now.utime || p.stime > now.stime {
                return false;
            }
            if (now.utime - p.utime).checked_mul(ns).is_none() || (now.stime - p.stime).checked_mul(
                ns,
            ).is_none() {
                return false;
            }
            match now.guest_time {
                Some(g) => match p.guest_time {
                    Some(pg) => pg <= g && (g - pg).checked_mul(ns).is_some(),
                    None => false,
                },
                None => true,
            }
        },
        None => {
            if !first {
                return true;
            }
            now.utime.checked_mul(ns).is_some() && now.stime.checked_mul(ns).is_some() && match now.guest_time {
                Some(g) => g.checked_mul(ns).is_some(),
                None => true,
            }
        },
    }
}

/// The metrics of the process sources, in order: the CPU time and the memory usage.
pub open spec fn process_metric_specs() -> Seq<(Seq<char>, PrefixedUnit, Seq<char>)> {
    seq![
        ("cpu_time_delta"@, PrefixedUnit { base_unit: Unit::Second, prefix: UnitPrefix::Nano }, "CPU usage"@),
        ("memory_usage"@, PrefixedUnit { base_unit: Unit::Byte, prefix: UnitPrefix::Plain }, "Memory usage"@),
    ]
}

/// The metrics that the process sources feed.
pub fn process_metrics() -> (r: Vec<MetricSpec>)
    ensures
        r@.map_values(|m: MetricSpec| metric_view(m)) == process_metric_specs(),
{
    let mut out: Vec<MetricSpec> = Vec::new();
    out.push(definition("cpu_time_delta", Unit::Second, UnitPrefix::Nano, "CPU usage"));
    out.push(definition("memory_usage", Unit::Byte, UnitPrefix::Plain, "Memory usage"));
    assert(out@.map_values(|m: MetricSpec| metric_view(m)) =~= process_metric_specs());
    out
}

} // verus!
