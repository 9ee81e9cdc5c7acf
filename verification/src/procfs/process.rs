//! Process-level (by pid) statistics (`/proc/<pid>/stat` and `statm`).

use vstd::prelude::*;

verus! {

/// The CPU times of a process, in clock ticks, and its identity, from `/proc/<pid>/stat`.
#[derive(Debug, Clone, Copy, PartialEq, Eq, Structural)]
pub struct ProcStat {
    pub utime: u64,
    pub stime: u64,
    pub guest_time: Option<u64>,
    pub starttime: u64,
    pub ppid: i32,
}

/// CPU time spent by a process, in nanoseconds.
#[derive(Debug, Clone, Copy, PartialEq, Eq, Structural)]
pub struct DeltaCpuTime {
    pub user: u64,
    pub system: u64,
    pub guest: Option<u64>,
}

impl DeltaCpuTime {
    /// The CPU time spent since the start of the process.
    pub fn compute_first(now: &ProcStat, ns_per_ticks: u64) -> (d: Self)
        requires
            now.utime * ns_per_ticks <= u64::MAX,
            now.stime * ns_per_ticks <= u64::MAX,
            now.guest_time matches Some(g) ==> g * ns_per_ticks <= u64::MAX,
        ensures
            d.user == now.utime * ns_per_ticks,
            d.system == now.stime * ns_per_ticks,
            d.guest == match now.guest_time {
                Some(g) => Some((g * ns_per_ticks) as u64),
                None => None,
            },
    {
        DeltaCpuTime {
            user: now.utime * ns_per_ticks,
            system: now.stime * ns_per_ticks,
            guest: match now.guest_time {
                Some(g) => Some(g * ns_per_ticks),
                None => None,
            },
        }
    }

    /// The CPU time spent between the reads `prev` and `now`.
    pub fn compute_diff(prev: &ProcStat, now: &ProcStat, ns_per_ticks: u64) -> (d: Self)
        requires
            prev.utime <= now.utime,
            prev.stime <= now.stime,
            (now.utime - prev.utime) * ns_per_ticks <= u64::MAX,
            (now.stime - prev.stime) * ns_per_ticks <= u64::MAX,
            now.guest_time matches Some(g) ==> prev.guest_time matches Some(p) && p <= g && (g - p)
                * ns_per_ticks <= u64::MAX,
        ensures
            d.user == (now.utime - prev.utime) * ns_per_ticks,
            d.system == (now.stime - prev.stime) * ns_per_ticks,
            d.guest == match now.guest_time {
                Some(g) => Some(((g - prev.guest_time->0) * ns_per_ticks) as u64),
                None => None,
            },
    {
        DeltaCpuTime {
            user: (now.utime - prev.utime) * ns_per_ticks,
            system: (now.stime - prev.stime) * ns_per_ticks,
            guest: match now.guest_time {
                Some(g) => match prev.guest_time {
                    Some(p) => Some((g - p) * ns_per_ticks),
                    None => None,
                },
                None => None,
            },
        }
    }

    /// The value of each kind of CPU time to report, in order, with the kind's name.
    pub fn kind_values(&self) -> (r: Vec<(&'static str, u64)>)
        ensures
            r@.len() == if self.guest is Some { 3nat } else { 2nat },
            r@[0].0@ == "user"@ && r@[0].1 == self.user,
            r@[1].0@ == "system"@ && r@[1].1 == self.system,
            self.guest matches Some(g) ==> r@[2].0@ == "guest"@ && r@[2].1 == g,
    {
        let mut r: Vec<(&'static str, u64)> = Vec::new();
        r.push(("user", self.user));
        r.push(("system", self.system));
        if let Some(g) = self.guest {
            r.push(("guest", g));
        }
        r
    }
}

/// What tells a process apart from an earlier one with the same pid.
#[derive(Debug, Clone, Copy, PartialEq, Eq, Structural)]
pub struct ProcessFingerprint {
    pub start_time: u64,
    pub ppid: i32,
}

impl ProcessFingerprint {
    /// The fingerprint of a process: its start time and its parent.
    pub fn new(stat: &ProcStat) -> (f: Self)
        ensures
            f.start_time == stat.starttime,
            f.ppid == stat.ppid,
    {
        ProcessFingerprint { start_time: stat.starttime, ppid: stat.ppid }
    }
}

/// Nanoseconds per clock tick, given the number of ticks per second.
pub fn ns_per_ticks(ticks_per_second: u64) -> (r: u64)
    requires
        ticks_per_second > 0,
    ensures
        r == 1_000_000_000u64 / ticks_per_second,
{
    1_000_000_000 / ticks_per_second
}

/// The size in bytes of `pages` memory pages of `page_size` bytes.
pub fn pages_to_bytes(pages: u64, page_size: u64) -> (r: u64)
    requires
        pages * page_size <= u64::MAX,
    ensures
        r == pages * page_size,
{
    pages * page_size
}

} // verus!
