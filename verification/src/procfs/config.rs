//! Configuration of the procfs plugin, its defaults, and what it starts.
//! Intervals are counted in milliseconds.

use vstd::prelude::*;
use crate::procfs::watch::{ExeRegex, ProcessFilter};

verus! {

/// The configuration of the plugin.
pub struct Config {
    pub kernel: KernelStatsMonitoring,
    pub memory: MeminfoMonitoring,
    pub processes: ProcessMonitoring,
}

/// Monitoring of the kernel statistics.
#[derive(Debug, Clone, Copy, PartialEq, Eq, Structural)]
pub struct KernelStatsMonitoring {
    pub enabled: bool,
    pub poll_interval: u64,
}

/// Monitoring of the memory statistics.
#[derive(Debug, Clone, PartialEq, Eq)]
pub struct MeminfoMonitoring {
    pub enabled: bool,
    pub poll_interval: u64,
    /// The entries to parse from `/proc/meminfo`.
    pub metrics: Vec<String>,
}

/// How new processes are found.
#[derive(Debug, Clone, Copy, PartialEq, Eq, Structural)]
pub enum ProcessWatchStrategy {
    /// Watch for new processes in `/proc`.
    SystemWatcher,
    /// React to the events of the measurement pipeline.
    InternalEvent,
}

/// Settings of the processes monitored on the events of the pipeline.
#[derive(Debug, Clone, Copy, PartialEq, Eq, Structural)]
pub struct EventModeProcessMonitoring {
    pub poll_interval: u64,
    pub flush_interval: u64,
}

/// A group of processes to monitor when detected.
pub struct ProcessMonitoringGroup {
    /// Only monitor the process that has this pid.
    pub pid: Option<u32>,
    /// Only monitor the processes that have this parent pid.
    pub ppid: Option<u32>,
    /// Only monitor the processes whose executable path matches this expression.
    pub exe_regex: Option<ExeRegex>,
    /// How frequently the processes information is refreshed.
    pub poll_interval: u64,
    /// How frequently the processes information is flushed to the rest of the pipeline.
    pub flush_interval: u64,
}

/// Monitoring of the processes.
pub struct ProcessMonitoring {
    pub enabled: bool,
    /// Watcher refresh interval.
    pub refresh_interval: u64,
    /// Groups of processes to monitor when detected.
    pub groups: Vec<ProcessMonitoringGroup>,
    pub strategy: ProcessWatchStrategy,
    pub events: EventModeProcessMonitoring,
}

/// How the source of a monitored process is triggered and flushed.
#[derive(Debug, Clone, Copy, PartialEq, Eq, Structural)]
pub struct MonitoringSettings {
    pub poll_interval: u64,
    pub flush_interval: u64,
}

/// Whether a monitoring is enabled when the configuration does not say.
pub fn default_enabled() -> (b: bool)
    ensures
        b,
{
    true
}

/// The strategy used when the configuration does not say.
pub fn default_watch_strategy() -> (s: ProcessWatchStrategy)
    ensures
        s == ProcessWatchStrategy::SystemWatcher,
{
    ProcessWatchStrategy::SystemWatcher
}

impl Default for KernelStatsMonitoring {
    fn default() -> (c: Self)
        ensures
            c.enabled,
            c.poll_interval == 5000,
    {
        KernelStatsMonitoring { enabled: true, poll_interval: 5000 }
    }
}

/// The entries of `/proc/meminfo` read by default.
pub open spec fn default_meminfo_entries() -> Seq<Seq<char>> {
    seq![
        "MemTotal"@,
        "MemFree"@,
        "MemAvailable"@,
        "Cached"@,
        "SwapCached"@,
        "Active"@,
        "Inactive"@,
        "Mapped"@,
    ]
}

impl Default for MeminfoMonitoring {
    fn default() -> (c: Self)
        ensures
            c.enabled,
            c.poll_interval == 5000,
            c.metrics@.map_values(|m: String| m@) == default_meminfo_entries(),
    {
        let mut metrics: Vec<String> = Vec::new();
        metrics.push("MemTotal".to_owned());
        metrics.push("MemFree".to_owned());
        metrics.push("MemAvailable".to_owned());
        metrics.push("Cached".to_owned());
        metrics.push("SwapCached".to_owned());
        metrics.push("Active".to_owned());
        metrics.push("Inactive".to_owned());
        metrics.push("Mapped".to_owned());
        assert(metrics@.map_values(|m: String| m@) =~= default_meminfo_entries());
        MeminfoMonitoring { enabled: true, poll_interval: 5000, metrics }
    }
}

impl Default for ProcessMonitoring {
    fn default() -> (c: Self)
        ensures
            c.enabled,
            c.strategy == ProcessWatchStrategy::SystemWatcher,
            c.refresh_interval == 2000,
            c.groups@.len() == 1,
            c.groups@[0].pid is None && c.groups@[0].ppid is None && c.groups@[0].exe_regex is None,
            c.groups@[0].poll_interval == 2000 && c.groups@[0].flush_interval == 4000,
            c.events == (EventModeProcessMonitoring { poll_interval: 1000, flush_interval: 4000 }),
    {
        let mut groups: Vec<ProcessMonitoringGroup> = Vec::new();
        groups.push(
            ProcessMonitoringGroup {
                pid: None,
                ppid: None,
                exe_regex: None,
                poll_interval: 2000,
                flush_interval: 4000,
            },
        );
        ProcessMonitoring {
            enabled: true,
            strategy: default_watch_strategy(),
            refresh_interval: 2000,
            groups,
            events: EventModeProcessMonitoring { poll_interval: 1000, flush_interval: 4000 },
        }
    }
}

impl Default for Config {
    fn default() -> (c: Self)
        ensures
            c.kernel == (KernelStatsMonitoring { enabled: true, poll_interval: 5000 }),
            c.memory.enabled && c.memory.poll_interval == 5000,
            c.memory.metrics@.map_values(|m: String| m@) == default_meminfo_entries(),
            c.processes.enabled,
            c.processes.strategy == ProcessWatchStrategy::SystemWatcher,
    {
        Config {
            kernel: KernelStatsMonitoring::default(),
            memory: MeminfoMonitoring::default(),
            processes: ProcessMonitoring::default(),
        }
    }
}

/// The procfs plugin: its configuration, until it starts.
pub struct ProcfsPlugin {
    pub config: Option<Config>,
}

/// What the plugin starts: the kernel probe, the memory probe, and the monitoring of processes
/// with its strategy, each when enabled.
#[derive(Debug, Clone, Copy, PartialEq, Eq, Structural)]
pub struct StartPlan {
    pub kernel: bool,
    pub memory: bool,
    pub processes: Option<ProcessWatchStrategy>,
}

/// What a configuration starts.
pub fn start_plan(config: &Config) -> (p: StartPlan)
    ensures
        p.kernel == config.kernel.enabled,
        p.memory == config.memory.enabled,
        p.processes == (if config.processes.enabled {
            Some(config.processes.strategy)
        } else {
            None
        }),
{
    StartPlan {
        kernel: config.kernel.enabled,
        memory: config.memory.enabled,
        processes: if config.processes.enabled {
            Some(config.processes.strategy)
        } else {
            None
        },
    }
}

/// A pid of the configuration as the kernel writes it: a pid beyond `i32::MAX` stands for no
/// process (`-1`).
pub open spec fn kernel_pid(pid: u32) -> i32 {
    if pid <= i32::MAX {
        pid as i32
    } else {
        -1i32
    }
}

fn to_kernel_pid(pid: Option<u32>) -> (r: Option<i32>)
    ensures
        r == match pid {
            Some(p) => Some(kernel_pid(p)),
            None => None,
        },
{
    match pid {
        Some(p) => if p <= i32::MAX as u32 {
            Some(p as i32)
        } else {
            Some(-1)
        },
        None => None,
    }
}

/// The filter and the settings of a group of processes.
pub fn group_monitoring(group: ProcessMonitoringGroup) -> (r: (ProcessFilter, MonitoringSettings))
    ensures
        r.0.pid == match group.pid {
            Some(p) => Some(kernel_pid(p)),
            None => None,
        },
        r.0.ppid == match group.ppid {
            Some(p) => Some(kernel_pid(p)),
            None => None,
        },
        r.0.exe_regex == group.exe_regex,
        r.1 == (MonitoringSettings {
            poll_interval: group.poll_interval,
            flush_interval: group.flush_interval,
        }),
{
    let filter = ProcessFilter {
        pid: to_kernel_pid(group.pid),
        ppid: to_kernel_pid(group.ppid),
        exe_regex: group.exe_regex,
    };
    let settings = MonitoringSettings {
        poll_interval: group.poll_interval,
        flush_interval: group.flush_interval,
    };
    (filter, settings)
}

/// The settings of the processes monitored on the events of the pipeline.
pub fn event_mode_settings(events: &EventModeProcessMonitoring) -> (s: MonitoringSettings)
    ensures
        s == (MonitoringSettings {
            poll_interval: events.poll_interval,
            flush_interval: events.flush_interval,
        }),
{
    MonitoringSettings { poll_interval: events.poll_interval, flush_interval: events.flush_interval }
}

} // verus!
