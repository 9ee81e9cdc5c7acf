use alumet_plugins::procfs::config::{
    default_enabled, event_mode_settings, group_monitoring, start_plan, Config, EventModeProcessMonitoring, MonitoringSettings, KernelStatsMonitoring, MeminfoMonitoring, ProcessMonitoring,
    ProcessMonitoringGroup, ProcessWatchStrategy, StartPlan,
};
use alumet_plugins::procfs::kernel::{cpu_time_grows_check, stats_grow_check, CpuTimeMs, DeltaCpuTime, KernelCounts, KernelPoller, KernelStats};
use alumet_plugins::procfs::memory::{convert_meminfo_to_bytes, is_meminfo_line_readable, meminfo_measurements, parse_meminfo_line};
use alumet_plugins::procfs::names::{convert_to_snake_case, CharKind};
use alumet_plugins::procfs::network::{counters_grow_check, InterfaceCounters, NetworkMetric, NetworkPoller, TrafficDirection};
use alumet_plugins::procfs::process::{self, ProcStat, ProcessFingerprint};
use alumet_plugins::procfs::watch::{
    choose_group, cpu_measurable_check, ExeRegex, InvalidPattern, stop_if_proc_not_found, MemoryUsage, PollStop, ProcReadError, ProcessFacts, ProcessFilter,
    ProcessPoller, ProcessTable, StatM,
};

#[test]
fn test_case_conversion() {
    assert_eq!("", convert_to_snake_case(""));
    assert_eq!("_", convert_to_snake_case("_"));
    assert_eq!("a", convert_to_snake_case("a"));
    assert_eq!("aa", convert_to_snake_case("aa"));
    assert_eq!("aaa", convert_to_snake_case("aaa"));
    assert_eq!("A", convert_to_snake_case("A"));
    assert_eq!("snake_case", convert_to_snake_case("snake_case"));
    assert_eq!("camel_case", convert_to_snake_case("camelCase"));
    assert_eq!("pascal_case", convert_to_snake_case("PascalCase"));
    assert_eq!("s_reclaimable", convert_to_snake_case("SReclaimable"));
    assert_eq!("nfs_unstable", convert_to_snake_case("NFS_Unstable"));
    assert_eq!("committed_as", convert_to_snake_case("Committed_AS"));
}

#[test]
fn char_kinds() {
    assert!(matches!(CharKind::of('q'), CharKind::Lowercase));
    assert!(matches!(CharKind::of('Q'), CharKind::Uppercase));
    assert!(matches!(CharKind::of('_'), CharKind::NonLetter));
}

#[test]
fn meminfo_units_are_converted_to_bytes() {
    assert_eq!(convert_meminfo_to_bytes(3, "B"), Some(3));
    assert_eq!(convert_meminfo_to_bytes(3, "kB"), Some(3 * 1024));
    assert_eq!(convert_meminfo_to_bytes(3, "MiB"), Some(3 * 1024 * 1024));
    assert_eq!(convert_meminfo_to_bytes(3, "GB"), Some(3 * 1024 * 1024 * 1024));
    assert_eq!(convert_meminfo_to_bytes(3, "TB"), None);
}

#[test]
fn meminfo_lines_are_parsed() {
    assert_eq!(
        parse_meminfo_line("MemTotal:       16326636 kB"),
        Some(("MemTotal".to_owned(), 16326636 * 1024))
    );
    assert_eq!(parse_meminfo_line("HugePages_Total:       0"), Some(("HugePages_Total".to_owned(), 0)));
    assert_eq!(parse_meminfo_line("MemTotal:"), None);
    assert_eq!(parse_meminfo_line("MemTotal: x kB"), None);
    assert_eq!(parse_meminfo_line("MemTotal: 1 parsecs"), None);
}

#[test]
fn meminfo_keeps_the_metrics_to_read() {
    let lines: Vec<String> = ["MemTotal: 2 kB", "", "MemFree: 1 kB", "Cached: 5 kB"]
        .iter()
        .map(|s| s.to_string())
        .collect();
    let metrics = vec![("Cached".to_owned(), 'c'), ("MemTotal".to_owned(), 't')];
    assert_eq!(meminfo_measurements(&lines, &metrics), Ok(vec![('t', 2048), ('c', 5120)]));
    let bad: Vec<String> = vec!["MemTotal: 2 kB".to_owned(), "oops".to_owned()];
    assert_eq!(meminfo_measurements(&bad, &metrics), Err(1));
}

fn cpu(user: u64, system: u64, irq: Option<u64>) -> CpuTimeMs {
    CpuTimeMs {
        user,
        nice: 0,
        system,
        idle: 100,
        irq,
        softirq: None,
        steal: None,
        guest: None,
        guest_nice: None,
    }
}

#[test]
fn kernel_cpu_time_deltas() {
    let d = DeltaCpuTime::compute_diff(&cpu(10, 20, Some(3)), &cpu(15, 26, Some(4)));
    assert_eq!((d.user, d.system, d.idle, d.irq), (5, 6, 0, Some(1)));
    let names: Vec<&str> = d.state_values().iter().map(|(n, _)| *n).collect();
    assert_eq!(names, vec!["user", "nice", "system", "idle", "irq"]);
}

fn stats(ctxt: u64, cpus: Vec<CpuTimeMs>) -> KernelStats {
    KernelStats {
        total: cpu(100, 100, None),
        cpu_time: cpus,
        ctxt,
        processes: 7,
        procs_running: Some(2),
        procs_blocked: None,
    }
}

#[test]
fn kernel_poll_measures_since_the_previous_read() {
    let mut poller = KernelPoller::new();
    assert!(poller.poll(stats(10, vec![cpu(1, 1, None)])).is_none());
    let m = poller.poll(stats(25, vec![cpu(3, 1, None), cpu(0, 0, None)])).unwrap();
    assert_eq!(
        m.counts,
        KernelCounts {
            context_switches: 15,
            new_forks: 0,
            procs_running: Some(2),
            procs_blocked: None
        }
    );
    // the total, then the CPU that both reads list: four states each
    assert_eq!(m.cpu_times.len(), 8);
    assert_eq!(m.cpu_times[4].core, Some(0));
    assert_eq!(m.cpu_times[4].state, "user");
    assert_eq!(m.cpu_times[4].value, 2);
    assert_eq!(m.cpu_times[0].core, None);
}

fn iface(name: &str, recv_bytes: u64, sent_bytes: u64) -> InterfaceCounters {
    InterfaceCounters {
        name: name.to_owned(),
        recv_bytes,
        recv_packets: 1,
        recv_errs: 0,
        recv_drop: 0,
        sent_bytes,
        sent_packets: 1,
        sent_errs: 0,
        sent_drop: 0,
    }
}

#[test]
fn network_poll_reports_increases() {
    let mut poller = NetworkPoller::new();
    assert!(poller.poll(vec![iface("eth0", 100, 50)]).is_empty());
    let points = poller.poll(vec![iface("eth0", 160, 55), iface("wlan0", 7, 3)]);
    assert_eq!(points.len(), 16);
    assert_eq!(points[0].interface, "eth0");
    assert_eq!((points[0].metric, points[0].direction, points[0].value), (NetworkMetric::Bytes, TrafficDirection::Rx, 60));
    assert_eq!((points[4].metric, points[4].direction, points[4].value), (NetworkMetric::Bytes, TrafficDirection::Tx, 5));
    // an interface that appeared counts from zero
    assert_eq!(points[8].interface, "wlan0");
    assert_eq!(points[8].value, 7);
    assert_eq!((points[9].metric, points[9].value), (NetworkMetric::Packets, 1));
}

fn stat(utime: u64, stime: u64, guest: Option<u64>) -> ProcStat {
    ProcStat {
        utime,
        stime,
        guest_time: guest,
        starttime: 1000,
        ppid: 1,
    }
}

#[test]
fn process_cpu_time_deltas() {
    let first = process::DeltaCpuTime::compute_first(&stat(2, 3, Some(1)), 10);
    assert_eq!((first.user, first.system, first.guest), (20, 30, Some(10)));
    let diff = process::DeltaCpuTime::compute_diff(&stat(2, 3, Some(1)), &stat(5, 3, Some(4)), 10);
    assert_eq!((diff.user, diff.system, diff.guest), (30, 0, Some(30)));
    assert_eq!(process::ns_per_ticks(100), 10_000_000);
    assert_eq!(process::pages_to_bytes(3, 4096), 12288);
}

#[test]
fn process_poll_measures_cpu_and_memory() {
    let mut poller = ProcessPoller {
        previous: None,
        push_first_stats: false,
        ns_per_ticks: 10,
        page_size: 4096,
    };
    let statm = StatM {
        size: 10,
        resident: 2,
        shared: 1,
    };
    let (cpu, memory) = poller.poll(stat(2, 3, None), statm);
    assert!(cpu.is_none());
    assert_eq!(
        memory,
        MemoryUsage {
            resident: 8192,
            shared: 4096,
            virtual_size: 40960
        }
    );
    let (cpu, _) = poller.poll(stat(4, 3, None), statm);
    let cpu = cpu.unwrap();
    assert_eq!((cpu.user, cpu.system, cpu.guest), (20, 0, None));

    let mut fresh = ProcessPoller {
        previous: None,
        push_first_stats: true,
        ns_per_ticks: 10,
        page_size: 4096,
    };
    let (cpu, _) = fresh.poll(stat(2, 3, None), statm);
    assert_eq!(cpu.unwrap().user, 20);
}

#[test]
fn vanished_processes_stop_their_source() {
    assert_eq!(stop_if_proc_not_found(&ProcReadError::NotFound), PollStop::NormalStop);
    assert_eq!(stop_if_proc_not_found(&ProcReadError::Io(Some(3))), PollStop::NormalStop);
    assert_eq!(stop_if_proc_not_found(&ProcReadError::Io(Some(13))), PollStop::Fatal);
    assert_eq!(stop_if_proc_not_found(&ProcReadError::PermissionDenied), PollStop::Fatal);
}

fn facts(pid: i32, ppid: i32, exe: &str) -> ProcessFacts {
    ProcessFacts {
        pid,
        ppid: Ok(ppid),
        exe: Ok(Some(exe.to_owned())),
    }
}

#[test]
fn filters_check_pid_parent_and_executable() {
    let any = ProcessFilter {
        pid: None,
        ppid: None,
        exe_regex: None,
    };
    assert_eq!(any.accepts(&facts(5, 1, "/bin/sh")), Ok(true));
    let by_pid = ProcessFilter {
        pid: Some(5),
        ppid: None,
        exe_regex: None,
    };
    assert_eq!(by_pid.accepts(&facts(6, 1, "/bin/sh")), Ok(false));
    let by_parent = ProcessFilter {
        pid: None,
        ppid: Some(1),
        exe_regex: None,
    };
    assert_eq!(by_parent.accepts(&facts(6, 2, "/bin/sh")), Ok(false));
    let unreadable = ProcessFacts {
        pid: 6,
        ppid: Err(ProcReadError::PermissionDenied),
        exe: Ok(None),
    };
    assert_eq!(by_parent.accepts(&unreadable), Err(ProcReadError::PermissionDenied));
    let by_exe = ProcessFilter {
        pid: None,
        ppid: None,
        exe_regex: Some(ExeRegex::new("python").unwrap()),
    };
    assert_eq!(by_exe.accepts(&facts(6, 2, "/usr/bin/python3")), Ok(true));
    assert_eq!(by_exe.accepts(&facts(6, 2, "/bin/sh")), Ok(false));
    assert_eq!(by_exe.accepts_with(&facts(6, 2, "/bin/sh"), true), Ok(true));
    assert!(ExeRegex::new("python").unwrap().is_match("/usr/bin/python3"));
    assert_eq!(
        ExeRegex::new("(unclosed").err(),
        Some(InvalidPattern {
            pattern: "(unclosed".to_string()
        })
    );
}

#[test]
fn the_first_accepting_group_monitors_a_process() {
    assert_eq!(choose_group(&[Ok(false), Ok(true), Ok(true)]), Ok(Some(1)));
    assert_eq!(choose_group(&[Err(ProcReadError::PermissionDenied), Ok(true)]), Ok(Some(1)));
    assert_eq!(choose_group(&[Ok(false)]), Ok(None));
    assert_eq!(
        choose_group(&[Ok(false), Err(ProcReadError::Io(None)), Ok(true)]),
        Err(ProcReadError::Io(None))
    );
}

#[test]
fn a_process_is_new_once() {
    let mut table = ProcessTable::new();
    let a = ProcessFingerprint::new(&stat(0, 0, None));
    assert!(table.observe(12, a));
    assert!(!table.observe(12, a));
    let b = ProcessFingerprint {
        start_time: 2000,
        ppid: 1,
    };
    assert!(table.observe(12, b), "a reused pid is a new process");
}

#[test]
fn default_configuration() {
    let kernel = KernelStatsMonitoring::default();
    assert!(kernel.enabled);
    assert_eq!(kernel.poll_interval, 5000);
    let memory = MeminfoMonitoring::default();
    assert_eq!(memory.metrics.len(), 8);
    assert_eq!(memory.metrics[0], "MemTotal");
    assert_eq!(memory.metrics[7], "Mapped");
    let processes = ProcessMonitoring::default();
    assert_eq!(processes.strategy, ProcessWatchStrategy::SystemWatcher);
    assert_eq!(processes.groups.len(), 1);
    assert_eq!(processes.events.poll_interval, 1000);
    let config = Config::default();
    assert_eq!(
        start_plan(&config),
        StartPlan {
            kernel: true,
            memory: true,
            processes: Some(ProcessWatchStrategy::SystemWatcher)
        }
    );
}

#[test]
fn groups_become_filters() {
    let group = ProcessMonitoringGroup {
        pid: Some(u32::MAX),
        ppid: Some(4),
        exe_regex: None,
        poll_interval: 1,
        flush_interval: 2,
    };
    let (filter, settings) = group_monitoring(group);
    assert_eq!(filter.pid, Some(-1));
    assert_eq!(filter.ppid, Some(4));
    assert_eq!((settings.poll_interval, settings.flush_interval), (1, 2));
}

#[test]
fn kernel_counters_must_grow_between_reads() {
    assert!(cpu_time_grows_check(&cpu(1, 1, None), &cpu(2, 1, None)));
    assert!(!cpu_time_grows_check(&cpu(3, 1, None), &cpu(2, 1, None)));
    assert!(!cpu_time_grows_check(&cpu(1, 1, Some(4)), &cpu(1, 1, Some(3))));
    assert!(stats_grow_check(&stats(10, vec![cpu(1, 1, None)]), &stats(12, vec![cpu(1, 2, None), cpu(0, 0, None)])));
    assert!(!stats_grow_check(&stats(12, vec![cpu(1, 1, None)]), &stats(10, vec![cpu(1, 1, None)])));
    assert!(!stats_grow_check(&stats(10, vec![cpu(5, 1, None)]), &stats(10, vec![cpu(1, 1, None)])));
}

#[test]
fn network_counters_must_grow_between_reads() {
    assert!(counters_grow_check(&vec![iface("eth0", 10, 10)], &vec![iface("eth0", 11, 10), iface("lo", 0, 0)]));
    assert!(!counters_grow_check(&vec![iface("eth0", 10, 10)], &vec![iface("eth0", 9, 10)]));
}

#[test]
fn process_cpu_time_must_be_measurable() {
    assert!(cpu_measurable_check(&Some(stat(1, 1, None)), &stat(2, 2, None), 10, false));
    assert!(!cpu_measurable_check(&Some(stat(3, 1, None)), &stat(2, 2, None), 10, false));
    assert!(!cpu_measurable_check(&None, &stat(u64::MAX, 0, None), 10, true));
    assert!(cpu_measurable_check(&None, &stat(u64::MAX, 0, None), 10, false));
}

#[test]
fn meminfo_lines_must_be_readable() {
    assert!(is_meminfo_line_readable("MemTotal:       16 kB"));
    assert!(is_meminfo_line_readable(""));
    assert!(!is_meminfo_line_readable("MemTotal:       18446744073709551615 kB"));
}

#[test]
fn event_mode_uses_its_own_intervals() {
    assert!(default_enabled());
    let events = EventModeProcessMonitoring {
        poll_interval: 2_000,
        flush_interval: 4_000,
    };
    assert_eq!(
        event_mode_settings(&events),
        MonitoringSettings {
            poll_interval: 2_000,
            flush_interval: 4_000
        }
    );
}

#[test]
fn process_cpu_kinds_are_named() {
    let with_guest = process::DeltaCpuTime { user: 1, system: 2, guest: Some(3) };
    assert_eq!(with_guest.kind_values(), vec![("user", 1), ("system", 2), ("guest", 3)]);
    let without = process::DeltaCpuTime { user: 1, system: 2, guest: None };
    assert_eq!(without.kind_values(), vec![("user", 1), ("system", 2)]);
}
