use alumet_plugins::grace_hopper::hwmon::{parse_power_value, SensorInfo, SensorTagKind, TelemetryKind};
use alumet_plugins::grace_hopper::probe::DramComputation;
use alumet_plugins::grace_hopper::source::{power_report, power_summable, PowerPoint, ProbeReading, SocketReadings};
use alumet_plugins::grace_hopper::total::PerKindTotals;
use std::str::FromStr;

#[test]
fn parse_sensor_information() {
    assert_eq!(
        SensorInfo::from_str("Grace Power Socket 0").unwrap(),
        SensorInfo {
            kind: TelemetryKind::Grace,
            socket: 0
        }
    );
    assert_eq!(
        SensorInfo::from_str("CPU Power Socket 0").unwrap(),
        SensorInfo {
            kind: TelemetryKind::Cpu,
            socket: 0
        }
    );
    assert_eq!(
        SensorInfo::from_str("CPU Power Socket 1").unwrap(),
        SensorInfo {
            kind: TelemetryKind::Cpu,
            socket: 1
        }
    );
    assert_eq!(
        SensorInfo::from_str("SysIO Power Socket 1").unwrap(),
        SensorInfo {
            kind: TelemetryKind::SysIo,
            socket: 1
        }
    );
    assert_eq!(
        SensorInfo::from_str("Module Power Socket 0").unwrap(),
        SensorInfo {
            kind: TelemetryKind::Module,
            socket: 0
        }
    );
}

#[test]
fn sensor_information_is_rejected_when_malformed() {
    assert!(SensorInfo::from_str("humhum").is_err());
    assert!(SensorInfo::from_str("GPU Power Socket 0").is_err());
    assert!(SensorInfo::from_str("CPU Power Socket 256").is_err());
    assert_eq!(
        SensorInfo::from_str("  cpu power socket 3\n").unwrap(),
        SensorInfo {
            kind: TelemetryKind::Cpu,
            socket: 3
        }
    );
}

#[test]
fn compute_dram() {
    let test1 = DramComputation {
        grace_value: Some(19),
        sysio_value: Some(12),
        cpu_value: Some(2),
    };
    assert_eq!(test1.compute().unwrap(), 5);

    let test2 = DramComputation {
        grace_value: Some(20),
        sysio_value: Some(13),
        cpu_value: Some(7),
    };
    assert_eq!(test2.compute().unwrap(), 0);

    let test3 = DramComputation {
        grace_value: Some(10),
        sysio_value: Some(12),
        cpu_value: Some(2),
    };
    assert_eq!(test3.compute(), None);
}

#[test]
fn dram_needs_every_input() {
    let d = DramComputation {
        grace_value: Some(10),
        sysio_value: None,
        cpu_value: Some(2),
    };
    assert_eq!(d.compute(), None);
}

#[test]
fn totals_add_up_per_kind() {
    let mut t = PerKindTotals::new();
    assert!(t.iter().is_empty());

    t.push(SensorTagKind::Grace, 15);
    t.push(SensorTagKind::Grace, 1);
    t.push(SensorTagKind::Module, 2);
    t.push(SensorTagKind::SysIo, 0);

    assert_eq!(t.get(SensorTagKind::Cpu), None);
    assert_eq!(t.get(SensorTagKind::Grace), Some(16));
    assert_eq!(t.get(SensorTagKind::Module), Some(2));
    assert_eq!(t.get(SensorTagKind::SysIo), Some(0));

    let present: Vec<SensorTagKind> = t.iter().into_iter().map(|(k, _)| k).collect();
    assert_eq!(present, vec![SensorTagKind::Grace, SensorTagKind::SysIo, SensorTagKind::Module]);
}

#[test]
fn telemetry_kinds_are_named() {
    assert_eq!(TelemetryKind::from_str("grace"), Ok(TelemetryKind::Grace));
    assert_eq!(TelemetryKind::SysIo.as_str(), "sysio");
    assert_eq!(SensorTagKind::from(TelemetryKind::Cpu), SensorTagKind::Cpu);
    assert_eq!(SensorTagKind::Dram.as_str_total(), "dram_total");
}

#[test]
fn power_values_are_read() {
    assert_eq!(parse_power_value("123456789\n"), Some(123456789));
    assert_eq!(parse_power_value("no"), None);
}

fn reading(kind: TelemetryKind, power: u64) -> ProbeReading {
    ProbeReading { kind, power }
}

#[test]
fn power_report_estimates_dram_and_totals() {
    let sockets = vec![
        SocketReadings {
            socket: 0,
            probes: vec![
                reading(TelemetryKind::Grace, 19),
                reading(TelemetryKind::Cpu, 2),
                reading(TelemetryKind::SysIo, 12),
                reading(TelemetryKind::Module, 40),
            ],
        },
        SocketReadings {
            socket: 1,
            probes: vec![reading(TelemetryKind::Grace, 10), reading(TelemetryKind::Module, 30)],
        },
    ];
    assert!(power_summable(&sockets));
    let report = power_report(&sockets);
    assert_eq!(
        report.points,
        vec![
            PowerPoint::Probe { socket: 0, kind: TelemetryKind::Grace, power: 19 },
            PowerPoint::Probe { socket: 0, kind: TelemetryKind::Cpu, power: 2 },
            PowerPoint::Probe { socket: 0, kind: TelemetryKind::SysIo, power: 12 },
            PowerPoint::Probe { socket: 0, kind: TelemetryKind::Module, power: 40 },
            PowerPoint::Dram { socket: 0, power: 5 },
            PowerPoint::Probe { socket: 1, kind: TelemetryKind::Grace, power: 10 },
            PowerPoint::Probe { socket: 1, kind: TelemetryKind::Module, power: 30 },
            PowerPoint::Total { tag: SensorTagKind::Grace, power: 29 },
            PowerPoint::Total { tag: SensorTagKind::Cpu, power: 2 },
            PowerPoint::Total { tag: SensorTagKind::SysIo, power: 12 },
            PowerPoint::Total { tag: SensorTagKind::Module, power: 70 },
            PowerPoint::Total { tag: SensorTagKind::Dram, power: 5 },
            PowerPoint::Overall { power: 70 },
        ]
    );
    assert_eq!(report.totals.get(SensorTagKind::Dram), Some(5));
}

#[test]
fn power_report_without_module_uses_grace_total() {
    let sockets = vec![SocketReadings {
        socket: 3,
        probes: vec![reading(TelemetryKind::Grace, 10), reading(TelemetryKind::Cpu, 4), reading(TelemetryKind::SysIo, 7)],
    }];
    let report = power_report(&sockets);
    assert_eq!(report.points.last(), Some(&PowerPoint::Overall { power: 10 }));
    assert!(!report.points.iter().any(|p| matches!(p, PowerPoint::Dram { .. })));
}

#[test]
fn power_report_of_nothing_is_empty() {
    let report = power_report(&[]);
    assert!(report.points.is_empty());
    assert!(report.totals.iter().is_empty());
}

#[test]
fn power_that_overflows_is_not_summable() {
    let sockets = vec![
        SocketReadings { socket: 0, probes: vec![reading(TelemetryKind::Cpu, u64::MAX)] },
        SocketReadings { socket: 1, probes: vec![reading(TelemetryKind::Cpu, 1)] },
    ];
    assert!(!power_summable(&sockets));
}

#[test]
fn telemetry_kinds_are_read_back_from_their_names() {
    for k in [TelemetryKind::Grace, TelemetryKind::Cpu, TelemetryKind::SysIo, TelemetryKind::Module] {
        assert_eq!(TelemetryKind::from_str(k.as_str()), Ok(k));
    }
    assert!(TelemetryKind::from_str("Grace").is_err());
    assert!(TelemetryKind::from_str("gpu").is_err());
}
