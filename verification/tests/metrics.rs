use alumet_plugins::grace_hopper::source::grace_metrics;
use alumet_plugins::lmsensors::temperature_metric;
use alumet_plugins::procfs::kernel::kernel_metrics;
use alumet_plugins::procfs::network::NetworkMetric;
use alumet_plugins::procfs::watch::process_metrics;
use alumet_plugins::quarch::disk_power_metric;
use alumet_plugins::units::{PrefixedUnit, Unit, UnitPrefix};

fn unit(base_unit: Unit, prefix: UnitPrefix) -> PrefixedUnit {
    PrefixedUnit { base_unit, prefix }
}

#[test]
fn kernel_metrics_are_defined() {
    let m = kernel_metrics();
    let names: Vec<&str> = m.iter().map(|d| d.name).collect();
    assert_eq!(
        names,
        vec![
            "kernel_cpu_time",
            "kernel_context_switches",
            "kernel_new_forks",
            "kernel_n_procs_running",
            "kernel_n_procs_blocked"
        ]
    );
    assert_eq!(m[0].unit, unit(Unit::Second, UnitPrefix::Milli));
    assert_eq!(m[0].description, "busy CPU time");
}

#[test]
fn network_metrics_are_defined() {
    assert_eq!(NetworkMetric::Bytes.spec().name, "network_bytes");
    assert_eq!(NetworkMetric::Bytes.spec().unit, unit(Unit::Byte, UnitPrefix::Plain));
    assert_eq!(NetworkMetric::Drops.spec().name, "network_packet_drops");
    assert_eq!(NetworkMetric::Errors.spec().description, "Number of errors (rx/tx) per interface");
}

#[test]
fn other_metrics_are_defined() {
    let p = process_metrics();
    assert_eq!((p[0].name, p[1].name), ("cpu_time_delta", "memory_usage"));
    assert_eq!(p[0].unit, unit(Unit::Second, UnitPrefix::Nano));
    let g = grace_metrics();
    assert_eq!(g[0].unit, unit(Unit::Watt, UnitPrefix::Micro));
    assert_eq!(g[1].name, "grace_energy_consumption");
    assert_eq!(temperature_metric().unit, unit(Unit::DegreeCelsius, UnitPrefix::Plain));
    assert_eq!(disk_power_metric().name, "disk_power");
}
