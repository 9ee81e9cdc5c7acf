use alumet_plugins::nvml::detect::{check_detection, DetectionStats, DeviceFailureStrategy, Devices, StartupError};
use alumet_plugins::nvml::features::{
    detect_biversion, fixed_process_utilization_stats, is_supported, needs_fallback, AvailableVersion,
    FeatureProbes, NvmlFailure, OptionalFeatures,
};
use alumet_plugins::nvml::gpm::{
    create_gpm_metrics, match_gpm_id_to_attributes, AttributeValue, Direction, GpmMetric, Precision,
    TensorOperation,
};
use alumet_plugins::nvml::metrics::{full_metrics, minimal_metrics};
use alumet_plugins::nvml::plugin::{check_minimal, default_true, failure_strategy, source_name, Config, Mode};
use alumet_plugins::nvml::source::{
    readings_fit_check, GpuMetric, GpuPoint, GpuPollState, GpuReadings, ProcessSample, Utilization, UtilizationInfo,
};
use alumet_plugins::units::Unit;

fn no_features() -> OptionalFeatures {
    OptionalFeatures {
        total_energy_consumption: false,
        instant_power: false,
        major_utilization: false,
        decoder_utilization: false,
        encoder_utilization: false,
        process_utilization_stats: false,
        temperature_gpu: false,
        running_compute_processes: AvailableVersion::Unavailable,
        running_graphics_processes: AvailableVersion::Unavailable,
    }
}

#[test]
fn has_any_no_features() {
    let features = no_features();
    assert!(!features.has_any());
}

#[test]
fn process_stats_alone_are_not_useful() {
    let features = OptionalFeatures {
        process_utilization_stats: true,
        ..no_features()
    };
    assert!(!features.has_any());
    let features = OptionalFeatures {
        running_graphics_processes: AvailableVersion::V2,
        ..no_features()
    };
    assert!(features.has_any());
}

#[test]
fn features_fmt_all() {
    let features = OptionalFeatures {
        total_energy_consumption: true,
        instant_power: true,
        major_utilization: true,
        decoder_utilization: true,
        encoder_utilization: true,
        process_utilization_stats: true,
        temperature_gpu: true,
        running_compute_processes: AvailableVersion::Latest,
        running_graphics_processes: AvailableVersion::Latest,
    };
    assert_eq!(
        features.describe(),
        "total_energy_consumption, instant_power, major_utilization, decoder_utilization, encoder_utilization, process_utilization_stats, temperature_gpu, running_compute_processes(latest), running_graphics_processes(latest)"
    );
}

#[test]
fn features_fmt_some() {
    let features = OptionalFeatures {
        total_energy_consumption: true,
        instant_power: false,
        major_utilization: true,
        decoder_utilization: true,
        encoder_utilization: true,
        process_utilization_stats: false,
        temperature_gpu: false,
        running_compute_processes: AvailableVersion::V2,
        running_graphics_processes: AvailableVersion::Unavailable,
    };
    assert_eq!(
        features.describe(),
        "total_energy_consumption, major_utilization, decoder_utilization, encoder_utilization, running_compute_processes(v2)"
    );
}

fn symbol(name: &str) -> NvmlFailure {
    NvmlFailure::FailedToLoadSymbol(name.to_owned())
}

/// Detects a version the way the source does: the older version is only called when the
/// latest one is missing.
fn biversion(latest: Result<(), NvmlFailure>, v2: Result<(), NvmlFailure>) -> Result<AvailableVersion, NvmlFailure> {
    let fallback = if needs_fallback(&latest) { Some(v2) } else { None };
    detect_biversion(latest, fallback)
}

fn probes(compute: Result<AvailableVersion, NvmlFailure>, graphics: Result<AvailableVersion, NvmlFailure>) -> FeatureProbes {
    FeatureProbes {
        total_energy_consumption: is_supported(Ok::<u64, NvmlFailure>(0)),
        instant_power: is_supported(Ok::<u32, NvmlFailure>(145)),
        temperature_gpu: is_supported(Err::<u32, NvmlFailure>(NvmlFailure::NotSupported)),
        major_utilization: is_supported(Err::<(), NvmlFailure>(NvmlFailure::NotSupported)),
        decoder_utilization: is_supported(Err::<(), NvmlFailure>(NvmlFailure::NotSupported)),
        encoder_utilization: is_supported(Err::<(), NvmlFailure>(NvmlFailure::NotSupported)),
        process_utilization_stats: is_supported(Err::<(), NvmlFailure>(NvmlFailure::NotSupported)),
        running_compute_processes: compute,
        running_graphics_processes: graphics,
    }
}

#[test]
fn detect_some() {
    let compute = biversion(Err(symbol("nvmlDeviceGetComputeRunningProcesses_v3")), Ok(()));
    let graphics = biversion(
        Err(symbol("nvmlDeviceGetGraphicsRunningProcesses_v3")),
        Err(symbol("nvmlDeviceGetGraphicsRunningProcesses_v2")),
    );
    let features = OptionalFeatures::detect_on(probes(compute, graphics)).expect("detection failed");
    assert_eq!(
        features,
        OptionalFeatures {
            total_energy_consumption: true,
            instant_power: true,
            temperature_gpu: false,
            major_utilization: false,
            decoder_utilization: false,
            encoder_utilization: false,
            process_utilization_stats: false,
            running_compute_processes: AvailableVersion::V2,
            running_graphics_processes: AvailableVersion::Unavailable
        }
    );

    // v3 is now available
    let compute = biversion(Err(symbol("nvmlDeviceGetComputeRunningProcesses_v3")), Ok(()));
    let graphics = biversion(Ok(()), Err(NvmlFailure::Other("must not be called".to_owned())));
    let features = OptionalFeatures::detect_on(probes(compute, graphics)).expect("detection failed");
    assert_eq!(features.running_compute_processes, AvailableVersion::V2);
    assert_eq!(features.running_graphics_processes, AvailableVersion::Latest);

    // failure
    let compute = biversion(Err(symbol("nvmlDeviceGetComputeRunningProcesses_v3")), Ok(()));
    let graphics = biversion(Err(NvmlFailure::Other("GPU lost".to_owned())), Ok(()));
    OptionalFeatures::detect_on(probes(compute, graphics)).expect_err("should fail");
}

#[test]
fn is_supported_tells_unsupported_from_failure() {
    assert_eq!(is_supported(Ok::<u8, NvmlFailure>(1)), Ok(true));
    assert_eq!(is_supported(Err::<u8, NvmlFailure>(NvmlFailure::NotSupported)), Ok(false));
    assert_eq!(
        is_supported(Err::<u8, NvmlFailure>(NvmlFailure::Other("lost".to_owned()))),
        Err(NvmlFailure::Other("lost".to_owned()))
    );
    assert_eq!(
        is_supported(Err::<u8, NvmlFailure>(symbol("f"))),
        Err(symbol("f")),
        "a missing symbol is not a mere lack of support"
    );
}

#[test]
fn not_found_samples_are_no_samples() {
    let r: Result<Vec<u8>, NvmlFailure> = fixed_process_utilization_stats(Err(NvmlFailure::NotFound));
    assert_eq!(r, Ok(vec![]));
    let r: Result<Vec<u8>, NvmlFailure> = fixed_process_utilization_stats(Ok(vec![3]));
    assert_eq!(r, Ok(vec![3]));
    let r: Result<Vec<u8>, NvmlFailure> = fixed_process_utilization_stats(Err(NvmlFailure::NotSupported));
    assert_eq!(r, Err(NvmlFailure::NotSupported));
}

fn useful() -> OptionalFeatures {
    OptionalFeatures {
        total_energy_consumption: true,
        instant_power: true,
        running_compute_processes: AvailableVersion::Latest,
        running_graphics_processes: AvailableVersion::Latest,
        ..no_features()
    }
}

#[test]
fn detect_no_device() {
    let devices: Devices<u32> = Devices::new();
    assert!(devices.iter().is_empty());
    assert_eq!(devices.detection_stats().found_devices, 0);
    assert_eq!(devices.detection_stats().working_devices, 0);
    assert_eq!(check_detection(&devices.detection_stats()), Err(StartupError::NoDevice));
}

#[test]
fn detect_ok() {
    let mut devices: Devices<u32> = Devices::new();
    devices.record::<String>(Ok((0, useful())), DeviceFailureStrategy::Fail).unwrap();
    assert_eq!(devices.iter().len(), 1);
    assert_eq!(devices.iter()[0].inner, 0);
    assert_eq!(devices.detection_stats().found_devices, 1);
    assert_eq!(devices.detection_stats().working_devices, 1);
    assert_eq!(check_detection(&devices.detection_stats()), Ok(()));
}

#[test]
fn fail_when_device_get_fails() {
    let mut devices: Devices<u32> = Devices::new();
    let r = devices.record(Err("test error".to_owned()), DeviceFailureStrategy::Fail);
    assert_eq!(r, Err("test error".to_owned()));
    assert_eq!(devices.detection_stats().found_devices, 0);
}

#[test]
fn skip_when_device_get_fails() {
    let mut devices: Devices<u32> = Devices::new();
    devices
        .record(Err("test error".to_owned()), DeviceFailureStrategy::Skip)
        .expect("detect should not fail with the skip strategy");
    assert_eq!(devices.iter().len(), 0);
    assert_eq!(devices.detection_stats().found_devices, 1);
    assert_eq!(devices.detection_stats().working_devices, 0);
    assert_eq!(check_detection(&devices.detection_stats()), Err(StartupError::NoWorkingDevice(1)));
}

#[test]
fn fail_when_detect_fails() {
    let probe = OptionalFeatures::detect_on(FeatureProbes {
        total_energy_consumption: is_supported(Err::<u64, NvmlFailure>(NvmlFailure::Other("GPU lost".to_owned()))),
        ..probes(Ok(AvailableVersion::Latest), Ok(AvailableVersion::Latest))
    });
    let mut devices: Devices<u32> = Devices::new();
    let r = devices.record(probe.map(|f| (0, f)), DeviceFailureStrategy::Fail);
    assert!(r.is_err());
}

#[test]
fn skip_when_detect_fails() {
    let probe = OptionalFeatures::detect_on(FeatureProbes {
        total_energy_consumption: is_supported(Err::<u64, NvmlFailure>(NvmlFailure::Other("GPU lost".to_owned()))),
        ..probes(Ok(AvailableVersion::Latest), Ok(AvailableVersion::Latest))
    });
    let mut devices: Devices<u32> = Devices::new();
    devices.record(probe.map(|f| (0, f)), DeviceFailureStrategy::Skip).unwrap();
    assert_eq!(devices.iter().len(), 0);
    assert_eq!(devices.detection_stats().found_devices, 1);
    assert_eq!(devices.detection_stats().working_devices, 0);
}

#[test]
fn devices_without_useful_features_are_left_out() {
    let mut devices: Devices<&str> = Devices::new();
    devices.record::<()>(Ok(("a", no_features())), DeviceFailureStrategy::Fail).unwrap();
    devices.record::<()>(Ok(("b", useful())), DeviceFailureStrategy::Fail).unwrap();
    let kept: Vec<&str> = devices.iter().iter().map(|d| d.inner).collect();
    assert_eq!(kept, vec!["b"]);
    assert_eq!(
        devices.detection_stats(),
        DetectionStats {
            found_devices: 2,
            working_devices: 1
        }
    );
}

#[test]
fn startup_errors_are_explained() {
    assert_eq!(
        StartupError::NoWorkingDevice(2).message(),
        "2 NVML-compatible devices found but none of them is working (see previous warnings)."
    );
    assert!(StartupError::NoDevice.message().starts_with("No NVML-compatible GPU found."));
}

#[test]
fn gpm_metrics_share_alumet_metrics() {
    let d = create_gpm_metrics(&GpmMetric::Nvdec(3));
    assert_eq!(d.name, "nvml_gpm_nvdec_utilization");
    assert_eq!(d.unit, Unit::Percent);
    assert_eq!(d.description, "NVDEC utilization.");
    let d = create_gpm_metrics(&GpmMetric::NvlinkLink(17, Direction::Received));
    assert_eq!(d.name, "nvml_gpm_nvlink_throughput");
    assert_eq!(d.unit, Unit::Byte);
    assert_eq!(create_gpm_metrics(&GpmMetric::Pcie(Direction::Transmitted)).name, "nvml_gpm_pcie_throughput");
    assert_eq!(create_gpm_metrics(&GpmMetric::SmOccupancy).name, "nvml_gpm_sm_occupancy");
}

#[test]
fn gpm_attributes_tell_metrics_apart() {
    assert_eq!(
        match_gpm_id_to_attributes(&GpmMetric::TensorUtil(TensorOperation::Hmma)),
        vec![("operation_type", AttributeValue::Str("hmma".to_owned()))]
    );
    assert_eq!(
        match_gpm_id_to_attributes(&GpmMetric::PrecisionUtil(Precision::Fp64)),
        vec![("precision", AttributeValue::Str("fp64".to_owned()))]
    );
    assert_eq!(
        match_gpm_id_to_attributes(&GpmMetric::Nvjpg(6)),
        vec![("instance", AttributeValue::U64(6))]
    );
    assert_eq!(
        match_gpm_id_to_attributes(&GpmMetric::NvlinkLink(12, Direction::Transmitted)),
        vec![
            ("direction", AttributeValue::Str("transmitted".to_owned())),
            ("instance", AttributeValue::Str("12".to_owned())),
        ]
    );
    assert_eq!(
        match_gpm_id_to_attributes(&GpmMetric::NvlinkTotal(Direction::Received)),
        vec![
            ("direction", AttributeValue::Str("received".to_owned())),
            ("instance", AttributeValue::Str("total".to_owned())),
        ]
    );
    assert!(match_gpm_id_to_attributes(&GpmMetric::GraphicsUtil).is_empty());
}

fn no_readings() -> GpuReadings {
    GpuReadings {
        total_energy_consumption: None,
        power_usage: None,
        temperature: None,
        utilization_rates: None,
        decoder_utilization: None,
        encoder_utilization: None,
        running_compute_processes: None,
        running_graphics_processes: None,
        process_samples: None,
    }
}

fn device(metric: GpuMetric, value: u64) -> GpuPoint {
    GpuPoint { metric, pid: None, value }
}

#[test]
fn a_poll_measures_the_available_features_in_order() {
    let features = OptionalFeatures {
        total_energy_consumption: true,
        instant_power: true,
        major_utilization: true,
        decoder_utilization: true,
        running_compute_processes: AvailableVersion::V2,
        ..no_features()
    };
    let mut state = GpuPollState::new();
    let readings = GpuReadings {
        total_energy_consumption: Some(Ok(1000)),
        power_usage: Some(Ok(145)),
        utilization_rates: Some(Ok(Utilization { gpu: 50, memory: 20 })),
        decoder_utilization: Some(Ok(UtilizationInfo {
            utilization: 5,
            sampling_period: 167,
        })),
        running_compute_processes: Some(Ok(2)),
        ..no_readings()
    };
    let out = state.poll(&features, readings, 100);
    assert_eq!(out.error, None);
    // no energy yet: the counter needs two readings
    assert_eq!(
        out.points,
        vec![
            device(GpuMetric::InstantPower, 145),
            device(GpuMetric::MajorUtilizationGpu, 50),
            device(GpuMetric::MajorUtilizationMemory, 20),
            device(GpuMetric::DecoderUtilization, 5),
            device(GpuMetric::DecoderSamplingPeriod, 167),
            device(GpuMetric::RunningComputeProcesses, 2),
        ]
    );
    let readings = GpuReadings {
        total_energy_consumption: Some(Ok(1750)),
        power_usage: Some(Ok(150)),
        utilization_rates: Some(Ok(Utilization { gpu: 51, memory: 21 })),
        decoder_utilization: Some(Ok(UtilizationInfo {
            utilization: 6,
            sampling_period: 167,
        })),
        running_compute_processes: Some(Ok(3)),
        ..no_readings()
    };
    let out = state.poll(&features, readings, 101);
    assert_eq!(out.points[0], device(GpuMetric::EnergyConsumption, 750));
    assert_eq!(out.points.len(), 7);
}

#[test]
fn the_energy_counter_wraps_around() {
    let mut state = GpuPollState::new();
    assert_eq!(state.update_energy(u64::MAX - 1), None);
    assert_eq!(state.update_energy(3), Some(5));
    assert_eq!(state.update_energy(10), Some(7));
}

#[test]
fn a_failed_reading_stops_the_poll() {
    let features = OptionalFeatures {
        total_energy_consumption: true,
        instant_power: true,
        temperature_gpu: true,
        ..no_features()
    };
    let mut state = GpuPollState::new();
    let readings = GpuReadings {
        total_energy_consumption: Some(Ok(10)),
        power_usage: Some(Ok(145)),
        temperature: Some(Err(NvmlFailure::Other("lost".to_owned()))),
        ..no_readings()
    };
    let out = state.poll(&features, readings, 5);
    assert_eq!(out.points, vec![device(GpuMetric::InstantPower, 145)]);
    assert_eq!(out.error, Some(NvmlFailure::Other("lost".to_owned())));
    assert_eq!(state.energy_counter, Some(10));
}

#[test]
fn process_samples_are_read_since_the_previous_poll() {
    let features = OptionalFeatures {
        process_utilization_stats: true,
        ..no_features()
    };
    let mut state = GpuPollState::new();
    assert_eq!(state.samples_since(&features), None);
    let out = state.poll(&features, no_readings(), 42);
    assert!(out.points.is_empty());
    assert_eq!(state.samples_since(&features), Some(42));
    let sample = ProcessSample {
        pid: 7,
        sm_util: 1,
        mem_util: 2,
        enc_util: 3,
        dec_util: 4,
    };
    let readings = GpuReadings {
        process_samples: Some(Ok(vec![sample])),
        ..no_readings()
    };
    let out = state.poll(&features, readings, 43);
    assert_eq!(
        out.points,
        vec![
            GpuPoint { metric: GpuMetric::SmUtilization, pid: Some(7), value: 1 },
            GpuPoint { metric: GpuMetric::MajorUtilizationMemory, pid: Some(7), value: 2 },
            GpuPoint { metric: GpuMetric::EncoderUtilization, pid: Some(7), value: 3 },
            GpuPoint { metric: GpuMetric::DecoderUtilization, pid: Some(7), value: 4 },
        ]
    );
    let readings = GpuReadings {
        process_samples: Some(Err(NvmlFailure::NotFound)),
        ..no_readings()
    };
    let out = state.poll(&features, readings, 44);
    assert!(out.points.is_empty() && out.error.is_none());
    assert_eq!(state.last_poll_timestamp, Some(44));
}

#[test]
fn full_and_minimal_metrics() {
    let full: Vec<&str> = full_metrics().iter().map(|m| m.name).collect();
    assert_eq!(full.len(), 15);
    assert_eq!(full[0], "nvml_energy_consumption");
    assert_eq!(full[14], "nvml_clock_info");
    let minimal: Vec<&str> = minimal_metrics().iter().map(|m| m.name).collect();
    assert_eq!(minimal, vec!["nvml_energy_consumption", "nvml_instant_power"]);
}

#[test]
fn readings_must_match_the_features() {
    let features = OptionalFeatures {
        instant_power: true,
        process_utilization_stats: true,
        ..no_features()
    };
    let power_only = GpuReadings {
        power_usage: Some(Ok(10)),
        ..no_readings()
    };
    assert!(readings_fit_check(&features, None, &power_only));
    // once a poll happened, the utilization of processes is read too
    assert!(!readings_fit_check(&features, Some(5), &power_only));
    let with_samples = GpuReadings {
        power_usage: Some(Ok(10)),
        process_samples: Some(Ok(vec![])),
        ..no_readings()
    };
    assert!(readings_fit_check(&features, Some(5), &with_samples));
    assert!(!readings_fit_check(&no_features(), None, &power_only));
}

#[test]
fn plugin_start_decisions() {
    assert_eq!(
        Config::default(),
        Config {
            poll_interval: 1_000_000_000,
            flush_interval: 5_000_000_000,
            skip_failed_devices: true,
            mode: Mode::Full
        }
    );
    assert!(default_true());
    assert_eq!(failure_strategy(true), DeviceFailureStrategy::Skip);
    assert_eq!(failure_strategy(false), DeviceFailureStrategy::Fail);
    assert_eq!(source_name("00000000:01:00.0"), "device_00000000:01:00.0");
    let powered = OptionalFeatures {
        instant_power: true,
        ..no_features()
    };
    assert_eq!(check_minimal(&powered, "bus"), Ok(()));
    let e = check_minimal(&no_features(), "bus").unwrap_err();
    assert_eq!(e.message(), "minimal mode cannot be used on GPU [bus]: nvmlDeviceGetPowerUsage is not supported");
}

#[test]
fn gpm_metrics_sharing_a_metric_have_distinct_attributes() {
    let same_family = [
        GpmMetric::NvlinkTotal(Direction::Received),
        GpmMetric::NvlinkLink(1, Direction::Received),
        GpmMetric::NvlinkLink(10, Direction::Received),
        GpmMetric::NvlinkLink(1, Direction::Transmitted),
    ];
    for (i, a) in same_family.iter().enumerate() {
        for b in &same_family[i + 1..] {
            assert_eq!(create_gpm_metrics(a).name, create_gpm_metrics(b).name);
            assert_ne!(match_gpm_id_to_attributes(a), match_gpm_id_to_attributes(b));
        }
    }
}
