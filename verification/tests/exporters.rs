use alumet_plugins::carbon::{intensity_source, IntensityError, IntensitySource, Mode};
use alumet_plugins::filter::{check_config, metric_ids, setup_transform, FilterError, FilterSetupError, FilterTransform};
use alumet_plugins::jetson::{parse_device_entry, InaDeviceMetadata};
use alumet_plugins::kwollect::{build_kwollect_url, extract_unit_from_metric_name, normalize_unit, utc_offset_seconds, Config};
use alumet_plugins::kwollect_time::{parse_timestamp, ParsedTimestamp};
use alumet_plugins::otel::{datapoint_labels, export_request, group_by_metric, metric_full_name, ExportGauge, PointLabels};
use alumet_plugins::lmsensors::{check_start, end_round, flush_rounds, StartError, Config as LmConfig, coretemp_chip, coretemp_id, keep_feature, resource_from_string, CoretempError, CoretempResource};
use alumet_plugins::prometheus::{get_unit_string, metric_export_name, prometheus_labels, registered_unit, sanitize_name, MeasurementType, Metric};
use alumet_plugins::quarch::poll_to_sample;
use alumet_plugins::units::{PrefixedUnit, Unit, UnitPrefix};
use std::collections::HashSet;

#[test]
fn test_sanitize_name() {
    assert_eq!(sanitize_name("".to_string()), "".to_string());
    assert_eq!(sanitize_name("abc".to_string()), "abc".to_string());
    assert_eq!(sanitize_name("123avc".to_string()), "_23avc".to_string());
    assert_eq!(sanitize_name("cpu_percent_%".to_string()), "cpu_percent__".to_string());
}

fn new_metric(unit: Unit, prefix: UnitPrefix) -> Metric {
    Metric {
        name: "".to_string(),
        description: "".to_string(),
        value_type: MeasurementType::F64,
        unit: PrefixedUnit { base_unit: unit, prefix },
    }
}

#[test]
fn test_get_unit_string() {
    assert_eq!(get_unit_string(&new_metric(Unit::Percent, UnitPrefix::Plain)), "ratio".to_string());
    assert_eq!(get_unit_string(&new_metric(Unit::Unity, UnitPrefix::Plain)), "".to_string());
    assert_eq!(get_unit_string(&new_metric(Unit::Byte, UnitPrefix::Kilo)), "kilobytes".to_string());
    assert_eq!(
        get_unit_string(&new_metric(Unit::WattHour, UnitPrefix::Nano)),
        "nanowatt_hours".to_string()
    );
}

#[test]
fn custom_units_keep_their_unique_name() {
    let unit = Unit::Custom {
        unique_name: "widgets".to_owned(),
        display_name: "Widgets".to_owned(),
    };
    assert_eq!(get_unit_string(&new_metric(unit, UnitPrefix::Milli)), "milliwidgets");
}

#[test]
fn test_parse_device_entry() {
    assert_eq!(
        parse_device_entry("/sys/bus/i2c/drivers/ina3221/1-0040/hwmon/hwmon2"),
        Some(InaDeviceMetadata {
            path: "/sys/bus/i2c/drivers/ina3221/1-0040/hwmon/hwmon2".to_owned(),
            i2c_address: 64,
            number: 2
        })
    );
    assert_eq!(parse_device_entry("/sys/bus/i2c/drivers/ina3221/bad"), None);
}

#[test]
fn device_entries_follow_path_rules() {
    let m = parse_device_entry("/root//1-0041/./hwmon/hwmon10/").unwrap();
    assert_eq!((m.i2c_address, m.number), (0x41, 10));
    assert_eq!(parse_device_entry("/root/1-0041/hwmon/hwmon"), None);
    assert_eq!(parse_device_entry("/root/10041/hwmon/hwmon1"), None);
    assert_eq!(parse_device_entry("hwmon/hwmon1"), None);
}

#[test]
fn kwollect_units_are_normalized() {
    assert_eq!(normalize_unit("watt"), "W");
    assert_eq!(normalize_unit("deg"), "°");
    assert_eq!(normalize_unit("cfm"), "[cft_i]/min");
    assert_eq!(normalize_unit("unknown"), "unknown");
    assert_eq!(extract_unit_from_metric_name("wattmetre_power_watt"), "W");
    assert_eq!(extract_unit_from_metric_name("network_ifacein_bytes_total"), "By");
    assert_eq!(extract_unit_from_metric_name("network_ifacein_packets_error_total"), "tot.");
    assert_eq!(extract_unit_from_metric_name("bytes_total"), "By");
    assert_eq!(extract_unit_from_metric_name("error_total"), "error");
    assert_eq!(extract_unit_from_metric_name("total"), "total");
    assert_eq!(extract_unit_from_metric_name("plain"), "plain");
}

#[test]
fn kwollect_url_names_the_query() {
    let mut config = Config::default();
    config.metrics = vec!["a".to_owned(), "b".to_owned()];
    assert_eq!(
        build_kwollect_url(&config, 100, -5),
        "https://api.grid5000.fr/stable/sites/cluster/metrics?nodes=node&metrics=a,b&start_time=100&end_time=-5"
    );
    assert_eq!(Config::default().utc_offset, Some(2));
}

#[test]
fn quarch_averaging_covers_the_poll_interval() {
    assert_eq!(poll_to_sample(100_000), (32, 130));
    assert_eq!(poll_to_sample(130_000), (32, 130));
    assert_eq!(poll_to_sample(130_001), (64, 250));
    assert_eq!(poll_to_sample(1_000_000_000), (32768, 131_000));
}

#[test]
fn filters_keep_or_drop_metrics() {
    let mut points = vec![(1u64, 'a'), (2, 'b'), (1, 'c'), (3, 'd')];
    let keep = FilterTransform::new(Some(HashSet::from([1u64])), None).unwrap();
    keep.apply(&mut points);
    assert_eq!(points, vec![(1, 'a'), (1, 'c')]);

    let mut points = vec![(1u64, 'a'), (2, 'b'), (1, 'c'), (3, 'd')];
    let drop = FilterTransform::new(None, Some(HashSet::from([1u64]))).unwrap();
    drop.apply(&mut points);
    assert_eq!(points, vec![(2, 'b'), (3, 'd')]);

    assert_eq!(FilterTransform::new(None, None).err(), Some(FilterError::NeitherSet));
    assert_eq!(
        FilterTransform::new(Some(HashSet::new()), Some(HashSet::new())).err(),
        Some(FilterError::BothSet)
    );
}

#[test]
fn coretemp_labels_name_resources() {
    assert_eq!(resource_from_string("Package id 1", 0), Ok(CoretempResource::CpuPackage { id: 1 }));
    assert_eq!(
        resource_from_string("Core 3", 1),
        Ok(CoretempResource::Custom {
            kind: "cpu_core".to_owned(),
            id: "1_3".to_owned()
        })
    );
    assert_eq!(
        resource_from_string("Fan 3", 1),
        Err(CoretempError::UnparsableLabel("Fan 3".to_owned()))
    );
    assert_eq!(resource_from_string("Core", 1), Err(CoretempError::MissingId("Core".to_owned())));
    assert!(coretemp_chip("coretemp-isa-0000"));
    assert!(!coretemp_chip("acpitz-acpi-0"));
    assert_eq!(coretemp_id("coretemp-isa-0001"), Ok(1));
    assert!(coretemp_id("coretemp-isa-x").is_err());
    assert!(keep_feature(true, Some("Package id 0")));
    assert!(!keep_feature(true, Some("Core 0")));
    assert!(keep_feature(true, None));
    assert!(keep_feature(false, Some("Core 0")));
}

const METRIC_A: u64 = 0;
const METRIC_B: u64 = 1;

fn filter_input(ts1: u64, ts2: u64) -> Vec<(u64, (u64, u64))> {
    vec![
        (METRIC_A, (ts1, 1)),
        (METRIC_A, (ts2, 1)),
        (METRIC_B, (ts1, 2)),
        (METRIC_B, (ts2, 2)),
    ]
}

#[test]
fn test_filter_include() {
    let (ts1, ts2) = (1_000, 2_000);
    let mut buf = filter_input(ts1, ts2);
    let transform = FilterTransform::new(Some(HashSet::from([METRIC_A])), None).unwrap();
    transform.apply(&mut buf);
    assert_eq!(buf, vec![(METRIC_A, (ts1, 1)), (METRIC_A, (ts2, 1))]);
}

#[test]
fn test_filter_exclude() {
    let (ts1, ts2) = (1_000, 2_000);
    let mut buf = filter_input(ts1, ts2);
    let transform = FilterTransform::new(None, Some(HashSet::from([METRIC_A]))).unwrap();
    transform.apply(&mut buf);
    assert_eq!(buf, vec![(METRIC_B, (ts1, 2)), (METRIC_B, (ts2, 2))]);
}

#[test]
fn kwollect_offset_is_in_seconds() {
    assert_eq!(utc_offset_seconds(Some(2)), 7200);
    assert_eq!(utc_offset_seconds(Some(-5)), -18000);
    assert_eq!(utc_offset_seconds(None), 0);
}

fn pair(k: &str, v: &str) -> (String, String) {
    (k.to_string(), v.to_string())
}

#[test]
fn metric_name_prefix_and_suffix_are_added() {
    assert_eq!(metric_full_name("alumet_", "cpu_time", "_total"), "alumet_cpu_time_total");
    assert_eq!(metric_full_name("", "x", ""), "x");
}

#[test]
fn datapoint_labels_are_sorted_by_key() {
    let p = PointLabels {
        resource_kind: "cpu_package".to_string(),
        resource_id: Some("0".to_string()),
        consumer_kind: "local_machine".to_string(),
        consumer_id: None,
        attributes: vec![pair("zone", ""), pair("domain", "package")],
    };
    assert_eq!(
        datapoint_labels(&p, false),
        vec![
            pair("resource_consumer_id", "empty"),
            pair("resource_consumer_kind", "local_machine"),
            pair("resource_id", "0"),
            pair("resource_kind", "cpu_package"),
        ]
    );
    assert_eq!(
        datapoint_labels(&p, true),
        vec![
            pair("domain", "package"),
            pair("resource_consumer_id", "empty"),
            pair("resource_consumer_kind", "local_machine"),
            pair("resource_id", "0"),
            pair("resource_kind", "cpu_package"),
            pair("zone", "empty"),
        ]
    );
}

#[test]
fn datapoints_are_grouped_under_their_metric() {
    let names: Vec<String> = ["a", "b", "a", "c", "b"].iter().map(|s| s.to_string()).collect();
    assert_eq!(
        group_by_metric(&names),
        vec![
            ("a".to_string(), vec![0, 2]),
            ("b".to_string(), vec![1, 4]),
            ("c".to_string(), vec![3]),
        ]
    );
    assert!(group_by_metric(&[]).is_empty());
}

/// The timestamp as chrono shows a date and time with an offset.
fn shown(t: ParsedTimestamp) -> String {
    let offset = chrono::FixedOffset::east_opt(t.utc_offset).unwrap();
    chrono::DateTime::from_timestamp(t.unix_seconds, t.nanos)
        .unwrap()
        .with_timezone(&offset)
        .to_string()
}

#[test]
fn test_parse_timestamp() {
    // Test nanoseconds
    let timestamp_ns = "2025-09-04T12:34:56.123456789+02:00";
    let parsed_ns = parse_timestamp(timestamp_ns).unwrap();
    assert_eq!(shown(parsed_ns), "2025-09-04 12:34:56.123456789 +02:00");

    // Test microseconds
    let timestamp_us = "2025-09-04T12:34:56.123456+02:00";
    let parsed_us = parse_timestamp(timestamp_us).unwrap();
    assert_eq!(shown(parsed_us), "2025-09-04 12:34:56.123456 +02:00");

    // Test milliseconds
    let timestamp_ms = "2025-09-04T12:34:56.123+02:00";
    let parsed_ms = parse_timestamp(timestamp_ms).unwrap();
    assert_eq!(shown(parsed_ms), "2025-09-04 12:34:56.123 +02:00");

    // Test no fractions
    let timestamp_no_fraction = "2025-09-04T12:34:56+02:00";
    let parsed_no_fraction = parse_timestamp(timestamp_no_fraction).unwrap();
    assert_eq!(shown(parsed_no_fraction), "2025-09-04 12:34:56 +02:00");

    // Test invalid format
    let timestamp_invalid = "2025-09-04 12:34:56";
    let result = parse_timestamp(timestamp_invalid);
    assert!(result.is_err());
}

#[test]
fn timestamps_are_read_as_instants() {
    let t = parse_timestamp("1970-01-01T01:00:01.500+01:00").unwrap();
    assert_eq!(t, ParsedTimestamp { unix_seconds: 1, nanos: 500_000_000, utc_offset: 3600 });
    let e = parse_timestamp("yesterday").unwrap_err();
    assert_eq!(e.message(), "Failed to parse timestamp 'yesterday': invalid format");
}

#[test]
fn keeping_and_dropping_the_same_metrics_split_the_measurements() {
    let input = filter_input(1, 2);
    let mut kept = input.clone();
    let mut dropped = input.clone();
    FilterTransform::new(Some(HashSet::from([METRIC_B])), None).unwrap().apply(&mut kept);
    FilterTransform::new(None, Some(HashSet::from([METRIC_B]))).unwrap().apply(&mut dropped);
    let mut together = [kept, dropped].concat();
    let mut all = input;
    together.sort();
    all.sort();
    assert_eq!(together, all);
}

fn registry() -> Vec<(String, u64)> {
    vec![("metric_a".to_string(), 0), ("metric_b".to_string(), 1)]
}

#[test]
fn filter_configuration_is_resolved_against_the_metrics() {
    assert_eq!(check_config(&Some(vec![]), &Some(vec![])), Err(FilterSetupError::BothDefined));
    assert_eq!(check_config(&Some(vec![]), &None), Ok(()));
    assert_eq!(
        FilterSetupError::BothDefined.message(),
        "filter transform cannot have both included and excluded configuration parameters defined"
    );

    let names = vec!["metric_b".to_string(), "metric_a".to_string(), "metric_b".to_string()];
    assert_eq!(metric_ids(&names, &registry()), Ok(HashSet::from([0, 1])));
    let names = vec!["metric_a".to_string(), "nope".to_string(), "other".to_string()];
    assert_eq!(metric_ids(&names, &registry()), Err("nope".to_string()));

    assert!(setup_transform(&None, &None, &registry()).unwrap().is_none());
    let t = setup_transform(&None, &Some(vec!["metric_a".to_string()]), &registry()).unwrap().unwrap();
    let mut buf = filter_input(1, 2);
    t.apply(&mut buf);
    assert_eq!(buf, vec![(METRIC_B, (1, 2)), (METRIC_B, (2, 2))]);
    let e = setup_transform(&Some(vec!["x".to_string()]), &None, &registry()).err().unwrap();
    assert_eq!(e, FilterSetupError::MetricNotFound("x".to_string()));
    assert_eq!(e.message(), "Metric not found : x");
    let both = setup_transform(&Some(vec![]), &Some(vec![]), &registry()).err().unwrap();
    assert_eq!(both, FilterSetupError::Filter(FilterError::BothSet));
}

#[test]
fn prometheus_names_and_labels() {
    assert_eq!(metric_export_name("alumet_", "cpu-time", "%"), "alumet_cpu_time_");
    assert_eq!(metric_export_name("", "1st", ""), "_st");
    let p = PointLabels {
        resource_kind: "cpu_package".to_string(),
        resource_id: None,
        consumer_kind: "process".to_string(),
        consumer_id: Some("42".to_string()),
        attributes: vec![pair("zone.name", ""), pair("a", "b")],
    };
    assert_eq!(
        prometheus_labels(&p, true),
        vec![
            pair("a", "b"),
            pair("resource_consumer_id", "42"),
            pair("resource_consumer_kind", "process"),
            pair("resource_id", ""),
            pair("resource_kind", "cpu_package"),
            pair("zone_name", ""),
        ]
    );
    assert_eq!(prometheus_labels(&p, false).len(), 4);
    assert_eq!(registered_unit(""), Some("".to_string()));
    assert_eq!(registered_unit("watts"), None);
}

#[test]
fn lm_sensors_flush_pace() {
    assert_eq!(
        LmConfig::default(),
        LmConfig {
            poll_interval: 1_000_000_000,
            flush_interval: 5_000_000_000,
            enable_temperature: false,
            coretemp_package_only: false
        }
    );
    assert_eq!(check_start(&LmConfig::default()), Err(StartError::TemperatureDisabled));
    assert!(StartError::TemperatureDisabled.message().starts_with("For the moment only the temperature feature"));
    assert_eq!(check_start(&LmConfig { enable_temperature: true, ..LmConfig::default() }), Ok(()));
    assert_eq!(flush_rounds(5_000_000_000, 1_000_000_000), 5);
    assert_eq!(flush_rounds(1, 1_000), 1);
    // after k polls, k / n flushes happened and k % n polls wait for the next one
    let n = flush_rounds(3_500, 1_000);
    assert_eq!(n, 3);
    let (mut round, mut flushes) = (0u64, 0u64);
    for _ in 0..10 {
        let (next, flushed) = end_round(round, n);
        round = next;
        flushes += flushed as u64;
    }
    assert_eq!((round, flushes), (10 % 3, 10 / 3));
}

#[test]
fn emission_intensity_sources() {
    assert_eq!(intensity_source(Mode::WorldAvg, false, None), Ok(IntensitySource::WorldAverage));
    assert_eq!(intensity_source(Mode::IntensityOverride, true, None), Ok(IntensitySource::Override));
    assert_eq!(intensity_source(Mode::IntensityOverride, false, None), Err(IntensityError::MissingOverride));
    assert_eq!(
        intensity_source(Mode::Country, false, Some("FRA".to_string())),
        Ok(IntensitySource::Country("FRA".to_string()))
    );
    assert_eq!(intensity_source(Mode::Country, true, None), Err(IntensityError::MissingCountry));
    assert_eq!(intensity_source(Mode::Country, false, Some(String::new())), Err(IntensityError::EmptyCountryCode));
    assert_eq!(IntensityError::EmptyCountryCode.message(), "country.code is required when mode is 'country'");
}

fn local_point(attributes: Vec<(String, String)>) -> PointLabels {
    PointLabels {
        resource_kind: "local_machine".to_string(),
        resource_id: None,
        consumer_kind: "local_machine".to_string(),
        consumer_id: None,
        attributes,
    }
}

fn label_of<'a>(g: &'a ExportGauge, point: usize, key: &str) -> Option<&'a str> {
    g.points[point].labels.iter().find(|(k, _)| k == key).map(|(_, v)| v.as_str())
}

#[test]
fn group_multiple_datapoints_under_same_metric() {
    let names: Vec<String> = ["dummy", "dummy", "other"].iter().map(|s| s.to_string()).collect();
    let labels = vec![
        local_point(vec![pair("id", "point_1")]),
        local_point(vec![pair("id", "point_2")]),
        local_point(vec![]),
    ];
    let request = export_request("", "", &names, &labels, true).unwrap();
    assert_eq!(request.len(), 2);
    assert_eq!(request[0].name, "dummy");
    assert_eq!(request[0].points.len(), 2);
    assert_eq!(request[0].points[0].position, 0);
    assert_eq!(request[0].points[1].position, 1);
    assert_eq!(label_of(&request[0], 0, "id"), Some("point_1"));
    assert_eq!(label_of(&request[0], 1, "id"), Some("point_2"));
    assert_eq!(request[1].name, "other");
    assert_eq!(request[1].points.len(), 1);
    assert_eq!(request[1].points[0].position, 2);
}

#[test]
fn metric_name_prefix_and_suffix() {
    let names = vec!["dummy".to_string()];
    let labels = vec![local_point(vec![])];
    let request = export_request("pre_", "_suf", &names, &labels, false).unwrap();
    assert_eq!(request.len(), 1);
    assert_eq!(request[0].name, "pre_dummy_suf");
}

#[test]
fn measurement_attributes_forwarded_when_enabled() {
    let names = vec!["dummy".to_string()];
    let labels = vec![local_point(vec![pair("host", "node-01"), pair("env", "prod")])];
    let request = export_request("", "", &names, &labels, true).unwrap();
    assert_eq!(label_of(&request[0], 0, "host"), Some("node-01"));
    assert_eq!(label_of(&request[0], 0, "env"), Some("prod"));
    let without = export_request("", "", &names, &labels, false).unwrap();
    assert_eq!(label_of(&without[0], 0, "host"), None);
}

#[test]
fn empty_attribute_values_replaced_with_empty_string_literal() {
    let names = vec!["dummy".to_string()];
    let labels = vec![local_point(vec![pair("might_be_empty", "")])];
    let request = export_request("", "", &names, &labels, true).unwrap();
    for (k, v) in &request[0].points[0].labels {
        assert!(!v.is_empty(), "attribute '{}' has an empty string value, should be 'empty'", k);
    }
    assert_eq!(label_of(&request[0], 0, "might_be_empty"), Some("empty"));
    assert_eq!(
        request[0].points[0].labels,
        vec![
            pair("might_be_empty", "empty"),
            pair("resource_consumer_id", "empty"),
            pair("resource_consumer_kind", "local_machine"),
            pair("resource_id", "empty"),
            pair("resource_kind", "local_machine"),
        ]
    );
}

#[test]
fn empty_measurement_buffer_sends_no_request() {
    assert!(export_request("", "", &[], &[], false).is_none());
    assert!(export_request("pre_", "_suf", &[], &[], true).is_none());
}

#[test]
fn normalizing_a_unit_twice_changes_nothing_more() {
    for u in [
        "watt", "kilowatt", "watthour", "celsius", "percent", "%", "VA", "VAr", "amp", "ampere", "volt", "hertz",
        "lux", "bar", "deg", "m/s", "rpm", "cfm", "bytes", "packets", "W", "unknown", "",
    ] {
        let once = normalize_unit(u);
        assert_eq!(normalize_unit(&once), once);
    }
    assert_eq!(normalize_unit("bytes"), "By");
    assert_eq!(normalize_unit("packets"), "tot.");
}
