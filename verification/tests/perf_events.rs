use alumet_plugins::perf::native::{self, extended_config, pin};
use alumet_plugins::perf::pmu::{self, read_cpumask, read_type, split, CpuPackage, FileRead, PmuFiles, SysfsView};
use alumet_plugins::perf::raw::{self, raw_config};
use alumet_plugins::perf::spec::{self, sanitize, EventEncoding, EventEntry, Excludes, ParsedEvent, Scope, SpecError};
use perf_event_open_sys::bindings::{
    PERF_COUNT_HW_CACHE_LL, PERF_COUNT_HW_CACHE_OP_READ, PERF_COUNT_HW_CACHE_RESULT_MISS, PERF_COUNT_HW_INSTRUCTIONS,
    PERF_COUNT_HW_REF_CPU_CYCLES, PERF_COUNT_SW_CGROUP_SWITCHES, PERF_COUNT_SW_CONTEXT_SWITCHES, PERF_TYPE_HARDWARE, PERF_TYPE_HW_CACHE,
    PERF_TYPE_RAW, PERF_TYPE_SOFTWARE,
};

fn empty_view() -> SysfsView {
    SysfsView {
        pmus: vec![],
        online: FileRead::Content("0-3\n".to_owned()),
        packages: vec![],
    }
}

fn core_pmu(name: &str, type_: u32, cpus: &str) -> PmuFiles {
    PmuFiles {
        name: name.to_owned(),
        type_file: FileRead::Content(format!("{type_}\n")),
        cpumask_file: FileRead::NotFound,
        cpus_file: FileRead::Content(format!("{cpus}\n")),
    }
}

fn system_pmu(name: &str, type_: u32, cpumask: &str) -> PmuFiles {
    PmuFiles {
        name: name.to_owned(),
        type_file: FileRead::Content(format!("{type_}\n")),
        cpumask_file: FileRead::Content(format!("{cpumask}\n")),
        cpus_file: FileRead::NotFound,
    }
}

/// A hybrid machine: two core PMUs on one package, and a system-wide uncore PMU.
fn hybrid_view() -> SysfsView {
    SysfsView {
        pmus: vec![
            core_pmu("cpu_core", 4, "0-3"),
            core_pmu("cpu_atom", 10, "4-7"),
            system_pmu("uncore_imc_0", 22, "0"),
        ],
        online: FileRead::Content("0-7\n".to_owned()),
        packages: (0..8).map(|cpu| CpuPackage { cpu, package: Some(0) }).collect(),
    }
}

fn parse_all(view: &SysfsView, s: &str) -> Vec<ParsedEvent> {
    spec::parse(&EventEntry::Simple(s.to_owned()), view, None).unwrap()
}

fn parse_one(view: &SysfsView, s: &str) -> ParsedEvent {
    let mut evs = parse_all(view, s);
    assert_eq!(evs.len(), 1, "expected a single event for '{s}', got {}", evs.len());
    evs.pop().unwrap()
}

fn parse_first(s: &str) -> ParsedEvent {
    parse_all(&empty_view(), s).into_iter().next().expect("at least one event")
}

fn encoding(type_: u32, config: u64) -> EventEncoding {
    EventEncoding {
        type_,
        config,
        config1: 0,
        config2: 0,
    }
}

fn cache_config() -> u64 {
    (PERF_COUNT_HW_CACHE_LL as u64)
        | ((PERF_COUNT_HW_CACHE_OP_READ as u64) << 8)
        | ((PERF_COUNT_HW_CACHE_RESULT_MISS as u64) << 16)
}

fn assert_generic(enc: &EventEncoding, base: &EventEncoding) {
    assert_eq!(enc.type_, base.type_);
    assert_eq!(enc.config & 0xffff_ffff, base.config & 0xffff_ffff);
    assert_eq!(enc.config1, base.config1);
    assert_eq!(enc.config2, base.config2);
}

// ---------- native ----------

#[test]
fn hardware_software_and_cache_parse() {
    assert_eq!(native::parse("INSTRUCTIONS").unwrap().name, "INSTRUCTIONS");
    assert_eq!(native::parse("CONTEXT_SWITCHES").unwrap().name, "CONTEXT_SWITCHES");
    assert_eq!(native::parse("LL_READ_MISS").unwrap().name, "LL_READ_MISS");
}

#[test]
fn unknown_name_is_rejected() {
    assert!(native::parse("DEFINITELY_NOT_A_REAL_EVENT_XYZ").is_err());
}

#[test]
fn extended_config_packs_pmu_type_high() {
    assert_eq!(extended_config(0x1, 4), 0x4_0000_0001);
    assert_eq!(extended_config(0xc0, 10), 0xa_0000_00c0);
}

#[test]
fn software_cannot_be_pinned_to_a_pmu() {
    let base = native::parse("CONTEXT_SWITCHES").unwrap();
    let err = pin(&base, "cpu_core", 4).unwrap_err();
    let text = SpecError::Pin(err).message();
    assert!(text.contains("CPU-wide"), "got: {text}");
}

#[test]
fn hardware_pinned_to_pmu_uses_extended_type() {
    let base = native::parse("INSTRUCTIONS").unwrap();
    let e = pin(&base, "cpu_core", 4).unwrap();
    assert_eq!(e.type_, base.encoding.type_);
    assert_eq!(e.config, extended_config(base.encoding.config, 4));
}

#[test]
fn native_encodings_are_the_kernel_numbers() {
    assert_eq!(
        native::parse("INSTRUCTIONS").unwrap().encoding,
        encoding(PERF_TYPE_HARDWARE, PERF_COUNT_HW_INSTRUCTIONS as u64)
    );
    assert_eq!(
        native::parse("CONTEXT_SWITCHES").unwrap().encoding,
        encoding(PERF_TYPE_SOFTWARE, PERF_COUNT_SW_CONTEXT_SWITCHES as u64)
    );
    assert_eq!(
        native::parse("LL_READ_MISS").unwrap().encoding,
        encoding(PERF_TYPE_HW_CACHE, cache_config())
    );
}

// ---------- pmu ----------

#[test]
fn split_extracts_pmu_and_terms() {
    assert_eq!(split("uncore_imc_0/r0x1/"), Some(("uncore_imc_0".to_owned(), "r0x1".to_owned())));
    assert_eq!(split("cpu_core/INSTRUCTIONS"), Some(("cpu_core".to_owned(), "INSTRUCTIONS".to_owned())));
    assert_eq!(
        split("cpu/event=0x2e,umask=0x41/"),
        Some(("cpu".to_owned(), "event=0x2e,umask=0x41".to_owned()))
    );
}

#[test]
fn split_rejects_other_shapes() {
    assert_eq!(split("r3c"), None);
    assert_eq!(split("cpu_core/"), None);
    assert_eq!(split("/r3c/"), None);
    assert_eq!(split("a/b/c/"), None);
}

#[test]
fn read_type_matches_sysfs_for_an_available_pmu() {
    let view = hybrid_view();
    assert_eq!(read_type(&view, "cpu_core").unwrap(), 4);
    assert_eq!(read_type(&view, "uncore_imc_0").unwrap(), 22);
}

#[test]
fn read_type_rejects_unknown_pmu() {
    assert!(read_type(&empty_view(), "definitely_not_a_pmu_xyz").is_err());
}

#[test]
fn cpumask_absent_reads_as_none() {
    assert_eq!(read_cpumask(&empty_view(), "definitely_not_a_pmu_xyz").unwrap(), None);
}

#[test]
fn cpumask_present_reads_as_some() {
    let cpus = read_cpumask(&hybrid_view(), "uncore_imc_0").unwrap().expect("cpumask file exists");
    assert!(!cpus.is_empty());
    assert_eq!(cpus, vec![0]);
}

#[test]
fn cpu_lists_are_read() {
    assert_eq!(pmu::parse_cpu_list("0-3,8,10-11\n"), Some(vec![0, 1, 2, 3, 8, 10, 11]));
    assert_eq!(pmu::parse_cpu_list(""), Some(vec![]));
    assert_eq!(pmu::parse_cpu_list("3-1"), None);
    assert_eq!(pmu::parse_cpu_list("x"), None);
}

#[test]
fn core_pmus_are_listed_by_name() {
    let pmus = pmu::core_pmus(&hybrid_view());
    let names: Vec<&str> = pmus.iter().map(|p| p.name.as_str()).collect();
    assert_eq!(names, vec!["cpu_atom", "cpu_core"]);
    assert_eq!(pmus[1].type_, 4);
    assert_eq!(pmus[1].cpus, vec![0, 1, 2, 3]);
    assert_eq!(pmus[1].package, Some(0));
}

#[test]
fn single_package_needs_one_known_package() {
    assert_eq!(pmu::single_package(&[Some(1), Some(1)]), Some(1));
    assert_eq!(pmu::single_package(&[Some(0), Some(1)]), None);
    assert_eq!(pmu::single_package(&[Some(0), None]), None);
}

// ---------- raw ----------

#[test]
fn raw_config_parses_hex() {
    assert_eq!(raw_config("r3c"), Some(0x3c));
    assert_eq!(raw_config("r0x412e"), Some(0x412e));
    assert_eq!(raw_config("r0X412E"), Some(0x412e));
    assert_eq!(raw_config("r0"), Some(0));
}

#[test]
fn raw_config_rejects_non_raw() {
    assert_eq!(raw_config("INSTRUCTIONS"), None);
    assert_eq!(raw_config("r"), None);
    assert_eq!(raw_config("r0x"), None);
    assert_eq!(raw_config("rZZ"), None);
    assert_eq!(raw_config("r3c_extra"), None);
}

#[test]
fn plain_raw_encodes_to_perf_type_raw() {
    let e = raw::parse(&empty_view(), "r0x412e").expect("recognised as raw").expect("valid");
    assert_eq!(e.name, "r0x412e");
    assert_eq!(e.encoding, encoding(PERF_TYPE_RAW, 0x412e));
}

#[test]
fn non_raw_name_is_not_recognised() {
    let view = empty_view();
    assert!(raw::parse(&view, "INSTRUCTIONS").is_none());
    assert!(raw::parse(&view, "cpu/config=0x3c/").is_none());
    assert!(raw::parse(&view, "cpu_core/INSTRUCTIONS").is_none());
}

#[test]
fn pmu_raw_uses_the_pmu_type() {
    let view = hybrid_view();
    let name = "uncore_imc_0/r0x1/";
    let e = raw::parse(&view, name).expect("recognised as raw").expect("valid");
    assert_eq!(e.encoding.type_, 22);
    assert_eq!(e.encoding.config, 0x1);
    assert_eq!(e.name, sanitize(name));
}

#[test]
fn pmu_raw_with_unknown_pmu_errors() {
    let result = raw::parse(&empty_view(), "definitely_not_a_pmu_xyz/r0x1").expect("recognised as pmu/rN");
    assert!(result.is_err());
}

// ---------- spec ----------

#[test]
fn native_hardware() {
    let base = encoding(PERF_TYPE_HARDWARE, PERF_COUNT_HW_REF_CPU_CYCLES as u64);
    let evs = parse_all(&empty_view(), "REF_CPU_CYCLES");
    assert!(!evs.is_empty());
    for e in &evs {
        assert_eq!(e.metric_suffix, "ref_cpu_cycles");
        assert!(matches!(e.scope, Scope::TaskAttached { .. }));
        assert_generic(&e.event.encoding(), &base);
    }
}

#[test]
fn native_software() {
    let e = parse_one(&empty_view(), "CONTEXT_SWITCHES");
    assert_eq!(e.metric_suffix, "context_switches");
    assert_eq!(e.event.encoding(), encoding(PERF_TYPE_SOFTWARE, PERF_COUNT_SW_CONTEXT_SWITCHES as u64));
    assert_eq!(e.scope, Scope::TaskAttached { binding: None });
}

#[test]
fn native_cache() {
    let base = encoding(PERF_TYPE_HW_CACHE, cache_config());
    let evs = parse_all(&empty_view(), "LL_READ_MISS");
    assert!(!evs.is_empty());
    for e in &evs {
        assert_eq!(e.metric_suffix, "ll_read_miss");
        assert_generic(&e.event.encoding(), &base);
    }
}

#[test]
fn no_modifier_is_user_space_only() {
    let e = parse_first("INSTRUCTIONS");
    assert_eq!(e.metric_suffix, "instructions");
    assert_eq!(
        e.event.excludes(),
        Excludes {
            user: false,
            kernel: true,
            hv: true,
            host: false,
            guest: false,
            idle: false
        }
    );
}

#[test]
fn user_modifier_matches_default() {
    let x = parse_first("INSTRUCTIONS#u").event.excludes();
    assert!(!x.user && x.kernel && x.hv);
}

#[test]
fn user_and_kernel_modifier() {
    let x = parse_first("INSTRUCTIONS#u:k").event.excludes();
    assert!(!x.user);
    assert!(!x.kernel);
    assert!(x.hv);
}

#[test]
fn modifiers_must_be_colon_separated() {
    assert!(spec::parse(&EventEntry::Simple("INSTRUCTIONS#uk".to_owned()), &empty_view(), None).is_err());
    let x = parse_first("INSTRUCTIONS#u:k").event.excludes();
    assert!(!x.user && !x.kernel && x.hv);
}

#[test]
fn kernel_only_modifier() {
    let x = parse_first("INSTRUCTIONS#k").event.excludes();
    assert!(x.user);
    assert!(!x.kernel);
    assert!(x.hv);
}

#[test]
fn host_and_idle_modifiers() {
    let x = parse_first("INSTRUCTIONS#H:I").event.excludes();
    assert!(x.guest);
    assert!(!x.host);
    assert!(x.idle);
}

#[test]
fn unknown_modifier_is_rejected() {
    let err = spec::parse(&EventEntry::Simple("INSTRUCTIONS#z".to_owned()), &empty_view(), None).unwrap_err();
    let text = err.message();
    assert!(text.contains("unknown modifier"), "got: {text}");
}

#[test]
fn hash_is_the_modifier_delimiter() {
    let base = encoding(PERF_TYPE_HARDWARE, PERF_COUNT_HW_INSTRUCTIONS as u64);
    let e = parse_first("INSTRUCTIONS#u");
    assert_eq!(e.metric_suffix, "instructions");
    assert_generic(&e.event.encoding(), &base);
    assert!(!e.event.excludes().user);
}

#[test]
fn rename_overrides_metric_name() {
    let e = spec::parse(
        &EventEntry::Detailed {
            event: "LL_READ_MISS".to_owned(),
            rename: Some("my llc miss".to_owned()),
        },
        &empty_view(),
        None,
    )
    .unwrap();
    assert!(!e.is_empty());
    for parsed in &e {
        assert_eq!(parsed.metric_suffix, "my_llc_miss");
    }
}

#[test]
fn events_without_a_pmu_are_task_attached() {
    assert!(
        parse_all(&empty_view(), "INSTRUCTIONS")
            .iter()
            .all(|e| matches!(e.scope, Scope::TaskAttached { .. }))
    );
    assert_eq!(parse_one(&empty_view(), "r0x412e").scope, Scope::TaskAttached { binding: None });
}

#[test]
fn a_bare_generic_event_fans_out_on_a_hybrid_cpu() {
    let base = encoding(PERF_TYPE_HARDWARE, PERF_COUNT_HW_INSTRUCTIONS as u64);
    let evs = parse_all(&hybrid_view(), "INSTRUCTIONS");
    let pmus: Vec<&str> = evs
        .iter()
        .map(|e| match &e.scope {
            Scope::TaskAttached { binding: Some(b) } => b.pmu.as_str(),
            other => panic!("expected a bound task-attached event, got {other:?}"),
        })
        .collect();
    assert!(pmus.contains(&"cpu_core") && pmus.contains(&"cpu_atom"), "got {pmus:?}");
    for e in &evs {
        assert_eq!(e.metric_suffix, "instructions");
        assert_generic(&e.event.encoding(), &base);
        assert_ne!(e.event.encoding().config >> 32, 0);
    }
}

#[test]
fn distinct_core_pmus_get_distinct_group_keys() {
    let view = hybrid_view();
    let core = parse_one(&view, "cpu_core/r0x1").event.pmu_group_key();
    let atom = parse_one(&view, "cpu_atom/r0x1").event.pmu_group_key();
    assert_ne!(core, atom);
}

#[test]
fn a_system_wide_pmu_event_is_scoped_system_wide() {
    let e = parse_one(&hybrid_view(), "uncore_imc_0/r0x1");
    assert_eq!(
        e.scope,
        Scope::SystemWide {
            pmu: "uncore_imc_0".to_owned(),
            cpus: vec![0]
        }
    );
}

#[test]
fn raw_hex_event() {
    let e = parse_one(&empty_view(), "r0x412e#u:k");
    assert_eq!(e.metric_suffix, "r0x412e");
    assert_eq!(e.event.encoding(), encoding(PERF_TYPE_RAW, 0x412e));
    assert!(!e.event.excludes().kernel);
}

#[test]
fn pmu_term_rejected_for_now() {
    let err = spec::parse(&EventEntry::Simple("cpu/event=0x2e,umask=0x41/".to_owned()), &empty_view(), None)
        .unwrap_err();
    let text = err.message();
    assert!(text.contains("future release"), "got: {text}");
}

#[test]
fn unknown_name_mentions_libpfm() {
    let err = spec::parse(
        &EventEntry::Simple("DEFINITELY_NOT_A_REAL_EVENT_XYZ".to_owned()),
        &empty_view(),
        None,
    )
    .unwrap_err();
    let text = err.message();
    assert!(text.contains("libpfm"), "got: {text}");
}

#[test]
fn libpfm_event_resolves_when_available() {
    let encoded = spec::NamedPerfEvent {
        name: "PERF_COUNT_HW_INSTRUCTIONS".to_owned(),
        description: "instructions".to_owned(),
        encoding: encoding(PERF_TYPE_HARDWARE, PERF_COUNT_HW_INSTRUCTIONS as u64),
    };
    let mut evs = spec::parse(
        &EventEntry::Simple("PERF_COUNT_HW_INSTRUCTIONS".to_owned()),
        &empty_view(),
        Some(encoded),
    )
    .unwrap();
    assert_eq!(evs.len(), 1);
    let e = evs.pop().unwrap();
    assert_eq!(e.metric_suffix, "perf_count_hw_instructions");
    assert_eq!(e.event.encoding(), encoding(PERF_TYPE_HARDWARE, PERF_COUNT_HW_INSTRUCTIONS as u64));
}

#[test]
fn empty_is_rejected() {
    assert!(spec::parse(&EventEntry::Simple(":u".to_owned()), &empty_view(), None).is_err());
    assert!(spec::parse(&EventEntry::Simple("#u".to_owned()), &empty_view(), None).is_err());
}

#[test]
fn modifiers_are_refused_on_system_wide_events() {
    let err = spec::parse(&EventEntry::Simple("uncore_imc_0/r0x1#u".to_owned()), &hybrid_view(), None)
        .unwrap_err();
    assert!(err.message().contains("system-wide"), "got: {}", err.message());
}

#[test]
fn package_ids_are_read_from_topology_files() {
    assert_eq!(pmu::parse_package_id("1\n"), Some(1));
    assert_eq!(pmu::parse_package_id("  0 "), Some(0));
    assert_eq!(pmu::parse_package_id("x"), None);
    assert_eq!(pmu::parse_package_id("4294967296"), None);
}

#[test]
fn cgroup_switches_counts_cgroup_switches() {
    let e = native::parse("CGROUP_SWITCHES").unwrap();
    assert_eq!(e.description, "Context switches to a task in a different cgroup.");
    assert_eq!(e.encoding, encoding(PERF_TYPE_SOFTWARE, PERF_COUNT_SW_CGROUP_SWITCHES as u64));
}

#[test]
fn sanitized_names_are_safe_and_stable() {
    for name in ["my llc miss", "INSTRUCTIONS", "cpu_core/r0x1/", "__a--b__", "", "___"] {
        let once = sanitize(name);
        assert!(once.chars().all(|c| c.is_ascii_lowercase() || c.is_ascii_digit() || c == '_'));
        assert!(!once.starts_with('_') && !once.ends_with('_'));
        assert!(once.chars().count() <= name.chars().count());
        assert_eq!(sanitize(&once), once);
    }
    assert_eq!(sanitize("my llc miss"), "my_llc_miss");
    assert_eq!(sanitize("cpu_core/r0x1/"), "cpu_core_r0x1");
    assert_eq!(sanitize("__a--b__"), "a__b");
}
