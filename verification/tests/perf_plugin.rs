use alumet_plugins::perf::plugin::{
    cgroup_source_name, events_in_scope, initial_state, observation_for, plan_metrics, process_source_name,
    source_to_stop, Consumer, Observed, TaskState,
};
use alumet_plugins::perf::pmu::{FileRead, PmuFiles, SysfsView};
use alumet_plugins::perf::spec::{self, EventEntry, ParsedEvent};

fn view() -> SysfsView {
    SysfsView {
        pmus: vec![PmuFiles {
            name: "uncore_imc_0".to_owned(),
            type_file: FileRead::Content("22\n".to_owned()),
            cpumask_file: FileRead::Content("0\n".to_owned()),
            cpus_file: FileRead::NotFound,
        }],
        online: FileRead::Content("0-3\n".to_owned()),
        packages: vec![],
    }
}

fn events(names: &[&str]) -> Vec<ParsedEvent> {
    let v = view();
    let mut all = Vec::new();
    for n in names {
        all.extend(spec::parse(&EventEntry::Simple(n.to_string()), &v, None).unwrap());
    }
    all
}

#[test]
fn a_metric_is_created_once_per_name() {
    let evs = events(&["INSTRUCTIONS", "uncore_imc_0/r0x1", "INSTRUCTIONS#k"]);
    let plan = plan_metrics(&evs);
    assert_eq!(plan.names, vec!["perf_instructions".to_owned(), "perf_uncore_imc_0_r0x1".to_owned()]);
    assert_eq!(plan.metric_of_event, vec![0, 1, 0]);
}

#[test]
fn events_are_split_by_scope() {
    let evs = events(&["INSTRUCTIONS", "uncore_imc_0/r0x1", "CONTEXT_SWITCHES"]);
    assert_eq!(events_in_scope(&evs, true), vec![1]);
    assert_eq!(events_in_scope(&evs, false), vec![0, 2]);
}

#[test]
fn sources_are_named_after_their_consumer() {
    assert_eq!(process_source_name(42), "source-pid[42]");
    assert_eq!(cgroup_source_name("/user.slice"), "source-cgroup[/user.slice]");
    assert_eq!(
        observation_for(&Consumer::ControlGroup {
            path: "/user.slice".to_owned()
        }),
        Some((
            Observed::Cgroup {
                path: "/sys/fs/cgroup/user.slice".to_owned()
            },
            "source-cgroup[/user.slice]".to_owned()
        ))
    );
    assert_eq!(
        observation_for(&Consumer::Process { pid: 7 }),
        Some((Observed::Process { pid: 7 }, "source-pid[7]".to_owned()))
    );
    assert_eq!(observation_for(&Consumer::Other), None);
    assert_eq!(source_to_stop(&Consumer::Process { pid: 7 }), Some("source-pid[7]".to_owned()));
    assert_eq!(source_to_stop(&Consumer::Other), None);
}

#[test]
fn sources_start_paused_on_request() {
    assert_eq!(initial_state(true), TaskState::Pause);
    assert_eq!(initial_state(false), TaskState::Run);
}
