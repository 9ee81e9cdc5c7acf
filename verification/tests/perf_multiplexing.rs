use alumet_plugins::perf::multiplexing::{correct_interval, Accuracy, Interval, Scaling, Snapshot};

const SEC: u128 = 1_000_000_000;

fn snap(enabled: u128, running: u128, values: &[u64]) -> Snapshot {
    Snapshot {
        time_enabled: enabled,
        time_running: running,
        values: values.to_vec(),
    }
}

/// When the group is enabled, everything is zero, so the first poll is an interval like any
/// other and must be corrected too.
#[test]
fn first_poll_is_an_interval_like_any_other() {
    let mut corrected = vec![0];
    let interval = correct_interval(&snap(0, 0, &[0]), &snap(SEC, SEC / 4, &[1000]), true, &mut corrected);
    assert_eq!(
        interval,
        Interval::Multiplexed {
            running: SEC / 4,
            enabled: SEC
        }
    );
    assert_eq!(corrected, vec![4000]);
}

#[test]
fn exact_when_running_equals_enabled() {
    let mut corrected = vec![0];
    let interval = correct_interval(&snap(0, 0, &[0]), &snap(SEC, SEC, &[1000]), true, &mut corrected);
    assert_eq!(interval, Interval::Exact);
    assert_eq!(corrected, vec![1000]);
}

#[test]
fn idle_entity_changes_nothing() {
    let mut corrected = vec![1000];
    let prev = snap(SEC, SEC, &[1000]);
    let interval = correct_interval(&prev, &prev.clone(), true, &mut corrected);
    assert_eq!(interval, Interval::Idle);
    assert_eq!(corrected, vec![1000]);
}

#[test]
fn starved_group_does_not_divide_by_zero() {
    let mut corrected = vec![1000];
    let prev = snap(SEC, SEC / 4, &[1000]);
    let now = snap(2 * SEC, SEC / 4, &[1000]);
    let interval = correct_interval(&prev, &now, true, &mut corrected);
    assert_eq!(interval, Interval::Starved);
    assert_eq!(corrected, vec![1000], "the total must stay flat, not be made up");
}

#[test]
fn without_auto_scale_the_raw_delta_is_kept() {
    let mut corrected = vec![0];
    let interval = correct_interval(&snap(0, 0, &[0]), &snap(SEC, SEC / 4, &[1000]), false, &mut corrected);
    assert_eq!(
        interval,
        Interval::Multiplexed {
            running: SEC / 4,
            enabled: SEC
        },
        "multiplexing is still reported, it is just not compensated"
    );
    assert_eq!(corrected, vec![1000]);
}

#[test]
fn every_counter_of_the_group_is_corrected() {
    let mut corrected = vec![0, 0, 0];
    correct_interval(&snap(0, 0, &[0, 0, 0]), &snap(SEC, SEC / 2, &[10, 20, 30]), true, &mut corrected);
    assert_eq!(corrected, vec![20, 40, 60]);
}

#[test]
fn totals_accumulate_and_never_decrease() {
    let mut corrected = vec![0];
    let mut totals = Vec::new();

    let s1 = snap(SEC, SEC / 4, &[1000]);
    correct_interval(&snap(0, 0, &[0]), &s1, true, &mut corrected);
    totals.push(corrected[0]);

    let s2 = snap(2 * SEC, SEC / 2, &[1500]);
    correct_interval(&s1, &s2, true, &mut corrected);
    totals.push(corrected[0]);

    let s3 = snap(3 * SEC, SEC / 2, &[1500]);
    correct_interval(&s2, &s3, true, &mut corrected);
    totals.push(corrected[0]);

    let s4 = snap(4 * SEC, SEC, &[1700]);
    correct_interval(&s3, &s4, true, &mut corrected);
    totals.push(corrected[0]);

    assert_eq!(totals, vec![4000, 6000, 6000, 6400]);
    assert!(totals.windows(2).all(|w| w[1] >= w[0]), "a counter must never decrease");
}

#[test]
fn account_reports_the_interval_and_degrades_accuracy() {
    let mut scaling = Scaling::new(1);

    assert_eq!(scaling.account(snap(SEC, SEC, &[10]), true), Interval::Exact);
    assert_eq!(scaling.account(snap(2 * SEC, SEC, &[10]), true), Interval::Starved);
    assert_eq!(scaling.account(snap(3 * SEC, SEC, &[10]), true), Interval::Starved);
    assert_eq!(
        scaling.accuracy(),
        Accuracy::Underestimated,
        "a starved interval misses data, so the total is underestimated"
    );
}

#[test]
fn accuracy_degrades_to_the_worst_interval() {
    let mut scaling = Scaling::new(1);
    assert_eq!(scaling.accuracy(), Accuracy::Exact);

    scaling.account(snap(SEC, SEC, &[10]), true);
    assert_eq!(scaling.accuracy(), Accuracy::Exact);

    scaling.account(snap(2 * SEC, SEC + SEC / 2, &[20]), true);
    assert_eq!(scaling.accuracy(), Accuracy::Extrapolated);

    scaling.account(snap(3 * SEC, SEC + SEC / 2, &[20]), true);
    assert_eq!(scaling.accuracy(), Accuracy::Underestimated);

    scaling.account(snap(4 * SEC, 2 * SEC + SEC / 2, &[30]), true);
    assert_eq!(scaling.accuracy(), Accuracy::Underestimated, "accuracy never improves");
}

#[test]
fn accuracy_is_underestimated_without_auto_scale() {
    let mut scaling = Scaling::new(1);
    scaling.account(snap(SEC, SEC / 2, &[10]), false);
    assert_eq!(scaling.accuracy(), Accuracy::Underestimated);
}

#[test]
fn scaling_keeps_the_corrected_totals() {
    let mut scaling = Scaling::new(2);
    assert_eq!(scaling.corrected(), &[0, 0]);
    scaling.account(snap(SEC, SEC / 2, &[10, 5]), true);
    assert_eq!(scaling.corrected(), &[20, 10]);
    scaling.account(snap(2 * SEC, SEC, &[20, 5]), true);
    assert_eq!(scaling.corrected(), &[40, 10]);
}

#[test]
fn accuracy_names() {
    assert_eq!(Accuracy::Exact.as_str(), "exact");
    assert_eq!(Accuracy::Extrapolated.worst_of(Accuracy::Underestimated), Accuracy::Underestimated);
    assert_eq!(Accuracy::Exact.worst_of(Accuracy::Extrapolated), Accuracy::Extrapolated);
}

#[test]
fn reading_the_same_snapshot_again_is_idle() {
    let mut scaling = Scaling::new(2);
    scaling.account(snap(SEC, SEC / 2, &[10, 5]), true);
    let totals = scaling.corrected().to_vec();
    let accuracy = scaling.accuracy();
    assert_eq!(scaling.account(snap(SEC, SEC / 2, &[10, 5]), true), Interval::Idle);
    assert_eq!(scaling.corrected(), totals.as_slice());
    assert_eq!(scaling.accuracy(), accuracy);
    assert_eq!(scaling.account(snap(SEC, SEC / 2, &[10, 5]), false), Interval::Idle);
    assert_eq!(scaling.corrected(), &[20, 10]);
    assert_eq!(scaling.accuracy(), Accuracy::Extrapolated);
}
