//! Quarch power modules: choice of the hardware averaging for a poll interval, and the metric
//! of the measured power.

use vstd::prelude::*;
use crate::units::{definition, metric_view, MetricSpec, PrefixedUnit, Unit, UnitPrefix};

verus! {

/// Number of rows of the averaging table.
pub const AVERAGING_ROWS: usize = 11;

/// Row `i` of the averaging table of the Quarch documentation: a number of samples and the
/// hardware window that it covers, in microseconds. The windows grow with the rows.
pub open spec fn averaging(i: int) -> (u32, u64) {
    if i == 0 {
        (32, 130)
    } else if i == 1 {
        (64, 250)
    } else if i == 2 {
        (128, 500)
    } else if i == 3 {
        (256, 1_000)
    } else if i == 4 {
        (512, 2_000)
    } else if i == 5 {
        (1024, 4_100)
    } else if i == 6 {
        (2048, 8_200)
    } else if i == 7 {
        (4096, 16_400)
    } else if i == 8 {
        (8192, 32_800)
    } else if i == 9 {
        (16384, 65_500)
    } else {
        (32768, 131_000)
    }
}

fn averaging_row(i: usize) -> (r: (u32, u64))
    requires
        i < AVERAGING_ROWS,
    ensures
        r == averaging(i as int),
{
    if i == 0 {
        (32, 130)
    } else if i == 1 {
        (64, 250)
    } else if i == 2 {
        (128, 500)
    } else if i == 3 {
        (256, 1_000)
    } else if i == 4 {
        (512, 2_000)
    } else if i == 5 {
        (1024, 4_100)
    } else if i == 6 {
        (2048, 8_200)
    } else if i == 7 {
        (4096, 16_400)
    } else if i == 8 {
        (8192, 32_800)
    } else if i == 9 {
        (16384, 65_500)
    } else {
        (32768, 131_000)
    }
}

/// Whether the window of row `i` covers a poll interval of `poll_nanos` nanoseconds.
pub open spec fn covers(i: int, poll_nanos: u128) -> bool {
    averaging(i).1 * 1000 >= poll_nanos
}

/// The averaging chosen for a poll interval of `poll_nanos` nanoseconds among the rows from
/// `i` on: the first whose window covers the interval, or the last row.
pub open spec fn choice_from(poll_nanos: u128, i: int) -> (u32, u64)
    decreases AVERAGING_ROWS - i,
{
    if i >= AVERAGING_ROWS - 1 {
        averaging(AVERAGING_ROWS - 1)
    } else if covers(i, poll_nanos) {
        averaging(i)
    } else {
        choice_from(poll_nanos, i + 1)
    }
}

/// Chooses the averaging for a poll interval of `poll_nanos` nanoseconds: the first row of the
/// table whose window is at least the interval, or the last row when none is. Returns the
/// number of samples and the window in microseconds.
pub fn poll_to_sample(poll_nanos: u128) -> (r: (u32, u64))
    ensures
        r == choice_from(poll_nanos, 0),
{
    let mut i: usize = 0;
    while i < AVERAGING_ROWS - 1
        invariant
            0 <= i <= AVERAGING_ROWS - 1,
            choice_from(poll_nanos, 0) == choice_from(poll_nanos, i as int),
        decreases AVERAGING_ROWS - i,
    {
        let row = averaging_row(i);
        if (row.1 as u128) * 1000 >= poll_nanos {
            return row;
        }
        i = i + 1;
    }
    averaging_row(AVERAGING_ROWS - 1)
}

/// The metric of the power measured by a Quarch module.
pub fn disk_power_metric() -> (m: MetricSpec)
    ensures
        metric_view(m) == ("disk_power"@, PrefixedUnit { base_unit: Unit::Watt, prefix: UnitPrefix::Plain }, "Disk power consumption in Watts"@),
{
    definition("disk_power", Unit::Watt, UnitPrefix::Plain, "Disk power consumption in Watts")
}

} // verus!
