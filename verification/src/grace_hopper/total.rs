//! Per-kind totals of sensor values.

use vstd::prelude::*;
use crate::grace_hopper::hwmon::SensorTagKind;

verus! {

/// Position of a sensor tag in the totals.
pub open spec fn tag_index(k: SensorTagKind) -> int {
    match k {
        SensorTagKind::Grace => 0,
        SensorTagKind::Cpu => 1,
        SensorTagKind::SysIo => 2,
        SensorTagKind::Module => 3,
        SensorTagKind::Dram => 4,
    }
}

/// The sensor tag at a position of the totals.
pub open spec fn tag_at(i: int) -> SensorTagKind {
    if i == 0 {
        SensorTagKind::Grace
    } else if i == 1 {
        SensorTagKind::Cpu
    } else if i == 2 {
        SensorTagKind::SysIo
    } else if i == 3 {
        SensorTagKind::Module
    } else {
        SensorTagKind::Dram
    }
}

fn kind_at(i: usize) -> (k: SensorTagKind)
    requires
        i < 5,
    ensures
        k == tag_at(i as int),
        tag_index(k) == i,
{
    if i == 0 {
        SensorTagKind::Grace
    } else if i == 1 {
        SensorTagKind::Cpu
    } else if i == 2 {
        SensorTagKind::SysIo
    } else if i == 3 {
        SensorTagKind::Module
    } else {
        SensorTagKind::Dram
    }
}

/// The sum of the values pushed for each sensor tag, if any was pushed.
#[derive(Debug, Clone, Copy, PartialEq, Eq, Structural)]
pub struct PerKindTotals {
    grace: Option<u64>,
    cpu: Option<u64>,
    sysio: Option<u64>,
    module: Option<u64>,
    dram: Option<u64>,
}

impl PerKindTotals {
    /// The total of the tag `k`, if any value was pushed for it.
    pub closed spec fn total_of(self, k: SensorTagKind) -> Option<u64> {
        match k {
            SensorTagKind::Grace => self.grace,
            SensorTagKind::Cpu => self.cpu,
            SensorTagKind::SysIo => self.sysio,
            SensorTagKind::Module => self.module,
            SensorTagKind::Dram => self.dram,
        }
    }

    /// No total yet.
    pub fn new() -> (t: Self)
        ensures
            forall|k: SensorTagKind| #[trigger] t.total_of(k) is None,
    {
        PerKindTotals { grace: None, cpu: None, sysio: None, module: None, dram: None }
    }

    /// Adds `value` to the total of `kind`.
    pub fn push(&mut self, kind: SensorTagKind, value: u64)
        requires
            old(self).total_of(kind) matches Some(t) ==> t + value <= u64::MAX,
        ensures
            final(self).total_of(kind) == Some(
                match old(self).total_of(kind) {
                    Some(t) => (t + value) as u64,
                    None => value,
                },
            ),
            forall|k: SensorTagKind| k != kind ==> #[trigger] final(self).total_of(k) == old(self).total_of(k),
    {
        let total = match kind {
            SensorTagKind::Grace => &mut self.grace,
            SensorTagKind::Cpu => &mut self.cpu,
            SensorTagKind::SysIo => &mut self.sysio,
            SensorTagKind::Module => &mut self.module,
            SensorTagKind::Dram => &mut self.dram,
        };
        *total = match *total {
            Some(t) => Some(t + value),
            None => Some(value),
        };
    }

    /// The total of `kind`, if any value was pushed for it.
    pub fn get(&self, kind: SensorTagKind) -> (r: Option<u64>)
        ensures
            r == self.total_of(kind),
    {
        match kind {
            SensorTagKind::Grace => self.grace,
            SensorTagKind::Cpu => self.cpu,
            SensorTagKind::SysIo => self.sysio,
            SensorTagKind::Module => self.module,
            SensorTagKind::Dram => self.dram,
        }
    }

    /// The totals that were pushed, in tag order.
    pub fn iter(&self) -> (r: Vec<(SensorTagKind, u64)>)
        ensures
            r@ == totals_in_order(*self, 0),
    {
        let mut out: Vec<(SensorTagKind, u64)> = Vec::new();
        let mut i: usize = 5;
        while i > 0
            invariant
                0 <= i <= 5,
                out@ == totals_in_order(*self, i as int),
            decreases i,
        {
            i = i - 1;
            let k = kind_at(i);
            match self.get(k) {
                Some(v) => {
                    out.insert(0, (k, v));
                    assert(out@ =~= seq![(k, v)] + totals_in_order(*self, i + 1));
                },
                None => {},
            }
        }
        out
    }
}

/// The totals of the tags at positions `i..5`, in order, for the tags that have one.
pub open spec fn totals_in_order(t: PerKindTotals, i: int) -> Seq<(SensorTagKind, u64)>
    decreases 5 - i,
{
    if i >= 5 || i < 0 {
        Seq::empty()
    } else {
        match t.total_of(tag_at(i)) {
            Some(v) => seq![(tag_at(i), v)] + totals_in_order(t, i + 1),
            None => totals_in_order(t, i + 1),
        }
    }
}

} // verus!
