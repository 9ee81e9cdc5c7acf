//! GPU performance monitoring (GPM) metrics: which Alumet metric each one feeds, and the
//! attributes that tell apart the GPM metrics that share a metric.

use vstd::prelude::*;
use crate::text::{dec_digits, dec_of, lemma_dec_of_digits, lemma_dec_of_injective, string_of};
use crate::units::Unit;

verus! {

/// The direction of a transfer.
#[derive(Debug, Clone, Copy, PartialEq, Eq, Structural)]
pub enum Direction {
    Transmitted,
    Received,
}

/// The kind of tensor operation that a tensor-utilization metric counts.
#[derive(Debug, Clone, Copy, PartialEq, Eq, Structural)]
pub enum TensorOperation {
    Any,
    Dfma,
    Hmma,
    Imma,
}

/// The number format that a precision-utilization metric counts.
#[derive(Debug, Clone, Copy, PartialEq, Eq, Structural)]
pub enum Precision {
    Integer,
    Fp64,
    Fp32,
    Fp16,
}

/// A GPM metric of NVML. Instances are numbered from 0: NVDEC and NVJPG have 8 of them, NVOFA 2
/// and NVLink 18.
#[derive(Debug, Clone, Copy, PartialEq, Eq, Structural)]
pub enum GpmMetric {
    /// Percentage of time any warp was active on a multiprocessor.
    GraphicsUtil,
    /// Percentage of time each multiprocessor had at least 1 warp assigned.
    SmUtil,
    /// Percentage of warps that were active vs theoretical maximum.
    SmOccupancy,
    /// Percentage of time the multiprocessors were doing tensor operations.
    TensorUtil(TensorOperation),
    /// Percentage of time the multiprocessors were doing operations in a precision.
    PrecisionUtil(Precision),
    /// Percentage of DRAM bandwidth used.
    DramBwUtil,
    /// PCIe bytes per second.
    Pcie(Direction),
    /// Utilization of an NVDEC instance.
    Nvdec(u8),
    /// Utilization of an NVJPG instance.
    Nvjpg(u8),
    /// Utilization of an NVOFA instance.
    Nvofa(u8),
    /// NVLink bytes per second across all links.
    NvlinkTotal(Direction),
    /// NVLink bytes per second on one link.
    NvlinkLink(u8, Direction),
}

/// The value of a measurement attribute.
#[derive(Debug, Clone, PartialEq, Eq)]
pub enum AttributeValue {
    Str(String),
    U64(u64),
}

/// What an attribute value holds.
pub enum AttributeModel {
    Str(Seq<char>),
    U64(nat),
}

impl View for AttributeValue {
    type V = AttributeModel;

    open spec fn view(&self) -> AttributeModel {
        match self {
            AttributeValue::Str(s) => AttributeModel::Str(s@),
            AttributeValue::U64(v) => AttributeModel::U64(*v as nat),
        }
    }
}

/// The Alumet metric that a GPM metric feeds: its name, unit and description.
pub struct MetricDefinition {
    pub name: &'static str,
    pub unit: Unit,
    pub description: &'static str,
}

/// The family of Alumet metric that each GPM metric belongs to; several GPM metrics share one.
pub enum GpmFamily {
    GraphicsUtil,
    SmUtil,
    SmOccupancy,
    TensorUtilization,
    PrecisionUtilization,
    DramUtilization,
    PcieThroughput,
    NvdecUtilization,
    NvjpgUtilization,
    NvofaUtilization,
    NvlinkThroughput,
}

/// The family of a GPM metric.
pub open spec fn family_of(m: GpmMetric) -> GpmFamily {
    match m {
        GpmMetric::GraphicsUtil => GpmFamily::GraphicsUtil,
        GpmMetric::SmUtil => GpmFamily::SmUtil,
        GpmMetric::SmOccupancy => GpmFamily::SmOccupancy,
        GpmMetric::TensorUtil(_) => GpmFamily::TensorUtilization,
        GpmMetric::PrecisionUtil(_) => GpmFamily::PrecisionUtilization,
        GpmMetric::DramBwUtil => GpmFamily::DramUtilization,
        GpmMetric::Pcie(_) => GpmFamily::PcieThroughput,
        GpmMetric::Nvdec(_) => GpmFamily::NvdecUtilization,
        GpmMetric::Nvjpg(_) => GpmFamily::NvjpgUtilization,
        GpmMetric::Nvofa(_) => GpmFamily::NvofaUtilization,
        GpmMetric::NvlinkTotal(_) | GpmMetric::NvlinkLink(_, _) => GpmFamily::NvlinkThroughput,
    }
}

/// Name, unit and description of the Alumet metric of a family.
pub open spec fn family_definition(f: GpmFamily) -> (Seq<char>, Unit, Seq<char>) {
    match f {
        GpmFamily::GraphicsUtil => (
            "nvml_gpm_graphics_util"@,
            Unit::Percent,
            "Percentage of time any warp was active on a multiprocessor, averaged over all multiprocessors."@,
        ),
        GpmFamily::SmUtil => (
            "nvml_gpm_sm_util"@,
            Unit::Percent,
            "Percentage of time each multiprocessor had at least 1 warp assigned, averaged over all multiprocessors."@,
        ),
        GpmFamily::SmOccupancy => (
            "nvml_gpm_sm_occupancy"@,
            Unit::Percent,
            "Percentage of warps that were active vs theoretical maximum, averaged over all multiprocessors"@,
        ),
        GpmFamily::TensorUtilization => (
            "nvml_gpm_tensor_utilization"@,
            Unit::Percent,
            "Percentage of time the GPU's SMs were doing tensor operations."@,
        ),
        GpmFamily::PrecisionUtilization => (
            "nvml_gpm_precision_utilization"@,
            Unit::Percent,
            "Percentage of time the GPU's SMs were doing operations in a specific precision."@,
        ),
        GpmFamily::DramUtilization => (
            "nvml_gpm_dram_utilization"@,
            Unit::Percent,
            "Percentage of DRAM bandwidth used."@,
        ),
        GpmFamily::PcieThroughput => (
            "nvml_gpm_pcie_throughput"@,
            Unit::Byte,
            "PCIe bytes transmitted or received per second."@,
        ),
        GpmFamily::NvdecUtilization => (
            "nvml_gpm_nvdec_utilization"@,
            Unit::Percent,
            "NVDEC utilization."@,
        ),
        GpmFamily::NvjpgUtilization => (
            "nvml_gpm_nvjpg_utilization"@,
            Unit::Percent,
            "NVJPG utilization."@,
        ),
        GpmFamily::NvofaUtilization => (
            "nvml_gpm_nvofa_utilization"@,
            Unit::Percent,
            "NVOFA utilization."@,
        ),
        GpmFamily::NvlinkThroughput => (
            "nvml_gpm_nvlink_throughput"@,
            Unit::Byte,
            "NVLink bytes transmitted or received per second."@,
        ),
    }
}

fn definition(name: &'static str, unit: Unit, description: &'static str) -> (d: MetricDefinition)
    ensures
        d.name == name,
        d.unit == unit,
        d.description == description,
{
    MetricDefinition { name, unit, description }
}

/// The Alumet metric that measurements of a GPM metric go to. GPM metrics that differ only by
/// instance, direction, operation or precision share a metric.
pub fn create_gpm_metrics(gpm_metric: &GpmMetric) -> (d: MetricDefinition)
    ensures
        (d.name@, d.unit, d.description@) == family_definition(family_of(*gpm_metric)),
{
    match gpm_metric {
        GpmMetric::GraphicsUtil => definition(
            "nvml_gpm_graphics_util",
            Unit::Percent,
            "Percentage of time any warp was active on a multiprocessor, averaged over all multiprocessors.",
        ),
        GpmMetric::SmUtil => definition(
            "nvml_gpm_sm_util",
            Unit::Percent,
            "Percentage of time each multiprocessor had at least 1 warp assigned, averaged over all multiprocessors.",
        ),
        GpmMetric::SmOccupancy => definition(
            "nvml_gpm_sm_occupancy",
            Unit::Percent,
            "Percentage of warps that were active vs theoretical maximum, averaged over all multiprocessors",
        ),
        GpmMetric::TensorUtil(_) => definition(
            "nvml_gpm_tensor_utilization",
            Unit::Percent,
            "Percentage of time the GPU's SMs were doing tensor operations.",
        ),
        GpmMetric::PrecisionUtil(_) => definition(
            "nvml_gpm_precision_utilization",
            Unit::Percent,
            "Percentage of time the GPU's SMs were doing operations in a specific precision.",
        ),
        GpmMetric::DramBwUtil => definition(
            "nvml_gpm_dram_utilization",
            Unit::Percent,
            "Percentage of DRAM bandwidth used.",
        ),
        GpmMetric::Pcie(_) => definition(
            "nvml_gpm_pcie_throughput",
            Unit::Byte,
            "PCIe bytes transmitted or received per second.",
        ),
        GpmMetric::Nvdec(_) => definition(
            "nvml_gpm_nvdec_utilization",
            Unit::Percent,
            "NVDEC utilization.",
        ),
        GpmMetric::Nvjpg(_) => definition(
            "nvml_gpm_nvjpg_utilization",
            Unit::Percent,
            "NVJPG utilization.",
        ),
        GpmMetric::Nvofa(_) => definition(
            "nvml_gpm_nvofa_utilization",
            Unit::Percent,
            "NVOFA utilization.",
        ),
        GpmMetric::NvlinkTotal(_) | GpmMetric::NvlinkLink(_, _) => definition(
            "nvml_gpm_nvlink_throughput",
            Unit::Byte,
            "NVLink bytes transmitted or received per second.",
        ),
    }
}

/// The name of a direction in the `direction` attribute.
pub open spec fn direction_name(d: Direction) -> Seq<char> {
    match d {
        Direction::Transmitted => "transmitted"@,
        Direction::Received => "received"@,
    }
}

/// The name of a tensor operation in the `operation_type` attribute.
pub open spec fn operation_name(o: TensorOperation) -> Seq<char> {
    match o {
        TensorOperation::Any => "any"@,
        TensorOperation::Dfma => "dfma"@,
        TensorOperation::Hmma => "hmma"@,
        TensorOperation::Imma => "imma"@,
    }
}

/// The name of a precision in the `precision` attribute.
pub open spec fn precision_name(p: Precision) -> Seq<char> {
    match p {
        Precision::Integer => "integer"@,
        Precision::Fp64 => "fp64"@,
        Precision::Fp32 => "fp32"@,
        Precision::Fp16 => "fp16"@,
    }
}

/// The width in bits of the floating-point format of a precision; none for integers.
pub open spec fn float_width(p: Precision) -> Option<nat> {
    match p {
        Precision::Integer => None,
        Precision::Fp64 => Some(64),
        Precision::Fp32 => Some(32),
        Precision::Fp16 => Some(16),
    }
}

/// The `precision` attribute names the format it counts: `fp` followed by the width in bits of a
/// floating-point format, `integer` for integers.
pub proof fn lemma_precision_name_gives_width(p: Precision)
    ensures
        match float_width(p) {
            Some(w) => precision_name(p) == "fp"@ + dec_of(w),
            None => precision_name(p) == "integer"@,
        },
{
    reveal_strlit("fp");
    reveal_strlit("fp64");
    reveal_strlit("fp32");
    reveal_strlit("fp16");
    match float_width(p) {
        Some(w) => {
            assert(dec_of(w) == seq![('0' as u32 + w / 10) as char, ('0' as u32 + w % 10) as char]) by {
                assert(dec_of(w / 10) == seq![('0' as u32 + w / 10) as char]);
            }
            assert(precision_name(p) =~= "fp"@ + dec_of(w));
        },
        None => {},
    }
}

/// The attributes that a measurement of a GPM metric carries, in order.
pub open spec fn gpm_attributes(m: GpmMetric) -> Seq<(Seq<char>, AttributeModel)> {
    match m {
        GpmMetric::TensorUtil(o) => seq![("operation_type"@, AttributeModel::Str(operation_name(o)))],
        GpmMetric::PrecisionUtil(p) => seq![("precision"@, AttributeModel::Str(precision_name(p)))],
        GpmMetric::Pcie(d) => seq![("direction"@, AttributeModel::Str(direction_name(d)))],
        GpmMetric::Nvdec(i) | GpmMetric::Nvjpg(i) | GpmMetric::Nvofa(i) => seq![
            ("instance"@, AttributeModel::U64(i as nat)),
        ],
        GpmMetric::NvlinkTotal(d) => seq![
            ("direction"@, AttributeModel::Str(direction_name(d))),
            ("instance"@, AttributeModel::Str("total"@)),
        ],
        GpmMetric::NvlinkLink(l, d) => seq![
            ("direction"@, AttributeModel::Str(direction_name(d))),
            ("instance"@, AttributeModel::Str(dec_of(l as nat))),
        ],
        _ => Seq::empty(),
    }
}

proof fn lemma_names_distinct()
    ensures
        forall|a: TensorOperation, b: TensorOperation| a != b ==> #[trigger] operation_name(a) != #[trigger] operation_name(b),
        forall|a: Precision, b: Precision| a != b ==> #[trigger] precision_name(a) != #[trigger] precision_name(b),
        forall|a: Direction, b: Direction| a != b ==> #[trigger] direction_name(a) != #[trigger] direction_name(b),
{
    reveal_strlit("transmitted");
    reveal_strlit("received");
    reveal_strlit("any");
    reveal_strlit("dfma");
    reveal_strlit("hmma");
    reveal_strlit("imma");
    reveal_strlit("integer");
    reveal_strlit("fp64");
    reveal_strlit("fp32");
    reveal_strlit("fp16");
    assert forall|a: TensorOperation, b: TensorOperation| a != b implies #[trigger] operation_name(a) != #[trigger] operation_name(b) by {
        assert(operation_name(a)[0] != operation_name(b)[0]);
    }
    assert forall|a: Precision, b: Precision| a != b implies #[trigger] precision_name(a) != #[trigger] precision_name(b) by {
        assert(precision_name(a)[2] != precision_name(b)[2]);
    }
    assert forall|a: Direction, b: Direction| a != b implies #[trigger] direction_name(a) != #[trigger] direction_name(b) by {
        assert(direction_name(a)[0] != direction_name(b)[0]);
    }
}

/// GPM metrics that feed the same metric are told apart by the attributes of their
/// measurements.
pub proof fn lemma_attributes_tell_apart(m1: GpmMetric, m2: GpmMetric)
    requires
        family_of(m1) == family_of(m2),
        m1 != m2,
    ensures
        gpm_attributes(m1) != gpm_attributes(m2),
{
    lemma_names_distinct();
    reveal_strlit("total");
    let a1 = gpm_attributes(m1);
    let a2 = gpm_attributes(m2);
    match (m1, m2) {
        (GpmMetric::TensorUtil(o1), GpmMetric::TensorUtil(o2)) => {
            assert(a1[0] != a2[0]);
        },
        (GpmMetric::PrecisionUtil(p1), GpmMetric::PrecisionUtil(p2)) => {
            assert(a1[0] != a2[0]);
        },
        (GpmMetric::Pcie(d1), GpmMetric::Pcie(d2)) => {
            assert(a1[0] != a2[0]);
        },
        (GpmMetric::Nvdec(i1), GpmMetric::Nvdec(i2)) => {
            assert(a1[0] != a2[0]);
        },
        (GpmMetric::Nvjpg(i1), GpmMetric::Nvjpg(i2)) => {
            assert(a1[0] != a2[0]);
        },
        (GpmMetric::Nvofa(i1), GpmMetric::Nvofa(i2)) => {
            assert(a1[0] != a2[0]);
        },
        (GpmMetric::NvlinkTotal(d1), GpmMetric::NvlinkTotal(d2)) => {
            assert(a1[0] != a2[0]);
        },
        (GpmMetric::NvlinkTotal(d1), GpmMetric::NvlinkLink(l, d2)) => {
            if d1 != d2 {
                assert(a1[0] != a2[0]);
            } else {
                lemma_dec_of_digits(l as nat);
                assert(dec_of(l as nat)[0] != "total"@[0]);
                assert(a1[1] != a2[1]);
            }
        },
        (GpmMetric::NvlinkLink(l, d1), GpmMetric::NvlinkTotal(d2)) => {
            if d1 != d2 {
                assert(a1[0] != a2[0]);
            } else {
                lemma_dec_of_digits(l as nat);
                assert(dec_of(l as nat)[0] != "total"@[0]);
                assert(a1[1] != a2[1]);
            }
        },
        (GpmMetric::NvlinkLink(l1, d1), GpmMetric::NvlinkLink(l2, d2)) => {
            if d1 != d2 {
                assert(a1[0] != a2[0]);
            } else {
                if dec_of(l1 as nat) == dec_of(l2 as nat) {
                    lemma_dec_of_injective(l1 as nat, l2 as nat);
                }
                assert(a1[1] != a2[1]);
            }
        },
        _ => {},
    }
}

/// What a list of attributes holds.
pub open spec fn attributes_view(a: Seq<(&'static str, AttributeValue)>) -> Seq<
    (Seq<char>, AttributeModel),
> {
    a.map_values(|p: (&'static str, AttributeValue)| (p.0@, p.1@))
}

fn text_value(s: &str) -> (v: AttributeValue)
    ensures
        v@ == AttributeModel::Str(s@),
{
    AttributeValue::Str(s.to_owned())
}

fn direction_value(d: Direction) -> (v: AttributeValue)
    ensures
        v@ == AttributeModel::Str(direction_name(d)),
{
    match d {
        Direction::Transmitted => text_value("transmitted"),
        Direction::Received => text_value("received"),
    }
}

fn single(key: &'static str, value: AttributeValue) -> (r: Vec<(&'static str, AttributeValue)>)
    ensures
        attributes_view(r@) == seq![(key@, value@)],
{
    let mut r = Vec::new();
    r.push((key, value));
    assert(attributes_view(r@) =~= seq![(key@, value@)]);
    r
}

fn pair(key1: &'static str, value1: AttributeValue, key2: &'static str, value2: AttributeValue) -> (r:
    Vec<(&'static str, AttributeValue)>)
    ensures
        attributes_view(r@) == seq![(key1@, value1@), (key2@, value2@)],
{
    let mut r = Vec::new();
    r.push((key1, value1));
    r.push((key2, value2));
    assert(attributes_view(r@) =~= seq![(key1@, value1@), (key2@, value2@)]);
    r
}

/// The attributes that tell apart the GPM metrics that share a metric: the operation type,
/// the precision, the direction and the instance, as the metric has them.
pub fn match_gpm_id_to_attributes(gpm_metric: &GpmMetric) -> (r: Vec<(&'static str, AttributeValue)>)
    ensures
        attributes_view(r@) == gpm_attributes(*gpm_metric),
{
    match gpm_metric {
        GpmMetric::TensorUtil(o) => {
            let v = match o {
                TensorOperation::Any => text_value("any"),
                TensorOperation::Dfma => text_value("dfma"),
                TensorOperation::Hmma => text_value("hmma"),
                TensorOperation::Imma => text_value("imma"),
            };
            single("operation_type", v)
        },
        GpmMetric::PrecisionUtil(p) => {
            let v = match p {
                Precision::Integer => text_value("integer"),
                Precision::Fp64 => text_value("fp64"),
                Precision::Fp32 => text_value("fp32"),
                Precision::Fp16 => text_value("fp16"),
            };
            single("precision", v)
        },
        GpmMetric::Pcie(d) => single("direction", direction_value(*d)),
        GpmMetric::Nvdec(i) | GpmMetric::Nvjpg(i) | GpmMetric::Nvofa(i) => {
            single("instance", AttributeValue::U64(*i as u64))
        },
        GpmMetric::NvlinkTotal(d) => pair(
            "direction",
            direction_value(*d),
            "instance",
            text_value("total"),
        ),
        GpmMetric::NvlinkLink(l, d) => {
            let digits = dec_digits(*l as u64);
            let instance = AttributeValue::Str(string_of(digits.as_slice()));
            pair("direction", direction_value(*d), "instance", instance)
        },
        _ => {
            let r: Vec<(&'static str, AttributeValue)> = Vec::new();
            assert(attributes_view(r@) =~= Seq::empty());
            r
        },
    }
}

} // verus!
