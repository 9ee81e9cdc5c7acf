//! The metrics that a GPU source creates.

use vstd::prelude::*;
use crate::units::{definition, metric_view, MetricSpec, PrefixedUnit, Unit, UnitPrefix};

verus! {

/// The metrics of the full mode, in order: energy, power, temperature, GPU utilization, memory
/// information, decoder and encoder sampling periods, numbers of compute and graphic processes,
/// used memory, then the per-process utilizations of memory, decoder, encoder and streaming
/// multiprocessors, and the clock.
pub open spec fn full_metric_specs() -> Seq<(Seq<char>, PrefixedUnit, Seq<char>)> {
    seq![
        ("nvml_energy_consumption"@, PrefixedUnit { base_unit: Unit::Joule, prefix: UnitPrefix::Milli }, "Energy consumption by the GPU (including memory) since the previous measurement"@),
        ("nvml_instant_power"@, PrefixedUnit { base_unit: Unit::Watt, prefix: UnitPrefix::Milli }, "Instantaneous power of the GPU at the time of the measurement"@),
        ("nvml_temperature_gpu"@, PrefixedUnit { base_unit: Unit::DegreeCelsius, prefix: UnitPrefix::Plain }, "Instantaneous temperature of the GPU at the time of the measurement"@),
        ("nvml_gpu_utilization"@, PrefixedUnit { base_unit: Unit::Percent, prefix: UnitPrefix::Plain }, "GPU rate utilization"@),
        ("nvml_gpu_memory_info"@, PrefixedUnit { base_unit: Unit::Byte, prefix: UnitPrefix::Plain }, "VRAM information (free, used, reserved and total size)"@),
        ("nvml_decoder_sampling_period"@, PrefixedUnit { base_unit: Unit::Second, prefix: UnitPrefix::Micro }, "Get the current utilization and sampling size for the decoder"@),
        ("nvml_encoder_sampling_period"@, PrefixedUnit { base_unit: Unit::Second, prefix: UnitPrefix::Micro }, "Get the current utilization and sampling size for the encoder"@),
        ("nvml_n_compute_processes"@, PrefixedUnit { base_unit: Unit::Unity, prefix: UnitPrefix::Plain }, "Number of compute processes running on the device"@),
        ("nvml_n_graphic_processes"@, PrefixedUnit { base_unit: Unit::Unity, prefix: UnitPrefix::Plain }, "Number of graphic processes running on the device"@),
        ("nvml_used_gpu_memory"@, PrefixedUnit { base_unit: Unit::Byte, prefix: UnitPrefix::Plain }, "Amount of used GPU memory"@),
        ("nvml_memory_utilization"@, PrefixedUnit { base_unit: Unit::Percent, prefix: UnitPrefix::Plain }, "Utilization of the GPU memory by the process"@),
        ("nvml_decoder_utilization"@, PrefixedUnit { base_unit: Unit::Percent, prefix: UnitPrefix::Plain }, "Utilization of the GPU video decoder by the process"@),
        ("nvml_encoder_utilization"@, PrefixedUnit { base_unit: Unit::Percent, prefix: UnitPrefix::Plain }, "Utilization of the GPU video encoder by the process"@),
        ("nvml_sm_utilization"@, PrefixedUnit { base_unit: Unit::Percent, prefix: UnitPrefix::Plain }, "Utilization of the GPU streaming multiprocessors by the process"@),
        ("nvml_clock_info"@, PrefixedUnit { base_unit: Unit::Hertz, prefix: UnitPrefix::Plain }, "Current clock speed for the device"@),
    ]
}

/// The metrics that a source creates in full mode.
pub fn full_metrics() -> (r: Vec<MetricSpec>)
    ensures
        r@.map_values(|m: MetricSpec| metric_view(m)) == full_metric_specs(),
{
    let mut out: Vec<MetricSpec> = Vec::new();
    out.push(definition("nvml_energy_consumption", Unit::Joule, UnitPrefix::Milli, "Energy consumption by the GPU (including memory) since the previous measurement"));
    out.push(definition("nvml_instant_power", Unit::Watt, UnitPrefix::Milli, "Instantaneous power of the GPU at the time of the measurement"));
    out.push(definition("nvml_temperature_gpu", Unit::DegreeCelsius, UnitPrefix::Plain, "Instantaneous temperature of the GPU at the time of the measurement"));
    out.push(definition("nvml_gpu_utilization", Unit::Percent, UnitPrefix::Plain, "GPU rate utilization"));
    out.push(definition("nvml_gpu_memory_info", Unit::Byte, UnitPrefix::Plain, "VRAM information (free, used, reserved and total size)"));
    out.push(definition("nvml_decoder_sampling_period", Unit::Second, UnitPrefix::Micro, "Get the current utilization and sampling size for the decoder"));
    out.push(definition("nvml_encoder_sampling_period", Unit::Second, UnitPrefix::Micro, "Get the current utilization and sampling size for the encoder"));
    out.push(definition("nvml_n_compute_processes", Unit::Unity, UnitPrefix::Plain, "Number of compute processes running on the device"));
    out.push(definition("nvml_n_graphic_processes", Unit::Unity, UnitPrefix::Plain, "Number of graphic processes running on the device"));
    out.push(definition("nvml_used_gpu_memory", Unit::Byte, UnitPrefix::Plain, "Amount of used GPU memory"));
    out.push(definition("nvml_memory_utilization", Unit::Percent, UnitPrefix::Plain, "Utilization of the GPU memory by the process"));
    out.push(definition("nvml_decoder_utilization", Unit::Percent, UnitPrefix::Plain, "Utilization of the GPU video decoder by the process"));
    out.push(definition("nvml_encoder_utilization", Unit::Percent, UnitPrefix::Plain, "Utilization of the GPU video encoder by the process"));
    out.push(definition("nvml_sm_utilization", Unit::Percent, UnitPrefix::Plain, "Utilization of the GPU streaming multiprocessors by the process"));
    out.push(definition("nvml_clock_info", Unit::Hertz, UnitPrefix::Plain, "Current clock speed for the device"));
    assert(out@.map_values(|m: MetricSpec| metric_view(m)) =~= full_metric_specs());
    out
}

/// The metrics that a source creates in minimal mode: the energy (estimated from the power) and
/// the power, as in full mode.
pub fn minimal_metrics() -> (r: Vec<MetricSpec>)
    ensures
        r@.map_values(|m: MetricSpec| metric_view(m)) == full_metric_specs().take(2),
{
    let mut out: Vec<MetricSpec> = Vec::new();
    out.push(definition("nvml_energy_consumption", Unit::Joule, UnitPrefix::Milli, "Energy consumption by the GPU (including memory) since the previous measurement"));
    out.push(definition("nvml_instant_power", Unit::Watt, UnitPrefix::Milli, "Instantaneous power of the GPU at the time of the measurement"));
    assert(out@.map_values(|m: MetricSpec| metric_view(m)) =~= full_metric_specs().take(2));
    out
}

} // verus!
