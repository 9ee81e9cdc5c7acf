//! Which optional NVML features a GPU offers, decided from the outcome of probing calls.

use vstd::prelude::*;
use crate::text::{join, joined, views_of};

verus! {

/// Why an NVML call did not give a result.
#[derive(Debug, Clone, PartialEq, Eq)]
pub enum NvmlFailure {
    /// The device does not support the call.
    NotSupported,
    /// The installed library lacks the function (named here).
    FailedToLoadSymbol(String),
    /// The call found nothing to report.
    NotFound,
    /// Any other failure, with its message.
    Other(String),
}

/// Whether a failure only says that a function is missing, so that an older one may be tried.
pub open spec fn is_missing(e: NvmlFailure) -> bool {
    e is NotSupported || e is FailedToLoadSymbol
}

/// Which version of a NVML function is available on a given device.
#[derive(Debug, Clone, Copy, PartialEq, Eq, Structural)]
pub enum AvailableVersion {
    Latest,
    V2,
    Unavailable,
}

/// Which features are available on a given NVML device.
#[derive(Debug, Clone, Copy, PartialEq, Eq, Structural)]
pub struct OptionalFeatures {
    /// Total electric energy consumed by GPU.
    pub total_energy_consumption: bool,
    /// Electric energy consumption measured at a given time.
    pub instant_power: bool,
    /// GPU temperature.
    pub temperature_gpu: bool,
    /// GPU rate utilization.
    pub major_utilization: bool,
    /// GPU video decoding property.
    pub decoder_utilization: bool,
    /// GPU video encoding property.
    pub encoder_utilization: bool,
    /// Utilization stats for relevant currently running processes.
    pub process_utilization_stats: bool,
    /// Relevant currently running computing processes data.
    pub running_compute_processes: AvailableVersion,
    /// Relevant currently running graphical processes data.
    pub running_graphics_processes: AvailableVersion,
}

/// Whether a device with features `f` is worth measuring. The utilization stats of processes
/// alone do not count.
pub open spec fn any_feature(f: OptionalFeatures) -> bool {
    f.total_energy_consumption || f.instant_power || f.major_utilization || f.decoder_utilization
        || f.encoder_utilization || f.temperature_gpu || f.running_compute_processes
        != AvailableVersion::Unavailable || f.running_graphics_processes != AvailableVersion::Unavailable
}

/// `[name]` when `b` holds, else nothing.
pub open spec fn named_if(b: bool, name: Seq<char>) -> Seq<Seq<char>> {
    if b {
        seq![name]
    } else {
        Seq::empty()
    }
}

/// The name of a process-listing feature in the version that is available, if any.
pub open spec fn version_named(v: AvailableVersion, latest: Seq<char>, v2: Seq<char>) -> Seq<
    Seq<char>,
> {
    match v {
        AvailableVersion::Latest => seq![latest],
        AvailableVersion::V2 => seq![v2],
        AvailableVersion::Unavailable => Seq::empty(),
    }
}

/// The names of the available features, in the order in which they are listed.
pub open spec fn feature_names(f: OptionalFeatures) -> Seq<Seq<char>> {
    named_if(f.total_energy_consumption, "total_energy_consumption"@) + named_if(
        f.instant_power,
        "instant_power"@,
    ) + named_if(f.major_utilization, "major_utilization"@) + named_if(
        f.decoder_utilization,
        "decoder_utilization"@,
    ) + named_if(f.encoder_utilization, "encoder_utilization"@) + named_if(
        f.process_utilization_stats,
        "process_utilization_stats"@,
    ) + named_if(f.temperature_gpu, "temperature_gpu"@) + version_named(
        f.running_compute_processes,
        "running_compute_processes(latest)"@,
        "running_compute_processes(v2)"@,
    ) + version_named(
        f.running_graphics_processes,
        "running_graphics_processes(latest)"@,
        "running_graphics_processes(v2)"@,
    )
}

fn push_if(names: &mut Vec<&'static str>, b: bool, name: &'static str)
    ensures
        views_of(final(names)@) == views_of(old(names)@) + named_if(b, name@),
{
    let ghost before = names@;
    if b {
        names.push(name);
        assert(views_of(names@) =~= views_of(before) + seq![name@]);
    } else {
        assert(views_of(before) + Seq::<Seq<char>>::empty() =~= views_of(before));
    }
}

fn push_version(
    names: &mut Vec<&'static str>,
    v: AvailableVersion,
    latest: &'static str,
    v2: &'static str,
)
    ensures
        views_of(final(names)@) == views_of(old(names)@) + version_named(v, latest@, v2@),
{
    let ghost before = names@;
    match v {
        AvailableVersion::Latest => {
            names.push(latest);
            assert(views_of(names@) =~= views_of(before) + seq![latest@]);
        },
        AvailableVersion::V2 => {
            names.push(v2);
            assert(views_of(names@) =~= views_of(before) + seq![v2@]);
        },
        AvailableVersion::Unavailable => {
            assert(views_of(before) + Seq::<Seq<char>>::empty() =~= views_of(before));
        },
    }
}

impl OptionalFeatures {
    /// Whether the device supports at least one useful feature.
    pub fn has_any(&self) -> (r: bool)
        ensures
            r == any_feature(*self),
    {
        self.total_energy_consumption || self.instant_power || self.major_utilization
            || self.decoder_utilization || self.encoder_utilization || self.temperature_gpu
            || self.running_compute_processes != AvailableVersion::Unavailable
            || self.running_graphics_processes != AvailableVersion::Unavailable
    }

    /// The available features, by name, separated by commas.
    pub fn describe(&self) -> (s: String)
        ensures
            s@ == joined(feature_names(*self), ", "@),
    {
        let mut names: Vec<&'static str> = Vec::new();
        assert(views_of(names@) =~= Seq::<Seq<char>>::empty());
        push_if(&mut names, self.total_energy_consumption, "total_energy_consumption");
        push_if(&mut names, self.instant_power, "instant_power");
        push_if(&mut names, self.major_utilization, "major_utilization");
        push_if(&mut names, self.decoder_utilization, "decoder_utilization");
        push_if(&mut names, self.encoder_utilization, "encoder_utilization");
        push_if(&mut names, self.process_utilization_stats, "process_utilization_stats");
        push_if(&mut names, self.temperature_gpu, "temperature_gpu");
        push_version(
            &mut names,
            self.running_compute_processes,
            "running_compute_processes(latest)",
            "running_compute_processes(v2)",
        );
        push_version(
            &mut names,
            self.running_graphics_processes,
            "running_graphics_processes(latest)",
            "running_graphics_processes(v2)",
        );
        assert(views_of(names@) =~= feature_names(*self));
        join(names.as_slice(), ", ")
    }
}

/// What probing a feature says of it: available when the call succeeds, unavailable when the
/// device does not support it, and any other failure stops the detection.
pub open spec fn supported<T>(res: Result<T, NvmlFailure>) -> Result<bool, NvmlFailure> {
    match res {
        Ok(_) => Ok(true),
        Err(NvmlFailure::NotSupported) => Ok(false),
        Err(e) => Err(e),
    }
}

/// Checks whether a feature is supported by the device, from the outcome of a call that uses it.
pub fn is_supported<T>(res: Result<T, NvmlFailure>) -> (r: Result<bool, NvmlFailure>)
    ensures
        r == supported(res),
{
    match res {
        Ok(_) => Ok(true),
        Err(NvmlFailure::NotSupported) => Ok(false),
        Err(e) => Err(e),
    }
}

/// Whether the outcome of the latest version of a function calls for trying its older version.
pub open spec fn wants_fallback<T>(latest: Result<T, NvmlFailure>) -> bool {
    latest matches Err(e) && is_missing(e)
}

/// Which version of a function is available, from the outcome of its latest version and, where
/// that one is missing, of its older version.
pub open spec fn biversion<T, U>(
    latest: Result<T, NvmlFailure>,
    fallback: Option<Result<U, NvmlFailure>>,
) -> Result<AvailableVersion, NvmlFailure> {
    match latest {
        Ok(_) => Ok(AvailableVersion::Latest),
        Err(e) => if is_missing(e) {
            match fallback {
                Some(Ok(_)) => Ok(AvailableVersion::V2),
                Some(Err(e2)) => if is_missing(e2) {
                    Ok(AvailableVersion::Unavailable)
                } else {
                    Err(e2)
                },
                None => Ok(AvailableVersion::Unavailable),
            }
        } else {
            Err(e)
        },
    }
}

/// Whether the older version of a function must be tried, given the outcome of its latest one.
pub fn needs_fallback<T>(latest: &Result<T, NvmlFailure>) -> (b: bool)
    ensures
        b == wants_fallback(*latest),
{
    match latest {
        Ok(_) => false,
        Err(NvmlFailure::NotSupported) => true,
        Err(NvmlFailure::FailedToLoadSymbol(_)) => true,
        Err(_) => false,
    }
}

/// Decides which version of a function is available: the latest when it works, else the older
/// one when it works, else none; a failure other than a missing function is returned.
/// The older version is only consulted (and must only be given) where the latest is missing.
pub fn detect_biversion<T, U>(
    latest: Result<T, NvmlFailure>,
    fallback: Option<Result<U, NvmlFailure>>,
) -> (r: Result<AvailableVersion, NvmlFailure>)
    requires
        fallback is Some <==> wants_fallback(latest),
    ensures
        r == biversion(latest, fallback),
{
    match latest {
        Ok(_) => Ok(AvailableVersion::Latest),
        Err(NvmlFailure::NotSupported) | Err(NvmlFailure::FailedToLoadSymbol(_)) => {
            match fallback {
                Some(Ok(_)) => Ok(AvailableVersion::V2),
                Some(Err(NvmlFailure::NotSupported)) | Some(
                    Err(NvmlFailure::FailedToLoadSymbol(_)),
                ) => Ok(AvailableVersion::Unavailable),
                Some(Err(e2)) => Err(e2),
                None => Ok(AvailableVersion::Unavailable),
            }
        },
        Err(e) => Err(e),
    }
}

/// The outcome of each probing call made on a device, in the order in which they are made.
pub struct FeatureProbes {
    pub total_energy_consumption: Result<bool, NvmlFailure>,
    pub instant_power: Result<bool, NvmlFailure>,
    pub temperature_gpu: Result<bool, NvmlFailure>,
    pub major_utilization: Result<bool, NvmlFailure>,
    pub decoder_utilization: Result<bool, NvmlFailure>,
    pub encoder_utilization: Result<bool, NvmlFailure>,
    pub process_utilization_stats: Result<bool, NvmlFailure>,
    pub running_compute_processes: Result<AvailableVersion, NvmlFailure>,
    pub running_graphics_processes: Result<AvailableVersion, NvmlFailure>,
}

/// The features that the probes show, or the first failure among them in probing order.
pub open spec fn detected(p: FeatureProbes) -> Result<OptionalFeatures, NvmlFailure> {
    match (
        p.total_energy_consumption,
        p.instant_power,
        p.temperature_gpu,
        p.major_utilization,
        p.decoder_utilization,
    ) {
        (Err(e), _, _, _, _) => Err(e),
        (Ok(_), Err(e), _, _, _) => Err(e),
        (Ok(_), Ok(_), Err(e), _, _) => Err(e),
        (Ok(_), Ok(_), Ok(_), Err(e), _) => Err(e),
        (Ok(_), Ok(_), Ok(_), Ok(_), Err(e)) => Err(e),
        (Ok(a), Ok(b), Ok(c), Ok(d), Ok(dec)) => match (
            p.encoder_utilization,
            p.process_utilization_stats,
            p.running_compute_processes,
            p.running_graphics_processes,
        ) {
            (Err(e), _, _, _) => Err(e),
            (Ok(_), Err(e), _, _) => Err(e),
            (Ok(_), Ok(_), Err(e), _) => Err(e),
            (Ok(_), Ok(_), Ok(_), Err(e)) => Err(e),
            (Ok(enc), Ok(pus), Ok(rc), Ok(rg)) => Ok(
                OptionalFeatures {
                    total_energy_consumption: a,
                    instant_power: b,
                    temperature_gpu: c,
                    major_utilization: d,
                    decoder_utilization: dec,
                    encoder_utilization: enc,
                    process_utilization_stats: pus,
                    running_compute_processes: rc,
                    running_graphics_processes: rg,
                },
            ),
        },
    }
}

impl OptionalFeatures {
    /// The features of a device, from the outcomes of the probing calls made on it; the first
    /// failure, in probing order, is returned instead.
    pub fn detect_on(p: FeatureProbes) -> (r: Result<OptionalFeatures, NvmlFailure>)
        ensures
            r == detected(p),
    {
        let total_energy_consumption = match p.total_energy_consumption {
            Ok(v) => v,
            Err(e) => return Err(e),
        };
        let instant_power = match p.instant_power {
            Ok(v) => v,
            Err(e) => return Err(e),
        };
        let temperature_gpu = match p.temperature_gpu {
            Ok(v) => v,
            Err(e) => return Err(e),
        };
        let major_utilization = match p.major_utilization {
            Ok(v) => v,
            Err(e) => return Err(e),
        };
        let decoder_utilization = match p.decoder_utilization {
            Ok(v) => v,
            Err(e) => return Err(e),
        };
        let encoder_utilization = match p.encoder_utilization {
            Ok(v) => v,
            Err(e) => return Err(e),
        };
        let process_utilization_stats = match p.process_utilization_stats {
            Ok(v) => v,
            Err(e) => return Err(e),
        };
        let running_compute_processes = match p.running_compute_processes {
            Ok(v) => v,
            Err(e) => return Err(e),
        };
        let running_graphics_processes = match p.running_graphics_processes {
            Ok(v) => v,
            Err(e) => return Err(e),
        };
        Ok(
            OptionalFeatures {
                total_energy_consumption,
                instant_power,
                temperature_gpu,
                major_utilization,
                decoder_utilization,
                encoder_utilization,
                process_utilization_stats,
                running_compute_processes,
                running_graphics_processes,
            },
        )
    }
}

/// The process samples that a utilization query gives: none where nothing was found since the
/// given time (as right after the machine started), else what the call returned.
pub open spec fn samples_or_none<S>(res: Result<Vec<S>, NvmlFailure>) -> Result<Seq<S>, NvmlFailure> {
    match res {
        Ok(v) => Ok(v@),
        Err(NvmlFailure::NotFound) => Ok(Seq::empty()),
        Err(e) => Err(e),
    }
}

/// Reads the outcome of a query of the utilization of processes, where "not found" means
/// that there was no sample in the period.
pub fn fixed_process_utilization_stats<S>(res: Result<Vec<S>, NvmlFailure>) -> (r: Result<
    Vec<S>,
    NvmlFailure,
>)
    ensures
        r matches Ok(v) ==> samples_or_none(res) == Ok::<Seq<S>, NvmlFailure>(v@),
        r matches Err(e) ==> samples_or_none(res) == Err::<Seq<S>, NvmlFailure>(e),
{
    match res {
        Err(NvmlFailure::NotFound) => Ok(Vec::new()),
        other => other,
    }
}

} // verus!
