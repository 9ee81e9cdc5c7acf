//! Coretemp sensors of lm-sensors: which chips and features are used, which resource each
//! sensor measures, and the pace at which the polled temperatures are flushed.

use vstd::prelude::*;
use crate::units::{definition, metric_view, MetricSpec, PrefixedUnit, Unit, UnitPrefix};
use crate::pieces::{pieces, split_all_chars, split_pieces, Separator};
use crate::text::{
    chars_of, dec_digits, dec_of, is_word, parse_unsigned, parsed_unsigned, push_all, split_all,
    starts_with, string_of,
};

verus! {

/// The resource that a coretemp sensor measures.
#[derive(Debug, Clone, PartialEq, Eq)]
pub enum CoretempResource {
    /// A CPU package.
    CpuPackage { id: u32 },
    /// A resource of its own kind, here `cpu_core`, with an identifier.
    Custom { kind: String, id: String },
}

/// Why a coretemp chip or sensor cannot be used.
#[derive(Debug, Clone, PartialEq, Eq)]
pub enum CoretempError {
    /// The chip's name does not end with a package number, as in `coretemp-isa-0000`.
    UnexpectedChipName(String),
    /// The sensor's label is neither `Package id N` nor `Core N`.
    UnparsableLabel(String),
    /// The sensor's label starts with `Package` or `Core` but stops before the number.
    MissingId(String),
}

/// What is wrong with a label.
#[derive(Debug, Clone, Copy, PartialEq, Eq, Structural)]
pub enum LabelProblem {
    Unparsable,
    MissingId,
}

/// What a resource holds.
pub enum ResourceModel {
    CpuPackage(nat),
    Custom(Seq<char>, Seq<char>),
}

/// What a resource holds.
pub open spec fn resource_view(r: CoretempResource) -> ResourceModel {
    match r {
        CoretempResource::CpuPackage { id } => ResourceModel::CpuPackage(id as nat),
        CoretempResource::Custom { kind, id } => ResourceModel::Custom(kind@, id@),
    }
}

/// The resource of a sensor labelled `label` on the coretemp chip `coretemp_id`: the label's
/// words are `Package id N` for package `N`, or `Core N` for core `N` of that chip, whose
/// identifier is `<chip>_<N>`.
pub open spec fn label_resource(label: Seq<char>, coretemp_id: u32) -> Result<ResourceModel, LabelProblem> {
    let w = pieces(label, Separator::Space);
    if w[0] == "Package"@ {
        if w.len() <= 2 {
            Err(LabelProblem::MissingId)
        } else {
            match parsed_unsigned(w[2], 10, u32::MAX as nat) {
                Some(id) => Ok(ResourceModel::CpuPackage(id)),
                None => Err(LabelProblem::Unparsable),
            }
        }
    } else if w[0] == "Core"@ {
        if w.len() <= 1 {
            Err(LabelProblem::MissingId)
        } else {
            match parsed_unsigned(w[1], 10, u32::MAX as nat) {
                Some(id) => Ok(
                    ResourceModel::Custom(
                        "cpu_core"@,
                        dec_of(coretemp_id as nat) + "_"@ + dec_of(id),
                    ),
                ),
                None => Err(LabelProblem::Unparsable),
            }
        }
    } else {
        Err(LabelProblem::Unparsable)
    }
}

/// Reads the resource that a coretemp sensor measures from its label: `Package id N` is the
/// CPU package `N`, `Core N` is the core `N` of the chip `coretemp_id`.
pub fn resource_from_string(name: &str, coretemp_id: u32) -> (r: Result<CoretempResource, CoretempError>)
    requires
        pieces(name@, Separator::Space).len() > 0,
    ensures
        r matches Ok(res) ==> label_resource(name@, coretemp_id) == Ok::<ResourceModel, LabelProblem>(
            resource_view(res),
        ),
        r matches Err(e) ==> match label_resource(name@, coretemp_id) {
            Ok(_) => false,
            Err(LabelProblem::Unparsable) => e matches CoretempError::UnparsableLabel(s) && s@ == name@,
            Err(LabelProblem::MissingId) => e matches CoretempError::MissingId(s) && s@ == name@,
        },
{
    let chars = chars_of(name);
    let v = split_pieces(chars.as_slice(), Separator::Space);
    let ghost w = v@.map_values(|x: Vec<char>| x@);
    assert(w[0] == v@[0]@);
    if is_word(v[0].as_slice(), "Package") {
        if v.len() <= 2 {
            return Err(CoretempError::MissingId(name.to_owned()));
        }
        assert(w[2] == v@[2]@);
        if let Some(id) = parse_unsigned(v[2].as_slice(), 10, u32::MAX as u64) {
            return Ok(CoretempResource::CpuPackage { id: id as u32 });
        }
    } else if is_word(v[0].as_slice(), "Core") {
        if v.len() <= 1 {
            return Err(CoretempError::MissingId(name.to_owned()));
        }
        assert(w[1] == v@[1]@);
        if let Some(id) = parse_unsigned(v[1].as_slice(), 10, u32::MAX as u64) {
            let mut custom: Vec<char> = dec_digits(coretemp_id as u64);
            custom.push('_');
            let d = dec_digits(id);
            push_all(&mut custom, d.as_slice());
            assert(custom@ =~= dec_of(coretemp_id as nat) + "_"@ + dec_of(id as nat)) by {
                reveal_strlit("_");
            }
            return Ok(
                CoretempResource::Custom {
                    kind: "cpu_core".to_owned(),
                    id: string_of(custom.as_slice()),
                },
            );
        }
    }
    Err(CoretempError::UnparsableLabel(name.to_owned()))
}

/// Whether a chip of that name is a coretemp chip.
pub open spec fn is_coretemp_chip(name: Seq<char>) -> bool {
    name.len() >= 13 && name.take(13) == "coretemp-isa-"@
}

/// Whether a chip is a coretemp chip, from its name (`coretemp-isa-0000`).
pub fn coretemp_chip(name: &str) -> (b: bool)
    ensures
        b == is_coretemp_chip(name@),
{
    proof {
        reveal_strlit("coretemp-isa-");
    }
    let c = chars_of(name);
    let p = chars_of("coretemp-isa-");
    starts_with(c.as_slice(), p.as_slice())
}

/// The package number of a coretemp chip: the number after the last `-` of its name.
pub open spec fn chip_package(name: Seq<char>) -> Option<nat> {
    let parts = split_all(name, '-');
    parsed_unsigned(parts[parts.len() - 1], 10, u32::MAX as nat)
}

/// Reads the package number of a coretemp chip from its name, such as `coretemp-isa-0000`.
pub fn coretemp_id(name: &str) -> (r: Result<u32, CoretempError>)
    ensures
        r matches Ok(id) ==> chip_package(name@) == Some(id as nat),
        r matches Err(e) ==> chip_package(name@) is None && (e matches CoretempError::UnexpectedChipName(
            s,
        ) && s@ == name@),
{
    let c = chars_of(name);
    let parts = split_all_chars(c.as_slice(), '-');
    let n = parts.len();
    let ghost pv = parts@.map_values(|x: Vec<char>| x@);
    assert(pv[n - 1] == parts@[n - 1]@);
    match parse_unsigned(parts[n - 1].as_slice(), 10, u32::MAX as u64) {
        Some(id) => Ok(id as u32),
        None => Err(CoretempError::UnexpectedChipName(name.to_owned())),
    }
}

/// Whether a temperature feature is kept: every feature is, unless only the packages are
/// wanted, in which case those whose label starts with `Package` are (and those whose label
/// cannot be read, whose error is reported later).
pub open spec fn keeps_feature(package_only: bool, label: Option<Seq<char>>) -> bool {
    !package_only || match label {
        None => true,
        Some(l) => l.len() >= 7 && l.take(7) == "Package"@,
    }
}

/// Decides whether a temperature feature is kept, from its label (none when it cannot be read).
pub fn keep_feature(package_only: bool, label: Option<&str>) -> (b: bool)
    ensures
        b == keeps_feature(
            package_only,
            match label {
                Some(l) => Some(l@),
                None => None,
            },
        ),
{
    proof {
        reveal_strlit("Package");
    }
    if !package_only {
        return true;
    }
    match label {
        None => true,
        Some(l) => {
            let c = chars_of(l);
            let p = chars_of("Package");
            starts_with(c.as_slice(), p.as_slice())
        },
    }
}

/// The configuration of the lm-sensors plugin, with its intervals in nanoseconds.
#[derive(Debug, Clone, Copy, PartialEq, Eq, Structural)]
pub struct Config {
    /// Interval between two measurements.
    pub poll_interval: u64,
    /// Interval between two flushes of the measurements.
    pub flush_interval: u64,
    /// Whether the temperature sensors are read.
    pub enable_temperature: bool,
    /// Whether only the temperature of the CPU packages is read.
    pub coretemp_package_only: bool,
}

impl Default for Config {
    /// Polls every second and flushes every five seconds; the temperature is off.
    fn default() -> (c: Self)
        ensures
            c == (Config {
                poll_interval: 1_000_000_000,
                flush_interval: 5_000_000_000,
                enable_temperature: false,
                coretemp_package_only: false,
            }),
    {
        Config {
            poll_interval: 1_000_000_000,
            flush_interval: 5_000_000_000,
            enable_temperature: false,
            coretemp_package_only: false,
        }
    }
}

/// Why the lm-sensors plugin cannot start.
#[derive(Debug, Clone, Copy, PartialEq, Eq, Structural)]
pub enum StartError {
    /// The temperature, the only feature so far, is not enabled.
    TemperatureDisabled,
}

impl StartError {
    /// What went wrong, in words.
    pub fn message(&self) -> (s: &'static str)
        ensures
            s@ == "For the moment only the temperature feature of LMSensors is implemented.\nPlease enable it in the configuration with the 'enable_temperature' field."@,
    {
        "For the moment only the temperature feature of LMSensors is implemented.\nPlease enable it in the configuration with the 'enable_temperature' field."
    }
}

/// Checks that a configuration can start: the temperature must be enabled.
pub fn check_start(config: &Config) -> (r: Result<(), StartError>)
    ensures
        r is Ok <==> config.enable_temperature,
        r is Err ==> r == Err::<(), StartError>(StartError::TemperatureDisabled),
{
    if config.enable_temperature {
        Ok(())
    } else {
        Err(StartError::TemperatureDisabled)
    }
}

/// After how many polls the measurements are flushed: as many as fit in the flush interval, at
/// least one.
pub open spec fn rounds_per_flush(flush_interval: u64, poll_interval: u64) -> u64 {
    if flush_interval / poll_interval >= 1 {
        flush_interval / poll_interval
    } else {
        1
    }
}

/// The number of polls between two flushes.
pub fn flush_rounds(flush_interval: u64, poll_interval: u64) -> (r: u64)
    requires
        poll_interval > 0,
    ensures
        r == rounds_per_flush(flush_interval, poll_interval),
        r >= 1,
{
    let n = flush_interval / poll_interval;
    if n >= 1 {
        n
    } else {
        1
    }
}

/// Ends a poll: the count of polls since the last flush becomes `round + 1`, unless that makes
/// a full series of `flush_rounds` polls, in which case the measurements are flushed (the second
/// result) and the count starts again from zero.
pub fn end_round(round: u64, flush_rounds: u64) -> (r: (u64, bool))
    requires
        round < flush_rounds,
    ensures
        r == (if round + 1 == flush_rounds {
            (0u64, true)
        } else {
            ((round + 1) as u64, false)
        }),
        r.0 < flush_rounds,
{
    let next = round + 1;
    if next == flush_rounds {
        (0, true)
    } else {
        (next, false)
    }
}

/// The count of polls since the last flush, and the number of flushes, after `k` polls from
/// the start, by [`end_round`].
pub open spec fn after_rounds(k: nat, flush_rounds: u64) -> (int, int)
    decreases k,
{
    if k == 0 {
        (0, 0)
    } else {
        let (round, flushes) = after_rounds((k - 1) as nat, flush_rounds);
        if round + 1 == flush_rounds {
            (0, flushes + 1)
        } else {
            (round + 1, flushes)
        }
    }
}

/// After `k` polls, the measurements have been flushed once per full series of `flush_rounds`
/// polls, and the polls since the last flush are the rest.
pub proof fn lemma_flush_every_series(k: nat, flush_rounds: u64)
    requires
        flush_rounds >= 1,
    ensures
        after_rounds(k, flush_rounds) == ((k as int) % (flush_rounds as int), (k as int) / (flush_rounds as int)),
    decreases k,
{
    let n = flush_rounds as int;
    if k == 0 {
        assert(0int % n == 0) by (nonlinear_arith) requires n >= 1;
        assert(0int / n == 0) by (nonlinear_arith) requires n >= 1;
    } else {
        let j = (k - 1) as nat;
        lemma_flush_every_series(j, flush_rounds);
        let q = j as int / n;
        let r = j as int % n;
        vstd::arithmetic::div_mod::lemma_fundamental_div_mod(j as int, n);
        vstd::arithmetic::div_mod::lemma_mod_pos_bound(j as int, n);
        if r + 1 == n {
            assert(k == (q + 1) * n + 0) by (nonlinear_arith)
                requires
                    j == n * q + r,
                    r + 1 == n,
                    k == j + 1;
            vstd::arithmetic::div_mod::lemma_fundamental_div_mod_converse(k as int, n, q + 1, 0);
        } else {
            assert(k == q * n + (r + 1)) by (nonlinear_arith)
                requires
                    j == n * q + r,
                    k == j + 1;
            vstd::arithmetic::div_mod::lemma_fundamental_div_mod_converse(k as int, n, q, r + 1);
        }
    }
}

/// The metric of the temperatures read through lm-sensors.
pub fn temperature_metric() -> (m: MetricSpec)
    ensures
        metric_view(m) == ("lm_sensors_temperature"@, PrefixedUnit { base_unit: Unit::DegreeCelsius, prefix: UnitPrefix::Plain }, "Temperature measured, as reported by lm_sensors."@),
{
    definition("lm_sensors_temperature", Unit::DegreeCelsius, UnitPrefix::Plain, "Temperature measured, as reported by lm_sensors.")
}

} // verus!
