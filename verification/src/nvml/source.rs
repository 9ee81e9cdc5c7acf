//! What one poll of a GPU measures, from the features of the device and the readings made on
//! it; the readings themselves are made by the caller.

use vstd::prelude::*;
use crate::nvml::features::{AvailableVersion, NvmlFailure, OptionalFeatures};

verus! {

/// The metrics of a GPU source.
#[derive(Debug, Clone, Copy, PartialEq, Eq, Structural)]
pub enum GpuMetric {
    /// Energy consumed since the previous measurement, in millijoules.
    EnergyConsumption,
    /// Instantaneous power, in milliwatts.
    InstantPower,
    /// Temperature of the GPU, in °C.
    TemperatureGpu,
    /// GPU utilization, in percent.
    MajorUtilizationGpu,
    /// Memory utilization, in percent.
    MajorUtilizationMemory,
    /// Decoder utilization, in percent.
    DecoderUtilization,
    /// Sampling period of the decoder, in µs.
    DecoderSamplingPeriod,
    /// Encoder utilization, in percent.
    EncoderUtilization,
    /// Sampling period of the encoder, in µs.
    EncoderSamplingPeriod,
    /// Number of processes with a compute context.
    RunningComputeProcesses,
    /// Number of processes with a graphics context.
    RunningGraphicsProcesses,
    /// Utilization of the streaming multiprocessors by a process, in percent.
    SmUtilization,
}

/// A measurement of a poll: its metric, the process it is about (none for the whole device)
/// and its value.
#[derive(Debug, Clone, Copy, PartialEq, Eq, Structural)]
pub struct GpuPoint {
    pub metric: GpuMetric,
    pub pid: Option<u32>,
    pub value: u64,
}

/// A sample of the utilization of the GPU by a process.
#[derive(Debug, Clone, Copy, PartialEq, Eq, Structural)]
pub struct ProcessSample {
    pub pid: u32,
    pub sm_util: u32,
    pub mem_util: u32,
    pub enc_util: u32,
    pub dec_util: u32,
}

/// A utilization in percent with its sampling period in µs, as the decoder and the encoder
/// report it.
#[derive(Debug, Clone, Copy, PartialEq, Eq, Structural)]
pub struct UtilizationInfo {
    pub utilization: u32,
    pub sampling_period: u32,
}

/// The utilization of the GPU and of its memory, in percent.
#[derive(Debug, Clone, Copy, PartialEq, Eq, Structural)]
pub struct Utilization {
    pub gpu: u32,
    pub memory: u32,
}

/// The outcome of each reading made for a poll; a reading is made (and present here) exactly
/// when the poll needs it.
pub struct GpuReadings {
    pub total_energy_consumption: Option<Result<u64, NvmlFailure>>,
    pub power_usage: Option<Result<u32, NvmlFailure>>,
    pub temperature: Option<Result<u32, NvmlFailure>>,
    pub utilization_rates: Option<Result<Utilization, NvmlFailure>>,
    pub decoder_utilization: Option<Result<UtilizationInfo, NvmlFailure>>,
    pub encoder_utilization: Option<Result<UtilizationInfo, NvmlFailure>>,
    pub running_compute_processes: Option<Result<u32, NvmlFailure>>,
    pub running_graphics_processes: Option<Result<u32, NvmlFailure>>,
    pub process_samples: Option<Result<Vec<ProcessSample>, NvmlFailure>>,
}

/// What a poll gave: the measurements made before the first failed reading, and that failure.
pub struct PollOutcome {
    pub points: Vec<GpuPoint>,
    pub error: Option<NvmlFailure>,
}

/// The increase of a counter that wraps around after `u64::MAX`, from `prev` to `now`.
pub open spec fn counter_increase(prev: u64, now: u64) -> u64 {
    if now >= prev {
        (now - prev) as u64
    } else {
        (u64::MAX - prev + now + 1) as u64
    }
}

/// The increase of an energy counter between two readings, added to the first reading, gives
/// the second one, modulo the range of the counter: a counter that wraps around loses nothing.
pub proof fn lemma_counter_increase_adds_up(prev: u64, now: u64)
    ensures
        (prev + counter_increase(prev, now)) % 0x1_0000_0000_0000_0000 == now,
        now >= prev ==> counter_increase(prev, now) == now - prev,
{
    if now >= prev {
        assert((prev + (now - prev)) % 0x1_0000_0000_0000_0000int == now) by (nonlinear_arith)
            requires now < 0x1_0000_0000_0000_0000int;
    } else {
        assert((prev + (u64::MAX - prev + now + 1)) % 0x1_0000_0000_0000_0000int == now) by (nonlinear_arith)
            requires now < prev, prev <= u64::MAX;
    }
}

/// The state of a GPU source between two polls.
pub struct GpuPollState {
    /// Last value of the energy counter, in millijoules.
    pub energy_counter: Option<u64>,
    /// Time of the last poll, in seconds since the Unix epoch, kept once utilization samples
    /// of processes are read.
    pub last_poll_timestamp: Option<u64>,
}

/// A measurement of the whole device.
pub open spec fn device_point(metric: GpuMetric, value: u64) -> GpuPoint {
    GpuPoint { metric, pid: None, value }
}

/// The measurements made from one sample of a process.
pub open spec fn sample_points(s: ProcessSample) -> Seq<GpuPoint> {
    seq![
        GpuPoint { metric: GpuMetric::SmUtilization, pid: Some(s.pid), value: s.sm_util as u64 },
        GpuPoint { metric: GpuMetric::MajorUtilizationMemory, pid: Some(s.pid), value: s.mem_util as u64 },
        GpuPoint { metric: GpuMetric::EncoderUtilization, pid: Some(s.pid), value: s.enc_util as u64 },
        GpuPoint { metric: GpuMetric::DecoderUtilization, pid: Some(s.pid), value: s.dec_util as u64 },
    ]
}

/// The measurements made from a list of samples, in order.
pub open spec fn samples_points(s: Seq<ProcessSample>) -> Seq<GpuPoint>
    decreases s.len(),
{
    if s.len() == 0 {
        Seq::empty()
    } else {
        samples_points(s.drop_last()) + sample_points(s.last())
    }
}

/// Whether the readings are exactly those that a poll of a device with features `f` needs,
/// when utilization samples of processes are read since `since`.
pub open spec fn readings_fit(f: OptionalFeatures, since: Option<u64>, r: GpuReadings) -> bool {
    &&& r.total_energy_consumption is Some <==> f.total_energy_consumption
    &&& r.power_usage is Some <==> f.instant_power
    &&& r.temperature is Some <==> f.temperature_gpu
    &&& r.utilization_rates is Some <==> f.major_utilization
    &&& r.decoder_utilization is Some <==> f.decoder_utilization
    &&& r.encoder_utilization is Some <==> f.encoder_utilization
    &&& r.running_compute_processes is Some <==> f.running_compute_processes
        != AvailableVersion::Unavailable
    &&& r.running_graphics_processes is Some <==> f.running_graphics_processes
        != AvailableVersion::Unavailable
    &&& r.process_samples is Some <==> (f.process_utilization_stats && since is Some)
}

/// One step of a poll: the measurements it makes, or the failure that stops the poll.
pub open spec fn step<T>(reading: Option<Result<T, NvmlFailure>>, points: spec_fn(T) -> Seq<GpuPoint>) -> Result<Seq<GpuPoint>, NvmlFailure> {
    match reading {
        None => Ok(Seq::empty()),
        Some(Ok(v)) => Ok(points(v)),
        Some(Err(e)) => Err(e),
    }
}

/// The step of the energy counter; `energy` is its increase, if known.
pub open spec fn energy_step(r: GpuReadings, energy: Option<u64>) -> Result<Seq<GpuPoint>, NvmlFailure> {
    step(r.total_energy_consumption, |v: u64| match energy {
        Some(d) => seq![device_point(GpuMetric::EnergyConsumption, d)],
        None => Seq::empty(),
    })
}

/// The step of the instantaneous power.
pub open spec fn power_step(r: GpuReadings) -> Result<Seq<GpuPoint>, NvmlFailure> {
    step(r.power_usage, |v: u32| seq![device_point(GpuMetric::InstantPower, v as u64)])
}

/// The step of the temperature.
pub open spec fn temperature_step(r: GpuReadings) -> Result<Seq<GpuPoint>, NvmlFailure> {
    step(r.temperature, |v: u32| seq![device_point(GpuMetric::TemperatureGpu, v as u64)])
}

/// The step of the utilization rates.
pub open spec fn utilization_step(r: GpuReadings) -> Result<Seq<GpuPoint>, NvmlFailure> {
    step(r.utilization_rates, |u: Utilization| seq![
        device_point(GpuMetric::MajorUtilizationGpu, u.gpu as u64),
        device_point(GpuMetric::MajorUtilizationMemory, u.memory as u64),
    ])
}

/// The step of the decoder.
pub open spec fn decoder_step(r: GpuReadings) -> Result<Seq<GpuPoint>, NvmlFailure> {
    step(r.decoder_utilization, |u: UtilizationInfo| seq![
        device_point(GpuMetric::DecoderUtilization, u.utilization as u64),
        device_point(GpuMetric::DecoderSamplingPeriod, u.sampling_period as u64),
    ])
}

/// The step of the encoder.
pub open spec fn encoder_step(r: GpuReadings) -> Result<Seq<GpuPoint>, NvmlFailure> {
    step(r.encoder_utilization, |u: UtilizationInfo| seq![
        device_point(GpuMetric::EncoderUtilization, u.utilization as u64),
        device_point(GpuMetric::EncoderSamplingPeriod, u.sampling_period as u64),
    ])
}

/// The step of the processes with a compute context.
pub open spec fn compute_step(r: GpuReadings) -> Result<Seq<GpuPoint>, NvmlFailure> {
    step(r.running_compute_processes, |n: u32| seq![device_point(GpuMetric::RunningComputeProcesses, n as u64)])
}

/// The step of the processes with a graphics context.
pub open spec fn graphics_step(r: GpuReadings) -> Result<Seq<GpuPoint>, NvmlFailure> {
    step(r.running_graphics_processes, |n: u32| seq![device_point(GpuMetric::RunningGraphicsProcesses, n as u64)])
}

/// The step of the utilization samples of processes; "not found" means no sample.
pub open spec fn samples_step(r: GpuReadings) -> Result<Seq<GpuPoint>, NvmlFailure> {
    match r.process_samples {
        None => Ok(Seq::empty()),
        Some(Ok(v)) => Ok(samples_points(v@)),
        Some(Err(NvmlFailure::NotFound)) => Ok(Seq::empty()),
        Some(Err(e)) => Err(e),
    }
}

/// The steps of a poll, in order; `energy` is the increase of the energy counter, if known.
#[verifier::opaque]
pub open spec fn poll_steps(r: GpuReadings, energy: Option<u64>) -> Seq<Result<Seq<GpuPoint>, NvmlFailure>> {
    seq![
        energy_step(r, energy),
        power_step(r),
        temperature_step(r),
        utilization_step(r),
        decoder_step(r),
        encoder_step(r),
        compute_step(r),
        graphics_step(r),
        samples_step(r),
    ]
}

proof fn lemma_poll_steps(r: GpuReadings, energy: Option<u64>)
    ensures
        poll_steps(r, energy).len() == 9,
        poll_steps(r, energy)[0] == energy_step(r, energy),
        poll_steps(r, energy)[1] == power_step(r),
        poll_steps(r, energy)[2] == temperature_step(r),
        poll_steps(r, energy)[3] == utilization_step(r),
        poll_steps(r, energy)[4] == decoder_step(r),
        poll_steps(r, energy)[5] == encoder_step(r),
        poll_steps(r, energy)[6] == compute_step(r),
        poll_steps(r, energy)[7] == graphics_step(r),
        poll_steps(r, energy)[8] == samples_step(r),
{
    reveal(poll_steps);
}

/// The measurements of the steps up to the first failure, and that failure.
pub open spec fn run_steps(steps: Seq<Result<Seq<GpuPoint>, NvmlFailure>>) -> (Seq<GpuPoint>, Option<NvmlFailure>)
    decreases steps.len(),
{
    if steps.len() == 0 {
        (Seq::empty(), None)
    } else {
        match steps[0] {
            Ok(p) => {
                let rest = run_steps(steps.skip(1));
                (p + rest.0, rest.1)
            },
            Err(e) => (Seq::empty(), Some(e)),
        }
    }
}

/// Whether `readings` hold exactly the readings that the features `f` call for, with the
/// utilization samples of processes read only when they are read `since` a previous poll.
pub fn readings_fit_check(f: &OptionalFeatures, since: Option<u64>, r: &GpuReadings) -> (b: bool)
    ensures
        b == readings_fit(*f, since, *r),
{
    (r.total_energy_consumption.is_some() == f.total_energy_consumption)
        && (r.power_usage.is_some() == f.instant_power)
        && (r.temperature.is_some() == f.temperature_gpu)
        && (r.utilization_rates.is_some() == f.major_utilization)
        && (r.decoder_utilization.is_some() == f.decoder_utilization)
        && (r.encoder_utilization.is_some() == f.encoder_utilization)
        && (r.running_compute_processes.is_some() == (f.running_compute_processes
        != AvailableVersion::Unavailable))
        && (r.running_graphics_processes.is_some() == (f.running_graphics_processes
        != AvailableVersion::Unavailable))
        && (r.process_samples.is_some() == (f.process_utilization_stats && since.is_some()))
}

impl GpuPollState {
    /// The state of a source that has not polled yet.
    pub fn new() -> (s: Self)
        ensures
            s.energy_counter is None,
            s.last_poll_timestamp is None,
    {
        GpuPollState { energy_counter: None, last_poll_timestamp: None }
    }

    /// Since when the utilization samples of processes are to be read in the next poll of a
    /// device with features `f`, if they are.
    pub fn samples_since(&self, features: &OptionalFeatures) -> (r: Option<u64>)
        ensures
            r == (if features.process_utilization_stats {
                self.last_poll_timestamp
            } else {
                None
            }),
    {
        if features.process_utilization_stats {
            self.last_poll_timestamp
        } else {
            None
        }
    }

    /// Takes a new value of the energy counter and returns its increase since the previous one.
    pub fn update_energy(&mut self, value: u64) -> (d: Option<u64>)
        ensures
            final(self).energy_counter == Some(value),
            final(self).last_poll_timestamp == old(self).last_poll_timestamp,
            d == match old(self).energy_counter {
                Some(prev) => Some(counter_increase(prev, value)),
                None => None,
            },
    {
        let d = match self.energy_counter {
            Some(prev) => Some(
                if value >= prev {
                    value - prev
                } else {
                    u64::MAX - prev + value + 1
                },
            ),
            None => None,
        };
        self.energy_counter = Some(value);
        d
    }
}

fn push_point(points: &mut Vec<GpuPoint>, metric: GpuMetric, pid: Option<u32>, value: u64)
    ensures
        final(points)@ == old(points)@.push(GpuPoint { metric, pid, value }),
{
    points.push(GpuPoint { metric, pid, value });
}

proof fn lemma_run_prefix(steps: Seq<Result<Seq<GpuPoint>, NvmlFailure>>, k: int)
    requires
        0 <= k <= steps.len(),
        forall|j: int| 0 <= j < k ==> (#[trigger] steps[j]) is Ok,
    ensures
        run_steps(steps).0 == prefix_points(steps, k) + run_steps(steps.skip(k)).0,
        run_steps(steps).1 == run_steps(steps.skip(k)).1,
    decreases k,
{
    if k > 0 {
        assert(steps[0] is Ok);
        let rest = steps.skip(1);
        assert forall|j: int| 0 <= j < k - 1 implies (#[trigger] rest[j]) is Ok by {
            assert(rest[j] == steps[j + 1]);
        }
        lemma_run_prefix(rest, k - 1);
        assert(rest.skip(k - 1) =~= steps.skip(k));
        assert(prefix_points(steps, k) =~= steps[0]->Ok_0 + prefix_points(rest, k - 1)) by {
            lemma_prefix_shift(steps, k);
        }
    } else {
        assert(steps.skip(0) =~= steps);
    }
}

/// The measurements of the first `k` steps, which all succeed.
pub open spec fn prefix_points(steps: Seq<Result<Seq<GpuPoint>, NvmlFailure>>, k: int) -> Seq<GpuPoint>
    decreases k,
{
    if k <= 0 {
        Seq::empty()
    } else {
        prefix_points(steps, k - 1) + match steps[k - 1] {
            Ok(p) => p,
            Err(_) => Seq::empty(),
        }
    }
}

proof fn lemma_prefix_shift(steps: Seq<Result<Seq<GpuPoint>, NvmlFailure>>, k: int)
    requires
        0 < k <= steps.len(),
        steps[0] is Ok,
    ensures
        prefix_points(steps, k) == steps[0]->Ok_0 + prefix_points(steps.skip(1), k - 1),
    decreases k,
{
    if k > 1 {
        lemma_prefix_shift(steps, k - 1);
        assert(steps.skip(1)[k - 2] == steps[k - 1]);
        assert(prefix_points(steps, k) =~= steps[0]->Ok_0 + prefix_points(steps.skip(1), k - 1));
    } else {
        assert(prefix_points(steps, 0) =~= Seq::<GpuPoint>::empty());
        assert(prefix_points(steps, 1) =~= steps[0]->Ok_0);
        assert(prefix_points(steps.skip(1), 0) =~= Seq::<GpuPoint>::empty());
    }
}


fn stop(
    points: Vec<GpuPoint>,
    e: NvmlFailure,
    Ghost(steps): Ghost<Seq<Result<Seq<GpuPoint>, NvmlFailure>>>,
    Ghost(k): Ghost<int>,
) -> (out: PollOutcome)
    requires
        0 <= k < steps.len(),
        forall|j: int| 0 <= j < k ==> (#[trigger] steps[j]) is Ok,
        steps[k] == Err::<Seq<GpuPoint>, NvmlFailure>(e),
        points@ == prefix_points(steps, k),
    ensures
        (out.points@, out.error) == run_steps(steps),
        out.error == Some(e),
{
    proof {
        lemma_run_prefix(steps, k);
        assert(steps.skip(k)[0] == steps[k]);
        assert(run_steps(steps.skip(k)) == (Seq::<GpuPoint>::empty(), Some(e)));
        assert(points@ + Seq::<GpuPoint>::empty() =~= points@);
    }
    PollOutcome { points, error: Some(e) }
}

/// The increase of the energy counter that a poll measures, if it can be known.
pub open spec fn energy_increase(counter: Option<u64>, r: GpuReadings) -> Option<u64> {
    match (counter, r.total_energy_consumption) {
        (Some(prev), Some(Ok(v))) => Some(counter_increase(prev, v)),
        _ => None,
    }
}

impl GpuPollState {
    /// Performs the decisions of a poll made at `now` (seconds since the Unix epoch) on a device
    /// with features `features`, from the readings made for it: each available feature gives
    /// its measurements, in a fixed order, until a reading fails. The energy counter takes a
    /// successful reading; the time of the poll is kept when utilization samples of processes
    /// are wanted and no reading failed.
    #[verifier::spinoff_prover]
    #[verifier::rlimit(60)]
    pub fn poll(&mut self, features: &OptionalFeatures, readings: GpuReadings, now: u64) -> (out: PollOutcome)
        requires
            readings_fit(
                *features,
                if features.process_utilization_stats {
                    old(self).last_poll_timestamp
                } else {
                    None
                },
                readings,
            ),
        ensures
            (out.points@, out.error) == run_steps(
                poll_steps(readings, energy_increase(old(self).energy_counter, readings)),
            ),
            final(self).energy_counter == match readings.total_energy_consumption {
                Some(Ok(v)) => Some(v),
                _ => old(self).energy_counter,
            },
            final(self).last_poll_timestamp == (if out.error is None
                && features.process_utilization_stats {
                Some(now)
            } else {
                old(self).last_poll_timestamp
            }),
    {
        let ghost steps = poll_steps(readings, energy_increase(self.energy_counter, readings));
        proof {
            lemma_poll_steps(readings, energy_increase(self.energy_counter, readings));
        }
        let ghost old_last = self.last_poll_timestamp;
        let mut points: Vec<GpuPoint> = Vec::new();
        assert(points@ =~= prefix_points(steps, 0));
        match readings.total_energy_consumption {
            None => {},
            Some(Ok(v)) => {
                let d = self.update_energy(v);
                match d {
                    Some(d) => push_point(&mut points, GpuMetric::EnergyConsumption, None, d),
                    None => {},
                }
            },
            Some(Err(e)) => return stop(points, e, Ghost(steps), Ghost(0)),
        }
        assert(points@ =~= prefix_points(steps, 1));
        match readings.power_usage {
            None => {},
            Some(Ok(v)) => push_point(&mut points, GpuMetric::InstantPower, None, v as u64),
            Some(Err(e)) => return stop(points, e, Ghost(steps), Ghost(1)),
        }
        assert(points@ =~= prefix_points(steps, 2));
        match readings.temperature {
            None => {},
            Some(Ok(v)) => push_point(&mut points, GpuMetric::TemperatureGpu, None, v as u64),
            Some(Err(e)) => return stop(points, e, Ghost(steps), Ghost(2)),
        }
        assert(points@ =~= prefix_points(steps, 3));
        match readings.utilization_rates {
            None => {},
            Some(Ok(u)) => {
                push_point(&mut points, GpuMetric::MajorUtilizationGpu, None, u.gpu as u64);
                push_point(&mut points, GpuMetric::MajorUtilizationMemory, None, u.memory as u64);
            },
            Some(Err(e)) => return stop(points, e, Ghost(steps), Ghost(3)),
        }
        assert(points@ =~= prefix_points(steps, 4));
        match readings.decoder_utilization {
            None => {},
            Some(Ok(u)) => {
                push_point(&mut points, GpuMetric::DecoderUtilization, None, u.utilization as u64);
                push_point(
                    &mut points,
                    GpuMetric::DecoderSamplingPeriod,
                    None,
                    u.sampling_period as u64,
                );
            },
            Some(Err(e)) => return stop(points, e, Ghost(steps), Ghost(4)),
        }
        assert(points@ =~= prefix_points(steps, 5));
        match readings.encoder_utilization {
            None => {},
            Some(Ok(u)) => {
                push_point(&mut points, GpuMetric::EncoderUtilization, None, u.utilization as u64);
                push_point(
                    &mut points,
                    GpuMetric::EncoderSamplingPeriod,
                    None,
                    u.sampling_period as u64,
                );
            },
            Some(Err(e)) => return stop(points, e, Ghost(steps), Ghost(5)),
        }
        assert(points@ =~= prefix_points(steps, 6));
        match readings.running_compute_processes {
            None => {},
            Some(Ok(n)) => push_point(&mut points, GpuMetric::RunningComputeProcesses, None, n as u64),
            Some(Err(e)) => return stop(points, e, Ghost(steps), Ghost(6)),
        }
        assert(points@ =~= prefix_points(steps, 7));
        match readings.running_graphics_processes {
            None => {},
            Some(Ok(n)) => push_point(&mut points, GpuMetric::RunningGraphicsProcesses, None, n as u64),
            Some(Err(e)) => return stop(points, e, Ghost(steps), Ghost(7)),
        }
        assert(points@ =~= prefix_points(steps, 8));
        match readings.process_samples {
            None => {},
            Some(Ok(samples)) => {
                push_samples(&mut points, &samples);
            },
            Some(Err(NvmlFailure::NotFound)) => {},
            Some(Err(e)) => return stop(points, e, Ghost(steps), Ghost(8)),
        }
        assert(points@ =~= prefix_points(steps, 9));
        if features.process_utilization_stats {
            self.last_poll_timestamp = Some(now);
        }
        proof {
            lemma_run_prefix(steps, 9);
            assert(steps.skip(9) =~= Seq::<Result<Seq<GpuPoint>, NvmlFailure>>::empty());
            assert(points@ + Seq::<GpuPoint>::empty() =~= points@);
        }
        PollOutcome { points, error: None }
    }
}

fn push_samples(points: &mut Vec<GpuPoint>, samples: &Vec<ProcessSample>)
    ensures
        final(points)@ == old(points)@ + samples_points(samples@),
{
    let ghost start = points@;
    let mut i: usize = 0;
    assert(samples@.take(0) =~= Seq::<ProcessSample>::empty());
    assert(start + Seq::<GpuPoint>::empty() =~= start);
    while i < samples.len()
        invariant
            0 <= i <= samples@.len(),
            points@ == start + samples_points(samples@.take(i as int)),
        decreases samples.len() - i,
    {
        let s = samples[i];
        assert(samples@.take(i + 1).drop_last() =~= samples@.take(i as int));
        push_point(points, GpuMetric::SmUtilization, Some(s.pid), s.sm_util as u64);
        push_point(points, GpuMetric::MajorUtilizationMemory, Some(s.pid), s.mem_util as u64);
        push_point(points, GpuMetric::EncoderUtilization, Some(s.pid), s.enc_util as u64);
        push_point(points, GpuMetric::DecoderUtilization, Some(s.pid), s.dec_util as u64);
        i = i + 1;
        assert(points@ =~= start + samples_points(samples@.take(i as int)));
    }
    assert(samples@.take(samples@.len() as int) =~= samples@);
}

} // verus!
