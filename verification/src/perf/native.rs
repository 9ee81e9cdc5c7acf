//! Native perf events: the built-in kernel tables (hardware, software, cache).
//!
//! [`parse`] turns a symbolic name into a [`NamedPerfEvent`], trying the hardware table, then the
//! software table, then the compositional cache form `<cache>_<op>_<result>`. The numeric ids are
//! those of the kernel's `perf_event_open` ABI (`PERF_COUNT_HW_*`, `PERF_COUNT_SW_*`,
//! `PERF_COUNT_HW_CACHE_*`); the encodings themselves are produced by the `perf-event2` crate.

use vstd::prelude::*;
use crate::perf::spec::{EventEncoding, NamedPerfEvent};
use crate::text::{
    chars_of, is_word, push_all, push_str, split_once, split_once_at, string_of, upper, upper_all,
};
use perf_event::events::{Cache, CacheId, CacheOp, CacheResult, Event, Hardware, Software};
use perf_event_open_sys::bindings::perf_event_attr;

verus! {

/// A name that none of the native tables knows.
#[derive(Debug, Clone, Copy, PartialEq, Eq, Structural)]
pub struct UnknownEventError;

/// Why a name is not a native event.
#[derive(Debug, Clone, PartialEq, Eq)]
pub enum NativeError {
    /// Not of the form `<cache>_<op>_<result>`.
    MalformedCache,
    /// The cache part is unknown; the upper-cased cache part is given.
    UnknownCacheId(String),
    /// The operation part is unknown; the upper-cased cache part is given.
    UnknownCacheOp(String),
    /// The result part is unknown; the upper-cased cache part is given.
    UnknownCacheResult(String),
}

/// The kind of a [`NativeError`].
#[derive(Debug, Clone, Copy, PartialEq, Eq, Structural)]
pub enum NativeErrorKind {
    MalformedCache,
    UnknownCacheId,
    UnknownCacheOp,
    UnknownCacheResult,
}

/// Hardware event id and description of an upper-case name.
pub open spec fn hardware_entry(u: Seq<char>) -> Option<(u64, Seq<char>)> {
    if u == "CPU_CYCLES"@ {
        Some((0u64, "Total cycles."@))
    } else if u == "INSTRUCTIONS"@ {
        Some((1u64, "Retired instructions"@))
    } else if u == "CACHE_REFERENCES"@ {
        Some((2u64, "Cache accesses"@))
    } else if u == "CACHE_MISSES"@ {
        Some((3u64, "Cache misses"@))
    } else if u == "BRANCH_INSTRUCTIONS"@ {
        Some((4u64, "Retired branch instructions"@))
    } else if u == "BRANCH_MISSES"@ {
        Some((5u64, "Mispredicted branch instructions"@))
    } else if u == "BUS_CYCLES"@ {
        Some((6u64, "Bus cycles"@))
    } else if u == "STALLED_CYCLES_FRONTEND"@ {
        Some((7u64, "Stalled cycles during issue"@))
    } else if u == "STALLED_CYCLES_BACKEND"@ {
        Some((8u64, "Stalled cycles during retirement"@))
    } else if u == "REF_CPU_CYCLES"@ {
        Some((9u64, "Total cycles, independent of frequency scaling"@))
    } else {
        None
    }
}

/// Software event id and description of an upper-case name. `CPU_CLOCK` and `TASK_CLOCK` are
/// left out, as they need a period or frequency.
pub open spec fn software_entry(u: Seq<char>) -> Option<(u64, Seq<char>)> {
    if u == "PAGE_FAULTS"@ {
        Some((2u64, "Page faults."@))
    } else if u == "CONTEXT_SWITCHES"@ {
        Some((3u64, "Context switches."@))
    } else if u == "CPU_MIGRATIONS"@ {
        Some((4u64, "Process migration to another CPU."@))
    } else if u == "PAGE_FAULTS_MIN"@ {
        Some((5u64, "Minor page faults: resolved without needing I/O."@))
    } else if u == "PAGE_FAULTS_MAJ"@ {
        Some((6u64, "Major page faults: I/O was required to resolve these."@))
    } else if u == "ALIGNMENT_FAULTS"@ {
        Some((7u64, "Alignment faults that required kernel intervention."@))
    } else if u == "EMULATION_FAULTS"@ {
        Some((8u64, "Instruction emulation faults."@))
    } else if u == "CGROUP_SWITCHES"@ {
        Some((11u64, "Context switches to a task in a different cgroup."@))
    } else {
        None
    }
}

/// Cache id and description of an upper-case cache name.
pub open spec fn cache_id_entry(u: Seq<char>) -> Option<(u8, Seq<char>)> {
    if u == "L1D"@ {
        Some((0u8, "Level 1 data cache"@))
    } else if u == "L1I"@ {
        Some((1u8, "Level 1 instruction cache"@))
    } else if u == "LL"@ {
        Some((2u8, "Last-level cache"@))
    } else if u == "DTLB"@ {
        Some((3u8, "Data translation lookaside buffer (virtual address translation)"@))
    } else if u == "ITLB"@ {
        Some((4u8, "Instruction translation lookaside buffer (virtual address translation)"@))
    } else if u == "BPU"@ {
        Some((5u8, "Branch prediction."@))
    } else if u == "NODE"@ {
        Some((6u8, "Memory accesses that stay local to the originating NUMA node"@))
    } else {
        None
    }
}

/// Cache operation id and description of an upper-case operation name.
pub open spec fn cache_op_entry(u: Seq<char>) -> Option<(u8, Seq<char>)> {
    if u == "READ"@ {
        Some((0u8, "read accesses"@))
    } else if u == "WRITE"@ {
        Some((1u8, "write accesses"@))
    } else if u == "PREFETCH"@ {
        Some((2u8, "prefetch accesses"@))
    } else {
        None
    }
}

/// Cache result id and description of an upper-case result name.
pub open spec fn cache_result_entry(u: Seq<char>) -> Option<(u8, Seq<char>)> {
    if u == "ACCESS"@ {
        Some((0u8, "counting the number of cache accesses"@))
    } else if u == "MISS"@ {
        Some((1u8, "counting the number of cache misses"@))
    } else {
        None
    }
}

/// The kernel's hardware event ids, `enum perf_hw_id` of `linux/perf_event.h`: the name after
/// `PERF_COUNT_HW_` of each id, in the order of the ids.
pub open spec fn kernel_hardware_ids() -> Seq<Seq<char>> {
    seq![
        "CPU_CYCLES"@,
        "INSTRUCTIONS"@,
        "CACHE_REFERENCES"@,
        "CACHE_MISSES"@,
        "BRANCH_INSTRUCTIONS"@,
        "BRANCH_MISSES"@,
        "BUS_CYCLES"@,
        "STALLED_CYCLES_FRONTEND"@,
        "STALLED_CYCLES_BACKEND"@,
        "REF_CPU_CYCLES"@,
    ]
}

/// The kernel's software event ids, `enum perf_sw_ids`: the name after `PERF_COUNT_SW_` of each
/// id, in the order of the ids.
pub open spec fn kernel_software_ids() -> Seq<Seq<char>> {
    seq![
        "CPU_CLOCK"@,
        "TASK_CLOCK"@,
        "PAGE_FAULTS"@,
        "CONTEXT_SWITCHES"@,
        "CPU_MIGRATIONS"@,
        "PAGE_FAULTS_MIN"@,
        "PAGE_FAULTS_MAJ"@,
        "ALIGNMENT_FAULTS"@,
        "EMULATION_FAULTS"@,
        "DUMMY"@,
        "BPF_OUTPUT"@,
        "CGROUP_SWITCHES"@,
    ]
}

/// The kernel's cache ids, `enum perf_hw_cache_id`: the name after `PERF_COUNT_HW_CACHE_`.
pub open spec fn kernel_cache_ids() -> Seq<Seq<char>> {
    seq!["L1D"@, "L1I"@, "LL"@, "DTLB"@, "ITLB"@, "BPU"@, "NODE"@]
}

/// The kernel's cache operations, `enum perf_hw_cache_op_id`: the name after
/// `PERF_COUNT_HW_CACHE_OP_`.
pub open spec fn kernel_cache_ops() -> Seq<Seq<char>> {
    seq!["READ"@, "WRITE"@, "PREFETCH"@]
}

/// The kernel's cache results, `enum perf_hw_cache_op_result_id`: the name after
/// `PERF_COUNT_HW_CACHE_RESULT_`.
pub open spec fn kernel_cache_results() -> Seq<Seq<char>> {
    seq!["ACCESS"@, "MISS"@]
}

/// Encoding of the hardware event `id`.
pub open spec fn hardware_encoding_of(id: u64) -> EventEncoding {
    EventEncoding { type_: 0, config: id, config1: 0, config2: 0 }
}

/// Encoding of the software event `id`.
pub open spec fn software_encoding_of(id: u64) -> EventEncoding {
    EventEncoding { type_: 1, config: id, config1: 0, config2: 0 }
}

/// Encoding of the cache event `(id, op, result)`.
pub open spec fn cache_encoding_of(id: u8, op: u8, result: u8) -> EventEncoding {
    EventEncoding {
        type_: 3,
        config: (id as u64) | ((op as u64) << 8u64) | ((result as u64) << 16u64),
        config1: 0,
        config2: 0,
    }
}

/// The upper-case ASCII form of a character sequence.
pub open spec fn upper_seq(s: Seq<char>) -> Seq<char> {
    s.map_values(|c: char| upper(c))
}

/// What [`parse`] resolves `name` to: canonical name, description and encoding.
pub open spec fn native_event(name: Seq<char>) -> Result<(Seq<char>, Seq<char>, EventEncoding), NativeErrorKind> {
    let u = upper_seq(name);
    if let Some((id, desc)) = hardware_entry(u) {
        Ok((u, desc, hardware_encoding_of(id)))
    } else if let Some((id, desc)) = software_entry(u) {
        Ok((u, desc, software_encoding_of(id)))
    } else {
        cache_event(name)
    }
}

/// What the cache form `<cache>_<op>_<result>` resolves `name` to.
pub open spec fn cache_event(name: Seq<char>) -> Result<(Seq<char>, Seq<char>, EventEncoding), NativeErrorKind> {
    match split_once_at(name, '_') {
        None => Err(NativeErrorKind::MalformedCache),
        Some((a, rest)) => match split_once_at(rest, '_') {
            None => Err(NativeErrorKind::MalformedCache),
            Some((b, c)) => {
                let (ua, ub, uc) = (upper_seq(a), upper_seq(b), upper_seq(c));
                match (cache_id_entry(ua), cache_op_entry(ub), cache_result_entry(uc)) {
                    (None, _, _) => Err(NativeErrorKind::UnknownCacheId),
                    (Some(_), None, _) => Err(NativeErrorKind::UnknownCacheOp),
                    (Some(_), Some(_), None) => Err(NativeErrorKind::UnknownCacheResult),
                    (Some((id, id_desc)), Some((op, op_desc)), Some((res, res_desc))) => Ok(
                        (
                            ua + "_"@ + ub + "_"@ + uc,
                            id_desc + ", "@ + op_desc + ", "@ + res_desc + "."@,
                            cache_encoding_of(id, op, res),
                        ),
                    ),
                }
            },
        },
    }
}

/// The kind of a native error.
pub open spec fn native_error_kind(e: NativeError) -> NativeErrorKind {
    match e {
        NativeError::MalformedCache => NativeErrorKind::MalformedCache,
        NativeError::UnknownCacheId(_) => NativeErrorKind::UnknownCacheId,
        NativeError::UnknownCacheOp(_) => NativeErrorKind::UnknownCacheOp,
        NativeError::UnknownCacheResult(_) => NativeErrorKind::UnknownCacheResult,
    }
}

/// Encoding of the hardware event `id`, through `perf_event::events::Hardware`: its
/// `update_attrs` sets the type to `PERF_TYPE_HARDWARE` (0) and the config to the id, on an
/// all-zero `perf_event_attr`.
#[verifier::external_body]
fn hardware_encoding(id: u64) -> (e: EventEncoding)
    ensures
        e == hardware_encoding_of(id),
{
    let mut attr = perf_event_attr::default();
    Hardware::from(id).update_attrs(&mut attr);
    EventEncoding { type_: attr.type_, config: attr.config, config1: attr.config1, config2: attr.config2 }
}

/// Encoding of the software event `id`, through `perf_event::events::Software`: its
/// `update_attrs` sets the type to `PERF_TYPE_SOFTWARE` (1) and the config to the id, on an
/// all-zero `perf_event_attr`.
#[verifier::external_body]
fn software_encoding(id: u64) -> (e: EventEncoding)
    ensures
        e == software_encoding_of(id),
{
    let mut attr = perf_event_attr::default();
    Software::from(id).update_attrs(&mut attr);
    EventEncoding { type_: attr.type_, config: attr.config, config1: attr.config1, config2: attr.config2 }
}

/// Encoding of a cache event, through `perf_event::events::Cache`: its `update_attrs` sets the
/// type to `PERF_TYPE_HW_CACHE` (3) and the config to `id | op << 8 | result << 16`, on an
/// all-zero `perf_event_attr`.
#[verifier::external_body]
fn cache_encoding(id: u8, op: u8, result: u8) -> (e: EventEncoding)
    ensures
        e == cache_encoding_of(id, op, result),
{
    let mut attr = perf_event_attr::default();
    let event = Cache { which: CacheId::from(id), operation: CacheOp::from(op), result: CacheResult::from(result) };
    event.update_attrs(&mut attr);
    EventEncoding { type_: attr.type_, config: attr.config, config1: attr.config1, config2: attr.config2 }
}

/// Exec form of [`hardware_entry`].
fn hardware_lookup(u: &[char]) -> (r: Option<(u64, &'static str)>)
    ensures
        r matches Some(e) ==> hardware_entry(u@) == Some((e.0, e.1@)),
        r is None ==> hardware_entry(u@) is None,
{
    if is_word(u, "CPU_CYCLES") {
        Some((0u64, "Total cycles."))
    } else if is_word(u, "INSTRUCTIONS") {
        Some((1u64, "Retired instructions"))
    } else if is_word(u, "CACHE_REFERENCES") {
        Some((2u64, "Cache accesses"))
    } else if is_word(u, "CACHE_MISSES") {
        Some((3u64, "Cache misses"))
    } else if is_word(u, "BRANCH_INSTRUCTIONS") {
        Some((4u64, "Retired branch instructions"))
    } else if is_word(u, "BRANCH_MISSES") {
        Some((5u64, "Mispredicted branch instructions"))
    } else if is_word(u, "BUS_CYCLES") {
        Some((6u64, "Bus cycles"))
    } else if is_word(u, "STALLED_CYCLES_FRONTEND") {
        Some((7u64, "Stalled cycles during issue"))
    } else if is_word(u, "STALLED_CYCLES_BACKEND") {
        Some((8u64, "Stalled cycles during retirement"))
    } else if is_word(u, "REF_CPU_CYCLES") {
        Some((9u64, "Total cycles, independent of frequency scaling"))
    } else {
        None
    }
}

/// Exec form of [`software_entry`].
fn software_lookup(u: &[char]) -> (r: Option<(u64, &'static str)>)
    ensures
        r matches Some(e) ==> software_entry(u@) == Some((e.0, e.1@)),
        r is None ==> software_entry(u@) is None,
{
    if is_word(u, "PAGE_FAULTS") {
        Some((2u64, "Page faults."))
    } else if is_word(u, "CONTEXT_SWITCHES") {
        Some((3u64, "Context switches."))
    } else if is_word(u, "CPU_MIGRATIONS") {
        Some((4u64, "Process migration to another CPU."))
    } else if is_word(u, "PAGE_FAULTS_MIN") {
        Some((5u64, "Minor page faults: resolved without needing I/O."))
    } else if is_word(u, "PAGE_FAULTS_MAJ") {
        Some((6u64, "Major page faults: I/O was required to resolve these."))
    } else if is_word(u, "ALIGNMENT_FAULTS") {
        Some((7u64, "Alignment faults that required kernel intervention."))
    } else if is_word(u, "EMULATION_FAULTS") {
        Some((8u64, "Instruction emulation faults."))
    } else if is_word(u, "CGROUP_SWITCHES") {
        Some((11u64, "Context switches to a task in a different cgroup."))
    } else {
        None
    }
}

/// Exec form of [`cache_id_entry`].
fn cache_id_lookup(u: &[char]) -> (r: Option<(u8, &'static str)>)
    ensures
        r matches Some(e) ==> cache_id_entry(u@) == Some((e.0, e.1@)),
        r is None ==> cache_id_entry(u@) is None,
{
    if is_word(u, "L1D") {
        Some((0u8, "Level 1 data cache"))
    } else if is_word(u, "L1I") {
        Some((1u8, "Level 1 instruction cache"))
    } else if is_word(u, "LL") {
        Some((2u8, "Last-level cache"))
    } else if is_word(u, "DTLB") {
        Some((3u8, "Data translation lookaside buffer (virtual address translation)"))
    } else if is_word(u, "ITLB") {
        Some((4u8, "Instruction translation lookaside buffer (virtual address translation)"))
    } else if is_word(u, "BPU") {
        Some((5u8, "Branch prediction."))
    } else if is_word(u, "NODE") {
        Some((6u8, "Memory accesses that stay local to the originating NUMA node"))
    } else {
        None
    }
}

/// Exec form of [`cache_op_entry`].
fn cache_op_lookup(u: &[char]) -> (r: Option<(u8, &'static str)>)
    ensures
        r matches Some(e) ==> cache_op_entry(u@) == Some((e.0, e.1@)),
        r is None ==> cache_op_entry(u@) is None,
{
    if is_word(u, "READ") {
        Some((0u8, "read accesses"))
    } else if is_word(u, "WRITE") {
        Some((1u8, "write accesses"))
    } else if is_word(u, "PREFETCH") {
        Some((2u8, "prefetch accesses"))
    } else {
        None
    }
}

/// Exec form of [`cache_result_entry`].
fn cache_result_lookup(u: &[char]) -> (r: Option<(u8, &'static str)>)
    ensures
        r matches Some(e) ==> cache_result_entry(u@) == Some((e.0, e.1@)),
        r is None ==> cache_result_entry(u@) is None,
{
    if is_word(u, "ACCESS") {
        Some((0u8, "counting the number of cache accesses"))
    } else if is_word(u, "MISS") {
        Some((1u8, "counting the number of cache misses"))
    } else {
        None
    }
}

fn parse_hardware(u: &[char]) -> (r: Result<NamedPerfEvent, UnknownEventError>)
    ensures
        r matches Ok(e) ==> hardware_entry(u@) matches Some((id, desc)) && e.name@ == u@
            && e.description@ == desc && e.encoding == hardware_encoding_of(id),
        r is Err ==> hardware_entry(u@) is None,
{
    match hardware_lookup(u) {
        Some((id, desc)) => Ok(
            NamedPerfEvent {
                name: string_of(u),
                description: desc.to_owned(),
                encoding: hardware_encoding(id),
            },
        ),
        None => Err(UnknownEventError),
    }
}

fn parse_software(u: &[char]) -> (r: Result<NamedPerfEvent, UnknownEventError>)
    ensures
        r matches Ok(e) ==> software_entry(u@) matches Some((id, desc)) && e.name@ == u@
            && e.description@ == desc && e.encoding == software_encoding_of(id),
        r is Err ==> software_entry(u@) is None,
{
    match software_lookup(u) {
        Some((id, desc)) => Ok(
            NamedPerfEvent {
                name: string_of(u),
                description: desc.to_owned(),
                encoding: software_encoding(id),
            },
        ),
        None => Err(UnknownEventError),
    }
}

fn parse_cache(name: &[char]) -> (r: Result<NamedPerfEvent, NativeError>)
    ensures
        r matches Ok(e) ==> cache_event(name@) == Ok::<_, NativeErrorKind>(
            (e.name@, e.description@, e.encoding),
        ),
        r matches Err(e) ==> cache_event(name@) == Err::<(Seq<char>, Seq<char>, EventEncoding), _>(
            native_error_kind(e),
        ),
{
    let (a, rest) = match split_once(name, '_') {
        Some(p) => p,
        None => return Err(NativeError::MalformedCache),
    };
    let (b, c) = match split_once(rest.as_slice(), '_') {
        Some(p) => p,
        None => return Err(NativeError::MalformedCache),
    };
    let ua = upper_all(a.as_slice());
    let ub = upper_all(b.as_slice());
    let uc = upper_all(c.as_slice());
    let (id, id_desc) = match cache_id_lookup(ua.as_slice()) {
        Some(e) => e,
        None => return Err(NativeError::UnknownCacheId(string_of(ua.as_slice()))),
    };
    let (op, op_desc) = match cache_op_lookup(ub.as_slice()) {
        Some(e) => e,
        None => return Err(NativeError::UnknownCacheOp(string_of(ua.as_slice()))),
    };
    let (res, res_desc) = match cache_result_lookup(uc.as_slice()) {
        Some(e) => e,
        None => return Err(NativeError::UnknownCacheResult(string_of(ua.as_slice()))),
    };
    let mut full = ua.clone();
    push_str(&mut full, "_");
    push_all(&mut full, ub.as_slice());
    push_str(&mut full, "_");
    push_all(&mut full, uc.as_slice());
    let mut desc: Vec<char> = Vec::new();
    push_str(&mut desc, id_desc);
    push_str(&mut desc, ", ");
    push_str(&mut desc, op_desc);
    push_str(&mut desc, ", ");
    push_str(&mut desc, res_desc);
    push_str(&mut desc, ".");
    Ok(
        NamedPerfEvent {
            name: string_of(full.as_slice()),
            description: string_of(desc.as_slice()),
            encoding: cache_encoding(id, op, res),
        },
    )
}

/// Resolves a native event name against the built-in kernel tables: hardware, then software,
/// then the cache form. Names are case-insensitive; the canonical name is upper-case.
pub fn parse(name: &str) -> (r: Result<NamedPerfEvent, NativeError>)
    ensures
        r matches Ok(e) ==> native_event(name@) == Ok::<_, NativeErrorKind>(
            (e.name@, e.description@, e.encoding),
        ),
        r matches Err(e) ==> native_event(name@) == Err::<(Seq<char>, Seq<char>, EventEncoding), _>(
            native_error_kind(e),
        ),
{
    let chars = chars_of(name);
    let u = upper_all(chars.as_slice());
    assert(u@ == upper_seq(name@));
    if let Ok(e) = parse_hardware(u.as_slice()) {
        return Ok(e);
    }
    if let Ok(e) = parse_software(u.as_slice()) {
        return Ok(e);
    }
    parse_cache(chars.as_slice())
}

/// `config` with the PMU type `pmu_type` packed into its high 32 bits.
pub open spec fn extended_config_of(config: u64, pmu_type: u32) -> u64 {
    config | ((pmu_type as u64) << 32u64)
}

/// Packs a PMU's numeric type into the high 32 bits of `config`.
pub fn extended_config(config: u64, pmu_type: u32) -> (r: u64)
    ensures
        r == extended_config_of(config, pmu_type),
{
    config | ((pmu_type as u64) << 32u64)
}

/// Why an event cannot be pinned to a PMU.
#[derive(Debug, Clone, PartialEq, Eq)]
pub enum PinError {
    /// Software events are CPU-wide.
    SoftwareIsCpuWide { event: String, pmu: String },
    /// Only hardware and hardware-cache events can be pinned.
    NotPinnable { event: String, perf_type: u32 },
}

/// The encoding of `base` pinned to the PMU of type `pmu_type`, or `None` when its type cannot be
/// pinned (only hardware and hardware-cache events can).
pub open spec fn pinned(base: EventEncoding, pmu_type: u32) -> Option<EventEncoding> {
    if base.type_ == 0 || base.type_ == 3 {
        Some(EventEncoding { config: extended_config_of(base.config, pmu_type), ..base })
    } else {
        None
    }
}

/// Pins an already-resolved native event to the PMU `pmu` of numeric type `pmu_type`.
/// Only hardware and hardware-cache events can be pinned.
pub fn pin(base: &NamedPerfEvent, pmu: &str, pmu_type: u32) -> (r: Result<EventEncoding, PinError>)
    ensures
        r matches Ok(e) ==> pinned(base.encoding, pmu_type) == Some(e),
        r is Err ==> pinned(base.encoding, pmu_type) is None,
        r matches Err(PinError::SoftwareIsCpuWide { event, pmu: p }) ==> base.encoding.type_ == 1
            && event@ == base.name@ && p@ == pmu@,
        r matches Err(PinError::NotPinnable { event, perf_type }) ==> base.encoding.type_ != 1
            && event@ == base.name@ && perf_type == base.encoding.type_,
{
    let t = base.encoding.type_;
    if t == 0 || t == 3 {
        Ok(EventEncoding { config: extended_config(base.encoding.config, pmu_type), ..base.encoding })
    } else if t == 1 {
        Err(PinError::SoftwareIsCpuWide { event: base.name.clone(), pmu: pmu.to_owned() })
    } else {
        Err(PinError::NotPinnable { event: base.name.clone(), perf_type: t })
    }
}

/// Each name of the native tables resolves to the kernel id of the same name: a hardware,
/// software or cache name found in its table has as id its position among the kernel's ids.
pub proof fn lemma_native_ids_are_the_kernel_ids(u: Seq<char>)
    ensures
        hardware_entry(u) matches Some((id, _)) ==> id < kernel_hardware_ids().len()
            && kernel_hardware_ids()[id as int] == u,
        software_entry(u) matches Some((id, _)) ==> id < kernel_software_ids().len()
            && kernel_software_ids()[id as int] == u,
        cache_id_entry(u) matches Some((id, _)) ==> id < kernel_cache_ids().len() && kernel_cache_ids()[id as int]
            == u,
        cache_op_entry(u) matches Some((id, _)) ==> id < kernel_cache_ops().len() && kernel_cache_ops()[id as int]
            == u,
        cache_result_entry(u) matches Some((id, _)) ==> id < kernel_cache_results().len()
            && kernel_cache_results()[id as int] == u,
{
}

/// Every hardware event of the kernel is known under its own name.
pub proof fn lemma_every_hardware_id_is_known(i: int)
    requires
        0 <= i < kernel_hardware_ids().len(),
    ensures
        hardware_entry(kernel_hardware_ids()[i]) matches Some((id, _)) && id == i,
{
    let ids = kernel_hardware_ids();
    assert(hardware_entry(ids[i]) is Some) by {
        if i == 0 {
            reveal_strlit("CPU_CYCLES");
        } else if i == 1 {
            reveal_strlit("CPU_CYCLES");
            reveal_strlit("INSTRUCTIONS");
            assert("INSTRUCTIONS"@.len() == 12 && "CPU_CYCLES"@.len() == 10);
        } else if i == 2 {
            reveal_strlit("CPU_CYCLES");
            reveal_strlit("INSTRUCTIONS");
            reveal_strlit("CACHE_REFERENCES");
            assert("CACHE_REFERENCES"@.len() == 16 && "CPU_CYCLES"@.len() == 10 && "INSTRUCTIONS"@.len() == 12);
        } else if i == 3 {
            reveal_strlit("CPU_CYCLES");
            reveal_strlit("INSTRUCTIONS");
            reveal_strlit("CACHE_REFERENCES");
            reveal_strlit("CACHE_MISSES");
            assert("CACHE_MISSES"@.len() == 12 && "CPU_CYCLES"@.len() == 10 && "CACHE_REFERENCES"@.len() == 16);
            assert("CACHE_MISSES"@[0] != "INSTRUCTIONS"@[0]);
        } else if i == 4 {
            reveal_strlit("CPU_CYCLES");
            reveal_strlit("INSTRUCTIONS");
            reveal_strlit("CACHE_REFERENCES");
            reveal_strlit("CACHE_MISSES");
            reveal_strlit("BRANCH_INSTRUCTIONS");
            assert("BRANCH_INSTRUCTIONS"@.len() == 19 && "CPU_CYCLES"@.len() == 10 && "INSTRUCTIONS"@.len() == 12 && "CACHE_REFERENCES"@.len() == 16 && "CACHE_MISSES"@.len() == 12);
        } else if i == 5 {
            reveal_strlit("CPU_CYCLES");
            reveal_strlit("INSTRUCTIONS");
            reveal_strlit("CACHE_REFERENCES");
            reveal_strlit("CACHE_MISSES");
            reveal_strlit("BRANCH_INSTRUCTIONS");
            reveal_strlit("BRANCH_MISSES");
            assert("BRANCH_MISSES"@.len() == 13 && "CPU_CYCLES"@.len() == 10 && "INSTRUCTIONS"@.len() == 12 && "CACHE_REFERENCES"@.len() == 16 && "CACHE_MISSES"@.len() == 12 && "BRANCH_INSTRUCTIONS"@.len() == 19);
        } else if i == 6 {
            reveal_strlit("CPU_CYCLES");
            reveal_strlit("INSTRUCTIONS");
            reveal_strlit("CACHE_REFERENCES");
            reveal_strlit("CACHE_MISSES");
            reveal_strlit("BRANCH_INSTRUCTIONS");
            reveal_strlit("BRANCH_MISSES");
            reveal_strlit("BUS_CYCLES");
            assert("BUS_CYCLES"@.len() == 10 && "INSTRUCTIONS"@.len() == 12 && "CACHE_REFERENCES"@.len() == 16 && "CACHE_MISSES"@.len() == 12 && "BRANCH_INSTRUCTIONS"@.len() == 19 && "BRANCH_MISSES"@.len() == 13);
            assert("BUS_CYCLES"@[0] != "CPU_CYCLES"@[0]);
        } else if i == 7 {
            reveal_strlit("CPU_CYCLES");
            reveal_strlit("INSTRUCTIONS");
            reveal_strlit("CACHE_REFERENCES");
            reveal_strlit("CACHE_MISSES");
            reveal_strlit("BRANCH_INSTRUCTIONS");
            reveal_strlit("BRANCH_MISSES");
            reveal_strlit("BUS_CYCLES");
            reveal_strlit("STALLED_CYCLES_FRONTEND");
            assert("STALLED_CYCLES_FRONTEND"@.len() == 23 && "CPU_CYCLES"@.len() == 10 && "INSTRUCTIONS"@.len() == 12 && "CACHE_REFERENCES"@.len() == 16 && "CACHE_MISSES"@.len() == 12 && "BRANCH_INSTRUCTIONS"@.len() == 19 && "BRANCH_MISSES"@.len() == 13 && "BUS_CYCLES"@.len() == 10);
        } else if i == 8 {
            reveal_strlit("CPU_CYCLES");
            reveal_strlit("INSTRUCTIONS");
            reveal_strlit("CACHE_REFERENCES");
            reveal_strlit("CACHE_MISSES");
            reveal_strlit("BRANCH_INSTRUCTIONS");
            reveal_strlit("BRANCH_MISSES");
            reveal_strlit("BUS_CYCLES");
            reveal_strlit("STALLED_CYCLES_FRONTEND");
            reveal_strlit("STALLED_CYCLES_BACKEND");
            assert("STALLED_CYCLES_BACKEND"@.len() == 22 && "CPU_CYCLES"@.len() == 10 && "INSTRUCTIONS"@.len() == 12 && "CACHE_REFERENCES"@.len() == 16 && "CACHE_MISSES"@.len() == 12 && "BRANCH_INSTRUCTIONS"@.len() == 19 && "BRANCH_MISSES"@.len() == 13 && "BUS_CYCLES"@.len() == 10 && "STALLED_CYCLES_FRONTEND"@.len() == 23);
        } else if i == 9 {
            reveal_strlit("CPU_CYCLES");
            reveal_strlit("INSTRUCTIONS");
            reveal_strlit("CACHE_REFERENCES");
            reveal_strlit("CACHE_MISSES");
            reveal_strlit("BRANCH_INSTRUCTIONS");
            reveal_strlit("BRANCH_MISSES");
            reveal_strlit("BUS_CYCLES");
            reveal_strlit("STALLED_CYCLES_FRONTEND");
            reveal_strlit("STALLED_CYCLES_BACKEND");
            reveal_strlit("REF_CPU_CYCLES");
            assert("REF_CPU_CYCLES"@.len() == 14 && "CPU_CYCLES"@.len() == 10 && "INSTRUCTIONS"@.len() == 12 && "CACHE_REFERENCES"@.len() == 16 && "CACHE_MISSES"@.len() == 12 && "BRANCH_INSTRUCTIONS"@.len() == 19 && "BRANCH_MISSES"@.len() == 13 && "BUS_CYCLES"@.len() == 10 && "STALLED_CYCLES_FRONTEND"@.len() == 23 && "STALLED_CYCLES_BACKEND"@.len() == 22);
        }
    }
    lemma_native_ids_are_the_kernel_ids(ids[i]);
    let id = hardware_entry(ids[i])->Some_0.0;
    if id != i {
        assert(ids[id as int] == ids[i]);
        reveal_strlit("CPU_CYCLES");
        reveal_strlit("INSTRUCTIONS");
        reveal_strlit("CACHE_REFERENCES");
        reveal_strlit("CACHE_MISSES");
        reveal_strlit("BRANCH_INSTRUCTIONS");
        reveal_strlit("BRANCH_MISSES");
        reveal_strlit("BUS_CYCLES");
        reveal_strlit("STALLED_CYCLES_FRONTEND");
        reveal_strlit("STALLED_CYCLES_BACKEND");
        reveal_strlit("REF_CPU_CYCLES");
        assert("CPU_CYCLES"@.len() == 10);
        assert("INSTRUCTIONS"@.len() == 12);
        assert("CACHE_REFERENCES"@.len() == 16);
        assert("CACHE_MISSES"@.len() == 12);
        assert("BRANCH_INSTRUCTIONS"@.len() == 19);
        assert("BRANCH_MISSES"@.len() == 13);
        assert("BUS_CYCLES"@.len() == 10);
        assert("STALLED_CYCLES_FRONTEND"@.len() == 23);
        assert("STALLED_CYCLES_BACKEND"@.len() == 22);
        assert("REF_CPU_CYCLES"@.len() == 14);
        assert("CPU_CYCLES"@[0] != "BUS_CYCLES"@[0]);
        assert("INSTRUCTIONS"@[0] != "CACHE_MISSES"@[0]);
    }
}

/// What [`parse`] resolves a name to is the kernel event of that name: a hardware or software
/// event has as config the kernel id of its canonical name, and a cache event
/// `<cache>_<op>_<result>` has as config the kernel ids of its three parts, one per byte.
pub proof fn lemma_native_event_is_the_kernel_event(name: Seq<char>)
    ensures
        native_event(name) matches Ok((n, _, e)) ==> e.config1 == 0 && e.config2 == 0 && (
        (e.type_ == 0 && e.config < kernel_hardware_ids().len() && kernel_hardware_ids()[e.config as int] == n)
            || (e.type_ == 1 && e.config < kernel_software_ids().len() && kernel_software_ids()[e.config as int]
            == n) || (e.type_ == 3 && exists|i: u8, o: u8, r: u8|
            i < kernel_cache_ids().len() && o < kernel_cache_ops().len() && r < kernel_cache_results().len()
                && n == kernel_cache_ids()[i as int] + "_"@ + kernel_cache_ops()[o as int] + "_"@
                + kernel_cache_results()[r as int] && #[trigger] cache_encoding_of(i, o, r) == e)),
{
    let u = upper_seq(name);
    lemma_native_ids_are_the_kernel_ids(u);
    if hardware_entry(u) is None && software_entry(u) is None {
        if let Some((a, rest)) = split_once_at(name, '_') {
            if let Some((b, c)) = split_once_at(rest, '_') {
                lemma_native_ids_are_the_kernel_ids(upper_seq(a));
                lemma_native_ids_are_the_kernel_ids(upper_seq(b));
                lemma_native_ids_are_the_kernel_ids(upper_seq(c));
                if let Ok((n, _, e)) = native_event(name) {
                    let i = cache_id_entry(upper_seq(a))->Some_0.0;
                    let o = cache_op_entry(upper_seq(b))->Some_0.0;
                    let r = cache_result_entry(upper_seq(c))->Some_0.0;
                    assert(cache_encoding_of(i, o, r) == e);
                }
            }
        }
    }
}

proof fn lemma_cache_config_parts(i: u64, o: u64, r: u64, i2: u64, o2: u64, r2: u64)
    requires
        i < 256,
        o < 256,
        r < 256,
        i2 < 256,
        o2 < 256,
        r2 < 256,
        i | (o << 8u64) | (r << 16u64) == i2 | (o2 << 8u64) | (r2 << 16u64),
    ensures
        i == i2 && o == o2 && r == r2,
{
    assert(i == i2 && o == o2 && r == r2) by (bit_vector)
        requires
            i < 256,
            o < 256,
            r < 256,
            i2 < 256,
            o2 < 256,
            r2 < 256,
            i | (o << 8u64) | (r << 16u64) == i2 | (o2 << 8u64) | (r2 << 16u64),
    ;
}

/// Two different native names never share one encoding: the encoding that [`parse`] gives
/// determines the canonical name.
pub proof fn lemma_native_encodings_distinct(a: Seq<char>, b: Seq<char>)
    requires
        native_event(a) is Ok,
        native_event(b) is Ok,
        native_event(a)->Ok_0.2 == native_event(b)->Ok_0.2,
    ensures
        native_event(a)->Ok_0.0 == native_event(b)->Ok_0.0,
{
    lemma_native_event_is_the_kernel_event(a);
    lemma_native_event_is_the_kernel_event(b);
    let (na, _, e) = native_event(a)->Ok_0;
    let nb = native_event(b)->Ok_0.0;
    if e.type_ == 3 {
        let (i, o, r) = choose|i: u8, o: u8, r: u8|
            i < kernel_cache_ids().len() && o < kernel_cache_ops().len() && r < kernel_cache_results().len()
                && na == kernel_cache_ids()[i as int] + "_"@ + kernel_cache_ops()[o as int] + "_"@
                + kernel_cache_results()[r as int] && #[trigger] cache_encoding_of(i, o, r) == e;
        let (i2, o2, r2) = choose|i: u8, o: u8, r: u8|
            i < kernel_cache_ids().len() && o < kernel_cache_ops().len() && r < kernel_cache_results().len()
                && nb == kernel_cache_ids()[i as int] + "_"@ + kernel_cache_ops()[o as int] + "_"@
                + kernel_cache_results()[r as int] && #[trigger] cache_encoding_of(i, o, r) == e;
        lemma_cache_config_parts(i as u64, o as u64, r as u64, i2 as u64, o2 as u64, r2 as u64);
    }
}

} // verus!
