//! The hwmon "devices" that expose Grace Hopper power telemetry.
//!
//! Each device lives in `/sys/class/hwmon/hwmon{x}/device/`, with a `power1_oem_info` file that
//! describes the sensor (e.g. `Grace Power Socket 0`) and a `power1_average` file that holds the
//! average power in microwatts. The files are read by the caller; this module interprets them.

use vstd::prelude::*;
use crate::text::{
    chars_of, is_word, lower, lower_all, parse_unsigned, parsed_unsigned, split_once_pat,
    split_once_str, trim, trimmed_ascii, drop_trailing, is_ascii_space,
};

verus! {

/// Kind of information provided by the hwmon file.
#[derive(Clone, Copy, Debug, PartialEq, Eq, Structural)]
pub enum TelemetryKind {
    /// Total power of the socket.
    Grace,
    /// CPU rail power for the socket.
    Cpu,
    /// SOC rail power.
    SysIo,
    /// Total power of the Grace Hopper, including regulator loss and DRAM, GPU and HBM power.
    Module,
}

/// Sensor tag, which corresponds to a `TelemetryKind` or to a value computed by the plugin.
#[derive(Clone, Copy, Debug, PartialEq, Eq, Structural)]
pub enum SensorTagKind {
    Grace,
    Cpu,
    SysIo,
    Module,
    Dram,
}

/// The sensor tag of a telemetry kind.
pub open spec fn tag_of(k: TelemetryKind) -> SensorTagKind {
    match k {
        TelemetryKind::Grace => SensorTagKind::Grace,
        TelemetryKind::Cpu => SensorTagKind::Cpu,
        TelemetryKind::SysIo => SensorTagKind::SysIo,
        TelemetryKind::Module => SensorTagKind::Module,
    }
}

impl From<TelemetryKind> for SensorTagKind {
    fn from(value: TelemetryKind) -> (r: Self)
        ensures
            r == tag_of(value),
    {
        match value {
            TelemetryKind::Grace => SensorTagKind::Grace,
            TelemetryKind::Cpu => SensorTagKind::Cpu,
            TelemetryKind::SysIo => SensorTagKind::SysIo,
            TelemetryKind::Module => SensorTagKind::Module,
        }
    }
}

impl vstd::std_specs::convert::FromSpecImpl<TelemetryKind> for SensorTagKind {
    open spec fn obeys_from_spec() -> bool {
        true
    }

    open spec fn from_spec(v: TelemetryKind) -> SensorTagKind {
        tag_of(v)
    }
}

/// The text is no telemetry kind.
#[derive(Debug, Clone, Copy, PartialEq, Eq, Structural)]
pub struct InvalidTelemetryKind;

/// The name of a telemetry kind.
pub open spec fn kind_name(k: TelemetryKind) -> Seq<char> {
    match k {
        TelemetryKind::Grace => "grace"@,
        TelemetryKind::Cpu => "cpu"@,
        TelemetryKind::SysIo => "sysio"@,
        TelemetryKind::Module => "module"@,
    }
}

/// The telemetry kind named `s` (exactly, in lower case).
pub open spec fn kind_named(s: Seq<char>) -> Option<TelemetryKind> {
    if s == "grace"@ {
        Some(TelemetryKind::Grace)
    } else if s == "cpu"@ {
        Some(TelemetryKind::Cpu)
    } else if s == "sysio"@ {
        Some(TelemetryKind::SysIo)
    } else if s == "module"@ {
        Some(TelemetryKind::Module)
    } else {
        None
    }
}

/// Every telemetry kind is read back from its name.
pub proof fn lemma_kind_name_round_trip(k: TelemetryKind)
    ensures
        kind_named(kind_name(k)) == Some(k),
{
    reveal_strlit("grace");
    reveal_strlit("cpu");
    reveal_strlit("sysio");
    reveal_strlit("module");
    assert("grace"@[0] != "sysio"@[0]);
    assert("grace"@.len() != "cpu"@.len() && "grace"@.len() != "module"@.len());
    assert("cpu"@.len() != "sysio"@.len() && "cpu"@.len() != "module"@.len());
    assert("sysio"@.len() != "module"@.len());
}

impl TelemetryKind {
    /// Parses a telemetry kind from its lower-case name.
    pub fn parse(s: &str) -> (r: Result<TelemetryKind, InvalidTelemetryKind>)
        ensures
            r matches Ok(k) ==> kind_named(s@) == Some(k),
            r is Err ==> kind_named(s@) is None,
    {
        let c = chars_of(s);
        Self::parse_chars(c.as_slice())
    }

    /// [`TelemetryKind::parse`] on a character sequence.
    pub fn parse_chars(s: &[char]) -> (r: Result<TelemetryKind, InvalidTelemetryKind>)
        ensures
            r matches Ok(k) ==> kind_named(s@) == Some(k),
            r is Err ==> kind_named(s@) is None,
    {
        if is_word(s, "grace") {
            Ok(TelemetryKind::Grace)
        } else if is_word(s, "cpu") {
            Ok(TelemetryKind::Cpu)
        } else if is_word(s, "sysio") {
            Ok(TelemetryKind::SysIo)
        } else if is_word(s, "module") {
            Ok(TelemetryKind::Module)
        } else {
            Err(InvalidTelemetryKind)
        }
    }

    /// The name of this kind, as used in the `sensor` measurement attribute.
    pub fn as_str(&self) -> (s: &'static str)
        ensures
            s@ == kind_name(*self),
    {
        match self {
            TelemetryKind::Grace => "grace",
            TelemetryKind::Cpu => "cpu",
            TelemetryKind::SysIo => "sysio",
            TelemetryKind::Module => "module",
        }
    }

    /// The name of this kind (what its display writes).
    pub fn to_string(&self) -> (s: String)
        ensures
            s@ == kind_name(*self),
    {
        self.as_str().to_owned()
    }
}

impl std::str::FromStr for TelemetryKind {
    type Err = InvalidTelemetryKind;

    /// Parses a telemetry kind from its lower-case name, as [`TelemetryKind::parse`] does.
    fn from_str(s: &str) -> (r: Result<Self, Self::Err>)
        ensures
            r matches Ok(k) ==> kind_named(s@) == Some(k),
            r is Err ==> kind_named(s@) is None,
    {
        Self::parse(s)
    }
}

/// The name of the total of a sensor tag.
pub open spec fn total_name(k: SensorTagKind) -> Seq<char> {
    match k {
        SensorTagKind::Grace => "grace_total"@,
        SensorTagKind::Cpu => "cpu_total"@,
        SensorTagKind::SysIo => "sysio_total"@,
        SensorTagKind::Module => "module_total"@,
        SensorTagKind::Dram => "dram_total"@,
    }
}

/// The total of a telemetry kind is named after the kind: its name followed by `_total`.
pub proof fn lemma_total_name_of_kind(k: TelemetryKind)
    ensures
        total_name(tag_of(k)) == kind_name(k) + "_total"@,
{
    reveal_strlit("_total");
    reveal_strlit("grace");
    reveal_strlit("cpu");
    reveal_strlit("sysio");
    reveal_strlit("module");
    reveal_strlit("grace_total");
    reveal_strlit("cpu_total");
    reveal_strlit("sysio_total");
    reveal_strlit("module_total");
    assert(total_name(tag_of(k)) =~= kind_name(k) + "_total"@);
}

impl SensorTagKind {
    /// The name of the total of this tag, as used in the `sensor` measurement attribute.
    pub fn as_str_total(&self) -> (s: &'static str)
        ensures
            s@ == total_name(*self),
    {
        match self {
            Self::Grace => "grace_total",
            Self::Cpu => "cpu_total",
            Self::SysIo => "sysio_total",
            Self::Module => "module_total",
            Self::Dram => "dram_total",
        }
    }
}

/// What a `power1_oem_info` file describes: the kind of sensor and its socket.
#[derive(Debug, Clone, Copy, PartialEq, Eq, Structural)]
pub struct SensorInfo {
    pub kind: TelemetryKind,
    pub socket: u8,
}

/// The text is no sensor description.
#[derive(Debug, Clone, Copy, PartialEq, Eq, Structural)]
pub struct InvalidSensorInfo;

/// The sensor described by `s`: after trimming ASCII whitespace and lower-casing,
/// `<kind> power socket <socket>`.
pub open spec fn sensor_info_of(s: Seq<char>) -> Option<SensorInfo> {
    let t = trimmed_ascii(s).map_values(|c: char| lower(c));
    match split_once_pat(t, " power socket "@) {
        None => None,
        Some((kind, socket)) => match (kind_named(kind), parsed_unsigned(socket, 10, u8::MAX as nat)) {
            (Some(k), Some(n)) => Some(SensorInfo { kind: k, socket: n as u8 }),
            _ => None,
        },
    }
}

impl SensorInfo {
    /// Extracts info from the text of a `power1_oem_info` file.
    pub fn parse(s: &str) -> (r: Result<SensorInfo, InvalidSensorInfo>)
        ensures
            r matches Ok(info) ==> sensor_info_of(s@) == Some(info),
            r is Err ==> sensor_info_of(s@) is None,
    {
        let c = chars_of(s);
        let t = trim(c.as_slice(), true);
        let t = lower_all(t.as_slice());
        proof {
            reveal_strlit(" power socket ");
        }
        let pat = chars_of(" power socket ");
        let (kind, socket) = match split_once_str(t.as_slice(), pat.as_slice()) {
            Some(p) => p,
            None => return Err(InvalidSensorInfo),
        };
        let kind = match TelemetryKind::parse_chars(kind.as_slice()) {
            Ok(k) => k,
            Err(_) => return Err(InvalidSensorInfo),
        };
        match parse_unsigned(socket.as_slice(), 10, 255) {
            Some(n) => Ok(SensorInfo { kind, socket: n as u8 }),
            None => Err(InvalidSensorInfo),
        }
    }
}

impl std::str::FromStr for SensorInfo {
    type Err = InvalidSensorInfo;

    /// Extracts info from the text of a `power1_oem_info` file, as [`SensorInfo::parse`] does.
    fn from_str(s: &str) -> (r: Result<Self, Self::Err>)
        ensures
            r matches Ok(info) ==> sensor_info_of(s@) == Some(info),
            r is Err ==> sensor_info_of(s@) is None,
    {
        Self::parse(s)
    }
}

/// The power, in microwatts, that a `power1_average` file holds: its content without trailing
/// ASCII whitespace, as a number.
pub open spec fn power_value_of(s: Seq<char>) -> Option<u64> {
    match parsed_unsigned(drop_trailing(s, |c: char| is_ascii_space(c)), 10, u64::MAX as nat) {
        Some(n) => Some(n as u64),
        None => None,
    }
}

/// Reads the power value, in microwatts, from the content of a `power1_average` file.
pub fn parse_power_value(content: &str) -> (r: Option<u64>)
    ensures
        r == power_value_of(content@),
{
    let c = chars_of(content);
    let mut end: usize = c.len();
    assert(c@.take(c@.len() as int) =~= c@);
    while end > 0 && crate::text::ascii_space(c[end - 1])
        invariant
            end <= c@.len(),
            c@ == content@,
            drop_trailing(c@.take(end as int), |c: char| is_ascii_space(c)) == drop_trailing(
                content@,
                |c: char| is_ascii_space(c),
            ),
        decreases end,
    {
        assert(c@.take(end as int).drop_last() =~= c@.take(end - 1));
        end = end - 1;
    }
    let body = crate::text::slice_to_vec_range(c.as_slice(), 0, end);
    proof {
        assert(c@.take(c@.len() as int) =~= c@);
        assert(body@ =~= c@.take(end as int));
    }
    parse_unsigned(body.as_slice(), 10, u64::MAX)
}

} // verus!
