//! Measurement units and their prefixes.

use vstd::prelude::*;

verus! {

/// A unit of measurement.
#[derive(Debug, Clone, PartialEq, Eq)]
pub enum Unit {
    /// A dimensionless count.
    Unity,
    Second,
    Watt,
    Joule,
    Volt,
    Ampere,
    Hertz,
    DegreeCelsius,
    DegreeFahrenheit,
    WattHour,
    Byte,
    Percent,
    /// A unit that no other variant covers.
    Custom { unique_name: String, display_name: String },
}

/// A decimal prefix of a unit.
#[derive(Debug, Clone, Copy, PartialEq, Eq, Structural)]
pub enum UnitPrefix {
    Nano,
    Micro,
    Milli,
    Plain,
    Kilo,
    Mega,
    Giga,
}

/// A unit with its prefix.
#[derive(Debug, Clone, PartialEq, Eq)]
pub struct PrefixedUnit {
    pub base_unit: Unit,
    pub prefix: UnitPrefix,
}

/// The name of a prefix as it stands in front of a unit's name.
pub open spec fn prefix_name(p: UnitPrefix) -> Seq<char> {
    match p {
        UnitPrefix::Nano => "nano"@,
        UnitPrefix::Micro => "micro"@,
        UnitPrefix::Milli => "milli"@,
        UnitPrefix::Plain => ""@,
        UnitPrefix::Kilo => "kilo"@,
        UnitPrefix::Mega => "mega"@,
        UnitPrefix::Giga => "giga"@,
    }
}

impl UnitPrefix {
    /// The name of this prefix as it stands in front of a unit's name.
    pub fn unique_name(&self) -> (s: &'static str)
        ensures
            s@ == prefix_name(*self),
    {
        match self {
            UnitPrefix::Nano => "nano",
            UnitPrefix::Micro => "micro",
            UnitPrefix::Milli => "milli",
            UnitPrefix::Plain => "",
            UnitPrefix::Kilo => "kilo",
            UnitPrefix::Mega => "mega",
            UnitPrefix::Giga => "giga",
        }
    }
}

/// A metric to create: its name, unit and description.
pub struct MetricSpec {
    pub name: &'static str,
    pub unit: PrefixedUnit,
    pub description: &'static str,
}

/// What a metric to create holds.
pub open spec fn metric_view(m: MetricSpec) -> (Seq<char>, PrefixedUnit, Seq<char>) {
    (m.name@, m.unit, m.description@)
}

/// The metric named `name`, in `prefix` `base_unit`, described by `description`.
pub fn definition(name: &'static str, base_unit: Unit, prefix: UnitPrefix, description: &'static str) -> (m: MetricSpec)
    ensures
        metric_view(m) == (name@, PrefixedUnit { base_unit, prefix }, description@),
{
    MetricSpec { name, unit: PrefixedUnit { base_unit, prefix }, description }
}

} // verus!
