//! Energy to carbon: which source of emission intensity a configuration selects. The intensities
//! themselves, and the emissions computed from them, are floating-point values that stay
//! outside the library.

use vstd::prelude::*;

verus! {

/// How the emission intensity is chosen.
#[derive(Debug, Clone, Copy, PartialEq, Eq, Structural)]
pub enum Mode {
    /// A fixed intensity given by the user.
    IntensityOverride,
    /// The intensity of a country's energy mix.
    Country,
    /// The world average intensity.
    WorldAvg,
}

/// Where the emission intensity comes from.
#[derive(Debug, Clone, PartialEq, Eq)]
pub enum IntensitySource {
    /// The value of the `intensity_override` section.
    Override,
    /// The energy mix of the country of this ISO 3166-1 alpha-3 code.
    Country(String),
    /// The world average.
    WorldAverage,
}

/// Why no source of emission intensity can be chosen.
#[derive(Debug, Clone, Copy, PartialEq, Eq, Structural)]
pub enum IntensityError {
    /// The override mode is chosen without an `intensity_override` section.
    MissingOverride,
    /// The country mode is chosen without a `country` section.
    MissingCountry,
    /// The `country` section gives an empty code.
    EmptyCountryCode,
}

impl IntensityError {
    /// What went wrong, in words.
    pub fn message(&self) -> (s: &'static str)
        ensures
            *self == IntensityError::MissingOverride ==> s@ == "missing [plugin.energy-to-carbon.override] config section"@,
            *self == IntensityError::MissingCountry ==> s@ == "missing [plugin.energy-to-carbon.country] config section"@,
            *self == IntensityError::EmptyCountryCode ==> s@ == "country.code is required when mode is 'country'"@,
    {
        match self {
            IntensityError::MissingOverride => "missing [plugin.energy-to-carbon.override] config section",
            IntensityError::MissingCountry => "missing [plugin.energy-to-carbon.country] config section",
            IntensityError::EmptyCountryCode => "country.code is required when mode is 'country'",
        }
    }
}

/// Chooses the source of the emission intensity: the one that `mode` names, provided that its
/// configuration section is there (`has_override` tells whether the override section is given,
/// `country_code` is the code of the country section, if given) and, for a country, that its
/// code is not empty.
pub fn intensity_source(mode: Mode, has_override: bool, country_code: Option<String>) -> (r: Result<
    IntensitySource,
    IntensityError,
>)
    ensures
        mode == Mode::WorldAvg ==> r == Ok::<IntensitySource, IntensityError>(IntensitySource::WorldAverage),
        mode == Mode::IntensityOverride ==> r == if has_override {
            Ok::<IntensitySource, IntensityError>(IntensitySource::Override)
        } else {
            Err(IntensityError::MissingOverride)
        },
        mode == Mode::Country ==> match country_code {
            None => r == Err::<IntensitySource, IntensityError>(IntensityError::MissingCountry),
            Some(c) => if c@.len() == 0 {
                r == Err::<IntensitySource, IntensityError>(IntensityError::EmptyCountryCode)
            } else {
                r matches Ok(IntensitySource::Country(k)) && k@ == c@
            },
        },
{
    match mode {
        Mode::IntensityOverride => if has_override {
            Ok(IntensitySource::Override)
        } else {
            Err(IntensityError::MissingOverride)
        },
        Mode::Country => match country_code {
            None => Err(IntensityError::MissingCountry),
            Some(code) => if code.as_str().is_empty() {
                Err(IntensityError::EmptyCountryCode)
            } else {
                Ok(IntensitySource::Country(code))
            },
        },
        Mode::WorldAvg => Ok(IntensitySource::WorldAverage),
    }
}

} // verus!
