//! Raw perf events, in the style of `perf stat -e`.
//!
//! Two forms are accepted:
//! - **`rN`**: a raw event code `N` (hexadecimal) on the default raw PMU (`PERF_TYPE_RAW`), e.g.
//!   `r3c` or `r0x412e`. `N` is written verbatim into `config`.
//! - **`pmu/rN`**: the same raw code, but on a specific PMU whose numeric `type` is read from sysfs,
//!   e.g. `uncore_imc_0/r0x1`.

use vstd::prelude::*;
use crate::perf::pmu::{pmu_error_kind, read_type, split_chars, split_spec, type_of, PmuError, PmuErrorKind, SysfsView};
use crate::perf::spec::{sanitize_chars, sanitized, EventEncoding, NamedPerfEvent};
use crate::text::{
    chars_of, hex_digits, hex_of, parse_unsigned, parsed_unsigned, push_all, push_str, string_of,
    strip_all_prefixes, trim_start_all, slice_to_vec_range,
};
use perf_event_open_sys::bindings::PERF_TYPE_RAW;

verus! {

/// The `config` value of a raw code token `r<hex>` (with optional `0x`/`0X` prefixes).
pub open spec fn raw_config_of(token: Seq<char>) -> Option<u64> {
    if token.len() > 0 && token[0] == 'r' {
        let digits = strip_all_prefixes(strip_all_prefixes(token.skip(1), "0x"@), "0X"@);
        if digits.len() == 0 {
            None
        } else {
            match parsed_unsigned(digits, 16, u64::MAX as nat) {
                Some(v) => Some(v as u64),
                None => None,
            }
        }
    } else {
        None
    }
}

/// The type, description and encoding of a raw event `name` with code `config`, on the PMU `pmu`
/// or on the default raw PMU.
pub open spec fn raw_event_of(view: SysfsView, pmu: Option<Seq<char>>, config: u64, name: Seq<char>) -> Result<(Seq<char>, Seq<char>, EventEncoding), PmuErrorKind> {
    match pmu {
        Some(p) => match type_of(view, p) {
            Ok(t) => Ok(
                (
                    sanitized(name),
                    "raw event 0x"@ + hex_of(config as nat) + " on PMU "@ + p,
                    EventEncoding { type_: t, config, config1: 0, config2: 0 },
                ),
            ),
            Err(e) => Err(e),
        },
        None => Ok(
            (
                sanitized(name),
                "raw event 0x"@ + hex_of(config as nat),
                EventEncoding { type_: 4, config, config1: 0, config2: 0 },
            ),
        ),
    }
}

/// What [`parse`] gives: `None` when `name` is neither `rN` nor `pmu/rN`.
pub open spec fn raw_event(view: SysfsView, name: Seq<char>) -> Option<Result<(Seq<char>, Seq<char>, EventEncoding), PmuErrorKind>> {
    match split_spec(name) {
        Some((pmu, term)) => match raw_config_of(term) {
            Some(config) => Some(raw_event_of(view, Some(pmu), config, name)),
            None => None,
        },
        None => match raw_config_of(name) {
            Some(config) => Some(raw_event_of(view, None, config, name)),
            None => None,
        },
    }
}

/// The numeric type of the default raw PMU, `PERF_TYPE_RAW` (4 in the kernel ABI).
#[verifier::external_body]
fn perf_type_raw() -> (t: u32)
    ensures
        t == 4,
{
    PERF_TYPE_RAW
}

/// Parses a raw code token `r<hex>` (with an optional `0x` prefix) into its `config` value.
/// e.g. `r3c` -> `0x3c`, `r0x412e` -> `0x412e`. Returns `None` if `token` is not that shape.
pub fn raw_config(token: &str) -> (r: Option<u64>)
    ensures
        r == raw_config_of(token@),
{
    let chars = chars_of(token);
    raw_config_chars(chars.as_slice())
}

/// [`raw_config`] on a character sequence.
pub fn raw_config_chars(token: &[char]) -> (r: Option<u64>)
    ensures
        r == raw_config_of(token@),
{
    if token.len() == 0 || token[0] != 'r' {
        return None;
    }
    let rest = slice_to_vec_range(token, 1, token.len());
    assert(rest@ =~= token@.skip(1));
    proof {
        reveal_strlit("0x");
        reveal_strlit("0X");
    }
    let p1 = chars_of("0x");
    let p2 = chars_of("0X");
    let d1 = trim_start_all(rest.as_slice(), p1.as_slice());
    let digits = trim_start_all(d1.as_slice(), p2.as_slice());
    if digits.len() == 0 {
        return None;
    }
    parse_unsigned(digits.as_slice(), 16, u64::MAX)
}

fn build(view: &SysfsView, pmu: Option<String>, config: u64, original: &[char]) -> (r: Result<NamedPerfEvent, PmuError>)
    ensures
        r matches Ok(e) ==> raw_event_of(
            *view,
            match pmu {
                Some(p) => Some(p@),
                None => None,
            },
            config,
            original@,
        ) == Ok::<_, PmuErrorKind>((e.name@, e.description@, e.encoding)),
        r matches Err(e) ==> raw_event_of(
            *view,
            match pmu {
                Some(p) => Some(p@),
                None => None,
            },
            config,
            original@,
        ) == Err::<(Seq<char>, Seq<char>, EventEncoding), _>(pmu_error_kind(e)),
{
    let mut description: Vec<char> = Vec::new();
    push_str(&mut description, "raw event 0x");
    let hex = hex_digits(config);
    push_all(&mut description, hex.as_slice());
    let type_ = match pmu {
        Some(p) => {
            let t = read_type(view, p.as_str())?;
            push_str(&mut description, " on PMU ");
            push_str(&mut description, p.as_str());
            t
        },
        None => perf_type_raw(),
    };
    Ok(
        NamedPerfEvent {
            name: sanitize_chars(original),
            description: string_of(description.as_slice()),
            encoding: EventEncoding { type_, config, config1: 0, config2: 0 },
        },
    )
}

/// Tries to parse `name` as a raw-hex event.
///
/// Returns `None` if `name` is neither `rN` nor `pmu/rN`, and `Some(Err(_))` when the form
/// matched but the PMU `type` could not be read.
pub fn parse(view: &SysfsView, name: &str) -> (r: Option<Result<NamedPerfEvent, PmuError>>)
    ensures
        r is None <==> raw_event(*view, name@) is None,
        r matches Some(Ok(e)) ==> raw_event(*view, name@) == Some(
            Ok::<_, PmuErrorKind>((e.name@, e.description@, e.encoding)),
        ),
        r matches Some(Err(e)) ==> raw_event(*view, name@) == Some(
            Err::<(Seq<char>, Seq<char>, EventEncoding), _>(pmu_error_kind(e)),
        ),
{
    let chars = chars_of(name);
    parse_chars(view, chars.as_slice())
}

/// [`parse`] on a character sequence.
pub fn parse_chars(view: &SysfsView, name: &[char]) -> (r: Option<Result<NamedPerfEvent, PmuError>>)
    ensures
        r is None <==> raw_event(*view, name@) is None,
        r matches Some(Ok(e)) ==> raw_event(*view, name@) == Some(
            Ok::<_, PmuErrorKind>((e.name@, e.description@, e.encoding)),
        ),
        r matches Some(Err(e)) ==> raw_event(*view, name@) == Some(
            Err::<(Seq<char>, Seq<char>, EventEncoding), _>(pmu_error_kind(e)),
        ),
{
    if let Some((pmu, term)) = split_chars(name) {
        let term_chars = chars_of(term.as_str());
        let config = raw_config_chars(term_chars.as_slice())?;
        return Some(build(view, Some(pmu), config, name));
    }
    let config = raw_config_chars(name)?;
    Some(build(view, None, config, name))
}

} // verus!
