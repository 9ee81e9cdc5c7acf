//! The timestamps of Kwollect measurements, read with chrono in one of the formats that the
//! API uses.

use vstd::prelude::*;
use chrono::DateTime;

verus! {

/// An instant read from a timestamp: seconds and nanoseconds since the Unix epoch, and the
/// offset from UTC in which it was written, in seconds east of UTC.
#[derive(Debug, Clone, Copy, PartialEq, Eq, Structural)]
pub struct ParsedTimestamp {
    pub unix_seconds: i64,
    pub nanos: u32,
    pub utc_offset: i32,
}

/// What chrono's `DateTime::parse_from_str` gives for `s` read in `format`, as an instant and
/// an offset: nothing when `s` does not follow `format`.
pub uninterp spec fn parsed_datetime(s: Seq<char>, format: Seq<char>) -> Option<ParsedTimestamp>;

/// Reads `s` in `format` with chrono's `DateTime::parse_from_str`, and gives the instant and
/// the offset of what it read (chrono's `timestamp`, `timestamp_subsec_nanos` and the offset's
/// `local_minus_utc`). The contract names the outcome; the rules of chrono's format strings
/// are chrono's own, and chrono's reason for a failure is dropped.
#[verifier::external_body]
fn parse_from_str(s: &str, format: &str) -> (r: Option<ParsedTimestamp>)
    ensures
        r == parsed_datetime(s@, format@),
{
    match DateTime::parse_from_str(s, format) {
        Ok(d) => Some(ParsedTimestamp {
            unix_seconds: d.timestamp(),
            nanos: d.timestamp_subsec_nanos(),
            utc_offset: d.offset().local_minus_utc(),
        }),
        Err(_) => None,
    }
}

/// The formats of the timestamps, tried in this order: with nanoseconds, microseconds,
/// milliseconds, and without fraction of a second.
pub open spec fn timestamp_formats() -> Seq<Seq<char>> {
    seq![
        "%Y-%m-%dT%H:%M:%S%.9f%:z"@,
        "%Y-%m-%dT%H:%M:%S%.6f%:z"@,
        "%Y-%m-%dT%H:%M:%S%.3f%:z"@,
        "%Y-%m-%dT%H:%M:%S%:z"@,
    ]
}

/// The date and time of `s` read in the first of `formats` that fits it, if one does.
pub open spec fn first_parse(s: Seq<char>, formats: Seq<Seq<char>>) -> Option<ParsedTimestamp>
    decreases formats.len(),
{
    if formats.len() == 0 {
        None
    } else {
        match parsed_datetime(s, formats[0]) {
            Some(d) => Some(d),
            None => first_parse(s, formats.skip(1)),
        }
    }
}

/// A timestamp in none of the formats.
#[derive(Debug, Clone, PartialEq, Eq)]
pub struct TimestampError {
    pub timestamp: String,
}

impl TimestampError {
    /// What went wrong, in words.
    pub fn message(&self) -> (s: String)
        ensures
            s@ == "Failed to parse timestamp '"@ + self.timestamp@ + "': invalid format"@,
    {
        let mut out: Vec<char> = Vec::new();
        crate::text::push_str(&mut out, "Failed to parse timestamp '");
        crate::text::push_str(&mut out, self.timestamp.as_str());
        crate::text::push_str(&mut out, "': invalid format");
        crate::text::string_of(out.as_slice())
    }
}

/// Reads a Kwollect timestamp, such as `2025-09-04T12:34:56.123456789+02:00`, in the first of
/// the [`timestamp_formats`] that fits it.
pub fn parse_timestamp(timestamp: &str) -> (r: Result<ParsedTimestamp, TimestampError>)
    ensures
        match r {
            Ok(d) => first_parse(timestamp@, timestamp_formats()) == Some(d),
            Err(e) => first_parse(timestamp@, timestamp_formats()) is None && e.timestamp@ == timestamp@,
        },
{
    let formats: [&str; 4] = [
        "%Y-%m-%dT%H:%M:%S%.9f%:z",
        "%Y-%m-%dT%H:%M:%S%.6f%:z",
        "%Y-%m-%dT%H:%M:%S%.3f%:z",
        "%Y-%m-%dT%H:%M:%S%:z",
    ];
    let ghost all = timestamp_formats();
    assert(formats@.map_values(|f: &str| f@) =~= all);
    assert(all.skip(0) =~= all);
    let mut i: usize = 0;
    while i < 4
        invariant
            0 <= i <= 4,
            all == timestamp_formats(),
            formats@.map_values(|f: &str| f@) == all,
            first_parse(timestamp@, all) == first_parse(timestamp@, all.skip(i as int)),
        decreases 4 - i,
    {
        assert(formats@[i as int]@ == all[i as int]);
        assert(all.skip(i as int)[0] == all[i as int]);
        assert(all.skip(i as int).skip(1) =~= all.skip(i + 1));
        match parse_from_str(timestamp, formats[i]) {
            Some(d) => return Ok(d),
            None => {},
        }
        i = i + 1;
    }
    assert(all.skip(4) =~= Seq::<Seq<char>>::empty());
    Err(TimestampError { timestamp: timestamp.to_owned() })
}

} // verus!
