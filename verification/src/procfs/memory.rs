//! Memory statistics (`/proc/meminfo`).

use vstd::prelude::*;
use vstd::arithmetic::power::pow;
use crate::pieces::{lemma_pieces_nonempty, pieces, split_pieces, Separator};
use crate::text::{chars_of, is_word, parse_unsigned, parsed_unsigned, slice_to_vec_range, string_of};

verus! {

/// The words of `s`, separated by runs of ASCII whitespace, like the standard library's
/// `split_ascii_whitespace`.
pub open spec fn words(s: Seq<char>) -> Seq<Seq<char>> {
    pieces(s, Separator::AsciiSpace)
}

/// How many bytes one unit of `unit` stands for in `/proc/meminfo`, where "kB" means KiB.
pub open spec fn unit_factor(unit: Seq<char>) -> Option<nat> {
    if unit == "B"@ {
        Some(1)
    } else if unit == "kB"@ || unit == "KiB"@ || unit == "kiB"@ || unit == "KB"@ {
        Some(1024)
    } else if unit == "mB"@ || unit == "MiB"@ || unit == "miB"@ || unit == "MB"@ {
        Some(1024 * 1024)
    } else if unit == "gB"@ || unit == "GiB"@ || unit == "giB"@ || unit == "GB"@ {
        Some(1024 * 1024 * 1024)
    } else {
        None
    }
}

/// The power of 1024 that the first letter of a unit stands for: `b` none, `k` one, `m` two,
/// `g` three, in either case.
pub open spec fn magnitude(c: char) -> Option<nat> {
    if c == 'b' || c == 'B' {
        Some(0)
    } else if c == 'k' || c == 'K' {
        Some(1)
    } else if c == 'm' || c == 'M' {
        Some(2)
    } else if c == 'g' || c == 'G' {
        Some(3)
    } else {
        None
    }
}

/// Every unit of `/proc/meminfo` counts bytes, and one of it stands for 1024 to the power of the
/// magnitude of its first letter.
pub proof fn lemma_unit_factor_is_a_power_of_1024(u: Seq<char>)
    ensures
        unit_factor(u) matches Some(f) ==> u.len() >= 1 && u.last() == 'B' && (magnitude(u[0]) matches Some(
            e,
        ) && f == pow(1024, e)),
{
    reveal_strlit("B");
    reveal_strlit("kB");
    reveal_strlit("KiB");
    reveal_strlit("kiB");
    reveal_strlit("KB");
    reveal_strlit("mB");
    reveal_strlit("MiB");
    reveal_strlit("miB");
    reveal_strlit("MB");
    reveal_strlit("gB");
    reveal_strlit("GiB");
    reveal_strlit("giB");
    reveal_strlit("GB");
    reveal_with_fuel(pow, 4);
}

/// Whether `value` units of `unit` can be counted in bytes without overflow.
pub open spec fn fits_in_bytes(value: nat, unit: Seq<char>) -> bool {
    unit_factor(unit) matches Some(f) ==> value * f <= u64::MAX
}

/// Converts `value`, counted in `unit`, to bytes; `None` for an unknown unit.
pub fn convert_meminfo_to_bytes(value: u64, unit: &str) -> (r: Option<u64>)
    requires
        fits_in_bytes(value as nat, unit@),
    ensures
        r matches Some(b) ==> unit_factor(unit@) matches Some(f) && b == value * f,
        r is None <==> unit_factor(unit@) is None,
{
    let u = chars_of(unit);
    unit_to_bytes(value, u.as_slice())
}

fn factor_of(u: &[char]) -> (f: Option<u64>)
    ensures
        f matches Some(x) ==> unit_factor(u@) == Some(x as nat),
        f is None ==> unit_factor(u@) is None,
{
    proof {
        reveal_strlit("B");
        reveal_strlit("kB");
        reveal_strlit("KiB");
        reveal_strlit("kiB");
        reveal_strlit("KB");
        reveal_strlit("mB");
        reveal_strlit("MiB");
        reveal_strlit("miB");
        reveal_strlit("MB");
        reveal_strlit("gB");
        reveal_strlit("GiB");
        reveal_strlit("giB");
        reveal_strlit("GB");
    }
    if is_word(u, "B") {
        Some(1)
    } else if is_word(u, "kB") || is_word(u, "KiB") || is_word(u, "kiB") || is_word(u, "KB") {
        Some(1024)
    } else if is_word(u, "mB") || is_word(u, "MiB") || is_word(u, "miB") || is_word(u, "MB") {
        Some(1024 * 1024)
    } else if is_word(u, "gB") || is_word(u, "GiB") || is_word(u, "giB") || is_word(u, "GB") {
        Some(1024 * 1024 * 1024)
    } else {
        None
    }
}

fn unit_to_bytes(value: u64, u: &[char]) -> (r: Option<u64>)
    requires
        fits_in_bytes(value as nat, u@),
    ensures
        r matches Some(b) ==> unit_factor(u@) matches Some(f) && b == value * f,
        r is None <==> unit_factor(u@) is None,
{
    match factor_of(u) {
        Some(f) => Some(value * f),
        None => None,
    }
}

/// The entry that a line of `/proc/meminfo` holds: its key (the first word without its
/// trailing colon) and its value in bytes; `None` for a malformed line.
pub open spec fn meminfo_entry(line: Seq<char>) -> Option<(Seq<char>, nat)> {
    let w = words(line);
    if w.len() < 2 {
        None
    } else {
        match parsed_unsigned(w[1], 10, u64::MAX as nat) {
            None => None,
            Some(v) => if w.len() < 3 {
                Some((w[0].drop_last(), v))
            } else {
                match unit_factor(w[2]) {
                    Some(f) => Some((w[0].drop_last(), v * f)),
                    None => None,
                }
            },
        }
    }
}

/// What reading a line needs: its first word ends with an ASCII character (the colon), so
/// that it can be cut there, and its value fits in bytes.
pub open spec fn meminfo_line_readable(line: Seq<char>) -> bool {
    let w = words(line);
    &&& w.len() > 0 ==> (w[0].last() as u32) < 128
    &&& w.len() >= 3 ==> (parsed_unsigned(w[1], 10, u64::MAX as nat) matches Some(v) ==> fits_in_bytes(v, w[2]))
}

/// Whether a line of `/proc/meminfo` can be read (see [`meminfo_line_readable`]); a line that
/// cannot would stop the reading, as it would the kernel's own tools.
pub fn is_meminfo_line_readable(line: &str) -> (b: bool)
    ensures
        b == meminfo_line_readable(line@),
{
    let c = chars_of(line);
    let w = split_pieces(c.as_slice(), Separator::AsciiSpace);
    let ghost ws = w@.map_values(|x: Vec<char>| x@);
    if w.len() > 0 {
        assert(ws[0] == w@[0]@);
        let first = &w[0];
        if first.len() == 0 || (first[first.len() - 1] as u32) >= 128 {
            proof {
                lemma_pieces_nonempty(c@, Separator::AsciiSpace);
            }
            return false;
        }
    }
    if w.len() >= 3 {
        assert(ws[1] == w@[1]@ && ws[2] == w@[2]@);
        if let Some(v) = parse_unsigned(w[1].as_slice(), 10, u64::MAX) {
            match factor_of(w[2].as_slice()) {
                Some(f) => return v.checked_mul(f).is_some(),
                None => {},
            }
        }
    }
    true
}

/// Reads a line of `/proc/meminfo`, such as `MemTotal:  16 kB`, into its key and its value
/// in bytes.
pub fn parse_meminfo_line(line: &str) -> (r: Option<(String, u64)>)
    requires
        meminfo_line_readable(line@),
    ensures
        r matches Some(e) ==> meminfo_entry(line@) == Some((e.0@, e.1 as nat)),
        r is None <==> meminfo_entry(line@) is None,
{
    let c = chars_of(line);
    let w = split_pieces(c.as_slice(), Separator::AsciiSpace);
    proof {
        assert(w@.map_values(|x: Vec<char>| x@).len() == w@.len());
    }
    if w.len() < 2 {
        return None;
    }
    let ghost ws = w@.map_values(|x: Vec<char>| x@);
    assert(ws[0] == w@[0]@ && ws[1] == w@[1]@);
    let value = match parse_unsigned(w[1].as_slice(), 10, u64::MAX) {
        Some(v) => v,
        None => return None,
    };
    let value = if w.len() >= 3 {
        assert(ws[2] == w@[2]@);
        match unit_to_bytes(value, w[2].as_slice()) {
            Some(b) => b,
            None => return None,
        }
    } else {
        value
    };
    let key = &w[0];
    let n = key.len();
    let k = slice_to_vec_range(key.as_slice(), 0, n - 1);
    assert(k@ =~= ws[0].drop_last());
    Some((string_of(k.as_slice()), value))
}


/// The value given to the first metric named `key` in `metrics`, if any.
pub open spec fn metric_named<M>(metrics: Seq<(String, M)>, key: Seq<char>) -> Option<M>
    decreases metrics.len(),
{
    if metrics.len() == 0 {
        None
    } else if metrics[0].0@ == key {
        Some(metrics[0].1)
    } else {
        metric_named(metrics.skip(1), key)
    }
}

/// The measurements that the first `k` lines of `/proc/meminfo` give for the metrics to read:
/// each non-empty line whose key names a metric gives that metric its value in bytes. `Err(i)`
/// tells that line `i` is malformed.
pub open spec fn meminfo_measures<M>(lines: Seq<String>, metrics: Seq<(String, M)>, k: int) -> Result<
    Seq<(M, u64)>,
    usize,
>
    decreases k,
{
    if k <= 0 {
        Ok(Seq::empty())
    } else {
        match meminfo_measures(lines, metrics, k - 1) {
            Err(i) => Err(i),
            Ok(before) => {
                let line = lines[k - 1]@;
                if line.len() == 0 {
                    Ok(before)
                } else {
                    match meminfo_entry(line) {
                        None => Err((k - 1) as usize),
                        Some(e) => match metric_named(metrics, e.0) {
                            Some(m) => Ok(before.push((m, e.1 as u64))),
                            None => Ok(before),
                        },
                    }
                }
            },
        }
    }
}

fn find_metric<M: Copy>(metrics: &[(String, M)], key: &String) -> (r: Option<M>)
    ensures
        r == metric_named(metrics@, key@),
{
    let k = chars_of(key.as_str());
    let mut i: usize = 0;
    assert(metrics@.skip(0) =~= metrics@);
    while i < metrics.len()
        invariant
            0 <= i <= metrics@.len(),
            k@ == key@,
            metric_named(metrics@, key@) == metric_named(metrics@.skip(i as int), key@),
        decreases metrics.len() - i,
    {
        let ghost rest = metrics@.skip(i as int);
        assert(rest[0] == metrics@[i as int]);
        let name = chars_of(metrics[i].0.as_str());
        if crate::text::same_chars(name.as_slice(), k.as_slice()) {
            return Some(metrics[i].1);
        }
        assert(rest.skip(1) =~= metrics@.skip(i + 1));
        i = i + 1;
    }
    None
}

/// Reads the lines of `/proc/meminfo` and gives, in the order of the lines, the value in bytes
/// of each metric to read that a line names; the other lines are skipped, and so are empty
/// lines. A malformed line stops the read: its index is returned.
pub fn meminfo_measurements<M: Copy>(lines: &[String], metrics: &[(String, M)]) -> (r: Result<
    Vec<(M, u64)>,
    usize,
>)
    requires
        forall|i: int| 0 <= i < lines@.len() ==> meminfo_line_readable(#[trigger] lines@[i]@),
    ensures
        r matches Ok(v) ==> meminfo_measures(lines@, metrics@, lines@.len() as int) == Ok::<
            Seq<(M, u64)>,
            usize,
        >(v@),
        r matches Err(i) ==> meminfo_measures(lines@, metrics@, lines@.len() as int) == Err::<
            Seq<(M, u64)>,
            usize,
        >(i),
{
    let mut out: Vec<(M, u64)> = Vec::new();
    let mut i: usize = 0;
    while i < lines.len()
        invariant
            0 <= i <= lines@.len(),
            forall|j: int| 0 <= j < lines@.len() ==> meminfo_line_readable(#[trigger] lines@[j]@),
            meminfo_measures(lines@, metrics@, i as int) == Ok::<Seq<(M, u64)>, usize>(out@),
        decreases lines.len() - i,
    {
        let line = &lines[i];
        assert(meminfo_line_readable(lines@[i as int]@));
        if !line.as_str().is_empty() {
            match parse_meminfo_line(line.as_str()) {
                None => {
                    proof {
                        lemma_measures_stop(lines@, metrics@, i as int + 1, lines@.len() as int);
                    }
                    return Err(i);
                },
                Some((key, value)) => match find_metric(metrics, &key) {
                    Some(m) => out.push((m, value)),
                    None => {},
                },
            }
        } else {
            assert(line@.len() == 0);
        }
        i = i + 1;
    }
    Ok(out)
}

proof fn lemma_measures_stop<M>(lines: Seq<String>, metrics: Seq<(String, M)>, k: int, n: int)
    requires
        1 <= k <= n,
        meminfo_measures(lines, metrics, k) is Err,
    ensures
        meminfo_measures(lines, metrics, n) == meminfo_measures(lines, metrics, k),
    decreases n - k,
{
    if n > k {
        lemma_measures_stop(lines, metrics, k, n - 1);
    }
}

} // verus!
