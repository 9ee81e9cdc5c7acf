//! INA power sensors of NVIDIA Jetson boards: reading a sensor's identity from its sysfs path.

use vstd::prelude::*;
use crate::pieces::{pieces, split_pieces, Separator};
use crate::text::{
    chars_of, parse_unsigned, parsed_unsigned, slice_to_vec_range, split_once, split_once_at,
    starts_with,
};

verus! {

/// An INA sensor found in sysfs.
#[derive(Debug, Clone, PartialEq, Eq)]
pub struct InaDeviceMetadata {
    /// Path of the sensor's hwmon directory.
    pub path: String,
    /// Address of the sensor on the i2c bus.
    pub i2c_address: u32,
    /// Number of the hwmon device.
    pub number: u32,
}

/// The components of a path, as the standard library's `Path` reads them: the names between
/// slashes, where repeated slashes and `.` components stand for nothing.
pub open spec fn path_components(p: Seq<char>) -> Seq<Seq<char>> {
    pieces(p, Separator::Char('/')).filter(|c: Seq<char>| c != "."@)
}

/// The i2c address and the hwmon number that a hwmon path such as
/// `/sys/bus/i2c/drivers/ina3221/1-0040/hwmon/hwmon2` holds: the hexadecimal number after the
/// first `-` in the name two levels up, and the decimal number after `hwmon` in the last name.
pub open spec fn device_entry(p: Seq<char>) -> Option<(nat, nat)> {
    let c = path_components(p);
    let n = c.len();
    if n < 3 || c[n - 1] == ".."@ || c[n - 3] == ".."@ {
        None
    } else {
        match split_once_at(c[n - 3], '-') {
            None => None,
            Some(parts) => match parsed_unsigned(parts.1, 16, u32::MAX as nat) {
                None => None,
                Some(addr) => {
                    let last = c[n - 1];
                    if last.len() >= 5 && last.take(5) == "hwmon"@ {
                        match parsed_unsigned(last.skip(5), 10, u32::MAX as nat) {
                            None => None,
                            Some(num) => Some((addr, num)),
                        }
                    } else {
                        None
                    }
                },
            },
        }
    }
}

fn path_parts(s: &[char]) -> (r: Vec<Vec<char>>)
    ensures
        r@.map_values(|w: Vec<char>| w@) == path_components(s@),
{
    let all = split_pieces(s, Separator::Char('/'));
    let ghost whole = all@.map_values(|w: Vec<char>| w@);
    let dot = chars_of(".");
    let mut r: Vec<Vec<char>> = Vec::new();
    let mut i: usize = 0;
    while i < all.len()
        invariant
            0 <= i <= all@.len(),
            dot@ == "."@,
            whole == all@.map_values(|w: Vec<char>| w@),
            r@.map_values(|w: Vec<char>| w@) == whole.take(i as int).filter(
                |c: Seq<char>| c != "."@,
            ),
        decreases all.len() - i,
    {
        let ghost before = r@.map_values(|w: Vec<char>| w@);
        proof {
            whole.take(i as int).lemma_filter_push(whole[i as int], |c: Seq<char>| c != "."@);
            assert(whole.take(i + 1) =~= whole.take(i as int).push(whole[i as int]));
        }
        let piece = &all[i];
        assert(piece@ == whole[i as int]);
        if !crate::text::same_chars(piece.as_slice(), dot.as_slice()) {
            let copy = slice_to_vec_range(piece.as_slice(), 0, piece.len());
            assert(copy@ =~= piece@);
            r.push(copy);
            assert(r@.map_values(|w: Vec<char>| w@) =~= before.push(whole[i as int]));
        }
        i = i + 1;
    }
    assert(whole.take(all@.len() as int) =~= whole);
    r
}

/// Reads the i2c address and the hwmon number of an INA sensor from the path of its hwmon
/// directory, such as `/sys/bus/i2c/drivers/ina3221/1-0040/hwmon/hwmon2` (address `0x40`,
/// number 2).
pub fn parse_device_entry(entry_path: &str) -> (r: Option<InaDeviceMetadata>)
    ensures
        r matches Some(m) ==> device_entry(entry_path@) == Some(
            (m.i2c_address as nat, m.number as nat),
        ) && m.path@ == entry_path@,
        r is None ==> device_entry(entry_path@) is None,
{
    proof {
        reveal_strlit("..");
        reveal_strlit("hwmon");
    }
    let chars = chars_of(entry_path);
    let c = path_parts(chars.as_slice());
    let ghost cv = c@.map_values(|w: Vec<char>| w@);
    let n = c.len();
    if n < 3 {
        return None;
    }
    assert(cv[n - 1] == c@[n - 1]@ && cv[n - 3] == c@[n - 3]@);
    let up = chars_of("..");
    if crate::text::same_chars(c[n - 1].as_slice(), up.as_slice()) || crate::text::same_chars(
        c[n - 3].as_slice(),
        up.as_slice(),
    ) {
        return None;
    }
    let (_, addr) = split_once(c[n - 3].as_slice(), '-')?;
    let i2c_address = parse_unsigned(addr.as_slice(), 16, u32::MAX as u64)?;
    let prefix = chars_of("hwmon");
    let last = &c[n - 1];
    if !starts_with(last.as_slice(), prefix.as_slice()) {
        return None;
    }
    let digits = slice_to_vec_range(last.as_slice(), 5, last.len());
    assert(digits@ =~= cv[n - 1].skip(5));
    let number = parse_unsigned(digits.as_slice(), 10, u32::MAX as u64)?;
    Some(
        InaDeviceMetadata {
            path: entry_path.to_owned(),
            i2c_address: i2c_address as u32,
            number: number as u32,
        },
    )
}

} // verus!
