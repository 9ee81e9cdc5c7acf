//! Metric names derived from the entries of `/proc` files.

use vstd::prelude::*;
use crate::text::{chars_of, lower, string_of, to_lower};

verus! {

/// The kind of a character, for case conversion.
#[derive(Clone, Copy, Debug, PartialEq, Eq, Structural)]
pub enum CharKind {
    Lowercase,
    Uppercase,
    NonLetter,
}

/// The kind of a character.
pub open spec fn kind_of(c: char) -> CharKind {
    if 'a' <= c && c <= 'z' {
        CharKind::Lowercase
    } else if 'A' <= c && c <= 'Z' {
        CharKind::Uppercase
    } else {
        CharKind::NonLetter
    }
}

impl CharKind {
    /// The kind of `c`: an ASCII lower-case letter, an ASCII upper-case letter, or anything else.
    pub fn of(c: char) -> (k: Self)
        ensures
            k == kind_of(c),
    {
        if 'a' <= c && c <= 'z' {
            CharKind::Lowercase
        } else if 'A' <= c && c <= 'Z' {
            CharKind::Uppercase
        } else {
            CharKind::NonLetter
        }
    }
}

/// Whether an underscore goes between a character of kind `prev` and the next one of kind `cur`:
/// before an upper-case letter that follows a letter.
pub open spec fn breaks_word(prev: CharKind, cur: CharKind) -> bool {
    (prev == CharKind::Lowercase || prev == CharKind::Uppercase) && cur == CharKind::Uppercase
}

/// The snake-case form of the characters `s[1..i]`, each given with its predecessor.
pub open spec fn snake_tail(s: Seq<char>, i: int) -> Seq<char>
    decreases i,
{
    if i <= 1 {
        Seq::empty()
    } else {
        let before = snake_tail(s, i - 1);
        let c = s[i - 1];
        if breaks_word(kind_of(s[i - 2]), kind_of(c)) {
            before + seq!['_', lower(c)]
        } else {
            before.push(lower(c))
        }
    }
}

/// The snake-case form of an ASCII name: names of at most one character are kept, names that
/// hold an `_` are lower-cased, and other names are lower-cased with an `_` before each upper-case
/// letter that follows a letter (`camelCase` -> `camel_case`, `SReclaimable` -> `s_reclaimable`).
pub open spec fn snake_case_of(s: Seq<char>) -> Seq<char> {
    if s.len() <= 1 {
        s
    } else if s.contains('_') {
        s.map_values(|c: char| lower(c))
    } else {
        seq![lower(s[0])] + snake_tail(s, s.len() as int)
    }
}

/// Whether every character is ASCII.
pub open spec fn all_ascii(s: Seq<char>) -> bool {
    forall|i: int| 0 <= i < s.len() ==> (#[trigger] s[i] as u32) < 128
}

/// Converts an ASCII name such as `SReclaimable` or `Committed_AS` to snake case.
pub fn convert_to_snake_case(s: &str) -> (r: String)
    requires
        all_ascii(s@),
    ensures
        r@ == snake_case_of(s@),
{
    let c = chars_of(s);
    let n = c.len();
    if n <= 1 {
        return string_of(c.as_slice());
    }
    if let Some(_) = crate::text::find_char(c.as_slice(), '_') {
        let l = crate::text::lower_all(c.as_slice());
        return string_of(l.as_slice());
    }
    let mut res: Vec<char> = Vec::new();
    res.push(to_lower(c[0]));
    let mut prev = CharKind::of(c[0]);
    let mut i: usize = 1;
    while i < n
        invariant
            n == c@.len(),
            c@ == s@,
            1 <= i <= n,
            prev == kind_of(c@[i - 1]),
            res@ == seq![lower(c@[0])] + snake_tail(c@, i as int),
        decreases n - i,
    {
        let ch = c[i];
        let current = CharKind::of(ch);
        let ghost before = res@;
        if (prev == CharKind::Lowercase || prev == CharKind::Uppercase) && current == CharKind::Uppercase {
            res.push('_');
            res.push(to_lower(ch));
            assert(res@ =~= seq![lower(c@[0])] + snake_tail(c@, i + 1));
        } else {
            res.push(to_lower(ch));
            assert(res@ =~= seq![lower(c@[0])] + snake_tail(c@, i + 1));
        }
        prev = current;
        i = i + 1;
    }
    string_of(res.as_slice())
}

} // verus!
