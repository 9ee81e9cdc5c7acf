//! Character-level helpers shared by the parsers.

use vstd::prelude::*;

verus! {

/// The characters of `s`, in order.
pub fn chars_of(s: &str) -> (v: Vec<char>)
    ensures
        v@ == s@,
{
    let mut v: Vec<char> = Vec::new();
    for c in it: s.chars()
        invariant
            v@ == it.seq().take(it.index() as int),
    {
        v.push(c);
    }
    v
}

/// Whether two character sequences are equal.
pub fn same_chars(a: &[char], b: &[char]) -> (r: bool)
    ensures
        r == (a@ == b@),
{
    if a.len() != b.len() {
        return false;
    }
    let mut i: usize = 0;
    while i < a.len()
        invariant
            a@.len() == b@.len(),
            0 <= i <= a@.len(),
            forall|j: int| 0 <= j < i ==> a@[j] == b@[j],
        decreases a.len() - i,
    {
        if a[i] != b[i] {
            return false;
        }
        i = i + 1;
    }
    assert(a@ =~= b@);
    true
}

/// Whether the characters `a` spell the literal `lit`.
pub fn is_word(a: &[char], lit: &str) -> (r: bool)
    ensures
        r == (a@ == lit@),
{
    let w = chars_of(lit);
    same_chars(a, w.as_slice())
}

/// The string made of the characters `chars`.
#[verifier::external_body]
pub(crate) fn string_of(chars: &[char]) -> (s: String)
    ensures
        s@ == chars@,
{
    chars.iter().collect()
}

/// ASCII upper-case form of a character; other characters are kept.
pub open spec fn upper(c: char) -> char {
    if 'a' <= c && c <= 'z' {
        ((c as u32) - 32) as char
    } else {
        c
    }
}

/// ASCII lower-case form of a character; other characters are kept.
pub open spec fn lower(c: char) -> char {
    if 'A' <= c && c <= 'Z' {
        ((c as u32) + 32) as char
    } else {
        c
    }
}

/// ASCII letter or digit.
pub open spec fn is_alnum(c: char) -> bool {
    ('a' <= c && c <= 'z') || ('A' <= c && c <= 'Z') || ('0' <= c && c <= '9')
}

/// ASCII letter.
pub open spec fn is_alpha(c: char) -> bool {
    ('a' <= c && c <= 'z') || ('A' <= c && c <= 'Z')
}

/// ASCII upper-case form of a character.
pub fn to_upper(c: char) -> (r: char)
    ensures
        r == upper(c),
{
    if 'a' <= c && c <= 'z' {
        let code: u8 = c as u8;
        ((code - 32) as char)
    } else {
        c
    }
}

/// ASCII lower-case form of a character.
pub fn to_lower(c: char) -> (r: char)
    ensures
        r == lower(c),
{
    if 'A' <= c && c <= 'Z' {
        let code: u8 = c as u8;
        ((code + 32) as char)
    } else {
        c
    }
}

/// Whether `c` is an ASCII letter or digit.
pub fn alnum(c: char) -> (r: bool)
    ensures
        r == is_alnum(c),
{
    ('a' <= c && c <= 'z') || ('A' <= c && c <= 'Z') || ('0' <= c && c <= '9')
}

/// ASCII upper-case form of a character sequence.
pub fn upper_all(s: &[char]) -> (r: Vec<char>)
    ensures
        r@ == s@.map_values(|c: char| upper(c)),
{
    let mut r: Vec<char> = Vec::new();
    let mut i: usize = 0;
    while i < s.len()
        invariant
            0 <= i <= s@.len(),
            r@ == s@.take(i as int).map_values(|c: char| upper(c)),
        decreases s.len() - i,
    {
        r.push(to_upper(s[i]));
        i = i + 1;
        assert(r@ =~= s@.take(i as int).map_values(|c: char| upper(c)));
    }
    assert(s@.take(s@.len() as int) =~= s@);
    r
}

/// Value of `c` as a digit in base `radix` (at most 16), if it is one.
pub open spec fn digit_value(c: char, radix: nat) -> Option<nat> {
    let v: int = if '0' <= c && c <= '9' {
        c as int - '0' as int
    } else if 'a' <= c && c <= 'z' {
        c as int - 'a' as int + 10
    } else if 'A' <= c && c <= 'Z' {
        c as int - 'A' as int + 10
    } else {
        -1
    };
    if 0 <= v < radix { Some(v as nat) } else { None }
}

/// Every character of `s` is a digit in base `radix`.
pub open spec fn all_digits(s: Seq<char>, radix: nat) -> bool {
    forall|i: int| 0 <= i < s.len() ==> (#[trigger] digit_value(s[i], radix)) is Some
}

/// The number written by the digits `s` in base `radix`.
pub open spec fn number_value(s: Seq<char>, radix: nat) -> nat
    decreases s.len(),
{
    if s.len() == 0 {
        0
    } else {
        number_value(s.drop_last(), radix) * radix + match digit_value(s.last(), radix) {
            Some(d) => d,
            None => 0,
        }
    }
}

/// The number that an unsigned integer parse in base `radix` reads from `s`, if it fits under
/// `max`: an optional leading `+`, then at least one digit, and nothing else.
pub open spec fn parsed_unsigned(s: Seq<char>, radix: nat, max: nat) -> Option<nat> {
    let body = if s.len() > 0 && s[0] == '+' { s.skip(1) } else { s };
    if body.len() == 0 || !all_digits(body, radix) || number_value(body, radix) > max {
        None
    } else {
        Some(number_value(body, radix))
    }
}

proof fn lemma_number_value_grows(s: Seq<char>, radix: nat, i: int)
    requires
        0 <= i <= s.len(),
        radix >= 1,
    ensures
        number_value(s.take(i), radix) <= number_value(s, radix),
    decreases s.len() - i,
{
    if i < s.len() {
        lemma_number_value_grows(s, radix, i + 1);
        let t = s.take(i + 1);
        assert(t.drop_last() =~= s.take(i));
        let a = number_value(s.take(i), radix);
        assert(number_value(t, radix) >= a * radix);
        assert(a * radix >= a) by (nonlinear_arith)
            requires
                radix >= 1,
        ;
    } else {
        assert(s.take(i) =~= s);
    }
}

/// Value of a digit character in base `radix`.
fn digit_of(c: char, radix: u32) -> (r: Option<u32>)
    requires
        radix <= 16,
    ensures
        r matches Some(v) ==> digit_value(c, radix as nat) == Some(v as nat),
        r is None ==> digit_value(c, radix as nat) is None,
{
    let v: u32 = if '0' <= c && c <= '9' {
        (c as u32) - ('0' as u32)
    } else if 'a' <= c && c <= 'z' {
        (c as u32) - ('a' as u32) + 10
    } else if 'A' <= c && c <= 'Z' {
        (c as u32) - ('A' as u32) + 10
    } else {
        return None;
    };
    if v < radix {
        Some(v)
    } else {
        None
    }
}

/// Reads an unsigned integer in base `radix` (2 to 16) that must not exceed `max`, like the
/// standard library's integer parsers do.
pub fn parse_unsigned(s: &[char], radix: u32, max: u64) -> (r: Option<u64>)
    requires
        2 <= radix <= 16,
    ensures
        r matches Some(v) ==> parsed_unsigned(s@, radix as nat, max as nat) == Some(v as nat),
        r is None ==> parsed_unsigned(s@, radix as nat, max as nat) is None,
{
    let start: usize = if s.len() > 0 && s[0] == '+' { 1 } else { 0 };
    let ghost body = if s@.len() > 0 && s@[0] == '+' { s@.skip(1) } else { s@ };
    assert(body =~= s@.skip(start as int));
    if start >= s.len() {
        return None;
    }
    let mut acc: u64 = 0;
    let mut i: usize = start;
    while i < s.len()
        invariant
            start <= i <= s@.len(),
            body == s@.skip(start as int),
            body == (if s@.len() > 0 && s@[0] == '+' { s@.skip(1) } else { s@ }),
            body.len() > 0,
            2 <= radix <= 16,
            all_digits(body.take(i - start), radix as nat),
            acc as nat == number_value(body.take(i - start), radix as nat),
            acc <= max,
        decreases s.len() - i,
    {
        let k = i - start;
        assert(body.take(k + 1).drop_last() =~= body.take(k as int));
        assert(body[k as int] == s@[i as int]);
        match digit_of(s[i], radix) {
            None => {
                assert(!all_digits(body, radix as nat)) by {
                    assert(digit_value(body[k as int], radix as nat) is None);
                }
                return None;
            },
            Some(d) => {
                let next = acc.checked_mul(radix as u64);
                let next = match next {
                    Some(m) => m.checked_add(d as u64),
                    None => None,
                };
                match next {
                    Some(v) if v <= max => {
                        acc = v;
                    },
                    _ => {
                        proof {
                            assert forall|j: int| 0 <= j < body.take(k + 1).len() implies (#[trigger] digit_value(body.take(k + 1)[j], radix as nat)) is Some by {
                                if j < k {
                                    assert(body.take(k + 1)[j] == body.take(k as int)[j]);
                                }
                            }
                            assert(all_digits(body.take(k + 1), radix as nat));
                            assert(number_value(body.take(k + 1), radix as nat) > max);
                            lemma_number_value_grows(body, radix as nat, k + 1);
                        }
                        return None;
                    },
                }
            },
        }
        i = i + 1;
    }
    assert(body.take(body.len() as int) =~= body);
    Some(acc)
}

/// `i` is the position of the first `c` in `s`.
pub open spec fn first_at(s: Seq<char>, c: char, i: int) -> bool {
    0 <= i < s.len() && s[i] == c && forall|j: int| 0 <= j < i ==> s[j] != c
}

/// The parts of `s` before and after its first `c`, if it holds one.
pub open spec fn split_once_at(s: Seq<char>, c: char) -> Option<(Seq<char>, Seq<char>)> {
    if exists|i: int| first_at(s, c, i) {
        let i = choose|i: int| first_at(s, c, i);
        Some((s.take(i), s.skip(i + 1)))
    } else {
        None
    }
}

proof fn lemma_first_at_unique(s: Seq<char>, c: char, i: int, k: int)
    requires
        first_at(s, c, i),
        first_at(s, c, k),
    ensures
        i == k,
{
    if i < k {
        assert(s[i] != c);
    } else if k < i {
        assert(s[k] != c);
    }
}

/// Index of the first `c` in `s`, if any.
pub fn find_char(s: &[char], c: char) -> (r: Option<usize>)
    ensures
        r matches Some(i) ==> first_at(s@, c, i as int),
        r is None ==> !s@.contains(c),
        r is None ==> split_once_at(s@, c) is None,
{
    let mut i: usize = 0;
    while i < s.len()
        invariant
            0 <= i <= s@.len(),
            forall|j: int| 0 <= j < i ==> s@[j] != c,
        decreases s.len() - i,
    {
        if s[i] == c {
            return Some(i);
        }
        i = i + 1;
    }
    assert forall|k: int| !first_at(s@, c, k) by {}
    None
}

/// Splits `s` around its first `c`.
pub fn split_once(s: &[char], c: char) -> (r: Option<(Vec<char>, Vec<char>)>)
    ensures
        r matches Some(p) ==> split_once_at(s@, c) == Some((p.0@, p.1@)),
        r is None ==> split_once_at(s@, c) is None,
{
    match find_char(s, c) {
        None => None,
        Some(i) => {
            proof {
                let k = choose|k: int| first_at(s@, c, k);
                lemma_first_at_unique(s@, c, i as int, k);
            }
            let n = s.len();
            let head = slice_to_vec_range(s, 0, i);
            let tail = slice_to_vec_range(s, i + 1, n);
            Some((head, tail))
        },
    }
}

/// A copy of `s[from..to]`.
pub fn slice_to_vec_range(s: &[char], from: usize, to: usize) -> (r: Vec<char>)
    requires
        from <= to <= s@.len(),
    ensures
        r@ == s@.subrange(from as int, to as int),
{
    let mut r: Vec<char> = Vec::new();
    let mut i: usize = from;
    while i < to
        invariant
            from <= i <= to <= s@.len(),
            r@ == s@.subrange(from as int, i as int),
        decreases to - i,
    {
        r.push(s[i]);
        i = i + 1;
        assert(r@ =~= s@.subrange(from as int, i as int));
    }
    r
}

/// `s` without all the leading repetitions of the non-empty pattern `p`.
pub open spec fn strip_all_prefixes(s: Seq<char>, p: Seq<char>) -> Seq<char>
    decreases s.len(),
{
    if p.len() > 0 && s.len() >= p.len() && s.take(p.len() as int) == p {
        strip_all_prefixes(s.skip(p.len() as int), p)
    } else {
        s
    }
}

/// Whether `s` starts with `p`.
pub fn starts_with(s: &[char], p: &[char]) -> (r: bool)
    ensures
        r == (s@.len() >= p@.len() && s@.take(p@.len() as int) == p@),
{
    if s.len() < p.len() {
        return false;
    }
    let mut i: usize = 0;
    while i < p.len()
        invariant
            s@.len() >= p@.len(),
            0 <= i <= p@.len(),
            forall|j: int| 0 <= j < i ==> s@[j] == p@[j],
        decreases p.len() - i,
    {
        if s[i] != p[i] {
            assert(s@.take(p@.len() as int)[i as int] != p@[i as int]);
            return false;
        }
        i = i + 1;
    }
    assert(s@.take(p@.len() as int) =~= p@);
    true
}

/// `s` without all the leading repetitions of the non-empty pattern `p`.
pub fn trim_start_all(s: &[char], p: &[char]) -> (r: Vec<char>)
    requires
        p@.len() > 0,
    ensures
        r@ == strip_all_prefixes(s@, p@),
{
    let mut start: usize = 0;
    let n = s.len();
    assert(s@.skip(0) =~= s@);
    while p.len() <= n - start && starts_with_at(s, start, p)
        invariant
            n == s@.len(),
            start <= s@.len(),
            p@.len() > 0,
            strip_all_prefixes(s@.skip(start as int), p@) == strip_all_prefixes(s@, p@),
        decreases s.len() - start,
    {
        assert(s@.skip(start as int).skip(p@.len() as int) =~= s@.skip(start + p.len()));
        start = start + p.len();
    }
    proof {
        let t = s@.skip(start as int);
        if t.len() >= p@.len() {
            assert(t.take(p@.len() as int) =~= s@.subrange(start as int, start + p@.len()));
        }
    }
    slice_to_vec_range(s, start, s.len())
}

/// Whether `p` occurs in `s` at position `at`.
fn starts_with_at(s: &[char], at: usize, p: &[char]) -> (r: bool)
    requires
        at + p@.len() <= s@.len(),
    ensures
        r == (s@.subrange(at as int, at + p@.len()) == p@),
        r == (s@.skip(at as int).take(p@.len() as int) == p@),
{
    assert(s@.skip(at as int).take(p@.len() as int) =~= s@.subrange(at as int, at + p@.len()));
    let n = s.len();
    let mut i: usize = 0;
    while i < p.len()
        invariant
            n == s@.len(),
            at + p@.len() <= s@.len(),
            0 <= i <= p@.len(),
            forall|j: int| 0 <= j < i ==> s@[at + j] == p@[j],
        decreases p.len() - i,
    {
        if s[at + i] != p[i] {
            assert(s@.subrange(at as int, at + p@.len())[i as int] != p@[i as int]);
            return false;
        }
        i = i + 1;
    }
    assert(s@.subrange(at as int, at + p@.len()) =~= p@);
    true
}

/// `s` without its leading characters that satisfy `keep_out`.
pub open spec fn drop_leading(s: Seq<char>, keep_out: spec_fn(char) -> bool) -> Seq<char>
    decreases s.len(),
{
    if s.len() > 0 && keep_out(s[0]) {
        drop_leading(s.skip(1), keep_out)
    } else {
        s
    }
}

/// `s` without its trailing characters that satisfy `keep_out`.
pub open spec fn drop_trailing(s: Seq<char>, keep_out: spec_fn(char) -> bool) -> Seq<char>
    decreases s.len(),
{
    if s.len() > 0 && keep_out(s.last()) {
        drop_trailing(s.drop_last(), keep_out)
    } else {
        s
    }
}

/// ASCII whitespace, as the standard library's `is_ascii_whitespace` defines it.
pub open spec fn is_ascii_space(c: char) -> bool {
    c == ' ' || c == '\t' || c == '\n' || c == '\x0C' || c == '\r'
}

/// Unicode whitespace (the `White_Space` property), as the standard library's `is_whitespace`
/// defines it.
pub open spec fn is_space(c: char) -> bool {
    ('\t' <= c && c <= '\r') || c == ' ' || c == '\u{85}' || c == '\u{A0}' || c == '\u{1680}' || (
    '\u{2000}' <= c && c <= '\u{200A}') || c == '\u{2028}' || c == '\u{2029}' || c == '\u{202F}'
        || c == '\u{205F}' || c == '\u{3000}'
}

/// `s` without leading and trailing ASCII whitespace.
pub open spec fn trimmed_ascii(s: Seq<char>) -> Seq<char> {
    drop_trailing(drop_leading(s, |c: char| is_ascii_space(c)), |c: char| is_ascii_space(c))
}

/// `s` without leading and trailing whitespace.
pub open spec fn trimmed(s: Seq<char>) -> Seq<char> {
    drop_trailing(drop_leading(s, |c: char| is_space(c)), |c: char| is_space(c))
}

/// Whether `c` is ASCII whitespace.
pub fn ascii_space(c: char) -> (r: bool)
    ensures
        r == is_ascii_space(c),
{
    c == ' ' || c == '\t' || c == '\n' || c == '\x0C' || c == '\r'
}

/// Whether `c` is Unicode whitespace.
pub fn space(c: char) -> (r: bool)
    ensures
        r == is_space(c),
{
    ('\t' <= c && c <= '\r') || c == ' ' || c == '\u{85}' || c == '\u{A0}' || c == '\u{1680}' || (
    '\u{2000}' <= c && c <= '\u{200A}') || c == '\u{2028}' || c == '\u{2029}' || c == '\u{202F}'
        || c == '\u{205F}' || c == '\u{3000}'
}

fn is_trimmed_char(c: char, only_ascii: bool) -> (r: bool)
    ensures
        r == (if only_ascii { is_ascii_space(c) } else { is_space(c) }),
{
    if only_ascii {
        ascii_space(c)
    } else {
        space(c)
    }
}

/// `s` without leading and trailing ASCII whitespace (`only_ascii`) or whitespace.
pub fn trim(s: &[char], only_ascii: bool) -> (r: Vec<char>)
    ensures
        only_ascii ==> r@ == trimmed_ascii(s@),
        !only_ascii ==> r@ == trimmed(s@),
{
    let ghost pred: spec_fn(char) -> bool = if only_ascii {
        |c: char| is_ascii_space(c)
    } else {
        |c: char| is_space(c)
    };
    let mut start: usize = 0;
    assert(s@.skip(0) =~= s@);
    while start < s.len() && is_trimmed_char(s[start], only_ascii)
        invariant
            start <= s@.len(),
            pred == (if only_ascii { |c: char| is_ascii_space(c) } else { |c: char| is_space(c) }),
            drop_leading(s@.skip(start as int), pred) == drop_leading(s@, pred),
        decreases s.len() - start,
    {
        assert(s@.skip(start as int).skip(1) =~= s@.skip(start + 1));
        start = start + 1;
    }
    let ghost lead = s@.skip(start as int);
    assert(drop_leading(lead, pred) == lead);
    let mut end: usize = s.len();
    while end > start && is_trimmed_char(s[end - 1], only_ascii)
        invariant
            start <= end <= s@.len(),
            pred == (if only_ascii { |c: char| is_ascii_space(c) } else { |c: char| is_space(c) }),
            lead == s@.skip(start as int),
            drop_trailing(s@.subrange(start as int, end as int), pred) == drop_trailing(lead, pred),
        decreases end - start,
    {
        assert(s@.subrange(start as int, end as int).drop_last() =~= s@.subrange(
            start as int,
            end - 1,
        ));
        end = end - 1;
    }
    assert(lead =~= s@.subrange(start as int, s@.len() as int));
    slice_to_vec_range(s, start, end)
}

/// The pieces of `s` between the occurrences of `c`, like the standard library's `split`.
pub open spec fn split_all(s: Seq<char>, c: char) -> Seq<Seq<char>>
    decreases s.len(),
{
    match split_once_at(s, c) {
        Some(parts) => if parts.1.len() < s.len() {
            seq![parts.0] + split_all(parts.1, c)
        } else {
            seq![s]
        },
        None => seq![s],
    }
}

/// The tail of a split is shorter than the split string.
pub proof fn lemma_split_once_shorter(s: Seq<char>, c: char)
    ensures
        split_once_at(s, c) matches Some(parts) ==> parts.1.len() < s.len() && parts.0.len() < s.len(),
{
    if exists|i: int| first_at(s, c, i) {
        let i = choose|i: int| first_at(s, c, i);
        assert(first_at(s, c, i));
    }
}

/// Appends the characters `s` to `v`.
pub fn push_all(v: &mut Vec<char>, s: &[char])
    ensures
        final(v)@ == old(v)@ + s@,
{
    let mut i: usize = 0;
    while i < s.len()
        invariant
            0 <= i <= s@.len(),
            v@ == old(v)@ + s@.take(i as int),
        decreases s.len() - i,
    {
        v.push(s[i]);
        i = i + 1;
        assert(v@ =~= old(v)@ + s@.take(i as int));
    }
    assert(s@.take(s@.len() as int) =~= s@);
}

/// Appends the characters of `s` to `v`.
pub fn push_str(v: &mut Vec<char>, s: &str)
    ensures
        final(v)@ == old(v)@ + s@,
{
    let c = chars_of(s);
    push_all(v, c.as_slice());
}

/// Lower-case hexadecimal digit of `d < 16`.
pub open spec fn hex_digit(d: nat) -> char {
    if d < 10 {
        ('0' as u32 + d) as char
    } else {
        ('a' as u32 + (d - 10)) as char
    }
}

/// Lower-case hexadecimal digits of `n`, without leading zeros (`0` for zero).
pub open spec fn hex_of(n: nat) -> Seq<char>
    decreases n,
{
    if n < 16 {
        seq![hex_digit(n)]
    } else {
        hex_of(n / 16).push(hex_digit(n % 16))
    }
}

/// Lower-case hexadecimal digits of `n`, without leading zeros (`0` for zero), as the `{:x}`
/// format writes them.
pub fn hex_digits(n: u64) -> (r: Vec<char>)
    ensures
        r@ == hex_of(n as nat),
    decreases n,
{
    let d = n % 16;
    let c: char = if d < 10 {
        (('0' as u8) + (d as u8)) as char
    } else {
        (('a' as u8) + ((d - 10) as u8)) as char
    };
    if n < 16 {
        let mut v: Vec<char> = Vec::new();
        v.push(c);
        assert(v@ =~= seq![hex_digit(n as nat)]);
        v
    } else {
        let mut v = hex_digits(n / 16);
        v.push(c);
        v
    }
}

/// Decimal digits of `n`, without leading zeros (`0` for zero).
pub open spec fn dec_of(n: nat) -> Seq<char>
    decreases n,
{
    if n < 10 {
        seq![('0' as u32 + n) as char]
    } else {
        dec_of(n / 10).push(('0' as u32 + n % 10) as char)
    }
}

/// The decimal digits of a number are ASCII digits, one for a number below ten, at least two
/// for a larger one.
pub proof fn lemma_dec_of_digits(n: nat)
    ensures
        n < 10 ==> dec_of(n).len() == 1,
        n >= 10 ==> dec_of(n).len() >= 2,
        forall|i: int| 0 <= i < dec_of(n).len() ==> '0' <= #[trigger] dec_of(n)[i] <= '9',
    decreases n,
{
    if n >= 10 {
        lemma_dec_of_digits(n / 10);
        let d = dec_of(n / 10);
        assert forall|i: int| 0 <= i < dec_of(n).len() implies '0' <= #[trigger] dec_of(n)[i] <= '9' by {
            if i < d.len() {
                assert(dec_of(n)[i] == d[i]);
            }
        }
    }
}

/// Distinct numbers have distinct decimal digits.
pub proof fn lemma_dec_of_injective(a: nat, b: nat)
    requires
        dec_of(a) == dec_of(b),
    ensures
        a == b,
    decreases a,
{
    lemma_dec_of_digits(a);
    lemma_dec_of_digits(b);
    let sa = dec_of(a);
    let sb = dec_of(b);
    let ca = ('0' as u32 + a % 10) as char;
    let cb = ('0' as u32 + b % 10) as char;
    assert(ca as u32 == '0' as u32 + a % 10);
    assert(cb as u32 == '0' as u32 + b % 10);
    assert(sa.last() == ca) by {
        if a < 10 {
            assert(a % 10 == a);
        }
    }
    assert(sb.last() == cb) by {
        if b < 10 {
            assert(b % 10 == b);
        }
    }
    assert(a % 10 == b % 10);
    if a >= 10 && b >= 10 {
        assert(sa.drop_last() == dec_of(a / 10));
        assert(sb.drop_last() == dec_of(b / 10));
        lemma_dec_of_injective(a / 10, b / 10);
        vstd::arithmetic::div_mod::lemma_fundamental_div_mod(a as int, 10);
        vstd::arithmetic::div_mod::lemma_fundamental_div_mod(b as int, 10);
    } else if a < 10 && b < 10 {
        assert(a % 10 == a && b % 10 == b);
    }
}

/// Decimal digits of `n`, as the `{}` format writes them.
pub fn dec_digits(n: u64) -> (r: Vec<char>)
    ensures
        r@ == dec_of(n as nat),
    decreases n,
{
    let c: char = (('0' as u8) + ((n % 10) as u8)) as char;
    if n < 10 {
        let mut v: Vec<char> = Vec::new();
        v.push(c);
        assert(v@ =~= seq![('0' as u32 + n) as char]);
        v
    } else {
        let mut v = dec_digits(n / 10);
        v.push(c);
        v
    }
}

/// `i` is the position of the first occurrence of the non-empty pattern `p` in `s`.
pub open spec fn first_match_at(s: Seq<char>, p: Seq<char>, i: int) -> bool {
    0 <= i && i + p.len() <= s.len() && s.subrange(i, i + p.len()) == p && forall|j: int|
        0 <= j < i ==> #[trigger] s.subrange(j, j + p.len()) != p
}

/// The parts of `s` before and after the first occurrence of `p`, if any.
pub open spec fn split_once_pat(s: Seq<char>, p: Seq<char>) -> Option<(Seq<char>, Seq<char>)> {
    if exists|i: int| first_match_at(s, p, i) {
        let i = choose|i: int| first_match_at(s, p, i);
        Some((s.take(i), s.skip(i + p.len())))
    } else {
        None
    }
}

proof fn lemma_first_match_unique(s: Seq<char>, p: Seq<char>, i: int, k: int)
    requires
        first_match_at(s, p, i),
        first_match_at(s, p, k),
    ensures
        i == k,
{
    if i < k {
        assert(s.subrange(i, i + p.len()) != p);
    } else if k < i {
        assert(s.subrange(k, k + p.len()) != p);
    }
}

/// Splits `s` around the first occurrence of `p`.
pub fn split_once_str(s: &[char], p: &[char]) -> (r: Option<(Vec<char>, Vec<char>)>)
    requires
        p@.len() > 0,
    ensures
        r matches Some(parts) ==> split_once_pat(s@, p@) == Some((parts.0@, parts.1@)),
        r is None ==> split_once_pat(s@, p@) is None,
{
    let n = s.len();
    let m = p.len();
    if m > n {
        assert forall|k: int| !first_match_at(s@, p@, k) by {}
        return None;
    }
    let mut i: usize = 0;
    while i <= n - m
        invariant
            n == s@.len(),
            m == p@.len(),
            m > 0,
            m <= n,
            0 <= i <= n - m + 1,
            forall|j: int| 0 <= j < i ==> #[trigger] s@.subrange(j, j + m) != p@,
        decreases n - m + 1 - i,
    {
        if starts_with_at(s, i, p) {
            proof {
                let k = choose|k: int| first_match_at(s@, p@, k);
                assert(first_match_at(s@, p@, i as int));
                lemma_first_match_unique(s@, p@, i as int, k);
            }
            let head = slice_to_vec_range(s, 0, i);
            let tail = slice_to_vec_range(s, i + m, n);
            return Some((head, tail));
        }
        i = i + 1;
    }
    assert forall|k: int| !first_match_at(s@, p@, k) by {}
    None
}

/// ASCII lower-case form of a character sequence.
pub fn lower_all(s: &[char]) -> (r: Vec<char>)
    ensures
        r@ == s@.map_values(|c: char| lower(c)),
{
    let mut r: Vec<char> = Vec::new();
    let mut i: usize = 0;
    while i < s.len()
        invariant
            0 <= i <= s@.len(),
            r@ == s@.take(i as int).map_values(|c: char| lower(c)),
        decreases s.len() - i,
    {
        r.push(to_lower(s[i]));
        i = i + 1;
        assert(r@ =~= s@.take(i as int).map_values(|c: char| lower(c)));
    }
    assert(s@.take(s@.len() as int) =~= s@);
    r
}


/// `parts` glued together with `sep` between consecutive parts, like the standard library's
/// `join`.
pub open spec fn joined(parts: Seq<Seq<char>>, sep: Seq<char>) -> Seq<char>
    decreases parts.len(),
{
    if parts.len() == 0 {
        Seq::empty()
    } else if parts.len() == 1 {
        parts[0]
    } else {
        joined(parts.drop_last(), sep) + sep + parts.last()
    }
}

/// The views of a list of string slices.
pub open spec fn views_of(parts: Seq<&str>) -> Seq<Seq<char>> {
    parts.map_values(|p: &str| p@)
}

/// The string slices `parts` joined with `sep` between them.
pub fn join(parts: &[&str], sep: &str) -> (r: String)
    ensures
        r@ == joined(views_of(parts@), sep@),
{
    let mut out: Vec<char> = Vec::new();
    let mut i: usize = 0;
    while i < parts.len()
        invariant
            0 <= i <= parts@.len(),
            out@ == joined(views_of(parts@.take(i as int)), sep@),
        decreases parts.len() - i,
    {
        let ghost before = views_of(parts@.take(i as int));
        let ghost after = views_of(parts@.take(i + 1));
        assert(after.drop_last() =~= before);
        assert(after.last() == parts@[i as int]@);
        if i > 0 {
            push_str(&mut out, sep);
        }
        push_str(&mut out, parts[i]);
        i = i + 1;
    }
    assert(parts@.take(parts@.len() as int) =~= parts@);
    string_of(out.as_slice())
}

} // verus!
