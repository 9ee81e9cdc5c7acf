//! The link to a Quarch power module: how a command is framed, how an answer is put back
//! together from what the module sends, and which readings its list of outputs holds.

use vstd::prelude::*;
use vstd::string::StringSliceAdditionalSpecFns;
use crate::pieces::split_all_chars;
use crate::text::{chars_of, dec_digits, dec_of, push_str, split_all, string_of, trim, trimmed};

verus! {

/// The bytes of a command as the module expects them: the length of the command with its
/// `\r\n` ending, on one byte (modulo 256), a zero byte, then the command and `\r\n`.
pub open spec fn framed(cmd: Seq<u8>) -> Seq<u8> {
    seq![((cmd.len() + 2) % 256) as u8, 0u8] + cmd + seq![13u8, 10u8]
}

/// Frames a command for the module.
pub fn frame_command(cmd: &str) -> (r: Vec<u8>)
    ensures
        r@ == framed(cmd.spec_bytes()),
{
    let bytes = cmd.as_bytes();
    let n: usize = bytes.len() % 256;
    let len_byte: u8 = ((n + 2) % 256) as u8;
    proof {
        vstd::arithmetic::div_mod::lemma_add_mod_noop(bytes@.len() as int, 2, 256);
        assert(2int % 256 == 2);
        assert((n + 2) % 256 == (bytes@.len() + 2) % 256);
    }
    let mut out: Vec<u8> = Vec::new();
    out.push(len_byte);
    out.push(0u8);
    let mut i: usize = 0;
    while i < bytes.len()
        invariant
            0 <= i <= bytes@.len(),
            out@ == seq![len_byte, 0u8] + bytes@.take(i as int),
        decreases bytes.len() - i,
    {
        out.push(bytes[i]);
        i = i + 1;
        assert(out@ =~= seq![len_byte, 0u8] + bytes@.take(i as int));
    }
    out.push(13u8);
    out.push(10u8);
    assert(bytes@.take(bytes@.len() as int) =~= bytes@);
    assert(out@ =~= framed(cmd.spec_bytes()));
    out
}

/// The command that sets the hardware averaging of the module to `sample` thousand samples.
pub fn averaging_command(sample: u32) -> (r: String)
    ensures
        r@ == "RECord:AVEraging "@ + dec_of(sample as nat) + "K"@,
{
    let mut out: Vec<char> = Vec::new();
    push_str(&mut out, "RECord:AVEraging ");
    let digits = dec_digits(sample as u64);
    let mut i: usize = 0;
    let ghost start = out@;
    while i < digits.len()
        invariant
            0 <= i <= digits@.len(),
            out@ == start + digits@.take(i as int),
        decreases digits.len() - i,
    {
        out.push(digits[i]);
        i = i + 1;
        assert(out@ =~= start + digits@.take(i as int));
    }
    assert(digits@.take(digits@.len() as int) =~= digits@);
    push_str(&mut out, "K");
    string_of(out.as_slice())
}

/// The end of a complete answer: `\r\n>`, the module's prompt.
pub open spec fn prompt() -> Seq<u8> {
    seq![13u8, 10u8, 62u8]
}

/// Whether `b` ends with the prompt.
pub open spec fn ends_with_prompt(b: Seq<u8>) -> bool {
    b.len() >= 3 && b.subrange(b.len() - 3, b.len() as int) == prompt()
}

/// What a chunk read from the module adds to the answer: its bytes after a two-byte header.
pub open spec fn chunk_payload(chunk: Seq<u8>) -> Seq<u8> {
    if chunk.len() > 2 {
        chunk.skip(2)
    } else {
        Seq::empty()
    }
}

/// Adds a chunk read from the module to the answer so far, and tells whether the answer is now
/// complete.
pub fn take_chunk(buffer: &mut Vec<u8>, chunk: &[u8]) -> (done: bool)
    ensures
        final(buffer)@ == old(buffer)@ + chunk_payload(chunk@),
        done == ends_with_prompt(final(buffer)@),
{
    if chunk.len() > 2 {
        let mut i: usize = 2;
        assert(chunk@.subrange(2, 2) =~= Seq::<u8>::empty());
        assert(buffer@ =~= old(buffer)@ + chunk@.subrange(2, 2));
        while i < chunk.len()
            invariant
                2 <= i <= chunk@.len(),
                buffer@ == old(buffer)@ + chunk@.subrange(2, i as int),
            decreases chunk.len() - i,
        {
            buffer.push(chunk[i]);
            i = i + 1;
            assert(buffer@ =~= old(buffer)@ + chunk@.subrange(2, i as int));
        }
        assert(chunk@.subrange(2, chunk@.len() as int) =~= chunk@.skip(2));
    } else {
        assert(old(buffer)@ + chunk_payload(chunk@) =~= old(buffer)@);
    }
    let n = buffer.len();
    let done = n >= 3 && buffer[n - 3] == 13u8 && buffer[n - 2] == 10u8 && buffer[n - 1] == 62u8;
    proof {
        if n >= 3 {
            let t = buffer@.subrange(n - 3, n as int);
            assert(t[0] == buffer@[n - 3] && t[1] == buffer@[n - 2] && t[2] == buffer@[n - 1]);
            if done {
                assert(t =~= prompt());
            }
        }
    }
    done
}

/// What `String::from_utf8_lossy` gives for `bytes`: their text, each invalid sequence
/// replaced by U+FFFD.
pub uninterp spec fn lossy_utf8(bytes: Seq<u8>) -> Seq<char>;

/// The text of `bytes` by `String::from_utf8_lossy`; the contract names it.
#[verifier::external_body]
fn utf8_lossy(bytes: &[u8]) -> (s: String)
    ensures
        s@ == lossy_utf8(bytes@),
{
    String::from_utf8_lossy(bytes).into_owned()
}

/// `s` without the occurrences of `p` that end it, one after the other (the standard library's
/// `trim_end_matches`).
pub open spec fn strip_ends(s: Seq<char>, p: Seq<char>) -> Seq<char>
    decreases s.len(),
{
    if p.len() > 0 && s.len() >= p.len() && s.skip(s.len() - p.len()) == p {
        strip_ends(s.take(s.len() - p.len()), p)
    } else {
        s
    }
}

fn strip_ends_exec(s: &[char], p: &[char]) -> (r: Vec<char>)
    ensures
        r@ == strip_ends(s@, p@),
{
    let mut end: usize = s.len();
    assert(s@.take(end as int) =~= s@);
    while p.len() > 0 && end >= p.len() && ends_at(s, end, p)
        invariant
            end <= s@.len(),
            strip_ends(s@.take(end as int), p@) == strip_ends(s@, p@),
        decreases end,
    {
        assert(s@.take(end as int).take(end - p@.len()) =~= s@.take(end - p@.len()));
        end = end - p.len();
    }
    crate::text::slice_to_vec_range(s, 0, end)
}

fn ends_at(s: &[char], end: usize, p: &[char]) -> (r: bool)
    requires
        p@.len() <= end <= s@.len(),
    ensures
        r == (s@.take(end as int).skip(end - p@.len()) == p@),
{
    let start = end - p.len();
    let mut i: usize = 0;
    while i < p.len()
        invariant
            start + p@.len() == end,
            end <= s@.len(),
            0 <= i <= p@.len(),
            forall|j: int| 0 <= j < i ==> s@[start + j] == p@[j],
        decreases p.len() - i,
    {
        if s[start + i] != p[i] {
            assert(s@.take(end as int).skip(start as int)[i as int] == s@[start + i]);
            return false;
        }
        i = i + 1;
    }
    assert(s@.take(end as int).skip(start as int) =~= p@);
    true
}

/// Why an answer of the module cannot be used.
#[derive(Debug, Clone, Copy, PartialEq, Eq, Structural)]
pub enum LinkError {
    /// The module answered nothing.
    EmptyAnswer,
}

/// The answer that the module sent, as text: without the prompt that ends it, and without
/// surrounding whitespace. An empty answer is an error.
pub fn read_answer(buffer: &[u8]) -> (r: Result<String, LinkError>)
    ensures
        r is Err <==> buffer@.len() == 0,
        r matches Ok(s) ==> s@ == trimmed(strip_ends(lossy_utf8(buffer@), "\r\n>"@)),
{
    if buffer.len() == 0 {
        return Err(LinkError::EmptyAnswer);
    }
    let text = utf8_lossy(buffer);
    let c = chars_of(text.as_str());
    let p = chars_of("\r\n>");
    let stripped = strip_ends_exec(c.as_slice(), p.as_slice());
    let t = trim(stripped.as_slice(), false);
    Ok(string_of(t.as_slice()))
}

/// What a reading of the module measures.
#[derive(Debug, Clone, Copy, PartialEq, Eq, Structural)]
pub enum Quantity {
    /// A voltage, in millivolts.
    Voltage,
    /// A current, in microamperes.
    Current,
}

/// `l` without the carriage return that ends it, if any.
pub open spec fn without_cr(l: Seq<char>) -> Seq<char> {
    if l.len() > 0 && l.last() == '\r' {
        l.drop_last()
    } else {
        l
    }
}

/// The lines of `s`, as the standard library's `lines` gives them: split at each `\n`, a
/// `\r` before it dropped, and no last empty line.
pub open spec fn text_lines(s: Seq<char>) -> Seq<Seq<char>> {
    let parts = split_all(s, '\n');
    let body = parts.drop_last().map_values(|l: Seq<char>| without_cr(l));
    if parts.last().len() > 0 {
        body.push(parts.last())
    } else {
        body
    }
}

/// Whether the standard library's `char::is_numeric` holds of `c`.
pub uninterp spec fn numeric(c: char) -> bool;

/// `char::is_numeric`; the contract names its result (the Unicode numeric categories).
#[verifier::external_body]
fn is_numeric(c: char) -> (b: bool)
    ensures
        b == numeric(c),
{
    c.is_numeric()
}

/// The numeric characters and dots of `s`, in order.
pub open spec fn number_chars(s: Seq<char>) -> Seq<char>
    decreases s.len(),
{
    if s.len() == 0 {
        s
    } else if numeric(s.last()) || s.last() == '.' {
        number_chars(s.drop_last()).push(s.last())
    } else {
        number_chars(s.drop_last())
    }
}

/// Whether `p` occurs in `s`.
pub open spec fn has_part(s: Seq<char>, p: Seq<char>) -> bool {
    exists|i: int| 0 <= i && i + p.len() <= s.len() && #[trigger] s.subrange(i, i + p.len()) == p
}

/// The number written in a line: the numeric characters and dots of what follows its last
/// `=`, surrounding whitespace left out.
pub open spec fn value_text(line: Seq<char>) -> Seq<char> {
    number_chars(trimmed(split_all(line, '=').last()))
}

/// The reading of a line of outputs: a voltage when it mentions `mV`, else a current when it
/// mentions `uA`, with the number that it gives.
pub open spec fn reading_of(line: Seq<char>) -> Option<(Quantity, Seq<char>)> {
    if has_part(line, "mV"@) {
        Some((Quantity::Voltage, value_text(line)))
    } else if has_part(line, "uA"@) {
        Some((Quantity::Current, value_text(line)))
    } else {
        None
    }
}

/// The readings of some lines, in order.
pub open spec fn readings_of_lines(lines: Seq<Seq<char>>) -> Seq<(Quantity, Seq<char>)>
    decreases lines.len(),
{
    if lines.len() == 0 {
        Seq::empty()
    } else {
        match reading_of(lines.last()) {
            Some(x) => readings_of_lines(lines.drop_last()).push(x),
            None => readings_of_lines(lines.drop_last()),
        }
    }
}

fn has_part_exec(s: &[char], p: &[char]) -> (r: bool)
    ensures
        r == has_part(s@, p@),
{
    if p.len() > s.len() {
        return false;
    }
    let last = s.len() - p.len();
    let mut i: usize = 0;
    loop
        invariant
            p@.len() <= s@.len(),
            last == s@.len() - p@.len(),
            last + p.len() == s.len(),
            0 <= i <= last,
            forall|j: int| 0 <= j < i ==> #[trigger] s@.subrange(j, j + p@.len()) != p@,
        decreases last - i,
    {
        assert(s@.take(i + p@.len()).skip(i as int) =~= s@.subrange(i as int, i + p@.len()));
        if ends_at(s, i + p.len(), p) {
            return true;
        }
        if i == last {
            return false;
        }
        i = i + 1;
    }
}

fn number_chars_exec(s: &[char]) -> (r: Vec<char>)
    ensures
        r@ == number_chars(s@),
{
    let mut out: Vec<char> = Vec::new();
    let mut i: usize = 0;
    assert(s@.take(0) =~= Seq::<char>::empty());
    while i < s.len()
        invariant
            0 <= i <= s@.len(),
            out@ == number_chars(s@.take(i as int)),
        decreases s.len() - i,
    {
        assert(s@.take(i + 1).drop_last() =~= s@.take(i as int));
        assert(s@.take(i + 1).last() == s@[i as int]);
        if is_numeric(s[i]) || s[i] == '.' {
            out.push(s[i]);
        }
        i = i + 1;
    }
    assert(s@.take(s@.len() as int) =~= s@);
    out
}

fn reading_of_line(line: &[char]) -> (r: Option<(Quantity, String)>)
    ensures
        r matches Some(x) ==> reading_of(line@) == Some((x.0, x.1@)),
        r is None ==> reading_of(line@) is None,
{
    proof {
        reveal_strlit("mV");
        reveal_strlit("uA");
    }
    let mv = chars_of("mV");
    let ua = chars_of("uA");
    let quantity = if has_part_exec(line, mv.as_slice()) {
        Quantity::Voltage
    } else if has_part_exec(line, ua.as_slice()) {
        Quantity::Current
    } else {
        return None;
    };
    let fields = split_all_chars(line, '=');
    let last = &fields[fields.len() - 1];
    assert(last@ == split_all(line@, '=').last());
    let t = trim(last.as_slice(), false);
    let digits = number_chars_exec(t.as_slice());
    Some((quantity, string_of(digits.as_slice())))
}

/// The readings listed in the answer to `Measure:OUTputs?`: for each line that mentions `mV`
/// (a voltage) or else `uA` (a current), the number after its last `=`.
pub fn output_readings(outputs: &str) -> (r: Vec<(Quantity, String)>)
    ensures
        r@.map_values(|x: (Quantity, String)| (x.0, x.1@)) == readings_of_lines(text_lines(outputs@)),
{
    let c = chars_of(outputs);
    let parts = split_all_chars(c.as_slice(), '\n');
    let ghost pv = parts@.map_values(|w: Vec<char>| w@);
    let ghost lines = text_lines(outputs@);
    let n = parts.len();
    assert(pv == split_all(outputs@, '\n'));
    let mut out: Vec<(Quantity, String)> = Vec::new();
    let mut i: usize = 0;
    assert(lines.take(0) =~= Seq::<Seq<char>>::empty());
    let ghost nlines: int = if pv.last().len() > 0 { n as int } else { n - 1 };
    assert(lines.len() == nlines);
    while i < n
        invariant
            n == parts@.len(),
            n >= 1,
            pv == parts@.map_values(|w: Vec<char>| w@),
            lines == text_lines(outputs@),
            pv == split_all(outputs@, '\n'),
            nlines == lines.len(),
            0 <= i <= n,
            i <= nlines ==> out@.map_values(|x: (Quantity, String)| (x.0, x.1@)) == readings_of_lines(lines.take(i as int)),
            i > nlines ==> out@.map_values(|x: (Quantity, String)| (x.0, x.1@)) == readings_of_lines(lines),
        decreases n - i,
    {
        let part = &parts[i];
        assert(part@ == pv[i as int]);
        if i + 1 < n {
            let line: Vec<char> = if part.len() > 0 && part[part.len() - 1] == '\r' {
                crate::text::slice_to_vec_range(part.as_slice(), 0, part.len() - 1)
            } else {
                crate::text::slice_to_vec_range(part.as_slice(), 0, part.len())
            };
            assert(line@ == lines[i as int]);
            let ghost before = out@.map_values(|x: (Quantity, String)| (x.0, x.1@));
            assert(lines.take(i + 1).drop_last() =~= lines.take(i as int));
            assert(lines.take(i + 1).last() == lines[i as int]);
            match reading_of_line(line.as_slice()) {
                Some(x) => {
                    out.push(x);
                    assert(out@.map_values(|x: (Quantity, String)| (x.0, x.1@)) =~= before.push((x.0, x.1@)));
                },
                None => {},
            }
        } else if part.len() == 0 {
            assert(lines.take(i as int) =~= lines);
        } else {
            assert(part@ == lines[i as int]);
            let ghost before = out@.map_values(|x: (Quantity, String)| (x.0, x.1@));
            assert(lines.take(i + 1).drop_last() =~= lines.take(i as int));
            assert(lines.take(i + 1).last() == lines[i as int]);
            match reading_of_line(part.as_slice()) {
                Some(x) => {
                    out.push(x);
                    assert(out@.map_values(|x: (Quantity, String)| (x.0, x.1@)) =~= before.push((x.0, x.1@)));
                },
                None => {},
            }
        }
        i = i + 1;
    }
    assert(lines.take(nlines) =~= lines);
    out
}

} // verus!
