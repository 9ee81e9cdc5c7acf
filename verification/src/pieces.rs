//! Splitting text into the non-empty pieces between separators.

use vstd::prelude::*;
use crate::text::{
    ascii_space, drop_leading, is_ascii_space, is_space, space, lemma_split_once_shorter, slice_to_vec_range, split_all,
    split_once, split_once_at,
};

verus! {

/// What separates the pieces of a text.
#[derive(Debug, Clone, Copy, PartialEq, Eq, Structural)]
pub enum Separator {
    /// ASCII whitespace.
    AsciiSpace,
    /// Unicode whitespace.
    Space,
    /// One given character.
    Char(char),
}

/// Whether `sep` matches `c`.
pub open spec fn separates(sep: Separator, c: char) -> bool {
    match sep {
        Separator::AsciiSpace => is_ascii_space(c),
        Separator::Space => is_space(c),
        Separator::Char(x) => c == x,
    }
}

/// Whether `sep` matches `c`.
pub fn is_separator(sep: Separator, c: char) -> (r: bool)
    ensures
        r == separates(sep, c),
{
    match sep {
        Separator::AsciiSpace => ascii_space(c),
        Separator::Space => space(c),
        Separator::Char(x) => c == x,
    }
}

/// Length of the leading run of characters of `s` that `sep` does not match.
pub open spec fn piece_len(s: Seq<char>, sep: Separator) -> nat
    decreases s.len(),
{
    if s.len() == 0 || separates(sep, s[0]) {
        0
    } else {
        1 + piece_len(s.skip(1), sep)
    }
}

/// The non-empty pieces of `s` between runs of separators, like the standard library's
/// `split_ascii_whitespace` for ASCII whitespace.
pub open spec fn pieces(s: Seq<char>, sep: Separator) -> Seq<Seq<char>>
    decreases s.len(),
{
    let t = drop_leading(s, |c: char| separates(sep, c));
    if t.len() == 0 {
        Seq::empty()
    } else {
        let k = piece_len(t, sep);
        if k == 0 || k > t.len() || t.len() > s.len() {
            Seq::empty()
        } else {
            seq![t.take(k as int)] + pieces(t.skip(k as int), sep)
        }
    }
}

pub proof fn lemma_drop_leading_shorter(s: Seq<char>, p: spec_fn(char) -> bool)
    ensures
        drop_leading(s, p).len() <= s.len(),
        drop_leading(s, p).len() > 0 ==> !p(drop_leading(s, p)[0]),
        drop_leading(s, p).len() > 0 ==> s.len() > 0,
    decreases s.len(),
{
    if s.len() > 0 && p(s[0]) {
        lemma_drop_leading_shorter(s.skip(1), p);
    }
}

proof fn lemma_piece_len(s: Seq<char>, sep: Separator)
    ensures
        piece_len(s, sep) <= s.len(),
        s.len() > 0 && !separates(sep, s[0]) ==> piece_len(s, sep) > 0,
        forall|i: int| 0 <= i < piece_len(s, sep) ==> !separates(sep, #[trigger] s[i]),
        piece_len(s, sep) < s.len() ==> separates(sep, s[piece_len(s, sep) as int]),
    decreases s.len(),
{
    if s.len() > 0 && !separates(sep, s[0]) {
        lemma_piece_len(s.skip(1), sep);
        assert forall|i: int| 0 <= i < piece_len(s, sep) implies !separates(sep, #[trigger] s[i]) by {
            if i > 0 {
                assert(s[i] == s.skip(1)[i - 1]);
            }
        }
    }
}

/// The non-empty pieces of `s` between runs of separators.
pub fn split_pieces(s: &[char], sep: Separator) -> (r: Vec<Vec<char>>)
    ensures
        r@.map_values(|w: Vec<char>| w@) == pieces(s@, sep),
{
    let n = s.len();
    let mut out: Vec<Vec<char>> = Vec::new();
    let mut i: usize = 0;
    assert(s@.skip(0) =~= s@);
    loop
        invariant
            n == s@.len(),
            0 <= i <= n,
            pieces(s@, sep) == out@.map_values(|w: Vec<char>| w@) + pieces(s@.skip(i as int), sep),
        decreases n - i,
    {
        let ghost rest = s@.skip(i as int);
        let mut start = i;
        while start < n && is_separator(sep, s[start])
            invariant
                n == s@.len(),
                i <= start <= n,
                rest == s@.skip(i as int),
                drop_leading(s@.skip(start as int), |c: char| separates(sep, c)) == drop_leading(
                    rest,
                    |c: char| separates(sep, c),
                ),
            decreases n - start,
        {
            assert(s@.skip(start as int).skip(1) =~= s@.skip(start + 1));
            start = start + 1;
        }
        let ghost t = s@.skip(start as int);
        assert(drop_leading(t, |c: char| separates(sep, c)) == t);
        proof {
            lemma_drop_leading_shorter(rest, |c: char| separates(sep, c));
        }
        if start == n {
            assert(t.len() == 0);
            assert(pieces(rest, sep) =~= Seq::<Seq<char>>::empty());
            assert(out@.map_values(|w: Vec<char>| w@) + Seq::<Seq<char>>::empty() =~= out@.map_values(|w: Vec<char>| w@));
            return out;
        }
        let mut end = start;
        while end < n && !is_separator(sep, s[end])
            invariant
                n == s@.len(),
                start <= end <= n,
                t == s@.skip(start as int),
                piece_len(t, sep) == (end - start) + piece_len(s@.skip(end as int), sep),
            decreases n - end,
        {
            assert(s@.skip(end as int).skip(1) =~= s@.skip(end + 1));
            end = end + 1;
        }
        proof {
            lemma_piece_len(t, sep);
            assert(piece_len(t, sep) == end - start);
            assert(t.take((end - start) as int) =~= s@.subrange(start as int, end as int));
            assert(t.skip((end - start) as int) =~= s@.skip(end as int));
        }
        let w = slice_to_vec_range(s, start, end);
        let ghost before = out@.map_values(|w: Vec<char>| w@);
        out.push(w);
        assert(out@.map_values(|w: Vec<char>| w@) =~= before.push(w@));
        assert(before.push(w@) + pieces(s@.skip(end as int), sep) =~= before + (seq![w@] + pieces(s@.skip(end as int), sep)));
        i = end;
    }
}



/// The pieces of `s` between the occurrences of `c`, empty ones included, like the standard
/// library's `split`.
pub fn split_all_chars(s: &[char], c: char) -> (r: Vec<Vec<char>>)
    ensures
        r@.map_values(|w: Vec<char>| w@) == split_all(s@, c),
        r@.len() >= 1,
{
    let mut out: Vec<Vec<char>> = Vec::new();
    let mut rest: Vec<char> = slice_to_vec_range(s, 0, s.len());
    assert(rest@ =~= s@);
    assert(out@.map_values(|w: Vec<char>| w@) + split_all(rest@, c) =~= split_all(s@, c));
    loop
        invariant
            split_all(s@, c) == out@.map_values(|w: Vec<char>| w@) + split_all(rest@, c),
        decreases rest@.len(),
    {
        let ghost before = out@.map_values(|w: Vec<char>| w@);
        proof {
            lemma_split_once_shorter(rest@, c);
        }
        match split_once(rest.as_slice(), c) {
            Some((head, tail)) => {
                assert(split_all(rest@, c) == seq![head@] + split_all(tail@, c));
                out.push(head);
                assert(out@.map_values(|w: Vec<char>| w@) =~= before.push(head@));
                assert(before.push(head@) + split_all(tail@, c) =~= before + (seq![head@]
                    + split_all(tail@, c)));
                rest = tail;
            },
            None => {
                assert(split_all(rest@, c) == seq![rest@]);
                out.push(rest);
                assert(out@.map_values(|w: Vec<char>| w@) =~= before + seq![rest@]);
                return out;
            },
        }
    }
}


/// Every piece is non-empty.
pub proof fn lemma_pieces_nonempty(s: Seq<char>, sep: Separator)
    ensures
        forall|i: int| 0 <= i < pieces(s, sep).len() ==> #[trigger] pieces(s, sep)[i].len() > 0,
    decreases s.len(),
{
    let t = drop_leading(s, |c: char| separates(sep, c));
    lemma_drop_leading_shorter(s, |c: char| separates(sep, c));
    if t.len() > 0 {
        let k = piece_len(t, sep);
        if !(k == 0 || k > t.len() || t.len() > s.len()) {
            lemma_pieces_nonempty(t.skip(k as int), sep);
            let r = pieces(s, sep);
            let rest = pieces(t.skip(k as int), sep);
            assert(r == seq![t.take(k as int)] + rest);
            assert forall|i: int| 0 <= i < r.len() implies #[trigger] r[i].len() > 0 by {
                if i > 0 {
                    assert(r[i] == rest[i - 1]);
                }
            }
        }
    }
}

} // verus!
