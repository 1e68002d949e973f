//! Cutting texts at separators and into words.

use vstd::prelude::*;

use crate::util::text::{
    find_char, find_from, is_space, lemma_find_from, lemma_scan_from, scan, scan_from, slice_of,
};

verus! {

/// The character sequences of the vectors of `v`, in order.
pub open spec fn texts_view(v: Seq<Vec<char>>) -> Seq<Seq<char>> {
    Seq::new(v.len(), |i: int| v[i]@)
}

/// The pieces of `s` from index `from` on, cut at each `sep`. With a `limit`
/// other than 0 there are at most `limit` pieces, and the last of them holds
/// the rest of `s`, separators included.
pub open spec fn split_from(s: Seq<char>, sep: char, from: int, limit: nat) -> Seq<Seq<char>>
    decreases s.len() - from,
    when 0 <= from <= s.len()
{
    let i = find_from(s, sep, from);
    if limit == 1 || i >= s.len() {
        seq![s.subrange(from, s.len() as int)]
    } else {
        proof {
            lemma_find_from(s, sep, from);
        }
        seq![s.subrange(from, i)] + split_from(
            s,
            sep,
            i + 1,
            if limit == 0 {
                0
            } else {
                (limit - 1) as nat
            },
        )
    }
}

/// The pieces of `s` between its separators `sep`: one more than `s` has
/// separators.
pub open spec fn split(s: Seq<char>, sep: char) -> Seq<Seq<char>> {
    split_from(s, sep, 0, 0)
}

/// The first `n` pieces of `s` between its separators `sep`, the last of
/// them running to the end of `s`.
pub open spec fn splitn(s: Seq<char>, sep: char, n: nat) -> Seq<Seq<char>> {
    split_from(s, sep, 0, n)
}

/// The pieces of `v` cut at each `sep`; with a `limit` other than 0, at most
/// `limit` pieces, the last holding the rest.
pub fn split_chars(v: &Vec<char>, sep: char, limit: usize) -> (pieces: Vec<Vec<char>>)
    ensures
        texts_view(pieces@) == split_from(v@, sep, 0, limit as nat),
        1 <= pieces.len() <= v.len() + 1,
        limit != 0 ==> pieces.len() <= limit,
{
    let mut pieces: Vec<Vec<char>> = Vec::new();
    let mut pos: usize = 0;
    let mut left: usize = limit;
    loop
        invariant
            pos <= v.len(),
            pieces.len() <= pos,
            limit == 0 ==> left == 0,
            limit != 0 ==> pieces.len() + left == limit && left >= 1,
            split_from(v@, sep, 0, limit as nat) == texts_view(pieces@) + split_from(
                v@,
                sep,
                pos as int,
                left as nat,
            ),
        decreases v.len() - pos,
    {
        let i = find_char(v, sep, pos);
        if left == 1 || i >= v.len() {
            pieces.push(slice_of(v, pos, v.len()));
            return pieces;
        }
        pieces.push(slice_of(v, pos, i));
        pos = i + 1;
        if left > 1 {
            left -= 1;
        }
    }
}

/// The words of `s` from index `from` on: its longest runs of characters
/// that are not white space, in order.
pub open spec fn words_from(s: Seq<char>, from: int) -> Seq<Seq<char>>
    decreases s.len() - from,
    when 0 <= from <= s.len()
{
    let a = scan_from(s, false, from);
    let b = scan_from(s, true, a);
    if a >= s.len() {
        Seq::empty()
    } else {
        proof {
            lemma_scan_from(s, false, from);
            lemma_scan_from(s, true, a);
        }
        seq![s.subrange(a, b)] + words_from(s, b)
    }
}

/// The words of `s`: its longest runs of characters that are not white
/// space, in order.
pub open spec fn words(s: Seq<char>) -> Seq<Seq<char>> {
    words_from(s, 0)
}

/// The words of `v`.
pub fn split_words(v: &Vec<char>) -> (found: Vec<Vec<char>>)
    ensures
        texts_view(found@) == words(v@),
{
    let mut found: Vec<Vec<char>> = Vec::new();
    let mut pos: usize = 0;
    loop
        invariant
            pos <= v.len(),
            words(v@) == texts_view(found@) + words_from(v@, pos as int),
        decreases v.len() - pos,
    {
        let a = scan(v, false, pos);
        if a >= v.len() {
            return found;
        }
        let b = scan(v, true, a);
        proof {
            lemma_scan_from(v@, false, pos as int);
            lemma_scan_from(v@, true, a as int);
        }
        found.push(slice_of(v, a, b));
        pos = b;
    }
}

} // verus!
