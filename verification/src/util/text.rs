//! Texts as sequences of characters: conversion, search and trimming.

use vstd::prelude::*;

verus! {

/// Appends one character to a string.
///
/// Trusted: this is `String::push` of the standard library, which appends the
/// given character to the end of the string and changes nothing else.
#[verifier::external_body]
pub(crate) fn push_char(s: &mut String, c: char)
    ensures
        final(s)@ == old(s)@.push(c),
{
    s.push(c)
}

/// The characters of `s`, one element per character.
pub fn chars_of(s: &str) -> (v: Vec<char>)
    ensures
        v@ == s@,
{
    let mut v: Vec<char> = Vec::new();
    for c in it: s.chars()
        invariant
            it.seq() == s@,
            v@ == s@.take(it.index()),
    {
        v.push(c);
    }
    v
}

/// Appends the characters of `v` to `s`.
pub fn push_chars(s: &mut String, v: &Vec<char>)
    ensures
        final(s)@ == old(s)@ + v@,
{
    let mut i: usize = 0;
    while i < v.len()
        invariant
            i <= v.len(),
            s@ == old(s)@ + v@.take(i as int),
        decreases v.len() - i,
    {
        push_char(s, v[i]);
        i += 1;
    }
}

/// The string made of the characters of `v`.
pub fn string_of(v: &Vec<char>) -> (s: String)
    ensures
        s@ == v@,
{
    let mut s = String::new();
    push_chars(&mut s, v);
    s
}

/// A copy of the characters of `v` from index `from` up to `to`.
pub fn slice_of(v: &Vec<char>, from: usize, to: usize) -> (r: Vec<char>)
    requires
        from <= to <= v.len(),
    ensures
        r@ == v@.subrange(from as int, to as int),
{
    let mut r: Vec<char> = Vec::new();
    let mut i: usize = from;
    while i < to
        invariant
            from <= i <= to <= v.len(),
            r@ == v@.subrange(from as int, i as int),
        decreases to - i,
    {
        r.push(v[i]);
        i += 1;
    }
    r
}

/// Whether `c` is white space: a character that Unicode classes as
/// `White_Space`.
pub open spec fn is_space(c: char) -> bool {
    let u = c as u32;
    ||| 0x09 <= u <= 0x0D
    ||| u == 0x20
    ||| u == 0x85
    ||| u == 0xA0
    ||| u == 0x1680
    ||| 0x2000 <= u <= 0x200A
    ||| u == 0x2028
    ||| u == 0x2029
    ||| u == 0x202F
    ||| u == 0x205F
    ||| u == 0x3000
}

/// Whether `c` is white space.
pub fn is_whitespace(c: char) -> (b: bool)
    ensures
        b == is_space(c),
{
    let u: u32 = c as u32;
    (0x09 <= u && u <= 0x0D) || u == 0x20 || u == 0x85 || u == 0xA0 || u == 0x1680 || (0x2000
        <= u && u <= 0x200A) || u == 0x2028 || u == 0x2029 || u == 0x202F || u == 0x205F || u
        == 0x3000
}

/// The lowest index at or after `from` that holds `c`, or the length of `s`.
pub open spec fn find_from(s: Seq<char>, c: char, from: int) -> int
    decreases s.len() - from,
{
    if from >= s.len() {
        s.len() as int
    } else if s[from] == c {
        from
    } else {
        find_from(s, c, from + 1)
    }
}

/// `find_from` stays within the text, stops on `c`, and passes none.
pub proof fn lemma_find_from(s: Seq<char>, c: char, from: int)
    requires
        0 <= from <= s.len(),
    ensures
        from <= find_from(s, c, from) <= s.len(),
        find_from(s, c, from) < s.len() ==> s[find_from(s, c, from)] == c,
        forall|j: int| from <= j < find_from(s, c, from) ==> s[j] != c,
    decreases s.len() - from,
{
    if from < s.len() && s[from] != c {
        lemma_find_from(s, c, from + 1);
    }
}

/// The lowest index at or after `from` that holds `c`, or the length of `v`.
pub fn find_char(v: &Vec<char>, c: char, from: usize) -> (i: usize)
    requires
        from <= v.len(),
    ensures
        i == find_from(v@, c, from as int),
        from <= i <= v.len(),
{
    let mut i: usize = from;
    while i < v.len()
        invariant
            from <= i <= v.len(),
            find_from(v@, c, from as int) == find_from(v@, c, i as int),
        decreases v.len() - i,
    {
        if v[i] == c {
            return i;
        }
        i += 1;
    }
    i
}

/// The lowest index at or after `from` whose character is white space
/// (`space` true) or is not (`space` false), or the length of `s`.
pub open spec fn scan_from(s: Seq<char>, space: bool, from: int) -> int
    decreases s.len() - from,
{
    if from >= s.len() {
        s.len() as int
    } else if is_space(s[from]) == space {
        from
    } else {
        scan_from(s, space, from + 1)
    }
}

/// `scan_from` stays within the text, stops on a character of the kind it
/// looks for, and passes none.
pub proof fn lemma_scan_from(s: Seq<char>, space: bool, from: int)
    requires
        0 <= from <= s.len(),
    ensures
        from <= scan_from(s, space, from) <= s.len(),
        scan_from(s, space, from) < s.len() ==> is_space(s[scan_from(s, space, from)])
            == space,
        forall|j: int| from <= j < scan_from(s, space, from) ==> is_space(s[j]) != space,
    decreases s.len() - from,
{
    if from < s.len() && is_space(s[from]) != space {
        lemma_scan_from(s, space, from + 1);
    }
}

/// The lowest index at or after `from` whose character is white space
/// (`space` true) or is not (`space` false), or the length of `v`.
pub fn scan(v: &Vec<char>, space: bool, from: usize) -> (i: usize)
    requires
        from <= v.len(),
    ensures
        i == scan_from(v@, space, from as int),
        from <= i <= v.len(),
{
    let mut i: usize = from;
    while i < v.len()
        invariant
            from <= i <= v.len(),
            scan_from(v@, space, from as int) == scan_from(v@, space, i as int),
        decreases v.len() - i,
    {
        if is_whitespace(v[i]) == space {
            return i;
        }
        i += 1;
    }
    i
}

/// The end of the text of the first `upto` characters of `s`: just behind
/// the last of them that is not white space, or 0.
pub open spec fn text_end(s: Seq<char>, upto: int) -> int
    decreases upto,
{
    if upto <= 0 {
        0
    } else if !is_space(s[upto - 1]) {
        upto
    } else {
        text_end(s, upto - 1)
    }
}

/// `s` without the white space before its first and behind its last
/// character that is not white space; empty when all of `s` is white space.
pub open spec fn trim(s: Seq<char>) -> Seq<char> {
    let lo = scan_from(s, false, 0);
    let hi = text_end(s, s.len() as int);
    if lo < hi {
        s.subrange(lo, hi)
    } else {
        Seq::empty()
    }
}

/// `text_end` lies within the first `upto` characters, behind a character
/// that is not white space, with only white space after it.
pub proof fn lemma_text_end(s: Seq<char>, upto: int)
    requires
        0 <= upto <= s.len(),
    ensures
        0 <= text_end(s, upto) <= upto,
        text_end(s, upto) > 0 ==> !is_space(s[text_end(s, upto) - 1]),
        forall|j: int| text_end(s, upto) <= j < upto ==> is_space(s[j]),
    decreases upto,
{
    if upto > 0 && is_space(s[upto - 1]) {
        lemma_text_end(s, upto - 1);
    }
}

/// What is left of a text after trimming has no white space at either end,
/// and a text that trims to nothing is white space throughout.
pub proof fn lemma_trim(s: Seq<char>)
    ensures
        trim(s).len() > 0 ==> !is_space(trim(s).first()) && !is_space(trim(s).last()),
        trim(s).len() == 0 ==> forall|i: int| 0 <= i < s.len() ==> is_space(#[trigger] s[i]),
{
    lemma_scan_from(s, false, 0);
    lemma_text_end(s, s.len() as int);
}

/// A copy of `v` without leading and trailing white space.
pub fn trim_chars(v: &Vec<char>) -> (r: Vec<char>)
    ensures
        r@ == trim(v@),
{
    let lo = scan(v, false, 0);
    let mut hi: usize = v.len();
    while hi > 0 && is_whitespace(v[hi - 1])
        invariant
            hi <= v.len(),
            text_end(v@, v.len() as int) == text_end(v@, hi as int),
        decreases hi,
    {
        hi -= 1;
    }
    if lo < hi {
        slice_of(v, lo, hi)
    } else {
        Vec::new()
    }
}

/// The end of the first `upto` characters of `s` once every `c` at their
/// end is dropped.
pub open spec fn end_without(s: Seq<char>, c: char, upto: int) -> int
    decreases upto,
{
    if upto <= 0 {
        0
    } else if s[upto - 1] != c {
        upto
    } else {
        end_without(s, c, upto - 1)
    }
}

/// `s` without the run of `c` at its end.
pub open spec fn trim_end_of(s: Seq<char>, c: char) -> Seq<char> {
    s.take(end_without(s, c, s.len() as int))
}

/// A copy of `v` without the run of `c` at its end.
pub fn trim_end_chars(v: &Vec<char>, c: char) -> (r: Vec<char>)
    ensures
        r@ == trim_end_of(v@, c),
{
    let mut hi: usize = v.len();
    while hi > 0 && v[hi - 1] == c
        invariant
            hi <= v.len(),
            end_without(v@, c, v.len() as int) == end_without(v@, c, hi as int),
        decreases hi,
    {
        hi -= 1;
    }
    slice_of(v, 0, hi)
}

/// Whether `s` begins with `prefix`.
pub open spec fn starts_with(s: Seq<char>, prefix: Seq<char>) -> bool {
    prefix.len() <= s.len() && s.take(prefix.len() as int) == prefix
}

/// `s` without `prefix` at its start; `s` itself where it does not begin
/// with `prefix`.
pub open spec fn without_prefix(s: Seq<char>, prefix: Seq<char>) -> Seq<char> {
    if starts_with(s, prefix) {
        s.skip(prefix.len() as int)
    } else {
        s
    }
}

/// Whether `v` begins with `prefix`.
pub fn has_prefix(v: &Vec<char>, prefix: &Vec<char>) -> (b: bool)
    ensures
        b == starts_with(v@, prefix@),
{
    if prefix.len() > v.len() {
        return false;
    }
    let mut i: usize = 0;
    while i < prefix.len()
        invariant
            i <= prefix.len() <= v.len(),
            forall|j: int| 0 <= j < i ==> v[j] == prefix[j],
        decreases prefix.len() - i,
    {
        if v[i] != prefix[i] {
            return false;
        }
        i += 1;
    }
    assert(v@.take(prefix.len() as int) =~= prefix@);
    true
}

/// A copy of `v` without `prefix` at its start, or of all of `v` where it
/// does not begin with `prefix`.
pub fn strip_prefix_chars(v: &Vec<char>, prefix: &Vec<char>) -> (r: Vec<char>)
    ensures
        r@ == without_prefix(v@, prefix@),
{
    if has_prefix(v, prefix) {
        slice_of(v, prefix.len(), v.len())
    } else {
        let r = slice_of(v, 0, v.len());
        r
    }
}

} // verus!
