//! Searching, splitting and comparing text, character by character.
//!
//! The specification functions work on sequences of characters; the executable functions on
//! `str` are proved against them.

use vstd::prelude::*;

verus! {

/// Whether `needle` stands in `hay` at position `at`.
pub open spec fn occurs_at(hay: Seq<char>, needle: Seq<char>, at: int) -> bool {
    &&& 0 <= at
    &&& at + needle.len() <= hay.len()
    &&& hay.subrange(at, at + needle.len()) == needle
}

/// Whether `needle` stands anywhere in `hay`.
pub open spec fn occurs(hay: Seq<char>, needle: Seq<char>) -> bool {
    exists|at: int| #[trigger] occurs_at(hay, needle, at)
}

/// The first position at or after `from` where `needle` stands in `hay`.
pub open spec fn position_from(hay: Seq<char>, needle: Seq<char>, from: int) -> Option<int>
    decreases hay.len() - from + 1,
{
    if from + needle.len() > hay.len() {
        None
    } else if occurs_at(hay, needle, from) {
        Some(from)
    } else {
        position_from(hay, needle, from + 1)
    }
}

/// The first position where `needle` stands in `hay`.
pub open spec fn position(hay: Seq<char>, needle: Seq<char>) -> Option<int> {
    position_from(hay, needle, 0)
}

/// The text before and after the first `separator`.
pub open spec fn split(text: Seq<char>, separator: Seq<char>) -> Option<(Seq<char>, Seq<char>)> {
    match position(text, separator) {
        Some(at) => Some((text.take(at), text.skip(at + separator.len()))),
        None => None,
    }
}

/// What follows `prefix`, where the text starts with it.
pub open spec fn unprefixed(text: Seq<char>, prefix: Seq<char>) -> Option<Seq<char>> {
    if occurs_at(text, prefix, 0) {
        Some(text.skip(prefix.len() as int))
    } else {
        None
    }
}

/// What precedes `suffix`, where the text ends with it.
pub open spec fn unsuffixed(text: Seq<char>, suffix: Seq<char>) -> Option<Seq<char>> {
    if occurs_at(text, suffix, text.len() - suffix.len()) {
        Some(text.take(text.len() - suffix.len()))
    } else {
        None
    }
}

/// A character with the letters A to Z made small, and every other character as it is.
pub open spec fn lowered(c: char) -> char {
    if 'A' <= c && c <= 'Z' {
        (c as int + 32) as char
    } else {
        c
    }
}

/// The views of a list of texts.
pub open spec fn views(texts: Seq<String>) -> Seq<Seq<char>> {
    texts.map_values(|t: String| t@)
}

/// The view of a text that may be missing.
pub open spec fn opt_view(text: Option<String>) -> Option<Seq<char>> {
    match text {
        Some(t) => Some(t@),
        None => None,
    }
}

/// A position that the search reports is an occurrence, and the first one; where it reports
/// none, there is none.
pub proof fn position_from_is_first(hay: Seq<char>, needle: Seq<char>, from: int)
    requires
        0 <= from,
    ensures
        match position_from(hay, needle, from) {
            Some(at) => {
                &&& from <= at
                &&& occurs_at(hay, needle, at)
                &&& forall|k: int| from <= k < at ==> !#[trigger] occurs_at(hay, needle, k)
            },
            None => forall|k: int| from <= k ==> !#[trigger] occurs_at(hay, needle, k),
        },
    decreases hay.len() - from + 1,
{
    if from + needle.len() > hay.len() {
    } else if occurs_at(hay, needle, from) {
    } else {
        position_from_is_first(hay, needle, from + 1);
    }
}

/// A search from the start finds the first occurrence, exactly where there is one.
pub proof fn position_is_first(hay: Seq<char>, needle: Seq<char>)
    ensures
        position(hay, needle) is Some <==> occurs(hay, needle),
        position(hay, needle) matches Some(at) ==> {
            &&& occurs_at(hay, needle, at)
            &&& forall|k: int| 0 <= k < at ==> !#[trigger] occurs_at(hay, needle, k)
        },
{
    position_from_is_first(hay, needle, 0);
}

/// The first occurrence is the only position with an occurrence and none before it.
pub proof fn position_is_determined(hay: Seq<char>, needle: Seq<char>, at: int)
    requires
        occurs_at(hay, needle, at),
        forall|k: int| 0 <= k < at ==> !#[trigger] occurs_at(hay, needle, k),
    ensures
        position(hay, needle) == Some(at),
{
    position_is_first(hay, needle);
}

/// Splitting loses nothing: the two parts with the separator between them are the text, and
/// the first part does not hold the separator.
pub proof fn split_rejoins(text: Seq<char>, separator: Seq<char>)
    ensures
        split(text, separator) is Some <==> occurs(text, separator),
        split(text, separator) matches Some((before, after)) ==> {
            &&& before + separator + after == text
            &&& separator.len() > 0 ==> !occurs(before, separator)
        },
{
    position_is_first(text, separator);
    if let Some(at) = position(text, separator) {
        let before = text.take(at);
        let after = text.skip(at + separator.len());
        assert(before + separator + after == text) by {
            assert(text.subrange(at, at + separator.len()) == separator);
            assert(before + text.subrange(at, at + separator.len()) + after =~= text);
        }
        assert forall|k: int| separator.len() > 0 implies !#[trigger] occurs_at(before, separator, k) by {
            if occurs_at(before, separator, k) {
                assert(text.subrange(k, k + separator.len()) =~= before.subrange(k, k + separator.len()));
                assert(occurs_at(text, separator, k));
            }
        }
    }
}

/// What occurs in a part of a text occurs in the whole text.
pub proof fn occurs_in_whole(before: Seq<char>, part: Seq<char>, after: Seq<char>, needle: Seq<char>)
    requires
        occurs(part, needle),
    ensures
        occurs(before + part + after, needle),
{
    let at = choose|at: int| occurs_at(part, needle, at);
    let whole = before + part + after;
    assert(whole.subrange(before.len() + at, before.len() + at + needle.len())
        =~= part.subrange(at, at + needle.len()));
    assert(occurs_at(whole, needle, before.len() + at));
}

/// Occurrence is transitive.
pub proof fn occurs_transitive(hay: Seq<char>, part: Seq<char>, needle: Seq<char>)
    requires
        occurs(hay, part),
        occurs(part, needle),
    ensures
        occurs(hay, needle),
{
    let at = choose|at: int| occurs_at(hay, part, at);
    assert(hay =~= hay.take(at) + part + hay.skip(at + part.len())) by {
        assert(hay.subrange(at, at + part.len()) == part);
        assert(hay =~= hay.take(at) + hay.subrange(at, at + part.len()) + hay.skip(
            at + part.len(),
        ));
    }
    occurs_in_whole(hay.take(at), part, hay.skip(at + part.len()), needle);
}

/// Removing a prefix that stands there is undone by putting it back.
pub proof fn unprefixed_rejoins(text: Seq<char>, prefix: Seq<char>)
    ensures
        unprefixed(text, prefix) matches Some(rest) ==> prefix + rest == text,
        unprefixed(prefix + text, prefix) == Some(text),
{
    if occurs_at(text, prefix, 0) {
        assert(text.subrange(0, prefix.len() as int) == prefix);
        assert(text.subrange(0, prefix.len() as int) + text.skip(prefix.len() as int) =~= text);
    }
    assert((prefix + text).subrange(0, prefix.len() as int) =~= prefix);
    assert((prefix + text).skip(prefix.len() as int) =~= text);
}

/// The characters of a text.
pub fn chars_of(text: &str) -> (r: Vec<char>)
    ensures
        r@ == text@,
{
    let mut out: Vec<char> = Vec::new();
    for c in it: text.chars()
        invariant
            out@ == text@.take(it.index() as int),
            it.seq() == text@,
    {
        out.push(c);
    }
    assert(text@.take(text@.len() as int) == text@);
    out
}

/// Whether two texts hold the same characters.
pub fn same(a: &str, b: &str) -> (r: bool)
    ensures
        r == (a@ == b@),
{
    let left: String = a.to_owned();
    let right: String = b.to_owned();
    left == right
}

/// Whether `needle` stands in `hay` at position `at`.
fn stands_at(hay: &Vec<char>, needle: &Vec<char>, at: usize) -> (r: bool)
    requires
        at + needle@.len() <= hay@.len(),
    ensures
        r == occurs_at(hay@, needle@, at as int),
{
    let total: usize = hay.len();
    let mut k: usize = 0;
    while k < needle.len()
        invariant
            k <= needle@.len(),
            at + needle@.len() <= hay@.len(),
            total == hay@.len(),
            forall|j: int| 0 <= j < k ==> hay@[at + j] == needle@[j],
        decreases needle@.len() - k,
    {
        if hay[at + k] != needle[k] {
            assert(hay@.subrange(at as int, at + needle@.len())[k as int] != needle@[k as int]);
            return false;
        }
        k += 1;
    }
    assert(hay@.subrange(at as int, at + needle@.len()) =~= needle@);
    true
}

/// The first position, counted in characters, at or after `from` where `needle` stands in `hay`.
pub fn find_from(hay: &Vec<char>, needle: &Vec<char>, from: usize) -> (r: Option<usize>)
    requires
        from <= hay@.len(),
    ensures
        match r {
            Some(at) => position_from(hay@, needle@, from as int) == Some(at as int),
            None => position_from(hay@, needle@, from as int) is None,
        },
{
    let mut at: usize = from;
    while needle.len() <= hay.len() - at
        invariant
            from <= at <= hay@.len(),
            position_from(hay@, needle@, from as int) == position_from(hay@, needle@, at as int),
        decreases hay@.len() - at,
    {
        if stands_at(hay, needle, at) {
            return Some(at);
        }
        proof {
            if at == hay@.len() {
                assert(hay@.subrange(at as int, at as int) =~= needle@);
            }
        }
        at += 1;
    }
    None
}

/// Whether `needle` stands anywhere in `hay`.
pub fn contains(hay: &str, needle: &str) -> (r: bool)
    ensures
        r == occurs(hay@, needle@),
{
    proof {
        position_is_first(hay@, needle@);
    }
    let found = find_from(&chars_of(hay), &chars_of(needle), 0);
    found.is_some()
}

/// The parts before and after the first `separator`, or nothing where it does not occur.
pub fn split_once<'a>(text: &'a str, separator: &str) -> (r: Option<(&'a str, &'a str)>)
    ensures
        match r {
            Some((before, after)) => split(text@, separator@) == Some((before@, after@)),
            None => split(text@, separator@) is None,
        },
{
    let hay = chars_of(text);
    let needle = chars_of(separator);
    proof {
        position_is_first(text@, separator@);
    }
    match find_from(&hay, &needle, 0) {
        Some(at) => {
            let end: usize = hay.len();
            let before = text.substring_char(0, at);
            let after = text.substring_char(at + needle.len(), end);
            Some((before, after))
        },
        None => None,
    }
}

/// What follows `prefix`, or nothing where the text does not start with it.
pub fn strip_prefix<'a>(text: &'a str, prefix: &str) -> (r: Option<&'a str>)
    ensures
        match r {
            Some(rest) => unprefixed(text@, prefix@) == Some(rest@),
            None => unprefixed(text@, prefix@) is None,
        },
{
    let hay = chars_of(text);
    let needle = chars_of(prefix);
    if needle.len() <= hay.len() && stands_at(&hay, &needle, 0) {
        Some(text.substring_char(needle.len(), hay.len()))
    } else {
        None
    }
}

/// What precedes `suffix`, or nothing where the text does not end with it.
pub fn strip_suffix<'a>(text: &'a str, suffix: &str) -> (r: Option<&'a str>)
    ensures
        match r {
            Some(rest) => unsuffixed(text@, suffix@) == Some(rest@),
            None => unsuffixed(text@, suffix@) is None,
        },
{
    let hay = chars_of(text);
    let needle = chars_of(suffix);
    if needle.len() <= hay.len() && stands_at(&hay, &needle, hay.len() - needle.len()) {
        Some(text.substring_char(0, hay.len() - needle.len()))
    } else {
        None
    }
}

/// A letter from A to Z made small; any other character unchanged.
fn lower(c: char) -> (r: char)
    ensures
        r == lowered(c),
{
    match c {
        'A' => 'a',
        'B' => 'b',
        'C' => 'c',
        'D' => 'd',
        'E' => 'e',
        'F' => 'f',
        'G' => 'g',
        'H' => 'h',
        'I' => 'i',
        'J' => 'j',
        'K' => 'k',
        'L' => 'l',
        'M' => 'm',
        'N' => 'n',
        'O' => 'o',
        'P' => 'p',
        'Q' => 'q',
        'R' => 'r',
        'S' => 's',
        'T' => 't',
        'U' => 'u',
        'V' => 'v',
        'W' => 'w',
        'X' => 'x',
        'Y' => 'y',
        'Z' => 'z',
        _ => c,
    }
}

/// Whether a text equals `small` once its letters A to Z are made small.
pub fn same_lowered(text: &str, small: &str) -> (r: bool)
    ensures
        r == (text@.map_values(|c: char| lowered(c)) == small@),
{
    let left = chars_of(text);
    let right = chars_of(small);
    let ghost low = text@.map_values(|c: char| lowered(c));
    if left.len() != right.len() {
        return false;
    }
    let mut k: usize = 0;
    while k < left.len()
        invariant
            k <= left@.len(),
            left@.len() == right@.len(),
            left@ == text@,
            right@ == small@,
            low == text@.map_values(|c: char| lowered(c)),
            forall|j: int| 0 <= j < k ==> low[j] == right@[j],
        decreases left@.len() - k,
    {
        if lower(left[k]) != right[k] {
            assert(low[k as int] != small@[k as int]);
            return false;
        }
        k += 1;
    }
    assert(low =~= small@);
    true
}

/// A text holds another exactly where it is something before it, the other, and something after it.
pub proof fn occurrence_is_a_part(hay: Seq<char>, needle: Seq<char>, before: Seq<char>, after: Seq<char>)
    ensures
        occurs(before + needle + after, needle),
        occurs(hay, needle) ==> exists|a: Seq<char>, b: Seq<char>| hay == #[trigger] (a + needle
            + b),
{
    assert((before + needle + after).subrange(
        before.len() as int,
        (before.len() + needle.len()) as int,
    ) =~= needle);
    assert(occurs_at(before + needle + after, needle, before.len() as int));
    if occurs(hay, needle) {
        let at = choose|at: int| occurs_at(hay, needle, at);
        let a = hay.take(at);
        let b = hay.skip(at + needle.len());
        assert(hay.subrange(at, at + needle.len()) == needle);
        assert(hay =~= a + hay.subrange(at, at + needle.len()) + b);
        assert(hay == a + needle + b);
    }
}

/// Removing a suffix that stands there is undone by putting it back.
pub proof fn unsuffixed_rejoins(text: Seq<char>, suffix: Seq<char>)
    ensures
        unsuffixed(text, suffix) matches Some(rest) ==> rest + suffix == text,
        unsuffixed(text + suffix, suffix) == Some(text),
{
    if occurs_at(text, suffix, text.len() - suffix.len()) {
        let at = text.len() - suffix.len();
        assert(text.subrange(at, at + suffix.len()) == suffix);
        assert(text.take(at) + text.subrange(at, at + suffix.len()) =~= text);
    }
    let whole = text + suffix;
    assert(whole.subrange(text.len() as int, (text.len() + suffix.len()) as int) =~= suffix);
    assert(whole.take(text.len() as int) =~= text);
}

/// The view of a list of texts has the characters of each of them, in their order, and the view of a
/// text that may be missing those of the text.
pub proof fn views_show_each_text(texts: Seq<String>, text: String)
    ensures
        views(texts).len() == texts.len(),
        forall|i: int| 0 <= i < texts.len() ==> #[trigger] views(texts)[i] == texts[i]@,
        opt_view(Some(text)) == Some(text@),
        opt_view(None) is None,
{
}

/// Making letters small changes the letters A to Z to a to z and nothing else, and once is enough.
pub proof fn lowering_changes_capitals(c: char)
    ensures
        'A' <= c <= 'Z' ==> lowered(c) as int == c as int + 32,
        !('A' <= c <= 'Z') ==> lowered(c) == c,
        lowered(lowered(c)) == lowered(c),
{
}

} // verus!
