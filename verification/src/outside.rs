//! The calls into other crates, each with what is relied on.

use vstd::prelude::*;
use crate::text::views;

verus! {

/// What `chrono::NaiveDateTime::parse_from_str` makes of `date` under `format`: the seconds
/// from the start of 1970 to that date and time, both read as UTC, or the text of its error.
pub uninterp spec fn utc_seconds(date: Seq<char>, format: Seq<char>) -> Result<i64, Seq<char>>;

/// What `serde_json::from_str::<Vec<String>>` makes of `text`: the list of strings that the
/// JSON holds, or the text of its error.
pub uninterp spec fn json_strings(text: Seq<char>) -> Result<Seq<Seq<char>>, Seq<char>>;

/// The hexadecimal digit that stands for `d`, from 0 to 15, with small letters.
pub open spec fn hex_digit(d: int) -> char {
    if d < 10 {
        ('0' as int + d) as char
    } else {
        ('a' as int + (d - 10)) as char
    }
}

/// One character as JSON writes it inside a string.
pub open spec fn json_char(c: char) -> Seq<char> {
    if c == '"' {
        seq!['\\', '"']
    } else if c == '\\' {
        seq!['\\', '\\']
    } else if c as int == 0x08 {
        seq!['\\', 'b']
    } else if c as int == 0x09 {
        seq!['\\', 't']
    } else if c as int == 0x0a {
        seq!['\\', 'n']
    } else if c as int == 0x0c {
        seq!['\\', 'f']
    } else if c as int == 0x0d {
        seq!['\\', 'r']
    } else if (c as int) < 0x20 {
        seq!['\\', 'u', '0', '0', hex_digit(c as int / 16), hex_digit(c as int % 16)]
    } else {
        seq![c]
    }
}

/// A text as JSON writes it between the quotes of a string.
pub open spec fn json_chars(text: Seq<char>) -> Seq<char>
    decreases text.len(),
{
    if text.len() == 0 {
        seq![]
    } else {
        json_char(text[0]) + json_chars(text.drop_first())
    }
}

/// The JSON string that holds a text.
pub open spec fn json_string(text: Seq<char>) -> Seq<char> {
    seq!['"'] + json_chars(text) + seq!['"']
}

/// Whether a character may stand in the value of an HTTP header.
pub open spec fn header_char(c: char) -> bool {
    c as int == 0x09 || (0x20 <= c as int && c as int != 0x7f)
}

/// A JSON string tells where it ends: whatever follows it, the text that it holds and what follows
/// are determined. Two texts with the same JSON string are the same text.
pub proof fn json_string_is_delimited(
    a: Seq<char>,
    b: Seq<char>,
    after_a: Seq<char>,
    after_b: Seq<char>,
)
    requires
        json_string(a) + after_a == json_string(b) + after_b,
    ensures
        a == b,
        after_a == after_b,
{
    let whole = json_string(a) + after_a;
    assert(whole.skip(1) =~= json_chars(a) + seq!['"'] + after_a);
    assert((json_string(b) + after_b).skip(1) =~= json_chars(b) + seq!['"'] + after_b);
    json_chars_are_delimited(a, b, after_a, after_b);
}

proof fn hex_digit_tells_apart(d: int, e: int)
    requires
        0 <= d < 16,
        0 <= e < 16,
        hex_digit(d) == hex_digit(e),
    ensures
        d == e,
{
    assert(hex_digit(d) as int == if d < 10 { 48 + d } else { 87 + d });
    assert(hex_digit(e) as int == if e < 10 { 48 + e } else { 87 + e });
}

proof fn json_char_tells_apart(c: char, d: char, rest_c: Seq<char>, rest_d: Seq<char>)
    requires
        json_char(c) + rest_c == json_char(d) + rest_d,
    ensures
        c == d,
{
    let x = json_char(c);
    let y = json_char(d);
    let whole = x + rest_c;
    assert(whole[0] == x[0] && whole[0] == y[0]);
    if x.len() >= 2 && y.len() >= 2 {
        assert(whole[1] == x[1] && whole[1] == y[1]);
        if x.len() == 6 && y.len() == 6 {
            assert(whole[4] == x[4] && whole[4] == y[4]);
            assert(whole[5] == x[5] && whole[5] == y[5]);
            hex_digit_tells_apart(c as int / 16, d as int / 16);
            hex_digit_tells_apart(c as int % 16, d as int % 16);
        }
    }
}

proof fn json_chars_are_delimited(
    a: Seq<char>,
    b: Seq<char>,
    after_a: Seq<char>,
    after_b: Seq<char>,
)
    requires
        json_chars(a) + seq!['"'] + after_a == json_chars(b) + seq!['"'] + after_b,
    ensures
        a == b,
        after_a == after_b,
    decreases a.len(),
{
    let whole = json_chars(a) + seq!['"'] + after_a;
    if a.len() == 0 {
        assert(whole[0] == '"');
        if b.len() > 0 {
            assert(whole[0] == json_char(b[0])[0]);
        }
        assert(a =~= b);
        assert(after_a =~= whole.skip(1));
        assert(after_b =~= whole.skip(1));
    } else if b.len() == 0 {
        assert(whole[0] == '"');
        assert(whole[0] == json_char(a[0])[0]);
    } else {
        let rest_a = json_chars(a.drop_first()) + seq!['"'] + after_a;
        let rest_b = json_chars(b.drop_first()) + seq!['"'] + after_b;
        assert(whole =~= json_char(a[0]) + rest_a);
        assert(whole =~= json_char(b[0]) + rest_b);
        json_char_tells_apart(a[0], b[0], rest_a, rest_b);
        let front = json_char(a[0]).len() as int;
        assert(rest_a =~= whole.skip(front));
        assert(rest_b =~= whole.skip(front));
        json_chars_are_delimited(a.drop_first(), b.drop_first(), after_a, after_b);
        assert(a =~= seq![a[0]] + a.drop_first());
        assert(b =~= seq![b[0]] + b.drop_first());
    }
}

/// Calls `chrono::NaiveDateTime::parse_from_str` and, where that gives a date and time, takes
/// it as UTC and counts its whole seconds from the start of 1970. The result is a function of
/// the two texts alone; what it is on given texts is not said here. Only the format of a year, a
/// month, a day, an hour and a minute is asked for: with it the call gives a result for every
/// text, while some other formats overflow on some years.
#[verifier::external_body]
pub(crate) fn parse_utc_seconds(date: &str, format: &str) -> (r: Result<i64, String>)
    requires
        format@ == "%Y-%m-%dT%H:%M%Z"@,
    ensures
        match r {
            Ok(seconds) => utc_seconds(date@, format@) == Ok::<i64, Seq<char>>(seconds),
            Err(e) => utc_seconds(date@, format@) == Err::<i64, Seq<char>>(e@),
        },
{
    match chrono::NaiveDateTime::parse_from_str(date, format) {
        Ok(time) => Ok(time.and_utc().timestamp()),
        Err(e) => Err(e.to_string()),
    }
}

/// Calls `serde_json::from_str` for a list of strings. The result is a function of the text:
/// the strings of a JSON array of strings in order, or the text of the error.
#[verifier::external_body]
pub(crate) fn parse_json_strings(text: &str) -> (r: Result<Vec<String>, String>)
    ensures
        match r {
            Ok(list) => json_strings(text@) == Ok::<Seq<Seq<char>>, Seq<char>>(views(list@)),
            Err(e) => json_strings(text@) == Err::<Seq<Seq<char>>, Seq<char>>(e@),
        },
{
    match serde_json::from_str::<Vec<String>>(text) {
        Ok(list) => Ok(list),
        Err(e) => Err(e.to_string()),
    }
}

/// Calls `serde_json::to_string` on a text. It never fails on text, and gives the text in
/// quotes, with quotes, backslashes and control characters escaped.
#[verifier::external_body]
pub(crate) fn write_json_string(text: &str) -> (r: Option<String>)
    ensures
        r is Some,
        r->0@ == json_string(text@),
{
    match serde_json::to_string(text) {
        Ok(quoted) => Some(quoted),
        Err(_) => None,
    }
}

/// Calls `axum::http::HeaderValue::from_str` and reports whether it took the text: it does
/// where every character is a tab or is neither a control character of ASCII nor delete.
#[verifier::external_body]
pub(crate) fn is_header_value(text: &str) -> (r: bool)
    ensures
        r == (forall|k: int| 0 <= k < text@.len() ==> header_char(#[trigger] text@[k])),
{
    axum::http::HeaderValue::from_str(text).is_ok()
}

} // verus!
