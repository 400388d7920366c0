//! Whole numbers as decimal text, written and read.

use vstd::prelude::*;
use crate::text::chars_of;

verus! {

/// The digit that stands for `d`, from 0 to 9.
pub open spec fn digit(d: int) -> char {
    ('0' as int + d) as char
}

/// The decimal text of a natural number: no sign, no leading zero.
pub open spec fn decimal(n: nat) -> Seq<char>
    decreases n,
{
    if n < 10 {
        seq![digit(n as int)]
    } else {
        decimal(n / 10).push(digit((n % 10) as int))
    }
}

/// The decimal text of an integer, with a minus sign before a negative one.
pub open spec fn signed_decimal(n: int) -> Seq<char> {
    if n < 0 {
        seq!['-'] + decimal((-n) as nat)
    } else {
        decimal(n as nat)
    }
}

/// Why a text is not a number of the wanted range.
#[derive(Clone, Copy, Debug, PartialEq, Eq, Structural)]
pub enum IntError {
    /// There is no character at all.
    Empty,
    /// A character that is no digit came before the number left its range.
    InvalidDigit,
    /// The number is above the range.
    TooLarge,
    /// The number is below the range.
    TooSmall,
}

/// Whether a character is a decimal digit.
pub open spec fn is_digit(c: char) -> bool {
    '0' <= c && c <= '9'
}

/// The number that the digits from position `at` on complete, where `acc` is what the earlier
/// ones gave. The first digit that is none, or that leaves the range, decides the error.
pub open spec fn scanned(
    digits: Seq<char>,
    at: int,
    acc: int,
    negative: bool,
    min: int,
    max: int,
) -> Result<int, IntError>
    decreases digits.len() - at,
{
    if at >= digits.len() {
        Ok(acc)
    } else if !is_digit(digits[at]) {
        Err(IntError::InvalidDigit)
    } else {
        let d = digits[at] as int - '0' as int;
        let next = if negative {
            acc * 10 - d
        } else {
            acc * 10 + d
        };
        if next > max {
            Err(IntError::TooLarge)
        } else if next < min {
            Err(IntError::TooSmall)
        } else {
            scanned(digits, at + 1, next, negative, min, max)
        }
    }
}

/// The number between `min` and `max` that a text denotes: an optional plus sign, or a minus
/// sign where the range has negative numbers, and then one digit or more.
pub open spec fn parsed(text: Seq<char>, min: int, max: int) -> Result<int, IntError> {
    if text.len() == 0 {
        Err(IntError::Empty)
    } else if text[0] == '+' || (text[0] == '-' && min < 0) {
        if text.len() == 1 {
            Err(IntError::InvalidDigit)
        } else {
            scanned(text, 1, 0, text[0] == '-', min, max)
        }
    } else {
        scanned(text, 0, 0, false, min, max)
    }
}

/// The number that the digits from position `from` up to position `end` write.
spec fn value_of(digits: Seq<char>, from: int, end: int) -> int
    decreases end - from,
{
    if end <= from {
        0
    } else {
        value_of(digits, from, end - 1) * 10 + (digits[end - 1] as int - '0' as int)
    }
}

proof fn value_grows(digits: Seq<char>, from: int, a: int, b: int)
    requires
        0 <= from <= a <= b <= digits.len(),
        forall|k: int| from <= k < digits.len() ==> is_digit(#[trigger] digits[k]),
    ensures
        0 <= value_of(digits, from, a) <= value_of(digits, from, b),
    decreases b - from,
{
    if a < b {
        value_grows(digits, from, a, b - 1);
        assert(is_digit(digits[b - 1]));
    } else if from < b {
        value_grows(digits, from, a - 1, a - 1);
        assert(is_digit(digits[a - 1]));
    }
}

proof fn scan_gives_value(
    digits: Seq<char>,
    from: int,
    at: int,
    negative: bool,
    min: int,
    max: int,
)
    requires
        0 <= from <= at <= digits.len(),
        forall|k: int| from <= k < digits.len() ==> is_digit(#[trigger] digits[k]),
        min <= 0 <= max,
        !negative ==> value_of(digits, from, digits.len() as int) <= max,
        negative ==> min <= -value_of(digits, from, digits.len() as int),
    ensures
        scanned(
            digits,
            at,
            if negative {
                -value_of(digits, from, at)
            } else {
                value_of(digits, from, at)
            },
            negative,
            min,
            max,
        ) == Ok::<int, IntError>(
            if negative {
                -value_of(digits, from, digits.len() as int)
            } else {
                value_of(digits, from, digits.len() as int)
            },
        ),
    decreases digits.len() - at,
{
    if at < digits.len() {
        assert(is_digit(digits[at]));
        value_grows(digits, from, at, at + 1);
        value_grows(digits, from, at + 1, digits.len() as int);
        scan_gives_value(digits, from, at + 1, negative, min, max);
    }
}

proof fn decimal_is_digits(n: nat)
    ensures
        decimal(n).len() >= 1,
        forall|k: int| 0 <= k < decimal(n).len() ==> is_digit(#[trigger] decimal(n)[k]),
    decreases n,
{
    if n >= 10 {
        decimal_is_digits(n / 10);
    }
}

proof fn value_of_prefix(a: Seq<char>, b: Seq<char>, from: int, shift: int, end: int)
    requires
        0 <= from <= end <= a.len(),
        from + shift >= 0,
        end + shift <= b.len(),
        forall|k: int| from <= k < end ==> #[trigger] a[k] == b[k + shift],
    ensures
        value_of(a, from, end) == value_of(b, from + shift, end + shift),
    decreases end - from,
{
    if from < end {
        value_of_prefix(a, b, from, shift, end - 1);
        assert(a[end - 1] == b[end - 1 + shift]);
    }
}

proof fn decimal_has_value(n: nat)
    ensures
        value_of(decimal(n), 0, decimal(n).len() as int) == n,
    decreases n,
{
    let text = decimal(n);
    if n < 10 {
        reveal_with_fuel(value_of, 2);
    } else {
        decimal_has_value(n / 10);
        let front = decimal(n / 10);
        value_of_prefix(front, text, 0, 0, front.len() as int);
        assert(text.len() == front.len() + 1);
        assert(text[front.len() as int] == digit((n % 10) as int));
    }
}

/// Reading back what was written gives the number: for every integer of the range, its decimal
/// text is read as that integer.
pub proof fn decimal_reads_back(n: int, min: int, max: int)
    requires
        min <= n <= max,
        min <= 0 <= max,
    ensures
        parsed(signed_decimal(n), min, max) == Ok::<int, IntError>(n),
{
    let size = if n < 0 {
        (-n) as nat
    } else {
        n as nat
    };
    let digits = decimal(size);
    decimal_is_digits(size);
    decimal_has_value(size);
    assert(is_digit(digits[0]));
    if n < 0 {
        let text = seq!['-'] + digits;
        assert(forall|k: int| 0 <= k < digits.len() ==> #[trigger] digits[k] == text[k + 1]);
        assert forall|k: int| 1 <= k < text.len() implies is_digit(#[trigger] text[k]) by {
            assert(is_digit(digits[k - 1]));
        }
        value_of_prefix(digits, text, 0, 1, digits.len() as int);
        scan_gives_value(text, 1, 1, true, min, max);
    } else {
        scan_gives_value(digits, 0, 0, false, min, max);
    }
}

proof fn scan_stays_in_range(
    digits: Seq<char>,
    at: int,
    acc: int,
    negative: bool,
    min: int,
    max: int,
)
    requires
        min <= acc <= max,
    ensures
        scanned(digits, at, acc, negative, min, max) matches Ok(v) ==> min <= v <= max,
    decreases digits.len() - at,
{
    if at < digits.len() && is_digit(digits[at]) {
        let d = digits[at] as int - '0' as int;
        let next = if negative {
            acc * 10 - d
        } else {
            acc * 10 + d
        };
        if min <= next <= max {
            scan_stays_in_range(digits, at + 1, next, negative, min, max);
        }
    }
}

/// A number that was read lies in the range that was asked for.
pub proof fn parsed_in_range(text: Seq<char>, min: int, max: int)
    requires
        min <= 0 <= max,
    ensures
        parsed(text, min, max) matches Ok(v) ==> min <= v <= max,
{
    if text.len() > 0 {
        scan_stays_in_range(text, 1, 0, text[0] == '-', min, max);
        scan_stays_in_range(text, 0, 0, false, min, max);
    }
}

/// Two numbers with the same decimal text are the same number.
pub proof fn decimal_tells_apart(a: nat, b: nat)
    requires
        decimal(a) == decimal(b),
    ensures
        a == b,
{
    decimal_has_value(a);
    decimal_has_value(b);
}

impl IntError {
    /// The error in words.
    pub open spec fn words(self) -> Seq<char> {
        match self {
            IntError::Empty => "cannot parse integer from empty string"@,
            IntError::InvalidDigit => "invalid digit found in string"@,
            IntError::TooLarge => "number too large to fit in target type"@,
            IntError::TooSmall => "number too small to fit in target type"@,
        }
    }

    /// The error in words.
    pub fn message(&self) -> (r: String)
        ensures
            r@ == self.words(),
    {
        match self {
            IntError::Empty => "cannot parse integer from empty string".to_owned(),
            IntError::InvalidDigit => "invalid digit found in string".to_owned(),
            IntError::TooLarge => "number too large to fit in target type".to_owned(),
            IntError::TooSmall => "number too small to fit in target type".to_owned(),
        }
    }
}

/// The text of one digit.
fn digit_text(d: u64) -> (r: &'static str)
    requires
        d < 10,
    ensures
        r@ == seq![digit(d as int)],
{
    proof {
        reveal_strlit("0");
        reveal_strlit("1");
        reveal_strlit("2");
        reveal_strlit("3");
        reveal_strlit("4");
        reveal_strlit("5");
        reveal_strlit("6");
        reveal_strlit("7");
        reveal_strlit("8");
        reveal_strlit("9");
    }
    let r: &'static str = match d {
        0 => "0",
        1 => "1",
        2 => "2",
        3 => "3",
        4 => "4",
        5 => "5",
        6 => "6",
        7 => "7",
        8 => "8",
        _ => "9",
    };
    assert(r@ =~= seq![digit(d as int)]);
    r
}

/// The decimal text of a natural number.
pub fn decimal_text(n: u64) -> (r: String)
    ensures
        r@ == decimal(n as nat),
    decreases n,
{
    if n < 10 {
        digit_text(n).to_owned()
    } else {
        let mut out: String = decimal_text(n / 10);
        out.append(digit_text(n % 10));
        assert(out@ =~= decimal(n as nat));
        out
    }
}

/// The decimal text of an integer.
pub fn signed_decimal_text(n: i64) -> (r: String)
    ensures
        r@ == signed_decimal(n as int),
{
    if n >= 0 {
        decimal_text(n as u64)
    } else {
        let size: u64 = if n == i64::MIN {
            9223372036854775808
        } else {
            (-n) as u64
        };
        proof {
            reveal_strlit("-");
        }
        let mut out: String = "-".to_owned();
        out.append(decimal_text(size).as_str());
        assert("-"@ =~= seq!['-']);
        out
    }
}

/// Reads a number between `min` and `max`.
fn parse_within(text: &str, min: i64, max: i64) -> (r: Result<i64, IntError>)
    requires
        -0x1_0000_0000 <= min <= 0 <= max <= 0x1_0000_0000,
    ensures
        match r {
            Ok(v) => parsed(text@, min as int, max as int) == Ok::<int, IntError>(v as int),
            Err(e) => parsed(text@, min as int, max as int) == Err::<int, IntError>(e),
        },
{
    let digits = chars_of(text);
    if digits.len() == 0 {
        return Err(IntError::Empty);
    }
    let negative: bool = digits[0] == '-' && min < 0;
    let mut at: usize = 0;
    if digits[0] == '+' || negative {
        if digits.len() == 1 {
            return Err(IntError::InvalidDigit);
        }
        at = 1;
    }
    let mut acc: i64 = 0;
    while at < digits.len()
        invariant
            at <= digits@.len(),
            digits@ == text@,
            -0x1_0000_0000 <= min <= acc <= max <= 0x1_0000_0000,
            min <= 0 <= max,
            parsed(text@, min as int, max as int) == scanned(
                text@,
                at as int,
                acc as int,
                negative,
                min as int,
                max as int,
            ),
        decreases digits@.len() - at,
    {
        let c: char = digits[at];
        if c < '0' || c > '9' {
            return Err(IntError::InvalidDigit);
        }
        let d: i64 = (c as u32 - '0' as u32) as i64;
        let next: i64 = if negative {
            acc * 10 - d
        } else {
            acc * 10 + d
        };
        if next > max {
            return Err(IntError::TooLarge);
        }
        if next < min {
            return Err(IntError::TooSmall);
        }
        acc = next;
        at += 1;
    }
    Ok(acc)
}

/// Reads a `u16`.
pub fn parse_u16(text: &str) -> (r: Result<u16, IntError>)
    ensures
        match r {
            Ok(v) => parsed(text@, 0, u16::MAX as int) == Ok::<int, IntError>(v as int),
            Err(e) => parsed(text@, 0, u16::MAX as int) == Err::<int, IntError>(e),
        },
{
    proof {
        parsed_in_range(text@, 0, u16::MAX as int);
    }
    match parse_within(text, 0, 0xffff) {
        Ok(v) => Ok(v as u16),
        Err(e) => Err(e),
    }
}

/// Reads a `u32`.
pub fn parse_u32(text: &str) -> (r: Result<u32, IntError>)
    ensures
        match r {
            Ok(v) => parsed(text@, 0, u32::MAX as int) == Ok::<int, IntError>(v as int),
            Err(e) => parsed(text@, 0, u32::MAX as int) == Err::<int, IntError>(e),
        },
{
    proof {
        parsed_in_range(text@, 0, u32::MAX as int);
    }
    match parse_within(text, 0, 0xffff_ffff) {
        Ok(v) => Ok(v as u32),
        Err(e) => Err(e),
    }
}

/// Reads an `i32`.
pub fn parse_i32(text: &str) -> (r: Result<i32, IntError>)
    ensures
        match r {
            Ok(v) => parsed(text@, i32::MIN as int, i32::MAX as int) == Ok::<int, IntError>(v as int),
            Err(e) => parsed(text@, i32::MIN as int, i32::MAX as int) == Err::<int, IntError>(e),
        },
{
    proof {
        parsed_in_range(text@, i32::MIN as int, i32::MAX as int);
    }
    match parse_within(text, -0x8000_0000, 0x7fff_ffff) {
        Ok(v) => Ok(v as i32),
        Err(e) => Err(e),
    }
}

proof fn scan_takes_one_more(
    digits: Seq<char>,
    c: char,
    at: int,
    acc: int,
    negative: bool,
    min: int,
    max: int,
    v: int,
)
    requires
        0 <= at <= digits.len(),
        scanned(digits, at, acc, negative, min, max) == Ok::<int, IntError>(v),
    ensures
        scanned(digits.push(c), at, acc, negative, min, max) == scanned(
            digits.push(c),
            digits.len() as int,
            v,
            negative,
            min,
            max,
        ),
    decreases digits.len() - at,
{
    if at < digits.len() {
        let d = digits[at] as int - '0' as int;
        let next = if negative {
            acc * 10 - d
        } else {
            acc * 10 + d
        };
        assert(digits.push(c)[at] == digits[at]);
        scan_takes_one_more(digits, c, at + 1, next, negative, min, max, v);
    }
}

/// One more digit at the end of a number multiplies it by ten and adds the digit, away from zero;
/// where that leaves the range, the text is no number of the range.
pub proof fn further_digit_counts(text: Seq<char>, d: int, min: int, max: int, v: int)
    requires
        0 <= d < 10,
        min <= 0 <= max,
        parsed(text, min, max) == Ok::<int, IntError>(v),
    ensures
        ({
            let next = if text[0] == '-' {
                v * 10 - d
            } else {
                v * 10 + d
            };
            parsed(text.push(digit(d)), min, max) == if next > max {
                Err::<int, IntError>(IntError::TooLarge)
            } else if next < min {
                Err::<int, IntError>(IntError::TooSmall)
            } else {
                Ok::<int, IntError>(next)
            }
        }),
{
    let c = digit(d);
    let longer = text.push(c);
    assert(longer[0] == text[0]);
    assert(longer[text.len() as int] == c);
    let negative = text[0] == '-' && min < 0;
    let from: int = if text[0] == '+' || negative {
        1
    } else {
        0
    };
    if text[0] == '-' && min >= 0 {
        assert(!is_digit(text[0]));
    }
    scan_takes_one_more(text, c, from, 0, negative, min, max, v);
    reveal_with_fuel(scanned, 2);
}

proof fn scan_is_shifted(
    digits: Seq<char>,
    sign: char,
    at: int,
    acc: int,
    negative: bool,
    min: int,
    max: int,
)
    requires
        0 <= at <= digits.len(),
    ensures
        scanned(seq![sign] + digits, at + 1, acc, negative, min, max) == scanned(
            digits,
            at,
            acc,
            negative,
            min,
            max,
        ),
    decreases digits.len() - at,
{
    if at < digits.len() {
        assert((seq![sign] + digits)[at + 1] == digits[at]);
        let d = digits[at] as int - '0' as int;
        let next = if negative {
            acc * 10 - d
        } else {
            acc * 10 + d
        };
        scan_is_shifted(digits, sign, at + 1, next, negative, min, max);
    }
}

/// One digit alone is the number that it stands for; a plus sign before a digit changes nothing; and
/// an empty text is no number.
pub proof fn number_starts_with_digit(text: Seq<char>, d: int, min: int, max: int)
    requires
        0 <= d < 10,
        min <= 0,
        9 <= max,
    ensures
        parsed(seq![digit(d)], min, max) == Ok::<int, IntError>(d),
        text.len() > 0 && is_digit(text[0]) ==> parsed(seq!['+'] + text, min, max) == parsed(
            text,
            min,
            max,
        ),
        parsed(seq![], min, max) == Err::<int, IntError>(IntError::Empty),
{
    reveal_with_fuel(scanned, 2);
    let single = seq![digit(d)];
    assert(single[0] as int == '0' as int + d);
    if text.len() > 0 {
        scan_is_shifted(text, '+', 0, 0, false, min, max);
    }
}

proof fn scan_stops_at_other_characters(
    digits: Seq<char>,
    at: int,
    acc: int,
    negative: bool,
    min: int,
    max: int,
    place: int,
)
    requires
        0 <= at <= place < digits.len(),
        !is_digit(digits[place]),
    ensures
        scanned(digits, at, acc, negative, min, max) is Err,
    decreases place - at,
{
    if at < place && is_digit(digits[at]) {
        let d = digits[at] as int - '0' as int;
        let next = if negative {
            acc * 10 - d
        } else {
            acc * 10 + d
        };
        scan_stops_at_other_characters(digits, at + 1, next, negative, min, max, place);
    }
}

/// A text with anything but digits after its first character is no number.
pub proof fn other_characters_are_no_number(text: Seq<char>, min: int, max: int, place: int)
    requires
        1 <= place < text.len(),
        !is_digit(text[place]),
    ensures
        parsed(text, min, max) is Err,
{
    scan_stops_at_other_characters(text, 1, 0, text[0] == '-', min, max, place);
    scan_stops_at_other_characters(text, 0, 0, false, min, max, place);
}

} // verus!
