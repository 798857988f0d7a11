//! Unsigned decimal numbers as text: reading them and writing them.

use vstd::prelude::*;
use vstd::std_specs::iter::IteratorSpec;

verus! {

/// Whether a character is one of `0` to `9`.
pub open spec fn is_digit(c: char) -> bool {
    '0' <= c && c <= '9'
}

/// The value of a decimal digit, and 0 for any other character.
pub open spec fn digit_value(c: char) -> nat {
    if is_digit(c) {
        (c as u32 - '0' as u32) as nat
    } else {
        0
    }
}

/// Whether every character is a decimal digit.
pub open spec fn all_digits(text: Seq<char>) -> bool {
    forall|i: int| 0 <= i < text.len() ==> is_digit(#[trigger] text[i])
}

/// The number that a sequence of digits writes, most significant first.
pub open spec fn digits_value(digits: Seq<char>) -> nat
    decreases digits.len(),
{
    if digits.len() == 0 {
        0
    } else {
        10 * digits_value(digits.drop_last()) + digit_value(digits.last())
    }
}

/// The text without the one `+` that may stand in front of the digits.
pub open spec fn unsigned_digits(text: Seq<char>) -> Seq<char> {
    if text.len() > 0 && text[0] == '+' {
        text.skip(1)
    } else {
        text
    }
}

/// The number that a text writes, if it writes one that is at most `max`:
/// an optional `+`, then one or more decimal digits and nothing else.
/// Leading zeros are allowed; white space and `-` are not.
pub open spec fn parse_unsigned_spec(text: Seq<char>, max: nat) -> Option<nat> {
    let digits = unsigned_digits(text);
    if digits.len() > 0 && all_digits(digits) && digits_value(digits) <= max {
        Some(digits_value(digits))
    } else {
        None
    }
}

/// The value of a text never falls when digits are appended.
pub proof fn digits_value_of_prefix(digits: Seq<char>, n: int)
    requires
        0 <= n <= digits.len(),
    ensures
        digits_value(digits.take(n)) <= digits_value(digits),
    decreases digits.len(),
{
    if n < digits.len() {
        digits_value_of_prefix(digits.drop_last(), n);
        assert(digits.drop_last().take(n) == digits.take(n));
    } else {
        assert(digits.take(n) == digits);
    }
}

/// The value of a character as a decimal digit, `None` if it is none.
pub fn decimal_digit(c: char) -> (digit: Option<u64>)
    ensures
        digit == if is_digit(c) {
            Some(digit_value(c) as u64)
        } else {
            None
        },
        digit matches Some(d) ==> d <= 9,
{
    let code = c as u32;
    if 48 <= code && code <= 57 {
        Some((code - 48) as u64)
    } else {
        None
    }
}

/// Reads an unsigned decimal number that is at most `max`.
///
/// `None` stands for every text that writes no such number: the empty text,
/// a sign alone, a character that is no digit, a number above `max`.
pub fn parse_unsigned(text: &str, max: u64) -> (value: Option<u64>)
    ensures
        value matches Some(v) ==> parse_unsigned_spec(text@, max as nat) == Some(v as nat),
        value is None ==> parse_unsigned_spec(text@, max as nat) is None,
{
    let ghost start: int = if text@.len() > 0 && text@[0] == '+' {
        1
    } else {
        0
    };
    let ghost digits = unsigned_digits(text@);
    let mut value: u64 = 0;
    let mut at_start = true;
    let mut seen_digit = false;
    let chars = text.chars();
    for c in it: chars
        invariant
            it.seq() == text@,
            digits == unsigned_digits(text@),
            start == text@.len() - digits.len(),
            0 <= start <= 1,
            at_start == (it.index() == 0),
            !at_start ==> start <= it.index(),
            seen_digit == (it.index() > start),
            all_digits(text@.subrange(start, vstd::math::max(start, it.index() as int))),
            value == digits_value(text@.subrange(start, vstd::math::max(start, it.index() as int))),
            value <= max,
    {
        let ghost index = it.index() as int;
        assert(c == text@[index]);
        if at_start && c == '+' {
            at_start = false;
        } else {
            at_start = false;
            assert(start <= index);
            let ghost before = text@.subrange(start, index);
            let ghost with_c = text@.subrange(start, index + 1);
            proof {
                assert(with_c.drop_last() == before);
                assert(with_c.last() == c);
                assert(with_c == digits.take(index + 1 - start));
                assert(digits[index - start] == c);
                digits_value_of_prefix(digits, index + 1 - start);
            }
            let next = match (decimal_digit(c), value.checked_mul(10)) {
                (Some(digit), Some(tens)) => tens.checked_add(digit),
                _ => None,
            };
            match next {
                Some(next) if next <= max => {
                    value = next;
                    seen_digit = true;
                },
                _ => {
                    return None;
                },
            }
        }
    }
    proof {
        assert(text@.subrange(start, vstd::math::max(start, text@.len() as int)) == digits);
    }
    if seen_digit {
        Some(value)
    } else {
        None
    }
}

/// The character that writes a decimal digit.
pub open spec fn digit_char(digit: nat) -> char
    recommends
        digit < 10,
{
    (digit + 48) as char
}

/// The decimal text of a number: no sign, no leading zero, `0` for zero.
pub open spec fn decimal_text(n: nat) -> Seq<char>
    decreases n,
{
    if n < 10 {
        seq![digit_char(n)]
    } else {
        decimal_text(n / 10).push(digit_char(n % 10))
    }
}

/// The text of one decimal digit.
fn digit_text(digit: u128) -> (text: &'static str)
    requires
        digit < 10,
    ensures
        text@ == seq![digit_char(digit as nat)],
{
    proof {
        reveal_strlit("0");
        reveal_strlit("1");
        reveal_strlit("2");
        reveal_strlit("3");
        reveal_strlit("4");
        reveal_strlit("5");
        reveal_strlit("6");
        reveal_strlit("7");
        reveal_strlit("8");
        reveal_strlit("9");
    }
    let text = match digit {
        0 => "0",
        1 => "1",
        2 => "2",
        3 => "3",
        4 => "4",
        5 => "5",
        6 => "6",
        7 => "7",
        8 => "8",
        _ => "9",
    };
    assert(text@ =~= seq![digit_char(digit as nat)]);
    text
}

/// Writes a number in decimal.
pub fn render_unsigned(n: u128) -> (text: String)
    ensures
        text@ == decimal_text(n as nat),
    decreases n,
{
    if n < 10 {
        String::from_str(digit_text(n))
    } else {
        let mut text = render_unsigned(n / 10);
        text.append(digit_text(n % 10));
        assert(text@ =~= decimal_text(n as nat));
        text
    }
}

} // verus!
