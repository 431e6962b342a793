//! Integers as decimal text: how they are written and how they are read.

use vstd::prelude::*;
use vstd::string::*;
use vstd::utf8::{encode_utf8, is_ascii_chars};

verus! {

/// The character that stands for the decimal digit `d`.
pub open spec fn digit_char(d: int) -> char
    recommends
        0 <= d < 10,
{
    if d == 0 {
        '0'
    } else if d == 1 {
        '1'
    } else if d == 2 {
        '2'
    } else if d == 3 {
        '3'
    } else if d == 4 {
        '4'
    } else if d == 5 {
        '5'
    } else if d == 6 {
        '6'
    } else if d == 7 {
        '7'
    } else if d == 8 {
        '8'
    } else {
        '9'
    }
}

/// The decimal digits of a natural number, most significant first, without
/// leading zeros (zero itself is the single digit `0`).
pub open spec fn nat_digits(n: nat) -> Seq<char>
    decreases n,
{
    if n < 10 {
        seq![digit_char(n as int)]
    } else {
        nat_digits(n / 10).push(digit_char((n % 10) as int))
    }
}

/// The decimal text of an integer: a minus sign for negative numbers,
/// followed by the digits of its magnitude.
pub open spec fn decimal(n: int) -> Seq<char> {
    if n < 0 {
        seq!['-'] + nat_digits((-n) as nat)
    } else {
        nat_digits(n as nat)
    }
}

/// Returns the text of one decimal digit.
fn digit(d: u64) -> (text: &'static str)
    requires
        d < 10,
    ensures
        text@ == seq![digit_char(d as int)],
{
    if d == 0 {
        proof {
            reveal_strlit("0");
        }
        "0"
    } else if d == 1 {
        proof {
            reveal_strlit("1");
        }
        "1"
    } else if d == 2 {
        proof {
            reveal_strlit("2");
        }
        "2"
    } else if d == 3 {
        proof {
            reveal_strlit("3");
        }
        "3"
    } else if d == 4 {
        proof {
            reveal_strlit("4");
        }
        "4"
    } else if d == 5 {
        proof {
            reveal_strlit("5");
        }
        "5"
    } else if d == 6 {
        proof {
            reveal_strlit("6");
        }
        "6"
    } else if d == 7 {
        proof {
            reveal_strlit("7");
        }
        "7"
    } else if d == 8 {
        proof {
            reveal_strlit("8");
        }
        "8"
    } else {
        proof {
            reveal_strlit("9");
        }
        "9"
    }
}

/// Appends the decimal digits of `n` to `text`.
fn push_digits(text: &mut String, n: u64)
    ensures
        final(text)@ == old(text)@ + nat_digits(n as nat),
    decreases n,
{
    if n >= 10 {
        push_digits(text, n / 10);
    }
    text.append(digit(n % 10));
    proof {
        if n >= 10 {
            assert(old(text)@ + nat_digits((n / 10) as nat) + seq![digit_char((n % 10) as int)]
                =~= old(text)@ + nat_digits(n as nat));
        }
    }
}

/// Renders an integer in decimal, as `decimal` states it.
pub fn format_decimal(n: i64) -> (text: String)
    ensures
        text@ == decimal(n as int),
{
    let mut text = String::new();
    if n < 0 {
        proof {
            reveal_strlit("-");
        }
        text.append("-");
        assert(text@ =~= seq!['-']);
        let magnitude: u64 = if n == i64::MIN {
            9223372036854775808u64
        } else {
            (-n) as u64
        };
        push_digits(&mut text, magnitude);
    } else {
        push_digits(&mut text, n as u64);
    }
    text
}

/// The value of a character that is a decimal digit.
pub open spec fn digit_value(c: char) -> Option<int> {
    if '0' <= c <= '9' {
        Some(c as int - '0' as int)
    } else {
        None
    }
}

/// The number that a sequence of decimal digits stands for, most
/// significant digit first; `None` where a character is no digit. The empty
/// sequence stands for zero.
pub open spec fn digits_value(digits: Seq<char>) -> Option<int>
    decreases digits.len(),
{
    if digits.len() == 0 {
        Some(0)
    } else {
        match (digits_value(digits.drop_last()), digit_value(digits.last())) {
            (Some(value), Some(digit)) => Some(10 * value + digit),
            _ => None,
        }
    }
}

/// The integer that a text stands for: an optional sign, `+` or `-`, then
/// at least one decimal digit and nothing else, for a number that fits in 64
/// bits. `None` for every other text.
pub open spec fn parse_decimal_spec(text: Seq<char>) -> Option<i64> {
    if text.len() == 0 {
        None
    } else {
        let signed = text[0] == '-' || text[0] == '+';
        let digits = if signed {
            text.skip(1)
        } else {
            text
        };
        if digits.len() == 0 {
            None
        } else {
            match digits_value(digits) {
                Some(value) => {
                    let number = if text[0] == '-' {
                        -value
                    } else {
                        value
                    };
                    if i64::MIN <= number <= i64::MAX {
                        Some(number as i64)
                    } else {
                        None
                    }
                },
                None => None,
            }
        }
    }
}

/// A sequence stands for a number exactly if all its characters are
/// digits, and its beginnings then stand for numbers that are no larger.
pub proof fn lemma_digits_value(digits: Seq<char>, k: int)
    requires
        0 <= k <= digits.len(),
    ensures
        digits_value(digits) is Some <==> forall|i: int|
            0 <= i < digits.len() ==> digit_value(#[trigger] digits[i]) is Some,
        digits_value(digits) is Some ==> digits_value(digits.take(k)) is Some && 0 <= digits_value(
            digits.take(k),
        ).unwrap() <= digits_value(digits).unwrap(),
    decreases digits.len(),
{
    if digits.len() > 0 {
        let rest = digits.drop_last();
        if k < digits.len() {
            lemma_digits_value(rest, k);
            assert(rest.take(k) == digits.take(k));
        } else {
            lemma_digits_value(rest, rest.len() as int);
            assert(rest.take(rest.len() as int) == rest);
            assert(digits.take(k) == digits);
        }
        assert forall|i: int| 0 <= i < rest.len() implies rest[i] == digits[i] by {}
        if digits_value(digits) is Some {
            assert forall|i: int| 0 <= i < digits.len() implies digit_value(
                #[trigger] digits[i],
            ) is Some by {
                if i < rest.len() {
                    assert(digit_value(rest[i]) is Some);
                }
            }
        }
        if forall|i: int| 0 <= i < digits.len() ==> digit_value(#[trigger] digits[i]) is Some {
            assert forall|i: int| 0 <= i < rest.len() implies digit_value(
                #[trigger] rest[i],
            ) is Some by {
                assert(digit_value(digits[i]) is Some);
            }
            assert(digit_value(digits[digits.len() - 1]) is Some);
        }
    } else {
        assert(digits.take(k) == digits);
    }
}

/// The digits of a number are digits, at least one, and stand for the
/// number.
pub proof fn lemma_nat_digits(n: nat)
    ensures
        nat_digits(n).len() > 0,
        digits_value(nat_digits(n)) == Some(n as int),
        digit_value(nat_digits(n)[0]) is Some,
    decreases n,
{
    if n < 10 {
        let digits = nat_digits(n);
        assert(digits.drop_last() =~= Seq::<char>::empty());
        assert(digits_value(digits.drop_last()) == Some(0int));
        assert(digits.last() == digit_char(n as int));
    } else {
        lemma_nat_digits(n / 10);
        let digits = nat_digits(n);
        assert(digits.drop_last() =~= nat_digits(n / 10));
        assert(digits.last() == digit_char((n % 10) as int));
        assert(digits[0] == nat_digits(n / 10)[0]);
    }
}

/// The text that an integer is rendered as stands for that integer.
pub proof fn lemma_parse_decimal(n: i64)
    ensures
        parse_decimal_spec(decimal(n as int)) == Some(n),
{
    let text = decimal(n as int);
    if n < 0 {
        let digits = nat_digits((-n) as nat);
        lemma_nat_digits((-n) as nat);
        assert(text[0] == '-');
        assert(text.skip(1) =~= digits);
    } else {
        lemma_nat_digits(n as nat);
        assert(text[0] != '-' && text[0] != '+');
    }
}

/// Reads an integer from a text, as `parse_decimal_spec` states it.
pub fn parse_decimal(text: &str) -> (number: Option<i64>)
    ensures
        number == parse_decimal_spec(text@),
{
    broadcast use vstd::utf8::is_ascii_chars_encode_utf8;

    let ghost chars = text@;
    if !text.is_ascii() {
        proof {
            let i = choose|i: int|
                0 <= i < chars.len() && !('\0' <= #[trigger] chars[i] <= '\u{7f}');
            assert(digit_value(chars[i]) is None);
            if chars[0] == '-' || chars[0] == '+' {
                lemma_digits_value(chars.skip(1), 0);
                assert(i >= 1);
                assert(chars.skip(1)[i - 1] == chars[i]);
                assert(digit_value(chars.skip(1)[i - 1]) is None);
            } else {
                lemma_digits_value(chars, 0);
            }
        }
        return None;
    }
    let len = text.as_bytes().len();
    proof {
        assert(is_ascii_chars(chars));
        assert(chars.len() == encode_utf8(chars).len());
        assert(text.spec_bytes() == encode_utf8(chars));
    }
    if len == 0 {
        return None;
    }
    let first = text.get_ascii(0);
    let negative = first == 45;
    let start: usize = if first == 45 || first == 43 {
        1
    } else {
        0
    };
    assert((chars[0] == '-') == (first == 45));
    assert((chars[0] == '+') == (first == 43));
    if start == len {
        return None;
    }
    let ghost digits = chars.skip(start as int);
    let limit: u64 = if negative {
        9223372036854775808
    } else {
        9223372036854775807
    };
    let mut value: u64 = 0;
    let mut i: usize = start;
    assert(digits.take(0) =~= Seq::<char>::empty());
    while i < len
        invariant
            chars == text@,
            is_ascii(text),
            len == chars.len(),
            len > 0,
            negative == (chars[0] == '-'),
            start == (if chars[0] == '-' || chars[0] == '+' {
                1usize
            } else {
                0usize
            }),
            limit == (if negative {
                9223372036854775808u64
            } else {
                9223372036854775807u64
            }),
            digits == chars.skip(start as int),
            start <= i <= len,
            digits_value(digits.take(i - start)) == Some(value as int),
            value <= limit,
            9223372036854775807 <= limit <= 9223372036854775808,
        decreases len - i,
    {
        let byte = text.get_ascii(i);
        let ghost c = chars[i as int];
        assert(chars.skip(0) =~= chars);
        assert(digits[i - start] == c);
        assert(digits.take(i - start + 1).drop_last() =~= digits.take(i - start));
        assert(digits.take(i - start + 1).last() == c);
        if byte < 48 || byte > 57 {
            proof {
                assert(digit_value(digits[i - start]) is None);
                lemma_digits_value(digits, 0);
            }
            return None;
        }
        let digit = (byte - 48) as u64;
        assert(digit_value(c) == Some(digit as int));
        if value > (limit - digit) / 10 {
            proof {
                lemma_digits_value(digits, i - start + 1);
            }
            return None;
        }
        value = value * 10 + digit;
        i += 1;
    }
    assert(digits.take(i - start) =~= digits);
    assert(chars.skip(0) =~= chars);
    if negative {
        if value == 9223372036854775808 {
            Some(i64::MIN)
        } else {
            Some(-(value as i64))
        }
    } else {
        Some(value as i64)
    }
}

} // verus!
