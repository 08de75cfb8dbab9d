//! Numbers as decimal text, for messages.

use vstd::prelude::*;

verus! {

/// The character of a decimal digit.
pub open spec fn digit_char(d: nat) -> char {
    if d == 0 {
        '0'
    } else if d == 1 {
        '1'
    } else if d == 2 {
        '2'
    } else if d == 3 {
        '3'
    } else if d == 4 {
        '4'
    } else if d == 5 {
        '5'
    } else if d == 6 {
        '6'
    } else if d == 7 {
        '7'
    } else if d == 8 {
        '8'
    } else {
        '9'
    }
}

/// The decimal digits of a number, most significant first, without leading
/// zeros.
pub open spec fn decimal_text(n: nat) -> Seq<char>
    decreases n,
{
    if n < 10 {
        seq![digit_char(n)]
    } else {
        decimal_text(n / 10).push(digit_char(n % 10))
    }
}

/// A decimal digit as text.
fn digit(d: u64) -> (text: &'static str)
    requires
        d < 10,
    ensures
        text@ == seq![digit_char(d as nat)],
{
    proof {
        reveal_strlit("0");
        reveal_strlit("1");
        reveal_strlit("2");
        reveal_strlit("3");
        reveal_strlit("4");
        reveal_strlit("5");
        reveal_strlit("6");
        reveal_strlit("7");
        reveal_strlit("8");
        reveal_strlit("9");
    }
    let text = if d == 0 {
        "0"
    } else if d == 1 {
        "1"
    } else if d == 2 {
        "2"
    } else if d == 3 {
        "3"
    } else if d == 4 {
        "4"
    } else if d == 5 {
        "5"
    } else if d == 6 {
        "6"
    } else if d == 7 {
        "7"
    } else if d == 8 {
        "8"
    } else {
        "9"
    };
    assert(text@ =~= seq![digit_char(d as nat)]);
    text
}

/// The number in decimal.
pub fn decimal(n: u64) -> (text: String)
    ensures
        text@ == decimal_text(n as nat),
    decreases n,
{
    if n < 10 {
        String::from_str(digit(n))
    } else {
        let mut text = decimal(n / 10);
        text.append(digit(n % 10));
        assert(text@ =~= decimal_text(n as nat));
        text
    }
}

/// The value of a decimal digit; `None` for any other character.
pub open spec fn digit_value(c: char) -> Option<nat> {
    if c == '0' {
        Some(0)
    } else if c == '1' {
        Some(1)
    } else if c == '2' {
        Some(2)
    } else if c == '3' {
        Some(3)
    } else if c == '4' {
        Some(4)
    } else if c == '5' {
        Some(5)
    } else if c == '6' {
        Some(6)
    } else if c == '7' {
        Some(7)
    } else if c == '8' {
        Some(8)
    } else if c == '9' {
        Some(9)
    } else {
        None
    }
}

/// The number that a text of decimal digits spells, leading zeros allowed;
/// `None` for the empty text and for a text with any other character.
pub open spec fn digits_value(text: Seq<char>) -> Option<nat>
    decreases text.len(),
{
    if text.len() == 0 {
        None
    } else if text.len() == 1 {
        digit_value(text[0])
    } else {
        match (digits_value(text.drop_last()), digit_value(text.last())) {
            (Some(high), Some(low)) => Some(high * 10 + low),
            _ => None,
        }
    }
}

/// The 16-bit number that a text spells: an optional `+`, then decimal
/// digits, the whole no larger than 65535.
pub open spec fn u16_value(text: Seq<char>) -> Option<u16> {
    let digits = if text.len() > 0 && text[0] == '+' {
        text.skip(1)
    } else {
        text
    };
    match digits_value(digits) {
        Some(value) => if value <= u16::MAX {
            Some(value as u16)
        } else {
            None
        },
        None => None,
    }
}

/// The value of a decimal digit.
fn digit_of(c: char) -> (r: Option<u32>)
    ensures
        r matches Some(d) ==> digit_value(c) == Some(d as nat) && d < 10,
        r is None ==> digit_value(c) is None,
{
    if c == '0' {
        Some(0)
    } else if c == '1' {
        Some(1)
    } else if c == '2' {
        Some(2)
    } else if c == '3' {
        Some(3)
    } else if c == '4' {
        Some(4)
    } else if c == '5' {
        Some(5)
    } else if c == '6' {
        Some(6)
    } else if c == '7' {
        Some(7)
    } else if c == '8' {
        Some(8)
    } else if c == '9' {
        Some(9)
    } else {
        None
    }
}

/// A text that starts with something that spells no number spells none, and
/// one that starts with digits spells at least what they spell.
proof fn lemma_digits_prefix(text: Seq<char>, n: int)
    requires
        0 < n <= text.len(),
    ensures
        digits_value(text.take(n)) is None ==> digits_value(text) is None,
        digits_value(text) matches Some(all) ==> (digits_value(text.take(n)) matches Some(part)
            && part <= all),
    decreases text.len() - n,
{
    if n < text.len() {
        assert(text.take(n + 1).drop_last() =~= text.take(n));
        lemma_digits_prefix(text, n + 1);
    } else {
        assert(text.take(n) =~= text);
    }
}

/// Reads a 16-bit number from its decimal text, as `u16::from_str` does: an
/// optional `+`, then digits only, the whole within range.
pub fn parse_u16(text: &str) -> (r: Option<u16>)
    ensures
        r == u16_value(text@),
{
    let len = text.unicode_len();
    if len == 0 {
        return None;
    }
    let start: usize = if text.get_char(0) == '+' {
        1
    } else {
        0
    };
    let ghost digits = text@.skip(start as int);
    proof {
        assert(text@.skip(0) =~= text@);
    }
    if start == len {
        return None;
    }
    let mut value: u32 = 0;
    let mut i: usize = start;
    while i < len
        invariant
            start <= i <= len,
            start < len,
            len == text@.len(),
            digits == text@.skip(start as int),
            digits == if text@[0] == '+' {
                text@.skip(1)
            } else {
                text@
            },
            value <= u16::MAX,
            i > start ==> digits_value(digits.take(i - start)) == Some(value as nat),
            i == start ==> value == 0,
        decreases len - i,
    {
        let c = text.get_char(i);
        proof {
            assert(digits[i - start] == c);
            assert(digits.take(i - start + 1).drop_last() =~= digits.take(i - start));
            assert(digits.take(i - start + 1).last() == c);
            lemma_digits_prefix(digits, i - start + 1);
        }
        let d = match digit_of(c) {
            Some(d) => d,
            None => { return None; },
        };
        let next = value * 10 + d;
        if next > 65535 {
            return None;
        }
        value = next;
        i += 1;
    }
    proof {
        assert(digits.take(len - start) =~= digits);
    }
    Some(value as u16)
}

} // verus!
