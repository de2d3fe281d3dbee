//! Text helpers: comparing strings, and decimal numbers read and written.

use vstd::prelude::*;
use vstd::string::StringSliceAdditionalSpecFns;

verus! {

/// Tells whether two strings hold the same characters.
pub fn str_eq(a: &str, b: &str) -> (same: bool)
    ensures
        same == (a@ == b@),
{
    let x = a.as_bytes();
    let y = b.as_bytes();
    proof {
        vstd::utf8::encode_utf8_decode_utf8(a@);
        vstd::utf8::encode_utf8_decode_utf8(b@);
    }
    if x.len() != y.len() {
        return false;
    }
    let mut i: usize = 0;
    while i < x.len()
        invariant
            i <= x.len(),
            x.len() == y.len(),
            forall|j: int| 0 <= j < i ==> x@[j] == y@[j],
            x@ == a.spec_bytes(),
            y@ == b.spec_bytes(),
            vstd::utf8::decode_utf8(a.spec_bytes()) == a@,
            vstd::utf8::decode_utf8(b.spec_bytes()) == b@,
        decreases x.len() - i,
    {
        if x[i] != y[i] {
            return false;
        }
        i = i + 1;
    }
    assert(x@ =~= y@);
    true
}

/// `c` is one of the decimal digits `0` to `9`.
pub open spec fn is_digit(c: char) -> bool {
    '0' <= c <= '9'
}

/// The number that the decimal digit `c` stands for.
pub open spec fn digit_value(c: char) -> int {
    c as int - '0' as int
}

/// Every character of `text` is a decimal digit.
pub open spec fn all_digits(text: Seq<char>) -> bool {
    forall|i: int| 0 <= i < text.len() ==> is_digit(#[trigger] text[i])
}

/// The number that the decimal digits `digits` spell, the most significant first.
pub open spec fn decimal_value(digits: Seq<char>) -> int
    decreases digits.len(),
{
    if digits.len() == 0 {
        0
    } else {
        decimal_value(digits.drop_last()) * 10 + digit_value(digits.last())
    }
}

/// `text` without a leading `+`.
pub open spec fn without_plus(text: Seq<char>) -> Seq<char> {
    if text.len() > 0 && text[0] == '+' {
        text.skip(1)
    } else {
        text
    }
}

/// The number that `text` reads as: an optional `+`, then at least one
/// decimal digit and nothing else, spelling a number that a `u64` holds.
pub open spec fn parsed_u64(text: Seq<char>) -> Option<u64> {
    let digits = without_plus(text);
    if digits.len() > 0 && all_digits(digits) && decimal_value(digits) <= u64::MAX {
        Some(decimal_value(digits) as u64)
    } else {
        None
    }
}

/// Digits spell no negative number.
proof fn lemma_decimal_value_not_negative(digits: Seq<char>)
    requires
        all_digits(digits),
    ensures
        decimal_value(digits) >= 0,
    decreases digits.len(),
{
    if digits.len() > 0 {
        assert forall|k: int| 0 <= k < digits.drop_last().len() implies is_digit(
            #[trigger] digits.drop_last()[k],
        ) by {
            assert(is_digit(digits[k]));
        }
        lemma_decimal_value_not_negative(digits.drop_last());
        assert(is_digit(digits[digits.len() - 1]));
    }
}

/// A longer run of digits spells no smaller a number than its beginning.
proof fn lemma_decimal_value_grows(digits: Seq<char>, i: int, j: int)
    requires
        all_digits(digits),
        0 <= i <= j <= digits.len(),
    ensures
        decimal_value(digits.take(i)) <= decimal_value(digits.take(j)),
    decreases j - i,
{
    if i < j {
        lemma_decimal_value_grows(digits, i, j - 1);
        assert forall|k: int| 0 <= k < digits.take(j - 1).len() implies is_digit(
            #[trigger] digits.take(j - 1)[k],
        ) by {
            assert(is_digit(digits[k]));
        }
        lemma_decimal_value_not_negative(digits.take(j - 1));
        assert(digits.take(j).drop_last() == digits.take(j - 1));
        assert(is_digit(digits[j - 1]));
        assert(digits.take(j).last() == digits[j - 1]);
    }
}

/// Reads `text` as a `u64` in decimal notation, as `str::parse` does: an
/// optional `+`, then digits only.
pub fn parse_u64(text: &str) -> (number: Option<u64>)
    ensures
        number == parsed_u64(text@),
{
    if !text.is_ascii() {
        proof {
            let digits = without_plus(text@);
            if digits.len() > 0 && all_digits(digits) {
                assert forall|i: int| 0 <= i < text@.len() implies '\0' <= #[trigger] text@[i]
                    <= '\u{7f}' by {
                    if digits.len() == text@.len() {
                        assert(is_digit(digits[i]));
                    } else if i > 0 {
                        assert(is_digit(digits[i - 1]));
                        assert(digits[i - 1] == text@[i]);
                    }
                }
            }
        }
        return None;
    }
    let bytes = text.as_bytes();
    proof {
        vstd::utf8::is_ascii_chars_encode_utf8(text@);
    }
    let n = bytes.len();
    let start: usize = if n > 0 && bytes[0] == 43u8 { 1 } else { 0 };
    let ghost digits = without_plus(text@);
    assert(digits.len() == n - start);
    assert(forall|k: int| 0 <= k < digits.len() ==> digits[k] == text@[k + start]);
    if start == n {
        return None;
    }
    let mut value: u64 = 0;
    let mut i: usize = start;
    while i < n
        invariant
            start <= i <= n,
            n == bytes.len(),
            n == text@.len(),
            bytes@ == text.spec_bytes(),
            forall|k: int| 0 <= k < n ==> text@[k] as u8 == #[trigger] bytes@[k],
            vstd::utf8::is_ascii_chars(text@),
            digits == without_plus(text@),
            digits.len() == n - start,
            forall|k: int| 0 <= k < digits.len() ==> digits[k] == text@[k + start],
            all_digits(digits.take(i - start)),
            value == decimal_value(digits.take(i - start)),
        decreases n - i,
    {
        let b = bytes[i];
        let ghost c = text@[i as int];
        assert(c == digits[i - start]);
        assert('\0' <= c <= '\u{7f}');
        assert(c as u8 == b);
        if b < 48u8 || b > 57u8 {
            assert(!is_digit(c));
            return None;
        }
        assert(is_digit(c));
        let d: u64 = (b - 48u8) as u64;
        assert(d == digit_value(c));
        proof {
            assert(digits.take(i - start + 1).drop_last() == digits.take(i - start));
            assert(digits.take(i - start + 1).last() == c);
            assert forall|k: int| 0 <= k < digits.take(i - start + 1).len() implies is_digit(
                #[trigger] digits.take(i - start + 1)[k],
            ) by {
                if k < i - start {
                    assert(digits.take(i - start)[k] == digits[k]);
                }
            }
        }
        if value > (u64::MAX - d) / 10 {
            proof {
                let more = digits.take(i - start + 1);
                assert(decimal_value(more) > u64::MAX);
                if all_digits(digits) {
                    lemma_decimal_value_grows(digits, i - start + 1, digits.len() as int);
                    assert(digits.take(digits.len() as int) == digits);
                }
            }
            return None;
        }
        value = value * 10 + d;
        i = i + 1;
    }
    assert(digits.take(n - start) == digits);
    Some(value)
}

/// The decimal digit that stands for `d`.
pub open spec fn digit_char(d: int) -> char {
    (d + '0' as int) as char
}

/// The digits that spell `n` in decimal notation, without leading zeros;
/// `0` for zero.
pub open spec fn decimal_digits(n: nat) -> Seq<char>
    decreases n,
{
    if n < 10 {
        seq![digit_char(n as int)]
    } else {
        decimal_digits(n / 10).push(digit_char((n % 10) as int))
    }
}

/// Writes `n` in decimal notation.
pub fn decimal(n: u64) -> (text: String)
    ensures
        text@ == decimal_digits(n as nat),
{
    let mut reversed: Vec<u8> = Vec::new();
    let mut rest: u64 = n;
    while rest >= 10
        invariant
            forall|k: int| 0 <= k < reversed.len() ==> 48 <= #[trigger] reversed@[k] <= 57,
            decimal_digits(n as nat) == decimal_digits(rest as nat) + Seq::new(
                reversed.len() as nat,
                |k: int| (reversed@[reversed.len() - 1 - k] as char),
            ),
        decreases rest,
    {
        let ghost before = reversed@;
        let ghost was = rest;
        let d: u8 = (rest % 10) as u8;
        reversed.push(48u8 + d);
        rest = rest / 10;
        proof {
            let tail_before = Seq::new(before.len() as nat, |k: int| (before[before.len() - 1 - k] as char));
            let tail_after = Seq::new(
                reversed.len() as nat,
                |k: int| (reversed@[reversed.len() - 1 - k] as char),
            );
            assert(digit_char((was % 10) as int) == (48u8 + d) as char);
            assert(tail_after =~= seq![digit_char((was % 10) as int)] + tail_before);
            assert(decimal_digits(was as nat) == decimal_digits(rest as nat).push(
                digit_char((was % 10) as int),
            ));
            assert(decimal_digits(rest as nat).push(digit_char((was % 10) as int)) + tail_before
                =~= decimal_digits(rest as nat) + tail_after);
        }
    }
    let mut text = String::new();
    let first: u8 = 48u8 + (rest as u8);
    text.push(first as char);
    assert(text@ =~= decimal_digits(rest as nat)) by {
        assert(digit_char(rest as int) == first as char);
    }
    let ghost head = text@;
    let mut i: usize = reversed.len();
    while i > 0
        invariant
            i <= reversed.len(),
            forall|k: int| 0 <= k < reversed.len() ==> 48 <= #[trigger] reversed@[k] <= 57,
            text@ == head + Seq::new(
                (reversed.len() - i) as nat,
                |k: int| (reversed@[reversed.len() - 1 - k] as char),
            ),
        decreases i,
    {
        let ghost so_far = text@;
        i = i - 1;
        text.push(reversed[i] as char);
        assert(text@ =~= head + Seq::new(
            (reversed.len() - i) as nat,
            |k: int| (reversed@[reversed.len() - 1 - k] as char),
        ));
    }
    text
}

/// `String::push`: the string afterwards is the string before with `c`
/// appended at its end.
pub assume_specification[ String::push ](text: &mut String, c: char)
    ensures
        final(text)@ == old(text)@.push(c),
;

} // verus!
