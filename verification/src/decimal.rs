//! Decimal numbers as they appear on the wire: rendering a `u32` as ASCII
//! digits and reading one back.

use vstd::prelude::*;

verus! {

/// The ASCII code of the digit `d`, for `d < 10`.
pub open spec fn digit_byte(d: nat) -> u8 {
    (0x30 + d) as u8
}

/// The shortest decimal representation of `n`, most significant digit first.
pub open spec fn decimal_digits(n: nat) -> Seq<u8>
    decreases n,
{
    if n < 10 {
        seq![digit_byte(n)]
    } else {
        decimal_digits(n / 10).push(digit_byte(n % 10))
    }
}

/// True when `b` is the ASCII code of one of `0` to `9`.
pub open spec fn is_digit(b: u8) -> bool {
    0x30 <= b <= 0x39
}

/// True when every byte of `text` is a decimal digit.
pub open spec fn all_digits(text: Seq<u8>) -> bool {
    forall|i: int| 0 <= i < text.len() ==> is_digit(#[trigger] text[i])
}

/// The number that a sequence of decimal digits denotes; 0 for the empty one.
pub open spec fn digits_value(text: Seq<u8>) -> nat
    decreases text.len(),
{
    if text.len() == 0 {
        0
    } else {
        digits_value(text.drop_last()) * 10 + (text.last() - 0x30) as nat
    }
}

/// `text` without one leading plus sign.
pub open spec fn unsigned_part(text: Seq<u8>) -> Seq<u8> {
    if text.len() > 0 && text[0] == 0x2b {
        text.drop_first()
    } else {
        text
    }
}

/// What `text` reads as: an optional `+`, then one or more decimal digits
/// whose value fits 32 bits. Anything else reads as nothing.
pub open spec fn parse_u32(text: Seq<u8>) -> Option<u32> {
    let digits = unsigned_part(text);
    if digits.len() > 0 && all_digits(digits) && digits_value(digits) <= u32::MAX {
        Some(digits_value(digits) as u32)
    } else {
        None
    }
}

/// A prefix of a digit sequence never denotes more than the whole.
proof fn lemma_prefix_value(text: Seq<u8>, k: int)
    requires
        0 <= k <= text.len(),
        all_digits(text),
    ensures
        digits_value(text.take(k)) <= digits_value(text),
    decreases text.len() - k,
{
    if k == text.len() {
        assert(text.take(k) =~= text);
    } else {
        lemma_prefix_value(text, k + 1);
        let longer = text.take(k + 1);
        assert(longer.drop_last() =~= text.take(k));
        assert(is_digit(text[k]));
        assert(longer.last() == text[k]);
    }
}

/// Appends the decimal digits of `value` to `out`.
fn push_decimal(value: u32, out: &mut Vec<u8>)
    ensures
        final(out)@ == old(out)@ + decimal_digits(value as nat),
    decreases value,
{
    if value >= 10 {
        push_decimal(value / 10, out);
    }
    let digit: u8 = (value % 10) as u8;
    out.push(0x30u8 + digit);
    assert(out@ =~= old(out)@ + decimal_digits(value as nat));
}

/// Renders `value` in decimal, without sign or leading zeros.
pub fn format_decimal(value: u32) -> (digits: Vec<u8>)
    ensures
        digits@ == decimal_digits(value as nat),
{
    let mut digits: Vec<u8> = Vec::new();
    push_decimal(value, &mut digits);
    assert(digits@ =~= decimal_digits(value as nat));
    digits
}

/// Reads a decimal number: an optional `+`, then digits only. Returns `None`
/// for anything else, and for a number that does not fit 32 bits.
pub fn parse_decimal(text: &[u8]) -> (number: Option<u32>)
    ensures
        number == parse_u32(text@),
{
    let start: usize = if text.len() > 0 && text[0] == 0x2b {
        1
    } else {
        0
    };
    let ghost digits = unsigned_part(text@);
    assert(digits =~= text@.skip(start as int));
    if start == text.len() {
        return None;
    }
    let mut value: u64 = 0;
    let mut i: usize = start;
    while i < text.len()
        invariant
            start <= i <= text.len(),
            digits == unsigned_part(text@),
            digits == text@.skip(start as int),
            all_digits(digits.take(i - start)),
            value == digits_value(digits.take(i - start)),
            value <= u32::MAX,
        decreases text.len() - i,
    {
        let b = text[i];
        assert(b == digits[i - start]);
        if b < 0x30 || b > 0x39 {
            assert(!is_digit(digits[i - start]));
            return None;
        }
        let ghost longer = digits.take(i - start + 1);
        assert(longer.drop_last() =~= digits.take(i - start));
        assert(longer.last() == b);
        assert(all_digits(longer)) by {
            assert forall|j: int| 0 <= j < longer.len() implies is_digit(#[trigger] longer[j]) by {
                if j < i - start {
                    assert(longer[j] == digits.take(i - start)[j]);
                }
            }
        }
        value = value * 10 + (b - 0x30) as u64;
        if value > 0xffff_ffff {
            proof {
                if all_digits(digits) {
                    lemma_prefix_value(digits, i - start + 1);
                }
            }
            return None;
        }
        i += 1;
    }
    assert(digits.take(i - start) =~= digits);
    Some(value as u32)
}

/// A rendered number is made of digits only and denotes the number.
pub proof fn lemma_decimal_digits(n: nat)
    ensures
        decimal_digits(n).len() > 0,
        all_digits(decimal_digits(n)),
        digits_value(decimal_digits(n)) == n,
    decreases n,
{
    let digits = decimal_digits(n);
    if n >= 10 {
        lemma_decimal_digits(n / 10);
        assert(digits.drop_last() =~= decimal_digits(n / 10));
        assert(digits.last() == digit_byte(n % 10));
        assert forall|i: int| 0 <= i < digits.len() implies is_digit(#[trigger] digits[i]) by {
            if i < digits.len() - 1 {
                assert(digits[i] == decimal_digits(n / 10)[i]);
            }
        }
    } else {
        assert(digits.drop_last() =~= Seq::<u8>::empty());
        assert(digits_value(digits.drop_last()) == 0);
        assert(digits.last() == digit_byte(n));
    }
}

/// Reading a rendered number gives the number back.
pub proof fn lemma_parse_format(value: u32)
    ensures
        parse_u32(decimal_digits(value as nat)) == Some(value),
{
    lemma_decimal_digits(value as nat);
    let digits = decimal_digits(value as nat);
    assert(is_digit(digits[0]));
}

} // verus!
