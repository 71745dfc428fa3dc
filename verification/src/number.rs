//! Decimal notation of unsigned numbers.

use vstd::prelude::*;

use crate::text;

verus! {

/// The character that stands for the digit `d`.
pub open spec fn digit(d: nat) -> char
    recommends
        d < 10,
{
    (0x30 + d) as char
}

/// `n` in decimal notation, without leading zeros.
pub open spec fn decimal(n: nat) -> Seq<char>
    decreases n,
{
    if n < 10 {
        seq![digit(n)]
    } else {
        decimal(n / 10).push(digit(n % 10))
    }
}

/// `c` is one of the characters `0` to `9`.
pub open spec fn is_digit(c: char) -> bool {
    '0' <= c <= '9'
}

/// The number that a sequence of digits stands for.
pub open spec fn digits_value(digits: Seq<char>) -> nat
    decreases digits.len(),
{
    if digits.len() == 0 {
        0
    } else {
        digits_value(digits.drop_last()) * 10 + (digits.last() as nat - 0x30) as nat
    }
}

/// `text` without the plus sign it begins with, if it does.
pub open spec fn without_plus(text: Seq<char>) -> Seq<char> {
    if text.len() > 0 && text[0] == '+' {
        text.drop_first()
    } else {
        text
    }
}

/// The 32-bit number that `text` denotes: an optional plus sign, then at least
/// one digit and nothing else, with a value that fits.
pub open spec fn parsed_u32(text: Seq<char>) -> Option<u32> {
    let digits = without_plus(text);
    if digits.len() > 0 && (forall|i: int| 0 <= i < digits.len() ==> is_digit(digits[i]))
        && digits_value(digits) <= u32::MAX {
        Some(digits_value(digits) as u32)
    } else {
        None
    }
}

/// The digit `d` as text.
fn digit_text(d: u32) -> (res: &'static str)
    requires
        d < 10,
    ensures
        res@ == seq![digit(d as nat)],
{
    let all = "0123456789";
    proof {
        reveal_strlit("0123456789");
    }
    let res = all.substring_char(d as usize, d as usize + 1);
    assert(d == 0 || d == 1 || d == 2 || d == 3 || d == 4 || d == 5 || d == 6 || d == 7 || d == 8
        || d == 9);
    assert(res@ =~= seq![digit(d as nat)]);
    res
}

/// `n` in decimal notation.
pub fn u32_to_decimal(n: u32) -> (res: String)
    ensures
        res@ == decimal(n as nat),
    decreases n,
{
    let mut out = if n < 10 {
        String::new()
    } else {
        u32_to_decimal(n / 10)
    };
    out.append(digit_text(n % 10));
    assert(out@ =~= decimal(n as nat));
    out
}

/// A sequence of digits stands for at least what any prefix of it stands for.
proof fn lemma_prefix_value(digits: Seq<char>, n: int)
    requires
        0 <= n <= digits.len(),
    ensures
        digits_value(digits.take(n)) <= digits_value(digits),
    decreases digits.len() - n,
{
    if n == digits.len() {
        assert(digits.take(n) =~= digits);
    } else {
        lemma_prefix_value(digits, n + 1);
        assert(digits.take(n + 1).drop_last() =~= digits.take(n));
    }
}

/// The 32-bit number that `text` denotes, if it denotes one.
pub fn parse_u32(text: &str) -> (res: Option<u32>)
    ensures
        res == parsed_u32(text@),
{
    let chars = text::chars_of(text);
    let start: usize = if chars.len() > 0 && chars[0] == '+' {
        1
    } else {
        0
    };
    let ghost digits = without_plus(text@);
    assert(digits =~= chars@.skip(start as int));
    if start == chars.len() {
        return None;
    }
    let mut value: u32 = 0;
    let mut i: usize = start;
    while i < chars.len()
        invariant
            start <= i <= chars@.len(),
            chars@ == text@,
            digits == without_plus(text@),
            digits == chars@.skip(start as int),
            value == digits_value(digits.take(i - start)),
            forall|j: int| 0 <= j < i - start ==> is_digit(digits[j]),
        decreases chars@.len() - i,
    {
        let c = chars[i];
        assert(c == digits[i - start]);
        if c < '0' || '9' < c {
            return None;
        }
        let ghost next = digits.take(i - start + 1);
        assert(next.drop_last() =~= digits.take(i - start));
        let wide: u64 = value as u64 * 10 + (c as u64 - 0x30);
        assert(wide == digits_value(next));
        if wide > u32::MAX as u64 {
            proof {
                lemma_prefix_value(digits, i - start + 1);
            }
            return None;
        }
        value = wide as u32;
        i += 1;
    }
    assert(digits.take(i - start) =~= digits);
    Some(value)
}

/// Decimal notation is made of digits alone and stands for its number.
pub proof fn lemma_decimal(n: nat)
    ensures
        decimal(n).len() > 0,
        forall|i: int| 0 <= i < decimal(n).len() ==> is_digit(decimal(n)[i]),
        digits_value(decimal(n)) == n,
    decreases n,
{
    if n < 10 {
        reveal_with_fuel(digits_value, 2);
    } else {
        lemma_decimal(n / 10);
        assert(decimal(n).drop_last() =~= decimal(n / 10));
    }
}

/// Reading back the decimal notation of a number gives the number.
pub proof fn law_decimal_reads_back(n: u32)
    ensures
        parsed_u32(decimal(n as nat)) == Some(n),
{
    lemma_decimal(n as nat);
    assert(is_digit(decimal(n as nat)[0]));
}

/// Decimal notation digit by digit: a digit stands for itself, and a further
/// digit is written behind the number that it multiplies by ten.
pub proof fn law_decimal_digit_by_digit(m: nat, d: nat)
    requires
        d < 10,
    ensures
        decimal(d) == seq!["0123456789"@[d as int]],
        m > 0 ==> decimal(10 * m + d) == decimal(m).push("0123456789"@[d as int]),
{
    reveal_strlit("0123456789");
    assert(d == 0 || d == 1 || d == 2 || d == 3 || d == 4 || d == 5 || d == 6 || d == 7 || d == 8
        || d == 9);
    assert((10 * m + d) / 10 == m);
    assert((10 * m + d) % 10 == d);
}

/// Digits are zeros and the decimal notation of what they stand for.
proof fn lemma_digits_parts(digits: Seq<char>) -> (zeros: Seq<char>)
    requires
        digits.len() > 0,
        forall|i: int| 0 <= i < digits.len() ==> is_digit(digits[i]),
    ensures
        digits == zeros + decimal(digits_value(digits)),
        forall|i: int| 0 <= i < zeros.len() ==> zeros[i] == '0',
    decreases digits.len(),
{
    let front = digits.drop_last();
    let d = (digits.last() as nat - 0x30) as nat;
    assert(is_digit(digits[digits.len() - 1]));
    if front.len() == 0 {
        assert(digits_value(front) == 0);
        let zeros = Seq::<char>::empty();
        assert(digits =~= zeros + decimal(d));
        zeros
    } else {
        let zeros = lemma_digits_parts(front);
        let v = digits_value(front);
        let value = digits_value(digits);
        assert(value == v * 10 + d);
        assert(digits =~= front.push(digits.last()));
        assert(digit(d) == digits.last());
        if v == 0 {
            let more = zeros.push('0');
            assert(decimal(0) =~= seq!['0']);
            assert(decimal(value) =~= seq![digits.last()]);
            assert((zeros + seq!['0']).push(digits.last()) =~= more + decimal(value));
            more
        } else {
            assert(value / 10 == v);
            assert(value % 10 == d);
            assert(decimal(value) == decimal(v).push(digits.last()));
            assert((zeros + decimal(v)).push(digits.last()) =~= zeros + decimal(value));
            zeros
        }
    }
}

/// Zeros before decimal notation make no difference to what it stands for.
proof fn lemma_leading_zeros(zeros: Seq<char>, n: nat)
    requires
        forall|i: int| 0 <= i < zeros.len() ==> zeros[i] == '0',
    ensures
        digits_value(zeros + decimal(n)) == n,
    decreases n,
{
    let digits = zeros + decimal(n);
    if n < 10 {
        lemma_zeros(zeros);
        assert(digits.drop_last() =~= zeros);
    } else {
        lemma_leading_zeros(zeros, n / 10);
        assert(digits.drop_last() =~= zeros + decimal(n / 10));
    }
}

proof fn lemma_zeros(zeros: Seq<char>)
    requires
        forall|i: int| 0 <= i < zeros.len() ==> zeros[i] == '0',
    ensures
        digits_value(zeros) == 0,
    decreases zeros.len(),
{
    if zeros.len() > 0 {
        lemma_zeros(zeros.drop_last());
        assert(zeros[zeros.len() - 1] == '0');
    }
}

/// A text denotes a number just if it is an optional plus sign, any number of
/// zeros, and the decimal notation of the number.
pub proof fn law_parsed_text_is_decimal(text: Seq<char>, n: u32)
    ensures
        parsed_u32(text) == Some(n) <==> exists|plus: Seq<char>, zeros: Seq<char>|
            text == #[trigger] (plus + zeros + decimal(n as nat)) && (plus.len() == 0 || plus
                == seq!['+']) && (forall|i: int| 0 <= i < zeros.len() ==> zeros[i] == '0'),
{
    lemma_decimal(n as nat);
    if parsed_u32(text) == Some(n) {
        let digits = without_plus(text);
        let zeros = lemma_digits_parts(digits);
        let plus = text.take(text.len() - digits.len());
        if digits.len() < text.len() {
            assert(plus =~= seq!['+']);
        }
        assert(text =~= plus + digits);
        assert(plus + (zeros + decimal(n as nat)) =~= plus + zeros + decimal(n as nat));
    }
    if exists|plus: Seq<char>, zeros: Seq<char>|
        text == #[trigger] (plus + zeros + decimal(n as nat)) && (plus.len() == 0 || plus
            == seq!['+']) && (forall|i: int| 0 <= i < zeros.len() ==> zeros[i] == '0') {
        let (plus, zeros) = choose|plus: Seq<char>, zeros: Seq<char>|
            text == #[trigger] (plus + zeros + decimal(n as nat)) && (plus.len() == 0 || plus
                == seq!['+']) && (forall|i: int| 0 <= i < zeros.len() ==> zeros[i] == '0');
        let digits = zeros + decimal(n as nat);
        assert forall|i: int| 0 <= i < digits.len() implies is_digit(digits[i]) by {
            if i >= zeros.len() {
                assert(is_digit(decimal(n as nat)[i - zeros.len()]));
            }
        }
        if plus.len() == 0 {
            assert(text =~= digits);
            assert(is_digit(digits[0]));
            assert(without_plus(text) =~= digits);
        } else {
            assert(text[0] == '+');
            assert(without_plus(text) =~= digits);
        }
        lemma_leading_zeros(zeros, n as nat);
    }
}

} // verus!
