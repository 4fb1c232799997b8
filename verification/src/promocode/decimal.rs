//! Powers of ten and runs of digits: what the reading of numerals rests on,
//! and why a threshold in thousandths of a degree compares exactly as the
//! number that its numeral spells.

use crate::promocode::temperature::{
    all_digits,
    digit_value,
    digits_value,
    exponent_part,
    exponent_value,
    fraction_len,
    fraction_part,
    has_point,
    has_residue,
    is_decimal,
    is_digit,
    is_negative,
    leading_digits,
    mantissa_digits,
    millis_places,
    shifted_value,
    threshold_millis,
    threshold_reached,
    unsigned_part,
    whole_len,
    whole_part,
};
use vstd::prelude::*;

verus! {

/// Ten to the power of `k`.
pub open spec fn pow10(k: nat) -> int
    decreases k,
{
    if k == 0 {
        1
    } else {
        10 * pow10((k - 1) as nat)
    }
}

/// Every power of ten is positive.
pub proof fn lemma_pow10_positive(k: nat)
    ensures
        pow10(k) > 0,
    decreases k,
{
    if k > 0 {
        lemma_pow10_positive((k - 1) as nat);
    }
}

/// The digits of a run, written one after the other, spell the first
/// number shifted by the length of the second, plus the second.
pub proof fn lemma_digits_value_concat(a: Seq<char>, b: Seq<char>)
    ensures
        digits_value(a + b) == digits_value(a) * pow10(b.len()) + digits_value(b),
    decreases b.len(),
{
    if b.len() == 0 {
        assert(a + b =~= a);
    } else {
        let front = b.drop_last();
        assert((a + b).drop_last() =~= a + front);
        assert((a + b).last() == b.last());
        lemma_digits_value_concat(a, front);
        let x = digits_value(a);
        let y = digits_value(front);
        let d = digit_value(b.last());
        let p = pow10(front.len());
        let q = pow10(b.len());
        assert(q == 10 * p);
        assert(digits_value(a + front) == x * p + y);
        assert(digits_value(a + b) == digits_value(a + front) * 10 + d);
        assert(digits_value(b) == y * 10 + d);
        assert((x * p + y) * 10 + d == x * q + (y * 10 + d)) by (nonlinear_arith)
            requires
                q == 10 * p,
        ;
    }
}

/// A run of `k` digits spells a number from 0 up to, and not including,
/// ten to the power of `k`.
pub proof fn lemma_digits_value_bounds(s: Seq<char>)
    requires
        all_digits(s),
    ensures
        0 <= digits_value(s) < pow10(s.len()),
    decreases s.len(),
{
    if s.len() > 0 {
        let front = s.drop_last();
        assert(is_digit(s.last()));
        assert forall|i: int| 0 <= i < front.len() implies is_digit(#[trigger] front[i]) by {
            assert(front[i] == s[i]);
        }
        lemma_digits_value_bounds(front);
    }
}

/// A run of digits spells zero exactly when every digit is a zero.
pub proof fn lemma_digits_value_zero(s: Seq<char>)
    requires
        all_digits(s),
    ensures
        digits_value(s) == 0 <==> forall|i: int| 0 <= i < s.len() ==> #[trigger] s[i] == '0',
    decreases s.len(),
{
    if s.len() > 0 {
        let front = s.drop_last();
        assert(is_digit(s.last()));
        assert forall|i: int| 0 <= i < front.len() implies is_digit(#[trigger] front[i]) by {
            assert(front[i] == s[i]);
        }
        lemma_digits_value_zero(front);
        lemma_digits_value_bounds(front);
        if digits_value(s) == 0 {
            assert(digits_value(front) == 0 && digit_value(s.last()) == 0);
            assert forall|i: int| 0 <= i < s.len() implies #[trigger] s[i] == '0' by {
                if i < front.len() {
                    assert(front[i] == s[i]);
                } else {
                    assert(s[i] == s.last());
                }
            }
        }
        if forall|i: int| 0 <= i < s.len() ==> #[trigger] s[i] == '0' {
            assert forall|i: int| 0 <= i < front.len() implies #[trigger] front[i] == '0' by {
                assert(front[i] == s[i]);
            }
            assert(s.last() == s[s.len() - 1]);
        }
    }
}

/// The digits at the front of a text are digits.
pub proof fn lemma_leading_digits_are_digits(s: Seq<char>)
    ensures
        0 <= leading_digits(s) <= s.len(),
        forall|i: int| 0 <= i < leading_digits(s) ==> is_digit(#[trigger] s[i]),
    decreases s.len(),
{
    if s.len() > 0 && is_digit(s[0]) {
        let rest = s.drop_first();
        lemma_leading_digits_are_digits(rest);
        assert forall|i: int| 0 <= i < leading_digits(s) implies is_digit(#[trigger] s[i]) by {
            if i > 0 {
                assert(rest[i - 1] == s[i]);
            }
        }
    }
}

/// A greater power of ten is a greater number.
pub proof fn lemma_pow10_monotone(a: nat, b: nat)
    requires
        a <= b,
    ensures
        1 <= pow10(a) <= pow10(b),
    decreases b,
{
    lemma_pow10_positive(a);
    if a < b {
        lemma_pow10_monotone(a, (b - 1) as nat);
    }
}

/// Ten to the power of thirty, written out.
pub proof fn lemma_pow10_thirty()
    ensures
        pow10(30) == 1_000_000_000_000_000_000_000_000_000_000,
{
    reveal_with_fuel(pow10, 31);
}

/// The digits of a numeral, as a whole number with the sign of the
/// numeral: the numeral spells `decimal_numerator(text)` times ten to the
/// power of `decimal_exponent(text)`.
pub open spec fn decimal_numerator(text: Seq<char>) -> int {
    if is_negative(text) {
        -digits_value(mantissa_digits(text))
    } else {
        digits_value(mantissa_digits(text))
    }
}

/// The power of ten that the digits of a numeral are to be multiplied by:
/// the exponent, less the number of digits after the point.
pub open spec fn decimal_exponent(text: Seq<char>) -> int {
    exponent_value(exponent_part(text)) - fraction_len(text)
}

/// The number `numerator` times ten to the power of `exponent` is at most
/// `observed / 1000`.
pub open spec fn is_at_most_millis(numerator: int, exponent: int, observed: int) -> bool {
    let shift = exponent + 3;
    if shift >= 0 {
        numerator * pow10(shift as nat) <= observed
    } else {
        numerator <= observed * pow10((-shift) as nat)
    }
}

/// The digits of a numeral that spells a number are digits, as many as
/// stand before and after the point.
pub proof fn lemma_mantissa_is_digits(text: Seq<char>)
    ensures
        all_digits(mantissa_digits(text)),
        mantissa_digits(text).len() == whole_len(text) + fraction_len(text),
        whole_len(text) >= 0,
        fraction_len(text) >= 0,
{
    let body = unsigned_part(text);
    lemma_leading_digits_are_digits(body);
    if has_point(text) {
        lemma_leading_digits_are_digits(body.skip(whole_len(text) + 1));
    }
    let digits = mantissa_digits(text);
    assert forall|i: int| 0 <= i < digits.len() implies is_digit(#[trigger] digits[i]) by {
        if i < whole_len(text) {
            assert(digits[i] == body[i]);
        } else {
            let j = i - whole_len(text);
            assert(digits[i] == fraction_part(text)[j]);
            assert(fraction_part(text)[j] == body.skip(whole_len(text) + 1)[j]);
        }
    }
}

/// A threshold compares with an observed temperature exactly as the number
/// that its numeral spells does: a temperature of `observed` thousandths of
/// a degree reaches the threshold exactly when the number is at most
/// `observed / 1000`.
pub proof fn law_threshold_is_exact(text: Seq<char>, observed: int)
    requires
        is_decimal(text),
    ensures
        threshold_reached(text, observed) <==> is_at_most_millis(
            decimal_numerator(text),
            decimal_exponent(text),
            observed,
        ),
{
    let digits = mantissa_digits(text);
    let n = digits.len() as int;
    let places = millis_places(text);
    let value = digits_value(digits);
    let shift = decimal_exponent(text) + 3;
    lemma_mantissa_is_digits(text);
    lemma_digits_value_bounds(digits);
    assert(shift == places - n);
    if shift >= 0 {
        let p = pow10(shift as nat);
        assert(!has_residue(digits, places));
        assert(shifted_value(digits, places) == value * p) by {
            if places == n {
                assert(digits.take(places) =~= digits);
                assert(value * p == value) by (nonlinear_arith)
                    requires
                        p == 1,
                ;
            }
        }
        assert((-value) * p == -(value * p)) by (nonlinear_arith);
    } else {
        let m = (-shift) as nat;
        let p = pow10(m);
        let kept = if places <= 0 {
            0
        } else {
            places
        };
        let head = digits.take(kept);
        let tail = digits.skip(kept);
        let front = digits_value(head);
        let rest = digits_value(tail);
        assert(digits =~= head + tail);
        lemma_digits_value_concat(head, tail);
        assert forall|i: int| 0 <= i < tail.len() implies is_digit(#[trigger] tail[i]) by {
            assert(tail[i] == digits[i + kept]);
        }
        lemma_digits_value_bounds(tail);
        lemma_digits_value_zero(tail);
        lemma_pow10_monotone(tail.len(), m);
        if has_residue(digits, places) {
            let i = choose|i: int| 0 <= i < digits.len() && places <= i && #[trigger] digits[i] != '0';
            assert(tail[i - kept] == digits[i]);
        }
        if rest != 0 {
            let j = choose|j: int| 0 <= j < tail.len() && #[trigger] tail[j] != '0';
            assert(digits[j + kept] == tail[j]);
        }
        assert(has_residue(digits, places) <==> rest != 0);
        assert(shifted_value(digits, places) == front) by {
            if places <= 0 {
                assert(head.len() == 0);
            }
        }
        assert(places > 0 ==> pow10(tail.len()) == p);
        assert(places <= 0 ==> front == 0);
        assert(front >= 0) by {
            assert forall|i: int| 0 <= i < head.len() implies is_digit(#[trigger] head[i]) by {
                assert(head[i] == digits[i]);
            }
            lemma_digits_value_bounds(head);
        }
        let q = pow10(tail.len());
        assert(value == front * q + rest);
        assert(0 <= rest < q);
        assert(1 <= q <= p);
        assert(front != 0 ==> q == p);
        assert((value <= observed * p) <==> (if rest == 0 {
            front <= observed
        } else {
            front + 1 <= observed
        })) by (nonlinear_arith)
            requires
                value == front * q + rest,
                0 <= rest < q,
                1 <= q <= p,
                front != 0 ==> q == p,
                front >= 0,
        ;
        assert((-value <= observed * p) <==> (-front <= observed)) by (nonlinear_arith)
            requires
                value == front * q + rest,
                0 <= rest < q,
                1 <= q <= p,
                front != 0 ==> q == p,
                front >= 0,
        ;
    }
}

} // verus!
