//! Temperatures as fixed-point numbers, and the notation in which a weather
//! restriction writes its threshold.
//!
//! A temperature is a whole number of thousandths of a degree Celsius. A
//! threshold is written as a numeral: an optional sign, then either
//!
//! - digits with an optional point among them (`15`, `15.5`, `15.`, `.5`;
//!   at least one digit), optionally followed by an exponent (`e` or `E`, an
//!   optional sign, one or more digits), or
//! - one of the words `inf`, `infinity` and `nan`, in upper or lower case.
//!
//! A numeral of the first kind spells a number, exactly: `1e-3` is one
//! thousandth. `inf` is a threshold that no temperature reaches, `-inf` one
//! that every temperature reaches, and `nan`, with or without a sign, one
//! that no temperature reaches.

use crate::promocode::decimal::{
    lemma_digits_value_bounds,
    lemma_pow10_monotone,
    lemma_pow10_thirty,
    pow10,
};
use vstd::prelude::*;

verus! {

/// One of the ten digits `0` to `9`.
pub open spec fn is_digit(c: char) -> bool {
    '0' <= c <= '9'
}

/// The number that a digit stands for.
pub open spec fn digit_value(c: char) -> int {
    c as u32 - '0' as u32
}

/// The text holds digits only.
pub open spec fn all_digits(s: Seq<char>) -> bool {
    forall|i: int| 0 <= i < s.len() ==> is_digit(#[trigger] s[i])
}

/// The number that a run of digits spells in base ten.
pub open spec fn digits_value(s: Seq<char>) -> int
    decreases s.len(),
{
    if s.len() == 0 {
        0
    } else {
        digits_value(s.drop_last()) * 10 + digit_value(s.last())
    }
}

/// How many digits stand at the front of `s`.
pub open spec fn leading_digits(s: Seq<char>) -> int
    decreases s.len(),
{
    if s.len() > 0 && is_digit(s[0]) {
        1 + leading_digits(s.drop_first())
    } else {
        0
    }
}

/// The numeral begins with `+` or `-`.
pub open spec fn has_sign(text: Seq<char>) -> bool {
    text.len() > 0 && (text[0] == '-' || text[0] == '+')
}

/// The numeral begins with `-`.
pub open spec fn is_negative(text: Seq<char>) -> bool {
    text.len() > 0 && text[0] == '-'
}

/// The numeral without its sign.
pub open spec fn unsigned_part(text: Seq<char>) -> Seq<char> {
    if has_sign(text) {
        text.skip(1)
    } else {
        text
    }
}

/// How many digits stand before the point.
pub open spec fn whole_len(text: Seq<char>) -> int {
    leading_digits(unsigned_part(text))
}

/// A point follows the digits at the front.
pub open spec fn has_point(text: Seq<char>) -> bool {
    let body = unsigned_part(text);
    whole_len(text) < body.len() && body[whole_len(text)] == '.'
}

/// How many digits stand after the point.
pub open spec fn fraction_len(text: Seq<char>) -> int {
    if has_point(text) {
        leading_digits(unsigned_part(text).skip(whole_len(text) + 1))
    } else {
        0
    }
}

/// Where the digits and the point end, counted from the end of the sign.
pub open spec fn mantissa_end(text: Seq<char>) -> int {
    if has_point(text) {
        whole_len(text) + 1 + fraction_len(text)
    } else {
        whole_len(text)
    }
}

/// The digits before the point.
pub open spec fn whole_part(text: Seq<char>) -> Seq<char> {
    unsigned_part(text).take(whole_len(text))
}

/// The digits after the point; empty where there is no point.
pub open spec fn fraction_part(text: Seq<char>) -> Seq<char> {
    if has_point(text) {
        unsigned_part(text).subrange(whole_len(text) + 1, mantissa_end(text))
    } else {
        Seq::empty()
    }
}

/// What follows the digits and the point: nothing, or an exponent.
pub open spec fn exponent_part(text: Seq<char>) -> Seq<char> {
    unsigned_part(text).skip(mantissa_end(text))
}

/// `s` is an exponent: `e` or `E`, an optional sign, one or more digits.
pub open spec fn is_exponent(s: Seq<char>) -> bool {
    &&& s.len() > 0
    &&& s[0] == 'e' || s[0] == 'E'
    &&& unsigned_part(s.skip(1)).len() > 0
    &&& all_digits(unsigned_part(s.skip(1)))
}

/// The number that an exponent spells; zero where there is none.
pub open spec fn exponent_value(s: Seq<char>) -> int {
    if s.len() == 0 {
        0
    } else if is_negative(s.skip(1)) {
        -digits_value(unsigned_part(s.skip(1)))
    } else {
        digits_value(unsigned_part(s.skip(1)))
    }
}

/// `text` spells a number: `[+-]? (digit+ | digit+ '.' digit* | digit* '.'
/// digit+) ([eE] [+-]? digit+)?`.
pub open spec fn is_decimal(text: Seq<char>) -> bool {
    &&& whole_len(text) + fraction_len(text) > 0
    &&& exponent_part(text).len() == 0 || is_exponent(exponent_part(text))
}

/// `s` is the word `lower`, each letter in lower or in upper case.
pub open spec fn spells(s: Seq<char>, lower: Seq<char>, upper: Seq<char>) -> bool {
    &&& s.len() == lower.len()
    &&& forall|i: int| 0 <= i < s.len() ==> #[trigger] s[i] == lower[i] || s[i] == upper[i]
}

/// `text` is `inf` or `infinity`, with or without a sign.
pub open spec fn is_infinity(text: Seq<char>) -> bool {
    ||| spells(unsigned_part(text), "inf"@, "INF"@)
    ||| spells(unsigned_part(text), "infinity"@, "INFINITY"@)
}

/// `text` is `nan`, with or without a sign.
pub open spec fn is_nan(text: Seq<char>) -> bool {
    spells(unsigned_part(text), "nan"@, "NAN"@)
}

/// `text` is a numeral: it spells a number, or it is one of the words.
pub open spec fn is_numeral(text: Seq<char>) -> bool {
    is_decimal(text) || is_infinity(text) || is_nan(text)
}

/// All the digits of the numeral, those before the point and those after.
pub open spec fn mantissa_digits(text: Seq<char>) -> Seq<char> {
    whole_part(text) + fraction_part(text)
}

/// How many of the numeral's digits stand at or above the thousandths,
/// once the exponent has moved the point; it is negative or beyond the
/// digits where the exponent moves the point past them.
pub open spec fn millis_places(text: Seq<char>) -> int {
    whole_len(text) + exponent_value(exponent_part(text)) + 3
}

/// The number that the first `places` digits spell, where zeros without end
/// follow the digits.
pub open spec fn shifted_value(digits: Seq<char>, places: int) -> int {
    if places <= 0 {
        0
    } else if places <= digits.len() {
        digits_value(digits.take(places))
    } else {
        digits_value(digits) * pow10((places - digits.len()) as nat)
    }
}

/// Something other than zero stands among the digits from `places` on.
pub open spec fn has_residue(digits: Seq<char>, places: int) -> bool {
    exists|i: int| 0 <= i < digits.len() && places <= i && #[trigger] digits[i] != '0'
}

/// The least temperature, in thousandths of a degree, that is not below the
/// number that `text` spells. An observed temperature reaches the threshold
/// exactly when it is at least this value.
pub open spec fn threshold_millis(text: Seq<char>) -> int {
    let digits = mantissa_digits(text);
    let places = millis_places(text);
    let magnitude = shifted_value(digits, places);
    if is_negative(text) {
        -magnitude
    } else if has_residue(digits, places) {
        magnitude + 1
    } else {
        magnitude
    }
}

/// Beyond this magnitude every threshold compares alike with every observed
/// temperature.
pub open spec fn threshold_limit() -> int {
    10_000_000_000_000_000_000
}

/// A threshold, held at the limit in magnitude.
pub open spec fn clamp_threshold(value: int) -> int {
    if value > threshold_limit() {
        threshold_limit()
    } else if value < -threshold_limit() {
        -threshold_limit()
    } else {
        value
    }
}

/// The threshold of a numeral as `parse_threshold` hands it out: that of a
/// number held at the limit, the limit below zero for `-inf`, and the limit
/// for `inf` and `nan`.
pub open spec fn numeral_threshold(text: Seq<char>) -> int {
    if is_decimal(text) {
        clamp_threshold(threshold_millis(text))
    } else if is_infinity(text) && is_negative(text) {
        -threshold_limit()
    } else {
        threshold_limit()
    }
}

/// An observed temperature of `observed` thousandths of a degree is not
/// below the threshold that `text` spells. `-inf` is reached by every
/// temperature; `inf`, `nan` and a text that is no numeral by none.
pub open spec fn threshold_reached(text: Seq<char>, observed: int) -> bool {
    if is_decimal(text) {
        threshold_millis(text) <= observed
    } else {
        is_infinity(text) && is_negative(text)
    }
}

/// Whether the character is one of the ten digits `0` to `9`.
pub fn char_is_digit(c: char) -> (res: bool)
    ensures
        res == is_digit(c),
{
    '0' <= c && c <= '9'
}

fn digit_of(c: char) -> (res: u128)
    requires
        is_digit(c),
    ensures
        res == digit_value(c),
        res <= 9,
{
    (c as u32 - '0' as u32) as u128
}

/// The characters of a string, one by one.
pub fn chars_of(text: &str) -> (res: Vec<char>)
    ensures
        res@ == text@,
{
    let mut chars: Vec<char> = Vec::new();
    for c in it: text.chars()
        invariant
            it.seq() == text@,
            chars@ == text@.take(it.index() as int),
    {
        chars.push(c);
        assert(text@.take(it.index() + 1) =~= text@.take(it.index() as int).push(c));
    }
    assert(text@.take(text@.len() as int) =~= text@);
    chars
}

proof fn lemma_leading_digits(s: Seq<char>, n: int)
    requires
        0 <= n <= s.len(),
        forall|j: int| 0 <= j < n ==> is_digit(#[trigger] s[j]),
        n == s.len() || !is_digit(s[n]),
    ensures
        leading_digits(s) == n,
    decreases n,
{
    if n > 0 {
        let rest = s.drop_first();
        assert forall|j: int| 0 <= j < n - 1 implies is_digit(#[trigger] rest[j]) by {
            assert(rest[j] == s[j + 1]);
        }
        lemma_leading_digits(rest, n - 1);
    }
}

/// The end of the run of digits that starts at `start`.
fn scan_digits(chars: &Vec<char>, start: usize) -> (end: usize)
    requires
        start <= chars.len(),
    ensures
        start <= end <= chars.len(),
        forall|j: int| start <= j < end ==> is_digit(#[trigger] chars@[j]),
        end == chars.len() || !is_digit(chars@[end as int]),
        leading_digits(chars@.subrange(start as int, chars.len() as int)) == end - start,
{
    let mut i: usize = start;
    while i < chars.len() && char_is_digit(chars[i])
        invariant
            start <= i <= chars.len(),
            forall|j: int| start <= j < i ==> is_digit(#[trigger] chars@[j]),
        decreases chars.len() - i,
    {
        i += 1;
    }
    proof {
        let tail = chars@.subrange(start as int, chars.len() as int);
        assert forall|j: int| 0 <= j < i - start implies is_digit(#[trigger] tail[j]) by {
            assert(tail[j] == chars@[start + j]);
        }
        lemma_leading_digits(tail, i - start);
    }
    i
}

/// Values are counted exactly up to this number and held at it beyond.
pub open spec fn value_cap() -> int {
    1_000_000_000_000_000_000_000_000_000_000
}

/// A value, held at the cap once it is passed.
pub open spec fn capped(value: int) -> int {
    if value > value_cap() {
        value_cap()
    } else {
        value
    }
}

/// The value of the digits in `start..end`, held at the cap once it is
/// passed.
fn capped_digits_value(chars: &Vec<char>, start: usize, end: usize) -> (res: u128)
    requires
        start <= end <= chars.len(),
        forall|j: int| start <= j < end ==> is_digit(#[trigger] chars@[j]),
    ensures
        res == capped(digits_value(chars@.subrange(start as int, end as int))),
        digits_value(chars@.subrange(start as int, end as int)) >= 0,
{
    let mut acc: u128 = 0;
    let mut i: usize = start;
    assert(chars@.subrange(start as int, start as int) =~= Seq::<char>::empty());
    while i < end
        invariant
            start <= i <= end <= chars.len(),
            forall|j: int| start <= j < end ==> is_digit(#[trigger] chars@[j]),
            acc == capped(digits_value(chars@.subrange(start as int, i as int))),
            digits_value(chars@.subrange(start as int, i as int)) >= 0,
        decreases end - i,
    {
        let d = digit_of(chars[i]);
        proof {
            let next = chars@.subrange(start as int, i + 1);
            assert(next.drop_last() =~= chars@.subrange(start as int, i as int));
            assert(next.last() == chars@[i as int]);
        }
        acc = acc * 10 + d;
        if acc > 1_000_000_000_000_000_000_000_000_000_000 {
            acc = 1_000_000_000_000_000_000_000_000_000_000;
        }
        i += 1;
    }
    acc
}

/// Whether a digit other than zero stands in `start..end`.
fn any_nonzero(chars: &Vec<char>, start: usize, end: usize) -> (res: bool)
    requires
        start <= end <= chars.len(),
    ensures
        res == exists|i: int| start <= i < end && #[trigger] chars@[i] != '0',
{
    let mut i: usize = start;
    while i < end
        invariant
            start <= i <= end <= chars.len(),
            forall|k: int| start <= k < i ==> #[trigger] chars@[k] == '0',
        decreases end - i,
    {
        if chars[i] != '0' {
            return true;
        }
        i += 1;
    }
    false
}

/// Whether what stands from `start` on is the word `lower`, each letter in
/// lower or in upper case.
fn spells_at(chars: &Vec<char>, start: usize, lower: &str, upper: &str) -> (res: bool)
    requires
        start <= chars.len(),
        lower@.len() == upper@.len(),
    ensures
        res == spells(chars@.subrange(start as int, chars.len() as int), lower@, upper@),
{
    let low = chars_of(lower);
    let up = chars_of(upper);
    let ghost word = chars@.subrange(start as int, chars.len() as int);
    if chars.len() - start != low.len() {
        return false;
    }
    let mut i: usize = 0;
    while i < low.len()
        invariant
            i <= low.len(),
            low@ == lower@,
            up@ == upper@,
            low.len() == up.len(),
            start + low.len() == chars.len(),
            word == chars@.subrange(start as int, chars.len() as int),
            forall|k: int| 0 <= k < i ==> #[trigger] word[k] == lower@[k] || word[k] == upper@[k],
        decreases low.len() - i,
    {
        let c = chars[start + i];
        assert(word[i as int] == c);
        if !(c == low[i] || c == up[i]) {
            return false;
        }
        i += 1;
    }
    true
}

/// The digits in `start..end`, added at the end of `out`.
fn append_range(out: &mut Vec<char>, chars: &Vec<char>, start: usize, end: usize)
    requires
        start <= end <= chars.len(),
    ensures
        final(out)@ == old(out)@ + chars@.subrange(start as int, end as int),
{
    let mut i: usize = start;
    assert(chars@.subrange(start as int, start as int) =~= Seq::<char>::empty());
    assert(out@ =~= old(out)@ + chars@.subrange(start as int, start as int));
    while i < end
        invariant
            start <= i <= end <= chars.len(),
            out@ == old(out)@ + chars@.subrange(start as int, i as int),
        decreases end - i,
    {
        out.push(chars[i]);
        assert(out@ =~= old(out)@ + chars@.subrange(start as int, i + 1));
        i += 1;
    }
}

/// The value of the first `true_places` of the digits, where zeros without
/// end follow them, held at the cap; and whether a digit other than zero
/// stands from there on. `places` is `true_places` itself, or both lie
/// beyond the cap on the same side, where they give the same answer.
fn shifted_digits(digits: &Vec<char>, places: i128, Ghost(true_places): Ghost<int>) -> (res: (
    u128,
    bool,
))
    requires
        all_digits(digits@),
        -value_cap() - 4 <= places <= value_cap() + 0x1_0000_0000_0000_0000 + 4,
        true_places == places || (places >= value_cap() && true_places >= places) || (places
            <= 0 && true_places <= places),
    ensures
        res.0 == capped(shifted_value(digits@, true_places)),
        res.1 == has_residue(digits@, true_places),
        shifted_value(digits@, true_places) >= 0,
{
    let n = digits.len();
    proof {
        lemma_digits_value_bounds(digits@);
    }
    if places <= 0 {
        let residue = any_nonzero(digits, 0, n);
        return (0, residue);
    }
    if places <= n as i128 {
        let taken = places as usize;
        assert(digits@.subrange(0, taken as int) =~= digits@.take(taken as int));
        let head = capped_digits_value(digits, 0, taken);
        let residue = any_nonzero(digits, taken, n);
        return (head, residue);
    }
    assert(digits@.subrange(0, n as int) =~= digits@);
    let head = capped_digits_value(digits, 0, n);
    let ghost value = digits_value(digits@);
    let ghost true_pad = true_places - n;
    let pad: i128 = places - n as i128;
    if head == 0 {
        assert(value * pow10(true_pad as nat) == 0) by (nonlinear_arith)
            requires
                value == 0,
        ;
        return (0, false);
    }
    let mut acc: u128 = head;
    let mut i: i128 = 0;
    assert(pow10(0) == 1);
    assert(value * pow10(0) == value) by (nonlinear_arith)
        requires
            pow10(0) == 1,
    ;
    while i < pad && acc < 1_000_000_000_000_000_000_000_000_000_000
        invariant
            0 <= i <= pad,
            value >= 1,
            acc == capped(value * pow10(i as nat)),
        decreases pad - i,
    {
        proof {
            let p = pow10(i as nat);
            let q = pow10((i + 1) as nat);
            assert(q == 10 * p);
            assert(value * q == (value * p) * 10) by (nonlinear_arith)
                requires
                    q == 10 * p,
            ;
        }
        acc = acc * 10;
        if acc > 1_000_000_000_000_000_000_000_000_000_000 {
            acc = 1_000_000_000_000_000_000_000_000_000_000;
        }
        i += 1;
    }
    proof {
        let reached = pow10(i as nat);
        let wanted = pow10(true_pad as nat);
        lemma_pow10_monotone(i as nat, true_pad as nat);
        assert(value * reached <= value * wanted) by (nonlinear_arith)
            requires
                value >= 1,
                reached <= wanted,
        ;
        if acc < value_cap() && true_pad != i {
            lemma_pow10_thirty();
            lemma_pow10_monotone(30, i as nat);
            assert(value * reached >= reached) by (nonlinear_arith)
                requires
                    value >= 1,
                    reached >= 1,
            ;
        }
    }
    (acc, false)
}

/// The empty text is no numeral.
pub proof fn lemma_empty_is_no_numeral(text: Seq<char>)
    requires
        text.len() == 0,
    ensures
        !is_numeral(text),
{
    reveal_strlit("inf");
    reveal_strlit("infinity");
    reveal_strlit("nan");
}

/// Where the sign of `text` ends.
spec fn sign_end(text: Seq<char>) -> int {
    if has_sign(text) {
        1
    } else {
        0
    }
}

/// Reads one of the words behind the sign.
fn read_word(chars: &Vec<char>, start: usize, negative: bool, Ghost(text): Ghost<Seq<char>>) -> (res:
    Option<i128>)
    requires
        chars@ == text,
        start == sign_end(text),
        negative == is_negative(text),
    ensures
        res is Some <==> is_infinity(text) || is_nan(text),
        res is Some ==> !is_decimal(text),
        res matches Some(value) ==> value == numeral_threshold(text),
{
    let ghost body = unsigned_part(text);
    assert(body =~= chars@.subrange(start as int, chars.len() as int));
    proof {
        reveal_strlit("inf");
        reveal_strlit("INF");
        reveal_strlit("infinity");
        reveal_strlit("INFINITY");
        reveal_strlit("nan");
        reveal_strlit("NAN");
    }
    if spells_at(chars, start, "inf", "INF") || spells_at(chars, start, "infinity", "INFINITY") {
        assert(body[0] == 'i' || body[0] == 'I');
        assert(leading_digits(body) == 0);
        return Some(
            if negative {
                -10_000_000_000_000_000_000
            } else {
                10_000_000_000_000_000_000
            },
        );
    }
    if spells_at(chars, start, "nan", "NAN") {
        assert(body[0] == 'n' || body[0] == 'N');
        assert(leading_digits(body) == 0);
        return Some(10_000_000_000_000_000_000);
    }
    None
}

/// Reads the digits and the point behind the sign: where the digits
/// before the point end, and where those after it begin and end.
fn read_mantissa(chars: &Vec<char>, start: usize, Ghost(text): Ghost<Seq<char>>) -> (res: (
    usize,
    usize,
    usize,
))
    requires
        chars@ == text,
        start == sign_end(text),
    ensures
        start <= res.0 <= res.1 <= res.2 <= chars.len(),
        whole_len(text) == res.0 - start,
        fraction_len(text) == res.2 - res.1,
        mantissa_end(text) == res.2 - start,
        whole_part(text) == chars@.subrange(start as int, res.0 as int),
        fraction_part(text) == chars@.subrange(res.1 as int, res.2 as int),
        exponent_part(text) == chars@.subrange(res.2 as int, chars.len() as int),
        all_digits(chars@.subrange(start as int, res.0 as int)),
        all_digits(chars@.subrange(res.1 as int, res.2 as int)),
{
    let len = chars.len();
    let ghost body = unsigned_part(text);
    assert(body =~= chars@.subrange(start as int, len as int));
    let whole_end = scan_digits(chars, start);
    let point = whole_end < len && chars[whole_end] == '.';
    let fraction_start: usize = if point {
        whole_end + 1
    } else {
        whole_end
    };
    let fraction_end = if point {
        scan_digits(chars, fraction_start)
    } else {
        whole_end
    };
    proof {
        assert(whole_len(text) == whole_end - start);
        if whole_end < len {
            assert(body[whole_end - start] == chars@[whole_end as int]);
        }
        assert(has_point(text) == point);
        if point {
            assert(body.skip(whole_end - start + 1) =~= chars@.subrange(
                fraction_start as int,
                len as int,
            ));
        }
        assert(fraction_len(text) == fraction_end - fraction_start);
        assert(whole_part(text) =~= chars@.subrange(start as int, whole_end as int));
        assert(fraction_part(text) =~= chars@.subrange(fraction_start as int, fraction_end as int));
        assert(exponent_part(text) =~= chars@.subrange(fraction_end as int, len as int));
    }
    (whole_end, fraction_start, fraction_end)
}

/// `size` is the number `exact`, or both lie at or beyond the cap on the
/// same side of zero.
spec fn stands_for(size: int, exact: int) -> bool {
    &&& -value_cap() <= size <= value_cap()
    &&& size == exact || (size == value_cap() && exact >= size) || (size == -value_cap() && exact
        <= size)
}

/// Reads what stands from `at` on as an exponent: zero where nothing
/// stands there, `None` where what stands there is no exponent.
fn read_exponent(chars: &Vec<char>, at: usize) -> (res: Option<i128>)
    requires
        at <= chars.len(),
    ensures
        res is Some <==> at == chars.len() || is_exponent(
            chars@.subrange(at as int, chars.len() as int),
        ),
        res matches Some(size) ==> stands_for(
            size as int,
            exponent_value(chars@.subrange(at as int, chars.len() as int)),
        ),
{
    let len = chars.len();
    let ghost rest = chars@.subrange(at as int, len as int);
    if at == len {
        return Some(0);
    }
    assert(rest[0] == chars@[at as int]);
    if !(chars[at] == 'e' || chars[at] == 'E') {
        return None;
    }
    let sign_at = at + 1;
    let signed = sign_at < len && (chars[sign_at] == '+' || chars[sign_at] == '-');
    let falling = sign_at < len && chars[sign_at] == '-';
    let digits_at: usize = if signed {
        sign_at + 1
    } else {
        sign_at
    };
    let digits_end = scan_digits(chars, digits_at);
    let ghost tail = rest.skip(1);
    let ghost spelled = unsigned_part(tail);
    proof {
        assert(tail =~= chars@.subrange(sign_at as int, len as int));
        if sign_at < len {
            assert(tail[0] == chars@[sign_at as int]);
        }
        assert(has_sign(tail) == signed);
        assert(is_negative(tail) == falling);
        assert(spelled =~= chars@.subrange(digits_at as int, len as int));
        if digits_end < len {
            assert(spelled[digits_end - digits_at] == chars@[digits_end as int]);
        }
        if digits_end == len {
            assert forall|j: int| 0 <= j < spelled.len() implies is_digit(#[trigger] spelled[j]) by {
                assert(spelled[j] == chars@[digits_at + j]);
            }
        }
    }
    if digits_end == digits_at || digits_end < len {
        return None;
    }
    let size = capped_digits_value(chars, digits_at, len);
    if falling {
        Some(-(size as i128))
    } else {
        Some(size as i128)
    }
}

/// Reads a threshold. The result is `None` exactly when `text` is no
/// numeral; otherwise it is the threshold in thousandths of a degree, held
/// at `threshold_limit()` in magnitude.
pub fn parse_threshold(text: &str) -> (res: Option<i128>)
    ensures
        res is Some <==> is_numeral(text@),
        res matches Some(value) ==> value == numeral_threshold(text@),
{
    let chars = chars_of(text);
    let len = chars.len();
    let start: usize = if len > 0 && (chars[0] == '-' || chars[0] == '+') {
        1
    } else {
        0
    };
    let negative = len > 0 && chars[0] == '-';
    match read_word(&chars, start, negative, Ghost(text@)) {
        Some(value) => {
            return Some(value);
        },
        None => {},
    }
    let (whole_end, fraction_start, fraction_end) = read_mantissa(&chars, start, Ghost(text@));
    if whole_end - start + (fraction_end - fraction_start) == 0 {
        return None;
    }
    let exponent = match read_exponent(&chars, fraction_end) {
        Some(size) => size,
        None => {
            return None;
        },
    };
    let mut digits: Vec<char> = Vec::new();
    append_range(&mut digits, &chars, start, whole_end);
    append_range(&mut digits, &chars, fraction_start, fraction_end);
    proof {
        assert(digits@ =~= mantissa_digits(text@));
        assert forall|j: int| 0 <= j < digits@.len() implies is_digit(#[trigger] digits@[j]) by {
            if j < whole_end - start {
                assert(digits@[j] == chars@.subrange(start as int, whole_end as int)[j]);
            } else {
                assert(digits@[j] == chars@.subrange(fraction_start as int, fraction_end as int)[j
                    - (whole_end - start)]);
            }
        }
    }
    let places: i128 = (whole_end - start) as i128 + exponent + 3;
    let (floor, residue) = shifted_digits(&digits, places, Ghost(millis_places(text@)));
    let magnitude: u128 = if floor >= 10_000_000_000_000_000_000 {
        10_000_000_000_000_000_000
    } else if residue && !negative {
        floor + 1
    } else {
        floor
    };
    if negative {
        Some(-(magnitude as i128))
    } else {
        Some(magnitude as i128)
    }
}

/// Whether `text` is a numeral.
pub fn str_is_numeral(text: &str) -> (res: bool)
    ensures
        res == is_numeral(text@),
{
    parse_threshold(text).is_some()
}

/// Whether an observed temperature of `observed` thousandths of a degree is
/// not below the threshold that `text` spells.
pub fn threshold_is_reached(text: &str, observed: i64) -> (res: bool)
    ensures
        res == threshold_reached(text@, observed as int),
{
    match parse_threshold(text) {
        Some(value) => value <= observed as i128,
        None => false,
    }
}

} // verus!
