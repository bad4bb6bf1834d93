//! Decimal numbers with seven places, and their text.
//!
//! A coordinate is held as a count of 1e-7 degrees, the resolution at which
//! OpenStreetMap stores node positions. The text of such a number is a plain
//! decimal: an optional minus sign, the whole part without leading zeros, and
//! the fractional part without trailing zeros, left out together with the
//! point when it is zero. Reading the text gives the number back.

use vstd::prelude::*;

verus! {

/// How many units make one whole.
pub const SCALE: u64 = 10_000_000;

/// How many decimal places a [`Decimal`] has.
pub const PLACES: u64 = 7;

/// A number with seven decimal places, held as `units / SCALE`.
#[derive(Clone, Copy, Debug, PartialEq, Eq, Structural)]
pub struct Decimal {
    pub units: i64,
}

/// Ten to the power `k`.
pub open spec fn pow10(k: nat) -> nat
    decreases k,
{
    if k == 0 {
        1
    } else {
        10 * pow10((k - 1) as nat)
    }
}

/// The distance of `n` from zero.
pub open spec fn magnitude(n: int) -> nat {
    if n < 0 {
        (-n) as nat
    } else {
        n as nat
    }
}

/// The character of one decimal digit: `'0'` for 0 up to `'9'` for 9.
pub open spec fn digit_char(d: int) -> char
    recommends
        0 <= d < 10,
{
    (('0' as u8) + d) as u8 as char
}

/// The digits of a natural number, most significant first; `"0"` for zero.
pub open spec fn natural_text(n: nat) -> Seq<char>
    decreases n,
{
    if n < 10 {
        seq![digit_char(n as int)]
    } else {
        natural_text(n / 10).push(digit_char((n % 10) as int))
    }
}

/// The digits of the fraction `part / 10^places`, without trailing zeros:
/// empty when `part` is zero.
pub open spec fn fraction_text(part: nat, places: nat) -> Seq<char>
    recommends
        part < pow10(places),
    decreases places,
{
    if part == 0 || places == 0 {
        Seq::empty()
    } else {
        let unit = pow10((places - 1) as nat);
        seq![digit_char((part / unit) as int)] + fraction_text(part % unit, (places - 1) as nat)
    }
}

/// A minus sign for a negative number, nothing otherwise.
pub open spec fn sign_text(n: int) -> Seq<char> {
    if n < 0 {
        seq!['-']
    } else {
        Seq::empty()
    }
}

/// The point and the fractional digits of `part / SCALE`, or nothing when
/// `part` is zero.
pub open spec fn point_text(part: nat) -> Seq<char> {
    if part == 0 {
        Seq::empty()
    } else {
        seq!['.'] + fraction_text(part, PLACES as nat)
    }
}

/// The text of an integer.
pub open spec fn integer_text(n: int) -> Seq<char> {
    sign_text(n) + natural_text(magnitude(n))
}

/// The text of the number `units / SCALE`.
pub open spec fn decimal_text(units: int) -> Seq<char> {
    let m = magnitude(units);
    sign_text(units) + natural_text(m / (SCALE as nat)) + point_text(m % (SCALE as nat))
}

/// Whether a character is a decimal digit.
pub open spec fn is_digit(c: char) -> bool {
    '0' <= c <= '9'
}

/// The number that a decimal digit stands for.
pub open spec fn digit_value(c: char) -> nat
    recommends
        is_digit(c),
{
    (c as int - '0' as int) as nat
}

/// The natural number that a sequence of digits denotes, read from the
/// most significant digit; zero for no digits.
pub open spec fn natural_value(digits: Seq<char>) -> nat
    decreases digits.len(),
{
    if digits.len() == 0 {
        0
    } else {
        10 * natural_value(digits.drop_last()) + digit_value(digits.last())
    }
}

/// The numerator over `10^places` that a sequence of fractional digits
/// denotes: digits that are not written count as zeros.
pub open spec fn fraction_value(digits: Seq<char>, places: nat) -> nat
    decreases places,
{
    if digits.len() == 0 || places == 0 {
        0
    } else {
        digit_value(digits[0]) * pow10((places - 1) as nat) + fraction_value(
            digits.drop_first(),
            (places - 1) as nat,
        )
    }
}

/// Where the decimal point stands in a text: the index of the first `'.'`,
/// or the text's length if it has none.
pub open spec fn point_index(text: Seq<char>) -> int
    decreases text.len(),
{
    if text.len() == 0 || text[0] == '.' {
        0
    } else {
        1 + point_index(text.drop_first())
    }
}

/// The count of units that an unsigned decimal text denotes: the digits
/// before the point as wholes, the digits after it as a fraction.
pub open spec fn unsigned_value(text: Seq<char>) -> nat {
    let at = point_index(text);
    let part = if at < text.len() {
        fraction_value(text.skip(at + 1), PLACES as nat)
    } else {
        0
    };
    natural_value(text.take(at)) * (SCALE as nat) + part
}

/// The integer that an integer text denotes.
pub open spec fn integer_value(text: Seq<char>) -> int {
    if text.len() > 0 && text[0] == '-' {
        -(natural_value(text.drop_first()) as int)
    } else {
        natural_value(text) as int
    }
}

/// The count of units that a decimal text denotes.
pub open spec fn decimal_value(text: Seq<char>) -> int {
    if text.len() > 0 && text[0] == '-' {
        -(unsigned_value(text.drop_first()) as int)
    } else {
        unsigned_value(text) as int
    }
}

/// `String::push` of the standard library appends the character to the end
/// of the string.
pub assume_specification[ String::push ](text: &mut String, c: char)
    ensures
        final(text)@ == old(text)@.push(c),
;

fn digit(d: u64) -> (c: char)
    requires
        d < 10,
    ensures
        c == digit_char(d as int),
{
    (('0' as u8) + (d as u8)) as char
}

fn magnitude_of(n: i64) -> (m: u64)
    ensures
        m == magnitude(n as int),
{
    if n >= 0 {
        n as u64
    } else {
        ((-(n + 1)) as u64) + 1
    }
}

/// Appends the digits of `n` to `out`.
fn push_natural(out: &mut String, n: u64)
    ensures
        final(out)@ == old(out)@ + natural_text(n as nat),
    decreases n,
{
    if n >= 10 {
        push_natural(out, n / 10);
    }
    out.push(digit(n % 10));
}

/// Appends the fractional digits of `part / SCALE` to `out`.
fn push_fraction(out: &mut String, part: u64)
    requires
        part < SCALE,
    ensures
        final(out)@ == old(out)@ + fraction_text(part as nat, PLACES as nat),
{
    let mut rest: u64 = part;
    let mut unit: u64 = 1_000_000;
    let mut places: u64 = PLACES;
    proof {
        reveal_with_fuel(pow10, 8);
    }
    while rest != 0
        invariant
            places <= PLACES,
            rest < pow10(places as nat),
            places >= 1 ==> unit == pow10((places - 1) as nat),
            out@ + fraction_text(rest as nat, places as nat) == old(out)@ + fraction_text(
                part as nat,
                PLACES as nat,
            ),
        decreases places,
    {
        let ghost before = out@;
        let d: u64 = rest / unit;
        assert(d < 10) by (nonlinear_arith)
            requires
                d == rest / unit,
                rest < 10 * unit,
                unit > 0,
        ;
        out.push(digit(d));
        proof {
            let tail = fraction_text((rest % unit) as nat, (places - 1) as nat);
            assert(fraction_text(rest as nat, places as nat) == seq![digit_char(d as int)] + tail);
            assert(before.push(digit_char(d as int)) + tail =~= before + (seq![
                digit_char(d as int),
            ] + tail));
        }
        rest = rest % unit;
        unit = unit / 10;
        places = places - 1;
    }
}

/// The text of a natural number: `"0"`, `"2000"`.
pub fn natural_to_text(n: u64) -> (text: String)
    ensures
        text@ == natural_text(n as nat),
{
    let mut text = String::new();
    push_natural(&mut text, n);
    text
}

/// The text of an integer: `"-17"`, `"0"`, `"42"`.
pub fn integer_to_text(n: i64) -> (text: String)
    ensures
        text@ == integer_text(n as int),
{
    let mut text = String::new();
    if n < 0 {
        text.push('-');
    }
    push_natural(&mut text, magnitude_of(n));
    text
}

impl Decimal {
    /// The number that `units` counts.
    pub fn new(units: i64) -> (d: Decimal)
        ensures
            d.units == units,
    {
        Decimal { units }
    }

    /// The text of the number: `"12.34"`, `"-0.5"`, `"56"`.
    pub fn to_text(&self) -> (text: String)
        ensures
            text@ == decimal_text(self.units as int),
    {
        let m = magnitude_of(self.units);
        let mut text = String::new();
        if self.units < 0 {
            text.push('-');
        }
        push_natural(&mut text, m / SCALE);
        let part: u64 = m % SCALE;
        if part != 0 {
            text.push('.');
            push_fraction(&mut text, part);
        }
        text
    }
}

proof fn lemma_digit(d: int)
    requires
        0 <= d < 10,
    ensures
        is_digit(digit_char(d)),
        digit_value(digit_char(d)) == d,
        digit_char(d) != '.',
        digit_char(d) != '-',
{
}

proof fn lemma_natural_text(n: nat)
    ensures
        natural_text(n).len() >= 1,
        forall|i: int| 0 <= i < natural_text(n).len() ==> is_digit(#[trigger] natural_text(n)[i]),
        natural_value(natural_text(n)) == n,
    decreases n,
{
    let text = natural_text(n);
    lemma_digit((n % 10) as int);
    if n < 10 {
        assert(text.drop_last() =~= Seq::<char>::empty());
        assert(natural_value(text.drop_last()) == 0);
    } else {
        lemma_natural_text(n / 10);
        assert(text.drop_last() =~= natural_text(n / 10));
    }
}

proof fn lemma_fraction_text(part: nat, places: nat)
    requires
        part < pow10(places),
    ensures
        forall|i: int|
            0 <= i < fraction_text(part, places).len() ==> is_digit(
                #[trigger] fraction_text(part, places)[i],
            ),
        fraction_value(fraction_text(part, places), places) == part,
    decreases places,
{
    if part != 0 && places != 0 {
        let unit = pow10((places - 1) as nat);
        let d = part / unit;
        let rest = fraction_text(part % unit, (places - 1) as nat);
        let text = fraction_text(part, places);
        assert(unit > 0 && d < 10 && part == d * unit + part % unit && part % unit < unit)
            by (nonlinear_arith)
            requires
                part < 10 * unit,
                unit >= 1,
                d == part / unit,
        ;
        lemma_digit(d as int);
        lemma_fraction_text(part % unit, (places - 1) as nat);
        assert(text == seq![digit_char(d as int)] + rest);
        assert(text[0] == digit_char(d as int));
        assert(text.drop_first() =~= rest);
        assert forall|i: int| 0 <= i < text.len() implies is_digit(#[trigger] text[i]) by {
            if i > 0 {
                assert(text[i] == rest[i - 1]);
            }
        }
    }
}

proof fn lemma_point_index(before: Seq<char>, after: Seq<char>)
    requires
        forall|i: int| 0 <= i < before.len() ==> #[trigger] before[i] != '.',
    ensures
        point_index(before + after) == before.len() + point_index(after),
    decreases before.len(),
{
    let text = before + after;
    if before.len() == 0 {
        assert(text =~= after);
    } else {
        assert(text[0] == before[0]);
        assert(text.drop_first() =~= before.drop_first() + after);
        lemma_point_index(before.drop_first(), after);
    }
}

/// Reading the text of an integer gives the integer back.
pub proof fn law_integer_text_round_trip(n: int)
    ensures
        integer_value(integer_text(n)) == n,
{
    let digits = natural_text(magnitude(n));
    let text = integer_text(n);
    lemma_natural_text(magnitude(n));
    if n < 0 {
        assert(text[0] == '-');
        assert(text.drop_first() =~= digits);
    } else {
        assert(text =~= digits);
        assert(is_digit(text[0]));
    }
}

/// Reading the text of a decimal gives the decimal back: the text denotes
/// exactly the number it was made from.
pub proof fn law_decimal_text_round_trip(units: int)
    ensures
        decimal_value(decimal_text(units)) == units,
{
    let m = magnitude(units);
    let scale = SCALE as nat;
    let whole = natural_text(m / scale);
    let part = m % scale;
    let tail = point_text(part);
    let body = whole + tail;
    let text = decimal_text(units);
    lemma_natural_text(m / scale);
    assert forall|i: int| 0 <= i < whole.len() implies #[trigger] whole[i] != '.' by {
        assert(is_digit(whole[i]));
    }
    lemma_point_index(whole, tail);
    assert(body.take(whole.len() as int) =~= whole);
    if part == 0 {
        assert(point_index(tail) == 0);
        assert(body =~= whole);
    } else {
        let digits = fraction_text(part, PLACES as nat);
        assert(pow10(PLACES as nat) == scale) by {
            reveal_with_fuel(pow10, 8);
        }
        lemma_fraction_text(part, PLACES as nat);
        assert(tail[0] == '.');
        assert(point_index(tail) == 0);
        assert(body.skip(whole.len() as int + 1) =~= digits);
    }
    assert(unsigned_value(body) == m);
    if units < 0 {
        assert(text[0] == '-');
        assert(text.drop_first() =~= body);
    } else {
        assert(text =~= body);
        assert(text[0] == whole[0]);
        assert(is_digit(whole[0]));
    }
}

/// Different decimals have different texts.
pub proof fn law_decimal_text_injective(a: int, b: int)
    requires
        decimal_text(a) == decimal_text(b),
    ensures
        a == b,
{
    law_decimal_text_round_trip(a);
    law_decimal_text_round_trip(b);
}

} // verus!
