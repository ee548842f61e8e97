//! Durations as people write them, such as "2m30s".
use vstd::arithmetic::power::pow;
use vstd::prelude::*;
use crate::cli::Span;
use crate::outside::{humantime_parse, humantime_reading};
use crate::text::{
    char_is_white, chars_of, decimal, is_white, law_decimal_reads_back, positional,
};

verus! {

/// One more than the largest number that humantime reads, which is also one
/// more than the largest number of seconds that a duration can have.
pub open spec fn too_many() -> nat {
    0x1_0000_0000_0000_0000
}

/// The largest denominator that a decimal fraction can have.
pub open spec fn finest() -> nat {
    10_000_000_000_000_000_000
}

/// A number in a text, as far as it has been read. Digits that make a number
/// too large, or a fraction too fine, are not counted.
pub ghost struct Numeral {
    pub whole: nat,
    pub numerator: nat,
    pub denominator: nat,
    /// Whether the decimal point has been passed.
    pub fraction: bool,
}

impl Numeral {
    /// Before the first digit.
    pub open spec fn blank() -> Numeral {
        Numeral { whole: 0, numerator: 0, denominator: 1, fraction: false }
    }

    /// With one digit more.
    pub open spec fn digit(self, d: nat) -> Numeral {
        if !self.fraction {
            Numeral {
                whole: if self.whole * 10 + d > too_many() {
                    too_many()
                } else {
                    self.whole * 10 + d
                },
                ..self
            }
        } else if self.denominator * 10 <= finest() {
            Numeral {
                numerator: self.numerator * 10 + d,
                denominator: self.denominator * 10,
                ..self
            }
        } else {
            self
        }
    }

    /// With the decimal point.
    pub open spec fn point(self) -> Numeral {
        Numeral { fraction: true, ..self }
    }

    /// That many of `unit`.
    pub open spec fn times(self, unit: nat) -> nat {
        self.whole * unit + self.numerator * unit / self.denominator
    }
}

/// Whether `c` is at `i` in `s`.
pub open spec fn at(s: Seq<char>, i: int, c: char) -> bool {
    i < s.len() && s[i] == c
}

/// The nanoseconds in the unit whose name is at the front of `s`, by its
/// first letters; none where there is no such unit.
pub open spec fn unit_nanos(s: Seq<char>) -> nat {
    let c = s[0];
    if c == 'n' {
        1
    } else if c == 'u' || c == '\u{b5}' {
        1_000
    } else if c == 'm' && (at(s, 1, 's') || at(s, 1, 'i') && at(s, 2, 'l')) {
        1_000_000
    } else if c == 's' {
        1_000_000_000
    } else if c == 'M' || c == 'm' && at(s, 1, 'o') {
        2_630_016_000_000_000
    } else if c == 'm' {
        60_000_000_000
    } else if c == 'h' {
        3_600_000_000_000
    } else if c == 'd' {
        86_400_000_000_000
    } else if c == 'w' {
        604_800_000_000_000
    } else if c == 'y' {
        31_557_600_000_000_000
    } else {
        0
    }
}

/// The nanoseconds that the spans in `s` add up to, where `number` is the
/// number that `s` goes on with, and `unit` says whether its unit has begun.
/// White space ends nothing.
pub open spec fn spans_nanos(s: Seq<char>, number: Numeral, unit: bool) -> nat
    decreases s.len(),
{
    if s.len() == 0 {
        0
    } else {
        let c = s[0];
        let rest = s.skip(1);
        if '0' <= c <= '9' {
            let d = (c as int - 48) as nat;
            if unit {
                spans_nanos(rest, Numeral::blank().digit(d), false)
            } else {
                spans_nanos(rest, number.digit(d), false)
            }
        } else if is_white(c) || unit {
            spans_nanos(rest, number, unit)
        } else if c == '.' && !number.fraction {
            spans_nanos(rest, number.point(), false)
        } else {
            number.times(unit_nanos(s)) + spans_nanos(rest, number, true)
        }
    }
}

/// Whether the spans in a text add up to a number of seconds that a duration
/// can have.
pub open spec fn in_range(s: Seq<char>) -> bool {
    spans_nanos(s, Numeral::blank(), false) < too_many() * 1_000_000_000
}

/// Why a text gives no duration.
#[derive(Debug, Clone, Copy, PartialEq, Eq, Structural)]
pub enum DurationError {
    /// The text is not a duration.
    Malformed,
    /// The text names more seconds than a duration can have.
    OutOfRange,
}

/// What a text stands for as a duration, for the given reading of it.
pub open spec fn duration_of(text: Seq<char>, reading: Option<(u64, u32)>) -> Result<Span, DurationError> {
    if !in_range(text) {
        Err(DurationError::OutOfRange)
    } else {
        match reading {
            Some((secs, nanos)) => Ok(Span { secs, nanos }),
            None => Err(DurationError::Malformed),
        }
    }
}

/// The nanoseconds in the unit whose name is in `chars` at `i`.
fn unit_at(chars: &Vec<char>, i: usize) -> (nanos: u128)
    requires
        i < chars.len(),
    ensures
        nanos == unit_nanos(chars@.skip(i as int)),
        nanos <= 31_557_600_000_000_000,
{
    let c: char = chars[i];
    let ghost rest = chars@.skip(i as int);
    assert(rest[0] == c);
    assert(i + 1 < chars.len() ==> rest[1] == chars[i + 1]);
    assert(i + 2 < chars.len() ==> rest[2] == chars[i + 2]);
    let left: usize = chars.len() - i;
    let milli = left > 1 && (chars[i + 1] == 's' || (chars[i + 1] == 'i' && left > 2 && chars[i + 2]
        == 'l'));
    let month = left > 1 && chars[i + 1] == 'o';
    if c == 'n' {
        1
    } else if c == 'u' || c == '\u{b5}' {
        1_000
    } else if c == 'm' && milli {
        1_000_000
    } else if c == 's' {
        1_000_000_000
    } else if c == 'M' || (c == 'm' && month) {
        2_630_016_000_000_000
    } else if c == 'm' {
        60_000_000_000
    } else if c == 'h' {
        3_600_000_000_000
    } else if c == 'd' {
        86_400_000_000_000
    } else if c == 'w' {
        604_800_000_000_000
    } else if c == 'y' {
        31_557_600_000_000_000
    } else {
        0
    }
}

/// `whole` and `numerator / denominator` of `unit`.
fn span_nanos(whole: u128, numerator: u128, denominator: u128, unit: u128) -> (nanos: u128)
    requires
        whole <= too_many(),
        numerator < denominator <= finest(),
        unit <= 31_557_600_000_000_000,
    ensures
        nanos == whole * unit + (numerator * unit) / (denominator as int),
        nanos <= (too_many() + finest()) * 31_557_600_000_000_000,
{
    assert(whole * unit <= too_many() * 31_557_600_000_000_000) by (nonlinear_arith)
        requires
            0 <= whole <= too_many(),
            0 <= unit <= 31_557_600_000_000_000,
    ;
    assert(numerator * unit <= finest() * 31_557_600_000_000_000) by (nonlinear_arith)
        requires
            0 <= numerator <= finest(),
            0 <= unit <= 31_557_600_000_000_000,
    ;
    let parts: u128 = numerator * unit;
    let part: u128 = parts / denominator;
    assert(part <= parts) by (nonlinear_arith)
        requires
            part == parts as int / denominator as int,
            denominator >= 1,
            parts >= 0,
    ;
    whole * unit + part
}

/// Whether the spans in a text add up to a number of seconds that a duration
/// can have.
pub fn text_in_range(text: &str) -> (fits: bool)
    ensures
        fits == in_range(text@),
{
    let chars = chars_of(text);
    let most: u128 = 0x1_0000_0000_0000_0000;
    let limit: u128 = most * 1_000_000_000;
    let mut sum: u128 = 0;
    let mut whole: u128 = 0;
    let mut numerator: u128 = 0;
    let mut denominator: u128 = 1;
    let mut fraction = false;
    let mut unit = false;
    let mut i: usize = 0;
    assert(text@.skip(0) =~= text@);
    while i < chars.len()
        invariant
            i <= chars.len(),
            chars@ == text@,
            most == too_many(),
            limit == too_many() * 1_000_000_000,
            sum < limit,
            whole <= too_many(),
            numerator < denominator <= finest(),
            spans_nanos(text@, Numeral::blank(), false) == sum + spans_nanos(
                text@.skip(i as int),
                Numeral {
                    whole: whole as nat,
                    numerator: numerator as nat,
                    denominator: denominator as nat,
                    fraction,
                },
                unit,
            ),
        decreases chars.len() - i,
    {
        let c: char = chars[i];
        let code: u32 = c as u32;
        let ghost left = text@.skip(i as int);
        assert(left[0] == c);
        assert(left.skip(1) =~= text@.skip(i + 1));
        if '0' <= c && c <= '9' {
            let d: u128 = (code - 48) as u128;
            if unit {
                whole = 0;
                numerator = 0;
                denominator = 1;
                fraction = false;
                unit = false;
            }
            if !fraction {
                whole = whole * 10 + d;
                if whole > most {
                    whole = most;
                }
            } else if denominator * 10 <= 10_000_000_000_000_000_000 {
                numerator = numerator * 10 + d;
                denominator = denominator * 10;
            }
        } else if !char_is_white(c) && !unit {
            if c == '.' && !fraction {
                fraction = true;
            } else {
                sum = sum + span_nanos(whole, numerator, denominator, unit_at(&chars, i));
                unit = true;
            }
        }
        i = i + 1;
        if sum >= limit {
            return false;
        }
    }
    true
}

/// Reads a duration such as "10s" or "2m30s".
pub fn parse_duration(text: &str) -> (duration: Result<Span, DurationError>)
    ensures
        duration == duration_of(text@, humantime_reading(text@)),
        duration matches Ok(span) ==> span.valid(),
{
    if !text_in_range(text) {
        return Err(DurationError::OutOfRange);
    }
    match humantime_parse(text) {
        Some((secs, nanos)) => Ok(Span { secs, nanos }),
        None => Err(DurationError::Malformed),
    }
}

/// A text in range is the length of time that it reads as, or no duration;
/// one that is not in range is never taken.
pub proof fn law_durations_are_what_they_read_as(text: Seq<char>, secs: u64, nanos: u32)
    ensures
        in_range(text) ==> (duration_of(text, Some((secs, nanos))) matches Ok(span) && span.secs
            == secs && span.nanos == nanos),
        in_range(text) ==> duration_of(text, None) == Err::<Span, _>(DurationError::Malformed),
        !in_range(text) ==> duration_of(text, Some((secs, nanos))) == Err::<Span, _>(
            DurationError::OutOfRange,
        ) && duration_of(text, None) == Err::<Span, _>(DurationError::OutOfRange),
{
}

/// How long the units are, by the names that they go by.
pub proof fn law_units_are_as_long_as_they_should_be(s: Seq<char>)
    requires
        s.len() > 0,
    ensures
        s[0] == 'n' ==> unit_nanos(s) == 1,
        s[0] == 'u' || s[0] == '\u{b5}' ==> unit_nanos(s) == 1_000,
        s[0] == 's' ==> unit_nanos(s) == 1_000_000_000,
        s[0] == 'h' ==> unit_nanos(s) == 60 * 60 * 1_000_000_000,
        s[0] == 'd' ==> unit_nanos(s) == 24 * 60 * 60 * 1_000_000_000,
        s[0] == 'w' ==> unit_nanos(s) == 7 * 24 * 60 * 60 * 1_000_000_000,
        s[0] == 'y' ==> unit_nanos(s) == 31_557_600 * 1_000_000_000,
        s[0] == 'M' ==> unit_nanos(s) == 2_630_016 * 1_000_000_000,
        s[0] == 'm' && s.len() > 1 && s[1] == 'o' ==> unit_nanos(s) == 2_630_016 * 1_000_000_000,
        s[0] == 'm' && s.len() > 1 && s[1] == 's' ==> unit_nanos(s) == 1_000_000,
        s[0] == 'm' && s.len() > 2 && s[1] == 'i' && s[2] == 'l' ==> unit_nanos(s) == 1_000_000,
        s[0] == 'm' && s.len() == 1 ==> unit_nanos(s) == 60 * 1_000_000_000,
        s[0] == 'm' && s.len() > 1 && '0' <= s[1] <= '9' ==> unit_nanos(s) == 60 * 1_000_000_000,
        s[0] == 'm' && s.len() > 2 && s[1] == 'i' && s[2] == 'n' ==> unit_nanos(s) == 60
            * 1_000_000_000,
{
}

proof fn lemma_positional_grows(s: Seq<char>, k: int)
    requires
        0 <= k <= s.len(),
        forall|i: int| 0 <= i < s.len() ==> '0' <= #[trigger] s[i] <= '9',
    ensures
        positional(s.take(k), 10) <= positional(s, 10),
    decreases s.len() - k,
{
    if k < s.len() {
        lemma_positional_grows(s, k + 1);
        let more = s.take(k + 1);
        assert(more.drop_last() =~= s.take(k));
        assert(more.last() == s[k]);
    } else {
        assert(s.take(k) =~= s);
    }
}

proof fn lemma_digits_are_read(s: Seq<char>, tail: Seq<char>, k: int)
    requires
        0 <= k <= s.len(),
        forall|i: int| 0 <= i < s.len() ==> '0' <= #[trigger] s[i] <= '9',
        positional(s, 10) < too_many(),
    ensures
        spans_nanos(s + tail, Numeral::blank(), false) == spans_nanos(
            s.skip(k) + tail,
            Numeral { whole: positional(s.take(k), 10), ..Numeral::blank() },
            false,
        ),
    decreases k,
{
    if k == 0 {
        assert(s.skip(0) =~= s);
        assert(s.take(0).len() == 0);
    } else {
        lemma_digits_are_read(s, tail, k - 1);
        lemma_positional_grows(s, k);
        let whole = s.skip(k - 1) + tail;
        let value = positional(s.take(k - 1), 10);
        assert(s.take(k).drop_last() =~= s.take(k - 1));
        assert(s.take(k).last() == s[k - 1]);
        assert(whole[0] == s[k - 1]);
        assert(whole.skip(1) =~= s.skip(k) + tail);
        let d = (s[k - 1] as int - 48) as nat;
        assert(positional(s.take(k), 10) == value * 10 + d);
        assert((Numeral { whole: value, ..Numeral::blank() }).digit(d) == (Numeral {
            whole: value * 10 + d,
            ..Numeral::blank()
        }));
    }
}

proof fn lemma_unit_is_passed(unit: Seq<char>, tail: Seq<char>, number: Numeral)
    requires
        forall|i: int| 0 <= i < unit.len() ==> !('0' <= #[trigger] unit[i] <= '9'),
        tail.len() == 0 || '0' <= tail[0] <= '9',
    ensures
        spans_nanos(unit + tail, number, true) == spans_nanos(tail, Numeral::blank(), false),
    decreases unit.len(),
{
    let s = unit + tail;
    if unit.len() > 0 {
        assert(s[0] == unit[0]);
        assert(s.skip(1) =~= unit.skip(1) + tail);
        assert forall|i: int| 0 <= i < unit.skip(1).len() implies !('0' <= #[trigger] unit.skip(
            1,
        )[i] <= '9') by {
            assert(unit.skip(1)[i] == unit[i + 1]);
        }
        lemma_unit_is_passed(unit.skip(1), tail, number);
    } else {
        assert(s =~= tail);
    }
}

/// Numbers with units add up: a whole number and a unit count for that many
/// of the unit, and what follows adds to it.
pub proof fn law_spans_add_up(n: nat, unit: Seq<char>, tail: Seq<char>)
    requires
        n < 0x1_0000_0000_0000_0000,
        unit.len() > 0,
        forall|i: int|
            0 <= i < unit.len() ==> 'a' <= #[trigger] unit[i] <= 'z' || 'A' <= unit[i] <= 'Z',
        tail.len() == 0 || '0' <= tail[0] <= '9',
    ensures
        spans_nanos(decimal(n) + unit + tail, Numeral::blank(), false) == n * unit_nanos(
            unit + tail,
        ) + spans_nanos(tail, Numeral::blank(), false),
        spans_nanos(Seq::<char>::empty(), Numeral::blank(), false) == 0,
{
    let digits = decimal(n);
    let behind = unit + tail;
    let number = Numeral { whole: n, ..Numeral::blank() };
    law_decimal_reads_back(n);
    lemma_digits_are_read(digits, behind, digits.len() as int);
    assert(digits + unit + tail =~= digits + behind);
    assert(digits.take(digits.len() as int) =~= digits);
    assert(digits.skip(digits.len() as int) + behind =~= behind);
    assert(behind[0] == unit[0]);
    assert(behind.skip(1) =~= unit.skip(1) + tail);
    assert forall|i: int| 0 <= i < unit.skip(1).len() implies !('0' <= #[trigger] unit.skip(1)[i]
        <= '9') by {
        assert(unit.skip(1)[i] == unit[i + 1]);
    }
    lemma_unit_is_passed(unit.skip(1), tail, number);
    let nanos = unit_nanos(behind);
    assert(0 * nanos / 1 == 0) by (nonlinear_arith);
    assert(number.times(nanos) == n * nanos);
}

/// Spans are in range exactly if they add up to fewer seconds than do not
/// fit in 64 bits.
pub proof fn law_range_ends_where_seconds_do(n: nat, text: Seq<char>)
    requires
        n < 0x1_0000_0000_0000_0000,
    ensures
        in_range(decimal(n) + "s"@),
        in_range(decimal(n) + "m"@) <==> n * 60 < 0x1_0000_0000_0000_0000,
        in_range(decimal(n) + "h"@) <==> n * 3600 < 0x1_0000_0000_0000_0000,
        in_range(text) <==> spans_nanos(text, Numeral::blank(), false) < 0x1_0000_0000_0000_0000
            * 1_000_000_000,
{
    reveal_strlit("s");
    reveal_strlit("m");
    reveal_strlit("h");
    let none = Seq::<char>::empty();
    law_spans_add_up(n, "s"@, none);
    law_spans_add_up(n, "m"@, none);
    law_spans_add_up(n, "h"@, none);
    assert("s"@ + none =~= "s"@ && "m"@ + none =~= "m"@ && "h"@ + none =~= "h"@);
    assert(decimal(n) + "s"@ + none =~= decimal(n) + "s"@);
    assert(decimal(n) + "m"@ + none =~= decimal(n) + "m"@);
    assert(decimal(n) + "h"@ + none =~= decimal(n) + "h"@);
    assert(unit_nanos("s"@) == 1_000_000_000);
    assert(unit_nanos("m"@) == 60_000_000_000);
    assert(unit_nanos("h"@) == 3_600_000_000_000);
    let blank = Numeral::blank();
    assert(spans_nanos(decimal(n) + "s"@, blank, false) == n * 1_000_000_000);
    assert(spans_nanos(decimal(n) + "m"@, blank, false) == n * 60_000_000_000);
    assert(spans_nanos(decimal(n) + "h"@, blank, false) == n * 3_600_000_000_000);
}

/// White space in front of anything makes no difference.
pub proof fn law_white_space_makes_no_difference(c: char, s: Seq<char>, number: Numeral, unit: bool)
    requires
        is_white(c),
    ensures
        spans_nanos(seq![c] + s, number, unit) == spans_nanos(s, number, unit),
{
    let all = seq![c] + s;
    assert(all[0] == c);
    assert(all.skip(1) =~= s);
}

proof fn lemma_large_numbers_stay_large(s: Seq<char>, tail: Seq<char>, k: int)
    requires
        0 <= k <= s.len(),
        forall|i: int| 0 <= i < s.len() ==> '0' <= #[trigger] s[i] <= '9',
    ensures
        spans_nanos(s + tail, Numeral::blank(), false) == spans_nanos(
            s.skip(k) + tail,
            Numeral {
                whole: if positional(s.take(k), 10) > too_many() {
                    too_many()
                } else {
                    positional(s.take(k), 10)
                },
                ..Numeral::blank()
            },
            false,
        ),
    decreases k,
{
    if k == 0 {
        assert(s.skip(0) =~= s);
        assert(s.take(0).len() == 0);
    } else {
        lemma_large_numbers_stay_large(s, tail, k - 1);
        let all = s.skip(k - 1) + tail;
        assert(s.take(k).drop_last() =~= s.take(k - 1));
        assert(s.take(k).last() == s[k - 1]);
        assert(all[0] == s[k - 1]);
        assert(all.skip(1) =~= s.skip(k) + tail);
    }
}

/// A number of seconds, or of anything longer, that does not fit in 64 bits
/// is never in range.
pub proof fn law_large_numbers_are_out_of_range(n: nat, unit: Seq<char>)
    requires
        n >= 0x1_0000_0000_0000_0000,
        unit == "s"@ || unit == "m"@ || unit == "h"@ || unit == "d"@ || unit == "w"@ || unit
            == "y"@,
    ensures
        !in_range(decimal(n) + unit),
{
    reveal_strlit("s");
    reveal_strlit("m");
    reveal_strlit("h");
    reveal_strlit("d");
    reveal_strlit("w");
    reveal_strlit("y");
    let digits = decimal(n);
    law_decimal_reads_back(n);
    lemma_large_numbers_stay_large(digits, unit, digits.len() as int);
    assert(digits.take(digits.len() as int) =~= digits);
    assert(digits.skip(digits.len() as int) + unit =~= unit);
    let number = Numeral { whole: too_many(), ..Numeral::blank() };
    let nanos = unit_nanos(unit);
    assert(nanos >= 1_000_000_000);
    assert(0 * nanos / 1 == 0) by (nonlinear_arith);
    assert(too_many() * nanos >= too_many() * 1_000_000_000) by (nonlinear_arith)
        requires
            nanos >= 1_000_000_000,
    ;
    assert(number.times(nanos) == too_many() * nanos);
    assert(unit.skip(1).len() == 0);
}

/// A decimal fraction as far as it has been read: `k` of its digits behind
/// the whole number.
pub open spec fn with_fraction(whole: nat, digits: Seq<char>, k: int) -> Numeral {
    Numeral {
        whole,
        numerator: positional(digits.take(k), 10),
        denominator: pow(10, k as nat) as nat,
        fraction: true,
    }
}

proof fn lemma_fine_enough(k: nat)
    requires
        k <= 19,
    ensures
        0 < pow(10, k) <= finest(),
    decreases 19 - k,
{
    reveal(pow);
    if k < 19 {
        lemma_fine_enough(k + 1);
        assert(pow(10, k + 1) == 10 * pow(10, k));
    } else {
        assert(pow(10, 19) == 10_000_000_000_000_000_000) by {
            reveal_with_fuel(pow, 20);
        }
    }
}

proof fn lemma_fraction_is_read(whole: nat, digits: Seq<char>, tail: Seq<char>, k: int)
    requires
        0 <= k <= digits.len() <= 19,
        forall|i: int| 0 <= i < digits.len() ==> '0' <= #[trigger] digits[i] <= '9',
    ensures
        spans_nanos(digits + tail, with_fraction(whole, digits, 0), false) == spans_nanos(
            digits.skip(k) + tail,
            with_fraction(whole, digits, k),
            false,
        ),
    decreases k,
{
    if k == 0 {
        assert(digits.skip(0) =~= digits);
    } else {
        lemma_fraction_is_read(whole, digits, tail, k - 1);
        let all = digits.skip(k - 1) + tail;
        assert(digits.take(k).drop_last() =~= digits.take(k - 1));
        assert(digits.take(k).last() == digits[k - 1]);
        assert(all[0] == digits[k - 1]);
        assert(all.skip(1) =~= digits.skip(k) + tail);
        lemma_fine_enough((k - 1) as nat);
        lemma_fine_enough(k as nat);
        reveal(pow);
        assert(pow(10, k as nat) == 10 * pow(10, (k - 1) as nat));
        let d = (digits[k - 1] as int - 48) as nat;
        assert(with_fraction(whole, digits, k - 1).digit(d) == with_fraction(whole, digits, k));
    }
}

/// A decimal fraction of a unit counts for that part of it, rounded down to
/// whole nanoseconds.
pub proof fn law_fractions_count_for_their_part(
    n: nat,
    digits: Seq<char>,
    unit: Seq<char>,
    tail: Seq<char>,
)
    requires
        n < 0x1_0000_0000_0000_0000,
        0 < digits.len() <= 19,
        forall|i: int| 0 <= i < digits.len() ==> '0' <= #[trigger] digits[i] <= '9',
        unit.len() > 0,
        forall|i: int|
            0 <= i < unit.len() ==> 'a' <= #[trigger] unit[i] <= 'z' || 'A' <= unit[i] <= 'Z',
        tail.len() == 0 || '0' <= tail[0] <= '9',
    ensures
        spans_nanos(
            decimal(n) + seq!['.'] + digits + unit + tail,
            Numeral::blank(),
            false,
        ) == n * unit_nanos(unit + tail) + positional(digits, 10) * unit_nanos(unit + tail) / (pow(
            10,
            digits.len(),
        ) as nat) + spans_nanos(tail, Numeral::blank(), false),
{
    let front = decimal(n);
    let behind = unit + tail;
    let rest = digits + behind;
    let pointed = seq!['.'] + rest;
    let number = with_fraction(n, digits, digits.len() as int);
    law_decimal_reads_back(n);
    lemma_digits_are_read(front, pointed, front.len() as int);
    assert(front + seq!['.'] + digits + unit + tail =~= front + pointed);
    assert(front.take(front.len() as int) =~= front);
    assert(front.skip(front.len() as int) + pointed =~= pointed);
    let before = Numeral { whole: n, ..Numeral::blank() };
    assert(pointed[0] == '.');
    assert(pointed.skip(1) =~= rest);
    assert(digits.take(0).len() == 0);
    assert(pow(10, 0) == 1) by {
        reveal(pow);
    }
    assert(before.point() == with_fraction(n, digits, 0));
    assert(spans_nanos(pointed, before, false) == spans_nanos(rest, before.point(), false));
    lemma_fraction_is_read(n, digits, behind, digits.len() as int);
    assert(digits.take(digits.len() as int) =~= digits);
    assert(digits.skip(digits.len() as int) + behind =~= behind);
    assert(behind[0] == unit[0]);
    assert(behind.skip(1) =~= unit.skip(1) + tail);
    assert forall|i: int| 0 <= i < unit.skip(1).len() implies !('0' <= #[trigger] unit.skip(1)[i]
        <= '9') by {
        assert(unit.skip(1)[i] == unit[i + 1]);
    }
    lemma_unit_is_passed(unit.skip(1), tail, number);
}

} // verus!
