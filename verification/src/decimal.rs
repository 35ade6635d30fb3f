//! Exact decimal numbers for prices and star ratings.
//!
//! A `Decimal` is an integer count of units together with the number of
//! fractional digits the units are expressed in: `units / 10^scale`. Prices and
//! ratings are read from text and compared, never computed with, so a bounded
//! exact representation serves better than binary floating point: "29.99" is
//! 2999 units at scale 2, exactly.

use crate::text::{char_is_digit, is_digit};
use vstd::prelude::*;

verus! {

/// Every decimal has fewer than 10^18 units in absolute value.
pub const UNIT_LIMIT: i64 = 1_000_000_000_000_000_000;

/// Every decimal has at most this many fractional digits.
pub const MAX_SCALE: u8 = 18;

/// An exact decimal number: `units / 10^scale`.
#[derive(Clone, Copy, Debug, PartialEq, Eq, Structural)]
pub struct Decimal {
    units: i64,
    scale: u8,
}

/// Ten to the power `n`.
pub open spec fn pow10(n: nat) -> int
    decreases n,
{
    if n == 0 {
        1
    } else {
        10 * pow10((n - 1) as nat)
    }
}

/// The number that an ASCII digit stands for.
pub open spec fn digit_value(c: char) -> int {
    (c as u32) as int - 48
}

/// The number spelled by the digits of `s`, read left to right; characters
/// that are no digits are passed over.
pub open spec fn digits_value(s: Seq<char>) -> int
    decreases s.len(),
{
    if s.len() == 0 {
        0
    } else if is_digit(s.last()) {
        10 * digits_value(s.drop_last()) + digit_value(s.last())
    } else {
        digits_value(s.drop_last())
    }
}

/// The number of characters that follow the last point of `s`; zero where `s`
/// has no point.
pub open spec fn fraction_len(s: Seq<char>) -> nat
    decreases s.len(),
{
    if s.len() == 0 {
        0
    } else if s.last() == '.' {
        0
    } else if s.drop_last().contains('.') {
        fraction_len(s.drop_last()) + 1
    } else {
        0
    }
}

/// The grammar of a plain decimal number: digits with at most one point among
/// them, and at least one digit. ".5" and "5." are numbers, "." is not.
pub open spec fn is_decimal_text(s: Seq<char>) -> bool {
    &&& exists|i: int| 0 <= i < s.len() && is_digit(#[trigger] s[i])
    &&& forall|i: int| 0 <= i < s.len() ==> is_digit(#[trigger] s[i]) || s[i] == '.'
    &&& forall|i: int, j: int|
        0 <= i < j < s.len() ==> !(#[trigger] s[i] == '.' && #[trigger] s[j] == '.')
}

/// The decimal that a text denotes: `None` where the text is no plain decimal
/// number or the number has too many digits to be held.
pub open spec fn decimal_of(s: Seq<char>) -> Option<Decimal> {
    if is_decimal_text(s) && digits_value(s) < UNIT_LIMIT && fraction_len(s) <= MAX_SCALE {
        Some(Decimal::from_parts(digits_value(s), fraction_len(s)))
    } else {
        None
    }
}

/// The decimal that a text with an optional leading sign denotes.
pub open spec fn signed_decimal_of(s: Seq<char>) -> Option<Decimal> {
    if s.len() > 0 && s[0] == '-' {
        match decimal_of(s.drop_first()) {
            Some(d) => Some(d.negated()),
            None => None,
        }
    } else if s.len() > 0 && s[0] == '+' {
        decimal_of(s.drop_first())
    } else {
        decimal_of(s)
    }
}

/// The difference of two decimals, at the finer of their scales.
pub open spec fn difference(a: Decimal, b: Decimal) -> Option<Decimal> {
    let scale = if a.scale() >= b.scale() {
        a.scale()
    } else {
        b.scale()
    };
    let units = a.units() * pow10((scale - a.scale()) as nat) - b.units() * pow10(
        (scale - b.scale()) as nat,
    );
    if -UNIT_LIMIT < units < UNIT_LIMIT {
        Some(Decimal::from_parts(units, scale))
    } else {
        None
    }
}

/// `num / den` rounded to the nearest integer, halves away from zero, for a
/// non-negative numerator and a positive denominator.
pub open spec fn rounded_ratio(num: int, den: int) -> int {
    (2 * num + den) / (2 * den)
}

/// The ten digits.
pub const DIGITS: [char; 10] = ['0', '1', '2', '3', '4', '5', '6', '7', '8', '9'];

/// The decimal numeral of a natural number, without leading zeros.
pub open spec fn nat_text(n: nat) -> Seq<char>
    decreases n,
{
    if n < 10 {
        seq![DIGITS@[n as int]]
    } else {
        nat_text(n / 10).push(DIGITS@[(n % 10) as int])
    }
}

/// The last `width` digits of the decimal numeral of a natural number, with
/// zeros in front where the number has fewer.
pub open spec fn padded_text(n: nat, width: nat) -> Seq<char>
    decreases width,
{
    if width == 0 {
        Seq::empty()
    } else {
        padded_text(n / 10, (width - 1) as nat).push(DIGITS@[(n % 10) as int])
    }
}

/// The absolute value of an integer.
pub open spec fn magnitude(n: int) -> nat {
    if n < 0 {
        (-n) as nat
    } else {
        n as nat
    }
}

/// A count of `10^-scale` units expressed in `10^-places` units, rounded to
/// the nearest whole with halves rounded up.
pub open spec fn rescaled(units: nat, scale: nat, places: nat) -> nat {
    if scale <= places {
        (units * pow10((places - scale) as nat)) as nat
    } else {
        ((units + pow10((scale - places) as nat) / 2) / pow10((scale - places) as nat)) as nat
    }
}

/// A numeral with `places` fractional digits for a count of `10^-places`
/// units: a minus sign for a negative number, the whole part, and where
/// `places` is not zero a point and the fraction.
pub open spec fn fixed_numeral(negative: bool, count: nat, places: nat) -> Seq<char> {
    let sign = if negative {
        seq!['-']
    } else {
        Seq::empty()
    };
    let whole = nat_text((count as int / pow10(places)) as nat);
    if places == 0 {
        sign + whole
    } else {
        sign + whole + seq!['.'] + padded_text((count as int % pow10(places)) as nat, places)
    }
}

impl Decimal {
    #[verifier::type_invariant]
    closed spec fn in_range(self) -> bool {
        -UNIT_LIMIT < self.units < UNIT_LIMIT && self.scale <= MAX_SCALE
    }

    /// The count of units.
    pub closed spec fn units(self) -> int {
        self.units as int
    }

    /// The number of fractional digits.
    pub closed spec fn scale(self) -> nat {
        self.scale as nat
    }

    /// The decimal with the given units and scale.
    pub closed spec fn from_parts(units: int, scale: nat) -> Decimal {
        Decimal { units: units as i64, scale: scale as u8 }
    }

    /// The bounds that every decimal held by a program observes.
    pub open spec fn wf(self) -> bool {
        -UNIT_LIMIT < self.units() < UNIT_LIMIT && self.scale() <= MAX_SCALE
    }

    /// The same number with the opposite sign.
    pub open spec fn negated(self) -> Decimal {
        Decimal::from_parts(-self.units(), self.scale())
    }

    /// `self < other`, as numbers.
    pub open spec fn lt(self, other: Decimal) -> bool {
        self.units() * pow10(other.scale()) < other.units() * pow10(self.scale())
    }

    /// `self <= other`, as numbers.
    pub open spec fn le(self, other: Decimal) -> bool {
        self.units() * pow10(other.scale()) <= other.units() * pow10(self.scale())
    }

    /// `self` and `other` are the same number, whatever their scales.
    pub open spec fn same_value(self, other: Decimal) -> bool {
        self.units() * pow10(other.scale()) == other.units() * pow10(self.scale())
    }

    /// `self` limited to the range from `low` to `high`.
    pub open spec fn clamped(self, low: Decimal, high: Decimal) -> Decimal {
        if self.lt(low) {
            low
        } else if high.lt(self) {
            high
        } else {
            self
        }
    }

    /// The whole number `n`.
    pub open spec fn spec_whole(n: u32) -> Decimal {
        Decimal::from_parts(n as int, 0)
    }

    /// The share of `original` that `self` falls short of it, in percent,
    /// rounded to the nearest whole and limited to the range 0 to 99.
    ///
    /// With `d = original - self` the share is `100 * d / original`. A share
    /// below one half percent, or a negative one, is 0; a share of 99.5
    /// percent or more is 99. Against an original of zero the share is 0,
    /// unless `self` is negative: then it is 99.
    pub open spec fn discount_from(self, original: Decimal) -> int {
        let current = self.units() * pow10(original.scale());
        let full = original.units() * pow10(self.scale());
        let (num, den) = if full < 0 {
            (current - full, -full)
        } else {
            (full - current, full)
        };
        if den == 0 {
            if num > 0 {
                99
            } else {
                0
            }
        } else if num <= 0 {
            0
        } else if rounded_ratio(100 * num, den) >= 99 {
            99
        } else {
            rounded_ratio(100 * num, den)
        }
    }

    /// A decimal's parts are those it was made from, within the bounds.
    pub broadcast proof fn lemma_from_parts(units: int, scale: nat)
        requires
            -UNIT_LIMIT < units < UNIT_LIMIT,
            scale <= MAX_SCALE,
        ensures
            (#[trigger] Decimal::from_parts(units, scale)).units() == units,
            Decimal::from_parts(units, scale).scale() == scale,
            Decimal::from_parts(units, scale).wf(),
    {
    }

    /// Two decimals with the same parts are the same decimal.
    pub proof fn lemma_parts_determine(a: Decimal, b: Decimal)
        requires
            a.units() == b.units(),
            a.scale() == b.scale(),
        ensures
            a == b,
    {
    }

    /// The decimal with the given units and scale, where both are in bounds.
    pub fn new(units: i64, scale: u8) -> (r: Option<Decimal>)
        ensures
            r is Some <==> (-UNIT_LIMIT < units < UNIT_LIMIT && scale <= MAX_SCALE),
            r matches Some(d) ==> d == Decimal::from_parts(units as int, scale as nat),
    {
        if -UNIT_LIMIT < units && units < UNIT_LIMIT && scale <= MAX_SCALE {
            Some(Decimal { units, scale })
        } else {
            None
        }
    }

    /// The whole number `n`.
    #[verifier::when_used_as_spec(spec_whole)]
    pub fn whole(n: u32) -> (r: Decimal)
        ensures
            r == Decimal::spec_whole(n),
            r.wf(),
    {
        Decimal { units: n as i64, scale: 0 }
    }

    /// The count of units.
    pub fn unit_count(&self) -> (r: i64)
        ensures
            r == self.units(),
            self.wf(),
    {
        proof {
            use_type_invariant(self);
        }
        self.units
    }

    /// The number of fractional digits.
    pub fn fraction_digits(&self) -> (r: u8)
        ensures
            r == self.scale(),
            self.wf(),
    {
        proof {
            use_type_invariant(self);
        }
        self.scale
    }

    /// The same number with the opposite sign.
    pub fn negate(&self) -> (r: Decimal)
        ensures
            r == self.negated(),
            r.wf(),
    {
        proof {
            use_type_invariant(self);
        }
        Decimal { units: -self.units, scale: self.scale }
    }

    /// Whether `self < other`, as numbers.
    pub fn is_less_than(&self, other: &Decimal) -> (r: bool)
        ensures
            r == self.lt(*other),
    {
        let (a, b) = cross(self, other);
        a < b
    }

    /// Whether `self <= other`, as numbers.
    pub fn is_at_most(&self, other: &Decimal) -> (r: bool)
        ensures
            r == self.le(*other),
    {
        let (a, b) = cross(self, other);
        a <= b
    }

    /// Whether `self` and `other` are the same number.
    pub fn is_same_value(&self, other: &Decimal) -> (r: bool)
        ensures
            r == self.same_value(*other),
    {
        let (a, b) = cross(self, other);
        a == b
    }

    /// `self` limited to the range from `low` to `high`.
    pub fn clamp_to(&self, low: &Decimal, high: &Decimal) -> (r: Decimal)
        ensures
            r == self.clamped(*low, *high),
    {
        if self.is_less_than(low) {
            *low
        } else if high.is_less_than(self) {
            *high
        } else {
            *self
        }
    }

    /// The discount of `self` against `original`, in whole percent.
    pub fn discount_percent_from(&self, original: &Decimal) -> (r: u8)
        ensures
            r == self.discount_from(*original),
            r <= 99,
    {
        let (current, full) = cross(self, original);
        let (num, den): (i128, i128) = if full < 0 {
            (current - full, -full)
        } else {
            (full - current, full)
        };
        if den == 0 {
            return if num > 0 { 99 } else { 0 };
        }
        if num <= 0 {
            return 0;
        }
        if num >= den {
            let ghost n0 = num as int;
            let ghost d0 = den as int;
            assert(rounded_ratio(100 * n0, d0) >= 99) by (nonlinear_arith)
                requires
                    n0 >= d0,
                    d0 > 0,
            {
                assert(2 * (100 * n0) + d0 >= 99 * (2 * d0));
            }
            return 99;
        }
        let n: u128 = num as u128;
        let d: u128 = den as u128;
        let q: u128 = (200 * n + d) / (2 * d);
        assert(q == rounded_ratio(100 * num, den as int));
        if q >= 99 {
            99
        } else {
            q as u8
        }
    }

    /// The number written with exactly `places` fractional digits, rounded
    /// to the nearest such number with halves rounded away from zero.
    pub open spec fn fixed_text(self, places: nat) -> Seq<char> {
        fixed_numeral(
            self.units() < 0,
            rescaled(magnitude(self.units()), self.scale(), places),
            places,
        )
    }

    /// The number of trailing zeros among the fractional digits.
    pub open spec fn spare_zeros(self) -> nat {
        spare_zeros_of(magnitude(self.units()), self.scale())
    }

    /// The number written with as few fractional digits as it needs, and
    /// without a point where it needs none.
    pub open spec fn plain_text(self) -> Seq<char> {
        fixed_numeral(
            self.units() < 0,
            (magnitude(self.units()) / (pow10(self.spare_zeros()) as nat)) as nat,
            (self.scale() - self.spare_zeros()) as nat,
        )
    }

    /// The number written with exactly `places` fractional digits.
    pub fn to_fixed(&self, places: u8) -> (r: String)
        requires
            places <= MAX_SCALE,
        ensures
            r@ == self.fixed_text(places as nat),
    {
        proof {
            use_type_invariant(self);
        }
        let negative = self.units < 0;
        let size: u128 = if negative {
            (-self.units) as u128
        } else {
            self.units as u128
        };
        let count: u128 = if self.scale <= places {
            let factor = power_of_ten(places - self.scale) as u128;
            assert(size * factor <= UNIT_LIMIT * UNIT_LIMIT) by (nonlinear_arith)
                requires
                    size < UNIT_LIMIT,
                    1 <= factor <= UNIT_LIMIT,
            ;
            size * factor
        } else {
            let divisor = power_of_ten(self.scale - places) as u128;
            (size + divisor / 2) / divisor
        };
        let mut out: Vec<char> = Vec::new();
        write_fixed(&mut out, negative, count, places);
        crate::text::string_of(out.as_slice())
    }

    /// The number written with as few fractional digits as it needs.
    pub fn to_text(&self) -> (r: String)
        ensures
            r@ == self.plain_text(),
    {
        proof {
            use_type_invariant(self);
        }
        let negative = self.units < 0;
        let mut size: u128 = if negative {
            (-self.units) as u128
        } else {
            self.units as u128
        };
        let mut scale: u8 = self.scale;
        let ghost start = size;
        proof {
            reveal_with_fuel(pow10, 2);
        }
        while scale > 0 && size % 10 == 0
            invariant
                scale <= self.scale,
                self.scale <= MAX_SCALE,
                start == magnitude(self.units()),
                size * pow10((self.scale - scale) as nat) == start,
                spare_zeros_of(start as nat, self.scale as nat) == (self.scale - scale)
                    + spare_zeros_of(size as nat, scale as nat),
            decreases scale,
        {
            proof {
                let done = (self.scale - scale) as nat;
                assert(pow10(done + 1) == 10 * pow10(done));
                assert((size / 10) * pow10(done + 1) == size * pow10(done)) by (nonlinear_arith)
                    requires
                        size % 10 == 0,
                        pow10(done + 1) == 10 * pow10(done),
                ;
            }
            size = size / 10;
            scale = scale - 1;
        }
        proof {
            let spare = (self.scale - scale) as nat;
            assert(spare_zeros_of(size as nat, scale as nat) == 0);
            lemma_pow10_positive(spare);
            assert(start as int / pow10(spare) == size) by (nonlinear_arith)
                requires
                    size * pow10(spare) == start,
                    pow10(spare) >= 1,
            ;
        }
        let mut out: Vec<char> = Vec::new();
        write_fixed(&mut out, negative, size, scale);
        crate::text::string_of(out.as_slice())
    }

    /// `self - other`, at the finer of the two scales; `None` where the
    /// difference has too many digits to be held.
    pub fn minus(&self, other: &Decimal) -> (r: Option<Decimal>)
        ensures
            r == difference(*self, *other),
    {
        proof {
            use_type_invariant(self);
            use_type_invariant(other);
        }
        let scale = if self.scale >= other.scale {
            self.scale
        } else {
            other.scale
        };
        let pa = power_of_ten(scale - self.scale);
        let pb = power_of_ten(scale - other.scale);
        let x: i128 = self.units as i128;
        let y: i128 = other.units as i128;
        assert(-UNIT_LIMIT * UNIT_LIMIT < x * pa < UNIT_LIMIT * UNIT_LIMIT) by (nonlinear_arith)
            requires
                -UNIT_LIMIT < x < UNIT_LIMIT,
                1 <= pa <= UNIT_LIMIT,
        ;
        assert(-UNIT_LIMIT * UNIT_LIMIT < y * pb < UNIT_LIMIT * UNIT_LIMIT) by (nonlinear_arith)
            requires
                -UNIT_LIMIT < y < UNIT_LIMIT,
                1 <= pb <= UNIT_LIMIT,
        ;
        let units: i128 = x * pa - y * pb;
        if -(UNIT_LIMIT as i128) < units && units < UNIT_LIMIT as i128 {
            proof {
                Decimal::lemma_from_parts(units as int, scale as nat);
                Decimal::lemma_parts_determine(
                    Decimal { units: units as i64, scale },
                    Decimal::from_parts(units as int, scale as nat),
                );
            }
            Some(Decimal { units: units as i64, scale })
        } else {
            None
        }
    }

    /// Reads a plain decimal number: digits with at most one point.
    pub fn parse(text: &[char]) -> (r: Option<Decimal>)
        ensures
            r == decimal_of(text@),
            r matches Some(d) ==> d.wf() && d.units() >= 0,
    {
        let mut units: i64 = 0;
        let mut scale: u8 = 0;
        let mut seen_point = false;
        let mut seen_digit = false;
        let mut i: usize = 0;
        assert(text@.take(0) == Seq::<char>::empty());
        while i < text.len()
            invariant
                i <= text.len(),
                0 <= units <= UNIT_LIMIT,
                scale <= MAX_SCALE + 1,
                units == if digits_value(text@.take(i as int)) < UNIT_LIMIT {
                    digits_value(text@.take(i as int))
                } else {
                    UNIT_LIMIT as int
                },
                digits_value(text@.take(i as int)) >= 0,
                scale == if fraction_len(text@.take(i as int)) <= MAX_SCALE {
                    fraction_len(text@.take(i as int))
                } else {
                    (MAX_SCALE + 1) as nat
                },
                seen_point == text@.take(i as int).contains('.'),
                seen_digit == exists|k: int| 0 <= k < i && is_digit(#[trigger] text@[k]),
                forall|k: int| 0 <= k < i ==> is_digit(#[trigger] text@[k]) || text@[k] == '.',
                forall|j: int, k: int|
                    0 <= j < k < i ==> !(#[trigger] text@[j] == '.' && #[trigger] text@[k] == '.'),
            decreases text.len() - i,
        {
            let c = text[i];
            let ghost before = text@.take(i as int);
            let ghost after = text@.take(i + 1);
            proof {
                assert(after.drop_last() == before);
                assert(after.last() == c);
            }
            if char_is_digit(c) {
                let digit: i64 = (c as u32 - 48) as i64;
                if units >= UNIT_LIMIT / 10 {
                    units = UNIT_LIMIT;
                } else {
                    units = units * 10 + digit;
                }
                if seen_point && scale <= MAX_SCALE {
                    scale = scale + 1;
                }
                seen_digit = true;
                proof {
                    assert(is_digit(text@[i as int]));
                    if before.contains('.') {
                        let k = choose|k: int| 0 <= k < before.len() && before[k] == '.';
                        assert(after[k] == '.');
                    } else {
                        if after.contains('.') {
                            let k = choose|k: int| 0 <= k < after.len() && after[k] == '.';
                            assert(before[k] == '.');
                        }
                    }
                }
            } else if c == '.' {
                if seen_point {
                    proof {
                        let k = choose|k: int| 0 <= k < before.len() && before[k] == '.';
                        assert(text@[k] == '.' && text@[i as int] == '.');
                    }
                    return None;
                }
                seen_point = true;
                scale = 0;
                proof {
                    assert(after[i as int] == '.');
                    assert forall|j: int, k: int| 0 <= j < k < i + 1 implies !(#[trigger] text@[j]
                        == '.' && #[trigger] text@[k] == '.') by {
                        if k == i && text@[j] == '.' {
                            assert(before[j] == '.');
                        }
                    }
                }
            } else {
                assert(!(is_digit(text@[i as int]) || text@[i as int] == '.'));
                return None;
            }
            i = i + 1;
        }
        assert(text@.take(text@.len() as int) == text@);
        if !seen_digit || units >= UNIT_LIMIT || scale > MAX_SCALE {
            return None;
        }
        proof {
            Decimal::lemma_from_parts(units as int, scale as nat);
            Decimal::lemma_parts_determine(
                Decimal { units, scale },
                Decimal::from_parts(units as int, scale as nat),
            );
        }
        Some(Decimal { units, scale })
    }

    /// Reads a decimal number with an optional leading `+` or `-`.
    pub fn parse_signed(text: &[char]) -> (r: Option<Decimal>)
        ensures
            r == signed_decimal_of(text@),
            r matches Some(d) ==> d.wf(),
    {
        if text.len() > 0 && (text[0] == '-' || text[0] == '+') {
            let rest = vstd::slice::slice_subrange(text, 1, text.len());
            assert(rest@ == text@.drop_first());
            match Decimal::parse(rest) {
                Some(d) => {
                    if text[0] == '-' {
                        Some(d.negate())
                    } else {
                        Some(d)
                    }
                },
                None => None,
            }
        } else {
            Decimal::parse(text)
        }
    }
}

/// `10^n` for the scales a decimal can have.
fn power_of_ten(n: u8) -> (r: i128)
    requires
        n <= MAX_SCALE,
    ensures
        r == pow10(n as nat),
        1 <= r <= UNIT_LIMIT,
{
    proof {
        reveal_with_fuel(pow10, 20);
    }
    let mut r: i128 = 1;
    let mut i: u8 = 0;
    while i < n
        invariant
            i <= n <= MAX_SCALE,
            r == pow10(i as nat),
            1 <= r,
            r * pow10((MAX_SCALE - i) as nat) == UNIT_LIMIT,
        decreases n - i,
    {
        proof {
            let rest = pow10((MAX_SCALE - i) as nat);
            assert(rest == 10 * pow10((MAX_SCALE - i - 1) as nat));
            assert(rest >= 10) by {
                lemma_pow10_positive((MAX_SCALE - i - 1) as nat);
            }
            assert(r * 10 <= UNIT_LIMIT) by (nonlinear_arith)
                requires
                    r * rest == UNIT_LIMIT,
                    rest >= 10,
                    r >= 1,
            ;
            assert(r * 10 * pow10((MAX_SCALE - i - 1) as nat) == r * rest) by (nonlinear_arith)
                requires
                    rest == 10 * pow10((MAX_SCALE - i - 1) as nat),
            ;
        }
        r = r * 10;
        i = i + 1;
    }
    proof {
        lemma_pow10_positive((MAX_SCALE - n) as nat);
        assert(r <= UNIT_LIMIT) by (nonlinear_arith)
            requires
                r * pow10((MAX_SCALE - n) as nat) == UNIT_LIMIT,
                pow10((MAX_SCALE - n) as nat) >= 1,
                r >= 1,
        ;
    }
    r
}

pub proof fn lemma_pow10_positive(n: nat)
    ensures
        pow10(n) >= 1,
    decreases n,
{
    if n > 0 {
        lemma_pow10_positive((n - 1) as nat);
    }
}

/// The two sides of a comparison of `a` with `b`: each one's units brought to
/// the other's scale.
fn cross(a: &Decimal, b: &Decimal) -> (r: (i128, i128))
    ensures
        r.0 == a.units() * pow10(b.scale()),
        r.1 == b.units() * pow10(a.scale()),
        a.wf(),
        b.wf(),
        -UNIT_LIMIT * UNIT_LIMIT < r.0 < UNIT_LIMIT * UNIT_LIMIT,
        -UNIT_LIMIT * UNIT_LIMIT < r.1 < UNIT_LIMIT * UNIT_LIMIT,
{
    proof {
        use_type_invariant(a);
        use_type_invariant(b);
    }
    let pa = power_of_ten(a.scale);
    let pb = power_of_ten(b.scale);
    let x: i128 = a.units as i128;
    let y: i128 = b.units as i128;
    assert(-UNIT_LIMIT * UNIT_LIMIT < x * pb < UNIT_LIMIT * UNIT_LIMIT) by (nonlinear_arith)
        requires
            -UNIT_LIMIT < x < UNIT_LIMIT,
            1 <= pb <= UNIT_LIMIT,
    ;
    assert(-UNIT_LIMIT * UNIT_LIMIT < y * pa < UNIT_LIMIT * UNIT_LIMIT) by (nonlinear_arith)
        requires
            -UNIT_LIMIT < y < UNIT_LIMIT,
            1 <= pa <= UNIT_LIMIT,
    ;
    (x * pb, y * pa)
}

/// The number of trailing zeros that can be dropped from `scale` fractional
/// digits of a count of units.
pub open spec fn spare_zeros_of(units: nat, scale: nat) -> nat
    decreases scale,
{
    if scale > 0 && units % 10 == 0 {
        1 + spare_zeros_of(units / 10, (scale - 1) as nat)
    } else {
        0
    }
}

/// Appends the decimal numeral of `n`.
pub fn write_nat(out: &mut Vec<char>, n: u128)
    ensures
        final(out)@ == old(out)@ + nat_text(n as nat),
    decreases n,
{
    if n >= 10 {
        write_nat(out, n / 10);
    }
    let digit = DIGITS[(n % 10) as usize];
    out.push(digit);
    assert(out@ == old(out)@ + nat_text(n as nat));
}

/// Appends the last `width` digits of the decimal numeral of `n`.
pub fn write_padded(out: &mut Vec<char>, n: u128, width: u8)
    ensures
        final(out)@ == old(out)@ + padded_text(n as nat, width as nat),
    decreases width,
{
    if width > 0 {
        write_padded(out, n / 10, width - 1);
        let digit = DIGITS[(n % 10) as usize];
        out.push(digit);
    }
    assert(out@ == old(out)@ + padded_text(n as nat, width as nat));
}

/// Appends a numeral with `places` fractional digits.
fn write_fixed(out: &mut Vec<char>, negative: bool, count: u128, places: u8)
    requires
        places <= MAX_SCALE,
    ensures
        final(out)@ == old(out)@ + fixed_numeral(negative, count as nat, places as nat),
{
    let power = power_of_ten(places) as u128;
    if negative {
        out.push('-');
    }
    write_nat(out, count / power);
    if places > 0 {
        out.push('.');
        write_padded(out, count % power, places);
    }
    assert(out@ == old(out)@ + fixed_numeral(negative, count as nat, places as nat));
}

/// The decimal numeral of a number.
pub fn number_text(n: u64) -> (r: String)
    ensures
        r@ == nat_text(n as nat),
{
    let mut out: Vec<char> = Vec::new();
    write_nat(&mut out, n as u128);
    crate::text::string_of(out.as_slice())
}

/// The order of decimals is transitive: from `a <= b` and `b <= c` follows
/// `a <= c`.
pub proof fn lemma_le_transitive(a: Decimal, b: Decimal, c: Decimal)
    requires
        a.le(b),
        b.le(c),
    ensures
        a.le(c),
{
    let pa = pow10(a.scale());
    let pb = pow10(b.scale());
    let pc = pow10(c.scale());
    lemma_pow10_positive(a.scale());
    lemma_pow10_positive(b.scale());
    lemma_pow10_positive(c.scale());
    let x = a.units();
    let y = b.units();
    let z = c.units();
    assert(x * pc <= z * pa) by (nonlinear_arith)
        requires
            x * pb <= y * pa,
            y * pc <= z * pb,
            pa >= 1,
            pb >= 1,
            pc >= 1,
    {
        assert((x * pb) * pc <= (y * pa) * pc);
        assert((y * pc) * pa <= (z * pb) * pa);
        assert((x * pc) * pb <= (z * pa) * pb);
    }
}

/// Of two decimals one is less than the other, or the other is at most the
/// one.
pub proof fn lemma_order_total(a: Decimal, b: Decimal)
    ensures
        a.lt(b) || b.le(a),
        a.lt(b) ==> a.le(b),
{
}

} // verus!
