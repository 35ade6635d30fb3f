//! The numeric normalizer: reads prices, star values and review counts from
//! the text of a page, by the number conventions of a region.
//!
//! Regions disagree on which of comma and period separates the thousands and
//! which the fraction. A price text is first reduced to its digits, periods,
//! commas and minus signs; of a range such as "10-20" only the part before the
//! first minus sign is read. In a region that writes the fraction after a
//! comma the periods are dropped and the comma becomes the decimal point; in
//! every other region the commas are dropped.

use crate::decimal::{Decimal, decimal_of, digits_value, signed_decimal_of};
use crate::text::{
    before_first, char_is_digit, chars_of, digits_of, first_token, first_word, is_digit,
    keep_digits, remove_char, replace_char, replaced, take_before, trim, trimmed, trimmed_end,
    trimmed_start, without_char,
};
use vstd::prelude::*;

verus! {

/// The characters that a price text is reduced to.
pub open spec fn is_price_char(c: char) -> bool {
    is_digit(c) || c == '.' || c == ',' || c == '-'
}

/// The test `is_price_char`, as a value.
pub open spec fn price_char_test() -> spec_fn(char) -> bool {
    |c: char| is_price_char(c)
}

/// The digits, periods, commas and minus signs of a text, in order.
pub open spec fn price_chars(s: Seq<char>) -> Seq<char> {
    s.filter(price_char_test())
}

/// A number text with the region's separators resolved: no thousands
/// separators left, and a period for the decimal point.
pub open spec fn with_point_decimal(s: Seq<char>, comma_decimal: bool) -> Seq<char> {
    if comma_decimal {
        replaced(without_char(s, '.'), ',', '.')
    } else {
        without_char(s, ',')
    }
}

/// The value of one price number, `None` where the text is unparsable.
pub open spec fn single_price(s: Seq<char>, comma_decimal: bool) -> Option<Decimal> {
    if trimmed(s).len() == 0 {
        None
    } else {
        decimal_of(with_point_decimal(trimmed(s), comma_decimal))
    }
}

/// The value of a price text, `None` where it is unparsable.
pub open spec fn price_value(s: Seq<char>, comma_decimal: bool) -> Option<Decimal> {
    if price_chars(s).len() == 0 {
        None
    } else {
        single_price(before_first(price_chars(s), seq!['-']), comma_decimal)
    }
}

/// The star value in a text such as "4.5 out of 5 stars": its first token,
/// read as a number with either a period or a comma before the fraction.
pub open spec fn stars_value(s: Seq<char>) -> Option<Decimal> {
    match first_token(s) {
        Some(token) => signed_decimal_of(replaced(token, ',', '.')),
        None => None,
    }
}

/// The number that the digits of a text spell, `None` where there is no
/// digit or the number does not fit 32 bits.
pub open spec fn count_value(s: Seq<char>) -> Option<u32> {
    if digits_of(s).len() == 0 || digits_value(digits_of(s)) > u32::MAX {
        None
    } else {
        Some(digits_value(digits_of(s)) as u32)
    }
}

/// The review count in a text such as "1,234 ratings"; 0 where the text
/// tells none.
pub open spec fn review_count_value(s: Seq<char>) -> u32 {
    match count_value(s) {
        Some(n) => n,
        None => 0,
    }
}

/// The digits, periods, commas and minus signs of a text, in order.
pub fn keep_price_chars(v: &[char]) -> (r: Vec<char>)
    ensures
        r@ == price_chars(v@),
{
    let mut r: Vec<char> = Vec::new();
    let ghost keep = price_char_test();
    let mut i: usize = 0;
    assert(v@.take(0).filter(keep) == Seq::<char>::empty()) by {
        reveal(Seq::filter);
    }
    while i < v.len()
        invariant
            i <= v.len(),
            keep == price_char_test(),
            r@ == v@.take(i as int).filter(keep),
        decreases v.len() - i,
    {
        proof {
            assert(v@.take(i + 1) == v@.take(i as int).push(v@[i as int]));
            v@.take(i as int).lemma_filter_push(v@[i as int], keep);
        }
        let c = v[i];
        if char_is_digit(c) || c == '.' || c == ',' || c == '-' {
            r.push(c);
        }
        i = i + 1;
    }
    assert(v@.take(v@.len() as int) == v@);
    r
}

/// Reads one price number by a region's convention.
pub fn normalize_single_price(text: &[char], comma_decimal: bool) -> (r: Option<Decimal>)
    ensures
        r == single_price(text@, comma_decimal),
{
    let cleaned = trim(text);
    if cleaned.len() == 0 {
        return None;
    }
    let normalized = if comma_decimal {
        let no_periods = remove_char(cleaned.as_slice(), '.');
        replace_char(no_periods.as_slice(), ',', '.')
    } else {
        remove_char(cleaned.as_slice(), ',')
    };
    Decimal::parse(normalized.as_slice())
}

/// Reads a price text by a region's convention.
pub fn normalize_price(text: &str, comma_decimal: bool) -> (r: Option<Decimal>)
    ensures
        r == price_value(text@, comma_decimal),
{
    let chars = chars_of(text);
    let cleaned = keep_price_chars(chars.as_slice());
    if cleaned.len() == 0 {
        return None;
    }
    let dash: [char; 1] = ['-'];
    assert(dash@ == seq!['-']);
    let first = take_before(cleaned.as_slice(), dash.as_slice());
    normalize_single_price(first.as_slice(), comma_decimal)
}

/// Reads the star value from a text such as "4.5 out of 5 stars".
pub fn normalize_stars(text: &str) -> (r: Option<Decimal>)
    ensures
        r == stars_value(text@),
{
    let chars = chars_of(text);
    match first_word(chars.as_slice()) {
        Some(token) => {
            let pointed = replace_char(token.as_slice(), ',', '.');
            Decimal::parse_signed(pointed.as_slice())
        },
        None => None,
    }
}

/// Reads the number that the digits of a text spell.
pub fn normalize_count(text: &[char]) -> (r: Option<u32>)
    ensures
        r == count_value(text@),
{
    let digits = keep_digits(text);
    if digits.len() == 0 {
        return None;
    }
    let mut value: u64 = 0;
    let mut i: usize = 0;
    assert(digits@.take(0) == Seq::<char>::empty());
    while i < digits.len()
        invariant
            i <= digits.len(),
            digits@ == digits_of(text@),
            forall|k: int| 0 <= k < digits@.len() ==> is_digit(#[trigger] digits@[k]),
            value == digits_value(digits@.take(i as int)),
            value <= u32::MAX,
        decreases digits.len() - i,
    {
        let c = digits[i];
        proof {
            assert(digits@.take(i + 1).drop_last() == digits@.take(i as int));
            assert(digits@.take(i + 1).last() == c);
            assert(is_digit(digits@[i as int]));
        }
        value = value * 10 + (c as u32 - 48) as u64;
        if value > u32::MAX as u64 {
            proof {
                lemma_digits_value_grows(digits@, i + 1);
            }
            return None;
        }
        i = i + 1;
    }
    assert(digits@.take(digits@.len() as int) == digits@);
    Some(value as u32)
}

/// Reads the review count from a text such as "1,234 ratings".
pub fn normalize_review_count(text: &str) -> (r: u32)
    ensures
        r == review_count_value(text@),
{
    let chars = chars_of(text);
    match normalize_count(chars.as_slice()) {
        Some(n) => n,
        None => 0,
    }
}

/// More digits never spell a smaller number.
pub proof fn lemma_digits_value_grows(s: Seq<char>, n: int)
    requires
        0 <= n <= s.len(),
    ensures
        0 <= digits_value(s.take(n)) <= digits_value(s),
    decreases s.len() - n,
{
    lemma_digits_value_nonnegative(s.take(n));
    if n < s.len() {
        assert(s.drop_last().take(n) == s.take(n));
        lemma_digits_value_grows(s.drop_last(), n);
        lemma_digits_value_nonnegative(s.drop_last());
    } else {
        assert(s.take(n) == s);
    }
}

pub proof fn lemma_digits_value_nonnegative(s: Seq<char>)
    ensures
        digits_value(s) >= 0,
    decreases s.len(),
{
    if s.len() > 0 {
        lemma_digits_value_nonnegative(s.drop_last());
    }
}

/// A text without digits stays without digits when it is trimmed.
proof fn lemma_trimmed_keeps_digitless(s: Seq<char>)
    requires
        forall|i: int| 0 <= i < s.len() ==> !is_digit(#[trigger] s[i]),
    ensures
        forall|i: int| 0 <= i < trimmed(s).len() ==> !is_digit(#[trigger] trimmed(s)[i]),
{
    lemma_trimmed_start_keeps_digitless(s);
    lemma_trimmed_end_keeps_digitless(trimmed_start(s));
}

proof fn lemma_trimmed_start_keeps_digitless(s: Seq<char>)
    requires
        forall|i: int| 0 <= i < s.len() ==> !is_digit(#[trigger] s[i]),
    ensures
        forall|i: int|
            0 <= i < trimmed_start(s).len() ==> !is_digit(#[trigger] trimmed_start(s)[i]),
    decreases s.len(),
{
    if s.len() > 0 && crate::text::is_space(s[0]) {
        let rest = s.drop_first();
        assert forall|i: int| 0 <= i < rest.len() implies !is_digit(#[trigger] rest[i]) by {
            assert(rest[i] == s[i + 1]);
        }
        lemma_trimmed_start_keeps_digitless(rest);
        assert(trimmed_start(s) == trimmed_start(rest));
    } else {
        assert(trimmed_start(s) == s);
    }
}

proof fn lemma_trimmed_end_keeps_digitless(s: Seq<char>)
    requires
        forall|i: int| 0 <= i < s.len() ==> !is_digit(#[trigger] s[i]),
    ensures
        forall|i: int| 0 <= i < trimmed_end(s).len() ==> !is_digit(#[trigger] trimmed_end(s)[i]),
    decreases s.len(),
{
    if s.len() > 0 && crate::text::is_space(s.last()) {
        let rest = s.drop_last();
        assert forall|i: int| 0 <= i < rest.len() implies !is_digit(#[trigger] rest[i]) by {
            assert(rest[i] == s[i]);
        }
        lemma_trimmed_end_keeps_digitless(rest);
        assert(trimmed_end(s) == trimmed_end(rest));
    } else {
        assert(trimmed_end(s) == s);
    }
}

/// A text without digits stays without digits when some of its characters
/// are dropped.
proof fn lemma_filter_keeps_digitless(s: Seq<char>, keep: spec_fn(char) -> bool)
    requires
        forall|i: int| 0 <= i < s.len() ==> !is_digit(#[trigger] s[i]),
    ensures
        forall|i: int| 0 <= i < s.filter(keep).len() ==> !is_digit(#[trigger] s.filter(keep)[i]),
{
    let kept = s.filter(keep);
    assert forall|i: int| 0 <= i < kept.len() implies !is_digit(#[trigger] kept[i]) by {
        assert(kept.contains(kept[i]));
        s.lemma_filter_contains_rev(keep, kept[i]);
        let j = choose|j: int| 0 <= j < s.len() && s[j] == kept[i];
        assert(!is_digit(s[j]));
    }
}

/// A text that holds no digit is unparsable as a price, in every region. The
/// empty text and a text of separators alone are such texts.
pub proof fn law_digitless_price_unparsable(s: Seq<char>, comma_decimal: bool)
    requires
        forall|i: int| 0 <= i < s.len() ==> !is_digit(#[trigger] s[i]),
    ensures
        price_value(s, comma_decimal) is None,
{
    let kept = price_chars(s);
    lemma_filter_keeps_digitless(s, price_char_test());
    if kept.len() > 0 {
        let first = before_first(kept, seq!['-']);
        crate::text::lemma_before_first_is_prefix(kept, seq!['-']);
        assert forall|i: int| 0 <= i < first.len() implies !is_digit(#[trigger] first[i]) by {
            assert(first[i] == kept[i]);
        }
        lemma_trimmed_keeps_digitless(first);
        let t = trimmed(first);
        let normal = with_point_decimal(t, comma_decimal);
        if comma_decimal {
            lemma_filter_keeps_digitless(t, crate::text::other_than('.'));
        } else {
            lemma_filter_keeps_digitless(t, crate::text::other_than(','));
        }
        assert forall|i: int| 0 <= i < normal.len() implies !is_digit(#[trigger] normal[i]) by {
            if comma_decimal {
                assert(!is_digit(without_char(t, '.')[i]));
            }
        }
        assert(!crate::decimal::is_decimal_text(normal));
    }
}

} // verus!
