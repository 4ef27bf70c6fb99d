//! Exact USD pricing of provider token usage.
//!
//! Amounts are billionths of one dollar. Nothing here rounds through a
//! floating-point number: rates and amounts are parsed from and written as
//! plain decimals.
use crate::text;
use crate::text::{
    chars_of, decimal_text, digit, is_blank, join, join3, push_char, quoted, same_text,
};
use crate::MODEL;
use vstd::prelude::*;
use vstd::string::*;

verus! {

/// Billionths of one dollar in a dollar.
pub const NANO_USD_PER_USD: u64 = 1_000_000_000;

/// Tokens that a rate is stated for.
pub const TOKENS_PER_MILLION: u128 = 1_000_000;

/// Availability of a local USD estimate.
#[derive(Clone, Copy, Debug, PartialEq, Eq, Structural)]
#[non_exhaustive]
pub enum CostStatus {
    /// An explicit pricing snapshot was applied to provider usage.
    EstimatedFromUsage,
    /// The application did not configure pricing.
    PricingNotConfigured,
    /// Pricing was configured but the provider omitted usage.
    UsageNotReported,
    /// A retained record used an older or unknown status.
    Other,
}

impl Default for CostStatus {
    fn default() -> (r: Self)
        ensures
            r == CostStatus::PricingNotConfigured,
    {
        CostStatus::PricingNotConfigured
    }
}

impl CostStatus {
    /// The wire name of a status.
    pub open spec fn name(self) -> Seq<char> {
        match self {
            CostStatus::EstimatedFromUsage => "estimated_from_usage"@,
            CostStatus::PricingNotConfigured => "pricing_not_configured"@,
            CostStatus::UsageNotReported => "usage_not_reported"@,
            CostStatus::Other => "other"@,
        }
    }

    /// Returns the stable snake-case wire name.
    pub fn as_str(self) -> (r: &'static str)
        ensures
            r@ == self.name(),
    {
        match self {
            CostStatus::EstimatedFromUsage => "estimated_from_usage",
            CostStatus::PricingNotConfigured => "pricing_not_configured",
            CostStatus::UsageNotReported => "usage_not_reported",
            CostStatus::Other => "other",
        }
    }

    /// The status that a wire name stands for. Every name that is not one of
    /// the known ones stands for [`CostStatus::Other`].
    pub open spec fn named(name: Seq<char>) -> CostStatus {
        if name == CostStatus::EstimatedFromUsage.name() {
            CostStatus::EstimatedFromUsage
        } else if name == CostStatus::PricingNotConfigured.name() {
            CostStatus::PricingNotConfigured
        } else if name == CostStatus::UsageNotReported.name() {
            CostStatus::UsageNotReported
        } else {
            CostStatus::Other
        }
    }

    /// Reads a wire name, keeping unknown ones as [`CostStatus::Other`].
    pub fn from_name(name: &str) -> (r: CostStatus)
        ensures
            r == CostStatus::named(name@),
    {
        if same_text(name, "estimated_from_usage") {
            CostStatus::EstimatedFromUsage
        } else if same_text(name, "pricing_not_configured") {
            CostStatus::PricingNotConfigured
        } else if same_text(name, "usage_not_reported") {
            CostStatus::UsageNotReported
        } else {
            CostStatus::Other
        }
    }
}

/// Every status is read back from its own wire name.
pub proof fn law_cost_status_names_are_stable(status: CostStatus)
    ensures
        CostStatus::named(status.name()) == status,
{
    reveal_strlit("estimated_from_usage");
    reveal_strlit("pricing_not_configured");
    reveal_strlit("usage_not_reported");
    reveal_strlit("other");
    assert("estimated_from_usage"@.len() == 20);
    assert("pricing_not_configured"@.len() == 22);
    assert("usage_not_reported"@.len() == 18);
    assert("other"@.len() == 5);
}

/// What a decimal USD text stands for.
pub enum DecimalUsd {
    /// The text is empty.
    Empty,
    /// The text is no plain non-negative decimal.
    Invalid,
    /// The text has more than nine decimal places.
    TooPrecise,
    /// The amount does not fit.
    Overflow,
    /// The amount in billionths of one dollar.
    Value(u64),
}

/// The position of the first decimal point, or the length when there is none.
pub open spec fn point_position(text: Seq<char>) -> int
    decreases text.len(),
{
    if text.len() == 0 {
        0
    } else if text[0] == '.' {
        0
    } else {
        1 + point_position(text.skip(1))
    }
}

/// The part of a decimal before its first point.
pub open spec fn whole_part(text: Seq<char>) -> Seq<char> {
    text.take(point_position(text))
}

/// The part of a decimal behind its first point.
pub open spec fn fractional_part(text: Seq<char>) -> Seq<char> {
    if point_position(text) < text.len() {
        text.skip(point_position(text) + 1)
    } else {
        Seq::empty()
    }
}

/// The billionths of one dollar that a well-formed decimal stands for.
pub open spec fn decimal_nano(text: Seq<char>) -> int {
    text::digits_value(whole_part(text)) * 1_000_000_000 + text::digits_value(fractional_part(text)) * text::ten_to(
        (9 - fractional_part(text).len()) as nat,
    )
}

/// How a decimal USD text is read.
pub open spec fn decimal_usd(text: Seq<char>) -> DecimalUsd {
    if text.len() == 0 {
        DecimalUsd::Empty
    } else if whole_part(text).len() == 0 || !text::all_digits(whole_part(text)) || !text::all_digits(
        fractional_part(text),
    ) {
        DecimalUsd::Invalid
    } else if fractional_part(text).len() > 9 {
        DecimalUsd::TooPrecise
    } else if decimal_nano(text) > u64::MAX {
        DecimalUsd::Overflow
    } else {
        DecimalUsd::Value(decimal_nano(text) as u64)
    }
}

/// The canonical decimal of an amount in billionths of one dollar.
pub open spec fn canonical_usd(nano_usd: nat) -> Seq<char> {
    let whole = text::decimal_digits(nano_usd / 1_000_000_000);
    let fractional = nano_usd % 1_000_000_000;
    if fractional == 0 {
        whole
    } else {
        whole + seq!['.'] + text::without_trailing(text::padded_digits(fractional, 9), '0')
    }
}

/// Invalid decimal USD input.
#[derive(Debug, PartialEq, Eq)]
pub enum UsdParseError {
    /// The amount was empty.
    Empty,
    /// The amount was not a plain non-negative decimal.
    Invalid {
        /// Rejected input.
        value: String,
    },
    /// More than nine decimal places were supplied.
    TooPrecise {
        /// Rejected input.
        value: String,
    },
    /// The exact amount exceeded the supported range.
    Overflow {
        /// Rejected input.
        value: String,
    },
}

impl Clone for UsdParseError {
    fn clone(&self) -> (r: Self)
        ensures
            r == *self,
    {
        match self {
            UsdParseError::Empty => UsdParseError::Empty,
            UsdParseError::Invalid { value } => UsdParseError::Invalid { value: value.clone() },
            UsdParseError::TooPrecise { value } => UsdParseError::TooPrecise {
                value: value.clone(),
            },
            UsdParseError::Overflow { value } => UsdParseError::Overflow { value: value.clone() },
        }
    }
}

impl UsdParseError {
    /// Whether this is the error owed for a text.
    pub open spec fn reports(self, text: Seq<char>) -> bool {
        match decimal_usd(text) {
            DecimalUsd::Empty => self is Empty,
            DecimalUsd::Invalid => self is Invalid && self->Invalid_value@ == text,
            DecimalUsd::TooPrecise => self is TooPrecise && self->TooPrecise_value@ == text,
            DecimalUsd::Overflow => self is Overflow && self->Overflow_value@ == text,
            DecimalUsd::Value(_) => false,
        }
    }
}

/// Finds the first decimal point.
fn find_point(chars: &Vec<char>) -> (r: usize)
    ensures
        r == point_position(chars@),
        r <= chars@.len(),
{
    let mut i: usize = 0;
    proof {
        assert(chars@.skip(0) =~= chars@);
    }
    while i < chars.len() && chars[i] != '.'
        invariant
            i <= chars@.len(),
            point_position(chars@) == i + point_position(chars@.skip(i as int)),
        decreases chars@.len() - i,
    {
        proof {
            assert(chars@.skip(i as int)[0] == chars@[i as int]);
            assert(chars@.skip(i as int).skip(1) =~= chars@.skip(i as int + 1));
        }
        i = i + 1;
    }
    proof {
        if i < chars@.len() {
            assert(chars@.skip(i as int)[0] == chars@[i as int]);
        }
    }
    i
}

/// Tests whether the characters from `from` to `to` are decimal digits.
fn digits_only(chars: &Vec<char>, from: usize, to: usize) -> (r: bool)
    requires
        from <= to <= chars@.len(),
    ensures
        r == text::all_digits(chars@.subrange(from as int, to as int)),
{
    let mut i: usize = from;
    while i < to
        invariant
            from <= i <= to <= chars@.len(),
            forall|j: int| from <= j < i ==> text::is_digit(#[trigger] chars@[j]),
        decreases to - i,
    {
        let code: u32 = chars[i] as u32;
        if code < 48 || code > 57 {
            proof {
                assert(!text::is_digit(chars@.subrange(from as int, to as int)[i - from]));
            }
            return false;
        }
        i = i + 1;
    }
    true
}

/// Reads the decimal digits from `from` to `to`, unless they exceed a `u64`.
fn read_digits(chars: &Vec<char>, from: usize, to: usize) -> (r: Option<u64>)
    requires
        from <= to <= chars@.len(),
        text::all_digits(chars@.subrange(from as int, to as int)),
    ensures
        r is Some <==> text::digits_value(chars@.subrange(from as int, to as int)) <= u64::MAX,
        r is Some ==> r->0 == text::digits_value(chars@.subrange(from as int, to as int)),
{
    let ghost digits = chars@.subrange(from as int, to as int);
    let mut total: u64 = 0;
    let mut i: usize = from;
    while i < to
        invariant
            from <= i <= to <= chars@.len(),
            digits == chars@.subrange(from as int, to as int),
            text::all_digits(digits),
            total == text::digits_value(digits.take(i - from)),
        decreases to - i,
    {
        proof {
            assert(text::is_digit(digits[i - from]));
            assert(digits.take(i + 1 - from).drop_last() =~= digits.take(i - from));
            text::lemma_digits_value_prefix(digits, i + 1 - from);
        }
        let value: u64 = (chars[i] as u32 - 48) as u64;
        let scaled = total.checked_mul(10);
        let Some(scaled) = scaled else {
            return None;
        };
        let Some(next) = scaled.checked_add(value) else {
            return None;
        };
        total = next;
        i = i + 1;
    }
    proof {
        assert(digits.take(to - from) =~= digits);
    }
    Some(total)
}

/// Ten to the power of `k`, for the nine places of a billionth.
fn power_of_ten(k: u32) -> (r: u64)
    requires
        k <= 9,
    ensures
        r == text::ten_to(k as nat),
        r <= 1_000_000_000,
{
    proof {
        reveal_with_fuel(text::ten_to, 10);
    }
    match k {
        0 => 1,
        1 => 10,
        2 => 100,
        3 => 1_000,
        4 => 10_000,
        5 => 100_000,
        6 => 1_000_000,
        7 => 10_000_000,
        8 => 100_000_000,
        _ => 1_000_000_000,
    }
}

/// Reads a plain decimal USD text as billionths of one dollar.
pub fn parse_decimal_usd(value: &str) -> (r: Result<u64, UsdParseError>)
    ensures
        match r {
            Ok(nano_usd) => decimal_usd(value@) == DecimalUsd::Value(nano_usd),
            Err(error) => error.reports(value@),
        },
{
    let chars = chars_of(value);
    if chars.len() == 0 {
        return Err(UsdParseError::Empty);
    }
    let point = find_point(&chars);
    let length: usize = chars.len();
    let start: usize = if point < length {
        point + 1
    } else {
        length
    };
    proof {
        assert(chars@.subrange(0, point as int) =~= whole_part(value@));
        assert(chars@.subrange(start as int, length as int) =~= fractional_part(value@));
    }
    if point == 0 || !digits_only(&chars, 0, point) || !digits_only(&chars, start, length) {
        return Err(UsdParseError::Invalid { value: value.to_owned() });
    }
    if length - start > 9 {
        return Err(UsdParseError::TooPrecise { value: value.to_owned() });
    }
    let places: u32 = (length - start) as u32;
    proof {
        text::lemma_digits_value_bound(fractional_part(value@));
        text::lemma_digits_value_bound(whole_part(value@));
        lemma_nine_places(text::digits_value(fractional_part(value@)), places as nat);
    }
    let Some(whole) = read_digits(&chars, 0, point) else {
        return Err(UsdParseError::Overflow { value: value.to_owned() });
    };
    let Some(fractional) = read_digits(&chars, start, length) else {
        return Err(UsdParseError::Overflow { value: value.to_owned() });
    };
    let scale: u64 = power_of_ten(9 - places);
    let fractional: u64 = fractional * scale;
    let Some(whole) = whole.checked_mul(NANO_USD_PER_USD) else {
        return Err(UsdParseError::Overflow { value: value.to_owned() });
    };
    let Some(total) = whole.checked_add(fractional) else {
        return Err(UsdParseError::Overflow { value: value.to_owned() });
    };
    Ok(total)
}

/// A fraction of at most nine places, scaled to billionths, is below a dollar.
proof fn lemma_nine_places(fraction: int, places: nat)
    requires
        places <= 9,
        0 <= fraction < text::ten_to(places),
    ensures
        0 <= fraction * text::ten_to((9 - places) as nat) < 1_000_000_000,
        fraction < 1_000_000_000,
{
    let scale = text::ten_to((9 - places) as nat);
    let limit = text::ten_to(places);
    lemma_ten_to_complement(places);
    assert(0 <= fraction * scale < limit * scale) by (nonlinear_arith)
        requires
            0 <= fraction < limit,
            scale >= 1,
    ;
    assert(fraction <= fraction * scale) by (nonlinear_arith)
        requires
            0 <= fraction,
            scale >= 1,
    ;
}

/// Ten to a power times ten to what is missing to nine is a billion.
proof fn lemma_ten_to_complement(places: nat)
    requires
        places <= 9,
    ensures
        text::ten_to(places) * text::ten_to((9 - places) as nat) == 1_000_000_000,
        text::ten_to((9 - places) as nat) >= 1,
{
    reveal_with_fuel(text::ten_to, 10);
    text::lemma_ten_to_sum(places, (9 - places) as nat);
    text::lemma_ten_to_positive((9 - places) as nat);
}

/// Writes billionths of one dollar as a canonical decimal.
pub fn format_decimal_usd(nano_usd: u64) -> (r: String)
    ensures
        r@ == canonical_usd(nano_usd as nat),
{
    let whole: u64 = nano_usd / NANO_USD_PER_USD;
    let fractional: u64 = nano_usd % NANO_USD_PER_USD;
    let mut out = decimal_text(whole);
    if fractional == 0 {
        return out;
    }
    push_char(&mut out, '.');
    let mut rest: u64 = fractional;
    let mut places: u32 = 9;
    proof {
        reveal_with_fuel(text::ten_to, 10);
    }
    while rest % 10 == 0
        invariant
            places <= 9,
            0 < rest < text::ten_to(places as nat),
            text::without_trailing(text::padded_digits(fractional as nat, 9), '0') == text::without_trailing(
                text::padded_digits(rest as nat, places as nat),
                '0',
            ),
        decreases places,
    {
        proof {
            reveal_with_fuel(text::ten_to, 2);
            let digits = text::padded_digits(rest as nat, places as nat);
            assert(digits.drop_last() =~= text::padded_digits(
                (rest / 10) as nat,
                (places - 1) as nat,
            ));
            assert(digits.last() == '0');
        }
        rest = rest / 10;
        places = places - 1;
    }
    proof {
        let digits = text::padded_digits(rest as nat, places as nat);
        assert(places > 0);
        assert(digits.last() == text::digit_char((rest % 10) as int));
        assert(digits.last() != '0');
    }
    append_padded(&mut out, rest, places);
    proof {
        let whole = text::decimal_digits(nano_usd as nat / 1_000_000_000);
        assert(out@ =~= whole + seq!['.'] + text::padded_digits(rest as nat, places as nat));
    }
    out
}

/// Appends the last `places` decimal digits of a number, with leading zeros.
fn append_padded(target: &mut String, number: u64, places: u32)
    ensures
        final(target)@ == old(target)@ + text::padded_digits(number as nat, places as nat),
    decreases places,
{
    if places == 0 {
        proof {
            assert(target@ =~= target@ + text::padded_digits(number as nat, 0));
        }
    } else {
        append_padded(target, number / 10, places - 1);
        push_char(target, digit((number % 10) as u8));
        proof {
            assert(target@ =~= old(target)@ + text::padded_digits(number as nat, places as nat));
        }
    }
}

/// Trailing zeros behind the point do not change what digits stand for.
proof fn lemma_without_trailing_zeros(digits: Seq<char>, width: nat)
    requires
        text::all_digits(digits),
        digits.len() <= width,
    ensures
        text::all_digits(text::without_trailing(digits, '0')),
        text::without_trailing(digits, '0').len() <= digits.len(),
        text::digits_value(text::without_trailing(digits, '0')) * text::ten_to(
            (width - text::without_trailing(digits, '0').len()) as nat,
        ) == text::digits_value(digits) * text::ten_to((width - digits.len()) as nat),
    decreases digits.len(),
{
    if digits.len() > 0 && digits.last() == '0' {
        let shorter = digits.drop_last();
        assert forall|i: int| 0 <= i < shorter.len() implies text::is_digit(#[trigger] shorter[i]) by {
            assert(shorter[i] == digits[i]);
        }
        lemma_without_trailing_zeros(shorter, width);
        let more = text::ten_to((width - shorter.len()) as nat);
        let less = text::ten_to((width - digits.len()) as nat);
        let value = text::digits_value(shorter);
        assert(more == 10 * less);
        assert(text::digits_value(digits) == 10 * value);
        assert(value * (10 * less) == (10 * value) * less) by (nonlinear_arith);
    }
}

/// Writing an amount and reading it back gives the amount.
pub proof fn law_decimal_round_trip(nano_usd: u64)
    ensures
        decimal_usd(canonical_usd(nano_usd as nat)) == DecimalUsd::Value(nano_usd),
{
    let n = nano_usd as nat;
    let whole = text::decimal_digits(n / 1_000_000_000);
    let fraction = n % 1_000_000_000;
    let text = canonical_usd(n);
    text::lemma_decimal_digits(n / 1_000_000_000);
    lemma_no_point_in_digits(whole);
    if fraction == 0 {
        assert(text.take(text.len() as int) =~= text);
        assert(text::digits_value(Seq::<char>::empty()) == 0);
        assert(text::all_digits(Seq::<char>::empty()));
        assert(0 * text::ten_to(9) == 0) by (nonlinear_arith);
        assert(decimal_nano(text) == n);
    } else {
        let padded = text::padded_digits(fraction, 9);
        let digits = text::without_trailing(padded, '0');
        assert(text::ten_to(9) == 1_000_000_000) by {
            reveal_with_fuel(text::ten_to, 10);
        }
        text::lemma_padded_digits(fraction, 9);
        lemma_without_trailing_zeros(padded, 9);
        lemma_point_behind_digits(whole, digits);
        assert(text == whole + seq!['.'] + digits);
        assert(whole_part(text) =~= whole);
        assert(fractional_part(text) =~= digits);
        assert(text::ten_to(0) == 1);
        assert(text::digits_value(padded) * 1 == fraction);
    }
}

/// A text of digits has no decimal point.
proof fn lemma_no_point_in_digits(text: Seq<char>)
    requires
        text::all_digits(text),
    ensures
        point_position(text) == text.len(),
    decreases text.len(),
{
    if text.len() > 0 {
        assert(text::is_digit(text[0]));
        assert forall|i: int| 0 <= i < text.skip(1).len() implies text::is_digit(
            #[trigger] text.skip(1)[i],
        ) by {
            assert(text.skip(1)[i] == text[i + 1]);
        }
        lemma_no_point_in_digits(text.skip(1));
    }
}

/// The first point of digits, a point and more is the one behind the digits.
proof fn lemma_point_behind_digits(whole: Seq<char>, rest: Seq<char>)
    requires
        text::all_digits(whole),
    ensures
        point_position(whole + seq!['.'] + rest) == whole.len(),
    decreases whole.len(),
{
    let text = whole + seq!['.'] + rest;
    if whole.len() > 0 {
        assert(text::is_digit(whole[0]));
        assert(text[0] == whole[0]);
        assert forall|i: int| 0 <= i < whole.skip(1).len() implies text::is_digit(
            #[trigger] whole.skip(1)[i],
        ) by {
            assert(whole.skip(1)[i] == whole[i + 1]);
        }
        lemma_point_behind_digits(whole.skip(1), rest);
        assert(text.skip(1) =~= whole.skip(1) + seq!['.'] + rest);
    } else {
        assert(text[0] == '.');
    }
}

/// Different amounts are written differently.
pub proof fn law_decimal_is_injective(a: u64, b: u64)
    requires
        canonical_usd(a as nat) == canonical_usd(b as nat),
    ensures
        a == b,
{
    law_decimal_round_trip(a);
    law_decimal_round_trip(b);
}

/// A canonical decimal never ends in a zero behind its point, and has at most
/// nine places there.
pub proof fn law_decimal_is_canonical(nano_usd: u64)
    ensures
        fractional_part(canonical_usd(nano_usd as nat)).len() <= 9,
        fractional_part(canonical_usd(nano_usd as nat)).len() > 0 ==> fractional_part(
            canonical_usd(nano_usd as nat),
        ).last() != '0',
{
    let n = nano_usd as nat;
    let whole = text::decimal_digits(n / 1_000_000_000);
    let fraction = n % 1_000_000_000;
    text::lemma_decimal_digits(n / 1_000_000_000);
    lemma_no_point_in_digits(whole);
    if fraction != 0 {
        let padded = text::padded_digits(fraction, 9);
        let digits = text::without_trailing(padded, '0');
        assert(text::ten_to(9) == 1_000_000_000) by {
            reveal_with_fuel(text::ten_to, 10);
        }
        text::lemma_padded_digits(fraction, 9);
        lemma_without_trailing_zeros(padded, 9);
        lemma_point_behind_digits(whole, digits);
        assert(fractional_part(canonical_usd(n)) =~= digits);
        lemma_without_trailing_last(padded, '0');
    }
}

/// What is left without trailing repetitions does not end in the character.
proof fn lemma_without_trailing_last(text: Seq<char>, c: char)
    ensures
        text::without_trailing(text, c).len() > 0 ==> text::without_trailing(text, c).last() != c,
    decreases text.len(),
{
    if text.len() > 0 && text.last() == c {
        lemma_without_trailing_last(text.drop_last(), c);
    }
}

/// An exact non-negative amount of United States dollars.
///
/// The value is stored as billionths of one dollar and written as a decimal
/// string, so it never rounds through a floating-point number.
#[derive(Clone, Copy, Debug, PartialEq, Eq, PartialOrd, Ord, Structural)]
pub struct UsdAmount {
    nano_usd: u64,
}

impl View for UsdAmount {
    type V = u64;

    closed spec fn view(&self) -> u64 {
        self.nano_usd
    }
}

impl Default for UsdAmount {
    fn default() -> (r: Self)
        ensures
            r@ == 0,
    {
        UsdAmount { nano_usd: 0 }
    }
}

/// The sum of two amounts, or the largest amount where the sum does not fit.
pub open spec fn capped_sum(a: u64, b: u64) -> u64 {
    if a + b > u64::MAX {
        u64::MAX
    } else {
        (a + b) as u64
    }
}

impl UsdAmount {
    /// Creates an amount from billionths of one dollar.
    pub fn from_nano_usd(nano_usd: u64) -> (r: Self)
        ensures
            r@ == nano_usd,
    {
        UsdAmount { nano_usd }
    }

    /// Returns the exact amount in billionths of one dollar.
    pub fn nano_usd(self) -> (r: u64)
        ensures
            r == self@,
    {
        self.nano_usd
    }

    /// Returns a decimal USD string without a currency symbol.
    pub fn decimal(self) -> (r: String)
        ensures
            r@ == canonical_usd(self@ as nat),
    {
        format_decimal_usd(self.nano_usd)
    }

    /// Returns the decimal with a leading dollar sign.
    pub fn display(self) -> (r: String)
        ensures
            r@ == "$"@ + canonical_usd(self@ as nat),
    {
        join("$", self.decimal().as_str())
    }

    /// Reads an amount from the decimal that [`UsdAmount::decimal`] writes.
    pub fn parse(value: &str) -> (r: Result<Self, UsdParseError>)
        ensures
            match r {
                Ok(amount) => decimal_usd(value@) == DecimalUsd::Value(amount@),
                Err(error) => error.reports(value@),
            },
    {
        match parse_decimal_usd(value) {
            Ok(nano_usd) => Ok(UsdAmount { nano_usd }),
            Err(error) => Err(error),
        }
    }

    /// Adds two amounts, stopping at the largest one.
    pub fn saturating_add(self, other: Self) -> (r: Self)
        ensures
            r@ == capped_sum(self@, other@),
    {
        UsdAmount { nano_usd: self.nano_usd.saturating_add(other.nano_usd) }
    }
}

/// Exact USD rate for one million tokens in a single billing class.
///
/// Parse a plain decimal USD value such as `"1.25"` or `"0.125"`.
#[derive(Clone, Copy, Debug, PartialEq, Eq, PartialOrd, Ord, Structural)]
pub struct UsdPerMillionTokens {
    nano_usd: u64,
}

impl View for UsdPerMillionTokens {
    type V = u64;

    closed spec fn view(&self) -> u64 {
        self.nano_usd
    }
}

impl Default for UsdPerMillionTokens {
    fn default() -> (r: Self)
        ensures
            r@ == 0,
    {
        UsdPerMillionTokens { nano_usd: 0 }
    }
}

/// The price of tokens at a rate per million, rounded to the nearest billionth
/// of one dollar, halves upward, and capped at the largest amount.
pub open spec fn priced(tokens: u64, rate: u64) -> u64 {
    let rounded = (tokens * rate + 500_000) / 1_000_000;
    if rounded > u64::MAX {
        u64::MAX
    } else {
        rounded as u64
    }
}

impl UsdPerMillionTokens {
    /// Creates a rate from billionths of one USD per million tokens.
    pub fn from_nano_usd(nano_usd: u64) -> (r: Self)
        ensures
            r@ == nano_usd,
    {
        UsdPerMillionTokens { nano_usd }
    }

    /// Returns billionths of one USD per million tokens.
    pub fn nano_usd(self) -> (r: u64)
        ensures
            r == self@,
    {
        self.nano_usd
    }

    /// Returns the rate as a decimal USD string.
    pub fn decimal(self) -> (r: String)
        ensures
            r@ == canonical_usd(self@ as nat),
    {
        format_decimal_usd(self.nano_usd)
    }

    /// Reads a rate from a plain decimal.
    pub fn parse(value: &str) -> (r: Result<Self, UsdParseError>)
        ensures
            match r {
                Ok(rate) => decimal_usd(value@) == DecimalUsd::Value(rate@),
                Err(error) => error.reports(value@),
            },
    {
        match parse_decimal_usd(value) {
            Ok(nano_usd) => Ok(UsdPerMillionTokens { nano_usd }),
            Err(error) => Err(error),
        }
    }

    /// Prices a number of tokens.
    pub fn estimate(self, tokens: u64) -> (r: UsdAmount)
        ensures
            r@ == priced(tokens, self@),
    {
        proof {
            lemma_product_fits(tokens, self.nano_usd);
        }
        let numerator: u128 = tokens as u128 * self.nano_usd as u128;
        let rounded: u128 = (numerator + TOKENS_PER_MILLION / 2) / TOKENS_PER_MILLION;
        if rounded > u64::MAX as u128 {
            UsdAmount { nano_usd: u64::MAX }
        } else {
            UsdAmount { nano_usd: rounded as u64 }
        }
    }
}

/// The product of two `u64` values and half a million fits in a `u128`.
proof fn lemma_product_fits(a: u64, b: u64)
    ensures
        0 <= a * b <= u128::MAX - 500_000,
{
    assert(0 <= a * b <= 0xffff_ffff_ffff_ffff * 0xffff_ffff_ffff_ffff) by (nonlinear_arith);
}

impl std::str::FromStr for UsdPerMillionTokens {
    type Err = UsdParseError;

    fn from_str(value: &str) -> (r: Result<Self, UsdParseError>)
        ensures
            match r {
                Ok(rate) => decimal_usd(value@) == DecimalUsd::Value(rate@),
                Err(error) => error.reports(value@),
            },
    {
        UsdPerMillionTokens::parse(value)
    }
}

/// Per-million-token rates used by one immutable pricing snapshot.
///
/// Provider input usage includes cached and cache-write tokens. Estimation
/// subtracts those two classes before applying `input`, so every reported
/// input token is priced exactly once. Reasoning tokens remain part of
/// `output` and are not charged a second time.
#[derive(Clone, Copy, Debug, PartialEq, Eq, Structural)]
pub struct TokenRates {
    /// Ordinary input tokens, in USD per million tokens.
    pub input: UsdPerMillionTokens,
    /// Cache-read input tokens, in USD per million tokens.
    pub cached_input: UsdPerMillionTokens,
    /// Newly cached input tokens, in USD per million tokens.
    pub cache_write_input: UsdPerMillionTokens,
    /// Output tokens, including reasoning tokens, in USD per million tokens.
    pub output: UsdPerMillionTokens,
}

/// Input tokens by the class that prices them.
pub struct InputClasses {
    /// Tokens that are neither read from nor written to the cache.
    pub ordinary: u64,
    /// Tokens read from the cache.
    pub cached: u64,
    /// Tokens newly written to the cache.
    pub cache_write: u64,
}

/// Splits reported input tokens into billing classes: cache reads first, then
/// cache writes, each no more than what is left, and the rest as ordinary.
pub open spec fn input_classes(input: u64, cached: u64, cache_write: u64) -> InputClasses {
    let read = if cached < input {
        cached
    } else {
        input
    };
    let left = (input - read) as u64;
    let written = if cache_write < left {
        cache_write
    } else {
        left
    };
    InputClasses { ordinary: (left - written) as u64, cached: read, cache_write: written }
}

/// Every reported input token falls in exactly one billing class.
pub proof fn law_input_tokens_priced_once(input: u64, cached: u64, cache_write: u64)
    ensures
        ({
            let classes = input_classes(input, cached, cache_write);
            classes.ordinary + classes.cached + classes.cache_write == input
        }),
        cached + cache_write <= input ==> input_classes(input, cached, cache_write).cached == cached
            && input_classes(input, cached, cache_write).cache_write == cache_write,
{
}

/// What a pricing snapshot states.
pub struct PricingView {
    /// Application-selected pricing version.
    pub id: Seq<char>,
    /// URL or durable identifier of the rates.
    pub source: Seq<char>,
    /// ISO date on which the rates became effective.
    pub effective_date: Seq<char>,
    /// Model contract that the rates cover.
    pub model: Seq<char>,
    /// The rates.
    pub rates: TokenRates,
}

/// What a cost estimate states, in billionths of one dollar.
pub struct CostView {
    /// The aggregate estimate.
    pub amount: u64,
    /// The ordinary-input component.
    pub input: u64,
    /// The cache-read component.
    pub cached_input: u64,
    /// The cache-write component.
    pub cache_write_input: u64,
    /// The output component.
    pub output: u64,
    /// The rates and their provenance.
    pub pricing: PricingView,
}

/// The estimate that a pricing snapshot gives for token counts.
pub open spec fn cost_of(
    pricing: PricingView,
    input: u64,
    cached: u64,
    cache_write: u64,
    output: u64,
) -> CostView {
    let classes = input_classes(input, cached, cache_write);
    let ordinary_cost = priced(classes.ordinary, pricing.rates.input@);
    let cached_cost = priced(classes.cached, pricing.rates.cached_input@);
    let write_cost = priced(classes.cache_write, pricing.rates.cache_write_input@);
    let output_cost = priced(output, pricing.rates.output@);
    CostView {
        amount: capped_sum(
            capped_sum(capped_sum(ordinary_cost, cached_cost), write_cost),
            output_cost,
        ),
        input: ordinary_cost,
        cached_input: cached_cost,
        cache_write_input: write_cost,
        output: output_cost,
        pricing,
    }
}

/// An estimate's amount is the sum of its four components, capped at the
/// largest amount.
pub proof fn law_cost_is_sum_of_components(
    pricing: PricingView,
    input: u64,
    cached: u64,
    cache_write: u64,
    output: u64,
)
    ensures
        ({
            let cost = cost_of(pricing, input, cached, cache_write, output);
            let sum = cost.input + cost.cached_input + cost.cache_write_input + cost.output;
            cost.amount == if sum > u64::MAX {
                u64::MAX as int
            } else {
                sum
            }
        }),
{
}

/// No tokens cost nothing.
pub proof fn law_no_tokens_cost_nothing(pricing: PricingView, cached: u64, cache_write: u64)
    ensures
        cost_of(pricing, 0, cached, cache_write, 0).amount == 0,
{
    assert(priced(0, pricing.rates.input@) == 0) by {
        assert(0 * pricing.rates.input@ == 0) by (nonlinear_arith);
    }
    assert(priced(0, pricing.rates.cached_input@) == 0) by {
        assert(0 * pricing.rates.cached_input@ == 0) by (nonlinear_arith);
    }
    assert(priced(0, pricing.rates.cache_write_input@) == 0) by {
        assert(0 * pricing.rates.cache_write_input@ == 0) by (nonlinear_arith);
    }
    assert(priced(0, pricing.rates.output@) == 0) by {
        assert(0 * pricing.rates.output@ == 0) by (nonlinear_arith);
    }
}

/// Token counts of one provider operation.
#[derive(Clone, Copy, Debug, PartialEq, Eq, Structural)]
pub struct Usage {
    /// All input tokens.
    pub input_tokens: u64,
    /// Cache classes of the input tokens, where the provider reports them.
    pub input_tokens_details: Option<InputTokenDetails>,
    /// All output tokens.
    pub output_tokens: u64,
    /// Reasoning share of the output tokens, where the provider reports it.
    pub output_tokens_details: Option<OutputTokenDetails>,
    /// The provider's own total.
    pub total_tokens: u64,
}

/// Cache classes of input tokens.
#[derive(Clone, Copy, Debug, PartialEq, Eq, Structural)]
pub struct InputTokenDetails {
    /// Tokens read from the prompt cache.
    pub cached_tokens: u64,
    /// Tokens newly written to the prompt cache.
    pub cache_write_tokens: u64,
}

/// Classes of output tokens.
#[derive(Clone, Copy, Debug, PartialEq, Eq, Structural)]
pub struct OutputTokenDetails {
    /// Tokens spent on reasoning.
    pub reasoning_tokens: u64,
}

impl Usage {
    /// Input tokens read from the prompt cache; none when not reported.
    pub open spec fn cached(self) -> u64 {
        match self.input_tokens_details {
            Some(details) => details.cached_tokens,
            None => 0,
        }
    }

    /// Input tokens written to the prompt cache; none when not reported.
    pub open spec fn cache_write(self) -> u64 {
        match self.input_tokens_details {
            Some(details) => details.cache_write_tokens,
            None => 0,
        }
    }

    /// Output tokens spent on reasoning; none when not reported.
    pub open spec fn reasoning(self) -> u64 {
        match self.output_tokens_details {
            Some(details) => details.reasoning_tokens,
            None => 0,
        }
    }

    /// Returns the input tokens read from the prompt cache.
    pub fn cached_input_tokens(&self) -> (r: u64)
        ensures
            r == self.cached(),
    {
        match &self.input_tokens_details {
            Some(details) => details.cached_tokens,
            None => 0,
        }
    }

    /// Returns the input tokens written to the prompt cache.
    pub fn cache_write_input_tokens(&self) -> (r: u64)
        ensures
            r == self.cache_write(),
    {
        match &self.input_tokens_details {
            Some(details) => details.cache_write_tokens,
            None => 0,
        }
    }

    /// Returns the output tokens spent on reasoning.
    pub fn reasoning_output_tokens(&self) -> (r: u64)
        ensures
            r == self.reasoning(),
    {
        match &self.output_tokens_details {
            Some(details) => details.reasoning_tokens,
            None => 0,
        }
    }
}

/// Invalid pricing snapshot metadata.
#[derive(Debug, PartialEq, Eq)]
pub enum PricingError {
    /// Snapshot identity was empty.
    EmptyId,
    /// Pricing provenance was empty.
    EmptySource,
    /// The date was not an ISO calendar date.
    InvalidEffectiveDate {
        /// Rejected date.
        value: String,
    },
    /// The snapshot targeted a model outside the fixed contract.
    UnsupportedModel {
        /// Rejected model.
        model: String,
    },
}

/// The number of days in a month of the Gregorian calendar, and none for a
/// number that is no month.
pub open spec fn month_days(year: int, month: int) -> int {
    if month == 2 {
        if year % 400 == 0 || (year % 4 == 0 && year % 100 != 0) {
            29
        } else {
            28
        }
    } else if month == 4 || month == 6 || month == 9 || month == 11 {
        30
    } else if 1 <= month <= 12 {
        31
    } else {
        0
    }
}

/// Whether a text is a calendar date written as `YYYY-MM-DD`.
pub open spec fn iso_date(text: Seq<char>) -> bool {
    let year = text::digits_value(text.subrange(0, 4));
    let month = text::digits_value(text.subrange(5, 7));
    let day = text::digits_value(text.subrange(8, 10));
    &&& text.len() == 10
    &&& text[4] == '-'
    &&& text[7] == '-'
    &&& text::all_digits(text.subrange(0, 4))
    &&& text::all_digits(text.subrange(5, 7))
    &&& text::all_digits(text.subrange(8, 10))
    &&& year != 0
    &&& 1 <= month <= 12
    &&& 1 <= day <= month_days(year, month)
}

/// Returns the number of days in a month.
pub fn days_in_month(year: u16, month: u8) -> (r: u8)
    ensures
        r == month_days(year as int, month as int),
{
    match month {
        1 | 3 | 5 | 7 | 8 | 10 | 12 => 31,
        4 | 6 | 9 | 11 => 30,
        2 => if year % 400 == 0 || (year % 4 == 0 && year % 100 != 0) {
            29
        } else {
            28
        },
        _ => 0,
    }
}

/// Tests whether a text is a calendar date written as `YYYY-MM-DD`.
pub fn is_iso_date(value: &str) -> (r: bool)
    ensures
        r == iso_date(value@),
{
    let chars = chars_of(value);
    if chars.len() != 10 {
        return false;
    }
    if chars[4] != '-' || chars[7] != '-' || !digits_only(&chars, 0, 4) || !digits_only(
        &chars,
        5,
        7,
    ) || !digits_only(&chars, 8, 10) {
        return false;
    }
    proof {
        reveal_with_fuel(text::ten_to, 5);
        text::lemma_digits_value_bound(value@.subrange(0, 4));
        text::lemma_digits_value_bound(value@.subrange(5, 7));
        text::lemma_digits_value_bound(value@.subrange(8, 10));
    }
    let (Some(year), Some(month), Some(day)) = (
        read_digits(&chars, 0, 4),
        read_digits(&chars, 5, 7),
        read_digits(&chars, 8, 10),
    ) else {
        return false;
    };
    year != 0 && 1 <= month && month <= 12 && day != 0 && day <= days_in_month(
        year as u16,
        month as u8,
    ) as u64
}

/// The first complaint about a pricing snapshot's metadata, if any.
pub open spec fn pricing_complaint(pricing: PricingView) -> Option<PricingComplaint> {
    if text::blank(pricing.id) {
        Some(PricingComplaint::EmptyId)
    } else if text::blank(pricing.source) {
        Some(PricingComplaint::EmptySource)
    } else if pricing.model != MODEL@ {
        Some(PricingComplaint::UnsupportedModel)
    } else if !iso_date(pricing.effective_date) {
        Some(PricingComplaint::InvalidEffectiveDate)
    } else {
        None
    }
}

/// What can be wrong with a pricing snapshot's metadata.
pub enum PricingComplaint {
    /// Snapshot identity is blank.
    EmptyId,
    /// Pricing provenance is blank.
    EmptySource,
    /// The model is not the supported one.
    UnsupportedModel,
    /// The date is not an ISO calendar date.
    InvalidEffectiveDate,
}

impl Clone for PricingError {
    fn clone(&self) -> (r: Self)
        ensures
            r == *self,
    {
        match self {
            PricingError::EmptyId => PricingError::EmptyId,
            PricingError::EmptySource => PricingError::EmptySource,
            PricingError::InvalidEffectiveDate { value } => PricingError::InvalidEffectiveDate {
                value: value.clone(),
            },
            PricingError::UnsupportedModel { model } => PricingError::UnsupportedModel {
                model: model.clone(),
            },
        }
    }
}

impl PricingError {
    /// Whether this is the error owed for a snapshot's metadata.
    pub open spec fn reports(self, pricing: PricingView) -> bool {
        match pricing_complaint(pricing) {
            Some(PricingComplaint::EmptyId) => self is EmptyId,
            Some(PricingComplaint::EmptySource) => self is EmptySource,
            Some(PricingComplaint::UnsupportedModel) => self is UnsupportedModel
                && self->model@ == pricing.model,
            Some(PricingComplaint::InvalidEffectiveDate) => self is InvalidEffectiveDate
                && self->value@ == pricing.effective_date,
            None => false,
        }
    }

    /// The message of an error.
    pub open spec fn text(self) -> Seq<char> {
        match self {
            PricingError::EmptyId => "pricing snapshot id must not be empty"@,
            PricingError::EmptySource => "pricing snapshot source must not be empty"@,
            PricingError::InvalidEffectiveDate { value } => "invalid pricing effective date "@
                + text::quoted_text(value@) + "; expected YYYY-MM-DD"@,
            PricingError::UnsupportedModel { model } =>
                "pricing snapshot targets unsupported model "@ + text::quoted_text(model@)
                + "; expected "@ + text::quoted_text(MODEL@),
        }
    }

    /// Describes the error.
    pub fn message(&self) -> (r: String)
        ensures
            r@ == self.text(),
    {
        match self {
            PricingError::EmptyId => "pricing snapshot id must not be empty".to_owned(),
            PricingError::EmptySource => "pricing snapshot source must not be empty".to_owned(),
            PricingError::InvalidEffectiveDate { value } => join3(
                "invalid pricing effective date ",
                quoted(value.as_str()).as_str(),
                "; expected YYYY-MM-DD",
            ),
            PricingError::UnsupportedModel { model } => join3(
                "pricing snapshot targets unsupported model ",
                quoted(model.as_str()).as_str(),
                "; expected ",
            ).concat(quoted(MODEL).as_str()),
        }
    }
}

impl UsdParseError {
    /// The message of an error.
    pub open spec fn text(self) -> Seq<char> {
        match self {
            UsdParseError::Empty => "USD amount must not be empty"@,
            UsdParseError::Invalid { value } => "invalid USD amount "@ + text::quoted_text(value@)
                + "; expected a non-negative decimal"@,
            UsdParseError::TooPrecise { value } => "USD amount "@ + text::quoted_text(value@)
                + " has more than nine decimal places"@,
            UsdParseError::Overflow { value } => "USD amount "@ + text::quoted_text(value@)
                + " is too large"@,
        }
    }

    /// Describes the error.
    pub fn message(&self) -> (r: String)
        ensures
            r@ == self.text(),
    {
        match self {
            UsdParseError::Empty => "USD amount must not be empty".to_owned(),
            UsdParseError::Invalid { value } => join3(
                "invalid USD amount ",
                quoted(value.as_str()).as_str(),
                "; expected a non-negative decimal",
            ),
            UsdParseError::TooPrecise { value } => join3(
                "USD amount ",
                quoted(value.as_str()).as_str(),
                " has more than nine decimal places",
            ),
            UsdParseError::Overflow { value } => join3(
                "USD amount ",
                quoted(value.as_str()).as_str(),
                " is too large",
            ),
        }
    }
}

/// Immutable, auditable pricing input for the one supported model contract.
///
/// The provider reports token usage rather than billed dollars. Cost is
/// therefore estimated only when an application explicitly supplies one of
/// these snapshots.
#[derive(Debug, PartialEq, Eq)]
pub struct PricingSnapshot {
    id: String,
    source: String,
    effective_date: String,
    model: String,
    rates: TokenRates,
}

impl View for PricingSnapshot {
    type V = PricingView;

    closed spec fn view(&self) -> PricingView {
        PricingView {
            id: self.id@,
            source: self.source@,
            effective_date: self.effective_date@,
            model: self.model@,
            rates: self.rates,
        }
    }
}

impl Clone for PricingSnapshot {
    fn clone(&self) -> (r: Self)
        ensures
            r == *self,
    {
        proof {
            use_type_invariant(self);
        }
        PricingSnapshot {
            id: self.id.clone(),
            source: self.source.clone(),
            effective_date: self.effective_date.clone(),
            model: self.model.clone(),
            rates: self.rates,
        }
    }
}

impl PricingSnapshot {
    /// Whether the metadata passed validation.
    pub open spec fn well_formed(&self) -> bool {
        pricing_complaint(self@) is None
    }

    /// Every snapshot that exists passed validation.
    #[verifier::type_invariant]
    spec fn validated(self) -> bool {
        pricing_complaint(self@) is None
    }

    /// Creates a validated pricing snapshot for [`MODEL`].
    pub fn new(id: &str, source: &str, effective_date: &str, rates: TokenRates) -> (r: Result<
        Self,
        PricingError,
    >)
        ensures
            ({
                let stated = PricingView {
                    id: id@,
                    source: source@,
                    effective_date: effective_date@,
                    model: MODEL@,
                    rates,
                };
                match r {
                    Ok(snapshot) => snapshot@ == stated && snapshot.well_formed(),
                    Err(error) => error.reports(stated),
                }
            }),
    {
        PricingSnapshot::for_model(id, source, effective_date, MODEL, rates)
    }

    /// Creates a validated pricing snapshot for a named model.
    pub fn for_model(
        id: &str,
        source: &str,
        effective_date: &str,
        model: &str,
        rates: TokenRates,
    ) -> (r: Result<Self, PricingError>)
        ensures
            ({
                let stated = PricingView {
                    id: id@,
                    source: source@,
                    effective_date: effective_date@,
                    model: model@,
                    rates,
                };
                match r {
                    Ok(snapshot) => snapshot@ == stated && snapshot.well_formed(),
                    Err(error) => error.reports(stated),
                }
            }),
    {
        match PricingSnapshot::validate(id, source, effective_date, model, rates) {
            Ok(()) => {},
            Err(error) => return Err(error),
        }
        Ok(
            PricingSnapshot {
                id: id.to_owned(),
                source: source.to_owned(),
                effective_date: effective_date.to_owned(),
                model: model.to_owned(),
                rates,
            },
        )
    }

    /// Checks the metadata of a snapshot.
    fn validate(
        id: &str,
        source: &str,
        effective_date: &str,
        model: &str,
        rates: TokenRates,
    ) -> (r: Result<(), PricingError>)
        ensures
            ({
                let stated = PricingView {
                    id: id@,
                    source: source@,
                    effective_date: effective_date@,
                    model: model@,
                    rates,
                };
                match r {
                    Ok(_) => pricing_complaint(stated) is None,
                    Err(error) => error.reports(stated),
                }
            }),
    {
        if is_blank(id) {
            return Err(PricingError::EmptyId);
        }
        if is_blank(source) {
            return Err(PricingError::EmptySource);
        }
        if !same_text(model, MODEL) {
            return Err(PricingError::UnsupportedModel { model: model.to_owned() });
        }
        if !is_iso_date(effective_date) {
            return Err(PricingError::InvalidEffectiveDate { value: effective_date.to_owned() });
        }
        Ok(())
    }

    /// Returns the stable application-selected pricing version.
    pub fn id(&self) -> (r: &str)
        ensures
            r@ == self@.id,
            !text::blank(r@),
    {
        proof {
            use_type_invariant(self);
        }
        self.id.as_str()
    }

    /// Returns the URL or durable identifier from which the rates came.
    pub fn source(&self) -> (r: &str)
        ensures
            r@ == self@.source,
            !text::blank(r@),
    {
        proof {
            use_type_invariant(self);
        }
        self.source.as_str()
    }

    /// Returns the ISO date on which these rates became effective.
    pub fn effective_date(&self) -> (r: &str)
        ensures
            r@ == self@.effective_date,
            iso_date(r@),
    {
        proof {
            use_type_invariant(self);
        }
        self.effective_date.as_str()
    }

    /// Returns the model contract these rates cover.
    pub fn model(&self) -> (r: &str)
        ensures
            r@ == self@.model,
            r@ == MODEL@,
    {
        proof {
            use_type_invariant(self);
        }
        self.model.as_str()
    }

    /// Returns the exact per-million-token rates.
    pub fn rates(&self) -> (r: TokenRates)
        ensures
            r == self@.rates,
    {
        self.rates
    }

    /// Estimates one provider operation from its authoritative usage record.
    pub fn estimate(&self, usage: &Usage) -> (r: EstimatedUsdCost)
        ensures
            r@ == cost_of(
                self@,
                usage.input_tokens,
                usage.cached(),
                usage.cache_write(),
                usage.output_tokens,
            ),
    {
        self.estimate_tokens(
            usage.input_tokens,
            usage.cached_input_tokens(),
            usage.cache_write_input_tokens(),
            usage.output_tokens,
        )
    }

    /// Estimates aggregate token counts spanning multiple provider operations.
    pub fn estimate_tokens(
        &self,
        input_tokens: u64,
        cached_input_tokens: u64,
        cache_write_input_tokens: u64,
        output_tokens: u64,
    ) -> (r: EstimatedUsdCost)
        ensures
            r@ == cost_of(
                self@,
                input_tokens,
                cached_input_tokens,
                cache_write_input_tokens,
                output_tokens,
            ),
    {
        let cached: u64 = if cached_input_tokens < input_tokens {
            cached_input_tokens
        } else {
            input_tokens
        };
        let remaining: u64 = input_tokens - cached;
        let cache_write: u64 = if cache_write_input_tokens < remaining {
            cache_write_input_tokens
        } else {
            remaining
        };
        let ordinary: u64 = remaining - cache_write;
        let input = self.rates.input.estimate(ordinary);
        let cached_input = self.rates.cached_input.estimate(cached);
        let cache_write_input = self.rates.cache_write_input.estimate(cache_write);
        let output = self.rates.output.estimate(output_tokens);
        let amount = input.saturating_add(cached_input).saturating_add(
            cache_write_input,
        ).saturating_add(output);
        EstimatedUsdCost {
            amount,
            input,
            cached_input,
            cache_write_input,
            output,
            pricing: self.clone(),
        }
    }
}

/// Exact estimated USD cost plus its complete pricing provenance.
#[derive(Debug, PartialEq, Eq)]
pub struct EstimatedUsdCost {
    amount: UsdAmount,
    input: UsdAmount,
    cached_input: UsdAmount,
    cache_write_input: UsdAmount,
    output: UsdAmount,
    pricing: PricingSnapshot,
}

impl View for EstimatedUsdCost {
    type V = CostView;

    closed spec fn view(&self) -> CostView {
        CostView {
            amount: self.amount@,
            input: self.input@,
            cached_input: self.cached_input@,
            cache_write_input: self.cache_write_input@,
            output: self.output@,
            pricing: self.pricing@,
        }
    }
}

impl Clone for EstimatedUsdCost {
    fn clone(&self) -> (r: Self)
        ensures
            r == *self,
    {
        EstimatedUsdCost {
            amount: self.amount,
            input: self.input,
            cached_input: self.cached_input,
            cache_write_input: self.cache_write_input,
            output: self.output,
            pricing: self.pricing.clone(),
        }
    }
}

impl EstimatedUsdCost {
    /// Returns the exact aggregate estimate.
    pub fn amount(&self) -> (r: UsdAmount)
        ensures
            r@ == self@.amount,
    {
        self.amount
    }

    /// Returns the ordinary-input component.
    pub fn input(&self) -> (r: UsdAmount)
        ensures
            r@ == self@.input,
    {
        self.input
    }

    /// Returns the cache-read component.
    pub fn cached_input(&self) -> (r: UsdAmount)
        ensures
            r@ == self@.cached_input,
    {
        self.cached_input
    }

    /// Returns the cache-write component.
    pub fn cache_write_input(&self) -> (r: UsdAmount)
        ensures
            r@ == self@.cache_write_input,
    {
        self.cache_write_input
    }

    /// Returns the output component, including reasoning output.
    pub fn output(&self) -> (r: UsdAmount)
        ensures
            r@ == self@.output,
    {
        self.output
    }

    /// Returns the exact rates and provenance used for the estimate.
    pub fn pricing(&self) -> (r: &PricingSnapshot)
        ensures
            r@ == self@.pricing,
    {
        &self.pricing
    }
}

/// A price is the number of tokens times the rate per million, to the nearest
/// billionth of one dollar with halves upward, as long as it can be stated.
pub proof fn law_prices_are_rounded_to_the_nearest(tokens: u64, rate: u64)
    requires
        priced(tokens, rate) < u64::MAX,
    ensures
        -500_000 < 1_000_000 * priced(tokens, rate) - tokens * rate <= 500_000,
{
    lemma_product_fits(tokens, rate);
}

/// One million tokens cost their rate, no tokens cost nothing, and more tokens
/// or a higher rate never cost less.
pub proof fn law_prices_grow_with_tokens_and_rate(
    tokens: u64,
    more: u64,
    rate: u64,
    higher: u64,
)
    requires
        tokens <= more,
        rate <= higher,
    ensures
        priced(1_000_000, rate) == rate,
        priced(0, rate) == 0,
        priced(tokens, rate) <= priced(more, rate),
        priced(tokens, rate) <= priced(tokens, higher),
{
    assert(0 * rate == 0) by (nonlinear_arith);
    assert(tokens * rate <= more * rate) by (nonlinear_arith)
        requires
            tokens <= more,
    ;
    assert(tokens * rate <= tokens * higher) by (nonlinear_arith)
        requires
            rate <= higher,
    ;
}

/// Every class of tokens is priced at its own rate: cache reads, cache writes,
/// the rest of the input, and the output; and an estimate names the rates that
/// it was made with.
pub proof fn law_every_class_has_its_rate(
    pricing: PricingView,
    input: u64,
    cached: u64,
    cache_write: u64,
    output: u64,
)
    requires
        cached + cache_write <= input,
    ensures
        ({
            let cost = cost_of(pricing, input, cached, cache_write, output);
            &&& cost.input == priced((input - cached - cache_write) as u64, pricing.rates.input@)
            &&& cost.cached_input == priced(cached, pricing.rates.cached_input@)
            &&& cost.cache_write_input == priced(cache_write, pricing.rates.cache_write_input@)
            &&& cost.output == priced(output, pricing.rates.output@)
            &&& cost.pricing == pricing
        }),
{
}

/// Where the cache classes claim more than the input holds, reads come first and
/// nothing is priced beyond the input.
pub proof fn law_cache_classes_never_exceed_the_input(input: u64, cached: u64, cache_write: u64)
    ensures
        ({
            let classes = input_classes(input, cached, cache_write);
            &&& cached >= input ==> classes.cached == input && classes.cache_write == 0
                && classes.ordinary == 0
            &&& cached < input ==> classes.cached == cached
            &&& cached < input && cached + cache_write >= input ==> classes.cache_write == input
                - cached && classes.ordinary == 0
        }),
{
}

/// What an operation does not report of the cache or of reasoning counts as
/// none; what it reports counts as reported.
pub proof fn law_unreported_classes_are_empty(usage: Usage)
    ensures
        usage.input_tokens_details is None ==> usage.cached() == 0 && usage.cache_write() == 0,
        usage.output_tokens_details is None ==> usage.reasoning() == 0,
        usage.input_tokens_details matches Some(details) ==> usage.cached() == details.cached_tokens
            && usage.cache_write() == details.cache_write_tokens,
        usage.output_tokens_details matches Some(details) ==> usage.reasoning()
            == details.reasoning_tokens,
{
}

/// A sum that does not fit is the largest amount, and adding never loses.
pub proof fn law_sums_are_exact_or_largest(a: u64, b: u64)
    ensures
        a + b <= u64::MAX ==> capped_sum(a, b) == a + b,
        a + b > u64::MAX ==> capped_sum(a, b) == u64::MAX,
{
}

/// A text is read as dollars by its places: digits before the point are whole
/// dollars, and up to nine behind it are parts of one.
pub proof fn law_decimals_are_read_by_their_places(whole: Seq<char>, parts: Seq<char>)
    requires
        whole.len() > 0,
        text::all_digits(whole),
        text::all_digits(parts),
        parts.len() <= 9,
    ensures
        ({
            let amount = text::digits_value(whole) * 1_000_000_000 + text::digits_value(parts)
                * text::ten_to((9 - parts.len()) as nat);
            decimal_usd(whole + seq!['.'] + parts) == if amount > u64::MAX {
                DecimalUsd::Overflow
            } else {
                DecimalUsd::Value(amount as u64)
            }
        }),
        ({
            let amount = text::digits_value(whole) * 1_000_000_000;
            decimal_usd(whole) == if amount > u64::MAX {
                DecimalUsd::Overflow
            } else {
                DecimalUsd::Value(amount as u64)
            }
        }),
{
    let text = whole + seq!['.'] + parts;
    lemma_first_point(whole, seq!['.'] + parts);
    assert(text =~= whole + (seq!['.'] + parts));
    assert(whole_part(text) =~= whole);
    assert(fractional_part(text) =~= parts);
    lemma_first_point(whole, Seq::empty());
    assert(whole + Seq::<char>::empty() =~= whole);
    assert(whole_part(whole) =~= whole);
    assert(fractional_part(whole) =~= Seq::<char>::empty());
    assert(0 * text::ten_to(9) == 0) by (nonlinear_arith);
}

/// The first point is found behind the digits before it.
proof fn lemma_first_point(digits: Seq<char>, rest: Seq<char>)
    requires
        text::all_digits(digits),
        rest.len() > 0 ==> rest[0] == '.',
    ensures
        point_position(digits + rest) == digits.len(),
    decreases digits.len(),
{
    if digits.len() == 0 {
        assert(digits + rest =~= rest);
    } else {
        assert((digits + rest).skip(1) =~= digits.skip(1) + rest);
        assert(text::is_digit(digits[0]));
        assert forall|i: int| 0 <= i < digits.skip(1).len() implies text::is_digit(
            #[trigger] digits.skip(1)[i],
        ) by {
            assert(digits.skip(1)[i] == digits[i + 1]);
        }
        lemma_first_point(digits.skip(1), rest);
    }
}

/// A year has 365 days, and 366 where it is divisible by four but not by a
/// hundred, or by four hundred; no month has less than 28 or more than 31.
pub proof fn law_years_have_their_days(year: int, month: int)
    ensures
        month_days(year, 1) + month_days(year, 2) + month_days(year, 3) + month_days(year, 4)
            + month_days(year, 5) + month_days(year, 6) + month_days(year, 7) + month_days(
            year,
            8,
        ) + month_days(year, 9) + month_days(year, 10) + month_days(year, 11) + month_days(year, 12)
            == if year % 4 == 0 && (year % 100 != 0 || year % 400 == 0) {
            366int
        } else {
            365
        },
        1 <= month <= 12 ==> 28 <= month_days(year, month) <= 31,
        1 <= month <= 12 && month != 2 ==> month_days(year, month) == month_days(year + 1, month)
            && month_days(year, month) >= 30,
        !(1 <= month <= 12) ==> month_days(year, month) == 0,
        month_days(year, 1) == 31 && month_days(year, 3) == 31 && month_days(year, 12) == 31,
        month_days(year, 4) == 30 && month_days(year, 11) == 30,
{
}

/// A pricing snapshot is accepted exactly where it is named, says where it comes
/// from, is for the supported model, and has a calendar date.
pub proof fn law_snapshots_are_complete(pricing: PricingView)
    ensures
        pricing_complaint(pricing) is None <==> !text::blank(pricing.id) && !text::blank(
            pricing.source,
        ) && pricing.model == MODEL@ && iso_date(pricing.effective_date),
        pricing_complaint(pricing) == Some(PricingComplaint::EmptyId) <==> text::blank(pricing.id),
        pricing_complaint(pricing) == Some(PricingComplaint::InvalidEffectiveDate) ==> !iso_date(
            pricing.effective_date,
        ),
        pricing_complaint(pricing) == Some(PricingComplaint::UnsupportedModel) ==> pricing.model
            != MODEL@,
        iso_date(pricing.effective_date) ==> pricing.effective_date.len() == 10
            && pricing.effective_date[4] == '-' && pricing.effective_date[7] == '-',
{
}

/// The first point is a point, and none stands before it.
proof fn lemma_point_position(text: Seq<char>)
    ensures
        0 <= point_position(text) <= text.len(),
        point_position(text) < text.len() ==> text[point_position(text)] == '.',
        forall|i: int| 0 <= i < point_position(text) ==> (#[trigger] text[i]) != '.',
    decreases text.len(),
{
    if text.len() > 0 && text[0] != '.' {
        lemma_point_position(text.skip(1));
        assert forall|i: int| 0 <= i < point_position(text) implies (#[trigger] text[i]) != '.' by {
            if i > 0 {
                assert(text[i] == text.skip(1)[i - 1]);
            }
        }
    }
}

/// A decimal is refused that has nothing before its point, a second point, or
/// anything but digits around it; an empty text is refused as such, and more
/// than nine places as too precise.
pub proof fn law_malformed_decimals_are_refused(
    text: Seq<char>,
    at: int,
    whole: Seq<char>,
    parts: Seq<char>,
)
    ensures
        text.len() == 0 ==> decimal_usd(text) == DecimalUsd::Empty,
        0 <= at < text.len() && text[at] != '.' && !text::is_digit(text[at]) ==> decimal_usd(text)
            == DecimalUsd::Invalid,
        text.len() > 0 && text[0] == '.' ==> decimal_usd(text) == DecimalUsd::Invalid,
        0 <= at < text.len() && text[at] == '.' && point_position(text) < at ==> decimal_usd(text)
            == DecimalUsd::Invalid,
        whole.len() > 0 && text::all_digits(whole) && text::all_digits(parts) && parts.len() > 9
            ==> decimal_usd(whole + seq!['.'] + parts) == DecimalUsd::TooPrecise,
{
    lemma_point_position(text);
    let point = point_position(text);
    if 0 <= at < text.len() && !text::is_digit(text[at]) {
        if at < point {
            assert(whole_part(text)[at] == text[at]);
            assert(!text::all_digits(whole_part(text)));
        } else if at > point {
            assert(fractional_part(text)[at - point - 1] == text[at]);
            assert(!text::all_digits(fractional_part(text)));
        }
    }
    if whole.len() > 0 && text::all_digits(whole) && text::all_digits(parts) && parts.len() > 9 {
        let long = whole + seq!['.'] + parts;
        lemma_first_point(whole, seq!['.'] + parts);
        assert(long =~= whole + (seq!['.'] + parts));
        assert(whole_part(long) =~= whole);
        assert(fractional_part(long) =~= parts);
    }
}

/// An error about a decimal tells how it is malformed, and holds it as it was
/// written.
pub proof fn law_decimal_errors_hold_the_text(error: UsdParseError, text: Seq<char>)
    requires
        error.reports(text),
    ensures
        !(decimal_usd(text) is Value),
        error is Empty <==> decimal_usd(text) == DecimalUsd::Empty,
        error is Invalid <==> decimal_usd(text) == DecimalUsd::Invalid,
        error is TooPrecise <==> decimal_usd(text) == DecimalUsd::TooPrecise,
        error is Overflow <==> decimal_usd(text) == DecimalUsd::Overflow,
        error matches UsdParseError::Invalid { value } ==> value@ == text,
        error matches UsdParseError::TooPrecise { value } ==> value@ == text,
        error matches UsdParseError::Overflow { value } ==> value@ == text,
{
}

/// An error about a snapshot tells its first fault, and holds the date or model
/// that is at fault.
pub proof fn law_snapshot_errors_tell_the_fault(error: PricingError, pricing: PricingView)
    requires
        error.reports(pricing),
    ensures
        pricing_complaint(pricing) is Some,
        error is EmptyId <==> text::blank(pricing.id),
        error is EmptySource ==> text::blank(pricing.source),
        error matches PricingError::UnsupportedModel { model } ==> model@ == pricing.model && model@
            != MODEL@,
        error matches PricingError::InvalidEffectiveDate { value } ==> value@
            == pricing.effective_date && !iso_date(value@),
{
}

/// Messages about prices quote what is at fault.
pub proof fn law_price_messages_quote_the_fault(decimal: UsdParseError, snapshot: PricingError)
    ensures
        decimal matches UsdParseError::Invalid { value } ==> decimal.text() == "invalid USD amount "@
            + text::quoted_text(value@) + "; expected a non-negative decimal"@,
        decimal matches UsdParseError::TooPrecise { value } ==> decimal.text() == "USD amount "@
            + text::quoted_text(value@) + " has more than nine decimal places"@,
        decimal matches UsdParseError::Overflow { value } ==> decimal.text() == "USD amount "@
            + text::quoted_text(value@) + " is too large"@,
        snapshot matches PricingError::InvalidEffectiveDate { value } ==> snapshot.text()
            == "invalid pricing effective date "@ + text::quoted_text(value@)
            + "; expected YYYY-MM-DD"@,
        snapshot matches PricingError::UnsupportedModel { model } ==> snapshot.text()
            == "pricing snapshot targets unsupported model "@ + text::quoted_text(model@)
            + "; expected "@ + text::quoted_text(MODEL@),
{
}

} // verus!
