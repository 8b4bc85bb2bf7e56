//! Fixed-precision decimal numbers.
//!
//! A [`Decimal`] is the number `mantissa / 10^scale`, with a mantissa of at most
//! 96 bits and a scale of at most 28. The arithmetic itself is done by the
//! `rust_decimal` crate; this module states what the library relies on.

use vstd::prelude::*;

verus! {

/// The largest magnitude of a mantissa: `2^96 - 1`.
pub const MAX_MANTISSA: i128 = 79_228_162_514_264_337_593_543_950_335;

/// The largest scale.
pub const MAX_SCALE: u32 = 28;

/// Ten to the power `n`.
pub open spec fn pow10(n: nat) -> nat
    decreases n,
{
    if n == 0 {
        1
    } else {
        10 * pow10((n - 1) as nat)
    }
}

/// Whether a mantissa has at most 96 bits.
pub open spec fn fits(mantissa: int) -> bool {
    -MAX_MANTISSA <= mantissa <= MAX_MANTISSA
}

/// The mathematical content of a decimal: the number `mantissa / 10^scale`.
pub struct DecimalValue {
    pub mantissa: int,
    pub scale: nat,
}

impl DecimalValue {
    /// Whether a [`Decimal`] can hold this value as it stands.
    pub open spec fn representable(self) -> bool {
        fits(self.mantissa) && self.scale <= MAX_SCALE
    }

    /// The mantissa that the number has at a scale that is not smaller than its own.
    pub open spec fn aligned(self, scale: nat) -> int {
        self.mantissa * pow10((scale - self.scale) as nat)
    }

    /// The number counted in units of `10^-28`. Two representable values are the
    /// same number exactly when their units agree.
    pub open spec fn units(self) -> int {
        self.aligned(MAX_SCALE as nat)
    }

    /// The value zero at scale zero.
    pub open spec fn zero() -> DecimalValue {
        DecimalValue { mantissa: 0, scale: 0 }
    }
}

/// The larger of the two scales.
pub open spec fn common_scale(a: DecimalValue, b: DecimalValue) -> nat {
    if a.scale >= b.scale {
        a.scale
    } else {
        b.scale
    }
}

/// Whether both numbers, and their sum, have a 96-bit mantissa at the larger
/// of the two scales. Such a sum is formed without rounding.
pub open spec fn sum_is_exact(a: DecimalValue, b: DecimalValue) -> bool {
    let s = common_scale(a, b);
    fits(a.aligned(s)) && fits(b.aligned(s)) && fits(a.aligned(s) + b.aligned(s))
}

/// The sum of two numbers at the larger of their scales.
pub open spec fn exact_sum(a: DecimalValue, b: DecimalValue) -> DecimalValue {
    let s = common_scale(a, b);
    DecimalValue { mantissa: a.aligned(s) + b.aligned(s), scale: s }
}

/// The checked sum of two numbers. A zero operand leaves the other as it
/// stands. A sum that is exact at the larger scale is formed there. Any other
/// sum is what `rust_decimal` makes of it: rounded to a smaller scale, or
/// `None` on overflow.
pub open spec fn checked_sum(a: DecimalValue, b: DecimalValue) -> Option<DecimalValue> {
    if a.mantissa == 0 {
        Some(b)
    } else if b.mantissa == 0 {
        Some(a)
    } else if sum_is_exact(a, b) {
        Some(exact_sum(a, b))
    } else {
        decimal_sum(a, b)
    }
}

/// The number with its sign changed.
pub open spec fn negated(v: DecimalValue) -> DecimalValue {
    DecimalValue { mantissa: -v.mantissa, scale: v.scale }
}

/// The checked difference of two numbers. Taking zero away leaves a number as
/// it stands, taking a number from zero changes its sign. A difference that is
/// exact at the larger scale is formed there. Any other difference is what
/// `rust_decimal` makes of it.
pub open spec fn checked_difference(a: DecimalValue, b: DecimalValue) -> Option<DecimalValue> {
    if a.mantissa == 0 {
        Some(negated(b))
    } else if b.mantissa == 0 {
        Some(a)
    } else if sum_is_exact(a, negated(b)) {
        Some(exact_sum(a, negated(b)))
    } else {
        decimal_difference(a, b)
    }
}

/// Whether the product of the mantissas has 96 bits and the sum of the scales
/// is a scale. Such a product is formed without rounding.
pub open spec fn product_is_exact(a: DecimalValue, b: DecimalValue) -> bool {
    fits(a.mantissa * b.mantissa) && a.scale + b.scale <= MAX_SCALE
}

/// The product of the mantissas at the sum of the scales.
pub open spec fn exact_product(a: DecimalValue, b: DecimalValue) -> DecimalValue {
    DecimalValue { mantissa: a.mantissa * b.mantissa, scale: a.scale + b.scale }
}

/// The checked product of two numbers. A zero operand gives plain zero. A
/// product that is exact is formed at the sum of the scales. Any other product
/// is what `rust_decimal` makes of it: rounded to fewer places, or `None` on
/// overflow.
pub open spec fn checked_product(a: DecimalValue, b: DecimalValue) -> Option<DecimalValue> {
    if a.mantissa == 0 || b.mantissa == 0 {
        Some(DecimalValue::zero())
    } else if product_is_exact(a, b) {
        Some(exact_product(a, b))
    } else {
        decimal_product(a, b)
    }
}

/// The checked quotient of two numbers. Nothing can be divided by zero; zero
/// divided by anything else is plain zero. Any other quotient is what
/// `rust_decimal` makes of it: carried to as many places as fit, or `None` on
/// overflow.
pub open spec fn checked_quotient(dividend: DecimalValue, divisor: DecimalValue) -> Option<
    DecimalValue,
> {
    if divisor.mantissa == 0 {
        None
    } else if dividend.mantissa == 0 {
        Some(DecimalValue::zero())
    } else {
        decimal_quotient(dividend, divisor)
    }
}

/// The integer nearest to `magnitude / 10^digits`, for a magnitude that is not
/// negative; of two nearest integers the even one.
pub open spec fn half_even_magnitude(magnitude: int, digits: nat) -> int {
    let p = pow10(digits) as int;
    let q = magnitude / p;
    let r = magnitude % p;
    if 2 * r > p || (2 * r == p && q % 2 == 1) {
        q + 1
    } else {
        q
    }
}

/// The integer nearest to `mantissa / 10^digits`, ties going to the even
/// neighbour ("banker's rounding").
pub open spec fn half_even(mantissa: int, digits: nat) -> int {
    if mantissa < 0 {
        -half_even_magnitude(-mantissa, digits)
    } else {
        half_even_magnitude(mantissa, digits)
    }
}

/// The number rounded to `places` decimal places, ties going to the even
/// neighbour. A number that has no more places than that is left as it is.
pub open spec fn rounded(v: DecimalValue, places: nat) -> DecimalValue {
    if v.scale <= places {
        v
    } else {
        DecimalValue { mantissa: half_even(v.mantissa, (v.scale - places) as nat), scale: places }
    }
}

/// What `rust_decimal` returns for the checked sum of two numbers other than
/// zero whose sum is not exact at the larger scale.
pub uninterp spec fn decimal_sum(a: DecimalValue, b: DecimalValue) -> Option<DecimalValue>;

/// What `rust_decimal` returns for the checked difference of two numbers other
/// than zero whose difference is not exact at the larger scale.
pub uninterp spec fn decimal_difference(a: DecimalValue, b: DecimalValue) -> Option<
    DecimalValue,
>;

/// What `rust_decimal` returns for the checked product of two numbers other
/// than zero whose product is not exact at the sum of the scales.
pub uninterp spec fn decimal_product(a: DecimalValue, b: DecimalValue) -> Option<DecimalValue>;

/// What `rust_decimal` returns for the checked quotient of two numbers other
/// than zero.
pub uninterp spec fn decimal_quotient(dividend: DecimalValue, divisor: DecimalValue) -> Option<
    DecimalValue,
>;

/// What `rust_decimal` returns for a number raised to a decimal exponent.
pub uninterp spec fn decimal_power(base: DecimalValue, exponent: DecimalValue) -> Option<
    DecimalValue,
>;

/// The text that `rust_decimal` prints for a number.
pub uninterp spec fn decimal_text(v: DecimalValue) -> Seq<char>;

/// The text that `rust_decimal` prints for a number in a field of twenty
/// characters, filled with zeros on the left, with two decimal places.
pub uninterp spec fn decimal_padded_text(v: DecimalValue) -> Seq<char>;

/// What `rust_decimal` makes of a text: the number that it reads, or the
/// text in which it says why it reads none.
pub uninterp spec fn decimal_read(text: Seq<char>) -> Result<DecimalValue, Seq<char>>;

/// The number that is read from a text, if one is read.
pub open spec fn decimal_parsed(text: Seq<char>) -> Option<DecimalValue> {
    match decimal_read(text) {
        Ok(number) => Some(number),
        Err(_) => None,
    }
}

/// Why no number is read from a text.
pub open spec fn decimal_refusal(text: Seq<char>) -> Seq<char> {
    match decimal_read(text) {
        Ok(_) => Seq::empty(),
        Err(reason) => reason,
    }
}

/// A decimal number with at most 96 bits of mantissa and a scale of at most 28.
#[derive(Clone, Copy, Debug)]
pub struct Decimal {
    mantissa: i128,
    scale: u32,
}

impl View for Decimal {
    type V = DecimalValue;

    closed spec fn view(&self) -> DecimalValue {
        DecimalValue { mantissa: self.mantissa as int, scale: self.scale as nat }
    }
}

/// The value of an optional decimal.
pub open spec fn value_of(d: Option<Decimal>) -> Option<DecimalValue> {
    match d {
        Some(d) => Some(d@),
        None => None,
    }
}

impl Decimal {
    #[verifier::type_invariant]
    spec fn well_formed(self) -> bool {
        self@.representable()
    }

    /// The number `num / 10^scale`.
    pub fn new(num: i64, scale: u32) -> (d: Decimal)
        requires
            scale <= MAX_SCALE,
        ensures
            d@ == (DecimalValue { mantissa: num as int, scale: scale as nat }),
    {
        Decimal { mantissa: num as i128, scale }
    }

    /// The number `mantissa / 10^scale`, where a decimal can hold it.
    pub fn from_parts(mantissa: i128, scale: u32) -> (d: Option<Decimal>)
        ensures
            d is Some <==> (DecimalValue {
                mantissa: mantissa as int,
                scale: scale as nat,
            }).representable(),
            d matches Some(d) ==> d@ == (DecimalValue {
                mantissa: mantissa as int,
                scale: scale as nat,
            }),
    {
        if scale <= MAX_SCALE && -MAX_MANTISSA <= mantissa && mantissa <= MAX_MANTISSA {
            Some(Decimal { mantissa, scale })
        } else {
            None
        }
    }

    /// Zero, at scale zero.
    pub fn zero() -> (d: Decimal)
        ensures
            d@ == DecimalValue::zero(),
    {
        Decimal { mantissa: 0, scale: 0 }
    }

    /// The mantissa.
    pub fn mantissa(&self) -> (m: i128)
        ensures
            m == self@.mantissa,
            fits(m as int),
    {
        proof {
            use_type_invariant(self);
        }
        self.mantissa
    }

    /// The scale.
    pub fn scale(&self) -> (s: u32)
        ensures
            s == self@.scale,
            s <= MAX_SCALE,
    {
        proof {
            use_type_invariant(self);
        }
        self.scale
    }

    /// Whether the number is zero.
    pub fn is_zero(&self) -> (z: bool)
        ensures
            z == (self@.mantissa == 0),
    {
        self.mantissa == 0
    }

    /// Whether the number is below zero.
    pub fn is_negative(&self) -> (n: bool)
        ensures
            n == (self@.mantissa < 0),
    {
        self.mantissa < 0
    }

    /// The number as `rust_decimal` prints it.
    pub fn to_text(&self) -> (text: String)
        ensures
            text@ == decimal_text(self@),
    {
        print(*self)
    }

    /// The number that `rust_decimal` reads from `text`, if it reads one.
    pub fn parse(text: &str) -> (d: Option<Decimal>)
        ensures
            value_of(d) == decimal_parsed(text@),
    {
        match read(text) {
            Ok(d) => Some(d),
            Err(_) => None,
        }
    }

    /// The number that `rust_decimal` reads from `text`, or the reason for
    /// which it reads none.
    pub fn parse_or_reason(text: &str) -> (d: Result<Decimal, String>)
        ensures
            match d {
                Ok(number) => decimal_parsed(text@) == Some(number@),
                Err(reason) => decimal_parsed(text@) is None && reason@ == decimal_refusal(text@),
            },
    {
        read(text)
    }

    /// The number in a field of twenty characters, filled with zeros on the
    /// left, with two decimal places: a text by which numbers sort as they
    /// compare.
    pub fn to_padded_text(&self) -> (text: String)
        ensures
            text@ == decimal_padded_text(self@),
    {
        print_padded(*self)
    }
}

impl PartialEq for Decimal {
    /// Whether two decimals are the same number, whatever their scales.
    fn eq(&self, other: &Decimal) -> (e: bool) {
        same_number(*self, *other)
    }
}

impl vstd::std_specs::cmp::PartialEqSpecImpl for Decimal {
    open spec fn obeys_eq_spec() -> bool {
        true
    }

    open spec fn eq_spec(&self, other: &Decimal) -> bool {
        self@.units() == other@.units()
    }
}

/// `rust_decimal::Decimal::checked_add`: the sum is `None` on overflow. Where
/// an operand is zero the other is returned as it stands; where both operands
/// and the sum have 96 bits at the larger scale, the sum is formed there
/// without rounding.
#[verifier::external_body]
pub(crate) fn checked_add(a: Decimal, b: Decimal) -> (sum: Option<Decimal>)
    ensures
        value_of(sum) == checked_sum(a@, b@),
        a@.mantissa != 0 && b@.mantissa != 0 && !sum_is_exact(a@, b@) ==> value_of(sum)
            == decimal_sum(a@, b@),
{
    let x = rust_decimal::Decimal::from_i128_with_scale(a.mantissa, a.scale);
    let y = rust_decimal::Decimal::from_i128_with_scale(b.mantissa, b.scale);
    match x.checked_add(y) {
        Some(r) => Some(Decimal { mantissa: r.mantissa(), scale: r.scale() }),
        None => None,
    }
}

/// `rust_decimal::Decimal::checked_sub`: the difference is `None` on overflow.
/// Zero taken away leaves the other operand as it stands, an operand taken
/// from zero has its sign changed; where both operands and the difference
/// have 96 bits at the larger scale, the difference is formed there without
/// rounding.
#[verifier::external_body]
pub(crate) fn checked_sub(a: Decimal, b: Decimal) -> (difference: Option<Decimal>)
    ensures
        value_of(difference) == checked_difference(a@, b@),
        a@.mantissa != 0 && b@.mantissa != 0 && !sum_is_exact(a@, negated(b@)) ==> value_of(
            difference,
        ) == decimal_difference(a@, b@),
{
    let x = rust_decimal::Decimal::from_i128_with_scale(a.mantissa, a.scale);
    let y = rust_decimal::Decimal::from_i128_with_scale(b.mantissa, b.scale);
    match x.checked_sub(y) {
        Some(r) => Some(Decimal { mantissa: r.mantissa(), scale: r.scale() }),
        None => None,
    }
}

/// `rust_decimal::Decimal::checked_mul`: the product is `None` on overflow.
/// A zero operand gives plain zero; where the product of the mantissas has 96
/// bits and the scales add up to at most 28, the product is formed without
/// rounding.
#[verifier::external_body]
pub(crate) fn checked_mul(a: Decimal, b: Decimal) -> (product: Option<Decimal>)
    ensures
        value_of(product) == checked_product(a@, b@),
        a@.mantissa != 0 && b@.mantissa != 0 && !product_is_exact(a@, b@) ==> value_of(product)
            == decimal_product(a@, b@),
{
    let x = rust_decimal::Decimal::from_i128_with_scale(a.mantissa, a.scale);
    let y = rust_decimal::Decimal::from_i128_with_scale(b.mantissa, b.scale);
    match x.checked_mul(y) {
        Some(r) => Some(Decimal { mantissa: r.mantissa(), scale: r.scale() }),
        None => None,
    }
}

/// `rust_decimal::Decimal::checked_div`: the quotient is `None` on overflow
/// and for a zero divisor; zero divided by anything else is plain zero.
#[verifier::external_body]
pub(crate) fn checked_div(dividend: Decimal, divisor: Decimal) -> (quotient: Option<Decimal>)
    ensures
        value_of(quotient) == checked_quotient(dividend@, divisor@),
        dividend@.mantissa != 0 && divisor@.mantissa != 0 ==> value_of(quotient)
            == decimal_quotient(dividend@, divisor@),
{
    let x = rust_decimal::Decimal::from_i128_with_scale(dividend.mantissa, dividend.scale);
    let y = rust_decimal::Decimal::from_i128_with_scale(divisor.mantissa, divisor.scale);
    match x.checked_div(y) {
        Some(r) => Some(Decimal { mantissa: r.mantissa(), scale: r.scale() }),
        None => None,
    }
}

/// `rust_decimal::MathematicalOps::checked_powd`: the base raised to a decimal
/// exponent, `None` on overflow. Nothing more is stated of the result.
#[verifier::external_body]
pub(crate) fn checked_powd(base: Decimal, exponent: Decimal) -> (power: Option<Decimal>)
    ensures
        value_of(power) == decimal_power(base@, exponent@),
{
    let x = rust_decimal::Decimal::from_i128_with_scale(base.mantissa, base.scale);
    let y = rust_decimal::Decimal::from_i128_with_scale(exponent.mantissa, exponent.scale);
    match rust_decimal::MathematicalOps::checked_powd(&x, y) {
        Some(r) => Some(Decimal { mantissa: r.mantissa(), scale: r.scale() }),
        None => None,
    }
}

/// `rust_decimal::Decimal::round_dp`: the number rounded to `places` decimal
/// places, ties going to the even neighbour; a number with no more places than
/// that is returned as it stands.
#[verifier::external_body]
pub(crate) fn round_dp(d: Decimal, places: u32) -> (r: Decimal)
    requires
        places <= MAX_SCALE,
    ensures
        r@ == rounded(d@, places as nat),
{
    let x = rust_decimal::Decimal::from_i128_with_scale(d.mantissa, d.scale);
    let r = x.round_dp(places);
    Decimal { mantissa: r.mantissa(), scale: r.scale() }
}

/// `rust_decimal`'s `==` on decimals: whether the two are the same number,
/// whatever their scales.
#[verifier::external_body]
fn same_number(a: Decimal, b: Decimal) -> (e: bool)
    ensures
        e == (a@.units() == b@.units()),
{
    let x = rust_decimal::Decimal::from_i128_with_scale(a.mantissa, a.scale);
    let y = rust_decimal::Decimal::from_i128_with_scale(b.mantissa, b.scale);
    x == y
}

/// `rust_decimal`'s `Display` for a decimal.
#[verifier::external_body]
fn print(d: Decimal) -> (text: String)
    ensures
        text@ == decimal_text(d@),
{
    rust_decimal::Decimal::from_i128_with_scale(d.mantissa, d.scale).to_string()
}

/// `rust_decimal`'s `Display` for a decimal, in a field of twenty characters
/// filled with zeros, with two decimal places.
#[verifier::external_body]
fn print_padded(d: Decimal) -> (text: String)
    ensures
        text@ == decimal_padded_text(d@),
{
    format!("{:020.2}", rust_decimal::Decimal::from_i128_with_scale(d.mantissa, d.scale))
}

/// `rust_decimal`'s `FromStr` for a decimal: the number read, or the text of
/// the error where the text is refused.
#[verifier::external_body]
fn read(text: &str) -> (d: Result<Decimal, String>)
    ensures
        match d {
            Ok(number) => decimal_read(text@) == Ok::<DecimalValue, Seq<char>>(number@),
            Err(reason) => decimal_read(text@) == Err::<DecimalValue, Seq<char>>(reason@),
        },
{
    match <rust_decimal::Decimal as std::str::FromStr>::from_str(text) {
        Ok(r) => Ok(Decimal { mantissa: r.mantissa(), scale: r.scale() }),
        Err(e) => Err(e.to_string()),
    }
}

} // verus!
