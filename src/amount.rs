//! Non-negative fixed-point decimal amounts with exact arithmetic.
//!
//! An amount is a mantissa of at most 96 bits and a scale of at most 28
//! fractional digits, the range of `rust_decimal::Decimal`. Sums and
//! differences are exact: where the exact result cannot be written in that
//! range the operation reports it instead of rounding.
use vstd::arithmetic::mul::{
    lemma_mul_inequality, lemma_mul_inequality_converse, lemma_mul_is_associative,
    lemma_mul_is_distributive_add_other_way, lemma_mul_is_distributive_sub_other_way,
    lemma_mul_strict_inequality,
};
use vstd::prelude::*;

verus! {

/// Largest number of fractional digits an amount carries.
pub const MAX_SCALE: u32 = 28;

/// Largest mantissa an amount carries: 2^96 - 1.
pub const MAX_MANTISSA: u128 = 79228162514264337593543950335;

/// 10 to the power `n`.
pub open spec fn pow10(n: nat) -> nat
    decreases n,
{
    if n == 0 {
        1
    } else {
        10 * pow10((n - 1) as nat)
    }
}

/// `m` written at scale `to` instead of scale `from` (`from <= to`).
pub open spec fn scaled(m: u128, from: u32, to: u32) -> int {
    m * pow10((to - from) as nat)
}

/// Whether a quantity, in units of 10^-28, can be written at `scale`
/// with a mantissa of at most `MAX_MANTISSA`.
pub open spec fn fits_at(v: int, scale: u32) -> bool {
    v <= MAX_MANTISSA * pow10((MAX_SCALE - scale) as nat)
}

/// Whether `(mantissa, scale)` is in the range of an amount.
pub open spec fn parts_accepted(mantissa: int, scale: int) -> bool {
    0 <= mantissa <= MAX_MANTISSA && 0 <= scale <= MAX_SCALE
}

/// The mantissa and scale that rust_decimal reads from `text`, or `None`
/// where the text is no decimal it can hold exactly.
pub uninterp spec fn decimal_parts_of(text: Seq<char>) -> Option<(i128, u32)>;

/// The text that rust_decimal writes for mantissa·10^-scale.
pub uninterp spec fn decimal_text(mantissa: u128, scale: u32) -> Seq<char>;

pub proof fn lemma_pow10_positive(n: nat)
    ensures
        pow10(n) >= 1,
    decreases n,
{
    if n > 0 {
        lemma_pow10_positive((n - 1) as nat);
    }
}

pub proof fn lemma_pow10_add(a: nat, b: nat)
    ensures
        pow10(a + b) == pow10(a) * pow10(b),
    decreases a,
{
    if a > 0 {
        let n = (a + b) as nat;
        let k = (a - 1) as nat;
        lemma_pow10_add(k, b);
        assert((n - 1) as nat == (k + b) as nat);
        assert(pow10(n) == 10 * pow10((n - 1) as nat));
        assert(pow10(a) == 10 * pow10(k));
        lemma_mul_is_associative(10, pow10(k) as int, pow10(b) as int);
    } else {
        assert(pow10(0) == 1);
        assert(a + b == b);
    }
}

pub proof fn lemma_pow10_monotone(a: nat, b: nat)
    requires
        a <= b,
    ensures
        pow10(a) <= pow10(b),
    decreases b,
{
    if a < b {
        lemma_pow10_monotone(a, (b - 1) as nat);
    }
}

proof fn lemma_pow10_max_scale()
    ensures
        pow10(MAX_SCALE as nat) == 10000000000000000000000000000,
{
    reveal_with_fuel(pow10, 29);
}

/// Writing `m` at a larger scale `t` keeps its quantity.
proof fn lemma_rescale(m: u128, s: u32, t: u32)
    requires
        s <= t <= MAX_SCALE,
    ensures
        m * pow10((MAX_SCALE - s) as nat) == scaled(m, s, t) * pow10((MAX_SCALE - t) as nat),
{
    lemma_pow10_add((t - s) as nat, (MAX_SCALE - t) as nat);
    assert(((t - s) as nat + (MAX_SCALE - t) as nat) as nat == (MAX_SCALE - s) as nat);
    lemma_mul_is_associative(
        m as int,
        pow10((t - s) as nat) as int,
        pow10((MAX_SCALE - t) as nat) as int,
    );
}

proof fn lemma_scaled_same(m: u128, s: u32)
    ensures
        scaled(m, s, s) == m,
{
    assert(pow10(0) == 1);
    assert((s - s) as nat == 0);
    assert(m * pow10(0) == m);
}

/// 10^n as a machine integer.
fn pow10_exec(n: u32) -> (r: u128)
    requires
        n <= MAX_SCALE,
    ensures
        r == pow10(n as nat),
{
    let mut r: u128 = 1;
    let mut i: u32 = 0;
    while i < n
        invariant
            i <= n <= MAX_SCALE,
            r == pow10(i as nat),
        decreases n - i,
    {
        proof {
            lemma_pow10_monotone((i + 1) as nat, MAX_SCALE as nat);
            lemma_pow10_max_scale();
        }
        r = r * 10;
        i = i + 1;
    }
    r
}

/// A non-negative decimal amount: `mantissa · 10^-scale`.
#[derive(Clone, Copy, Debug)]
pub struct Amount {
    mantissa: u128,
    scale: u32,
}

impl Amount {
    #[verifier::type_invariant]
    spec fn inv(self) -> bool {
        self.mantissa <= MAX_MANTISSA && self.scale <= MAX_SCALE
    }

    pub closed spec fn spec_mantissa(self) -> u128 {
        self.mantissa
    }

    pub closed spec fn spec_scale(self) -> u32 {
        self.scale
    }

    /// The quantity of the amount, in units of 10^-28.
    pub open spec fn value(self) -> int {
        self.spec_mantissa() * pow10((MAX_SCALE - self.spec_scale()) as nat)
    }

    /// Whether the amount is written with these parts.
    pub open spec fn has_parts(self, mantissa: int, scale: int) -> bool {
        self.spec_mantissa() == mantissa && self.spec_scale() == scale
    }

    /// The scale at which a sum or a difference of `a` and `b` is written.
    pub open spec fn common_scale(a: Amount, b: Amount) -> u32 {
        if a.spec_scale() >= b.spec_scale() {
            a.spec_scale()
        } else {
            b.spec_scale()
        }
    }

    /// Whether the exact sum of `a` and `b` can be written at their common scale.
    pub open spec fn can_add(a: Amount, b: Amount) -> bool {
        fits_at(a.value() + b.value(), Amount::common_scale(a, b))
    }

    /// Whether the exact difference `a - b` can be written at their common scale.
    pub open spec fn can_sub(a: Amount, b: Amount) -> bool {
        fits_at(a.value() - b.value(), Amount::common_scale(a, b))
    }

    /// Whether `self` is the exact sum of `a` and `b`, at their common scale.
    pub open spec fn is_sum_of(self, a: Amount, b: Amount) -> bool {
        self.value() == a.value() + b.value() && self.spec_scale() == Amount::common_scale(a, b)
    }

    /// Whether `self` is the exact difference `a - b`, at their common scale.
    pub open spec fn is_difference_of(self, a: Amount, b: Amount) -> bool {
        self.value() == a.value() - b.value() && self.spec_scale() == Amount::common_scale(a, b)
    }

    /// A quantity is never negative.
    pub proof fn lemma_value_nonnegative(self)
        ensures
            self.value() >= 0,
    {
        vstd::arithmetic::mul::lemma_mul_nonnegative(
            self.spec_mantissa() as int,
            pow10((MAX_SCALE - self.spec_scale()) as nat) as int,
        );
    }

    /// The amount 0, at scale 0.
    pub closed spec fn spec_zero() -> Amount {
        Amount { mantissa: 0, scale: 0 }
    }

    pub proof fn lemma_zero()
        ensures
            Amount::spec_zero().has_parts(0, 0),
            Amount::spec_zero().value() == 0,
    {
    }

    pub fn zero() -> (r: Amount)
        ensures
            r == Amount::spec_zero(),
            r.has_parts(0, 0),
            r.value() == 0,
    {
        Amount { mantissa: 0, scale: 0 }
    }

    /// The amount `mantissa · 10^-scale`, where that is in range.
    pub fn from_parts(mantissa: i128, scale: u32) -> (r: Option<Amount>)
        ensures
            r.is_some() <==> parts_accepted(mantissa as int, scale as int),
            r matches Some(a) ==> a.has_parts(mantissa as int, scale as int),
    {
        if 0 <= mantissa && mantissa <= MAX_MANTISSA as i128 && scale <= MAX_SCALE {
            Some(Amount { mantissa: mantissa as u128, scale })
        } else {
            None
        }
    }

    /// The amount that `text` spells as a decimal, where it is in range.
    pub fn parse(text: &str) -> (r: Option<Amount>)
        ensures
            match decimal_parts_of(text@) {
                Some((m, s)) => {
                    &&& r.is_some() <==> parts_accepted(m as int, s as int)
                    &&& r matches Some(a) ==> a.has_parts(m as int, s as int)
                },
                None => r.is_none(),
            },
    {
        match decimal_parts(text) {
            Some((m, s)) => Amount::from_parts(m, s),
            None => None,
        }
    }

    /// The decimal text of the amount, with `scale` fraction digits.
    pub fn to_text(&self) -> (r: String)
        ensures
            r@ == decimal_text(self.spec_mantissa(), self.spec_scale()),
    {
        proof {
            use_type_invariant(self);
        }
        render_decimal(self.mantissa, self.scale)
    }

    pub fn mantissa(&self) -> (r: u128)
        ensures
            r == self.spec_mantissa(),
            r <= MAX_MANTISSA,
    {
        proof {
            use_type_invariant(self);
        }
        self.mantissa
    }

    pub fn scale(&self) -> (r: u32)
        ensures
            r == self.spec_scale(),
            r <= MAX_SCALE,
    {
        proof {
            use_type_invariant(self);
        }
        self.scale
    }

    /// The mantissa of `self` written at the larger scale `to`, where it
    /// fits in a `u128`.
    fn mantissa_at(&self, to: u32) -> (r: Option<u128>)
        requires
            self.spec_scale() <= to <= MAX_SCALE,
        ensures
            r == (if scaled(self.spec_mantissa(), self.spec_scale(), to) <= u128::MAX {
                Some(scaled(self.spec_mantissa(), self.spec_scale(), to) as u128)
            } else {
                None::<u128>
            }),
            self.value() == scaled(self.spec_mantissa(), self.spec_scale(), to) * pow10(
                (MAX_SCALE - to) as nat,
            ),
    {
        proof {
            use_type_invariant(self);
            lemma_rescale(self.mantissa, self.scale, to);
        }
        let p = pow10_exec(to - self.scale);
        self.mantissa.checked_mul(p)
    }

    /// The exact sum, written at the larger of the two scales, where it fits.
    pub fn checked_add(&self, other: &Amount) -> (r: Option<Amount>)
        ensures
            r.is_some() <==> Amount::can_add(*self, *other),
            r matches Some(s) ==> s.is_sum_of(*self, *other),
    {
        proof {
            use_type_invariant(self);
            use_type_invariant(other);
        }
        let to = if self.scale >= other.scale {
            self.scale
        } else {
            other.scale
        };
        let a = self.mantissa_at(to);
        let b = other.mantissa_at(to);
        let ghost big_a = scaled(self.spec_mantissa(), self.spec_scale(), to);
        let ghost big_b = scaled(other.spec_mantissa(), other.spec_scale(), to);
        let ghost p = pow10((MAX_SCALE - to) as nat) as int;
        proof {
            lemma_pow10_positive((MAX_SCALE - to) as nat);
            lemma_mul_is_distributive_add_other_way(p, big_a, big_b);
            lemma_pow10_positive((to - self.scale) as nat);
            lemma_pow10_positive((to - other.scale) as nat);
            vstd::arithmetic::mul::lemma_mul_nonnegative(
                self.mantissa as int,
                pow10((to - self.scale) as nat) as int,
            );
            vstd::arithmetic::mul::lemma_mul_nonnegative(
                other.mantissa as int,
                pow10((to - other.scale) as nat) as int,
            );
        }
        match (a, b) {
            (Some(x), Some(y)) => {
                if x > MAX_MANTISSA || y > MAX_MANTISSA - x {
                    proof {
                        lemma_mul_strict_inequality(MAX_MANTISSA as int, big_a + big_b, p);
                    }
                    None
                } else {
                    proof {
                        lemma_mul_inequality(big_a + big_b, MAX_MANTISSA as int, p);
                    }
                    Some(Amount { mantissa: x + y, scale: to })
                }
            },
            _ => {
                proof {
                    lemma_mul_strict_inequality(MAX_MANTISSA as int, big_a + big_b, p);
                }
                None
            },
        }
    }

    /// The exact difference `self - other`, written at the larger of the two
    /// scales, where it fits.
    pub fn checked_sub(&self, other: &Amount) -> (r: Option<Amount>)
        requires
            other.value() <= self.value(),
        ensures
            r.is_some() <==> Amount::can_sub(*self, *other),
            r matches Some(s) ==> s.is_difference_of(*self, *other),
    {
        proof {
            use_type_invariant(self);
            use_type_invariant(other);
        }
        let to = if self.scale >= other.scale {
            self.scale
        } else {
            other.scale
        };
        let a = self.mantissa_at(to);
        let b = other.mantissa_at(to);
        let ghost big_a = scaled(self.spec_mantissa(), self.spec_scale(), to);
        let ghost big_b = scaled(other.spec_mantissa(), other.spec_scale(), to);
        let ghost p = pow10((MAX_SCALE - to) as nat) as int;
        proof {
            lemma_pow10_positive((MAX_SCALE - to) as nat);
            lemma_mul_is_distributive_sub_other_way(p, big_a, big_b);
            lemma_mul_inequality_converse(big_b, big_a, p);
            lemma_scaled_same(self.mantissa, to);
            lemma_scaled_same(other.mantissa, to);
        }
        match (a, b) {
            (Some(x), Some(y)) => {
                if x - y > MAX_MANTISSA {
                    proof {
                        lemma_mul_strict_inequality(MAX_MANTISSA as int, big_a - big_b, p);
                    }
                    None
                } else {
                    proof {
                        lemma_mul_inequality(big_a - big_b, MAX_MANTISSA as int, p);
                    }
                    Some(Amount { mantissa: x - y, scale: to })
                }
            },
            _ => {
                proof {
                    lemma_mul_strict_inequality(MAX_MANTISSA as int, big_a - big_b, p);
                }
                None
            },
        }
    }

    /// Whether `self` is at most `other`.
    pub fn le(&self, other: &Amount) -> (r: bool)
        ensures
            r == (self.value() <= other.value()),
    {
        proof {
            use_type_invariant(self);
            use_type_invariant(other);
        }
        let to = if self.scale >= other.scale {
            self.scale
        } else {
            other.scale
        };
        let a = self.mantissa_at(to);
        let b = other.mantissa_at(to);
        let ghost big_a = scaled(self.spec_mantissa(), self.spec_scale(), to);
        let ghost big_b = scaled(other.spec_mantissa(), other.spec_scale(), to);
        let ghost p = pow10((MAX_SCALE - to) as nat) as int;
        proof {
            lemma_pow10_positive((MAX_SCALE - to) as nat);
            lemma_scaled_same(self.mantissa, to);
            lemma_scaled_same(other.mantissa, to);
        }
        match (a, b) {
            (Some(x), Some(y)) => {
                proof {
                    if x <= y {
                        lemma_mul_inequality(big_a, big_b, p);
                    } else {
                        lemma_mul_strict_inequality(big_b, big_a, p);
                    }
                }
                x <= y
            },
            (None, _) => {
                proof {
                    lemma_mul_strict_inequality(big_b, big_a, p);
                }
                false
            },
            (Some(_), None) => {
                proof {
                    lemma_mul_strict_inequality(big_a, big_b, p);
                }
                true
            },
        }
    }
}

impl PartialEq for Amount {
    /// Amounts are equal when their quantities are, whatever their scales.
    fn eq(&self, other: &Amount) -> (r: bool) {
        self.le(other) && other.le(self)
    }
}

impl vstd::std_specs::cmp::PartialEqSpecImpl for Amount {
    open spec fn obeys_eq_spec() -> bool {
        true
    }

    open spec fn eq_spec(&self, other: &Amount) -> bool {
        self.value() == other.value()
    }
}

/// Relies on rust_decimal's `Decimal::from_str_exact`, read back through
/// `Decimal::mantissa` and `Decimal::scale`: the parts of the decimal that
/// `text` spells, or `None` where it spells none exactly.
#[verifier::external_body]
fn decimal_parts(text: &str) -> (r: Option<(i128, u32)>)
    ensures
        r == decimal_parts_of(text@),
{
    match rust_decimal::Decimal::from_str_exact(text) {
        Ok(d) => Some((d.mantissa(), d.scale())),
        Err(_) => None,
    }
}

/// Relies on rust_decimal's `Decimal::from_i128_with_scale`, which does not
/// panic on a mantissa of at most 96 bits and a scale of at most 28, and on
/// the `Display` of `Decimal`: the text of mantissa·10^-scale.
#[verifier::external_body]
fn render_decimal(mantissa: u128, scale: u32) -> (r: String)
    requires
        mantissa <= MAX_MANTISSA,
        scale <= MAX_SCALE,
    ensures
        r@ == decimal_text(mantissa, scale),
{
    rust_decimal::Decimal::from_i128_with_scale(mantissa as i128, scale).to_string()
}

} // verus!
