//! Exact rational numbers.
//!
//! A [`Ratio`] holds a sign and two arbitrary-precision naturals as plain
//! little-endian 64-bit limbs. Its view is the mathematical number it denotes.
//! Arithmetic and comparison are carried out by `malachite`; the functions
//! that hand the limbs to `malachite` are the only unverified code here.

use malachite::{Natural, Rational};
use vstd::prelude::*;

verus! {

/// The natural number that a little-endian sequence of 64-bit limbs denotes.
pub open spec fn limbs_value(limbs: Seq<u64>) -> nat
    decreases limbs.len(),
{
    if limbs.len() == 0 {
        0
    } else {
        (limbs[0] as nat) + 0x1_0000_0000_0000_0000 * limbs_value(limbs.drop_first())
    }
}

/// The number that a sign, a numerator and a nonzero denominator denote.
pub open spec fn parts_value(negative: bool, numerator: Seq<u64>, denominator: Seq<u64>) -> real {
    let magnitude = (limbs_value(numerator) as real) / (limbs_value(denominator) as real);
    if negative {
        -magnitude
    } else {
        magnitude
    }
}

/// A limb sequence denotes zero exactly when every limb is zero.
pub proof fn lemma_limbs_value_zero(limbs: Seq<u64>)
    ensures
        limbs_value(limbs) == 0 <==> (forall|i: int| 0 <= i < limbs.len() ==> limbs[i] == 0),
    decreases limbs.len(),
{
    if limbs.len() > 0 {
        let rest = limbs.drop_first();
        lemma_limbs_value_zero(rest);
        if limbs_value(limbs) == 0 {
            assert forall|i: int| 0 <= i < limbs.len() implies limbs[i] == 0 by {
                if i > 0 {
                    assert(rest[i - 1] == limbs[i]);
                }
            }
        }
    }
}

/// An exact rational number.
pub struct Ratio {
    negative: bool,
    numerator: Vec<u64>,
    denominator: Vec<u64>,
}

impl View for Ratio {
    type V = real;

    closed spec fn view(&self) -> real {
        parts_value(self.negative, self.numerator@, self.denominator@)
    }
}

impl DeepView for Ratio {
    type V = real;

    open spec fn deep_view(&self) -> real {
        self@
    }
}

impl Clone for Ratio {
    fn clone(&self) -> (r: Ratio)
        ensures
            r@ == self@,
    {
        proof {
            use_type_invariant(self);
        }
        Ratio {
            negative: self.negative,
            numerator: self.numerator.clone(),
            denominator: self.denominator.clone(),
        }
    }
}

impl Ratio {
    /// Every value has a nonzero denominator.
    #[verifier::type_invariant]
    pub closed spec fn wf(&self) -> bool {
        limbs_value(self.denominator@) != 0
    }

    /// The number zero.
    pub fn zero() -> (r: Ratio)
        ensures
            r@ == 0real,
    {
        Ratio::from_u64(0)
    }

    /// The number one.
    pub fn one() -> (r: Ratio)
        ensures
            r@ == 1real,
    {
        Ratio::from_u64(1)
    }

    /// The integer `value`.
    pub fn from_u64(value: u64) -> (r: Ratio)
        ensures
            r@ == value as real,
    {
        let mut numerator: Vec<u64> = Vec::new();
        numerator.push(value);
        let mut denominator: Vec<u64> = Vec::new();
        denominator.push(1);
        proof {
            reveal_with_fuel(limbs_value, 3);
            assert((value as nat) as real / 1real == value as real);
        }
        Ratio { negative: false, numerator, denominator }
    }

    /// The integer `value`.
    pub fn from_u128(value: u128) -> (r: Ratio)
        ensures
            r@ == value as real,
    {
        let low: u64 = (value & 0xffff_ffff_ffff_ffff) as u64;
        let high: u64 = (value >> 64) as u64;
        let mut numerator: Vec<u64> = Vec::new();
        numerator.push(low);
        numerator.push(high);
        let mut denominator: Vec<u64> = Vec::new();
        denominator.push(1);
        proof {
            reveal_with_fuel(limbs_value, 4);
            assert(value == (value & 0xffff_ffff_ffff_ffff) + 0x1_0000_0000_0000_0000 * (value
                >> 64)) by (bit_vector);
            assert((value & 0xffff_ffff_ffff_ffff) <= 0xffff_ffff_ffff_ffff) by (bit_vector);
            assert((value as nat) as real / 1real == value as real);
        }
        Ratio { negative: false, numerator, denominator }
    }

    /// The number with the given sign, numerator and denominator, each a
    /// little-endian limb sequence; `None` when the denominator is zero.
    pub fn from_parts(negative: bool, numerator: Vec<u64>, denominator: Vec<u64>) -> (r: Option<
        Ratio,
    >)
        ensures
            r is Some <==> limbs_value(denominator@) != 0,
            r matches Some(q) ==> q@ == parts_value(negative, numerator@, denominator@),
    {
        let mut nonzero = false;
        let mut i: usize = 0;
        while i < denominator.len()
            invariant
                i <= denominator.len(),
                nonzero <==> exists|j: int| 0 <= j < i && denominator@[j] != 0,
            decreases denominator.len() - i,
        {
            if denominator[i] != 0 {
                nonzero = true;
            }
            i = i + 1;
        }
        proof {
            lemma_limbs_value_zero(denominator@);
        }
        if nonzero {
            Some(Ratio { negative, numerator, denominator })
        } else {
            None
        }
    }

    /// The sign, numerator and denominator of this number as plain values.
    pub fn to_parts(&self) -> (parts: (bool, Vec<u64>, Vec<u64>))
        ensures
            limbs_value(parts.2@) != 0,
            parts_value(parts.0, parts.1@, parts.2@) == self@,
    {
        proof {
            use_type_invariant(self);
        }
        (self.negative, self.numerator.clone(), self.denominator.clone())
    }

    /// The sum of the two numbers.
    pub fn add(&self, rhs: &Ratio) -> (r: Ratio)
        ensures
            r@ == self@ + rhs@,
    {
        proof {
            use_type_invariant(self);
            use_type_invariant(rhs);
        }
        exact_add(self, rhs)
    }

    /// The difference of the two numbers.
    pub fn sub(&self, rhs: &Ratio) -> (r: Ratio)
        ensures
            r@ == self@ - rhs@,
    {
        proof {
            use_type_invariant(self);
            use_type_invariant(rhs);
        }
        exact_sub(self, rhs)
    }

    /// The product of the two numbers.
    pub fn mul(&self, rhs: &Ratio) -> (r: Ratio)
        ensures
            r@ == self@ * rhs@,
    {
        proof {
            use_type_invariant(self);
            use_type_invariant(rhs);
        }
        exact_mul(self, rhs)
    }

    /// The quotient of the two numbers.
    pub fn div(&self, rhs: &Ratio) -> (r: Ratio)
        requires
            rhs@ != 0real,
        ensures
            r@ == self@ / rhs@,
    {
        proof {
            use_type_invariant(self);
            use_type_invariant(rhs);
        }
        exact_div(self, rhs)
    }

    /// Whether this number is strictly below `rhs`.
    pub fn lt(&self, rhs: &Ratio) -> (b: bool)
        ensures
            b == (self@ < rhs@),
    {
        proof {
            use_type_invariant(self);
            use_type_invariant(rhs);
        }
        exact_lt(self, rhs)
    }

    /// Whether this number is at most `rhs`.
    pub fn le(&self, rhs: &Ratio) -> (b: bool)
        ensures
            b == (self@ <= rhs@),
    {
        !rhs.lt(self)
    }

    /// Whether the two numbers are equal.
    pub fn eq(&self, rhs: &Ratio) -> (b: bool)
        ensures
            b == (self@ == rhs@),
    {
        !self.lt(rhs) && !rhs.lt(self)
    }

    /// Whether this number is zero.
    pub fn is_zero(&self) -> (b: bool)
        ensures
            b == (self@ == 0real),
    {
        let zero = Ratio::zero();
        self.eq(&zero)
    }

    /// Whether this number is strictly above zero.
    pub fn is_positive(&self) -> (b: bool)
        ensures
            b == (self@ > 0real),
    {
        let zero = Ratio::zero();
        zero.lt(self)
    }
}

/// `Add` of `malachite::Rational`, on the numbers that the limbs denote: the
/// sum is exact.
#[verifier::external_body]
fn exact_add(a: &Ratio, b: &Ratio) -> (r: Ratio)
    requires
        a.wf(),
        b.wf(),
    ensures
        r.wf(),
        r@ == a@ + b@,
{
    let (an, ad) = (Natural::from_limbs_asc(&a.numerator), Natural::from_limbs_asc(&a.denominator));
    let (bn, bd) = (Natural::from_limbs_asc(&b.numerator), Natural::from_limbs_asc(&b.denominator));
    let x = Rational::from_sign_and_naturals(!a.negative, an, ad);
    let y = Rational::from_sign_and_naturals(!b.negative, bn, bd);
    let z = x + y;
    let negative = z < 0;
    let (n, d) = z.into_numerator_and_denominator();
    Ratio { negative, numerator: n.into_limbs_asc(), denominator: d.into_limbs_asc() }
}

/// `Sub` of `malachite::Rational`, on the numbers that the limbs denote: the
/// difference is exact.
#[verifier::external_body]
fn exact_sub(a: &Ratio, b: &Ratio) -> (r: Ratio)
    requires
        a.wf(),
        b.wf(),
    ensures
        r.wf(),
        r@ == a@ - b@,
{
    let (an, ad) = (Natural::from_limbs_asc(&a.numerator), Natural::from_limbs_asc(&a.denominator));
    let (bn, bd) = (Natural::from_limbs_asc(&b.numerator), Natural::from_limbs_asc(&b.denominator));
    let x = Rational::from_sign_and_naturals(!a.negative, an, ad);
    let y = Rational::from_sign_and_naturals(!b.negative, bn, bd);
    let z = x - y;
    let negative = z < 0;
    let (n, d) = z.into_numerator_and_denominator();
    Ratio { negative, numerator: n.into_limbs_asc(), denominator: d.into_limbs_asc() }
}

/// `Mul` of `malachite::Rational`, on the numbers that the limbs denote: the
/// product is exact.
#[verifier::external_body]
fn exact_mul(a: &Ratio, b: &Ratio) -> (r: Ratio)
    requires
        a.wf(),
        b.wf(),
    ensures
        r.wf(),
        r@ == a@ * b@,
{
    let (an, ad) = (Natural::from_limbs_asc(&a.numerator), Natural::from_limbs_asc(&a.denominator));
    let (bn, bd) = (Natural::from_limbs_asc(&b.numerator), Natural::from_limbs_asc(&b.denominator));
    let x = Rational::from_sign_and_naturals(!a.negative, an, ad);
    let y = Rational::from_sign_and_naturals(!b.negative, bn, bd);
    let z = x * y;
    let negative = z < 0;
    let (n, d) = z.into_numerator_and_denominator();
    Ratio { negative, numerator: n.into_limbs_asc(), denominator: d.into_limbs_asc() }
}

/// `Div` of `malachite::Rational`, on the numbers that the limbs denote: the
/// quotient is exact. `malachite` panics on a zero divisor, which the
/// precondition leaves out.
#[verifier::external_body]
fn exact_div(a: &Ratio, b: &Ratio) -> (r: Ratio)
    requires
        a.wf(),
        b.wf(),
        b@ != 0real,
    ensures
        r.wf(),
        r@ == a@ / b@,
{
    let (an, ad) = (Natural::from_limbs_asc(&a.numerator), Natural::from_limbs_asc(&a.denominator));
    let (bn, bd) = (Natural::from_limbs_asc(&b.numerator), Natural::from_limbs_asc(&b.denominator));
    let x = Rational::from_sign_and_naturals(!a.negative, an, ad);
    let y = Rational::from_sign_and_naturals(!b.negative, bn, bd);
    let z = x / y;
    let negative = z < 0;
    let (n, d) = z.into_numerator_and_denominator();
    Ratio { negative, numerator: n.into_limbs_asc(), denominator: d.into_limbs_asc() }
}

/// `<` of `malachite::Rational`, on the numbers that the limbs denote.
#[verifier::external_body]
fn exact_lt(a: &Ratio, b: &Ratio) -> (r: bool)
    requires
        a.wf(),
        b.wf(),
    ensures
        r == (a@ < b@),
{
    let (an, ad) = (Natural::from_limbs_asc(&a.numerator), Natural::from_limbs_asc(&a.denominator));
    let (bn, bd) = (Natural::from_limbs_asc(&b.numerator), Natural::from_limbs_asc(&b.denominator));
    let x = Rational::from_sign_and_naturals(!a.negative, an, ad);
    let y = Rational::from_sign_and_naturals(!b.negative, bn, bd);
    x < y
}

} // verus!
