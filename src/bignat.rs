//! Arbitrary-precision natural numbers, held as base 2^32 digits with the
//! least significant digit first. The arithmetic itself is done by num-bigint.
use num_bigint::BigUint;
use vstd::arithmetic::power::pow;
use vstd::prelude::*;

verus! {

/// The radix of one digit.
pub const DIGIT_BASE: u64 = 0x1_0000_0000;

/// The number that a little-endian sequence of base 2^32 digits stands for.
pub open spec fn digits_value(d: Seq<u32>) -> nat
    decreases d.len(),
{
    if d.len() == 0 {
        0
    } else {
        d[0] as nat + (DIGIT_BASE as nat) * digits_value(d.drop_first())
    }
}

/// `base^exp mod m`; a zero modulus yields zero.
pub open spec fn mod_pow(base: nat, exp: nat, m: nat) -> nat {
    if m == 0 {
        0
    } else {
        (pow(base as int, exp) % (m as int)) as nat
    }
}

/// Relies on `BigUint::modpow`: `(self ^ exponent) % modulus`, which panics
/// on a zero modulus.
#[verifier::external_body]
fn modpow_digits(base: &Vec<u32>, exp: &Vec<u32>, m: &Vec<u32>) -> (r: Vec<u32>)
    requires
        digits_value(m@) > 0,
    ensures
        digits_value(r@) == pow(digits_value(base@) as int, digits_value(exp@)) % (
        digits_value(m@) as int),
{
    let b = BigUint::from_slice(base);
    b.modpow(&BigUint::from_slice(exp), &BigUint::from_slice(m)).to_u32_digits()
}

/// Relies on `Mul for &BigUint`: the exact product.
#[verifier::external_body]
fn mul_digits(x: &Vec<u32>, y: &Vec<u32>) -> (r: Vec<u32>)
    ensures
        digits_value(r@) == digits_value(x@) * digits_value(y@),
{
    (&BigUint::from_slice(x) * &BigUint::from_slice(y)).to_u32_digits()
}

/// Relies on `PartialEq for BigUint`: equal exactly when the numbers are equal.
#[verifier::external_body]
fn eq_digits(x: &Vec<u32>, y: &Vec<u32>) -> (r: bool)
    ensures
        r == (digits_value(x@) == digits_value(y@)),
{
    BigUint::from_slice(x) == BigUint::from_slice(y)
}

/// Relies on `rand::thread_rng` and `RandBigInt::gen_biguint_below`: a number
/// below `bound`, drawn by rejection sampling; it panics on a zero bound.
#[verifier::external_body]
fn random_digits_below(bound: &Vec<u32>) -> (r: Vec<u32>)
    requires
        digits_value(bound@) > 0,
    ensures
        digits_value(r@) < digits_value(bound@),
{
    let mut rng = rand::thread_rng();
    let bound = BigUint::from_slice(bound);
    num_bigint::RandBigInt::gen_biguint_below(&mut rng, &bound).to_u32_digits()
}

/// An arbitrary-precision natural number.
#[derive(Debug)]
pub struct BigNat {
    digits: Vec<u32>,
}

impl View for BigNat {
    type V = nat;

    closed spec fn view(&self) -> nat {
        digits_value(self.digits@)
    }
}

proof fn lemma_single_digit(x: u32)
    ensures
        digits_value(seq![x]) == x as nat,
{
    reveal_with_fuel(digits_value, 2);
    assert(seq![x].drop_first() =~= Seq::<u32>::empty());
}

impl BigNat {
    /// The number zero.
    pub fn zero() -> (r: BigNat)
        ensures
            r@ == 0,
    {
        BigNat { digits: Vec::new() }
    }

    /// The number `x`.
    pub fn from_u32(x: u32) -> (r: BigNat)
        ensures
            r@ == x as nat,
    {
        proof {
            lemma_single_digit(x);
        }
        let digits = vec![x];
        assert(digits@ =~= seq![x]);
        BigNat { digits }
    }

    /// The number `x`.
    pub fn from_u64(x: u64) -> (r: BigNat)
        ensures
            r@ == x as nat,
    {
        let lo = (x % DIGIT_BASE) as u32;
        let hi = (x / DIGIT_BASE) as u32;
        let digits = vec![lo, hi];
        proof {
            reveal_with_fuel(digits_value, 3);
            assert(digits@.drop_first() =~= seq![hi]);
            assert(digits@.drop_first().drop_first() =~= Seq::<u32>::empty());
            assert(x == DIGIT_BASE * (x / DIGIT_BASE) + x % DIGIT_BASE) by (nonlinear_arith)
                requires DIGIT_BASE > 0;
        }
        BigNat { digits }
    }

    /// Whether the two numbers are equal.
    pub fn equals(&self, other: &BigNat) -> (r: bool)
        ensures
            r == (self@ == other@),
    {
        eq_digits(&self.digits, &other.digits)
    }

    /// The exact product `self * other`.
    pub fn mul(&self, other: &BigNat) -> (r: BigNat)
        ensures
            r@ == self@ * other@,
    {
        BigNat { digits: mul_digits(&self.digits, &other.digits) }
    }

    /// `self^exp mod m`, and zero where `m` is zero.
    pub fn pow_mod(&self, exp: &BigNat, m: &BigNat) -> (r: BigNat)
        ensures
            r@ == mod_pow(self@, exp@, m@),
    {
        if m.equals(&BigNat::zero()) {
            BigNat::zero()
        } else {
            BigNat { digits: modpow_digits(&self.digits, &exp.digits, &m.digits) }
        }
    }

    /// A number drawn uniformly from `[0, bound)` by the thread-local generator.
    pub fn random_below(bound: &BigNat) -> (r: BigNat)
        requires
            bound@ > 0,
        ensures
            r@ < bound@,
    {
        BigNat { digits: random_digits_below(&bound.digits) }
    }
}

impl Clone for BigNat {
    fn clone(&self) -> (r: BigNat)
        ensures
            r@ == self@,
    {
        BigNat { digits: self.digits.clone() }
    }
}

impl PartialEq for BigNat {
    fn eq(&self, other: &BigNat) -> (r: bool) {
        self.equals(other)
    }
}

impl vstd::std_specs::cmp::PartialEqSpecImpl for BigNat {
    open spec fn obeys_eq_spec() -> bool {
        true
    }

    open spec fn eq_spec(&self, other: &BigNat) -> bool {
        self@ == other@
    }
}

impl Eq for BigNat {

}

} // verus!
