//! The Diffie–Hellman exchange over a fixed generator and modulus.
use crate::bignat::{mod_pow, BigNat};
use vstd::arithmetic::power::{lemma_pow_mod_noop, lemma_pow_multiplies, pow};
use vstd::prelude::*;

verus! {

/// The two checks of `verify`: the candidate secret is reproduced from
/// `(a, r2)` and from `(b, r1)`.
pub open spec fn consistent(m: nat, a: nat, b: nat, r1: nat, r2: nat, sk: nat) -> bool {
    sk == mod_pow(r2, a, m) && sk == mod_pow(r1, b, m)
}

/// Public parameters of an exchange: generator `g` and modulus `p`.
/// They are meant to satisfy `1 < g < p` with `p` prime; nothing here checks
/// that, and the arithmetic is well defined for any values.
pub struct DHP {
    g: BigNat,
    p: BigNat,
}

impl DHP {
    /// The generator as a number.
    pub closed spec fn generator_value(&self) -> nat {
        self.g@
    }

    /// The modulus as a number.
    pub closed spec fn modulus_value(&self) -> nat {
        self.p@
    }

    /// Parameters with generator `g` and modulus `p`.
    pub fn new(g: BigNat, p: BigNat) -> (r: DHP)
        ensures
            r.generator_value() == g@,
            r.modulus_value() == p@,
    {
        DHP { g, p }
    }

    /// The generator.
    pub fn generator(&self) -> (r: &BigNat)
        ensures
            r@ == self.generator_value(),
    {
        &self.g
    }

    /// The modulus.
    pub fn modulus(&self) -> (r: &BigNat)
        ensures
            r@ == self.modulus_value(),
    {
        &self.p
    }

    /// The shared secret `g^(a*b) mod p`, by one exponentiation with the
    /// exact product as exponent.
    pub fn secret_key(&self, a: &BigNat, b: &BigNat) -> (r: BigNat)
        ensures
            r@ == mod_pow(self.generator_value(), a@ * b@, self.modulus_value()),
    {
        let ab = Self::multiplication(a, b);
        self.g.pow_mod(&ab, &self.p)
    }

    /// The exact product `a * b`, with no reduction.
    pub fn multiplication(a: &BigNat, b: &BigNat) -> (r: BigNat)
        ensures
            r@ == a@ * b@,
    {
        a.mul(b)
    }

    /// The two public values `(g^a mod p, g^b mod p)`.
    pub fn compute_pair(&self, a: &BigNat, b: &BigNat) -> (r: (BigNat, BigNat))
        ensures
            r.0@ == mod_pow(self.generator_value(), a@, self.modulus_value()),
            r.1@ == mod_pow(self.generator_value(), b@, self.modulus_value()),
    {
        let r1 = self.g.pow_mod(a, &self.p);
        let r2 = self.g.pow_mod(b, &self.p);
        (r1, r2)
    }

    /// A private exponent drawn uniformly from `[0, bound)`.
    pub fn generate_random_number_below(bound: &BigNat) -> (r: BigNat)
        requires
            bound@ > 0,
        ensures
            r@ < bound@,
    {
        BigNat::random_below(bound)
    }

    /// Whether `sk == r2^a mod p` and `sk == r1^b mod p`: a consistency check
    /// between the two sides, not an authentication of the public values.
    pub fn verify(&self, a: &BigNat, b: &BigNat, r1: &BigNat, r2: &BigNat, sk: &BigNat) -> (r:
        bool)
        ensures
            r == consistent(self.modulus_value(), a@, b@, r1@, r2@, sk@),
    {
        let condition1 = *sk == r2.pow_mod(a, &self.p);
        let condition2 = *sk == r1.pow_mod(b, &self.p);
        condition1 && condition2
    }
}

/// Raising a public value `g^x mod m` to the exponent `y` gives `g^(x*y) mod m`.
pub proof fn lemma_pow_of_public_value(g: nat, m: nat, x: nat, y: nat)
    ensures
        mod_pow(mod_pow(g, x, m), y, m) == mod_pow(g, x * y, m),
{
    if m > 0 {
        lemma_pow_mod_noop(pow(g as int, x), y, m as int);
        lemma_pow_multiplies(g as int, x, y);
    }
}

/// An honest exchange verifies: with `r1 = g^a mod p`, `r2 = g^b mod p` and
/// `sk = g^(a*b) mod p`, both checks of `verify` hold.
pub proof fn lemma_honest_exchange_verifies(g: nat, p: nat, a: nat, b: nat)
    ensures
        consistent(p, a, b, mod_pow(g, a, p), mod_pow(g, b, p), mod_pow(g, a * b, p)),
{
    lemma_pow_of_public_value(g, p, b, a);
    lemma_pow_of_public_value(g, p, a, b);
    assert(b * a == a * b) by (nonlinear_arith);
}

/// The shared secret does not depend on which party's exponent comes first:
/// `g^(a*b) mod p == g^(b*a) mod p`.
pub proof fn lemma_secret_commutes(g: nat, p: nat, a: nat, b: nat)
    ensures
        mod_pow(g, a * b, p) == mod_pow(g, b * a, p),
{
    assert(b * a == a * b) by (nonlinear_arith);
}

/// A substituted first public value `r1'` makes `verify` fail against the
/// honest secret whenever `r1'^b mod p` differs from that secret.
pub proof fn lemma_tampered_value_rejected(g: nat, p: nat, a: nat, b: nat, r1_fake: nat)
    requires
        r1_fake != mod_pow(g, a, p),
        mod_pow(r1_fake, b, p) != mod_pow(g, a * b, p),
    ensures
        !consistent(p, a, b, r1_fake, mod_pow(g, b, p), mod_pow(g, a * b, p)),
{
}

} // verus!
