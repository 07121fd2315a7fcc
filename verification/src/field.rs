//! Elements of the Baby Bear prime field, held by their canonical value.
//!
//! A [`Felt`] is the number in `[0, MODULUS)` that names a field element, and
//! no executable value of the type holds anything else. The arithmetic itself
//! is done by the `p3-baby-bear` crate; this module states what that
//! arithmetic returns, over the integers.

use p3_baby_bear::BabyBear;
use p3_field::AbstractField;
use p3_field::PrimeField32;
use vstd::prelude::*;

verus! {

/// The Baby Bear prime, `2^31 - 2^27 + 1`.
pub const MODULUS: u32 = 2013265921;

/// The modulus as a mathematical integer.
pub open spec fn modulus() -> int {
    2013265921
}

/// A field element, stored as its canonical representative.
#[derive(Clone, Copy, Debug, PartialEq, Eq, Structural)]
pub struct Felt {
    value: u32,
}

impl View for Felt {
    type V = int;

    /// The canonical representative as an integer.
    closed spec fn view(&self) -> int {
        self.value as int
    }
}

/// The element whose canonical representative is `v`.
pub closed spec fn felt_of(v: int) -> Felt {
    Felt { value: v as u32 }
}

/// `felt_of` and the view are inverse to each other on 32-bit values.
pub proof fn lemma_felt_of_view(v: int)
    requires
        0 <= v < 0x1_0000_0000,
    ensures
        felt_of(v)@ == v,
{
}

impl Felt {
    #[verifier::type_invariant]
    closed spec fn canonical(self) -> bool {
        self.value < MODULUS
    }

    /// The sum of two elements.
    pub open spec fn add_spec(self, rhs: Felt) -> Felt {
        felt_of((self@ + rhs@) % modulus())
    }

    /// The difference of two elements.
    pub open spec fn sub_spec(self, rhs: Felt) -> Felt {
        felt_of((self@ - rhs@) % modulus())
    }

    /// The product of two elements.
    pub open spec fn mul_spec(self, rhs: Felt) -> Felt {
        felt_of((self@ * rhs@) % modulus())
    }

    /// The additive identity.
    pub fn zero() -> (r: Felt)
        ensures
            r == felt_of(0),
    {
        Felt { value: 0 }
    }

    /// The multiplicative identity.
    pub fn one() -> (r: Felt)
        ensures
            r == felt_of(1),
    {
        Felt { value: 1 }
    }

    /// The element `1` for `true` and `0` for `false`.
    pub fn from_bool(b: bool) -> (r: Felt)
        ensures
            r == felt_of(if b { 1 } else { 0 }),
    {
        if b {
            Felt { value: 1 }
        } else {
            Felt { value: 0 }
        }
    }

    /// The element with canonical representative `n`, or `None` where `n` is
    /// not below the modulus.
    pub fn new(n: u32) -> (r: Option<Felt>)
        ensures
            n < MODULUS ==> r == Some(felt_of(n as int)),
            n >= MODULUS ==> r is None,
    {
        if n < MODULUS {
            Some(Felt { value: n })
        } else {
            None
        }
    }

    /// The element with canonical representative `n`.
    pub fn from_canonical_u32(n: u32) -> (r: Felt)
        requires
            n < MODULUS,
        ensures
            r == felt_of(n as int),
    {
        Felt { value: n }
    }

    /// The element with canonical representative `n`.
    pub fn from_canonical_usize(n: usize) -> (r: Felt)
        requires
            n < MODULUS,
        ensures
            r == felt_of(n as int),
    {
        Felt { value: n as u32 }
    }

    /// The canonical representative.
    pub fn as_canonical_u32(&self) -> (n: u32)
        ensures
            n == self@,
            n < MODULUS,
    {
        proof {
            use_type_invariant(self);
        }
        self.value
    }

    /// Field addition, done by `BabyBear`'s `Add`: the result is the sum of
    /// the two representatives, reduced modulo the prime.
    #[verifier::external_body]
    pub(crate) fn add(self, rhs: Felt) -> (r: Felt)
        ensures
            r == self.add_spec(rhs),
    {
        let sum = BabyBear::from_canonical_u32(self.value) + BabyBear::from_canonical_u32(rhs.value);
        Felt { value: sum.as_canonical_u32() }
    }

    /// Field multiplication, done by `BabyBear`'s `Mul`: the result is the
    /// product of the two representatives, reduced modulo the prime.
    #[verifier::external_body]
    pub(crate) fn mul(self, rhs: Felt) -> (r: Felt)
        ensures
            r == self.mul_spec(rhs),
    {
        let prod = BabyBear::from_canonical_u32(self.value) * BabyBear::from_canonical_u32(rhs.value);
        Felt { value: prod.as_canonical_u32() }
    }
}

impl Default for Felt {
    /// The additive identity.
    fn default() -> (r: Felt)
        ensures
            r == felt_of(0),
    {
        Felt { value: 0 }
    }
}

} // verus!
