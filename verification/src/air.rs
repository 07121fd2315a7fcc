//! Four-limb blocks, read as elements of the degree-4 extension of the field.
//!
//! The extension is `F[x] / (x^4 - 11)`: a block `[c0, c1, c2, c3]` stands for
//! `c0 + c1 x + c2 x^2 + c3 x^3`.

use crate::field::felt_of;
use crate::field::modulus;
use crate::field::Felt;
use p3_baby_bear::BabyBear;
use p3_field::AbstractField;
use p3_field::PrimeField32;
use sp1_core::air::BinomialExtension;
use vstd::prelude::*;

verus! {

/// The degree of the extension, and the number of limbs in a block.
pub const D: usize = 4;

/// A block of four values: a memory word, or an extension-field element.
#[derive(Clone, Copy, Debug, PartialEq, Eq)]
pub struct Block<T>(pub [T; 4]);

/// The block `[zero, zero, zero, zero]`.
pub open spec fn zero_block() -> Block<Felt> {
    Block([felt_of(0), felt_of(0), felt_of(0), felt_of(0)])
}

/// The block `[one, zero, zero, zero]`: the extension field's unit.
pub open spec fn one_block() -> Block<Felt> {
    Block([felt_of(1), felt_of(0), felt_of(0), felt_of(0)])
}

/// The limb-wise difference of two blocks, which is their difference as
/// extension-field elements.
pub open spec fn ext_sub_spec(a: Block<Felt>, b: Block<Felt>) -> Block<Felt> {
    Block(
        [
            a.0[0].sub_spec(b.0[0]),
            a.0[1].sub_spec(b.0[1]),
            a.0[2].sub_spec(b.0[2]),
            a.0[3].sub_spec(b.0[3]),
        ],
    )
}

/// The product of two extension-field elements, with `x^4 = 11`.
pub open spec fn ext_mul_spec(a: Block<Felt>, b: Block<Felt>) -> Block<Felt> {
    let (a0, a1, a2, a3) = (a.0[0]@, a.0[1]@, a.0[2]@, a.0[3]@);
    let (b0, b1, b2, b3) = (b.0[0]@, b.0[1]@, b.0[2]@, b.0[3]@);
    Block(
        [
            felt_of((a0 * b0 + 11 * (a1 * b3 + a2 * b2 + a3 * b1)) % modulus()),
            felt_of((a0 * b1 + a1 * b0 + 11 * (a2 * b3 + a3 * b2)) % modulus()),
            felt_of((a0 * b2 + a1 * b1 + a2 * b0 + 11 * (a3 * b3)) % modulus()),
            felt_of((a0 * b3 + a1 * b2 + a2 * b1 + a3 * b0) % modulus()),
        ],
    )
}

/// The four limbs of a block, in order.
pub open spec fn block_flat<T>(a: Block<T>) -> Seq<T> {
    seq![a.0[0], a.0[1], a.0[2], a.0[3]]
}

/// The inverse of a non-zero extension-field element.
pub uninterp spec fn ext_inverse_of(a: Block<Felt>) -> Block<Felt>;

impl<T: Copy> Block<T> {
    /// Appends the four limbs to a row-major table.
    pub fn append_to(&self, values: &mut Vec<T>)
        ensures
            final(values)@ == old(values)@ + block_flat(*self),
    {
        values.push(self.0[0]);
        values.push(self.0[1]);
        values.push(self.0[2]);
        values.push(self.0[3]);
        assert(values@ =~= old(values)@ + block_flat(*self));
    }
}

impl Block<Felt> {
    /// The block whose limbs are all zero.
    pub fn zero() -> (r: Block<Felt>)
        ensures
            r == zero_block(),
    {
        let z = Felt::zero();
        Block([z, z, z, z])
    }

    /// The block that embeds a base-field element: `[v, 0, 0, 0]`.
    pub fn from_base(v: Felt) -> (r: Block<Felt>)
        ensures
            r == Block([v, felt_of(0), felt_of(0), felt_of(0)]),
    {
        let z = Felt::zero();
        Block([v, z, z, z])
    }

    /// Whether two blocks hold the same four limbs.
    pub fn equals(&self, other: &Block<Felt>) -> (r: bool)
        ensures
            r == (*self == *other),
    {
        let r = self.0[0] == other.0[0] && self.0[1] == other.0[1] && self.0[2] == other.0[2]
            && self.0[3] == other.0[3];
        proof {
            if r {
                assert(self.0 =~= other.0);
            }
        }
        r
    }

    /// Whether the block is the extension field's zero.
    pub fn is_zero(&self) -> (r: bool)
        ensures
            r == (*self == zero_block()),
    {
        let z = Block::zero();
        self.equals(&z)
    }

    /// The difference `self - rhs` in the extension field, computed by the
    /// `Sub` of `sp1_core::air::BinomialExtension`, which subtracts limb by
    /// limb in the base field.
    #[verifier::external_body]
    pub(crate) fn ext_sub(&self, rhs: &Block<Felt>) -> (r: Block<Felt>)
        ensures
            r == ext_sub_spec(*self, *rhs),
    {
        let a = BinomialExtension(self.0.map(|f: Felt| BabyBear::from_canonical_u32(f.as_canonical_u32())));
        let b = BinomialExtension(rhs.0.map(|f: Felt| BabyBear::from_canonical_u32(f.as_canonical_u32())));
        Block((a - b).0.map(|x: BabyBear| Felt::from_canonical_u32(x.as_canonical_u32())))
    }

    /// The multiplicative inverse in the extension field, computed by
    /// `inverse` of `sp1_core::air::BinomialExtension`, which hands the limbs
    /// to `p3_field`'s `Field::inverse`: the element whose product with `self`
    /// is one. That function panics on zero, which the precondition leaves
    /// out.
    #[verifier::external_body]
    pub(crate) fn ext_inverse(&self) -> (r: Block<Felt>)
        requires
            *self != zero_block(),
        ensures
            r == ext_inverse_of(*self),
            ext_mul_spec(*self, r) == one_block(),
    {
        let a = BinomialExtension(self.0.map(|f: Felt| BabyBear::from_canonical_u32(f.as_canonical_u32())));
        Block(a.inverse().0.map(|x: BabyBear| Felt::from_canonical_u32(x.as_canonical_u32())))
    }
}

} // verus!
