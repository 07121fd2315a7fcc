//! Padding a table to its canonical height: the smallest power of two that
//! holds every real row, and at least sixteen rows.
//!
//! The padding itself is done by `sp1-core`; this module states, over the
//! integers, what height it pads to.

use crate::cpu::columns::CpuCols;
use crate::field::felt_of;
use crate::field::Felt;
use vstd::arithmetic::power2::lemma_pow2_unfold;
use vstd::arithmetic::power2::pow2;
use vstd::prelude::*;

verus! {

/// The least height of a table.
pub const MIN_HEIGHT: usize = 16;

/// How far `p` is below `n`.
pub open spec fn gap(p: nat, n: nat) -> nat {
    if p < n {
        (n - p) as nat
    } else {
        0
    }
}

/// The first of `p, 2p, 4p, ..` that is not below `n`.
pub open spec fn next_pow2_from(p: nat, n: nat) -> nat
    decreases gap(p, n),
{
    if p == 0 || p >= n {
        p
    } else {
        next_pow2_from(2 * p, n)
    }
}

/// The smallest power of two that is not below `n`.
pub open spec fn next_pow2(n: nat) -> nat {
    next_pow2_from(1, n)
}

/// The canonical height of a table with `n` real rows.
pub open spec fn padded_height(n: nat) -> nat {
    if next_pow2(n) < MIN_HEIGHT {
        MIN_HEIGHT as nat
    } else {
        next_pow2(n)
    }
}

/// Whether `x` is a power of two.
pub open spec fn is_pow2(x: nat) -> bool {
    exists|k: nat| x == pow2(k)
}

proof fn lemma_next_pow2_from(p: nat, n: nat)
    requires
        is_pow2(p),
        1 <= p,
        p == 1 || p < 2 * n,
    ensures
        is_pow2(next_pow2_from(p, n)),
        next_pow2_from(p, n) >= n,
        next_pow2_from(p, n) >= p,
        next_pow2_from(p, n) < 2 * n || next_pow2_from(p, n) == 1,
    decreases gap(p, n),
{
    if p < n {
        let k = choose|k: nat| p == pow2(k);
        lemma_pow2_unfold(k + 1);
        assert(2 * p == pow2(k + 1));
        lemma_next_pow2_from(2 * p, n);
    }
}

/// `next_pow2(n)` is the smallest power of two that is not below `n`: it is a
/// power of two, it is not below `n`, and half of it is below `n` unless it
/// is one.
pub proof fn lemma_next_pow2(n: nat)
    ensures
        is_pow2(next_pow2(n)),
        next_pow2(n) >= n,
        next_pow2(n) >= 1,
        next_pow2(n) < 2 * n || next_pow2(n) == 1,
{
    assert(pow2(0) == 1) by {
        vstd::arithmetic::power2::lemma2_to64();
    }
    assert(is_pow2(1));
    lemma_next_pow2_from(1, n);
}

/// The canonical height is a power of two, holds every real row, and is the
/// least height unless the real rows need more, in which case fewer than half
/// of its rows are padding.
pub proof fn lemma_padded_height(n: nat)
    ensures
        is_pow2(padded_height(n)),
        padded_height(n) >= n,
        padded_height(n) >= MIN_HEIGHT,
        n <= MIN_HEIGHT ==> padded_height(n) == MIN_HEIGHT,
        n > MIN_HEIGHT ==> padded_height(n) < 2 * n,
{
    lemma_next_pow2(n);
    assert(pow2(4) == 16) by {
        vstd::arithmetic::power2::lemma2_to64();
    }
    assert(is_pow2(16));
    if n <= MIN_HEIGHT && next_pow2(n) > MIN_HEIGHT {
        lemma_pow2_gap(next_pow2(n), n);
    }
}

/// A power of two above sixteen is at least thirty-two.
proof fn lemma_pow2_gap(p: nat, n: nat)
    requires
        is_pow2(p),
        p > 16,
    ensures
        p >= 32,
{
    let k = choose|k: nat| p == pow2(k);
    vstd::arithmetic::power2::lemma2_to64();
    if k <= 4 {
        assert(pow2(k) <= 16) by {
            if k < 4 {
                vstd::arithmetic::power2::lemma_pow2_strictly_increases(k, 4);
            }
        }
    } else {
        if k > 5 {
            vstd::arithmetic::power2::lemma_pow2_strictly_increases(5, k);
        }
    }
}

/// `n` copies of `x`.
pub open spec fn repeat<T>(x: T, n: nat) -> Seq<T> {
    Seq::new(n, |i: int| x)
}

/// `sp1_core::utils::pad_rows`: appends copies of `row` until the table has
/// the next power of two of its length as its height, and sixteen rows at
/// least. It computes that height with `usize::next_power_of_two`, which
/// must not overflow.
#[verifier::external_body]
pub(crate) fn pad_rows(rows: &mut Vec<CpuCols>, row: CpuCols)
    requires
        padded_height(old(rows)@.len()) <= usize::MAX,
    ensures
        final(rows)@ == old(rows)@ + repeat(
            row,
            (padded_height(old(rows)@.len()) - old(rows)@.len()) as nat,
        ),
{
    sp1_core::utils::pad_rows(rows, || row);
}

/// `sp1_core::utils::pad_to_power_of_two`: appends default values, which for
/// a field element is zero, to a row-major table of width `N` until its
/// height is the next power of two of its number of rows, and sixteen at
/// least. The function asserts that the table holds whole rows.
#[verifier::external_body]
pub(crate) fn pad_to_power_of_two<const N: usize>(values: &mut Vec<Felt>)
    requires
        N > 0,
        old(values)@.len() % (N as nat) == 0,
        padded_height(old(values)@.len() / (N as nat)) * N <= usize::MAX,
    ensures
        final(values)@ == old(values)@ + repeat(
            felt_of(0),
            (padded_height(old(values)@.len() / (N as nat)) * N - old(values)@.len()) as nat,
        ),
{
    sp1_core::utils::pad_to_power_of_two::<N, Felt>(values);
}

} // verus!
