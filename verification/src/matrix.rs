//! The table that a chip hands out: `p3-matrix`'s dense row-major matrix of
//! field elements. The matrix is that crate's; this module states what its
//! constructor and accessors do.

use crate::field::Felt;
use p3_matrix::dense::DenseMatrix;
use p3_matrix::dense::RowMajorMatrix;
use p3_matrix::Matrix;
use vstd::prelude::*;

verus! {

/// `p3_matrix::dense::DenseMatrix`, of which nothing is known here but what
/// the functions below state.
#[verifier::external_type_specification]
#[verifier::external_body]
#[verifier::reject_recursive_types(T)]
#[verifier::reject_recursive_types(V)]
pub struct ExDenseMatrix<T, V>(DenseMatrix<T, V>);

/// The entries of a matrix, row after row.
pub uninterp spec fn matrix_values(m: RowMajorMatrix<Felt>) -> Seq<Felt>;

/// The number of columns of a matrix.
pub uninterp spec fn matrix_width(m: RowMajorMatrix<Felt>) -> nat;

/// The number of rows of a matrix: its entries divided by its width.
pub open spec fn matrix_height(m: RowMajorMatrix<Felt>) -> nat {
    if matrix_width(m) == 0 {
        0
    } else {
        matrix_values(m).len() / matrix_width(m)
    }
}

/// Row `r` of a row-major table of the given width.
pub open spec fn row_of<T>(values: Seq<T>, width: nat, r: int) -> Seq<T> {
    values.subrange(r * width, (r + 1) * width)
}

/// Appending to a table of `k` whole rows leaves those rows as they are, and
/// the first `width` appended values are row `k`.
pub proof fn lemma_row_of_append<T>(values: Seq<T>, width: nat, k: nat, tail: Seq<T>)
    requires
        values.len() == k * width,
    ensures
        forall|r: int|
            0 <= r < k ==> #[trigger] row_of(values + tail, width, r) == row_of(values, width, r),
        tail.len() >= width ==> row_of(values + tail, width, k as int) == tail.subrange(
            0,
            width as int,
        ),
{
    assert forall|r: int| 0 <= r < k implies #[trigger] row_of(values + tail, width, r) == row_of(
        values,
        width,
        r,
    ) by {
        assert(0 <= r * width <= (r + 1) * width <= k * width) by (nonlinear_arith)
            requires
                0 <= r < k,
                width >= 0,
        ;
        assert(row_of(values + tail, width, r) =~= row_of(values, width, r));
    }
    if tail.len() >= width {
        assert((k + 1) * width == k * width + width) by (nonlinear_arith);
        assert(row_of(values + tail, width, k as int) =~= tail.subrange(0, width as int));
    }
}

/// Writing one entry of row `i` changes that row at that column, and no other
/// row.
pub proof fn lemma_row_of_update<T>(values: Seq<T>, width: nat, h: nat, i: int, c: int, v: T)
    requires
        values.len() == h * width,
        0 <= i < h,
        0 <= c < width,
    ensures
        0 <= i * width + c < values.len(),
        row_of(values.update(i * width + c, v), width, i) == row_of(values, width, i).update(c, v),
        forall|r: int|
            0 <= r < h && r != i ==> #[trigger] row_of(values.update(i * width + c, v), width, r)
                == row_of(values, width, r),
{
    assert(0 <= i * width <= (i + 1) * width <= h * width && (i + 1) * width == i * width + width)
        by (nonlinear_arith)
        requires
            0 <= i < h,
            width >= 0,
    ;
    let updated = values.update(i * width + c, v);
    assert(row_of(updated, width, i) =~= row_of(values, width, i).update(c, v));
    assert forall|r: int| 0 <= r < h && r != i implies #[trigger] row_of(updated, width, r)
        == row_of(values, width, r) by {
        assert(0 <= r * width <= (r + 1) * width <= h * width && (r + 1) * width == r * width
            + width) by (nonlinear_arith)
            requires
                0 <= r < h,
                width >= 0,
        ;
        assert((r + 1) * width <= i * width || (i + 1) * width <= r * width) by (nonlinear_arith)
            requires
                r != i,
                width >= 0,
        ;
        assert(row_of(updated, width, r) =~= row_of(values, width, r));
    }
}

/// Row `r` of a matrix.
pub open spec fn matrix_row(m: RowMajorMatrix<Felt>, r: int) -> Seq<Felt> {
    row_of(matrix_values(m), matrix_width(m), r)
}

/// `RowMajorMatrix::new`: a matrix with exactly these entries and this width.
/// The constructor asserts that the width divides the number of entries.
#[verifier::external_body]
pub(crate) fn new_matrix(values: Vec<Felt>, width: usize) -> (m: RowMajorMatrix<Felt>)
    requires
        width == 0 || values@.len() % (width as nat) == 0,
    ensures
        matrix_values(m) == values@,
        matrix_width(m) == width,
{
    RowMajorMatrix::new(values, width)
}

/// `Matrix::height` of a dense matrix: the number of entries divided by the
/// width, and zero where the width is zero.
#[verifier::external_body]
pub(crate) fn height_of(m: &RowMajorMatrix<Felt>) -> (h: usize)
    ensures
        h == matrix_height(*m),
{
    m.height()
}

/// Assignment to one entry of the matrix's public `values`: that entry
/// changes, nothing else does.
#[verifier::external_body]
pub(crate) fn set_value(m: &mut RowMajorMatrix<Felt>, i: usize, v: Felt)
    requires
        i < matrix_values(*old(m)).len(),
    ensures
        matrix_values(*final(m)) == matrix_values(*old(m)).update(i as int, v),
        matrix_width(*final(m)) == matrix_width(*old(m)),
{
    m.values[i] = v;
}

} // verus!
