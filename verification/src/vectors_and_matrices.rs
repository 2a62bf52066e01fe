//! Vectors of three numbers and 3x3 rotation matrices, row by row: what is
//! done to them without arithmetic.

use crate::binary64::Binary64;
use vstd::prelude::*;

verus! {

/// The identity matrix: ones on the diagonal, zeros elsewhere.
pub open spec fn identity() -> Seq<Seq<Binary64>> {
    let zero = Binary64 { bits: 0 };
    let one = Binary64 { bits: 0x3ff0_0000_0000_0000 };
    seq![seq![one, zero, zero], seq![zero, one, zero], seq![zero, zero, one]]
}

/// The rows of a matrix.
pub open spec fn rows(r: [[Binary64; 3]; 3]) -> Seq<Seq<Binary64>> {
    Seq::new(3, |i: int| r@[i]@)
}

/// Makes `r` the identity matrix.
pub fn init_matrix(r: &mut [[Binary64; 3]; 3])
    ensures
        rows(*final(r)) == identity(),
{
    let zero = Binary64::zero();
    let one = Binary64::one();
    *r = [[one, zero, zero], [zero, one, zero], [zero, zero, one]];
    assert(rows(*r) =~~= identity());
}

/// A copy of the vector `p`.
pub fn copy_vector(p: [Binary64; 3]) -> (c: [Binary64; 3])
    ensures
        c == p,
{
    p
}

/// A copy of the matrix `r`.
pub fn copy_matrix(r: [[Binary64; 3]; 3]) -> (c: [[Binary64; 3]; 3])
    ensures
        c == r,
{
    r
}

} // verus!
