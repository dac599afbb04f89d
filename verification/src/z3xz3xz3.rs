//! Z3 x Z3 x Z3, the coordinate space of the cube's 27 cells.
//!
//! A cell is a triple of residues modulo 3.  Equality normalizes each
//! component modulo 3, so integer inputs outside `{0, 1, 2}` are accepted.
//! The component-wise semi-sum inherits commutativity, identity on equal
//! arguments, and cyclicity from the Z3 operator; on two points of a
//! straight cube line it returns the third point of that line.

use vstd::prelude::*;

use crate::z3::spec_z3_semi_sum;
use crate::z3::z3_semi_sum;
use crate::z3::lemma_z3_semi_sum_identity;
use crate::z3::lemma_z3_semi_sum_cyclic;

verus! {

pub type Z3xZ3xZ3Vector = (u8, u8, u8);

/// Component-wise equality of two vectors, modulo 3.
pub open spec fn spec_are_equal(a: Z3xZ3xZ3Vector, b: Z3xZ3xZ3Vector) -> bool {
    (a.0 % 3 == b.0 % 3) && (a.1 % 3 == b.1 % 3) && (a.2 % 3 == b.2 % 3)
}

/// Component-wise semi-sum of two vectors.
pub open spec fn spec_semi_sum(a: Z3xZ3xZ3Vector, b: Z3xZ3xZ3Vector) -> Z3xZ3xZ3Vector {
    (spec_z3_semi_sum(a.0, b.0), spec_z3_semi_sum(a.1, b.1), spec_z3_semi_sum(a.2, b.2))
}

/// Compare two vectors component-wise, normalizing modulo 3.
pub fn are_equal(a: Z3xZ3xZ3Vector, b: Z3xZ3xZ3Vector) -> (r: bool)
    ensures
        r == spec_are_equal(a, b),
{
    (a.0 % 3 == b.0 % 3) && (a.1 % 3 == b.1 % 3) && (a.2 % 3 == b.2 % 3)
}

/// Semi-sum in Z3 x Z3 x Z3.
pub fn semi_sum(a: Z3xZ3xZ3Vector, b: Z3xZ3xZ3Vector) -> (r: Z3xZ3xZ3Vector)
    requires
        a.0 < 3 && a.1 < 3 && a.2 < 3,
        b.0 < 3 && b.1 < 3 && b.2 < 3,
    ensures
        r == spec_semi_sum(a, b),
        r.0 < 3 && r.1 < 3 && r.2 < 3,
{
    (
        z3_semi_sum(a.0, b.0),
        z3_semi_sum(a.1, b.1),
        z3_semi_sum(a.2, b.2),
    )
}

/// The semi-sum of a vector with itself is that vector.
pub proof fn lemma_semi_sum_identity(a: Z3xZ3xZ3Vector)
    requires
        a.0 < 3 && a.1 < 3 && a.2 < 3,
    ensures
        spec_semi_sum(a, a) == a,
{
    lemma_z3_semi_sum_identity(a.0);
    lemma_z3_semi_sum_identity(a.1);
    lemma_z3_semi_sum_identity(a.2);
}

/// The semi-sum of vectors is commutative.
pub proof fn lemma_semi_sum_commutative(a: Z3xZ3xZ3Vector, b: Z3xZ3xZ3Vector)
    ensures
        spec_semi_sum(a, b) == spec_semi_sum(b, a),
{
}

/// On distinct vectors the semi-sum is cyclic: with `c = semi_sum(a, b)`,
/// the semi-sum of any two of `{a, b, c}` yields the remaining one.
pub proof fn lemma_semi_sum_cyclic(a: Z3xZ3xZ3Vector, b: Z3xZ3xZ3Vector)
    requires
        a.0 < 3 && a.1 < 3 && a.2 < 3,
        b.0 < 3 && b.1 < 3 && b.2 < 3,
        a != b,
    ensures
        spec_semi_sum(b, spec_semi_sum(a, b)) == a,
        spec_semi_sum(spec_semi_sum(a, b), a) == b,
{
    if a.0 != b.0 {
        lemma_z3_semi_sum_cyclic(a.0, b.0);
    } else {
        lemma_z3_semi_sum_identity(a.0);
    }
    if a.1 != b.1 {
        lemma_z3_semi_sum_cyclic(a.1, b.1);
    } else {
        lemma_z3_semi_sum_identity(a.1);
    }
    if a.2 != b.2 {
        lemma_z3_semi_sum_cyclic(a.2, b.2);
    } else {
        lemma_z3_semi_sum_identity(a.2);
    }
}

} // verus!
