//! The semi-sum operator in Z3, and the linear indexing of Z3 x Z3 x Z3.
//!
//! Z3 is the ring of integers modulo 3.  In Z3, multiplying by 2 and
//! dividing by 2 agree (`0 -> 0`, `1 -> 2`, `2 -> 1`), so the semi-sum
//! `(a + b) / 2` can be computed as `((a + b) * 2) % 3` with integers only.
//!
//! The semi-sum is commutative; on equal arguments it is the identity, and
//! on distinct arguments it is cyclic: it returns the unique third value
//! that completes `{a, b}` to all of `{0, 1, 2}`.

use vstd::prelude::*;

verus! {

/// The semi-sum of two residues modulo 3.
pub open spec fn spec_z3_semi_sum(a: u8, b: u8) -> u8 {
    (((a + b) * 2) % 3) as u8
}

/// The coordinates of a linear index: digits of `index` in base 3,
/// most significant first.
pub open spec fn spec_coordinates_of_index(index: u8) -> (u8, u8, u8) {
    ((index / 9) as u8, ((index / 3) % 3) as u8, (index % 3) as u8)
}

/// The linear index of a coordinate triple: its value as a base-3 numeral.
pub open spec fn spec_index_of_coordinates(vector: (u8, u8, u8)) -> int {
    vector.0 * 9 + vector.1 * 3 + vector.2
}

/// Semi-sum in Z3.
pub fn z3_semi_sum(a: u8, b: u8) -> (r: u8)
    requires
        a < 3,
        b < 3,
    ensures
        r == spec_z3_semi_sum(a, b),
        r < 3,
{
    ((a + b) * 2) % 3
}

/// Map a linear index in `[0, 26]` to its coordinates in Z3 x Z3 x Z3.
pub fn z3xz3xz3_coordinates_of_index(index: u8) -> (v: (u8, u8, u8))
    requires
        index < 27,
    ensures
        v == spec_coordinates_of_index(index),
        v.0 < 3 && v.1 < 3 && v.2 < 3,
{
    (
        (index - (index % 9)) / 9,
        ((index - (index % 3)) / 3) % 3,
        index % 3,
    )
}

/// Map coordinates in Z3 x Z3 x Z3 back to their linear index in `[0, 26]`.
pub fn index_of_z3xz3xz3_coordinates(vector: (u8, u8, u8)) -> (r: u8)
    requires
        vector.0 < 3,
        vector.1 < 3,
        vector.2 < 3,
    ensures
        r == spec_index_of_coordinates(vector),
        r < 27,
{
    vector.0 * 9 + vector.1 * 3 + vector.2
}

/// Component-wise semi-sum in Z3 x Z3 x Z3.
pub fn z3xz3xz3_semi_sum(a: (u8, u8, u8), b: (u8, u8, u8)) -> (r: (u8, u8, u8))
    requires
        a.0 < 3 && a.1 < 3 && a.2 < 3,
        b.0 < 3 && b.1 < 3 && b.2 < 3,
    ensures
        r.0 == spec_z3_semi_sum(a.0, b.0),
        r.1 == spec_z3_semi_sum(a.1, b.1),
        r.2 == spec_z3_semi_sum(a.2, b.2),
        r.0 < 3 && r.1 < 3 && r.2 < 3,
{
    (
        z3_semi_sum(a.0, b.0),
        z3_semi_sum(a.1, b.1),
        z3_semi_sum(a.2, b.2),
    )
}

/// The semi-sum of two equal residues is that residue.
pub proof fn lemma_z3_semi_sum_identity(a: u8)
    requires
        a < 3,
    ensures
        spec_z3_semi_sum(a, a) == a,
{
}

/// The semi-sum is commutative.
pub proof fn lemma_z3_semi_sum_commutative(a: u8, b: u8)
    ensures
        spec_z3_semi_sum(a, b) == spec_z3_semi_sum(b, a),
{
}

/// On distinct residues the semi-sum is cyclic: it returns the third
/// residue, and applying it to any two of `{a, b, c}` yields the remaining
/// one.
pub proof fn lemma_z3_semi_sum_cyclic(a: u8, b: u8)
    requires
        a < 3,
        b < 3,
        a != b,
    ensures
        spec_z3_semi_sum(a, b) < 3,
        spec_z3_semi_sum(a, b) != a,
        spec_z3_semi_sum(a, b) != b,
        spec_z3_semi_sum(b, spec_z3_semi_sum(a, b)) == a,
        spec_z3_semi_sum(spec_z3_semi_sum(a, b), a) == b,
{
}

/// Indexing and coordinates are exact inverses on `[0, 26]`.
pub proof fn lemma_index_of_coordinates_of_index(index: u8)
    requires
        index < 27,
    ensures
        spec_index_of_coordinates(spec_coordinates_of_index(index)) == index,
{
}

} // verus!
