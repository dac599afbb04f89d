//! The cell-label table and the winning-combination detector.
//!
//! Each of the 27 cells carries a fixed single-character label: the 26
//! uppercase Latin letters plus `'*'` for the cube's center `(1, 1, 1)`.
//! The label/vector table is a fixed bijection.
//!
//! Three distinct cells form a winning combination when they lie on one
//! straight line of the cube.  The detector first tests collinearity with
//! the semi-sum (`semi_sum(A, B) = C`), then sorts the collinear triples
//! into the geometric cases that actually occur on the cube: a line through
//! the center, an axis-parallel line, or a face diagonal through that
//! face's center.  Collinear triples of Z3 x Z3 x Z3 that match none of
//! these wrap around the cube and are not winning.

use vstd::prelude::*;

use crate::errors::Error;
use crate::z3xz3xz3::Z3xZ3xZ3Vector;
use crate::z3xz3xz3::are_equal;
use crate::z3xz3xz3::semi_sum;
use crate::z3xz3xz3::spec_are_equal;
use crate::z3xz3xz3::spec_semi_sum;

verus! {

/// The vector of a cell label, or `None` for a character outside the
/// 27-label alphabet.
pub open spec fn spec_vector_of_position(position: char) -> Option<Z3xZ3xZ3Vector> {
    match position {
        'A' => Some((0u8, 0u8, 0u8)),
        'H' => Some((1u8, 0u8, 0u8)),
        'G' => Some((2u8, 0u8, 0u8)),
        'B' => Some((0u8, 1u8, 0u8)),
        'I' => Some((1u8, 1u8, 0u8)),
        'F' => Some((2u8, 1u8, 0u8)),
        'C' => Some((0u8, 2u8, 0u8)),
        'D' => Some((1u8, 2u8, 0u8)),
        'E' => Some((2u8, 2u8, 0u8)),
        'J' => Some((0u8, 0u8, 1u8)),
        'Q' => Some((1u8, 0u8, 1u8)),
        'P' => Some((2u8, 0u8, 1u8)),
        'K' => Some((0u8, 1u8, 1u8)),
        '*' => Some((1u8, 1u8, 1u8)),
        'O' => Some((2u8, 1u8, 1u8)),
        'L' => Some((0u8, 2u8, 1u8)),
        'M' => Some((1u8, 2u8, 1u8)),
        'N' => Some((2u8, 2u8, 1u8)),
        'R' => Some((0u8, 0u8, 2u8)),
        'X' => Some((1u8, 0u8, 2u8)),
        'Y' => Some((2u8, 0u8, 2u8)),
        'S' => Some((0u8, 1u8, 2u8)),
        'Z' => Some((1u8, 1u8, 2u8)),
        'W' => Some((2u8, 1u8, 2u8)),
        'T' => Some((0u8, 2u8, 2u8)),
        'U' => Some((1u8, 2u8, 2u8)),
        'V' => Some((2u8, 2u8, 2u8)),
        _ => None,
    }
}

/// Whether a character is one of the 27 cell labels.
pub open spec fn is_valid_position(position: char) -> bool {
    spec_vector_of_position(position) is Some
}

/// The label of a vector: the inverse of [`spec_vector_of_position`].
pub open spec fn spec_position_of_vector(vector: Z3xZ3xZ3Vector) -> Option<char> {
    match vector {
        (0u8, 0u8, 0u8) => Some('A'),
        (1u8, 0u8, 0u8) => Some('H'),
        (2u8, 0u8, 0u8) => Some('G'),
        (0u8, 1u8, 0u8) => Some('B'),
        (1u8, 1u8, 0u8) => Some('I'),
        (2u8, 1u8, 0u8) => Some('F'),
        (0u8, 2u8, 0u8) => Some('C'),
        (1u8, 2u8, 0u8) => Some('D'),
        (2u8, 2u8, 0u8) => Some('E'),
        (0u8, 0u8, 1u8) => Some('J'),
        (1u8, 0u8, 1u8) => Some('Q'),
        (2u8, 0u8, 1u8) => Some('P'),
        (0u8, 1u8, 1u8) => Some('K'),
        (1u8, 1u8, 1u8) => Some('*'),
        (2u8, 1u8, 1u8) => Some('O'),
        (0u8, 2u8, 1u8) => Some('L'),
        (1u8, 2u8, 1u8) => Some('M'),
        (2u8, 2u8, 1u8) => Some('N'),
        (0u8, 0u8, 2u8) => Some('R'),
        (1u8, 0u8, 2u8) => Some('X'),
        (2u8, 0u8, 2u8) => Some('Y'),
        (0u8, 1u8, 2u8) => Some('S'),
        (1u8, 1u8, 2u8) => Some('Z'),
        (2u8, 1u8, 2u8) => Some('W'),
        (0u8, 2u8, 2u8) => Some('T'),
        (1u8, 2u8, 2u8) => Some('U'),
        (2u8, 2u8, 2u8) => Some('V'),
        _ => None,
    }
}

/// Map a cell label to its vector, or `None` for a character outside the
/// alphabet.
pub fn vector_of_position(position: char) -> (r: Option<Z3xZ3xZ3Vector>)
    ensures
        r == spec_vector_of_position(position),
        r matches Some(v) ==> v.0 < 3 && v.1 < 3 && v.2 < 3,
{
    match position {
        'A' => Some((0, 0, 0)),
        'H' => Some((1, 0, 0)),
        'G' => Some((2, 0, 0)),
        'B' => Some((0, 1, 0)),
        'I' => Some((1, 1, 0)),
        'F' => Some((2, 1, 0)),
        'C' => Some((0, 2, 0)),
        'D' => Some((1, 2, 0)),
        'E' => Some((2, 2, 0)),
        'J' => Some((0, 0, 1)),
        'Q' => Some((1, 0, 1)),
        'P' => Some((2, 0, 1)),
        'K' => Some((0, 1, 1)),
        '*' => Some((1, 1, 1)),
        'O' => Some((2, 1, 1)),
        'L' => Some((0, 2, 1)),
        'M' => Some((1, 2, 1)),
        'N' => Some((2, 2, 1)),
        'R' => Some((0, 0, 2)),
        'X' => Some((1, 0, 2)),
        'Y' => Some((2, 0, 2)),
        'S' => Some((0, 1, 2)),
        'Z' => Some((1, 1, 2)),
        'W' => Some((2, 1, 2)),
        'T' => Some((0, 2, 2)),
        'U' => Some((1, 2, 2)),
        'V' => Some((2, 2, 2)),
        _ => None,
    }
}

/// Map a vector to its cell label, or `None` for a vector outside the cube.
pub fn position_of_vector(vector: Z3xZ3xZ3Vector) -> (r: Option<char>)
    ensures
        r == spec_position_of_vector(vector),
{
    match vector {
        (0, 0, 0) => Some('A'),
        (1, 0, 0) => Some('H'),
        (2, 0, 0) => Some('G'),
        (0, 1, 0) => Some('B'),
        (1, 1, 0) => Some('I'),
        (2, 1, 0) => Some('F'),
        (0, 2, 0) => Some('C'),
        (1, 2, 0) => Some('D'),
        (2, 2, 0) => Some('E'),
        (0, 0, 1) => Some('J'),
        (1, 0, 1) => Some('Q'),
        (2, 0, 1) => Some('P'),
        (0, 1, 1) => Some('K'),
        (1, 1, 1) => Some('*'),
        (2, 1, 1) => Some('O'),
        (0, 2, 1) => Some('L'),
        (1, 2, 1) => Some('M'),
        (2, 2, 1) => Some('N'),
        (0, 0, 2) => Some('R'),
        (1, 0, 2) => Some('X'),
        (2, 0, 2) => Some('Y'),
        (0, 1, 2) => Some('S'),
        (1, 1, 2) => Some('Z'),
        (2, 1, 2) => Some('W'),
        (0, 2, 2) => Some('T'),
        (1, 2, 2) => Some('U'),
        (2, 2, 2) => Some('V'),
        _ => None,
    }
}

/// Whether three valid, distinct labels form a winning combination: the
/// ordered geometric case analysis over their vectors.
pub open spec fn spec_is_winning_combination(
    position_a: char,
    position_b: char,
    position_c: char,
) -> bool
    recommends
        is_valid_position(position_a),
        is_valid_position(position_b),
        is_valid_position(position_c),
{
    let a = spec_vector_of_position(position_a)->Some_0;
    let b = spec_vector_of_position(position_b)->Some_0;
    let c = spec_vector_of_position(position_c)->Some_0;
    if !spec_are_equal(spec_semi_sum(a, b), c) {
        // Not collinear.
        false
    } else if position_a == '*' || position_b == '*' || position_c == '*' {
        // A line through the cube's center.
        true
    } else if (a.0 == b.0 && a.1 == b.1) || (a.0 == b.0 && a.2 == b.2) || (a.1 == b.1 && a.2
        == b.2) {
        // A line parallel to an axis.
        true
    } else if a.0 == b.0 && (spec_are_equal((a.0, 1u8, 1u8), a) || spec_are_equal(
        (a.0, 1u8, 1u8),
        b,
    ) || spec_are_equal((a.0, 1u8, 1u8), c)) {
        // A diagonal of the face x = a.0, through that face's center.
        true
    } else if a.1 == b.1 && (spec_are_equal((1u8, a.1, 1u8), a) || spec_are_equal(
        (1u8, a.1, 1u8),
        b,
    ) || spec_are_equal((1u8, a.1, 1u8), c)) {
        // A diagonal of the face y = a.1, through that face's center.
        true
    } else if a.2 == b.2 && (spec_are_equal((1u8, 1u8, a.2), a) || spec_are_equal(
        (1u8, 1u8, a.2),
        b,
    ) || spec_are_equal((1u8, 1u8, a.2), c)) {
        // A diagonal of the face z = a.2, through that face's center.
        true
    } else {
        // Collinear only by wrapping around the cube.
        false
    }
}

/// Decide whether three labels form a winning combination.
///
/// Fails with [`Error::InvalidPosition`] if any label is outside the
/// alphabet, and otherwise with [`Error::PositionsMustBeDistinct`] if two
/// of the labels coincide.
pub fn get_is_winning_combination(
    position_a: char,
    position_b: char,
    position_c: char,
) -> (r: Result<bool, Error>)
    ensures
        (!is_valid_position(position_a) || !is_valid_position(position_b)
            || !is_valid_position(position_c)) ==> r == Err::<bool, Error>(Error::InvalidPosition),
        (is_valid_position(position_a) && is_valid_position(position_b) && is_valid_position(
            position_c,
        ) && (position_a == position_b || position_a == position_c || position_b == position_c))
            ==> r == Err::<bool, Error>(Error::PositionsMustBeDistinct),
        (is_valid_position(position_a) && is_valid_position(position_b) && is_valid_position(
            position_c,
        ) && position_a != position_b && position_a != position_c && position_b != position_c)
            ==> r == Ok::<bool, Error>(
            spec_is_winning_combination(position_a, position_b, position_c),
        ),
{
    let Some(vector_a) = vector_of_position(position_a) else {
        return Err(Error::InvalidPosition);
    };
    let Some(vector_b) = vector_of_position(position_b) else {
        return Err(Error::InvalidPosition);
    };
    let Some(vector_c) = vector_of_position(position_c) else {
        return Err(Error::InvalidPosition);
    };

    if (position_a == position_b) || (position_a == position_c) || (position_b == position_c) {
        return Err(Error::PositionsMustBeDistinct);
    }

    // A necessary condition to be a winning combination is that
    // `semi_sum(A, B) = C`; the semi-sum is cyclic, so A, B, C may be
    // taken in any order.
    let vector_semi_sum = semi_sum(vector_a, vector_b);
    if !are_equal(vector_semi_sum, vector_c) {
        return Ok(false);
    }

    // From now on, the vectors lie on one line.

    // If any vector is the center, the line passes through the cube's
    // center.
    if (position_a == '*') || (position_b == '*') || (position_c == '*') {
        return Ok(true);
    }

    // If two coordinates of A and B match, the line is parallel to the
    // remaining axis.
    if (vector_a.0 == vector_b.0) && (vector_a.1 == vector_b.1) {
        return Ok(true);
    }
    if (vector_a.0 == vector_b.0) && (vector_a.2 == vector_b.2) {
        return Ok(true);
    }
    if (vector_a.1 == vector_b.1) && (vector_a.2 == vector_b.2) {
        return Ok(true);
    }

    // If exactly one coordinate of A and B matches, let F be the center of
    // that face: the matching value on the matching axis and 1 elsewhere.
    // If the triple contains F, it is a diagonal of that face.
    if vector_a.0 == vector_b.0 {
        let vector_f: Z3xZ3xZ3Vector = (vector_a.0, 1, 1);
        if are_equal(vector_f, vector_a) || are_equal(vector_f, vector_b) || are_equal(
            vector_f,
            vector_c,
        ) {
            return Ok(true);
        }
    }
    if vector_a.1 == vector_b.1 {
        let vector_f: Z3xZ3xZ3Vector = (1, vector_a.1, 1);
        if are_equal(vector_f, vector_a) || are_equal(vector_f, vector_b) || are_equal(
            vector_f,
            vector_c,
        ) {
            return Ok(true);
        }
    }
    if vector_a.2 == vector_b.2 {
        let vector_f: Z3xZ3xZ3Vector = (1, 1, vector_a.2);
        if are_equal(vector_f, vector_a) || are_equal(vector_f, vector_b) || are_equal(
            vector_f,
            vector_c,
        ) {
            return Ok(true);
        }
    }

    // All other cases are not a win.
    Ok(false)
}

/// Mapping a label to its vector and back yields the same label.
pub proof fn lemma_position_of_vector_of_position(position: char)
    requires
        is_valid_position(position),
    ensures
        spec_position_of_vector(spec_vector_of_position(position)->Some_0) == Some(position),
{
}

/// Mapping a cube vector to its label and back yields the same vector.
pub proof fn lemma_vector_of_position_of_vector(vector: Z3xZ3xZ3Vector)
    requires
        spec_position_of_vector(vector) is Some,
    ensures
        spec_vector_of_position(spec_position_of_vector(vector)->Some_0) == Some(vector),
{
}

} // verus!
