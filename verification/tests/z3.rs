use tris3d::z3::index_of_z3xz3xz3_coordinates;
use tris3d::z3::z3_semi_sum;
use tris3d::z3::z3xz3xz3_coordinates_of_index;
use tris3d::z3::z3xz3xz3_semi_sum;

#[test]
fn z3_semi_sum_of_equal_values_is_identity() {
    // Z3 semi-sum of two equal values is the identity.
    assert_eq!(z3_semi_sum(0, 0), 0);
    assert_eq!(z3_semi_sum(1, 1), 1);
    assert_eq!(z3_semi_sum(2, 2), 2);
}

#[test]
fn z3_semi_sum_of_distinct_values_is_cyclic() {
    // Z3 semi-sum of distinct values is cyclic.
    //
    // ```
    // 0, 1 -> 2
    // 1, 2 -> 0
    // 2, 0 -> 1
    // ```
    //
    // ```
    // 2, 1 -> 0
    // 1, 0 -> 2
    // 0, 2 -> 1
    // ```
    assert_eq!(z3_semi_sum(0, 1), 2);
    assert_eq!(z3_semi_sum(1, 2), 0);
    assert_eq!(z3_semi_sum(2, 0), 1);
    assert_eq!(z3_semi_sum(0, 2), 1);
    assert_eq!(z3_semi_sum(1, 0), 2);
    assert_eq!(z3_semi_sum(2, 1), 0);
}

#[test]
fn z3_semi_sum_is_commutative() {
    for a in 0..3 {
        for b in 0..3 {
            assert_eq!(z3_semi_sum(a, b), z3_semi_sum(b, a));
        }
    }
}

#[test]
fn z3xz3xz3_coordinates_of_index_works() {
    assert_eq!(z3xz3xz3_coordinates_of_index(0), (0, 0, 0));
    assert_eq!(z3xz3xz3_coordinates_of_index(1), (0, 0, 1));
    assert_eq!(z3xz3xz3_coordinates_of_index(2), (0, 0, 2));
    assert_eq!(z3xz3xz3_coordinates_of_index(3), (0, 1, 0));
    assert_eq!(z3xz3xz3_coordinates_of_index(4), (0, 1, 1));
    assert_eq!(z3xz3xz3_coordinates_of_index(5), (0, 1, 2));
    assert_eq!(z3xz3xz3_coordinates_of_index(6), (0, 2, 0));
    assert_eq!(z3xz3xz3_coordinates_of_index(7), (0, 2, 1));
    assert_eq!(z3xz3xz3_coordinates_of_index(8), (0, 2, 2));
    assert_eq!(z3xz3xz3_coordinates_of_index(9), (1, 0, 0));
    assert_eq!(z3xz3xz3_coordinates_of_index(10), (1, 0, 1));
    assert_eq!(z3xz3xz3_coordinates_of_index(11), (1, 0, 2));
    assert_eq!(z3xz3xz3_coordinates_of_index(12), (1, 1, 0));
}

#[test]
fn index_of_z3xz3xz3_coordinates_works() {
    assert_eq!(index_of_z3xz3xz3_coordinates((0, 0, 0)), 0);
    assert_eq!(index_of_z3xz3xz3_coordinates((0, 0, 1)), 1);
    assert_eq!(index_of_z3xz3xz3_coordinates((0, 0, 2)), 2);
    assert_eq!(index_of_z3xz3xz3_coordinates((0, 1, 0)), 3);
    assert_eq!(index_of_z3xz3xz3_coordinates((0, 1, 1)), 4);
    assert_eq!(index_of_z3xz3xz3_coordinates((0, 1, 2)), 5);
    assert_eq!(index_of_z3xz3xz3_coordinates((0, 2, 0)), 6);
    assert_eq!(index_of_z3xz3xz3_coordinates((0, 2, 1)), 7);
    assert_eq!(index_of_z3xz3xz3_coordinates((0, 2, 2)), 8);
    assert_eq!(index_of_z3xz3xz3_coordinates((1, 0, 0)), 9);
    assert_eq!(index_of_z3xz3xz3_coordinates((1, 0, 1)), 10);
    assert_eq!(index_of_z3xz3xz3_coordinates((1, 0, 2)), 11);
    assert_eq!(index_of_z3xz3xz3_coordinates((1, 1, 0)), 12);
    assert_eq!(index_of_z3xz3xz3_coordinates((1, 1, 1)), 13);
    assert_eq!(index_of_z3xz3xz3_coordinates((1, 1, 2)), 14);
    assert_eq!(index_of_z3xz3xz3_coordinates((1, 2, 0)), 15);
    assert_eq!(index_of_z3xz3xz3_coordinates((1, 2, 1)), 16);
    assert_eq!(index_of_z3xz3xz3_coordinates((1, 2, 2)), 17);
    assert_eq!(index_of_z3xz3xz3_coordinates((2, 0, 0)), 18);
    assert_eq!(index_of_z3xz3xz3_coordinates((2, 0, 1)), 19);
    assert_eq!(index_of_z3xz3xz3_coordinates((2, 0, 2)), 20);
    assert_eq!(index_of_z3xz3xz3_coordinates((2, 1, 0)), 21);
    assert_eq!(index_of_z3xz3xz3_coordinates((2, 1, 1)), 22);
    assert_eq!(index_of_z3xz3xz3_coordinates((2, 1, 2)), 23);
    assert_eq!(index_of_z3xz3xz3_coordinates((2, 2, 0)), 24);
    assert_eq!(index_of_z3xz3xz3_coordinates((2, 2, 1)), 25);
    assert_eq!(index_of_z3xz3xz3_coordinates((2, 2, 2)), 26);
}

#[test]
fn index_of_z3xz3xz3_coordinates_is_inverse_of_z3xz3xz3_coordinates_of_index() {
    for i in 0..27 {
        assert_eq!(
            index_of_z3xz3xz3_coordinates(z3xz3xz3_coordinates_of_index(i)),
            i
        )
    }
}

#[test]
fn z3xz3xz3_semi_sum_of_equal_values_is_the_identity() {
    for i in 0..27 {
        let vector = z3xz3xz3_coordinates_of_index(i);
        assert_eq!(z3xz3xz3_semi_sum(vector, vector), vector);
    }
}

#[test]
fn z3xz3xz3_semi_sum_of_distinct_values_is_commutative() {
    for i in 0..26 {
        for j in (i + 1)..27 {
            let a = z3xz3xz3_coordinates_of_index(i);
            let b = z3xz3xz3_coordinates_of_index(j);
            assert_eq!(z3xz3xz3_semi_sum(a, b), z3xz3xz3_semi_sum(b, a));
        }
    }
}

#[test]
fn z3xz3xz3_semi_sum_of_distinct_values_is_cyclic() {
    for i in 0..26 {
        for j in (i + 1)..27 {
            let a = z3xz3xz3_coordinates_of_index(i);
            let b = z3xz3xz3_coordinates_of_index(j);
            let c = z3xz3xz3_semi_sum(a, b);
            assert_eq!(z3xz3xz3_semi_sum(b, c), a);
            assert_eq!(z3xz3xz3_semi_sum(c, a), b);
        }
    }
}

#[test]
fn z3xz3xz3_semi_sum_return_element_that_is_on_same_line_in_r3() {
    // Check the five lines passing from origin.
    assert_eq!(z3xz3xz3_semi_sum((0, 0, 0), (1, 0, 0)), (2, 0, 0));
    assert_eq!(z3xz3xz3_semi_sum((0, 0, 0), (0, 1, 0)), (0, 2, 0));
    assert_eq!(z3xz3xz3_semi_sum((0, 0, 0), (0, 0, 1)), (0, 0, 2));
    assert_eq!(z3xz3xz3_semi_sum((0, 0, 0), (1, 1, 0)), (2, 2, 0));
    assert_eq!(z3xz3xz3_semi_sum((0, 0, 0), (1, 1, 1)), (2, 2, 2));
    // Check lines passing from the center and parallel to an axis.
    assert_eq!(z3xz3xz3_semi_sum((0, 1, 1), (1, 1, 1)), (2, 1, 1));
    assert_eq!(z3xz3xz3_semi_sum((1, 0, 1), (1, 1, 1)), (1, 2, 1));
    assert_eq!(z3xz3xz3_semi_sum((1, 1, 0), (1, 1, 1)), (1, 1, 2));
}
