use testapp::sum;

#[test]
fn offset_sum_of_small_values() {
    assert_eq!(sum::test(1, 2), 13);
    assert_eq!(sum::test(0, 0), 10);
    assert_eq!(sum::test(100, 100), 210);
}

#[test]
fn offset_sum_at_the_ends_of_the_result_range() {
    assert_eq!(sum::test(-10, 0), 0);
    assert_eq!(sum::test(0, -10), 0);
    assert_eq!(sum::test(245, 0), 255);
    assert_eq!(sum::test(200, 45), 255);
}

#[test]
fn offset_sum_with_negative_arguments() {
    assert_eq!(sum::test(-5, 3), 8);
    assert_eq!(sum::test(-1000, 1000), 10);
    assert_eq!(sum::test(-3, -7), 0);
}

#[test]
fn offset_sum_where_a_partial_sum_leaves_i32() {
    assert_eq!(sum::test(i32::MAX, -i32::MAX), 10);
    assert_eq!(sum::test(i32::MAX, i32::MIN), 9);
    assert_eq!(sum::test(i32::MIN, i32::MAX), 9);
    assert_eq!(sum::test(i32::MAX - 5, -(i32::MAX - 5) + 200), 210);
}

#[test]
fn offset_sum_does_not_depend_on_argument_order() {
    let pairs: [(i32, i32); 4] = [(1, 2), (-40, 90), (0, 245), (i32::MAX, -i32::MAX)];
    for (a, b) in pairs {
        assert_eq!(sum::test(a, b), sum::test(b, a));
    }
}

#[test]
fn offset_is_ten() {
    assert_eq!(sum::OFFSET, 10);
}
