use symdiff::converge;

#[test]
fn halving_ends_at_zero() {
    assert_eq!(converge(|a: &u64| *a / 2, 100), 0);
    assert_eq!(converge(|a: &u64| *a / 2, 0), 0);
}

#[test]
fn counting_up_to_a_bound_ends_at_the_bound() {
    let step = |a: &i32| if *a < 10 { *a + 1 } else { *a };
    assert_eq!(converge(step, 3), 10);
    assert_eq!(converge(step, 10), 10);
    assert_eq!(converge(step, 25), 25);
}

#[test]
fn a_value_that_the_transform_keeps_is_returned_at_once() {
    assert_eq!(converge(|a: &u8| *a, 7), 7);
}

#[test]
fn the_first_value_that_stays_is_returned() {
    let step = |a: &u32| match *a {
        0 => 0,
        5 => 5,
        n => n - 1,
    };
    assert_eq!(converge(step, 9), 5);
    assert_eq!(converge(step, 4), 0);
}

#[test]
fn values_with_a_none_converge_too() {
    let step = |a: &Option<u32>| match *a {
        Some(0) => None,
        Some(n) => Some(n - 1),
        None => None,
    };
    assert_eq!(converge(step, Some(3)), None);
}
