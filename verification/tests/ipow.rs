use symdiff::ipow;
use symdiff::try_ipow;

#[test]
fn ipow_multiplies_repeatedly() {
    assert_eq!(ipow(2, 10), 1024);
    assert_eq!(ipow(3, 4), 81);
    assert_eq!(ipow(-2, 3), -8);
    assert_eq!(ipow(-2, 4), 16);
    assert_eq!(ipow(5, 1), 5);
}

#[test]
fn ipow_to_the_zero_is_one() {
    assert_eq!(ipow(7, 0), 1);
    assert_eq!(ipow(0, 0), 1);
    assert_eq!(ipow(-4, 0), 1);
}

#[test]
fn ipow_of_zero_and_one() {
    assert_eq!(ipow(0, 5), 0);
    assert_eq!(ipow(1, 1000), 1);
    assert_eq!(ipow(-1, 1001), -1);
}

#[test]
fn ipow_reaches_the_ends_of_the_range() {
    assert_eq!(ipow(2, 30), 1073741824);
    assert_eq!(ipow(-2, 31), i32::MIN);
    assert_eq!(try_ipow(2, 31), None);
    assert_eq!(try_ipow(-2, 32), None);
    assert_eq!(try_ipow(46341, 2), None);
    assert_eq!(try_ipow(46340, 2), Some(2147395600));
}

#[test]
fn try_ipow_refuses_a_negative_exponent() {
    assert_eq!(try_ipow(2, -1), None);
    assert_eq!(try_ipow(1, -1), None);
    assert_eq!(try_ipow(0, i32::MIN), None);
}

#[test]
fn try_ipow_agrees_with_ipow() {
    assert_eq!(try_ipow(2, 10), Some(1024));
    assert_eq!(try_ipow(9, 0), Some(1));
    assert_eq!(try_ipow(-3, 3), Some(-27));
}
