use calculator::adder;
use calculator::calculate::{eval_expression, Op};
use calculator::subtractor;

#[test]
fn eval_add_small_values() {
    assert_eq!(eval_expression(Op::Add, 2, 3), 5);
}

#[test]
fn eval_subtract_small_values() {
    assert_eq!(eval_expression(Op::Subtract, 5, 3), 2);
}

#[test]
fn eval_subtract_wraps_on_underflow() {
    assert_eq!(eval_expression(Op::Subtract, 0, 1), 4294967295);
}

#[test]
fn eval_add_wraps_on_overflow() {
    assert_eq!(eval_expression(Op::Add, 4294967295, 1), 0);
}

#[test]
fn add_zero_operands() {
    assert_eq!(adder::add(0, 0), 0);
}

#[test]
fn subtract_zero_operands() {
    assert_eq!(subtractor::subtract(0, 0), 0);
}

#[test]
fn subtract_wraps_one_below_zero() {
    assert_eq!(subtractor::subtract(1, 2), 4294967295);
}

#[test]
fn add_wraps_far_past_modulus() {
    assert_eq!(adder::add(4294967295, 4294967295), 4294967294);
}

#[test]
fn add_at_modulus_boundary() {
    assert_eq!(adder::add(4294967295, 0), 4294967295);
    assert_eq!(adder::add(2147483648, 2147483648), 0);
}

#[test]
fn subtract_whole_range() {
    assert_eq!(subtractor::subtract(0, 4294967295), 1);
    assert_eq!(subtractor::subtract(4294967295, 4294967295), 0);
}

#[test]
fn eval_matches_providers_on_samples() {
    let samples: [(u32, u32); 5] = [(0, 0), (1, 2), (7, 7), (4294967295, 1), (123456789, 987654321)];
    for (x, y) in samples {
        assert_eq!(eval_expression(Op::Add, x, y), adder::add(x, y));
        assert_eq!(eval_expression(Op::Subtract, x, y), subtractor::subtract(x, y));
    }
}
