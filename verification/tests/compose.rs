use integer::compose::compose;
use integer::shift::{aux_shift_of, count_doublings, shift_left};
use num_bigint::BigUint;

fn big(x: u64) -> BigUint {
    BigUint::from(x)
}

fn two_pow(e: usize) -> BigUint {
    BigUint::from(1u32) << e
}

#[test]
fn compose_of_nothing_is_zero() {
    assert_eq!(compose(vec![], 68), big(0));
}

#[test]
fn compose_of_one_limb_is_the_limb() {
    assert_eq!(compose(vec![big(5)], 68), big(5));
    assert_eq!(compose(vec![big(5)], 0), big(5));
}

#[test]
fn compose_weighs_each_limb_by_its_position() {
    // 1 + 2 * 2^8 + 3 * 2^16
    assert_eq!(compose(vec![big(1), big(2), big(3)], 8), big(1 + 2 * 256 + 3 * 65536));
    // least significant limb first
    assert_eq!(compose(vec![big(3), big(2), big(1)], 8), big(3 + 2 * 256 + 65536));
}

#[test]
fn compose_with_limbs_of_68_bits() {
    let limbs = vec![big(1), big(2), big(3), big(4)];
    let expected = big(1) + big(2) * two_pow(68) + big(3) * two_pow(136) + big(4) * two_pow(204);
    assert_eq!(compose(limbs, 68), expected);
}

#[test]
fn compose_lets_wide_limbs_overlap() {
    // 300 does not fit in 8 bits; it is added as it is.
    assert_eq!(compose(vec![big(300), big(1)], 8), big(300 + 256));
    assert_eq!(compose(vec![two_pow(70), two_pow(70)], 68), two_pow(70) + two_pow(138));
}

#[test]
fn compose_with_width_zero_is_the_sum() {
    assert_eq!(compose(vec![big(1), big(2), big(3)], 0), big(6));
}

#[test]
fn compose_of_zero_limbs_is_zero() {
    assert_eq!(compose(vec![big(0), big(0), big(0), big(0)], 68), big(0));
}

#[test]
fn no_doubling_where_the_constant_covers_the_bound() {
    assert_eq!(count_doublings(&big(5), &big(8)), 0);
    assert_eq!(count_doublings(&big(8), &big(8)), 0);
    assert_eq!(count_doublings(&big(0), &big(1)), 0);
    assert_eq!(count_doublings(&two_pow(67), &two_pow(67)), 0);
}

#[test]
fn doublings_stop_as_soon_as_the_bound_is_reached() {
    assert_eq!(count_doublings(&big(9), &big(8)), 1);
    assert_eq!(count_doublings(&big(16), &big(8)), 1);
    assert_eq!(count_doublings(&big(17), &big(8)), 2);
    // 3 * 2^5 = 96 < 100 <= 192 = 3 * 2^6
    assert_eq!(count_doublings(&big(100), &big(3)), 6);
    assert_eq!(count_doublings(&two_pow(69), &two_pow(67)), 2);
    assert_eq!(count_doublings(&(two_pow(69) + big(1)), &two_pow(67)), 3);
}

#[test]
fn doublings_of_one_count_the_bits_of_the_bound() {
    assert_eq!(count_doublings(&big(1024), &big(1)), 10);
    // 1025 has 11 bits, and 11 doublings are needed
    assert_eq!(count_doublings(&big(1025), &big(1)), 11);
    assert_eq!(count_doublings(&two_pow(300), &big(1)), 300);
    assert_eq!(count_doublings(&(two_pow(300) + big(1)), &big(1)), 301);
}

#[test]
fn zero_constant_is_never_doubled() {
    assert_eq!(count_doublings(&big(5), &big(0)), 0);
    assert_eq!(count_doublings(&big(0), &big(0)), 0);
}

#[test]
fn shift_left_multiplies_by_a_power_of_two() {
    assert_eq!(shift_left(&big(5), 0), big(5));
    assert_eq!(shift_left(&big(5), 1), big(10));
    assert_eq!(shift_left(&big(3), 70), big(3) * two_pow(70));
    assert_eq!(shift_left(&two_pow(67), 2), two_pow(69));
    assert_eq!(shift_left(&big(0), 1u64 << 40), big(0));
}

#[test]
fn aux_shift_is_the_largest_requirement() {
    let aux = vec![two_pow(67), two_pow(67), two_pow(67), two_pow(67)];
    let bounds = vec![two_pow(67), two_pow(69), two_pow(67), two_pow(67)];
    assert_eq!(aux_shift_of(&bounds, &aux), 2);

    let bounds = vec![big(1), big(2), big(3)];
    let aux = vec![big(4), big(4), big(4)];
    assert_eq!(aux_shift_of(&bounds, &aux), 0);

    // requirements 1, 0, 3, 2
    let bounds = vec![big(10), big(1), big(33), big(16)];
    let aux = vec![big(5), big(5), big(5), big(5)];
    assert_eq!(aux_shift_of(&bounds, &aux), 3);
}

#[test]
fn aux_shift_of_no_limbs_is_zero() {
    assert_eq!(aux_shift_of(&vec![], &vec![]), 0);
}

#[test]
fn aux_shift_looks_at_the_positions_that_both_tuples_have() {
    let bounds = vec![big(2), big(1000)];
    let aux = vec![big(1)];
    assert_eq!(aux_shift_of(&bounds, &aux), 1);
    let bounds = vec![big(2)];
    let aux = vec![big(1), big(1)];
    assert_eq!(aux_shift_of(&bounds, &aux), 1);
}
