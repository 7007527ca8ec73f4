use integer::{Integer, Limb, Rns, UnassignedInteger, UnassignedValue};
use num_bigint::BigUint;
use std::rc::Rc;

fn big(x: u64) -> BigUint {
    BigUint::from(x)
}

fn two_pow(e: usize) -> BigUint {
    BigUint::from(1u32) << e
}

fn small_rns() -> Rc<Rns<3, 8>> {
    Rc::new(Rns::new(big(1009), vec![big(4), big(5), big(6)]).unwrap())
}

fn limbs_of(values: &[u64]) -> Vec<Limb> {
    values.iter().map(|v| Limb::new(big(*v))).collect()
}

#[test]
fn rns_keeps_its_constants() {
    let rns = Rns::<3, 8>::new(big(1009), vec![big(4), big(5), big(6)]).unwrap();
    assert_eq!(rns.native_modulus(), big(1009));
    assert_eq!(rns.base_aux(), vec![big(4), big(5), big(6)]);
}

#[test]
fn rns_refuses_a_zero_modulus() {
    assert!(Rns::<3, 8>::new(big(0), vec![big(4), big(5), big(6)]).is_none());
}

#[test]
fn rns_refuses_a_wrong_number_of_constants() {
    assert!(Rns::<3, 8>::new(big(1009), vec![big(4), big(5)]).is_none());
    assert!(Rns::<3, 8>::new(big(1009), vec![big(4), big(5), big(6), big(7)]).is_none());
    assert!(Rns::<3, 8>::new(big(1009), vec![]).is_none());
}

#[test]
fn rns_refuses_a_zero_constant() {
    assert!(Rns::<3, 8>::new(big(1009), vec![big(0), big(5), big(6)]).is_none());
    assert!(Rns::<3, 8>::new(big(1009), vec![big(4), big(0), big(6)]).is_none());
    assert!(Rns::<3, 8>::new(big(1009), vec![big(4), big(5), big(0)]).is_none());
}

#[test]
fn rns_refuses_an_instantiation_without_limbs() {
    assert!(Rns::<0, 8>::new(big(7), vec![]).is_none());
    assert!(Rns::<0, 8>::new(big(7), vec![big(1)]).is_none());
}

#[test]
fn rns_with_a_single_limb() {
    let rns = Rns::<1, 8>::new(big(1), vec![big(1)]).unwrap();
    assert_eq!(rns.base_aux(), vec![big(1)]);
    assert_eq!(rns.to_native(&big(12345)), big(0));
}

#[test]
fn to_native_is_the_remainder_by_the_modulus() {
    let rns = small_rns();
    assert_eq!(rns.to_native(&big(0)), big(0));
    assert_eq!(rns.to_native(&big(1008)), big(1008));
    assert_eq!(rns.to_native(&big(1009)), big(0));
    assert_eq!(rns.to_native(&big(2020)), big(2));
    assert_eq!(rns.to_native(&two_pow(100)), two_pow(100) % big(1009));
}

#[test]
fn integer_keeps_its_limbs() {
    let integer = Integer::new(limbs_of(&[1, 2, 3]), small_rns()).unwrap();
    assert_eq!(integer.limbs(), vec![big(1), big(2), big(3)]);
    assert_eq!(integer.limb(0).value(), big(1));
    assert_eq!(integer.limb(1).value(), big(2));
    assert_eq!(integer.limb(2).value(), big(3));
    assert_eq!(integer.rns().native_modulus(), big(1009));
}

#[test]
fn integer_refuses_a_wrong_number_of_limbs() {
    assert!(Integer::new(limbs_of(&[1, 2]), small_rns()).is_none());
    assert!(Integer::new(limbs_of(&[1, 2, 3, 4]), small_rns()).is_none());
    assert!(Integer::new(limbs_of(&[]), small_rns()).is_none());
    assert!(Integer::new(limbs_of(&[1, 2, 3]), small_rns()).is_some());
}

#[test]
fn integer_value_is_the_composition_of_its_limbs() {
    let integer = Integer::new(limbs_of(&[1, 2, 3]), small_rns()).unwrap();
    assert_eq!(integer.value(), big(1 + 2 * 256 + 3 * 65536));
    let zero = Integer::new(limbs_of(&[0, 0, 0]), small_rns()).unwrap();
    assert_eq!(zero.value(), big(0));
}

#[test]
fn integer_native_is_the_value_in_the_native_field() {
    let integer = Integer::new(limbs_of(&[1, 2, 3]), small_rns()).unwrap();
    // 197121 = 195 * 1009 + 366
    assert_eq!(integer.native(), big(366));
    let small = Integer::new(limbs_of(&[200, 0, 0]), small_rns()).unwrap();
    assert_eq!(small.native(), big(200));
}

#[test]
fn integer_clone_is_the_same_integer() {
    let integer = Integer::new(limbs_of(&[9, 8, 7]), small_rns()).unwrap();
    let copy = integer.clone();
    assert_eq!(copy.limbs(), integer.limbs());
    assert_eq!(copy.value(), integer.value());
    assert_eq!(copy.rns().base_aux(), integer.rns().base_aux());
}

#[test]
fn integer_with_limbs_of_68_bits() {
    let modulus = two_pow(254) + big(1);
    let aux = vec![two_pow(67), two_pow(67), two_pow(67), two_pow(67)];
    let rns = Rc::new(Rns::<4, 68>::new(modulus.clone(), aux).unwrap());
    let limbs = vec![
        Limb::new(two_pow(68) - big(1)),
        Limb::new(big(0)),
        Limb::new(big(1)),
        Limb::new(two_pow(60)),
    ];
    let integer = Integer::new(limbs, rns).unwrap();
    let value = (two_pow(68) - big(1)) + two_pow(136) + two_pow(60) * two_pow(204);
    assert_eq!(integer.value(), value);
    assert_eq!(integer.native(), value % modulus);
}

#[test]
fn absent_integer_has_no_value_limb_or_native() {
    let unassigned = UnassignedInteger::<3, 8>::new(None);
    assert_eq!(unassigned.value(), None);
    assert_eq!(unassigned.limb(0).value(), None);
    assert_eq!(unassigned.limb(2).value(), None);
    assert_eq!(unassigned.native().value(), None);
}

#[test]
fn present_integer_hands_out_value_limbs_and_native() {
    let integer = Integer::new(limbs_of(&[1, 2, 3]), small_rns()).unwrap();
    let unassigned = UnassignedInteger::new(Some(integer));
    assert_eq!(unassigned.value(), Some(big(197121)));
    assert_eq!(unassigned.limb(0).value(), Some(big(1)));
    assert_eq!(unassigned.limb(1).value(), Some(big(2)));
    assert_eq!(unassigned.limb(2).value(), Some(big(3)));
    assert_eq!(unassigned.native().value(), Some(big(366)));
}

#[test]
fn unassigned_integer_from_an_option() {
    let integer = Integer::new(limbs_of(&[4, 0, 0]), small_rns()).unwrap();
    let unassigned = UnassignedInteger::from(Some(integer));
    assert_eq!(unassigned.value(), Some(big(4)));
    let copy = unassigned.clone();
    assert_eq!(copy.value(), Some(big(4)));
    let empty: UnassignedInteger<3, 8> = None.into();
    assert_eq!(empty.value(), None);
    assert_eq!(empty.clone().value(), None);
}

#[test]
fn unassigned_value_keeps_its_witness() {
    assert_eq!(UnassignedValue::new(Some(big(5))).value(), Some(big(5)));
    assert_eq!(UnassignedValue::new(None).value(), None);
    assert_eq!(UnassignedValue::new(Some(big(5))).clone().value(), Some(big(5)));
}
