//! Field elements: their encoding and their arithmetic, held against the
//! field arithmetic of the proof framework.

use fawkes_crypto::native::num::Num;
use mixer::errors::ShapeError;
use mixer::field::{FieldElement, MODULUS_LIMBS};
use ff_ce::PrimeField;
use pairing_ce::bn256::{Fr, FrRepr};
use rand::{thread_rng, Rng};

fn num(e: &FieldElement) -> Num<Fr> {
    Num(Fr::from_repr(FrRepr(e.to_limbs())).unwrap())
}

fn element(n: &Num<Fr>) -> FieldElement {
    FieldElement::from_limbs(n.0.into_repr().0).unwrap()
}

fn random_element() -> FieldElement {
    let n: Num<Fr> = thread_rng().gen();
    element(&n)
}

#[test]
fn modulus_limbs_are_those_of_the_scalar_field() {
    assert_eq!(MODULUS_LIMBS, Fr::char().0);
}

#[test]
fn from_limbs_accepts_every_integer_below_the_modulus() {
    assert_eq!(FieldElement::from_limbs([0, 0, 0, 0]), Ok(FieldElement::zero()));
    assert_eq!(FieldElement::from_limbs([1, 0, 0, 0]), Ok(FieldElement::one()));
    let largest =
        [MODULUS_LIMBS[0] - 1, MODULUS_LIMBS[1], MODULUS_LIMBS[2], MODULUS_LIMBS[3]];
    assert_eq!(FieldElement::from_limbs(largest), Ok(FieldElement::minus_one()));
    let low_limbs_full = [u64::MAX, u64::MAX, u64::MAX, MODULUS_LIMBS[3] - 1];
    assert!(FieldElement::from_limbs(low_limbs_full).is_ok());
}

#[test]
fn from_limbs_rejects_the_modulus_and_what_lies_above() {
    assert_eq!(FieldElement::from_limbs(MODULUS_LIMBS), Err(ShapeError::OutOfField));
    let above =
        [MODULUS_LIMBS[0] + 1, MODULUS_LIMBS[1], MODULUS_LIMBS[2], MODULUS_LIMBS[3]];
    assert_eq!(FieldElement::from_limbs(above), Err(ShapeError::OutOfField));
    let middle = [0, MODULUS_LIMBS[1] + 1, MODULUS_LIMBS[2], MODULUS_LIMBS[3]];
    assert_eq!(FieldElement::from_limbs(middle), Err(ShapeError::OutOfField));
    let third = [0, 0, MODULUS_LIMBS[2] + 1, MODULUS_LIMBS[3]];
    assert_eq!(FieldElement::from_limbs(third), Err(ShapeError::OutOfField));
    let top = [0, 0, 0, MODULUS_LIMBS[3] + 1];
    assert_eq!(FieldElement::from_limbs(top), Err(ShapeError::OutOfField));
    assert_eq!(FieldElement::from_limbs([u64::MAX; 4]), Err(ShapeError::OutOfField));
}

#[test]
fn limbs_come_back_as_they_went_in() {
    let limbs = [0x0123_4567_89ab_cdef, 0xfedc_ba98_7654_3210, 0x0f0f_0f0f_0f0f_0f0f, 0x1000];
    assert_eq!(FieldElement::from_limbs(limbs).unwrap().to_limbs(), limbs);
    assert_eq!(FieldElement::from_u64(42).to_limbs(), [42, 0, 0, 0]);
    assert_eq!(FieldElement::zero().to_limbs(), [0, 0, 0, 0]);
    assert_eq!(FieldElement::one().to_limbs(), [1, 0, 0, 0]);
}

#[test]
fn small_sums_and_differences_are_exact() {
    let five = FieldElement::from_u64(5);
    let six = FieldElement::from_u64(6);
    assert_eq!(five.add(&six), FieldElement::from_u64(11));
    assert_eq!(six.sub(&five), FieldElement::one());
    assert_eq!(five.sub(&five), FieldElement::zero());
    let carry = FieldElement::from_u64(u64::MAX).add(&FieldElement::one());
    assert_eq!(carry.to_limbs(), [0, 1, 0, 0]);
    let borrow = FieldElement::from_limbs([0, 1, 0, 0]).unwrap().sub(&FieldElement::one());
    assert_eq!(borrow.to_limbs(), [u64::MAX, 0, 0, 0]);
}

#[test]
fn sums_and_differences_wrap_at_the_modulus() {
    let minus_one = FieldElement::minus_one();
    assert_eq!(minus_one.add(&FieldElement::one()), FieldElement::zero());
    assert_eq!(FieldElement::zero().sub(&FieldElement::one()), minus_one);
    let minus_two = FieldElement::from_u64(7).sub(&FieldElement::from_u64(9));
    assert_eq!(
        minus_two.to_limbs(),
        [MODULUS_LIMBS[0] - 2, MODULUS_LIMBS[1], MODULUS_LIMBS[2], MODULUS_LIMBS[3]]
    );
    assert_eq!(minus_one.add(&minus_one), minus_two);
    assert_eq!(minus_two.add(&FieldElement::from_u64(2)), FieldElement::zero());
}

#[test]
fn minus_one_is_the_negative_of_one() {
    assert_eq!(num(&FieldElement::minus_one()), Num::<Fr>::minusone());
    assert_eq!(num(&FieldElement::one()), Num::<Fr>::one());
    assert_eq!(num(&FieldElement::zero()), Num::<Fr>::zero());
    assert_eq!(element(&Num::<Fr>::minusone()), FieldElement::minus_one());
}

#[test]
fn addition_agrees_with_the_framework() {
    for _ in 0..200 {
        let a = random_element();
        let b = random_element();
        assert_eq!(num(&a.add(&b)), num(&a) + num(&b));
    }
}

#[test]
fn subtraction_agrees_with_the_framework() {
    for _ in 0..200 {
        let a = random_element();
        let b = random_element();
        assert_eq!(num(&a.sub(&b)), num(&a) - num(&b));
    }
}

#[test]
fn the_sum_of_two_less_one_is_the_other() {
    for _ in 0..100 {
        let a = random_element();
        let b = random_element();
        assert_eq!(a.add(&b).sub(&a), b);
        assert_eq!(a.add(&b).sub(&b), a);
    }
}

#[test]
fn a_difference_is_zero_exactly_for_equal_elements() {
    let a = random_element();
    let b = a.add(&FieldElement::one());
    assert!(a.sub(&a).is_zero());
    assert!(!a.sub(&b).is_zero());
    assert!(!b.sub(&a).is_zero());
    assert!(a.equals(&a));
    assert!(!a.equals(&b));
}

#[test]
fn only_minus_one_has_zero_as_its_successor() {
    assert!(FieldElement::minus_one().add(&FieldElement::one()).is_zero());
    assert!(!FieldElement::zero().add(&FieldElement::one()).is_zero());
    assert!(!FieldElement::from_u64(u64::MAX).add(&FieldElement::one()).is_zero());
    for _ in 0..50 {
        let a = random_element();
        assert_eq!(a.add(&FieldElement::one()).is_zero(), a == FieldElement::minus_one());
    }
}

#[test]
fn is_zero_holds_of_zero_alone() {
    assert!(FieldElement::zero().is_zero());
    assert!(!FieldElement::one().is_zero());
    assert!(!FieldElement::minus_one().is_zero());
    assert!(!FieldElement::from_limbs([0, 0, 0, 1]).unwrap().is_zero());
    assert!(!FieldElement::from_limbs([0, 0, 1, 0]).unwrap().is_zero());
    assert!(!FieldElement::from_limbs([0, 1, 0, 0]).unwrap().is_zero());
}

#[test]
fn equals_compares_every_limb() {
    let a = FieldElement::from_limbs([1, 2, 3, 4]).unwrap();
    assert!(a.equals(&FieldElement::from_limbs([1, 2, 3, 4]).unwrap()));
    assert!(!a.equals(&FieldElement::from_limbs([0, 2, 3, 4]).unwrap()));
    assert!(!a.equals(&FieldElement::from_limbs([1, 0, 3, 4]).unwrap()));
    assert!(!a.equals(&FieldElement::from_limbs([1, 2, 0, 4]).unwrap()));
    assert!(!a.equals(&FieldElement::from_limbs([1, 2, 3, 0]).unwrap()));
}
