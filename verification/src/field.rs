//! Elements of the scalar field of the BN254 curve, the unit of computation
//! of the withdrawal relation.
//!
//! An element is kept as four 64-bit limbs, least significant first, that
//! encode an integer below the field modulus. Its view is that integer.

use vstd::prelude::*;
use crate::errors::ShapeError;

verus! {

/// The order of the field: a 254-bit prime.
pub open spec fn modulus() -> nat {
    21888242871839275222246405745257275088548364400416034343698204186575808495617nat
}

/// The field element `-1`, as an integer.
pub open spec fn minus_one_value() -> nat {
    (modulus() - 1) as nat
}

/// The integer that four limbs encode, least significant limb first.
pub open spec fn limbs_value(l0: u64, l1: u64, l2: u64, l3: u64) -> nat {
    (l0 as int + (l1 as int) * 0x1_0000_0000_0000_0000int + (l2 as int)
        * 0x1_0000_0000_0000_0000_0000_0000_0000_0000int + (l3 as int)
        * 0x1_0000_0000_0000_0000_0000_0000_0000_0000_0000_0000_0000_0000int) as nat
}

/// The integer that an array of four limbs encodes.
pub open spec fn array_value(l: [u64; 4]) -> nat {
    limbs_value(l[0], l[1], l[2], l[3])
}

/// Addition in the field.
pub open spec fn field_add(a: nat, b: nat) -> nat {
    (a + b) % modulus()
}

/// Subtraction in the field, for operands below the modulus.
pub open spec fn field_sub(a: nat, b: nat) -> nat {
    ((a + modulus() - b) % (modulus() as int)) as nat
}

/// The views of a sequence of field elements.
pub open spec fn values(s: Seq<FieldElement>) -> Seq<nat> {
    s.map_values(|e: FieldElement| e@)
}

/// The limbs of the field modulus, least significant first.
pub const MODULUS_LIMBS: [u64; 4] = [
    0x43e1_f593_f000_0001,
    0x2833_e848_79b9_7091,
    0xb850_45b6_8181_585d,
    0x3064_4e72_e131_a029,
];

/// An element of the field.
#[derive(Clone, Copy, Debug, PartialEq, Eq)]
pub struct FieldElement {
    pub(crate) limbs: [u64; 4],
}

impl View for FieldElement {
    type V = nat;

    closed spec fn view(&self) -> nat {
        array_value(self.limbs) % modulus()
    }
}

/// The modulus is the integer that its limbs encode.
proof fn lemma_modulus_limbs()
    ensures
        array_value(MODULUS_LIMBS) == modulus(),
{
}

/// Whether the integer of `a` is below that of `b`.
fn raw_less(a: &[u64; 4], b: &[u64; 4]) -> (r: bool)
    ensures
        r == (array_value(*a) < array_value(*b)),
{
    if a[3] != b[3] {
        a[3] < b[3]
    } else if a[2] != b[2] {
        a[2] < b[2]
    } else if a[1] != b[1] {
        a[1] < b[1]
    } else {
        a[0] < b[0]
    }
}

/// One limb of a subtraction: the difference modulo 2^64, and the borrow
/// handed to the next limb.
fn limb_sub(a: u64, b: u64, borrow: u64) -> (r: (u64, u64))
    requires
        borrow <= 1,
    ensures
        r.1 <= 1,
        r.0 as int - (r.1 as int) * 0x1_0000_0000_0000_0000int == a as int - b as int
            - borrow as int,
{
    let t: u128 = 0x1_0000_0000_0000_0000u128 + a as u128 - b as u128 - borrow as u128;
    let low: u64 = (t % 0x1_0000_0000_0000_0000u128) as u64;
    let high: u64 = (t / 0x1_0000_0000_0000_0000u128) as u64;
    (low, 1 - high)
}

/// The difference of two four-limb integers, the first at least the second.
fn raw_sub(a: &[u64; 4], b: &[u64; 4]) -> (r: [u64; 4])
    requires
        array_value(*a) >= array_value(*b),
    ensures
        array_value(r) == array_value(*a) - array_value(*b),
{
    let (r0, b0) = limb_sub(a[0], b[0], 0);
    let (r1, b1) = limb_sub(a[1], b[1], b0);
    let (r2, b2) = limb_sub(a[2], b[2], b1);
    let (r3, b3) = limb_sub(a[3], b[3], b2);
    [r0, r1, r2, r3]
}

impl FieldElement {
    /// The limbs of every element encode an integer below the modulus, so
    /// that no two elements have the same view.
    #[verifier::type_invariant]
    pub closed spec fn is_canonical(self) -> bool {
        array_value(self.limbs) < modulus()
    }

    /// The element that four limbs encode, least significant first, if they
    /// encode an integer below the modulus.
    pub fn from_limbs(limbs: [u64; 4]) -> (r: Result<FieldElement, ShapeError>)
        ensures
            r is Ok <==> array_value(limbs) < modulus(),
            r matches Ok(e) ==> e@ == array_value(limbs) && e.is_canonical(),
            r matches Err(e) ==> e == ShapeError::OutOfField,
    {
        proof {
            lemma_modulus_limbs();
        }
        if raw_less(&limbs, &MODULUS_LIMBS) {
            Ok(FieldElement { limbs })
        } else {
            Err(ShapeError::OutOfField)
        }
    }

    /// The four limbs of the element, least significant first.
    pub fn to_limbs(&self) -> (r: [u64; 4])
        ensures
            array_value(r) == self@,
    {
        proof {
            use_type_invariant(self);
        }
        self.limbs
    }

    /// The element of a small integer.
    pub fn from_u64(x: u64) -> (r: FieldElement)
        ensures
            r@ == x,
            r.is_canonical(),
    {
        FieldElement { limbs: [x, 0, 0, 0] }
    }

    /// The element `0`.
    pub fn zero() -> (r: FieldElement)
        ensures
            r@ == 0,
            r.is_canonical(),
    {
        FieldElement { limbs: [0, 0, 0, 0] }
    }

    /// The element `1`.
    pub fn one() -> (r: FieldElement)
        ensures
            r@ == 1,
            r.is_canonical(),
    {
        FieldElement { limbs: [1, 0, 0, 0] }
    }

    /// The element `-1`, the largest integer below the modulus.
    pub fn minus_one() -> (r: FieldElement)
        ensures
            r@ == minus_one_value(),
            r.is_canonical(),
    {
        FieldElement {
            limbs: [
                0x43e1_f593_f000_0000,
                0x2833_e848_79b9_7091,
                0xb850_45b6_8181_585d,
                0x3064_4e72_e131_a029,
            ],
        }
    }

    /// Whether the element is `0`.
    pub fn is_zero(&self) -> (r: bool)
        ensures
            r == (self@ == 0),
    {
        proof {
            use_type_invariant(self);
        }
        self.limbs[0] == 0 && self.limbs[1] == 0 && self.limbs[2] == 0 && self.limbs[3] == 0
    }

    /// Whether two elements are the same element.
    pub fn equals(&self, other: &FieldElement) -> (r: bool)
        ensures
            r == (self@ == other@),
            r == (*self == *other),
    {
        proof {
            use_type_invariant(self);
            use_type_invariant(other);
            lemma_view_injective(*self, *other);
        }
        self.limbs[0] == other.limbs[0] && self.limbs[1] == other.limbs[1] && self.limbs[2]
            == other.limbs[2] && self.limbs[3] == other.limbs[3]
    }

    /// The element of four limbs that encode an integer below the modulus.
    fn from_reduced(limbs: &[u64; 4]) -> (r: FieldElement)
        requires
            array_value(*limbs) < modulus(),
        ensures
            r@ == array_value(*limbs),
            r.is_canonical(),
    {
        FieldElement { limbs: *limbs }
    }

    /// The limbs of the element, with the integer they encode.
    fn reduced(&self) -> (r: [u64; 4])
        ensures
            array_value(r) == self@,
            array_value(r) < modulus(),
    {
        proof {
            use_type_invariant(self);
        }
        self.limbs
    }

    /// The sum of two elements.
    pub fn add(&self, other: &FieldElement) -> (r: FieldElement)
        ensures
            r@ == field_add(self@, other@),
            r.is_canonical(),
    {
        proof {
            lemma_modulus_limbs();
        }
        let a = self.reduced();
        let b = other.reduced();
        let c = raw_sub(&MODULUS_LIMBS, &b);
        if raw_less(&a, &c) {
            let d = raw_sub(&c, &a);
            let r = raw_sub(&MODULUS_LIMBS, &d);
            proof {
                lemma_reduced((array_value(a) + array_value(b)) as int, 0);
            }
            FieldElement::from_reduced(&r)
        } else {
            let r = raw_sub(&a, &c);
            proof {
                lemma_reduced((array_value(a) + array_value(b)) as int, 1);
            }
            FieldElement::from_reduced(&r)
        }
    }

    /// The difference of two elements.
    pub fn sub(&self, other: &FieldElement) -> (r: FieldElement)
        ensures
            r@ == field_sub(self@, other@),
            r.is_canonical(),
    {
        proof {
            lemma_modulus_limbs();
        }
        let a = self.reduced();
        let b = other.reduced();
        if raw_less(&a, &b) {
            let d = raw_sub(&b, &a);
            let r = raw_sub(&MODULUS_LIMBS, &d);
            proof {
                lemma_reduced(array_value(a) + modulus() - array_value(b), 0);
            }
            FieldElement::from_reduced(&r)
        } else {
            let r = raw_sub(&a, &b);
            proof {
                lemma_reduced(array_value(a) + modulus() - array_value(b), 1);
            }
            FieldElement::from_reduced(&r)
        }
    }
}

/// An integer that lies `k` moduli above an integer below the modulus
/// reduces to that integer.
proof fn lemma_reduced(x: int, k: int)
    requires
        0 <= k,
        k * modulus() <= x < (k + 1) * modulus(),
    ensures
        x % (modulus() as int) == x - k * modulus(),
{
    vstd::arithmetic::div_mod::lemma_fundamental_div_mod_converse(
        x,
        modulus() as int,
        k,
        x - k * modulus(),
    );
}

/// Of two elements, their sum less one of them is the other.
pub proof fn lemma_other_of_two(a: nat, b: nat)
    requires
        a < modulus(),
        b < modulus(),
    ensures
        field_sub(field_add(a, b), a) == b,
        field_sub(field_add(a, b), b) == a,
{
}

/// The difference of two elements is zero exactly where they are equal.
pub proof fn lemma_difference_zero(a: nat, b: nat)
    requires
        a < modulus(),
        b < modulus(),
    ensures
        field_sub(a, b) == 0 <==> a == b,
{
}

/// An element plus one is zero exactly where the element is `-1`.
pub proof fn lemma_successor_zero(a: nat)
    requires
        a < modulus(),
    ensures
        field_add(a, 1) == 0 <==> a == minus_one_value(),
{
}

/// The view of an element is below the modulus.
pub proof fn lemma_view_in_field(a: FieldElement)
    ensures
        a@ < modulus(),
{
}

/// Two elements with the same view are the same element.
pub proof fn lemma_view_injective(a: FieldElement, b: FieldElement)
    requires
        a.is_canonical(),
        b.is_canonical(),
    ensures
        a@ == b@ <==> a == b,
{
    if a@ == b@ {
        lemma_limbs_injective(
            a.limbs[0],
            a.limbs[1],
            a.limbs[2],
            a.limbs[3],
            b.limbs[0],
            b.limbs[1],
            b.limbs[2],
            b.limbs[3],
        );
        assert(a.limbs =~= b.limbs);
    }
}

/// Four limbs are determined by the integer they encode.
proof fn lemma_limbs_injective(
    a0: u64,
    a1: u64,
    a2: u64,
    a3: u64,
    b0: u64,
    b1: u64,
    b2: u64,
    b3: u64,
)
    requires
        limbs_value(a0, a1, a2, a3) == limbs_value(b0, b1, b2, b3),
    ensures
        a0 == b0,
        a1 == b1,
        a2 == b2,
        a3 == b3,
{
    let a_top: int = a2 as int + 0x1_0000_0000_0000_0000int * (a3 as int);
    let b_top: int = b2 as int + 0x1_0000_0000_0000_0000int * (b3 as int);
    let a_mid: int = a1 as int + 0x1_0000_0000_0000_0000int * a_top;
    let b_mid: int = b1 as int + 0x1_0000_0000_0000_0000int * b_top;
    assert(limbs_value(a0, a1, a2, a3) == a0 as int + 0x1_0000_0000_0000_0000int * a_mid);
    assert(limbs_value(b0, b1, b2, b3) == b0 as int + 0x1_0000_0000_0000_0000int * b_mid);
    assert(a0 == b0 && a_mid == b_mid);
    assert(a1 == b1 && a_top == b_top);
    assert(a2 == b2 && a3 == b3);
}

} // verus!
