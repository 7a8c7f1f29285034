//! The withdrawal relation as a circuit: written once against an evaluation
//! strategy, with no branch on anything that a value carries.
//!
//! A strategy supplies the values (concrete field elements, or the wires of a
//! constraint system), the few operations that the relation is made of, and
//! the two assertions that end it. Every strategy runs the same relation, so
//! two evaluation modes cannot drift apart: what a run computes and asserts
//! is stated over the field elements behind its values, whatever the
//! strategy.

use vstd::prelude::*;
use vstd::array::ArrayAdditionalSpecFns;
use crate::constants::{SEED_NOTE_HASH, SEED_NULLIFIER};
use crate::errors::ShapeError;
use crate::field::{
    field_add, field_sub, lemma_difference_zero, lemma_other_of_two, lemma_successor_zero,
    lemma_view_in_field, minus_one_value, FieldElement,
};
use crate::merkle::merkle_root;
use crate::native::MixerParams;
use crate::poseidon::{hash_spec, tagged_hash_spec, HashParams};

verus! {

/// An evaluation strategy: what a value and a bit are, how the operations of
/// the relation act on them, and what an assertion does.
///
/// `element` and `bit` say which field element and which boolean stand behind
/// a value and a bit of the strategy, and every operation is stated over
/// them. `outcomes` lists the assertions made so far, each with whether it
/// held. A strategy says what its values are by overriding the three; left
/// as they are, they stand for something unknown.
pub trait Evaluator {
    /// A field element of the strategy.
    type Value;

    /// A boolean of the strategy.
    type Bit;

    /// The field element behind a value.
    open spec fn element(v: &Self::Value) -> FieldElement {
        arbitrary()
    }

    /// The boolean behind a bit.
    open spec fn bit(b: &Self::Bit) -> bool {
        arbitrary()
    }

    /// Whether each assertion made so far held, in the order in which they
    /// were made.
    open spec fn outcomes(&self) -> Seq<bool> {
        arbitrary()
    }

    /// The hash of one input in the domain of `tag`.
    fn tagged_hash(input: &Self::Value, tag: &[u8], params: &HashParams) -> (r: Self::Value)
        requires
            params.width() >= 2,
        ensures
            Self::element(&r)@ == tagged_hash_spec(seq![Self::element(input)@], tag@, *params),
    ;

    /// The compression of two tree nodes into their parent.
    fn compress(left: &Self::Value, right: &Self::Value, params: &HashParams) -> (r: Self::Value)
        requires
            params.width() >= 2,
        ensures
            Self::element(&r)@ == hash_spec(
                seq![Self::element(left)@, Self::element(right)@],
                *params,
            ),
    ;

    /// `if_set` where the bit is set, `if_clear` where it is not.
    fn select(bit: &Self::Bit, if_set: &Self::Value, if_clear: &Self::Value) -> (r: Self::Value)
        ensures
            Self::element(&r)@ == (if Self::bit(bit) {
                Self::element(if_set)@
            } else {
                Self::element(if_clear)@
            }),
    ;

    /// The sum of two values.
    fn add(a: &Self::Value, b: &Self::Value) -> (r: Self::Value)
        ensures
            Self::element(&r)@ == field_add(Self::element(a)@, Self::element(b)@),
    ;

    /// The difference of two values.
    fn sub(a: &Self::Value, b: &Self::Value) -> (r: Self::Value)
        ensures
            Self::element(&r)@ == field_sub(Self::element(a)@, Self::element(b)@),
    ;

    /// The sum of a value and a constant.
    fn add_constant(a: &Self::Value, c: &FieldElement) -> (r: Self::Value)
        ensures
            Self::element(&r)@ == field_add(Self::element(a)@, c@),
    ;

    /// Asserts that a value is zero.
    fn assert_zero(&mut self, v: &Self::Value)
        ensures
            final(self).outcomes() == old(self).outcomes().push(Self::element(v)@ == 0),
    ;

    /// Asserts that a value is not zero.
    fn assert_nonzero(&mut self, v: &Self::Value)
        ensures
            final(self).outcomes() == old(self).outcomes().push(Self::element(v)@ != 0),
    ;
}

/// The field elements behind a sequence of values, as integers.
pub open spec fn values_of<E: Evaluator>(s: Seq<E::Value>) -> Seq<nat> {
    s.map_values(|v: E::Value| E::element(&v)@)
}

/// The booleans behind a sequence of bits.
pub open spec fn bits_of<E: Evaluator>(s: Seq<E::Bit>) -> Seq<bool> {
    s.map_values(|b: E::Bit| E::bit(&b))
}

/// The leaf hash of a note with the given secret: the hash of the secret in
/// the domain of `SEED_NOTE_HASH`.
pub open spec fn note_hash(secret: nat, params: MixerParams) -> nat {
    tagged_hash_spec(seq![secret], SEED_NOTE_HASH@, params.hash_params())
}

/// The nullifier of a note with the given secret: the hash of the secret in
/// the domain of `SEED_NULLIFIER`.
pub open spec fn note_nullifier(secret: nat, params: MixerParams) -> nat {
    tagged_hash_spec(seq![secret], SEED_NULLIFIER@, params.hash_params())
}

/// The three checks of the withdrawal relation, in the order in which they
/// are asserted: the declared nullifier is the nullifier of the note; the
/// declared root is the root that the leaf of the note leads to along the
/// path; the memo is not `-1`.
pub open spec fn relation_checks(
    root: nat,
    nullifier: nat,
    memo: nat,
    secret: nat,
    siblings: Seq<nat>,
    directions: Seq<bool>,
    params: MixerParams,
) -> Seq<bool> {
    seq![
        nullifier == note_nullifier(secret, params),
        root == merkle_root(
            note_hash(secret, params),
            siblings,
            directions,
            params.compress_params(),
        ),
        memo != minus_one_value(),
    ]
}

/// The leaf that stands for a note in the commitment tree.
pub fn c_note_hash<E: Evaluator>(secret: &E::Value, params: &MixerParams) -> (r: E::Value)
    ensures
        E::element(&r)@ == note_hash(E::element(secret)@, *params),
{
    E::tagged_hash(secret, SEED_NOTE_HASH.as_slice(), params.hash())
}

/// The value that marks a note as spent once it is revealed.
pub fn c_note_nullifier<E: Evaluator>(secret: &E::Value, params: &MixerParams) -> (r: E::Value)
    ensures
        E::element(&r)@ == note_nullifier(E::element(secret)@, *params),
{
    E::tagged_hash(secret, SEED_NULLIFIER.as_slice(), params.hash())
}

/// The root that `leaf` leads to along the given siblings and direction bits,
/// from the level of the leaf upwards. At each level the bit selects which of
/// the sibling and the running value is the first input of the compression;
/// the second input is their sum less the first.
pub(crate) fn c_merkle_root<E: Evaluator>(
    leaf: E::Value,
    siblings: &[E::Value],
    directions: &[E::Bit],
    compress: &HashParams,
) -> (r: E::Value)
    requires
        siblings@.len() == directions@.len(),
        siblings@.len() == 0 || compress.width() >= 2,
    ensures
        E::element(&r)@ == merkle_root(
            E::element(&leaf)@,
            values_of::<E>(siblings@),
            bits_of::<E>(directions@),
            *compress,
        ),
{
    let ghost start = leaf;
    let mut current = leaf;
    let mut level: usize = 0;
    while level < siblings.len()
        invariant
            level <= siblings@.len(),
            siblings@.len() == directions@.len(),
            siblings@.len() == 0 || compress.width() >= 2,
            E::element(&current)@ == merkle_root(
                E::element(&start)@,
                values_of::<E>(siblings@).take(level as int),
                bits_of::<E>(directions@).take(level as int),
                *compress,
            ),
        decreases siblings@.len() - level,
    {
        let sibling = &siblings[level];
        let bit = &directions[level];
        let first = E::select(bit, sibling, &current);
        let sum = E::add(&current, sibling);
        let second = E::sub(&sum, &first);
        proof {
            lemma_view_in_field(E::element(&current));
            lemma_view_in_field(E::element(sibling));
            lemma_other_of_two(E::element(&current)@, E::element(sibling)@);
            let below = values_of::<E>(siblings@).take(level + 1);
            let bits = bits_of::<E>(directions@).take(level + 1);
            assert(below.drop_last() == values_of::<E>(siblings@).take(level as int));
            assert(bits.drop_last() == bits_of::<E>(directions@).take(level as int));
            assert(below.last() == E::element(sibling)@);
            assert(bits.last() == E::bit(bit));
        }
        current = E::compress(&first, &second, compress);
        level += 1;
    }
    proof {
        assert(values_of::<E>(siblings@).take(level as int) == values_of::<E>(siblings@));
        assert(bits_of::<E>(directions@).take(level as int) == bits_of::<E>(directions@));
    }
    current
}

/// Runs the withdrawal relation on its parts: derives the nullifier and the
/// leaf from the secret and the root from the leaf and the path, and asserts
/// the three checks, each as the test of one value against zero: the two
/// differences between a declared and a derived value, and the memo plus
/// one.
pub(crate) fn c_relation<E: Evaluator>(
    evaluator: &mut E,
    root: &E::Value,
    nullifier: &E::Value,
    memo: &E::Value,
    secret: &E::Value,
    siblings: &[E::Value],
    directions: &[E::Bit],
    params: &MixerParams,
)
    requires
        siblings@.len() == directions@.len(),
    ensures
        final(evaluator).outcomes() == old(evaluator).outcomes() + relation_checks(
            E::element(root)@,
            E::element(nullifier)@,
            E::element(memo)@,
            E::element(secret)@,
            values_of::<E>(siblings@),
            bits_of::<E>(directions@),
            *params,
        ),
{
    let derived_nullifier = c_note_nullifier::<E>(secret, params);
    let nullifier_residue = E::sub(nullifier, &derived_nullifier);
    evaluator.assert_zero(&nullifier_residue);

    let leaf = c_note_hash::<E>(secret, params);
    let derived_root = c_merkle_root::<E>(leaf, siblings, directions, params.compress());
    let root_residue = E::sub(root, &derived_root);
    evaluator.assert_zero(&root_residue);

    let one = FieldElement::one();
    let memo_residue = E::add_constant(memo, &one);
    evaluator.assert_nonzero(&memo_residue);

    proof {
        lemma_view_in_field(E::element(nullifier));
        lemma_view_in_field(E::element(&derived_nullifier));
        lemma_view_in_field(E::element(root));
        lemma_view_in_field(E::element(&derived_root));
        lemma_view_in_field(E::element(memo));
        lemma_difference_zero(E::element(nullifier)@, E::element(&derived_nullifier)@);
        lemma_difference_zero(E::element(root)@, E::element(&derived_root)@);
        lemma_successor_zero(E::element(memo)@);
    }
}

/// A note, as a value of the strategy.
pub struct CNote<E: Evaluator> {
    pub secret: E::Value,
}

impl<E: Evaluator> CNote<E> {
    /// The leaf that stands for the note in the commitment tree.
    pub fn hash(&self, params: &MixerParams) -> (r: E::Value)
        ensures
            E::element(&r)@ == note_hash(E::element(&self.secret)@, *params),
    {
        c_note_hash::<E>(&self.secret, params)
    }

    /// The value that marks the note as spent once it is revealed.
    pub fn nullifier(&self, params: &MixerParams) -> (r: E::Value)
        ensures
            E::element(&r)@ == note_nullifier(E::element(&self.secret)@, *params),
    {
        c_note_nullifier::<E>(&self.secret, params)
    }
}

/// The public part of a withdrawal, as values of the strategy.
pub struct CWithdrawPub<E: Evaluator> {
    pub root: E::Value,
    pub nullifier: E::Value,
    pub memo: E::Value,
}

/// An authentication path of depth `H`, as values and bits of the strategy:
/// one sibling and one direction bit for each level, from the level of the
/// leaf upwards. A direction bit is set where the running value is the
/// second input of the compression.
pub struct CMerklePath<E: Evaluator, const H: usize> {
    pub(crate) siblings: Vec<E::Value>,
    pub(crate) directions: Vec<E::Bit>,
}

impl<E: Evaluator, const H: usize> CMerklePath<E, H> {
    /// The field elements behind the siblings, as integers.
    pub closed spec fn sibling_values(&self) -> Seq<nat> {
        values_of::<E>(self.siblings@)
    }

    /// The booleans behind the direction bits.
    pub closed spec fn direction_bits(&self) -> Seq<bool> {
        bits_of::<E>(self.directions@)
    }

    /// A path holds exactly `H` siblings and `H` direction bits.
    #[verifier::type_invariant]
    pub open spec fn wf(&self) -> bool {
        &&& self.sibling_values().len() == H
        &&& self.direction_bits().len() == H
    }

    /// The path made of the given siblings and direction bits. Fails with
    /// `ShapeError::PathLength` unless there are exactly `H` of each.
    pub fn new(siblings: Vec<E::Value>, directions: Vec<E::Bit>) -> (r: Result<
        CMerklePath<E, H>,
        ShapeError,
    >)
        ensures
            r is Ok <==> siblings@.len() == H && directions@.len() == H,
            r matches Ok(path) ==> {
                &&& path.wf()
                &&& path.sibling_values() == values_of::<E>(siblings@)
                &&& path.direction_bits() == bits_of::<E>(directions@)
            },
            r matches Err(e) ==> e == ShapeError::PathLength,
    {
        if siblings.len() != H || directions.len() != H {
            Err(ShapeError::PathLength)
        } else {
            Ok(CMerklePath { siblings, directions })
        }
    }

    /// The root that `leaf` leads to along this path, each level compressed
    /// under `compress`. Fails with `ShapeError::HashWidth` if there is a
    /// level to compress and the state of `compress` is too narrow for two
    /// inputs.
    pub fn root(&self, leaf: E::Value, compress: &HashParams) -> (r: Result<
        E::Value,
        ShapeError,
    >)
        ensures
            r is Ok <==> H == 0 || compress.width() >= 2,
            r matches Ok(root) ==> E::element(&root)@ == merkle_root(
                E::element(&leaf)@,
                self.sibling_values(),
                self.direction_bits(),
                *compress,
            ),
            r matches Err(e) ==> e == ShapeError::HashWidth,
    {
        proof {
            use_type_invariant(self);
        }
        if H > 0 && compress.state_width() < 2 {
            Err(ShapeError::HashWidth)
        } else {
            Ok(
                c_merkle_root::<E>(
                    leaf,
                    self.siblings.as_slice(),
                    self.directions.as_slice(),
                    compress,
                ),
            )
        }
    }
}

/// The secret part of a withdrawal, as values of the strategy.
pub struct CWithdrawSec<E: Evaluator, const H: usize> {
    pub path: CMerklePath<E, H>,
    pub note: CNote<E>,
}

/// The withdrawal relation. Asserts, in this order, that the declared
/// nullifier is the nullifier of the note, that the declared root is the
/// root that the leaf of the note leads to along the path, and that the memo
/// is not `-1`. All three assertions are made, whatever the earlier ones
/// gave.
pub fn c_withdraw<E: Evaluator, const H: usize>(
    evaluator: &mut E,
    p: &CWithdrawPub<E>,
    s: &CWithdrawSec<E, H>,
    params: &MixerParams,
)
    ensures
        final(evaluator).outcomes() == old(evaluator).outcomes() + relation_checks(
            E::element(&p.root)@,
            E::element(&p.nullifier)@,
            E::element(&p.memo)@,
            E::element(&s.note.secret)@,
            s.path.sibling_values(),
            s.path.direction_bits(),
            *params,
        ),
{
    proof {
        use_type_invariant(&s.path);
    }
    c_relation::<E>(
        evaluator,
        &p.root,
        &p.nullifier,
        &p.memo,
        &s.note.secret,
        s.path.siblings.as_slice(),
        s.path.directions.as_slice(),
        params,
    );
}

/// Two evaluation modes agree on the root: where the same field elements and
/// booleans stand behind a leaf and a path under two strategies, the same
/// field element stands behind the roots that the two derive.
pub proof fn lemma_modes_agree_on_root<A: Evaluator, B: Evaluator, const H: usize>(
    leaf_a: A::Value,
    path_a: CMerklePath<A, H>,
    root_a: A::Value,
    leaf_b: B::Value,
    path_b: CMerklePath<B, H>,
    root_b: B::Value,
    compress: HashParams,
)
    requires
        A::element(&leaf_a)@ == B::element(&leaf_b)@,
        path_a.sibling_values() == path_b.sibling_values(),
        path_a.direction_bits() == path_b.direction_bits(),
        A::element(&root_a)@ == merkle_root(
            A::element(&leaf_a)@,
            path_a.sibling_values(),
            path_a.direction_bits(),
            compress,
        ),
        B::element(&root_b)@ == merkle_root(
            B::element(&leaf_b)@,
            path_b.sibling_values(),
            path_b.direction_bits(),
            compress,
        ),
    ensures
        A::element(&root_a)@ == B::element(&root_b)@,
{
}

} // verus!
