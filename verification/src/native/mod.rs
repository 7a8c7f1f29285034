//! Native evaluation of the withdrawal relation: the note and what is derived
//! from it, the public and the secret part of a withdrawal, and the three
//! checks that make a withdrawal valid, all over concrete field elements.

pub mod gen_test_data;

use vstd::prelude::*;
use crate::circuit::{
    bits_of, c_note_hash, c_note_nullifier, c_relation, note_hash, note_nullifier,
    relation_checks, values_of, Evaluator,
};
use crate::errors::{RelationViolation, ShapeError};
use crate::field::{minus_one_value, values, FieldElement};
use crate::merkle::{merkle_root, MerklePath};
use crate::poseidon::{permute, permute_tagged, same_instantiation, HashParams};

verus! {

/// The hash parameters of a mixer: one set for the leaf hash and the
/// nullifier of a note, another for the compression of tree levels, and a
/// third that is kept for a signature scheme and read by no check.
#[derive(Debug)]
pub struct MixerParams {
    pub(crate) hash: HashParams,
    pub(crate) compress: HashParams,
    pub(crate) eddsa: HashParams,
}

impl MixerParams {
    /// The parameters of the leaf hash and of the nullifier.
    pub closed spec fn hash_params(&self) -> HashParams {
        self.hash
    }

    /// The parameters of the compression of tree levels.
    pub closed spec fn compress_params(&self) -> HashParams {
        self.compress
    }

    /// The parameters kept for the signature scheme.
    pub closed spec fn eddsa_params(&self) -> HashParams {
        self.eddsa
    }

    /// The state of the note hash takes the secret and a tag, the state of
    /// the compression takes two tree nodes, and the two are different
    /// instantiations of the hash, so that a tree node is never the hash of a
    /// note under the same parameters.
    #[verifier::type_invariant]
    pub open spec fn wf(&self) -> bool {
        &&& self.hash_params().wf()
        &&& self.compress_params().wf()
        &&& self.eddsa_params().wf()
        &&& self.hash_params().width() >= 2
        &&& self.compress_params().width() >= 2
        &&& !same_instantiation(self.hash_params(), self.compress_params())
    }

    /// The parameters of a mixer. Fails with `ShapeError::HashWidth` unless
    /// the states of `hash` and of `compress` are at least two wide, and else
    /// with `ShapeError::SharedParams` if `hash` and `compress` are the same
    /// instantiation of the hash.
    pub fn new(hash: HashParams, compress: HashParams, eddsa: HashParams) -> (r: Result<
        MixerParams,
        ShapeError,
    >)
        ensures
            r is Ok <==> hash.width() >= 2 && compress.width() >= 2 && !same_instantiation(
                hash,
                compress,
            ),
            r matches Ok(params) ==> {
                &&& params.wf()
                &&& params.hash_params() == hash
                &&& params.compress_params() == compress
                &&& params.eddsa_params() == eddsa
            },
            r matches Err(e) ==> e == (if hash.width() < 2 || compress.width() < 2 {
                ShapeError::HashWidth
            } else {
                ShapeError::SharedParams
            }),
    {
        proof {
            use_type_invariant(&hash);
            use_type_invariant(&compress);
            use_type_invariant(&eddsa);
        }
        if hash.state_width() < 2 || compress.state_width() < 2 {
            Err(ShapeError::HashWidth)
        } else if hash.same_as(&compress) {
            Err(ShapeError::SharedParams)
        } else {
            Ok(MixerParams { hash, compress, eddsa })
        }
    }

    /// The parameters of the leaf hash and of the nullifier.
    pub fn hash(&self) -> (r: &HashParams)
        ensures
            *r == self.hash_params(),
            r.width() >= 2,
    {
        proof {
            use_type_invariant(self);
        }
        &self.hash
    }

    /// The parameters of the compression of tree levels.
    pub fn compress(&self) -> (r: &HashParams)
        ensures
            *r == self.compress_params(),
            r.width() >= 2,
    {
        proof {
            use_type_invariant(self);
        }
        &self.compress
    }

    /// The parameters kept for the signature scheme.
    pub fn eddsa(&self) -> (r: &HashParams)
        ensures
            *r == self.eddsa_params(),
    {
        &self.eddsa
    }
}

/// The native evaluation strategy: values are field elements, bits are
/// booleans, and an assertion records whether it held.
#[derive(Debug)]
pub struct Native {
    results: Vec<bool>,
}

impl Native {
    /// A strategy that has made no assertion yet.
    pub fn new() -> (r: Native)
        ensures
            r.outcomes() == Seq::<bool>::empty(),
    {
        Native { results: Vec::new() }
    }

    /// Whether each assertion made so far held, in the order they were made.
    pub fn results(&self) -> (r: &Vec<bool>)
        ensures
            r@ == self.outcomes(),
    {
        &self.results
    }
}

impl Evaluator for Native {
    type Value = FieldElement;

    type Bit = bool;

    open spec fn element(v: &FieldElement) -> FieldElement {
        *v
    }

    open spec fn bit(b: &bool) -> bool {
        *b
    }

    closed spec fn outcomes(&self) -> Seq<bool> {
        self.results@
    }

    fn tagged_hash(input: &FieldElement, tag: &[u8], params: &HashParams) -> (r: FieldElement) {
        proof {
            use_type_invariant(params);
        }
        let mut inputs: Vec<FieldElement> = Vec::new();
        inputs.push(*input);
        assert(values(inputs@) == seq![input@]);
        permute_tagged(&inputs, tag, params)
    }

    fn compress(left: &FieldElement, right: &FieldElement, params: &HashParams) -> (r:
        FieldElement) {
        proof {
            use_type_invariant(params);
        }
        let mut inputs: Vec<FieldElement> = Vec::new();
        inputs.push(*left);
        inputs.push(*right);
        assert(values(inputs@) == seq![left@, right@]);
        permute(&inputs, params)
    }

    fn select(bit: &bool, if_set: &FieldElement, if_clear: &FieldElement) -> (r: FieldElement) {
        if *bit {
            *if_set
        } else {
            *if_clear
        }
    }

    fn add(a: &FieldElement, b: &FieldElement) -> (r: FieldElement) {
        a.add(b)
    }

    fn sub(a: &FieldElement, b: &FieldElement) -> (r: FieldElement) {
        a.sub(b)
    }

    fn add_constant(a: &FieldElement, c: &FieldElement) -> (r: FieldElement) {
        a.add(c)
    }

    fn assert_zero(&mut self, v: &FieldElement) {
        self.results.push(v.is_zero());
    }

    fn assert_nonzero(&mut self, v: &FieldElement) {
        self.results.push(!v.is_zero());
    }
}

/// Natively, the field elements behind a sequence of values are their views,
/// and the booleans behind a sequence of bits are the bits.
pub proof fn lemma_native_values(siblings: Seq<FieldElement>, directions: Seq<bool>)
    ensures
        values_of::<Native>(siblings) == values(siblings),
        bits_of::<Native>(directions) == directions,
{
}

/// A note: the secret of one unspent deposit.
#[derive(Debug, Clone, Copy, PartialEq)]
pub struct Note {
    pub secret: FieldElement,
}

impl Note {
    /// The leaf that stands for the note in the commitment tree.
    pub fn hash(&self, params: &MixerParams) -> (r: FieldElement)
        ensures
            r@ == note_hash(self.secret@, *params),
    {
        c_note_hash::<Native>(&self.secret, params)
    }

    /// The value that marks the note as spent once it is revealed.
    pub fn nullifier(&self, params: &MixerParams) -> (r: FieldElement)
        ensures
            r@ == note_nullifier(self.secret@, *params),
    {
        c_note_nullifier::<Native>(&self.secret, params)
    }
}

/// The public part of a withdrawal, carried alongside the proof.
#[derive(Debug, Clone, Copy)]
pub struct WithdrawPub {
    pub root: FieldElement,
    pub nullifier: FieldElement,
    pub memo: FieldElement,
}

/// The secret part of a withdrawal: the note and the authentication path of
/// its leaf, of depth `H`.
#[derive(Debug)]
pub struct WithdrawSec<const H: usize> {
    pub path: MerklePath<H>,
    pub note: Note,
}

/// The root that the secret part of a withdrawal leads to.
pub open spec fn derived_root<const H: usize>(s: WithdrawSec<H>, params: MixerParams) -> nat {
    merkle_root(
        note_hash(s.note.secret@, params),
        s.path.sibling_values(),
        s.path.direction_bits(),
        params.compress_params(),
    )
}

/// The declared nullifier is the nullifier of the note.
pub open spec fn nullifier_ok<const H: usize>(
    p: WithdrawPub,
    s: WithdrawSec<H>,
    params: MixerParams,
) -> bool {
    p.nullifier@ == note_nullifier(s.note.secret@, params)
}

/// The declared root is the root that the leaf of the note leads to along the
/// authentication path.
pub open spec fn root_ok<const H: usize>(
    p: WithdrawPub,
    s: WithdrawSec<H>,
    params: MixerParams,
) -> bool {
    p.root@ == derived_root(s, params)
}

/// The memo is not the field element `-1`.
pub open spec fn memo_bound_ok(p: WithdrawPub) -> bool {
    p.memo@ != minus_one_value()
}

/// The withdrawal relation: all three checks hold.
pub open spec fn relation_holds<const H: usize>(
    p: WithdrawPub,
    s: WithdrawSec<H>,
    params: MixerParams,
) -> bool {
    nullifier_ok(p, s, params) && root_ok(p, s, params) && memo_bound_ok(p)
}

/// The first check, in the order nullifier, root, memo, that a withdrawal
/// fails. It is read only of a withdrawal that fails one: where none fails it
/// is `Memo`.
pub open spec fn first_violation<const H: usize>(
    p: WithdrawPub,
    s: WithdrawSec<H>,
    params: MixerParams,
) -> RelationViolation {
    if !nullifier_ok(p, s, params) {
        RelationViolation::Nullifier
    } else if !root_ok(p, s, params) {
        RelationViolation::Root
    } else {
        RelationViolation::Memo
    }
}

/// The outcome of the three checks of the withdrawal relation. Each of them
/// is evaluated, whatever the others give.
#[derive(Debug, Clone, Copy, PartialEq, Eq, Structural)]
pub struct RelationChecks {
    pub nullifier_ok: bool,
    pub root_ok: bool,
    pub memo_bound_ok: bool,
}

impl RelationChecks {
    /// Whether all three checks hold.
    pub fn holds(&self) -> (r: bool)
        ensures
            r == (self.nullifier_ok && self.root_ok && self.memo_bound_ok),
    {
        self.nullifier_ok && self.root_ok && self.memo_bound_ok
    }

    /// The first check, in the order nullifier, root, memo, that does not
    /// hold.
    pub fn first_violation(&self) -> (r: Option<RelationViolation>)
        ensures
            r is None <==> self.nullifier_ok && self.root_ok && self.memo_bound_ok,
            r == Some(RelationViolation::Nullifier) <==> !self.nullifier_ok,
            r == Some(RelationViolation::Root) <==> self.nullifier_ok && !self.root_ok,
            r == Some(RelationViolation::Memo) <==> self.nullifier_ok && self.root_ok
                && !self.memo_bound_ok,
    {
        if !self.nullifier_ok {
            Some(RelationViolation::Nullifier)
        } else if !self.root_ok {
            Some(RelationViolation::Root)
        } else if !self.memo_bound_ok {
            Some(RelationViolation::Memo)
        } else {
            None
        }
    }
}

impl WithdrawPub {
    /// The public part that belongs to a secret part and a memo: the root
    /// that the path leads to, the nullifier of the note, and the memo.
    pub fn derive<const H: usize>(
        s: &WithdrawSec<H>,
        memo: FieldElement,
        params: &MixerParams,
    ) -> (r: WithdrawPub)
        ensures
            r.root@ == derived_root(*s, *params),
            r.nullifier@ == note_nullifier(s.note.secret@, *params),
            r.memo == memo,
            nullifier_ok(r, *s, *params),
            root_ok(r, *s, *params),
            relation_holds(r, *s, *params) <==> memo@ != minus_one_value(),
    {
        let leaf = s.note.hash(params);
        let nullifier = s.note.nullifier(params);
        let root = s.path.root_under(&leaf, params);
        WithdrawPub { root, nullifier, memo }
    }
}

/// Evaluates the three checks of the withdrawal relation natively: runs the
/// relation under the native strategy and reads what its assertions gave.
pub fn evaluate<const H: usize>(p: &WithdrawPub, s: &WithdrawSec<H>, params: &MixerParams) -> (r:
    RelationChecks)
    ensures
        r.nullifier_ok == nullifier_ok(*p, *s, *params),
        r.root_ok == root_ok(*p, *s, *params),
        r.memo_bound_ok == memo_bound_ok(*p),
{
    let siblings = s.path.siblings();
    let directions = s.path.directions();
    let mut native = Native::new();
    c_relation::<Native>(
        &mut native,
        &p.root,
        &p.nullifier,
        &p.memo,
        &s.note.secret,
        siblings.as_slice(),
        directions.as_slice(),
        params,
    );
    let results = native.results();
    proof {
        lemma_native_values(siblings@, directions@);
        let checks = relation_checks(
            p.root@,
            p.nullifier@,
            p.memo@,
            s.note.secret@,
            s.path.sibling_values(),
            s.path.direction_bits(),
            *params,
        );
        assert(results@ == Seq::<bool>::empty() + checks);
        assert(results@ == checks);
    }
    RelationChecks { nullifier_ok: results[0], root_ok: results[1], memo_bound_ok: results[2] }
}

/// Checks a withdrawal natively. Fails with the first check, in the order
/// nullifier, root, memo, that does not hold.
pub fn withdraw<const H: usize>(p: &WithdrawPub, s: &WithdrawSec<H>, params: &MixerParams) -> (r:
    Result<(), RelationViolation>)
    ensures
        r is Ok <==> relation_holds(*p, *s, *params),
        r matches Err(e) ==> e == first_violation(*p, *s, *params),
{
    match evaluate(p, s, params).first_violation() {
        Some(violation) => Err(violation),
        None => Ok(()),
    }
}

/// A withdrawal: its public part, its secret part and the parameters it is
/// checked under.
#[derive(Debug)]
pub struct Withdraw<const H: usize>(pub WithdrawPub, pub WithdrawSec<H>, pub MixerParams);

impl<const H: usize> Withdraw<H> {
    /// Checks the withdrawal, as [`withdraw`] does.
    pub fn check(&self) -> (r: Result<(), RelationViolation>)
        ensures
            r is Ok <==> relation_holds(self.0, self.1, self.2),
            r matches Err(e) ==> e == first_violation(self.0, self.1, self.2),
    {
        withdraw(&self.0, &self.1, &self.2)
    }
}

/// A withdrawal whose public part is derived from its secret part satisfies
/// the relation, whatever the note and the path, unless its memo is `-1`.
pub proof fn lemma_derived_withdrawal_holds<const H: usize>(
    p: WithdrawPub,
    s: WithdrawSec<H>,
    params: MixerParams,
)
    requires
        p.root@ == derived_root(s, params),
        p.nullifier@ == note_nullifier(s.note.secret@, params),
        p.memo@ != minus_one_value(),
    ensures
        relation_holds(p, s, params),
{
}

/// A withdrawal whose memo is `-1` fails the memo check, and with it the
/// relation, whatever its other fields.
pub proof fn lemma_minus_one_memo_fails<const H: usize>(
    p: WithdrawPub,
    s: WithdrawSec<H>,
    params: MixerParams,
)
    requires
        p.memo@ == minus_one_value(),
    ensures
        !memo_bound_ok(p),
        !relation_holds(p, s, params),
{
}

} // verus!
