//! Sample withdrawals: a secret part drawn at random, with the public part
//! derived from it, so that the pair satisfies the relation by construction.

use vstd::prelude::*;
use fawkes_crypto::native::num::Num;
use ff_ce::PrimeField;
use pairing_ce::bn256::Fr;
use rand::{thread_rng, Rng};
use crate::field::{minus_one_value, FieldElement};
use crate::merkle::MerklePath;
use crate::native::{relation_holds, MixerParams, Note, WithdrawPub, WithdrawSec};

verus! {

/// Draws a field element from the generator of the thread, as
/// `thread_rng().gen::<Num<Fr>>()` does, and copies it limb by limb. Nothing
/// is known of the element that comes back.
#[verifier::external_body]
fn random_element() -> (r: FieldElement) {
    let n: Num<Fr> = thread_rng().gen();
    FieldElement { limbs: n.0.into_repr().0 }
}

/// Draws a boolean from the generator of the thread, as
/// `thread_rng().gen::<bool>()` does. Nothing is known of the boolean that
/// comes back.
#[verifier::external_body]
fn random_bit() -> (r: bool) {
    thread_rng().gen()
}

/// The memo of a sample withdrawal: the drawn memo, or `0` where the drawn
/// memo is `-1`, which no valid withdrawal carries.
pub open spec fn sample_memo(drawn: nat) -> nat {
    if drawn == minus_one_value() {
        0
    } else {
        drawn
    }
}

/// The sample withdrawal made of the given secret, path and memo: the secret
/// part holds the first two, the public part is derived from it, with
/// `sample_memo(memo)` as its memo.
pub fn test_data_from<const H: usize>(
    secret: FieldElement,
    path: MerklePath<H>,
    memo: FieldElement,
    params: &MixerParams,
) -> (r: (WithdrawPub, WithdrawSec<H>))
    ensures
        r.1.note.secret == secret,
        r.1.path == path,
        r.0.memo@ == sample_memo(memo@),
        relation_holds(r.0, r.1, *params),
{
    let s = WithdrawSec { path, note: Note { secret } };
    let memo = if memo.equals(&FieldElement::minus_one()) {
        FieldElement::zero()
    } else {
        memo
    };
    let p = WithdrawPub::derive(&s, memo, params);
    (p, s)
}

/// A sample withdrawal of depth `H`, drawn at random.
pub fn sample<const H: usize>(params: &MixerParams) -> (r: (WithdrawPub, WithdrawSec<H>))
    ensures
        relation_holds(r.0, r.1, *params),
{
    let mut siblings: Vec<FieldElement> = Vec::new();
    let mut directions: Vec<bool> = Vec::new();
    let mut level: usize = 0;
    while level < H
        invariant
            level <= H,
            siblings@.len() == level,
            directions@.len() == level,
        decreases H - level,
    {
        siblings.push(random_element());
        directions.push(random_bit());
        level += 1;
    }
    let path = MerklePath::<H>::assemble(siblings, directions);
    test_data_from(random_element(), path, random_element(), params)
}

/// A sample withdrawal for a tree of depth 16, drawn at random.
pub fn gen_test_data(params: &MixerParams) -> (r: (WithdrawPub, WithdrawSec<16>))
    ensures
        relation_holds(r.0, r.1, *params),
{
    sample::<16>(params)
}

} // verus!
