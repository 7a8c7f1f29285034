//! The Merkle authenticator: the root that a leaf and an authentication path
//! of fixed depth lead to.
//!
//! The authenticator says nothing about where the leaf stands in any tree that
//! someone keeps. It shows that the path, combined with the leaf as its
//! direction bits say, ends in the root.

use vstd::prelude::*;
use crate::circuit::c_merkle_root;
use crate::errors::ShapeError;
use crate::field::{values, FieldElement};
use crate::native::{lemma_native_values, MixerParams, Native};
use crate::poseidon::{hash_spec, HashParams};

verus! {

/// One level of the tree: the compression of the running value and the
/// sibling. The running value is the second input where `right` holds, the
/// first where it does not.
pub open spec fn merkle_step(current: nat, sibling: nat, right: bool, compress: HashParams) -> nat {
    if right {
        hash_spec(seq![sibling, current], compress)
    } else {
        hash_spec(seq![current, sibling], compress)
    }
}

/// The root that `leaf` leads to along the given siblings and direction bits,
/// from the level of the leaf upwards. With no levels the root is the leaf.
pub open spec fn merkle_root(
    leaf: nat,
    siblings: Seq<nat>,
    directions: Seq<bool>,
    compress: HashParams,
) -> nat
    decreases siblings.len(),
{
    if siblings.len() == 0 {
        leaf
    } else {
        merkle_step(
            merkle_root(leaf, siblings.drop_last(), directions.drop_last(), compress),
            siblings.last(),
            directions.last(),
            compress,
        )
    }
}

/// A path with no level leads from a leaf to the leaf itself.
pub proof fn lemma_root_of_no_level(leaf: nat, compress: HashParams)
    ensures
        merkle_root(leaf, Seq::<nat>::empty(), Seq::<bool>::empty(), compress) == leaf,
{
}

/// One more level on top of a path compresses the root of the path with the
/// sibling of that level.
pub proof fn lemma_root_of_one_more_level(
    leaf: nat,
    siblings: Seq<nat>,
    directions: Seq<bool>,
    sibling: nat,
    right: bool,
    compress: HashParams,
)
    ensures
        merkle_root(leaf, siblings.push(sibling), directions.push(right), compress) == merkle_step(
            merkle_root(leaf, siblings, directions, compress),
            sibling,
            right,
            compress,
        ),
{
    assert(siblings.push(sibling).drop_last() == siblings);
    assert(directions.push(right).drop_last() == directions);
}

/// An authentication path of depth `H`: one sibling and one direction bit for
/// each level, from the level of the leaf upwards. A direction bit is set
/// where the running value is the second input of the compression.
#[derive(Debug)]
pub struct MerklePath<const H: usize> {
    pub(crate) siblings: Vec<FieldElement>,
    pub(crate) directions: Vec<bool>,
}

impl<const H: usize> MerklePath<H> {
    /// The siblings, as integers.
    pub closed spec fn sibling_values(&self) -> Seq<nat> {
        values(self.siblings@)
    }

    /// The direction bits.
    pub closed spec fn direction_bits(&self) -> Seq<bool> {
        self.directions@
    }

    /// A path holds exactly `H` siblings and `H` direction bits.
    #[verifier::type_invariant]
    pub open spec fn wf(&self) -> bool {
        &&& self.sibling_values().len() == H
        &&& self.direction_bits().len() == H
    }

    /// The path made of the given siblings and direction bits. Fails with
    /// `ShapeError::PathLength` unless there are exactly `H` of each.
    pub fn new(siblings: Vec<FieldElement>, directions: Vec<bool>) -> (r: Result<
        MerklePath<H>,
        ShapeError,
    >)
        ensures
            r is Ok <==> siblings@.len() == H && directions@.len() == H,
            r matches Ok(path) ==> {
                &&& path.wf()
                &&& path.sibling_values() == values(siblings@)
                &&& path.direction_bits() == directions@
            },
            r matches Err(e) ==> e == ShapeError::PathLength,
    {
        if siblings.len() != H || directions.len() != H {
            Err(ShapeError::PathLength)
        } else {
            Ok(MerklePath::assemble(siblings, directions))
        }
    }

    /// The path made of exactly `H` siblings and `H` direction bits.
    pub(crate) fn assemble(siblings: Vec<FieldElement>, directions: Vec<bool>) -> (r: MerklePath<
        H,
    >)
        requires
            siblings@.len() == H,
            directions@.len() == H,
        ensures
            r.wf(),
            r.sibling_values() == values(siblings@),
            r.direction_bits() == directions@,
    {
        MerklePath { siblings, directions }
    }

    /// The siblings, from the level of the leaf upwards.
    pub fn siblings(&self) -> (r: &Vec<FieldElement>)
        ensures
            values(r@) == self.sibling_values(),
            r@.len() == H,
    {
        proof {
            use_type_invariant(self);
        }
        &self.siblings
    }

    /// The direction bits, from the level of the leaf upwards.
    pub fn directions(&self) -> (r: &Vec<bool>)
        ensures
            r@ == self.direction_bits(),
            r@.len() == H,
    {
        proof {
            use_type_invariant(self);
        }
        &self.directions
    }

    /// The root that `leaf` leads to along this path, each level compressed
    /// under `compress`. Fails with `ShapeError::HashWidth` if there is a
    /// level to compress and the state of `compress` is too narrow for two
    /// inputs.
    pub fn root(&self, leaf: &FieldElement, compress: &HashParams) -> (r: Result<
        FieldElement,
        ShapeError,
    >)
        ensures
            r is Ok <==> H == 0 || compress.width() >= 2,
            r matches Ok(root) ==> root@ == merkle_root(
                leaf@,
                self.sibling_values(),
                self.direction_bits(),
                *compress,
            ),
            r matches Err(e) ==> e == ShapeError::HashWidth,
    {
        proof {
            use_type_invariant(self);
            lemma_native_values(self.siblings@, self.directions@);
        }
        if H > 0 && compress.state_width() < 2 {
            Err(ShapeError::HashWidth)
        } else {
            Ok(
                c_merkle_root::<Native>(
                    *leaf,
                    self.siblings.as_slice(),
                    self.directions.as_slice(),
                    compress,
                ),
            )
        }
    }

    /// The root that `leaf` leads to along this path, each level compressed
    /// under the compression parameters of a mixer.
    pub fn root_under(&self, leaf: &FieldElement, params: &MixerParams) -> (r: FieldElement)
        ensures
            r@ == merkle_root(
                leaf@,
                self.sibling_values(),
                self.direction_bits(),
                params.compress_params(),
            ),
    {
        proof {
            use_type_invariant(self);
            lemma_native_values(self.siblings@, self.directions@);
        }
        c_merkle_root::<Native>(
            *leaf,
            self.siblings.as_slice(),
            self.directions.as_slice(),
            params.compress(),
        )
    }
}

} // verus!
