//! What can go wrong before and during the evaluation of the withdrawal
//! relation.

use vstd::prelude::*;

verus! {

/// A malformed input. Shape errors are raised while values are being built,
/// before any part of the relation is evaluated.
#[derive(Clone, Copy, Debug, PartialEq, Eq, Structural)]
pub enum ShapeError {
    /// Four limbs that encode an integer at or above the field modulus.
    OutOfField,
    /// An authentication path whose sibling or direction list does not have
    /// exactly the depth of the tree.
    PathLength,
    /// Hash parameters whose state is too narrow for the inputs of the call
    /// they are meant for.
    HashWidth,
    /// A state wider than the widest that tables are generated for.
    StateWidth,
    /// More rounds than the most that tables are generated for.
    RoundCount,
    /// Hash parameters whose tables do not have the sizes that the width and
    /// the round counts ask for.
    HashTables,
    /// One instantiation of the hash given both for the hashes of a note and
    /// for the compression of tree levels.
    SharedParams,
}

/// A well-formed witness that fails the withdrawal relation: the variant names
/// the first check, in the order nullifier, root, memo, that does not hold.
#[derive(Clone, Copy, Debug, PartialEq, Eq, Structural)]
pub enum RelationViolation {
    /// The declared nullifier is not the one derived from the note.
    Nullifier,
    /// The declared root is not the one the authentication path leads to.
    Root,
    /// The memo is the field element `-1`.
    Memo,
}

} // verus!
