//! The domain tags that keep the two hashes of a note apart.

use vstd::prelude::*;

verus! {

/// The domain tag of the leaf hash of a note: the bytes of `note_hash`.
pub const SEED_NOTE_HASH: [u8; 9] = [110, 111, 116, 101, 95, 104, 97, 115, 104];

/// The domain tag of the nullifier of a note: the bytes of `nullifier`.
pub const SEED_NULLIFIER: [u8; 9] = [110, 117, 108, 108, 105, 102, 105, 101, 114];

/// The two tags differ, so the leaf hash and the nullifier of one note are
/// hashes of different inputs.
pub proof fn lemma_tags_differ()
    ensures
        SEED_NOTE_HASH@ != SEED_NULLIFIER@,
{
    assert(SEED_NOTE_HASH@[1] == 111);
    assert(SEED_NULLIFIER@[1] == 117);
}

} // verus!
