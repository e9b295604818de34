//! Checks on the withdrawal of a private tip: the nullifier must be fresh
//! and the opening must match the commitment.

use vstd::prelude::*;
use crate::types::Bytes32;
use crate::privacy::{CommitmentOpening, PrivateTip};
use crate::privacy::commitment::{commitment_of, verify_opening};
use crate::contract::{TipJarContract, TipJarState};

verus! {

/// Whether `nullifier` was spent.
pub open spec fn nullifier_used_in(s: TipJarState, nullifier: Bytes32) -> bool {
    s.privacy_nullifiers.contains_key(nullifier) && s.privacy_nullifiers[nullifier]
}

/// Verifies a private tip: the nullifier has not been used and the
/// commitment opens correctly.
pub fn verify_private_tip(jar: &TipJarContract, tip: &PrivateTip, opening: &CommitmentOpening) -> (r:
    Result<(), &'static str>)
    requires
        jar.wf(),
    ensures
        nullifier_used_in(jar@, tip.nullifier) ==> (r matches Err(m) && m@ == "nullifier already used"@),
        !nullifier_used_in(jar@, tip.nullifier) && tip.commitment.bytes@ != commitment_of(
            opening.creator,
            opening.amount,
            opening.blinding_factor,
        ) ==> (r matches Err(m) && m@ == "invalid commitment opening"@),
        r is Ok <==> !nullifier_used_in(jar@, tip.nullifier) && tip.commitment.bytes@ == commitment_of(
            opening.creator,
            opening.amount,
            opening.blinding_factor,
        ),
{
    if is_nullifier_used(jar, &tip.nullifier) {
        return Err("nullifier already used");
    }
    if !verify_opening(&tip.commitment, opening) {
        return Err("invalid commitment opening");
    }
    Ok(())
}

/// Marks a nullifier as used.
pub fn mark_nullifier_used(jar: &mut TipJarContract, nullifier: &Bytes32)
    requires
        old(jar).wf(),
    ensures
        final(jar).wf(),
        final(jar)@ == (TipJarState {
            privacy_nullifiers: old(jar)@.privacy_nullifiers.insert(*nullifier, true),
            ..old(jar)@
        }),
{
    jar.privacy_nullifiers.insert(*nullifier, true);
}

/// Returns true if the nullifier has already been used.
pub fn is_nullifier_used(jar: &TipJarContract, nullifier: &Bytes32) -> (r: bool)
    requires
        jar.wf(),
    ensures
        r == nullifier_used_in(jar@, *nullifier),
{
    match jar.privacy_nullifiers.get(nullifier) {
        Some(b) => b,
        None => false,
    }
}

} // verus!
