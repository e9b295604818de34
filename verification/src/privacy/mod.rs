//! Private tips: the sender deposits against a commitment that hides the
//! creator; the creator withdraws by revealing the commitment's opening and
//! spending a nullifier.

pub mod commitment;
pub mod zk_proof;

use vstd::prelude::*;
use crate::types::{Address, Bytes32};
use crate::contract::{runs_as, Outcome, TipJarContract, TipJarState};
use crate::effects::{Effect, Party, TipJarEvent};
use crate::privacy::commitment::commitment_of;
use crate::privacy::zk_proof::{mark_nullifier_used, nullifier_used_in, verify_private_tip};
use crate::TipJarError;

verus! {

/// A private tip as the sender publishes it.
#[derive(Clone, Copy, Debug, PartialEq, Eq)]
pub struct PrivateTip {
    /// `H(creator || amount || blinding_factor)`.
    pub commitment: Bytes32,
    /// Spent when the tip is withdrawn.
    pub nullifier: Bytes32,
}

/// What the creator reveals to withdraw a private tip.
#[derive(Clone, Copy, Debug, PartialEq, Eq)]
pub struct CommitmentOpening {
    /// The creator.
    pub creator: Address,
    /// The committed amount.
    pub amount: i128,
    /// The blinding factor.
    pub blinding_factor: Bytes32,
}

/// `private_tip`: take `amount` of `token` from `sender` into escrow and
/// store it under the (new) commitment; nothing names the creator.
pub open spec fn private_tip_outcome(
    s: TipJarState,
    sender: Address,
    token: Address,
    tip: PrivateTip,
    amount: i128,
) -> Outcome {
    if amount <= 0 {
        Err(TipJarError::InvalidAmount)
    } else if !s.is_whitelisted(token) {
        Err(TipJarError::TokenNotWhitelisted)
    } else if s.privacy_commitments.contains_key(tip.commitment) {
        Err(TipJarError::InvalidAmount)
    } else {
        Ok(
            (
                TipJarState {
                    privacy_commitments: s.privacy_commitments.insert(tip.commitment, (token, amount)),
                    ..s
                },
                seq![
                    Effect::Transfer { token, from: Party::Holder(sender), to: Party::Jar, amount },
                    Effect::Publish(
                        TipJarEvent::PrivateTip { commitment: tip.commitment, nullifier: tip.nullifier },
                    ),
                ],
            ),
        )
    }
}

/// `private_withdraw`: with a fresh nullifier and an opening that matches
/// the commitment, pay what is stored under the commitment to the opening's
/// creator, spend the nullifier and drop the commitment.
pub open spec fn private_withdraw_outcome(
    s: TipJarState,
    tip: PrivateTip,
    opening: CommitmentOpening,
) -> Outcome {
    if nullifier_used_in(s, tip.nullifier) || tip.commitment.bytes@ != commitment_of(
        opening.creator,
        opening.amount,
        opening.blinding_factor,
    ) {
        Err(TipJarError::Unauthorized)
    } else if !s.privacy_commitments.contains_key(tip.commitment) {
        Err(TipJarError::NothingToWithdraw)
    } else {
        let (token, amount) = s.privacy_commitments[tip.commitment];
        Ok(
            (
                TipJarState {
                    privacy_nullifiers: s.privacy_nullifiers.insert(tip.nullifier, true),
                    privacy_commitments: s.privacy_commitments.remove(tip.commitment),
                    ..s
                },
                seq![
                    Effect::Transfer { token, from: Party::Jar, to: Party::Holder(opening.creator), amount },
                    Effect::Publish(TipJarEvent::PrivateWithdraw { creator: opening.creator, amount }),
                ],
            ),
        )
    }
}

impl TipJarContract {
    /// Deposits a private tip commitment into escrow.
    ///
    /// The returned effects are the transfer from `sender` into escrow and
    /// the event `("priv_tip",)` with data `(commitment, nullifier)`.
    pub fn private_tip(&mut self, sender: Address, token: Address, tip: PrivateTip, amount: i128) -> (r:
        Result<Vec<Effect>, TipJarError>)
        requires
            old(self).wf(),
        ensures
            final(self).wf(),
            runs_as(old(self)@, final(self)@, r, private_tip_outcome(old(self)@, sender, token, tip, amount)),
    {
        if amount <= 0 {
            return Err(TipJarError::InvalidAmount);
        }
        if !self.is_whitelisted(&token) {
            return Err(TipJarError::TokenNotWhitelisted);
        }
        if self.privacy_commitments.contains(&tip.commitment) {
            return Err(TipJarError::InvalidAmount);
        }
        self.privacy_commitments.insert(tip.commitment, (token, amount));
        let mut effects: Vec<Effect> = Vec::new();
        effects.push(Effect::Transfer { token, from: Party::Holder(sender), to: Party::Jar, amount });
        effects.push(
            Effect::Publish(TipJarEvent::PrivateTip { commitment: tip.commitment, nullifier: tip.nullifier }),
        );
        Ok(effects)
    }

    /// Withdraws a private tip by revealing the commitment opening.
    ///
    /// The returned effects are the payout to the opening's creator and the
    /// event `("priv_wdw", creator)` with data `amount`.
    pub fn private_withdraw(&mut self, tip: PrivateTip, opening: CommitmentOpening) -> (r: Result<
        Vec<Effect>,
        TipJarError,
    >)
        requires
            old(self).wf(),
        ensures
            final(self).wf(),
            runs_as(old(self)@, final(self)@, r, private_withdraw_outcome(old(self)@, tip, opening)),
    {
        if verify_private_tip(self, &tip, &opening).is_err() {
            return Err(TipJarError::Unauthorized);
        }
        let (token, amount) = match self.privacy_commitments.get(&tip.commitment) {
            Some(v) => v,
            None => return Err(TipJarError::NothingToWithdraw),
        };
        mark_nullifier_used(self, &tip.nullifier);
        self.privacy_commitments.remove(&tip.commitment);
        let mut effects: Vec<Effect> = Vec::new();
        effects.push(
            Effect::Transfer { token, from: Party::Jar, to: Party::Holder(opening.creator), amount },
        );
        effects.push(Effect::Publish(TipJarEvent::PrivateWithdraw { creator: opening.creator, amount }));
        Ok(effects)
    }
}

} // verus!
