//! Crediting tips that the authorised relayer brings from other chains.

use vstd::prelude::*;
use crate::types::{Address, SameKey};
use crate::bridge::BridgeTip;
use crate::bridge::validator::{mark_processed, processed_in, validate_bridge_tip};
use crate::contract::{runs_as, Outcome, TipJarContract, TipJarState};
use crate::effects::{Effect, Party, TipJarEvent};
use crate::TipJarError;

verus! {

/// What processing `tip` from `relayer` does: check the relayer, the amount
/// and the replay guard, take the amount from the relayer into escrow in
/// the bridge token, credit the creator's withdrawable balance and total by
/// the amount (written where `tip` writes, so reads see them), and mark the
/// source transaction processed.
pub open spec fn bridge_tip_outcome(s: TipJarState, relayer: Address, tip: BridgeTip) -> Outcome {
    if s.bridge_relayer != Some(relayer) {
        Err(TipJarError::Unauthorized)
    } else if tip.amount <= 0 || processed_in(s, tip.source_tx_hash) {
        Err(TipJarError::InvalidAmount)
    } else if s.bridge_token is None {
        Err(TipJarError::TokenNotWhitelisted)
    } else {
        let token = s.bridge_token->0;
        let k = (tip.creator, token);
        Ok(
            (
                TipJarState {
                    persistent_balances: s.persistent_balances.insert(
                        k,
                        (s.withdrawable(tip.creator, token) + tip.amount) as i128,
                    ),
                    persistent_totals: s.persistent_totals.insert(
                        k,
                        (s.total_tips(tip.creator, token) + tip.amount) as i128,
                    ),
                    bridge_processed: s.bridge_processed.insert(tip.source_tx_hash, true),
                    ..s
                },
                seq![
                    Effect::Transfer {
                        token,
                        from: Party::Holder(relayer),
                        to: Party::Jar,
                        amount: tip.amount,
                    },
                    Effect::Publish(
                        TipJarEvent::Bridge {
                            creator: tip.creator,
                            source_chain: tip.source_chain,
                            source_tx_hash: tip.source_tx_hash,
                            amount: tip.amount,
                        },
                    ),
                ],
            ),
        )
    }
}

/// Where crediting `tip` from `relayer` takes place, the sums it computes
/// fit in an `i128`.
pub open spec fn bridge_tip_fits(s: TipJarState, relayer: Address, tip: BridgeTip) -> bool {
    s.bridge_token matches Some(token) ==> (s.bridge_relayer == Some(relayer) && tip.amount > 0
        && !processed_in(s, tip.source_tx_hash) ==> {
        &&& s.withdrawable(tip.creator, token) + tip.amount <= i128::MAX
        &&& s.total_tips(tip.creator, token) + tip.amount <= i128::MAX
    })
}

/// Processes a bridged tip submitted by the authorised relayer (whose
/// authorisation the host checks first).
///
/// The returned effects are the transfer from the relayer into escrow and
/// the event `("bridge", creator)` with data
/// `(source_chain, source_tx_hash, amount)`.
pub fn process_bridge_tip(jar: &mut TipJarContract, relayer: &Address, tip: &BridgeTip) -> (r:
    Result<Vec<Effect>, TipJarError>)
    requires
        old(jar).wf(),
        bridge_tip_fits(old(jar)@, *relayer, *tip),
    ensures
        final(jar).wf(),
        runs_as(old(jar)@, final(jar)@, r, bridge_tip_outcome(old(jar)@, *relayer, *tip)),
{
    let stored_relayer = match jar.bridge_relayer {
        Some(a) => a,
        None => return Err(TipJarError::Unauthorized),
    };
    if !relayer.same_key(&stored_relayer) {
        return Err(TipJarError::Unauthorized);
    }
    if validate_bridge_tip(jar, &tip.source_chain, &tip.source_tx_hash, tip.amount).is_err() {
        return Err(TipJarError::InvalidAmount);
    }
    let token = match jar.bridge_token {
        Some(t) => t,
        None => return Err(TipJarError::TokenNotWhitelisted),
    };
    let key = (tip.creator, token);
    let balance = jar.get_withdrawable_balance(tip.creator, token) + tip.amount;
    let total = jar.get_total_tips(tip.creator, token) + tip.amount;
    jar.persistent_balances.insert(key, balance);
    jar.persistent_totals.insert(key, total);
    mark_processed(jar, &tip.source_tx_hash);
    let mut effects: Vec<Effect> = Vec::new();
    effects.push(Effect::Transfer { token, from: Party::Holder(*relayer), to: Party::Jar, amount: tip.amount });
    effects.push(
        Effect::Publish(
            TipJarEvent::Bridge {
                creator: tip.creator,
                source_chain: tip.source_chain,
                source_tx_hash: tip.source_tx_hash,
                amount: tip.amount,
            },
        ),
    );
    Ok(effects)
}

} // verus!
