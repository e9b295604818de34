//! Laws that say, for every input, exactly what each operation of the jar
//! answers: when it is accepted, which error it gives otherwise, the outside
//! work it asks for, and what it changes in storage (and that it changes
//! nothing else). Each is written out in terms of the inputs, apart from
//! the transition specifications that the operations implement.

use vstd::prelude::*;
use crate::types::{Address, Bytes32};
use crate::contract::{Outcome, TipJarState};
use crate::effects::{Effect, Party, TipJarEvent};
use crate::bridge::BridgeTip;
use crate::bridge::relayer::{bridge_tip_fits, bridge_tip_outcome};
use crate::bridge::validator::processed_in;
use crate::privacy::{private_tip_outcome, private_withdraw_outcome, CommitmentOpening, PrivateTip};
use crate::privacy::commitment::{commitment_of, commitment_preimage, sha256_digest};
use crate::privacy::zk_proof::nullifier_used_in;
use crate::laws::{next_effects, next_state};
use crate::TipJarError;

verus! {

/// The outcome is the refusal `e`.
pub open spec fn refused_with(o: Outcome, e: TipJarError) -> bool {
    o == Err::<(TipJarState, Seq<Effect>), TipJarError>(e)
}

/// `init` is accepted exactly when no administrator is stored, and then
/// only stores `admin`; otherwise it answers `AlreadyInitialized`.
pub proof fn law_init_exact(s: TipJarState, admin: Address)
    ensures
        s.admin is None ==> s.init_outcome(admin) == Ok::<TipJarState, TipJarError>(
            TipJarState { admin: Some(admin), ..s },
        ),
        s.admin is Some ==> s.init_outcome(admin) == Err::<TipJarState, TipJarError>(
            TipJarError::AlreadyInitialized,
        ),
{
}

/// `add_token` is accepted exactly when `caller` is the stored
/// administrator (otherwise `Unauthorized`); it then whitelists `token` and
/// leaves the flag of every other token, and everything else, as it was.
pub proof fn law_add_token_exact(s: TipJarState, caller: Address, token: Address, other: Address)
    ensures
        s.admin != Some(caller) ==> s.add_token_outcome(caller, token) == Err::<TipJarState, TipJarError>(
            TipJarError::Unauthorized,
        ),
        s.admin == Some(caller) ==> {
            let n = s.add_token_outcome(caller, token)->Ok_0;
            &&& s.add_token_outcome(caller, token) is Ok
            &&& n.is_whitelisted(token)
            &&& other != token ==> n.is_whitelisted(other) == s.is_whitelisted(other)
            &&& other != token ==> n.token_whitelist.contains_key(other) == s.token_whitelist.contains_key(other)
            &&& n.token_whitelist.remove(token) == s.token_whitelist.remove(token)
            &&& n == TipJarState { token_whitelist: n.token_whitelist, ..s }
        },
{
    if s.admin == Some(caller) {
        let n = s.add_token_outcome(caller, token)->Ok_0;
        assert(n.token_whitelist.remove(token) =~= s.token_whitelist.remove(token));
    }
}

/// `tip`: a non-positive amount is refused with `InvalidAmount`, an unlisted
/// token with `TokenNotWhitelisted`. Otherwise the tip is accepted and asks
/// for exactly two things: the transfer of `amount` of `token` from the
/// sender into the jar, then the event `("tip", creator)` carrying the
/// sender and the tip's own `amount`. The creator's withdrawable balance
/// and total in `token` grow by `amount`; no other pair and nothing else
/// changes.
pub proof fn law_tip_exact(s: TipJarState, sender: Address, creator: Address, token: Address, amount: i128)
    requires
        s.tip_fits(creator, token, amount),
    ensures
        amount <= 0 ==> refused_with(s.tip_outcome(sender, creator, token, amount), TipJarError::InvalidAmount),
        amount > 0 && !s.is_whitelisted(token) ==> refused_with(
            s.tip_outcome(sender, creator, token, amount),
            TipJarError::TokenNotWhitelisted,
        ),
        amount > 0 && s.is_whitelisted(token) ==> {
            let o = s.tip_outcome(sender, creator, token, amount);
            let n = next_state(o);
            let k = (creator, token);
            &&& o is Ok
            &&& next_effects(o) == seq![
                Effect::Transfer { token, from: Party::Holder(sender), to: Party::Jar, amount },
                Effect::Publish(TipJarEvent::Tip { creator, sender, amount }),
            ]
            &&& n.withdrawable(creator, token) == s.withdrawable(creator, token) + amount
            &&& n.total_tips(creator, token) == s.total_tips(creator, token) + amount
            &&& n.persistent_balances.remove(k) == s.persistent_balances.remove(k)
            &&& n.persistent_totals.remove(k) == s.persistent_totals.remove(k)
            &&& n == TipJarState {
                persistent_balances: n.persistent_balances,
                persistent_totals: n.persistent_totals,
                ..s
            }
        },
{
    if amount > 0 && s.is_whitelisted(token) {
        let o = s.tip_outcome(sender, creator, token, amount);
        let n = next_state(o);
        let k = (creator, token);
        assert(n.persistent_balances.remove(k) =~= s.persistent_balances.remove(k));
        assert(n.persistent_totals.remove(k) =~= s.persistent_totals.remove(k));
    }
}

/// `withdraw`: with nothing withdrawable it answers `NothingToWithdraw`.
/// Otherwise it pays out the whole withdrawable balance `w`: it asks for the
/// transfer of `w` of `token` from the jar to the creator, then the event
/// `("withdraw", creator)` carrying `w`, the amount paid. Afterwards nothing
/// is withdrawable in that pair; totals and everything else stay.
pub proof fn law_withdraw_exact(s: TipJarState, creator: Address, token: Address)
    ensures
        s.withdrawable(creator, token) == 0 ==> refused_with(
            s.withdraw_outcome(creator, token),
            TipJarError::NothingToWithdraw,
        ),
        s.withdrawable(creator, token) != 0 ==> {
            let o = s.withdraw_outcome(creator, token);
            let n = next_state(o);
            let w = s.withdrawable(creator, token);
            let k = (creator, token);
            &&& o is Ok
            &&& next_effects(o) == seq![
                Effect::Transfer { token, from: Party::Jar, to: Party::Holder(creator), amount: w },
                Effect::Publish(TipJarEvent::Withdraw { creator, amount: w }),
            ]
            &&& n.withdrawable(creator, token) == 0
            &&& n.persistent_balances.remove(k) == s.persistent_balances.remove(k)
            &&& n == TipJarState { persistent_balances: n.persistent_balances, ..s }
        },
{
    if s.withdrawable(creator, token) != 0 {
        let o = s.withdraw_outcome(creator, token);
        let n = next_state(o);
        let k = (creator, token);
        assert(n.persistent_balances.remove(k) =~= s.persistent_balances.remove(k));
    }
}

/// `tip_with_fee`: refused as `tip` is. Otherwise it asks for the transfer
/// of the whole `amount` into the jar, then the event `("tip", creator)`
/// carrying `amount - fee`, then the event `("fee", creator)` carrying
/// `(fee, fee_bps)`. The creator's withdrawable balance and total grow by
/// `amount - fee`, the reported fee becomes `fee_bps`; nothing else changes.
pub proof fn law_tip_with_fee_exact(
    s: TipJarState,
    sender: Address,
    creator: Address,
    token: Address,
    amount: i128,
    fee: i128,
    fee_bps: u32,
)
    requires
        s.tip_with_fee_fits(creator, token, amount, fee),
    ensures
        amount <= 0 ==> refused_with(
            s.tip_with_fee_outcome(sender, creator, token, amount, fee, fee_bps),
            TipJarError::InvalidAmount,
        ),
        amount > 0 && !s.is_whitelisted(token) ==> refused_with(
            s.tip_with_fee_outcome(sender, creator, token, amount, fee, fee_bps),
            TipJarError::TokenNotWhitelisted,
        ),
        amount > 0 && s.is_whitelisted(token) ==> {
            let o = s.tip_with_fee_outcome(sender, creator, token, amount, fee, fee_bps);
            let n = next_state(o);
            let k = (creator, token);
            &&& o is Ok
            &&& next_effects(o) == seq![
                Effect::Transfer { token, from: Party::Holder(sender), to: Party::Jar, amount },
                Effect::Publish(TipJarEvent::Tip { creator, sender, amount: (amount - fee) as i128 }),
                Effect::Publish(TipJarEvent::Fee { creator, fee, fee_bps }),
            ]
            &&& n.withdrawable(creator, token) == s.withdrawable(creator, token) + amount - fee
            &&& n.total_tips(creator, token) == s.total_tips(creator, token) + amount - fee
            &&& n.fee_bps() == fee_bps
            &&& n.persistent_balances.remove(k) == s.persistent_balances.remove(k)
            &&& n.persistent_totals.remove(k) == s.persistent_totals.remove(k)
            &&& n == TipJarState {
                persistent_balances: n.persistent_balances,
                persistent_totals: n.persistent_totals,
                current_fee_bps: Some(fee_bps),
                ..s
            }
        },
{
    if amount > 0 && s.is_whitelisted(token) {
        let o = s.tip_with_fee_outcome(sender, creator, token, amount, fee, fee_bps);
        let n = next_state(o);
        let k = (creator, token);
        assert(n.persistent_balances.remove(k) =~= s.persistent_balances.remove(k));
        assert(n.persistent_totals.remove(k) =~= s.persistent_totals.remove(k));
    }
}

/// `bridge_tip`: from anyone but the stored relayer it answers
/// `Unauthorized`; from the relayer, a non-positive amount or an already
/// processed source transaction gets `InvalidAmount`, and a missing bridge
/// token `TokenNotWhitelisted`. In every other case, whatever the source
/// chain, the tip is accepted: it asks for the transfer of the amount of the
/// bridge token from the relayer into the jar, then the event
/// `("bridge", creator)` carrying the chain, the hash and the amount; the
/// creator's withdrawable balance and total in the bridge token grow by the
/// amount, the hash becomes processed, and nothing else changes.
pub proof fn law_bridge_tip_exact(s: TipJarState, relayer: Address, tip: BridgeTip)
    requires
        bridge_tip_fits(s, relayer, tip),
    ensures
        s.bridge_relayer != Some(relayer) ==> refused_with(
            bridge_tip_outcome(s, relayer, tip),
            TipJarError::Unauthorized,
        ),
        s.bridge_relayer == Some(relayer) && (tip.amount <= 0 || processed_in(s, tip.source_tx_hash))
            ==> refused_with(bridge_tip_outcome(s, relayer, tip), TipJarError::InvalidAmount),
        s.bridge_relayer == Some(relayer) && tip.amount > 0 && !processed_in(s, tip.source_tx_hash)
            && s.bridge_token is None ==> refused_with(
            bridge_tip_outcome(s, relayer, tip),
            TipJarError::TokenNotWhitelisted,
        ),
        s.bridge_relayer == Some(relayer) && tip.amount > 0 && !processed_in(s, tip.source_tx_hash)
            && s.bridge_token is Some ==> {
            let o = bridge_tip_outcome(s, relayer, tip);
            let n = next_state(o);
            let token = s.bridge_token->0;
            let k = (tip.creator, token);
            &&& o is Ok
            &&& next_effects(o) == seq![
                Effect::Transfer { token, from: Party::Holder(relayer), to: Party::Jar, amount: tip.amount },
                Effect::Publish(
                    TipJarEvent::Bridge {
                        creator: tip.creator,
                        source_chain: tip.source_chain,
                        source_tx_hash: tip.source_tx_hash,
                        amount: tip.amount,
                    },
                ),
            ]
            &&& n.withdrawable(tip.creator, token) == s.withdrawable(tip.creator, token) + tip.amount
            &&& n.total_tips(tip.creator, token) == s.total_tips(tip.creator, token) + tip.amount
            &&& processed_in(n, tip.source_tx_hash)
            &&& n.bridge_processed.remove(tip.source_tx_hash) == s.bridge_processed.remove(tip.source_tx_hash)
            &&& n.persistent_balances.remove(k) == s.persistent_balances.remove(k)
            &&& n.persistent_totals.remove(k) == s.persistent_totals.remove(k)
            &&& n == TipJarState {
                persistent_balances: n.persistent_balances,
                persistent_totals: n.persistent_totals,
                bridge_processed: n.bridge_processed,
                ..s
            }
        },
{
    if s.bridge_relayer == Some(relayer) && tip.amount > 0 && !processed_in(s, tip.source_tx_hash)
        && s.bridge_token is Some {
        let o = bridge_tip_outcome(s, relayer, tip);
        let n = next_state(o);
        let k = (tip.creator, s.bridge_token->0);
        assert(n.persistent_balances.remove(k) =~= s.persistent_balances.remove(k));
        assert(n.persistent_totals.remove(k) =~= s.persistent_totals.remove(k));
        assert(n.bridge_processed.remove(tip.source_tx_hash) =~= s.bridge_processed.remove(tip.source_tx_hash));
    }
}

/// `private_tip`: a non-positive amount or a commitment already held gets
/// `InvalidAmount`, an unlisted token `TokenNotWhitelisted`. Otherwise it
/// asks for the transfer of `amount` of `token` from the sender into the
/// jar, then the event `("priv_tip",)` carrying the commitment and the
/// nullifier; the jar holds `(token, amount)` under the commitment, and
/// nothing else changes (no balance names the creator).
pub proof fn law_private_tip_exact(s: TipJarState, sender: Address, token: Address, tip: PrivateTip, amount: i128)
    ensures
        amount <= 0 ==> refused_with(private_tip_outcome(s, sender, token, tip, amount), TipJarError::InvalidAmount),
        amount > 0 && !s.is_whitelisted(token) ==> refused_with(
            private_tip_outcome(s, sender, token, tip, amount),
            TipJarError::TokenNotWhitelisted,
        ),
        amount > 0 && s.is_whitelisted(token) && s.privacy_commitments.contains_key(tip.commitment) ==> refused_with(
            private_tip_outcome(s, sender, token, tip, amount),
            TipJarError::InvalidAmount,
        ),
        amount > 0 && s.is_whitelisted(token) && !s.privacy_commitments.contains_key(tip.commitment) ==> {
            let o = private_tip_outcome(s, sender, token, tip, amount);
            let n = next_state(o);
            &&& o is Ok
            &&& next_effects(o) == seq![
                Effect::Transfer { token, from: Party::Holder(sender), to: Party::Jar, amount },
                Effect::Publish(TipJarEvent::PrivateTip { commitment: tip.commitment, nullifier: tip.nullifier }),
            ]
            &&& n.privacy_commitments.contains_key(tip.commitment)
            &&& n.privacy_commitments[tip.commitment] == (token, amount)
            &&& n.privacy_commitments.remove(tip.commitment) == s.privacy_commitments.remove(tip.commitment)
            &&& n == TipJarState { privacy_commitments: n.privacy_commitments, ..s }
        },
{
    if amount > 0 && s.is_whitelisted(token) && !s.privacy_commitments.contains_key(tip.commitment) {
        let n = next_state(private_tip_outcome(s, sender, token, tip, amount));
        assert(n.privacy_commitments.remove(tip.commitment) =~= s.privacy_commitments.remove(tip.commitment));
    }
}

/// `private_withdraw`: a spent nullifier, or an opening whose commitment
/// (SHA-256 of the creator's strkey, the amount and the blinding factor) is
/// not the tip's, gets `Unauthorized`; a commitment the jar does not hold
/// gets `NothingToWithdraw`. Otherwise it pays what was deposited under the
/// commitment, in its token, to the opening's creator, then publishes
/// `("priv_wdw", creator)` carrying that amount; the nullifier becomes spent,
/// the commitment is dropped, and nothing else changes.
pub proof fn law_private_withdraw_exact(s: TipJarState, tip: PrivateTip, opening: CommitmentOpening)
    ensures
        nullifier_used_in(s, tip.nullifier) ==> refused_with(
            private_withdraw_outcome(s, tip, opening),
            TipJarError::Unauthorized,
        ),
        tip.commitment.bytes@ != commitment_of(opening.creator, opening.amount, opening.blinding_factor) ==> refused_with(
            private_withdraw_outcome(s, tip, opening),
            TipJarError::Unauthorized,
        ),
        !nullifier_used_in(s, tip.nullifier) && tip.commitment.bytes@ == commitment_of(
            opening.creator,
            opening.amount,
            opening.blinding_factor,
        ) && !s.privacy_commitments.contains_key(tip.commitment) ==> refused_with(
            private_withdraw_outcome(s, tip, opening),
            TipJarError::NothingToWithdraw,
        ),
        !nullifier_used_in(s, tip.nullifier) && tip.commitment.bytes@ == commitment_of(
            opening.creator,
            opening.amount,
            opening.blinding_factor,
        ) && s.privacy_commitments.contains_key(tip.commitment) ==> {
            let o = private_withdraw_outcome(s, tip, opening);
            let n = next_state(o);
            let token = s.privacy_commitments[tip.commitment].0;
            let amount = s.privacy_commitments[tip.commitment].1;
            &&& o is Ok
            &&& next_effects(o) == seq![
                Effect::Transfer { token, from: Party::Jar, to: Party::Holder(opening.creator), amount },
                Effect::Publish(TipJarEvent::PrivateWithdraw { creator: opening.creator, amount }),
            ]
            &&& nullifier_used_in(n, tip.nullifier)
            &&& !n.privacy_commitments.contains_key(tip.commitment)
            &&& n.privacy_commitments.remove(tip.commitment) == s.privacy_commitments.remove(tip.commitment)
            &&& n.privacy_nullifiers.remove(tip.nullifier) == s.privacy_nullifiers.remove(tip.nullifier)
            &&& n == TipJarState {
                privacy_commitments: n.privacy_commitments,
                privacy_nullifiers: n.privacy_nullifiers,
                ..s
            }
        },
{
    if !nullifier_used_in(s, tip.nullifier) && tip.commitment.bytes@ == commitment_of(
        opening.creator,
        opening.amount,
        opening.blinding_factor,
    ) && s.privacy_commitments.contains_key(tip.commitment) {
        let n = next_state(private_withdraw_outcome(s, tip, opening));
        assert(n.privacy_commitments.remove(tip.commitment) =~= s.privacy_commitments.remove(tip.commitment));
        assert(n.privacy_nullifiers.remove(tip.nullifier) =~= s.privacy_nullifiers.remove(tip.nullifier));
    }
}

/// `upgrade`: without an administrator it answers `UpgradeUnauthorized`;
/// otherwise it asks for the code update to `hash`, then the event
/// `("upgraded",)` carrying the new version, one more than the old; the
/// version is all that changes in storage.
pub proof fn law_upgrade_exact(s: TipJarState, hash: Bytes32)
    requires
        s.contract_version < u32::MAX,
    ensures
        s.admin is None ==> refused_with(s.upgrade_outcome(hash), TipJarError::UpgradeUnauthorized),
        s.admin is Some ==> {
            let o = s.upgrade_outcome(hash);
            &&& o is Ok
            &&& next_effects(o) == seq![
                Effect::UpdateWasm { wasm_hash: hash },
                Effect::Publish(TipJarEvent::Upgraded { version: (s.contract_version + 1) as u32 }),
            ]
            &&& next_state(o) == TipJarState { contract_version: (s.contract_version + 1) as u32, ..s }
        },
{
}

/// `set_offchain_condition` changes only the flag of its condition.
pub proof fn law_set_offchain_exact(s: TipJarState, id: Bytes32, approved: bool)
    ensures
        ({
            let n = s.set_offchain_outcome(id, approved);
            &&& n.offchain_flag(id) == approved
            &&& n.offchain_conditions.remove(id) == s.offchain_conditions.remove(id)
            &&& n == TipJarState { offchain_conditions: n.offchain_conditions, ..s }
        }),
{
    let n = s.set_offchain_outcome(id, approved);
    assert(n.offchain_conditions.remove(id) =~= s.offchain_conditions.remove(id));
}

/// What a commitment hashes is 104 bytes: the creator's 56 strkey bytes in
/// order, then the amount as 16 bytes, most significant first, in two's
/// complement, then the blinding factor's 32 bytes in their given order.
/// The commitment is the SHA-256 digest of those bytes.
pub proof fn law_commitment_layout(creator: Address, amount: i128, blinding_factor: Bytes32)
    ensures
        commitment_preimage(creator, amount, blinding_factor).len() == 104,
        forall|i: int| 0 <= i < 56 ==> #[trigger] commitment_preimage(creator, amount, blinding_factor)[i]
            == creator.strkey[i],
        forall|j: int| 0 <= j < 16 ==> #[trigger] commitment_preimage(creator, amount, blinding_factor)[56 + j]
            == ((amount as u128) >> ((8 * (15 - j)) as u128)) as u8,
        forall|k: int| 0 <= k < 32 ==> #[trigger] commitment_preimage(creator, amount, blinding_factor)[72 + k]
            == blinding_factor.bytes[k],
        commitment_of(creator, amount, blinding_factor) == sha256_digest(
            commitment_preimage(creator, amount, blinding_factor),
        ),
{
}

/// What the getters read: a balance or total comes from the persistent
/// tier when that holds the pair, else from the instance tier, else it is
/// 0; a token is whitelisted when its flag is stored as `true`; the fee is
/// the last applied rate, 100 basis points before any; a source hash is
/// processed, and a nullifier spent, when stored as `true`.
pub proof fn law_reads(s: TipJarState, creator: Address, token: Address, h: Bytes32)
    ensures
        s.withdrawable(creator, token) == (if s.persistent_balances.contains_key((creator, token)) {
            s.persistent_balances[(creator, token)]
        } else if s.instance_balances.contains_key((creator, token)) {
            s.instance_balances[(creator, token)]
        } else {
            0
        }),
        s.total_tips(creator, token) == (if s.persistent_totals.contains_key((creator, token)) {
            s.persistent_totals[(creator, token)]
        } else if s.instance_totals.contains_key((creator, token)) {
            s.instance_totals[(creator, token)]
        } else {
            0
        }),
        s.is_whitelisted(token) == (s.token_whitelist.contains_key(token) && s.token_whitelist[token]),
        s.fee_bps() == (if s.current_fee_bps is Some { s.current_fee_bps->0 } else { 100 }),
        processed_in(s, h) == (s.bridge_processed.contains_key(h) && s.bridge_processed[h]),
        nullifier_used_in(s, h) == (s.privacy_nullifiers.contains_key(h) && s.privacy_nullifiers[h]),
{
}

} // verus!
