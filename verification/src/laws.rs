//! Laws of the tip jar: properties that span operations, proved over the
//! transition specifications that the operations implement.

use vstd::prelude::*;
use crate::types::{Address, Bytes32};
use crate::contract::{TipJarState, Outcome};
use crate::effects::{Effect, Party, TipJarEvent};
use crate::bridge::BridgeTip;
use crate::bridge::relayer::{bridge_tip_fits, bridge_tip_outcome};
use crate::privacy::{private_tip_outcome, private_withdraw_outcome, CommitmentOpening, PrivateTip};
use crate::privacy::commitment::commitment_of;
use crate::privacy::zk_proof::nullifier_used_in;
use crate::bridge::validator::processed_in;
use crate::TipJarError;

verus! {

/// The storage after an outcome that succeeded.
pub open spec fn next_state(o: Outcome) -> TipJarState {
    o->Ok_0.0
}

/// The outside work of an outcome that succeeded.
pub open spec fn next_effects(o: Outcome) -> Seq<Effect> {
    o->Ok_0.1
}

/// A tip is accepted exactly when its amount is positive and its token is
/// whitelisted; then the sender pays exactly `amount` into escrow, and the
/// creator's withdrawable balance and total in that token both grow by
/// `amount`, while every other balance and total stays as it was.
pub proof fn law_tip_credits_creator(
    s: TipJarState,
    sender: Address,
    creator: Address,
    token: Address,
    amount: i128,
    other_creator: Address,
    other_token: Address,
)
    requires
        s.tip_fits(creator, token, amount),
    ensures
        s.tip_outcome(sender, creator, token, amount) is Ok <==> amount > 0 && s.is_whitelisted(token),
        s.tip_outcome(sender, creator, token, amount) is Ok ==> {
            let n = next_state(s.tip_outcome(sender, creator, token, amount));
            &&& next_effects(s.tip_outcome(sender, creator, token, amount))[0] == Effect::Transfer {
                token,
                from: Party::Holder(sender),
                to: Party::Jar,
                amount,
            }
            &&& n.withdrawable(creator, token) == s.withdrawable(creator, token) + amount
            &&& n.total_tips(creator, token) == s.total_tips(creator, token) + amount
            &&& (other_creator, other_token) != (creator, token) ==> {
                &&& n.withdrawable(other_creator, other_token) == s.withdrawable(other_creator, other_token)
                &&& n.total_tips(other_creator, other_token) == s.total_tips(other_creator, other_token)
            }
        },
{
}

/// A withdrawal pays out the creator's whole withdrawable balance and
/// leaves it at zero; totals are not touched. It is refused exactly when
/// there is nothing to withdraw.
pub proof fn law_withdraw_clears_balance(s: TipJarState, creator: Address, token: Address, c: Address, t: Address)
    ensures
        s.withdraw_outcome(creator, token) is Err <==> s.withdrawable(creator, token) == 0,
        s.withdraw_outcome(creator, token) is Ok ==> {
            let n = next_state(s.withdraw_outcome(creator, token));
            &&& next_effects(s.withdraw_outcome(creator, token))[0] == Effect::Transfer {
                token,
                from: Party::Jar,
                to: Party::Holder(creator),
                amount: s.withdrawable(creator, token),
            }
            &&& n.withdrawable(creator, token) == 0
            &&& n.total_tips(c, t) == s.total_tips(c, t)
            &&& n.withdraw_outcome(creator, token) == Err::<(TipJarState, Seq<Effect>), TipJarError>(
                TipJarError::NothingToWithdraw,
            )
        },
{
}

/// A withdrawal right after an accepted tip pays the creator what was
/// withdrawable before plus the tip, and leaves nothing withdrawable.
pub proof fn law_tip_then_withdraw(
    s: TipJarState,
    sender: Address,
    creator: Address,
    token: Address,
    amount: i128,
)
    requires
        s.tip_fits(creator, token, amount),
        amount > 0,
        s.is_whitelisted(token),
        s.withdrawable(creator, token) + amount != 0,
    ensures
        ({
            let s1 = next_state(s.tip_outcome(sender, creator, token, amount));
            let w = s1.withdraw_outcome(creator, token);
            &&& w is Ok
            &&& next_effects(w)[0] == Effect::Transfer {
                token,
                from: Party::Jar,
                to: Party::Holder(creator),
                amount: (s.withdrawable(creator, token) + amount) as i128,
            }
            &&& next_state(w).withdrawable(creator, token) == 0
        }),
{
}

/// The state after tipping each of `amounts` in turn from `sender` to
/// `creator` in `token`, or `None` if one of the tips is refused.
pub open spec fn tips_in_order(
    s: TipJarState,
    sender: Address,
    creator: Address,
    token: Address,
    amounts: Seq<i128>,
) -> Option<TipJarState>
    decreases amounts.len(),
{
    if amounts.len() == 0 {
        Some(s)
    } else {
        match tips_in_order(s, sender, creator, token, amounts.drop_last()) {
            Some(m) => match m.tip_outcome(sender, creator, token, amounts.last()) {
                Ok((n, _)) => Some(n),
                Err(_) => None,
            },
            None => None,
        }
    }
}

/// The sum of `amounts`.
pub open spec fn sum_of(amounts: Seq<i128>) -> int
    decreases amounts.len(),
{
    if amounts.len() == 0 { 0 } else { sum_of(amounts.drop_last()) + amounts.last() }
}

proof fn lemma_sum_of_positive_prefix(amounts: Seq<i128>)
    requires
        forall|i: int| 0 <= i < amounts.len() ==> amounts[i] > 0,
    ensures
        sum_of(amounts) >= 0,
        amounts.len() > 0 ==> sum_of(amounts.drop_last()) < sum_of(amounts),
    decreases amounts.len(),
{
    if amounts.len() > 0 {
        lemma_sum_of_positive_prefix(amounts.drop_last());
    }
}

/// Tipping positive amounts one after another in a whitelisted token never
/// fails while the sums fit, and raises the creator's historical total by
/// exactly their sum (so the total never goes down along the way).
pub proof fn law_totals_add_up(
    s: TipJarState,
    sender: Address,
    creator: Address,
    token: Address,
    amounts: Seq<i128>,
)
    requires
        s.is_whitelisted(token),
        forall|i: int| 0 <= i < amounts.len() ==> amounts[i] > 0,
        s.withdrawable(creator, token) + sum_of(amounts) <= i128::MAX,
        s.total_tips(creator, token) + sum_of(amounts) <= i128::MAX,
    ensures
        tips_in_order(s, sender, creator, token, amounts) is Some,
        tips_in_order(s, sender, creator, token, amounts)->0.total_tips(creator, token)
            == s.total_tips(creator, token) + sum_of(amounts),
        tips_in_order(s, sender, creator, token, amounts)->0.withdrawable(creator, token)
            == s.withdrawable(creator, token) + sum_of(amounts),
        tips_in_order(s, sender, creator, token, amounts)->0.is_whitelisted(token),
    decreases amounts.len(),
{
    if amounts.len() > 0 {
        let prefix = amounts.drop_last();
        lemma_sum_of_positive_prefix(amounts);
        assert forall|i: int| 0 <= i < prefix.len() implies prefix[i] > 0 by {
            assert(prefix[i] == amounts[i]);
        }
        law_totals_add_up(s, sender, creator, token, prefix);
        assert(amounts.last() > 0) by {
            assert(amounts.last() == amounts[amounts.len() - 1]);
        }
    }
}

/// `init` succeeds once: afterwards every `init` is refused with
/// `AlreadyInitialized` and the administrator stays.
pub proof fn law_init_once(s: TipJarState, admin: Address, other: Address)
    ensures
        s.admin is None ==> {
            &&& s.init_outcome(admin) == Ok::<TipJarState, TipJarError>(TipJarState { admin: Some(admin), ..s })
            &&& s.init_outcome(admin)->Ok_0.init_outcome(other) == Err::<TipJarState, TipJarError>(
                TipJarError::AlreadyInitialized,
            )
        },
        s.admin is Some ==> s.init_outcome(other) == Err::<TipJarState, TipJarError>(
            TipJarError::AlreadyInitialized,
        ),
{
}

/// Only the administrator can whitelist a token, and a whitelisted token is
/// then accepted.
pub proof fn law_add_token_whitelists(s: TipJarState, caller: Address, token: Address)
    ensures
        s.add_token_outcome(caller, token) is Ok <==> s.admin == Some(caller),
        s.add_token_outcome(caller, token) is Ok ==> s.add_token_outcome(caller, token)->Ok_0.is_whitelisted(token),
{
}

/// A processed source transaction cannot be credited again: after a bridged
/// tip is accepted, every bridged tip with the same source transaction hash
/// is refused, and one from the authorised relayer with `InvalidAmount`.
pub proof fn law_bridge_replay_rejected(s: TipJarState, relayer: Address, tip: BridgeTip, again: BridgeTip, any_relayer: Address)
    requires
        bridge_tip_outcome(s, relayer, tip) is Ok,
        again.source_tx_hash == tip.source_tx_hash,
    ensures
        bridge_tip_outcome(next_state(bridge_tip_outcome(s, relayer, tip)), any_relayer, again) is Err,
        bridge_tip_outcome(next_state(bridge_tip_outcome(s, relayer, tip)), relayer, again)
            == Err::<(TipJarState, Seq<Effect>), TipJarError>(TipJarError::InvalidAmount),
{
}

/// A bridged tip credits the creator's withdrawable balance and total in the
/// bridge token by its amount, and leaves every other pair as it was.
pub proof fn law_bridge_tip_credits_creator(
    s: TipJarState,
    relayer: Address,
    tip: BridgeTip,
    c: Address,
    t: Address,
)
    requires
        bridge_tip_outcome(s, relayer, tip) is Ok,
        bridge_tip_fits(s, relayer, tip),
    ensures
        ({
            let n = next_state(bridge_tip_outcome(s, relayer, tip));
            let token = s.bridge_token->0;
            &&& n.withdrawable(tip.creator, token) == s.withdrawable(tip.creator, token) + tip.amount
            &&& n.total_tips(tip.creator, token) == s.total_tips(tip.creator, token) + tip.amount
            &&& (c, t) != (tip.creator, token) ==> {
                &&& n.withdrawable(c, t) == s.withdrawable(c, t)
                &&& n.total_tips(c, t) == s.total_tips(c, t)
            }
        }),
{
}

/// A commitment is used once: after a private tip is accepted, another
/// private tip with the same commitment is refused.
pub proof fn law_duplicate_commitment_rejected(
    s: TipJarState,
    sender: Address,
    token: Address,
    tip: PrivateTip,
    amount: i128,
    sender2: Address,
    again: PrivateTip,
    amount2: i128,
)
    requires
        private_tip_outcome(s, sender, token, tip, amount) is Ok,
        again.commitment == tip.commitment,
    ensures
        private_tip_outcome(next_state(private_tip_outcome(s, sender, token, tip, amount)), sender2, token, again, amount2)
            == Err::<(TipJarState, Seq<Effect>), TipJarError>(TipJarError::InvalidAmount),
{
}

/// A private tip does not link the sender to any creator: no withdrawable
/// balance and no total changes.
pub proof fn law_private_tip_keeps_balances(
    s: TipJarState,
    sender: Address,
    token: Address,
    tip: PrivateTip,
    amount: i128,
    c: Address,
    t: Address,
)
    requires
        private_tip_outcome(s, sender, token, tip, amount) is Ok,
    ensures
        next_state(private_tip_outcome(s, sender, token, tip, amount)).withdrawable(c, t) == s.withdrawable(c, t),
        next_state(private_tip_outcome(s, sender, token, tip, amount)).total_tips(c, t) == s.total_tips(c, t),
{
}

/// The creator who opens the commitment of a fresh private tip withdraws
/// exactly what was deposited, in the deposited token.
pub proof fn law_private_round_trip(
    s: TipJarState,
    sender: Address,
    token: Address,
    tip: PrivateTip,
    amount: i128,
    opening: CommitmentOpening,
)
    requires
        private_tip_outcome(s, sender, token, tip, amount) is Ok,
        !nullifier_used_in(s, tip.nullifier),
        tip.commitment.bytes@ == commitment_of(opening.creator, opening.amount, opening.blinding_factor),
    ensures
        ({
            let w = private_withdraw_outcome(next_state(private_tip_outcome(s, sender, token, tip, amount)), tip, opening);
            &&& w is Ok
            &&& next_effects(w)[0] == Effect::Transfer {
                token,
                from: Party::Jar,
                to: Party::Holder(opening.creator),
                amount,
            }
        }),
{
}

/// A private tip cannot be withdrawn twice: after a withdrawal, the same
/// tip is refused with `Unauthorized`, whatever opening is shown.
pub proof fn law_private_double_spend_rejected(
    s: TipJarState,
    tip: PrivateTip,
    opening: CommitmentOpening,
    again: CommitmentOpening,
)
    requires
        private_withdraw_outcome(s, tip, opening) is Ok,
    ensures
        private_withdraw_outcome(next_state(private_withdraw_outcome(s, tip, opening)), tip, again)
            == Err::<(TipJarState, Seq<Effect>), TipJarError>(TipJarError::Unauthorized),
{
}

/// An opening that does not match the commitment is refused with
/// `Unauthorized` and changes nothing.
pub proof fn law_wrong_opening_rejected(s: TipJarState, tip: PrivateTip, opening: CommitmentOpening)
    requires
        tip.commitment.bytes@ != commitment_of(opening.creator, opening.amount, opening.blinding_factor),
    ensures
        private_withdraw_outcome(s, tip, opening) == Err::<(TipJarState, Seq<Effect>), TipJarError>(
            TipJarError::Unauthorized,
        ),
{
}

/// A fresh jar reports version 0 and the base fee; each accepted upgrade
/// raises the version by one.
pub proof fn law_versions_count_upgrades(s: TipJarState, hash: Bytes32)
    requires
        s.contract_version < u32::MAX,
    ensures
        TipJarState::fresh().contract_version == 0,
        TipJarState::fresh().fee_bps() == 100,
        s.upgrade_outcome(hash) is Ok <==> s.admin is Some,
        s.upgrade_outcome(hash) is Ok ==> next_state(s.upgrade_outcome(hash)).contract_version == s.contract_version + 1,
{
}

/// A tip with a fee is accepted exactly when its amount is positive and its
/// token whitelisted; then the sender pays `amount` into escrow, the
/// creator's withdrawable balance and total grow by `amount - fee`, every
/// other pair stays as it was, and the jar reports the tip's fee rate.
pub proof fn law_tip_with_fee_credits_net(
    s: TipJarState,
    sender: Address,
    creator: Address,
    token: Address,
    amount: i128,
    fee: i128,
    fee_bps: u32,
    c: Address,
    t: Address,
)
    requires
        s.tip_with_fee_fits(creator, token, amount, fee),
    ensures
        s.tip_with_fee_outcome(sender, creator, token, amount, fee, fee_bps) is Ok <==> amount > 0
            && s.is_whitelisted(token),
        s.tip_with_fee_outcome(sender, creator, token, amount, fee, fee_bps) is Ok ==> {
            let n = next_state(s.tip_with_fee_outcome(sender, creator, token, amount, fee, fee_bps));
            &&& next_effects(s.tip_with_fee_outcome(sender, creator, token, amount, fee, fee_bps))[0]
                == Effect::Transfer { token, from: Party::Holder(sender), to: Party::Jar, amount }
            &&& n.withdrawable(creator, token) == s.withdrawable(creator, token) + amount - fee
            &&& n.total_tips(creator, token) == s.total_tips(creator, token) + amount - fee
            &&& n.fee_bps() == fee_bps
            &&& (c, t) != (creator, token) ==> {
                &&& n.withdrawable(c, t) == s.withdrawable(c, t)
                &&& n.total_tips(c, t) == s.total_tips(c, t)
            }
        },
{
}

/// An off-chain condition flag reads back as it was last set, and setting
/// one flag leaves the others as they were.
pub proof fn law_offchain_condition_read_back(s: TipJarState, id: Bytes32, approved: bool, other: Bytes32)
    ensures
        s.set_offchain_outcome(id, approved).offchain_flag(id) == approved,
        other != id ==> s.set_offchain_outcome(id, approved).offchain_flag(other) == s.offchain_flag(other),
{
}

/// One operation on a creator's escrow in one token.
pub enum EscrowStep {
    /// `sender` tips `amount`.
    Tip { sender: Address, amount: i128 },
    /// `sender` tips `amount`, of which the jar keeps `fee` (at rate `fee_bps`).
    TipWithFee { sender: Address, amount: i128, fee: i128, fee_bps: u32 },
    /// `relayer` brings the bridged tip `bridged`.
    Bridge { relayer: Address, bridged: BridgeTip },
    /// The creator withdraws.
    Withdraw,
}

/// What one escrow step does to `s`.
pub open spec fn escrow_step(s: TipJarState, creator: Address, token: Address, op: EscrowStep) -> Outcome {
    match op {
        EscrowStep::Tip { sender, amount } => s.tip_outcome(sender, creator, token, amount),
        EscrowStep::TipWithFee { sender, amount, fee, fee_bps } => s.tip_with_fee_outcome(
            sender,
            creator,
            token,
            amount,
            fee,
            fee_bps,
        ),
        EscrowStep::Bridge { relayer, bridged } => bridge_tip_outcome(s, relayer, bridged),
        EscrowStep::Withdraw => s.withdraw_outcome(creator, token),
    }
}

/// Whether the step's call may be made on `s`: its `requires`.
pub open spec fn escrow_admitted(s: TipJarState, creator: Address, token: Address, op: EscrowStep) -> bool {
    match op {
        EscrowStep::Tip { amount, .. } => s.tip_fits(creator, token, amount),
        EscrowStep::TipWithFee { amount, fee, .. } => s.tip_with_fee_fits(creator, token, amount, fee),
        EscrowStep::Bridge { relayer, bridged } => bridge_tip_fits(s, relayer, bridged),
        EscrowStep::Withdraw => true,
    }
}

/// The storage after running `ops` in turn, and all the outside work they
/// asked for; a step whose call cannot be made is passed over, and a
/// refused step changes nothing and asks for nothing.
pub open spec fn run_escrow(s: TipJarState, creator: Address, token: Address, ops: Seq<EscrowStep>) -> (
    TipJarState,
    Seq<Effect>,
)
    decreases ops.len(),
{
    if ops.len() == 0 {
        (s, Seq::empty())
    } else {
        let (m, e) = run_escrow(s, creator, token, ops.drop_last());
        if escrow_admitted(m, creator, token, ops.last()) {
            match escrow_step(m, creator, token, ops.last()) {
                Ok((n, e2)) => (n, e + e2),
                Err(_) => (m, e),
            }
        } else {
            (m, e)
        }
    }
}

/// What `e` moves into the jar in `token`, less what it moves out.
pub open spec fn jar_inflow_of(e: Effect, token: Address) -> int {
    match e {
        Effect::Transfer { token: t, from, to, amount } => if t == token {
            (if to == Party::Jar { amount as int } else { 0 }) - (if from == Party::Jar { amount as int } else { 0 })
        } else {
            0
        },
        _ => 0,
    }
}

/// What `effects` move into the jar in `token`, less what they move out.
pub open spec fn jar_inflow(effects: Seq<Effect>, token: Address) -> int
    decreases effects.len(),
{
    if effects.len() == 0 {
        0
    } else {
        jar_inflow(effects.drop_last(), token) + jar_inflow_of(effects.last(), token)
    }
}

/// The fee that `e` announces the jar keeps.
pub open spec fn fee_kept_of(e: Effect) -> int {
    match e {
        Effect::Publish(TipJarEvent::Fee { fee, .. }) => fee as int,
        _ => 0,
    }
}

/// The fees that `effects` announce the jar keeps.
pub open spec fn fees_kept(effects: Seq<Effect>) -> int
    decreases effects.len(),
{
    if effects.len() == 0 {
        0
    } else {
        fees_kept(effects.drop_last()) + fee_kept_of(effects.last())
    }
}

proof fn lemma_flows_concat(a: Seq<Effect>, b: Seq<Effect>, token: Address)
    ensures
        jar_inflow(a + b, token) == jar_inflow(a, token) + jar_inflow(b, token),
        fees_kept(a + b) == fees_kept(a) + fees_kept(b),
    decreases b.len(),
{
    if b.len() > 0 {
        lemma_flows_concat(a, b.drop_last(), token);
        assert((a + b).drop_last() =~= a + b.drop_last());
    }
}

proof fn lemma_flows_short(e: Seq<Effect>, token: Address)
    requires
        2 <= e.len() <= 3,
    ensures
        jar_inflow(e, token) == jar_inflow_of(e[0], token) + jar_inflow_of(e[1], token) + (if e.len() == 3 {
            jar_inflow_of(e[2], token)
        } else {
            0
        }),
        fees_kept(e) == fee_kept_of(e[0]) + fee_kept_of(e[1]) + (if e.len() == 3 { fee_kept_of(e[2]) } else { 0 }),
{
    let e1 = e.take(1);
    let e2 = e.take(2);
    assert(e1.drop_last() =~= Seq::<Effect>::empty());
    assert(jar_inflow(Seq::<Effect>::empty(), token) == 0);
    assert(fees_kept(Seq::<Effect>::empty()) == 0);
    assert(e1.last() == e[0]);
    assert(e2.drop_last() =~= e1);
    assert(e2.last() == e[1]);
    assert(jar_inflow(e1, token) == jar_inflow_of(e[0], token));
    assert(fees_kept(e1) == fee_kept_of(e[0]));
    assert(jar_inflow(e2, token) == jar_inflow_of(e[0], token) + jar_inflow_of(e[1], token));
    assert(fees_kept(e2) == fee_kept_of(e[0]) + fee_kept_of(e[1]));
    if e.len() == 2 {
        assert(e2 =~= e);
    } else {
        assert(e.drop_last() =~= e2);
    }
}

/// Escrow is conserved: along any run of tips, tips with a fee, bridged
/// tips for the creator and withdrawals by the creator, the creator's
/// withdrawable balance in `token` always equals what it was, plus what
/// entered the jar in that token, less what left it, less the fees the jar
/// announced it keeps. So, from a balance that is not negative, the jar
/// never pays out more than it held for the creator plus what it received
/// less its fees. The creator's total never goes down.
pub proof fn law_escrow_conserved(s: TipJarState, creator: Address, token: Address, ops: Seq<EscrowStep>)
    requires
        forall|i: int|
            0 <= i < ops.len() ==> (#[trigger] ops[i] matches EscrowStep::Bridge { bridged, .. }
                ==> bridged.creator == creator),
    ensures
        ({
            let (n, e) = run_escrow(s, creator, token, ops);
            &&& n.withdrawable(creator, token) == s.withdrawable(creator, token) + jar_inflow(e, token) - fees_kept(e)
            &&& s.withdrawable(creator, token) >= 0 ==> n.withdrawable(creator, token) >= 0
            &&& s.withdrawable(creator, token) >= 0 ==> jar_inflow(e, token) >= fees_kept(e) - s.withdrawable(creator, token)
            &&& n.total_tips(creator, token) >= s.total_tips(creator, token)
        }),
    decreases ops.len(),
{
    if ops.len() > 0 {
        let prefix = ops.drop_last();
        assert forall|i: int| 0 <= i < prefix.len() implies (#[trigger] prefix[i] matches EscrowStep::Bridge {
            bridged,
            ..
        } ==> bridged.creator == creator) by {
            assert(prefix[i] == ops[i]);
        }
        let last = ops.last();
        assert(last == ops[ops.len() - 1]);
        law_escrow_conserved(s, creator, token, prefix);
        let (m, e) = run_escrow(s, creator, token, prefix);
        if escrow_admitted(m, creator, token, last) && escrow_step(m, creator, token, last) is Ok {
            let (n, e2) = escrow_step(m, creator, token, last)->Ok_0;
            lemma_flows_concat(e, e2, token);
            lemma_flows_short(e2, token);
            match last {
                EscrowStep::Tip { sender, amount } => {
                    law_tip_credits_creator(m, sender, creator, token, amount, creator, token);
                },
                EscrowStep::TipWithFee { sender, amount, fee, fee_bps } => {
                    law_tip_with_fee_credits_net(m, sender, creator, token, amount, fee, fee_bps, creator, token);
                },
                EscrowStep::Bridge { relayer, bridged } => {
                    law_bridge_tip_credits_creator(m, relayer, bridged, creator, token);
                },
                EscrowStep::Withdraw => {},
            }
        }
    }
}

/// A call of one of the jar's storage-changing operations.
pub enum JarCall {
    /// `init(admin)`.
    Init { admin: Address },
    /// `add_token(admin, token)`.
    AddToken { admin: Address, token: Address },
    /// `set_offchain_condition(condition_id, approved)`.
    SetOffchainCondition { condition_id: Bytes32, approved: bool },
    /// `tip(sender, creator, token, amount)`.
    Tip { sender: Address, creator: Address, token: Address, amount: i128 },
    /// `withdraw(creator, token)`.
    Withdraw { creator: Address, token: Address },
    /// `tip_with_fee(sender, creator, token, amount, fee, fee_bps)`.
    TipWithFee { sender: Address, creator: Address, token: Address, amount: i128, fee: i128, fee_bps: u32 },
    /// `upgrade(new_wasm_hash)`.
    Upgrade { new_wasm_hash: Bytes32 },
    /// `set_bridge_relayer(relayer, token)`.
    SetBridgeRelayer { relayer: Address, token: Address },
    /// `bridge_tip(relayer, bridged)`.
    BridgeTip { relayer: Address, bridged: BridgeTip },
    /// `private_tip(sender, token, tip, amount)`.
    PrivateTip { sender: Address, token: Address, tip: PrivateTip, amount: i128 },
    /// `private_withdraw(tip, opening)`.
    PrivateWithdraw { tip: PrivateTip, opening: CommitmentOpening },
}

/// Whether the call may be made on `s`: its `requires` beyond well-formedness.
pub open spec fn admitted(s: TipJarState, call: JarCall) -> bool {
    match call {
        JarCall::AddToken { .. } => s.admin is Some,
        JarCall::Tip { creator, token, amount, .. } => s.tip_fits(creator, token, amount),
        JarCall::TipWithFee { creator, token, amount, fee, .. } => s.tip_with_fee_fits(
            creator,
            token,
            amount,
            fee,
        ),
        JarCall::Upgrade { .. } => s.admin is Some ==> s.contract_version < u32::MAX,
        JarCall::SetBridgeRelayer { .. } => s.admin is Some,
        JarCall::BridgeTip { relayer, bridged } => bridge_tip_fits(s, relayer, bridged),
        _ => true,
    }
}

/// The storage after an outcome: the new one on success, `s` on an error.
pub open spec fn settle(s: TipJarState, o: Outcome) -> TipJarState {
    match o {
        Ok((n, _)) => n,
        Err(_) => s,
    }
}

/// The storage after `call` on `s`.
pub open spec fn after_call(s: TipJarState, call: JarCall) -> TipJarState {
    match call {
        JarCall::Init { admin } => match s.init_outcome(admin) {
            Ok(n) => n,
            Err(_) => s,
        },
        JarCall::AddToken { admin, token } => match s.add_token_outcome(admin, token) {
            Ok(n) => n,
            Err(_) => s,
        },
        JarCall::SetOffchainCondition { condition_id, approved } => s.set_offchain_outcome(
            condition_id,
            approved,
        ),
        JarCall::Tip { sender, creator, token, amount } => settle(
            s,
            s.tip_outcome(sender, creator, token, amount),
        ),
        JarCall::Withdraw { creator, token } => settle(s, s.withdraw_outcome(creator, token)),
        JarCall::TipWithFee { sender, creator, token, amount, fee, fee_bps } => settle(
            s,
            s.tip_with_fee_outcome(sender, creator, token, amount, fee, fee_bps),
        ),
        JarCall::Upgrade { new_wasm_hash } => settle(s, s.upgrade_outcome(new_wasm_hash)),
        JarCall::SetBridgeRelayer { relayer, token } => TipJarState {
            bridge_relayer: Some(relayer),
            bridge_token: Some(token),
            ..s
        },
        JarCall::BridgeTip { relayer, bridged } => settle(s, bridge_tip_outcome(s, relayer, bridged)),
        JarCall::PrivateTip { sender, token, tip, amount } => settle(
            s,
            private_tip_outcome(s, sender, token, tip, amount),
        ),
        JarCall::PrivateWithdraw { tip, opening } => settle(s, private_withdraw_outcome(s, tip, opening)),
    }
}

/// The storage after making, in turn, each of `calls` that may be made at
/// that point (a call whose `requires` fails cannot be made, and is passed
/// over).
pub open spec fn after_calls(s: TipJarState, calls: Seq<JarCall>) -> TipJarState
    decreases calls.len(),
{
    if calls.len() == 0 {
        s
    } else {
        let m = after_calls(s, calls.drop_last());
        if admitted(m, calls.last()) {
            after_call(m, calls.last())
        } else {
            m
        }
    }
}

proof fn lemma_call_keeps(s: TipJarState, call: JarCall, c: Address, t: Address, h: Bytes32, n: Bytes32)
    requires
        admitted(s, call),
    ensures
        after_call(s, call).total_tips(c, t) >= s.total_tips(c, t),
        processed_in(s, h) ==> processed_in(after_call(s, call), h),
        nullifier_used_in(s, n) ==> nullifier_used_in(after_call(s, call), n),
{
    match call {
        JarCall::Tip { sender, creator, token, amount } => {
            if s.tip_outcome(sender, creator, token, amount) is Ok {
                law_tip_credits_creator(s, sender, creator, token, amount, c, t);
            }
        },
        JarCall::TipWithFee { sender, creator, token, amount, fee, fee_bps } => {
            law_tip_with_fee_credits_net(s, sender, creator, token, amount, fee, fee_bps, c, t);
        },
        JarCall::BridgeTip { relayer, bridged } => {
            if bridge_tip_outcome(s, relayer, bridged) is Ok {
                law_bridge_tip_credits_creator(s, relayer, bridged, c, t);
            }
        },
        _ => {},
    }
}

proof fn lemma_calls_keep(s: TipJarState, calls: Seq<JarCall>, c: Address, t: Address, h: Bytes32, n: Bytes32)
    ensures
        after_calls(s, calls).total_tips(c, t) >= s.total_tips(c, t),
        processed_in(s, h) ==> processed_in(after_calls(s, calls), h),
        nullifier_used_in(s, n) ==> nullifier_used_in(after_calls(s, calls), n),
    decreases calls.len(),
{
    if calls.len() > 0 {
        lemma_calls_keep(s, calls.drop_last(), c, t, h, n);
        let m = after_calls(s, calls.drop_last());
        if admitted(m, calls.last()) {
            lemma_call_keeps(m, calls.last(), c, t, h, n);
        }
    }
}

/// Historical totals never go down: along any run of calls of the jar's
/// operations (tips, tips with a fee, bridged tips, withdrawals, private
/// tips and withdrawals, and the setup calls), every creator's total in
/// every token is at least what it was.
pub proof fn law_totals_never_decrease(s: TipJarState, calls: Seq<JarCall>, creator: Address, token: Address)
    ensures
        after_calls(s, calls).total_tips(creator, token) >= s.total_tips(creator, token),
{
    let h = vstd::pervasive::arbitrary::<Bytes32>();
    lemma_calls_keep(s, calls, creator, token, h, h);
}

/// A processed source transaction stays processed along any run of calls,
/// so a bridged tip with its hash is refused at any later time.
pub proof fn law_processed_stays_processed(
    s: TipJarState,
    calls: Seq<JarCall>,
    source_tx_hash: Bytes32,
    relayer: Address,
    again: BridgeTip,
)
    requires
        processed_in(s, source_tx_hash),
        again.source_tx_hash == source_tx_hash,
    ensures
        processed_in(after_calls(s, calls), source_tx_hash),
        bridge_tip_outcome(after_calls(s, calls), relayer, again) is Err,
{
    lemma_calls_keep(s, calls, again.creator, again.creator, source_tx_hash, source_tx_hash);
}

/// A spent nullifier stays spent along any run of calls, so a private tip
/// with that nullifier is refused with `Unauthorized` at any later time,
/// whatever opening is shown: a nullifier backs at most one withdrawal.
pub proof fn law_nullifier_stays_spent(
    s: TipJarState,
    calls: Seq<JarCall>,
    nullifier: Bytes32,
    tip: PrivateTip,
    opening: CommitmentOpening,
)
    requires
        nullifier_used_in(s, nullifier),
        tip.nullifier == nullifier,
    ensures
        nullifier_used_in(after_calls(s, calls), nullifier),
        private_withdraw_outcome(after_calls(s, calls), tip, opening)
            == Err::<(TipJarState, Seq<Effect>), TipJarError>(TipJarError::Unauthorized),
{
    lemma_calls_keep(s, calls, opening.creator, opening.creator, nullifier, nullifier);
}

/// Call `i` of `calls`, made on the storage the earlier calls left, is an
/// accepted bridged tip whose source transaction hash is `h`.
pub open spec fn accepted_bridge_tip_at(s: TipJarState, calls: Seq<JarCall>, i: int, h: Bytes32) -> bool {
    let m = after_calls(s, calls.take(i));
    &&& calls[i] matches JarCall::BridgeTip { relayer, bridged }
    &&& bridged.source_tx_hash == h
    &&& admitted(m, calls[i])
    &&& bridge_tip_outcome(m, relayer, bridged) is Ok
}

/// Call `i` of `calls`, made on the storage the earlier calls left, is an
/// accepted private withdrawal whose nullifier is `n`.
pub open spec fn accepted_private_withdraw_at(s: TipJarState, calls: Seq<JarCall>, i: int, n: Bytes32) -> bool {
    let m = after_calls(s, calls.take(i));
    &&& calls[i] matches JarCall::PrivateWithdraw { tip, opening }
    &&& tip.nullifier == n
    &&& private_withdraw_outcome(m, tip, opening) is Ok
}

proof fn lemma_call_sets_flags(s: TipJarState, call: JarCall, h: Bytes32, n: Bytes32)
    requires
        admitted(s, call),
    ensures
        !processed_in(s, h) && processed_in(after_call(s, call), h) ==> (call matches JarCall::BridgeTip {
            relayer,
            bridged,
        } && bridged.source_tx_hash == h && bridge_tip_outcome(s, relayer, bridged) is Ok),
        !nullifier_used_in(s, n) && nullifier_used_in(after_call(s, call), n) ==> (
        call matches JarCall::PrivateWithdraw { tip, opening } && tip.nullifier == n
            && private_withdraw_outcome(s, tip, opening) is Ok),
{
}

proof fn lemma_run_prefix(s: TipJarState, calls: Seq<JarCall>, i: int)
    requires
        calls.len() > 0,
        0 <= i < calls.len() - 1,
    ensures
        calls.drop_last()[i] == calls[i],
        calls.drop_last().take(i) == calls.take(i),
{
    assert(calls.drop_last().take(i) =~= calls.take(i));
}

/// A source transaction becomes processed only through an accepted bridged
/// tip with its hash: if a hash is processed after a run of calls and was
/// not before, one of the calls was such a tip.
pub proof fn law_processed_only_by_bridged_tip(s: TipJarState, calls: Seq<JarCall>, h: Bytes32)
    requires
        !processed_in(s, h),
        processed_in(after_calls(s, calls), h),
    ensures
        exists|i: int| 0 <= i < calls.len() && #[trigger] accepted_bridge_tip_at(s, calls, i, h),
    decreases calls.len(),
{
    let prefix = calls.drop_last();
    let m = after_calls(s, prefix);
    if processed_in(m, h) {
        law_processed_only_by_bridged_tip(s, prefix, h);
        let i = choose|i: int| 0 <= i < prefix.len() && #[trigger] accepted_bridge_tip_at(s, prefix, i, h);
        lemma_run_prefix(s, calls, i);
        assert(accepted_bridge_tip_at(s, calls, i, h));
    } else {
        let i = calls.len() - 1;
        let h2 = vstd::pervasive::arbitrary::<Bytes32>();
        lemma_call_sets_flags(m, calls.last(), h, h2);
        assert(calls.take(i) =~= prefix);
        assert(calls[i] == calls.last());
        assert(accepted_bridge_tip_at(s, calls, i, h));
    }
}

/// A nullifier becomes spent only through an accepted private withdrawal
/// with it: if a nullifier is spent after a run of calls and was not
/// before, one of the calls was such a withdrawal.
pub proof fn law_nullifier_spent_only_by_withdrawal(s: TipJarState, calls: Seq<JarCall>, n: Bytes32)
    requires
        !nullifier_used_in(s, n),
        nullifier_used_in(after_calls(s, calls), n),
    ensures
        exists|i: int| 0 <= i < calls.len() && #[trigger] accepted_private_withdraw_at(s, calls, i, n),
    decreases calls.len(),
{
    let prefix = calls.drop_last();
    let m = after_calls(s, prefix);
    if nullifier_used_in(m, n) {
        law_nullifier_spent_only_by_withdrawal(s, prefix, n);
        let i = choose|i: int| 0 <= i < prefix.len() && #[trigger] accepted_private_withdraw_at(s, prefix, i, n);
        lemma_run_prefix(s, calls, i);
        assert(accepted_private_withdraw_at(s, calls, i, n));
    } else {
        let i = calls.len() - 1;
        let h2 = vstd::pervasive::arbitrary::<Bytes32>();
        lemma_call_sets_flags(m, calls.last(), h2, n);
        assert(calls.take(i) =~= prefix);
        assert(calls[i] == calls.last());
        assert(accepted_private_withdraw_at(s, calls, i, n));
    }
}

} // verus!
