//! The tip jar's storage model and its core operations: setup, token
//! whitelist, tips into escrow, withdrawals, conditional tips, tips with a
//! dynamic fee, upgrades and the bridge configuration.

use vstd::prelude::*;
use crate::types::{Address, Bytes32, SameKey};
use crate::keymap::KeyMap;
use crate::effects::{Effect, Party, TipJarEvent};
use crate::fees::BASE_FEE_BPS;
use crate::TipJarError;

verus! {

/// A (creator, token) pair: the key of balances and totals.
pub type CreatorToken = (Address, Address);

/// What the jar's storage holds, as mathematical maps.
///
/// Balances and totals live in two storage tiers (persistent and instance)
/// as in the jar's ledger storage: reads look in the persistent tier first.
pub struct TipJarState {
    /// The administrator, once `init` ran.
    pub admin: Option<Address>,
    /// Token whitelist flags.
    pub token_whitelist: Map<Address, bool>,
    /// Withdrawable balances in the persistent tier.
    pub persistent_balances: Map<CreatorToken, i128>,
    /// Withdrawable balances in the instance tier.
    pub instance_balances: Map<CreatorToken, i128>,
    /// Historical totals in the persistent tier.
    pub persistent_totals: Map<CreatorToken, i128>,
    /// Historical totals in the instance tier.
    pub instance_totals: Map<CreatorToken, i128>,
    /// Off-chain approval flags by condition id.
    pub offchain_conditions: Map<Bytes32, bool>,
    /// The most recently applied dynamic fee, in basis points.
    pub current_fee_bps: Option<u32>,
    /// Number of upgrades so far.
    pub contract_version: u32,
    /// The authorised bridge relayer.
    pub bridge_relayer: Option<Address>,
    /// The token credited for bridged tips.
    pub bridge_token: Option<Address>,
    /// Processed source-chain transactions.
    pub bridge_processed: Map<Bytes32, bool>,
    /// Spent nullifiers of private tips.
    pub privacy_nullifiers: Map<Bytes32, bool>,
    /// Open private-tip commitments: token and amount held for each.
    pub privacy_commitments: Map<Bytes32, (Address, i128)>,
    /// The DEX used for swaps into the tip token.
    pub dex_contract: Option<Address>,
}

/// The value under `k`, or 0.
pub open spec fn value_or_zero(m: Map<CreatorToken, i128>, k: CreatorToken) -> i128 {
    if m.contains_key(k) { m[k] } else { 0 }
}

/// The value under `k` in the persistent tier, else in the instance tier,
/// else 0.
pub open spec fn layered_value(
    persistent: Map<CreatorToken, i128>,
    instance: Map<CreatorToken, i128>,
    k: CreatorToken,
) -> i128 {
    if persistent.contains_key(k) { persistent[k] } else { value_or_zero(instance, k) }
}

/// The result of a transition: the new storage and the outside work to do,
/// or the error the jar reports (and then storage is unchanged).
pub type Outcome = Result<(TipJarState, Seq<Effect>), TipJarError>;

/// `r` and the new storage `new` are what `o` prescribes from `old`.
pub open spec fn runs_as(
    old: TipJarState,
    new: TipJarState,
    r: Result<Vec<Effect>, TipJarError>,
    o: Outcome,
) -> bool {
    match o {
        Ok((s, e)) => new == s && (r matches Ok(v) && v@ =~= e),
        Err(x) => new == old && r == Err::<Vec<Effect>, TipJarError>(x),
    }
}

impl TipJarState {
    /// Whether `token` may be tipped.
    pub open spec fn is_whitelisted(self, token: Address) -> bool {
        self.token_whitelist.contains_key(token) && self.token_whitelist[token]
    }

    /// What `creator` can withdraw in `token`.
    pub open spec fn withdrawable(self, creator: Address, token: Address) -> i128 {
        layered_value(self.persistent_balances, self.instance_balances, (creator, token))
    }

    /// What `creator` ever received in `token`.
    pub open spec fn total_tips(self, creator: Address, token: Address) -> i128 {
        layered_value(self.persistent_totals, self.instance_totals, (creator, token))
    }

    /// The off-chain flag of `condition_id`; `false` when never set.
    pub open spec fn offchain_flag(self, condition_id: Bytes32) -> bool {
        self.offchain_conditions.contains_key(condition_id) && self.offchain_conditions[condition_id]
    }

    /// `set_offchain_condition`: record the flag of `condition_id`.
    pub open spec fn set_offchain_outcome(self, condition_id: Bytes32, approved: bool) -> TipJarState {
        TipJarState { offchain_conditions: self.offchain_conditions.insert(condition_id, approved), ..self }
    }

    /// The fee in basis points that the jar reports.
    pub open spec fn fee_bps(self) -> u32 {
        match self.current_fee_bps {
            Some(b) => b,
            None => BASE_FEE_BPS,
        }
    }

    /// The empty storage of a fresh jar.
    pub open spec fn fresh() -> TipJarState {
        TipJarState {
            admin: None,
            token_whitelist: Map::empty(),
            persistent_balances: Map::empty(),
            instance_balances: Map::empty(),
            persistent_totals: Map::empty(),
            instance_totals: Map::empty(),
            offchain_conditions: Map::empty(),
            current_fee_bps: None,
            contract_version: 0,
            bridge_relayer: None,
            bridge_token: None,
            bridge_processed: Map::empty(),
            privacy_nullifiers: Map::empty(),
            privacy_commitments: Map::empty(),
            dex_contract: None,
        }
    }

    /// `init`: set the administrator once.
    pub open spec fn init_outcome(self, admin: Address) -> Result<TipJarState, TipJarError> {
        if self.admin is Some {
            Err(TipJarError::AlreadyInitialized)
        } else {
            Ok(TipJarState { admin: Some(admin), ..self })
        }
    }

    /// `add_token`: the administrator whitelists a token.
    pub open spec fn add_token_outcome(self, admin: Address, token: Address) -> Result<
        TipJarState,
        TipJarError,
    > {
        if self.admin != Some(admin) {
            Err(TipJarError::Unauthorized)
        } else {
            Ok(TipJarState { token_whitelist: self.token_whitelist.insert(token, true), ..self })
        }
    }

    /// `tip`: take `amount` of `token` from `sender` into escrow and credit
    /// `creator`'s balance and total in the persistent tier.
    pub open spec fn tip_outcome(
        self,
        sender: Address,
        creator: Address,
        token: Address,
        amount: i128,
    ) -> Outcome {
        if amount <= 0 {
            Err(TipJarError::InvalidAmount)
        } else if !self.is_whitelisted(token) {
            Err(TipJarError::TokenNotWhitelisted)
        } else {
            let k = (creator, token);
            Ok(
                (
                    TipJarState {
                        persistent_balances: self.persistent_balances.insert(
                            k,
                            (self.withdrawable(creator, token) + amount) as i128,
                        ),
                        persistent_totals: self.persistent_totals.insert(
                            k,
                            (self.total_tips(creator, token) + amount) as i128,
                        ),
                        ..self
                    },
                    seq![
                        Effect::Transfer { token, from: Party::Holder(sender), to: Party::Jar, amount },
                        Effect::Publish(TipJarEvent::Tip { creator, sender, amount }),
                    ],
                ),
            )
        }
    }

    /// The sums that `tip` computes fit in an `i128`.
    pub open spec fn tip_fits(self, creator: Address, token: Address, amount: i128) -> bool {
        amount > 0 && self.is_whitelisted(token) ==> {
            &&& self.withdrawable(creator, token) + amount <= i128::MAX
            &&& self.total_tips(creator, token) + amount <= i128::MAX
        }
    }

    /// `withdraw`: pay out `creator`'s whole withdrawable balance in `token`.
    pub open spec fn withdraw_outcome(self, creator: Address, token: Address) -> Outcome {
        let amount = self.withdrawable(creator, token);
        if amount == 0 {
            Err(TipJarError::NothingToWithdraw)
        } else {
            Ok(
                (
                    TipJarState {
                        persistent_balances: self.persistent_balances.insert((creator, token), 0),
                        ..self
                    },
                    seq![
                        Effect::Transfer { token, from: Party::Jar, to: Party::Holder(creator), amount },
                        Effect::Publish(TipJarEvent::Withdraw { creator, amount }),
                    ],
                ),
            )
        }
    }

    /// `tip_with_fee`: like `tip`, but `fee` stays in the jar: the creator's
    /// withdrawable balance and total grow by `amount - fee` (written where
    /// `tip` writes, so reads see them), and `fee_bps` becomes the reported
    /// fee.
    pub open spec fn tip_with_fee_outcome(
        self,
        sender: Address,
        creator: Address,
        token: Address,
        amount: i128,
        fee: i128,
        fee_bps: u32,
    ) -> Outcome {
        if amount <= 0 {
            Err(TipJarError::InvalidAmount)
        } else if !self.is_whitelisted(token) {
            Err(TipJarError::TokenNotWhitelisted)
        } else {
            let k = (creator, token);
            let net = (amount - fee) as i128;
            Ok(
                (
                    TipJarState {
                        current_fee_bps: Some(fee_bps),
                        persistent_balances: self.persistent_balances.insert(
                            k,
                            (self.withdrawable(creator, token) + net) as i128,
                        ),
                        persistent_totals: self.persistent_totals.insert(
                            k,
                            (self.total_tips(creator, token) + net) as i128,
                        ),
                        ..self
                    },
                    seq![
                        Effect::Transfer { token, from: Party::Holder(sender), to: Party::Jar, amount },
                        Effect::Publish(TipJarEvent::Tip { creator, sender, amount: net }),
                        Effect::Publish(TipJarEvent::Fee { creator, fee, fee_bps }),
                    ],
                ),
            )
        }
    }

    /// Where `tip_with_fee` credits the creator, the fee is a part of the
    /// tip (between 0 and `amount`) and the sums fit in an `i128`.
    pub open spec fn tip_with_fee_fits(
        self,
        creator: Address,
        token: Address,
        amount: i128,
        fee: i128,
    ) -> bool {
        amount > 0 && self.is_whitelisted(token) ==> {
            &&& 0 <= fee <= amount
            &&& self.withdrawable(creator, token) + (amount - fee) <= i128::MAX
            &&& self.total_tips(creator, token) + (amount - fee) <= i128::MAX
        }
    }

    /// `upgrade`: replace the code and count the upgrade; refused while the
    /// jar has no administrator.
    pub open spec fn upgrade_outcome(self, new_wasm_hash: Bytes32) -> Outcome {
        if self.admin is None {
            Err(TipJarError::UpgradeUnauthorized)
        } else {
            let v = (self.contract_version + 1) as u32;
            Ok(
                (
                    TipJarState { contract_version: v, ..self },
                    seq![
                        Effect::UpdateWasm { wasm_hash: new_wasm_hash },
                        Effect::Publish(TipJarEvent::Upgraded { version: v }),
                    ],
                ),
            )
        }
    }
}

/// The tip jar contract: its storage, and its operations as transitions.
pub struct TipJarContract {
    /// The administrator.
    pub admin: Option<Address>,
    /// Token whitelist flags.
    pub token_whitelist: KeyMap<Address, bool>,
    /// Withdrawable balances, persistent tier.
    pub persistent_balances: KeyMap<CreatorToken, i128>,
    /// Withdrawable balances, instance tier.
    pub instance_balances: KeyMap<CreatorToken, i128>,
    /// Historical totals, persistent tier.
    pub persistent_totals: KeyMap<CreatorToken, i128>,
    /// Historical totals, instance tier.
    pub instance_totals: KeyMap<CreatorToken, i128>,
    /// Off-chain approval flags.
    pub offchain_conditions: KeyMap<Bytes32, bool>,
    /// The most recently applied dynamic fee.
    pub current_fee_bps: Option<u32>,
    /// Number of upgrades so far.
    pub contract_version: u32,
    /// The authorised bridge relayer.
    pub bridge_relayer: Option<Address>,
    /// The token credited for bridged tips.
    pub bridge_token: Option<Address>,
    /// Processed source-chain transactions.
    pub bridge_processed: KeyMap<Bytes32, bool>,
    /// Spent nullifiers.
    pub privacy_nullifiers: KeyMap<Bytes32, bool>,
    /// Open private-tip commitments.
    pub privacy_commitments: KeyMap<Bytes32, (Address, i128)>,
    /// The DEX used for swaps.
    pub dex_contract: Option<Address>,
}

impl View for TipJarContract {
    type V = TipJarState;

    open spec fn view(&self) -> TipJarState {
        TipJarState {
            admin: self.admin,
            token_whitelist: self.token_whitelist@,
            persistent_balances: self.persistent_balances@,
            instance_balances: self.instance_balances@,
            persistent_totals: self.persistent_totals@,
            instance_totals: self.instance_totals@,
            offchain_conditions: self.offchain_conditions@,
            current_fee_bps: self.current_fee_bps,
            contract_version: self.contract_version,
            bridge_relayer: self.bridge_relayer,
            bridge_token: self.bridge_token,
            bridge_processed: self.bridge_processed@,
            privacy_nullifiers: self.privacy_nullifiers@,
            privacy_commitments: self.privacy_commitments@,
            dex_contract: self.dex_contract,
        }
    }
}

/// Whether two optional addresses are the same.
pub fn same_address_opt(a: &Option<Address>, b: &Option<Address>) -> (r: bool)
    ensures
        r == (*a == *b),
{
    match (a, b) {
        (Some(x), Some(y)) => x.same_key(y),
        (None, None) => true,
        _ => false,
    }
}

impl TipJarContract {
    /// Every map of the storage is well formed.
    pub open spec fn wf(&self) -> bool {
        &&& self.token_whitelist.wf()
        &&& self.persistent_balances.wf()
        &&& self.instance_balances.wf()
        &&& self.persistent_totals.wf()
        &&& self.instance_totals.wf()
        &&& self.offchain_conditions.wf()
        &&& self.bridge_processed.wf()
        &&& self.privacy_nullifiers.wf()
        &&& self.privacy_commitments.wf()
    }

    /// A fresh jar with empty storage.
    pub fn new() -> (r: Self)
        ensures
            r.wf(),
            r@ == TipJarState::fresh(),
    {
        TipJarContract {
            admin: None,
            token_whitelist: KeyMap::new(),
            persistent_balances: KeyMap::new(),
            instance_balances: KeyMap::new(),
            persistent_totals: KeyMap::new(),
            instance_totals: KeyMap::new(),
            offchain_conditions: KeyMap::new(),
            current_fee_bps: None,
            contract_version: 0,
            bridge_relayer: None,
            bridge_token: None,
            bridge_processed: KeyMap::new(),
            privacy_nullifiers: KeyMap::new(),
            privacy_commitments: KeyMap::new(),
            dex_contract: None,
        }
    }

    /// One-time setup to choose the administrator for the TipJar.
    pub fn init(&mut self, admin: Address) -> (r: Result<(), TipJarError>)
        requires
            old(self).wf(),
        ensures
            final(self).wf(),
            match old(self)@.init_outcome(admin) {
                Ok(s) => r is Ok && final(self)@ == s,
                Err(e) => r == Err::<(), TipJarError>(e) && final(self)@ == old(self)@,
            },
    {
        if self.admin.is_some() {
            return Err(TipJarError::AlreadyInitialized);
        }
        self.admin = Some(admin);
        Ok(())
    }

    /// The administrator, if `init` ran.
    pub fn get_admin(&self) -> (r: Option<Address>)
        ensures
            r == self@.admin,
    {
        self.admin
    }

    /// Sets an off-chain condition flag that conditional tips can refer to.
    pub fn set_offchain_condition(&mut self, condition_id: Bytes32, approved: bool)
        requires
            old(self).wf(),
        ensures
            final(self).wf(),
            final(self)@ == old(self)@.set_offchain_outcome(condition_id, approved),
    {
        self.offchain_conditions.insert(condition_id, approved);
    }

    /// The off-chain flag of `condition_id`; `false` when never set.
    pub fn get_offchain_condition(&self, condition_id: &Bytes32) -> (r: bool)
        requires
            self.wf(),
        ensures
            r == self@.offchain_flag(*condition_id),
    {
        match self.offchain_conditions.get(condition_id) {
            Some(b) => b,
            None => false,
        }
    }

    /// Whether `token` is whitelisted.
    pub fn is_whitelisted(&self, token: &Address) -> (r: bool)
        requires
            self.wf(),
        ensures
            r == self@.is_whitelisted(*token),
    {
        match self.token_whitelist.get(token) {
            Some(b) => b,
            None => false,
        }
    }

    /// Adds a token to the whitelist. Admin only.
    pub fn add_token(&mut self, admin: Address, token: Address) -> (r: Result<(), TipJarError>)
        requires
            old(self).wf(),
            old(self)@.admin is Some,
        ensures
            final(self).wf(),
            match old(self)@.add_token_outcome(admin, token) {
                Ok(s) => r is Ok && final(self)@ == s,
                Err(e) => r == Err::<(), TipJarError>(e) && final(self)@ == old(self)@,
            },
    {
        if !same_address_opt(&self.admin, &Some(admin)) {
            return Err(TipJarError::Unauthorized);
        }
        self.token_whitelist.insert(token, true);
        Ok(())
    }

    /// Returns the current withdrawable balance for `creator` in `token`.
    pub fn get_withdrawable_balance(&self, creator: Address, token: Address) -> (r: i128)
        requires
            self.wf(),
        ensures
            r == self@.withdrawable(creator, token),
    {
        let key = (creator, token);
        match self.persistent_balances.get(&key) {
            Some(v) => v,
            None => match self.instance_balances.get(&key) {
                Some(v) => v,
                None => 0,
            },
        }
    }

    /// Returns the historical total tips received by `creator` in `token`.
    pub fn get_total_tips(&self, creator: Address, token: Address) -> (r: i128)
        requires
            self.wf(),
        ensures
            r == self@.total_tips(creator, token),
    {
        let key = (creator, token);
        match self.persistent_totals.get(&key) {
            Some(v) => v,
            None => match self.instance_totals.get(&key) {
                Some(v) => v,
                None => 0,
            },
        }
    }

    /// Moves `amount` of `token` from `sender` into escrow for `creator`.
    ///
    /// The returned effects are the transfer into escrow and the event
    /// `("tip", creator)` with data `(sender, amount)`.
    pub fn tip(&mut self, sender: Address, creator: Address, token: Address, amount: i128) -> (r:
        Result<Vec<Effect>, TipJarError>)
        requires
            old(self).wf(),
            old(self)@.tip_fits(creator, token, amount),
        ensures
            final(self).wf(),
            runs_as(old(self)@, final(self)@, r, old(self)@.tip_outcome(sender, creator, token, amount)),
    {
        if amount <= 0 {
            return Err(TipJarError::InvalidAmount);
        }
        if !self.is_whitelisted(&token) {
            return Err(TipJarError::TokenNotWhitelisted);
        }
        let key = (creator, token);
        let new_bal = self.get_withdrawable_balance(creator, token) + amount;
        let new_tot = self.get_total_tips(creator, token) + amount;
        self.persistent_balances.insert(key, new_bal);
        self.persistent_totals.insert(key, new_tot);
        let mut effects: Vec<Effect> = Vec::new();
        effects.push(Effect::Transfer { token, from: Party::Holder(sender), to: Party::Jar, amount });
        effects.push(Effect::Publish(TipJarEvent::Tip { creator, sender, amount }));
        Ok(effects)
    }

    /// Withdraws the full escrowed balance for `creator` in `token`.
    ///
    /// The returned effects are the payout and the event
    /// `("withdraw", creator)` with data `amount`.
    pub fn withdraw(&mut self, creator: Address, token: Address) -> (r: Result<Vec<Effect>, TipJarError>)
        requires
            old(self).wf(),
        ensures
            final(self).wf(),
            runs_as(old(self)@, final(self)@, r, old(self)@.withdraw_outcome(creator, token)),
    {
        let amount = self.get_withdrawable_balance(creator, token);
        if amount == 0 {
            return Err(TipJarError::NothingToWithdraw);
        }
        self.persistent_balances.insert((creator, token), 0);
        let mut effects: Vec<Effect> = Vec::new();
        effects.push(Effect::Transfer { token, from: Party::Jar, to: Party::Holder(creator), amount });
        effects.push(Effect::Publish(TipJarEvent::Withdraw { creator, amount }));
        Ok(effects)
    }

    /// Transfers `amount` of `token` from `sender` straight to `creator` when
    /// `conditions_met`, the verdict on the tip's conditions; reports `false`
    /// and does nothing otherwise.
    ///
    /// The effects of an executed tip are the transfer and the event
    /// `("condtip", sender)` with data `(creator, token, amount)`.
    pub fn execute_conditional_tip(
        sender: Address,
        creator: Address,
        token: Address,
        amount: i128,
        conditions_met: bool,
    ) -> (r: Result<(bool, Vec<Effect>), TipJarError>)
        ensures
            amount <= 0 ==> r == Err::<(bool, Vec<Effect>), TipJarError>(TipJarError::InvalidAmount),
            amount > 0 && !conditions_met ==> (r matches Ok((false, e)) && e@ == Seq::<Effect>::empty()),
            amount > 0 && conditions_met ==> (r matches Ok((true, e)) && e@ == seq![
                Effect::Transfer {
                    token,
                    from: Party::Holder(sender),
                    to: Party::Holder(creator),
                    amount,
                },
                Effect::Publish(TipJarEvent::ConditionalTip { sender, creator, token, amount }),
            ]),
    {
        if amount <= 0 {
            return Err(TipJarError::InvalidAmount);
        }
        let mut effects: Vec<Effect> = Vec::new();
        if !conditions_met {
            return Ok((false, effects));
        }
        effects.push(
            Effect::Transfer { token, from: Party::Holder(sender), to: Party::Holder(creator), amount },
        );
        effects.push(Effect::Publish(TipJarEvent::ConditionalTip { sender, creator, token, amount }));
        Ok((true, effects))
    }

    /// Returns the last applied dynamic fee in basis points; the base fee
    /// (100 bps = 1%) before any tip with a fee.
    pub fn get_current_fee_bps(&self) -> (r: u32)
        ensures
            r == self@.fee_bps(),
    {
        match self.current_fee_bps {
            Some(b) => b,
            None => BASE_FEE_BPS,
        }
    }

    /// Like `tip`, but keeps the platform fee `fee` (at rate `fee_bps`, a
    /// part of the tip) in the jar: the creator's withdrawable balance and
    /// total grow by `amount - fee`.
    ///
    /// The returned effects are the transfer of `amount` into escrow, the
    /// event `("tip", creator)` with data `(sender, amount - fee)` and the
    /// event `("fee", creator)` with data `(fee, fee_bps)`.
    pub fn tip_with_fee(
        &mut self,
        sender: Address,
        creator: Address,
        token: Address,
        amount: i128,
        fee: i128,
        fee_bps: u32,
    ) -> (r: Result<Vec<Effect>, TipJarError>)
        requires
            old(self).wf(),
            old(self)@.tip_with_fee_fits(creator, token, amount, fee),
        ensures
            final(self).wf(),
            runs_as(
                old(self)@,
                final(self)@,
                r,
                old(self)@.tip_with_fee_outcome(sender, creator, token, amount, fee, fee_bps),
            ),
    {
        if amount <= 0 {
            return Err(TipJarError::InvalidAmount);
        }
        if !self.is_whitelisted(&token) {
            return Err(TipJarError::TokenNotWhitelisted);
        }
        let net = amount - fee;
        let key = (creator, token);
        let new_bal = self.get_withdrawable_balance(creator, token) + net;
        let new_tot = self.get_total_tips(creator, token) + net;
        self.current_fee_bps = Some(fee_bps);
        self.persistent_balances.insert(key, new_bal);
        self.persistent_totals.insert(key, new_tot);
        let mut effects: Vec<Effect> = Vec::new();
        effects.push(Effect::Transfer { token, from: Party::Holder(sender), to: Party::Jar, amount });
        effects.push(Effect::Publish(TipJarEvent::Tip { creator, sender, amount: net }));
        effects.push(Effect::Publish(TipJarEvent::Fee { creator, fee, fee_bps }));
        Ok(effects)
    }

    /// Upgrades the contract code to `new_wasm_hash` and counts the upgrade.
    /// Admin only: the host checks the administrator's authorisation.
    ///
    /// The returned effects are the code update and the event
    /// `("upgraded",)` with the new version.
    pub fn upgrade(&mut self, new_wasm_hash: Bytes32) -> (r: Result<Vec<Effect>, TipJarError>)
        requires
            old(self).wf(),
            old(self)@.admin is Some ==> old(self)@.contract_version < u32::MAX,
        ensures
            final(self).wf(),
            runs_as(old(self)@, final(self)@, r, old(self)@.upgrade_outcome(new_wasm_hash)),
    {
        if self.admin.is_none() {
            return Err(TipJarError::UpgradeUnauthorized);
        }
        let v = self.contract_version + 1;
        self.contract_version = v;
        let mut effects: Vec<Effect> = Vec::new();
        effects.push(Effect::UpdateWasm { wasm_hash: new_wasm_hash });
        effects.push(Effect::Publish(TipJarEvent::Upgraded { version: v }));
        Ok(effects)
    }

    /// Returns the current contract version (0 before the first upgrade).
    pub fn get_version(&self) -> (r: u32)
        ensures
            r == self@.contract_version,
    {
        self.contract_version
    }

    /// Sets the authorised bridge relayer and the token used for bridged
    /// tips. Admin only: the host checks the administrator's authorisation.
    pub fn set_bridge_relayer(&mut self, relayer: Address, token: Address)
        requires
            old(self).wf(),
            old(self)@.admin is Some,
        ensures
            final(self).wf(),
            final(self)@ == (TipJarState {
                bridge_relayer: Some(relayer),
                bridge_token: Some(token),
                ..old(self)@
            }),
    {
        self.bridge_relayer = Some(relayer);
        self.bridge_token = Some(token);
    }
}

} // verus!
