//! What a transition asks the host to do, in order: token transfers and
//! approvals, calls to other contracts, a code upgrade, and events.

use vstd::prelude::*;
use crate::types::{Address, Bytes32};
use crate::bridge::SourceChain;

verus! {

/// One end of a token movement.
#[derive(Clone, Copy, Debug, PartialEq, Eq, Hash)]
pub enum Party {
    /// The tip jar contract itself (its escrow).
    Jar,
    /// Another account or contract.
    Holder(Address),
}

/// An event the jar publishes; each names its topics and data.
#[derive(Clone, Copy, Debug, PartialEq, Eq)]
pub enum TipJarEvent {
    /// Topics `("tip", creator)`, data `(sender, amount)`.
    Tip { creator: Address, sender: Address, amount: i128 },
    /// Topics `("withdraw", creator)`, data `amount`.
    Withdraw { creator: Address, amount: i128 },
    /// Topics `("condtip", sender)`, data `(creator, token, amount)`.
    ConditionalTip { sender: Address, creator: Address, token: Address, amount: i128 },
    /// Topics `("fee", creator)`, data `(fee, fee_bps)`.
    Fee { creator: Address, fee: i128, fee_bps: u32 },
    /// Topics `("bridge", creator)`, data `(source_chain, source_tx_hash, amount)`.
    Bridge { creator: Address, source_chain: SourceChain, source_tx_hash: Bytes32, amount: i128 },
    /// Topics `("priv_tip",)`, data `(commitment, nullifier)`.
    PrivateTip { commitment: Bytes32, nullifier: Bytes32 },
    /// Topics `("priv_wdw", creator)`, data `amount`.
    PrivateWithdraw { creator: Address, amount: i128 },
    /// Topics `("upgraded",)`, data `version`.
    Upgraded { version: u32 },
}

/// A piece of outside work that a transition hands to the host.
#[derive(Clone, Copy, Debug, PartialEq, Eq)]
pub enum Effect {
    /// Move `amount` of `token` from `from` to `to`.
    Transfer { token: Address, from: Party, to: Party, amount: i128 },
    /// Let `spender` pull up to `amount` of `token` from the jar until
    /// ledger `expiration_ledger`.
    Approve { token: Address, spender: Address, amount: i128, expiration_ledger: u32 },
    /// Ask the DEX at `dex` to swap `input_amount` of `input_token` into
    /// `output_token`, for at least `min_output`.
    Swap { dex: Address, input_token: Address, output_token: Address, input_amount: i128, min_output: i128 },
    /// Replace the jar's code by the WASM with this hash.
    UpdateWasm { wasm_hash: Bytes32 },
    /// Publish an event.
    Publish(TipJarEvent),
}

} // verus!
