//! Tips relayed from other chains.

pub mod relayer;
pub mod validator;

use vstd::prelude::*;
use crate::types::{Address, Bytes32};
use crate::contract::{runs_as, TipJarContract};
use crate::effects::Effect;
use crate::bridge::relayer::{bridge_tip_fits, bridge_tip_outcome, process_bridge_tip};
use crate::TipJarError;

verus! {

/// Supported source chains for bridged tips.
#[derive(Clone, Copy, Debug, PartialEq, Eq, Structural)]
pub enum SourceChain {
    /// Ethereum.
    Ethereum,
    /// Polygon.
    Polygon,
    /// BNB Smart Chain.
    BinanceSmartChain,
    /// Avalanche.
    Avalanche,
    /// Arbitrum.
    Arbitrum,
}

/// A bridge tip request submitted by a relayer.
#[derive(Clone, Debug)]
pub struct BridgeTip {
    /// Originating chain.
    pub source_chain: SourceChain,
    /// Unique transaction hash on the source chain.
    pub source_tx_hash: Bytes32,
    /// Creator to receive the tip.
    pub creator: Address,
    /// Amount in the bridge token's smallest unit.
    pub amount: i128,
    /// Optional message from the tipper.
    pub message: String,
}

impl TipJarContract {
    /// Processes a cross-chain tip submitted by the authorised relayer.
    pub fn bridge_tip(&mut self, relayer: Address, tip: BridgeTip) -> (r: Result<Vec<Effect>, TipJarError>)
        requires
            old(self).wf(),
            bridge_tip_fits(old(self)@, relayer, tip),
        ensures
            final(self).wf(),
            runs_as(old(self)@, final(self)@, r, bridge_tip_outcome(old(self)@, relayer, tip)),
    {
        process_bridge_tip(self, &relayer, &tip)
    }
}

} // verus!
