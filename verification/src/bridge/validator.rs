//! Checks on bridged tips and their replay guard.

use vstd::prelude::*;
use crate::types::Bytes32;
use crate::bridge::SourceChain;
use crate::contract::{TipJarContract, TipJarState};

verus! {

/// Whether the source transaction `source_tx_hash` was already processed.
pub open spec fn processed_in(s: TipJarState, source_tx_hash: Bytes32) -> bool {
    s.bridge_processed.contains_key(source_tx_hash) && s.bridge_processed[source_tx_hash]
}

/// Returns `true` if this source transaction has already been processed.
pub fn is_processed(jar: &TipJarContract, source_tx_hash: &Bytes32) -> (r: bool)
    requires
        jar.wf(),
    ensures
        r == processed_in(jar@, *source_tx_hash),
{
    match jar.bridge_processed.get(source_tx_hash) {
        Some(b) => b,
        None => false,
    }
}

/// Marks a source transaction as processed to prevent replay.
pub fn mark_processed(jar: &mut TipJarContract, source_tx_hash: &Bytes32)
    requires
        old(jar).wf(),
    ensures
        final(jar).wf(),
        final(jar)@ == (TipJarState {
            bridge_processed: old(jar)@.bridge_processed.insert(*source_tx_hash, true),
            ..old(jar)@
        }),
{
    jar.bridge_processed.insert(*source_tx_hash, true);
}

/// Validates a bridge tip request: the amount must be positive and the
/// source transaction must not have been processed (replay protection).
/// Any source chain is accepted.
pub fn validate_bridge_tip(
    jar: &TipJarContract,
    source_chain: &SourceChain,
    source_tx_hash: &Bytes32,
    amount: i128,
) -> (r: Result<(), String>)
    requires
        jar.wf(),
    ensures
        amount <= 0 ==> (r matches Err(m) && m@ == "invalid amount"@),
        amount > 0 && processed_in(jar@, *source_tx_hash) ==> (r matches Err(m) && m@
            == "already processed"@),
        r is Ok <==> amount > 0 && !processed_in(jar@, *source_tx_hash),
{
    let _ = source_chain;
    if amount <= 0 {
        return Err("invalid amount".to_owned());
    }
    if is_processed(jar, source_tx_hash) {
        return Err("already processed".to_owned());
    }
    Ok(())
}

} // verus!
