//! Swapping an input token into the tip token through the configured DEX.

use vstd::prelude::*;
use crate::types::Address;
use crate::contract::TipJarContract;
use crate::effects::{Effect, Party};

verus! {

/// Swaps `input_token` for `tip_token` through the jar's DEX: the host takes
/// `input_amount` from `from` into the jar, lets the DEX pull it until the
/// ledger after `ledger_sequence`, and asks the DEX for the swap, whose
/// answer is the output amount received.
pub fn swap_to_tip_token(
    jar: &TipJarContract,
    from: &Address,
    input_token: &Address,
    tip_token: &Address,
    input_amount: i128,
    min_output: i128,
    ledger_sequence: u32,
) -> (r: Vec<Effect>)
    requires
        jar@.dex_contract is Some,
        ledger_sequence < u32::MAX,
    ensures
        r@ == seq![
            Effect::Transfer {
                token: *input_token,
                from: Party::Holder(*from),
                to: Party::Jar,
                amount: input_amount,
            },
            Effect::Approve {
                token: *input_token,
                spender: jar@.dex_contract->0,
                amount: input_amount,
                expiration_ledger: (ledger_sequence + 1) as u32,
            },
            Effect::Swap {
                dex: jar@.dex_contract->0,
                input_token: *input_token,
                output_token: *tip_token,
                input_amount,
                min_output,
            },
        ],
{
    let dex = jar.dex_contract.unwrap();
    let mut effects: Vec<Effect> = Vec::new();
    effects.push(
        Effect::Transfer { token: *input_token, from: Party::Holder(*from), to: Party::Jar, amount: input_amount },
    );
    effects.push(
        Effect::Approve {
            token: *input_token,
            spender: dex,
            amount: input_amount,
            expiration_ledger: ledger_sequence + 1,
        },
    );
    effects.push(
        Effect::Swap { dex, input_token: *input_token, output_token: *tip_token, input_amount, min_output },
    );
    assert(effects@ =~= seq![
        Effect::Transfer { token: *input_token, from: Party::Holder(*from), to: Party::Jar, amount: input_amount },
        Effect::Approve {
            token: *input_token,
            spender: dex,
            amount: input_amount,
            expiration_ledger: (ledger_sequence + 1) as u32,
        },
        Effect::Swap { dex, input_token: *input_token, output_token: *tip_token, input_amount, min_output },
    ]);
    effects
}

} // verus!
