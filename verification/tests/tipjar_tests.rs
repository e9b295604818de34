use sha2::{Digest, Sha256};
use tipjar::bridge::relayer::process_bridge_tip;
use tipjar::bridge::validator::{is_processed, mark_processed, validate_bridge_tip};
use tipjar::bridge::{BridgeTip, SourceChain};
use tipjar::effects::{Effect, Party, TipJarEvent};
use tipjar::fees::{congestion_level, CongestionLevel, BASE_FEE_BPS};
use tipjar::integrations::swap::swap_to_tip_token;
use tipjar::privacy::commitment::{commitment_preimage_bytes, compute_commitment};
use tipjar::privacy::zk_proof::{is_nullifier_used, mark_nullifier_used, verify_private_tip};
use tipjar::privacy::{CommitmentOpening, PrivateTip};
use tipjar::{Address, Bytes32, TipJarContract, TipJarError};

fn address(first: u8, last: u8) -> Address {
    let mut k = [b'A'; 56];
    k[0] = first;
    k[55] = last;
    Address::new(k)
}

fn token() -> Address {
    address(b'C', b'T')
}
fn admin() -> Address {
    address(b'G', b'A')
}
fn sender() -> Address {
    address(b'G', b'S')
}
fn creator() -> Address {
    address(b'G', b'C')
}
fn relayer() -> Address {
    address(b'G', b'R')
}

fn ready_jar() -> TipJarContract {
    let mut jar = TipJarContract::new();
    jar.init(admin()).unwrap();
    jar.add_token(admin(), token()).unwrap();
    jar
}

// ── setup and whitelist ──────────────────────────────────────────────────────

#[test]
fn init_twice_is_refused() {
    let mut jar = TipJarContract::new();
    assert_eq!(jar.get_admin(), None);
    assert_eq!(jar.init(admin()), Ok(()));
    assert_eq!(jar.init(sender()), Err(TipJarError::AlreadyInitialized));
    assert_eq!(jar.get_admin(), Some(admin()));
}

#[test]
fn only_admin_whitelists_tokens() {
    let mut jar = TipJarContract::new();
    jar.init(admin()).unwrap();
    assert_eq!(jar.add_token(sender(), token()), Err(TipJarError::Unauthorized));
    assert!(!jar.is_whitelisted(&token()));
    assert_eq!(jar.add_token(admin(), token()), Ok(()));
    assert!(jar.is_whitelisted(&token()));
}

// ── tips and withdrawals ─────────────────────────────────────────────────────

#[test]
fn tip_moves_amount_into_escrow_and_credits_creator() {
    let mut jar = ready_jar();
    let effects = jar.tip(sender(), creator(), token(), 250).unwrap();
    assert_eq!(
        effects,
        vec![
            Effect::Transfer { token: token(), from: Party::Holder(sender()), to: Party::Jar, amount: 250 },
            Effect::Publish(TipJarEvent::Tip { creator: creator(), sender: sender(), amount: 250 }),
        ]
    );
    assert_eq!(jar.get_withdrawable_balance(creator(), token()), 250);
    assert_eq!(jar.get_total_tips(creator(), token()), 250);
    assert_eq!(jar.get_withdrawable_balance(sender(), token()), 0);
}

#[test]
fn tip_refuses_bad_amount_and_unlisted_token() {
    let mut jar = ready_jar();
    assert_eq!(jar.tip(sender(), creator(), token(), 0), Err(TipJarError::InvalidAmount));
    assert_eq!(jar.tip(sender(), creator(), token(), -5), Err(TipJarError::InvalidAmount));
    let other = address(b'C', b'X');
    assert_eq!(jar.tip(sender(), creator(), other, 10), Err(TipJarError::TokenNotWhitelisted));
    assert_eq!(jar.get_total_tips(creator(), other), 0);
}

#[test]
fn withdraw_pays_whole_balance_once() {
    let mut jar = ready_jar();
    jar.tip(sender(), creator(), token(), 100).unwrap();
    jar.tip(sender(), creator(), token(), 40).unwrap();
    let effects = jar.withdraw(creator(), token()).unwrap();
    assert_eq!(
        effects,
        vec![
            Effect::Transfer { token: token(), from: Party::Jar, to: Party::Holder(creator()), amount: 140 },
            Effect::Publish(TipJarEvent::Withdraw { creator: creator(), amount: 140 }),
        ]
    );
    assert_eq!(jar.get_withdrawable_balance(creator(), token()), 0);
    assert_eq!(jar.get_total_tips(creator(), token()), 140);
    assert_eq!(jar.withdraw(creator(), token()), Err(TipJarError::NothingToWithdraw));
}

#[test]
fn withdraw_with_nothing_is_refused() {
    let mut jar = ready_jar();
    assert_eq!(jar.withdraw(creator(), token()), Err(TipJarError::NothingToWithdraw));
}

#[test]
fn totals_keep_growing_across_withdrawals() {
    let mut jar = ready_jar();
    jar.tip(sender(), creator(), token(), 7).unwrap();
    jar.withdraw(creator(), token()).unwrap();
    jar.tip(sender(), creator(), token(), 5).unwrap();
    assert_eq!(jar.get_total_tips(creator(), token()), 12);
    assert_eq!(jar.get_withdrawable_balance(creator(), token()), 5);
}

// ── conditional tips ─────────────────────────────────────────────────────────

#[test]
fn conditional_tip_follows_the_verdict() {
    assert_eq!(
        TipJarContract::execute_conditional_tip(sender(), creator(), token(), 0, true),
        Err(TipJarError::InvalidAmount)
    );
    assert_eq!(
        TipJarContract::execute_conditional_tip(sender(), creator(), token(), 9, false),
        Ok((false, vec![]))
    );
    assert_eq!(
        TipJarContract::execute_conditional_tip(sender(), creator(), token(), 9, true),
        Ok((
            true,
            vec![
                Effect::Transfer {
                    token: token(),
                    from: Party::Holder(sender()),
                    to: Party::Holder(creator()),
                    amount: 9
                },
                Effect::Publish(TipJarEvent::ConditionalTip {
                    sender: sender(),
                    creator: creator(),
                    token: token(),
                    amount: 9
                }),
            ]
        ))
    );
}

#[test]
fn offchain_condition_reads_back() {
    let mut jar = ready_jar();
    let id = Bytes32::new([5; 32]);
    assert!(!jar.get_offchain_condition(&id));
    jar.set_offchain_condition(id, true);
    assert!(jar.get_offchain_condition(&id));
    assert!(!jar.get_offchain_condition(&Bytes32::new([6; 32])));
    jar.set_offchain_condition(id, false);
    assert!(!jar.get_offchain_condition(&id));
}

// ── fees ─────────────────────────────────────────────────────────────────────

#[test]
fn congestion_numbers_map_to_levels() {
    assert_eq!(congestion_level(0), CongestionLevel::Low);
    assert_eq!(congestion_level(1), CongestionLevel::Normal);
    assert_eq!(congestion_level(2), CongestionLevel::High);
    assert_eq!(congestion_level(7), CongestionLevel::Normal);
}

#[test]
fn tip_with_fee_credits_net_and_reports_rate() {
    let mut jar = ready_jar();
    assert_eq!(jar.get_current_fee_bps(), BASE_FEE_BPS);
    assert_eq!(BASE_FEE_BPS, 100);
    let effects = jar.tip_with_fee(sender(), creator(), token(), 1000, 15, 150).unwrap();
    assert_eq!(
        effects,
        vec![
            Effect::Transfer { token: token(), from: Party::Holder(sender()), to: Party::Jar, amount: 1000 },
            Effect::Publish(TipJarEvent::Tip { creator: creator(), sender: sender(), amount: 985 }),
            Effect::Publish(TipJarEvent::Fee { creator: creator(), fee: 15, fee_bps: 150 }),
        ]
    );
    assert_eq!(jar.get_current_fee_bps(), 150);
    assert_eq!(jar.get_withdrawable_balance(creator(), token()), 985);
    assert_eq!(jar.get_total_tips(creator(), token()), 985);
}

#[test]
fn tip_with_fee_credits_after_a_plain_tip() {
    let mut jar = ready_jar();
    jar.tip(sender(), creator(), token(), 50).unwrap();
    jar.tip_with_fee(sender(), creator(), token(), 1000, 10, 100).unwrap();
    assert_eq!(jar.get_withdrawable_balance(creator(), token()), 1040);
    assert_eq!(jar.get_total_tips(creator(), token()), 1040);
    let effects = jar.withdraw(creator(), token()).unwrap();
    assert_eq!(
        effects[0],
        Effect::Transfer { token: token(), from: Party::Jar, to: Party::Holder(creator()), amount: 1040 }
    );
    assert_eq!(jar.get_total_tips(creator(), token()), 1040);
}

#[test]
fn tip_with_fee_may_keep_the_whole_tip() {
    let mut jar = ready_jar();
    jar.tip_with_fee(sender(), creator(), token(), 20, 20, 10_000).unwrap();
    assert_eq!(jar.get_withdrawable_balance(creator(), token()), 0);
    assert_eq!(jar.get_current_fee_bps(), 10_000);
}

#[test]
fn tip_with_fee_refusals() {
    let mut jar = ready_jar();
    assert_eq!(jar.tip_with_fee(sender(), creator(), token(), 0, 0, 100), Err(TipJarError::InvalidAmount));
    assert_eq!(
        jar.tip_with_fee(sender(), creator(), address(b'C', b'Z'), 10, 1, 100),
        Err(TipJarError::TokenNotWhitelisted)
    );
    assert_eq!(jar.get_current_fee_bps(), 100);
}

// ── upgrades ─────────────────────────────────────────────────────────────────

#[test]
fn upgrades_count_versions() {
    let mut jar = TipJarContract::new();
    let hash = Bytes32::new([9; 32]);
    assert_eq!(jar.upgrade(hash), Err(TipJarError::UpgradeUnauthorized));
    assert_eq!(jar.get_version(), 0);
    jar.init(admin()).unwrap();
    let effects = jar.upgrade(hash).unwrap();
    assert_eq!(
        effects,
        vec![Effect::UpdateWasm { wasm_hash: hash }, Effect::Publish(TipJarEvent::Upgraded { version: 1 })]
    );
    jar.upgrade(hash).unwrap();
    assert_eq!(jar.get_version(), 2);
}

// ── bridge ───────────────────────────────────────────────────────────────────

fn bridge_tip(hash: u8, amount: i128) -> BridgeTip {
    BridgeTip {
        source_chain: SourceChain::Polygon,
        source_tx_hash: Bytes32::new([hash; 32]),
        creator: creator(),
        amount,
        message: "gm".to_string(),
    }
}

#[test]
fn bridge_tip_needs_the_configured_relayer() {
    let mut jar = ready_jar();
    assert_eq!(jar.bridge_tip(relayer(), bridge_tip(1, 10)), Err(TipJarError::Unauthorized));
    jar.set_bridge_relayer(relayer(), token());
    assert_eq!(jar.bridge_tip(sender(), bridge_tip(1, 10)), Err(TipJarError::Unauthorized));
}

#[test]
fn bridge_tip_credits_and_blocks_replay() {
    let mut jar = ready_jar();
    jar.set_bridge_relayer(relayer(), token());
    let tip = bridge_tip(1, 75);
    let effects = jar.bridge_tip(relayer(), tip.clone()).unwrap();
    assert_eq!(
        effects,
        vec![
            Effect::Transfer { token: token(), from: Party::Holder(relayer()), to: Party::Jar, amount: 75 },
            Effect::Publish(TipJarEvent::Bridge {
                creator: creator(),
                source_chain: SourceChain::Polygon,
                source_tx_hash: Bytes32::new([1; 32]),
                amount: 75
            }),
        ]
    );
    assert_eq!(jar.get_withdrawable_balance(creator(), token()), 75);
    assert_eq!(jar.get_total_tips(creator(), token()), 75);
    assert!(is_processed(&jar, &Bytes32::new([1; 32])));
    jar.tip(sender(), creator(), token(), 5).unwrap();
    jar.bridge_tip(relayer(), bridge_tip(9, 20)).unwrap();
    assert_eq!(jar.get_withdrawable_balance(creator(), token()), 100);
    assert_eq!(jar.get_total_tips(creator(), token()), 100);
    assert_eq!(jar.bridge_tip(relayer(), tip), Err(TipJarError::InvalidAmount));
    assert_eq!(process_bridge_tip(&mut jar, &relayer(), &bridge_tip(2, 0)), Err(TipJarError::InvalidAmount));
}

#[test]
fn bridge_tip_without_token_is_refused() {
    let mut jar = ready_jar();
    jar.bridge_relayer = Some(relayer());
    assert_eq!(jar.bridge_tip(relayer(), bridge_tip(3, 5)), Err(TipJarError::TokenNotWhitelisted));
    assert!(!is_processed(&jar, &Bytes32::new([3; 32])));
}

#[test]
fn bridge_validation_messages() {
    let mut jar = ready_jar();
    let h = Bytes32::new([4; 32]);
    assert_eq!(validate_bridge_tip(&jar, &SourceChain::Ethereum, &h, 0), Err("invalid amount".to_string()));
    assert_eq!(validate_bridge_tip(&jar, &SourceChain::Arbitrum, &h, 3), Ok(()));
    mark_processed(&mut jar, &h);
    assert_eq!(validate_bridge_tip(&jar, &SourceChain::Avalanche, &h, 3), Err("already processed".to_string()));
}

// ── privacy ──────────────────────────────────────────────────────────────────

#[test]
fn commitment_is_sha256_of_the_layout() {
    let bf = Bytes32::new([7; 32]);
    let mut expected_input = creator().strkey.to_vec();
    expected_input.extend_from_slice(&500i128.to_be_bytes());
    expected_input.extend_from_slice(&[7; 32]);
    assert_eq!(commitment_preimage_bytes(&creator(), 500, &bf), expected_input);
    let digest: [u8; 32] = Sha256::digest(&expected_input).into();
    assert_eq!(compute_commitment(&creator(), 500, &bf), Bytes32::new(digest));
    assert_ne!(compute_commitment(&creator(), 500, &bf).bytes.to_vec(), expected_input[..32].to_vec());
}

#[test]
fn negative_amounts_are_encoded_in_twos_complement() {
    let bf = Bytes32::new([0; 32]);
    let bytes = commitment_preimage_bytes(&creator(), -1, &bf);
    assert_eq!(bytes.len(), 104);
    assert_eq!(&bytes[56..72], &[0xff; 16]);
}

#[test]
fn private_tip_verification_messages() {
    let mut jar = ready_jar();
    let bf = Bytes32::new([1; 32]);
    let tip = PrivateTip { commitment: compute_commitment(&creator(), 40, &bf), nullifier: Bytes32::new([2; 32]) };
    let good = CommitmentOpening { creator: creator(), amount: 40, blinding_factor: bf };
    let bad = CommitmentOpening { creator: sender(), amount: 40, blinding_factor: bf };
    assert_eq!(verify_private_tip(&jar, &tip, &good), Ok(()));
    assert_eq!(verify_private_tip(&jar, &tip, &bad), Err("invalid commitment opening"));
    assert!(!is_nullifier_used(&jar, &tip.nullifier));
    mark_nullifier_used(&mut jar, &tip.nullifier);
    assert!(is_nullifier_used(&jar, &tip.nullifier));
    assert_eq!(verify_private_tip(&jar, &tip, &good), Err("nullifier already used"));
}

#[test]
fn private_withdraw_of_unknown_commitment_has_nothing() {
    let mut jar = ready_jar();
    let bf = Bytes32::new([8; 32]);
    let tip = PrivateTip { commitment: compute_commitment(&creator(), 10, &bf), nullifier: Bytes32::new([3; 32]) };
    let opening = CommitmentOpening { creator: creator(), amount: 10, blinding_factor: bf };
    assert_eq!(jar.private_withdraw(tip, opening), Err(TipJarError::NothingToWithdraw));
    assert!(!is_nullifier_used(&jar, &tip.nullifier));
}

#[test]
fn private_round_trip_pays_the_deposit() {
    let mut jar = ready_jar();
    let bf = Bytes32::new([8; 32]);
    let tip = PrivateTip { commitment: compute_commitment(&creator(), 60, &bf), nullifier: Bytes32::new([4; 32]) };
    let opening = CommitmentOpening { creator: creator(), amount: 60, blinding_factor: bf };
    let deposit = jar.private_tip(sender(), token(), tip, 60).unwrap();
    assert_eq!(
        deposit,
        vec![
            Effect::Transfer { token: token(), from: Party::Holder(sender()), to: Party::Jar, amount: 60 },
            Effect::Publish(TipJarEvent::PrivateTip { commitment: tip.commitment, nullifier: tip.nullifier }),
        ]
    );
    let payout = jar.private_withdraw(tip, opening).unwrap();
    assert_eq!(
        payout,
        vec![
            Effect::Transfer { token: token(), from: Party::Jar, to: Party::Holder(creator()), amount: 60 },
            Effect::Publish(TipJarEvent::PrivateWithdraw { creator: creator(), amount: 60 }),
        ]
    );
    assert_eq!(
        jar.private_tip(sender(), address(b'C', b'Q'), tip, 60),
        Err(TipJarError::TokenNotWhitelisted)
    );
}

// ── swaps ────────────────────────────────────────────────────────────────────

#[test]
fn swap_plans_transfer_approval_and_swap() {
    let mut jar = ready_jar();
    let dex = address(b'C', b'D');
    jar.dex_contract = Some(dex);
    let input = address(b'C', b'I');
    let effects = swap_to_tip_token(&jar, &sender(), &input, &token(), 500, 480, 41);
    assert_eq!(
        effects,
        vec![
            Effect::Transfer { token: input, from: Party::Holder(sender()), to: Party::Jar, amount: 500 },
            Effect::Approve { token: input, spender: dex, amount: 500, expiration_ledger: 42 },
            Effect::Swap { dex, input_token: input, output_token: token(), input_amount: 500, min_output: 480 },
        ]
    );
}

// ── errors ───────────────────────────────────────────────────────────────────

#[test]
fn error_numbers_round_trip() {
    assert_eq!(TipJarError::AlreadyInitialized.code(), 1);
    assert_eq!(TipJarError::Unauthorized.code(), 9);
    assert_eq!(TipJarError::UpgradeUnauthorized.code(), 23);
    for n in 1..=23u32 {
        assert_eq!(TipJarError::from_code(n).unwrap().code(), n);
    }
    assert_eq!(TipJarError::from_code(0), None);
    assert_eq!(TipJarError::from_code(24), None);
}

// ── escrow conservation ──────────────────────────────────────────────────────

fn fees_kept(effects: &[Effect]) -> i128 {
    effects
        .iter()
        .map(|e| match e {
            Effect::Publish(TipJarEvent::Fee { fee, .. }) => *fee,
            _ => 0,
        })
        .sum()
}

#[test]
fn escrow_with_fees_and_bridged_tips_matches_net_inflow() {
    let mut jar = ready_jar();
    jar.set_bridge_relayer(relayer(), token());
    let mut net = 0;
    let mut step = |effects: Vec<Effect>, net: &mut i128| {
        *net += jar_inflow(&effects, &token()) - fees_kept(&effects);
    };
    step(jar.tip(sender(), creator(), token(), 40).unwrap(), &mut net);
    step(jar.tip_with_fee(sender(), creator(), token(), 100, 3, 300).unwrap(), &mut net);
    step(jar.bridge_tip(relayer(), bridge_tip(6, 25)).unwrap(), &mut net);
    assert_eq!(jar.get_withdrawable_balance(creator(), token()), net);
    assert_eq!(net, 162);
    step(jar.withdraw(creator(), token()).unwrap(), &mut net);
    assert_eq!(net, 0);
    assert_eq!(jar.get_withdrawable_balance(creator(), token()), 0);
    assert_eq!(jar.get_total_tips(creator(), token()), 162);
}

fn jar_inflow(effects: &[Effect], token: &Address) -> i128 {
    let mut net = 0;
    for e in effects {
        if let Effect::Transfer { token: t, from, to, amount } = e {
            if t == token {
                if *to == Party::Jar {
                    net += amount;
                }
                if *from == Party::Jar {
                    net -= amount;
                }
            }
        }
    }
    net
}

#[test]
fn escrow_balance_matches_net_inflow() {
    let mut jar = ready_jar();
    let mut net = 0;
    for (i, amount) in [30i128, 12, 0, 55, 1].iter().enumerate() {
        if let Ok(effects) = jar.tip(sender(), creator(), token(), *amount) {
            net += jar_inflow(&effects, &token());
        }
        if i % 2 == 1 {
            if let Ok(effects) = jar.withdraw(creator(), token()) {
                net += jar_inflow(&effects, &token());
            }
        }
        assert_eq!(jar.get_withdrawable_balance(creator(), token()), net);
    }
    assert_eq!(jar.get_total_tips(creator(), token()), 98);
    assert_eq!(net, 1);
}

// ── guards that stay up ──────────────────────────────────────────────────────

#[test]
fn spent_nullifier_and_processed_hash_stay_used() {
    let mut jar = ready_jar();
    jar.set_bridge_relayer(relayer(), token());
    jar.bridge_tip(relayer(), bridge_tip(1, 10)).unwrap();
    let bf = Bytes32::new([2; 32]);
    let nullifier = Bytes32::new([3; 32]);
    let tip = PrivateTip { commitment: compute_commitment(&creator(), 5, &bf), nullifier };
    let opening = CommitmentOpening { creator: creator(), amount: 5, blinding_factor: bf };
    jar.private_tip(sender(), token(), tip, 5).unwrap();
    jar.private_withdraw(tip, opening).unwrap();

    // Later calls of every kind.
    jar.tip(sender(), creator(), token(), 3).unwrap();
    jar.withdraw(creator(), token()).unwrap();
    jar.tip_with_fee(sender(), creator(), token(), 9, 1, 100).unwrap();
    jar.upgrade(Bytes32::new([4; 32])).unwrap();
    let bf2 = Bytes32::new([5; 32]);
    let tip2 = PrivateTip { commitment: compute_commitment(&creator(), 7, &bf2), nullifier };
    jar.private_tip(sender(), token(), tip2, 7).unwrap();

    assert_eq!(jar.bridge_tip(relayer(), bridge_tip(1, 10)), Err(TipJarError::InvalidAmount));
    let opening2 = CommitmentOpening { creator: creator(), amount: 7, blinding_factor: bf2 };
    assert_eq!(jar.private_withdraw(tip2, opening2), Err(TipJarError::Unauthorized));
    assert_eq!(jar.get_total_tips(creator(), token()), 21);
}
