use std::collections::HashMap;
use tipjar::effects::{Effect, Party};
use tipjar::privacy::commitment;
use tipjar::privacy::{CommitmentOpening, PrivateTip};
use tipjar::{Address, Bytes32, TipJarContract, TipJarError};

// ── helpers ──────────────────────────────────────────────────────────────────

/// Token balances as the host keeps them; runs the transfers a jar asks for.
struct Tokens {
    balances: HashMap<(Address, Party), i128>,
}

impl Tokens {
    fn balance(&self, token: &Address, who: Party) -> i128 {
        *self.balances.get(&(*token, who)).unwrap_or(&0)
    }

    fn mint(&mut self, token: &Address, to: &Address, amount: i128) {
        let b = self.balance(token, Party::Holder(*to));
        self.balances.insert((*token, Party::Holder(*to)), b + amount);
    }

    fn run(&mut self, effects: &[Effect]) {
        for e in effects {
            if let Effect::Transfer { token, from, to, amount } = e {
                let fb = self.balance(token, *from);
                assert!(*amount >= 0 && fb >= *amount, "transfer refused by the token");
                self.balances.insert((*token, *from), fb - amount);
                let tb = self.balance(token, *to);
                self.balances.insert((*token, *to), tb + amount);
            }
        }
    }
}

fn account(seed: u8) -> Address {
    let mut k = [b'A'; 56];
    k[0] = b'G';
    k[55] = b'A' + (seed % 26);
    k[54] = b'A' + (seed / 26 % 26);
    Address::new(k)
}

struct PrivacyCtx {
    jar: TipJarContract,
    tokens: Tokens,
    token: Address,
    next: u8,
}

impl PrivacyCtx {
    fn new() -> Self {
        let mut token_key = [b'B'; 56];
        token_key[0] = b'C';
        let token = Address::new(token_key);
        let admin = account(0);
        let mut jar = TipJarContract::new();
        jar.init(admin).unwrap();
        jar.add_token(admin, token).unwrap();
        Self { jar, tokens: Tokens { balances: HashMap::new() }, token, next: 1 }
    }

    fn generate(&mut self) -> Address {
        self.next += 1;
        account(self.next)
    }

    fn mint(&mut self, to: &Address, amount: i128) {
        let token = self.token;
        self.tokens.mint(&token, to, amount);
    }

    fn bytes32(&self, seed: u8) -> Bytes32 {
        Bytes32::new([seed; 32])
    }

    fn make_tip(&self, creator: &Address, amount: i128, bf_seed: u8, null_seed: u8) -> (PrivateTip, CommitmentOpening) {
        let blinding_factor = self.bytes32(bf_seed);
        let commitment = commitment::compute_commitment(creator, amount, &blinding_factor);
        let tip = PrivateTip { commitment, nullifier: self.bytes32(null_seed) };
        let opening = CommitmentOpening { creator: *creator, amount, blinding_factor };
        (tip, opening)
    }

    fn private_tip(&mut self, sender: &Address, tip: &PrivateTip, amount: i128) -> Result<(), TipJarError> {
        let effects = self.jar.private_tip(*sender, self.token, *tip, amount)?;
        self.tokens.run(&effects);
        Ok(())
    }

    fn private_withdraw(&mut self, tip: &PrivateTip, opening: &CommitmentOpening) -> Result<(), TipJarError> {
        let effects = self.jar.private_withdraw(*tip, *opening)?;
        self.tokens.run(&effects);
        Ok(())
    }
}

// ── commitment tests ──────────────────────────────────────────────────────────

#[test]
fn test_commitment_verify_correct_opening() {
    let mut ctx = PrivacyCtx::new();
    let creator = ctx.generate();
    let bf = ctx.bytes32(1);
    let c = commitment::compute_commitment(&creator, 500, &bf);
    let opening = CommitmentOpening { creator, amount: 500, blinding_factor: bf };
    assert!(commitment::verify_opening(&c, &opening));
}

#[test]
fn test_commitment_wrong_amount_fails() {
    let mut ctx = PrivacyCtx::new();
    let creator = ctx.generate();
    let bf = ctx.bytes32(2);
    let c = commitment::compute_commitment(&creator, 500, &bf);
    let opening = CommitmentOpening { creator, amount: 999, blinding_factor: bf };
    assert!(!commitment::verify_opening(&c, &opening));
}

#[test]
fn test_commitment_wrong_blinding_factor_fails() {
    let mut ctx = PrivacyCtx::new();
    let creator = ctx.generate();
    let c = commitment::compute_commitment(&creator, 100, &ctx.bytes32(3));
    let opening = CommitmentOpening { creator, amount: 100, blinding_factor: ctx.bytes32(4) };
    assert!(!commitment::verify_opening(&c, &opening));
}

// ── private_tip / private_withdraw flow ──────────────────────────────────────

#[test]
fn test_private_tip_and_withdraw_happy_path() {
    let mut ctx = PrivacyCtx::new();
    let sender = ctx.generate();
    let creator = ctx.generate();
    ctx.mint(&sender, 300);

    let (tip, opening) = ctx.make_tip(&creator, 300, 10, 20);
    ctx.private_tip(&sender, &tip, 300).unwrap();

    // Creator withdraws by revealing the opening.
    ctx.private_withdraw(&tip, &opening).unwrap();

    assert_eq!(ctx.tokens.balance(&ctx.token, Party::Holder(creator)), 300);
}

#[test]
fn test_private_withdraw_double_spend_rejected() {
    let mut ctx = PrivacyCtx::new();
    let sender = ctx.generate();
    let creator = ctx.generate();
    ctx.mint(&sender, 300);

    let (tip, opening) = ctx.make_tip(&creator, 300, 11, 21);
    ctx.private_tip(&sender, &tip, 300).unwrap();
    ctx.private_withdraw(&tip, &opening).unwrap();

    // Second withdrawal with same nullifier must fail.
    let result = ctx.private_withdraw(&tip, &opening);
    assert!(result.is_err());
}

#[test]
fn test_private_withdraw_wrong_opening_rejected() {
    let mut ctx = PrivacyCtx::new();
    let sender = ctx.generate();
    let creator = ctx.generate();
    ctx.mint(&sender, 200);

    let (tip, _correct_opening) = ctx.make_tip(&creator, 200, 12, 22);
    ctx.private_tip(&sender, &tip, 200).unwrap();

    // Wrong blinding factor → commitment mismatch.
    let bad_opening = CommitmentOpening { creator, amount: 200, blinding_factor: ctx.bytes32(99) };
    let result = ctx.private_withdraw(&tip, &bad_opening);
    assert_eq!(result, Err(TipJarError::Unauthorized));
}

#[test]
fn test_private_tip_invalid_amount_rejected() {
    let mut ctx = PrivacyCtx::new();
    let sender = ctx.generate();
    let creator = ctx.generate();

    let (tip, _) = ctx.make_tip(&creator, 0, 13, 23);
    let result = ctx.private_tip(&sender, &tip, 0);
    assert_eq!(result, Err(TipJarError::InvalidAmount));
}

#[test]
fn test_private_tip_duplicate_commitment_rejected() {
    let mut ctx = PrivacyCtx::new();
    let sender = ctx.generate();
    let creator = ctx.generate();
    ctx.mint(&sender, 600);

    let (tip, _) = ctx.make_tip(&creator, 300, 14, 24);
    ctx.private_tip(&sender, &tip, 300).unwrap();

    // Same commitment again must fail.
    let result = ctx.private_tip(&sender, &tip, 300);
    assert_eq!(result, Err(TipJarError::InvalidAmount));
}

#[test]
fn test_private_tip_anonymity_no_creator_link() {
    // No CreatorBalance is updated by private_tip — the link is only
    // established at withdrawal time via the opening.
    let mut ctx = PrivacyCtx::new();
    let sender = ctx.generate();
    let creator = ctx.generate();
    ctx.mint(&sender, 500);

    let (tip, _) = ctx.make_tip(&creator, 500, 15, 25);
    ctx.private_tip(&sender, &tip, 500).unwrap();

    // Creator's balance should be zero — no link established yet.
    assert_eq!(ctx.jar.get_withdrawable_balance(creator, ctx.token), 0);
}
