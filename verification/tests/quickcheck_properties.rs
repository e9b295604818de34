use quickcheck::{quickcheck, TestResult};
use std::collections::HashMap;
use tipjar::effects::{Effect, Party};
use tipjar::{Address, TipJarContract};

// ── helpers ──────────────────────────────────────────────────────────────────

/// Token balances as the host keeps them; runs the transfers a jar asks for.
struct Tokens {
    balances: HashMap<(Address, Party), i128>,
}

impl Tokens {
    fn balance(&self, token: &Address, who: &Address) -> i128 {
        *self.balances.get(&(*token, Party::Holder(*who))).unwrap_or(&0)
    }

    fn mint(&mut self, token: &Address, to: &Address, amount: i128) {
        let b = self.balance(token, to);
        self.balances.insert((*token, Party::Holder(*to)), b + amount);
    }

    fn run(&mut self, effects: &[Effect]) {
        for e in effects {
            if let Effect::Transfer { token, from, to, amount } = e {
                let fb = *self.balances.get(&(*token, *from)).unwrap_or(&0);
                assert!(*amount >= 0 && fb >= *amount, "transfer refused by the token");
                self.balances.insert((*token, *from), fb - amount);
                let tb = *self.balances.get(&(*token, *to)).unwrap_or(&0);
                self.balances.insert((*token, *to), tb + amount);
            }
        }
    }
}

fn address(first: u8, last: u8) -> Address {
    let mut k = [b'A'; 56];
    k[0] = first;
    k[55] = last;
    Address::new(k)
}

fn setup() -> (TipJarContract, Tokens, Address, Address, Address) {
    let token = address(b'C', b'T');
    let admin = address(b'G', b'A');
    let mut jar = TipJarContract::new();
    jar.init(admin).unwrap();
    jar.add_token(admin, token).unwrap();
    let sender = address(b'G', b'S');
    let creator = address(b'G', b'C');
    (jar, Tokens { balances: HashMap::new() }, token, sender, creator)
}

// ── quickcheck properties ────────────────────────────────────────────────────

#[test]
fn qc_tip_amount_conservation() {
    fn prop(amount: i64) -> TestResult {
        if amount <= 0 || amount > 1_000_000 {
            return TestResult::discard();
        }
        let amount = amount as i128;

        let (mut jar, mut tokens, token, sender, creator) = setup();
        tokens.mint(&token, &sender, amount);

        let sender_before = tokens.balance(&token, &sender);
        let effects = jar.tip(sender, creator, token, amount).unwrap();
        tokens.run(&effects);
        let sender_after = tokens.balance(&token, &sender);

        TestResult::from_bool(sender_before - sender_after == amount)
    }
    quickcheck(prop as fn(i64) -> TestResult);
}

#[test]
fn qc_withdraw_clears_balance() {
    fn prop(amount: i64) -> TestResult {
        if amount <= 0 || amount > 1_000_000 {
            return TestResult::discard();
        }
        let amount = amount as i128;

        let (mut jar, mut tokens, token, sender, creator) = setup();
        tokens.mint(&token, &sender, amount);
        let effects = jar.tip(sender, creator, token, amount).unwrap();
        tokens.run(&effects);

        let balance_before = jar.get_withdrawable_balance(creator, token);
        let effects = jar.withdraw(creator, token).unwrap();
        tokens.run(&effects);
        let balance_after = jar.get_withdrawable_balance(creator, token);

        TestResult::from_bool(balance_before == amount && balance_after == 0)
    }
    quickcheck(prop as fn(i64) -> TestResult);
}

#[test]
fn qc_total_tips_monotonic() {
    fn prop(amounts: Vec<u16>) -> TestResult {
        if amounts.is_empty() || amounts.len() > 10 {
            return TestResult::discard();
        }

        let (mut jar, mut tokens, token, sender, creator) = setup();

        let total: i128 = amounts.iter().map(|&a| a as i128).sum();
        if total == 0 || total > 1_000_000 {
            return TestResult::discard();
        }

        tokens.mint(&token, &sender, total);

        let mut expected_total = 0i128;
        for &amt in &amounts {
            let amt = amt as i128;
            if amt == 0 {
                continue;
            }
            let effects = jar.tip(sender, creator, token, amt).unwrap();
            tokens.run(&effects);
            expected_total += amt;
            let actual_total = jar.get_total_tips(creator, token);
            if actual_total != expected_total {
                return TestResult::failed();
            }
        }

        TestResult::passed()
    }
    quickcheck(prop as fn(Vec<u16>) -> TestResult);
}
