use muni_bot::handlers::economy::payout::{ClaimResult, Payout, PayoutError, PAYOUT_INTERVAL_MS};
use muni_bot::handlers::economy::wallet::{Wallet, WalletError};
use muni_bot::handlers::economy::{EconomyProvider, TransferOutcome};

#[test]
fn spend_then_deposit_restores_balance() {
    let mut w = Wallet::new(1, 2);
    w.deposit(1000);
    assert_eq!(w.balance(), 1000);
    assert!(w.spend(300).is_ok());
    w.deposit(300);
    assert_eq!(w.balance(), 1000);
}

#[test]
fn deposits_commute() {
    let mut a = Wallet::new(1, 2);
    a.deposit(70);
    a.deposit(20);
    let mut b = Wallet::new(1, 2);
    b.deposit(20);
    b.deposit(70);
    assert_eq!(a.balance(), b.balance());
}

#[test]
fn wallet_scenario_deposit_overspend_then_drain() {
    let mut w = Wallet::new(10, 20);
    assert_eq!(w.balance(), 0);
    w.deposit(500);
    let r = w.spend(700);
    assert!(matches!(r, Err(WalletError::InsufficientFunds)));
    assert_eq!(w.balance(), 500);
    assert!(w.spend(500).is_ok());
    assert_eq!(w.balance(), 0);
}

#[test]
fn claim_with_empty_payout_is_noop() {
    let now: i64 = 1_000_000_000;
    let mut p = Payout::new(1, 2, now);
    let mut w = Wallet::new(1, 2);
    w.deposit(42);
    let r = p.claim_to_wallet(&mut w, now);
    assert!(matches!(r, Err(PayoutError::NothingToClaim)));
    assert_eq!(w.balance(), 42);
    // much later, still nothing to claim
    let r = p.claim_to_wallet(&mut w, now + 40 * PAYOUT_INTERVAL_MS);
    assert!(matches!(r, Err(PayoutError::NothingToClaim)));
    assert_eq!(w.balance(), 42);
}

#[test]
fn claim_respects_interval() {
    let now: i64 = 5_000_000_000;
    let mut p = Payout::new(1, 2, now);
    let mut w = Wallet::new(1, 2);
    p.deposit(100);
    // the fresh payout is backdated one interval, so it is claimable at once
    assert_eq!(p.next_payout_time(), now);
    let r = p.claim_to_wallet(&mut w, now).unwrap();
    assert_eq!(r.amount_claimed, 100);
    // a second claim right away is too soon
    p.deposit(50);
    let r = p.claim_to_wallet(&mut w, now + PAYOUT_INTERVAL_MS - 1);
    assert!(matches!(r, Err(PayoutError::TooSoon)));
    // and succeeds exactly at the boundary
    let r = p.claim_to_wallet(&mut w, now + PAYOUT_INTERVAL_MS).unwrap();
    assert_eq!(r.amount_claimed, 50);
    assert_eq!(w.balance(), 150);
}

#[test]
fn claim_scenario_at_interval_boundary() {
    let now: i64 = 9_000_000_000;
    // a payout created one full interval ago, holding 150 coins
    let mut p = Payout::new(7, 8, now);
    p.deposit(150);
    let mut w = Wallet::new(7, 8);
    w.deposit(25);
    let ClaimResult { amount_claimed, new_balance } = p.claim_to_wallet(&mut w, now).unwrap();
    assert_eq!(amount_claimed, 150);
    assert_eq!(new_balance, 25 + 150);
    assert_eq!(w.balance(), 175);
    // the payout is drained and restamped
    let r = p.claim_to_wallet(&mut w, now);
    assert!(matches!(r, Err(PayoutError::TooSoon)));
}

#[test]
fn salary_zero_for_trivial_words() {
    assert_eq!(EconomyProvider::calc_salary(""), 0);
    assert_eq!(EconomyProvider::calc_salary("ab cd e f"), 0);
    assert_eq!(EconomyProvider::calc_salary("wow!! such: spam???"), 0);
    assert_eq!(EconomyProvider::calc_salary("a b :) ^w^ <3"), 0);
}

#[test]
fn salary_exact_values() {
    // "hello world" is worth 10 valid characters
    assert_eq!(EconomyProvider::calc_salary("hello world"), 9);
    // punctuation disqualifies a word: only "world" pays here
    assert_eq!(EconomyProvider::calc_salary("hello!! world"), 4);
    // a word longer than ten characters is capped at ten
    assert_eq!(EconomyProvider::calc_salary("incomprehensibilities"), 9);
    assert_eq!(EconomyProvider::calc_salary("abc"), 2);
}

#[test]
fn salary_monotone_and_capped() {
    let mut longer = String::new();
    let mut previous = 0;
    for _ in 0..600 {
        longer.push_str("paying word ");
        let s = EconomyProvider::calc_salary(&longer);
        assert!(s >= previous);
        assert!(s < 1000);
        previous = s;
    }
    // deep into the curve the salary flattens just below the asymptote
    assert_eq!(previous, 999);
}

#[test]
fn transfer_checks_then_moves_coins() {
    let mut from = Wallet::new(1, 100);
    let mut to = Wallet::new(1, 200);
    from.deposit(80);
    assert_eq!(
        EconomyProvider::transfer(&mut from, &mut to, 0),
        TransferOutcome::EmptyTransfer
    );
    let mut same_user = Wallet::new(1, 100);
    assert_eq!(
        EconomyProvider::transfer(&mut from, &mut same_user, 10),
        TransferOutcome::SelfTransfer
    );
    assert_eq!(
        EconomyProvider::transfer(&mut from, &mut to, 81),
        TransferOutcome::InsufficientFunds { balance: 80 }
    );
    assert_eq!(
        EconomyProvider::transfer(&mut from, &mut to, 30),
        TransferOutcome::Sent { amount: 30, remaining: 50 }
    );
    assert_eq!(from.balance(), 50);
    assert_eq!(to.balance(), 30);
}

#[test]
fn message_salary_lands_in_payout() {
    let now: i64 = 2_000_000_000;
    let mut p = Payout::new(3, 4, now);
    EconomyProvider::pay_message_salary(&mut p, "hello world");
    EconomyProvider::pay_message_salary(&mut p, ":)");
    let mut w = Wallet::new(3, 4);
    let r = p.claim_to_wallet(&mut w, now).unwrap();
    assert_eq!(r.amount_claimed, 9);
}
