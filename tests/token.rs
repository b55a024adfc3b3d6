use reflection_treasury::error::ContractError;
use reflection_treasury::rate::{apply_rate, Rate, RateConfig, DECIMAL_FRACTIONAL};
use reflection_treasury::tax::query_tax;
use reflection_treasury::token::{TokenState, TransferOutcome};

fn s(x: &str) -> String {
    x.to_string()
}

/// Admin "admin", treasury "treasury", venue "pair", rates 10% / 50% / 10%.
fn taxed_token() -> TokenState {
    let mut t = TokenState::new(s("admin"), s("treasury"));
    t.set_tax_rate(&s("admin"), Rate::percent(10), Rate::percent(50), Rate::percent(10))
        .unwrap();
    t.set_pairlist(&s("admin"), s("pair"), true).unwrap();
    t
}

#[test]
fn new_token_starts_untaxed() {
    let t = TokenState::new(s("admin"), s("treasury"));
    assert_eq!(t.rates, RateConfig::new());
    assert_eq!(t.rates.max_transfer_supply_rate.atomics, DECIMAL_FRACTIONAL);
    assert!(t.query_pairlist(&s("admin")));
    assert!(!t.query_pairlist(&s("bob")));
    assert_eq!(t.last_liquify, 0);
}

#[test]
fn apply_rate_rounds_down() {
    assert_eq!(apply_rate(100_000, Rate::percent(10)), 10_000);
    assert_eq!(apply_rate(15, Rate::percent(10)), 1);
    assert_eq!(apply_rate(9, Rate::percent(10)), 0);
    assert_eq!(apply_rate(7, Rate::one()), 7);
    assert_eq!(apply_rate(u128::MAX, Rate::one()), u128::MAX);
    assert_eq!(apply_rate(3, Rate::raw(DECIMAL_FRACTIONAL / 3)), 0);
}

#[test]
fn tax_breakdown_of_one_hundred_thousand() {
    let t = taxed_token();
    let b = query_tax(&t.rates, 100_000);
    assert_eq!(b.taxed_amount, 10_000);
    assert_eq!(b.after_tax, 90_000);
    assert_eq!(b.reflection_amount, 5_000);
    assert_eq!(b.burn_amount, 1_000);
    assert_eq!(b.liquidity_amount, 4_000);
}

#[test]
fn tax_breakdown_rounds_each_step_down() {
    let t = taxed_token();
    let b = query_tax(&t.rates, 99);
    assert_eq!(b.taxed_amount, 9);
    assert_eq!(b.after_tax, 90);
    assert_eq!(b.reflection_amount, 4);
    assert_eq!(b.burn_amount, 0);
    assert_eq!(b.liquidity_amount, 5);
    assert!(b.reflection_amount + b.burn_amount <= b.taxed_amount);
}

#[test]
fn tax_breakdown_of_zero() {
    let t = taxed_token();
    let b = query_tax(&t.rates, 0);
    assert_eq!(b.taxed_amount, 0);
    assert_eq!(b.after_tax, 0);
    assert_eq!(b.liquidity_amount, 0);
}

#[test]
fn transfer_from_venue_is_taxed() {
    let mut t = taxed_token();
    t.set_balance(s("pair"), 100_000);
    let r = t.execute_transfer(&s("pair"), &s("bob"), 100_000).unwrap();
    assert_eq!(
        r,
        TransferOutcome { delivered: 90_000, taxed_amount: 10_000, treasury_trigger: true }
    );
    assert_eq!(t.balance_of(&s("pair")), 0);
    assert_eq!(t.balance_of(&s("bob")), 90_000);
    assert_eq!(t.balance_of(&s("treasury")), 10_000);
}

#[test]
fn transfer_to_venue_is_taxed_and_conserves() {
    let mut t = taxed_token();
    t.set_balance(s("alice"), 250_000);
    t.set_balance(s("pair"), 7);
    t.set_balance(s("treasury"), 3);
    let r = t.execute_send(&s("alice"), &s("pair"), 100_000).unwrap();
    assert!(r.treasury_trigger);
    assert_eq!(250_000 - t.balance_of(&s("alice")), 100_000);
    let gain = (t.balance_of(&s("pair")) - 7) + (t.balance_of(&s("treasury")) - 3);
    assert_eq!(gain, 100_000);
}

#[test]
fn wallet_transfer_is_untaxed() {
    let mut t = taxed_token();
    t.set_balance(s("alice"), 500);
    let r = t.execute_transfer(&s("alice"), &s("bob"), 200).unwrap();
    assert_eq!(r, TransferOutcome { delivered: 200, taxed_amount: 0, treasury_trigger: false });
    assert_eq!(t.balance_of(&s("alice")), 300);
    assert_eq!(t.balance_of(&s("bob")), 200);
    assert_eq!(t.balance_of(&s("treasury")), 0);
}

#[test]
fn unlisted_venue_is_untaxed() {
    let mut t = taxed_token();
    t.set_pairlist(&s("admin"), s("pair"), false).unwrap();
    t.set_balance(s("alice"), 500);
    let r = t.execute_transfer(&s("alice"), &s("pair"), 500).unwrap();
    assert_eq!(r.delivered, 500);
    assert!(!r.treasury_trigger);
    assert!(!t.query_pairlist(&s("pair")));
}

#[test]
fn zero_transfer_is_refused() {
    let mut t = taxed_token();
    t.set_balance(s("alice"), 500);
    assert_eq!(
        t.execute_transfer(&s("alice"), &s("bob"), 0),
        Err(ContractError::InvalidZeroAmount)
    );
    assert_eq!(
        t.execute_transfer_from(&s("alice"), &s("carol"), 0),
        Err(ContractError::InvalidZeroAmount)
    );
}

#[test]
fn overdraft_is_refused_and_changes_nothing() {
    let mut t = taxed_token();
    t.set_balance(s("pair"), 99);
    assert_eq!(
        t.execute_transfer(&s("pair"), &s("bob"), 100),
        Err(ContractError::InsufficientFunds)
    );
    assert_eq!(t.balance_of(&s("pair")), 99);
    assert_eq!(t.balance_of(&s("bob")), 0);
    assert_eq!(t.balance_of(&s("treasury")), 0);
}

#[test]
fn credit_overflow_is_refused() {
    let mut t = taxed_token();
    t.set_balance(s("alice"), 10);
    t.set_balance(s("bob"), u128::MAX);
    assert_eq!(t.execute_transfer(&s("alice"), &s("bob"), 1), Err(ContractError::Overflow));
    assert_eq!(t.balance_of(&s("alice")), 10);
}

#[test]
fn treasury_overflow_is_refused() {
    let mut t = taxed_token();
    t.set_balance(s("pair"), 100);
    t.set_balance(s("treasury"), u128::MAX);
    assert_eq!(t.execute_transfer(&s("pair"), &s("bob"), 100), Err(ContractError::Overflow));
    assert_eq!(t.balance_of(&s("pair")), 100);
    assert_eq!(t.balance_of(&s("bob")), 0);
}

#[test]
fn transfer_from_is_taxed_by_owner() {
    let mut t = taxed_token();
    t.set_balance(s("pair"), 1_000);
    let r = t.execute_transfer_from(&s("pair"), &s("bob"), 1_000).unwrap();
    assert_eq!(r.delivered, 900);
    assert!(r.treasury_trigger);
    assert_eq!(t.balance_of(&s("pair")), 0);
    assert_eq!(t.balance_of(&s("bob")), 900);
    assert_eq!(t.balance_of(&s("treasury")), 100);
    let r = t.execute_send_from(&s("bob"), &s("dave"), 900).unwrap();
    assert_eq!(r.delivered, 900);
    assert!(!r.treasury_trigger);
    assert_eq!(t.balance_of(&s("dave")), 900);
}

#[test]
fn registered_owner_taxes_delegated_send() {
    let mut t = taxed_token();
    t.set_balance(s("pair"), 100_000);
    let r = t.execute_send_from(&s("pair"), &s("carol"), 100_000).unwrap();
    assert_eq!(r.delivered, 90_000);
    assert_eq!(t.balance_of(&s("carol")), 90_000);
    assert_eq!(t.balance_of(&s("treasury")), 10_000);
}

#[test]
fn delegated_transfer_to_venue_is_taxed() {
    let mut t = taxed_token();
    t.set_balance(s("alice"), 1_000);
    let r = t.execute_transfer_from(&s("alice"), &s("pair"), 1_000).unwrap();
    assert_eq!(r.delivered, 900);
    assert_eq!(t.balance_of(&s("treasury")), 100);
}

#[test]
fn transfer_to_self_keeps_the_balance() {
    let mut t = taxed_token();
    t.set_balance(s("alice"), 40);
    t.execute_transfer(&s("alice"), &s("alice"), 40).unwrap();
    assert_eq!(t.balance_of(&s("alice")), 40);
}

#[test]
fn tax_rates_are_validated() {
    let mut t = TokenState::new(s("admin"), s("treasury"));
    assert_eq!(
        t.set_tax_rate(&s("bob"), Rate::percent(10), Rate::zero(), Rate::zero()),
        Err(ContractError::Unauthorized)
    );
    assert_eq!(
        t.set_tax_rate(&s("admin"), Rate::raw(DECIMAL_FRACTIONAL + 1), Rate::zero(), Rate::zero()),
        Err(ContractError::GlobalRateTooHigh)
    );
    assert_eq!(
        t.set_tax_rate(&s("admin"), Rate::percent(10), Rate::percent(60), Rate::percent(41)),
        Err(ContractError::ShareRatesTooHigh)
    );
    assert_eq!(
        t.set_tax_rate(&s("admin"), Rate::one(), Rate::raw(u128::MAX), Rate::raw(u128::MAX)),
        Err(ContractError::ShareRatesTooHigh)
    );
    assert_eq!(t.rates, RateConfig::new());
    t.set_tax_rate(&s("admin"), Rate::one(), Rate::percent(60), Rate::percent(40)).unwrap();
    assert_eq!(t.query_rate(), (Rate::one(), Rate::percent(60), Rate::percent(40)));
}

#[test]
fn only_admin_sets_pairs() {
    let mut t = TokenState::new(s("admin"), s("treasury"));
    assert_eq!(t.set_pairlist(&s("bob"), s("pair"), true), Err(ContractError::Unauthorized));
    assert!(!t.query_pairlist(&s("pair")));
    assert_eq!(t.ensure_admin(&s("admin")), Ok(()));
}

#[test]
fn migrate_treasury_needs_admin() {
    let t = TokenState::new(s("admin"), s("treasury"));
    assert_eq!(t.migrate_treasury(&s("admin")), Ok(s("treasury")));
    assert_eq!(t.migrate_treasury(&s("bob")), Err(ContractError::Unauthorized));
}

#[test]
fn throttle_fires_after_interval() {
    let mut t = TokenState::new(s("admin"), s("treasury"));
    assert!(!t.should_trigger(1));
    assert_eq!(t.last_liquify, 0);
    assert!(t.should_trigger(2));
    assert_eq!(t.last_liquify, 2);
    assert!(!t.should_trigger(3));
    assert!(t.should_trigger(4));
    assert_eq!(t.last_liquify, 4);
}

#[test]
fn close_triggers_fire_once() {
    let mut t = TokenState::new(s("admin"), s("treasury"));
    let first = t.should_trigger(100);
    let second = t.should_trigger(100);
    assert_eq!((first, second), (true, false));
    let first = t.should_trigger(101);
    let second = t.should_trigger(102);
    assert_eq!(first as u8 + second as u8, 1);
}

#[test]
fn triggers_at_the_maximum_time() {
    let mut t = TokenState::new(s("admin"), s("treasury"));
    assert!(t.should_trigger(u64::MAX));
    assert!(!t.should_trigger(u64::MAX));
}

#[test]
fn transfer_event_only_from_token() {
    let mut t = TokenState::new(s("admin"), s("treasury"));
    assert_eq!(
        t.generate_transfer_event(&s("bob"), &s("token"), 50),
        Err(ContractError::NotContract)
    );
    assert_eq!(t.last_liquify, 0);
    assert_eq!(t.generate_transfer_event(&s("token"), &s("token"), 50), Ok(true));
    assert_eq!(t.generate_transfer_event(&s("token"), &s("token"), 51), Ok(false));
    assert_eq!(t.last_liquify, 50);
}
