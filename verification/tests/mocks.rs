use soroban_test_kit::address::{Address, Auth, Symbol};
use soroban_test_kit::events::{EventLog, Val};
use soroban_test_kit::mocks::allowance_token::MockAllowanceToken;
use soroban_test_kit::mocks::burnable_token::MockBurnableToken;
use soroban_test_kit::mocks::configurable_receiver::MockConfigurableReceiver;
use soroban_test_kit::mocks::counter::MockCounter;
use soroban_test_kit::mocks::decimals_token::{self, MockDecimalsToken};
use soroban_test_kit::mocks::event_emitter::MockEventEmitter;
use soroban_test_kit::mocks::fee_token::{MockFeeToken, BPS_DENOMINATOR};
use soroban_test_kit::mocks::ledger::TokenError;
use soroban_test_kit::mocks::noop::MockNoop;
use soroban_test_kit::mocks::oracle::MockOracle;
use soroban_test_kit::mocks::panic_on_call::{MockPanicOnCall, PANIC_MESSAGE};
use soroban_test_kit::mocks::sac::{self, MockSac};
use soroban_test_kit::mocks::token::MockToken;

fn addr(name: &str) -> Address {
    Address::from_strkey(name.as_bytes().to_vec())
}

fn all() -> Auth {
    Auth::everyone()
}

// ---- MockToken ----

fn token_setup() -> (MockToken, Address) {
    let admin = addr("GADMIN");
    let mut t = MockToken::new();
    t.init(&admin).unwrap();
    (t, admin)
}

#[test]
fn mint_then_transfer() {
    let (mut token, _admin) = token_setup();
    let alice = addr("GALICE");
    let bob = addr("GBOB");

    token.mint(&alice, 1_000, &all()).unwrap();
    assert_eq!(token.balance(&alice), 1_000);

    token.transfer(&alice, &bob, 400, &all()).unwrap();
    assert_eq!(token.balance(&alice), 600);
    assert_eq!(token.balance(&bob), 400);
}

#[test]
fn unknown_address_has_zero_balance() {
    let (token, _admin) = token_setup();
    let stranger = addr("GSTRANGER");
    assert_eq!(token.balance(&stranger), 0);
}

#[test]
#[should_panic(expected = "insufficient balance")]
fn token_cannot_overdraw() {
    let (mut token, _admin) = token_setup();
    let alice = addr("GALICE");
    let bob = addr("GBOB");
    token.mint(&alice, 100, &all()).unwrap();
    token.transfer(&alice, &bob, 101, &all()).unwrap_or_else(|e| panic!("{}", e.message()));
}

#[test]
fn token_errors_follow_check_order() {
    let admin = addr("GADMIN");
    let alice = addr("GALICE");
    let bob = addr("GBOB");
    let mut token = MockToken::new();
    assert_eq!(token.mint(&alice, 1, &all()), Err(TokenError::NotInitialized));
    assert_eq!(token.mint(&alice, -1, &all()), Err(TokenError::NegativeAmount));
    token.init(&admin).unwrap();
    assert_eq!(token.init(&alice), Err(TokenError::AlreadyInitialized));
    assert_eq!(token.mint(&alice, 5, &Auth::signed_by(vec![addr("GALICE")])), Err(TokenError::Unauthorized));
    assert_eq!(token.mint(&alice, 5, &Auth::signed_by(vec![addr("GADMIN")])), Ok(()));
    assert_eq!(token.transfer(&alice, &bob, -1, &Auth::nobody()), Err(TokenError::NegativeAmount));
    assert_eq!(token.transfer(&alice, &bob, 1, &Auth::signed_by(vec![addr("GBOB")])), Err(TokenError::Unauthorized));
    assert_eq!(token.transfer(&alice, &bob, 6, &all()), Err(TokenError::InsufficientBalance));
    assert_eq!(token.balance(&alice), 5);
    assert_eq!(token.balance(&bob), 0);
}

#[test]
fn failed_calls_change_nothing() {
    let (mut token, _admin) = token_setup();
    let alice = addr("GALICE");
    let bob = addr("GBOB");
    token.mint(&bob, i128::MAX, &all()).unwrap();
    token.mint(&alice, 10, &all()).unwrap();
    assert_eq!(token.mint(&bob, 1, &all()), Err(TokenError::Overflow));
    assert_eq!(token.transfer(&alice, &bob, 1, &all()), Err(TokenError::Overflow));
    assert_eq!(token.balance(&alice), 10);
    assert_eq!(token.balance(&bob), i128::MAX);
}

#[test]
fn self_transfer_changes_nothing() {
    // A transfer moves funds: paying oneself leaves the balance as it was.
    let (mut token, _admin) = token_setup();
    let alice = addr("GALICE");
    token.mint(&alice, 100, &all()).unwrap();
    token.transfer(&alice, &alice, 30, &all()).unwrap();
    assert_eq!(token.balance(&alice), 100);
}

// ---- MockDecimalsToken ----

fn decimals_setup() -> MockDecimalsToken {
    let mut t = MockDecimalsToken::new();
    t.init(&addr("GADMIN")).unwrap();
    t
}

#[test]
fn mint_transfer_balance_flow() {
    let mut token = decimals_setup();
    let alice = addr("GALICE");
    let bob = addr("GBOB");

    token.mint(&alice, 1_000, &all()).unwrap();
    token.transfer(&alice, &bob, 250, &all()).unwrap();
    assert_eq!(token.balance(&alice), 750);
    assert_eq!(token.balance(&bob), 250);
}

#[test]
fn decimals_token_decimals_is_fixed() {
    let token = decimals_setup();
    assert_eq!(token.decimals(), 2);
    assert_eq!(decimals_token::DECIMALS, 2);
}

// ---- MockBurnableToken ----

fn burnable_setup() -> MockBurnableToken {
    let mut t = MockBurnableToken::new();
    t.init(&addr("GADMIN")).unwrap();
    t
}

#[test]
fn mint_burn_balance_flow() {
    let mut token = burnable_setup();
    let alice = addr("GALICE");
    token.mint(&alice, 1_000, &all()).unwrap();
    assert_eq!(token.balance(&alice), 1_000);

    token.burn(&alice, 400, &all()).unwrap();
    assert_eq!(token.balance(&alice), 600);

    token.burn(&alice, 600, &all()).unwrap();
    assert_eq!(token.balance(&alice), 0);
}

#[test]
#[should_panic(expected = "insufficient balance")]
fn cannot_burn_more_than_held() {
    let mut token = burnable_setup();
    let alice = addr("GALICE");
    token.mint(&alice, 100, &all()).unwrap();
    token.burn(&alice, 101, &all()).unwrap_or_else(|e| panic!("{}", e.message()));
}

#[test]
fn burn_needs_holder_authorization() {
    let mut token = burnable_setup();
    let alice = addr("GALICE");
    token.mint(&alice, 100, &all()).unwrap();
    assert_eq!(token.burn(&alice, 10, &Auth::signed_by(vec![addr("GADMIN")])), Err(TokenError::Unauthorized));
    assert_eq!(token.burn(&alice, -1, &all()), Err(TokenError::NegativeAmount));
    let mut bob_token = burnable_setup();
    bob_token.mint(&addr("GBOB"), 7, &all()).unwrap();
    bob_token.transfer(&addr("GBOB"), &alice, 7, &all()).unwrap();
    assert_eq!(bob_token.balance(&alice), 7);
    assert_eq!(token.balance(&alice), 100);
}

// ---- MockAllowanceToken ----

fn allowance_setup() -> MockAllowanceToken {
    let mut t = MockAllowanceToken::new();
    t.init(&addr("GADMIN")).unwrap();
    t
}

#[test]
fn approve_spend_exhaust() {
    let mut token = allowance_setup();
    let alice = addr("GALICE");
    let bob = addr("GBOB");
    let spender = addr("GSPENDER");

    token.mint(&alice, 1_000, &all()).unwrap();
    token.approve(&alice, &spender, 300, &all()).unwrap();
    assert_eq!(token.allowance(&alice, &spender), 300);

    token.transfer_from(&spender, &alice, &bob, 200, &all()).unwrap();
    assert_eq!(token.balance(&bob), 200);
    assert_eq!(token.balance(&alice), 800);
    assert_eq!(token.allowance(&alice, &spender), 100);

    token.transfer_from(&spender, &alice, &bob, 100, &all()).unwrap();
    assert_eq!(token.allowance(&alice, &spender), 0);
}

#[test]
#[should_panic(expected = "insufficient allowance")]
fn cannot_overspend_allowance() {
    let mut token = allowance_setup();
    let alice = addr("GALICE");
    let bob = addr("GBOB");
    let spender = addr("GSPENDER");
    token.mint(&alice, 1_000, &all()).unwrap();
    token.approve(&alice, &spender, 50, &all()).unwrap();
    token.transfer_from(&spender, &alice, &bob, 51, &all()).unwrap_or_else(|e| panic!("{}", e.message()));
}

#[test]
fn allowance_checks_and_overwrite() {
    let mut token = allowance_setup();
    let alice = addr("GALICE");
    let bob = addr("GBOB");
    let spender = addr("GSPENDER");
    assert_eq!(token.allowance(&alice, &spender), 0);
    assert_eq!(token.approve(&alice, &spender, 10, &Auth::signed_by(vec![addr("GSPENDER")])), Err(TokenError::Unauthorized));
    token.approve(&alice, &spender, 10, &all()).unwrap();
    token.approve(&alice, &spender, 40, &all()).unwrap();
    assert_eq!(token.allowance(&alice, &spender), 40);
    assert_eq!(token.allowance(&spender, &alice), 0);
    // Allowance is checked before the balance.
    assert_eq!(token.transfer_from(&spender, &alice, &bob, 50, &all()), Err(TokenError::InsufficientAllowance));
    assert_eq!(token.transfer_from(&spender, &alice, &bob, 30, &all()), Err(TokenError::InsufficientBalance));
    assert_eq!(
        token.transfer_from(&spender, &alice, &bob, 30, &Auth::signed_by(vec![addr("GALICE")])),
        Err(TokenError::Unauthorized)
    );
    assert_eq!(token.allowance(&alice, &spender), 40);
}

// ---- MockSac ----

fn sac_setup() -> MockSac {
    let mut t = MockSac::new();
    t.init(&addr("GADMIN")).unwrap();
    t
}

#[test]
fn allowance_set_spend_exhaust() {
    let mut token = sac_setup();
    let alice = addr("GALICE");
    let bob = addr("GBOB");
    let spender = addr("GSPENDER");

    token.mint(&alice, 1_000, &all()).unwrap();
    token.approve(&alice, &spender, 300, &all()).unwrap();
    assert_eq!(token.allowance(&alice, &spender), 300);

    token.transfer_from(&spender, &alice, &bob, 300, &all()).unwrap();
    assert_eq!(token.balance(&bob), 300);
    assert_eq!(token.allowance(&alice, &spender), 0);
}

#[test]
fn sac_decimals_is_fixed() {
    let token = sac_setup();
    assert_eq!(token.decimals(), sac::DECIMALS);
    assert_eq!(token.decimals(), 7);
}

#[test]
#[should_panic(expected = "insufficient allowance")]
fn cannot_exceed_allowance() {
    let mut token = sac_setup();
    let alice = addr("GALICE");
    let bob = addr("GBOB");
    let spender = addr("GSPENDER");
    token.mint(&alice, 1_000, &all()).unwrap();
    token.approve(&alice, &spender, 10, &all()).unwrap();
    token.transfer_from(&spender, &alice, &bob, 11, &all()).unwrap_or_else(|e| panic!("{}", e.message()));
}

// ---- MockFeeToken ----

fn fee_setup(fee_bps: i128) -> MockFeeToken {
    let mut t = MockFeeToken::new();
    t.init(&addr("GADMIN"), fee_bps).unwrap();
    t
}

#[test]
fn recipient_receives_amount_minus_fee() {
    let mut token = fee_setup(100); // 1%
    let alice = addr("GALICE");
    let bob = addr("GBOB");

    token.mint(&alice, 1_000, &all()).unwrap();
    token.transfer(&alice, &bob, 1_000, &all()).unwrap();

    assert_eq!(token.balance(&alice), 0);
    assert_eq!(token.balance(&bob), 990); // 10 burned as fee
}

#[test]
fn zero_fee_is_lossless() {
    let mut token = fee_setup(0);
    let alice = addr("GALICE");
    let bob = addr("GBOB");
    token.mint(&alice, 500, &all()).unwrap();
    token.transfer(&alice, &bob, 500, &all()).unwrap();
    assert_eq!(token.balance(&bob), 500);
}

#[test]
fn fee_rounds_down() {
    let mut token = fee_setup(100); // 1%
    let alice = addr("GALICE");
    let bob = addr("GBOB");
    token.mint(&alice, 50, &all()).unwrap();
    // fee = 50 * 100 / 10_000 = 0 (rounds down) -> bob gets full 50
    token.transfer(&alice, &bob, 50, &all()).unwrap();
    assert_eq!(token.balance(&bob), 50);
}

#[test]
#[should_panic(expected = "insufficient balance")]
fn fee_token_cannot_overdraw() {
    let mut token = fee_setup(100);
    let alice = addr("GALICE");
    let bob = addr("GBOB");
    token.mint(&alice, 10, &all()).unwrap();
    token.transfer(&alice, &bob, 11, &all()).unwrap_or_else(|e| panic!("{}", e.message()));
}

#[test]
fn fee_init_and_transfer_errors() {
    let mut token = MockFeeToken::new();
    assert_eq!(token.fee_bps(), Err(TokenError::NotInitialized));
    assert_eq!(token.init(&addr("GADMIN"), BPS_DENOMINATOR + 1), Err(TokenError::FeeOutOfRange));
    assert_eq!(token.init(&addr("GADMIN"), -1), Err(TokenError::FeeOutOfRange));
    // A zero transfer on an uninitialized fee token needs the fee.
    assert_eq!(token.transfer(&addr("GALICE"), &addr("GBOB"), 0, &all()), Err(TokenError::NotInitialized));
    token.init(&addr("GADMIN"), BPS_DENOMINATOR).unwrap();
    assert_eq!(token.fee_bps(), Ok(10_000));
    assert_eq!(token.init(&addr("GADMIN"), 5), Err(TokenError::AlreadyInitialized));
    // A 100% fee burns everything.
    token.mint(&addr("GALICE"), 77, &all()).unwrap();
    token.transfer(&addr("GALICE"), &addr("GBOB"), 77, &all()).unwrap();
    assert_eq!(token.balance(&addr("GBOB")), 0);
    assert_eq!(token.balance(&addr("GALICE")), 0);
}

#[test]
fn fee_multiplication_overflow_is_refused() {
    let mut token = fee_setup(2);
    let alice = addr("GALICE");
    token.mint(&alice, i128::MAX, &all()).unwrap();
    assert_eq!(token.transfer(&alice, &addr("GBOB"), i128::MAX, &all()), Err(TokenError::Overflow));
    assert_eq!(token.balance(&alice), i128::MAX);
    // 333 * 30 / 10_000 = 0.999 -> fee 0; 334 * 30 / 10_000 = 1.002 -> fee 1.
    let mut t2 = fee_setup(30);
    t2.mint(&alice, 1_000, &all()).unwrap();
    t2.transfer(&alice, &addr("GBOB"), 333, &all()).unwrap();
    t2.transfer(&alice, &addr("GCAROL"), 334, &all()).unwrap();
    assert_eq!(t2.balance(&addr("GBOB")), 333);
    assert_eq!(t2.balance(&addr("GCAROL")), 333);
    assert_eq!(t2.balance(&alice), 333);
}

// ---- MockCounter ----

#[test]
fn increment_persists_across_calls() {
    let mut client = MockCounter::new();
    assert_eq!(client.get(), 0);
    assert_eq!(client.increment(), Some(1));
    assert_eq!(client.increment(), Some(2));
    assert_eq!(client.increment(), Some(3));
    assert_eq!(client.get(), 3);
}

#[test]
fn reset_clears_count() {
    let mut client = MockCounter::new();
    client.increment();
    client.increment();
    client.reset();
    assert_eq!(client.get(), 0);
    assert_eq!(client.increment(), Some(1));
}

#[test]
fn counter_refuses_to_wrap_at_max() {
    let mut client = MockCounter::from_count(u32::MAX - 1);
    assert_eq!(client.increment(), Some(u32::MAX));
    assert_eq!(client.increment(), None);
    assert_eq!(client.get(), u32::MAX);
    client.reset();
    assert_eq!(client.get(), 0);
}

#[test]
fn loaded_entries_are_read_back() {
    let mut token = MockSac::new();
    let alice = addr("GALICE");
    let spender = addr("GSPENDER");
    token.load_balance(&alice, 55);
    token.load_allowance(&alice, &spender, 9);
    assert_eq!(token.balance(&alice), 55);
    assert_eq!(token.allowance(&alice, &spender), 9);
    // Without an admin, minting is refused.
    assert_eq!(token.mint(&alice, 1, &all()), Err(TokenError::NotInitialized));
    let mut plain = MockToken::new();
    plain.load_balance(&alice, 3);
    plain.load_balance(&alice, 4);
    assert_eq!(plain.balance(&alice), 4);
}

// ---- MockOracle ----

#[test]
fn returns_last_set_price() {
    let mut client = MockOracle::new();
    let asset = addr("CASSET");
    client.set_price(&asset, 1_000);
    assert_eq!(client.get_price(&asset), 1_000);
    client.set_price(&asset, 1_050);
    assert_eq!(client.get_price(&asset), 1_050);
}

#[test]
fn unknown_asset_has_zero_price() {
    let client = MockOracle::new();
    let asset = addr("CASSET");
    assert_eq!(client.get_price(&asset), 0);
}

#[test]
fn prices_are_independent_per_asset() {
    let mut client = MockOracle::new();
    let asset_a = addr("CASSETA");
    let asset_b = addr("CASSETB");
    client.set_price(&asset_a, 500);
    client.set_price(&asset_b, 900);
    assert_eq!(client.get_price(&asset_a), 500);
    assert_eq!(client.get_price(&asset_b), 900);
}

// ---- MockConfigurableReceiver ----

#[test]
fn returns_configured_value() {
    let mut client = MockConfigurableReceiver::new();
    assert_eq!(client.call(), 0);
    client.set_return(42);
    assert_eq!(client.call(), 42);
    client.set_return(-9);
    assert_eq!(client.call(), -9);
}

// ---- MockNoop ----

#[test]
fn echo_round_trip() {
    let client = MockNoop;
    assert_eq!(client.echo(0), 0);
    assert_eq!(client.echo(42), 42);
    assert_eq!(client.echo(-7), -7);
    assert_eq!(client.echo(i128::MAX), i128::MAX);
}

#[test]
fn ping_runs() {
    let client = MockNoop;
    client.ping();
}

// ---- MockPanicOnCall ----

#[test]
#[should_panic(expected = "intentional failure")]
fn call_panics() {
    let client = MockPanicOnCall;
    client.call().unwrap_or_else(|e| panic!("{}", e.message()));
}

#[test]
fn try_call_returns_err() {
    let client = MockPanicOnCall;
    assert!(client.call().is_err());
    assert_eq!(PANIC_MESSAGE, "MockPanicOnCall: intentional failure");
}

// ---- MockEventEmitter ----

fn sym(name: &str) -> Symbol {
    Symbol::from_chars(name.as_bytes().to_vec())
}

#[test]
fn emitted_event_appears() {
    let mut log = EventLog::new();
    let id = addr("CEMITTER");
    MockEventEmitter.emit(&mut log, &id, &sym("transfer"), 100);
    assert_eq!(log.len(), 1);
}

#[test]
fn multiple_emits_accumulate() {
    let mut log = EventLog::new();
    let id = addr("CEMITTER");
    MockEventEmitter.emit(&mut log, &id, &sym("a"), 1);
    MockEventEmitter.emit(&mut log, &id, &sym("b"), 2);
    assert_eq!(log.len(), 2);
    assert!(log.contains(&id, &vec![Val::Symbol(sym("a"))], &Val::I128(1)));
    assert!(log.contains(&id, &vec![Val::Symbol(sym("b"))], &Val::I128(2)));
    assert!(!log.contains(&id, &vec![Val::Symbol(sym("a"))], &Val::I128(2)));
}

#[test]
fn self_transfer_from_spends_allowance_only() {
    let mut token = allowance_setup();
    let alice = addr("GALICE");
    let spender = addr("GSPENDER");
    token.mint(&alice, 100, &all()).unwrap();
    token.approve(&alice, &spender, 40, &all()).unwrap();
    token.transfer_from(&spender, &alice, &alice, 30, &all()).unwrap();
    assert_eq!(token.balance(&alice), 100);
    assert_eq!(token.allowance(&alice, &spender), 10);
}

#[test]
fn fee_self_transfer_costs_the_fee() {
    let mut token = fee_setup(100); // 1%
    let alice = addr("GALICE");
    token.mint(&alice, 1_000, &all()).unwrap();
    token.transfer(&alice, &alice, 1_000, &all()).unwrap();
    assert_eq!(token.balance(&alice), 990);
}

#[test]
fn self_transfer_at_the_top_of_the_range_does_not_overflow() {
    let (mut token, _admin) = token_setup();
    let alice = addr("GALICE");
    token.mint(&alice, i128::MAX, &all()).unwrap();
    token.transfer(&alice, &alice, i128::MAX, &all()).unwrap();
    assert_eq!(token.balance(&alice), i128::MAX);
}
