use std::cell::RefCell;

use soroban_test_kit::address::{Address, Auth, Symbol};
use soroban_test_kit::asserts::addr_eq::{assert_eq_addr, AddressMismatch};
use soroban_test_kit::asserts::address_set::{
    address_in_set, assert_address_in_set, assert_address_not_in_set, MembershipFailure,
};
use soroban_test_kit::asserts::approx_i64::{approx_eq_i64, assert_approx_eq_i64};
use soroban_test_kit::asserts::approx_u128::{approx_eq_u128, assert_approx_eq_u128};
use soroban_test_kit::asserts::balances::{assert_balance_change, check_balance_change, BalanceChangeError};
use soroban_test_kit::asserts::events::assert_event_emitted;
use soroban_test_kit::asserts::map_contains::{assert_map_contains, assert_map_contains_key, MapContainsFailure};
use soroban_test_kit::asserts::sorted::{assert_sorted, assert_sorted_desc, is_sorted_asc, is_sorted_desc};
use soroban_test_kit::asserts::vec_unordered::{assert_vec_eq_unordered, vec_eq_unordered};
use soroban_test_kit::asserts::within_pct::{assert_within_pct, within_pct, BPS_DENOMINATOR};
use soroban_test_kit::asserts::zeroness::{assert_nonzero, assert_zero, NotZero};
use soroban_test_kit::asserts::{approx_eq, assert_approx_eq, NotApprox};
use soroban_test_kit::events::{same_val, EventLog, Val};
use soroban_test_kit::mocks::event_emitter::MockEventEmitter;
use soroban_test_kit::mocks::token::MockToken;

fn account(name: &str) -> Address {
    Address::from_strkey(name.as_bytes().to_vec())
}

fn symbol(name: &str) -> Symbol {
    Symbol::from_chars(name.as_bytes().to_vec())
}

// ---- approx_eq (i128) ----

#[test]
fn asserts_within_tolerance() {
    assert!(approx_eq(100, 100, 0));
    assert!(approx_eq(100, 95, 5));
    assert!(approx_eq(95, 100, 5));
}

#[test]
fn asserts_outside_tolerance() {
    assert!(!approx_eq(100, 94, 5));
    assert!(!approx_eq(94, 100, 5));
}

#[test]
fn asserts_macro_passes_when_close() {
    assert_eq!(assert_approx_eq(1_000, 1_002, 5), Ok(()));
}

#[test]
#[should_panic(expected = "tolerance")]
fn asserts_macro_panics_when_far() {
    if let Err(e) = assert_approx_eq(1_000, 2_000, 5) {
        panic!(
            "assertion failed: `{} ~= {}` (tolerance {}); difference is {}",
            1_000, 2_000, 5, e.difference
        );
    }
}

#[test]
fn approx_eq_doc_examples() {
    assert!(approx_eq(1_000, 1_003, 5));
    assert!(!approx_eq(1_000, 1_010, 5));
}

#[test]
fn approx_failure_reports_difference() {
    assert_eq!(assert_approx_eq(1_000, 2_000, 5), Err(NotApprox { difference: 1_000u128 }));
    assert_eq!(assert_approx_eq(-7, 3, 1), Err(NotApprox { difference: 10 }));
}

#[test]
fn approx_eq_extreme_distance() {
    assert!(approx_eq(i128::MAX, 0, i128::MAX));
    assert!(!approx_eq(i128::MAX, 0, i128::MAX - 1));
    assert!(approx_eq(-1, i128::MAX - 1, i128::MAX));
}

#[test]
fn approx_eq_negative_tolerance_accepts_nothing() {
    assert!(!approx_eq(5, 5, -1));
}

// ---- approx_eq_i64 ----

#[test]
fn approx_i64_within_tolerance() {
    assert!(approx_eq_i64(100, 100, 0));
    assert!(approx_eq_i64(100, 95, 5));
    assert!(approx_eq_i64(95, 100, 5));
}

#[test]
fn approx_i64_outside_tolerance() {
    assert!(!approx_eq_i64(100, 94, 5));
    assert!(!approx_eq_i64(94, 100, 5));
}

#[test]
fn approx_i64_macro_passes_when_close() {
    assert_eq!(assert_approx_eq_i64(1_000i64, 1_002i64, 5i64), Ok(()));
}

#[test]
#[should_panic(expected = "tolerance")]
fn approx_i64_macro_panics_when_far() {
    if let Err(e) = assert_approx_eq_i64(1_000i64, 2_000i64, 5i64) {
        panic!(
            "assertion failed: `{} ~= {}` (tolerance {}); difference is {}",
            1_000, 2_000, 5, e.difference
        );
    }
}

#[test]
fn approx_i64_failure_reports_difference() {
    assert_eq!(assert_approx_eq_i64(10, -10, 3), Err(NotApprox { difference: 20u64 }));
}

// ---- approx_eq_u128 ----

#[test]
fn approx_u128_within_tolerance() {
    assert!(approx_eq_u128(100, 100, 0));
    assert!(approx_eq_u128(100, 95, 5));
    assert!(approx_eq_u128(95, 100, 5));
}

#[test]
fn approx_u128_outside_tolerance() {
    assert!(!approx_eq_u128(100, 94, 5));
    assert!(!approx_eq_u128(94, 100, 5));
}

#[test]
fn saturating_subtraction_edge_case() {
    // No underflow when the second arg is larger.
    assert!(approx_eq_u128(0, 5, 5));
    assert!(!approx_eq_u128(0, u128::MAX, 1));
}

#[test]
fn approx_u128_macro_passes_when_close() {
    assert_eq!(assert_approx_eq_u128(1_000u128, 1_002u128, 5u128), Ok(()));
}

#[test]
#[should_panic(expected = "tolerance")]
fn approx_u128_macro_panics_when_far() {
    if let Err(e) = assert_approx_eq_u128(1_000u128, 2_000u128, 5u128) {
        panic!(
            "assertion failed: `{} ~= {}` (tolerance {}); difference is {}",
            1_000, 2_000, 5, e.difference
        );
    }
}

#[test]
fn approx_u128_failure_reports_difference() {
    assert_eq!(
        assert_approx_eq_u128(0, u128::MAX, 1),
        Err(NotApprox { difference: u128::MAX })
    );
}

// ---- within_pct ----

#[test]
fn within_boundary() {
    // Tolerance is relative to `expected`: 0.5% of 1_000 is 5.
    assert!(within_pct(1_005, 1_000, 50));
    assert!(within_pct(995, 1_000, 50));
    assert!(within_pct(1_000, 1_000, 0));
}

#[test]
fn outside_boundary() {
    assert!(!within_pct(1_000, 1_006, 50));
    assert!(!within_pct(1_000, 994, 50));
}

#[test]
fn zero_expected_only_matches_zero() {
    assert!(within_pct(0, 0, 100));
    assert!(!within_pct(1, 0, 100));
}

#[test]
fn macro_passes() {
    assert!(assert_within_pct(1_000i128, 1_005i128, 50i128).is_ok());
}

#[test]
#[should_panic(expected = "not within")]
fn macro_panics() {
    if assert_within_pct(1_000i128, 1_100i128, 50i128).is_err() {
        panic!("assertion failed: {} not within {} bps of {}", 1_000, 50, 1_100);
    }
}

#[test]
fn within_pct_doc_examples() {
    assert!(within_pct(1_000, 1_005, 50));
    assert!(!within_pct(1_000, 1_006, 50));
    assert_eq!(BPS_DENOMINATOR, 10_000);
}

#[test]
fn within_pct_negative_expected() {
    // 1% of |-2_000| is 20.
    assert!(within_pct(-2_020, -2_000, 100));
    assert!(!within_pct(-2_021, -2_000, 100));
}

// ---- zeroness ----

#[test]
fn zero_passes() {
    assert_eq!(assert_zero(0i128), Ok(()));
}

#[test]
fn nonzero_passes() {
    assert!(assert_nonzero(1i128).is_ok());
    assert!(assert_nonzero(-1i128).is_ok());
}

#[test]
#[should_panic(expected = "expected zero")]
fn nonzero_fails_zero_assert() {
    if let Err(NotZero { value }) = assert_zero(7i128) {
        panic!("assertion failed: expected zero, got {}", value);
    }
}

#[test]
#[should_panic(expected = "expected non-zero")]
fn zero_fails_nonzero_assert() {
    if assert_nonzero(0i128).is_err() {
        panic!("assertion failed: expected non-zero, got 0");
    }
}

#[test]
fn zero_failure_reports_value() {
    assert_eq!(assert_zero(-3), Err(NotZero { value: -3 }));
}

// ---- address equality and membership ----

#[test]
fn equal_addresses_pass() {
    let a = account("GALICE");
    assert_eq!(assert_eq_addr(&a, &a.duplicate()), Ok(()));
}

#[test]
#[should_panic(expected = "address mismatch")]
fn unequal_addresses_panic() {
    let a = account("GALICE");
    let b = account("GBOB");
    if assert_eq_addr(&a, &b) == Err(AddressMismatch) {
        panic!("address mismatch: left = {:?}, right = {:?}", a, b);
    }
}

#[test]
fn present_address() {
    let a = account("GALICE");
    let b = account("GBOB");
    let set = vec![a.duplicate(), b.duplicate()];
    assert!(address_in_set(&a, &set));
    assert_eq!(assert_address_in_set(&b, &set), Ok(()));
}

#[test]
fn absent_address() {
    let a = account("GALICE");
    let stranger = account("GSTRANGER");
    let set = vec![a];
    assert!(!address_in_set(&stranger, &set));
    assert_eq!(assert_address_not_in_set(&stranger, &set), Ok(()));
}

#[test]
#[should_panic(expected = "not found in set")]
fn missing_panics() {
    let a = account("GALICE");
    let stranger = account("GSTRANGER");
    let set = vec![a];
    if assert_address_in_set(&stranger, &set) == Err(MembershipFailure::NotFound) {
        panic!("address {:?} not found in set {:?}", stranger, set);
    }
}

#[test]
fn present_address_fails_not_in_set() {
    let a = account("GALICE");
    let set = vec![a.duplicate()];
    assert_eq!(
        assert_address_not_in_set(&a, &set),
        Err(MembershipFailure::UnexpectedlyPresent)
    );
    assert!(!address_in_set(&a, &Vec::new()));
}

// ---- sortedness ----

#[test]
fn ascending_passes() {
    assert!(is_sorted_asc(&vec![1i32, 2, 2, 3]));
    assert!(assert_sorted(&vec![1i32, 2, 2, 3]).is_ok());
}

#[test]
fn descending_passes() {
    assert!(is_sorted_desc(&vec![3i32, 2, 2, 1]));
    assert!(assert_sorted_desc(&vec![3i32, 2, 2, 1]).is_ok());
}

#[test]
#[should_panic(expected = "not sorted ascending")]
fn unsorted_asc_panics() {
    let v = vec![1i32, 3, 2];
    if assert_sorted(&v).is_err() {
        panic!("assertion failed: vec is not sorted ascending: {:?}", v);
    }
}

#[test]
#[should_panic(expected = "not sorted descending")]
fn unsorted_desc_panics() {
    let v = vec![3i32, 1, 2];
    if assert_sorted_desc(&v).is_err() {
        panic!("assertion failed: vec is not sorted descending: {:?}", v);
    }
}

#[test]
fn sortedness_edge_cases() {
    let empty: Vec<i32> = Vec::new();
    assert!(is_sorted_asc(&empty));
    assert!(is_sorted_desc(&empty));
    assert!(is_sorted_asc(&vec![7i128]));
    assert!(!is_sorted_asc(&vec![3u64, 2]));
    assert!(!is_sorted_desc(&vec![2u64, 3]));
}

// ---- order-insensitive equality ----

#[test]
fn reordered_vecs_are_equal() {
    let a = vec![1i32, 2, 3];
    let b = vec![3i32, 1, 2];
    assert!(vec_eq_unordered(&a, &b));
    assert!(assert_vec_eq_unordered(&a, &b).is_ok());
}

#[test]
fn duplicates_must_match_multiplicity() {
    let a = vec![1i32, 1, 2];
    let b = vec![1i32, 2, 2];
    assert!(!vec_eq_unordered(&a, &b));
}

#[test]
#[should_panic(expected = "multiset mismatch")]
fn mismatch_panics() {
    let a = vec![1i32, 2, 3];
    let b = vec![1i32, 2, 4];
    if assert_vec_eq_unordered(&a, &b).is_err() {
        panic!("vec multiset mismatch: left = {:?}, right = {:?}", a, b);
    }
}

#[test]
fn unordered_length_mismatch_and_empty() {
    let empty: Vec<i32> = Vec::new();
    assert!(vec_eq_unordered(&empty, &empty));
    assert!(!vec_eq_unordered(&vec![1i32], &empty));
    assert!(!vec_eq_unordered(&vec![1i32, 1], &vec![1i32]));
    assert!(vec_eq_unordered(&vec![2u8, 2, 1, 2], &vec![2u8, 1, 2, 2]));
}

// ---- balance change ----

fn token_with_admin() -> (RefCell<MockToken>, Address) {
    let admin = account("GADMIN");
    let mut token = MockToken::new();
    token.init(&admin).unwrap();
    (RefCell::new(token), admin)
}

#[test]
fn passes_for_the_exact_change() {
    let (token, _admin) = token_with_admin();
    let alice = account("GALICE");
    let r = assert_balance_change(
        |who: &Address| token.borrow().balance(who),
        &alice,
        1_000,
        || {
            token.borrow_mut().mint(&alice, 1_000, &Auth::everyone()).unwrap();
        },
    );
    assert_eq!(r, Ok(()));
}

#[test]
fn detects_a_decrease() {
    let (token, _admin) = token_with_admin();
    let alice = account("GALICE");
    let bob = account("GBOB");
    token.borrow_mut().mint(&alice, 1_000, &Auth::everyone()).unwrap();
    let r = assert_balance_change(
        |who: &Address| token.borrow().balance(who),
        &alice,
        -400,
        || {
            token.borrow_mut().transfer(&alice, &bob, 400, &Auth::everyone()).unwrap();
        },
    );
    assert_eq!(r, Ok(()));
}

#[test]
#[should_panic(expected = "expected balance to change by 1000, but it changed by 500")]
fn fails_when_delta_does_not_match() {
    let (token, _admin) = token_with_admin();
    let alice = account("GALICE");
    let r = assert_balance_change(
        |who: &Address| token.borrow().balance(who),
        &alice,
        1_000,
        || {
            token.borrow_mut().mint(&alice, 500, &Auth::everyone()).unwrap();
        },
    );
    if let Err(BalanceChangeError::Mismatch { expected, actual, before, after }) = r {
        panic!(
            "assertion failed: expected balance to change by {}, but it changed by {} (before {}, after {})",
            expected, actual, before, after
        );
    }
}

#[test]
fn balance_change_mismatch_reports_readings() {
    let (token, _admin) = token_with_admin();
    let alice = account("GALICE");
    token.borrow_mut().mint(&alice, 10, &Auth::everyone()).unwrap();
    let r = assert_balance_change(|who: &Address| token.borrow().balance(who), &alice, 5, || {});
    assert_eq!(
        r,
        Err(BalanceChangeError::Mismatch { expected: 5, actual: 0, before: 10, after: 10 })
    );
}

#[test]
fn balance_change_overflow_is_reported() {
    let calls = RefCell::new(0u32);
    let r = assert_balance_change(
        |_who: &u32| {
            let n = *calls.borrow();
            *calls.borrow_mut() = n + 1;
            if n == 0 { i128::MIN } else { i128::MAX }
        },
        &0u32,
        0,
        || {},
    );
    assert_eq!(r, Err(BalanceChangeError::Overflow { before: i128::MIN, after: i128::MAX }));
}

// ---- events ----

#[test]
fn matches_a_known_event() {
    let mut log = EventLog::new();
    let id = account("CEMITTER");
    MockEventEmitter.emit(&mut log, &id, &symbol("transfer"), 100);
    assert!(assert_event_emitted(&log, &id, &vec![Val::Symbol(symbol("transfer"))], &Val::I128(100)).is_ok());
}

#[test]
#[should_panic(expected = "but none was found")]
fn fails_on_wrong_topic() {
    let mut log = EventLog::new();
    let id = account("CEMITTER");
    MockEventEmitter.emit(&mut log, &id, &symbol("transfer"), 100);
    if assert_event_emitted(&log, &id, &vec![Val::Symbol(symbol("mint"))], &Val::I128(100)).is_err() {
        panic!("assertion failed: expected {:?} to have emitted a matching event, but none was found", id);
    }
}

#[test]
#[should_panic(expected = "but none was found")]
fn fails_on_wrong_data() {
    let mut log = EventLog::new();
    let id = account("CEMITTER");
    MockEventEmitter.emit(&mut log, &id, &symbol("transfer"), 100);
    if assert_event_emitted(&log, &id, &vec![Val::Symbol(symbol("transfer"))], &Val::I128(999)).is_err() {
        panic!("assertion failed: expected {:?} to have emitted a matching event, but none was found", id);
    }
}

#[test]
fn event_comparison_is_type_aware() {
    let mut log = EventLog::new();
    let id = account("CEMITTER");
    MockEventEmitter.emit(&mut log, &id, &symbol("transfer"), 100);
    assert!(assert_event_emitted(&log, &id, &vec![Val::Symbol(symbol("transfer"))], &Val::I32(100)).is_err());
    assert!(assert_event_emitted(&log, &account("COTHER"), &vec![Val::Symbol(symbol("transfer"))], &Val::I128(100)).is_err());
    assert!(assert_event_emitted(&log, &id, &vec![], &Val::I128(100)).is_err());
}

// ---- authorization ----

#[test]
fn rejects_call_with_no_authorization() {
    let admin = account("GADMIN");
    let mut token = MockToken::new();
    // `init` itself needs no authorization, but `mint` requires the admin's.
    token.init(&admin).unwrap();
    let alice = account("GALICE");
    assert!(token.mint(&alice, 100, &Auth::nobody()).is_err());
}

#[test]
#[should_panic(expected = "expected an authorization failure")]
fn fails_when_authorization_is_present() {
    let admin = account("GADMIN");
    let mut token = MockToken::new();
    token.init(&admin).unwrap();
    let alice = account("GALICE");
    if token.mint(&alice, 100, &Auth::everyone()).is_ok() {
        panic!("assertion failed: expected an authorization failure, but the call succeeded");
    }
}

#[test]
fn signed_by_authorizes_only_signers() {
    let auth = Auth::signed_by(vec![account("GALICE")]);
    assert!(auth.authorizes(&account("GALICE")));
    assert!(!auth.authorizes(&account("GBOB")));
    assert!(!Auth::nobody().authorizes(&account("GALICE")));
    assert!(Auth::everyone().authorizes(&account("GBOB")));
}

// ---- map contains ----

#[test]
fn present_key_value() {
    let m = vec![(1u32, 100i128), (2u32, 200i128)];
    assert_eq!(assert_map_contains(&m, &1u32, &100i128), Ok(()));
    assert_eq!(assert_map_contains(&m, &2u32, &200i128), Ok(()));
    assert_eq!(assert_map_contains_key(&m, &1u32), Ok(()));
}

#[test]
#[should_panic(expected = "does not contain key")]
fn absent_key_panics() {
    let m = vec![(1u32, 100i128)];
    if assert_map_contains(&m, &9u32, &0i128) == Err(MapContainsFailure::MissingKey) {
        panic!("map does not contain key {:?}", 9u32);
    }
}

#[test]
#[should_panic(expected = "expected")]
fn wrong_value_panics() {
    let m = vec![(1u32, 100i128)];
    if assert_map_contains(&m, &1u32, &999i128) == Err(MapContainsFailure::WrongValue) {
        panic!("map key {:?} bound to {:?}, expected {:?}", 1u32, 100i128, 999i128);
    }
}

#[test]
fn map_failures_are_distinguished() {
    let m = vec![(1u32, 100i128), (5u32, 7i128)];
    assert_eq!(assert_map_contains(&m, &5u32, &8i128), Err(MapContainsFailure::WrongValue));
    assert_eq!(assert_map_contains(&m, &6u32, &7i128), Err(MapContainsFailure::MissingKey));
    assert_eq!(assert_map_contains_key(&m, &6u32), Err(MapContainsFailure::MissingKey));
    let empty: Vec<(u32, i128)> = Vec::new();
    assert_eq!(assert_map_contains_key(&empty, &1u32), Err(MapContainsFailure::MissingKey));
}

#[test]
fn check_balance_change_compares_the_readings() {
    assert_eq!(check_balance_change(100, 1_100, 1_000), Ok(()));
    assert_eq!(check_balance_change(1_000, 600, -400), Ok(()));
    assert_eq!(
        check_balance_change(0, 500, 1_000),
        Err(BalanceChangeError::Mismatch { expected: 1_000, actual: 500, before: 0, after: 500 })
    );
    assert_eq!(
        check_balance_change(-1, i128::MAX, 0),
        Err(BalanceChangeError::Overflow { before: -1, after: i128::MAX })
    );
}

#[test]
fn balance_change_runs_the_action_once() {
    let calls = RefCell::new(0);
    let r = assert_balance_change(|_who: &u32| 7, &1u32, 0, || {
        *calls.borrow_mut() += 1;
    });
    assert_eq!(r, Ok(()));
    assert_eq!(*calls.borrow(), 1);
}

#[test]
fn approx_eq_answers_inputs_further_apart_than_i128_max() {
    assert!(!approx_eq(i128::MAX, -1, i128::MAX));
    assert!(!approx_eq(i128::MIN, i128::MAX, i128::MAX));
    assert_eq!(
        assert_approx_eq(i128::MIN, i128::MAX, 0),
        Err(NotApprox { difference: u128::MAX })
    );
    assert_eq!(assert_approx_eq(i128::MAX, -1, 5), Err(NotApprox { difference: 1u128 << 127 }));
}

#[test]
fn approx_eq_i64_answers_every_pair() {
    assert!(!approx_eq_i64(i64::MIN, i64::MAX, i64::MAX));
    assert!(approx_eq_i64(i64::MIN, -1, i64::MAX));
    assert_eq!(
        assert_approx_eq_i64(i64::MIN, i64::MAX, 0),
        Err(NotApprox { difference: u64::MAX })
    );
}

#[test]
fn within_pct_zero_expectation_for_any_actual() {
    assert!(!within_pct(i128::MAX, 0, 10_000));
    assert!(!within_pct(i128::MIN, 0, i128::MAX));
    assert!(within_pct(0, 0, -5));
    assert!(assert_within_pct(i128::MIN, 0, 100).is_err());
}

fn transfer_topics(from: &str, to: &str) -> Vec<Val> {
    vec![Val::Symbol(symbol("transfer")), Val::Address(account(from)), Val::Address(account(to))]
}

#[test]
fn event_with_address_topics_is_found() {
    let mut log = EventLog::new();
    let id = account("CTOKEN");
    log.publish(&id, transfer_topics("GALICE", "GBOB"), Val::I128(250));
    assert!(assert_event_emitted(&log, &id, &transfer_topics("GALICE", "GBOB"), &Val::I128(250)).is_ok());
    assert!(assert_event_emitted(&log, &id, &transfer_topics("GBOB", "GALICE"), &Val::I128(250)).is_err());
    assert!(assert_event_emitted(&log, &id, &transfer_topics("GALICE", "GBOB"), &Val::I128(251)).is_err());
}

#[test]
fn event_with_structured_data_is_found() {
    let mut log = EventLog::new();
    let id = account("CPOOL");
    let data = || {
        Val::Entries(vec![
            (Val::Symbol(symbol("amount")), Val::I128(5)),
            (Val::Symbol(symbol("memo")), Val::Str(b"hi".to_vec())),
            (Val::Symbol(symbol("path")), Val::List(vec![Val::U32(1), Val::U32(2)])),
        ])
    };
    log.publish(&id, vec![Val::Symbol(symbol("swap"))], data());
    assert!(assert_event_emitted(&log, &id, &vec![Val::Symbol(symbol("swap"))], &data()).is_ok());
    let other = Val::Entries(vec![
        (Val::Symbol(symbol("amount")), Val::I128(5)),
        (Val::Symbol(symbol("memo")), Val::Str(b"hi".to_vec())),
        (Val::Symbol(symbol("path")), Val::List(vec![Val::U32(1), Val::U32(3)])),
    ]);
    assert!(assert_event_emitted(&log, &id, &vec![Val::Symbol(symbol("swap"))], &other).is_err());
}

#[test]
fn values_compare_with_their_type() {
    assert!(same_val(&Val::Symbol(symbol("x")), &Val::Symbol(symbol("x"))));
    assert!(!same_val(&Val::Symbol(symbol("x")), &Val::Str(b"x".to_vec())));
    assert!(!same_val(&Val::U64(7), &Val::Timepoint(7)));
    assert!(!same_val(&Val::List(vec![]), &Val::Entries(vec![])));
    assert!(same_val(&Val::Error { kind: 0, code: 3 }, &Val::Error { kind: 0, code: 3 }));
    assert!(!same_val(&Val::Error { kind: 0, code: 3 }, &Val::Error { kind: 1, code: 3 }));
    assert!(same_val(
        &Val::U256 { hi_hi: 0, hi_lo: 0, lo_hi: 1, lo_lo: 2 },
        &Val::U256 { hi_hi: 0, hi_lo: 0, lo_hi: 1, lo_lo: 2 }
    ));
    assert!(!same_val(
        &Val::I256 { hi_hi: -1, hi_lo: 0, lo_hi: 0, lo_lo: 0 },
        &Val::I256 { hi_hi: 0, hi_lo: 0, lo_hi: 0, lo_lo: 0 }
    ));
}
