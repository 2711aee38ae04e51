use faucet::address::is_valid_address;
use faucet::address::validate;
use faucet::address::Address;
use faucet::claim::begin_claim;
use faucet::claim::complete_claim;
use faucet::claim::TransferFailure;
use faucet::error::FaucetError;
use faucet::ledger::AdmissionLedger;
use faucet::ledger::DenyReason;
use faucet::numfmt::u128_to_dec;
use faucet::numfmt::u64_to_dec;
use faucet::stats::faucet_info;
use faucet::stats::get_stats;
use faucet::stats::health_info;
use faucet::COOLDOWN_SECS;

const ADDR_A: &str = "0xAAAAAAAAAAAAAAAAAAAAAAAAAAAAAAAAAAAAAAAA";
const ADDR_A_LOWER: &str = "0xaaaaaaaaaaaaaaaaaaaaaaaaaaaaaaaaaaaaaaaa";
const ADDR_B: &str = "0xbbbbbbbbbbbbbbbbbbbbbbbbbbbbbbbbbbbbbbbb";
const ADDR_C: &str = "0xcccccccccccccccccccccccccccccccccccccccc";
const ADDR_D: &str = "0xdddddddddddddddddddddddddddddddddddddddd";

fn addr(s: &str) -> Address {
    validate(s).expect("address should validate")
}

fn grant(ledger: &mut AdmissionLedger, raw: &str, origin: Option<&str>, now: u64) -> String {
    let a = begin_claim(ledger, raw, origin, now).expect("admission should pass");
    let ok = complete_claim(ledger, &a, origin, now, Ok(String::from("0xfeed")))
        .expect("commit should pass");
    ok.tx_hash
}

#[test]
fn accepts_and_normalizes_mixed_case() {
    let a = validate("  0xABCDEF0123456789abcdef0123456789ABCDEF01 ").unwrap();
    assert_eq!(a.as_str(), "0xabcdef0123456789abcdef0123456789abcdef01");
}

#[test]
fn accepts_upper_case_prefix() {
    let a = validate("0XAAAAAAAAAAAAAAAAAAAAAAAAAAAAAAAAAAAAAAAA").unwrap();
    assert_eq!(a.as_str(), ADDR_A_LOWER);
}

#[test]
fn already_normalized_stays_as_is() {
    let a = validate(ADDR_A_LOWER).unwrap();
    assert_eq!(a.as_str(), ADDR_A_LOWER);
}

#[test]
fn rejects_malformed_addresses() {
    assert!(validate("not-an-address").is_none());
    assert!(validate("").is_none());
    assert!(validate("   ").is_none());
    assert!(validate("0x123").is_none());
    // 39 digits.
    assert!(validate("0xaaaaaaaaaaaaaaaaaaaaaaaaaaaaaaaaaaaaaaa").is_none());
    // 41 digits.
    assert!(validate("0xaaaaaaaaaaaaaaaaaaaaaaaaaaaaaaaaaaaaaaaaa").is_none());
    // A non-hex digit.
    assert!(validate("0xaaaaaaaaaaaaaaaaaaaaaaaaaaaaaaaaaaaaaaag").is_none());
    // Missing prefix.
    assert!(validate("aaaaaaaaaaaaaaaaaaaaaaaaaaaaaaaaaaaaaaaaaa").is_none());
    // Whitespace inside is not trimmed away.
    assert!(validate("0xaaaaaaaaaaaaaaaaaaa aaaaaaaaaaaaaaaaaaaa").is_none());
}

#[test]
fn syntax_check_is_case_insensitive_on_digits() {
    assert!(is_valid_address(ADDR_A_LOWER));
    assert!(is_valid_address(ADDR_A));
    assert!(is_valid_address("0xAbCdEf0123456789aBcDeF0123456789AbCdEf01"));
    assert!(!is_valid_address("0Xaaaaaaaaaaaaaaaaaaaaaaaaaaaaaaaaaaaaaaaa"));
    assert!(!is_valid_address(" 0xaaaaaaaaaaaaaaaaaaaaaaaaaaaaaaaaaaaaaaaa"));
    assert!(!is_valid_address("0xaaaaaaaaaaaaaaaaaaaaaaaaaaaaaaaaaaaaaaa"));
}

#[test]
fn decimal_rendering() {
    assert_eq!(u128_to_dec(0).as_str(), "0");
    assert_eq!(u128_to_dec(7).as_str(), "7");
    assert_eq!(u128_to_dec(10).as_str(), "10");
    assert_eq!(u128_to_dec(12345).as_str(), "12345");
    assert_eq!(u64_to_dec(23).as_str(), "23");
}

#[test]
fn error_status_codes() {
    assert_eq!(FaucetError::InvalidAddress.status_code(), 400);
    assert_eq!(FaucetError::TooSoon(82800).status_code(), 429);
    assert_eq!(FaucetError::RateLimited.status_code(), 429);
    assert_eq!(FaucetError::InsufficientFunds.status_code(), 503);
    assert_eq!(FaucetError::RpcError(String::from("boom")).status_code(), 500);
    assert_eq!(FaucetError::InternalError(String::from("boom")).status_code(), 500);
}

#[test]
fn error_messages() {
    assert_eq!(
        FaucetError::InvalidAddress.message().as_str(),
        "Invalid Ethereum address"
    );
    assert_eq!(
        FaucetError::TooSoon(82800).message().as_str(),
        "Please wait 23 hours before requesting again"
    );
    assert_eq!(
        FaucetError::TooSoon(3599).message().as_str(),
        "Please wait 0 hours before requesting again"
    );
    assert_eq!(
        FaucetError::RateLimited.message().as_str(),
        "Too many requests from this IP. Try again later."
    );
    assert_eq!(
        FaucetError::InsufficientFunds.message().as_str(),
        "Faucet is currently out of funds. Please try again later."
    );
    assert_eq!(
        FaucetError::RpcError(String::from("bad rpc")).message().as_str(),
        "RPC error: bad rpc"
    );
    assert_eq!(
        FaucetError::InternalError(String::from("oops")).message().as_str(),
        "Internal error: oops"
    );
}

#[test]
fn cooldown_scenario_grant_deny_regrant() {
    let mut ledger = AdmissionLedger::new();

    let a = begin_claim(&mut ledger, ADDR_A, None, 0).unwrap();
    assert_eq!(a.as_str(), ADDR_A_LOWER);
    let ok = complete_claim(&mut ledger, &a, None, 0, Ok(String::from("0xtx1"))).unwrap();
    assert_eq!(ok.tx_hash.as_str(), "0xtx1");
    assert_eq!(ok.amount.as_str(), "100 AXX");
    assert_eq!(ok.message.as_str(), "Tokens sent successfully!");

    // One hour later: denied, 23 hours to wait.
    let denied = begin_claim(&mut ledger, ADDR_A, None, 3600).unwrap_err();
    assert_eq!(denied, FaucetError::TooSoon(82800));
    assert_eq!(
        denied.message().as_str(),
        "Please wait 23 hours before requesting again"
    );

    // 25 hours later: eligible again; a differently-cased spelling
    // lands on the same ledger entry.
    let a2 = begin_claim(&mut ledger, ADDR_A, None, 25 * 3600).unwrap();
    complete_claim(&mut ledger, &a2, None, 25 * 3600, Ok(String::from("0xtx2"))).unwrap();
    assert_eq!(get_stats(&ledger).total_requests, 1);
}

#[test]
fn cooldown_boundary_is_strict() {
    let mut ledger = AdmissionLedger::new();
    grant(&mut ledger, ADDR_A, None, 0);
    assert_eq!(
        begin_claim(&mut ledger, ADDR_A, None, COOLDOWN_SECS - 1).unwrap_err(),
        FaucetError::TooSoon(1)
    );
    assert!(begin_claim(&mut ledger, ADDR_A, None, COOLDOWN_SECS).is_ok());
}

#[test]
fn origin_rate_limit_scenario() {
    let mut ledger = AdmissionLedger::new();
    let origin = Some("1.2.3.4");

    grant(&mut ledger, ADDR_A, origin, 0);
    grant(&mut ledger, ADDR_B, origin, 1);
    grant(&mut ledger, ADDR_C, origin, 2);

    // A fourth, fresh address from the same origin within the window.
    let denied = begin_claim(&mut ledger, ADDR_D, origin, 3).unwrap_err();
    assert_eq!(denied, FaucetError::RateLimited);

    // Another origin, and no origin at all, are unaffected.
    assert!(begin_claim(&mut ledger, ADDR_D, Some("5.6.7.8"), 3).is_ok());
    let mut other = AdmissionLedger::new();
    grant(&mut other, ADDR_A, origin, 0);
    grant(&mut other, ADDR_B, origin, 1);
    grant(&mut other, ADDR_C, origin, 2);
    assert!(begin_claim(&mut other, ADDR_D, None, 3).is_ok());
}

#[test]
fn origin_window_slides() {
    let mut ledger = AdmissionLedger::new();
    let origin = Some("1.2.3.4");
    grant(&mut ledger, ADDR_A, origin, 0);
    grant(&mut ledger, ADDR_B, origin, 0);
    grant(&mut ledger, ADDR_C, origin, 0);
    // Just inside the window the quota still binds ...
    assert_eq!(
        begin_claim(&mut ledger, ADDR_D, origin, COOLDOWN_SECS - 1).unwrap_err(),
        FaucetError::RateLimited
    );
    // ... one second later the old grants have slid out.
    assert!(begin_claim(&mut ledger, ADDR_D, origin, COOLDOWN_SECS).is_ok());
}

#[test]
fn origin_limit_checked_before_address_cooldown() {
    let mut ledger = AdmissionLedger::new();
    let origin = Some("1.2.3.4");
    grant(&mut ledger, ADDR_A, origin, 0);
    grant(&mut ledger, ADDR_B, origin, 0);
    grant(&mut ledger, ADDR_C, origin, 0);
    // ADDR_A is also in cooldown, but the origin check comes first.
    assert_eq!(
        begin_claim(&mut ledger, ADDR_A, origin, 1).unwrap_err(),
        FaucetError::RateLimited
    );
}

#[test]
fn malformed_address_mutates_nothing() {
    let mut ledger = AdmissionLedger::new();
    let denied = begin_claim(&mut ledger, "not-an-address", Some("1.2.3.4"), 0).unwrap_err();
    assert_eq!(denied, FaucetError::InvalidAddress);
    assert_eq!(denied.status_code(), 400);
    assert_eq!(get_stats(&ledger).total_requests, 0);
    // The origin's window counted nothing either: three grants still fit.
    grant(&mut ledger, ADDR_A, Some("1.2.3.4"), 1);
    grant(&mut ledger, ADDR_B, Some("1.2.3.4"), 2);
    grant(&mut ledger, ADDR_C, Some("1.2.3.4"), 3);
}

#[test]
fn failed_transfer_commits_nothing() {
    let mut ledger = AdmissionLedger::new();
    let origin = Some("1.2.3.4");

    let a = begin_claim(&mut ledger, ADDR_A, origin, 0).unwrap();
    let err = complete_claim(
        &mut ledger,
        &a,
        origin,
        0,
        Err(TransferFailure::NetworkError(String::from("rpc down"))),
    )
    .unwrap_err();
    assert_eq!(err, FaucetError::RpcError(String::from("rpc down")));

    // No grant recorded, address immediately eligible again.
    assert_eq!(get_stats(&ledger).total_requests, 0);
    assert!(!ledger.is_reserved(&a));
    grant(&mut ledger, ADDR_A, origin, 1);

    // The failed attempt did not count against the origin either.
    grant(&mut ledger, ADDR_B, origin, 2);
    grant(&mut ledger, ADDR_C, origin, 3);
}

#[test]
fn transfer_failures_map_to_errors() {
    let mut ledger = AdmissionLedger::new();
    let a = begin_claim(&mut ledger, ADDR_A, None, 0).unwrap();
    let err = complete_claim(&mut ledger, &a, None, 0, Err(TransferFailure::InsufficientFunds))
        .unwrap_err();
    assert_eq!(err, FaucetError::InsufficientFunds);
    assert_eq!(err.status_code(), 503);

    let a = begin_claim(&mut ledger, ADDR_A, None, 1).unwrap();
    let err = complete_claim(
        &mut ledger,
        &a,
        None,
        1,
        Err(TransferFailure::SigningError(String::from("no key"))),
    )
    .unwrap_err();
    assert_eq!(err, FaucetError::InternalError(String::from("no key")));
    assert_eq!(err.status_code(), 500);
}

#[test]
fn in_flight_claim_excludes_second_admission() {
    let mut ledger = AdmissionLedger::new();
    let a = begin_claim(&mut ledger, ADDR_A, None, 0).unwrap();
    assert!(ledger.is_reserved(&a));

    // While the transfer is in flight, the same address is denied,
    // whatever the spelling it is asked for under.
    assert_eq!(
        begin_claim(&mut ledger, ADDR_A, None, 0).unwrap_err(),
        FaucetError::TooSoon(COOLDOWN_SECS)
    );
    assert_eq!(
        begin_claim(&mut ledger, ADDR_A_LOWER, None, 0).unwrap_err(),
        FaucetError::TooSoon(COOLDOWN_SECS)
    );
    // A different address is not blocked.
    assert!(begin_claim(&mut ledger, ADDR_B, None, 0).is_ok());

    complete_claim(&mut ledger, &a, None, 0, Ok(String::from("0xtx"))).unwrap();
    assert!(!ledger.is_reserved(&a));
    assert_eq!(
        begin_claim(&mut ledger, ADDR_A, None, 0).unwrap_err(),
        FaucetError::TooSoon(COOLDOWN_SECS)
    );
}

#[test]
fn ledger_reason_granularity() {
    let mut ledger = AdmissionLedger::new();
    let a = addr(ADDR_A);
    assert_eq!(ledger.check_and_reserve(&a, Some("1.2.3.4"), 5), Ok(()));
    ledger.record_grant(&a, Some("1.2.3.4"), 5);
    assert_eq!(
        ledger.check_and_reserve(&a, Some("1.2.3.4"), 10),
        Err(DenyReason::AddressCooldown { retry_after: COOLDOWN_SECS - 5 })
    );
    assert_eq!(ledger.snapshot_counts(), 1);
}

#[test]
fn release_makes_address_eligible() {
    let mut ledger = AdmissionLedger::new();
    let a = addr(ADDR_A);
    assert_eq!(ledger.check_and_reserve(&a, None, 0), Ok(()));
    ledger.release_reservation(&a);
    assert_eq!(ledger.check_and_reserve(&a, None, 0), Ok(()));
}

#[test]
fn stats_track_distinct_addresses() {
    let mut ledger = AdmissionLedger::new();
    let s = get_stats(&ledger);
    assert_eq!(s.total_requests, 0);
    assert_eq!(s.total_distributed.as_str(), "0 AXX");
    assert_eq!(s.faucet_balance.as_str(), "1000 AXX");
    assert_eq!(s.cooldown_hours, 24);
    assert_eq!(s.amount_per_request.as_str(), "100 AXX");

    grant(&mut ledger, ADDR_A, None, 0);
    grant(&mut ledger, ADDR_B, None, 0);
    let s = get_stats(&ledger);
    assert_eq!(s.total_requests, 2);
    assert_eq!(s.total_distributed.as_str(), "200 AXX");

    // A repeat grant overwrites; the distinct count stays.
    grant(&mut ledger, ADDR_A, None, 2 * COOLDOWN_SECS);
    assert_eq!(get_stats(&ledger).total_requests, 2);
}

#[test]
fn health_and_info_payloads() {
    let h = health_info();
    assert_eq!(h.status.as_str(), "ok");
    assert_eq!(h.service.as_str(), "axionax-faucet");
    assert_eq!(h.version.as_str(), "1.0.0");

    let i = faucet_info(86137);
    assert_eq!(i.chain_id, 86137);
    assert_eq!(i.amount.as_str(), "100 AXX");
    assert_eq!(i.cooldown_hours, 24);
    assert_eq!(i.network.as_str(), "axionax Testnet");
}
