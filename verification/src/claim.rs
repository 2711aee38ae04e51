//! The claim orchestration: one request walks
//! validated -> admitted -> transferred -> committed, with early exits.
//!
//! The external transfer happens between the two halves and is not
//! performed here: the caller runs [`begin_claim`], invokes its
//! transfer gateway while holding no ledger lock, and hands the outcome
//! to [`complete_claim`], which commits the grant exactly when the
//! transfer succeeded and otherwise releases the reservation.
use vstd::prelude::*;
use crate::address::Address;
use crate::address::normalize_spec;
use crate::address::valid_address_chars;
use crate::address::validate;
use crate::error::FaucetError;
use crate::ledger::AdmissionLedger;
use crate::ledger::DenyReason;
use crate::ledger::origin_view;
use crate::ledger::pruned_window;
use crate::stats::amount_label;
use crate::stats::amount_per_request_label;

verus! {

/// How the transfer gateway can fail; the detail strings are passed
/// through to the caller verbatim.
#[derive(Clone, Debug, PartialEq, Eq)]
pub enum TransferFailure {
    /// The faucet wallet cannot cover the fixed amount.
    InsufficientFunds,
    /// The chain endpoint could not be reached or answered an error.
    NetworkError(String),
    /// The transfer could not be signed.
    SigningError(String),
}

/// The success payload of a committed claim.
#[derive(Clone, Debug, PartialEq, Eq)]
pub struct ClaimSuccess {
    /// The transaction identifier the gateway returned.
    pub tx_hash: String,
    /// The amount sent, as displayed to the caller.
    pub amount: String,
    /// A human-readable confirmation.
    pub message: String,
}

/// The error a denied admission is reported as.
pub open spec fn deny_error(d: DenyReason) -> FaucetError {
    match d {
        DenyReason::OriginRateLimited => FaucetError::RateLimited,
        DenyReason::AddressCooldown { retry_after } => FaucetError::TooSoon(retry_after),
    }
}

/// The error a failed transfer is reported as.
pub open spec fn failure_error(f: TransferFailure) -> FaucetError {
    match f {
        TransferFailure::InsufficientFunds => FaucetError::InsufficientFunds,
        TransferFailure::NetworkError(detail) => FaucetError::RpcError(detail),
        TransferFailure::SigningError(detail) => FaucetError::InternalError(detail),
    }
}

/// Validates the submitted address and asks the ledger for admission.
///
/// On `Ok` the returned address is normalized and reserved in the
/// ledger; the caller must follow up with [`complete_claim`].  On a
/// malformed address the ledger is untouched.  An admission denial is
/// reported as the corresponding [`FaucetError`]; the origin's window
/// is still pruned, as the ledger's check does.
pub fn begin_claim(
    ledger: &mut AdmissionLedger,
    raw_address: &str,
    origin: Option<&str>,
    now: u64,
) -> (r: Result<Address, FaucetError>)
    ensures
        final(ledger).grant_times() == old(ledger).grant_times(),
        !valid_address_chars(normalize_spec(raw_address@)) ==> {
            &&& r == Err::<Address, FaucetError>(FaucetError::InvalidAddress)
            &&& final(ledger).reserved_set() == old(ledger).reserved_set()
            &&& AdmissionLedger::windows_same_except(*old(ledger), *final(ledger), None)
        },
        valid_address_chars(normalize_spec(raw_address@)) ==> {
            let a = normalize_spec(raw_address@);
            &&& match old(ledger).admission_decision(a, origin_view(origin), now) {
                Ok(()) => {
                    &&& r is Ok
                    &&& r matches Ok(addr) && addr@ == a && addr.wf()
                    &&& final(ledger).reserved_set() == old(ledger).reserved_set().insert(a)
                },
                Err(d) => {
                    &&& r == Err::<Address, FaucetError>(deny_error(d))
                    &&& final(ledger).reserved_set() == old(ledger).reserved_set()
                },
            }
            &&& match origin {
                Some(o) => final(ledger).has_window(o@) && final(ledger).window_of(o@)
                    == pruned_window(old(ledger).window_of(o@), now)
                    && AdmissionLedger::windows_same_except(*old(ledger), *final(ledger), Some(o@)),
                None => AdmissionLedger::windows_same_except(*old(ledger), *final(ledger), None),
            }
        },
{
    let address = match validate(raw_address) {
        Some(a) => a,
        None => {
            return Err(FaucetError::InvalidAddress);
        },
    };
    match ledger.check_and_reserve(&address, origin, now) {
        Ok(()) => Ok(address),
        Err(DenyReason::OriginRateLimited) => Err(FaucetError::RateLimited),
        Err(DenyReason::AddressCooldown { retry_after }) => Err(FaucetError::TooSoon(retry_after)),
    }
}

/// Finishes a claim begun by [`begin_claim`], given the transfer
/// gateway's outcome.
///
/// A successful transfer is committed: exactly one grant-record update
/// for the address, at most one append to the origin's window, and the
/// success payload is returned.  A failed transfer commits neither:
/// only the reservation is released, so the address stays immediately
/// eligible, and the failure is reported as the corresponding
/// [`FaucetError`].
pub fn complete_claim(
    ledger: &mut AdmissionLedger,
    address: &Address,
    origin: Option<&str>,
    now: u64,
    transfer: Result<String, TransferFailure>,
) -> (r: Result<ClaimSuccess, FaucetError>)
    requires
        old(ledger).reserved(address@),
    ensures
        final(ledger).reserved_set() == old(ledger).reserved_set().remove(address@),
        match transfer {
            Ok(tx_hash) => {
                &&& r matches Ok(s) && s.tx_hash == tx_hash && s.amount@ == amount_label()
                    && s.message@ == "Tokens sent successfully!"@
                &&& final(ledger).grant_times() == old(ledger).grant_times().insert(address@, now)
                &&& match origin {
                    Some(o) => final(ledger).has_window(o@) && final(ledger).window_of(o@) == old(
                        ledger,
                    ).window_of(o@).push(now) && AdmissionLedger::windows_same_except(
                        *old(ledger),
                        *final(ledger),
                        Some(o@),
                    ),
                    None => AdmissionLedger::windows_same_except(*old(ledger), *final(ledger), None),
                }
            },
            Err(f) => {
                &&& r == Err::<ClaimSuccess, FaucetError>(failure_error(f))
                &&& final(ledger).grant_times() == old(ledger).grant_times()
                &&& AdmissionLedger::windows_same_except(*old(ledger), *final(ledger), None)
            },
        },
{
    match transfer {
        Ok(tx_hash) => {
            ledger.record_grant(address, origin, now);
            Ok(
                ClaimSuccess {
                    tx_hash,
                    amount: amount_per_request_label(),
                    message: String::from_str("Tokens sent successfully!"),
                },
            )
        },
        Err(f) => {
            ledger.release_reservation(address);
            match f {
                TransferFailure::InsufficientFunds => Err(FaucetError::InsufficientFunds),
                TransferFailure::NetworkError(detail) => Err(FaucetError::RpcError(detail)),
                TransferFailure::SigningError(detail) => Err(FaucetError::InternalError(detail)),
            }
        },
    }
}

} // verus!
