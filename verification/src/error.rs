//! The request error taxonomy, with the HTTP status code and the
//! human-readable message each error is reported with.
use vstd::prelude::*;
use crate::numfmt::dec_chars;
use crate::numfmt::u64_to_dec;

verus! {

/// Everything that can go wrong with a single claim request.  None of
/// these is fatal to the service; retry is left to the caller.
#[derive(Clone, Debug, PartialEq, Eq)]
pub enum FaucetError {
    /// The submitted address does not have the address syntax.
    InvalidAddress,
    /// The address was granted less than one cooldown ago; the payload
    /// is the remaining wait in seconds.
    TooSoon(u64),
    /// The origin used up its quota for the trailing window.
    RateLimited,
    /// The transfer gateway reported an empty faucet wallet.
    InsufficientFunds,
    /// The transfer gateway failed to reach or use the chain.
    RpcError(String),
    /// Any other failure while completing the transfer.
    InternalError(String),
}

/// The HTTP status code each error is reported with.
pub open spec fn status_of(e: &FaucetError) -> u16 {
    match e {
        FaucetError::InvalidAddress => 400,
        FaucetError::TooSoon(_) => 429,
        FaucetError::RateLimited => 429,
        FaucetError::InsufficientFunds => 503,
        FaucetError::RpcError(_) => 500,
        FaucetError::InternalError(_) => 500,
    }
}

/// The message each error is reported with.  A remaining wait is
/// rounded down to whole hours.
pub open spec fn message_of(e: &FaucetError) -> Seq<char> {
    match e {
        FaucetError::InvalidAddress => "Invalid Ethereum address"@,
        FaucetError::TooSoon(remaining) => "Please wait "@ + dec_chars((remaining / 3600) as nat)
            + " hours before requesting again"@,
        FaucetError::RateLimited => "Too many requests from this IP. Try again later."@,
        FaucetError::InsufficientFunds => "Faucet is currently out of funds. Please try again later."@,
        FaucetError::RpcError(detail) => "RPC error: "@ + detail@,
        FaucetError::InternalError(detail) => "Internal error: "@ + detail@,
    }
}

impl FaucetError {
    /// The HTTP status code for this error.
    pub fn status_code(&self) -> (c: u16)
        ensures
            c == status_of(self),
    {
        match self {
            FaucetError::InvalidAddress => 400,
            FaucetError::TooSoon(_) => 429,
            FaucetError::RateLimited => 429,
            FaucetError::InsufficientFunds => 503,
            FaucetError::RpcError(_) => 500,
            FaucetError::InternalError(_) => 500,
        }
    }

    /// The message for this error.
    pub fn message(&self) -> (m: String)
        ensures
            m@ == message_of(self),
    {
        match self {
            FaucetError::InvalidAddress => String::from_str("Invalid Ethereum address"),
            FaucetError::TooSoon(remaining) => {
                let mut m = String::from_str("Please wait ");
                let hours = u64_to_dec(*remaining / 3600);
                m.append(hours.as_str());
                m.append(" hours before requesting again");
                proof {
                    assert(m@ =~= message_of(self));
                }
                m
            },
            FaucetError::RateLimited => String::from_str(
                "Too many requests from this IP. Try again later.",
            ),
            FaucetError::InsufficientFunds => String::from_str(
                "Faucet is currently out of funds. Please try again later.",
            ),
            FaucetError::RpcError(detail) => {
                let mut m = String::from_str("RPC error: ");
                m.append(detail.as_str());
                proof {
                    assert(m@ =~= message_of(self));
                }
                m
            },
            FaucetError::InternalError(detail) => {
                let mut m = String::from_str("Internal error: ");
                m.append(detail.as_str());
                proof {
                    assert(m@ =~= message_of(self));
                }
                m
            },
        }
    }
}

} // verus!
