//! Read-only reporting: the stats summary derived from the admission
//! ledger, and the static health and info payloads.
use vstd::prelude::*;
use crate::ledger::AdmissionLedger;
use crate::numfmt::dec_chars;
use crate::numfmt::u128_to_dec;
use crate::numfmt::u64_to_dec;
use crate::COOLDOWN_HOURS;
use crate::FAUCET_AMOUNT_TOKENS;

verus! {

/// `n` whole tokens, as displayed: the decimal count and the token
/// symbol.
pub open spec fn token_label(n: nat) -> Seq<char> {
    dec_chars(n) + " AXX"@
}

/// The fixed per-request amount, as displayed.
pub open spec fn amount_label() -> Seq<char> {
    token_label(FAUCET_AMOUNT_TOKENS as nat)
}

/// Renders `n` whole tokens as displayed to callers.
pub fn render_token_label(n: u128) -> (s: String)
    ensures
        s@ == token_label(n as nat),
{
    let mut s = u128_to_dec(n);
    s.append(" AXX");
    s
}

/// Renders the fixed per-request amount as displayed to callers.
pub fn amount_per_request_label() -> (s: String)
    ensures
        s@ == amount_label(),
{
    render_token_label(FAUCET_AMOUNT_TOKENS)
}

/// The stats payload, derived from the ledger.
#[derive(Clone, Debug, PartialEq, Eq)]
pub struct StatsSummary {
    /// Distinct addresses granted so far (repeat grants to one address
    /// overwrite its record, so this counts addresses, not transfers).
    pub total_requests: usize,
    /// `total_requests` times the fixed amount, as displayed.
    pub total_distributed: String,
    /// The wallet balance display; reading the chain is not this
    /// crate's business, so this is the fixed placeholder.
    pub faucet_balance: String,
    /// The configured cooldown, in hours.
    pub cooldown_hours: u64,
    /// The fixed per-request amount, as displayed.
    pub amount_per_request: String,
}

/// Aggregates the ledger into the stats payload.  The distributed
/// total assumes one grant per recorded address, consistent with the
/// grant record's overwrite semantics.
pub fn get_stats(ledger: &AdmissionLedger) -> (s: StatsSummary)
    ensures
        s.total_requests == ledger.grant_times().len(),
        s.total_distributed@ == token_label(
            ledger.grant_times().len() * FAUCET_AMOUNT_TOKENS as nat,
        ),
        s.faucet_balance@ == "1000 AXX"@,
        s.cooldown_hours == COOLDOWN_HOURS,
        s.amount_per_request@ == amount_label(),
{
    let n = ledger.snapshot_counts();
    let distributed: u128 = (n as u128) * FAUCET_AMOUNT_TOKENS;
    StatsSummary {
        total_requests: n,
        total_distributed: render_token_label(distributed),
        faucet_balance: String::from_str("1000 AXX"),
        cooldown_hours: COOLDOWN_HOURS,
        amount_per_request: amount_per_request_label(),
    }
}

/// The health payload: static service identification.
#[derive(Clone, Debug, PartialEq, Eq)]
pub struct HealthInfo {
    /// Always reports a healthy service.
    pub status: String,
    /// The service's name.
    pub service: String,
    /// The service's version.
    pub version: String,
}

/// Builds the health payload.
pub fn health_info() -> (h: HealthInfo)
    ensures
        h.status@ == "ok"@,
        h.service@ == "axionax-faucet"@,
        h.version@ == "1.0.0"@,
{
    HealthInfo {
        status: String::from_str("ok"),
        service: String::from_str("axionax-faucet"),
        version: String::from_str("1.0.0"),
    }
}

/// The info payload: the chain served and the faucet's policy.
#[derive(Clone, Debug, PartialEq, Eq)]
pub struct FaucetInfo {
    /// The chain identifier the service was configured with.
    pub chain_id: u64,
    /// The fixed per-request amount, as displayed.
    pub amount: String,
    /// The configured cooldown, in hours.
    pub cooldown_hours: u64,
    /// The network's display name.
    pub network: String,
}

/// Builds the info payload for the configured chain.
pub fn faucet_info(chain_id: u64) -> (f: FaucetInfo)
    ensures
        f.chain_id == chain_id,
        f.amount@ == amount_label(),
        f.cooldown_hours == COOLDOWN_HOURS,
        f.network@ == "axionax Testnet"@,
{
    FaucetInfo {
        chain_id,
        amount: amount_per_request_label(),
        cooldown_hours: COOLDOWN_HOURS,
        network: String::from_str("axionax Testnet"),
    }
}

} // verus!
