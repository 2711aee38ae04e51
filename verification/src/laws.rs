//! The guarantees the admission ledger gives across calls, stated once
//! and proved, over the same spec functions its contracts use.
use vstd::prelude::*;
use crate::ledger::AdmissionLedger;
use crate::ledger::DenyReason;
use crate::ledger::elapsed_since;
use crate::ledger::in_window;
use crate::ledger::pruned_window;
use crate::COOLDOWN_SECS;
use crate::MAX_REQUESTS_PER_ORIGIN;

verus! {

/// Appending one timestamp to a window grows its pruned form by
/// exactly that timestamp when it is within the window at `now`, and
/// not at all otherwise.  With `record_grant`'s contract (each commit
/// appends the grant time), this is how successive grants accumulate
/// against an origin's quota.
pub proof fn lemma_pruned_window_push(w: Seq<u64>, t: u64, now: u64)
    ensures
        in_window(t, now) ==> pruned_window(w.push(t), now) == pruned_window(w, now).push(t),
        !in_window(t, now) ==> pruned_window(w.push(t), now) == pruned_window(w, now),
{
    assert(w.push(t).drop_last() =~= w);
    assert(w.push(t).last() == t);
}

/// An address granted less than one cooldown ago is denied again: any
/// admission check within the window whose origin side passes comes
/// back as `AddressCooldown`, with a positive `retry_after` of at most
/// the configured cooldown.
pub proof fn lemma_cooldown_denies_repeat(
    l: AdmissionLedger,
    a: Seq<char>,
    o: Option<Seq<char>>,
    now: u64,
)
    requires
        l.grant_times().contains_key(a),
        elapsed_since(l.grant_times()[a], now) < COOLDOWN_SECS,
        match o {
            Some(og) => !l.origin_limited(og, now),
            None => true,
        },
    ensures
        l.admission_decision(a, o, now) == Err::<(), DenyReason>(
            DenyReason::AddressCooldown { retry_after: l.cooldown_remaining(a, now) },
        ),
        0 < l.cooldown_remaining(a, now) <= COOLDOWN_SECS,
{
}

/// Once an origin has its full quota of grants within the trailing
/// window, every further request from it is denied `OriginRateLimited`,
/// whatever address it names.
pub proof fn lemma_origin_quota_denies(l: AdmissionLedger, o: Seq<char>, now: u64)
    requires
        pruned_window(l.window_of(o), now).len() >= MAX_REQUESTS_PER_ORIGIN,
    ensures
        forall|a: Seq<char>| #[trigger] l.admission_decision(a, Some(o), now) == Err::<
            (),
            DenyReason,
        >(DenyReason::OriginRateLimited),
{
}

/// A reserved address cannot be admitted again: while a claim for it
/// is in flight, every admission check for it is denied.  Together
/// with `check_and_reserve`'s contract (an admitted address becomes
/// reserved at once), overlapping claims for one address, in whatever
/// order the ledger serializes them, admit at most one until that
/// claim commits or is released.
pub proof fn lemma_reservation_excludes(
    l: AdmissionLedger,
    a: Seq<char>,
    o: Option<Seq<char>>,
    now: u64,
)
    requires
        l.reserved(a),
    ensures
        l.admission_decision(a, o, now) is Err,
{
}

/// Admission is exactly the three checks and nothing else: an address
/// that is neither in cooldown nor reserved, asked for by an origin
/// with quota left (or by none), is admitted.
pub proof fn lemma_admission_complete(
    l: AdmissionLedger,
    a: Seq<char>,
    o: Option<Seq<char>>,
    now: u64,
)
    requires
        match o {
            Some(og) => !l.origin_limited(og, now),
            None => true,
        },
        !l.address_in_cooldown(a, now),
        !l.reserved(a),
    ensures
        l.admission_decision(a, o, now) == Ok::<(), DenyReason>(()),
{
}

} // verus!
