//! The admission ledger: sole arbiter of whether an (address, origin)
//! pair may receive funds now, and sole keeper of grant history.
//!
//! It tracks the last grant time per address, a sliding window of grant
//! timestamps per origin (pruned lazily on each check), and the set of
//! addresses with a claim in flight.  Admission is two-phase: a
//! successful [`AdmissionLedger::check_and_reserve`] reserves the
//! address, and the grant is recorded by
//! [`AdmissionLedger::record_grant`] only once the external transfer
//! succeeded; a failed transfer releases the reservation and leaves the
//! address immediately eligible again.
use vstd::prelude::*;
use vstd::hash_map::StringHashMap;
use vstd::hash_set::StringHashSet;
use crate::address::Address;
use crate::COOLDOWN_SECS;
use crate::MAX_REQUESTS_PER_ORIGIN;

verus! {

/// Why an admission check denied a request, in evaluation order:
/// origin rate limiting is checked before the address cooldown.
#[derive(Clone, Copy, Debug, PartialEq, Eq)]
pub enum DenyReason {
    /// The origin already got its full quota of grants in the trailing
    /// window.
    OriginRateLimited,
    /// The address was granted less than one cooldown ago, or has a
    /// claim in flight; `retry_after` is in seconds.
    AddressCooldown { retry_after: u64 },
}

/// A grant timestamp still counts against the window at `now`.
pub open spec fn in_window(t: u64, now: u64) -> bool {
    now < t + COOLDOWN_SECS
}

/// The timestamps of `w` still within the window at `now`, in order.
pub open spec fn pruned_window(w: Seq<u64>, now: u64) -> Seq<u64>
    decreases w.len(),
{
    if w.len() == 0 {
        Seq::empty()
    } else if in_window(w.last(), now) {
        pruned_window(w.drop_last(), now).push(w.last())
    } else {
        pruned_window(w.drop_last(), now)
    }
}

/// Whole seconds elapsed from `last` to `now` (zero if `last` lies in
/// the future).
pub open spec fn elapsed_since(last: u64, now: u64) -> u64 {
    if now >= last {
        (now - last) as u64
    } else {
        0
    }
}

/// The view of an optional origin.
pub open spec fn origin_view(origin: Option<&str>) -> Option<Seq<char>> {
    match origin {
        Some(o) => Some(o@),
        None => None,
    }
}

/// The shared store behind all admission decisions.
pub struct AdmissionLedger {
    /// Last grant time per (normalized) address.
    grants: StringHashMap<u64>,
    /// Grant timestamps per origin, oldest first.
    windows: StringHashMap<Vec<u64>>,
    /// Addresses reserved by an admitted claim still in flight.
    pending: StringHashSet,
}

impl AdmissionLedger {
    /// Last grant time per address.
    pub closed spec fn grant_times(&self) -> Map<Seq<char>, u64> {
        self.grants@
    }

    /// Addresses reserved by a claim in flight.
    pub closed spec fn reserved_set(&self) -> Set<Seq<char>> {
        self.pending@
    }

    /// Whether the origin has a window entry at all.
    pub closed spec fn has_window(&self, o: Seq<char>) -> bool {
        self.windows@.contains_key(o)
    }

    /// The origin's recorded grant timestamps (empty if none yet).
    pub closed spec fn window_of(&self, o: Seq<char>) -> Seq<u64> {
        if self.windows@.contains_key(o) {
            self.windows@[o]@
        } else {
            Seq::empty()
        }
    }

    /// The address is reserved by a claim in flight.
    pub open spec fn reserved(&self, a: Seq<char>) -> bool {
        self.reserved_set().contains(a)
    }

    /// The origin has used up its quota for the trailing window.
    pub open spec fn origin_limited(&self, o: Seq<char>, now: u64) -> bool {
        pruned_window(self.window_of(o), now).len() >= MAX_REQUESTS_PER_ORIGIN
    }

    /// The address got a grant less than one cooldown ago.
    pub open spec fn address_in_cooldown(&self, a: Seq<char>, now: u64) -> bool {
        self.grant_times().contains_key(a) && elapsed_since(self.grant_times()[a], now)
            < COOLDOWN_SECS
    }

    /// Seconds until the address's cooldown ends (meaningful while
    /// `address_in_cooldown` holds).
    pub open spec fn cooldown_remaining(&self, a: Seq<char>, now: u64) -> u64 {
        (COOLDOWN_SECS - elapsed_since(self.grant_times()[a], now)) as u64
    }

    /// The admission decision for `(a, o)` at `now`, checks in the
    /// service's evaluation order: origin rate limit first, then the
    /// address cooldown, then an in-flight reservation on the address.
    pub open spec fn admission_decision(&self, a: Seq<char>, o: Option<Seq<char>>, now: u64) -> Result<(), DenyReason> {
        let origin_denied = match o {
            Some(og) => self.origin_limited(og, now),
            None => false,
        };
        if origin_denied {
            Err(DenyReason::OriginRateLimited)
        } else if self.address_in_cooldown(a, now) {
            Err(DenyReason::AddressCooldown { retry_after: self.cooldown_remaining(a, now) })
        } else if self.reserved(a) {
            Err(DenyReason::AddressCooldown { retry_after: COOLDOWN_SECS })
        } else {
            Ok(())
        }
    }

    /// All origin windows agree between `pre` and `post`, except
    /// possibly the one named by `o`.
    pub open spec fn windows_same_except(pre: Self, post: Self, o: Option<Seq<char>>) -> bool {
        forall|p: Seq<char>|
            o != Some(p) ==> #[trigger] post.window_of(p) == pre.window_of(p) && post.has_window(p)
                == pre.has_window(p)
    }

    /// An empty ledger: no grants, no windows, no reservations.
    pub fn new() -> (r: Self)
        ensures
            r.grant_times() == Map::<Seq<char>, u64>::empty(),
            r.reserved_set() == Set::<Seq<char>>::empty(),
            forall|o: Seq<char>| !(#[trigger] r.has_window(o)) && r.window_of(o) == Seq::<
                u64,
            >::empty(),
    {
        AdmissionLedger {
            grants: StringHashMap::new(),
            windows: StringHashMap::new(),
            pending: StringHashSet::new(),
        }
    }

    /// Number of distinct addresses ever granted.
    pub fn snapshot_counts(&self) -> (n: usize)
        ensures
            n == self.grant_times().len(),
    {
        self.grants.len()
    }

    /// Whether a claim for this address is currently in flight.
    pub fn is_reserved(&self, address: &Address) -> (b: bool)
        ensures
            b == self.reserved(address@),
    {
        self.pending.contains(address.as_str())
    }

    /// Decides whether `(address, origin)` may receive funds at `now`,
    /// per [`Self::admission_decision`] on the pre-state.  On success
    /// the address is reserved, so no later check for it can also be
    /// admitted until the claim commits or is released.  The given
    /// origin's window is pruned to the trailing cooldown window
    /// whether or not the check passes; nothing else changes.
    pub fn check_and_reserve(&mut self, address: &Address, origin: Option<&str>, now: u64) -> (r:
        Result<(), DenyReason>)
        ensures
            r == old(self).admission_decision(address@, origin_view(origin), now),
            final(self).grant_times() == old(self).grant_times(),
            final(self).reserved_set() == if r is Ok {
                old(self).reserved_set().insert(address@)
            } else {
                old(self).reserved_set()
            },
            match origin {
                Some(o) => final(self).has_window(o@) && final(self).window_of(o@) == pruned_window(
                    old(self).window_of(o@),
                    now,
                ) && Self::windows_same_except(*old(self), *final(self), Some(o@)),
                None => Self::windows_same_except(*old(self), *final(self), None),
            },
    {
        if let Some(o) = origin {
            let w = match self.windows.get(o) {
                Some(v) => prune_window_vec(v, now),
                None => Vec::new(),
            };
            let limited = w.len() >= MAX_REQUESTS_PER_ORIGIN;
            proof {
                assert(limited == old(self).origin_limited(o@, now));
            }
            self.windows.insert(o.to_owned(), w);
            if limited {
                return Err(DenyReason::OriginRateLimited);
            }
        }
        let last_grant: Option<u64> = match self.grants.get(address.as_str()) {
            Some(t) => Some(*t),
            None => None,
        };
        if let Some(last) = last_grant {
            let elapsed = if now >= last {
                now - last
            } else {
                0
            };
            if elapsed < COOLDOWN_SECS {
                return Err(DenyReason::AddressCooldown { retry_after: COOLDOWN_SECS - elapsed });
            }
        }
        if self.pending.contains(address.as_str()) {
            return Err(DenyReason::AddressCooldown { retry_after: COOLDOWN_SECS });
        }
        self.pending.insert(address.as_str().to_owned());
        Ok(())
    }

    /// Commits a grant: overwrites the address's last grant time,
    /// appends to the origin's window (creating it if absent), and
    /// releases the reservation.  To be called exactly once per
    /// successful transfer, under the reservation taken by
    /// [`Self::check_and_reserve`].
    pub fn record_grant(&mut self, address: &Address, origin: Option<&str>, now: u64)
        requires
            old(self).reserved(address@),
        ensures
            final(self).grant_times() == old(self).grant_times().insert(address@, now),
            final(self).reserved_set() == old(self).reserved_set().remove(address@),
            match origin {
                Some(o) => final(self).has_window(o@) && final(self).window_of(o@) == old(self).window_of(
                    o@,
                ).push(now) && Self::windows_same_except(*old(self), *final(self), Some(o@)),
                None => Self::windows_same_except(*old(self), *final(self), None),
            },
    {
        self.pending.remove(address.as_str());
        self.grants.insert(address.as_str().to_owned(), now);
        if let Some(o) = origin {
            let mut w = match self.windows.get(o) {
                Some(v) => copy_window(v),
                None => Vec::new(),
            };
            w.push(now);
            self.windows.insert(o.to_owned(), w);
        }
    }

    /// Releases the reservation on an address whose transfer did not
    /// succeed; grant history and origin windows are untouched, so the
    /// address stays immediately eligible.
    pub fn release_reservation(&mut self, address: &Address)
        ensures
            final(self).grant_times() == old(self).grant_times(),
            final(self).reserved_set() == old(self).reserved_set().remove(address@),
            Self::windows_same_except(*old(self), *final(self), None),
    {
        self.pending.remove(address.as_str());
    }
}

/// Copies a window, element for element.
fn copy_window(v: &Vec<u64>) -> (r: Vec<u64>)
    ensures
        r@ == v@,
{
    let mut r: Vec<u64> = Vec::new();
    let mut i: usize = 0;
    while i < v.len()
        invariant
            0 <= i <= v.len(),
            r@ == v@.take(i as int),
        decreases v.len() - i,
    {
        r.push(v[i]);
        proof {
            assert(v@.take(i + 1) =~= v@.take(i as int).push(v@[i as int]));
        }
        i += 1;
    }
    proof {
        assert(v@.take(v@.len() as int) =~= v@);
    }
    r
}

/// Keeps exactly the timestamps still within the window at `now`.
fn prune_window_vec(v: &Vec<u64>, now: u64) -> (r: Vec<u64>)
    ensures
        r@ == pruned_window(v@, now),
{
    let mut r: Vec<u64> = Vec::new();
    let mut i: usize = 0;
    while i < v.len()
        invariant
            0 <= i <= v.len(),
            r@ == pruned_window(v@.take(i as int), now),
        decreases v.len() - i,
    {
        let t = v[i];
        proof {
            assert(v@.take(i + 1).drop_last() =~= v@.take(i as int));
            assert(v@.take(i + 1).last() == v@[i as int]);
        }
        if t >= now || now - t < COOLDOWN_SECS {
            r.push(t);
        }
        i += 1;
    }
    proof {
        assert(v@.take(v@.len() as int) =~= v@);
    }
    r
}

} // verus!
