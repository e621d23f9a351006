//! The snapshot cache: the last aggregate fetched, kept for a short
//! time-to-live so that scrapes within it share one feed request.

use vstd::prelude::*;
use crate::aggregate::{Aggregate, Entry};

verus! {

/// Time-to-live of a cached aggregate, in milliseconds, unless configured
/// otherwise.
pub const DEFAULT_TTL_MILLIS: u64 = 30000;

/// The one cache entry of the exporter, absent or holding an aggregate with
/// the instant at which it expires. Times are milliseconds on a monotonic
/// clock.
pub struct SnapshotCache {
    pub ttl_millis: u64,
    pub entry: Option<(Aggregate, u64)>,
}

/// The end of the time-to-live of a value stored at `now`.
pub open spec fn expiry(now: u64, ttl: u64) -> u64 {
    if now + ttl > u64::MAX {
        u64::MAX
    } else {
        (now + ttl) as u64
    }
}

impl SnapshotCache {
    /// The entry as a mathematical value: the aggregate and its expiry.
    pub open spec fn held(&self) -> Option<(Seq<Entry>, u64)> {
        match self.entry {
            Some((a, t)) => Some((a@, t)),
            None => None,
        }
    }

    /// What a lookup at `now` finds: the aggregate, while it has not expired.
    pub open spec fn lookup(&self, now: u64) -> Option<Seq<Entry>> {
        match self.held() {
            Some((a, t)) => if now < t {
                Some(a)
            } else {
                None
            },
            None => None,
        }
    }

    /// An empty cache whose entries live `ttl_millis` milliseconds.
    pub fn new(ttl_millis: u64) -> (r: SnapshotCache)
        ensures
            r.ttl_millis == ttl_millis,
            r.held() is None,
    {
        SnapshotCache { ttl_millis, entry: None }
    }

    /// The cached aggregate, unless it is absent or has expired at `now`.
    pub fn get(&self, now: u64) -> (r: Option<Aggregate>)
        ensures
            r matches Some(a) ==> self.lookup(now) == Some(a@),
            r is None ==> self.lookup(now) is None,
    {
        match &self.entry {
            Some((a, expires_at)) => {
                if now < *expires_at {
                    Some(a.duplicate())
                } else {
                    None
                }
            },
            None => None,
        }
    }

    /// Stores an aggregate fetched at `now`; it expires `ttl_millis` later.
    pub fn store(&mut self, value: Aggregate, now: u64)
        ensures
            final(self).ttl_millis == old(self).ttl_millis,
            final(self).held() == Some((value@, expiry(now, old(self).ttl_millis))),
    {
        let expires_at = now.saturating_add(self.ttl_millis);
        self.entry = Some((value, expires_at));
    }
}

/// Within the time-to-live of a stored aggregate every lookup finds that
/// aggregate, so no second fill happens in that window; from its expiry on,
/// lookups find nothing and the next caller fills again.
pub proof fn lemma_one_fill_per_window(c: SnapshotCache, stored_at: u64, now: u64)
    requires
        c.held() matches Some((a, t)) && t == expiry(stored_at, c.ttl_millis),
        stored_at <= now,
    ensures
        now < stored_at + c.ttl_millis && now < u64::MAX ==> c.lookup(now) == Some(c.held()->Some_0.0),
        now >= stored_at + c.ttl_millis ==> c.lookup(now) is None,
{
}

} // verus!
