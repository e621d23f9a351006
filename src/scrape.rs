//! One scrape of the exporter: serve the cached aggregate while it is fresh,
//! else count and aggregate a fresh feed answer, then set the gauges from it.
//! The caller performs the feed request between the two steps and holds the
//! exporter exclusively for the whole scrape, so that concurrent scrapes that
//! miss the cache share one request: those that waited behind a fill that
//! succeeded find its aggregate cached, those that waited behind a fill that
//! failed share its failure. Times are milliseconds on a monotonic clock.

use vstd::prelude::*;
use crate::aggregate::{Aggregate, is_aggregate_of, total};
use crate::cache::{SnapshotCache, expiry};
use crate::feed::{ActiveStatusesResponse, Error};
use crate::labels::status_keys;
use crate::metrics::{Metrics, counter_value, gauge_after, gauge_samples, record_metrics};

verus! {

/// The counter value after one more request, wrapping at the top.
pub open spec fn next_count(c: u64) -> u64 {
    if c == u64::MAX {
        0
    } else {
        (c + 1) as u64
    }
}

/// How a scrape begins.
#[derive(Clone, Copy, Debug, PartialEq, Eq, Structural)]
pub enum ScrapeStart {
    /// The cached aggregate was fresh and the gauges were set from it.
    Served,
    /// The scrape waited behind a fill that failed, and fails with it.
    SharedFailure,
    /// A feed request is due; its answer goes to `complete_scrape`.
    Fetch,
}

/// The state of the exporter shared by all scrapes: the metrics, the cache,
/// and the time at which the last fill ended, if it failed.
pub struct Exporter {
    pub metrics: Metrics,
    pub cache: SnapshotCache,
    pub failed_fill_at: Option<u64>,
}

impl Exporter {
    /// The gauge family has the labels of a label tuple.
    pub open spec fn wf(&self) -> bool {
        self.metrics.wf()
    }

    /// How a scrape that arrived at `arrived` and holds the exporter from
    /// `now` on begins: served while the cache is fresh at `now`; else failed
    /// when it arrived before the last fill ended in failure; else fetching.
    pub open spec fn start_of(&self, arrived: u64, now: u64) -> ScrapeStart {
        if self.cache.lookup(now) is Some {
            ScrapeStart::Served
        } else if self.failed_fill_at matches Some(f) && arrived < f {
            ScrapeStart::SharedFailure
        } else {
            ScrapeStart::Fetch
        }
    }

    /// The exporter with an empty cache whose entries live `ttl_millis`.
    pub fn new(metrics: Metrics, ttl_millis: u64) -> (r: Exporter)
        ensures
            r.metrics == metrics,
            r.cache.ttl_millis == ttl_millis,
            r.cache.held() is None,
            r.failed_fill_at is None,
    {
        Exporter { metrics, cache: SnapshotCache::new(ttl_millis), failed_fill_at: None }
    }

    /// Handles the answer of one feed request made at `now`: the request is
    /// counted whatever the answer; a success is grouped by label tuple and
    /// cached; a failure is handed back and leaves the cache as it was. The
    /// gauges are not touched.
    pub fn fetch_metrics(&mut self, now: u64, fetched: Result<ActiveStatusesResponse, Error>) -> (r:
        Result<Aggregate, Error>)
        ensures
            counter_value(final(self).metrics.traewelling_requests) == next_count(
                counter_value(old(self).metrics.traewelling_requests),
            ),
            final(self).metrics.checkins == old(self).metrics.checkins,
            final(self).cache.ttl_millis == old(self).cache.ttl_millis,
            fetched matches Err(e) ==> r == Err::<Aggregate, Error>(e) && final(self).cache
                == old(self).cache,
            fetched matches Ok(resp) ==> r matches Ok(a) && is_aggregate_of(
                a@,
                status_keys(resp.data@),
            ) && total(a@) == resp.data@.len() && final(self).cache.held() == Some(
                (a@, expiry(now, old(self).cache.ttl_millis)),
            ),
    {
        self.metrics.record_request();
        match fetched {
            Ok(resp) => {
                let a = Aggregate::of_statuses(&resp.data);
                self.cache.store(a.duplicate(), now);
                Ok(a)
            },
            Err(e) => Err(e),
        }
    }

    /// First step of a scrape that arrived at `arrived` and holds the
    /// exporter from `now` on. When the cache is fresh at `now` the gauges are
    /// set from it. Otherwise nothing changes.
    pub fn begin_scrape(&mut self, arrived: u64, now: u64) -> (r: ScrapeStart)
        requires
            old(self).wf(),
        ensures
            final(self).wf(),
            r == old(self).start_of(arrived, now),
            r == ScrapeStart::Served ==> gauge_samples(final(self).metrics.checkins) == gauge_after(
                old(self).cache.lookup(now)->Some_0,
            ),
            r != ScrapeStart::Served ==> final(self).metrics.checkins == old(self).metrics.checkins,
            counter_value(final(self).metrics.traewelling_requests) == counter_value(
                old(self).metrics.traewelling_requests,
            ),
            final(self).cache == old(self).cache,
            final(self).failed_fill_at == old(self).failed_fill_at,
    {
        match self.cache.get(now) {
            Some(a) => {
                record_metrics(&a, &mut self.metrics);
                ScrapeStart::Served
            },
            None => {
                match self.failed_fill_at {
                    Some(f) => {
                        if arrived < f {
                            ScrapeStart::SharedFailure
                        } else {
                            ScrapeStart::Fetch
                        }
                    },
                    None => ScrapeStart::Fetch,
                }
            },
        }
    }

    /// Second step of a scrape that missed the cache: the answer of the feed
    /// request is counted and, on success, cached and set into the gauges.
    /// On failure the error is handed back, the gauges and the cache stay as
    /// they were, and `now` is kept as the end of a failed fill.
    pub fn complete_scrape(&mut self, now: u64, fetched: Result<ActiveStatusesResponse, Error>) -> (r:
        Result<(), Error>)
        requires
            old(self).wf(),
        ensures
            final(self).wf(),
            counter_value(final(self).metrics.traewelling_requests) == next_count(
                counter_value(old(self).metrics.traewelling_requests),
            ),
            fetched matches Err(e) ==> r == Err::<(), Error>(e) && final(self).metrics.checkins
                == old(self).metrics.checkins && final(self).cache == old(self).cache
                && final(self).failed_fill_at == Some(now),
            fetched is Ok ==> final(self).failed_fill_at is None,
            fetched matches Ok(resp) ==> r is Ok && (final(self).cache.held() matches Some(
                (a, t),
            ) && t == expiry(now, old(self).cache.ttl_millis) && is_aggregate_of(
                a,
                status_keys(resp.data@),
            ) && gauge_samples(final(self).metrics.checkins) == gauge_after(a)),
    {
        match self.fetch_metrics(now, fetched) {
            Ok(a) => {
                record_metrics(&a, &mut self.metrics);
                self.failed_fill_at = None;
                Ok(())
            },
            Err(e) => {
                self.failed_fill_at = Some(now);
                Err(e)
            },
        }
    }
}

/// Scrapes that wait behind one fill share its outcome. Let the fill end at
/// `filled_at` in state `ex`, and let a scrape that arrived before that take
/// its turn at `now`, no earlier, within the time-to-live. If the fill
/// succeeded, the scrape is served from the cache, and so are the later
/// scrapes of the window: no second request is made. If it failed, the
/// scrape fails with it, while a scrape that arrives after the failure makes
/// a new request.
pub proof fn lemma_waiters_share_fill(ex: Exporter, filled_at: u64, arrived: u64, now: u64)
    requires
        ex.failed_fill_at is None ==> (ex.cache.held() matches Some((a, t)) && t == expiry(
            filled_at,
            ex.cache.ttl_millis,
        )),
        ex.failed_fill_at is Some ==> ex.failed_fill_at == Some(filled_at) && ex.cache.lookup(
            filled_at,
        ) is None,
        filled_at <= now,
        now < filled_at + ex.cache.ttl_millis,
        now < u64::MAX,
    ensures
        ex.failed_fill_at is None ==> ex.start_of(arrived, now) == ScrapeStart::Served
            && ex.cache.lookup(now) == Some(ex.cache.held()->Some_0.0),
        ex.failed_fill_at is Some && arrived < filled_at ==> ex.start_of(arrived, now)
            == ScrapeStart::SharedFailure,
        ex.failed_fill_at is Some && arrived >= filled_at ==> ex.start_of(arrived, now)
            == ScrapeStart::Fetch,
{
}

} // verus!
