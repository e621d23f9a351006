//! The exported metrics: the `journeys` gauge family, one sample per label
//! tuple, and the `traewelling_requests` counter of feed requests.

use vstd::prelude::*;
use prometheus::{IntCounter, IntGaugeVec};
use crate::aggregate::{Aggregate, Entry, entries_view};
use crate::labels::{LabelKey, label_names, spec_label_names};

verus! {

/// A counter of the default registry.
#[verifier::external_body]
pub struct RequestCounter {
    counter: IntCounter,
}

/// The value of a counter.
pub uninterp spec fn counter_value(c: RequestCounter) -> u64;

/// Relies on `GenericCounter::new` (through `IntCounter::new`): a counter made with a name and help text
/// starts at zero.
#[verifier::external_body]
fn new_counter(name: &str, help: &str) -> (r: Result<RequestCounter, String>)
    ensures
        r.is_ok() ==> counter_value(r.unwrap()) == 0,
{
    IntCounter::new(name, help).map(|counter| RequestCounter { counter }).map_err(|e| e.to_string())
}

/// Relies on `GenericCounter::inc`: one is added to the value, with the
/// wrap-around of `AtomicU64::fetch_add`.
#[verifier::external_body]
fn counter_inc(c: &mut RequestCounter)
    ensures
        counter_value(*final(c)) == if counter_value(*old(c)) == u64::MAX {
            0
        } else {
            (counter_value(*old(c)) + 1) as u64
        },
{
    c.counter.inc()
}

/// Relies on `GenericCounter::get`: it reads the value.
#[verifier::external_body]
fn counter_get(c: &RequestCounter) -> (r: u64)
    ensures
        r == counter_value(*c),
{
    c.counter.get()
}

/// Relies on `prometheus::register`: the counter joins the default registry,
/// which only reads it.
#[verifier::external_body]
fn register_counter(c: &RequestCounter) -> (r: Result<(), String>) {
    prometheus::register(Box::new(c.counter.clone())).map_err(|e| e.to_string())
}

/// The gauge family that holds one sample per label tuple.
#[verifier::external_body]
pub struct JourneyGauges {
    family: IntGaugeVec,
}

/// Gauge samples by the hash of their label values: the label values each
/// was made with, and its value.
pub type Samples = Map<u64, (LabelKey, int)>;

/// The samples of a gauge family: each is kept under the hash of its label
/// values, with the label values it was made with and its value.
pub uninterp spec fn gauge_samples(g: JourneyGauges) -> Samples;

/// The label names a gauge family was made with, in order.
pub uninterp spec fn gauge_label_names(g: JourneyGauges) -> Seq<Seq<char>>;

/// The hash under which a gauge family files the sample of some label values.
pub uninterp spec fn label_hash(values: LabelKey) -> u64;

/// The samples after the sample of label values `k` is set to `v`: a sample
/// already filed under their hash takes the value, else a new one is made.
pub open spec fn set_sample(m: Samples, k: LabelKey, v: int) -> Samples {
    let h = label_hash(k);
    if m.contains_key(h) {
        m.insert(h, (m[h].0, v))
    } else {
        m.insert(h, (k, v))
    }
}

/// Relies on `Opts::new` and `GenericGaugeVec::new`: on success the family
/// has the given label names and no sample.
#[verifier::external_body]
fn new_gauges(name: &str, help: &str, names: &Vec<&str>) -> (r: Result<JourneyGauges, String>)
    ensures
        r.is_ok() ==> gauge_samples(r.unwrap()) == Samples::empty(),
        r.is_ok() ==> gauge_label_names(r.unwrap()) == names@.map_values(|n: &str| n@),
{
    let family = IntGaugeVec::new(prometheus::Opts::new(name, help), names.as_slice());
    family.map(|family| JourneyGauges { family }).map_err(|e| e.to_string())
}

/// Relies on `prometheus::register`: the family joins the default registry,
/// which only reads it.
#[verifier::external_body]
fn register_gauges(g: &JourneyGauges) -> (r: Result<(), String>) {
    prometheus::register(Box::new(g.family.clone())).map_err(|e| e.to_string())
}

/// Relies on `MetricVec::reset`: every sample is removed.
#[verifier::external_body]
fn reset_gauges(g: &mut JourneyGauges)
    ensures
        gauge_samples(*final(g)) == Samples::empty(),
        gauge_label_names(*final(g)) == gauge_label_names(*old(g)),
{
    g.family.reset()
}

/// Relies on `MetricVec::with_label_values` and `GenericGauge::set`: the
/// sample filed under the hash of the values is found or made, and takes the
/// value. With as many values as label names it does not panic.
#[verifier::external_body]
fn set_gauge(g: &mut JourneyGauges, values: &Vec<String>, v: i64)
    requires
        values@.len() == gauge_label_names(*old(g)).len(),
    ensures
        gauge_samples(*old(g)).contains_key(label_hash(values@.map_values(|s: String| s@)))
            ==> gauge_samples(*final(g)) == gauge_samples(*old(g)).insert(
            label_hash(values@.map_values(|s: String| s@)),
            (gauge_samples(*old(g))[label_hash(values@.map_values(|s: String| s@))].0, v as int),
        ),
        !gauge_samples(*old(g)).contains_key(label_hash(values@.map_values(|s: String| s@)))
            ==> gauge_samples(*final(g)) == gauge_samples(*old(g)).insert(
            label_hash(values@.map_values(|s: String| s@)),
            (values@.map_values(|s: String| s@), v as int),
        ),
        gauge_label_names(*final(g)) == gauge_label_names(*old(g)),
{
    let vals: Vec<&str> = values.iter().map(|s| s.as_str()).collect();
    g.family.with_label_values(&vals).set(v)
}

/// The samples after setting, in order, the sample of each entry to its
/// count, starting from no sample.
pub open spec fn gauge_after(a: Seq<Entry>) -> Samples
    decreases a.len(),
{
    if a.len() == 0 {
        Samples::empty()
    } else {
        set_sample(gauge_after(a.drop_last()), a.last().0, (a.last().1 as i64) as int)
    }
}

/// The setup of a metric failed; the message says why.
#[derive(Clone, Debug)]
pub struct RegistrationError {
    pub message: String,
}

/// The metrics of the exporter.
pub struct Metrics {
    pub checkins: JourneyGauges,
    pub traewelling_requests: RequestCounter,
}

impl Metrics {
    /// The gauge family is labeled by the fields of a label tuple, in order.
    pub open spec fn wf(&self) -> bool {
        gauge_label_names(self.checkins) == spec_label_names()
    }

    /// The number of feed requests made so far.
    pub fn requests(&self) -> (r: u64)
        ensures
            r == counter_value(self.traewelling_requests),
    {
        counter_get(&self.traewelling_requests)
    }

    /// Counts one feed request.
    pub fn record_request(&mut self)
        ensures
            counter_value(final(self).traewelling_requests) == if counter_value(
                old(self).traewelling_requests,
            ) == u64::MAX {
                0
            } else {
                (counter_value(old(self).traewelling_requests) + 1) as u64
            },
            final(self).checkins == old(self).checkins,
    {
        counter_inc(&mut self.traewelling_requests);
    }
}

/// Makes the `journeys` gauge family, labeled by the fields of a label tuple
/// in order, and the `traewelling_requests` counter, and registers both with
/// the default registry. Registration fails where the default registry
/// already holds a collector of either name.
pub fn create_metrics() -> (r: Result<Metrics, RegistrationError>)
    ensures
        r.is_ok() ==> r.unwrap().wf(),
        r.is_ok() ==> gauge_samples(r.unwrap().checkins) == Samples::empty(),
        r.is_ok() ==> counter_value(r.unwrap().traewelling_requests) == 0,
{
    let names = label_names();
    let checkins = match new_gauges("journeys", "Current Journeys", &names) {
        Ok(g) => g,
        Err(message) => {
            return Err(RegistrationError { message });
        },
    };
    match register_gauges(&checkins) {
        Ok(()) => {},
        Err(message) => {
            return Err(RegistrationError { message });
        },
    }
    let traewelling_requests = match new_counter(
        "traewelling_requests",
        "HTTP Requests sent to Traewelling API",
    ) {
        Ok(c) => c,
        Err(message) => {
            return Err(RegistrationError { message });
        },
    };
    match register_counter(&traewelling_requests) {
        Ok(()) => {},
        Err(message) => {
            return Err(RegistrationError { message });
        },
    }
    Ok(Metrics { checkins, traewelling_requests })
}

/// Replaces the samples of the gauge family by one sample per entry of the
/// aggregate, valued at its count. No sample of an earlier call remains.
pub fn record_metrics(data: &Aggregate, metrics: &mut Metrics)
    requires
        old(metrics).wf(),
    ensures
        final(metrics).wf(),
        gauge_samples(final(metrics).checkins) == gauge_after(data@),
        counter_value(final(metrics).traewelling_requests) == counter_value(
            old(metrics).traewelling_requests,
        ),
{
    reset_gauges(&mut metrics.checkins);
    let mut i: usize = 0;
    while i < data.entries.len()
        invariant
            i <= data.entries@.len(),
            metrics.wf(),
            gauge_samples(metrics.checkins) == gauge_after(data@.take(i as int)),
            counter_value(metrics.traewelling_requests) == counter_value(
                old(metrics).traewelling_requests,
            ),
        decreases data.entries@.len() - i,
    {
        let values = data.entries[i].0.values();
        let ghost k = data.entries@[i as int].0@;
        assert(values@.map_values(|s: String| s@) =~= k);
        set_gauge(&mut metrics.checkins, &values, data.entries[i].1 as i64);
        assert(data@.take(i + 1).drop_last() =~= data@.take(i as int));
        assert(data@.take(i + 1).last() == data@[i as int]);
        i = i + 1;
    }
    assert(data@.take(data.entries@.len() as int) =~= data@);
}

/// After the samples are set from an aggregate, they are exactly its entries:
/// for each entry one sample with its label tuple and count, and no other.
/// This holds where the entries' label tuples have distinct hashes and their
/// counts fit a gauge.
pub proof fn lemma_gauges_match_aggregate(a: Seq<Entry>)
    requires
        forall|i: int, j: int| 0 <= i < j < a.len() ==> label_hash(a[i].0) != label_hash(a[j].0),
        forall|i: int| 0 <= i < a.len() ==> #[trigger] a[i].1 <= i64::MAX,
    ensures
        forall|i: int|
            0 <= i < a.len() ==> gauge_after(a).contains_key(#[trigger] label_hash(a[i].0))
                && gauge_after(a)[label_hash(a[i].0)] == (a[i].0, a[i].1 as int),
        forall|h: u64|
            #[trigger] gauge_after(a).contains_key(h) ==> exists|i: int|
                0 <= i < a.len() && label_hash(a[i].0) == h,
    decreases a.len(),
{
    if a.len() > 0 {
        let p = a.drop_last();
        lemma_gauges_match_aggregate(p);
        let n = a.len() - 1;
        let h = label_hash(a[n].0);
        assert(!gauge_after(p).contains_key(h)) by {
            if gauge_after(p).contains_key(h) {
                let i = choose|i: int| 0 <= i < p.len() && label_hash(p[i].0) == h;
                assert(label_hash(a[i].0) != label_hash(a[n].0));
            }
        }
        assert forall|i: int| 0 <= i < a.len() implies gauge_after(a).contains_key(
            #[trigger] label_hash(a[i].0),
        ) && gauge_after(a)[label_hash(a[i].0)] == (a[i].0, a[i].1 as int) by {
            if i < n {
                assert(p[i] == a[i]);
                assert(label_hash(a[i].0) != h);
            }
        }
        assert forall|h2: u64| #[trigger] gauge_after(a).contains_key(h2) implies exists|i: int|
            0 <= i < a.len() && label_hash(a[i].0) == h2 by {
            if h2 != h {
                assert(gauge_after(p).contains_key(h2));
                let i = choose|i: int| 0 <= i < p.len() && label_hash(p[i].0) == h2;
                assert(a[i] == p[i]);
            } else {
                assert(label_hash(a[n].0) == h2);
            }
        }
    }
}

} // verus!
