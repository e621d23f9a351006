use traewelling_exporter::aggregate::Aggregate;
use traewelling_exporter::cache::SnapshotCache;
use traewelling_exporter::client::{TraewellingClient, DEFAULT_TRAEWELLING_BASE_URL};
use traewelling_exporter::feed::{
    is_success, ActiveStatusesResponse, Error, Status, Timestamp, Train, TrainStopover,
    TrwlErrorResponse,
};
use traewelling_exporter::labels::{int_label, label_names, LabelTuple};
use traewelling_exporter::metrics::{create_metrics, record_metrics};
use traewelling_exporter::scrape::{Exporter, ScrapeStart};

fn stop(name: &str) -> TrainStopover {
    TrainStopover {
        id: 1,
        name: name.to_string(),
        eva_identifier: 8002549,
        arrival: None,
        arrival_planned: None,
        arrival_real: None,
        arrival_platform_planned: None,
        arrival_platform_real: None,
        departure: None,
        departure_planned: None,
        departure_real: None,
        departure_platform_planned: None,
        platform: None,
        is_arrival_delayed: false,
        is_departure_delayed: false,
        cancelled: false,
    }
}

fn status(user: i32, username: &str, line: &str, number: &str) -> Status {
    Status {
        id: user * 10,
        user,
        username: username.to_string(),
        business: 0,
        created_at: Timestamp { unix_seconds: 1_700_000_000, nanos: 0, offset_seconds: 3600 },
        train: Train {
            trip: 1,
            hafas_id: "1|2|3".to_string(),
            category: "regional".to_string(),
            number: number.to_string(),
            line_name: line.to_string(),
            distance: 120000,
            points: 5,
            duration: 95,
            speed: 84.3f64.to_string(),
            origin: stop("Hamburg Hbf"),
            destination: stop("Kiel Hbf"),
        },
        event: None,
    }
}

fn count_of(a: &Aggregate, t: &LabelTuple) -> usize {
    a.entries
        .iter()
        .filter(|(k, _)| k.same_labels(t))
        .map(|(_, c)| *c)
        .sum()
}

fn exposition() -> String {
    let families = prometheus::gather();
    prometheus::TextEncoder::new().encode_to_string(&families).unwrap()
}

fn journey_lines(text: &str) -> Vec<String> {
    text.lines().filter(|l| l.starts_with("journeys{")).map(|l| l.to_string()).collect()
}

fn ok(data: Vec<Status>) -> Result<ActiveStatusesResponse, Error> {
    Ok(ActiveStatusesResponse { data })
}

#[test]
fn int_labels_are_shortest_decimal() {
    assert_eq!(int_label(0), "0");
    assert_eq!(int_label(120000), "120000");
    assert_eq!(int_label(-42), "-42");
    assert_eq!(int_label(i32::MIN), "-2147483648");
}

#[test]
fn label_tuple_of_single_checkin() {
    let t = LabelTuple::of_status(&status(7, "alice", "RE5", "4512"));
    assert_eq!(
        t.values(),
        vec![
            "regional", "120000", "RE5", "4512", "95", "84.3", "7", "alice", "Hamburg Hbf",
            "Kiel Hbf"
        ]
    );
    assert_eq!(label_names().len(), t.values().len());
}

#[test]
fn success_statuses() {
    assert!(is_success(200));
    assert!(is_success(299));
    assert!(!is_success(199));
    assert!(!is_success(300));
    assert!(!is_success(401));
}

#[test]
fn aggregate_of_empty_snapshot_is_empty() {
    let a = Aggregate::of_statuses(&vec![]);
    assert!(a.entries.is_empty());
}

#[test]
fn aggregate_partition_law() {
    let s = vec![
        status(7, "alice", "RE5", "4512"),
        status(8, "bob", "RE5", "4512"),
        status(7, "alice", "RE5", "4512"),
        status(9, "carol", "RE7", "21012"),
        status(7, "alice", "RE5", "4512"),
    ];
    let a = Aggregate::of_statuses(&s);
    assert_eq!(a.entries.len(), 3);
    assert!(a.entries.len() <= s.len());
    assert_eq!(a.entries.iter().map(|(_, c)| *c).sum::<usize>(), s.len());
    let alice = LabelTuple::of_status(&s[0]);
    assert_eq!(count_of(&a, &alice), 3);
    for i in 0..s.len() {
        for j in 0..s.len() {
            let ti = LabelTuple::of_status(&s[i]);
            let tj = LabelTuple::of_status(&s[j]);
            let ci = a.entries.iter().position(|(k, _)| k.same_labels(&ti)).unwrap();
            let cj = a.entries.iter().position(|(k, _)| k.same_labels(&tj)).unwrap();
            assert_eq!(ti.same_labels(&tj), ci == cj);
        }
    }
}

#[test]
fn aggregate_duplicate_collapse() {
    let s = vec![status(7, "alice", "RE5", "4512"), status(7, "alice", "RE5", "4512")];
    let a = Aggregate::of_statuses(&s);
    assert_eq!(a.entries.len(), 1);
    assert_eq!(a.entries[0].1, 2);
}

#[test]
fn aggregate_ignores_order() {
    let s1 = vec![
        status(7, "alice", "RE5", "4512"),
        status(8, "bob", "RE5", "4512"),
        status(7, "alice", "RE5", "4512"),
    ];
    let s2 = vec![
        status(7, "alice", "RE5", "4512"),
        status(7, "alice", "RE5", "4512"),
        status(8, "bob", "RE5", "4512"),
    ];
    let a1 = Aggregate::of_statuses(&s1);
    let a2 = Aggregate::of_statuses(&s2);
    assert_eq!(a1.entries.len(), a2.entries.len());
    for (t, c) in &a1.entries {
        assert_eq!(count_of(&a2, t), *c);
    }
}

#[test]
fn cache_serves_within_ttl_only() {
    let mut c = SnapshotCache::new(30);
    assert!(c.get(100).is_none());
    let a = Aggregate::of_statuses(&vec![status(7, "alice", "RE5", "4512")]);
    c.store(a, 100);
    assert_eq!(c.get(100).unwrap().entries.len(), 1);
    assert_eq!(c.get(129).unwrap().entries[0].1, 1);
    assert!(c.get(130).is_none());
}

#[test]
fn gauges_hold_latest_aggregate_only() {
    let mut m = create_metrics().unwrap();
    let three = Aggregate::of_statuses(&vec![
        status(7, "alice", "RE5", "4512"),
        status(7, "alice", "RE5", "4512"),
        status(7, "alice", "RE5", "4512"),
    ]);
    record_metrics(&three, &mut m);
    let lines = journey_lines(&exposition());
    assert_eq!(lines.len(), 1);
    assert!(lines[0].ends_with("} 3"));
    record_metrics(&Aggregate::of_statuses(&vec![]), &mut m);
    assert!(journey_lines(&exposition()).is_empty());
}

#[test]
fn empty_feed_scrape() {
    let mut ex = Exporter::new(create_metrics().unwrap(), 30);
    assert!(!(ex.begin_scrape(0, 0) == ScrapeStart::Served));
    assert!(ex.complete_scrape(0, ok(vec![])).is_ok());
    assert_eq!(ex.metrics.requests(), 1);
    let text = exposition();
    assert!(journey_lines(&text).is_empty());
    assert!(text.contains("traewelling_requests 1"));
}

#[test]
fn single_checkin_scrape() {
    let mut ex = Exporter::new(create_metrics().unwrap(), 30);
    assert!(ex.complete_scrape(0, ok(vec![status(7, "alice", "RE5", "4512")])).is_ok());
    let lines = journey_lines(&exposition());
    assert_eq!(lines.len(), 1);
    let line = &lines[0];
    for pair in [
        "category=\"regional\"",
        "distance=\"120000\"",
        "line_name=\"RE5\"",
        "number=\"4512\"",
        "duration=\"95\"",
        "speed=\"84.3\"",
        "user_id=\"7\"",
        "user_name=\"alice\"",
        "origin=\"Hamburg Hbf\"",
        "destination=\"Kiel Hbf\"",
    ] {
        assert!(line.contains(pair), "{} lacks {}", line, pair);
    }
    assert!(line.ends_with("} 1"));
}

#[test]
fn duplicate_collapse_scrape() {
    let mut ex = Exporter::new(create_metrics().unwrap(), 30);
    let data = vec![status(7, "alice", "RE5", "4512"), status(7, "alice", "RE5", "4512")];
    assert!(ex.complete_scrape(0, ok(data)).is_ok());
    let lines = journey_lines(&exposition());
    assert_eq!(lines.len(), 1);
    assert!(lines[0].ends_with("} 2"));
}

#[test]
fn disappearance_after_ttl() {
    let mut ex = Exporter::new(create_metrics().unwrap(), 30);
    let data = vec![
        status(7, "alice", "RE5", "4512"),
        status(7, "alice", "RE5", "4512"),
        status(7, "alice", "RE5", "4512"),
    ];
    assert!(ex.complete_scrape(0, ok(data)).is_ok());
    assert!(journey_lines(&exposition())[0].ends_with("} 3"));
    assert!((ex.begin_scrape(29, 29) == ScrapeStart::Served));
    assert!(!(ex.begin_scrape(30, 30) == ScrapeStart::Served));
    assert!(ex.complete_scrape(30, ok(vec![])).is_ok());
    assert!(journey_lines(&exposition()).is_empty());
    assert_eq!(ex.metrics.requests(), 2);
}

#[test]
fn upstream_unauthorized_scrape() {
    let mut ex = Exporter::new(create_metrics().unwrap(), 30);
    assert!(ex.complete_scrape(0, ok(vec![status(7, "alice", "RE5", "4512")])).is_ok());
    let before = journey_lines(&exposition());
    let failed = Err(Error::InvalidTrwlResponse(TrwlErrorResponse {
        status_code: 401,
        message: "Unauthenticated.".to_string(),
    }));
    assert!(!(ex.begin_scrape(30, 30) == ScrapeStart::Served));
    let r = ex.complete_scrape(30, failed);
    assert!(matches!(r, Err(Error::InvalidTrwlResponse(TrwlErrorResponse { status_code: 401, .. }))));
    assert_eq!(ex.metrics.requests(), 2);
    assert_eq!(journey_lines(&exposition()), before);
    assert_eq!(ex.begin_scrape(29, 31), ScrapeStart::SharedFailure);
    assert_eq!(ex.begin_scrape(31, 31), ScrapeStart::Fetch);
    assert_eq!(ex.metrics.requests(), 2);
}

#[test]
fn waiters_share_failed_fill() {
    let mut ex = Exporter::new(create_metrics().unwrap(), 30);
    let mut failures = 0;
    let mut requests_made = 0;
    // Ten scrapes arrive at 0; the first fills and fails at 7, the others
    // take their turn after it.
    for _ in 0..10 {
        let now = if requests_made == 0 { 0 } else { 7 };
        match ex.begin_scrape(0, now) {
            ScrapeStart::Fetch => {
                requests_made += 1;
                let failed = Err(Error::Transport("connection refused".to_string()));
                assert!(ex.complete_scrape(7, failed).is_err());
                failures += 1;
            }
            ScrapeStart::SharedFailure => failures += 1,
            ScrapeStart::Served => panic!("nothing is cached"),
        }
    }
    assert_eq!(requests_made, 1);
    assert_eq!(failures, 10);
    assert_eq!(ex.metrics.requests(), 1);
    assert_eq!(ex.begin_scrape(8, 8), ScrapeStart::Fetch);
}

#[test]
fn client_default_has_public_root() {
    let c = TraewellingClient::default_client().unwrap();
    assert_eq!(c.base_url, DEFAULT_TRAEWELLING_BASE_URL);
    assert!(c.token.is_none());
}

#[test]
fn decode_error_leaves_gauges() {
    let mut ex = Exporter::new(create_metrics().unwrap(), 30);
    assert!(ex.complete_scrape(0, ok(vec![status(8, "bob", "RE7", "1")])).is_ok());
    let before = journey_lines(&exposition());
    assert!(ex.complete_scrape(40, Err(Error::Decode("missing field `data`".to_string()))).is_err());
    assert_eq!(journey_lines(&exposition()), before);
    assert_eq!(ex.metrics.requests(), 2);
}

#[test]
fn single_flight_on_cold_cache() {
    let mut ex = Exporter::new(create_metrics().unwrap(), 30);
    let mut bodies = Vec::new();
    for i in 0..100 {
        if !(ex.begin_scrape(5, 5) == ScrapeStart::Served) {
            assert_eq!(i, 0);
            assert!(ex.complete_scrape(5, ok(vec![status(7, "alice", "RE5", "4512")])).is_ok());
        }
        bodies.push(journey_lines(&exposition()));
    }
    assert_eq!(ex.metrics.requests(), 1);
    assert!(bodies.iter().all(|b| *b == bodies[0]));
    assert_eq!(bodies[0].len(), 1);
}

#[test]
fn fetch_counts_every_answer() {
    let mut ex = Exporter::new(create_metrics().unwrap(), 2);
    assert_eq!(ex.metrics.requests(), 0);
    let a = ex.fetch_metrics(0, ok(vec![status(7, "alice", "RE5", "4512")])).unwrap();
    assert_eq!(a.entries.len(), 1);
    assert_eq!(ex.metrics.requests(), 1);
    assert!(ex.fetch_metrics(1, Err(Error::Transport("timed out".to_string()))).is_err());
    assert_eq!(ex.metrics.requests(), 2);
    assert_eq!(ex.cache.get(1).unwrap().entries.len(), 1);
    assert!(ex.cache.get(2).is_none());
}

#[test]
fn client_defaults_and_url() {
    let c = TraewellingClient::builder().build().unwrap();
    assert_eq!(c.base_url, DEFAULT_TRAEWELLING_BASE_URL);
    assert!(c.token.is_none());
    assert_eq!(c.statuses().active_statuses_url(), "https://traewelling.de/api/v1/statuses");
    let c = TraewellingClient::builder()
        .with_base_url("http://localhost:8000/api/v1".to_string())
        .with_token(Some("abc123".to_string()))
        .build()
        .unwrap();
    assert_eq!(c.statuses().active_statuses_url(), "http://localhost:8000/api/v1/statuses");
    assert_eq!(c.token.as_deref(), Some("abc123"));
}
