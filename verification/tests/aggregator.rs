use spider_stats::entity::{RequestResult, StatsBase};
use spider_stats::stats::{update_stats, InnerStats, RequestStats};

fn base() -> StatsBase {
    StatsBase {
        server_name: "srv-1".to_string(),
        scraper_name: "scraper".to_string(),
        project_code: "proj".to_string(),
        scraper_type: "list".to_string(),
        request_frequency: 5,
    }
}

#[test]
fn scenario_ten_outcomes() {
    let stats = RequestStats::new();
    for _ in 0..7 {
        stats.update_stats(50, 100, 0, RequestResult::Successful);
    }
    stats.update_stats(50, 100, 0, RequestResult::SuccessfulAndCache);
    stats.update_stats(50, 100, 0, RequestResult::TimeoutError);
    stats.update_stats(50, 100, 500, RequestResult::StatusCodeError);

    let r = stats.to_stats_and_reset(&base(), None, 3_000_000);
    assert_eq!(r.total_requests, 10);
    assert_eq!(r.cache_hit, 1);
    assert_eq!(r.cache_hit_rate_milli, 125); // 1/8 = 0.125
    assert_eq!(r.error_rate_milli, 200); // 2/10 = 0.200
    assert_eq!(r.average_latency_milli, 50_000); // average latency 50
    assert_eq!(r.exception_types.timeout_error, 1);
    assert_eq!(r.exception_types.status_code_error, 1);
    assert_eq!(r.exception_types.parse_error, 0);
    assert_eq!(r.exception_types.connection_error, 0);
    assert_eq!(r.http_status_codes, vec![(500u16, 1i64)]);
    assert_eq!(r.base.server_name, "srv-1");
    assert!(r.hosts_ping_delay.is_empty());
}

#[test]
fn snapshot_reset_is_idempotent() {
    let stats = RequestStats::new();
    stats.update_stats(0, 10, 200, RequestResult::Successful);
    stats.update_stats(0, 10, 503, RequestResult::StatusCodeError);
    let first = stats.to_stats_and_reset(&base(), None, 3_000_000);
    assert_eq!(first.total_requests, 2);

    let second = stats.to_stats_and_reset(&base(), None, 3_000_000);
    assert_eq!(second.total_requests, 0);
    assert_eq!(second.cache_hit, 0);
    assert_eq!(second.error_rate_milli, 0);
    assert_eq!(second.cache_hit_rate_milli, 0);
    assert_eq!(second.average_latency_milli, 0);
    assert!(second.http_status_codes.is_empty());
    assert_eq!(second.exception_types.connection_error, 0);
    assert_eq!(second.exception_types.timeout_error, 0);
    assert_eq!(second.exception_types.parse_error, 0);
    assert_eq!(second.exception_types.status_code_error, 0);
}

#[test]
fn status_code_zero_is_excluded() {
    let stats = RequestStats::new();
    stats.update_stats(0, 1, 0, RequestResult::Successful);
    stats.update_stats(0, 1, 0, RequestResult::ParseError);
    stats.update_stats(0, 1, 404, RequestResult::StatusCodeError);
    stats.update_stats(0, 1, 404, RequestResult::StatusCodeError);
    stats.update_stats(0, 1, 404, RequestResult::StatusCodeError);
    stats.update_stats(0, 1, 500, RequestResult::StatusCodeError);
    stats.update_stats(0, 1, 500, RequestResult::StatusCodeError);
    let r = stats.to_stats_and_reset(&base(), None, 3_000_000);
    assert_eq!(r.total_requests, 7);
    assert!(r.http_status_codes.iter().all(|e| e.0 != 0));
    assert_eq!(r.http_status_codes, vec![(404u16, 3i64), (500u16, 2i64)]);
}

#[test]
fn all_cached_successes_hit_full_rate() {
    let stats = RequestStats::new();
    for _ in 0..3 {
        stats.update_stats(10, 30, 200, RequestResult::SuccessfulAndCache);
    }
    let r = stats.to_stats_and_reset(&base(), None, 3_000_000);
    assert_eq!(r.cache_hit, 3);
    assert_eq!(r.cache_hit_rate_milli, 1000);
    assert_eq!(r.error_rate_milli, 0);
}

#[test]
fn all_errors_full_error_rate() {
    let stats = RequestStats::new();
    stats.update_stats(0, 1, 0, RequestResult::ParseError);
    stats.update_stats(0, 1, 0, RequestResult::TimeoutError);
    stats.update_stats(0, 1, 0, RequestResult::ConnectionError);
    stats.update_stats(0, 1, 502, RequestResult::StatusCodeError);
    let r = stats.to_stats_and_reset(&base(), None, 3_000_000);
    assert_eq!(r.error_rate_milli, 1000);
    assert_eq!(r.cache_hit_rate_milli, 0);
    assert_eq!(r.exception_types.parse_error, 1);
    assert_eq!(r.exception_types.timeout_error, 1);
    assert_eq!(r.exception_types.connection_error, 1);
    assert_eq!(r.exception_types.status_code_error, 1);
}

#[test]
fn unreachable_host_is_charged_the_timeout() {
    let stats = RequestStats::new();
    let probes = vec![
        ("10.255.255.1:443".to_string(), None),
        ("192.0.2.7".to_string(), Some(612u64)),
    ];
    let r = stats.to_stats_and_reset(&base(), Some(probes), 3_000_000);
    assert_eq!(r.hosts_ping_delay.len(), 2);
    assert_eq!(
        r.hosts_ping_delay[0],
        ("10.255.255.1:443".to_string(), 3_000_000u64)
    );
    assert_eq!(r.hosts_ping_delay[1], ("192.0.2.7".to_string(), 612u64));
}

#[test]
fn free_update_stats_forwards_to_the_aggregator() {
    let stats = RequestStats::new();
    update_stats(&stats, 100, 250, 201, RequestResult::Successful);
    let r = stats.to_stats_and_reset(&base(), None, 3_000_000);
    assert_eq!(r.total_requests, 1);
    assert_eq!(r.average_latency_milli, 150_000);
    assert_eq!(r.http_status_codes, vec![(201u16, 1i64)]);
}

#[test]
fn inner_stats_counts_each_category_once() {
    let mut inner = InnerStats::new();
    inner.update_stats(0, 5, 200, RequestResult::Successful);
    inner.update_stats(0, 5, 200, RequestResult::SuccessfulAndCache);
    inner.update_stats(0, 5, 0, RequestResult::ParseError);
    inner.update_stats(0, 5, 0, RequestResult::TimeoutError);
    inner.update_stats(0, 5, 0, RequestResult::ConnectionError);
    inner.update_stats(0, 5, 500, RequestResult::StatusCodeError);
    assert_eq!(inner.base.total_requests, 6);
    assert_eq!(inner.base.successful_requests, 2);
    assert_eq!(inner.base.cache_hit, 1);
    assert_eq!(inner.base.parse_errors, 1);
    assert_eq!(inner.base.timeout_errors, 1);
    assert_eq!(inner.base.connection_errors, 1);
    assert_eq!(inner.base.status_code_error, 1);
    assert_eq!(inner.base.total_latency, 30);
    assert_eq!(inner.init_time, inner.start_time);

    inner.reset();
    assert_eq!(inner.base.total_requests, 0);
    assert_eq!(inner.base.successful_requests, 0);
    assert_eq!(inner.base.cache_hit, 0);
    assert_eq!(inner.base.total_latency, 0);
}

#[test]
fn negative_latency_is_accumulated_signed() {
    let stats = RequestStats::new();
    stats.update_stats(100, 40, 0, RequestResult::Successful);
    let r = stats.to_stats_and_reset(&base(), None, 3_000_000);
    assert_eq!(r.average_latency_milli, -60_000);
}

#[test]
fn two_producers_and_a_midway_snapshot_lose_no_record() {
    // Two producers issue 1000 successes each; a snapshot lands between
    // them. The two resulting reports must sum to exactly 2000.
    let stats = RequestStats::new();
    for _ in 0..1000 {
        stats.update_stats(0, 1, 200, RequestResult::Successful);
    }
    let midway = stats.to_stats_and_reset(&base(), None, 3_000_000);
    for _ in 0..1000 {
        stats.update_stats(0, 1, 200, RequestResult::Successful);
    }
    let rest = stats.to_stats_and_reset(&base(), None, 3_000_000);
    assert_eq!(midway.total_requests + rest.total_requests, 2000);
    assert_eq!(
        midway.exception_types.parse_error + rest.exception_types.parse_error,
        0
    );
}
