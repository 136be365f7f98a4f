//! The aggregator: a counter store, the lock that serializes access to
//! it, and the snapshot-and-reset step of the reporting cycle.

use crate::entity::{ExceptionTypes, RequestResult, Stats, StatsBase, SystemResources, TimePeriod};
use crate::histogram::CodeHistogram;
use crate::resources::get_system_resources;
use std::time::SystemTime;
use vstd::arithmetic::div_mod::{lemma_div_nonincreasing, lemma_multiply_divide_lt};
use vstd::prelude::*;
use vstd::rwlock::{RwLock, RwLockPredicate};

verus! {

/// Mathematical content of the counter store.
#[verifier::ext_equal]
pub ghost struct StatsModel {
    pub total: int,
    pub successful: int,
    pub cache: int,
    pub parse: int,
    pub timeout: int,
    pub conn: int,
    pub status: int,
    /// Count per status code; the sentinel code `0` is never a key.
    pub hist: Map<u16, int>,
    pub latency: int,
}

impl StatsModel {
    /// Freshly created or freshly reset counters.
    pub open spec fn empty() -> StatsModel {
        StatsModel {
            total: 0,
            successful: 0,
            cache: 0,
            parse: 0,
            timeout: 0,
            conn: 0,
            status: 0,
            hist: Map::empty(),
            latency: 0,
        }
    }

    /// Effect of recording one outcome: the total grows by one, exactly
    /// one category grows by one, the latency is accumulated, and a
    /// non-sentinel status code is counted.
    pub open spec fn step(self, result: RequestResult, latency: int, code: u16) -> StatsModel {
        StatsModel {
            total: self.total + 1,
            successful: self.successful + if result is Successful || result is SuccessfulAndCache {
                1int
            } else {
                0int
            },
            cache: self.cache + if result is SuccessfulAndCache {
                1int
            } else {
                0int
            },
            parse: self.parse + if result is ParseError {
                1int
            } else {
                0int
            },
            timeout: self.timeout + if result is TimeoutError {
                1int
            } else {
                0int
            },
            conn: self.conn + if result is ConnectionError {
                1int
            } else {
                0int
            },
            status: self.status + if result is StatusCodeError {
                1int
            } else {
                0int
            },
            hist: if code != 0 {
                self.hist.insert(code, CodeHistogram::spec_count(self.hist, code) + 1)
            } else {
                self.hist
            },
            latency: self.latency + latency,
        }
    }

    /// Errors of all kinds together.
    pub open spec fn errors(self) -> int {
        self.parse + self.timeout + self.conn + self.status
    }
}

/// Ratio `num / den` in thousandths, rounded half up; zero when the
/// denominator is zero.
pub open spec fn rate_milli(num: int, den: int) -> int {
    if den <= 0 {
        0
    } else {
        (2000 * num + den) / (2 * den)
    }
}

/// Signed average `num / den` in thousandths, rounded half away from
/// zero; zero when the denominator is zero.
pub open spec fn avg_milli(num: int, den: int) -> int {
    if den <= 0 {
        0
    } else if num >= 0 {
        (2000 * num + den) / (2 * den)
    } else {
        -((2000 * (-num) + den) / (2 * den))
    }
}

/// Whole seconds between two millisecond timestamps, rounded toward
/// zero.
pub open spec fn runtime_secs(init: int, now: int) -> int {
    if now >= init {
        (now - init) / 1000
    } else {
        -((init - now) / 1000)
    }
}

/// Rounded thousandths of a ratio of counters, with the rounding done in
/// integers: the numerator is scaled by `2000` and the half is carried
/// by adding the denominator once before halving.
fn rate_milli_exec(num: i64, den: i64) -> (r: u32)
    requires
        0 <= num <= den,
    ensures
        r == rate_milli(num as int, den as int),
        r <= 1000,
{
    if den == 0 {
        0
    } else {
        let n: u128 = num as u128;
        let d: u128 = den as u128;
        let q: u128 = (2000 * n + d) / (2 * d);
        proof {
            lemma_multiply_divide_lt(2000 * (num as int) + den as int, 2 * (den as int), 1001);
        }
        q as u32
    }
}

fn avg_milli_exec(num: i64, den: i64) -> (r: i128)
    requires
        0 <= den,
    ensures
        r == avg_milli(num as int, den as int),
{
    if den == 0 {
        0
    } else if num >= 0 {
        let n: u128 = num as u128;
        let d: u128 = den as u128;
        let q: u128 = (2000 * n + d) / (2 * d);
        proof {
            lemma_div_nonincreasing(2000 * (num as int) + den as int, 2 * (den as int));
        }
        q as i128
    } else {
        let mag: i128 = -(num as i128);
        let n: u128 = mag as u128;
        let d: u128 = den as u128;
        let q: u128 = (2000 * n + d) / (2 * d);
        proof {
            lemma_div_nonincreasing(2000 * (mag as int) + den as int, 2 * (den as int));
        }
        -(q as i128)
    }
}

fn runtime_secs_exec(init: i64, now: i64) -> (r: i64)
    ensures
        r == runtime_secs(init as int, now as int),
{
    if now >= init {
        let d: u128 = (now as i128 - init as i128) as u128;
        let q: u128 = d / 1000;
        proof {
            lemma_multiply_divide_lt(d as int, 1000, 0x4000000000000000);
        }
        q as i64
    } else {
        let d: u128 = (init as i128 - now as i128) as u128;
        let q: u128 = d / 1000;
        proof {
            lemma_multiply_divide_lt(d as int, 1000, 0x4000000000000000);
        }
        -(q as i64)
    }
}

/// Relies on `SystemTime::now`: milliseconds since the Unix epoch, zero
/// when the clock reads before the epoch.
#[verifier::external_body]
fn get_now_millis() -> i64 {
    match SystemTime::now().duration_since(SystemTime::UNIX_EPOCH) {
        Ok(d) => d.as_millis() as i64,
        Err(_) => 0,
    }
}

/// Plain accumulator of request-outcome counts; no concurrency control
/// of its own.
pub struct InnerStatsVal {
    pub total_requests: i64,
    pub successful_requests: i64,
    /// Counted only when the request succeeded.
    pub cache_hit: i64,
    pub parse_errors: i64,
    pub timeout_errors: i64,
    pub connection_errors: i64,
    pub status_code_error: i64,
    pub http_status_codes: CodeHistogram,
    /// Accumulated response-minus-request time.
    pub total_latency: i64,
}

impl View for InnerStatsVal {
    type V = StatsModel;

    open spec fn view(&self) -> StatsModel {
        StatsModel {
            total: self.total_requests as int,
            successful: self.successful_requests as int,
            cache: self.cache_hit as int,
            parse: self.parse_errors as int,
            timeout: self.timeout_errors as int,
            conn: self.connection_errors as int,
            status: self.status_code_error as int,
            hist: self.http_status_codes@,
            latency: self.total_latency as int,
        }
    }
}

impl InnerStatsVal {
    /// The counters never double-count or lose an outcome: the total is
    /// exactly the sum of the five mutually exclusive categories, cache
    /// hits never exceed successes, and no status code is counted more
    /// often than requests were recorded.
    pub open spec fn wf(&self) -> bool {
        &&& 0 <= self.successful_requests
        &&& 0 <= self.cache_hit <= self.successful_requests
        &&& 0 <= self.parse_errors
        &&& 0 <= self.timeout_errors
        &&& 0 <= self.connection_errors
        &&& 0 <= self.status_code_error
        &&& self.total_requests == self.successful_requests + self.parse_errors
            + self.timeout_errors + self.connection_errors + self.status_code_error
        &&& self.http_status_codes.wf()
        &&& forall|c: u16|
            #[trigger] self.http_status_codes@.contains_key(c) ==> self.http_status_codes@[c]
                <= self.total_requests
    }
}

impl Default for InnerStatsVal {
    /// Fresh, all-zero counter store.
    fn default() -> (r: Self)
        ensures
            r@ =~= StatsModel::empty(),
            r.wf(),
    {
        InnerStatsVal {
            total_requests: 0,
            successful_requests: 0,
            cache_hit: 0,
            parse_errors: 0,
            timeout_errors: 0,
            connection_errors: 0,
            status_code_error: 0,
            http_status_codes: CodeHistogram::new(),
            total_latency: 0,
        }
    }
}

/// Counter store plus the aggregator's two clock fields.
pub struct InnerStats {
    /// Creation time, milliseconds since the epoch; never advanced.
    pub init_time: i64,
    /// Start of the current reporting cycle, milliseconds since the
    /// epoch; advanced at every snapshot.
    pub start_time: i64,
    pub base: InnerStatsVal,
}

impl InnerStats {
    pub open spec fn wf(&self) -> bool {
        self.base.wf()
    }

    /// Fresh store stamped with the current wall-clock time.
    pub fn new() -> (r: Self)
        ensures
            r.wf(),
            r.base@ =~= StatsModel::empty(),
            r.init_time == r.start_time,
    {
        let current_time = get_now_millis();
        InnerStats { init_time: current_time, start_time: current_time, base: Default::default() }
    }

    /// Records one completed request: the latency inputs may be in any
    /// unit as long as all callers agree on one; status code `0` is the
    /// sentinel for "unknown" and stays out of the histogram.
    pub fn update_stats(
        &mut self,
        request_time: i64,
        response_time: i64,
        status_code: u16,
        result: RequestResult,
    )
        requires
            old(self).wf(),
            old(self).base.total_requests < i64::MAX,
            i64::MIN <= response_time - request_time <= i64::MAX,
            i64::MIN <= old(self).base.total_latency + (response_time - request_time)
                <= i64::MAX,
        ensures
            final(self).wf(),
            final(self).base@ =~= old(self).base@.step(
                result,
                response_time - request_time,
                status_code,
            ),
            final(self).init_time == old(self).init_time,
            final(self).start_time == old(self).start_time,
    {
        let ghost m = old(self).base@;
        self.base.total_requests = self.base.total_requests + 1;
        let latency = response_time - request_time;
        self.base.total_latency = self.base.total_latency + latency;
        if status_code != 0 {
            self.base.http_status_codes.increment(status_code);
        }
        match result {
            RequestResult::Successful => {
                self.base.successful_requests = self.base.successful_requests + 1;
            },
            RequestResult::SuccessfulAndCache => {
                self.base.successful_requests = self.base.successful_requests + 1;
                self.base.cache_hit = self.base.cache_hit + 1;
            },
            RequestResult::ParseError => {
                self.base.parse_errors = self.base.parse_errors + 1;
            },
            RequestResult::TimeoutError => {
                self.base.timeout_errors = self.base.timeout_errors + 1;
            },
            RequestResult::ConnectionError => {
                self.base.connection_errors = self.base.connection_errors + 1;
            },
            RequestResult::StatusCodeError => {
                self.base.status_code_error = self.base.status_code_error + 1;
            },
        }
        proof {
            assert(self.base@ =~= m.step(result, response_time - request_time, status_code));
        }
    }

    /// Assembles the report fields from the current counters and opens
    /// the next cycle by advancing `start_time` to `now_ms`; the
    /// counters themselves are cleared by the separate `reset`. The ping
    /// map of the result is left empty for the caller to fill.
    pub fn to_stats_and_reset(
        &mut self,
        base: &StatsBase,
        now_ms: i64,
        resources: SystemResources,
    ) -> (r: Stats)
        requires
            old(self).wf(),
        ensures
            final(self).wf(),
            final(self).base == old(self).base,
            final(self).init_time == old(self).init_time,
            final(self).start_time == now_ms,
            r.base == *base,
            r.time_period == (TimePeriod { start: old(self).start_time, end: now_ms }),
            r.total_requests == old(self).base.total_requests,
            r.cache_hit == old(self).base.cache_hit,
            r.exception_types == (ExceptionTypes {
                connection_error: old(self).base.connection_errors,
                timeout_error: old(self).base.timeout_errors,
                parse_error: old(self).base.parse_errors,
                status_code_error: old(self).base.status_code_error,
            }),
            r.error_rate_milli == rate_milli(old(self).base@.errors(), old(self).base@.total),
            r.error_rate_milli <= 1000,
            r.cache_hit_rate_milli == rate_milli(old(self).base@.cache, old(self).base@.successful),
            r.cache_hit_rate_milli <= 1000,
            r.average_latency_milli == avg_milli(old(self).base@.latency, old(self).base@.total),
            r.runtime_duration == runtime_secs(old(self).init_time as int, now_ms as int),
            CodeHistogram::map_of(r.http_status_codes@) == old(self).base@.hist,
            CodeHistogram::entries_wf(r.http_status_codes@),
            r.hosts_ping_delay@ =~= Seq::<(String, u64)>::empty(),
            r.system_resources == resources,
    {
        let end_time = now_ms;
        let time_period = TimePeriod { start: self.start_time, end: end_time };
        self.start_time = end_time;
        let exception_types = ExceptionTypes {
            connection_error: self.base.connection_errors,
            timeout_error: self.base.timeout_errors,
            parse_error: self.base.parse_errors,
            status_code_error: self.base.status_code_error,
        };
        let error_count = self.base.parse_errors + self.base.timeout_errors
            + self.base.connection_errors + self.base.status_code_error;
        let error_rate_milli = rate_milli_exec(error_count, self.base.total_requests);
        let runtime_duration = runtime_secs_exec(self.init_time, end_time);
        let cache_hit_rate_milli = rate_milli_exec(
            self.base.cache_hit,
            self.base.successful_requests,
        );
        let average_latency_milli = avg_milli_exec(
            self.base.total_latency,
            self.base.total_requests,
        );
        Stats {
            base: base.duplicate(),
            time_period,
            error_rate_milli,
            exception_types,
            runtime_duration,
            total_requests: self.base.total_requests,
            cache_hit_rate_milli,
            cache_hit: self.base.cache_hit,
            http_status_codes: self.base.http_status_codes.to_entries(),
            average_latency_milli,
            hosts_ping_delay: Vec::new(),
            system_resources: resources,
        }
    }

    /// Clears every counter; the clock fields are untouched.
    pub fn reset(&mut self)
        ensures
            final(self).wf(),
            final(self).base@ =~= StatsModel::empty(),
            final(self).init_time == old(self).init_time,
            final(self).start_time == old(self).start_time,
    {
        self.base = Default::default();
    }
}

/// Invariant carried by the aggregator's lock: whatever store goes in,
/// a well-formed store comes out.
pub struct StatsLockInv {}

impl RwLockPredicate<InnerStats> for StatsLockInv {
    open spec fn inv(self, v: InnerStats) -> bool {
        v.wf()
    }
}

/// The aggregator: the counter store behind one mutual-exclusion lock.
/// Any number of producers `update_stats` while one periodic
/// `to_stats_and_reset` snapshots and clears; the lock serializes them
/// all, so no update is split or double-counted.
pub struct RequestStats {
    inner: RwLock<InnerStats, StatsLockInv>,
}

impl RequestStats {
    /// New aggregator; creation and cycle-start times are stamped with
    /// the current wall-clock time.
    pub fn new() -> Self {
        RequestStats { inner: RwLock::new(InnerStats::new(), Ghost(StatsLockInv {})) }
    }

    /// Records one completed request under the lock. A record whose
    /// latency or count no longer fits a 64-bit counter is dropped,
    /// which cannot happen before roughly 9 * 10^18 requests.
    pub fn update_stats(
        &self,
        request_time: i64,
        response_time: i64,
        status_code: u16,
        result: RequestResult,
    ) {
        let (mut data, handle) = self.inner.acquire_write();
        let diff: i128 = response_time as i128 - request_time as i128;
        let sum: i128 = data.base.total_latency as i128 + diff;
        let fits = i64::MIN as i128 <= diff && diff <= i64::MAX as i128 && i64::MIN as i128 <= sum
            && sum <= i64::MAX as i128;
        if data.base.total_requests < i64::MAX && fits {
            data.update_stats(request_time, response_time, status_code, result);
        }
        handle.release_write(data);
    }

    /// Builds the report for the closing cycle and clears the counters,
    /// both inside one critical section, so that every record completed
    /// before the snapshot is reflected in it and none is lost to the
    /// next cycle.
    ///
    /// `probe_results` carries, per probed host, the measured connect
    /// time in microseconds, or nothing when the host was unreachable
    /// within `timeout_micros`; an unreachable host is charged the
    /// timeout itself, so every probed host has an entry in the report.
    pub fn to_stats_and_reset(
        &self,
        base: &StatsBase,
        probe_results: Option<Vec<(String, Option<u64>)>>,
        timeout_micros: u64,
    ) -> (r: Stats)
        ensures
            r.base == *base,
            r.total_requests >= 0,
            r.cache_hit >= 0,
            r.exception_types.connection_error >= 0,
            r.exception_types.timeout_error >= 0,
            r.exception_types.parse_error >= 0,
            r.exception_types.status_code_error >= 0,
            r.cache_hit + r.exception_types.connection_error + r.exception_types.timeout_error
                + r.exception_types.parse_error + r.exception_types.status_code_error
                <= r.total_requests,
            r.error_rate_milli <= 1000,
            r.cache_hit_rate_milli <= 1000,
            r.total_requests == 0 ==> r.error_rate_milli == 0 && r.cache_hit_rate_milli == 0
                && r.average_latency_milli == 0,
            CodeHistogram::entries_wf(r.http_status_codes@),
            forall|i: int|
                0 <= i < r.http_status_codes@.len() ==> (#[trigger] r.http_status_codes@[i]).1
                    <= r.total_requests,
            match probe_results {
                Some(results) => {
                    &&& r.hosts_ping_delay@.len() == results@.len()
                    &&& forall|i: int|
                        0 <= i < results@.len() ==> (#[trigger] r.hosts_ping_delay@[i]).0
                            == results@[i].0 && r.hosts_ping_delay@[i].1 == (
                        match results@[i].1 {
                            Some(d) => d,
                            None => timeout_micros,
                        })
                },
                None => r.hosts_ping_delay@.len() == 0,
            },
    {
        let mut host_ping: Vec<(String, u64)> = Vec::new();
        if let Some(results) = &probe_results {
            let n = results.len();
            let mut i: usize = 0;
            while i < n
                invariant
                    n == results@.len(),
                    i <= n,
                    host_ping@.len() == i,
                    forall|j: int|
                        0 <= j < i ==> (#[trigger] host_ping@[j]).0 == results@[j].0
                            && host_ping@[j].1 == (match results@[j].1 {
                            Some(d) => d,
                            None => timeout_micros,
                        }),
                decreases n - i,
            {
                let connect_ts = match results[i].1 {
                    Some(d) => d,
                    None => timeout_micros,
                };
                host_ping.push((results[i].0.clone(), connect_ts));
                i = i + 1;
            }
        }
        let resources = get_system_resources();
        let now_ms = get_now_millis();
        let (mut data, handle) = self.inner.acquire_write();
        let mut d = data.to_stats_and_reset(base, now_ms, resources);
        data.reset();
        handle.release_write(data);
        proof {
            CodeHistogram::lemma_entries_bounded(d.http_status_codes@, d.total_requests as int);
        }
        d.hosts_ping_delay = host_ping;
        d
    }
}

/// Records one completed request on the given aggregator.
pub fn update_stats(
    stats: &RequestStats,
    request_time: i64,
    response_time: i64,
    status_code: u16,
    result: RequestResult,
) {
    stats.update_stats(request_time, response_time, status_code, result)
}

} // verus!
