//! Data carried between the aggregator, the reporting cycle and the
//! embedding application: request outcomes, identity fields and the
//! per-cycle report.
//!
//! Rates and averages are held in fixed point: a field whose name ends in
//! `_milli` holds thousandths, so `200` stands for a ratio of `0.200`.

use vstd::prelude::*;

verus! {

/// Configuration consumed once at startup.
#[derive(Clone, Debug)]
pub struct RequestStatsConfig {
    /// Push destinations for the serialized report.
    pub target: Vec<String>,
    /// Length of one reporting cycle, in milliseconds.
    pub reporting_cycle_ms: u64,
    /// Port used when probing the configured hosts.
    pub host_test_port: u16,
}

/// Terminal classification of one completed request.
#[derive(Clone, Copy, Debug, PartialEq, Eq, Structural)]
pub enum RequestResult {
    /// Request and processing succeeded, without a cache hit.
    Successful,
    /// Request and processing succeeded, served from the cache.
    SuccessfulAndCache,
    /// The response could not be parsed.
    ParseError,
    /// The request timed out.
    TimeoutError,
    /// The connection could not be established.
    ConnectionError,
    /// The response carried an unexpected status code.
    StatusCodeError,
}

/// Amount of a resource in use against its total, in megabytes.
#[derive(Clone, Copy, Debug, PartialEq, Eq, Structural)]
pub struct Usage {
    pub used: u64,
    pub total: u64,
}

/// Point-in-time reading of host CPU, memory and disk utilization.
#[derive(Clone, Debug)]
pub struct SystemResources {
    /// CPU utilization, formatted to two decimals with a trailing `%`.
    pub cpu_usage: String,
    pub memory_usage: Usage,
    pub disk_usage: Usage,
}

/// Error counters of one cycle, split by kind.
#[derive(Clone, Copy, Debug, PartialEq, Eq, Structural)]
pub struct ExceptionTypes {
    pub connection_error: i64,
    pub timeout_error: i64,
    pub parse_error: i64,
    pub status_code_error: i64,
}

/// Wall-clock bounds of one cycle, milliseconds since the epoch.
#[derive(Clone, Copy, Debug, PartialEq, Eq, Structural)]
pub struct TimePeriod {
    pub start: i64,
    pub end: i64,
}

/// Identity fields supplied by the embedding application per report.
#[derive(Clone, Debug)]
pub struct StatsBase {
    pub server_name: String,
    pub scraper_name: String,
    pub project_code: String,
    pub scraper_type: String,
    /// Requests per second the scraper is configured for.
    pub request_frequency: i64,
}

impl StatsBase {
    /// Field-for-field copy whose equality to the source is visible in
    /// specifications, which a derived clone would not be.
    pub fn duplicate(&self) -> (r: Self)
        ensures
            r == *self,
    {
        StatsBase {
            server_name: self.server_name.clone(),
            scraper_name: self.scraper_name.clone(),
            project_code: self.project_code.clone(),
            scraper_type: self.scraper_type.clone(),
            request_frequency: self.request_frequency,
        }
    }
}

/// One cycle's snapshot, immutable once assembled.
///
/// `error_rate_milli` and `cache_hit_rate_milli` are ratios in thousandths
/// (`0..=1000`); `average_latency_milli` is thousandths of the latency unit
/// supplied to `record`, so `50_000` stands for an average of `50`.
#[derive(Clone, Debug)]
pub struct Stats {
    pub base: StatsBase,
    pub time_period: TimePeriod,
    pub error_rate_milli: u32,
    pub exception_types: ExceptionTypes,
    /// Seconds since the aggregator was created.
    pub runtime_duration: i64,
    pub total_requests: i64,
    pub cache_hit_rate_milli: u32,
    pub cache_hit: i64,
    /// Status-code histogram; each code paired with its count, codes unique.
    pub http_status_codes: Vec<(u16, i64)>,
    pub average_latency_milli: i128,
    /// Probed connect latency per host, in microseconds.
    pub hosts_ping_delay: Vec<(String, u64)>,
    pub system_resources: SystemResources,
}

/// How much of each handled response is echoed to the log.
#[derive(Clone, Copy, Debug, PartialEq, Eq, Structural)]
pub enum OutRespInfo {
    /// No request log at all.
    Silent,
    /// Log the URL and the status code.
    Url,
    /// Log the URL, the status code and the headers.
    Head,
    /// Log the URL, the status code, the headers and the body.
    Body,
}

/// Character-by-character string comparison, so that the result is tied
/// to the views of both strings.
fn str_eq(a: &str, b: &str) -> (r: bool)
    ensures
        r == (a@ == b@),
{
    let a_len = a.unicode_len();
    let b_len = b.unicode_len();
    if a_len != b_len {
        return false;
    }
    let mut i: usize = 0;
    while i < a_len
        invariant
            a_len == a@.len(),
            b_len == b@.len(),
            a_len == b_len,
            i <= a_len,
            forall|j: int| 0 <= j < i ==> a@[j] == b@[j],
        decreases a_len - i,
    {
        if a.get_char(i) != b.get_char(i) {
            return false;
        }
        i = i + 1;
    }
    proof {
        assert(a@ =~= b@);
    }
    true
}

impl OutRespInfo {
    /// Variant named by `value`, accepting the capitalized and the
    /// lower-case spelling; `None` when the name is unknown.
    pub fn from_name(value: &str) -> (r: Option<OutRespInfo>)
        ensures
            r == Self::spec_from_name(value@),
    {
        if str_eq(value, "None") || str_eq(value, "none") {
            Some(OutRespInfo::Silent)
        } else if str_eq(value, "Url") || str_eq(value, "url") {
            Some(OutRespInfo::Url)
        } else if str_eq(value, "Head") || str_eq(value, "head") {
            Some(OutRespInfo::Head)
        } else if str_eq(value, "Body") || str_eq(value, "body") {
            Some(OutRespInfo::Body)
        } else {
            None
        }
    }

    /// Variant chosen by a bare boolean switch: `true` turns URL logging
    /// on, `false` turns request logging off.
    pub fn from_flag(value: bool) -> (r: OutRespInfo)
        ensures
            r == (if value {
                OutRespInfo::Url
            } else {
                OutRespInfo::Silent
            }),
    {
        if value {
            OutRespInfo::Url
        } else {
            OutRespInfo::Silent
        }
    }

    pub open spec fn spec_from_name(value: Seq<char>) -> Option<OutRespInfo> {
        if value == "None"@ || value == "none"@ {
            Some(OutRespInfo::Silent)
        } else if value == "Url"@ || value == "url"@ {
            Some(OutRespInfo::Url)
        } else if value == "Head"@ || value == "head"@ {
            Some(OutRespInfo::Head)
        } else if value == "Body"@ || value == "body"@ {
            Some(OutRespInfo::Body)
        } else {
            None
        }
    }
}

} // verus!
