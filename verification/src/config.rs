//! Channel configuration: the instrumentation key, the ingestion endpoint,
//! the cycle interval, the per-request timeout, and the retry schedule.

use vstd::prelude::*;
use vstd::string::StringExecFns;

verus! {

/// Configuration of a telemetry channel. Durations are milliseconds.
#[derive(Debug, PartialEq)]
pub struct TelemetryConfig {
    /// The instrumentation key of the destination resource, echoed into
    /// every envelope.
    pub i_key: String,
    /// The ingestion endpoint URL.
    pub endpoint: String,
    /// The interval between automatic drain cycles.
    pub interval_millis: i64,
    /// The deadline for each HTTP request.
    pub request_timeout_millis: i64,
    /// The backoff delays consumed on retries; an empty list disables
    /// retries.
    pub retry_delays_millis: Vec<i64>,
}

/// Builds a [`TelemetryConfig`], starting from the defaults: the production
/// ingestion endpoint, a two second cycle interval, a thirty second request
/// timeout, and the default retry schedule.
#[derive(Debug, PartialEq)]
pub struct TelemetryConfigBuilder {
    pub i_key: String,
    pub endpoint: String,
    pub interval_millis: i64,
    pub request_timeout_millis: i64,
    pub retry_delays_millis: Vec<i64>,
}

impl TelemetryConfig {
    /// A builder holding the default configuration.
    pub fn builder() -> (b: TelemetryConfigBuilder)
        ensures
            b.i_key@ == Seq::<char>::empty(),
            b.endpoint@ == "https://dc.services.visualstudio.com/v2/track"@,
            b.interval_millis == 2_000,
            b.request_timeout_millis == 30_000,
            b.retry_delays_millis@ == crate::schedule::spec_default_delays(),
    {
        let schedule = crate::schedule::RetrySchedule::default_schedule();
        TelemetryConfigBuilder {
            i_key: String::new(),
            endpoint: String::from_str("https://dc.services.visualstudio.com/v2/track"),
            interval_millis: 2_000,
            request_timeout_millis: 30_000,
            retry_delays_millis: schedule.delays,
        }
    }
}

impl TelemetryConfigBuilder {
    /// Sets the instrumentation key.
    pub fn i_key(self, i_key: &str) -> (b: Self)
        ensures
            b.i_key@ == i_key@,
            b.endpoint == self.endpoint,
            b.interval_millis == self.interval_millis,
            b.request_timeout_millis == self.request_timeout_millis,
            b.retry_delays_millis == self.retry_delays_millis,
    {
        TelemetryConfigBuilder { i_key: String::from_str(i_key), ..self }
    }

    /// Sets the ingestion endpoint.
    pub fn endpoint(self, endpoint: &str) -> (b: Self)
        ensures
            b.endpoint@ == endpoint@,
            b.i_key == self.i_key,
            b.interval_millis == self.interval_millis,
            b.request_timeout_millis == self.request_timeout_millis,
            b.retry_delays_millis == self.retry_delays_millis,
    {
        TelemetryConfigBuilder { endpoint: String::from_str(endpoint), ..self }
    }

    /// Sets the interval between automatic drain cycles.
    pub fn interval(self, interval_millis: i64) -> (b: Self)
        requires
            interval_millis >= 0,
        ensures
            b.interval_millis == interval_millis,
            b.i_key == self.i_key,
            b.endpoint == self.endpoint,
            b.request_timeout_millis == self.request_timeout_millis,
            b.retry_delays_millis == self.retry_delays_millis,
    {
        TelemetryConfigBuilder { interval_millis, ..self }
    }

    /// Sets the per-request timeout.
    pub fn request_timeout(self, request_timeout_millis: i64) -> (b: Self)
        requires
            request_timeout_millis >= 0,
        ensures
            b.request_timeout_millis == request_timeout_millis,
            b.i_key == self.i_key,
            b.endpoint == self.endpoint,
            b.interval_millis == self.interval_millis,
            b.retry_delays_millis == self.retry_delays_millis,
    {
        TelemetryConfigBuilder { request_timeout_millis, ..self }
    }

    /// Sets the retry schedule; an empty list disables retries.
    pub fn retry_schedule(self, retry_delays_millis: Vec<i64>) -> (b: Self)
        requires
            forall|i: int|
                0 <= i < retry_delays_millis@.len() ==> #[trigger] retry_delays_millis@[i] >= 0,
        ensures
            b.retry_delays_millis == retry_delays_millis,
            b.i_key == self.i_key,
            b.endpoint == self.endpoint,
            b.interval_millis == self.interval_millis,
            b.request_timeout_millis == self.request_timeout_millis,
    {
        TelemetryConfigBuilder { retry_delays_millis, ..self }
    }

    /// The finished configuration.
    pub fn build(self) -> (config: TelemetryConfig)
        ensures
            config.i_key == self.i_key,
            config.endpoint == self.endpoint,
            config.interval_millis == self.interval_millis,
            config.request_timeout_millis == self.request_timeout_millis,
            config.retry_delays_millis == self.retry_delays_millis,
    {
        TelemetryConfig {
            i_key: self.i_key,
            endpoint: self.endpoint,
            interval_millis: self.interval_millis,
            request_timeout_millis: self.request_timeout_millis,
            retry_delays_millis: self.retry_delays_millis,
        }
    }
}

/// The configuration the deterministic channel tests run under: a fixed
/// instrumentation key, the given endpoint, and a 300 ms cycle interval.
pub fn create_client(endpoint: &str) -> (config: TelemetryConfig)
    ensures
        config.i_key@ == "instrumentation key"@,
        config.endpoint@ == endpoint@,
        config.interval_millis == 300,
        config.request_timeout_millis == 30_000,
        config.retry_delays_millis@ == crate::schedule::spec_default_delays(),
{
    TelemetryConfig::builder().i_key("instrumentation key").endpoint(endpoint).interval(300).build()
}

} // verus!
