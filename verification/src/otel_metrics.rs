use vstd::prelude::*;
use vstd::string::StringExecFns;
use crate::duration::ElapsedTime;
use crate::duration::elapsed_since;
use crate::metrics_config::global_meter;
use crate::tags::RequestOutcome;
use crate::tags::RequestSummary;
use crate::tags::Tag;
use crate::tags::TagValue;
use crate::tags::derive_tags;
use crate::tags::spec_tags;
use crate::tags::tag_models;

verus! {

/// Declares `opentelemetry::metrics::Meter`, the named measurement scope a
/// provider creates instruments from; opaque here.
#[verifier::external_type_specification]
#[verifier::external_body]
pub struct ExMeter(opentelemetry::metrics::Meter);

/// Declares `opentelemetry::metrics::Gauge`, the point-in-time instrument
/// observations are recorded on; opaque here.
#[verifier::external_type_specification]
#[verifier::external_body]
#[verifier::reject_recursive_types(T)]
pub struct ExGauge<T>(opentelemetry::metrics::Gauge<T>);

/// Relies on `opentelemetry::metrics::Meter::clone`: a second handle on the
/// same scope; nothing is assumed of the copy.
pub assume_specification[ <opentelemetry::metrics::Meter as core::clone::Clone>::clone ](
    m: &opentelemetry::metrics::Meter,
) -> opentelemetry::metrics::Meter;

/// Relies on `opentelemetry::metrics::Gauge::clone`: a second handle on the
/// same instrument; nothing is assumed of the copy.
pub assume_specification<T>[ <opentelemetry::metrics::Gauge<T> as core::clone::Clone>::clone ](
    g: &opentelemetry::metrics::Gauge<T>,
) -> opentelemetry::metrics::Gauge<T>
    where T: core::clone::Clone,
;

/// The name of the one measurement this provider records.
pub open spec fn spec_measurement_name() -> Seq<char> {
    "RequestDurationMs"@
}

/// One write-once duration observation: the measurement name, the value in
/// whole milliseconds, and the tag set attached to it.
#[derive(Clone, Debug, PartialEq, Eq)]
pub struct DurationObservation {
    pub name: String,
    pub value_ms: u64,
    pub tags: Vec<Tag>,
}

/// Builds the single observation for one finished exchange: the elapsed span
/// rounded down to whole milliseconds, under the request-duration
/// measurement, with the full derived tag set. Built fresh on every call;
/// nothing is shared or mutated.
pub fn build_observation(
    duration: ElapsedTime,
    request: &Option<RequestSummary>,
    outcome: &RequestOutcome,
    collection: String,
) -> (r: DurationObservation)
    ensures
        r.name@ == spec_measurement_name(),
        r.value_ms == duration.spec_millis_u64(),
        duration.spec_total_millis() <= u64::MAX ==> r.value_ms == duration.spec_total_millis(),
        tag_models(r.tags@) == spec_tags(*request, *outcome, collection@),
{
    DurationObservation {
        name: String::from_str("RequestDurationMs"),
        value_ms: duration.as_millis_u64(),
        tags: derive_tags(request, outcome, collection),
    }
}

/// Relies on `opentelemetry::metrics::Meter::u64_gauge` and its instrument
/// builder (`with_unit`, `with_description`, `build`): a gauge instrument of
/// the given name, unit and description on this meter.
#[verifier::external_body]
fn build_duration_gauge(
    meter: &opentelemetry::metrics::Meter,
    name: &'static str,
    unit: &'static str,
    description: &'static str,
) -> opentelemetry::metrics::Gauge<u64> {
    meter.u64_gauge(name).with_unit(unit).with_description(description).build()
}

/// Relies on `opentelemetry::metrics::Gauge::record`: hands one observation
/// with the given value and tags to the process-wide sink, a local
/// non-blocking append to its buffer; a recording failure is absorbed by the
/// sink, never surfaced.
#[verifier::external_body]
fn record_duration(gauge: &opentelemetry::metrics::Gauge<u64>, value: u64, tags: &Vec<Tag>) {
    let attributes: Vec<opentelemetry::KeyValue> = tags
        .iter()
        .map(|t| match &t.value {
            TagValue::Text(s) => opentelemetry::KeyValue::new(t.key.clone(), s.clone()),
            TagValue::Int(i) => opentelemetry::KeyValue::new(t.key.clone(), *i),
        })
        .collect();
    gauge.record(value, &attributes);
}

/// Telemetry provider backed by the process-wide metrics source: holds the
/// meter and the request-duration measurement handle, both read-only after
/// construction, so concurrent emitters share nothing mutable.
#[derive(Clone)]
pub struct OpenTelemetryMetricsProvider {
    meter: opentelemetry::metrics::Meter,
    request_duration_ms: opentelemetry::metrics::Gauge<u64>,
}

impl OpenTelemetryMetricsProvider {
    /// A provider on the currently installed process-wide metrics source,
    /// with the request-duration measurement handle built once up front.
    /// Where no source was installed, the handles are backed by a no-op
    /// provider and recording degrades silently.
    pub fn new() -> Self {
        let meter = global_meter("request");
        let request_duration_ms = build_duration_gauge(
            &meter,
            "RequestDurationMs",
            "ms",
            "The duration of requests in milliseconds",
        );
        OpenTelemetryMetricsProvider { meter, request_duration_ms }
    }

    /// Records one duration observation for a finished exchange; the value
    /// and tag set are the ones `build_observation` fixes.
    fn send_request_metric(
        &self,
        duration: ElapsedTime,
        request: &Option<RequestSummary>,
        outcome: &RequestOutcome,
        collection: String,
    ) {
        let observation = build_observation(duration, request, outcome, collection);
        record_duration(&self.request_duration_ms, observation.value_ms, &observation.tags);
    }

    /// Emits telemetry for one finished exchange: computes the elapsed span
    /// from the connection's monotonic start anchor, derives the tag set and
    /// records exactly one duration observation. Best-effort by design: a
    /// missing request or database degrades to a default tag, the write is
    /// non-blocking, and no error ever reaches the request path.
    pub fn emit_request_event(
        &self,
        connection_start: &std::time::Instant,
        request: &Option<RequestSummary>,
        outcome: &RequestOutcome,
        collection: String,
    ) {
        let duration = elapsed_since(connection_start);
        self.send_request_metric(duration, request, outcome, collection);
    }
}

} // verus!
