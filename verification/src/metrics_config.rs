use vstd::prelude::*;
use vstd::string::StringExecFns;
use opentelemetry_otlp::WithExportConfig;

verus! {

/// Declares `opentelemetry_otlp::MetricExporter`, the push-style metrics sink
/// client; opaque here, carried from construction into the meter provider.
#[verifier::external_type_specification]
#[verifier::external_body]
pub struct ExMetricExporter(opentelemetry_otlp::MetricExporter);

/// Declares `opentelemetry_otlp::ExporterBuildError`, what the sink builder
/// returns where construction fails; opaque here, taken apart by a wrapper.
#[verifier::external_type_specification]
#[verifier::external_body]
pub struct ExExporterBuildError(opentelemetry_otlp::ExporterBuildError);

/// Declares `opentelemetry_sdk::metrics::SdkMeterProvider`, the provider that
/// owns the periodic export channel; opaque here, carried into installation.
#[verifier::external_type_specification]
#[verifier::external_body]
pub struct ExSdkMeterProvider(opentelemetry_sdk::metrics::SdkMeterProvider);

/// The default destination: a well-known local collector address.
pub open spec fn spec_default_endpoint() -> Seq<char> {
    "http://localhost:4318/v1/metrics"@
}

/// Holds the destination endpoint of the metrics sink and owns the
/// initialization of the export channel.
#[derive(Clone, Debug, PartialEq, Eq)]
pub struct MetricsConfig {
    pub otlp_endpoint: String,
}

/// The typed failure of `init_metrics`: the export channel could not be
/// constructed, and none of it was installed.
#[derive(Clone, Debug, PartialEq, Eq)]
pub struct TelemetryInitError {
    /// True where the exporter refused its configuration (for example a
    /// malformed endpoint); false for an internal failure of the transport.
    pub invalid_configuration: bool,
    /// The diagnostic text the transport gave; for logging only.
    pub message: String,
}

impl Default for MetricsConfig {
    /// A config aimed at the well-known local collector address.
    fn default() -> (r: Self)
        ensures
            r.otlp_endpoint@ == spec_default_endpoint(),
    {
        MetricsConfig { otlp_endpoint: String::from_str("http://localhost:4318/v1/metrics") }
    }
}

/// Relies on `opentelemetry_otlp::MetricExporter::builder` with its HTTP
/// transport (`with_http`, `with_endpoint`, `build`): constructs a push-style
/// exporter bound to the given endpoint, or returns the builder's error where
/// the configuration — a malformed endpoint among else — is refused. Whether
/// it succeeds also depends on the process environment, so nothing further is
/// assumed of the result.
#[verifier::external_body]
fn build_otlp_exporter(endpoint: &String) -> Result<
    opentelemetry_otlp::MetricExporter,
    opentelemetry_otlp::ExporterBuildError,
> {
    opentelemetry_otlp::MetricExporter::builder()
        .with_http()
        .with_endpoint(endpoint.as_str())
        .build()
}

/// Relies on `opentelemetry_sdk::metrics::SdkMeterProvider::builder` and
/// `MeterProviderBuilder::with_periodic_exporter`: wraps the exporter in a
/// periodic reader flushing on the SDK's bounded, non-zero default interval,
/// and builds the provider that owns it.
#[verifier::external_body]
fn build_meter_provider(
    exporter: opentelemetry_otlp::MetricExporter,
) -> opentelemetry_sdk::metrics::SdkMeterProvider {
    opentelemetry_sdk::metrics::SdkMeterProvider::builder().with_periodic_exporter(
        exporter,
    ).build()
}

/// Relies on `opentelemetry::global::set_meter_provider`: installs the
/// provider as the process-wide default metrics source, visible to every
/// later lookup of the current meter; a repeated call replaces the previous
/// provider, last write wins.
#[verifier::external_body]
fn install_meter_provider(provider: opentelemetry_sdk::metrics::SdkMeterProvider) {
    opentelemetry::global::set_meter_provider(provider);
}

/// Relies on `opentelemetry::global::meter`: a meter of the given name backed
/// by the process-wide provider installed at the time of the call, or by a
/// no-op provider where none was installed — a lookup, never a failure.
#[verifier::external_body]
pub(crate) fn global_meter(name: &'static str) -> opentelemetry::metrics::Meter {
    opentelemetry::global::meter(name)
}

/// Relies on `opentelemetry_otlp::ExporterBuildError` having exactly two
/// variants: tells them apart and moves the diagnostic text out, true for
/// the invalid-configuration case.
#[verifier::external_body]
fn exporter_error_parts(e: &opentelemetry_otlp::ExporterBuildError) -> (bool, String) {
    match e {
        opentelemetry_otlp::ExporterBuildError::InvalidConfiguration(m) => (true, m.clone()),
        opentelemetry_otlp::ExporterBuildError::InternalFailure(m) => (false, m.clone()),
    }
}

impl MetricsConfig {
    /// A config with the default endpoint.
    pub fn new() -> (r: Self)
        ensures
            r.otlp_endpoint@ == spec_default_endpoint(),
    {
        MetricsConfig::default()
    }

    /// The same config aimed at `endpoint` instead: a pure builder step.
    pub fn with_otlp_endpoint(self, endpoint: &str) -> (r: Self)
        ensures
            r.otlp_endpoint@ == endpoint@,
    {
        let mut updated = self;
        updated.otlp_endpoint = String::from_str(endpoint);
        updated
    }

    /// Constructs the metrics-sink client bound to `otlp_endpoint`, wraps it
    /// in a periodic exporter, installs the result as the process-wide
    /// metrics source and obtains the named measurement scope. On a
    /// construction failure the typed error is returned and nothing is
    /// installed: the pipeline goes up whole or not at all. Whether
    /// construction succeeds is the transport's decision, made from the
    /// endpoint and the process environment.
    pub fn init_metrics(&self) -> Result<(), TelemetryInitError> {
        match build_otlp_exporter(&self.otlp_endpoint) {
            Result::Ok(exporter) => {
                let provider = build_meter_provider(exporter);
                install_meter_provider(provider);
                let _meter = global_meter("request");
                Result::Ok(())
            },
            Result::Err(e) => {
                let parts = exporter_error_parts(&e);
                Result::Err(TelemetryInitError { invalid_configuration: parts.0, message: parts.1 })
            },
        }
    }
}

} // verus!
