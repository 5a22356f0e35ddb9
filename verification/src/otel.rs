//! The trusted boundary to the OpenTelemetry crates: declarations of
//! the SDK handle types and one thin wrapper per outside call the
//! library makes. Verus believes the contracts stated here without
//! reading the bodies; everything else in the crate is verified against
//! them.

use vstd::prelude::*;
use crate::attrs::Attr;
use crate::attrs::attrs_view;
use crate::attrs::distinct_keys;
use opentelemetry_otlp::WithExportConfig;
use opentelemetry_sdk::resource::ResourceDetector;

verus! {

#[verifier::external_type_specification]
#[verifier::external_body]
pub struct ExResource(opentelemetry_sdk::Resource);

#[verifier::external_type_specification]
#[verifier::external_body]
pub struct ExTracerProvider(opentelemetry_sdk::trace::TracerProvider);

#[verifier::external_type_specification]
#[verifier::external_body]
pub struct ExTracer(opentelemetry_sdk::trace::Tracer);

#[verifier::external_type_specification]
#[verifier::external_body]
pub struct ExSdkMeterProvider(opentelemetry_sdk::metrics::SdkMeterProvider);

#[verifier::external_type_specification]
#[verifier::external_body]
pub struct ExLoggerProvider(opentelemetry_sdk::logs::LoggerProvider);

/// Relies on opentelemetry_sdk::Resource::from_schema_url: builds the
/// SDK-side resource carrying the given pairs and schema URL. The
/// handle is opaque here; the verified model of its contents is the
/// `AttributeSet` the pairs came from.
#[verifier::external_body]
pub(crate) fn resource_from_pairs(attrs: &Vec<Attr>, schema_url: &String) -> (r:
    opentelemetry_sdk::Resource)
{
    opentelemetry_sdk::Resource::from_schema_url(
        attrs.iter().map(|a| opentelemetry::KeyValue::new(a.key.clone(), a.value.clone())),
        schema_url.clone(),
    )
}

/// Relies on opentelemetry::global::set_text_map_propagator: makes the
/// W3C trace-context propagator the process-wide propagator, replacing
/// any earlier registration.
#[verifier::external_body]
pub(crate) fn set_propagator_trace_context() {
    opentelemetry::global::set_text_map_propagator(
        opentelemetry_sdk::propagation::TraceContextPropagator::new(),
    );
}

/// Relies on opentelemetry::global::set_text_map_propagator with the
/// Jaeger-compatible propagator.
#[verifier::external_body]
pub(crate) fn set_propagator_jaeger() {
    opentelemetry::global::set_text_map_propagator(
        opentelemetry_jaeger_propagator::Propagator::new(),
    );
}

/// Relies on opentelemetry::global::set_text_map_propagator with the
/// Zipkin-compatible (B3) propagator.
#[verifier::external_body]
pub(crate) fn set_propagator_zipkin() {
    opentelemetry::global::set_text_map_propagator(opentelemetry_zipkin::Propagator::new());
}

/// Relies on opentelemetry_otlp's trace pipeline: builds an OTLP span
/// exporter over tonic against the given endpoint (the crate itself
/// still honours the standard per-signal environment overrides, with
/// the same precedence this library states), attaches the resource,
/// and installs a batch provider on the Tokio runtime, whose context
/// this must run inside. The error is whatever the pipeline reported,
/// as text.
#[verifier::external_body]
pub(crate) fn build_tracer_provider(resource: opentelemetry_sdk::Resource, endpoint: String) -> (r:
    Result<opentelemetry_sdk::trace::TracerProvider, String>)
{
    opentelemetry_otlp::new_pipeline()
        .tracing()
        .with_exporter(opentelemetry_otlp::new_exporter().tonic().with_endpoint(endpoint))
        .with_trace_config(opentelemetry_sdk::trace::Config::default().with_resource(resource))
        .with_batch_config(opentelemetry_sdk::trace::BatchConfig::default())
        .install_batch(opentelemetry_sdk::runtime::Tokio)
        .map_err(|e| e.to_string())
}

/// Relies on opentelemetry::trace::TracerProvider::tracer: returns this
/// provider's tracer under the given instrumentation name.
#[verifier::external_body]
pub(crate) fn tracer_named(
    provider: &opentelemetry_sdk::trace::TracerProvider,
    name: &String,
) -> (r: opentelemetry_sdk::trace::Tracer) {
    opentelemetry::trace::TracerProvider::tracer(provider, name.clone())
}

/// Relies on opentelemetry::global::set_tracer_provider: installs the
/// provider as the process-wide tracer provider; the last writer wins.
#[verifier::external_body]
pub(crate) fn install_global_tracer_provider(provider: opentelemetry_sdk::trace::TracerProvider) {
    opentelemetry::global::set_tracer_provider(provider);
}

/// Relies on opentelemetry_otlp's metrics pipeline: builds an OTLP
/// metric exporter over tonic against the given endpoint, attaches the
/// resource, and builds a periodic-reader meter provider on the Tokio
/// runtime, whose context this must run inside.
#[verifier::external_body]
pub(crate) fn build_meter_provider(resource: opentelemetry_sdk::Resource, endpoint: String) -> (r:
    Result<opentelemetry_sdk::metrics::SdkMeterProvider, String>)
{
    opentelemetry_otlp::new_pipeline()
        .metrics(opentelemetry_sdk::runtime::Tokio)
        .with_exporter(opentelemetry_otlp::new_exporter().tonic().with_endpoint(endpoint))
        .with_resource(resource)
        .build()
        .map_err(|e| e.to_string())
}

/// Relies on opentelemetry::global::set_meter_provider: installs a
/// clone of the provider as the process-wide meter provider; the last
/// writer wins.
#[verifier::external_body]
pub(crate) fn install_global_meter_provider(
    provider: &opentelemetry_sdk::metrics::SdkMeterProvider,
) {
    opentelemetry::global::set_meter_provider(provider.clone());
}

/// Relies on opentelemetry_otlp's log pipeline: builds an OTLP log
/// exporter over tonic against the given endpoint, attaches the
/// resource, and installs a batch log provider on the Tokio runtime,
/// whose context this must run inside.
#[verifier::external_body]
pub(crate) fn build_logger_provider(resource: opentelemetry_sdk::Resource, endpoint: String) -> (r:
    Result<opentelemetry_sdk::logs::LoggerProvider, String>)
{
    opentelemetry_otlp::new_pipeline()
        .logging()
        .with_exporter(opentelemetry_otlp::new_exporter().tonic().with_endpoint(endpoint))
        .with_resource(resource)
        .install_batch(opentelemetry_sdk::runtime::Tokio)
        .map_err(|e| e.to_string())
}

/// Relies on opentelemetry::global::shutdown_tracer_provider: flushes
/// and drops the process-wide tracer provider, leaving a no-op one. It
/// reports nothing, so nothing is stated.
#[verifier::external_body]
pub(crate) fn teardown_global_tracer_provider() {
    opentelemetry::global::shutdown_tracer_provider();
}

/// Relies on SdkMeterProvider::shutdown: flushes and closes the meter
/// provider. The outcome depends on the exporter and its backend, so
/// only the shape of the result is stated.
#[verifier::external_body]
pub(crate) fn close_meter_provider(
    provider: &opentelemetry_sdk::metrics::SdkMeterProvider,
) -> (r: Result<(), String>) {
    provider.shutdown().map_err(|e| e.to_string())
}

/// Relies on LoggerProvider::shutdown: flushes and closes the log
/// provider. The outcome depends on the exporter and its backend, so
/// only the shape of the result is stated.
#[verifier::external_body]
pub(crate) fn close_logger_provider(
    provider: &opentelemetry_sdk::logs::LoggerProvider,
) -> (r: Result<(), String>) {
    provider.shutdown().map_err(|e| e.to_string())
}

/// Relies on SdkProvidedResourceDetector::detect with a zero timeout:
/// the SDK-provided attributes (a service-name fallback). The values
/// are read from the process environment, so only what holds of every
/// outcome is stated: the pairs come out of a key-indexed map, one per
/// key.
#[verifier::external_body]
pub(crate) fn detect_sdk_provided() -> (r: Vec<Attr>)
    ensures
        distinct_keys(attrs_view(r@)),
{
    let detected = opentelemetry_sdk::resource::SdkProvidedResourceDetector.detect(
        std::time::Duration::from_secs(0),
    );
    detected.iter().map(
        |(k, v)| Attr { key: k.as_str().to_owned(), value: v.to_string() },
    ).collect()
}

/// Relies on TelemetryResourceDetector::detect with a zero timeout: the
/// telemetry library's self-describing attributes, one pair per key.
#[verifier::external_body]
pub(crate) fn detect_telemetry() -> (r: Vec<Attr>)
    ensures
        distinct_keys(attrs_view(r@)),
{
    let detected = opentelemetry_sdk::resource::TelemetryResourceDetector.detect(
        std::time::Duration::from_secs(0),
    );
    detected.iter().map(
        |(k, v)| Attr { key: k.as_str().to_owned(), value: v.to_string() },
    ).collect()
}

/// Relies on EnvResourceDetector::detect with a zero timeout: the
/// user-declared pairs of the OTEL_RESOURCE_ATTRIBUTES environment
/// variable, one pair per key; empty when the variable is unset.
#[verifier::external_body]
pub(crate) fn detect_env_resource() -> (r: Vec<Attr>)
    ensures
        distinct_keys(attrs_view(r@)),
{
    let detected = opentelemetry_sdk::resource::EnvResourceDetector::new().detect(
        std::time::Duration::from_secs(0),
    );
    detected.iter().map(
        |(k, v)| Attr { key: k.as_str().to_owned(), value: v.to_string() },
    ).collect()
}

/// Relies on opentelemetry_resource_detectors::HostResourceDetector:
/// host attributes, one pair per key; empty when detection fails.
#[verifier::external_body]
pub(crate) fn detect_host() -> (r: Vec<Attr>)
    ensures
        distinct_keys(attrs_view(r@)),
{
    let detected = opentelemetry_resource_detectors::HostResourceDetector::default().detect(
        std::time::Duration::from_secs(0),
    );
    detected.iter().map(
        |(k, v)| Attr { key: k.as_str().to_owned(), value: v.to_string() },
    ).collect()
}

/// Relies on opentelemetry_resource_detectors::OsResourceDetector:
/// operating-system attributes, one pair per key.
#[verifier::external_body]
pub(crate) fn detect_os() -> (r: Vec<Attr>)
    ensures
        distinct_keys(attrs_view(r@)),
{
    let detected = opentelemetry_resource_detectors::OsResourceDetector.detect(
        std::time::Duration::from_secs(0),
    );
    detected.iter().map(
        |(k, v)| Attr { key: k.as_str().to_owned(), value: v.to_string() },
    ).collect()
}

/// Relies on opentelemetry_resource_detectors::ProcessResourceDetector:
/// process attributes, one pair per key.
#[verifier::external_body]
pub(crate) fn detect_process() -> (r: Vec<Attr>)
    ensures
        distinct_keys(attrs_view(r@)),
{
    let detected = opentelemetry_resource_detectors::ProcessResourceDetector.detect(
        std::time::Duration::from_secs(0),
    );
    detected.iter().map(
        |(k, v)| Attr { key: k.as_str().to_owned(), value: v.to_string() },
    ).collect()
}

} // verus!
