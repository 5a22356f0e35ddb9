//! The plugin's operations: resource assembly, one pipeline
//! initialization per signal, and shutdown sequencing.

use vstd::prelude::*;
use crate::attrs::Attr;
use crate::attrs::AttributeSet;
use crate::attrs::AttrView;
use crate::attrs::attrs_view;
use crate::attrs::distinct_keys;
use crate::attrs::has_key;
use crate::attrs::lookup;
use crate::attrs::lemma_lookup_at;
use crate::attrs::lemma_merge_keeps_low;
use crate::attrs::lemma_merge_prefers_high;
use crate::attrs::merged;
use crate::attrs::merged_schema;
use crate::environment::Environment;
use crate::otel;
use crate::registry::GlobalTelemetryState;
use crate::registry::PropagatorCompat;
use crate::registry::PropagatorKind;
use crate::registry::select_propagator;
use crate::registry::selected_propagator;
use crate::settings::EndpointOverrides;
use crate::settings::Signal;
use crate::shutdown::ShutdownFailure;
use crate::shutdown::compose_shutdown_report;
use crate::shutdown::success_message;

verus! {

/// Which optional infrastructure detectors run during resource
/// assembly. The host, OS and process detectors may be absent in
/// minimal builds; the SDK-provided, telemetry and environment-variable
/// detectors always run.
#[derive(Clone, Copy, PartialEq, Eq, Structural, Debug)]
pub struct DetectorSelection {
    pub host: bool,
    pub os: bool,
    pub process: bool,
}

/// Why a pipeline could not be constructed. Construction failure is
/// fatal to startup: the host is expected to abort on it, telemetry
/// being required infrastructure, not best-effort.
#[derive(Debug)]
pub struct InitError {
    pub signal: Signal,
    pub cause: String,
}

/// The OpenTelemetry integration plugin: assembles the resource
/// attributes, initializes one exporter pipeline per signal, and shuts
/// the providers down.
pub struct OpenTelemetryPlugin;

impl OpenTelemetryPlugin {
    /// The application-declared attribute subset: exactly the three
    /// application-level keys.
    pub open spec fn app_pairs(env: Environment, name: Seq<char>, version: Seq<char>) -> Seq<
        AttrView,
    > {
        seq![
            ("service.name"@, name),
            ("service.version"@, version),
            ("deployment.environment.name"@, env.name_spec()),
        ]
    }

    /// The schema URL the application subset is tagged with.
    pub open spec fn schema_url_spec() -> Seq<char> {
        "https://opentelemetry.io/schemas/1.26.0"@
    }

    /// Law: the application subset is never empty — it always holds
    /// exactly three pairs, under three distinct keys.
    pub proof fn lemma_app_pairs_wf(env: Environment, name: Seq<char>, version: Seq<char>)
        ensures
            Self::app_pairs(env, name, version).len() == 3,
            distinct_keys(Self::app_pairs(env, name, version)),
    {
        reveal_strlit("service.name");
        reveal_strlit("service.version");
        reveal_strlit("deployment.environment.name");
        let ap = Self::app_pairs(env, name, version);
        assert("service.name"@.len() == 12);
        assert("service.version"@.len() == 15);
        assert("deployment.environment.name"@.len() == 27);
        assert forall|i: int, j: int| 0 <= i < j < ap.len() implies ap[i].0 != ap[j].0 by {
            assert(ap[0].0 == "service.name"@);
            assert(ap[1].0 == "service.version"@);
            assert(ap[2].0 == "deployment.environment.name"@);
        }
    }

    /// Law: assembly is a union. A detected pair whose key is none of
    /// the three application-level keys survives assembly with the
    /// value the detectors gave it — user-declared resource attributes
    /// stand beside the application identity.
    pub proof fn lemma_assembly_keeps_detected(
        env: Environment,
        name: Seq<char>,
        version: Seq<char>,
        infra: Seq<AttrView>,
        k: Seq<char>,
    )
        requires
            has_key(infra, k),
            k != "service.name"@,
            k != "service.version"@,
            k != "deployment.environment.name"@,
        ensures
            has_key(merged(Self::app_pairs(env, name, version), infra), k),
            lookup(merged(Self::app_pairs(env, name, version), infra), k) == lookup(infra, k),
    {
        let ap = Self::app_pairs(env, name, version);
        assert(!has_key(ap, k)) by {
            assert(ap[0].0 == "service.name"@);
            assert(ap[1].0 == "service.version"@);
            assert(ap[2].0 == "deployment.environment.name"@);
        }
        lemma_merge_keeps_low(ap, infra, k);
    }

    /// Build the application attribute subset: the service name, the
    /// service version and the stringified environment, tagged with the
    /// schema URL.
    pub fn app_resource(env: Environment, app_name: &str, app_version: &str) -> (r: AttributeSet)
        ensures
            r@ == Self::app_pairs(env, app_name@, app_version@),
            r.wf(),
            r.schema_url@ == Self::schema_url_spec(),
    {
        let mut attrs: Vec<Attr> = Vec::new();
        attrs.push(Attr { key: "service.name".to_owned(), value: app_name.to_owned() });
        attrs.push(Attr { key: "service.version".to_owned(), value: app_version.to_owned() });
        attrs.push(Attr { key: "deployment.environment.name".to_owned(), value: env.name() });
        proof {
            Self::lemma_app_pairs_wf(env, app_name@, app_version@);
            assert(attrs_view(attrs@) =~= Self::app_pairs(env, app_name@, app_version@));
        }
        AttributeSet { attrs, schema_url: "https://opentelemetry.io/schemas/1.26.0".to_owned() }
    }

    /// Fold one detector's contribution into the accumulated
    /// infrastructure subset; the newly detected pairs win key
    /// collisions, as with the SDK's own detector fold.
    fn absorb_detected(acc: AttributeSet, detected: Vec<Attr>) -> (r: AttributeSet)
        requires
            acc.wf(),
            distinct_keys(attrs_view(detected@)),
            acc.schema_url@.len() == 0,
        ensures
            r.wf(),
            r@ == merged(attrs_view(detected@), acc@),
            r.schema_url@.len() == 0,
    {
        let found = AttributeSet { attrs: detected, schema_url: String::new() };
        found.merge(&acc)
    }

    /// Build the infrastructure attribute subset by running the
    /// detectors in order, each on a zero timeout budget and each
    /// contributing zero or more pairs: optionally host, OS and
    /// process, then always the SDK-provided, telemetry and
    /// environment-variable detectors. A later detector wins a key
    /// collision; a detector that fails contributes nothing and never
    /// aborts assembly.
    pub fn infra_resource(selection: &DetectorSelection) -> (r: AttributeSet)
        ensures
            r.wf(),
            r.schema_url@.len() == 0,
    {
        let mut acc = AttributeSet::empty();
        if selection.host {
            acc = Self::absorb_detected(acc, otel::detect_host());
        }
        if selection.os {
            acc = Self::absorb_detected(acc, otel::detect_os());
        }
        if selection.process {
            acc = Self::absorb_detected(acc, otel::detect_process());
        }
        acc = Self::absorb_detected(acc, otel::detect_sdk_provided());
        acc = Self::absorb_detected(acc, otel::detect_telemetry());
        acc = Self::absorb_detected(acc, otel::detect_env_resource());
        acc
    }

    /// Assemble the full resource: the application subset merged over
    /// the infrastructure subset. The merge is a union on which, at a
    /// key collision, the application-declared value always wins; the
    /// three application-level keys are therefore always present with
    /// their declared values, whatever the detectors found.
    pub fn get_resource_attr(
        env: Environment,
        app_name: &str,
        app_version: &str,
        infra: &AttributeSet,
    ) -> (r: AttributeSet)
        requires
            infra.wf(),
        ensures
            r@ == merged(Self::app_pairs(env, app_name@, app_version@), infra@),
            r.wf(),
            r.schema_url@ == merged_schema(Self::schema_url_spec(), infra.schema_url@),
            has_key(r@, "service.name"@) && lookup(r@, "service.name"@) == app_name@,
            has_key(r@, "service.version"@) && lookup(r@, "service.version"@) == app_version@,
            has_key(r@, "deployment.environment.name"@) && lookup(
                r@,
                "deployment.environment.name"@,
            ) == env.name_spec(),
            r@.len() >= 3,
    {
        let app = Self::app_resource(env, app_name, app_version);
        let r = app.merge(infra);
        proof {
            let ap = Self::app_pairs(env, app_name@, app_version@);
            Self::lemma_app_pairs_wf(env, app_name@, app_version@);
            lemma_lookup_at(ap, "service.name"@, 0);
            lemma_merge_prefers_high(ap, infra@, "service.name"@);
            lemma_lookup_at(ap, "service.version"@, 1);
            lemma_merge_prefers_high(ap, infra@, "service.version"@);
            lemma_lookup_at(ap, "deployment.environment.name"@, 2);
            lemma_merge_prefers_high(ap, infra@, "deployment.environment.name"@);
        }
        r
    }

    /// Register the propagator for the enabled compatibility modes,
    /// build the OTLP span pipeline against the resolved traces
    /// endpoint, install its provider as the process-wide tracer
    /// provider, and return the tracer named after the application. A
    /// construction failure leaves the tracer slot untouched and is
    /// reported for the host to treat as fatal.
    pub fn init_tracer(
        state: &mut GlobalTelemetryState,
        stamp: u64,
        compat: PropagatorCompat,
        overrides: &EndpointOverrides,
        resource: &AttributeSet,
        app_name: &str,
    ) -> (r: Result<opentelemetry_sdk::trace::Tracer, InitError>)
        ensures
            final(state).propagator == Some(selected_propagator(compat)),
            final(state).meter_provider == old(state).meter_provider,
            r is Ok ==> final(state).tracer_provider == Some(stamp),
            r is Err ==> final(state).tracer_provider == old(state).tracer_provider
                && r->Err_0.signal == Signal::Traces,
    {
        let kind = select_propagator(compat);
        match kind {
            PropagatorKind::TraceContext => otel::set_propagator_trace_context(),
            PropagatorKind::Jaeger => otel::set_propagator_jaeger(),
            PropagatorKind::Zipkin => otel::set_propagator_zipkin(),
        }
        state.record_propagator(kind);
        let endpoint = overrides.endpoint_for(Signal::Traces);
        let res = otel::resource_from_pairs(&resource.attrs, &resource.schema_url);
        match otel::build_tracer_provider(res, endpoint) {
            Ok(provider) => {
                let tracer_name = app_name.to_owned();
                let tracer = otel::tracer_named(&provider, &tracer_name);
                otel::install_global_tracer_provider(provider);
                state.record_tracer_provider(stamp);
                Ok(tracer)
            },
            Err(cause) => Err(InitError { signal: Signal::Traces, cause }),
        }
    }

    /// Build the OTLP metric pipeline against the resolved metrics
    /// endpoint, install its provider as the process-wide meter
    /// provider, and return the handle. A construction failure leaves
    /// the registry untouched and is reported for the host to treat as
    /// fatal.
    pub fn init_metrics(
        state: &mut GlobalTelemetryState,
        stamp: u64,
        overrides: &EndpointOverrides,
        resource: &AttributeSet,
    ) -> (r: Result<opentelemetry_sdk::metrics::SdkMeterProvider, InitError>)
        ensures
            final(state).propagator == old(state).propagator,
            final(state).tracer_provider == old(state).tracer_provider,
            r is Ok ==> final(state).meter_provider == Some(stamp),
            r is Err ==> *final(state) == *old(state) && r->Err_0.signal == Signal::Metrics,
    {
        let endpoint = overrides.endpoint_for(Signal::Metrics);
        let res = otel::resource_from_pairs(&resource.attrs, &resource.schema_url);
        match otel::build_meter_provider(res, endpoint) {
            Ok(provider) => {
                otel::install_global_meter_provider(&provider);
                state.record_meter_provider(stamp);
                Ok(provider)
            },
            Err(cause) => Err(InitError { signal: Signal::Metrics, cause }),
        }
    }

    /// Build the OTLP log pipeline against the resolved logs endpoint
    /// and return its provider. The log provider is not registered in a
    /// process-wide slot; the host bridges it into its logging front
    /// end. A construction failure is reported for the host to treat as
    /// fatal.
    pub fn init_logs(overrides: &EndpointOverrides, resource: &AttributeSet) -> (r: Result<
        opentelemetry_sdk::logs::LoggerProvider,
        InitError,
    >)
        ensures
            r is Err ==> r->Err_0.signal == Signal::Logs,
    {
        let endpoint = overrides.endpoint_for(Signal::Logs);
        let res = otel::resource_from_pairs(&resource.attrs, &resource.schema_url);
        match otel::build_logger_provider(res, endpoint) {
            Ok(provider) => Ok(provider),
            Err(cause) => Err(InitError { signal: Signal::Logs, cause }),
        }
    }

    /// Shut the pipelines down: tear the process-wide tracer provider
    /// down unconditionally and first, then close the meter provider,
    /// then — whatever the meter close returned — close the log
    /// provider, and report the composite outcome. Success is reported
    /// exactly when both closes succeeded.
    pub fn shutdown(
        state: &mut GlobalTelemetryState,
        meter_provider: &opentelemetry_sdk::metrics::SdkMeterProvider,
        log_provider: &opentelemetry_sdk::logs::LoggerProvider,
    ) -> (r: Result<String, ShutdownFailure>)
        ensures
            *final(state) == old(state).without_tracer_provider(),
            r is Ok ==> r->Ok_0@ == success_message(),
            r is Err ==> r->Err_0.wf(),
    {
        otel::teardown_global_tracer_provider();
        state.clear_tracer_provider();
        let meter_result = otel::close_meter_provider(meter_provider);
        let log_result = otel::close_logger_provider(log_provider);
        compose_shutdown_report(meter_result, log_result)
    }
}

} // verus!
