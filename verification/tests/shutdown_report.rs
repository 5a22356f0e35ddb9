use spring_opentelemetry::shutdown::compose_shutdown_report;
use spring_opentelemetry::ShutdownStep;
use spring_opentelemetry::EndpointOverrides;
use spring_opentelemetry::Signal;
use spring_opentelemetry::PropagatorCompat;
use spring_opentelemetry::PropagatorKind;
use spring_opentelemetry::registry::select_propagator;
use spring_opentelemetry::settings::resolve_setting;

#[test]
fn shutdown_with_both_closes_healthy_reports_success() {
    let r = compose_shutdown_report(Ok(()), Ok(()));
    assert_eq!(r.unwrap(), "OpenTelemetry shutdown successful");
}

#[test]
fn meter_failure_still_reports_the_log_close_and_names_metrics() {
    let r = compose_shutdown_report(Err("meter exporter unreachable".to_string()), Ok(()));
    let failure = r.unwrap_err();
    assert_eq!(failure.first_failed_step(), ShutdownStep::MeterClose);
    assert_eq!(
        failure.meter_error,
        Some("meter exporter unreachable".to_string())
    );
    assert_eq!(failure.log_error, None);
}

#[test]
fn log_failure_alone_names_the_log_close() {
    let r = compose_shutdown_report(Ok(()), Err("log exporter unreachable".to_string()));
    let failure = r.unwrap_err();
    assert_eq!(failure.first_failed_step(), ShutdownStep::LogClose);
    assert_eq!(failure.meter_error, None);
    assert_eq!(
        failure.log_error,
        Some("log exporter unreachable".to_string())
    );
}

#[test]
fn two_failures_report_the_first_step_and_keep_both_causes() {
    let r = compose_shutdown_report(
        Err("meter close failed".to_string()),
        Err("log close failed".to_string()),
    );
    let failure = r.unwrap_err();
    assert_eq!(failure.first_failed_step(), ShutdownStep::MeterClose);
    assert_eq!(failure.meter_error, Some("meter close failed".to_string()));
    assert_eq!(failure.log_error, Some("log close failed".to_string()));
}

#[test]
fn signal_specific_endpoint_beats_the_generic_one() {
    let overrides = EndpointOverrides {
        endpoint: None,
        traces_endpoint: Some("http://collector:4317".to_string()),
        metrics_endpoint: None,
        logs_endpoint: None,
    };
    assert_eq!(
        overrides.endpoint_for(Signal::Traces),
        "http://collector:4317"
    );
    assert_eq!(
        overrides.endpoint_for(Signal::Metrics),
        "http://localhost:4317"
    );
    assert_eq!(overrides.endpoint_for(Signal::Logs), "http://localhost:4317");
}

#[test]
fn generic_endpoint_backs_up_the_unset_signals() {
    let overrides = EndpointOverrides {
        endpoint: Some("http://gateway:4317".to_string()),
        traces_endpoint: Some("http://collector:4317".to_string()),
        metrics_endpoint: None,
        logs_endpoint: None,
    };
    assert_eq!(
        overrides.endpoint_for(Signal::Traces),
        "http://collector:4317"
    );
    assert_eq!(
        overrides.endpoint_for(Signal::Metrics),
        "http://gateway:4317"
    );
    assert_eq!(overrides.endpoint_for(Signal::Logs), "http://gateway:4317");
}

#[test]
fn unset_overrides_fall_back_to_the_default() {
    let overrides = EndpointOverrides::none();
    assert_eq!(
        overrides.endpoint_for(Signal::Traces),
        "http://localhost:4317"
    );
    assert_eq!(
        resolve_setting(&None, &None, "fallback-value"),
        "fallback-value"
    );
}

#[test]
fn propagator_selection_makes_last_registration_explicit() {
    assert_eq!(
        select_propagator(PropagatorCompat {
            jaeger: false,
            zipkin: false
        }),
        PropagatorKind::TraceContext
    );
    assert_eq!(
        select_propagator(PropagatorCompat {
            jaeger: true,
            zipkin: false
        }),
        PropagatorKind::Jaeger
    );
    assert_eq!(
        select_propagator(PropagatorCompat {
            jaeger: true,
            zipkin: true
        }),
        PropagatorKind::Zipkin
    );
}
