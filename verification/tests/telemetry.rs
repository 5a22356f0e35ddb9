use spring_opentelemetry::Attr;
use spring_opentelemetry::AttributeSet;
use spring_opentelemetry::DetectorSelection;
use spring_opentelemetry::Environment;
use spring_opentelemetry::GlobalTelemetryState;
use spring_opentelemetry::OpenTelemetryPlugin;

fn pairs(items: &[(&str, &str)]) -> AttributeSet {
    let attrs: Vec<Attr> = items
        .iter()
        .map(|(k, v)| Attr {
            key: k.to_string(),
            value: v.to_string(),
        })
        .collect();
    AttributeSet {
        attrs,
        schema_url: String::new(),
    }
}

#[test]
fn app_resource_holds_exactly_the_three_application_keys() {
    for env in [Environment::Dev, Environment::Test, Environment::Prod] {
        let r = OpenTelemetryPlugin::app_resource(env, "checkout-service", "1.2.3");
        assert_eq!(r.attrs.len(), 3);
        assert_eq!(
            r.get(&"service.name".to_string()),
            Some("checkout-service".to_string())
        );
        assert_eq!(
            r.get(&"service.version".to_string()),
            Some("1.2.3".to_string())
        );
        let expected = match env {
            Environment::Dev => "Dev",
            Environment::Test => "Test",
            Environment::Prod => "Prod",
        };
        assert_eq!(
            r.get(&"deployment.environment.name".to_string()),
            Some(expected.to_string())
        );
    }
}

#[test]
fn application_subset_wins_key_collision_against_detected_subset() {
    let infra = pairs(&[("service.name", "imposter"), ("host.name", "box-1")]);
    let r = OpenTelemetryPlugin::get_resource_attr(Environment::Prod, "checkout-service", "1.2.3", &infra);
    assert_eq!(
        r.get(&"service.name".to_string()),
        Some("checkout-service".to_string())
    );
    assert_eq!(r.get(&"host.name".to_string()), Some("box-1".to_string()));
}

#[test]
fn assembly_with_empty_infrastructure_subset_is_nonempty() {
    let infra = AttributeSet::empty();
    let r = OpenTelemetryPlugin::get_resource_attr(Environment::Dev, "checkout-service", "0.1.0", &infra);
    assert_eq!(r.attrs.len(), 3);
    assert!(r.get(&"service.name".to_string()).is_some());
    assert!(r.get(&"service.version".to_string()).is_some());
    assert!(r.get(&"deployment.environment.name".to_string()).is_some());
}

#[test]
fn user_declared_resource_pairs_survive_beside_application_keys() {
    let infra = pairs(&[("team", "payments")]);
    let r = OpenTelemetryPlugin::get_resource_attr(Environment::Prod, "checkout-service", "1.2.3", &infra);
    assert_eq!(
        r.get(&"service.name".to_string()),
        Some("checkout-service".to_string())
    );
    assert_eq!(r.get(&"team".to_string()), Some("payments".to_string()));
}

#[test]
fn merge_is_right_biased_toward_caller() {
    let high = pairs(&[("k", "kept"), ("only-high", "h")]);
    let low = pairs(&[("k", "dropped"), ("only-low", "l")]);
    let r = high.merge(&low);
    assert_eq!(r.get(&"k".to_string()), Some("kept".to_string()));
    assert_eq!(r.get(&"only-high".to_string()), Some("h".to_string()));
    assert_eq!(r.get(&"only-low".to_string()), Some("l".to_string()));
    assert_eq!(r.attrs.len(), 3);
}

#[test]
fn merge_schema_tags_follow_the_documented_rules() {
    let mut a = pairs(&[("a", "1")]);
    a.schema_url = "https://example.test/s1".to_string();
    let mut b = pairs(&[("b", "2")]);
    b.schema_url = "https://example.test/s1".to_string();
    assert_eq!(a.merge(&b).schema_url, "https://example.test/s1");

    let mut c = pairs(&[("c", "3")]);
    c.schema_url = "https://example.test/s2".to_string();
    assert_eq!(a.merge(&c).schema_url, "");

    let d = pairs(&[("d", "4")]);
    assert_eq!(a.merge(&d).schema_url, "https://example.test/s1");
    assert_eq!(d.merge(&a).schema_url, "https://example.test/s1");
}

#[test]
fn lookup_of_absent_key_is_none() {
    let r = pairs(&[("present", "x")]);
    assert_eq!(r.get(&"absent".to_string()), None);
    assert!(r.contains_key(&"present".to_string()));
    assert!(!r.contains_key(&"absent".to_string()));
}

#[test]
fn reinitialization_overwrites_the_registry_slots() {
    let mut state = GlobalTelemetryState::new();
    assert_eq!(state.tracer_provider, None);
    state.record_tracer_provider(1);
    state.record_meter_provider(1);
    state.record_tracer_provider(2);
    state.record_meter_provider(2);
    assert_eq!(state.tracer_provider, Some(2));
    assert_eq!(state.meter_provider, Some(2));
}

#[test]
fn shutdown_clears_the_tracer_slot() {
    let mut state = GlobalTelemetryState::new();
    state.record_tracer_provider(7);
    state.record_meter_provider(7);
    state.clear_tracer_provider();
    assert_eq!(state.tracer_provider, None);
    assert_eq!(state.meter_provider, Some(7));
}

#[test]
fn environment_names_match_their_labels() {
    assert_eq!(Environment::Dev.name(), "Dev");
    assert_eq!(Environment::Test.name(), "Test");
    assert_eq!(Environment::Prod.name(), "Prod");
}

#[test]
fn infrastructure_detection_yields_unique_keys() {
    let selection = DetectorSelection {
        host: true,
        os: true,
        process: true,
    };
    let r = OpenTelemetryPlugin::infra_resource(&selection);
    assert!(!r.attrs.is_empty());
    for (i, a) in r.attrs.iter().enumerate() {
        for b in r.attrs.iter().skip(i + 1) {
            assert_ne!(a.key, b.key);
        }
    }
    assert_eq!(
        r.get(&"telemetry.sdk.name".to_string()),
        Some("opentelemetry".to_string())
    );
}
