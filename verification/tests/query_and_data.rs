use service_chain::health::health;
use service_chain::query::{extract_param, Prefix};
use service_chain::service_a::{handler, Model};
use service_chain::service_c::{handler as time_handler, time_model, ServiceCModel};

fn with(value: &str) -> Prefix {
    Prefix { p: Some(value.to_string()) }
}

fn without() -> Prefix {
    Prefix { p: None }
}

#[test]
fn extract_param_passes_a_present_value_through() {
    assert_eq!(extract_param(&with("abc")), "abc");
    assert_eq!(extract_param(&with("Unknown")), "Unknown");
    assert_eq!(extract_param(&with("a b&c=d")), "a b&c=d");
}

#[test]
fn extract_param_keeps_an_empty_value() {
    assert_eq!(extract_param(&with("")), "");
}

#[test]
fn extract_param_keeps_text_outside_ascii() {
    assert_eq!(extract_param(&with("zo\u{eb} \u{1f600}")), "zo\u{eb} \u{1f600}");
}

#[test]
fn extract_param_defaults_an_absent_value() {
    assert_eq!(extract_param(&without()), "Unknown");
}

#[test]
fn extract_param_leaves_the_query_as_it_was() {
    let query = with("kept");
    let _ = extract_param(&query);
    assert_eq!(query, with("kept"));
}

#[test]
fn data_service_labels_both_fields() {
    let model = handler(&with("x"));
    assert_eq!(
        model,
        Model { key_one: "(x)Field 1".to_string(), key_two: "(x)Field 2".to_string() }
    );
}

#[test]
fn data_service_defaults_the_label() {
    let model = handler(&without());
    assert_eq!(model.key_one, "(Unknown)Field 1");
    assert_eq!(model.key_two, "(Unknown)Field 2");
}

#[test]
fn data_service_keeps_an_empty_label() {
    let model = handler(&with(""));
    assert_eq!(model.key_one, "()Field 1");
    assert_eq!(model.key_two, "()Field 2");
}

#[test]
fn data_service_does_not_read_the_label() {
    let model = handler(&with("(a)"));
    assert_eq!(model.key_one, "((a))Field 1");
    assert_eq!(model.key_two, "((a))Field 2");
}

#[test]
fn data_service_answers_alike_twice() {
    assert_eq!(handler(&with("same")), handler(&with("same")));
}

#[test]
fn health_reports_healthy() {
    assert_eq!(health().status, "Healthy");
}

#[test]
fn health_is_constant() {
    assert_eq!(health().status, health().status);
}

#[test]
fn time_model_holds_the_reading() {
    let reading = chrono::DateTime::from_timestamp(1_700_000_000, 123_456_789).unwrap().naive_utc();
    assert_eq!(time_model(reading), ServiceCModel { key_time: reading });
}

#[test]
fn time_service_reads_the_clock() {
    let before = chrono::Utc::now().naive_utc();
    let model = time_handler();
    let after = chrono::Utc::now().naive_utc();
    assert!(before <= model.key_time);
    assert!(model.key_time <= after);
}
