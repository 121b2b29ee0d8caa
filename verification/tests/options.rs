use azure_typestate::DiagnosticsOptions;
use azure_typestate::Model;
use azure_typestate::Pipeline;
use azure_typestate::RetryOptions;
use azure_typestate::StatusCode;

#[test]
fn diagnostics_defaults() {
    let d = DiagnosticsOptions::default();
    assert_eq!(d.application_id, None);
    assert!(d.logging);
    assert!(!d.logging_content);
    assert!(d.telemetry);
}

#[test]
fn retry_options_constructors() {
    let _ = RetryOptions::exponential();
    let _ = RetryOptions::fixed();
    let _ = RetryOptions::custom();
    let _ = RetryOptions::none();
    let _ = RetryOptions::default();
}

#[test]
fn pipeline_records_its_endpoint() {
    let p = Pipeline::new("https://api.contoso.com/".to_string());
    assert_eq!(p.endpoint(), "https://api.contoso.com/");
}

#[test]
fn status_code_from_u16() {
    let s = StatusCode::from(404u16);
    assert_eq!(s.0, 404);
}

#[test]
fn model_holds_its_fields() {
    let m = Model { name: "name".to_string(), value: "value".to_string() };
    let c = m.clone();
    assert_eq!(c.name, "name");
    assert_eq!(c.value, "value");
}
