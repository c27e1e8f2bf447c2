use appinsights::contracts;
use appinsights::contracts::{Envelope, ExceptionDetails, StackFrame};
use appinsights::telemetry::SeverityLevel;

#[test]
fn it_defaults_an_envelope_to_empty_fields() {
    let e = Envelope::default();
    assert_eq!(e.name, "");
    assert_eq!(e.time, "");
    assert_eq!(e.i_key, None);
    assert_eq!(e.tags, None);
    assert_eq!(e.data, None);
}

#[test]
fn it_clones_an_envelope_field_for_field() {
    let e = Envelope {
        name: "Microsoft.ApplicationInsights.Message".to_string(),
        time: "2019-01-02T03:04:05.800Z".to_string(),
        i_key: Some("instrumentation".to_string()),
        tags: Some("{}".to_string()),
        data: Some("{\"message\":\"message\"}".to_string()),
    };
    assert_eq!(e.clone(), e);
}

#[test]
fn it_defaults_exception_details_to_a_full_stack() {
    let d = ExceptionDetails::default();
    assert_eq!(d.id, None);
    assert_eq!(d.outer_id, None);
    assert_eq!(d.typename, "");
    assert_eq!(d.message, "");
    assert_eq!(d.has_full_stack, Some(true));
    assert_eq!(d.stack, None);
    assert!(d.parsed_stack.is_empty());
}

#[test]
fn it_defaults_a_stack_frame_to_level_zero() {
    let f = StackFrame::default();
    assert_eq!(f.level, 0);
    assert_eq!(f.method, "");
    assert_eq!(f.assembly, None);
    assert_eq!(f.file_name, None);
    assert_eq!(f.line, None);
}

#[test]
fn it_maps_each_severity_onto_its_wire_value() {
    let cases = [
        (SeverityLevel::Verbose, contracts::SeverityLevel::Verbose),
        (SeverityLevel::Information, contracts::SeverityLevel::Information),
        (SeverityLevel::Warning, contracts::SeverityLevel::Warning),
        (SeverityLevel::Error, contracts::SeverityLevel::Error),
        (SeverityLevel::Critical, contracts::SeverityLevel::Critical),
    ];
    for (severity, wire) in cases {
        assert_eq!(contracts::SeverityLevel::from(severity), wire);
    }
}
