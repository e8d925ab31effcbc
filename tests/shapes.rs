use component_runner::artifact::{has_component_preamble, load_failure};
use component_runner::errors::{CallError, LoadError};
use component_runner::selector::LoadMode;
use component_runner::shape::{is_agreed_record, resolve_export, signature_matches, ExportDecl, FieldShape, FuncShape, Kind, ValueShape};

fn record(fields: &[(&str, Kind)]) -> ValueShape {
    ValueShape {
        kind: Kind::Record,
        fields: fields.iter().map(|(n, k)| FieldShape { name: n.to_string(), kind: *k }).collect(),
    }
}

fn agreed() -> FuncShape {
    FuncShape { params: vec![record(&[("uri", Kind::Text)])], results: vec![record(&[("uri", Kind::Text)])] }
}

fn export(interface: &str, func: &str, shape: FuncShape) -> ExportDecl {
    ExportDecl { interface: interface.to_string(), func: func.to_string(), shape }
}

#[test]
fn agreed_record_is_one_text_field_named_uri() {
    assert!(is_agreed_record(&record(&[("uri", Kind::Text)])));
    assert!(!is_agreed_record(&record(&[("url", Kind::Text)])));
    assert!(!is_agreed_record(&record(&[("uri", Kind::Integer)])));
    assert!(!is_agreed_record(&record(&[("uri", Kind::Text), ("extra", Kind::Text)])));
    assert!(!is_agreed_record(&record(&[])));
    assert!(!is_agreed_record(&ValueShape { kind: Kind::Text, fields: vec![] }));
}

#[test]
fn signatures_must_match_exactly() {
    assert!(signature_matches(&agreed()));
    let mut two = agreed();
    two.params.push(record(&[("uri", Kind::Text)]));
    assert!(!signature_matches(&two));
    let mut none = agreed();
    none.results.clear();
    assert!(!signature_matches(&none));
    let text_in = FuncShape { params: vec![ValueShape { kind: Kind::Text, fields: vec![] }], results: agreed().results };
    assert!(!signature_matches(&text_in));
}

#[test]
fn export_lookup_reports_each_outcome() {
    let i = "test:test/handler-interface".to_string();
    let f = "handleevent".to_string();
    let good = vec![export("other:x/y", "handleevent", agreed()), export(&i, &f, agreed())];
    assert!(resolve_export(&good, &i, &f).is_ok());
    let missing = vec![export(&i, "other", agreed())];
    assert!(matches!(resolve_export(&missing, &i, &f), Err(CallError::ExportNotFound)));
    assert!(matches!(resolve_export(&vec![], &i, &f), Err(CallError::ExportNotFound)));
    let wrong = FuncShape { params: vec![record(&[("uri", Kind::Bool)])], results: agreed().results };
    let mismatched = vec![export(&i, &f, wrong), export(&i, &f, agreed())];
    assert!(matches!(resolve_export(&mismatched, &i, &f), Err(CallError::SignatureMismatch)));
}

#[test]
fn preamble_marks_the_component_form() {
    let good = vec![0x00u8, 0x61, 0x73, 0x6d, 0x0d, 0x00, 0x01, 0x00, 0x07];
    assert!(has_component_preamble(&good));
    let core_module = vec![0x00u8, 0x61, 0x73, 0x6d, 0x01, 0x00, 0x00, 0x00];
    assert!(!has_component_preamble(&core_module));
    assert!(!has_component_preamble(&vec![0x00u8, 0x61, 0x73]));
    assert!(!has_component_preamble(&vec![]));
}

#[test]
fn load_failures_by_mode() {
    assert_eq!(load_failure(LoadMode::Compile, false), LoadError::Malformed);
    assert_eq!(load_failure(LoadMode::Compile, true), LoadError::CompileFailure);
    assert_eq!(load_failure(LoadMode::Precompiled, true), LoadError::DeserializeFailure);
    assert_eq!(load_failure(LoadMode::Precompiled, false), LoadError::DeserializeFailure);
}
