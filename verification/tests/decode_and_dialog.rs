use command_bridge::dialog::{dialog_canceled, dialog_completed};
use command_bridge::error::CommandError;
use command_bridge::payload::{decode_payload, StructuredValue};

#[test]
fn decode_reads_every_variant_of_the_tree() {
    let text = b"{\"b\": [1, null, true, \"x\"], \"a\": {\"k\": 2.5}, \"s\": \"t\"}";
    let decoded = decode_payload(text.to_vec());
    let expected = StructuredValue::Mapping(vec![
        (
            "a".to_string(),
            StructuredValue::Mapping(vec![(
                "k".to_string(),
                StructuredValue::Number("2.5".to_string()),
            )]),
        ),
        (
            "b".to_string(),
            StructuredValue::Sequence(vec![
                StructuredValue::Number("1".to_string()),
                StructuredValue::Null,
                StructuredValue::Boolean(true),
                StructuredValue::Text("x".to_string()),
            ]),
        ),
        ("s".to_string(), StructuredValue::Text("t".to_string())),
    ]);
    assert_eq!(decoded, Ok(expected));
}

#[test]
fn decode_of_empty_object_is_empty_mapping() {
    let decoded = decode_payload(b"{}".to_vec());
    assert_eq!(decoded, Ok(StructuredValue::Mapping(vec![])));
}

#[test]
fn decode_of_bare_scalars() {
    assert_eq!(decode_payload(b"null".to_vec()), Ok(StructuredValue::Null));
    assert_eq!(decode_payload(b"false".to_vec()), Ok(StructuredValue::Boolean(false)));
    assert_eq!(
        decode_payload(b"-12".to_vec()),
        Ok(StructuredValue::Number("-12".to_string()))
    );
    assert_eq!(
        decode_payload(b"\"hi\"".to_vec()),
        Ok(StructuredValue::Text("hi".to_string()))
    );
}

#[test]
fn decode_failure_carries_the_parser_diagnostic() {
    let expected_diagnostic = serde_json::from_str::<serde_json::Value>("not-json")
        .unwrap_err()
        .to_string();
    match decode_payload(b"not-json".to_vec()) {
        Err(CommandError::DecodeFailure(detail)) => {
            assert_eq!(detail, expected_diagnostic);
            let message = CommandError::DecodeFailure(detail).message();
            assert_eq!(
                message,
                format!("could not decode the process output: {}", expected_diagnostic)
            );
        }
        other => panic!("expected a decode failure, got {:?}", other),
    }
}

#[test]
fn canceled_dialog_carries_nothing() {
    let r = dialog_canceled();
    assert!(r.canceled);
    assert_eq!(r.file_path, None);
    assert_eq!(r.sheet_names, None);
    assert_eq!(r.error, None);
}

#[test]
fn completed_dialog_carries_path_and_sheets() {
    let r = dialog_completed(
        "/tmp/book.xlsx".to_string(),
        Ok(vec!["Sheet1".to_string(), "Totals".to_string()]),
    );
    assert!(!r.canceled);
    assert_eq!(r.file_path, Some("/tmp/book.xlsx".to_string()));
    assert_eq!(
        r.sheet_names,
        Some(vec!["Sheet1".to_string(), "Totals".to_string()])
    );
    assert_eq!(r.error, None);
}

#[test]
fn unreadable_workbook_reports_prefixed_error() {
    let r = dialog_completed("/tmp/book.xlsx".to_string(), Err("boom".to_string()));
    assert!(!r.canceled);
    assert_eq!(r.file_path, Some("/tmp/book.xlsx".to_string()));
    assert_eq!(r.sheet_names, None);
    assert_eq!(r.error, Some("could not read the workbook: boom".to_string()));
}
