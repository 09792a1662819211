use dictionary::define_from_transport;
use dictionary::extract_dictionary;
use dictionary::DictError;
use dictionary::TransportEvent;
use dictionary::WordDefinition;

const CAT_ENVELOPE_FENCED: &str = r#"{"candidates":[{"content":{"parts":[{"text":"```json\n{\"word\":\"cat\",\"pronunciation\":\"/kæt/\",\"definition\":\"a small domesticated animal\",\"examples\":[\"The cat sleeps.\",\"I have a cat.\"],\"image\":\"cat.png\"}\n```"}]}}]}"#;

const CAT_ENVELOPE_BARE: &str = r#"{"candidates":[{"content":{"parts":[{"text":"{\"word\":\"cat\",\"pronunciation\":\"/kæt/\",\"definition\":\"a small domesticated animal\",\"examples\":[\"The cat sleeps.\",\"I have a cat.\"],\"image\":\"cat.png\"}"}]}}]}"#;

fn cat_definition() -> WordDefinition {
    WordDefinition {
        word: "cat".to_string(),
        pronunciation: "/kæt/".to_string(),
        definition: "a small domesticated animal".to_string(),
        examples: vec!["The cat sleeps.".to_string(), "I have a cat.".to_string()],
        image: "cat.png".to_string(),
    }
}

fn parse(body: &str) -> serde_json::Value {
    serde_json::from_str(body).expect("test body must be valid JSON")
}

#[test]
fn extraction_reads_fenced_payload() {
    let result = extract_dictionary(parse(CAT_ENVELOPE_FENCED)).expect("extraction must succeed");
    assert_eq!(result, cat_definition());
}

#[test]
fn extraction_reads_bare_payload() {
    let result = extract_dictionary(parse(CAT_ENVELOPE_BARE)).expect("extraction must succeed");
    assert_eq!(result, cat_definition());
}

#[test]
fn extraction_fails_without_candidates() {
    let err = extract_dictionary(parse(r#"{"error":{"code":400}}"#)).unwrap_err();
    assert_eq!(err, DictError::ExtractionError);
    assert_eq!(err.message(), "json error: dictionary not found");
}

#[test]
fn extraction_fails_on_empty_candidates() {
    let err = extract_dictionary(parse(r#"{"candidates":[]}"#)).unwrap_err();
    assert_eq!(err, DictError::ExtractionError);
}

#[test]
fn extraction_fails_when_text_is_not_a_string() {
    let err = extract_dictionary(parse(
        r#"{"candidates":[{"content":{"parts":[{"text":7}]}}]}"#,
    ))
    .unwrap_err();
    assert_eq!(err, DictError::ExtractionError);
}

#[test]
fn extraction_fails_on_missing_fields() {
    let err = extract_dictionary(parse(
        r#"{"candidates":[{"content":{"parts":[{"text":"{\"word\":\"cat\"}"}]}}]}"#,
    ))
    .unwrap_err();
    assert!(matches!(err, DictError::DeserializationError(_)));
}

#[test]
fn extraction_fails_on_unparseable_text() {
    let err = extract_dictionary(parse(
        r#"{"candidates":[{"content":{"parts":[{"text":"not json at all"}]}}]}"#,
    ))
    .unwrap_err();
    assert!(matches!(err, DictError::DeserializationError(_)));
}

#[test]
fn extraction_fails_on_non_string_example() {
    let err = extract_dictionary(parse(
        r#"{"candidates":[{"content":{"parts":[{"text":"{\"word\":\"cat\",\"pronunciation\":\"/kæt/\",\"definition\":\"a small domesticated animal\",\"examples\":[\"The cat sleeps.\",2],\"image\":\"cat.png\"}"}]}}]}"#,
    ))
    .unwrap_err();
    assert!(matches!(err, DictError::DeserializationError(_)));
}

#[test]
fn extraction_accepts_any_number_of_examples() {
    let result = extract_dictionary(parse(
        r#"{"candidates":[{"content":{"parts":[{"text":"{\"word\":\"cat\",\"pronunciation\":\"/kæt/\",\"definition\":\"a small domesticated animal\",\"examples\":[],\"image\":\"cat.png\"}"}]}}]}"#,
    ))
    .expect("extraction must succeed");
    assert_eq!(result.examples, Vec::<String>::new());
}

#[test]
fn extraction_ignores_extra_fields() {
    let result = extract_dictionary(parse(
        r#"{"candidates":[{"content":{"parts":[{"text":"{\"word\":\"cat\",\"pronunciation\":\"/kæt/\",\"definition\":\"a small domesticated animal\",\"examples\":[\"The cat sleeps.\",\"I have a cat.\"],\"image\":\"cat.png\",\"extra\":true}"}]}}]}"#,
    ))
    .expect("extraction must succeed");
    assert_eq!(result, cat_definition());
}

#[test]
fn pipeline_succeeds_on_success_response() {
    let event = TransportEvent::Response { status: 200, body: CAT_ENVELOPE_FENCED.to_string() };
    let result = define_from_transport(&event).expect("pipeline must succeed");
    assert_eq!(result, cat_definition());
}

#[test]
fn pipeline_fails_with_request_error_on_status_500() {
    let event = TransportEvent::Response { status: 500, body: CAT_ENVELOPE_FENCED.to_string() };
    let err = define_from_transport(&event).unwrap_err();
    assert_eq!(err, DictError::RequestError("500".to_string()));
    assert_eq!(err.message(), "request error: 500");
}

#[test]
fn pipeline_fails_with_request_error_on_transport_failure() {
    let event = TransportEvent::Failed("connection reset".to_string());
    let err = define_from_transport(&event).unwrap_err();
    assert_eq!(err, DictError::RequestError("connection reset".to_string()));
    assert_eq!(err.message(), "request error: connection reset");
}

#[test]
fn pipeline_fails_with_json_error_on_unparseable_body() {
    let event = TransportEvent::Response { status: 200, body: "<html>".to_string() };
    let err = define_from_transport(&event).unwrap_err();
    assert!(matches!(err, DictError::JsonError(_)));
    assert!(err.message().starts_with("json error: "));
}

#[test]
fn pipeline_is_deterministic_on_success() {
    let event = TransportEvent::Response { status: 200, body: CAT_ENVELOPE_FENCED.to_string() };
    let first = define_from_transport(&event);
    let second = define_from_transport(&event);
    assert_eq!(first, second);
}

#[test]
fn pipeline_is_deterministic_on_failure() {
    let event = TransportEvent::Response { status: 404, body: "{}".to_string() };
    let first = define_from_transport(&event);
    let second = define_from_transport(&event);
    assert_eq!(first, second);
}

#[test]
fn extraction_fails_on_fence_only_text() {
    let err = extract_dictionary(parse(
        r#"{"candidates":[{"content":{"parts":[{"text":"```json"}]}}]}"#,
    ))
    .unwrap_err();
    assert!(matches!(err, DictError::DeserializationError(_)));
}

#[test]
fn fence_after_leading_whitespace_is_not_stripped() {
    let err = extract_dictionary(parse(
        r#"{"candidates":[{"content":{"parts":[{"text":" ```json\n{\"word\":\"cat\"}\n```"}]}}]}"#,
    ))
    .unwrap_err();
    assert!(matches!(err, DictError::DeserializationError(_)));
}

#[test]
fn stripping_handles_annotated_and_bare_fences() {
    assert_eq!(dictionary::extract::strip_fence_str("```json\n{}\n```"), "{}");
    assert_eq!(dictionary::extract::strip_fence_str("```\n{}\n```"), "{}");
    assert_eq!(dictionary::extract::strip_fence_str("  {}  "), "{}");
}
