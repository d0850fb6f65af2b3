use purchase_validate::codec::{decode_payload, encode_text, purchase_json, sign_text};
use purchase_validate::model::{ProjectInfo, PurchaseData, ResponseData, TestCase};
use purchase_validate::validation::{
    build_request, check_http_status, check_status, conclude, open_envelope, ErrorKind,
    PurchaseStatus, ResponseEnvelope, ValidationError,
};

fn project() -> ProjectInfo {
    ProjectInfo::new("http://127.0.0.1:8080/validate", "abc".into(), "proj".into()).unwrap()
}

fn test_case(expected: &str) -> TestCase {
    TestCase {
        purchase: PurchaseData::new(
            "ios".into(),
            "gems".into(),
            "order-1".into(),
            "receipt-data".into(),
            None,
        )
        .unwrap(),
        response: ResponseData::new(expected.into()).unwrap(),
    }
}

/// What a server answers: `inner` as payload, signed with `key`.
fn stub_envelope(inner: &str, key: &str) -> ResponseEnvelope {
    let validation_result = encode_text(inner);
    let validation_result_signature = sign_text(&validation_result, key);
    ResponseEnvelope {
        message: None,
        timestamp: 1_700_000_000,
        datetime: "2023-11-14T22:13:20Z".into(),
        validation_result,
        validation_result_signature,
    }
}

fn read_status(text: &str) -> PurchaseStatus {
    let v: serde_json::Value = serde_json::from_str(text).unwrap();
    PurchaseStatus {
        status: v["status"].as_str().unwrap().to_string(),
        description: None,
        payload: None,
    }
}

/// Runs the response steps as a client does, from a 200 answer on.
fn validate_against(envelope: &ResponseEnvelope, test: &TestCase) -> Result<(), ValidationError> {
    let text = open_envelope(&project().secret_key, Ok(envelope.clone()))?;
    check_status(Ok(read_status(&text)), &test.response)
}

#[test]
fn request_is_signed_with_the_secret_key() {
    let p = project();
    let t = test_case("ok");
    let req = build_request(&p, &t).unwrap();
    assert_eq!(req.project_name, "proj");
    assert_eq!(decode_payload(&req.payment_info).unwrap(), purchase_json(&t.purchase));
    assert_eq!(req.payment_info_signature, sign_text(&req.payment_info, "abc"));
    assert_eq!(
        req.to_json(),
        format!(
            r#"{{"project_name":"proj","payment_info":"{}","payment_info_signature":"{}"}}"#,
            req.payment_info, req.payment_info_signature
        )
    );
}

#[test]
fn http_status_outside_2xx_fails_with_code_and_body() {
    assert_eq!(check_http_status(200, Ok("body".into())), Ok("body".to_string()));
    assert_eq!(check_http_status(299, Ok("b".into())), Ok("b".to_string()));
    assert_eq!(
        check_http_status(500, Ok("boom".into())),
        Err(ValidationError::HttpStatus { code: 500, body: Some("boom".into()) })
    );
    assert_eq!(
        check_http_status(404, Err("reset".into())),
        Err(ValidationError::HttpStatus { code: 404, body: None })
    );
    assert_eq!(
        check_http_status(204, Err("reset".into())),
        Err(ValidationError::Transport("reset".into()))
    );
    assert_eq!(check_http_status(300, Ok(String::new())).unwrap_err().kind(), ErrorKind::HttpStatus);
}

#[test]
fn stub_server_correctly_signed_ok_passes() {
    let envelope = stub_envelope(r#"{"status":"ok"}"#, "abc");
    assert_eq!(validate_against(&envelope, &test_case("ok")), Ok(()));
}

#[test]
fn stub_server_signed_with_other_key_is_signature_mismatch() {
    let envelope = stub_envelope(r#"{"status":"ok"}"#, "another");
    let err = validate_against(&envelope, &test_case("ok")).unwrap_err();
    assert_eq!(err.kind(), ErrorKind::SignatureMismatch);
    assert_eq!(
        err,
        ValidationError::SignatureMismatch {
            calculated: sign_text(&envelope.validation_result, "abc"),
            received: envelope.validation_result_signature.clone(),
        }
    );
}

#[test]
fn stub_server_declined_is_status_mismatch() {
    let envelope = stub_envelope(r#"{"status":"declined"}"#, "abc");
    assert_eq!(
        validate_against(&envelope, &test_case("ok")),
        Err(ValidationError::StatusMismatch { received: "declined".into(), expected: "ok".into() })
    );
}

#[test]
fn uppercase_signature_is_accepted() {
    let mut envelope = stub_envelope(r#"{"status":"ok"}"#, "abc");
    envelope.validation_result_signature = envelope.validation_result_signature.to_uppercase();
    assert_eq!(validate_against(&envelope, &test_case("ok")), Ok(()));
}

#[test]
fn signed_garbage_payload_is_encoding_error() {
    let validation_result = "%%%".to_string();
    let envelope = ResponseEnvelope {
        message: Some("m".into()),
        timestamp: 0,
        datetime: "d".into(),
        validation_result_signature: sign_text(&validation_result, "abc"),
        validation_result,
    };
    assert_eq!(open_envelope("abc", Ok(envelope)), Err(ValidationError::Encoding));
}

#[test]
fn unparsed_documents_are_protocol_errors() {
    assert_eq!(
        open_envelope("abc", Err("expected value".into())),
        Err(ValidationError::Protocol("expected value".into()))
    );
    let expected = ResponseData::new("ok".into()).unwrap();
    assert_eq!(
        check_status(Err("missing field `status`".into()), &expected),
        Err(ValidationError::Protocol("missing field `status`".into()))
    );
    let err = check_status(Err("x".into()), &expected).unwrap_err();
    assert_eq!(err.kind(), ErrorKind::Protocol);
}

fn field(v: &serde_json::Value, name: &str) -> Result<String, String> {
    v[name].as_str().map(|s| s.to_string()).ok_or(format!("missing field `{name}`"))
}

fn read_envelope(text: &String) -> Result<ResponseEnvelope, String> {
    let v: serde_json::Value = serde_json::from_str(text).map_err(|e| e.to_string())?;
    Ok(ResponseEnvelope {
        message: v["message"].as_str().map(|s| s.to_string()),
        timestamp: v["timestamp"].as_i64().ok_or("missing field `timestamp`")?,
        datetime: field(&v, "datetime")?,
        validation_result: field(&v["data"], "validation_result")?,
        validation_result_signature: field(&v["data"], "validation_result_signature")?,
    })
}

fn read_decision(text: &String) -> Result<PurchaseStatus, String> {
    let v: serde_json::Value = serde_json::from_str(text).map_err(|e| e.to_string())?;
    Ok(PurchaseStatus { status: field(&v, "status")?, description: None, payload: None })
}

/// The body that a stub server answers: `inner` as payload, signed with `key`.
fn stub_body(inner: &str, key: &str) -> String {
    let e = stub_envelope(inner, key);
    format!(
        r#"{{"message":null,"timestamp":1700000000,"datetime":"2023-11-14T22:13:20Z","data":{{"validation_result":"{}","validation_result_signature":"{}"}}}}"#,
        e.validation_result, e.validation_result_signature
    )
}

fn conclude_with(code: u16, body: Result<String, String>) -> Result<(), ValidationError> {
    let expected = ResponseData::new("ok".into()).unwrap();
    conclude("abc", &expected, code, body, read_envelope, read_decision)
}

#[test]
fn conclude_passes_correctly_signed_ok() {
    assert_eq!(conclude_with(200, Ok(stub_body(r#"{"status":"ok"}"#, "abc"))), Ok(()));
}

#[test]
fn conclude_reports_signature_mismatch_for_other_key() {
    let err = conclude_with(200, Ok(stub_body(r#"{"status":"ok"}"#, "xyz"))).unwrap_err();
    assert_eq!(err.kind(), ErrorKind::SignatureMismatch);
}

#[test]
fn conclude_reports_status_mismatch_declined() {
    assert_eq!(
        conclude_with(200, Ok(stub_body(r#"{"status":"declined"}"#, "abc"))),
        Err(ValidationError::StatusMismatch { received: "declined".into(), expected: "ok".into() })
    );
}

#[test]
fn conclude_reports_http_status_protocol_and_transport() {
    let body = stub_body(r#"{"status":"ok"}"#, "abc");
    assert_eq!(conclude_with(503, Ok(body.clone())).unwrap_err().kind(), ErrorKind::HttpStatus);
    assert_eq!(conclude_with(200, Ok("not json".into())).unwrap_err().kind(), ErrorKind::Protocol);
    assert_eq!(
        conclude_with(200, Ok(stub_body(r#"{"state":"ok"}"#, "abc"))).unwrap_err().kind(),
        ErrorKind::Protocol
    );
    assert_eq!(
        conclude_with(200, Err("closed".into())),
        Err(ValidationError::Transport("closed".into()))
    );
}
