//! One validation of a test case against the server. The caller sends the
//! request and reads JSON documents into values; every decision is taken
//! here, step by step, from what came back, and `conclude` runs the steps
//! that follow the server's answer.

use vstd::prelude::*;
use vstd::pervasive::arbitrary;
use vstd::string::*;
use vstd::utf8::*;
use crate::codec::{
    canonical_json, decode_payload, encode_payload, encoded_payload, json_member, payload_text,
    push_member, same_signature, sign_text, signatures_agree, text_signature, base64_fits,
};
use crate::model::{ProjectInfo, ResponseData, TestCase};

verus! {

/// Why the validation of one test case failed.
#[derive(Debug, Clone, PartialEq, Eq)]
pub enum ValidationError {
    /// The request payload could not be serialised.
    Serialization,
    /// The request could not be sent, or the response body could not be read.
    Transport(String),
    /// The server answered with a status outside 2xx.
    HttpStatus { code: u16, body: Option<String> },
    /// A JSON document of the response does not have the expected shape.
    Protocol(String),
    /// The response payload is not valid base64, or not valid UTF-8.
    Encoding,
    /// The response payload is not signed with the project's secret key.
    SignatureMismatch { calculated: String, received: String },
    /// The server decided another status than the test case expects.
    StatusMismatch { received: String, expected: String },
}

/// The kind of a validation error, without its details.
#[derive(Debug, Clone, Copy, PartialEq, Eq)]
pub enum ErrorKind {
    Serialization,
    Transport,
    HttpStatus,
    Protocol,
    Encoding,
    SignatureMismatch,
    StatusMismatch,
}

pub open spec fn error_kind(e: ValidationError) -> ErrorKind {
    match e {
        ValidationError::Serialization => ErrorKind::Serialization,
        ValidationError::Transport(_) => ErrorKind::Transport,
        ValidationError::HttpStatus { .. } => ErrorKind::HttpStatus,
        ValidationError::Protocol(_) => ErrorKind::Protocol,
        ValidationError::Encoding => ErrorKind::Encoding,
        ValidationError::SignatureMismatch { .. } => ErrorKind::SignatureMismatch,
        ValidationError::StatusMismatch { .. } => ErrorKind::StatusMismatch,
    }
}

impl ValidationError {
    pub fn kind(&self) -> (r: ErrorKind)
        ensures
            r == error_kind(*self),
    {
        match self {
            ValidationError::Serialization => ErrorKind::Serialization,
            ValidationError::Transport(_) => ErrorKind::Transport,
            ValidationError::HttpStatus { .. } => ErrorKind::HttpStatus,
            ValidationError::Protocol(_) => ErrorKind::Protocol,
            ValidationError::Encoding => ErrorKind::Encoding,
            ValidationError::SignatureMismatch { .. } => ErrorKind::SignatureMismatch,
            ValidationError::StatusMismatch { .. } => ErrorKind::StatusMismatch,
        }
    }
}

/// The body of the request: the project's name, the encoded receipt and its
/// signature.
#[derive(Debug, Clone, PartialEq, Eq)]
pub struct RequestEnvelope {
    pub project_name: String,
    pub payment_info: String,
    pub payment_info_signature: String,
}

impl RequestEnvelope {
    /// The JSON text of the request body, members in declaration order.
    pub open spec fn json(&self) -> Seq<char> {
        seq!['{'] + json_member("project_name"@, self.project_name@) + seq![','] + json_member(
            "payment_info"@,
            self.payment_info@,
        ) + seq![','] + json_member("payment_info_signature"@, self.payment_info_signature@)
            + seq!['}']
    }

    /// Writes the JSON text of the request body.
    pub fn to_json(&self) -> (r: String)
        ensures
            r@ == self.json(),
    {
        proof {
            reveal_strlit("{");
            reveal_strlit(",");
            reveal_strlit("}");
        }
        let mut out = String::new();
        out.append("{");
        push_member(&mut out, "project_name", self.project_name.as_str());
        out.append(",");
        push_member(&mut out, "payment_info", self.payment_info.as_str());
        out.append(",");
        push_member(&mut out, "payment_info_signature", self.payment_info_signature.as_str());
        out.append("}");
        assert(out@ =~= self.json());
        out
    }
}

/// Builds the signed request for a test case: the receipt's canonical JSON
/// as a payload, signed with the project's secret key.
pub fn build_request(project: &ProjectInfo, test: &TestCase) -> (r: Result<
    RequestEnvelope,
    ValidationError,
>)
    ensures
        base64_fits(encode_utf8(canonical_json(test.purchase)).len()) ==> {
            &&& r is Ok
            &&& r->Ok_0.project_name@ == project.name@
            &&& r->Ok_0.payment_info@ == encoded_payload(canonical_json(test.purchase))
            &&& r->Ok_0.payment_info_signature@ == text_signature(
                r->Ok_0.payment_info@,
                project.secret_key@,
            )
        },
        !base64_fits(encode_utf8(canonical_json(test.purchase)).len()) ==> r == Err::<
            RequestEnvelope,
            _,
        >(ValidationError::Serialization),
{
    let payment_info = match encode_payload(&test.purchase) {
        Ok(p) => p,
        Err(e) => return Err(e),
    };
    let payment_info_signature = sign_text(payment_info.as_str(), project.secret_key.as_str());
    Ok(RequestEnvelope {
        project_name: project.name.clone(),
        payment_info,
        payment_info_signature,
    })
}

pub open spec fn is_success_status(code: u16) -> bool {
    200 <= code && code <= 299
}

/// The error that the HTTP answer brings, if any: a status outside 2xx, or a
/// body that could not be read.
pub open spec fn reply_outcome(code: u16, body_read: bool) -> Option<ErrorKind> {
    if !is_success_status(code) {
        Some(ErrorKind::HttpStatus)
    } else if !body_read {
        Some(ErrorKind::Transport)
    } else {
        None
    }
}

/// Looks at the HTTP status of the answer. A 2xx status hands on the body
/// text, or the error met while reading it; any other status is an error
/// that carries the code and the body, when it could be read.
pub fn check_http_status(code: u16, body: Result<String, String>) -> (r: Result<
    String,
    ValidationError,
>)
    ensures
        is_success_status(code) ==> match body {
            Ok(text) => r == Ok::<String, ValidationError>(text),
            Err(detail) => r == Err::<String, _>(ValidationError::Transport(detail)),
        },
        !is_success_status(code) ==> r == Err::<String, _>(
            ValidationError::HttpStatus {
                code,
                body: match body {
                    Ok(text) => Some(text),
                    Err(_) => None,
                },
            },
        ),
        r is Err <==> reply_outcome(code, body is Ok) is Some,
        r is Err ==> reply_outcome(code, body is Ok) == Some(error_kind(r->Err_0)),
{
    if 200 <= code && code <= 299 {
        match body {
            Ok(text) => Ok(text),
            Err(detail) => Err(ValidationError::Transport(detail)),
        }
    } else {
        let body = match body {
            Ok(text) => Some(text),
            Err(_) => None,
        };
        Err(ValidationError::HttpStatus { code, body })
    }
}

/// The outer JSON document of a successful answer, as read by the caller.
#[derive(Debug, Clone, PartialEq, Eq)]
pub struct ResponseEnvelope {
    pub message: Option<String>,
    /// Seconds since the epoch.
    pub timestamp: i64,
    pub datetime: String,
    /// The encoded payload that carries the decision.
    pub validation_result: String,
    /// The server's signature of `validation_result`.
    pub validation_result_signature: String,
}

/// The value of a successful parse, nothing for a failed one.
pub open spec fn parsed_value<T>(parsed: Result<T, String>) -> Option<T> {
    match parsed {
        Ok(v) => Some(v),
        Err(_) => None,
    }
}

/// The error that the outer document brings, if any: it does not parse, its
/// payload is not signed with the secret key, or the payload does not decode.
pub open spec fn envelope_outcome(
    secret_key: Seq<char>,
    envelope: Option<ResponseEnvelope>,
) -> Option<ErrorKind> {
    match envelope {
        None => Some(ErrorKind::Protocol),
        Some(e) => if !signatures_agree(
            text_signature(e.validation_result@, secret_key),
            e.validation_result_signature@,
        ) {
            Some(ErrorKind::SignatureMismatch)
        } else if payload_text(e.validation_result@) is None {
            Some(ErrorKind::Encoding)
        } else {
            None
        },
    }
}

/// Checks the signature of the answer's payload against the project's secret
/// key, then decodes the payload into the JSON text of the decision. `parsed`
/// is the outer document as the JSON reader gave it, or the reader's message.
pub fn open_envelope(secret_key: &str, parsed: Result<ResponseEnvelope, String>) -> (r: Result<
    String,
    ValidationError,
>)
    ensures
        r is Err <==> envelope_outcome(secret_key@, parsed_value(parsed)) is Some,
        r is Err ==> envelope_outcome(secret_key@, parsed_value(parsed)) == Some(
            error_kind(r->Err_0),
        ),
        match parsed {
            Err(detail) => r == Err::<String, _>(ValidationError::Protocol(detail)),
            Ok(envelope) => {
                &&& !signatures_agree(
                    text_signature(envelope.validation_result@, secret_key@),
                    envelope.validation_result_signature@,
                ) ==> match r {
                    Err(ValidationError::SignatureMismatch { calculated, received }) => {
                        &&& calculated@ == text_signature(
                            envelope.validation_result@,
                            secret_key@,
                        )
                        &&& received@ == envelope.validation_result_signature@
                    },
                    _ => false,
                }
                &&& signatures_agree(
                    text_signature(envelope.validation_result@, secret_key@),
                    envelope.validation_result_signature@,
                ) ==> match payload_text(envelope.validation_result@) {
                    Some(text) => r is Ok && r->Ok_0@ == text,
                    None => r == Err::<String, _>(ValidationError::Encoding),
                }
            },
        },
{
    let envelope = match parsed {
        Ok(e) => e,
        Err(detail) => return Err(ValidationError::Protocol(detail)),
    };
    let calculated = sign_text(envelope.validation_result.as_str(), secret_key);
    if !same_signature(calculated.as_str(), envelope.validation_result_signature.as_str()) {
        return Err(
            ValidationError::SignatureMismatch {
                calculated,
                received: envelope.validation_result_signature,
            },
        );
    }
    decode_payload(envelope.validation_result.as_str())
}

/// The decision that the server signed, as read by the caller from the
/// decoded payload.
#[derive(Debug, Clone, PartialEq, Eq)]
pub struct PurchaseStatus {
    pub status: String,
    pub description: Option<String>,
    pub payload: Option<Vec<String>>,
}

/// The status that a parse of the decision gives, nothing for a failed one.
pub open spec fn decided_status(parsed: Result<PurchaseStatus, String>) -> Option<Seq<char>> {
    match parsed {
        Ok(d) => Some(d.status@),
        Err(_) => None,
    }
}

/// The error that the decision brings, if any: it does not parse, or its
/// status is not the expected one.
pub open spec fn decision_outcome(expected: Seq<char>, decided: Option<Seq<char>>) -> Option<
    ErrorKind,
> {
    match decided {
        None => Some(ErrorKind::Protocol),
        Some(status) => if status == expected {
            None
        } else {
            Some(ErrorKind::StatusMismatch)
        },
    }
}

/// Compares the decided status with the expected one, exactly. `parsed` is
/// the decision as the JSON reader gave it, or the reader's message.
pub fn check_status(parsed: Result<PurchaseStatus, String>, expected: &ResponseData) -> (r: Result<
    (),
    ValidationError,
>)
    ensures
        r is Err <==> decision_outcome(expected.status@, decided_status(parsed)) is Some,
        r is Err ==> decision_outcome(expected.status@, decided_status(parsed)) == Some(
            error_kind(r->Err_0),
        ),
        match parsed {
            Err(detail) => r == Err::<(), _>(ValidationError::Protocol(detail)),
            Ok(decided) => {
                &&& decided.status@ == expected.status@ ==> r is Ok
                &&& decided.status@ != expected.status@ ==> match r {
                    Err(ValidationError::StatusMismatch { received, expected: wanted }) => {
                        &&& received@ == decided.status@
                        &&& wanted@ == expected.status@
                    },
                    _ => false,
                }
            },
        },
{
    let decided = match parsed {
        Ok(d) => d,
        Err(detail) => return Err(ValidationError::Protocol(detail)),
    };
    if decided.status == expected.status {
        Ok(())
    } else {
        Err(
            ValidationError::StatusMismatch {
                received: decided.status,
                expected: expected.status.clone(),
            },
        )
    }
}

/// What one validation comes to when its steps run in order and the first
/// error ends it: nothing when the test case passed, otherwise the kind of
/// that error. The arguments are what came back: the HTTP status, whether
/// the body could be read, the outer document (nothing when it does not
/// parse) and the status of the decoded decision (nothing when it does not
/// parse).
pub open spec fn validation_outcome(
    secret_key: Seq<char>,
    expected: Seq<char>,
    code: u16,
    body_read: bool,
    envelope: Option<ResponseEnvelope>,
    decided: Option<Seq<char>>,
) -> Option<ErrorKind> {
    if reply_outcome(code, body_read) is Some {
        reply_outcome(code, body_read)
    } else if envelope_outcome(secret_key, envelope) is Some {
        envelope_outcome(secret_key, envelope)
    } else {
        decision_outcome(expected, decided)
    }
}

/// The kind of error that a validation ended with, nothing when it passed.
pub open spec fn outcome_of(r: Result<(), ValidationError>) -> Option<ErrorKind> {
    match r {
        Ok(_) => None,
        Err(e) => Some(error_kind(e)),
    }
}

/// Concludes a validation from the server's answer: the HTTP status and the
/// body (or the error met while reading it). The caller supplies the JSON
/// reader, for the outer document and for the decoded decision. The steps
/// run in order and the first error ends the validation; the outcome is
/// `validation_outcome` of what the readers gave.
pub fn conclude<R, D>(
    secret_key: &str,
    expected: &ResponseData,
    code: u16,
    body: Result<String, String>,
    read_envelope: R,
    read_decision: D,
) -> (r: Result<(), ValidationError>) where
    R: Fn(&String) -> Result<ResponseEnvelope, String>,
    D: Fn(&String) -> Result<PurchaseStatus, String>,

    requires
        forall|text: &String| read_envelope.requires((text,)),
        forall|text: &String| read_decision.requires((text,)),
    ensures
        exists|envelope: Result<ResponseEnvelope, String>, decision: Result<
            PurchaseStatus,
            String,
        >|
            {
                &&& reply_outcome(code, body is Ok) is None ==> read_envelope.ensures(
                    (&body->Ok_0,),
                    envelope,
                )
                &&& reply_outcome(code, body is Ok) is None && envelope_outcome(
                    secret_key@,
                    parsed_value(envelope),
                ) is None ==> exists|text: String|
                    text@ == payload_text(envelope->Ok_0.validation_result@)->Some_0
                        && read_decision.ensures((&text,), decision)
                &&& outcome_of(r) == validation_outcome(
                    secret_key@,
                    expected.status@,
                    code,
                    body is Ok,
                    parsed_value(envelope),
                    decided_status(decision),
                )
            },
{
    let body_read = Ghost(body is Ok);
    let text = match check_http_status(code, body) {
        Ok(t) => t,
        Err(e) => {
            let ghost envelope: Result<ResponseEnvelope, String> = arbitrary();
            let ghost decision: Result<PurchaseStatus, String> = arbitrary();
            assert(outcome_of(Err(e)) == validation_outcome(
                secret_key@,
                expected.status@,
                code,
                body_read@,
                parsed_value(envelope),
                decided_status(decision),
            ));
            return Err(e);
        },
    };
    let envelope = read_envelope(&text);
    let ghost envelope_read = envelope;
    let decoded = match open_envelope(secret_key, envelope) {
        Ok(d) => d,
        Err(e) => {
            let ghost decision: Result<PurchaseStatus, String> = arbitrary();
            assert(outcome_of(Err(e)) == validation_outcome(
                secret_key@,
                expected.status@,
                code,
                body_read@,
                parsed_value(envelope_read),
                decided_status(decision),
            ));
            return Err(e);
        },
    };
    let decision = read_decision(&decoded);
    let ghost decision_read = decision;
    let r = check_status(decision, expected);
    assert(outcome_of(r) == validation_outcome(
        secret_key@,
        expected.status@,
        code,
        body_read@,
        parsed_value(envelope_read),
        decided_status(decision_read),
    ));
    r
}

/// A validation passes exactly when the HTTP status is 2xx, the body is read,
/// the answer and its payload parse, the payload's signature agrees with the
/// one computed with the secret key, and the decided status equals the
/// expected one. When only the status code, only the outer document, only the
/// signature or only the decided status is wrong, the error names that one.
pub proof fn lemma_validation_outcome(
    secret_key: Seq<char>,
    expected: Seq<char>,
    code: u16,
    body_read: bool,
    envelope: Option<ResponseEnvelope>,
    decided: Option<Seq<char>>,
)
    ensures
        validation_outcome(secret_key, expected, code, body_read, envelope, decided) is None
            <==> {
            &&& is_success_status(code)
            &&& body_read
            &&& envelope is Some
            &&& signatures_agree(
                text_signature(envelope->Some_0.validation_result@, secret_key),
                envelope->Some_0.validation_result_signature@,
            )
            &&& payload_text(envelope->Some_0.validation_result@) is Some
            &&& decided == Some(expected)
        },
        !is_success_status(code) ==> validation_outcome(
            secret_key,
            expected,
            code,
            body_read,
            envelope,
            decided,
        ) == Some(ErrorKind::HttpStatus),
        is_success_status(code) && body_read && envelope is None ==> validation_outcome(
            secret_key,
            expected,
            code,
            body_read,
            envelope,
            decided,
        ) == Some(ErrorKind::Protocol),
        is_success_status(code) && body_read && envelope is Some && !signatures_agree(
            text_signature(envelope->Some_0.validation_result@, secret_key),
            envelope->Some_0.validation_result_signature@,
        ) ==> validation_outcome(secret_key, expected, code, body_read, envelope, decided)
            == Some(ErrorKind::SignatureMismatch),
        is_success_status(code) && body_read && envelope is Some && signatures_agree(
            text_signature(envelope->Some_0.validation_result@, secret_key),
            envelope->Some_0.validation_result_signature@,
        ) && payload_text(envelope->Some_0.validation_result@) is Some && decided is Some
            && decided->Some_0 != expected ==> validation_outcome(
            secret_key,
            expected,
            code,
            body_read,
            envelope,
            decided,
        ) == Some(ErrorKind::StatusMismatch),
{
}

} // verus!
