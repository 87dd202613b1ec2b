use dropboxsign_rs::client::{
    error_from_document, parse_response, read_error, read_reply, unreadable_body,
    unwrap_envelope, DropboxSignClientError, HttpMethod, ParseFailure,
};
use dropboxsign_rs::decode::FromJson;
use dropboxsign_rs::encode::ToJson;
use dropboxsign_rs::json::Json;
use dropboxsign_rs::signature_request::{
    SendSignatureRequest, SignatureRequestResponse, SubSignatureRequestTemplateSigner,
};
use dropboxsign_rs::{
    DropboxSignClient, ErrorResponse, ErrorResponseError, ResponseWithWarnings, WarningResponse,
};

const MINIMAL: &str = r#"{"signature_request":{"signature_request_id":"abc123", "title":"T","original_title":"T","metadata":{},"created_at":1,"is_complete":false,"is_declined":false,"has_error":false,"files_url":"u","details_url":"u","cc_email_addresses":[],"signatures":[]}}"#;

const PAYLOAD: &str = r#"{"signature_request_id":"abc123","title":"T","original_title":"T","metadata":{},"created_at":1,"is_complete":false,"is_declined":false,"has_error":false,"files_url":"u","details_url":"u","cc_email_addresses":[],"signatures":[]}"#;

fn one_signer_request() -> SendSignatureRequest {
    let signer = SubSignatureRequestTemplateSigner::new(
        "Signer".to_string(),
        "John Doe".to_string(),
        "john@example.com".to_string(),
    );
    SendSignatureRequest::new(vec![signer], vec!["template-id".to_string()])
}

#[test]
fn send_with_template_success_returns_record_without_warnings() {
    let client = DropboxSignClient::new("key");
    let call = client.send_with_template(one_signer_request()).unwrap();
    assert_eq!(call.method, HttpMethod::Post);
    assert_eq!(call.url, "https://api.hellosign.com/v3/signature_request/send_with_template");
    let (record, warnings) = client.read_signature_request(200, MINIMAL).unwrap();
    assert_eq!(record.signature_request_id, "abc123");
    assert_eq!(record.title, "T");
    assert_eq!(record.original_title, "T");
    assert_eq!(record.created_at, 1);
    assert!(!record.is_complete && !record.is_declined && !record.has_error);
    assert!(record.metadata.is_empty());
    assert!(record.signatures.is_empty());
    assert!(record.test_mode.is_none());
    assert!(record.expires_at.is_none());
    assert!(warnings.is_none());
}

#[test]
fn send_with_template_invalid_template_is_provider_error() {
    let client = DropboxSignClient::new("key");
    let _ = client.send_with_template(one_signer_request()).unwrap();
    let body = r#"{"error":{"error_msg":"Invalid template","error_name":"invalid_params"}}"#;
    match client.read_signature_request(400, body) {
        Err(DropboxSignClientError::ResponseError(e)) => {
            assert_eq!(e.status, 400);
            assert_eq!(e.error_name, "invalid_params");
            assert_eq!(e.error_msg, "Invalid template");
            assert_eq!(e.error_path, None);
        }
        other => panic!("expected a provider error, got {:?}", other),
    }
}

#[test]
fn get_signature_request_empty_object_is_missing_key() {
    let client = DropboxSignClient::new("key");
    let call = client.get_signature_request("missing-id");
    assert_eq!(call.method, HttpMethod::Get);
    assert_eq!(call.url, "https://api.hellosign.com/v3/signature_request/missing-id");
    assert!(call.body.is_none());
    match client.read_signature_request(200, "{}") {
        Err(DropboxSignClientError::Other(ParseFailure::MissingKey(key))) => {
            assert_eq!(key, "signature_request");
        }
        other => panic!("expected a missing key, got {:?}", other),
    }
}

#[test]
fn requests_carry_basic_auth_with_empty_password() {
    let client = DropboxSignClient::new("secret-key");
    let get = client.get_signature_request("id-1");
    assert_eq!(get.username, "secret-key");
    assert_eq!(get.password, "");
    let post = client.send_with_template_request("{}".to_string());
    assert_eq!(post.username, "secret-key");
    assert_eq!(post.password, "");
    assert_eq!(post.body.as_deref(), Some("{}"));
    assert_eq!(post.method, HttpMethod::Post);
}

#[test]
fn new_client_has_default_pool_and_timeout() {
    let client = DropboxSignClient::new("k");
    assert_eq!(client.api_key, "k");
    assert_eq!(client.pool, 5);
    assert_eq!(client.timeout, 30);
    let client = client.with_pool(10).with_timeout(60);
    assert_eq!(client.api_key, "k");
    assert_eq!(client.pool, 10);
    assert_eq!(client.timeout, 60);
}

#[test]
fn warnings_keep_their_order() {
    let body = format!(
        r#"{{"warnings":[{{"warning_msg":"first","warning_name":"a"}},{{"warning_msg":"second","warning_name":"b"}},{{"warning_msg":"third","warning_name":"c"}}],"signature_request":{}}}"#,
        PAYLOAD
    );
    let (record, warnings) =
        parse_response::<SignatureRequestResponse>(&body, "signature_request").unwrap();
    assert_eq!(record.signature_request_id, "abc123");
    let warnings = warnings.unwrap();
    assert_eq!(warnings.len(), 3);
    assert_eq!(warnings[0].warning_msg, "first");
    assert_eq!(warnings[0].warning_name, "a");
    assert_eq!(warnings[1].warning_msg, "second");
    assert_eq!(warnings[2].warning_name, "c");
}

#[test]
fn empty_warnings_list_is_an_empty_list() {
    let body = format!(r#"{{"signature_request":{},"warnings":[]}}"#, PAYLOAD);
    let (_, warnings) =
        parse_response::<SignatureRequestResponse>(&body, "signature_request").unwrap();
    assert_eq!(warnings.unwrap().len(), 0);
}

#[test]
fn no_warnings_key_gives_none() {
    let (_, warnings) =
        parse_response::<SignatureRequestResponse>(MINIMAL, "signature_request").unwrap();
    assert!(warnings.is_none());
}

#[test]
fn missing_payload_key_fails_whatever_the_status() {
    let body = r#"{"something_else":{},"warnings":[]}"#;
    for status in [200u16, 201, 400, 500] {
        let _ = status;
        match parse_response::<SignatureRequestResponse>(body, "signature_request") {
            Err(ParseFailure::MissingKey(k)) => assert_eq!(k, "signature_request"),
            other => panic!("expected a missing key, got {:?}", other),
        }
    }
    match read_reply::<SignatureRequestResponse>(204, body, "signature_request") {
        Err(DropboxSignClientError::Other(ParseFailure::MissingKey(k))) => {
            assert_eq!(k, "signature_request")
        }
        other => panic!("expected a missing key, got {:?}", other),
    }
}

#[test]
fn payload_under_another_key_is_found_by_that_key() {
    let body = r#"{"warning":{"warning_msg":"m","warning_name":"n"}}"#;
    let (w, none) = parse_response::<WarningResponse>(body, "warning").unwrap();
    assert_eq!(w.warning_msg, "m");
    assert_eq!(w.warning_name, "n");
    assert!(none.is_none());
}

#[test]
fn invalid_json_is_a_parse_failure() {
    match parse_response::<SignatureRequestResponse>("not json", "signature_request") {
        Err(ParseFailure::InvalidJson(_)) => {}
        other => panic!("expected invalid JSON, got {:?}", other),
    }
    match read_reply::<SignatureRequestResponse>(200, "{", "signature_request") {
        Err(DropboxSignClientError::Other(ParseFailure::InvalidJson(_))) => {}
        other => panic!("expected invalid JSON, got {:?}", other),
    }
}

#[test]
fn payload_of_another_shape_is_a_parse_failure() {
    let body = r#"{"signature_request":{"signature_request_id":"abc123"}}"#;
    match parse_response::<SignatureRequestResponse>(body, "signature_request") {
        Err(ParseFailure::PayloadShape) => {}
        other => panic!("expected a payload shape failure, got {:?}", other),
    }
    let body = r#"{"signature_request":"abc123"}"#;
    match parse_response::<SignatureRequestResponse>(body, "signature_request") {
        Err(ParseFailure::PayloadShape) => {}
        other => panic!("expected a payload shape failure, got {:?}", other),
    }
}

#[test]
fn warnings_of_another_shape_are_a_parse_failure() {
    for warnings in [r#"null"#, r#"{}"#, r#"[{"warning_msg":"m"}]"#, r#"[1]"#] {
        let body = format!(r#"{{"signature_request":{},"warnings":{}}}"#, PAYLOAD, warnings);
        match parse_response::<SignatureRequestResponse>(&body, "signature_request") {
            Err(ParseFailure::WarningsShape) => {}
            other => panic!("expected a warnings shape failure, got {:?}", other),
        }
    }
}

#[test]
fn provider_error_keeps_message_name_path_and_status() {
    let body = r#"{"error":{"error_msg":"Bad field","error_path":"signers[0].email_address","error_name":"bad_request"}}"#;
    for status in [199u16, 300, 401, 404, 422, 500] {
        match read_error(status, body) {
            DropboxSignClientError::ResponseError(e) => {
                assert_eq!(e.status, status);
                assert_eq!(e.error_msg, "Bad field");
                assert_eq!(e.error_name, "bad_request");
                assert_eq!(e.error_path.as_deref(), Some("signers[0].email_address"));
            }
            other => panic!("expected a provider error, got {:?}", other),
        }
    }
}

#[test]
fn provider_error_with_null_path_has_no_path() {
    let body = r#"{"error":{"error_msg":"m","error_path":null,"error_name":"n"}}"#;
    let doc = Json::parse(body).unwrap();
    match error_from_document(403, &doc) {
        DropboxSignClientError::ResponseError(e) => {
            assert_eq!(e.status, 403);
            assert_eq!(e.error_path, None);
        }
        other => panic!("expected a provider error, got {:?}", other),
    }
}

#[test]
fn failed_call_with_unreadable_body() {
    match read_error(500, "<html>") {
        DropboxSignClientError::Serde(_) => {}
        other => panic!("expected a JSON error, got {:?}", other),
    }
    match read_error(500, r#"{"error":{"error_msg":"m"}}"#) {
        DropboxSignClientError::Other(ParseFailure::ErrorShape) => {}
        other => panic!("expected an error shape failure, got {:?}", other),
    }
    match read_error(500, r#"{"signature_request":{}}"#) {
        DropboxSignClientError::Other(ParseFailure::ErrorShape) => {}
        other => panic!("expected an error shape failure, got {:?}", other),
    }
}

#[test]
fn every_status_from_200_to_299_is_a_success() {
    for status in [200u16, 201, 204, 299] {
        let (record, _) =
            read_reply::<SignatureRequestResponse>(status, MINIMAL, "signature_request").unwrap();
        assert_eq!(record.signature_request_id, "abc123");
    }
    for status in [100u16, 199, 300, 400] {
        assert!(read_reply::<SignatureRequestResponse>(status, MINIMAL, "signature_request")
            .is_err());
    }
}

#[test]
fn unwrap_envelope_on_a_document_built_by_hand() {
    let doc = Json::Object(vec![
        (
            "warnings".to_string(),
            Json::Array(vec![Json::Object(vec![
                ("warning_name".to_string(), Json::Str("n".to_string())),
                ("warning_msg".to_string(), Json::Str("m".to_string())),
            ])]),
        ),
        (
            "item".to_string(),
            Json::Object(vec![
                ("warning_msg".to_string(), Json::Str("payload".to_string())),
                ("warning_name".to_string(), Json::Str("p".to_string())),
                ("unknown".to_string(), Json::Null),
            ]),
        ),
    ]);
    let (item, warnings) = unwrap_envelope::<WarningResponse>(&doc, "item").unwrap();
    assert_eq!(item.warning_msg, "payload");
    assert_eq!(item.warning_name, "p");
    let warnings = warnings.unwrap();
    assert_eq!(warnings.len(), 1);
    assert_eq!(warnings[0].warning_msg, "m");
    assert!(matches!(
        unwrap_envelope::<WarningResponse>(&doc, "other"),
        Err(ParseFailure::MissingKey(_))
    ));
    assert!(matches!(
        unwrap_envelope::<WarningResponse>(&doc, "warnings"),
        Err(ParseFailure::PayloadShape)
    ));
}

#[test]
fn warning_and_error_read_as_one_line() {
    let w = WarningResponse { warning_msg: "Deprecated".to_string(), warning_name: "old".to_string() };
    assert_eq!(w.display(), "Deprecated (old)");
    let e = ErrorResponseError {
        status: 400,
        error_msg: "Invalid template".to_string(),
        error_path: None,
        error_name: "invalid_params".to_string(),
    };
    assert_eq!(e.display(), "invalid_params: Invalid template");
    let e = ErrorResponseError {
        status: 400,
        error_msg: "Bad".to_string(),
        error_path: Some("title".to_string()),
        error_name: "bad_request".to_string(),
    };
    assert_eq!(e.display(), "bad_request (title): Bad");
    let e = e.with_status(404);
    assert_eq!(e.status, 404);
    assert_eq!(e.error_msg, "Bad");
    assert_eq!(e.error_path.as_deref(), Some("title"));
    assert_eq!(e.error_name, "bad_request");
}

#[test]
fn body_that_cannot_be_delivered() {
    match unreadable_body(200, "connection reset".to_string()) {
        DropboxSignClientError::Other(ParseFailure::NoBody(reason)) => {
            assert_eq!(reason, "connection reset")
        }
        other => panic!("expected a parse failure, got {:?}", other),
    }
    match unreadable_body(502, "connection reset".to_string()) {
        DropboxSignClientError::Reqwest(reason) => assert_eq!(reason, "connection reset"),
        other => panic!("expected a transport error, got {:?}", other),
    }
}

#[test]
fn errors_in_words() {
    assert_eq!(
        ParseFailure::MissingKey("signature_request".to_string()).display(),
        "Missing key `signature_request` in response"
    );
    assert_eq!(ParseFailure::PayloadShape.display(), "payload does not have the expected shape");
    assert_eq!(ParseFailure::WarningsShape.display(), "warnings are not a list of warnings");
    assert_eq!(ParseFailure::ErrorShape.display(), "error body does not have the expected shape");
    assert_eq!(ParseFailure::NoBody("gone".to_string()).display(), "gone");
    assert_eq!(
        DropboxSignClientError::DropboxSignClient("500".to_string(), "oops".to_string()).display(),
        "non 200 status: 500 oops"
    );
    assert_eq!(
        DropboxSignClientError::Reqwest("timed out".to_string()).display(),
        "HTTP request error: timed out"
    );
    assert_eq!(
        DropboxSignClientError::Other(ParseFailure::MissingKey("k".to_string())).display(),
        "Other error: Missing key `k` in response"
    );
    let provider = ErrorResponseError {
        status: 400,
        error_msg: "Invalid template".to_string(),
        error_path: None,
        error_name: "invalid_params".to_string(),
    };
    assert_eq!(
        DropboxSignClientError::ResponseError(provider).display(),
        "DropboxSign error: invalid_params: Invalid template"
    );
    let json = read_error(500, "nope");
    assert!(json.display().starts_with("Json error: "));
    assert!(json.display().len() > "Json error: ".len());
    match parse_response::<WarningResponse>("[1,", "k") {
        Err(f) => assert!(!f.display().is_empty()),
        Ok(_) => panic!("expected a failure"),
    }
}

#[test]
fn payload_and_warnings_side_by_side() {
    let doc = Json::parse(
        r#"{"warning_msg":"m","warning_name":"n","warnings":[{"warning_msg":"w","warning_name":"x"}]}"#,
    )
    .unwrap();
    let both = ResponseWithWarnings::<WarningResponse>::from_json(&doc).unwrap();
    assert_eq!(both.inner.warning_msg, "m");
    assert_eq!(both.inner.warning_name, "n");
    let warnings = both.warnings.unwrap();
    assert_eq!(warnings.len(), 1);
    assert_eq!(warnings[0].warning_msg, "w");
    assert_eq!(warnings[0].warning_name, "x");
    let doc = Json::parse(r#"{"warning_msg":"m","warning_name":"n","warnings":null}"#).unwrap();
    let both = ResponseWithWarnings::<WarningResponse>::from_json(&doc).unwrap();
    assert!(both.warnings.is_none());
    let doc = Json::parse(r#"{"warning_msg":"m","warning_name":"n"}"#).unwrap();
    assert!(ResponseWithWarnings::<WarningResponse>::from_json(&doc).unwrap().warnings.is_none());
    let doc = Json::parse(r#"{"warning_msg":"m","warning_name":"n","warnings":3}"#).unwrap();
    assert!(ResponseWithWarnings::<WarningResponse>::from_json(&doc).is_none());
    let doc = Json::parse(r#"{"warning_msg":"m"}"#).unwrap();
    assert!(ResponseWithWarnings::<WarningResponse>::from_json(&doc).is_none());
}

#[test]
fn prepared_request_for_a_record_without_signers() {
    let client = DropboxSignClient::new("k");
    let request = SendSignatureRequest::new(vec![], vec!["t".to_string()]);
    let call = client.send_with_template(request).unwrap();
    assert_eq!(call.method, HttpMethod::Post);
    assert_eq!(call.url, "https://api.hellosign.com/v3/signature_request/send_with_template");
    assert_eq!(call.username, "k");
    assert_eq!(call.password, "");
    assert_eq!(call.body.as_deref(), Some(r#"{"signers":[],"template_ids":["t"]}"#));
}

#[test]
fn prepared_request_carries_set_fields_and_no_others() {
    let client = DropboxSignClient::new("k");
    let request = one_signer_request().title("T".to_string()).allow_decline(true);
    let call = client.send_with_template(request).unwrap();
    assert_eq!(
        call.body.as_deref(),
        Some(
            r#"{"allow_decline":true,"signers":[{"email_address":"john@example.com","name":"John Doe","role":"Signer"}],"template_ids":["template-id"],"title":"T"}"#
        )
    );
}

#[test]
fn plain_payloads_are_read() {
    let body = r#"{"count":7,"name":"n","done":true,"warnings":[]}"#;
    let (count, warnings) = parse_response::<u64>(body, "count").unwrap();
    assert_eq!(count, 7);
    assert_eq!(warnings.unwrap().len(), 0);
    let (name, _) = parse_response::<String>(body, "name").unwrap();
    assert_eq!(name, "n");
    let (done, _) = parse_response::<bool>(body, "done").unwrap();
    assert!(done);
    assert!(matches!(parse_response::<u64>(body, "name"), Err(ParseFailure::PayloadShape)));
    assert!(matches!(parse_response::<String>(body, "count"), Err(ParseFailure::PayloadShape)));
    assert!(matches!(parse_response::<bool>(body, "count"), Err(ParseFailure::PayloadShape)));
    assert!(matches!(parse_response::<bool>(body, "other"), Err(ParseFailure::MissingKey(_))));
    assert!(matches!(
        parse_response::<u64>(r#"{"count":-1}"#, "count"),
        Err(ParseFailure::PayloadShape)
    ));
}

#[test]
fn warnings_and_errors_are_written() {
    let w = WarningResponse { warning_msg: "m".to_string(), warning_name: "n".to_string() };
    assert_eq!(w.to_json().to_text().unwrap(), r#"{"warning_msg":"m","warning_name":"n"}"#);
    let e = ErrorResponseError {
        status: 400,
        error_msg: "m".to_string(),
        error_path: None,
        error_name: "n".to_string(),
    };
    assert_eq!(
        e.to_json().to_text().unwrap(),
        r#"{"error_msg":"m","error_name":"n","error_path":null}"#
    );
    let e = ErrorResponseError {
        status: 400,
        error_msg: "m".to_string(),
        error_path: Some("p".to_string()),
        error_name: "n".to_string(),
    };
    let envelope = ErrorResponse { error: e };
    let doc = envelope.to_json();
    assert_eq!(
        doc.to_text().unwrap(),
        r#"{"error":{"error_msg":"m","error_name":"n","error_path":"p"}}"#
    );
    match error_from_document(404, &doc) {
        DropboxSignClientError::ResponseError(read) => {
            assert_eq!(read.status, 404);
            assert_eq!(read.error_msg, "m");
            assert_eq!(read.error_path.as_deref(), Some("p"));
            assert_eq!(read.error_name, "n");
        }
        other => panic!("expected a provider error, got {:?}", other),
    }
}
