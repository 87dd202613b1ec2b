use dropboxsign_rs::decode::FromJson;
use dropboxsign_rs::encode::ToJson;
use dropboxsign_rs::json::{Json, JsonNumber};
use dropboxsign_rs::laws::written_and_read;
use dropboxsign_rs::signature_request::{
    SMSPhoneNumberType, SendSignatureRequest, SignatureRequestResponse,
    SignatureRequestResponseAttachment, SignatureRequestResponseCustomFieldBase,
    SignatureRequestResponseCustomFieldBaseType, SignatureRequestResponseData,
    SignatureRequestResponseDataType, SignatureRequestResponseSignatures, SubCC, SubCustomField,
    SubSignatureRequestTemplateSigner, SubSigningOptions, SubSigningOptionsDefaultType,
};

fn signer() -> SubSignatureRequestTemplateSigner {
    SubSignatureRequestTemplateSigner::new(
        "Signer".to_string(),
        "John Doe".to_string(),
        "john@example.com".to_string(),
    )
}

fn full_request() -> SendSignatureRequest {
    SendSignatureRequest::new(
        vec![
            signer()
                .pin("1234".to_string())
                .sms_phone_number("+15550100".to_string())
                .sms_phone_number_type(SMSPhoneNumberType::Delivery),
            signer(),
        ],
        vec!["t1".to_string(), "t2".to_string()],
    )
    .allow_decline(false)
    .ccs(vec![SubCC::new("Accounting".to_string(), "acc@example.com".to_string())])
    .client_id("client".to_string())
    .custom_fields(vec![
        SubCustomField::new("Cost".to_string())
            .editor("Signer".to_string())
            .required(true)
            .value("$20,000".to_string()),
        SubCustomField::new("Empty".to_string()),
    ])
    .files(vec![vec![0u8, 1, 255], vec![]])
    .file_urls(vec!["https://example.com/a.pdf".to_string()])
    .is_eid(true)
    .message("Please sign".to_string())
    .metadata(vec![
        ("b".to_string(), "2".to_string()),
        ("a".to_string(), "1".to_string()),
    ])
    .signing_options(
        SubSigningOptions::new(SubSigningOptionsDefaultType::Draw)
            .draw(true)
            .phone(false)
            .o_type(true)
            .upload(false),
    )
    .signing_redirect_url("https://example.com/done".to_string())
    .test_mode(true)
    .title("Contract".to_string())
}

#[test]
fn unset_fields_are_left_out_of_the_text() {
    let request = SendSignatureRequest::new(vec![signer()], vec!["template-id".to_string()]);
    let text = request.to_json().to_text().unwrap();
    assert_eq!(
        text,
        r#"{"signers":[{"email_address":"john@example.com","name":"John Doe","role":"Signer"}],"template_ids":["template-id"]}"#
    );
    assert!(!text.contains("null"));
    for key in [
        "allow_decline", "ccs", "client_id", "custom_fields", "files", "file_urls", "is_eid",
        "message", "metadata", "signing_options", "signing_redirect_url", "test_mode", "title",
        "pin", "sms_phone_number",
    ] {
        assert!(!text.contains(key), "{} is in the text", key);
    }
}

#[test]
fn unset_fields_are_left_out_of_the_document() {
    let request = SendSignatureRequest::new(vec![signer()], vec!["t".to_string()]);
    match request.to_json() {
        Json::Object(entries) => {
            let keys: Vec<&str> = entries.iter().map(|e| e.0.as_str()).collect();
            assert_eq!(keys, vec!["signers", "template_ids"]);
        }
        other => panic!("expected an object, got {:?}", other),
    }
    let request = request.title("T".to_string()).test_mode(false);
    match request.to_json() {
        Json::Object(entries) => {
            let keys: Vec<&str> = entries.iter().map(|e| e.0.as_str()).collect();
            assert_eq!(keys, vec!["signers", "template_ids", "test_mode", "title"]);
            assert_eq!(entries[2].1, Json::Bool(false));
            assert_eq!(entries[3].1, Json::Str("T".to_string()));
        }
        other => panic!("expected an object, got {:?}", other),
    }
}

#[test]
fn set_fields_are_written_under_their_wire_names() {
    let text = SubSigningOptions::new(SubSigningOptionsDefaultType::Upload)
        .o_type(true)
        .to_json()
        .to_text()
        .unwrap();
    assert_eq!(text, r#"{"default_type":"upload","type":true}"#);
    let text = SubCustomField::new("n".to_string()).required(false).to_json().to_text().unwrap();
    assert_eq!(text, r#"{"name":"n","required":false}"#);
    let text = full_request().to_json().to_text().unwrap();
    assert!(text.contains(r#""files":[[0,1,255],[]]"#));
    assert!(text.contains(r#""metadata":{"a":"1","b":"2"}"#));
    assert!(text.contains(r#""sms_phone_number_type":"delivery""#));
    assert!(!text.contains("null"));
}

fn check_round_trip(read: &SendSignatureRequest) {
    let sent = full_request();
    assert_eq!(read.signers.len(), 2);
    assert_eq!(read.signers[0].role, "Signer");
    assert_eq!(read.signers[0].name, "John Doe");
    assert_eq!(read.signers[0].email_address, "john@example.com");
    assert_eq!(read.signers[0].pin.as_deref(), Some("1234"));
    assert_eq!(read.signers[0].sms_phone_number.as_deref(), Some("+15550100"));
    assert_eq!(read.signers[0].sms_phone_number_type, Some(SMSPhoneNumberType::Delivery));
    assert_eq!(read.signers[1].pin, None);
    assert_eq!(read.signers[1].sms_phone_number, None);
    assert_eq!(read.signers[1].sms_phone_number_type, None);
    assert_eq!(read.template_ids, sent.template_ids);
    assert_eq!(read.allow_decline, Some(false));
    let ccs = read.ccs.as_ref().unwrap();
    assert_eq!(ccs.len(), 1);
    assert_eq!(ccs[0].role, "Accounting");
    assert_eq!(ccs[0].email, "acc@example.com");
    assert_eq!(read.client_id.as_deref(), Some("client"));
    let fields = read.custom_fields.as_ref().unwrap();
    assert_eq!(fields.len(), 2);
    assert_eq!(fields[0].name, "Cost");
    assert_eq!(fields[0].editor.as_deref(), Some("Signer"));
    assert_eq!(fields[0].required, Some(true));
    assert_eq!(fields[0].value.as_deref(), Some("$20,000"));
    assert_eq!(fields[1].name, "Empty");
    assert_eq!(fields[1].editor, None);
    assert_eq!(fields[1].required, None);
    assert_eq!(fields[1].value, None);
    assert_eq!(read.files, Some(vec![vec![0u8, 1, 255], vec![]]));
    assert_eq!(read.file_urls, Some(vec!["https://example.com/a.pdf".to_string()]));
    assert_eq!(read.is_eid, Some(true));
    assert_eq!(read.message.as_deref(), Some("Please sign"));
    let options = read.signing_options.as_ref().unwrap();
    assert_eq!(options.default_type, SubSigningOptionsDefaultType::Draw);
    assert_eq!(options.draw, Some(true));
    assert_eq!(options.phone, Some(false));
    assert_eq!(options.o_type, Some(true));
    assert_eq!(options.upload, Some(false));
    assert_eq!(read.signing_redirect_url.as_deref(), Some("https://example.com/done"));
    assert_eq!(read.test_mode, Some(true));
    assert_eq!(read.title.as_deref(), Some("Contract"));
}

#[test]
fn request_reads_back_from_its_document() {
    let doc = full_request().to_json();
    let read = SendSignatureRequest::from_json(&doc).unwrap();
    check_round_trip(&read);
    assert_eq!(
        read.metadata,
        Some(vec![("b".to_string(), "2".to_string()), ("a".to_string(), "1".to_string())])
    );
}

#[test]
fn request_reads_back_from_its_text() {
    let text = full_request().to_json().to_text().unwrap();
    let doc = Json::parse(&text).unwrap();
    let read = SendSignatureRequest::from_json(&doc).unwrap();
    check_round_trip(&read);
    assert_eq!(
        read.metadata,
        Some(vec![("a".to_string(), "1".to_string()), ("b".to_string(), "2".to_string())])
    );
}

#[test]
fn request_with_nothing_set_reads_back_with_nothing_set() {
    let request = SendSignatureRequest::new(vec![signer()], vec!["t".to_string()]);
    let text = request.to_json().to_text().unwrap();
    let read = SendSignatureRequest::from_json(&Json::parse(&text).unwrap()).unwrap();
    assert_eq!(read.signers.len(), 1);
    assert_eq!(read.template_ids, vec!["t".to_string()]);
    assert!(read.allow_decline.is_none());
    assert!(read.ccs.is_none());
    assert!(read.client_id.is_none());
    assert!(read.custom_fields.is_none());
    assert!(read.files.is_none());
    assert!(read.file_urls.is_none());
    assert!(read.is_eid.is_none());
    assert!(read.message.is_none());
    assert!(read.metadata.is_none());
    assert!(read.signing_options.is_none());
    assert!(read.signing_redirect_url.is_none());
    assert!(read.test_mode.is_none());
    assert!(read.title.is_none());
}

#[test]
fn setters_change_their_own_field_only() {
    let request = SendSignatureRequest::new(vec![signer()], vec!["t".to_string()])
        .message("m".to_string());
    assert_eq!(request.message.as_deref(), Some("m"));
    assert_eq!(request.signers.len(), 1);
    assert_eq!(request.template_ids, vec!["t".to_string()]);
    assert!(request.title.is_none() && request.client_id.is_none());
    let request = request.title("t2".to_string());
    assert_eq!(request.message.as_deref(), Some("m"));
    assert_eq!(request.title.as_deref(), Some("t2"));
    let field = SignatureRequestResponseCustomFieldBase::new(
        SignatureRequestResponseCustomFieldBaseType::Checkbox,
        "agree".to_string(),
    )
    .required(true)
    .api_id("id".to_string())
    .editor("Signer".to_string())
    .value("true".to_string());
    assert_eq!(field.o_type, SignatureRequestResponseCustomFieldBaseType::Checkbox);
    assert_eq!(field.name, "agree");
    assert_eq!(field.required, Some(true));
    assert_eq!(field.api_id.as_deref(), Some("id"));
    assert_eq!(field.editor.as_deref(), Some("Signer"));
    assert_eq!(field.value.as_deref(), Some("true"));
    assert_eq!(
        field.to_json().to_text().unwrap(),
        r#"{"api_id":"id","editor":"Signer","name":"agree","required":true,"type":"checkbox","value":"true"}"#
    );
    let attachment = SignatureRequestResponseAttachment::new(
        "1".to_string(),
        "s".to_string(),
        "n".to_string(),
        true,
    );
    assert!(attachment.instructions.is_none() && attachment.uploaded_at.is_none());
    let attachment = attachment.instructions("i".to_string()).uploaded_at(7);
    assert_eq!(attachment.id, "1");
    assert_eq!(attachment.signer, "s");
    assert_eq!(attachment.name, "n");
    assert!(attachment.required);
    assert_eq!(attachment.instructions.as_deref(), Some("i"));
    assert_eq!(attachment.uploaded_at, Some(7));
}

const FULL_RESPONSE: &str = r#"{
  "test_mode": true,
  "signature_request_id": "fa5c8a0b",
  "requester_email_address": "me@example.com",
  "title": "NDA",
  "original_title": "NDA v1",
  "subject": "Please sign",
  "message": null,
  "metadata": {"k2": "v2", "k1": "v1"},
  "created_at": 1570471067,
  "expires_at": 18446744073709551615,
  "is_complete": true,
  "is_declined": false,
  "has_error": false,
  "files_url": "https://f",
  "signing_url": "https://s",
  "details_url": "https://d",
  "cc_email_addresses": ["a@example.com", "b@example.com"],
  "template_ids": ["t1"],
  "custom_ids": [],
  "attachments": {"id": "1", "signer": "s", "name": "License", "required": true, "uploaded_at": 5},
  "response_data": [
    {"api_id": "x", "signature_id": "sig", "name": "Field", "required": true, "o_type": "text-merge", "value": "v"},
    {"o_type": "date_signed"},
    {}
  ],
  "signatures": [
    {"signature_id": "s1", "signer_email_address": "one@example.com", "status_code": "signed",
     "order": -3, "signed_at": -1, "last_viewed_at": 9223372036854775807, "has_pin": true,
     "has_sms_auth": false, "signer_name": "One", "error": null},
    {"signature_id": "s2", "signer_email_address": "two@example.com", "status_code": "awaiting_signature",
     "has_pin": false, "order": 2147483647}
  ],
  "unknown_member": [1, 2.5, {"x": null}]
}"#;

#[test]
fn response_with_every_kind_of_field() {
    let doc = Json::parse(FULL_RESPONSE).unwrap();
    let r = SignatureRequestResponse::from_json(&doc).unwrap();
    assert_eq!(r.test_mode, Some(true));
    assert_eq!(r.signature_request_id, "fa5c8a0b");
    assert_eq!(r.requester_email_address.as_deref(), Some("me@example.com"));
    assert_eq!(r.title, "NDA");
    assert_eq!(r.original_title, "NDA v1");
    assert_eq!(r.subject.as_deref(), Some("Please sign"));
    assert_eq!(r.message, None);
    assert_eq!(
        r.metadata,
        vec![("k1".to_string(), "v1".to_string()), ("k2".to_string(), "v2".to_string())]
    );
    assert_eq!(r.created_at, 1570471067);
    assert_eq!(r.expires_at, Some(u64::MAX));
    assert!(r.is_complete);
    assert!(!r.is_declined);
    assert!(!r.has_error);
    assert_eq!(r.files_url, "https://f");
    assert_eq!(r.signing_url.as_deref(), Some("https://s"));
    assert_eq!(r.details_url, "https://d");
    assert_eq!(r.cc_email_addresses, vec!["a@example.com".to_string(), "b@example.com".to_string()]);
    assert_eq!(r.signing_redirect_url, None);
    assert_eq!(r.final_copy_uri, None);
    assert_eq!(r.template_ids, Some(vec!["t1".to_string()]));
    assert_eq!(r.custom_ids, Some(vec![]));
    let a = r.attachments.as_ref().unwrap();
    assert_eq!(a.id, "1");
    assert_eq!(a.signer, "s");
    assert_eq!(a.name, "License");
    assert!(a.required);
    assert_eq!(a.instructions, None);
    assert_eq!(a.uploaded_at, Some(5));
    let data = r.response_data.as_ref().unwrap();
    assert_eq!(data.len(), 3);
    assert_eq!(data[0].api_id.as_deref(), Some("x"));
    assert_eq!(data[0].signature_id.as_deref(), Some("sig"));
    assert_eq!(data[0].name.as_deref(), Some("Field"));
    assert_eq!(data[0].required, Some(true));
    assert_eq!(data[0].o_type, Some(SignatureRequestResponseDataType::TextMerge));
    assert_eq!(data[0].value.as_deref(), Some("v"));
    assert_eq!(data[1].o_type, Some(SignatureRequestResponseDataType::DateSigned));
    assert_eq!(data[2].o_type, None);
    assert_eq!(r.signatures.len(), 2);
    let s = &r.signatures[0];
    assert_eq!(s.signature_id, "s1");
    assert_eq!(s.signer_email_address, "one@example.com");
    assert_eq!(s.status_code, "signed");
    assert_eq!(s.order, Some(-3));
    assert_eq!(s.signed_at, Some(-1));
    assert_eq!(s.last_viewed_at, Some(i64::MAX));
    assert_eq!(s.last_reminded_at, None);
    assert!(s.has_pin);
    assert_eq!(s.has_sms_auth, Some(false));
    assert_eq!(s.has_sms_delivery, None);
    assert_eq!(s.signer_name.as_deref(), Some("One"));
    assert_eq!(s.error, None);
    assert_eq!(r.signatures[1].signature_id, "s2");
    assert_eq!(r.signatures[1].order, Some(i32::MAX));
    assert!(!r.signatures[1].has_pin);
    assert_eq!(r.bulk_send_job_id, None);
}

fn signature_with(member: &str) -> Option<SignatureRequestResponseSignatures> {
    let text = format!(
        r#"{{"signature_id":"s","signer_email_address":"e","status_code":"c","has_pin":false,{}}}"#,
        member
    );
    SignatureRequestResponseSignatures::from_json(&Json::parse(&text).unwrap())
}

#[test]
fn numbers_must_fit_their_field() {
    assert_eq!(signature_with(r#""order":2147483647"#).unwrap().order, Some(2147483647));
    assert_eq!(signature_with(r#""order":-2147483648"#).unwrap().order, Some(-2147483648));
    assert!(signature_with(r#""order":2147483648"#).is_none());
    assert!(signature_with(r#""order":-2147483649"#).is_none());
    assert!(signature_with(r#""order":1.5"#).is_none());
    assert!(signature_with(r#""order":"1""#).is_none());
    assert_eq!(
        signature_with(r#""signed_at":-9223372036854775808"#).unwrap().signed_at,
        Some(i64::MIN)
    );
    assert!(signature_with(r#""signed_at":9223372036854775808"#).is_none());
    assert!(signature_with(r#""signed_at":1e3"#).is_none());
    let attachment = |member: &str| {
        let text = format!(r#"{{"id":"1","signer":"s","name":"n","required":true,{}}}"#, member);
        SignatureRequestResponseAttachment::from_json(&Json::parse(&text).unwrap())
    };
    assert_eq!(attachment(r#""uploaded_at":0"#).unwrap().uploaded_at, Some(0));
    assert!(attachment(r#""uploaded_at":-1"#).is_none());
    assert!(attachment(r#""uploaded_at":1.0"#).is_none());
    assert!(attachment(r#""uploaded_at":true"#).is_none());
}

#[test]
fn required_members_must_be_there_and_of_their_kind() {
    assert!(signature_with(r#""x":1"#).is_some());
    let parse = |text: &str| SignatureRequestResponseSignatures::from_json(&Json::parse(text).unwrap());
    assert!(parse(r#"{"signer_email_address":"e","status_code":"c","has_pin":false}"#).is_none());
    assert!(parse(r#"{"signature_id":null,"signer_email_address":"e","status_code":"c","has_pin":false}"#).is_none());
    assert!(parse(r#"{"signature_id":"s","signer_email_address":"e","status_code":"c","has_pin":"no"}"#).is_none());
    assert!(parse(r#"{"signature_id":"s","signer_email_address":"e","status_code":"c"}"#).is_none());
    assert!(parse(r#"["s","e","c",false]"#).is_none());
    assert!(parse(r#""s""#).is_none());
    assert!(SignatureRequestResponseData::from_json(&Json::parse("{}").unwrap()).is_some());
    assert!(SignatureRequestResponseData::from_json(&Json::parse("5").unwrap()).is_none());
    assert!(SignatureRequestResponseData::from_json(&Json::parse("null").unwrap()).is_none());
    assert!(SignatureRequestResponseData::from_json(&Json::parse(r#"{"value":3}"#).unwrap()).is_none());
}

#[test]
fn enum_names_on_the_wire() {
    let all = [
        (SignatureRequestResponseDataType::Text, "text"),
        (SignatureRequestResponseDataType::Checkbox, "checkbox"),
        (SignatureRequestResponseDataType::Dropdown, "dropdown"),
        (SignatureRequestResponseDataType::Radio, "radio"),
        (SignatureRequestResponseDataType::Signature, "signature"),
        (SignatureRequestResponseDataType::DateSigned, "date_signed"),
        (SignatureRequestResponseDataType::Initials, "initials"),
        (SignatureRequestResponseDataType::TextMerge, "text-merge"),
        (SignatureRequestResponseDataType::CheckboxMerge, "checkbox-merge"),
    ];
    for (variant, name) in all {
        assert_eq!(variant.name(), name);
        assert_eq!(variant.to_json(), Json::Str(name.to_string()));
        assert_eq!(
            SignatureRequestResponseDataType::from_json(&Json::Str(name.to_string())),
            Some(variant)
        );
    }
    assert_eq!(SignatureRequestResponseDataType::from_json(&Json::Str("Text".to_string())), None);
    assert_eq!(SignatureRequestResponseDataType::from_json(&Json::Null), None);
    assert_eq!(SMSPhoneNumberType::Authentication.name(), "authentication");
    assert_eq!(SMSPhoneNumberType::Delivery.name(), "delivery");
    assert_eq!(
        SMSPhoneNumberType::from_json(&Json::Str("authentication".to_string())),
        Some(SMSPhoneNumberType::Authentication)
    );
    assert_eq!(SubSigningOptionsDefaultType::Draw.name(), "draw");
    assert_eq!(SubSigningOptionsDefaultType::Phone.name(), "phone");
    assert_eq!(SubSigningOptionsDefaultType::Type.name(), "type");
    assert_eq!(SubSigningOptionsDefaultType::Upload.name(), "upload");
    assert_eq!(
        SubSigningOptionsDefaultType::from_json(&Json::Str("type".to_string())),
        Some(SubSigningOptionsDefaultType::Type)
    );
    assert_eq!(SignatureRequestResponseCustomFieldBaseType::Text.name(), "text");
    assert_eq!(
        SignatureRequestResponseCustomFieldBaseType::from_json(&Json::Str("checkbox".to_string())),
        Some(SignatureRequestResponseCustomFieldBaseType::Checkbox)
    );
    assert_eq!(
        SignatureRequestResponseCustomFieldBaseType::from_json(&Json::Str("radio".to_string())),
        None
    );
}

#[test]
fn json_documents_are_read_and_written() {
    let doc = Json::parse(r#"{"b":[1,-2,true,null,"s"],"a":{"x":18446744073709551615}}"#).unwrap();
    assert_eq!(
        doc,
        Json::Object(vec![
            (
                "a".to_string(),
                Json::Object(vec![("x".to_string(), Json::Number(JsonNumber::Unsigned(u64::MAX)))])
            ),
            (
                "b".to_string(),
                Json::Array(vec![
                    Json::Number(JsonNumber::Unsigned(1)),
                    Json::Number(JsonNumber::Negative(-2)),
                    Json::Bool(true),
                    Json::Null,
                    Json::Str("s".to_string()),
                ])
            ),
        ])
    );
    assert_eq!(
        doc.to_text().unwrap(),
        r#"{"a":{"x":18446744073709551615},"b":[1,-2,true,null,"s"]}"#
    );
    assert!(Json::parse("").is_err());
    assert!(Json::parse("{").is_err());
    assert!(Json::parse("[1,]").is_err());
    let real = Json::parse("[2.5]").unwrap();
    assert_eq!(real.to_text().unwrap(), "[2.5]");
    assert_eq!(real.get("x"), None);
}

#[test]
fn members_are_looked_up_by_key() {
    let doc = Json::Object(vec![
        ("a".to_string(), Json::Bool(true)),
        ("b".to_string(), Json::Null),
        ("a".to_string(), Json::Bool(false)),
        ("".to_string(), Json::Str("empty".to_string())),
    ]);
    assert_eq!(doc.get("a"), Some(&Json::Bool(true)));
    assert_eq!(doc.get("b"), Some(&Json::Null));
    assert_eq!(doc.get(""), Some(&Json::Str("empty".to_string())));
    assert_eq!(doc.get("c"), None);
    assert_eq!(doc.get("A"), None);
    assert_eq!(Json::Array(vec![Json::Null]).get("0"), None);
    assert_eq!(doc.flag_at("a"), Some(true));
    assert_eq!(doc.opt_flag_at("b"), Some(None));
    assert_eq!(doc.opt_flag_at("c"), Some(None));
    assert_eq!(doc.opt_flag_at(""), None);
    assert_eq!(doc.flag_at("b"), None);
    assert_eq!(doc.text_at(""), Some("empty".to_string()));
    assert_eq!(doc.opt_text_at("a"), None);
    assert!(doc.is_object() && !doc.is_null());
}

#[test]
fn files_are_lists_of_bytes() {
    let doc = Json::parse(r#"{"files":[[0,255],[]],"bad":[[256]],"worse":[[-1]],"text":["a"]}"#).unwrap();
    assert_eq!(doc.opt_files_at("files"), Some(Some(vec![vec![0u8, 255], vec![]])));
    assert_eq!(doc.opt_files_at("missing"), Some(None));
    assert_eq!(doc.opt_files_at("bad"), None);
    assert_eq!(doc.opt_files_at("worse"), None);
    assert_eq!(doc.opt_files_at("text"), None);
    assert_eq!(doc.opt_texts_at("text"), Some(Some(vec!["a".to_string()])));
    assert_eq!(doc.texts_at("files"), None);
    assert_eq!(doc.text_map_at("files"), None);
}

#[test]
fn written_and_read_gives_the_record_back() {
    let read = written_and_read(&full_request());
    check_round_trip(&read);
    let cc = written_and_read(&SubCC::new("r".to_string(), "e".to_string()));
    assert_eq!(cc.role, "r");
    assert_eq!(cc.email, "e");
    assert_eq!(
        written_and_read(&SignatureRequestResponseDataType::CheckboxMerge),
        SignatureRequestResponseDataType::CheckboxMerge
    );
}

#[test]
fn every_document_has_a_text() {
    assert_eq!(Json::Null.to_text().unwrap(), "null");
    assert_eq!(Json::Array(vec![]).to_text().unwrap(), "[]");
    assert_eq!(Json::Object(vec![]).to_text().unwrap(), "{}");
    assert_eq!(Json::Str("a\"b\n".to_string()).to_text().unwrap(), r#""a\"b\n""#);
    assert_eq!(Json::Number(JsonNumber::Negative(7)).to_text().unwrap(), "7");
    assert_eq!(Json::Number(JsonNumber::Negative(i64::MIN)).to_text().unwrap(), "-9223372036854775808");
    let twice = Json::Object(vec![
        ("k".to_string(), Json::Bool(true)),
        ("".to_string(), Json::Array(vec![Json::Null, Json::Object(vec![])])),
        ("k".to_string(), Json::Bool(false)),
    ]);
    assert_eq!(twice.to_text().unwrap(), r#"{"":[null,{}],"k":false}"#);
    let real = Json::parse("[1e300, -0.5]").unwrap();
    assert_eq!(real.to_text().unwrap(), "[1e+300,-0.5]");
}

#[test]
fn a_key_is_written_once_with_its_last_value() {
    let request = SendSignatureRequest::new(vec![], vec!["t".to_string()]).metadata(vec![
        ("a".to_string(), "1".to_string()),
        ("b".to_string(), "2".to_string()),
        ("a".to_string(), "3".to_string()),
        ("c".to_string(), "4".to_string()),
        ("b".to_string(), "5".to_string()),
    ]);
    let doc = request.to_json();
    let metadata = doc.get("metadata").unwrap();
    assert_eq!(
        *metadata,
        Json::Object(vec![
            ("a".to_string(), Json::Str("3".to_string())),
            ("c".to_string(), Json::Str("4".to_string())),
            ("b".to_string(), Json::Str("5".to_string())),
        ])
    );
    assert_eq!(metadata.get("a"), Some(&Json::Str("3".to_string())));
    assert_eq!(metadata.get("b"), Some(&Json::Str("5".to_string())));
    let text = doc.to_text().unwrap();
    assert_eq!(text, r#"{"metadata":{"a":"3","b":"5","c":"4"},"signers":[],"template_ids":["t"]}"#);
    let read = written_and_read(&request);
    assert_eq!(
        read.metadata,
        Some(vec![
            ("a".to_string(), "3".to_string()),
            ("c".to_string(), "4".to_string()),
            ("b".to_string(), "5".to_string()),
        ])
    );
    let empty = SendSignatureRequest::new(vec![], vec![]).metadata(vec![]);
    assert_eq!(empty.to_json().get("metadata"), Some(&Json::Object(vec![])));
}
