//! The client's side of a call: what is sent, and how what comes back is
//! unwrapped into a record with its warnings, or into an error.

use crate::decode::{list_described, list_shaped, read_list, FromJson};
use crate::encode::ToJson;
use crate::json::{parsed_text, written_text, Json, JsonValue};
use crate::signature_request::{SendSignatureRequest, SignatureRequestResponse};
use crate::{ErrorResponse, ErrorResponseError, WarningResponse};
use vstd::prelude::*;
use vstd::string::StringExecFns;

verus! {

/// Why a body could not be read as an envelope.
#[derive(Debug)]
pub enum ParseFailure {
    /// The body is no JSON document.
    InvalidJson(serde_json::Error),
    /// The document has no member under the payload key, which is given.
    MissingKey(String),
    /// The payload has another shape than the record asked for.
    PayloadShape,
    /// The member `warnings` is no list of warnings.
    WarningsShape,
    /// The body of a failed call has another shape than an error has.
    ErrorShape,
    /// The transport could not deliver the body: its own words.
    NoBody(String),
}

/// The words of a `serde_json::Error`, as its `Display` writes them.
#[verifier::external_body]
fn json_error_text(e: &serde_json::Error) -> String {
    e.to_string()
}

impl ParseFailure {
    /// The failure in words, as far as they are this library's own: what is
    /// said of a body that is no JSON document are the words of the JSON
    /// reader.
    pub open spec fn words(self) -> Option<Seq<char>> {
        match self {
            ParseFailure::InvalidJson(_) => None,
            ParseFailure::MissingKey(key) => Some("Missing key `"@ + key@ + "` in response"@),
            ParseFailure::PayloadShape => Some("payload does not have the expected shape"@),
            ParseFailure::WarningsShape => Some("warnings are not a list of warnings"@),
            ParseFailure::ErrorShape => Some("error body does not have the expected shape"@),
            ParseFailure::NoBody(reason) => Some(reason@),
        }
    }

    /// The failure in words.
    pub fn display(&self) -> (r: String)
        ensures
            self.words() matches Some(w) ==> r@ == w,
    {
        match self {
            ParseFailure::InvalidJson(e) => json_error_text(e),
            ParseFailure::MissingKey(key) => {
                let mut s = "Missing key `".to_owned();
                s.append(key.as_str());
                s.append("` in response");
                s
            },
            ParseFailure::PayloadShape => "payload does not have the expected shape".to_owned(),
            ParseFailure::WarningsShape => "warnings are not a list of warnings".to_owned(),
            ParseFailure::ErrorShape => "error body does not have the expected shape".to_owned(),
            ParseFailure::NoBody(reason) => reason.clone(),
        }
    }
}

/// What a body under `key` must give, for every outcome of the unwrapping.
pub open spec fn unwrapped<T: FromJson>(
    doc: JsonValue,
    key: Seq<char>,
    r: Result<(T, Option<Vec<WarningResponse>>), ParseFailure>,
) -> bool {
    if doc.get(key) is None {
        r matches Err(ParseFailure::MissingKey(k)) && k@ == key
    } else if !T::well_shaped(doc.get(key).unwrap()) {
        r matches Err(ParseFailure::PayloadShape)
    } else if doc.get("warnings"@) is Some && !list_shaped::<WarningResponse>(
        doc.get("warnings"@).unwrap(),
    ) {
        r matches Err(ParseFailure::WarningsShape)
    } else {
        &&& r matches Ok((inner, warnings))
        &&& inner.described_by(doc.get(key).unwrap())
        &&& match warnings {
            Some(l) => doc.get("warnings"@) is Some && list_described(
                l@,
                doc.get("warnings"@).unwrap(),
            ),
            None => doc.get("warnings"@) is None,
        }
    }
}

/// Takes the payload under `key` and the warnings out of a document.
pub fn unwrap_envelope<T: FromJson>(doc: &Json, key: &str) -> (r: Result<
    (T, Option<Vec<WarningResponse>>),
    ParseFailure,
>)
    ensures
        unwrapped(doc.model(), key@, r),
{
    let payload = match doc.get(key) {
        Some(p) => p,
        None => {
            return Err(ParseFailure::MissingKey(key.to_owned()));
        },
    };
    let inner = match T::from_json(payload) {
        Some(t) => t,
        None => {
            return Err(ParseFailure::PayloadShape);
        },
    };
    let warnings = match doc.get("warnings") {
        Some(w) => match read_list::<WarningResponse>(w) {
            Some(l) => Some(l),
            None => {
                return Err(ParseFailure::WarningsShape);
            },
        },
        None => None,
    };
    Ok((inner, warnings))
}

/// A document with the payload under its key and with a list of warnings
/// gives the record and the warnings, each warning at its place in the list.
pub proof fn warnings_come_in_order<T: FromJson>(
    doc: JsonValue,
    key: Seq<char>,
    r: Result<(T, Option<Vec<WarningResponse>>), ParseFailure>,
)
    requires
        unwrapped(doc, key, r),
        doc.get(key) is Some,
        T::well_shaped(doc.get(key).unwrap()),
        doc.get("warnings"@) is Some,
        list_shaped::<WarningResponse>(doc.get("warnings"@).unwrap()),
    ensures
        r matches Ok((inner, Some(l))) && {
            let listed = doc.get("warnings"@).unwrap()->Array_0;
            &&& inner.described_by(doc.get(key).unwrap())
            &&& l@.len() == listed.len()
            &&& forall|i: int|
                0 <= i < l@.len() ==> {
                    &&& listed[i].text_at("warning_msg"@) == Some((#[trigger] l@[i]).warning_msg@)
                    &&& listed[i].text_at("warning_name"@) == Some(l@[i].warning_name@)
                }
        },
{
}

/// A document with the payload under its key and without a member
/// `warnings` gives the record and no warnings.
pub proof fn no_warnings_member_gives_none<T: FromJson>(
    doc: JsonValue,
    key: Seq<char>,
    r: Result<(T, Option<Vec<WarningResponse>>), ParseFailure>,
)
    requires
        unwrapped(doc, key, r),
        doc.get(key) is Some,
        T::well_shaped(doc.get(key).unwrap()),
        doc.get("warnings"@) is None,
    ensures
        r matches Ok((inner, None)) && inner.described_by(doc.get(key).unwrap()),
{
}

/// A document without the payload key fails with the missing key, whatever
/// else it holds.
pub proof fn missing_key_is_reported<T: FromJson>(
    doc: JsonValue,
    key: Seq<char>,
    r: Result<(T, Option<Vec<WarningResponse>>), ParseFailure>,
)
    requires
        unwrapped(doc, key, r),
        doc.get(key) is None,
    ensures
        r matches Err(ParseFailure::MissingKey(k)) && k@ == key,
{
}

/// Reads a body as an envelope with its payload under `key`.
pub fn parse_response<T: FromJson>(body: &str, key: &str) -> (r: Result<
    (T, Option<Vec<WarningResponse>>),
    ParseFailure,
>)
    ensures
        match parsed_text(body@) {
            Some(doc) => unwrapped(doc, key@, r),
            None => r matches Err(ParseFailure::InvalidJson(_)),
        },
{
    match Json::parse(body) {
        Ok(doc) => unwrap_envelope::<T>(&doc, key),
        Err(e) => Err(ParseFailure::InvalidJson(e)),
    }
}


/// Errors of a call.
#[derive(Debug)]
pub enum DropboxSignClientError {
    /// A status that is no success, with its body; kept for callers that
    /// report such a reply themselves.
    DropboxSignClient(String, String),
    /// The request could not be sent, or no response came: the transport's
    /// own words.
    Reqwest(String),
    /// The body of a failed call is no JSON document.
    Serde(serde_json::Error),
    /// The provider refused the call.
    ResponseError(ErrorResponseError),
    /// The body could not be read as the envelope it should be.
    Other(ParseFailure),
}

impl DropboxSignClientError {
    /// The error in words: what kind it is, then what it says itself. The
    /// words of the JSON reader are no part of this.
    pub open spec fn words(self) -> Option<Seq<char>> {
        match self {
            DropboxSignClientError::DropboxSignClient(status, body) => Some(
                "non 200 status: "@ + status@ + " "@ + body@,
            ),
            DropboxSignClientError::Reqwest(reason) => Some("HTTP request error: "@ + reason@),
            DropboxSignClientError::Serde(_) => None,
            DropboxSignClientError::ResponseError(e) => Some("DropboxSign error: "@ + e.words()),
            DropboxSignClientError::Other(f) => match f.words() {
                Some(w) => Some("Other error: "@ + w),
                None => None,
            },
        }
    }

    /// The error in words.
    pub fn display(&self) -> (r: String)
        ensures
            self.words() matches Some(w) ==> r@ == w,
    {
        match self {
            DropboxSignClientError::DropboxSignClient(status, body) => {
                let mut s = "non 200 status: ".to_owned();
                s.append(status.as_str());
                s.append(" ");
                s.append(body.as_str());
                s
            },
            DropboxSignClientError::Reqwest(reason) => {
                let mut s = "HTTP request error: ".to_owned();
                s.append(reason.as_str());
                s
            },
            DropboxSignClientError::Serde(e) => {
                let mut s = "Json error: ".to_owned();
                s.append(json_error_text(e).as_str());
                s
            },
            DropboxSignClientError::ResponseError(e) => {
                let mut s = "DropboxSign error: ".to_owned();
                s.append(e.display().as_str());
                s
            },
            DropboxSignClientError::Other(f) => {
                let mut s = "Other error: ".to_owned();
                s.append(f.display().as_str());
                s
            },
        }
    }
}

/// Whether a status says that the call succeeded.
pub open spec fn is_success(status: u16) -> bool {
    200 <= status < 300
}

/// What the document of a failed call under `status` must give.
pub open spec fn refused(doc: JsonValue, status: u16, e: DropboxSignClientError) -> bool {
    if ErrorResponse::well_shaped(doc) {
        &&& e matches DropboxSignClientError::ResponseError(p)
        &&& p.status == status
        &&& doc.get("error"@).unwrap().text_at("error_msg"@) == Some(p.error_msg@)
        &&& doc.get("error"@).unwrap().opt_text_at("error_path"@) == Some(
            crate::fields::text_opt(p.error_path),
        )
        &&& doc.get("error"@).unwrap().text_at("error_name"@) == Some(p.error_name@)
    } else {
        e matches DropboxSignClientError::Other(ParseFailure::ErrorShape)
    }
}

/// The error that the document of a failed call stands for: the provider's
/// error with the status attached, where the document has an error's shape.
pub fn error_from_document(status: u16, doc: &Json) -> (e: DropboxSignClientError)
    ensures
        refused(doc.model(), status, e),
{
    match ErrorResponse::from_json(doc) {
        Some(parsed) => DropboxSignClientError::ResponseError(parsed.error.with_status(status)),
        None => DropboxSignClientError::Other(ParseFailure::ErrorShape),
    }
}

/// The error that the body of a failed call stands for.
pub fn read_error(status: u16, body: &str) -> (e: DropboxSignClientError)
    ensures
        match parsed_text(body@) {
            Some(doc) => refused(doc, status, e),
            None => e matches DropboxSignClientError::Serde(_),
        },
{
    match Json::parse(body) {
        Ok(doc) => error_from_document(status, &doc),
        Err(e) => DropboxSignClientError::Serde(e),
    }
}

/// The error for a response whose body the transport could not deliver:
/// a parse failure under a status of success, a transport error under any
/// other.
pub fn unreadable_body(status: u16, reason: String) -> (e: DropboxSignClientError)
    ensures
        is_success(status) ==> e == DropboxSignClientError::Other(ParseFailure::NoBody(reason)),
        !is_success(status) ==> e == DropboxSignClientError::Reqwest(reason),
{
    if 200 <= status && status < 300 {
        DropboxSignClientError::Other(ParseFailure::NoBody(reason))
    } else {
        DropboxSignClientError::Reqwest(reason)
    }
}

/// What a reply must give: the record and its warnings under a status of
/// success, the provider's error under any other.
pub open spec fn replied<T: FromJson>(
    doc: Option<JsonValue>,
    status: u16,
    key: Seq<char>,
    r: Result<(T, Option<Vec<WarningResponse>>), DropboxSignClientError>,
) -> bool {
    if is_success(status) {
        match r {
            Ok(pair) => doc is Some && unwrapped(doc.unwrap(), key, Ok::<_, ParseFailure>(pair)),
            Err(DropboxSignClientError::Other(f)) => match doc {
                Some(d) => unwrapped::<T>(d, key, Err(f)),
                None => f is InvalidJson,
            },
            Err(_) => false,
        }
    } else {
        match r {
            Ok(_) => false,
            Err(e) => match doc {
                Some(d) => refused(d, status, e),
                None => e is Serde,
            },
        }
    }
}

/// Under a status that is no success, a document of an error's shape fails
/// with the provider's error: its message, its name, its path where it has
/// one, and the status.
pub proof fn provider_error_is_kept<T: FromJson>(
    doc: JsonValue,
    status: u16,
    key: Seq<char>,
    r: Result<(T, Option<Vec<WarningResponse>>), DropboxSignClientError>,
)
    requires
        replied(Some(doc), status, key, r),
        !is_success(status),
        ErrorResponse::well_shaped(doc),
    ensures
        r matches Err(DropboxSignClientError::ResponseError(e)) && {
            let error = doc.get("error"@).unwrap();
            &&& e.status == status
            &&& error.text_at("error_msg"@) == Some(e.error_msg@)
            &&& error.text_at("error_name"@) == Some(e.error_name@)
            &&& e.error_path is None <==> crate::decode::unset(error.get("error_path"@))
            &&& e.error_path matches Some(path) ==> error.get("error_path"@) == Some(
                JsonValue::Str(path@),
            )
        },
{
}

/// Under a status of success, a document without the payload key fails with
/// the missing key and never with a provider's error.
pub proof fn success_without_payload_is_no_provider_error<T: FromJson>(
    doc: JsonValue,
    status: u16,
    key: Seq<char>,
    r: Result<(T, Option<Vec<WarningResponse>>), DropboxSignClientError>,
)
    requires
        replied(Some(doc), status, key, r),
        is_success(status),
        doc.get(key) is None,
    ensures
        r matches Err(DropboxSignClientError::Other(ParseFailure::MissingKey(k))) && k@ == key,
{
}

/// Reads the reply to a call whose payload comes under `key`.
pub fn read_reply<T: FromJson>(status: u16, body: &str, key: &str) -> (r: Result<
    (T, Option<Vec<WarningResponse>>),
    DropboxSignClientError,
>)
    ensures
        replied(parsed_text(body@), status, key@, r),
{
    if 200 <= status && status < 300 {
        match parse_response::<T>(body, key) {
            Ok(pair) => Ok(pair),
            Err(f) => Err(DropboxSignClientError::Other(f)),
        }
    } else {
        Err(read_error(status, body))
    }
}

/// How a request is sent.
#[derive(Clone, Copy, Debug, PartialEq, Eq)]
pub enum HttpMethod {
    Get,
    Post,
}

/// A request, ready for a transport: where it goes, as whom, and with what
/// body.
#[derive(Debug)]
pub struct HttpRequest {
    pub method: HttpMethod,
    pub url: String,
    /// The user name of HTTP Basic authentication.
    pub username: String,
    /// Its password.
    pub password: String,
    /// The JSON body, where the request has one.
    pub body: Option<String>,
}

/// The provider's base address.
pub open spec fn api_url() -> Seq<char> {
    "https://api.hellosign.com/v3"@
}

/// A client of the provider's API. The pool size and the timeout are kept
/// for the transport to honour; they change nothing that this library
/// computes.
#[derive(Clone, Debug)]
pub struct DropboxSignClient {
    pub api_key: String,
    pub pool: usize,
    pub timeout: usize,
}

impl DropboxSignClient {
    /// A client for `api_key`, with a pool of 5 and a timeout of 30 seconds.
    pub fn new(api_key: &str) -> (r: Self)
        ensures
            r.api_key@ == api_key@,
            r.pool == 5,
            r.timeout == 30,
    {
        DropboxSignClient { api_key: api_key.to_owned(), pool: 5, timeout: 30 }
    }

    /// The same client with the pool size `pool`.
    pub fn with_pool(self, pool: usize) -> (r: Self)
        ensures
            r == (DropboxSignClient { pool, ..self }),
    {
        DropboxSignClient { pool, ..self }
    }

    /// The same client with the timeout `timeout`, in seconds.
    pub fn with_timeout(self, timeout: usize) -> (r: Self)
        ensures
            r == (DropboxSignClient { timeout, ..self }),
    {
        DropboxSignClient { timeout, ..self }
    }

    /// The request that fetches the signature request `signature_request_id`.
    pub fn get_signature_request(&self, signature_request_id: &str) -> (r: HttpRequest)
        ensures
            r.method == HttpMethod::Get,
            r.url@ == api_url() + "/signature_request/"@ + signature_request_id@,
            r.username@ == self.api_key@,
            r.password@ == Seq::<char>::empty(),
            r.body is None,
    {
        let mut url = "https://api.hellosign.com/v3".to_owned();
        url.append("/signature_request/");
        url.append(signature_request_id);
        HttpRequest {
            method: HttpMethod::Get,
            url,
            username: self.api_key.clone(),
            password: String::new(),
            body: None,
        }
    }

    /// The request that carries `body` to the endpoint that sends documents
    /// made from templates.
    pub fn send_with_template_request(&self, body: String) -> (r: HttpRequest)
        ensures
            r.method == HttpMethod::Post,
            r.url@ == api_url() + "/signature_request/send_with_template"@,
            r.username@ == self.api_key@,
            r.password@ == Seq::<char>::empty(),
            r.body == Some(body),
    {
        let mut url = "https://api.hellosign.com/v3".to_owned();
        url.append("/signature_request/send_with_template");
        HttpRequest {
            method: HttpMethod::Post,
            url,
            username: self.api_key.clone(),
            password: String::new(),
            body: Some(body),
        }
    }

    /// The request that sends `send_signature_request`. There is one for
    /// every record: its body is the record's wire form as a text, and unset
    /// fields are no part of it.
    pub fn send_with_template(&self, send_signature_request: SendSignatureRequest) -> (r: Result<
        HttpRequest,
        DropboxSignClientError,
    >)
        ensures
            r matches Ok(call) && {
                &&& call.method == HttpMethod::Post
                &&& call.url@ == api_url() + "/signature_request/send_with_template"@
                &&& call.username@ == self.api_key@
                &&& call.password@ == Seq::<char>::empty()
                &&& call.body is Some
                &&& call.body.unwrap()@ == written_text(send_signature_request.wire())
            },
    {
        match send_signature_request.to_json().to_text() {
            Ok(body) => Ok(self.send_with_template_request(body)),
            Err(e) => Err(DropboxSignClientError::Serde(e)),
        }
    }

    /// Reads the reply to either call: the signature request and its
    /// warnings under a status of success, the provider's error under any
    /// other.
    pub fn read_signature_request(&self, status: u16, body: &str) -> (r: Result<
        (SignatureRequestResponse, Option<Vec<WarningResponse>>),
        DropboxSignClientError,
    >)
        ensures
            replied(parsed_text(body@), status, "signature_request"@, r),
    {
        read_reply::<SignatureRequestResponse>(status, body, "signature_request")
    }
}

} // verus!
