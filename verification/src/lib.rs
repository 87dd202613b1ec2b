//! Typed binding for the Dropbox Sign signature-request API: request records,
//! the JSON they travel as, and the unwrapping of the provider's envelopes.

use crate::decode::{opt_list_described, opt_list_shaped, read_opt_list, FromJson};
use crate::encode::{member, members, object, put, text_json, text_value, ToJson};
use crate::json::{Json, JsonValue};
use vstd::prelude::*;
use vstd::string::StringExecFns;

pub mod client;
pub mod decode;
pub mod encode;
pub mod fields;
pub mod json;
pub mod laws;
pub mod record_laws;
pub mod signature_request;

pub use client::DropboxSignClient;

verus! {

/// A payload together with the warnings that came with it.
#[derive(Debug)]
pub struct ResponseWithWarnings<T> {
    /// The payload.
    pub inner: T,
    /// The warnings, where the response had any.
    pub warnings: Option<Vec<WarningResponse>>,
}

/// A non-fatal warning of the provider.
#[derive(Debug)]
pub struct WarningResponse {
    /// Human-readable warning message.
    pub warning_msg: String,
    /// Machine-readable warning identifier.
    pub warning_name: String,
}

/// The body of a failed call.
#[derive(Debug)]
pub struct ErrorResponse {
    /// The error itself.
    pub error: ErrorResponseError,
}

/// An error of the provider, with the HTTP status it came under.
#[derive(Debug)]
pub struct ErrorResponseError {
    /// HTTP status code; not part of the body, set by the client.
    pub status: u16,
    /// Human-readable error message.
    pub error_msg: String,
    /// The field that caused the error, where the provider names one.
    pub error_path: Option<String>,
    /// Machine-readable error identifier.
    pub error_name: String,
}

impl<T: FromJson> FromJson for ResponseWithWarnings<T> {
    /// The payload's members and the member `warnings` stand side by side
    /// in one object.
    open spec fn well_shaped(v: JsonValue) -> bool {
        &&& v is Object
        &&& T::well_shaped(v)
        &&& opt_list_shaped::<WarningResponse>(v.get("warnings"@))
    }

    open spec fn described_by(&self, v: JsonValue) -> bool {
        &&& self.inner.described_by(v)
        &&& opt_list_described(self.warnings, v.get("warnings"@))
    }

    fn from_json(j: &Json) -> (r: Option<Self>) {
        if !j.is_object() {
            return None;
        }
        let inner = match T::from_json(j) {
            Some(t) => t,
            None => {
                return None;
            },
        };
        let warnings = match read_opt_list::<WarningResponse>(j, "warnings") {
            Some(w) => w,
            None => {
                return None;
            },
        };
        Some(ResponseWithWarnings { inner, warnings })
    }
}

impl WarningResponse {
    /// The warning as one line: the message, then the name in brackets.
    pub open spec fn words(self) -> Seq<char> {
        self.warning_msg@ + " ("@ + self.warning_name@ + ")"@
    }

    /// The warning as one line.
    pub fn display(&self) -> (r: String)
        ensures
            r@ == self.words(),
    {
        let mut s = self.warning_msg.clone();
        s.append(" (");
        s.append(self.warning_name.as_str());
        s.append(")");
        s
    }
}

impl FromJson for WarningResponse {
    open spec fn well_shaped(v: JsonValue) -> bool {
        &&& v is Object
        &&& v.text_at("warning_msg"@) is Some
        &&& v.text_at("warning_name"@) is Some
    }

    open spec fn described_by(&self, v: JsonValue) -> bool {
        &&& v.text_at("warning_msg"@) == Some(self.warning_msg@)
        &&& v.text_at("warning_name"@) == Some(self.warning_name@)
    }

    fn from_json(j: &Json) -> (r: Option<Self>) {
        if !j.is_object() {
            return None;
        }
        let warning_msg = match j.text_at("warning_msg") {
            Some(s) => s,
            None => {
                return None;
            },
        };
        let warning_name = match j.text_at("warning_name") {
            Some(s) => s,
            None => {
                return None;
            },
        };
        Some(WarningResponse { warning_msg, warning_name })
    }
}

impl ErrorResponseError {
    /// The same error under the status `status`.
    pub fn with_status(self, status: u16) -> (r: Self)
        ensures
            r == (ErrorResponseError { status, ..self }),
    {
        ErrorResponseError { status, ..self }
    }

    /// The error as one line: the name, the field in brackets where one is
    /// named, a colon and the message.
    pub open spec fn words(self) -> Seq<char> {
        match self.error_path {
            Some(path) => self.error_name@ + " ("@ + path@ + "): "@ + self.error_msg@,
            None => self.error_name@ + ": "@ + self.error_msg@,
        }
    }

    /// The error as one line.
    pub fn display(&self) -> (r: String)
        ensures
            r@ == self.words(),
    {
        let mut s = self.error_name.clone();
        match &self.error_path {
            Some(path) => {
                s.append(" (");
                s.append(path.as_str());
                s.append("): ");
            },
            None => {
                s.append(": ");
            },
        }
        s.append(self.error_msg.as_str());
        s
    }
}

impl FromJson for ErrorResponseError {
    open spec fn well_shaped(v: JsonValue) -> bool {
        &&& v is Object
        &&& v.text_at("error_msg"@) is Some
        &&& v.opt_text_at("error_path"@) is Some
        &&& v.text_at("error_name"@) is Some
    }

    /// The status is no part of the body: a record read from one has 200.
    open spec fn described_by(&self, v: JsonValue) -> bool {
        &&& self.status == 200
        &&& v.text_at("error_msg"@) == Some(self.error_msg@)
        &&& v.opt_text_at("error_path"@) == Some(crate::fields::text_opt(self.error_path))
        &&& v.text_at("error_name"@) == Some(self.error_name@)
    }

    fn from_json(j: &Json) -> (r: Option<Self>) {
        if !j.is_object() {
            return None;
        }
        let error_msg = match j.text_at("error_msg") {
            Some(s) => s,
            None => {
                return None;
            },
        };
        let error_path = match j.opt_text_at("error_path") {
            Some(s) => s,
            None => {
                return None;
            },
        };
        let error_name = match j.text_at("error_name") {
            Some(s) => s,
            None => {
                return None;
            },
        };
        Some(ErrorResponseError { status: 200, error_msg, error_path, error_name })
    }
}

impl ToJson for WarningResponse {
    open spec fn wire(&self) -> JsonValue {
        JsonValue::Object(
            Seq::empty()
                + member("warning_msg"@, text_value(self.warning_msg))
                + member("warning_name"@, text_value(self.warning_name)),
        )
    }

    fn to_json(&self) -> (r: Json) {
        let mut entries: Vec<(String, Json)> = Vec::new();
        proof {
            assert(members(entries@) =~= Seq::empty());
        }
        put(&mut entries, "warning_msg", text_json(&self.warning_msg));
        put(&mut entries, "warning_name", text_json(&self.warning_name));
        object(entries)
    }
}

impl ErrorResponseError {
    /// The wire form of the path: the path, or `null` where there is none.
    pub open spec fn path_value(self) -> JsonValue {
        match self.error_path {
            Some(path) => JsonValue::Str(path@),
            None => JsonValue::Null,
        }
    }
}

impl ToJson for ErrorResponseError {
    /// The status is no part of the wire form. The path is always written,
    /// as `null` where there is none.
    open spec fn wire(&self) -> JsonValue {
        JsonValue::Object(
            Seq::empty()
                + member("error_msg"@, text_value(self.error_msg))
                + member("error_path"@, self.path_value())
                + member("error_name"@, text_value(self.error_name)),
        )
    }

    fn to_json(&self) -> (r: Json) {
        let mut entries: Vec<(String, Json)> = Vec::new();
        proof {
            assert(members(entries@) =~= Seq::empty());
        }
        put(&mut entries, "error_msg", text_json(&self.error_msg));
        let path = match &self.error_path {
            Some(path) => text_json(path),
            None => Json::Null,
        };
        put(&mut entries, "error_path", path);
        put(&mut entries, "error_name", text_json(&self.error_name));
        object(entries)
    }
}

impl ToJson for ErrorResponse {
    open spec fn wire(&self) -> JsonValue {
        JsonValue::Object(Seq::empty() + member("error"@, self.error.wire()))
    }

    fn to_json(&self) -> (r: Json) {
        let mut entries: Vec<(String, Json)> = Vec::new();
        proof {
            assert(members(entries@) =~= Seq::empty());
        }
        put(&mut entries, "error", self.error.to_json());
        object(entries)
    }
}

impl FromJson for ErrorResponse {
    open spec fn well_shaped(v: JsonValue) -> bool {
        &&& v is Object
        &&& v.get("error"@) is Some
        &&& ErrorResponseError::well_shaped(v.get("error"@).unwrap())
    }

    open spec fn described_by(&self, v: JsonValue) -> bool {
        &&& v.get("error"@) is Some
        &&& self.error.described_by(v.get("error"@).unwrap())
    }

    fn from_json(j: &Json) -> (r: Option<Self>) {
        if !j.is_object() {
            return None;
        }
        match j.get("error") {
            Some(f) => match ErrorResponseError::from_json(f) {
                Some(error) => Some(ErrorResponse { error }),
                None => None,
            },
            None => None,
        }
    }
}

} // verus!
