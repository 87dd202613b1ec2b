//! The records of a signature request: what is sent to ask for signatures,
//! what the provider reports back, and the wire form of both.

use crate::decode::{
    opt_described, opt_list_described, opt_list_shaped, opt_shaped, read_opt, read_opt_list,
    read_req, read_req_list, req_described, req_list_described, req_list_shaped, req_shaped,
    FromJson,
};
use crate::encode::{
    list_json, list_value, member, members, number_of_u64, opt_files_json, opt_files_value,
    opt_flag_json, opt_flag_value, opt_i32_json, opt_i32_value, opt_i64_json, opt_i64_value,
    opt_json, opt_list_json, opt_list_value, opt_member, opt_pairs_json, opt_pairs_value,
    opt_text_json, opt_text_value, opt_texts_json, opt_texts_value, opt_u64_json, opt_u64_value,
    opt_value, object, pairs_json, pairs_value, put, put_opt, text_json, text_value, texts_json,
    texts_value, u64_json, ToJson,
};
use crate::fields::{files_opt, pairs_opt, pairs_view, text_opt, texts_opt, texts_view};
use crate::json::{same_text, Json, JsonValue};
use vstd::prelude::*;

verus! {

/// A request to send documents made from templates to their signers.
#[derive(Debug)]
pub struct SendSignatureRequest {
    /// The signers, in the order in which they are sent.
    pub signers: Vec<SubSignatureRequestTemplateSigner>,
    /// The templates the documents are made from.
    pub template_ids: Vec<String>,
    /// Whether signers may decline to sign.
    pub allow_decline: Option<bool>,
    /// Those who get copies.
    pub ccs: Option<Vec<SubCC>>,
    /// The client id of an API app.
    pub client_id: Option<String>,
    /// Values for the custom fields of the templates.
    pub custom_fields: Option<Vec<SubCustomField>>,
    /// The files themselves, each as its bytes.
    pub files: Option<Vec<Vec<u8>>>,
    /// Addresses from which the files can be fetched.
    pub file_urls: Option<Vec<String>>,
    /// Whether signing must meet eIDAS.
    pub is_eid: Option<bool>,
    /// A message for the e-mail that asks for the signature.
    pub message: Option<String>,
    /// Keys and values kept with the request. Of pairs with one key only the last is written.
    pub metadata: Option<Vec<(String, String)>>,
    /// The ways of signing that are offered.
    pub signing_options: Option<SubSigningOptions>,
    /// Where a signer is led after signing.
    pub signing_redirect_url: Option<String>,
    /// Whether the request is only a test.
    pub test_mode: Option<bool>,
    /// The title of the request.
    pub title: Option<String>,
}

/// A signer of a request made from templates.
#[derive(Debug)]
pub struct SubSignatureRequestTemplateSigner {
    /// The role of the template that this signer fills.
    pub role: String,
    /// The signer's full name.
    pub name: String,
    /// Where the request is sent.
    pub email_address: String,
    /// A PIN the signer must enter.
    pub pin: Option<String>,
    /// A phone number for messages to the signer.
    pub sms_phone_number: Option<String>,
    /// What the phone number is used for.
    pub sms_phone_number_type: Option<SMSPhoneNumberType>,
}

/// What a signer's phone number is used for.
#[derive(Clone, Copy, Debug, PartialEq, Eq)]
pub enum SMSPhoneNumberType {
    /// To authenticate the signer.
    Authentication,
    /// To deliver the request.
    Delivery,
}

/// Someone who gets a copy and does not sign.
#[derive(Debug)]
pub struct SubCC {
    /// The role of the template that this recipient fills.
    pub role: String,
    /// The recipient's e-mail address.
    pub email: String,
}

/// A value for a custom field of a template.
#[derive(Debug)]
pub struct SubCustomField {
    /// The field's name in the template.
    pub name: String,
    /// The role that may edit the field.
    pub editor: Option<String>,
    /// Whether the field must be filled.
    pub required: Option<bool>,
    /// The value the field starts with.
    pub value: Option<String>,
}

/// The ways of signing that are offered to a signer.
#[derive(Debug)]
pub struct SubSigningOptions {
    /// The way that is chosen at first.
    pub default_type: SubSigningOptionsDefaultType,
    /// Whether a signature may be drawn.
    pub draw: Option<bool>,
    /// Whether a signature may be given by phone.
    pub phone: Option<bool>,
    /// Whether a signature may be typed.
    pub o_type: Option<bool>,
    /// Whether a picture of a signature may be uploaded.
    pub upload: Option<bool>,
}

/// A way of signing.
#[derive(Clone, Copy, Debug, PartialEq, Eq)]
pub enum SubSigningOptionsDefaultType {
    /// Drawing.
    Draw,
    /// By phone.
    Phone,
    /// Typing.
    Type,
    /// Uploading a picture.
    Upload,
}

/// A signature request as the provider reports it.
#[derive(Debug)]
pub struct SignatureRequestResponse {
    /// Whether the request is only a test.
    pub test_mode: Option<bool>,
    /// The request's identifier.
    pub signature_request_id: String,
    /// Who made the request.
    pub requester_email_address: Option<String>,
    /// The title as it is now.
    pub title: String,
    /// The title the request was made with.
    pub original_title: String,
    /// The subject of the e-mail.
    pub subject: Option<String>,
    /// The message of the e-mail.
    pub message: Option<String>,
    /// Keys and values kept with the request, in the order of the document.
    pub metadata: Vec<(String, String)>,
    /// When the request was made, in seconds since the epoch.
    pub created_at: u64,
    /// When the request expires, in seconds since the epoch.
    pub expires_at: Option<u64>,
    /// Whether every signer has signed.
    pub is_complete: bool,
    /// Whether a signer has declined.
    pub is_declined: bool,
    /// Whether something went wrong with the request.
    pub has_error: bool,
    /// Where the documents can be fetched.
    pub files_url: String,
    /// Where the documents are signed.
    pub signing_url: Option<String>,
    /// Where the request can be looked at.
    pub details_url: String,
    /// Those who got copies.
    pub cc_email_addresses: Vec<String>,
    /// Where a signer is led after signing.
    pub signing_redirect_url: Option<String>,
    /// Where the signed copy is.
    pub final_copy_uri: Option<String>,
    /// The templates the documents were made from.
    pub template_ids: Option<Vec<String>>,
    /// Identifiers the caller gave.
    pub custom_ids: Option<Vec<String>>,
    /// What a signer is asked to attach.
    pub attachments: Option<SignatureRequestResponseAttachment>,
    /// What signers entered into the form fields.
    pub response_data: Option<Vec<SignatureRequestResponseData>>,
    /// The state of each signer's signature, in the provider's order.
    pub signatures: Vec<SignatureRequestResponseSignatures>,
    /// The bulk job the request belongs to.
    pub bulk_send_job_id: Option<String>,
}

/// A custom field as the provider reports it.
#[derive(Debug)]
pub struct SignatureRequestResponseCustomFieldBase {
    /// The kind of field.
    pub o_type: SignatureRequestResponseCustomFieldBaseType,
    /// The field's name.
    pub name: String,
    /// Whether the field must be filled.
    pub required: Option<bool>,
    /// The field's identifier in the API.
    pub api_id: Option<String>,
    /// The role that may edit the field.
    pub editor: Option<String>,
    /// The field's value.
    pub value: Option<String>,
}

/// The kinds of custom field.
#[derive(Clone, Copy, Debug, PartialEq, Eq)]
pub enum SignatureRequestResponseCustomFieldBaseType {
    /// A text field.
    Text,
    /// A checkbox.
    Checkbox,
}

/// A file that a signer is asked to attach.
#[derive(Debug)]
pub struct SignatureRequestResponseAttachment {
    /// The attachment's identifier.
    pub id: String,
    /// The signer who is asked for it.
    pub signer: String,
    /// The attachment's name.
    pub name: String,
    /// Whether it must be attached.
    pub required: bool,
    /// What the signer is told about it.
    pub instructions: Option<String>,
    /// When it was uploaded, in seconds since the epoch.
    pub uploaded_at: Option<u64>,
}

/// What a signer entered into one form field.
#[derive(Debug)]
pub struct SignatureRequestResponseData {
    /// The field's identifier in the API.
    pub api_id: Option<String>,
    /// The signature the entry belongs to.
    pub signature_id: Option<String>,
    /// The field's name.
    pub name: Option<String>,
    /// Whether the field had to be filled.
    pub required: Option<bool>,
    /// The kind of field.
    pub o_type: Option<SignatureRequestResponseDataType>,
    /// What was entered.
    pub value: Option<String>,
}

/// The state of one signer's signature.
#[derive(Debug)]
pub struct SignatureRequestResponseSignatures {
    /// The signature's identifier.
    pub signature_id: String,
    /// The signer group, where the signer belongs to one.
    pub signer_group_guid: Option<String>,
    /// The signer's e-mail address.
    pub signer_email_address: String,
    /// The signer's name.
    pub signer_name: Option<String>,
    /// The signer's role.
    pub signer_role: Option<String>,
    /// The signer's place where signing goes in order.
    pub order: Option<i32>,
    /// The state of the signature.
    pub status_code: String,
    /// Why the signer declined.
    pub decline_reason: Option<String>,
    /// When it was signed, in seconds since the epoch.
    pub signed_at: Option<i64>,
    /// When the signer last looked at the documents.
    pub last_viewed_at: Option<i64>,
    /// When the signer was last reminded.
    pub last_reminded_at: Option<i64>,
    /// Whether the signer must enter a PIN.
    pub has_pin: bool,
    /// Whether the signer is authenticated by a message to the phone.
    pub has_sms_auth: Option<bool>,
    /// Whether the request also goes to the signer's phone.
    pub has_sms_delivery: Option<bool>,
    /// The signer's phone number.
    pub sms_phone_number: Option<String>,
    /// Who handed the signature on.
    pub reassigned_by: Option<String>,
    /// Why it was handed on.
    pub reassignment_reason: Option<String>,
    /// Who had it before.
    pub reassigned_from: Option<String>,
    /// What went wrong with this signature.
    pub error: Option<String>,
}

/// The kinds of form field.
#[derive(Clone, Copy, Debug, PartialEq, Eq)]
pub enum SignatureRequestResponseDataType {
    /// A text field.
    Text,
    /// A checkbox.
    Checkbox,
    /// A choice from a list.
    Dropdown,
    /// One of a group of buttons.
    Radio,
    /// A signature.
    Signature,
    /// The date of signing.
    DateSigned,
    /// Initials.
    Initials,
    /// Text merged in from outside.
    TextMerge,
    /// A checkbox merged in from outside.
    CheckboxMerge,
}

impl SendSignatureRequest {
    /// A request with its signers and templates, and nothing else set.
    pub fn new(
        signers: Vec<SubSignatureRequestTemplateSigner>,
        template_ids: Vec<String>,
    ) -> (r: Self)
        ensures
            r == (SendSignatureRequest {
                signers,
                template_ids,
                allow_decline: None,
                ccs: None,
                client_id: None,
                custom_fields: None,
                files: None,
                file_urls: None,
                is_eid: None,
                message: None,
                metadata: None,
                signing_options: None,
                signing_redirect_url: None,
                test_mode: None,
                title: None,
            }),
    {
        SendSignatureRequest {
            signers,
            template_ids,
            allow_decline: None,
            ccs: None,
            client_id: None,
            custom_fields: None,
            files: None,
            file_urls: None,
            is_eid: None,
            message: None,
            metadata: None,
            signing_options: None,
            signing_redirect_url: None,
            test_mode: None,
            title: None,
        }
    }

    /// Sets `allow_decline` and leaves every other field as it is.
    pub fn allow_decline(self, allow_decline: bool) -> (r: Self)
        ensures
            r == (SendSignatureRequest { allow_decline: Some(allow_decline), ..self }),
    {
        SendSignatureRequest { allow_decline: Some(allow_decline), ..self }
    }

    /// Sets `ccs` and leaves every other field as it is.
    pub fn ccs(self, ccs: Vec<SubCC>) -> (r: Self)
        ensures
            r == (SendSignatureRequest { ccs: Some(ccs), ..self }),
    {
        SendSignatureRequest { ccs: Some(ccs), ..self }
    }

    /// Sets `client_id` and leaves every other field as it is.
    pub fn client_id(self, client_id: String) -> (r: Self)
        ensures
            r == (SendSignatureRequest { client_id: Some(client_id), ..self }),
    {
        SendSignatureRequest { client_id: Some(client_id), ..self }
    }

    /// Sets `custom_fields` and leaves every other field as it is.
    pub fn custom_fields(self, custom_fields: Vec<SubCustomField>) -> (r: Self)
        ensures
            r == (SendSignatureRequest { custom_fields: Some(custom_fields), ..self }),
    {
        SendSignatureRequest { custom_fields: Some(custom_fields), ..self }
    }

    /// Sets `files` and leaves every other field as it is.
    pub fn files(self, files: Vec<Vec<u8>>) -> (r: Self)
        ensures
            r == (SendSignatureRequest { files: Some(files), ..self }),
    {
        SendSignatureRequest { files: Some(files), ..self }
    }

    /// Sets `file_urls` and leaves every other field as it is.
    pub fn file_urls(self, file_urls: Vec<String>) -> (r: Self)
        ensures
            r == (SendSignatureRequest { file_urls: Some(file_urls), ..self }),
    {
        SendSignatureRequest { file_urls: Some(file_urls), ..self }
    }

    /// Sets `is_eid` and leaves every other field as it is.
    pub fn is_eid(self, is_eid: bool) -> (r: Self)
        ensures
            r == (SendSignatureRequest { is_eid: Some(is_eid), ..self }),
    {
        SendSignatureRequest { is_eid: Some(is_eid), ..self }
    }

    /// Sets `message` and leaves every other field as it is.
    pub fn message(self, message: String) -> (r: Self)
        ensures
            r == (SendSignatureRequest { message: Some(message), ..self }),
    {
        SendSignatureRequest { message: Some(message), ..self }
    }

    /// Sets `metadata` and leaves every other field as it is.
    pub fn metadata(self, metadata: Vec<(String, String)>) -> (r: Self)
        ensures
            r == (SendSignatureRequest { metadata: Some(metadata), ..self }),
    {
        SendSignatureRequest { metadata: Some(metadata), ..self }
    }

    /// Sets `signing_options` and leaves every other field as it is.
    pub fn signing_options(self, signing_options: SubSigningOptions) -> (r: Self)
        ensures
            r == (SendSignatureRequest { signing_options: Some(signing_options), ..self }),
    {
        SendSignatureRequest { signing_options: Some(signing_options), ..self }
    }

    /// Sets `signing_redirect_url` and leaves every other field as it is.
    pub fn signing_redirect_url(self, signing_redirect_url: String) -> (r: Self)
        ensures
            r == (SendSignatureRequest {
                signing_redirect_url: Some(signing_redirect_url),
                ..self
            }),
    {
        SendSignatureRequest {
            signing_redirect_url: Some(signing_redirect_url),
            ..self
        }
    }

    /// Sets `test_mode` and leaves every other field as it is.
    pub fn test_mode(self, test_mode: bool) -> (r: Self)
        ensures
            r == (SendSignatureRequest { test_mode: Some(test_mode), ..self }),
    {
        SendSignatureRequest { test_mode: Some(test_mode), ..self }
    }

    /// Sets `title` and leaves every other field as it is.
    pub fn title(self, title: String) -> (r: Self)
        ensures
            r == (SendSignatureRequest { title: Some(title), ..self }),
    {
        SendSignatureRequest { title: Some(title), ..self }
    }
}

impl SubSignatureRequestTemplateSigner {
    /// A signer with a role, a name and an address, and nothing else set.
    pub fn new(role: String, name: String, email_address: String) -> (r: Self)
        ensures
            r == (SubSignatureRequestTemplateSigner {
                role,
                name,
                email_address,
                pin: None,
                sms_phone_number: None,
                sms_phone_number_type: None,
            }),
    {
        SubSignatureRequestTemplateSigner {
            role,
            name,
            email_address,
            pin: None,
            sms_phone_number: None,
            sms_phone_number_type: None,
        }
    }

    /// Sets `pin` and leaves every other field as it is.
    pub fn pin(self, pin: String) -> (r: Self)
        ensures
            r == (SubSignatureRequestTemplateSigner { pin: Some(pin), ..self }),
    {
        SubSignatureRequestTemplateSigner { pin: Some(pin), ..self }
    }

    /// Sets `sms_phone_number` and leaves every other field as it is.
    pub fn sms_phone_number(self, sms_phone_number: String) -> (r: Self)
        ensures
            r == (SubSignatureRequestTemplateSigner {
                sms_phone_number: Some(sms_phone_number),
                ..self
            }),
    {
        SubSignatureRequestTemplateSigner {
            sms_phone_number: Some(sms_phone_number),
            ..self
        }
    }

    /// Sets `sms_phone_number_type` and leaves every other field as it is.
    pub fn sms_phone_number_type(self, sms_phone_number_type: SMSPhoneNumberType) -> (r: Self)
        ensures
            r == (SubSignatureRequestTemplateSigner {
                sms_phone_number_type: Some(sms_phone_number_type),
                ..self
            }),
    {
        SubSignatureRequestTemplateSigner {
            sms_phone_number_type: Some(sms_phone_number_type),
            ..self
        }
    }
}

impl SubCC {
    /// A recipient of copies.
    pub fn new(role: String, email: String) -> (r: Self)
        ensures
            r == (SubCC {
                role,
                email,
            }),
    {
        SubCC {
            role,
            email,
        }
    }
}

impl SubCustomField {
    /// A custom field by its name, with nothing else set.
    pub fn new(name: String) -> (r: Self)
        ensures
            r == (SubCustomField {
                name,
                editor: None,
                required: None,
                value: None,
            }),
    {
        SubCustomField {
            name,
            editor: None,
            required: None,
            value: None,
        }
    }

    /// Sets `editor` and leaves every other field as it is.
    pub fn editor(self, editor: String) -> (r: Self)
        ensures
            r == (SubCustomField { editor: Some(editor), ..self }),
    {
        SubCustomField { editor: Some(editor), ..self }
    }

    /// Sets `required` and leaves every other field as it is.
    pub fn required(self, required: bool) -> (r: Self)
        ensures
            r == (SubCustomField { required: Some(required), ..self }),
    {
        SubCustomField { required: Some(required), ..self }
    }

    /// Sets `value` and leaves every other field as it is.
    pub fn value(self, value: String) -> (r: Self)
        ensures
            r == (SubCustomField { value: Some(value), ..self }),
    {
        SubCustomField { value: Some(value), ..self }
    }
}

impl SubSigningOptions {
    /// Signing options with the way that is chosen at first, and nothing else set.
    pub fn new(default_type: SubSigningOptionsDefaultType) -> (r: Self)
        ensures
            r == (SubSigningOptions {
                default_type,
                draw: None,
                phone: None,
                o_type: None,
                upload: None,
            }),
    {
        SubSigningOptions {
            default_type,
            draw: None,
            phone: None,
            o_type: None,
            upload: None,
        }
    }

    /// Sets `draw` and leaves every other field as it is.
    pub fn draw(self, draw: bool) -> (r: Self)
        ensures
            r == (SubSigningOptions { draw: Some(draw), ..self }),
    {
        SubSigningOptions { draw: Some(draw), ..self }
    }

    /// Sets `phone` and leaves every other field as it is.
    pub fn phone(self, phone: bool) -> (r: Self)
        ensures
            r == (SubSigningOptions { phone: Some(phone), ..self }),
    {
        SubSigningOptions { phone: Some(phone), ..self }
    }

    /// Sets `o_type` and leaves every other field as it is.
    pub fn o_type(self, o_type: bool) -> (r: Self)
        ensures
            r == (SubSigningOptions { o_type: Some(o_type), ..self }),
    {
        SubSigningOptions { o_type: Some(o_type), ..self }
    }

    /// Sets `upload` and leaves every other field as it is.
    pub fn upload(self, upload: bool) -> (r: Self)
        ensures
            r == (SubSigningOptions { upload: Some(upload), ..self }),
    {
        SubSigningOptions { upload: Some(upload), ..self }
    }
}

impl SignatureRequestResponseCustomFieldBase {
    /// A custom field of a kind and a name, with nothing else set.
    pub fn new(o_type: SignatureRequestResponseCustomFieldBaseType, name: String) -> (r: Self)
        ensures
            r == (SignatureRequestResponseCustomFieldBase {
                o_type,
                name,
                required: None,
                api_id: None,
                editor: None,
                value: None,
            }),
    {
        SignatureRequestResponseCustomFieldBase {
            o_type,
            name,
            required: None,
            api_id: None,
            editor: None,
            value: None,
        }
    }

    /// Sets `required` and leaves every other field as it is.
    pub fn required(self, required: bool) -> (r: Self)
        ensures
            r == (SignatureRequestResponseCustomFieldBase { required: Some(required), ..self }),
    {
        SignatureRequestResponseCustomFieldBase { required: Some(required), ..self }
    }

    /// Sets `api_id` and leaves every other field as it is.
    pub fn api_id(self, api_id: String) -> (r: Self)
        ensures
            r == (SignatureRequestResponseCustomFieldBase { api_id: Some(api_id), ..self }),
    {
        SignatureRequestResponseCustomFieldBase { api_id: Some(api_id), ..self }
    }

    /// Sets `editor` and leaves every other field as it is.
    pub fn editor(self, editor: String) -> (r: Self)
        ensures
            r == (SignatureRequestResponseCustomFieldBase { editor: Some(editor), ..self }),
    {
        SignatureRequestResponseCustomFieldBase { editor: Some(editor), ..self }
    }

    /// Sets `value` and leaves every other field as it is.
    pub fn value(self, value: String) -> (r: Self)
        ensures
            r == (SignatureRequestResponseCustomFieldBase { value: Some(value), ..self }),
    {
        SignatureRequestResponseCustomFieldBase { value: Some(value), ..self }
    }
}

impl SignatureRequestResponseAttachment {
    /// An attachment with nothing optional set.
    pub fn new(id: String, signer: String, name: String, required: bool) -> (r: Self)
        ensures
            r == (SignatureRequestResponseAttachment {
                id,
                signer,
                name,
                required,
                instructions: None,
                uploaded_at: None,
            }),
    {
        SignatureRequestResponseAttachment {
            id,
            signer,
            name,
            required,
            instructions: None,
            uploaded_at: None,
        }
    }

    /// Sets `instructions` and leaves every other field as it is.
    pub fn instructions(self, instructions: String) -> (r: Self)
        ensures
            r == (SignatureRequestResponseAttachment { instructions: Some(instructions), ..self }),
    {
        SignatureRequestResponseAttachment { instructions: Some(instructions), ..self }
    }

    /// Sets `uploaded_at` and leaves every other field as it is.
    pub fn uploaded_at(self, uploaded_at: u64) -> (r: Self)
        ensures
            r == (SignatureRequestResponseAttachment { uploaded_at: Some(uploaded_at), ..self }),
    {
        SignatureRequestResponseAttachment { uploaded_at: Some(uploaded_at), ..self }
    }
}

impl SMSPhoneNumberType {
    /// The name of this variant on the wire.
    pub open spec fn wire_name(self) -> Seq<char> {
        match self {
            SMSPhoneNumberType::Authentication => "authentication"@,
            SMSPhoneNumberType::Delivery => "delivery"@,
        }
    }

    /// The name of this variant on the wire.
    pub fn name(&self) -> (r: &'static str)
        ensures
            r@ == self.wire_name(),
    {
        match self {
            SMSPhoneNumberType::Authentication => "authentication",
            SMSPhoneNumberType::Delivery => "delivery",
        }
    }

    /// The variant that a name on the wire stands for.
    pub open spec fn named(text: Seq<char>) -> Option<Self> {
        if text == "authentication"@ {
            Some(SMSPhoneNumberType::Authentication)
        } else if text == "delivery"@ {
            Some(SMSPhoneNumberType::Delivery)
        } else {
            None
        }
    }
}

impl ToJson for SMSPhoneNumberType {
    open spec fn wire(&self) -> JsonValue {
        JsonValue::Str(self.wire_name())
    }

    fn to_json(&self) -> (r: Json) {
        Json::Str(self.name().to_owned())
    }
}

impl FromJson for SMSPhoneNumberType {
    open spec fn well_shaped(v: JsonValue) -> bool {
        v is Str && Self::named(v->Str_0) is Some
    }

    open spec fn described_by(&self, v: JsonValue) -> bool {
        v is Str && Self::named(v->Str_0) == Some(*self)
    }

    fn from_json(j: &Json) -> (r: Option<Self>) {
        match j {
            Json::Str(s) => {
                if same_text(s.as_str(), "authentication") {
                    Some(SMSPhoneNumberType::Authentication)
                } else if same_text(s.as_str(), "delivery") {
                    Some(SMSPhoneNumberType::Delivery)
                } else {
                    None
                }
            },
            _ => None,
        }
    }
}

impl SubSigningOptionsDefaultType {
    /// The name of this variant on the wire.
    pub open spec fn wire_name(self) -> Seq<char> {
        match self {
            SubSigningOptionsDefaultType::Draw => "draw"@,
            SubSigningOptionsDefaultType::Phone => "phone"@,
            SubSigningOptionsDefaultType::Type => "type"@,
            SubSigningOptionsDefaultType::Upload => "upload"@,
        }
    }

    /// The name of this variant on the wire.
    pub fn name(&self) -> (r: &'static str)
        ensures
            r@ == self.wire_name(),
    {
        match self {
            SubSigningOptionsDefaultType::Draw => "draw",
            SubSigningOptionsDefaultType::Phone => "phone",
            SubSigningOptionsDefaultType::Type => "type",
            SubSigningOptionsDefaultType::Upload => "upload",
        }
    }

    /// The variant that a name on the wire stands for.
    pub open spec fn named(text: Seq<char>) -> Option<Self> {
        if text == "draw"@ {
            Some(SubSigningOptionsDefaultType::Draw)
        } else if text == "phone"@ {
            Some(SubSigningOptionsDefaultType::Phone)
        } else if text == "type"@ {
            Some(SubSigningOptionsDefaultType::Type)
        } else if text == "upload"@ {
            Some(SubSigningOptionsDefaultType::Upload)
        } else {
            None
        }
    }
}

impl ToJson for SubSigningOptionsDefaultType {
    open spec fn wire(&self) -> JsonValue {
        JsonValue::Str(self.wire_name())
    }

    fn to_json(&self) -> (r: Json) {
        Json::Str(self.name().to_owned())
    }
}

impl FromJson for SubSigningOptionsDefaultType {
    open spec fn well_shaped(v: JsonValue) -> bool {
        v is Str && Self::named(v->Str_0) is Some
    }

    open spec fn described_by(&self, v: JsonValue) -> bool {
        v is Str && Self::named(v->Str_0) == Some(*self)
    }

    fn from_json(j: &Json) -> (r: Option<Self>) {
        match j {
            Json::Str(s) => {
                if same_text(s.as_str(), "draw") {
                    Some(SubSigningOptionsDefaultType::Draw)
                } else if same_text(s.as_str(), "phone") {
                    Some(SubSigningOptionsDefaultType::Phone)
                } else if same_text(s.as_str(), "type") {
                    Some(SubSigningOptionsDefaultType::Type)
                } else if same_text(s.as_str(), "upload") {
                    Some(SubSigningOptionsDefaultType::Upload)
                } else {
                    None
                }
            },
            _ => None,
        }
    }
}

impl SignatureRequestResponseCustomFieldBaseType {
    /// The name of this variant on the wire.
    pub open spec fn wire_name(self) -> Seq<char> {
        match self {
            SignatureRequestResponseCustomFieldBaseType::Text => "text"@,
            SignatureRequestResponseCustomFieldBaseType::Checkbox => "checkbox"@,
        }
    }

    /// The name of this variant on the wire.
    pub fn name(&self) -> (r: &'static str)
        ensures
            r@ == self.wire_name(),
    {
        match self {
            SignatureRequestResponseCustomFieldBaseType::Text => "text",
            SignatureRequestResponseCustomFieldBaseType::Checkbox => "checkbox",
        }
    }

    /// The variant that a name on the wire stands for.
    pub open spec fn named(text: Seq<char>) -> Option<Self> {
        if text == "text"@ {
            Some(SignatureRequestResponseCustomFieldBaseType::Text)
        } else if text == "checkbox"@ {
            Some(SignatureRequestResponseCustomFieldBaseType::Checkbox)
        } else {
            None
        }
    }
}

impl ToJson for SignatureRequestResponseCustomFieldBaseType {
    open spec fn wire(&self) -> JsonValue {
        JsonValue::Str(self.wire_name())
    }

    fn to_json(&self) -> (r: Json) {
        Json::Str(self.name().to_owned())
    }
}

impl FromJson for SignatureRequestResponseCustomFieldBaseType {
    open spec fn well_shaped(v: JsonValue) -> bool {
        v is Str && Self::named(v->Str_0) is Some
    }

    open spec fn described_by(&self, v: JsonValue) -> bool {
        v is Str && Self::named(v->Str_0) == Some(*self)
    }

    fn from_json(j: &Json) -> (r: Option<Self>) {
        match j {
            Json::Str(s) => {
                if same_text(s.as_str(), "text") {
                    Some(SignatureRequestResponseCustomFieldBaseType::Text)
                } else if same_text(s.as_str(), "checkbox") {
                    Some(SignatureRequestResponseCustomFieldBaseType::Checkbox)
                } else {
                    None
                }
            },
            _ => None,
        }
    }
}

impl SignatureRequestResponseDataType {
    /// The name of this variant on the wire.
    pub open spec fn wire_name(self) -> Seq<char> {
        match self {
            SignatureRequestResponseDataType::Text => "text"@,
            SignatureRequestResponseDataType::Checkbox => "checkbox"@,
            SignatureRequestResponseDataType::Dropdown => "dropdown"@,
            SignatureRequestResponseDataType::Radio => "radio"@,
            SignatureRequestResponseDataType::Signature => "signature"@,
            SignatureRequestResponseDataType::DateSigned => "date_signed"@,
            SignatureRequestResponseDataType::Initials => "initials"@,
            SignatureRequestResponseDataType::TextMerge => "text-merge"@,
            SignatureRequestResponseDataType::CheckboxMerge => "checkbox-merge"@,
        }
    }

    /// The name of this variant on the wire.
    pub fn name(&self) -> (r: &'static str)
        ensures
            r@ == self.wire_name(),
    {
        match self {
            SignatureRequestResponseDataType::Text => "text",
            SignatureRequestResponseDataType::Checkbox => "checkbox",
            SignatureRequestResponseDataType::Dropdown => "dropdown",
            SignatureRequestResponseDataType::Radio => "radio",
            SignatureRequestResponseDataType::Signature => "signature",
            SignatureRequestResponseDataType::DateSigned => "date_signed",
            SignatureRequestResponseDataType::Initials => "initials",
            SignatureRequestResponseDataType::TextMerge => "text-merge",
            SignatureRequestResponseDataType::CheckboxMerge => "checkbox-merge",
        }
    }

    /// The variant that a name on the wire stands for.
    pub open spec fn named(text: Seq<char>) -> Option<Self> {
        if text == "text"@ {
            Some(SignatureRequestResponseDataType::Text)
        } else if text == "checkbox"@ {
            Some(SignatureRequestResponseDataType::Checkbox)
        } else if text == "dropdown"@ {
            Some(SignatureRequestResponseDataType::Dropdown)
        } else if text == "radio"@ {
            Some(SignatureRequestResponseDataType::Radio)
        } else if text == "signature"@ {
            Some(SignatureRequestResponseDataType::Signature)
        } else if text == "date_signed"@ {
            Some(SignatureRequestResponseDataType::DateSigned)
        } else if text == "initials"@ {
            Some(SignatureRequestResponseDataType::Initials)
        } else if text == "text-merge"@ {
            Some(SignatureRequestResponseDataType::TextMerge)
        } else if text == "checkbox-merge"@ {
            Some(SignatureRequestResponseDataType::CheckboxMerge)
        } else {
            None
        }
    }
}

impl ToJson for SignatureRequestResponseDataType {
    open spec fn wire(&self) -> JsonValue {
        JsonValue::Str(self.wire_name())
    }

    fn to_json(&self) -> (r: Json) {
        Json::Str(self.name().to_owned())
    }
}

impl FromJson for SignatureRequestResponseDataType {
    open spec fn well_shaped(v: JsonValue) -> bool {
        v is Str && Self::named(v->Str_0) is Some
    }

    open spec fn described_by(&self, v: JsonValue) -> bool {
        v is Str && Self::named(v->Str_0) == Some(*self)
    }

    fn from_json(j: &Json) -> (r: Option<Self>) {
        match j {
            Json::Str(s) => {
                if same_text(s.as_str(), "text") {
                    Some(SignatureRequestResponseDataType::Text)
                } else if same_text(s.as_str(), "checkbox") {
                    Some(SignatureRequestResponseDataType::Checkbox)
                } else if same_text(s.as_str(), "dropdown") {
                    Some(SignatureRequestResponseDataType::Dropdown)
                } else if same_text(s.as_str(), "radio") {
                    Some(SignatureRequestResponseDataType::Radio)
                } else if same_text(s.as_str(), "signature") {
                    Some(SignatureRequestResponseDataType::Signature)
                } else if same_text(s.as_str(), "date_signed") {
                    Some(SignatureRequestResponseDataType::DateSigned)
                } else if same_text(s.as_str(), "initials") {
                    Some(SignatureRequestResponseDataType::Initials)
                } else if same_text(s.as_str(), "text-merge") {
                    Some(SignatureRequestResponseDataType::TextMerge)
                } else if same_text(s.as_str(), "checkbox-merge") {
                    Some(SignatureRequestResponseDataType::CheckboxMerge)
                } else {
                    None
                }
            },
            _ => None,
        }
    }
}

impl ToJson for SendSignatureRequest {
    open spec fn wire(&self) -> JsonValue {
        JsonValue::Object(
            Seq::empty()
                + member("signers"@, list_value(self.signers@))
                + member("template_ids"@, texts_value(self.template_ids@))
                + opt_member("allow_decline"@, opt_flag_value(self.allow_decline))
                + opt_member("ccs"@, opt_list_value(self.ccs))
                + opt_member("client_id"@, opt_text_value(self.client_id))
                + opt_member("custom_fields"@, opt_list_value(self.custom_fields))
                + opt_member("files"@, opt_files_value(self.files))
                + opt_member("file_urls"@, opt_texts_value(self.file_urls))
                + opt_member("is_eid"@, opt_flag_value(self.is_eid))
                + opt_member("message"@, opt_text_value(self.message))
                + opt_member("metadata"@, opt_pairs_value(self.metadata))
                + opt_member("signing_options"@, opt_value(self.signing_options))
                + opt_member("signing_redirect_url"@, opt_text_value(self.signing_redirect_url))
                + opt_member("test_mode"@, opt_flag_value(self.test_mode))
                + opt_member("title"@, opt_text_value(self.title))
            ,
        )
    }

    fn to_json(&self) -> (r: Json) {
        let mut entries: Vec<(String, Json)> = Vec::new();
        proof {
            assert(members(entries@) =~= Seq::empty());
        }
        put(&mut entries, "signers", list_json(&self.signers));
        put(&mut entries, "template_ids", texts_json(&self.template_ids));
        put_opt(&mut entries, "allow_decline", opt_flag_json(&self.allow_decline));
        put_opt(&mut entries, "ccs", opt_list_json(&self.ccs));
        put_opt(&mut entries, "client_id", opt_text_json(&self.client_id));
        put_opt(&mut entries, "custom_fields", opt_list_json(&self.custom_fields));
        put_opt(&mut entries, "files", opt_files_json(&self.files));
        put_opt(&mut entries, "file_urls", opt_texts_json(&self.file_urls));
        put_opt(&mut entries, "is_eid", opt_flag_json(&self.is_eid));
        put_opt(&mut entries, "message", opt_text_json(&self.message));
        put_opt(&mut entries, "metadata", opt_pairs_json(&self.metadata));
        put_opt(&mut entries, "signing_options", opt_json(&self.signing_options));
        put_opt(&mut entries, "signing_redirect_url", opt_text_json(&self.signing_redirect_url));
        put_opt(&mut entries, "test_mode", opt_flag_json(&self.test_mode));
        put_opt(&mut entries, "title", opt_text_json(&self.title));
        object(entries)
    }
}

impl FromJson for SendSignatureRequest {
    open spec fn well_shaped(v: JsonValue) -> bool {
        &&& v is Object
        &&& req_list_shaped::<SubSignatureRequestTemplateSigner>(v.get("signers"@))
        &&& v.texts_at("template_ids"@) is Some
        &&& v.opt_flag_at("allow_decline"@) is Some
        &&& opt_list_shaped::<SubCC>(v.get("ccs"@))
        &&& v.opt_text_at("client_id"@) is Some
        &&& opt_list_shaped::<SubCustomField>(v.get("custom_fields"@))
        &&& v.opt_files_at("files"@) is Some
        &&& v.opt_texts_at("file_urls"@) is Some
        &&& v.opt_flag_at("is_eid"@) is Some
        &&& v.opt_text_at("message"@) is Some
        &&& v.opt_text_map_at("metadata"@) is Some
        &&& opt_shaped::<SubSigningOptions>(v.get("signing_options"@))
        &&& v.opt_text_at("signing_redirect_url"@) is Some
        &&& v.opt_flag_at("test_mode"@) is Some
        &&& v.opt_text_at("title"@) is Some
    }

    open spec fn described_by(&self, v: JsonValue) -> bool {
        &&& req_list_described(self.signers@, v.get("signers"@))
        &&& v.texts_at("template_ids"@) == Some(texts_view(self.template_ids@))
        &&& v.opt_flag_at("allow_decline"@) == Some(self.allow_decline)
        &&& opt_list_described(self.ccs, v.get("ccs"@))
        &&& v.opt_text_at("client_id"@) == Some(text_opt(self.client_id))
        &&& opt_list_described(self.custom_fields, v.get("custom_fields"@))
        &&& v.opt_files_at("files"@) == Some(files_opt(self.files))
        &&& v.opt_texts_at("file_urls"@) == Some(texts_opt(self.file_urls))
        &&& v.opt_flag_at("is_eid"@) == Some(self.is_eid)
        &&& v.opt_text_at("message"@) == Some(text_opt(self.message))
        &&& v.opt_text_map_at("metadata"@) == Some(pairs_opt(self.metadata))
        &&& opt_described(self.signing_options, v.get("signing_options"@))
        &&& v.opt_text_at("signing_redirect_url"@) == Some(text_opt(self.signing_redirect_url))
        &&& v.opt_flag_at("test_mode"@) == Some(self.test_mode)
        &&& v.opt_text_at("title"@) == Some(text_opt(self.title))
    }

    fn from_json(j: &Json) -> (r: Option<Self>) {
        if !j.is_object() {
            return None;
        }
        let signers = match read_req_list::<SubSignatureRequestTemplateSigner>(j, "signers") {
            Some(x) => x,
            None => {
                return None;
            },
        };
        let template_ids = match j.texts_at("template_ids") {
            Some(x) => x,
            None => {
                return None;
            },
        };
        let allow_decline = match j.opt_flag_at("allow_decline") {
            Some(x) => x,
            None => {
                return None;
            },
        };
        let ccs = match read_opt_list::<SubCC>(j, "ccs") {
            Some(x) => x,
            None => {
                return None;
            },
        };
        let client_id = match j.opt_text_at("client_id") {
            Some(x) => x,
            None => {
                return None;
            },
        };
        let custom_fields = match read_opt_list::<SubCustomField>(j, "custom_fields") {
            Some(x) => x,
            None => {
                return None;
            },
        };
        let files = match j.opt_files_at("files") {
            Some(x) => x,
            None => {
                return None;
            },
        };
        let file_urls = match j.opt_texts_at("file_urls") {
            Some(x) => x,
            None => {
                return None;
            },
        };
        let is_eid = match j.opt_flag_at("is_eid") {
            Some(x) => x,
            None => {
                return None;
            },
        };
        let message = match j.opt_text_at("message") {
            Some(x) => x,
            None => {
                return None;
            },
        };
        let metadata = match j.opt_text_map_at("metadata") {
            Some(x) => x,
            None => {
                return None;
            },
        };
        let signing_options = match read_opt::<SubSigningOptions>(j, "signing_options") {
            Some(x) => x,
            None => {
                return None;
            },
        };
        let signing_redirect_url = match j.opt_text_at("signing_redirect_url") {
            Some(x) => x,
            None => {
                return None;
            },
        };
        let test_mode = match j.opt_flag_at("test_mode") {
            Some(x) => x,
            None => {
                return None;
            },
        };
        let title = match j.opt_text_at("title") {
            Some(x) => x,
            None => {
                return None;
            },
        };
        Some(
            SendSignatureRequest {
                signers,
                template_ids,
                allow_decline,
                ccs,
                client_id,
                custom_fields,
                files,
                file_urls,
                is_eid,
                message,
                metadata,
                signing_options,
                signing_redirect_url,
                test_mode,
                title,
            },
        )
    }
}

impl ToJson for SubSignatureRequestTemplateSigner {
    open spec fn wire(&self) -> JsonValue {
        JsonValue::Object(
            Seq::empty()
                + member("role"@, text_value(self.role))
                + member("name"@, text_value(self.name))
                + member("email_address"@, text_value(self.email_address))
                + opt_member("pin"@, opt_text_value(self.pin))
                + opt_member("sms_phone_number"@, opt_text_value(self.sms_phone_number))
                + opt_member("sms_phone_number_type"@, opt_value(self.sms_phone_number_type))
            ,
        )
    }

    fn to_json(&self) -> (r: Json) {
        let mut entries: Vec<(String, Json)> = Vec::new();
        proof {
            assert(members(entries@) =~= Seq::empty());
        }
        put(&mut entries, "role", text_json(&self.role));
        put(&mut entries, "name", text_json(&self.name));
        put(&mut entries, "email_address", text_json(&self.email_address));
        put_opt(&mut entries, "pin", opt_text_json(&self.pin));
        put_opt(&mut entries, "sms_phone_number", opt_text_json(&self.sms_phone_number));
        put_opt(&mut entries, "sms_phone_number_type", opt_json(&self.sms_phone_number_type));
        object(entries)
    }
}

impl FromJson for SubSignatureRequestTemplateSigner {
    open spec fn well_shaped(v: JsonValue) -> bool {
        &&& v is Object
        &&& v.text_at("role"@) is Some
        &&& v.text_at("name"@) is Some
        &&& v.text_at("email_address"@) is Some
        &&& v.opt_text_at("pin"@) is Some
        &&& v.opt_text_at("sms_phone_number"@) is Some
        &&& opt_shaped::<SMSPhoneNumberType>(v.get("sms_phone_number_type"@))
    }

    open spec fn described_by(&self, v: JsonValue) -> bool {
        &&& v.text_at("role"@) == Some(self.role@)
        &&& v.text_at("name"@) == Some(self.name@)
        &&& v.text_at("email_address"@) == Some(self.email_address@)
        &&& v.opt_text_at("pin"@) == Some(text_opt(self.pin))
        &&& v.opt_text_at("sms_phone_number"@) == Some(text_opt(self.sms_phone_number))
        &&& opt_described(self.sms_phone_number_type, v.get("sms_phone_number_type"@))
    }

    fn from_json(j: &Json) -> (r: Option<Self>) {
        if !j.is_object() {
            return None;
        }
        let role = match j.text_at("role") {
            Some(x) => x,
            None => {
                return None;
            },
        };
        let name = match j.text_at("name") {
            Some(x) => x,
            None => {
                return None;
            },
        };
        let email_address = match j.text_at("email_address") {
            Some(x) => x,
            None => {
                return None;
            },
        };
        let pin = match j.opt_text_at("pin") {
            Some(x) => x,
            None => {
                return None;
            },
        };
        let sms_phone_number = match j.opt_text_at("sms_phone_number") {
            Some(x) => x,
            None => {
                return None;
            },
        };
        let sms_phone_number_type = match read_opt::<SMSPhoneNumberType>(
            j,
            "sms_phone_number_type",
        ) {
            Some(x) => x,
            None => {
                return None;
            },
        };
        Some(
            SubSignatureRequestTemplateSigner {
                role,
                name,
                email_address,
                pin,
                sms_phone_number,
                sms_phone_number_type,
            },
        )
    }
}

impl ToJson for SubCC {
    open spec fn wire(&self) -> JsonValue {
        JsonValue::Object(
            Seq::empty()
                + member("role"@, text_value(self.role))
                + member("email"@, text_value(self.email))
            ,
        )
    }

    fn to_json(&self) -> (r: Json) {
        let mut entries: Vec<(String, Json)> = Vec::new();
        proof {
            assert(members(entries@) =~= Seq::empty());
        }
        put(&mut entries, "role", text_json(&self.role));
        put(&mut entries, "email", text_json(&self.email));
        object(entries)
    }
}

impl FromJson for SubCC {
    open spec fn well_shaped(v: JsonValue) -> bool {
        &&& v is Object
        &&& v.text_at("role"@) is Some
        &&& v.text_at("email"@) is Some
    }

    open spec fn described_by(&self, v: JsonValue) -> bool {
        &&& v.text_at("role"@) == Some(self.role@)
        &&& v.text_at("email"@) == Some(self.email@)
    }

    fn from_json(j: &Json) -> (r: Option<Self>) {
        if !j.is_object() {
            return None;
        }
        let role = match j.text_at("role") {
            Some(x) => x,
            None => {
                return None;
            },
        };
        let email = match j.text_at("email") {
            Some(x) => x,
            None => {
                return None;
            },
        };
        Some(
            SubCC {
                role,
                email,
            },
        )
    }
}

impl ToJson for SubCustomField {
    open spec fn wire(&self) -> JsonValue {
        JsonValue::Object(
            Seq::empty()
                + member("name"@, text_value(self.name))
                + opt_member("editor"@, opt_text_value(self.editor))
                + opt_member("required"@, opt_flag_value(self.required))
                + opt_member("value"@, opt_text_value(self.value))
            ,
        )
    }

    fn to_json(&self) -> (r: Json) {
        let mut entries: Vec<(String, Json)> = Vec::new();
        proof {
            assert(members(entries@) =~= Seq::empty());
        }
        put(&mut entries, "name", text_json(&self.name));
        put_opt(&mut entries, "editor", opt_text_json(&self.editor));
        put_opt(&mut entries, "required", opt_flag_json(&self.required));
        put_opt(&mut entries, "value", opt_text_json(&self.value));
        object(entries)
    }
}

impl FromJson for SubCustomField {
    open spec fn well_shaped(v: JsonValue) -> bool {
        &&& v is Object
        &&& v.text_at("name"@) is Some
        &&& v.opt_text_at("editor"@) is Some
        &&& v.opt_flag_at("required"@) is Some
        &&& v.opt_text_at("value"@) is Some
    }

    open spec fn described_by(&self, v: JsonValue) -> bool {
        &&& v.text_at("name"@) == Some(self.name@)
        &&& v.opt_text_at("editor"@) == Some(text_opt(self.editor))
        &&& v.opt_flag_at("required"@) == Some(self.required)
        &&& v.opt_text_at("value"@) == Some(text_opt(self.value))
    }

    fn from_json(j: &Json) -> (r: Option<Self>) {
        if !j.is_object() {
            return None;
        }
        let name = match j.text_at("name") {
            Some(x) => x,
            None => {
                return None;
            },
        };
        let editor = match j.opt_text_at("editor") {
            Some(x) => x,
            None => {
                return None;
            },
        };
        let required = match j.opt_flag_at("required") {
            Some(x) => x,
            None => {
                return None;
            },
        };
        let value = match j.opt_text_at("value") {
            Some(x) => x,
            None => {
                return None;
            },
        };
        Some(
            SubCustomField {
                name,
                editor,
                required,
                value,
            },
        )
    }
}

impl ToJson for SubSigningOptions {
    open spec fn wire(&self) -> JsonValue {
        JsonValue::Object(
            Seq::empty()
                + member("default_type"@, self.default_type.wire())
                + opt_member("draw"@, opt_flag_value(self.draw))
                + opt_member("phone"@, opt_flag_value(self.phone))
                + opt_member("type"@, opt_flag_value(self.o_type))
                + opt_member("upload"@, opt_flag_value(self.upload))
            ,
        )
    }

    fn to_json(&self) -> (r: Json) {
        let mut entries: Vec<(String, Json)> = Vec::new();
        proof {
            assert(members(entries@) =~= Seq::empty());
        }
        put(&mut entries, "default_type", self.default_type.to_json());
        put_opt(&mut entries, "draw", opt_flag_json(&self.draw));
        put_opt(&mut entries, "phone", opt_flag_json(&self.phone));
        put_opt(&mut entries, "type", opt_flag_json(&self.o_type));
        put_opt(&mut entries, "upload", opt_flag_json(&self.upload));
        object(entries)
    }
}

impl FromJson for SubSigningOptions {
    open spec fn well_shaped(v: JsonValue) -> bool {
        &&& v is Object
        &&& req_shaped::<SubSigningOptionsDefaultType>(v.get("default_type"@))
        &&& v.opt_flag_at("draw"@) is Some
        &&& v.opt_flag_at("phone"@) is Some
        &&& v.opt_flag_at("type"@) is Some
        &&& v.opt_flag_at("upload"@) is Some
    }

    open spec fn described_by(&self, v: JsonValue) -> bool {
        &&& req_described(self.default_type, v.get("default_type"@))
        &&& v.opt_flag_at("draw"@) == Some(self.draw)
        &&& v.opt_flag_at("phone"@) == Some(self.phone)
        &&& v.opt_flag_at("type"@) == Some(self.o_type)
        &&& v.opt_flag_at("upload"@) == Some(self.upload)
    }

    fn from_json(j: &Json) -> (r: Option<Self>) {
        if !j.is_object() {
            return None;
        }
        let default_type = match read_req::<SubSigningOptionsDefaultType>(j, "default_type") {
            Some(x) => x,
            None => {
                return None;
            },
        };
        let draw = match j.opt_flag_at("draw") {
            Some(x) => x,
            None => {
                return None;
            },
        };
        let phone = match j.opt_flag_at("phone") {
            Some(x) => x,
            None => {
                return None;
            },
        };
        let o_type = match j.opt_flag_at("type") {
            Some(x) => x,
            None => {
                return None;
            },
        };
        let upload = match j.opt_flag_at("upload") {
            Some(x) => x,
            None => {
                return None;
            },
        };
        Some(
            SubSigningOptions {
                default_type,
                draw,
                phone,
                o_type,
                upload,
            },
        )
    }
}

impl ToJson for SignatureRequestResponse {
    open spec fn wire(&self) -> JsonValue {
        JsonValue::Object(
            Seq::empty()
                + opt_member("test_mode"@, opt_flag_value(self.test_mode))
                + member("signature_request_id"@, text_value(self.signature_request_id))
                + opt_member(
                    "requester_email_address"@,
                    opt_text_value(self.requester_email_address),
                )
                + member("title"@, text_value(self.title))
                + member("original_title"@, text_value(self.original_title))
                + opt_member("subject"@, opt_text_value(self.subject))
                + opt_member("message"@, opt_text_value(self.message))
                + member("metadata"@, pairs_value(self.metadata@))
                + member("created_at"@, JsonValue::Number(number_of_u64(self.created_at)))
                + opt_member("expires_at"@, opt_u64_value(self.expires_at))
                + member("is_complete"@, JsonValue::Bool(self.is_complete))
                + member("is_declined"@, JsonValue::Bool(self.is_declined))
                + member("has_error"@, JsonValue::Bool(self.has_error))
                + member("files_url"@, text_value(self.files_url))
                + opt_member("signing_url"@, opt_text_value(self.signing_url))
                + member("details_url"@, text_value(self.details_url))
                + member("cc_email_addresses"@, texts_value(self.cc_email_addresses@))
                + opt_member("signing_redirect_url"@, opt_text_value(self.signing_redirect_url))
                + opt_member("final_copy_uri"@, opt_text_value(self.final_copy_uri))
                + opt_member("template_ids"@, opt_texts_value(self.template_ids))
                + opt_member("custom_ids"@, opt_texts_value(self.custom_ids))
                + opt_member("attachments"@, opt_value(self.attachments))
                + opt_member("response_data"@, opt_list_value(self.response_data))
                + member("signatures"@, list_value(self.signatures@))
                + opt_member("bulk_send_job_id"@, opt_text_value(self.bulk_send_job_id))
            ,
        )
    }

    fn to_json(&self) -> (r: Json) {
        let mut entries: Vec<(String, Json)> = Vec::new();
        proof {
            assert(members(entries@) =~= Seq::empty());
        }
        put_opt(&mut entries, "test_mode", opt_flag_json(&self.test_mode));
        put(&mut entries, "signature_request_id", text_json(&self.signature_request_id));
        put_opt(
            &mut entries,
            "requester_email_address",
            opt_text_json(&self.requester_email_address),
        );
        put(&mut entries, "title", text_json(&self.title));
        put(&mut entries, "original_title", text_json(&self.original_title));
        put_opt(&mut entries, "subject", opt_text_json(&self.subject));
        put_opt(&mut entries, "message", opt_text_json(&self.message));
        put(&mut entries, "metadata", pairs_json(&self.metadata));
        put(&mut entries, "created_at", u64_json(self.created_at));
        put_opt(&mut entries, "expires_at", opt_u64_json(&self.expires_at));
        put(&mut entries, "is_complete", Json::Bool(self.is_complete));
        put(&mut entries, "is_declined", Json::Bool(self.is_declined));
        put(&mut entries, "has_error", Json::Bool(self.has_error));
        put(&mut entries, "files_url", text_json(&self.files_url));
        put_opt(&mut entries, "signing_url", opt_text_json(&self.signing_url));
        put(&mut entries, "details_url", text_json(&self.details_url));
        put(&mut entries, "cc_email_addresses", texts_json(&self.cc_email_addresses));
        put_opt(&mut entries, "signing_redirect_url", opt_text_json(&self.signing_redirect_url));
        put_opt(&mut entries, "final_copy_uri", opt_text_json(&self.final_copy_uri));
        put_opt(&mut entries, "template_ids", opt_texts_json(&self.template_ids));
        put_opt(&mut entries, "custom_ids", opt_texts_json(&self.custom_ids));
        put_opt(&mut entries, "attachments", opt_json(&self.attachments));
        put_opt(&mut entries, "response_data", opt_list_json(&self.response_data));
        put(&mut entries, "signatures", list_json(&self.signatures));
        put_opt(&mut entries, "bulk_send_job_id", opt_text_json(&self.bulk_send_job_id));
        object(entries)
    }
}

impl FromJson for SignatureRequestResponse {
    open spec fn well_shaped(v: JsonValue) -> bool {
        &&& v is Object
        &&& v.opt_flag_at("test_mode"@) is Some
        &&& v.text_at("signature_request_id"@) is Some
        &&& v.opt_text_at("requester_email_address"@) is Some
        &&& v.text_at("title"@) is Some
        &&& v.text_at("original_title"@) is Some
        &&& v.opt_text_at("subject"@) is Some
        &&& v.opt_text_at("message"@) is Some
        &&& v.text_map_at("metadata"@) is Some
        &&& v.u64_at("created_at"@) is Some
        &&& v.opt_u64_at("expires_at"@) is Some
        &&& v.flag_at("is_complete"@) is Some
        &&& v.flag_at("is_declined"@) is Some
        &&& v.flag_at("has_error"@) is Some
        &&& v.text_at("files_url"@) is Some
        &&& v.opt_text_at("signing_url"@) is Some
        &&& v.text_at("details_url"@) is Some
        &&& v.texts_at("cc_email_addresses"@) is Some
        &&& v.opt_text_at("signing_redirect_url"@) is Some
        &&& v.opt_text_at("final_copy_uri"@) is Some
        &&& v.opt_texts_at("template_ids"@) is Some
        &&& v.opt_texts_at("custom_ids"@) is Some
        &&& opt_shaped::<SignatureRequestResponseAttachment>(v.get("attachments"@))
        &&& opt_list_shaped::<SignatureRequestResponseData>(v.get("response_data"@))
        &&& req_list_shaped::<SignatureRequestResponseSignatures>(v.get("signatures"@))
        &&& v.opt_text_at("bulk_send_job_id"@) is Some
    }

    open spec fn described_by(&self, v: JsonValue) -> bool {
        &&& v.opt_flag_at("test_mode"@) == Some(self.test_mode)
        &&& v.text_at("signature_request_id"@) == Some(self.signature_request_id@)
        &&& v.opt_text_at("requester_email_address"@)
            == Some(text_opt(self.requester_email_address))
        &&& v.text_at("title"@) == Some(self.title@)
        &&& v.text_at("original_title"@) == Some(self.original_title@)
        &&& v.opt_text_at("subject"@) == Some(text_opt(self.subject))
        &&& v.opt_text_at("message"@) == Some(text_opt(self.message))
        &&& v.text_map_at("metadata"@) == Some(pairs_view(self.metadata@))
        &&& v.u64_at("created_at"@) == Some(self.created_at)
        &&& v.opt_u64_at("expires_at"@) == Some(self.expires_at)
        &&& v.flag_at("is_complete"@) == Some(self.is_complete)
        &&& v.flag_at("is_declined"@) == Some(self.is_declined)
        &&& v.flag_at("has_error"@) == Some(self.has_error)
        &&& v.text_at("files_url"@) == Some(self.files_url@)
        &&& v.opt_text_at("signing_url"@) == Some(text_opt(self.signing_url))
        &&& v.text_at("details_url"@) == Some(self.details_url@)
        &&& v.texts_at("cc_email_addresses"@) == Some(texts_view(self.cc_email_addresses@))
        &&& v.opt_text_at("signing_redirect_url"@) == Some(text_opt(self.signing_redirect_url))
        &&& v.opt_text_at("final_copy_uri"@) == Some(text_opt(self.final_copy_uri))
        &&& v.opt_texts_at("template_ids"@) == Some(texts_opt(self.template_ids))
        &&& v.opt_texts_at("custom_ids"@) == Some(texts_opt(self.custom_ids))
        &&& opt_described(self.attachments, v.get("attachments"@))
        &&& opt_list_described(self.response_data, v.get("response_data"@))
        &&& req_list_described(self.signatures@, v.get("signatures"@))
        &&& v.opt_text_at("bulk_send_job_id"@) == Some(text_opt(self.bulk_send_job_id))
    }

    fn from_json(j: &Json) -> (r: Option<Self>) {
        if !j.is_object() {
            return None;
        }
        let test_mode = match j.opt_flag_at("test_mode") {
            Some(x) => x,
            None => {
                return None;
            },
        };
        let signature_request_id = match j.text_at("signature_request_id") {
            Some(x) => x,
            None => {
                return None;
            },
        };
        let requester_email_address = match j.opt_text_at("requester_email_address") {
            Some(x) => x,
            None => {
                return None;
            },
        };
        let title = match j.text_at("title") {
            Some(x) => x,
            None => {
                return None;
            },
        };
        let original_title = match j.text_at("original_title") {
            Some(x) => x,
            None => {
                return None;
            },
        };
        let subject = match j.opt_text_at("subject") {
            Some(x) => x,
            None => {
                return None;
            },
        };
        let message = match j.opt_text_at("message") {
            Some(x) => x,
            None => {
                return None;
            },
        };
        let metadata = match j.text_map_at("metadata") {
            Some(x) => x,
            None => {
                return None;
            },
        };
        let created_at = match j.u64_at("created_at") {
            Some(x) => x,
            None => {
                return None;
            },
        };
        let expires_at = match j.opt_u64_at("expires_at") {
            Some(x) => x,
            None => {
                return None;
            },
        };
        let is_complete = match j.flag_at("is_complete") {
            Some(x) => x,
            None => {
                return None;
            },
        };
        let is_declined = match j.flag_at("is_declined") {
            Some(x) => x,
            None => {
                return None;
            },
        };
        let has_error = match j.flag_at("has_error") {
            Some(x) => x,
            None => {
                return None;
            },
        };
        let files_url = match j.text_at("files_url") {
            Some(x) => x,
            None => {
                return None;
            },
        };
        let signing_url = match j.opt_text_at("signing_url") {
            Some(x) => x,
            None => {
                return None;
            },
        };
        let details_url = match j.text_at("details_url") {
            Some(x) => x,
            None => {
                return None;
            },
        };
        let cc_email_addresses = match j.texts_at("cc_email_addresses") {
            Some(x) => x,
            None => {
                return None;
            },
        };
        let signing_redirect_url = match j.opt_text_at("signing_redirect_url") {
            Some(x) => x,
            None => {
                return None;
            },
        };
        let final_copy_uri = match j.opt_text_at("final_copy_uri") {
            Some(x) => x,
            None => {
                return None;
            },
        };
        let template_ids = match j.opt_texts_at("template_ids") {
            Some(x) => x,
            None => {
                return None;
            },
        };
        let custom_ids = match j.opt_texts_at("custom_ids") {
            Some(x) => x,
            None => {
                return None;
            },
        };
        let attachments = match read_opt::<SignatureRequestResponseAttachment>(j, "attachments") {
            Some(x) => x,
            None => {
                return None;
            },
        };
        let response_data = match read_opt_list::<SignatureRequestResponseData>(
            j,
            "response_data",
        ) {
            Some(x) => x,
            None => {
                return None;
            },
        };
        let signatures = match read_req_list::<SignatureRequestResponseSignatures>(
            j,
            "signatures",
        ) {
            Some(x) => x,
            None => {
                return None;
            },
        };
        let bulk_send_job_id = match j.opt_text_at("bulk_send_job_id") {
            Some(x) => x,
            None => {
                return None;
            },
        };
        Some(
            SignatureRequestResponse {
                test_mode,
                signature_request_id,
                requester_email_address,
                title,
                original_title,
                subject,
                message,
                metadata,
                created_at,
                expires_at,
                is_complete,
                is_declined,
                has_error,
                files_url,
                signing_url,
                details_url,
                cc_email_addresses,
                signing_redirect_url,
                final_copy_uri,
                template_ids,
                custom_ids,
                attachments,
                response_data,
                signatures,
                bulk_send_job_id,
            },
        )
    }
}

impl ToJson for SignatureRequestResponseCustomFieldBase {
    open spec fn wire(&self) -> JsonValue {
        JsonValue::Object(
            Seq::empty()
                + member("type"@, self.o_type.wire())
                + member("name"@, text_value(self.name))
                + opt_member("required"@, opt_flag_value(self.required))
                + opt_member("api_id"@, opt_text_value(self.api_id))
                + opt_member("editor"@, opt_text_value(self.editor))
                + opt_member("value"@, opt_text_value(self.value))
            ,
        )
    }

    fn to_json(&self) -> (r: Json) {
        let mut entries: Vec<(String, Json)> = Vec::new();
        proof {
            assert(members(entries@) =~= Seq::empty());
        }
        put(&mut entries, "type", self.o_type.to_json());
        put(&mut entries, "name", text_json(&self.name));
        put_opt(&mut entries, "required", opt_flag_json(&self.required));
        put_opt(&mut entries, "api_id", opt_text_json(&self.api_id));
        put_opt(&mut entries, "editor", opt_text_json(&self.editor));
        put_opt(&mut entries, "value", opt_text_json(&self.value));
        object(entries)
    }
}

impl FromJson for SignatureRequestResponseCustomFieldBase {
    open spec fn well_shaped(v: JsonValue) -> bool {
        &&& v is Object
        &&& req_shaped::<SignatureRequestResponseCustomFieldBaseType>(v.get("type"@))
        &&& v.text_at("name"@) is Some
        &&& v.opt_flag_at("required"@) is Some
        &&& v.opt_text_at("api_id"@) is Some
        &&& v.opt_text_at("editor"@) is Some
        &&& v.opt_text_at("value"@) is Some
    }

    open spec fn described_by(&self, v: JsonValue) -> bool {
        &&& req_described(self.o_type, v.get("type"@))
        &&& v.text_at("name"@) == Some(self.name@)
        &&& v.opt_flag_at("required"@) == Some(self.required)
        &&& v.opt_text_at("api_id"@) == Some(text_opt(self.api_id))
        &&& v.opt_text_at("editor"@) == Some(text_opt(self.editor))
        &&& v.opt_text_at("value"@) == Some(text_opt(self.value))
    }

    fn from_json(j: &Json) -> (r: Option<Self>) {
        if !j.is_object() {
            return None;
        }
        let o_type = match read_req::<SignatureRequestResponseCustomFieldBaseType>(j, "type") {
            Some(x) => x,
            None => {
                return None;
            },
        };
        let name = match j.text_at("name") {
            Some(x) => x,
            None => {
                return None;
            },
        };
        let required = match j.opt_flag_at("required") {
            Some(x) => x,
            None => {
                return None;
            },
        };
        let api_id = match j.opt_text_at("api_id") {
            Some(x) => x,
            None => {
                return None;
            },
        };
        let editor = match j.opt_text_at("editor") {
            Some(x) => x,
            None => {
                return None;
            },
        };
        let value = match j.opt_text_at("value") {
            Some(x) => x,
            None => {
                return None;
            },
        };
        Some(
            SignatureRequestResponseCustomFieldBase {
                o_type,
                name,
                required,
                api_id,
                editor,
                value,
            },
        )
    }
}

impl ToJson for SignatureRequestResponseAttachment {
    open spec fn wire(&self) -> JsonValue {
        JsonValue::Object(
            Seq::empty()
                + member("id"@, text_value(self.id))
                + member("signer"@, text_value(self.signer))
                + member("name"@, text_value(self.name))
                + member("required"@, JsonValue::Bool(self.required))
                + opt_member("instructions"@, opt_text_value(self.instructions))
                + opt_member("uploaded_at"@, opt_u64_value(self.uploaded_at))
            ,
        )
    }

    fn to_json(&self) -> (r: Json) {
        let mut entries: Vec<(String, Json)> = Vec::new();
        proof {
            assert(members(entries@) =~= Seq::empty());
        }
        put(&mut entries, "id", text_json(&self.id));
        put(&mut entries, "signer", text_json(&self.signer));
        put(&mut entries, "name", text_json(&self.name));
        put(&mut entries, "required", Json::Bool(self.required));
        put_opt(&mut entries, "instructions", opt_text_json(&self.instructions));
        put_opt(&mut entries, "uploaded_at", opt_u64_json(&self.uploaded_at));
        object(entries)
    }
}

impl FromJson for SignatureRequestResponseAttachment {
    open spec fn well_shaped(v: JsonValue) -> bool {
        &&& v is Object
        &&& v.text_at("id"@) is Some
        &&& v.text_at("signer"@) is Some
        &&& v.text_at("name"@) is Some
        &&& v.flag_at("required"@) is Some
        &&& v.opt_text_at("instructions"@) is Some
        &&& v.opt_u64_at("uploaded_at"@) is Some
    }

    open spec fn described_by(&self, v: JsonValue) -> bool {
        &&& v.text_at("id"@) == Some(self.id@)
        &&& v.text_at("signer"@) == Some(self.signer@)
        &&& v.text_at("name"@) == Some(self.name@)
        &&& v.flag_at("required"@) == Some(self.required)
        &&& v.opt_text_at("instructions"@) == Some(text_opt(self.instructions))
        &&& v.opt_u64_at("uploaded_at"@) == Some(self.uploaded_at)
    }

    fn from_json(j: &Json) -> (r: Option<Self>) {
        if !j.is_object() {
            return None;
        }
        let id = match j.text_at("id") {
            Some(x) => x,
            None => {
                return None;
            },
        };
        let signer = match j.text_at("signer") {
            Some(x) => x,
            None => {
                return None;
            },
        };
        let name = match j.text_at("name") {
            Some(x) => x,
            None => {
                return None;
            },
        };
        let required = match j.flag_at("required") {
            Some(x) => x,
            None => {
                return None;
            },
        };
        let instructions = match j.opt_text_at("instructions") {
            Some(x) => x,
            None => {
                return None;
            },
        };
        let uploaded_at = match j.opt_u64_at("uploaded_at") {
            Some(x) => x,
            None => {
                return None;
            },
        };
        Some(
            SignatureRequestResponseAttachment {
                id,
                signer,
                name,
                required,
                instructions,
                uploaded_at,
            },
        )
    }
}

impl ToJson for SignatureRequestResponseData {
    open spec fn wire(&self) -> JsonValue {
        JsonValue::Object(
            Seq::empty()
                + opt_member("api_id"@, opt_text_value(self.api_id))
                + opt_member("signature_id"@, opt_text_value(self.signature_id))
                + opt_member("name"@, opt_text_value(self.name))
                + opt_member("required"@, opt_flag_value(self.required))
                + opt_member("o_type"@, opt_value(self.o_type))
                + opt_member("value"@, opt_text_value(self.value))
            ,
        )
    }

    fn to_json(&self) -> (r: Json) {
        let mut entries: Vec<(String, Json)> = Vec::new();
        proof {
            assert(members(entries@) =~= Seq::empty());
        }
        put_opt(&mut entries, "api_id", opt_text_json(&self.api_id));
        put_opt(&mut entries, "signature_id", opt_text_json(&self.signature_id));
        put_opt(&mut entries, "name", opt_text_json(&self.name));
        put_opt(&mut entries, "required", opt_flag_json(&self.required));
        put_opt(&mut entries, "o_type", opt_json(&self.o_type));
        put_opt(&mut entries, "value", opt_text_json(&self.value));
        object(entries)
    }
}

impl FromJson for SignatureRequestResponseData {
    open spec fn well_shaped(v: JsonValue) -> bool {
        &&& v is Object
        &&& v.opt_text_at("api_id"@) is Some
        &&& v.opt_text_at("signature_id"@) is Some
        &&& v.opt_text_at("name"@) is Some
        &&& v.opt_flag_at("required"@) is Some
        &&& opt_shaped::<SignatureRequestResponseDataType>(v.get("o_type"@))
        &&& v.opt_text_at("value"@) is Some
    }

    open spec fn described_by(&self, v: JsonValue) -> bool {
        &&& v.opt_text_at("api_id"@) == Some(text_opt(self.api_id))
        &&& v.opt_text_at("signature_id"@) == Some(text_opt(self.signature_id))
        &&& v.opt_text_at("name"@) == Some(text_opt(self.name))
        &&& v.opt_flag_at("required"@) == Some(self.required)
        &&& opt_described(self.o_type, v.get("o_type"@))
        &&& v.opt_text_at("value"@) == Some(text_opt(self.value))
    }

    fn from_json(j: &Json) -> (r: Option<Self>) {
        if !j.is_object() {
            return None;
        }
        let api_id = match j.opt_text_at("api_id") {
            Some(x) => x,
            None => {
                return None;
            },
        };
        let signature_id = match j.opt_text_at("signature_id") {
            Some(x) => x,
            None => {
                return None;
            },
        };
        let name = match j.opt_text_at("name") {
            Some(x) => x,
            None => {
                return None;
            },
        };
        let required = match j.opt_flag_at("required") {
            Some(x) => x,
            None => {
                return None;
            },
        };
        let o_type = match read_opt::<SignatureRequestResponseDataType>(j, "o_type") {
            Some(x) => x,
            None => {
                return None;
            },
        };
        let value = match j.opt_text_at("value") {
            Some(x) => x,
            None => {
                return None;
            },
        };
        Some(
            SignatureRequestResponseData {
                api_id,
                signature_id,
                name,
                required,
                o_type,
                value,
            },
        )
    }
}

impl ToJson for SignatureRequestResponseSignatures {
    open spec fn wire(&self) -> JsonValue {
        JsonValue::Object(
            Seq::empty()
                + member("signature_id"@, text_value(self.signature_id))
                + opt_member("signer_group_guid"@, opt_text_value(self.signer_group_guid))
                + member("signer_email_address"@, text_value(self.signer_email_address))
                + opt_member("signer_name"@, opt_text_value(self.signer_name))
                + opt_member("signer_role"@, opt_text_value(self.signer_role))
                + opt_member("order"@, opt_i32_value(self.order))
                + member("status_code"@, text_value(self.status_code))
                + opt_member("decline_reason"@, opt_text_value(self.decline_reason))
                + opt_member("signed_at"@, opt_i64_value(self.signed_at))
                + opt_member("last_viewed_at"@, opt_i64_value(self.last_viewed_at))
                + opt_member("last_reminded_at"@, opt_i64_value(self.last_reminded_at))
                + member("has_pin"@, JsonValue::Bool(self.has_pin))
                + opt_member("has_sms_auth"@, opt_flag_value(self.has_sms_auth))
                + opt_member("has_sms_delivery"@, opt_flag_value(self.has_sms_delivery))
                + opt_member("sms_phone_number"@, opt_text_value(self.sms_phone_number))
                + opt_member("reassigned_by"@, opt_text_value(self.reassigned_by))
                + opt_member("reassignment_reason"@, opt_text_value(self.reassignment_reason))
                + opt_member("reassigned_from"@, opt_text_value(self.reassigned_from))
                + opt_member("error"@, opt_text_value(self.error))
            ,
        )
    }

    fn to_json(&self) -> (r: Json) {
        let mut entries: Vec<(String, Json)> = Vec::new();
        proof {
            assert(members(entries@) =~= Seq::empty());
        }
        put(&mut entries, "signature_id", text_json(&self.signature_id));
        put_opt(&mut entries, "signer_group_guid", opt_text_json(&self.signer_group_guid));
        put(&mut entries, "signer_email_address", text_json(&self.signer_email_address));
        put_opt(&mut entries, "signer_name", opt_text_json(&self.signer_name));
        put_opt(&mut entries, "signer_role", opt_text_json(&self.signer_role));
        put_opt(&mut entries, "order", opt_i32_json(&self.order));
        put(&mut entries, "status_code", text_json(&self.status_code));
        put_opt(&mut entries, "decline_reason", opt_text_json(&self.decline_reason));
        put_opt(&mut entries, "signed_at", opt_i64_json(&self.signed_at));
        put_opt(&mut entries, "last_viewed_at", opt_i64_json(&self.last_viewed_at));
        put_opt(&mut entries, "last_reminded_at", opt_i64_json(&self.last_reminded_at));
        put(&mut entries, "has_pin", Json::Bool(self.has_pin));
        put_opt(&mut entries, "has_sms_auth", opt_flag_json(&self.has_sms_auth));
        put_opt(&mut entries, "has_sms_delivery", opt_flag_json(&self.has_sms_delivery));
        put_opt(&mut entries, "sms_phone_number", opt_text_json(&self.sms_phone_number));
        put_opt(&mut entries, "reassigned_by", opt_text_json(&self.reassigned_by));
        put_opt(&mut entries, "reassignment_reason", opt_text_json(&self.reassignment_reason));
        put_opt(&mut entries, "reassigned_from", opt_text_json(&self.reassigned_from));
        put_opt(&mut entries, "error", opt_text_json(&self.error));
        object(entries)
    }
}

impl FromJson for SignatureRequestResponseSignatures {
    open spec fn well_shaped(v: JsonValue) -> bool {
        &&& v is Object
        &&& v.text_at("signature_id"@) is Some
        &&& v.opt_text_at("signer_group_guid"@) is Some
        &&& v.text_at("signer_email_address"@) is Some
        &&& v.opt_text_at("signer_name"@) is Some
        &&& v.opt_text_at("signer_role"@) is Some
        &&& v.opt_i32_at("order"@) is Some
        &&& v.text_at("status_code"@) is Some
        &&& v.opt_text_at("decline_reason"@) is Some
        &&& v.opt_i64_at("signed_at"@) is Some
        &&& v.opt_i64_at("last_viewed_at"@) is Some
        &&& v.opt_i64_at("last_reminded_at"@) is Some
        &&& v.flag_at("has_pin"@) is Some
        &&& v.opt_flag_at("has_sms_auth"@) is Some
        &&& v.opt_flag_at("has_sms_delivery"@) is Some
        &&& v.opt_text_at("sms_phone_number"@) is Some
        &&& v.opt_text_at("reassigned_by"@) is Some
        &&& v.opt_text_at("reassignment_reason"@) is Some
        &&& v.opt_text_at("reassigned_from"@) is Some
        &&& v.opt_text_at("error"@) is Some
    }

    open spec fn described_by(&self, v: JsonValue) -> bool {
        &&& v.text_at("signature_id"@) == Some(self.signature_id@)
        &&& v.opt_text_at("signer_group_guid"@) == Some(text_opt(self.signer_group_guid))
        &&& v.text_at("signer_email_address"@) == Some(self.signer_email_address@)
        &&& v.opt_text_at("signer_name"@) == Some(text_opt(self.signer_name))
        &&& v.opt_text_at("signer_role"@) == Some(text_opt(self.signer_role))
        &&& v.opt_i32_at("order"@) == Some(self.order)
        &&& v.text_at("status_code"@) == Some(self.status_code@)
        &&& v.opt_text_at("decline_reason"@) == Some(text_opt(self.decline_reason))
        &&& v.opt_i64_at("signed_at"@) == Some(self.signed_at)
        &&& v.opt_i64_at("last_viewed_at"@) == Some(self.last_viewed_at)
        &&& v.opt_i64_at("last_reminded_at"@) == Some(self.last_reminded_at)
        &&& v.flag_at("has_pin"@) == Some(self.has_pin)
        &&& v.opt_flag_at("has_sms_auth"@) == Some(self.has_sms_auth)
        &&& v.opt_flag_at("has_sms_delivery"@) == Some(self.has_sms_delivery)
        &&& v.opt_text_at("sms_phone_number"@) == Some(text_opt(self.sms_phone_number))
        &&& v.opt_text_at("reassigned_by"@) == Some(text_opt(self.reassigned_by))
        &&& v.opt_text_at("reassignment_reason"@) == Some(text_opt(self.reassignment_reason))
        &&& v.opt_text_at("reassigned_from"@) == Some(text_opt(self.reassigned_from))
        &&& v.opt_text_at("error"@) == Some(text_opt(self.error))
    }

    fn from_json(j: &Json) -> (r: Option<Self>) {
        if !j.is_object() {
            return None;
        }
        let signature_id = match j.text_at("signature_id") {
            Some(x) => x,
            None => {
                return None;
            },
        };
        let signer_group_guid = match j.opt_text_at("signer_group_guid") {
            Some(x) => x,
            None => {
                return None;
            },
        };
        let signer_email_address = match j.text_at("signer_email_address") {
            Some(x) => x,
            None => {
                return None;
            },
        };
        let signer_name = match j.opt_text_at("signer_name") {
            Some(x) => x,
            None => {
                return None;
            },
        };
        let signer_role = match j.opt_text_at("signer_role") {
            Some(x) => x,
            None => {
                return None;
            },
        };
        let order = match j.opt_i32_at("order") {
            Some(x) => x,
            None => {
                return None;
            },
        };
        let status_code = match j.text_at("status_code") {
            Some(x) => x,
            None => {
                return None;
            },
        };
        let decline_reason = match j.opt_text_at("decline_reason") {
            Some(x) => x,
            None => {
                return None;
            },
        };
        let signed_at = match j.opt_i64_at("signed_at") {
            Some(x) => x,
            None => {
                return None;
            },
        };
        let last_viewed_at = match j.opt_i64_at("last_viewed_at") {
            Some(x) => x,
            None => {
                return None;
            },
        };
        let last_reminded_at = match j.opt_i64_at("last_reminded_at") {
            Some(x) => x,
            None => {
                return None;
            },
        };
        let has_pin = match j.flag_at("has_pin") {
            Some(x) => x,
            None => {
                return None;
            },
        };
        let has_sms_auth = match j.opt_flag_at("has_sms_auth") {
            Some(x) => x,
            None => {
                return None;
            },
        };
        let has_sms_delivery = match j.opt_flag_at("has_sms_delivery") {
            Some(x) => x,
            None => {
                return None;
            },
        };
        let sms_phone_number = match j.opt_text_at("sms_phone_number") {
            Some(x) => x,
            None => {
                return None;
            },
        };
        let reassigned_by = match j.opt_text_at("reassigned_by") {
            Some(x) => x,
            None => {
                return None;
            },
        };
        let reassignment_reason = match j.opt_text_at("reassignment_reason") {
            Some(x) => x,
            None => {
                return None;
            },
        };
        let reassigned_from = match j.opt_text_at("reassigned_from") {
            Some(x) => x,
            None => {
                return None;
            },
        };
        let error = match j.opt_text_at("error") {
            Some(x) => x,
            None => {
                return None;
            },
        };
        Some(
            SignatureRequestResponseSignatures {
                signature_id,
                signer_group_guid,
                signer_email_address,
                signer_name,
                signer_role,
                order,
                status_code,
                decline_reason,
                signed_at,
                last_viewed_at,
                last_reminded_at,
                has_pin,
                has_sms_auth,
                has_sms_delivery,
                sms_phone_number,
                reassigned_by,
                reassignment_reason,
                reassigned_from,
                error,
            },
        )
    }
}

} // verus!
