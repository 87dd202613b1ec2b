//! The laws of the records' wire forms: which members a record is written
//! with, and that a record which is written and read back is the same
//! record.

use crate::decode::FromJson;
use crate::encode::{
    kept_opt, kept_pairs, keys_once, list_value, member, number_of_u64, opt_files_value,
    opt_flag_value, opt_i32_value, opt_i64_value, opt_list_value, opt_member, opt_pairs_value,
    opt_text_value, opt_texts_value, opt_u64_value, opt_value, pairs_value, text_value,
    texts_value, ToJson,
};
use crate::fields::{files_opt, pairs_opt, pairs_view, text_opt, texts_opt, texts_view};
use crate::json::JsonValue;
use crate::laws::{
    found_or, lemma_after_member, lemma_after_opt_member, lemma_files_read_back,
    lemma_find_in_none, lemma_list_read_back, lemma_pairs_read_back, lemma_texts_read_back,
    list_canonical, list_same, null_free, opt_canonical, opt_keys_once, opt_list_canonical,
    opt_list_same, opt_same, ReadsBack,
};
use crate::signature_request::{
    SMSPhoneNumberType,
    SendSignatureRequest,
    SignatureRequestResponse,
    SignatureRequestResponseAttachment,
    SignatureRequestResponseCustomFieldBase,
    SignatureRequestResponseCustomFieldBaseType,
    SignatureRequestResponseData,
    SignatureRequestResponseDataType,
    SignatureRequestResponseSignatures,
    SubCC,
    SubCustomField,
    SubSignatureRequestTemplateSigner,
    SubSigningOptions,
    SubSigningOptionsDefaultType,
};
use vstd::prelude::*;

verus! {

impl ReadsBack for SMSPhoneNumberType {
    open spec fn canonical(&self) -> bool {
        true
    }

    proof fn reads_back(&self) {
        reveal_strlit("authentication");
        assert("authentication"@.len() == 14);
        reveal_strlit("delivery");
        assert("delivery"@.len() == 8);
    }
}

impl ReadsBack for SubSigningOptionsDefaultType {
    open spec fn canonical(&self) -> bool {
        true
    }

    proof fn reads_back(&self) {
        reveal_strlit("draw");
        assert("draw"@.len() == 4 && "draw"@[0] == 'd');
        reveal_strlit("phone");
        assert("phone"@.len() == 5);
        reveal_strlit("type");
        assert("type"@.len() == 4 && "type"@[0] == 't');
        reveal_strlit("upload");
        assert("upload"@.len() == 6);
    }
}

impl ReadsBack for SignatureRequestResponseCustomFieldBaseType {
    open spec fn canonical(&self) -> bool {
        true
    }

    proof fn reads_back(&self) {
        reveal_strlit("text");
        assert("text"@.len() == 4);
        reveal_strlit("checkbox");
        assert("checkbox"@.len() == 8);
    }
}

impl ReadsBack for SignatureRequestResponseDataType {
    open spec fn canonical(&self) -> bool {
        true
    }

    proof fn reads_back(&self) {
        reveal_strlit("text");
        assert("text"@.len() == 4);
        reveal_strlit("checkbox");
        assert("checkbox"@.len() == 8 && "checkbox"@[0] == 'c');
        reveal_strlit("dropdown");
        assert("dropdown"@.len() == 8 && "dropdown"@[0] == 'd');
        reveal_strlit("radio");
        assert("radio"@.len() == 5);
        reveal_strlit("signature");
        assert("signature"@.len() == 9);
        reveal_strlit("date_signed");
        assert("date_signed"@.len() == 11);
        reveal_strlit("initials");
        assert("initials"@.len() == 8 && "initials"@[0] == 'i');
        reveal_strlit("text-merge");
        assert("text-merge"@.len() == 10);
        reveal_strlit("checkbox-merge");
        assert("checkbox-merge"@.len() == 14);
    }
}

impl SendSignatureRequest {
    /// The member of the wire form under `key`: that of the first field
    /// with this key that is written.
    pub open spec fn wire_member(&self, key: Seq<char>) -> Option<JsonValue> {
        let found: Option<JsonValue> = None;
        let found = found_or(found, key, "signers"@, Some(list_value(self.signers@)));
        let found = found_or(found, key, "template_ids"@, Some(texts_value(self.template_ids@)));
        let found = found_or(found, key, "allow_decline"@, opt_flag_value(self.allow_decline));
        let found = found_or(found, key, "ccs"@, opt_list_value(self.ccs));
        let found = found_or(found, key, "client_id"@, opt_text_value(self.client_id));
        let found = found_or(found, key, "custom_fields"@, opt_list_value(self.custom_fields));
        let found = found_or(found, key, "files"@, opt_files_value(self.files));
        let found = found_or(found, key, "file_urls"@, opt_texts_value(self.file_urls));
        let found = found_or(found, key, "is_eid"@, opt_flag_value(self.is_eid));
        let found = found_or(found, key, "message"@, opt_text_value(self.message));
        let found = found_or(found, key, "metadata"@, opt_pairs_value(self.metadata));
        let found = found_or(found, key, "signing_options"@, opt_value(self.signing_options));
        let found = found_or(
            found,
            key,
            "signing_redirect_url"@,
            opt_text_value(self.signing_redirect_url),
        );
        let found = found_or(found, key, "test_mode"@, opt_flag_value(self.test_mode));
        let found = found_or(found, key, "title"@, opt_text_value(self.title));
        found
    }

    /// What a lookup in the wire form finds, for every key; and no member
    /// of the wire form is `null`.
    #[verifier::rlimit(40)]
    pub proof fn wire_lookup(&self)
        ensures
            self.wire() is Object,
            forall|key: Seq<char>| #[trigger] self.wire().get(key) == self.wire_member(key),
            null_free(self.wire()->Object_0),
    {
        lemma_find_in_none();
        let e0 = Seq::<(Seq<char>, JsonValue)>::empty();
        lemma_after_member(e0, "signers"@, list_value(self.signers@));
        let e1 = e0 + member("signers"@, list_value(self.signers@));
        lemma_after_member(e1, "template_ids"@, texts_value(self.template_ids@));
        let e2 = e1 + member("template_ids"@, texts_value(self.template_ids@));
        lemma_after_opt_member(e2, "allow_decline"@, opt_flag_value(self.allow_decline));
        let e3 = e2 + opt_member("allow_decline"@, opt_flag_value(self.allow_decline));
        lemma_after_opt_member(e3, "ccs"@, opt_list_value(self.ccs));
        let e4 = e3 + opt_member("ccs"@, opt_list_value(self.ccs));
        lemma_after_opt_member(e4, "client_id"@, opt_text_value(self.client_id));
        let e5 = e4 + opt_member("client_id"@, opt_text_value(self.client_id));
        lemma_after_opt_member(e5, "custom_fields"@, opt_list_value(self.custom_fields));
        let e6 = e5 + opt_member("custom_fields"@, opt_list_value(self.custom_fields));
        lemma_after_opt_member(e6, "files"@, opt_files_value(self.files));
        let e7 = e6 + opt_member("files"@, opt_files_value(self.files));
        lemma_after_opt_member(e7, "file_urls"@, opt_texts_value(self.file_urls));
        let e8 = e7 + opt_member("file_urls"@, opt_texts_value(self.file_urls));
        lemma_after_opt_member(e8, "is_eid"@, opt_flag_value(self.is_eid));
        let e9 = e8 + opt_member("is_eid"@, opt_flag_value(self.is_eid));
        lemma_after_opt_member(e9, "message"@, opt_text_value(self.message));
        let e10 = e9 + opt_member("message"@, opt_text_value(self.message));
        lemma_after_opt_member(e10, "metadata"@, opt_pairs_value(self.metadata));
        let e11 = e10 + opt_member("metadata"@, opt_pairs_value(self.metadata));
        lemma_after_opt_member(e11, "signing_options"@, opt_value(self.signing_options));
        let e12 = e11 + opt_member("signing_options"@, opt_value(self.signing_options));
        lemma_after_opt_member(
            e12,
            "signing_redirect_url"@,
            opt_text_value(self.signing_redirect_url),
        );
        let e13 = e12 + opt_member(
            "signing_redirect_url"@,
            opt_text_value(self.signing_redirect_url),
        );
        lemma_after_opt_member(e13, "test_mode"@, opt_flag_value(self.test_mode));
        let e14 = e13 + opt_member("test_mode"@, opt_flag_value(self.test_mode));
        lemma_after_opt_member(e14, "title"@, opt_text_value(self.title));
        let e15 = e14 + opt_member("title"@, opt_text_value(self.title));
        assert(self.wire() == JsonValue::Object(e15));
    }

    /// The wire form has no member under any key but those of the fields.
    pub proof fn wire_keys(&self)
        ensures
            forall|key: Seq<char>|
                #[trigger] self.wire().has(key) ==> {
                    ||| key == "signers"@
                    ||| key == "template_ids"@
                    ||| key == "allow_decline"@
                    ||| key == "ccs"@
                    ||| key == "client_id"@
                    ||| key == "custom_fields"@
                    ||| key == "files"@
                    ||| key == "file_urls"@
                    ||| key == "is_eid"@
                    ||| key == "message"@
                    ||| key == "metadata"@
                    ||| key == "signing_options"@
                    ||| key == "signing_redirect_url"@
                    ||| key == "test_mode"@
                    ||| key == "title"@
                },
    {
        self.wire_lookup();
    }

    /// No member of the wire form is `null`.
    pub proof fn wire_has_no_null(&self)
        ensures
            self.wire() is Object,
            null_free(self.wire()->Object_0),
    {
        self.wire_lookup();
    }

    /// The members of the wire form: one for each required field, one for
    /// each optional field that is set, and none for a field that is unset.
    #[verifier::rlimit(40)]
    pub proof fn wire_members(&self)
        ensures
            self.wire() is Object,
            self.wire().get("signers"@) == Some(list_value(self.signers@)),
            self.wire().get("template_ids"@) == Some(texts_value(self.template_ids@)),
            self.wire().get("allow_decline"@) == opt_flag_value(self.allow_decline),
            self.wire().get("ccs"@) == opt_list_value(self.ccs),
            self.wire().get("client_id"@) == opt_text_value(self.client_id),
            self.wire().get("custom_fields"@) == opt_list_value(self.custom_fields),
            self.wire().get("files"@) == opt_files_value(self.files),
            self.wire().get("file_urls"@) == opt_texts_value(self.file_urls),
            self.wire().get("is_eid"@) == opt_flag_value(self.is_eid),
            self.wire().get("message"@) == opt_text_value(self.message),
            self.wire().get("metadata"@) == opt_pairs_value(self.metadata),
            self.wire().get("signing_options"@) == opt_value(self.signing_options),
            self.wire().get("signing_redirect_url"@) == opt_text_value(self.signing_redirect_url),
            self.wire().get("test_mode"@) == opt_flag_value(self.test_mode),
            self.wire().get("title"@) == opt_text_value(self.title),
    {
        reveal_strlit("signers");
        assert("signers"@.len() == 7 && "signers"@[0] == 's');
        reveal_strlit("template_ids");
        assert("template_ids"@.len() == 12);
        reveal_strlit("allow_decline");
        assert("allow_decline"@.len() == 13 && "allow_decline"@[0] == 'a');
        reveal_strlit("ccs");
        assert("ccs"@.len() == 3);
        reveal_strlit("client_id");
        assert("client_id"@.len() == 9 && "client_id"@[0] == 'c');
        reveal_strlit("custom_fields");
        assert("custom_fields"@.len() == 13 && "custom_fields"@[0] == 'c');
        reveal_strlit("files");
        assert("files"@.len() == 5 && "files"@[0] == 'f');
        reveal_strlit("file_urls");
        assert("file_urls"@.len() == 9 && "file_urls"@[0] == 'f');
        reveal_strlit("is_eid");
        assert("is_eid"@.len() == 6);
        reveal_strlit("message");
        assert("message"@.len() == 7 && "message"@[0] == 'm');
        reveal_strlit("metadata");
        assert("metadata"@.len() == 8);
        reveal_strlit("signing_options");
        assert("signing_options"@.len() == 15);
        reveal_strlit("signing_redirect_url");
        assert("signing_redirect_url"@.len() == 20);
        reveal_strlit("test_mode");
        assert("test_mode"@.len() == 9 && "test_mode"@[0] == 't');
        reveal_strlit("title");
        assert("title"@.len() == 5 && "title"@[0] == 't');
        self.wire_lookup();
    }

    /// A record that is read from what this one is written as has this
    /// one's fields: the same value where one is set, none where none is.
    /// Of pairs with one key it has the last.
    pub proof fn read_back_same(&self, read: &Self)
        requires
            read.described_by(self.wire()),
        ensures
            list_same(read.signers@, self.signers@),
            texts_view(read.template_ids@) == texts_view(self.template_ids@),
            read.allow_decline == self.allow_decline,
            opt_list_same(read.ccs, self.ccs),
            text_opt(read.client_id) == text_opt(self.client_id),
            opt_list_same(read.custom_fields, self.custom_fields),
            files_opt(read.files) == files_opt(self.files),
            texts_opt(read.file_urls) == texts_opt(self.file_urls),
            read.is_eid == self.is_eid,
            text_opt(read.message) == text_opt(self.message),
            pairs_opt(read.metadata) == kept_opt(self.metadata),
            opt_same(read.signing_options, self.signing_options),
            text_opt(read.signing_redirect_url) == text_opt(self.signing_redirect_url),
            read.test_mode == self.test_mode,
            text_opt(read.title) == text_opt(self.title),
    {
        self.wire_members();
        lemma_texts_read_back(self.template_ids@);
        match self.files {
            Some(l) => {
                lemma_files_read_back(l@);
            },
            None => {},
        }
        match self.file_urls {
            Some(l) => {
                lemma_texts_read_back(l@);
            },
            None => {},
        }
        match self.metadata {
            Some(l) => {
                lemma_pairs_read_back(l@);
            },
            None => {},
        }
    }
}

impl ReadsBack for SendSignatureRequest {
    open spec fn canonical(&self) -> bool {
        &&& list_canonical(self.signers@)
        &&& opt_list_canonical(self.ccs)
        &&& opt_list_canonical(self.custom_fields)
        &&& opt_keys_once(self.metadata)
        &&& opt_canonical(self.signing_options)
    }

    proof fn reads_back(&self) {
        self.wire_members();
        lemma_list_read_back(self.signers@);
        lemma_texts_read_back(self.template_ids@);
        match self.ccs {
            Some(l) => {
                lemma_list_read_back(l@);
            },
            None => {},
        }
        match self.custom_fields {
            Some(l) => {
                lemma_list_read_back(l@);
            },
            None => {},
        }
        match self.files {
            Some(l) => {
                lemma_files_read_back(l@);
            },
            None => {},
        }
        match self.file_urls {
            Some(l) => {
                lemma_texts_read_back(l@);
            },
            None => {},
        }
        match self.metadata {
            Some(l) => {
                lemma_pairs_read_back(l@);
            },
            None => {},
        }
        match self.signing_options {
            Some(t) => {
                t.reads_back();
            },
            None => {},
        }
    }
}

impl SubSignatureRequestTemplateSigner {
    /// The member of the wire form under `key`: that of the first field
    /// with this key that is written.
    pub open spec fn wire_member(&self, key: Seq<char>) -> Option<JsonValue> {
        let found: Option<JsonValue> = None;
        let found = found_or(found, key, "role"@, Some(text_value(self.role)));
        let found = found_or(found, key, "name"@, Some(text_value(self.name)));
        let found = found_or(found, key, "email_address"@, Some(text_value(self.email_address)));
        let found = found_or(found, key, "pin"@, opt_text_value(self.pin));
        let found = found_or(
            found,
            key,
            "sms_phone_number"@,
            opt_text_value(self.sms_phone_number),
        );
        let found = found_or(
            found,
            key,
            "sms_phone_number_type"@,
            opt_value(self.sms_phone_number_type),
        );
        found
    }

    /// What a lookup in the wire form finds, for every key; and no member
    /// of the wire form is `null`.
    pub proof fn wire_lookup(&self)
        ensures
            self.wire() is Object,
            forall|key: Seq<char>| #[trigger] self.wire().get(key) == self.wire_member(key),
            null_free(self.wire()->Object_0),
    {
        lemma_find_in_none();
        let e0 = Seq::<(Seq<char>, JsonValue)>::empty();
        lemma_after_member(e0, "role"@, text_value(self.role));
        let e1 = e0 + member("role"@, text_value(self.role));
        lemma_after_member(e1, "name"@, text_value(self.name));
        let e2 = e1 + member("name"@, text_value(self.name));
        lemma_after_member(e2, "email_address"@, text_value(self.email_address));
        let e3 = e2 + member("email_address"@, text_value(self.email_address));
        lemma_after_opt_member(e3, "pin"@, opt_text_value(self.pin));
        let e4 = e3 + opt_member("pin"@, opt_text_value(self.pin));
        lemma_after_opt_member(e4, "sms_phone_number"@, opt_text_value(self.sms_phone_number));
        let e5 = e4 + opt_member("sms_phone_number"@, opt_text_value(self.sms_phone_number));
        lemma_after_opt_member(e5, "sms_phone_number_type"@, opt_value(self.sms_phone_number_type));
        let e6 = e5 + opt_member("sms_phone_number_type"@, opt_value(self.sms_phone_number_type));
        assert(self.wire() == JsonValue::Object(e6));
    }

    /// The wire form has no member under any key but those of the fields.
    pub proof fn wire_keys(&self)
        ensures
            forall|key: Seq<char>|
                #[trigger] self.wire().has(key) ==> {
                    ||| key == "role"@
                    ||| key == "name"@
                    ||| key == "email_address"@
                    ||| key == "pin"@
                    ||| key == "sms_phone_number"@
                    ||| key == "sms_phone_number_type"@
                },
    {
        self.wire_lookup();
    }

    /// No member of the wire form is `null`.
    pub proof fn wire_has_no_null(&self)
        ensures
            self.wire() is Object,
            null_free(self.wire()->Object_0),
    {
        self.wire_lookup();
    }

    /// The members of the wire form: one for each required field, one for
    /// each optional field that is set, and none for a field that is unset.
    pub proof fn wire_members(&self)
        ensures
            self.wire() is Object,
            self.wire().get("role"@) == Some(text_value(self.role)),
            self.wire().get("name"@) == Some(text_value(self.name)),
            self.wire().get("email_address"@) == Some(text_value(self.email_address)),
            self.wire().get("pin"@) == opt_text_value(self.pin),
            self.wire().get("sms_phone_number"@) == opt_text_value(self.sms_phone_number),
            self.wire().get("sms_phone_number_type"@) == opt_value(self.sms_phone_number_type),
    {
        reveal_strlit("role");
        assert("role"@.len() == 4 && "role"@[0] == 'r');
        reveal_strlit("name");
        assert("name"@.len() == 4 && "name"@[0] == 'n');
        reveal_strlit("email_address");
        assert("email_address"@.len() == 13);
        reveal_strlit("pin");
        assert("pin"@.len() == 3);
        reveal_strlit("sms_phone_number");
        assert("sms_phone_number"@.len() == 16);
        reveal_strlit("sms_phone_number_type");
        assert("sms_phone_number_type"@.len() == 21);
        self.wire_lookup();
    }

    /// A record that is read from what this one is written as has this
    /// one's fields: the same value where one is set, none where none is.
    pub proof fn read_back_same(&self, read: &Self)
        requires
            read.described_by(self.wire()),
        ensures
            read.role@ == self.role@,
            read.name@ == self.name@,
            read.email_address@ == self.email_address@,
            text_opt(read.pin) == text_opt(self.pin),
            text_opt(read.sms_phone_number) == text_opt(self.sms_phone_number),
            opt_same(read.sms_phone_number_type, self.sms_phone_number_type),
    {
        self.wire_members();
    }
}

impl ReadsBack for SubSignatureRequestTemplateSigner {
    open spec fn canonical(&self) -> bool {
        &&& opt_canonical(self.sms_phone_number_type)
    }

    proof fn reads_back(&self) {
        self.wire_members();
        match self.sms_phone_number_type {
            Some(t) => {
                t.reads_back();
            },
            None => {},
        }
    }
}

impl SubCC {
    /// The member of the wire form under `key`: that of the first field
    /// with this key that is written.
    pub open spec fn wire_member(&self, key: Seq<char>) -> Option<JsonValue> {
        let found: Option<JsonValue> = None;
        let found = found_or(found, key, "role"@, Some(text_value(self.role)));
        let found = found_or(found, key, "email"@, Some(text_value(self.email)));
        found
    }

    /// What a lookup in the wire form finds, for every key; and no member
    /// of the wire form is `null`.
    pub proof fn wire_lookup(&self)
        ensures
            self.wire() is Object,
            forall|key: Seq<char>| #[trigger] self.wire().get(key) == self.wire_member(key),
            null_free(self.wire()->Object_0),
    {
        lemma_find_in_none();
        let e0 = Seq::<(Seq<char>, JsonValue)>::empty();
        lemma_after_member(e0, "role"@, text_value(self.role));
        let e1 = e0 + member("role"@, text_value(self.role));
        lemma_after_member(e1, "email"@, text_value(self.email));
        let e2 = e1 + member("email"@, text_value(self.email));
        assert(self.wire() == JsonValue::Object(e2));
    }

    /// The wire form has no member under any key but those of the fields.
    pub proof fn wire_keys(&self)
        ensures
            forall|key: Seq<char>|
                #[trigger] self.wire().has(key) ==> {
                    ||| key == "role"@
                    ||| key == "email"@
                },
    {
        self.wire_lookup();
    }

    /// No member of the wire form is `null`.
    pub proof fn wire_has_no_null(&self)
        ensures
            self.wire() is Object,
            null_free(self.wire()->Object_0),
    {
        self.wire_lookup();
    }

    /// The members of the wire form: one for each required field, one for
    /// each optional field that is set, and none for a field that is unset.
    pub proof fn wire_members(&self)
        ensures
            self.wire() is Object,
            self.wire().get("role"@) == Some(text_value(self.role)),
            self.wire().get("email"@) == Some(text_value(self.email)),
    {
        reveal_strlit("role");
        assert("role"@.len() == 4);
        reveal_strlit("email");
        assert("email"@.len() == 5);
        self.wire_lookup();
    }

    /// A record that is read from what this one is written as has this
    /// one's fields: the same value where one is set, none where none is.
    pub proof fn read_back_same(&self, read: &Self)
        requires
            read.described_by(self.wire()),
        ensures
            read.role@ == self.role@,
            read.email@ == self.email@,
    {
        self.wire_members();
    }
}

impl ReadsBack for SubCC {
    open spec fn canonical(&self) -> bool {
        true
    }

    proof fn reads_back(&self) {
        self.wire_members();
    }
}

impl SubCustomField {
    /// The member of the wire form under `key`: that of the first field
    /// with this key that is written.
    pub open spec fn wire_member(&self, key: Seq<char>) -> Option<JsonValue> {
        let found: Option<JsonValue> = None;
        let found = found_or(found, key, "name"@, Some(text_value(self.name)));
        let found = found_or(found, key, "editor"@, opt_text_value(self.editor));
        let found = found_or(found, key, "required"@, opt_flag_value(self.required));
        let found = found_or(found, key, "value"@, opt_text_value(self.value));
        found
    }

    /// What a lookup in the wire form finds, for every key; and no member
    /// of the wire form is `null`.
    pub proof fn wire_lookup(&self)
        ensures
            self.wire() is Object,
            forall|key: Seq<char>| #[trigger] self.wire().get(key) == self.wire_member(key),
            null_free(self.wire()->Object_0),
    {
        lemma_find_in_none();
        let e0 = Seq::<(Seq<char>, JsonValue)>::empty();
        lemma_after_member(e0, "name"@, text_value(self.name));
        let e1 = e0 + member("name"@, text_value(self.name));
        lemma_after_opt_member(e1, "editor"@, opt_text_value(self.editor));
        let e2 = e1 + opt_member("editor"@, opt_text_value(self.editor));
        lemma_after_opt_member(e2, "required"@, opt_flag_value(self.required));
        let e3 = e2 + opt_member("required"@, opt_flag_value(self.required));
        lemma_after_opt_member(e3, "value"@, opt_text_value(self.value));
        let e4 = e3 + opt_member("value"@, opt_text_value(self.value));
        assert(self.wire() == JsonValue::Object(e4));
    }

    /// The wire form has no member under any key but those of the fields.
    pub proof fn wire_keys(&self)
        ensures
            forall|key: Seq<char>|
                #[trigger] self.wire().has(key) ==> {
                    ||| key == "name"@
                    ||| key == "editor"@
                    ||| key == "required"@
                    ||| key == "value"@
                },
    {
        self.wire_lookup();
    }

    /// No member of the wire form is `null`.
    pub proof fn wire_has_no_null(&self)
        ensures
            self.wire() is Object,
            null_free(self.wire()->Object_0),
    {
        self.wire_lookup();
    }

    /// The members of the wire form: one for each required field, one for
    /// each optional field that is set, and none for a field that is unset.
    pub proof fn wire_members(&self)
        ensures
            self.wire() is Object,
            self.wire().get("name"@) == Some(text_value(self.name)),
            self.wire().get("editor"@) == opt_text_value(self.editor),
            self.wire().get("required"@) == opt_flag_value(self.required),
            self.wire().get("value"@) == opt_text_value(self.value),
    {
        reveal_strlit("name");
        assert("name"@.len() == 4);
        reveal_strlit("editor");
        assert("editor"@.len() == 6);
        reveal_strlit("required");
        assert("required"@.len() == 8);
        reveal_strlit("value");
        assert("value"@.len() == 5);
        self.wire_lookup();
    }

    /// A record that is read from what this one is written as has this
    /// one's fields: the same value where one is set, none where none is.
    pub proof fn read_back_same(&self, read: &Self)
        requires
            read.described_by(self.wire()),
        ensures
            read.name@ == self.name@,
            text_opt(read.editor) == text_opt(self.editor),
            read.required == self.required,
            text_opt(read.value) == text_opt(self.value),
    {
        self.wire_members();
    }
}

impl ReadsBack for SubCustomField {
    open spec fn canonical(&self) -> bool {
        true
    }

    proof fn reads_back(&self) {
        self.wire_members();
    }
}

impl SubSigningOptions {
    /// The member of the wire form under `key`: that of the first field
    /// with this key that is written.
    pub open spec fn wire_member(&self, key: Seq<char>) -> Option<JsonValue> {
        let found: Option<JsonValue> = None;
        let found = found_or(found, key, "default_type"@, Some(self.default_type.wire()));
        let found = found_or(found, key, "draw"@, opt_flag_value(self.draw));
        let found = found_or(found, key, "phone"@, opt_flag_value(self.phone));
        let found = found_or(found, key, "type"@, opt_flag_value(self.o_type));
        let found = found_or(found, key, "upload"@, opt_flag_value(self.upload));
        found
    }

    /// What a lookup in the wire form finds, for every key; and no member
    /// of the wire form is `null`.
    pub proof fn wire_lookup(&self)
        ensures
            self.wire() is Object,
            forall|key: Seq<char>| #[trigger] self.wire().get(key) == self.wire_member(key),
            null_free(self.wire()->Object_0),
    {
        lemma_find_in_none();
        let e0 = Seq::<(Seq<char>, JsonValue)>::empty();
        lemma_after_member(e0, "default_type"@, self.default_type.wire());
        let e1 = e0 + member("default_type"@, self.default_type.wire());
        lemma_after_opt_member(e1, "draw"@, opt_flag_value(self.draw));
        let e2 = e1 + opt_member("draw"@, opt_flag_value(self.draw));
        lemma_after_opt_member(e2, "phone"@, opt_flag_value(self.phone));
        let e3 = e2 + opt_member("phone"@, opt_flag_value(self.phone));
        lemma_after_opt_member(e3, "type"@, opt_flag_value(self.o_type));
        let e4 = e3 + opt_member("type"@, opt_flag_value(self.o_type));
        lemma_after_opt_member(e4, "upload"@, opt_flag_value(self.upload));
        let e5 = e4 + opt_member("upload"@, opt_flag_value(self.upload));
        assert(self.wire() == JsonValue::Object(e5));
    }

    /// The wire form has no member under any key but those of the fields.
    pub proof fn wire_keys(&self)
        ensures
            forall|key: Seq<char>|
                #[trigger] self.wire().has(key) ==> {
                    ||| key == "default_type"@
                    ||| key == "draw"@
                    ||| key == "phone"@
                    ||| key == "type"@
                    ||| key == "upload"@
                },
    {
        self.wire_lookup();
    }

    /// No member of the wire form is `null`.
    pub proof fn wire_has_no_null(&self)
        ensures
            self.wire() is Object,
            null_free(self.wire()->Object_0),
    {
        self.wire_lookup();
    }

    /// The members of the wire form: one for each required field, one for
    /// each optional field that is set, and none for a field that is unset.
    pub proof fn wire_members(&self)
        ensures
            self.wire() is Object,
            self.wire().get("default_type"@) == Some(self.default_type.wire()),
            self.wire().get("draw"@) == opt_flag_value(self.draw),
            self.wire().get("phone"@) == opt_flag_value(self.phone),
            self.wire().get("type"@) == opt_flag_value(self.o_type),
            self.wire().get("upload"@) == opt_flag_value(self.upload),
    {
        reveal_strlit("default_type");
        assert("default_type"@.len() == 12);
        reveal_strlit("draw");
        assert("draw"@.len() == 4 && "draw"@[0] == 'd');
        reveal_strlit("phone");
        assert("phone"@.len() == 5);
        reveal_strlit("type");
        assert("type"@.len() == 4 && "type"@[0] == 't');
        reveal_strlit("upload");
        assert("upload"@.len() == 6);
        self.wire_lookup();
    }

    /// A record that is read from what this one is written as has this
    /// one's fields: the same value where one is set, none where none is.
    pub proof fn read_back_same(&self, read: &Self)
        requires
            read.described_by(self.wire()),
        ensures
            read.default_type.described_by(self.default_type.wire()),
            read.draw == self.draw,
            read.phone == self.phone,
            read.o_type == self.o_type,
            read.upload == self.upload,
    {
        self.wire_members();
    }
}

impl ReadsBack for SubSigningOptions {
    open spec fn canonical(&self) -> bool {
        &&& self.default_type.canonical()
    }

    proof fn reads_back(&self) {
        self.wire_members();
        self.default_type.reads_back();
    }
}

impl SignatureRequestResponse {
    /// The member of the wire form under `key`: that of the first field
    /// with this key that is written.
    pub open spec fn wire_member(&self, key: Seq<char>) -> Option<JsonValue> {
        let found: Option<JsonValue> = None;
        let found = found_or(found, key, "test_mode"@, opt_flag_value(self.test_mode));
        let found = found_or(
            found,
            key,
            "signature_request_id"@,
            Some(text_value(self.signature_request_id)),
        );
        let found = found_or(
            found,
            key,
            "requester_email_address"@,
            opt_text_value(self.requester_email_address),
        );
        let found = found_or(found, key, "title"@, Some(text_value(self.title)));
        let found = found_or(found, key, "original_title"@, Some(text_value(self.original_title)));
        let found = found_or(found, key, "subject"@, opt_text_value(self.subject));
        let found = found_or(found, key, "message"@, opt_text_value(self.message));
        let found = found_or(found, key, "metadata"@, Some(pairs_value(self.metadata@)));
        let found = found_or(
            found,
            key,
            "created_at"@,
            Some(JsonValue::Number(number_of_u64(self.created_at))),
        );
        let found = found_or(found, key, "expires_at"@, opt_u64_value(self.expires_at));
        let found = found_or(found, key, "is_complete"@, Some(JsonValue::Bool(self.is_complete)));
        let found = found_or(found, key, "is_declined"@, Some(JsonValue::Bool(self.is_declined)));
        let found = found_or(found, key, "has_error"@, Some(JsonValue::Bool(self.has_error)));
        let found = found_or(found, key, "files_url"@, Some(text_value(self.files_url)));
        let found = found_or(found, key, "signing_url"@, opt_text_value(self.signing_url));
        let found = found_or(found, key, "details_url"@, Some(text_value(self.details_url)));
        let found = found_or(
            found,
            key,
            "cc_email_addresses"@,
            Some(texts_value(self.cc_email_addresses@)),
        );
        let found = found_or(
            found,
            key,
            "signing_redirect_url"@,
            opt_text_value(self.signing_redirect_url),
        );
        let found = found_or(found, key, "final_copy_uri"@, opt_text_value(self.final_copy_uri));
        let found = found_or(found, key, "template_ids"@, opt_texts_value(self.template_ids));
        let found = found_or(found, key, "custom_ids"@, opt_texts_value(self.custom_ids));
        let found = found_or(found, key, "attachments"@, opt_value(self.attachments));
        let found = found_or(found, key, "response_data"@, opt_list_value(self.response_data));
        let found = found_or(found, key, "signatures"@, Some(list_value(self.signatures@)));
        let found = found_or(
            found,
            key,
            "bulk_send_job_id"@,
            opt_text_value(self.bulk_send_job_id),
        );
        found
    }

    /// What a lookup in the wire form finds, for every key; and no member
    /// of the wire form is `null`.
    #[verifier::rlimit(40)]
    pub proof fn wire_lookup(&self)
        ensures
            self.wire() is Object,
            forall|key: Seq<char>| #[trigger] self.wire().get(key) == self.wire_member(key),
            null_free(self.wire()->Object_0),
    {
        lemma_find_in_none();
        let e0 = Seq::<(Seq<char>, JsonValue)>::empty();
        lemma_after_opt_member(e0, "test_mode"@, opt_flag_value(self.test_mode));
        let e1 = e0 + opt_member("test_mode"@, opt_flag_value(self.test_mode));
        lemma_after_member(e1, "signature_request_id"@, text_value(self.signature_request_id));
        let e2 = e1 + member("signature_request_id"@, text_value(self.signature_request_id));
        lemma_after_opt_member(
            e2,
            "requester_email_address"@,
            opt_text_value(self.requester_email_address),
        );
        let e3 = e2 + opt_member(
            "requester_email_address"@,
            opt_text_value(self.requester_email_address),
        );
        lemma_after_member(e3, "title"@, text_value(self.title));
        let e4 = e3 + member("title"@, text_value(self.title));
        lemma_after_member(e4, "original_title"@, text_value(self.original_title));
        let e5 = e4 + member("original_title"@, text_value(self.original_title));
        lemma_after_opt_member(e5, "subject"@, opt_text_value(self.subject));
        let e6 = e5 + opt_member("subject"@, opt_text_value(self.subject));
        lemma_after_opt_member(e6, "message"@, opt_text_value(self.message));
        let e7 = e6 + opt_member("message"@, opt_text_value(self.message));
        lemma_after_member(e7, "metadata"@, pairs_value(self.metadata@));
        let e8 = e7 + member("metadata"@, pairs_value(self.metadata@));
        lemma_after_member(e8, "created_at"@, JsonValue::Number(number_of_u64(self.created_at)));
        let e9 = e8 + member("created_at"@, JsonValue::Number(number_of_u64(self.created_at)));
        lemma_after_opt_member(e9, "expires_at"@, opt_u64_value(self.expires_at));
        let e10 = e9 + opt_member("expires_at"@, opt_u64_value(self.expires_at));
        lemma_after_member(e10, "is_complete"@, JsonValue::Bool(self.is_complete));
        let e11 = e10 + member("is_complete"@, JsonValue::Bool(self.is_complete));
        lemma_after_member(e11, "is_declined"@, JsonValue::Bool(self.is_declined));
        let e12 = e11 + member("is_declined"@, JsonValue::Bool(self.is_declined));
        lemma_after_member(e12, "has_error"@, JsonValue::Bool(self.has_error));
        let e13 = e12 + member("has_error"@, JsonValue::Bool(self.has_error));
        lemma_after_member(e13, "files_url"@, text_value(self.files_url));
        let e14 = e13 + member("files_url"@, text_value(self.files_url));
        lemma_after_opt_member(e14, "signing_url"@, opt_text_value(self.signing_url));
        let e15 = e14 + opt_member("signing_url"@, opt_text_value(self.signing_url));
        lemma_after_member(e15, "details_url"@, text_value(self.details_url));
        let e16 = e15 + member("details_url"@, text_value(self.details_url));
        lemma_after_member(e16, "cc_email_addresses"@, texts_value(self.cc_email_addresses@));
        let e17 = e16 + member("cc_email_addresses"@, texts_value(self.cc_email_addresses@));
        lemma_after_opt_member(
            e17,
            "signing_redirect_url"@,
            opt_text_value(self.signing_redirect_url),
        );
        let e18 = e17 + opt_member(
            "signing_redirect_url"@,
            opt_text_value(self.signing_redirect_url),
        );
        lemma_after_opt_member(e18, "final_copy_uri"@, opt_text_value(self.final_copy_uri));
        let e19 = e18 + opt_member("final_copy_uri"@, opt_text_value(self.final_copy_uri));
        lemma_after_opt_member(e19, "template_ids"@, opt_texts_value(self.template_ids));
        let e20 = e19 + opt_member("template_ids"@, opt_texts_value(self.template_ids));
        lemma_after_opt_member(e20, "custom_ids"@, opt_texts_value(self.custom_ids));
        let e21 = e20 + opt_member("custom_ids"@, opt_texts_value(self.custom_ids));
        lemma_after_opt_member(e21, "attachments"@, opt_value(self.attachments));
        let e22 = e21 + opt_member("attachments"@, opt_value(self.attachments));
        lemma_after_opt_member(e22, "response_data"@, opt_list_value(self.response_data));
        let e23 = e22 + opt_member("response_data"@, opt_list_value(self.response_data));
        lemma_after_member(e23, "signatures"@, list_value(self.signatures@));
        let e24 = e23 + member("signatures"@, list_value(self.signatures@));
        lemma_after_opt_member(e24, "bulk_send_job_id"@, opt_text_value(self.bulk_send_job_id));
        let e25 = e24 + opt_member("bulk_send_job_id"@, opt_text_value(self.bulk_send_job_id));
        assert(self.wire() == JsonValue::Object(e25));
    }

    /// The wire form has no member under any key but those of the fields.
    pub proof fn wire_keys(&self)
        ensures
            forall|key: Seq<char>|
                #[trigger] self.wire().has(key) ==> {
                    ||| key == "test_mode"@
                    ||| key == "signature_request_id"@
                    ||| key == "requester_email_address"@
                    ||| key == "title"@
                    ||| key == "original_title"@
                    ||| key == "subject"@
                    ||| key == "message"@
                    ||| key == "metadata"@
                    ||| key == "created_at"@
                    ||| key == "expires_at"@
                    ||| key == "is_complete"@
                    ||| key == "is_declined"@
                    ||| key == "has_error"@
                    ||| key == "files_url"@
                    ||| key == "signing_url"@
                    ||| key == "details_url"@
                    ||| key == "cc_email_addresses"@
                    ||| key == "signing_redirect_url"@
                    ||| key == "final_copy_uri"@
                    ||| key == "template_ids"@
                    ||| key == "custom_ids"@
                    ||| key == "attachments"@
                    ||| key == "response_data"@
                    ||| key == "signatures"@
                    ||| key == "bulk_send_job_id"@
                },
    {
        self.wire_lookup();
    }

    /// No member of the wire form is `null`.
    pub proof fn wire_has_no_null(&self)
        ensures
            self.wire() is Object,
            null_free(self.wire()->Object_0),
    {
        self.wire_lookup();
    }

    /// The members of the wire form: one for each required field, one for
    /// each optional field that is set, and none for a field that is unset.
    #[verifier::rlimit(40)]
    pub proof fn wire_members(&self)
        ensures
            self.wire() is Object,
            self.wire().get("test_mode"@) == opt_flag_value(self.test_mode),
            self.wire().get("signature_request_id"@) == Some(text_value(self.signature_request_id)),
            self.wire().get("requester_email_address"@)
                == opt_text_value(self.requester_email_address),
            self.wire().get("title"@) == Some(text_value(self.title)),
            self.wire().get("original_title"@) == Some(text_value(self.original_title)),
            self.wire().get("subject"@) == opt_text_value(self.subject),
            self.wire().get("message"@) == opt_text_value(self.message),
            self.wire().get("metadata"@) == Some(pairs_value(self.metadata@)),
            self.wire().get("created_at"@) == Some(
                JsonValue::Number(number_of_u64(self.created_at)),
            ),
            self.wire().get("expires_at"@) == opt_u64_value(self.expires_at),
            self.wire().get("is_complete"@) == Some(JsonValue::Bool(self.is_complete)),
            self.wire().get("is_declined"@) == Some(JsonValue::Bool(self.is_declined)),
            self.wire().get("has_error"@) == Some(JsonValue::Bool(self.has_error)),
            self.wire().get("files_url"@) == Some(text_value(self.files_url)),
            self.wire().get("signing_url"@) == opt_text_value(self.signing_url),
            self.wire().get("details_url"@) == Some(text_value(self.details_url)),
            self.wire().get("cc_email_addresses"@) == Some(texts_value(self.cc_email_addresses@)),
            self.wire().get("signing_redirect_url"@) == opt_text_value(self.signing_redirect_url),
            self.wire().get("final_copy_uri"@) == opt_text_value(self.final_copy_uri),
            self.wire().get("template_ids"@) == opt_texts_value(self.template_ids),
            self.wire().get("custom_ids"@) == opt_texts_value(self.custom_ids),
            self.wire().get("attachments"@) == opt_value(self.attachments),
            self.wire().get("response_data"@) == opt_list_value(self.response_data),
            self.wire().get("signatures"@) == Some(list_value(self.signatures@)),
            self.wire().get("bulk_send_job_id"@) == opt_text_value(self.bulk_send_job_id),
    {
        reveal_strlit("test_mode");
        assert("test_mode"@.len() == 9 && "test_mode"@[0] == 't');
        reveal_strlit("signature_request_id");
        assert("signature_request_id"@.len() == 20 && "signature_request_id"@[4] == 'a');
        reveal_strlit("requester_email_address");
        assert("requester_email_address"@.len() == 23);
        reveal_strlit("title");
        assert("title"@.len() == 5);
        reveal_strlit("original_title");
        assert("original_title"@.len() == 14 && "original_title"@[0] == 'o');
        reveal_strlit("subject");
        assert("subject"@.len() == 7 && "subject"@[0] == 's');
        reveal_strlit("message");
        assert("message"@.len() == 7 && "message"@[0] == 'm');
        reveal_strlit("metadata");
        assert("metadata"@.len() == 8);
        reveal_strlit("created_at");
        assert("created_at"@.len() == 10 && "created_at"@[0] == 'c' && "created_at"@[1] == 'r');
        reveal_strlit("expires_at");
        assert("expires_at"@.len() == 10 && "expires_at"@[0] == 'e');
        reveal_strlit("is_complete");
        assert("is_complete"@.len() == 11 && "is_complete"@[0] == 'i' && "is_complete"@[3] == 'c');
        reveal_strlit("is_declined");
        assert("is_declined"@.len() == 11 && "is_declined"@[0] == 'i' && "is_declined"@[3] == 'd');
        reveal_strlit("has_error");
        assert("has_error"@.len() == 9 && "has_error"@[0] == 'h');
        reveal_strlit("files_url");
        assert("files_url"@.len() == 9 && "files_url"@[0] == 'f');
        reveal_strlit("signing_url");
        assert("signing_url"@.len() == 11 && "signing_url"@[0] == 's');
        reveal_strlit("details_url");
        assert("details_url"@.len() == 11 && "details_url"@[0] == 'd');
        reveal_strlit("cc_email_addresses");
        assert("cc_email_addresses"@.len() == 18);
        reveal_strlit("signing_redirect_url");
        assert("signing_redirect_url"@.len() == 20 && "signing_redirect_url"@[4] == 'i');
        reveal_strlit("final_copy_uri");
        assert("final_copy_uri"@.len() == 14 && "final_copy_uri"@[0] == 'f');
        reveal_strlit("template_ids");
        assert("template_ids"@.len() == 12);
        reveal_strlit("custom_ids");
        assert("custom_ids"@.len() == 10 && "custom_ids"@[0] == 'c' && "custom_ids"@[1] == 'u');
        reveal_strlit("attachments");
        assert("attachments"@.len() == 11 && "attachments"@[0] == 'a');
        reveal_strlit("response_data");
        assert("response_data"@.len() == 13);
        reveal_strlit("signatures");
        assert("signatures"@.len() == 10 && "signatures"@[0] == 's');
        reveal_strlit("bulk_send_job_id");
        assert("bulk_send_job_id"@.len() == 16);
        self.wire_lookup();
    }

    /// A record that is read from what this one is written as has this
    /// one's fields: the same value where one is set, none where none is.
    /// Of pairs with one key it has the last.
    pub proof fn read_back_same(&self, read: &Self)
        requires
            read.described_by(self.wire()),
        ensures
            read.test_mode == self.test_mode,
            read.signature_request_id@ == self.signature_request_id@,
            text_opt(read.requester_email_address) == text_opt(self.requester_email_address),
            read.title@ == self.title@,
            read.original_title@ == self.original_title@,
            text_opt(read.subject) == text_opt(self.subject),
            text_opt(read.message) == text_opt(self.message),
            pairs_view(read.metadata@) == kept_pairs(self.metadata@),
            read.created_at == self.created_at,
            read.expires_at == self.expires_at,
            read.is_complete == self.is_complete,
            read.is_declined == self.is_declined,
            read.has_error == self.has_error,
            read.files_url@ == self.files_url@,
            text_opt(read.signing_url) == text_opt(self.signing_url),
            read.details_url@ == self.details_url@,
            texts_view(read.cc_email_addresses@) == texts_view(self.cc_email_addresses@),
            text_opt(read.signing_redirect_url) == text_opt(self.signing_redirect_url),
            text_opt(read.final_copy_uri) == text_opt(self.final_copy_uri),
            texts_opt(read.template_ids) == texts_opt(self.template_ids),
            texts_opt(read.custom_ids) == texts_opt(self.custom_ids),
            opt_same(read.attachments, self.attachments),
            opt_list_same(read.response_data, self.response_data),
            list_same(read.signatures@, self.signatures@),
            text_opt(read.bulk_send_job_id) == text_opt(self.bulk_send_job_id),
    {
        self.wire_members();
        lemma_pairs_read_back(self.metadata@);
        lemma_texts_read_back(self.cc_email_addresses@);
        match self.template_ids {
            Some(l) => {
                lemma_texts_read_back(l@);
            },
            None => {},
        }
        match self.custom_ids {
            Some(l) => {
                lemma_texts_read_back(l@);
            },
            None => {},
        }
    }
}

impl ReadsBack for SignatureRequestResponse {
    open spec fn canonical(&self) -> bool {
        &&& keys_once(self.metadata@)
        &&& opt_canonical(self.attachments)
        &&& opt_list_canonical(self.response_data)
        &&& list_canonical(self.signatures@)
    }

    proof fn reads_back(&self) {
        self.wire_members();
        lemma_pairs_read_back(self.metadata@);
        lemma_texts_read_back(self.cc_email_addresses@);
        match self.template_ids {
            Some(l) => {
                lemma_texts_read_back(l@);
            },
            None => {},
        }
        match self.custom_ids {
            Some(l) => {
                lemma_texts_read_back(l@);
            },
            None => {},
        }
        match self.attachments {
            Some(t) => {
                t.reads_back();
            },
            None => {},
        }
        match self.response_data {
            Some(l) => {
                lemma_list_read_back(l@);
            },
            None => {},
        }
        lemma_list_read_back(self.signatures@);
    }
}

impl SignatureRequestResponseCustomFieldBase {
    /// The member of the wire form under `key`: that of the first field
    /// with this key that is written.
    pub open spec fn wire_member(&self, key: Seq<char>) -> Option<JsonValue> {
        let found: Option<JsonValue> = None;
        let found = found_or(found, key, "type"@, Some(self.o_type.wire()));
        let found = found_or(found, key, "name"@, Some(text_value(self.name)));
        let found = found_or(found, key, "required"@, opt_flag_value(self.required));
        let found = found_or(found, key, "api_id"@, opt_text_value(self.api_id));
        let found = found_or(found, key, "editor"@, opt_text_value(self.editor));
        let found = found_or(found, key, "value"@, opt_text_value(self.value));
        found
    }

    /// What a lookup in the wire form finds, for every key; and no member
    /// of the wire form is `null`.
    pub proof fn wire_lookup(&self)
        ensures
            self.wire() is Object,
            forall|key: Seq<char>| #[trigger] self.wire().get(key) == self.wire_member(key),
            null_free(self.wire()->Object_0),
    {
        lemma_find_in_none();
        let e0 = Seq::<(Seq<char>, JsonValue)>::empty();
        lemma_after_member(e0, "type"@, self.o_type.wire());
        let e1 = e0 + member("type"@, self.o_type.wire());
        lemma_after_member(e1, "name"@, text_value(self.name));
        let e2 = e1 + member("name"@, text_value(self.name));
        lemma_after_opt_member(e2, "required"@, opt_flag_value(self.required));
        let e3 = e2 + opt_member("required"@, opt_flag_value(self.required));
        lemma_after_opt_member(e3, "api_id"@, opt_text_value(self.api_id));
        let e4 = e3 + opt_member("api_id"@, opt_text_value(self.api_id));
        lemma_after_opt_member(e4, "editor"@, opt_text_value(self.editor));
        let e5 = e4 + opt_member("editor"@, opt_text_value(self.editor));
        lemma_after_opt_member(e5, "value"@, opt_text_value(self.value));
        let e6 = e5 + opt_member("value"@, opt_text_value(self.value));
        assert(self.wire() == JsonValue::Object(e6));
    }

    /// The wire form has no member under any key but those of the fields.
    pub proof fn wire_keys(&self)
        ensures
            forall|key: Seq<char>|
                #[trigger] self.wire().has(key) ==> {
                    ||| key == "type"@
                    ||| key == "name"@
                    ||| key == "required"@
                    ||| key == "api_id"@
                    ||| key == "editor"@
                    ||| key == "value"@
                },
    {
        self.wire_lookup();
    }

    /// No member of the wire form is `null`.
    pub proof fn wire_has_no_null(&self)
        ensures
            self.wire() is Object,
            null_free(self.wire()->Object_0),
    {
        self.wire_lookup();
    }

    /// The members of the wire form: one for each required field, one for
    /// each optional field that is set, and none for a field that is unset.
    pub proof fn wire_members(&self)
        ensures
            self.wire() is Object,
            self.wire().get("type"@) == Some(self.o_type.wire()),
            self.wire().get("name"@) == Some(text_value(self.name)),
            self.wire().get("required"@) == opt_flag_value(self.required),
            self.wire().get("api_id"@) == opt_text_value(self.api_id),
            self.wire().get("editor"@) == opt_text_value(self.editor),
            self.wire().get("value"@) == opt_text_value(self.value),
    {
        reveal_strlit("type");
        assert("type"@.len() == 4 && "type"@[0] == 't');
        reveal_strlit("name");
        assert("name"@.len() == 4 && "name"@[0] == 'n');
        reveal_strlit("required");
        assert("required"@.len() == 8);
        reveal_strlit("api_id");
        assert("api_id"@.len() == 6 && "api_id"@[0] == 'a');
        reveal_strlit("editor");
        assert("editor"@.len() == 6 && "editor"@[0] == 'e');
        reveal_strlit("value");
        assert("value"@.len() == 5);
        self.wire_lookup();
    }

    /// A record that is read from what this one is written as has this
    /// one's fields: the same value where one is set, none where none is.
    pub proof fn read_back_same(&self, read: &Self)
        requires
            read.described_by(self.wire()),
        ensures
            read.o_type.described_by(self.o_type.wire()),
            read.name@ == self.name@,
            read.required == self.required,
            text_opt(read.api_id) == text_opt(self.api_id),
            text_opt(read.editor) == text_opt(self.editor),
            text_opt(read.value) == text_opt(self.value),
    {
        self.wire_members();
    }
}

impl ReadsBack for SignatureRequestResponseCustomFieldBase {
    open spec fn canonical(&self) -> bool {
        &&& self.o_type.canonical()
    }

    proof fn reads_back(&self) {
        self.wire_members();
        self.o_type.reads_back();
    }
}

impl SignatureRequestResponseAttachment {
    /// The member of the wire form under `key`: that of the first field
    /// with this key that is written.
    pub open spec fn wire_member(&self, key: Seq<char>) -> Option<JsonValue> {
        let found: Option<JsonValue> = None;
        let found = found_or(found, key, "id"@, Some(text_value(self.id)));
        let found = found_or(found, key, "signer"@, Some(text_value(self.signer)));
        let found = found_or(found, key, "name"@, Some(text_value(self.name)));
        let found = found_or(found, key, "required"@, Some(JsonValue::Bool(self.required)));
        let found = found_or(found, key, "instructions"@, opt_text_value(self.instructions));
        let found = found_or(found, key, "uploaded_at"@, opt_u64_value(self.uploaded_at));
        found
    }

    /// What a lookup in the wire form finds, for every key; and no member
    /// of the wire form is `null`.
    pub proof fn wire_lookup(&self)
        ensures
            self.wire() is Object,
            forall|key: Seq<char>| #[trigger] self.wire().get(key) == self.wire_member(key),
            null_free(self.wire()->Object_0),
    {
        lemma_find_in_none();
        let e0 = Seq::<(Seq<char>, JsonValue)>::empty();
        lemma_after_member(e0, "id"@, text_value(self.id));
        let e1 = e0 + member("id"@, text_value(self.id));
        lemma_after_member(e1, "signer"@, text_value(self.signer));
        let e2 = e1 + member("signer"@, text_value(self.signer));
        lemma_after_member(e2, "name"@, text_value(self.name));
        let e3 = e2 + member("name"@, text_value(self.name));
        lemma_after_member(e3, "required"@, JsonValue::Bool(self.required));
        let e4 = e3 + member("required"@, JsonValue::Bool(self.required));
        lemma_after_opt_member(e4, "instructions"@, opt_text_value(self.instructions));
        let e5 = e4 + opt_member("instructions"@, opt_text_value(self.instructions));
        lemma_after_opt_member(e5, "uploaded_at"@, opt_u64_value(self.uploaded_at));
        let e6 = e5 + opt_member("uploaded_at"@, opt_u64_value(self.uploaded_at));
        assert(self.wire() == JsonValue::Object(e6));
    }

    /// The wire form has no member under any key but those of the fields.
    pub proof fn wire_keys(&self)
        ensures
            forall|key: Seq<char>|
                #[trigger] self.wire().has(key) ==> {
                    ||| key == "id"@
                    ||| key == "signer"@
                    ||| key == "name"@
                    ||| key == "required"@
                    ||| key == "instructions"@
                    ||| key == "uploaded_at"@
                },
    {
        self.wire_lookup();
    }

    /// No member of the wire form is `null`.
    pub proof fn wire_has_no_null(&self)
        ensures
            self.wire() is Object,
            null_free(self.wire()->Object_0),
    {
        self.wire_lookup();
    }

    /// The members of the wire form: one for each required field, one for
    /// each optional field that is set, and none for a field that is unset.
    pub proof fn wire_members(&self)
        ensures
            self.wire() is Object,
            self.wire().get("id"@) == Some(text_value(self.id)),
            self.wire().get("signer"@) == Some(text_value(self.signer)),
            self.wire().get("name"@) == Some(text_value(self.name)),
            self.wire().get("required"@) == Some(JsonValue::Bool(self.required)),
            self.wire().get("instructions"@) == opt_text_value(self.instructions),
            self.wire().get("uploaded_at"@) == opt_u64_value(self.uploaded_at),
    {
        reveal_strlit("id");
        assert("id"@.len() == 2);
        reveal_strlit("signer");
        assert("signer"@.len() == 6);
        reveal_strlit("name");
        assert("name"@.len() == 4);
        reveal_strlit("required");
        assert("required"@.len() == 8);
        reveal_strlit("instructions");
        assert("instructions"@.len() == 12);
        reveal_strlit("uploaded_at");
        assert("uploaded_at"@.len() == 11);
        self.wire_lookup();
    }

    /// A record that is read from what this one is written as has this
    /// one's fields: the same value where one is set, none where none is.
    pub proof fn read_back_same(&self, read: &Self)
        requires
            read.described_by(self.wire()),
        ensures
            read.id@ == self.id@,
            read.signer@ == self.signer@,
            read.name@ == self.name@,
            read.required == self.required,
            text_opt(read.instructions) == text_opt(self.instructions),
            read.uploaded_at == self.uploaded_at,
    {
        self.wire_members();
    }
}

impl ReadsBack for SignatureRequestResponseAttachment {
    open spec fn canonical(&self) -> bool {
        true
    }

    proof fn reads_back(&self) {
        self.wire_members();
    }
}

impl SignatureRequestResponseData {
    /// The member of the wire form under `key`: that of the first field
    /// with this key that is written.
    pub open spec fn wire_member(&self, key: Seq<char>) -> Option<JsonValue> {
        let found: Option<JsonValue> = None;
        let found = found_or(found, key, "api_id"@, opt_text_value(self.api_id));
        let found = found_or(found, key, "signature_id"@, opt_text_value(self.signature_id));
        let found = found_or(found, key, "name"@, opt_text_value(self.name));
        let found = found_or(found, key, "required"@, opt_flag_value(self.required));
        let found = found_or(found, key, "o_type"@, opt_value(self.o_type));
        let found = found_or(found, key, "value"@, opt_text_value(self.value));
        found
    }

    /// What a lookup in the wire form finds, for every key; and no member
    /// of the wire form is `null`.
    pub proof fn wire_lookup(&self)
        ensures
            self.wire() is Object,
            forall|key: Seq<char>| #[trigger] self.wire().get(key) == self.wire_member(key),
            null_free(self.wire()->Object_0),
    {
        lemma_find_in_none();
        let e0 = Seq::<(Seq<char>, JsonValue)>::empty();
        lemma_after_opt_member(e0, "api_id"@, opt_text_value(self.api_id));
        let e1 = e0 + opt_member("api_id"@, opt_text_value(self.api_id));
        lemma_after_opt_member(e1, "signature_id"@, opt_text_value(self.signature_id));
        let e2 = e1 + opt_member("signature_id"@, opt_text_value(self.signature_id));
        lemma_after_opt_member(e2, "name"@, opt_text_value(self.name));
        let e3 = e2 + opt_member("name"@, opt_text_value(self.name));
        lemma_after_opt_member(e3, "required"@, opt_flag_value(self.required));
        let e4 = e3 + opt_member("required"@, opt_flag_value(self.required));
        lemma_after_opt_member(e4, "o_type"@, opt_value(self.o_type));
        let e5 = e4 + opt_member("o_type"@, opt_value(self.o_type));
        lemma_after_opt_member(e5, "value"@, opt_text_value(self.value));
        let e6 = e5 + opt_member("value"@, opt_text_value(self.value));
        assert(self.wire() == JsonValue::Object(e6));
    }

    /// The wire form has no member under any key but those of the fields.
    pub proof fn wire_keys(&self)
        ensures
            forall|key: Seq<char>|
                #[trigger] self.wire().has(key) ==> {
                    ||| key == "api_id"@
                    ||| key == "signature_id"@
                    ||| key == "name"@
                    ||| key == "required"@
                    ||| key == "o_type"@
                    ||| key == "value"@
                },
    {
        self.wire_lookup();
    }

    /// No member of the wire form is `null`.
    pub proof fn wire_has_no_null(&self)
        ensures
            self.wire() is Object,
            null_free(self.wire()->Object_0),
    {
        self.wire_lookup();
    }

    /// The members of the wire form: one for each required field, one for
    /// each optional field that is set, and none for a field that is unset.
    pub proof fn wire_members(&self)
        ensures
            self.wire() is Object,
            self.wire().get("api_id"@) == opt_text_value(self.api_id),
            self.wire().get("signature_id"@) == opt_text_value(self.signature_id),
            self.wire().get("name"@) == opt_text_value(self.name),
            self.wire().get("required"@) == opt_flag_value(self.required),
            self.wire().get("o_type"@) == opt_value(self.o_type),
            self.wire().get("value"@) == opt_text_value(self.value),
    {
        reveal_strlit("api_id");
        assert("api_id"@.len() == 6 && "api_id"@[0] == 'a');
        reveal_strlit("signature_id");
        assert("signature_id"@.len() == 12);
        reveal_strlit("name");
        assert("name"@.len() == 4);
        reveal_strlit("required");
        assert("required"@.len() == 8);
        reveal_strlit("o_type");
        assert("o_type"@.len() == 6 && "o_type"@[0] == 'o');
        reveal_strlit("value");
        assert("value"@.len() == 5);
        self.wire_lookup();
    }

    /// A record that is read from what this one is written as has this
    /// one's fields: the same value where one is set, none where none is.
    pub proof fn read_back_same(&self, read: &Self)
        requires
            read.described_by(self.wire()),
        ensures
            text_opt(read.api_id) == text_opt(self.api_id),
            text_opt(read.signature_id) == text_opt(self.signature_id),
            text_opt(read.name) == text_opt(self.name),
            read.required == self.required,
            opt_same(read.o_type, self.o_type),
            text_opt(read.value) == text_opt(self.value),
    {
        self.wire_members();
    }
}

impl ReadsBack for SignatureRequestResponseData {
    open spec fn canonical(&self) -> bool {
        &&& opt_canonical(self.o_type)
    }

    proof fn reads_back(&self) {
        self.wire_members();
        match self.o_type {
            Some(t) => {
                t.reads_back();
            },
            None => {},
        }
    }
}

impl SignatureRequestResponseSignatures {
    /// The member of the wire form under `key`: that of the first field
    /// with this key that is written.
    pub open spec fn wire_member(&self, key: Seq<char>) -> Option<JsonValue> {
        let found: Option<JsonValue> = None;
        let found = found_or(found, key, "signature_id"@, Some(text_value(self.signature_id)));
        let found = found_or(
            found,
            key,
            "signer_group_guid"@,
            opt_text_value(self.signer_group_guid),
        );
        let found = found_or(
            found,
            key,
            "signer_email_address"@,
            Some(text_value(self.signer_email_address)),
        );
        let found = found_or(found, key, "signer_name"@, opt_text_value(self.signer_name));
        let found = found_or(found, key, "signer_role"@, opt_text_value(self.signer_role));
        let found = found_or(found, key, "order"@, opt_i32_value(self.order));
        let found = found_or(found, key, "status_code"@, Some(text_value(self.status_code)));
        let found = found_or(found, key, "decline_reason"@, opt_text_value(self.decline_reason));
        let found = found_or(found, key, "signed_at"@, opt_i64_value(self.signed_at));
        let found = found_or(found, key, "last_viewed_at"@, opt_i64_value(self.last_viewed_at));
        let found = found_or(found, key, "last_reminded_at"@, opt_i64_value(self.last_reminded_at));
        let found = found_or(found, key, "has_pin"@, Some(JsonValue::Bool(self.has_pin)));
        let found = found_or(found, key, "has_sms_auth"@, opt_flag_value(self.has_sms_auth));
        let found = found_or(
            found,
            key,
            "has_sms_delivery"@,
            opt_flag_value(self.has_sms_delivery),
        );
        let found = found_or(
            found,
            key,
            "sms_phone_number"@,
            opt_text_value(self.sms_phone_number),
        );
        let found = found_or(found, key, "reassigned_by"@, opt_text_value(self.reassigned_by));
        let found = found_or(
            found,
            key,
            "reassignment_reason"@,
            opt_text_value(self.reassignment_reason),
        );
        let found = found_or(found, key, "reassigned_from"@, opt_text_value(self.reassigned_from));
        let found = found_or(found, key, "error"@, opt_text_value(self.error));
        found
    }

    /// What a lookup in the wire form finds, for every key; and no member
    /// of the wire form is `null`.
    #[verifier::rlimit(40)]
    pub proof fn wire_lookup(&self)
        ensures
            self.wire() is Object,
            forall|key: Seq<char>| #[trigger] self.wire().get(key) == self.wire_member(key),
            null_free(self.wire()->Object_0),
    {
        lemma_find_in_none();
        let e0 = Seq::<(Seq<char>, JsonValue)>::empty();
        lemma_after_member(e0, "signature_id"@, text_value(self.signature_id));
        let e1 = e0 + member("signature_id"@, text_value(self.signature_id));
        lemma_after_opt_member(e1, "signer_group_guid"@, opt_text_value(self.signer_group_guid));
        let e2 = e1 + opt_member("signer_group_guid"@, opt_text_value(self.signer_group_guid));
        lemma_after_member(e2, "signer_email_address"@, text_value(self.signer_email_address));
        let e3 = e2 + member("signer_email_address"@, text_value(self.signer_email_address));
        lemma_after_opt_member(e3, "signer_name"@, opt_text_value(self.signer_name));
        let e4 = e3 + opt_member("signer_name"@, opt_text_value(self.signer_name));
        lemma_after_opt_member(e4, "signer_role"@, opt_text_value(self.signer_role));
        let e5 = e4 + opt_member("signer_role"@, opt_text_value(self.signer_role));
        lemma_after_opt_member(e5, "order"@, opt_i32_value(self.order));
        let e6 = e5 + opt_member("order"@, opt_i32_value(self.order));
        lemma_after_member(e6, "status_code"@, text_value(self.status_code));
        let e7 = e6 + member("status_code"@, text_value(self.status_code));
        lemma_after_opt_member(e7, "decline_reason"@, opt_text_value(self.decline_reason));
        let e8 = e7 + opt_member("decline_reason"@, opt_text_value(self.decline_reason));
        lemma_after_opt_member(e8, "signed_at"@, opt_i64_value(self.signed_at));
        let e9 = e8 + opt_member("signed_at"@, opt_i64_value(self.signed_at));
        lemma_after_opt_member(e9, "last_viewed_at"@, opt_i64_value(self.last_viewed_at));
        let e10 = e9 + opt_member("last_viewed_at"@, opt_i64_value(self.last_viewed_at));
        lemma_after_opt_member(e10, "last_reminded_at"@, opt_i64_value(self.last_reminded_at));
        let e11 = e10 + opt_member("last_reminded_at"@, opt_i64_value(self.last_reminded_at));
        lemma_after_member(e11, "has_pin"@, JsonValue::Bool(self.has_pin));
        let e12 = e11 + member("has_pin"@, JsonValue::Bool(self.has_pin));
        lemma_after_opt_member(e12, "has_sms_auth"@, opt_flag_value(self.has_sms_auth));
        let e13 = e12 + opt_member("has_sms_auth"@, opt_flag_value(self.has_sms_auth));
        lemma_after_opt_member(e13, "has_sms_delivery"@, opt_flag_value(self.has_sms_delivery));
        let e14 = e13 + opt_member("has_sms_delivery"@, opt_flag_value(self.has_sms_delivery));
        lemma_after_opt_member(e14, "sms_phone_number"@, opt_text_value(self.sms_phone_number));
        let e15 = e14 + opt_member("sms_phone_number"@, opt_text_value(self.sms_phone_number));
        lemma_after_opt_member(e15, "reassigned_by"@, opt_text_value(self.reassigned_by));
        let e16 = e15 + opt_member("reassigned_by"@, opt_text_value(self.reassigned_by));
        lemma_after_opt_member(
            e16,
            "reassignment_reason"@,
            opt_text_value(self.reassignment_reason),
        );
        let e17 = e16 + opt_member(
            "reassignment_reason"@,
            opt_text_value(self.reassignment_reason),
        );
        lemma_after_opt_member(e17, "reassigned_from"@, opt_text_value(self.reassigned_from));
        let e18 = e17 + opt_member("reassigned_from"@, opt_text_value(self.reassigned_from));
        lemma_after_opt_member(e18, "error"@, opt_text_value(self.error));
        let e19 = e18 + opt_member("error"@, opt_text_value(self.error));
        assert(self.wire() == JsonValue::Object(e19));
    }

    /// The wire form has no member under any key but those of the fields.
    pub proof fn wire_keys(&self)
        ensures
            forall|key: Seq<char>|
                #[trigger] self.wire().has(key) ==> {
                    ||| key == "signature_id"@
                    ||| key == "signer_group_guid"@
                    ||| key == "signer_email_address"@
                    ||| key == "signer_name"@
                    ||| key == "signer_role"@
                    ||| key == "order"@
                    ||| key == "status_code"@
                    ||| key == "decline_reason"@
                    ||| key == "signed_at"@
                    ||| key == "last_viewed_at"@
                    ||| key == "last_reminded_at"@
                    ||| key == "has_pin"@
                    ||| key == "has_sms_auth"@
                    ||| key == "has_sms_delivery"@
                    ||| key == "sms_phone_number"@
                    ||| key == "reassigned_by"@
                    ||| key == "reassignment_reason"@
                    ||| key == "reassigned_from"@
                    ||| key == "error"@
                },
    {
        self.wire_lookup();
    }

    /// No member of the wire form is `null`.
    pub proof fn wire_has_no_null(&self)
        ensures
            self.wire() is Object,
            null_free(self.wire()->Object_0),
    {
        self.wire_lookup();
    }

    /// The members of the wire form: one for each required field, one for
    /// each optional field that is set, and none for a field that is unset.
    #[verifier::rlimit(40)]
    pub proof fn wire_members(&self)
        ensures
            self.wire() is Object,
            self.wire().get("signature_id"@) == Some(text_value(self.signature_id)),
            self.wire().get("signer_group_guid"@) == opt_text_value(self.signer_group_guid),
            self.wire().get("signer_email_address"@) == Some(text_value(self.signer_email_address)),
            self.wire().get("signer_name"@) == opt_text_value(self.signer_name),
            self.wire().get("signer_role"@) == opt_text_value(self.signer_role),
            self.wire().get("order"@) == opt_i32_value(self.order),
            self.wire().get("status_code"@) == Some(text_value(self.status_code)),
            self.wire().get("decline_reason"@) == opt_text_value(self.decline_reason),
            self.wire().get("signed_at"@) == opt_i64_value(self.signed_at),
            self.wire().get("last_viewed_at"@) == opt_i64_value(self.last_viewed_at),
            self.wire().get("last_reminded_at"@) == opt_i64_value(self.last_reminded_at),
            self.wire().get("has_pin"@) == Some(JsonValue::Bool(self.has_pin)),
            self.wire().get("has_sms_auth"@) == opt_flag_value(self.has_sms_auth),
            self.wire().get("has_sms_delivery"@) == opt_flag_value(self.has_sms_delivery),
            self.wire().get("sms_phone_number"@) == opt_text_value(self.sms_phone_number),
            self.wire().get("reassigned_by"@) == opt_text_value(self.reassigned_by),
            self.wire().get("reassignment_reason"@) == opt_text_value(self.reassignment_reason),
            self.wire().get("reassigned_from"@) == opt_text_value(self.reassigned_from),
            self.wire().get("error"@) == opt_text_value(self.error),
    {
        reveal_strlit("signature_id");
        assert("signature_id"@.len() == 12 && "signature_id"@[0] == 's');
        reveal_strlit("signer_group_guid");
        assert("signer_group_guid"@.len() == 17);
        reveal_strlit("signer_email_address");
        assert("signer_email_address"@.len() == 20);
        reveal_strlit("signer_name");
        assert("signer_name"@.len() == 11 && "signer_name"@[1] == 'i' && "signer_name"@[7] == 'n');
        reveal_strlit("signer_role");
        assert("signer_role"@.len() == 11 && "signer_role"@[1] == 'i' && "signer_role"@[7] == 'r');
        reveal_strlit("order");
        assert("order"@.len() == 5 && "order"@[0] == 'o');
        reveal_strlit("status_code");
        assert("status_code"@.len() == 11 && "status_code"@[1] == 't');
        reveal_strlit("decline_reason");
        assert("decline_reason"@.len() == 14 && "decline_reason"@[0] == 'd');
        reveal_strlit("signed_at");
        assert("signed_at"@.len() == 9);
        reveal_strlit("last_viewed_at");
        assert("last_viewed_at"@.len() == 14 && "last_viewed_at"@[0] == 'l');
        reveal_strlit("last_reminded_at");
        assert("last_reminded_at"@.len() == 16 && "last_reminded_at"@[0] == 'l');
        reveal_strlit("has_pin");
        assert("has_pin"@.len() == 7);
        reveal_strlit("has_sms_auth");
        assert("has_sms_auth"@.len() == 12 && "has_sms_auth"@[0] == 'h');
        reveal_strlit("has_sms_delivery");
        assert("has_sms_delivery"@.len() == 16 && "has_sms_delivery"@[0] == 'h');
        reveal_strlit("sms_phone_number");
        assert("sms_phone_number"@.len() == 16 && "sms_phone_number"@[0] == 's');
        reveal_strlit("reassigned_by");
        assert("reassigned_by"@.len() == 13);
        reveal_strlit("reassignment_reason");
        assert("reassignment_reason"@.len() == 19);
        reveal_strlit("reassigned_from");
        assert("reassigned_from"@.len() == 15);
        reveal_strlit("error");
        assert("error"@.len() == 5 && "error"@[0] == 'e');
        self.wire_lookup();
    }

    /// A record that is read from what this one is written as has this
    /// one's fields: the same value where one is set, none where none is.
    pub proof fn read_back_same(&self, read: &Self)
        requires
            read.described_by(self.wire()),
        ensures
            read.signature_id@ == self.signature_id@,
            text_opt(read.signer_group_guid) == text_opt(self.signer_group_guid),
            read.signer_email_address@ == self.signer_email_address@,
            text_opt(read.signer_name) == text_opt(self.signer_name),
            text_opt(read.signer_role) == text_opt(self.signer_role),
            read.order == self.order,
            read.status_code@ == self.status_code@,
            text_opt(read.decline_reason) == text_opt(self.decline_reason),
            read.signed_at == self.signed_at,
            read.last_viewed_at == self.last_viewed_at,
            read.last_reminded_at == self.last_reminded_at,
            read.has_pin == self.has_pin,
            read.has_sms_auth == self.has_sms_auth,
            read.has_sms_delivery == self.has_sms_delivery,
            text_opt(read.sms_phone_number) == text_opt(self.sms_phone_number),
            text_opt(read.reassigned_by) == text_opt(self.reassigned_by),
            text_opt(read.reassignment_reason) == text_opt(self.reassignment_reason),
            text_opt(read.reassigned_from) == text_opt(self.reassigned_from),
            text_opt(read.error) == text_opt(self.error),
    {
        self.wire_members();
    }
}

impl ReadsBack for SignatureRequestResponseSignatures {
    open spec fn canonical(&self) -> bool {
        true
    }

    proof fn reads_back(&self) {
        self.wire_members();
    }
}

} // verus!
