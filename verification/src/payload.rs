//! What the browser sends: the envelope of a callback request and the
//! payload that is sealed inside it.
use crate::error::CallbackError;
use crate::identity::Principal;
use crate::json::{
    bytes_field, bytes_of, json_object, parse_json_object, text_field, text_of, EntryView,
    JsonEntry,
};
use crate::text::str_eq;
use vstd::prelude::*;

verus! {

/// The body of a callback request. Its JSON object has the string `nonce`
/// and, as arrays of bytes, `ephemeral_public_key` (the sender's key for
/// the key agreement), `iv` (the nonce of the cipher) and `ciphertext`
/// (the sealed payload, authentication tag last).
#[derive(Debug, Clone, PartialEq, Eq)]
pub struct CallbackRequest {
    pub nonce: String,
    pub ephemeral_public_key: Vec<u8>,
    pub iv: Vec<u8>,
    pub ciphertext: Vec<u8>,
}

/// The mathematical content of a `CallbackRequest`.
pub ghost struct CallbackRequestView {
    pub nonce: Seq<char>,
    pub ephemeral_public_key: Seq<u8>,
    pub iv: Seq<u8>,
    pub ciphertext: Seq<u8>,
}

impl View for CallbackRequest {
    type V = CallbackRequestView;

    open spec fn view(&self) -> CallbackRequestView {
        CallbackRequestView {
            nonce: self.nonce@,
            ephemeral_public_key: self.ephemeral_public_key@,
            iv: self.iv@,
            ciphertext: self.ciphertext@,
        }
    }
}

/// The decrypted payload. Its JSON object has the string
/// `derivation_origin` and, as arrays of bytes, `session_public_key` and
/// `user_public_key`. Whatever else the browser relays in it is kept as
/// `artifacts`: each further field by name, with its value as JSON.
#[derive(Debug, Clone, PartialEq, Eq)]
pub struct BrowserPayload {
    pub session_public_key: Vec<u8>,
    pub derivation_origin: String,
    pub user_public_key: Vec<u8>,
    pub artifacts: Vec<(String, String)>,
}

/// The mathematical content of a `BrowserPayload`.
pub ghost struct BrowserPayloadView {
    pub session_public_key: Seq<u8>,
    pub derivation_origin: Seq<char>,
    pub user_public_key: Seq<u8>,
    pub artifacts: Seq<(Seq<char>, Seq<char>)>,
}

impl View for BrowserPayload {
    type V = BrowserPayloadView;

    open spec fn view(&self) -> BrowserPayloadView {
        BrowserPayloadView {
            session_public_key: self.session_public_key@,
            derivation_origin: self.derivation_origin@,
            user_public_key: self.user_public_key@,
            artifacts: self.artifacts.deep_view(),
        }
    }
}

/// What an accepted callback yields: the payload and the user's principal.
#[derive(Debug, Clone, PartialEq, Eq)]
pub struct CallbackData {
    pub payload: BrowserPayload,
    pub principal: Principal,
}

/// The mathematical content of a `CallbackData`.
pub ghost struct CallbackDataView {
    pub payload: BrowserPayloadView,
    pub principal: Seq<u8>,
}

impl View for CallbackData {
    type V = CallbackDataView;

    open spec fn view(&self) -> CallbackDataView {
        CallbackDataView { payload: self.payload@, principal: self.principal@ }
    }
}

/// The callback request that the fields of a JSON object make up: each of
/// the four fields present and of its kind.
pub open spec fn callback_request_of(fields: Seq<EntryView>) -> Option<CallbackRequestView> {
    match (
        text_of(fields, "nonce"@),
        bytes_of(fields, "ephemeral_public_key"@),
        bytes_of(fields, "iv"@),
        bytes_of(fields, "ciphertext"@),
    ) {
        (Some(nonce), Some(ephemeral_public_key), Some(iv), Some(ciphertext)) => Some(
            CallbackRequestView { nonce, ephemeral_public_key, iv, ciphertext },
        ),
        _ => None,
    }
}

/// Whether `name` is one of the three fields that every payload has.
pub open spec fn is_payload_field(name: Seq<char>) -> bool {
    ||| name == "session_public_key"@
    ||| name == "derivation_origin"@
    ||| name == "user_public_key"@
}

/// The fields that a payload relays beyond its own three, in order, each
/// with its value as JSON.
pub open spec fn artifacts_of(fields: Seq<EntryView>) -> Seq<(Seq<char>, Seq<char>)>
    decreases fields.len(),
{
    if fields.len() == 0 {
        Seq::empty()
    } else if is_payload_field(fields[0].name) {
        artifacts_of(fields.drop_first())
    } else {
        seq![(fields[0].name, fields[0].json)] + artifacts_of(fields.drop_first())
    }
}

/// The payload that the fields of a JSON object make up: each of the three
/// fields present and of its kind, and the rest as artifacts.
pub open spec fn browser_payload_of(fields: Seq<EntryView>) -> Option<BrowserPayloadView> {
    match (
        bytes_of(fields, "session_public_key"@),
        text_of(fields, "derivation_origin"@),
        bytes_of(fields, "user_public_key"@),
    ) {
        (Some(session_public_key), Some(derivation_origin), Some(user_public_key)) => Some(
            BrowserPayloadView {
                session_public_key,
                derivation_origin,
                user_public_key,
                artifacts: artifacts_of(fields),
            },
        ),
        _ => None,
    }
}

/// What the bytes of a request body say as a callback request.
pub open spec fn parsed_callback(body: Seq<u8>) -> Option<CallbackRequestView> {
    match json_object(body) {
        Some(fields) => callback_request_of(fields),
        None => None,
    }
}

/// What the bytes of a plaintext say as a payload.
pub open spec fn parsed_payload(plaintext: Seq<u8>) -> Option<BrowserPayloadView> {
    match json_object(plaintext) {
        Some(fields) => browser_payload_of(fields),
        None => None,
    }
}

/// Picks the fields of a callback request out of a JSON object.
pub fn callback_request_from_fields(fields: &Vec<JsonEntry>) -> (r: Option<CallbackRequest>)
    ensures
        match r {
            Some(request) => callback_request_of(fields.deep_view()) == Some(request@),
            None => callback_request_of(fields.deep_view()) is None,
        },
{
    let nonce = text_field(fields, "nonce");
    let ephemeral_public_key = bytes_field(fields, "ephemeral_public_key");
    let iv = bytes_field(fields, "iv");
    let ciphertext = bytes_field(fields, "ciphertext");
    match (nonce, ephemeral_public_key, iv, ciphertext) {
        (Some(nonce), Some(ephemeral_public_key), Some(iv), Some(ciphertext)) => Some(
            CallbackRequest { nonce, ephemeral_public_key, iv, ciphertext },
        ),
        _ => None,
    }
}

/// The fields of a JSON object that are none of a payload's own three.
pub fn artifacts_from_fields(fields: &Vec<JsonEntry>) -> (artifacts: Vec<(String, String)>)
    ensures
        artifacts.deep_view() == artifacts_of(fields.deep_view()),
{
    let ghost all = fields.deep_view();
    let mut artifacts: Vec<(String, String)> = Vec::new();
    let mut i: usize = 0;
    proof {
        assert(all.skip(0) =~= all);
        assert(artifacts.deep_view() =~= Seq::empty());
        assert(Seq::<(Seq<char>, Seq<char>)>::empty() + artifacts_of(all) =~= artifacts_of(all));
    }
    while i < fields.len()
        invariant
            i <= fields.len(),
            all == fields.deep_view(),
            artifacts_of(all) == artifacts.deep_view() + artifacts_of(all.skip(i as int)),
        decreases fields.len() - i,
    {
        let ghost before = artifacts.deep_view();
        let ghost rest = artifacts_of(all.skip(i as int + 1));
        proof {
            assert(all.skip(i as int).drop_first() =~= all.skip(i as int + 1));
        }
        let name = fields[i].name.as_str();
        let own = str_eq(name, "session_public_key") || str_eq(name, "derivation_origin")
            || str_eq(name, "user_public_key");
        if !own {
            let ghost entry = (fields[i as int].name@, fields[i as int].json@);
            artifacts.push((fields[i].name.clone(), fields[i].json.clone()));
            proof {
                assert(artifacts.deep_view() =~= before.push(entry));
                assert(before + (seq![entry] + rest) =~= before.push(entry) + rest);
            }
        }
        i += 1;
    }
    proof {
        assert(all.skip(fields.len() as int) =~= Seq::empty());
        assert(artifacts.deep_view() + Seq::<(Seq<char>, Seq<char>)>::empty()
            =~= artifacts.deep_view());
    }
    artifacts
}

/// Picks the fields of a payload out of a JSON object.
pub fn browser_payload_from_fields(fields: &Vec<JsonEntry>) -> (r: Option<BrowserPayload>)
    ensures
        match r {
            Some(payload) => browser_payload_of(fields.deep_view()) == Some(payload@),
            None => browser_payload_of(fields.deep_view()) is None,
        },
{
    let session_public_key = bytes_field(fields, "session_public_key");
    let derivation_origin = text_field(fields, "derivation_origin");
    let user_public_key = bytes_field(fields, "user_public_key");
    match (session_public_key, derivation_origin, user_public_key) {
        (Some(session_public_key), Some(derivation_origin), Some(user_public_key)) => Some(
            BrowserPayload {
                session_public_key,
                derivation_origin,
                user_public_key,
                artifacts: artifacts_from_fields(fields),
            },
        ),
        _ => None,
    }
}

/// Reads a request body as a callback request.
pub fn parse_callback_request(body: &[u8]) -> (r: Result<CallbackRequest, CallbackError>)
    ensures
        match r {
            Ok(request) => parsed_callback(body@) == Some(request@),
            Err(e) => parsed_callback(body@) is None && e == CallbackError::MalformedCallback,
        },
{
    match parse_json_object(body) {
        Ok(fields) => match callback_request_from_fields(&fields) {
            Some(request) => Ok(request),
            None => Err(CallbackError::MalformedCallback),
        },
        Err(_) => Err(CallbackError::MalformedCallback),
    }
}

/// Reads a plaintext as a payload.
pub fn parse_browser_payload(plaintext: &[u8]) -> (r: Option<BrowserPayload>)
    ensures
        match r {
            Some(payload) => parsed_payload(plaintext@) == Some(payload@),
            None => parsed_payload(plaintext@) is None,
        },
{
    match parse_json_object(plaintext) {
        Ok(fields) => browser_payload_from_fields(&fields),
        Err(_) => None,
    }
}

} // verus!
