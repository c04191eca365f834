use kinic_cli::callback::{handle_connection, validate_payload, CallbackState, Rejection, Reply};
use kinic_cli::crypto::{decrypt_payload, open_payload, take_private_key, EphemeralKeyPair};
use kinic_cli::error::CallbackError;
use kinic_cli::http::{parse_request, HttpRequest};
use kinic_cli::payload::{BrowserPayload, CallbackRequest};
use ring::aead::{Aad, LessSafeKey, Nonce, UnboundKey, AES_256_GCM};
use ring::agreement::{
    agree_ephemeral, Algorithm, EphemeralPrivateKey, UnparsedPublicKey, ECDH_P256, X25519,
};
use ring::hkdf::{Salt, HKDF_SHA256};
use ring::rand::SystemRandom;

const ORIGIN: &str = "https://id.example";
const INFO: &[u8] = b"kinic-cli login callback";

fn user_key() -> Vec<u8> {
    let mut key = vec![0x30, 0x2a, 0x30, 0x05, 0x06, 0x03, 0x2b, 0x65, 0x70, 0x03, 0x21, 0x00];
    key.extend((1u8..=32).collect::<Vec<u8>>());
    key
}

fn keypair(algorithm: &'static Algorithm) -> (EphemeralPrivateKey, Vec<u8>) {
    let private = EphemeralPrivateKey::generate(algorithm, &SystemRandom::new()).unwrap();
    let public = private.compute_public_key().unwrap().as_ref().to_vec();
    (private, public)
}

fn derive_key(secret: &[u8], info: &[u8]) -> Vec<u8> {
    let mut key = vec![0u8; 32];
    Salt::new(HKDF_SHA256, &[])
        .extract(secret)
        .expand(&[info], HKDF_SHA256)
        .unwrap()
        .fill(&mut key)
        .unwrap();
    key
}

fn seal_with(
    algorithm: &'static Algorithm,
    listener_public: &[u8],
    info: &[u8],
    plaintext: &[u8],
) -> (Vec<u8>, Vec<u8>, Vec<u8>) {
    let (private, public) = keypair(algorithm);
    let peer = UnparsedPublicKey::new(algorithm, listener_public);
    let key = agree_ephemeral(private, &peer, |secret| derive_key(secret, info)).unwrap();
    let key = LessSafeKey::new(UnboundKey::new(&AES_256_GCM, &key).unwrap());
    let iv = [7u8; 12];
    let mut sealed = plaintext.to_vec();
    key.seal_in_place_append_tag(Nonce::assume_unique_for_key(iv), Aad::empty(), &mut sealed)
        .unwrap();
    (public, iv.to_vec(), sealed)
}

fn payload_json(session_key: &[u8], derivation_origin: &str, user_key: &[u8]) -> Vec<u8> {
    format!(
        "{{\"session_public_key\":{:?},\"derivation_origin\":\"{}\",\"user_public_key\":{:?}}}",
        session_key, derivation_origin, user_key
    )
    .into_bytes()
}

fn envelope(nonce: &str, public: &[u8], iv: &[u8], sealed: &[u8]) -> Vec<u8> {
    format!(
        "{{\"nonce\":\"{}\",\"ephemeral_public_key\":{:?},\"iv\":{:?},\"ciphertext\":{:?}}}",
        nonce, public, iv, sealed
    )
    .into_bytes()
}

fn post(origin: Option<&str>, body: Vec<u8>) -> HttpRequest {
    let mut headers = vec![("Content-Type".to_string(), "application/json".to_string())];
    if let Some(origin) = origin {
        headers.push(("Origin".to_string(), origin.to_string()));
    }
    HttpRequest { method: "POST".to_string(), path: "/callback".to_string(), headers, body }
}

fn state_with(nonce: &str, session_key: &[u8], derivation_origin: &str) -> (CallbackState, Vec<u8>) {
    let (public, private) = EphemeralKeyPair::generate().unwrap().into_parts();
    let state = CallbackState::new(
        nonce.to_string(),
        session_key.to_vec(),
        derivation_origin.to_string(),
        private,
    );
    (state, public)
}

fn valid_post(nonce: &str, listener_public: &[u8]) -> HttpRequest {
    let plaintext = payload_json(&[1, 2, 3], ORIGIN, &user_key());
    let (public, iv, sealed) = seal_with(&X25519, listener_public, INFO, &plaintext);
    post(Some(ORIGIN), envelope(nonce, &public, &iv, &sealed))
}

fn response_for(status: &str, content_type: &str, body: &str) -> String {
    format!(
        "{}\r\nContent-Type: {}\r\nContent-Length: {}\r\nAccess-Control-Allow-Origin: {}\r\nAccess-Control-Allow-Methods: POST, OPTIONS\r\nAccess-Control-Allow-Headers: content-type\r\n\r\n{}",
        status,
        content_type,
        body.len(),
        ORIGIN,
        body
    )
}

fn rejected(reply: &Reply, status: &str, reason: &str) {
    assert_eq!(reply.response, response_for(status, "text/plain", reason));
    assert_eq!(reply.callback, None);
}

fn expected_principal() -> String {
    candid::Principal::self_authenticating(user_key()).to_text()
}

#[test]
fn end_to_end() {
    let (mut state, listener_public) = state_with("n1", &[1, 2, 3], ORIGIN);
    let preflight = parse_request(
        b"OPTIONS /callback HTTP/1.1\r\nOrigin: https://id.example\r\nAccess-Control-Request-Method: POST\r\n\r\n",
    )
    .unwrap();
    let reply = handle_connection(&preflight, &mut state, ORIGIN).unwrap();
    assert_eq!(reply.response, response_for("HTTP/1.1 204 No Content", "text/plain", ""));
    assert_eq!(reply.callback, None);
    assert!(state.key_available());

    let request = valid_post("n1", &listener_public);
    let reply = handle_connection(&request, &mut state, ORIGIN).unwrap();
    let principal = expected_principal();
    let body = format!("{{\"status\":\"ok\",\"principal\":\"{}\"}}", principal);
    assert_eq!(reply.response, response_for("HTTP/1.1 200 OK", "application/json", &body));
    let data = reply.callback.unwrap();
    assert_eq!(data.principal.to_text(), principal);
    assert_eq!(
        data.principal.as_slice(),
        candid::Principal::self_authenticating(user_key()).as_slice()
    );
    assert_eq!(data.payload.session_public_key, vec![1, 2, 3]);
    assert_eq!(data.payload.derivation_origin, ORIGIN);
    assert_eq!(data.payload.user_public_key, user_key());
    assert!(data.payload.artifacts.is_empty());
    assert!(!state.key_available());
}

#[test]
fn end_to_end_over_the_wire_format() {
    let (mut state, listener_public) = state_with("n1", &[1, 2, 3], ORIGIN);
    let request = valid_post("n1", &listener_public);
    let mut wire = format!(
        "POST /callback HTTP/1.1\r\nHost: 127.0.0.1\r\norigin: {}\r\nContent-Length: {}\r\n\r\n",
        ORIGIN,
        request.body.len()
    )
    .into_bytes();
    wire.extend_from_slice(&request.body);
    let parsed = parse_request(&wire).unwrap();
    assert_eq!(parsed.missing_body(), 0);
    let reply = handle_connection(&parsed, &mut state, ORIGIN).unwrap();
    assert!(reply.response.starts_with("HTTP/1.1 200 OK\r\n"));
    assert_eq!(reply.callback.unwrap().principal.to_text(), expected_principal());
}

#[test]
fn end_to_end_on_p256() {
    let (private, listener_public) = keypair(&ECDH_P256);
    let mut state =
        CallbackState::new("n1".to_string(), vec![1, 2, 3], ORIGIN.to_string(), private);
    let plaintext = payload_json(&[1, 2, 3], ORIGIN, &user_key());
    let (public, iv, sealed) = seal_with(&ECDH_P256, &listener_public, INFO, &plaintext);
    let request = post(None, envelope("n1", &public, &iv, &sealed));
    let reply = handle_connection(&request, &mut state, ORIGIN).unwrap();
    assert_eq!(reply.callback.unwrap().principal.to_text(), expected_principal());
}

#[test]
fn single_success_invariant() {
    let (mut state, listener_public) = state_with("n1", &[1, 2, 3], ORIGIN);
    let first = valid_post("n1", &listener_public);
    let second = valid_post("n1", &listener_public);
    assert!(handle_connection(&first, &mut state, ORIGIN).unwrap().callback.is_some());
    let reply = handle_connection(&second, &mut state, ORIGIN).unwrap();
    rejected(&reply, "HTTP/1.1 409 Conflict", "Callback already used");
    let reply = handle_connection(&first, &mut state, ORIGIN).unwrap();
    rejected(&reply, "HTTP/1.1 409 Conflict", "Callback already used");
    assert!(!state.key_available());
}

#[test]
fn used_key_answers_before_the_body_is_read() {
    let (mut state, listener_public) = state_with("n1", &[1, 2, 3], ORIGIN);
    let first = valid_post("n1", &listener_public);
    assert!(handle_connection(&first, &mut state, ORIGIN).unwrap().callback.is_some());
    let garbage = post(Some(ORIGIN), b"not json".to_vec());
    let reply = handle_connection(&garbage, &mut state, ORIGIN).unwrap();
    rejected(&reply, "HTTP/1.1 409 Conflict", "Callback already used");
}

#[test]
fn origin_enforcement() {
    let (mut state, listener_public) = state_with("n1", &[1, 2, 3], ORIGIN);
    let mut request = valid_post("n1", &listener_public);
    request.headers = vec![("ORIGIN".to_string(), "https://evil.example".to_string())];
    let reply = handle_connection(&request, &mut state, ORIGIN).unwrap();
    rejected(&reply, "HTTP/1.1 403 Forbidden", "Invalid origin");
    assert!(state.key_available());
    request.headers = vec![("Origin".to_string(), "https://ID.example".to_string())];
    let reply = handle_connection(&request, &mut state, ORIGIN).unwrap();
    rejected(&reply, "HTTP/1.1 403 Forbidden", "Invalid origin");
    assert!(state.key_available());
    request.headers = vec![("Origin".to_string(), ORIGIN.to_string())];
    assert!(handle_connection(&request, &mut state, ORIGIN).unwrap().callback.is_some());
}

#[test]
fn foreign_origin_is_told_so_even_after_the_key_is_used() {
    let (mut state, listener_public) = state_with("n1", &[1, 2, 3], ORIGIN);
    let first = valid_post("n1", &listener_public);
    assert!(handle_connection(&first, &mut state, ORIGIN).unwrap().callback.is_some());
    let foreign = post(Some("https://evil.example"), Vec::new());
    let reply = handle_connection(&foreign, &mut state, ORIGIN).unwrap();
    rejected(&reply, "HTTP/1.1 403 Forbidden", "Invalid origin");
}

#[test]
fn absent_origin_is_accepted() {
    let (mut state, listener_public) = state_with("n1", &[1, 2, 3], ORIGIN);
    let mut request = valid_post("n1", &listener_public);
    request.headers.clear();
    assert!(handle_connection(&request, &mut state, ORIGIN).unwrap().callback.is_some());
}

#[test]
fn nonce_binding() {
    let (mut state, listener_public) = state_with("abc123", &[1, 2, 3], ORIGIN);
    let wrong = valid_post("xyz", &listener_public);
    let reply = handle_connection(&wrong, &mut state, ORIGIN).unwrap();
    rejected(&reply, "HTTP/1.1 400 Bad Request", "Invalid nonce");
    assert!(state.key_available());
    let right = valid_post("abc123", &listener_public);
    let reply = handle_connection(&right, &mut state, ORIGIN).unwrap();
    assert!(reply.callback.is_some());
    assert!(!state.key_available());
}

#[test]
fn nonce_is_compared_exactly() {
    let (mut state, listener_public) = state_with("abc123", &[1, 2, 3], ORIGIN);
    for nonce in ["ABC123", "abc123 ", "", "abc12"] {
        let reply = handle_connection(&valid_post(nonce, &listener_public), &mut state, ORIGIN)
            .unwrap();
        rejected(&reply, "HTTP/1.1 400 Bad Request", "Invalid nonce");
    }
    assert!(state.key_available());
}

#[test]
fn field_mismatch_rejection_session_key() {
    let (mut state, listener_public) = state_with("n1", &[1, 2, 3], ORIGIN);
    let plaintext = payload_json(&[1, 2, 4], ORIGIN, &user_key());
    let (public, iv, sealed) = seal_with(&X25519, &listener_public, INFO, &plaintext);
    let request = post(Some(ORIGIN), envelope("n1", &public, &iv, &sealed));
    let reply = handle_connection(&request, &mut state, ORIGIN).unwrap();
    rejected(&reply, "HTTP/1.1 400 Bad Request", "Session key mismatch");
    assert!(!state.key_available());
}

#[test]
fn field_mismatch_rejection_derivation_origin() {
    let (mut state, listener_public) = state_with("n1", &[1, 2, 3], ORIGIN);
    let plaintext = payload_json(&[1, 2, 3], "https://other.example", &user_key());
    let (public, iv, sealed) = seal_with(&X25519, &listener_public, INFO, &plaintext);
    let request = post(Some(ORIGIN), envelope("n1", &public, &iv, &sealed));
    let reply = handle_connection(&request, &mut state, ORIGIN).unwrap();
    rejected(&reply, "HTTP/1.1 400 Bad Request", "Derivation origin mismatch");
    assert!(!state.key_available());
}

#[test]
fn session_key_is_checked_before_derivation_origin() {
    let (mut state, listener_public) = state_with("n1", &[1, 2, 3], ORIGIN);
    let plaintext = payload_json(&[], "https://other.example", &[1]);
    let (public, iv, sealed) = seal_with(&X25519, &listener_public, INFO, &plaintext);
    let request = post(Some(ORIGIN), envelope("n1", &public, &iv, &sealed));
    let reply = handle_connection(&request, &mut state, ORIGIN).unwrap();
    rejected(&reply, "HTTP/1.1 400 Bad Request", "Session key mismatch");
}

#[test]
fn invalid_user_key_is_a_hard_failure() {
    let (mut state, listener_public) = state_with("n1", &[1, 2, 3], ORIGIN);
    let plaintext = payload_json(&[1, 2, 3], ORIGIN, &[4, 5, 6]);
    let (public, iv, sealed) = seal_with(&X25519, &listener_public, INFO, &plaintext);
    let request = post(Some(ORIGIN), envelope("n1", &public, &iv, &sealed));
    assert_eq!(handle_connection(&request, &mut state, ORIGIN), Err(CallbackError::InvalidKey));
    assert!(!state.key_available());
}

#[test]
fn unknown_route() {
    let (mut state, _) = state_with("n1", &[1, 2, 3], ORIGIN);
    let request = parse_request(b"GET / HTTP/1.1\r\nHost: localhost\r\n\r\n").unwrap();
    let reply = handle_connection(&request, &mut state, ORIGIN).unwrap();
    rejected(&reply, "HTTP/1.1 404 Not Found", "Not found");
    assert!(state.key_available());
}

#[test]
fn other_methods_and_paths_are_not_found() {
    let (mut state, listener_public) = state_with("n1", &[1, 2, 3], ORIGIN);
    for (method, path) in [
        ("GET", "/callback"),
        ("post", "/callback"),
        ("options", "/callback"),
        ("POST", "/callback/"),
        ("POST", "/Callback"),
        ("POST", "callback"),
        ("OPTIONS", "/"),
        ("POST", "/?/callback"),
    ] {
        let mut request = valid_post("n1", &listener_public);
        request.method = method.to_string();
        request.path = path.to_string();
        let reply = handle_connection(&request, &mut state, ORIGIN).unwrap();
        rejected(&reply, "HTTP/1.1 404 Not Found", "Not found");
    }
    assert!(state.key_available());
}

#[test]
fn query_string_is_not_part_of_the_route() {
    let (mut state, listener_public) = state_with("n1", &[1, 2, 3], ORIGIN);
    let mut request = valid_post("n1", &listener_public);
    request.path = "/callback?session=1?x".to_string();
    assert!(handle_connection(&request, &mut state, ORIGIN).unwrap().callback.is_some());
    let (mut state, _) = state_with("n1", &[1, 2, 3], ORIGIN);
    let mut preflight = post(None, Vec::new());
    preflight.method = "OPTIONS".to_string();
    preflight.path = "/callback?".to_string();
    let reply = handle_connection(&preflight, &mut state, ORIGIN).unwrap();
    assert!(reply.response.starts_with("HTTP/1.1 204 No Content\r\n"));
}

#[test]
fn preflight_ignores_origin_and_key() {
    let (mut state, listener_public) = state_with("n1", &[1, 2, 3], ORIGIN);
    assert!(handle_connection(&valid_post("n1", &listener_public), &mut state, ORIGIN)
        .unwrap()
        .callback
        .is_some());
    let mut preflight = post(Some("https://evil.example"), Vec::new());
    preflight.method = "OPTIONS".to_string();
    let reply = handle_connection(&preflight, &mut state, ORIGIN).unwrap();
    assert_eq!(reply.response, response_for("HTTP/1.1 204 No Content", "text/plain", ""));
}

#[test]
fn malformed_body_is_a_hard_failure_and_keeps_the_key() {
    let (mut state, listener_public) = state_with("n1", &[1, 2, 3], ORIGIN);
    for body in [
        &b"not json"[..],
        b"",
        b"[]",
        b"{\"nonce\":\"n1\"}",
        b"{\"nonce\":1,\"ephemeral_public_key\":[],\"iv\":[],\"ciphertext\":[]}",
        b"{\"nonce\":\"n1\",\"ephemeral_public_key\":[256],\"iv\":[],\"ciphertext\":[]}",
        b"{\"nonce\":\"n1\",\"ephemeral_public_key\":[-1],\"iv\":[],\"ciphertext\":[]}",
        b"{\"nonce\":\"n1\",\"ephemeral_public_key\":[1.0],\"iv\":[],\"ciphertext\":[]}",
        b"{\"nonce\":\"n1\",\"ephemeral_public_key\":\"AQID\",\"iv\":[],\"ciphertext\":[]}",
        b"{\"nonce\":\"n1\",\"ephemeral_public_key\":[],\"iv\":[],\"ciphertext\":[]} x",
    ] {
        let request = post(Some(ORIGIN), body.to_vec());
        assert_eq!(
            handle_connection(&request, &mut state, ORIGIN),
            Err(CallbackError::MalformedCallback)
        );
    }
    assert!(state.key_available());
    assert!(handle_connection(&valid_post("n1", &listener_public), &mut state, ORIGIN)
        .unwrap()
        .callback
        .is_some());
}

#[test]
fn failed_decryption_uses_the_key_up() {
    let (mut state, listener_public) = state_with("n1", &[1, 2, 3], ORIGIN);
    let plaintext = payload_json(&[1, 2, 3], ORIGIN, &user_key());
    let (public, iv, mut sealed) = seal_with(&X25519, &listener_public, INFO, &plaintext);
    sealed[0] ^= 1;
    let request = post(Some(ORIGIN), envelope("n1", &public, &iv, &sealed));
    assert_eq!(handle_connection(&request, &mut state, ORIGIN), Err(CallbackError::DecryptFailed));
    assert!(!state.key_available());
    let reply =
        handle_connection(&valid_post("n1", &listener_public), &mut state, ORIGIN).unwrap();
    rejected(&reply, "HTTP/1.1 409 Conflict", "Callback already used");
}

#[test]
fn every_decryption_failure_looks_the_same() {
    let plaintext = payload_json(&[1, 2, 3], ORIGIN, &user_key());

    let (mut state, listener_public) = state_with("n1", &[1, 2, 3], ORIGIN);
    let (_, iv, sealed) = seal_with(&X25519, &listener_public, INFO, &plaintext);
    let request = post(None, envelope("n1", &[1, 2, 3], &iv, &sealed));
    assert_eq!(handle_connection(&request, &mut state, ORIGIN), Err(CallbackError::DecryptFailed));

    let (mut state, listener_public) = state_with("n1", &[1, 2, 3], ORIGIN);
    let (public, _, sealed) = seal_with(&X25519, &listener_public, INFO, &plaintext);
    let request = post(None, envelope("n1", &public, &[7u8; 11], &sealed));
    assert_eq!(handle_connection(&request, &mut state, ORIGIN), Err(CallbackError::DecryptFailed));

    let (mut state, listener_public) = state_with("n1", &[1, 2, 3], ORIGIN);
    let (public, iv, _) = seal_with(&X25519, &listener_public, INFO, &plaintext);
    let request = post(None, envelope("n1", &public, &iv, &[0u8; 15]));
    assert_eq!(handle_connection(&request, &mut state, ORIGIN), Err(CallbackError::DecryptFailed));

    let (mut state, listener_public) = state_with("n1", &[1, 2, 3], ORIGIN);
    let (public, iv, sealed) = seal_with(&X25519, &listener_public, b"other info", &plaintext);
    let request = post(None, envelope("n1", &public, &iv, &sealed));
    assert_eq!(handle_connection(&request, &mut state, ORIGIN), Err(CallbackError::DecryptFailed));

    let (mut state, listener_public) = state_with("n1", &[1, 2, 3], ORIGIN);
    let (public, iv, sealed) = seal_with(&X25519, &listener_public, INFO, b"{\"x\":1}");
    let request = post(None, envelope("n1", &public, &iv, &sealed));
    assert_eq!(handle_connection(&request, &mut state, ORIGIN), Err(CallbackError::DecryptFailed));

    let (mut state, listener_public) = state_with("n1", &[1, 2, 3], ORIGIN);
    let (public, iv, sealed) = seal_with(&ECDH_P256, &keypair(&ECDH_P256).1, INFO, &plaintext);
    let _ = listener_public;
    let request = post(None, envelope("n1", &public, &iv, &sealed));
    assert_eq!(handle_connection(&request, &mut state, ORIGIN), Err(CallbackError::DecryptFailed));
}

#[test]
fn private_key_is_taken_once() {
    let (private, _) = keypair(&X25519);
    let mut slot = Some(private);
    assert!(take_private_key(&mut slot).is_ok());
    assert!(slot.is_none());
    assert_eq!(take_private_key(&mut slot).err(), Some(CallbackError::KeyUnavailable));
    assert!(slot.is_none());
}

#[test]
fn payload_opens_with_the_shared_secret() {
    let secret = [9u8; 32];
    let key = LessSafeKey::new(UnboundKey::new(&AES_256_GCM, &derive_key(&secret, INFO)).unwrap());
    let mut sealed = payload_json(&[5], "o", &[6, 7]);
    key.seal_in_place_append_tag(Nonce::assume_unique_for_key([1u8; 12]), Aad::empty(), &mut sealed)
        .unwrap();
    let request = CallbackRequest {
        nonce: "n".to_string(),
        ephemeral_public_key: Vec::new(),
        iv: vec![1u8; 12],
        ciphertext: sealed,
    };
    assert_eq!(
        open_payload(&secret, &request),
        Some(BrowserPayload {
            session_public_key: vec![5],
            derivation_origin: "o".to_string(),
            user_public_key: vec![6, 7],
            artifacts: Vec::new(),
        })
    );
    assert_eq!(open_payload(&[8u8; 32], &request), None);
    assert_eq!(open_payload(&[], &request), None);
}

#[test]
fn decrypt_payload_returns_what_was_sealed() {
    let (private, listener_public) = keypair(&X25519);
    let plaintext = payload_json(&[1, 2, 3], ORIGIN, &user_key());
    let (public, iv, sealed) = seal_with(&X25519, &listener_public, INFO, &plaintext);
    let request = CallbackRequest {
        nonce: "n1".to_string(),
        ephemeral_public_key: public,
        iv,
        ciphertext: sealed,
    };
    let payload = decrypt_payload(private, &request).unwrap();
    assert_eq!(payload.session_public_key, vec![1, 2, 3]);
    assert_eq!(payload.derivation_origin, ORIGIN);
    assert_eq!(payload.user_public_key, user_key());
}

#[test]
fn validation_of_a_matching_payload_succeeds_without_the_key() {
    let (mut state, listener_public) = state_with("n1", &[1, 2, 3], ORIGIN);
    assert!(handle_connection(&valid_post("n1", &listener_public), &mut state, ORIGIN)
        .unwrap()
        .callback
        .is_some());
    let payload = BrowserPayload {
        session_public_key: vec![1, 2, 3],
        derivation_origin: ORIGIN.to_string(),
        user_public_key: user_key(),
        artifacts: vec![("delegations".to_string(), "[]".to_string())],
    };
    let reply = validate_payload(&state, "o", payload.clone()).unwrap();
    let data = reply.callback.unwrap();
    assert_eq!(data.payload, payload);
    assert_eq!(data.principal.to_text(), expected_principal());
    assert!(reply.response.contains("\r\nAccess-Control-Allow-Origin: o\r\n"));
}

#[test]
fn rejections_have_their_status_and_reason() {
    assert_eq!(Rejection::InvalidOrigin.status_line(), "HTTP/1.1 403 Forbidden");
    assert_eq!(Rejection::InvalidOrigin.reason(), "Invalid origin");
    assert_eq!(Rejection::AlreadyUsed.status_line(), "HTTP/1.1 409 Conflict");
    assert_eq!(Rejection::AlreadyUsed.reason(), "Callback already used");
    assert_eq!(Rejection::InvalidNonce.status_line(), "HTTP/1.1 400 Bad Request");
    assert_eq!(Rejection::InvalidNonce.reason(), "Invalid nonce");
    assert_eq!(Rejection::SessionKeyMismatch.status_line(), "HTTP/1.1 400 Bad Request");
    assert_eq!(Rejection::SessionKeyMismatch.reason(), "Session key mismatch");
    assert_eq!(Rejection::DerivationOriginMismatch.status_line(), "HTTP/1.1 400 Bad Request");
    assert_eq!(Rejection::DerivationOriginMismatch.reason(), "Derivation origin mismatch");
    assert_eq!(Rejection::NotFound.status_line(), "HTTP/1.1 404 Not Found");
    assert_eq!(Rejection::NotFound.reason(), "Not found");
}

#[test]
fn callback_errors_have_their_texts() {
    assert_eq!(CallbackError::MalformedCallback.message(), "Failed to parse callback");
    assert_eq!(CallbackError::KeyUnavailable.message(), "Callback already used");
    assert_eq!(CallbackError::DecryptFailed.message(), "Failed to decrypt payload");
    assert_eq!(CallbackError::InvalidKey.message(), "invalid key");
}

#[test]
fn cors_completeness() {
    let (mut state, listener_public) = state_with("n1", &[1, 2, 3], ORIGIN);
    let mut requests = vec![
        parse_request(b"GET / HTTP/1.1\r\n\r\n").unwrap(),
        parse_request(b"OPTIONS /callback HTTP/1.1\r\n\r\n").unwrap(),
        post(Some("https://evil.example"), Vec::new()),
        valid_post("wrong", &listener_public),
        valid_post("n1", &listener_public),
        valid_post("n1", &listener_public),
    ];
    let plaintext = payload_json(&[9], ORIGIN, &user_key());
    let (public, iv, sealed) = seal_with(&X25519, &listener_public, INFO, &plaintext);
    requests.insert(4, post(None, envelope("n1", &public, &iv, &sealed)));
    let mut statuses = Vec::new();
    for request in &requests {
        let reply = handle_connection(request, &mut state, ORIGIN).unwrap();
        let (head, _) = reply.response.split_once("\r\n\r\n").unwrap();
        let lines: Vec<&str> = head.split("\r\n").collect();
        assert_eq!(lines.len(), 6);
        assert!(lines[1].starts_with("Content-Type: "));
        assert!(lines[2].starts_with("Content-Length: "));
        assert_eq!(lines[3], "Access-Control-Allow-Origin: https://id.example");
        assert_eq!(lines[4], "Access-Control-Allow-Methods: POST, OPTIONS");
        assert_eq!(lines[5], "Access-Control-Allow-Headers: content-type");
        statuses.push(lines[0].to_string());
    }
    assert_eq!(
        statuses,
        vec![
            "HTTP/1.1 404 Not Found",
            "HTTP/1.1 204 No Content",
            "HTTP/1.1 403 Forbidden",
            "HTTP/1.1 400 Bad Request",
            "HTTP/1.1 400 Bad Request",
            "HTTP/1.1 409 Conflict",
            "HTTP/1.1 409 Conflict",
        ]
    );
}

#[test]
fn generated_key_pairs_are_fresh_and_belong_together() {
    let first = EphemeralKeyPair::generate().unwrap();
    let second = EphemeralKeyPair::generate().unwrap();
    assert_eq!(first.public_key().len(), 32);
    assert_ne!(first.public_key(), second.public_key());
    let shown = first.public_key().to_vec();
    let (public, private) = first.into_parts();
    assert_eq!(public, shown);
    assert_eq!(private.compute_public_key().unwrap().as_ref(), &public[..]);
}
