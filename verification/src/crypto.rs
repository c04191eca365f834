//! Opening the sealed payload of a callback. The sender agrees on a secret
//! with the listener's ephemeral key (ECDH on the curve that the key was
//! made for), derives a 256-bit key from the secret with HKDF-SHA-256
//! (empty salt, the info string below), and seals the payload with
//! AES-256-GCM under a 96-bit nonce and no associated data. All of the
//! cryptography is `ring`'s.
use crate::error::CallbackError;
use crate::payload::{
    parse_browser_payload, parsed_payload, BrowserPayload, BrowserPayloadView, CallbackRequest,
    CallbackRequestView,
};
use vstd::prelude::*;
use vstd::string::*;
use vstd::utf8::*;

verus! {

/// `ring`'s ephemeral private key, carried through as an opaque value.
#[verifier::external_type_specification]
#[verifier::external_body]
pub struct ExEphemeralPrivateKey(ring::agreement::EphemeralPrivateKey);

/// `ring`'s error, which says nothing of its cause.
#[verifier::external_type_specification]
#[verifier::external_body]
pub struct ExUnspecified(ring::error::Unspecified);

/// The info string of the key derivation.
pub open spec fn key_info() -> Seq<u8> {
    encode_utf8("kinic-cli login callback"@)
}

/// The output of HKDF-SHA-256, of the length of one SHA-256 digest, for a
/// secret, a salt and an info string; `None` where `ring` refuses.
pub uninterp spec fn hkdf_sha256_key(secret: Seq<u8>, salt: Seq<u8>, info: Seq<u8>) -> Option<
    Seq<u8>,
>;

/// The plaintext of an AES-256-GCM ciphertext with its tag appended, under
/// a key and a nonce and with no associated data; `None` where the key or
/// the nonce has the wrong length or the tag does not match.
pub uninterp spec fn aes_256_gcm_opened(key: Seq<u8>, iv: Seq<u8>, sealed: Seq<u8>) -> Option<
    Seq<u8>,
>;

/// Makes a fresh X25519 private key with
/// `ring::agreement::EphemeralPrivateKey::generate` from the system's
/// random source. Nothing is promised of the outcome: it is random.
#[verifier::external_body]
fn generate_private_key() -> (r: Result<
    ring::agreement::EphemeralPrivateKey,
    ring::error::Unspecified,
>) {
    ring::agreement::EphemeralPrivateKey::generate(
        &ring::agreement::X25519,
        &ring::rand::SystemRandom::new(),
    )
}

/// A key-agreement key pair that is made for one login and never stored.
/// The public half goes to the browser; the private half goes into the
/// state of the listener and opens at most one payload.
pub struct EphemeralKeyPair {
    public_key: Vec<u8>,
    private_key: ring::agreement::EphemeralPrivateKey,
}

impl EphemeralKeyPair {
    /// The public half.
    pub closed spec fn spec_public_key(&self) -> Seq<u8> {
        self.public_key@
    }

    /// The private half.
    pub closed spec fn spec_private_key(&self) -> ring::agreement::EphemeralPrivateKey {
        self.private_key
    }

    /// Whether the public half is that of the private half.
    pub open spec fn halves_belong_together(&self) -> bool {
        public_half(self.spec_private_key()) == Some(self.spec_public_key())
    }

    /// Every pair is one whose halves belong together.
    #[verifier::type_invariant]
    spec fn well_formed(&self) -> bool {
        self.halves_belong_together()
    }

    /// A fresh key pair on X25519, whose halves belong together, or `None`
    /// where the system yields no randomness or `ring` no public key.
    pub fn generate() -> (pair: Option<EphemeralKeyPair>)
        ensures
            pair matches Some(made) ==> made.halves_belong_together(),
    {
        let private_key = match generate_private_key() {
            Ok(private_key) => private_key,
            Err(_) => {
                return None;
            },
        };
        match public_key_of(&private_key) {
            Ok(public_key) => Some(EphemeralKeyPair { public_key, private_key }),
            Err(_) => None,
        }
    }

    /// The public half, as it is sent to the peer.
    pub fn public_key(&self) -> (public_key: &[u8])
        ensures
            public_key@ == self.spec_public_key(),
    {
        self.public_key.as_slice()
    }

    /// Parts the pair: the public half and the private half, which from
    /// here on exists once.
    pub fn into_parts(self) -> (parts: (Vec<u8>, ring::agreement::EphemeralPrivateKey))
        ensures
            parts.0@ == self.spec_public_key(),
            parts.1 == self.spec_private_key(),
            public_half(parts.1) == Some(parts.0@),
    {
        proof {
            use_type_invariant(&self);
        }
        (self.public_key, self.private_key)
    }
}

/// The public key that belongs to a private key: the bytes that
/// `EphemeralPrivateKey::compute_public_key` gives for it, and `None`
/// where it gives none.
pub uninterp spec fn public_half(key: ring::agreement::EphemeralPrivateKey) -> Option<Seq<u8>>;

/// Computes the public half of `key` with
/// `EphemeralPrivateKey::compute_public_key` and hands out its bytes. The
/// contract names the outcome, which the key alone decides.
#[verifier::external_body]
fn public_key_of(key: &ring::agreement::EphemeralPrivateKey) -> (r: Result<
    Vec<u8>,
    ring::error::Unspecified,
>)
    ensures
        match r {
            Ok(public_key) => public_half(*key) == Some(public_key@),
            Err(_) => public_half(*key) is None,
        },
{
    key.compute_public_key().map(|public_key| public_key.as_ref().to_vec())
}

/// The secret that a private key and a peer's public key agree on: the
/// raw key material that `ring::agreement::agree_ephemeral` hands to its
/// key derivation, with the peer's bytes read on the curve of the private
/// key; `None` where it refuses the peer's key.
pub uninterp spec fn agreed_secret(
    key: ring::agreement::EphemeralPrivateKey,
    peer_public_key: Seq<u8>,
) -> Option<Seq<u8>>;

/// Runs `ring::agreement::agree_ephemeral` with the peer's public key read
/// on the curve of `key`, and hands out the raw shared secret. The
/// contract names the outcome, which the key and the peer's bytes alone
/// decide.
#[verifier::external_body]
fn agree(key: ring::agreement::EphemeralPrivateKey, peer_public_key: &[u8]) -> (r: Result<
    Vec<u8>,
    ring::error::Unspecified,
>)
    ensures
        match r {
            Ok(secret) => agreed_secret(key, peer_public_key@) == Some(secret@),
            Err(_) => agreed_secret(key, peer_public_key@) is None,
        },
{
    let peer = ring::agreement::UnparsedPublicKey::new(key.algorithm(), peer_public_key);
    ring::agreement::agree_ephemeral(key, &peer, |secret| secret.to_vec())
}

/// Runs `ring::hkdf` with HKDF-SHA-256: extract with `salt`, expand with
/// `info`, to the length of one digest. The contract names the outcome.
#[verifier::external_body]
fn hkdf_sha256(secret: &[u8], salt: &[u8], info: &[u8]) -> (r: Result<
    Vec<u8>,
    ring::error::Unspecified,
>)
    ensures
        match r {
            Ok(key) => hkdf_sha256_key(secret@, salt@, info@) == Some(key@),
            Err(_) => hkdf_sha256_key(secret@, salt@, info@) is None,
        },
{
    let algorithm = ring::hkdf::HKDF_SHA256;
    let mut key = vec![0u8; ring::hkdf::KeyType::len(&algorithm)];
    let prk = ring::hkdf::Salt::new(algorithm, salt).extract(secret);
    prk.expand(&[info], algorithm)?.fill(&mut key)?;
    Ok(key)
}

/// Runs `ring::aead::LessSafeKey::open_in_place` with AES-256-GCM on a copy
/// of `sealed`, with no associated data. The contract names the outcome.
#[verifier::external_body]
fn aes_256_gcm_open(key: &[u8], iv: &[u8], sealed: &[u8]) -> (r: Result<
    Vec<u8>,
    ring::error::Unspecified,
>)
    ensures
        match r {
            Ok(plaintext) => aes_256_gcm_opened(key@, iv@, sealed@) == Some(plaintext@),
            Err(_) => aes_256_gcm_opened(key@, iv@, sealed@) is None,
        },
{
    let key = ring::aead::UnboundKey::new(&ring::aead::AES_256_GCM, key)?;
    let nonce = ring::aead::Nonce::try_assume_unique_for_key(iv)?;
    let mut buffer = sealed.to_vec();
    let plaintext = ring::aead::LessSafeKey::new(key).open_in_place(
        nonce,
        ring::aead::Aad::empty(),
        &mut buffer,
    )?;
    Ok(plaintext.to_vec())
}

/// Takes the private key out of its slot, which is empty from then on.
/// An empty slot is an error, not a panic.
pub fn take_private_key(slot: &mut Option<ring::agreement::EphemeralPrivateKey>) -> (r: Result<
    ring::agreement::EphemeralPrivateKey,
    CallbackError,
>)
    ensures
        *final(slot) is None,
        match r {
            Ok(key) => *old(slot) == Some(key),
            Err(e) => *old(slot) is None && e == CallbackError::KeyUnavailable,
        },
{
    match slot.take() {
        Some(key) => Ok(key),
        None => Err(CallbackError::KeyUnavailable),
    }
}

/// The payload that a request holds for the party that shares `secret`
/// with its sender.
pub open spec fn opened_payload(secret: Seq<u8>, request: CallbackRequestView) -> Option<
    BrowserPayloadView,
> {
    match hkdf_sha256_key(secret, Seq::empty(), key_info()) {
        None => None,
        Some(key) => match aes_256_gcm_opened(key, request.iv, request.ciphertext) {
            None => None,
            Some(plaintext) => parsed_payload(plaintext),
        },
    }
}

/// Opens the payload of `request` with the shared secret of the key
/// agreement.
pub fn open_payload(secret: &[u8], request: &CallbackRequest) -> (r: Option<BrowserPayload>)
    ensures
        match r {
            Some(payload) => opened_payload(secret@, request@) == Some(payload@),
            None => opened_payload(secret@, request@) is None,
        },
{
    let salt: Vec<u8> = Vec::new();
    let info = "kinic-cli login callback".as_bytes();
    let key = match hkdf_sha256(secret, salt.as_slice(), info) {
        Ok(key) => key,
        Err(_) => {
            return None;
        },
    };
    let plaintext = match aes_256_gcm_open(
        key.as_slice(),
        request.iv.as_slice(),
        request.ciphertext.as_slice(),
    ) {
        Ok(plaintext) => plaintext,
        Err(_) => {
            return None;
        },
    };
    parse_browser_payload(plaintext.as_slice())
}

/// The payload that a request holds for the holder of a private key: the
/// one that opens with the secret that the key and the sender's public
/// key agree on.
pub open spec fn decrypted(
    key: ring::agreement::EphemeralPrivateKey,
    request: CallbackRequestView,
) -> Option<BrowserPayloadView> {
    match agreed_secret(key, request.ephemeral_public_key) {
        None => None,
        Some(secret) => opened_payload(secret, request),
    }
}

/// Decrypts the payload of `request` with the private key, which is used
/// up by this. Whatever goes wrong, the error is the same.
pub fn decrypt_payload(key: ring::agreement::EphemeralPrivateKey, request: &CallbackRequest) -> (r:
    Result<BrowserPayload, CallbackError>)
    ensures
        match r {
            Ok(payload) => decrypted(key, request@) == Some(payload@),
            Err(e) => decrypted(key, request@) is None && e == CallbackError::DecryptFailed,
        },
{
    let secret = match agree(key, request.ephemeral_public_key.as_slice()) {
        Ok(secret) => secret,
        Err(_) => {
            return Err(CallbackError::DecryptFailed);
        },
    };
    match open_payload(secret.as_slice(), request) {
        Some(payload) => Ok(payload),
        None => Err(CallbackError::DecryptFailed),
    }
}

} // verus!
