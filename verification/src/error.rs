//! The hard failures of a callback attempt: those that are answered with no
//! response at all.
use vstd::prelude::*;

verus! {

/// Why a callback attempt was abandoned without a response.
#[derive(Debug, Clone, Copy, PartialEq, Eq)]
pub enum CallbackError {
    /// The request body is no JSON object with the fields of a callback.
    MalformedCallback,
    /// The private key was asked for after it had been taken.
    KeyUnavailable,
    /// Key agreement, decryption or the reading of the plaintext failed;
    /// which of them is deliberately not told.
    DecryptFailed,
    /// The user's public key is not encoded as a key.
    InvalidKey,
}

impl CallbackError {
    /// The text of the error.
    pub fn message(&self) -> (text: &'static str)
        ensures
            text@ == match *self {
                CallbackError::MalformedCallback => "Failed to parse callback"@,
                CallbackError::KeyUnavailable => "Callback already used"@,
                CallbackError::DecryptFailed => "Failed to decrypt payload"@,
                CallbackError::InvalidKey => "invalid key"@,
            },
    {
        match self {
            CallbackError::MalformedCallback => "Failed to parse callback",
            CallbackError::KeyUnavailable => "Callback already used",
            CallbackError::DecryptFailed => "Failed to decrypt payload",
            CallbackError::InvalidKey => "invalid key",
        }
    }
}

} // verus!
