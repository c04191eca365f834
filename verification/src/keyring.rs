//! Identities kept in the system keyring: under which account an identity
//! is stored, how the stored text becomes a PEM file, and what a failed
//! read means. Reading the keyring itself is not done here.
use crate::text::chars_of;
use vstd::prelude::*;
use vstd::string::*;

verus! {

/// The keyring service under which identities are stored.
pub const KEYRING_SERVICE_NAME: &'static str = "internet_computer_identities";

/// What the account of an identity begins with.
pub const KEYRING_IDENTITY_PREFIX: &'static str = "internet_computer_identity_";

/// The account under which the identity `suffix` is stored.
pub fn keyring_account(suffix: &str) -> (account: String)
    ensures
        account@ == KEYRING_IDENTITY_PREFIX@ + suffix@,
{
    let mut account = String::new();
    account.append(KEYRING_IDENTITY_PREFIX);
    account.append(suffix);
    assert(account@ =~= KEYRING_IDENTITY_PREFIX@ + suffix@);
    account
}

/// The value of a hexadecimal digit of either case.
pub open spec fn hex_digit(c: char) -> Option<int> {
    let n = c as u32;
    if 0x30 <= n <= 0x39 {
        Some(n - 0x30)
    } else if 0x41 <= n <= 0x46 {
        Some(n - 0x41 + 10)
    } else if 0x61 <= n <= 0x66 {
        Some(n - 0x61 + 10)
    } else {
        None
    }
}

/// Whether `text` is an even number of hexadecimal digits.
pub open spec fn is_hex(text: Seq<char>) -> bool {
    &&& text.len() % 2 == 0
    &&& forall|i: int| 0 <= i < text.len() ==> hex_digit(#[trigger] text[i]) is Some
}

/// The bytes that `text` writes in hexadecimal, two digits to the byte,
/// the high one first.
pub open spec fn hex_bytes(text: Seq<char>) -> Option<Seq<u8>> {
    if is_hex(text) {
        Some(
            Seq::new(
                text.len() / 2,
                |i: int|
                    (16 * hex_digit(text[2 * i]).unwrap() + hex_digit(
                        text[2 * i + 1],
                    ).unwrap()) as u8,
            ),
        )
    } else {
        None
    }
}

/// Calls `hex::decode`, which takes digits of either case and refuses an
/// odd number of them and anything that is no digit. The contract says
/// which bytes come back, and that a refusal means that the text is no
/// hexadecimal.
#[verifier::external_body]
fn hex_decode(text: &str) -> (r: Option<Vec<u8>>)
    ensures
        match r {
            Some(bytes) => hex_bytes(text@) == Some(bytes@),
            None => hex_bytes(text@) is None,
        },
{
    hex::decode(text).ok()
}

/// The PEM file that the keyring holds as `stored`: the keyring keeps it
/// in hexadecimal.
pub fn decode_stored_pem(stored: &str) -> (r: Option<Vec<u8>>)
    ensures
        match r {
            Some(pem) => hex_bytes(stored@) == Some(pem@),
            None => hex_bytes(stored@) is None,
        },
{
    hex_decode(stored)
}

/// Whether `needle` stands at position `i` of `text`.
pub open spec fn occurs_at(text: Seq<char>, needle: Seq<char>, i: int) -> bool {
    &&& 0 <= i
    &&& i + needle.len() <= text.len()
    &&& text.subrange(i, i + needle.len()) == needle
}

/// Whether `needle` stands somewhere in `text`.
pub open spec fn contains(text: Seq<char>, needle: Seq<char>) -> bool {
    exists|i: int| occurs_at(text, needle, i)
}

fn matches_at(text: &Vec<char>, needle: &Vec<char>, at: usize) -> (same: bool)
    requires
        at + needle.len() <= text.len(),
    ensures
        same == occurs_at(text@, needle@, at as int),
{
    let ghost window = text@.subrange(at as int, at + needle.len());
    let mut k: usize = 0;
    while k < needle.len()
        invariant
            k <= needle.len(),
            at + needle.len() <= text.len(),
            window == text@.subrange(at as int, at + needle.len()),
            forall|j: int| 0 <= j < k ==> window[j] == needle@[j],
        decreases needle.len() - k,
    {
        if text[at + k] != needle[k] {
            assert(window[k as int] != needle@[k as int]);
            return false;
        }
        k += 1;
    }
    assert(window =~= needle@);
    true
}

/// Whether `needle` stands somewhere in `text`.
pub fn str_contains(text: &str, needle: &str) -> (found: bool)
    ensures
        found == contains(text@, needle@),
{
    let hay = chars_of(text);
    let sought = chars_of(needle);
    if sought.len() > hay.len() {
        return false;
    }
    let last = hay.len() - sought.len();
    let mut i: usize = 0;
    while i < last
        invariant
            i <= last,
            last + sought.len() == hay.len(),
            hay@ == text@,
            sought@ == needle@,
            forall|j: int| 0 <= j < i ==> !occurs_at(text@, needle@, j),
        decreases last - i,
    {
        if matches_at(&hay, &sought, i) {
            return true;
        }
        i += 1;
    }
    matches_at(&hay, &sought, last)
}

/// What a failed read of the keyring means.
#[derive(Debug, Clone, Copy, PartialEq, Eq)]
pub enum KeyringFailure {
    /// The system did not allow the keychain to ask the user (error
    /// -67671 on macOS): the entry was written by a tool built for another
    /// architecture.
    InteractionNotAllowed,
    /// Anything else.
    Other,
}

/// The failure that the debug text of a keyring error stands for.
pub open spec fn failure_of(debug_text: Seq<char>) -> KeyringFailure {
    if contains(debug_text, "-67671"@) || contains(debug_text, "errSecInteractionNotAllowed"@) {
        KeyringFailure::InteractionNotAllowed
    } else {
        KeyringFailure::Other
    }
}

/// Classifies a keyring error by its debug text.
pub fn classify_keyring_failure(debug_text: &str) -> (failure: KeyringFailure)
    ensures
        failure == failure_of(debug_text@),
{
    if str_contains(debug_text, "-67671") || str_contains(
        debug_text,
        "errSecInteractionNotAllowed",
    ) {
        KeyringFailure::InteractionNotAllowed
    } else {
        KeyringFailure::Other
    }
}

} // verus!
