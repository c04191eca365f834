//! From a user's public key to the principal that stands for the user.
//! The hashing and the textual form are `candid`'s; what counts as an
//! encoded key is decided here.
use crate::error::CallbackError;
use vstd::prelude::*;
use vstd::slice::*;

verus! {

/// The longest a principal can be, in bytes.
pub const MAX_PRINCIPAL_BYTES: usize = 29;

/// The number that `bytes` write, most significant byte first.
pub open spec fn be_value(bytes: Seq<u8>) -> nat
    decreases bytes.len(),
{
    if bytes.len() == 0 {
        0
    } else {
        be_value(bytes.drop_last()) * 256 + bytes.last() as nat
    }
}

/// Whether `key` is one DER `SEQUENCE` and nothing else, as a
/// `SubjectPublicKeyInfo` is: the tag `0x30`, a definite length in its one
/// shortest form, of at most four length bytes, and exactly that many
/// content bytes.
pub open spec fn is_der_sequence(key: Seq<u8>) -> bool {
    &&& key.len() >= 2
    &&& key[0] == 0x30
    &&& if key[1] < 0x80 {
        key.len() == 2 + key[1]
    } else {
        let n = key[1] - 0x80;
        &&& 1 <= n <= 4
        &&& key.len() >= 2 + n
        &&& key[2] != 0
        &&& be_value(key.subrange(2, 2 + n)) >= 0x80
        &&& key.len() == 2 + n + be_value(key.subrange(2, 2 + n))
    }
}

proof fn lemma_be_value_bound(bytes: Seq<u8>)
    requires
        bytes.len() <= 4,
    ensures
        be_value(bytes) < 0x1_0000_0000,
        bytes.len() <= 3 ==> be_value(bytes) < 0x100_0000,
    decreases bytes.len(),
{
    if bytes.len() > 0 {
        lemma_be_value_bound(bytes.drop_last());
        if bytes.len() >= 2 {
            lemma_be_value_bound(bytes.drop_last().drop_last());
            if bytes.len() >= 3 {
                lemma_be_value_bound(bytes.drop_last().drop_last().drop_last());
            }
        }
    }
}

/// Decides `is_der_sequence`.
pub fn has_der_envelope(key: &[u8]) -> (valid: bool)
    ensures
        valid == is_der_sequence(key@),
{
    let len = key.len();
    if len < 2 || key[0] != 0x30 {
        return false;
    }
    let first = key[1];
    if first < 0x80 {
        return len == 2 + first as usize;
    }
    let n: usize = (first - 0x80) as usize;
    if n < 1 || n > 4 || len < 2 + n || key[2] == 0 {
        return false;
    }
    let ghost field = key@.subrange(2, 2 + n);
    let mut value: u64 = 0;
    let mut i: usize = 0;
    while i < n
        invariant
            i <= n <= 4,
            2 + n <= len == key@.len(),
            field == key@.subrange(2, 2 + n),
            value == be_value(field.take(i as int)),
        decreases n - i,
    {
        proof {
            lemma_be_value_bound(field.take(i as int));
            assert(field.take(i as int + 1).drop_last() =~= field.take(i as int));
        }
        value = value * 256 + key[2 + i] as u64;
        i += 1;
    }
    proof {
        assert(field.take(n as int) =~= field);
        lemma_be_value_bound(field);
    }
    value >= 0x80 && len as u64 == 2 + n as u64 + value
}

/// The principal of the holder of a public key: what
/// `Principal::self_authenticating` makes of the key's bytes.
pub uninterp spec fn self_authenticating_id(public_key: Seq<u8>) -> Seq<u8>;

/// The textual form of a principal: what `Principal::to_text` writes for
/// the principal with these bytes.
pub uninterp spec fn principal_text(id: Seq<u8>) -> Seq<char>;

/// The principal that a text writes, as `Principal::from_text` reads it;
/// `None` where the text is no principal in its canonical form.
pub uninterp spec fn principal_of_text(text: Seq<char>) -> Option<Seq<u8>>;

/// Calls `candid::Principal::from_text` and hands out the bytes of what it
/// read. The contract names the outcome and says that the bytes are at
/// most 29, as the parser refuses longer ones.
#[verifier::external_body]
fn principal_from_text(text: &str) -> (r: Option<Vec<u8>>)
    ensures
        r matches Some(id) ==> id@.len() <= 29,
        match r {
            Some(id) => principal_of_text(text@) == Some(id@),
            None => principal_of_text(text@) is None,
        },
{
    candid::Principal::from_text(text).ok().map(|principal| principal.as_slice().to_vec())
}

/// Calls `candid::Principal::self_authenticating` and hands out the bytes
/// of the result. The contract names them and gives their number, 29: a
/// 28-byte hash and a one-byte tag.
#[verifier::external_body]
fn self_authenticating(public_key: &[u8]) -> (id: Vec<u8>)
    ensures
        id@ == self_authenticating_id(public_key@),
        id@.len() == 29,
{
    candid::Principal::self_authenticating(public_key).as_slice().to_vec()
}

/// Calls `candid::Principal::to_text` on the principal with the bytes
/// `id`. The contract names the text; more than 29 bytes make no principal
/// and are left out.
#[verifier::external_body]
fn text_of_principal(id: &[u8]) -> (text: String)
    requires
        id@.len() <= 29,
    ensures
        text@ == principal_text(id@),
{
    candid::Principal::from_slice(id).to_text()
}

/// A principal: the canonical identifier of an account.
#[derive(Debug, PartialEq, Eq)]
pub struct Principal {
    bytes: Vec<u8>,
}

impl View for Principal {
    type V = Seq<u8>;

    closed spec fn view(&self) -> Seq<u8> {
        self.bytes@
    }
}

impl Clone for Principal {
    fn clone(&self) -> (copy: Self)
        ensures
            copy@ == self@,
    {
        proof {
            use_type_invariant(self);
        }
        Principal { bytes: slice_to_vec(self.bytes.as_slice()) }
    }
}

impl Principal {
    #[verifier::type_invariant]
    spec fn well_formed(&self) -> bool {
        self.bytes@.len() <= MAX_PRINCIPAL_BYTES
    }

    /// The principal with the given bytes, if they are few enough.
    pub fn from_slice(bytes: &[u8]) -> (r: Option<Principal>)
        ensures
            match r {
                Some(principal) => principal@ == bytes@ && bytes@.len() <= MAX_PRINCIPAL_BYTES,
                None => bytes@.len() > MAX_PRINCIPAL_BYTES,
            },
    {
        if bytes.len() <= MAX_PRINCIPAL_BYTES {
            Some(Principal { bytes: slice_to_vec(bytes) })
        } else {
            None
        }
    }

    /// The principal that `text` writes, as a canister id on the command
    /// line does.
    pub fn from_text(text: &str) -> (r: Option<Principal>)
        ensures
            match r {
                Some(principal) => principal_of_text(text@) == Some(principal@),
                None => principal_of_text(text@) is None,
            },
    {
        match principal_from_text(text) {
            Some(bytes) => Some(Principal { bytes }),
            None => None,
        }
    }

    /// The bytes of the principal.
    pub fn as_slice(&self) -> (bytes: &[u8])
        ensures
            bytes@ == self@,
            bytes@.len() <= MAX_PRINCIPAL_BYTES,
    {
        proof {
            use_type_invariant(self);
        }
        self.bytes.as_slice()
    }

    /// The principal in its textual form.
    pub fn to_text(&self) -> (text: String)
        ensures
            text@ == principal_text(self@),
    {
        proof {
            use_type_invariant(self);
        }
        text_of_principal(self.bytes.as_slice())
    }
}

/// What `derive_principal_from_user_key` returns.
pub open spec fn derived_principal(user_public_key: Seq<u8>) -> Result<Seq<u8>, CallbackError> {
    if is_der_sequence(user_public_key) {
        Ok(self_authenticating_id(user_public_key))
    } else {
        Err(CallbackError::InvalidKey)
    }
}

/// The principal of the user with the given public key. The key has to be
/// DER-encoded; the principal is the self-authenticating one of its bytes.
pub fn derive_principal_from_user_key(user_public_key: &[u8]) -> (r: Result<
    Principal,
    CallbackError,
>)
    ensures
        match r {
            Ok(principal) => derived_principal(user_public_key@) == Ok::<Seq<u8>, CallbackError>(
                principal@,
            ),
            Err(e) => derived_principal(user_public_key@) == Err::<Seq<u8>, CallbackError>(e),
        },
{
    if !has_der_envelope(user_public_key) {
        return Err(CallbackError::InvalidKey);
    }
    Ok(Principal { bytes: self_authenticating(user_public_key) })
}

} // verus!
