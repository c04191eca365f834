//! How the agent that talks to the network is to be set up: which replica
//! it addresses, whether that replica's root key has to be fetched, and
//! which kind of identity a PEM file holds.
use vstd::prelude::*;
use vstd::string::*;
use vstd::utf8::*;

verus! {

/// The standard library's owned path, carried through as an opaque value.
#[verifier::external_type_specification]
#[verifier::external_body]
pub struct ExPathBuf(std::path::PathBuf);

/// The standard library's UTF-8 error, carried through as an opaque value.
#[verifier::external_type_specification]
#[verifier::external_body]
pub struct ExUtf8Error(core::str::Utf8Error);

/// `pem`'s error, carried through as an opaque value.
#[verifier::external_type_specification]
#[verifier::external_body]
pub struct ExPemError(pem::PemError);

/// A clone of a `PathBuf` is the same path.
pub assume_specification[ <std::path::PathBuf as Clone>::clone ](path: &std::path::PathBuf) -> (copy:
    std::path::PathBuf)
    ensures
        copy == *path,
;

/// `core::str::from_utf8` succeeds on exactly the well-formed UTF-8, and
/// the string it gives has the bytes it was given.
pub assume_specification[ core::str::from_utf8 ](bytes: &[u8]) -> (r: Result<
    &str,
    core::str::Utf8Error,
>)
    ensures
        r is Ok <==> valid_utf8(bytes@),
        r matches Ok(text) ==> text.spec_bytes() == bytes@,
;

/// The tag of the first PEM block in `text`, as `pem::parse` reads it;
/// `None` where it finds no well-formed block.
pub uninterp spec fn pem_tag_of(text: Seq<u8>) -> Option<Seq<char>>;

/// Parses `text` with `pem::parse` and hands out the tag of what it
/// found. The contract names the outcome.
#[verifier::external_body]
fn pem_tag(text: &[u8]) -> (r: Result<String, pem::PemError>)
    ensures
        match r {
            Ok(tag) => pem_tag_of(text@) == Some(tag@),
            Err(_) => pem_tag_of(text@) is None,
        },
{
    pem::parse(text).map(|block| block.tag().to_owned())
}

/// Where the identity of the agent comes from.
#[derive(Clone)]
pub enum AuthMode {
    /// The named identity of the local `dfx` installation.
    DfxIdentity(String),
    /// A delegated identity stored in the given file.
    InternetIdentity(std::path::PathBuf),
}

/// The kinds of identity that a PEM file can hold.
#[derive(Debug, Clone, Copy, PartialEq, Eq)]
pub enum IdentityKind {
    /// An Ed25519 key, tagged `PRIVATE KEY`.
    Basic,
    /// A secp256k1 key, tagged `EC PRIVATE KEY`.
    Secp256k1,
}

/// Why a PEM file yields no identity.
#[derive(Debug, Clone, PartialEq, Eq)]
pub enum PemFailure {
    /// The file is not UTF-8.
    NotUtf8,
    /// The file holds no well-formed PEM block.
    Malformed,
    /// The block is tagged as something that is no supported key.
    UnsupportedTag(String),
}

/// The mathematical content of a `PemFailure`.
pub ghost enum PemFailureView {
    NotUtf8,
    Malformed,
    UnsupportedTag(Seq<char>),
}

impl View for PemFailure {
    type V = PemFailureView;

    open spec fn view(&self) -> PemFailureView {
        match self {
            PemFailure::NotUtf8 => PemFailureView::NotUtf8,
            PemFailure::Malformed => PemFailureView::Malformed,
            PemFailure::UnsupportedTag(tag) => PemFailureView::UnsupportedTag(tag@),
        }
    }
}

/// The kind of identity that goes with a PEM tag.
pub open spec fn kind_of_tag(tag: Seq<char>) -> Option<IdentityKind> {
    if tag == "PRIVATE KEY"@ {
        Some(IdentityKind::Basic)
    } else if tag == "EC PRIVATE KEY"@ {
        Some(IdentityKind::Secp256k1)
    } else {
        None
    }
}

/// The kind of identity that a PEM file holds.
pub open spec fn kind_of_pem(pem: Seq<u8>) -> Result<IdentityKind, PemFailureView> {
    if !valid_utf8(pem) {
        Err(PemFailureView::NotUtf8)
    } else {
        match pem_tag_of(pem) {
            None => Err(PemFailureView::Malformed),
            Some(tag) => match kind_of_tag(tag) {
                Some(kind) => Ok(kind),
                None => Err(PemFailureView::UnsupportedTag(tag)),
            },
        }
    }
}

/// The kind of identity that goes with a PEM tag.
pub fn identity_kind_for_tag(tag: &str) -> (kind: Option<IdentityKind>)
    ensures
        kind == kind_of_tag(tag@),
{
    if crate::text::str_eq(tag, "PRIVATE KEY") {
        Some(IdentityKind::Basic)
    } else if crate::text::str_eq(tag, "EC PRIVATE KEY") {
        Some(IdentityKind::Secp256k1)
    } else {
        None
    }
}

/// The kind of identity that the PEM file with the bytes `pem` holds.
pub fn identity_kind_of_pem(pem: &[u8]) -> (r: Result<IdentityKind, PemFailure>)
    ensures
        match r {
            Ok(kind) => kind_of_pem(pem@) == Ok::<IdentityKind, PemFailureView>(kind),
            Err(e) => kind_of_pem(pem@) == Err::<IdentityKind, PemFailureView>(e@),
        },
{
    if core::str::from_utf8(pem).is_err() {
        return Err(PemFailure::NotUtf8);
    }
    match pem_tag(pem) {
        Err(_) => Err(PemFailure::Malformed),
        Ok(tag) => match identity_kind_for_tag(tag.as_str()) {
            Some(kind) => Ok(kind),
            None => Err(PemFailure::UnsupportedTag(tag)),
        },
    }
}

/// Builds agents for one network and one source of identity.
#[derive(Clone)]
pub struct AgentFactory {
    use_mainnet: bool,
    auth_mode: AuthMode,
}

impl AgentFactory {
    /// Whether the agents address the main network.
    pub closed spec fn spec_use_mainnet(&self) -> bool {
        self.use_mainnet
    }

    /// Where the identity comes from.
    pub closed spec fn spec_auth_mode(&self) -> AuthMode {
        self.auth_mode
    }

    /// A factory for the main network or the local replica, with the
    /// identity taken from `auth_mode`.
    pub fn new(use_mainnet: bool, auth_mode: AuthMode) -> (factory: Self)
        ensures
            factory.spec_use_mainnet() == use_mainnet,
            factory.spec_auth_mode() == auth_mode,
    {
        AgentFactory { use_mainnet, auth_mode }
    }

    /// Whether the agents address the main network.
    pub fn use_mainnet(&self) -> (mainnet: bool)
        ensures
            mainnet == self.spec_use_mainnet(),
    {
        self.use_mainnet
    }

    /// Where the identity comes from.
    pub fn auth_mode(&self) -> (mode: &AuthMode)
        ensures
            *mode == self.spec_auth_mode(),
    {
        &self.auth_mode
    }

    /// The address of the replica: the main network, or the local one.
    pub fn replica_url(&self) -> (url: &'static str)
        ensures
            url@ == if self.spec_use_mainnet() {
                "https://ic0.app"@
            } else {
                "http://127.0.0.1:4943"@
            },
    {
        if self.use_mainnet {
            "https://ic0.app"
        } else {
            "http://127.0.0.1:4943"
        }
    }

    /// Whether the root key has to be fetched from the replica, as it has
    /// to be from any but the main network.
    pub fn needs_root_key(&self) -> (needed: bool)
        ensures
            needed == !self.spec_use_mainnet(),
    {
        !self.use_mainnet
    }
}

} // verus!
