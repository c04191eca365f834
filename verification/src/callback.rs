//! The callback endpoint itself: what one connection is answered with, and
//! the state that lets exactly one nonce-valid request through to
//! decryption.
use crate::cors::{
    build_cors_response, cors_response, has_cors_headers, law_response_has_cors_headers,
};
use crate::crypto::{decrypt_payload, decrypted, take_private_key};
use crate::error::CallbackError;
use crate::http::{header_value, HttpRequest, RequestError, RequestView};
use crate::identity::{derive_principal_from_user_key, derived_principal, principal_text};
use crate::json::{json_string, quote_json};
use crate::payload::{
    parse_callback_request, parsed_callback, BrowserPayload, BrowserPayloadView, CallbackData,
    CallbackDataView, CallbackRequestView,
};
use crate::text::{chars_of, find_char, first_index, str_eq, string_from};
use vstd::prelude::*;
use vstd::string::*;

verus! {

/// What the listener expects of the one callback it waits for, and the
/// private key that opens it. The key is there until a request with the
/// right nonce is seen, and never again.
pub struct CallbackState {
    expected_nonce: String,
    expected_session_public_key: Vec<u8>,
    expected_derivation_origin: String,
    box_private_key: Option<ring::agreement::EphemeralPrivateKey>,
}

/// The mathematical content of a `CallbackState`.
pub ghost struct StateView {
    pub expected_nonce: Seq<char>,
    pub expected_session_public_key: Seq<u8>,
    pub expected_derivation_origin: Seq<char>,
    /// The private key, as long as it is there.
    pub private_key: Option<ring::agreement::EphemeralPrivateKey>,
}

impl StateView {
    /// Whether the private key is still there.
    pub open spec fn key_available(self) -> bool {
        self.private_key is Some
    }
}

impl View for CallbackState {
    type V = StateView;

    closed spec fn view(&self) -> StateView {
        StateView {
            expected_nonce: self.expected_nonce@,
            expected_session_public_key: self.expected_session_public_key@,
            expected_derivation_origin: self.expected_derivation_origin@,
            private_key: self.box_private_key,
        }
    }
}

impl CallbackState {
    /// The state of a listener that has seen nothing yet. The private key
    /// is moved in and stays here until it is used.
    pub fn new(
        expected_nonce: String,
        expected_session_public_key: Vec<u8>,
        expected_derivation_origin: String,
        box_private_key: ring::agreement::EphemeralPrivateKey,
    ) -> (state: Self)
        ensures
            state@ == (StateView {
                expected_nonce: expected_nonce@,
                expected_session_public_key: expected_session_public_key@,
                expected_derivation_origin: expected_derivation_origin@,
                private_key: Some(box_private_key),
            }),
    {
        CallbackState {
            expected_nonce,
            expected_session_public_key,
            expected_derivation_origin,
            box_private_key: Some(box_private_key),
        }
    }

    /// Whether the private key is still there.
    pub fn key_available(&self) -> (available: bool)
        ensures
            available == self@.key_available(),
    {
        self.box_private_key.is_some()
    }
}

/// The ways in which a request is turned down with a response.
#[derive(Debug, Clone, Copy, PartialEq, Eq)]
pub enum Rejection {
    InvalidOrigin,
    AlreadyUsed,
    InvalidNonce,
    SessionKeyMismatch,
    DerivationOriginMismatch,
    NotFound,
}

/// The status line of a rejection.
pub open spec fn rejection_status(rejection: Rejection) -> Seq<char> {
    match rejection {
        Rejection::InvalidOrigin => "HTTP/1.1 403 Forbidden"@,
        Rejection::AlreadyUsed => "HTTP/1.1 409 Conflict"@,
        Rejection::InvalidNonce => "HTTP/1.1 400 Bad Request"@,
        Rejection::SessionKeyMismatch => "HTTP/1.1 400 Bad Request"@,
        Rejection::DerivationOriginMismatch => "HTTP/1.1 400 Bad Request"@,
        Rejection::NotFound => "HTTP/1.1 404 Not Found"@,
    }
}

/// The reason that a rejection gives, which is the body of its response.
pub open spec fn rejection_reason(rejection: Rejection) -> Seq<char> {
    match rejection {
        Rejection::InvalidOrigin => "Invalid origin"@,
        Rejection::AlreadyUsed => "Callback already used"@,
        Rejection::InvalidNonce => "Invalid nonce"@,
        Rejection::SessionKeyMismatch => "Session key mismatch"@,
        Rejection::DerivationOriginMismatch => "Derivation origin mismatch"@,
        Rejection::NotFound => "Not found"@,
    }
}

impl Rejection {
    /// The status line of the response.
    pub fn status_line(&self) -> (line: &'static str)
        ensures
            line@ == rejection_status(*self),
    {
        match self {
            Rejection::InvalidOrigin => "HTTP/1.1 403 Forbidden",
            Rejection::AlreadyUsed => "HTTP/1.1 409 Conflict",
            Rejection::InvalidNonce => "HTTP/1.1 400 Bad Request",
            Rejection::SessionKeyMismatch => "HTTP/1.1 400 Bad Request",
            Rejection::DerivationOriginMismatch => "HTTP/1.1 400 Bad Request",
            Rejection::NotFound => "HTTP/1.1 404 Not Found",
        }
    }

    /// The body of the response.
    pub fn reason(&self) -> (text: &'static str)
        ensures
            text@ == rejection_reason(*self),
    {
        match self {
            Rejection::InvalidOrigin => "Invalid origin",
            Rejection::AlreadyUsed => "Callback already used",
            Rejection::InvalidNonce => "Invalid nonce",
            Rejection::SessionKeyMismatch => "Session key mismatch",
            Rejection::DerivationOriginMismatch => "Derivation origin mismatch",
            Rejection::NotFound => "Not found",
        }
    }
}

/// What a connection is answered with: the response to write, and the
/// result of the login where this was the accepted callback.
#[derive(Debug, Clone, PartialEq, Eq)]
pub struct Reply {
    pub response: String,
    pub callback: Option<CallbackData>,
}

/// The mathematical content of a `Reply`.
pub ghost struct ReplyView {
    pub response: Seq<char>,
    pub callback: Option<CallbackDataView>,
}

impl View for Reply {
    type V = ReplyView;

    open spec fn view(&self) -> ReplyView {
        ReplyView {
            response: self.response@,
            callback: match self.callback {
                Some(data) => Some(data@),
                None => None,
            },
        }
    }
}

/// The path of a request target: what stands before its first `?`.
pub open spec fn route_path(target: Seq<char>) -> Seq<char> {
    target.take(first_index(target, '?'))
}

/// The answer to a preflight request.
pub open spec fn preflight_reply(origin: Seq<char>) -> ReplyView {
    ReplyView {
        response: cors_response("HTTP/1.1 204 No Content"@, origin, Seq::empty()),
        callback: None,
    }
}

/// The answer that turns a request down.
pub open spec fn rejection_reply(origin: Seq<char>, rejection: Rejection) -> ReplyView {
    ReplyView {
        response: cors_response(
            rejection_status(rejection),
            origin,
            rejection_reason(rejection),
        ),
        callback: None,
    }
}

/// The body of the answer to the accepted callback.
pub open spec fn success_body(principal: Seq<u8>) -> Seq<char> {
    "{\"status\":\"ok\",\"principal\":"@ + json_string(principal_text(principal)) + "}"@
}

/// The answer to the accepted callback.
pub open spec fn accepted_reply(
    origin: Seq<char>,
    payload: BrowserPayloadView,
    principal: Seq<u8>,
) -> ReplyView {
    ReplyView {
        response: cors_response("HTTP/1.1 200 OK"@, origin, success_body(principal)),
        callback: Some(CallbackDataView { payload, principal }),
    }
}

/// What is decided of a request before any decryption.
pub ghost enum Screening {
    /// It is answered at once.
    Answered(ReplyView),
    /// Its body is no callback request: a hard failure.
    Malformed,
    /// It carries the expected nonce while the key is there: it is let
    /// through to decryption, and the key is used up.
    Admitted(CallbackRequestView),
}

/// Whether the request names an origin other than the expected one.
pub open spec fn foreign_origin(origin: Seq<char>, request: RequestView) -> bool {
    header_value(request.headers, "origin"@) matches Some(named) && named != origin
}

/// The decision before decryption: route, origin, key, body, nonce, in
/// this order.
pub open spec fn screening(state: StateView, origin: Seq<char>, request: RequestView) -> Screening {
    let path = route_path(request.path);
    if request.method == "OPTIONS"@ && path == "/callback"@ {
        Screening::Answered(preflight_reply(origin))
    } else if request.method == "POST"@ && path == "/callback"@ {
        if foreign_origin(origin, request) {
            Screening::Answered(rejection_reply(origin, Rejection::InvalidOrigin))
        } else if !state.key_available() {
            Screening::Answered(rejection_reply(origin, Rejection::AlreadyUsed))
        } else {
            match parsed_callback(request.body) {
                None => Screening::Malformed,
                Some(callback) => if callback.nonce != state.expected_nonce {
                    Screening::Answered(rejection_reply(origin, Rejection::InvalidNonce))
                } else {
                    Screening::Admitted(callback)
                },
            }
        }
    } else {
        Screening::Answered(rejection_reply(origin, Rejection::NotFound))
    }
}

/// The decision after decryption: session key, derivation origin, and the
/// user's key, in this order.
pub open spec fn validation(state: StateView, origin: Seq<char>, payload: BrowserPayloadView) -> Result<
    ReplyView,
    CallbackError,
> {
    if payload.session_public_key != state.expected_session_public_key {
        Ok(rejection_reply(origin, Rejection::SessionKeyMismatch))
    } else if payload.derivation_origin != state.expected_derivation_origin {
        Ok(rejection_reply(origin, Rejection::DerivationOriginMismatch))
    } else {
        match derived_principal(payload.user_public_key) {
            Err(e) => Err(e),
            Ok(principal) => Ok(accepted_reply(origin, payload, principal)),
        }
    }
}

/// How a connection ends, given what decryption yields in case the
/// request gets that far (`None`: it fails).
pub open spec fn outcome(
    state: StateView,
    origin: Seq<char>,
    request: RequestView,
    opened: Option<BrowserPayloadView>,
) -> Result<ReplyView, CallbackError> {
    match screening(state, origin, request) {
        Screening::Answered(reply) => Ok(reply),
        Screening::Malformed => Err(CallbackError::MalformedCallback),
        Screening::Admitted(_) => match opened {
            None => Err(CallbackError::DecryptFailed),
            Some(payload) => validation(state, origin, payload),
        },
    }
}

/// The state in which a connection leaves the listener: the key is gone
/// once a request was admitted, and nothing else ever changes.
pub open spec fn state_after(state: StateView, origin: Seq<char>, request: RequestView) -> StateView {
    StateView {
        private_key: if screening(state, origin, request) is Admitted {
            None
        } else {
            state.private_key
        },
        ..state
    }
}

/// What decryption yields for a request: the payload that it holds for
/// the key of the state, where the request is admitted and holds one.
pub open spec fn opened_by(state: StateView, origin: Seq<char>, request: RequestView) -> Option<
    BrowserPayloadView,
> {
    match (screening(state, origin, request), state.private_key) {
        (Screening::Admitted(callback), Some(key)) => decrypted(key, callback),
        _ => None,
    }
}

/// How a connection ends: `outcome` with what decryption yields.
pub open spec fn connection_outcome(state: StateView, origin: Seq<char>, request: RequestView) -> Result<
    ReplyView,
    CallbackError,
> {
    outcome(state, origin, request, opened_by(state, origin, request))
}

/// The content of what `handle_connection` returns.
pub open spec fn result_view(r: Result<Reply, CallbackError>) -> Result<ReplyView, CallbackError> {
    match r {
        Ok(reply) => Ok(reply@),
        Err(e) => Err(e),
    }
}

/// Whether a connection ended with the result of the login.
pub open spec fn succeeded(result: Result<ReplyView, CallbackError>) -> bool {
    result matches Ok(reply) && reply.callback is Some
}

/// Whether the request is a callback from an acceptable origin: a `POST`
/// to `/callback` that names no foreign origin.
pub open spec fn is_callback(origin: Seq<char>, request: RequestView) -> bool {
    &&& request.method == "POST"@
    &&& route_path(request.path) == "/callback"@
    &&& !foreign_origin(origin, request)
}

/// The state of a listener before the connection `i` of a run of
/// connections, each given by its request.
pub open spec fn state_before(
    state: StateView,
    origin: Seq<char>,
    requests: Seq<RequestView>,
    i: int,
) -> StateView
    decreases i,
{
    if i <= 0 {
        state
    } else {
        state_after(state_before(state, origin, requests, i - 1), origin, requests[i - 1])
    }
}

proof fn lemma_methods_differ()
    ensures
        "POST"@ != "OPTIONS"@,
{
    reveal_strlit("POST");
    reveal_strlit("OPTIONS");
    assert("POST"@.len() == 4);
    assert("OPTIONS"@.len() == 7);
}

/// Only an admitted request can succeed.
pub proof fn law_success_needs_admission(
    state: StateView,
    origin: Seq<char>,
    request: RequestView,
    opened: Option<BrowserPayloadView>,
)
    requires
        succeeded(outcome(state, origin, request, opened)),
    ensures
        screening(state, origin, request) is Admitted,
        state.key_available(),
        !state_after(state, origin, request).key_available(),
{
}

/// A key that is gone stays gone, and nothing else in the state changes.
pub proof fn law_key_never_returns(
    state: StateView,
    origin: Seq<char>,
    requests: Seq<RequestView>,
    i: int,
    j: int,
)
    requires
        0 <= i <= j,
    ensures
        state_before(state, origin, requests, j).key_available() ==> state_before(
            state,
            origin,
            requests,
            i,
        ).key_available(),
        state_before(state, origin, requests, j) == (StateView {
            private_key: if state_before(state, origin, requests, j).key_available() {
                state.private_key
            } else {
                None
            },
            ..state
        }),
    decreases j,
{
    if j > 0 {
        if i < j {
            law_key_never_returns(state, origin, requests, i, j - 1);
        } else {
            law_key_never_returns(state, origin, requests, i - 1, j - 1);
        }
    }
}

/// Across any run of connections to one listener at most one succeeds,
/// whatever decryption yields at each; every callback from an acceptable
/// origin that comes after the one success is told that the callback was
/// already used.
pub proof fn law_single_success(
    state: StateView,
    origin: Seq<char>,
    requests: Seq<RequestView>,
    i: int,
    j: int,
    opened_i: Option<BrowserPayloadView>,
    opened_j: Option<BrowserPayloadView>,
)
    requires
        0 <= i < j < requests.len(),
        succeeded(
            outcome(state_before(state, origin, requests, i), origin, requests[i], opened_i),
        ),
    ensures
        !succeeded(
            outcome(state_before(state, origin, requests, j), origin, requests[j], opened_j),
        ),
        is_callback(origin, requests[j]) ==> outcome(
            state_before(state, origin, requests, j),
            origin,
            requests[j],
            opened_j,
        ) == Ok::<ReplyView, CallbackError>(rejection_reply(origin, Rejection::AlreadyUsed)),
{
    law_success_needs_admission(
        state_before(state, origin, requests, i),
        origin,
        requests[i],
        opened_i,
    );
    assert(!state_before(state, origin, requests, i + 1).key_available());
    law_key_never_returns(state, origin, requests, i + 1, j);
    lemma_methods_differ();
}

/// A `POST` to `/callback` that names an origin other than the expected
/// one is answered with 403 and goes no further: the key stays where it
/// is, and what decryption would yield plays no part.
pub proof fn law_foreign_origin_is_forbidden(
    state: StateView,
    origin: Seq<char>,
    request: RequestView,
    opened: Option<BrowserPayloadView>,
)
    requires
        request.method == "POST"@,
        route_path(request.path) == "/callback"@,
        foreign_origin(origin, request),
    ensures
        outcome(state, origin, request, opened) == Ok::<ReplyView, CallbackError>(
            rejection_reply(origin, Rejection::InvalidOrigin),
        ),
        !(screening(state, origin, request) is Admitted),
        state_after(state, origin, request) == state,
{
    lemma_methods_differ();
}

/// Every response, of whatever status, carries the CORS headers for the
/// expected origin.
pub proof fn law_every_response_has_cors_headers(
    state: StateView,
    origin: Seq<char>,
    request: RequestView,
    opened: Option<BrowserPayloadView>,
)
    ensures
        outcome(state, origin, request, opened) matches Ok(reply) ==> has_cors_headers(
            reply.response,
            origin,
        ),
{
    law_response_has_cors_headers("HTTP/1.1 204 No Content"@, origin, Seq::empty());
    assert forall|rejection: Rejection|
        has_cors_headers(#[trigger] rejection_reply(origin, rejection).response, origin) by {
        law_response_has_cors_headers(
            rejection_status(rejection),
            origin,
            rejection_reason(rejection),
        );
    }
    match opened {
        Some(payload) => match derived_principal(payload.user_public_key) {
            Ok(principal) => {
                law_response_has_cors_headers("HTTP/1.1 200 OK"@, origin, success_body(principal));
            },
            Err(_) => {},
        },
        None => {},
    }
}

/// Why a connection was given up without an answer.
#[derive(Debug, Clone, Copy, PartialEq, Eq)]
pub enum ConnectionFailure {
    /// The connection itself failed while it was read or written.
    Io,
    /// What arrived is no request.
    Request(RequestError),
    /// The callback hit a hard failure.
    Callback(CallbackError),
}

/// What the listener does once a connection has been handled.
#[derive(Debug, Clone, PartialEq, Eq)]
pub enum NextStep {
    /// The callback was accepted: the wait is over, and this is its result.
    Finish(CallbackData),
    /// Go on waiting for the next connection.
    KeepListening,
}

/// The mathematical content of a `NextStep`.
pub ghost enum NextStepView {
    Finish(CallbackDataView),
    KeepListening,
}

impl View for NextStep {
    type V = NextStepView;

    open spec fn view(&self) -> NextStepView {
        match self {
            NextStep::Finish(data) => NextStepView::Finish(data@),
            NextStep::KeepListening => NextStepView::KeepListening,
        }
    }
}

/// The step that follows a connection: the listener ends with the first
/// accepted callback; a rejection and a failure of whatever kind leave it
/// waiting.
pub open spec fn step_after(callback: Option<CallbackDataView>) -> NextStepView {
    match callback {
        Some(data) => NextStepView::Finish(data),
        None => NextStepView::KeepListening,
    }
}

/// What a handled connection brought, if it brought anything.
pub open spec fn brought(result: Result<Option<CallbackData>, ConnectionFailure>) -> Option<
    CallbackDataView,
> {
    match result {
        Ok(Some(data)) => Some(data@),
        _ => None,
    }
}

/// Decides how the listener goes on after a connection, from what the
/// connection brought once its response was written, or from why it was
/// given up.
pub fn next_step(result: Result<Option<CallbackData>, ConnectionFailure>) -> (step: NextStep)
    ensures
        step@ == step_after(brought(result)),
{
    match result {
        Ok(Some(data)) => NextStep::Finish(data),
        Ok(None) => NextStep::KeepListening,
        Err(_) => NextStep::KeepListening,
    }
}

fn bytes_eq(a: &[u8], b: &[u8]) -> (same: bool)
    ensures
        same == (a@ == b@),
{
    if a.len() != b.len() {
        return false;
    }
    let mut i: usize = 0;
    while i < a.len()
        invariant
            i <= a.len(),
            a.len() == b.len(),
            forall|j: int| 0 <= j < i ==> a@[j] == b@[j],
        decreases a.len() - i,
    {
        if a[i] != b[i] {
            return false;
        }
        i += 1;
    }
    assert(a@ =~= b@);
    true
}

fn reject(expected_origin: &str, rejection: Rejection) -> (reply: Reply)
    ensures
        reply@ == rejection_reply(expected_origin@, rejection),
{
    let response = build_cors_response(
        rejection.status_line(),
        expected_origin,
        Some(rejection.reason()),
    );
    Reply { response, callback: None }
}

/// Holds a decrypted payload against what the state expects, and derives
/// the user's principal from a payload that passes.
pub fn validate_payload(state: &CallbackState, expected_origin: &str, payload: BrowserPayload) -> (r:
    Result<Reply, CallbackError>)
    ensures
        result_view(r) == validation(state@, expected_origin@, payload@),
{
    if !bytes_eq(
        payload.session_public_key.as_slice(),
        state.expected_session_public_key.as_slice(),
    ) {
        return Ok(reject(expected_origin, Rejection::SessionKeyMismatch));
    }
    if !str_eq(payload.derivation_origin.as_str(), state.expected_derivation_origin.as_str()) {
        return Ok(reject(expected_origin, Rejection::DerivationOriginMismatch));
    }
    let principal = match derive_principal_from_user_key(payload.user_public_key.as_slice()) {
        Ok(principal) => principal,
        Err(e) => {
            return Err(e);
        },
    };
    let text = principal.to_text();
    let mut body = String::new();
    body.append("{\"status\":\"ok\",\"principal\":");
    body.append(quote_json(text.as_str()).as_str());
    body.append("}");
    let response = build_cors_response("HTTP/1.1 200 OK", expected_origin, Some(body.as_str()));
    proof {
        assert(body@ =~= success_body(principal@));
    }
    Ok(Reply { response, callback: Some(CallbackData { payload, principal }) })
}

/// Answers one request. A preflight gets its 204, any other route a 404.
/// A callback is checked for origin, key, body and nonce; the first
/// request that passes these uses up the private key, whatever becomes of
/// it afterwards, and only a request that did so can come back with the
/// result of the login.
pub fn handle_connection(
    request: &HttpRequest,
    state: &mut CallbackState,
    expected_origin: &str,
) -> (r: Result<Reply, CallbackError>)
    ensures
        final(state)@ == state_after(old(state)@, expected_origin@, request@),
        result_view(r) == connection_outcome(old(state)@, expected_origin@, request@),
{
    let target = chars_of(request.path.as_str());
    let query = find_char(&target, 0, target.len(), '?');
    let path = string_from(&target, 0, query);
    proof {
        assert(target@.subrange(0, target.len() as int) =~= target@);
        assert(target@.subrange(0, query as int) =~= target@.take(query as int));
    }
    let on_route = str_eq(path.as_str(), "/callback");
    if on_route && str_eq(request.method.as_str(), "OPTIONS") {
        let response = build_cors_response("HTTP/1.1 204 No Content", expected_origin, None);
        return Ok(Reply { response, callback: None });
    }
    if !(on_route && str_eq(request.method.as_str(), "POST")) {
        return Ok(reject(expected_origin, Rejection::NotFound));
    }
    let foreign = match request.header("origin") {
        Some(named) => !str_eq(named, expected_origin),
        None => false,
    };
    if foreign {
        return Ok(reject(expected_origin, Rejection::InvalidOrigin));
    }
    if !state.key_available() {
        return Ok(reject(expected_origin, Rejection::AlreadyUsed));
    }
    let callback = match parse_callback_request(request.body.as_slice()) {
        Ok(callback) => callback,
        Err(e) => {
            return Err(e);
        },
    };
    if !str_eq(callback.nonce.as_str(), state.expected_nonce.as_str()) {
        return Ok(reject(expected_origin, Rejection::InvalidNonce));
    }
    let private_key = match take_private_key(&mut state.box_private_key) {
        Ok(private_key) => private_key,
        Err(e) => {
            return Err(e);
        },
    };
    let payload = match decrypt_payload(private_key, &callback) {
        Ok(payload) => payload,
        Err(e) => {
            return Err(e);
        },
    };
    validate_payload(state, expected_origin, payload)
}

} // verus!
