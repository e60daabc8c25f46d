//! The dispatch engine as a state machine. The caller performs each action it
//! returns (send the request, send a refresh, or hand back the outcome) and
//! feeds back what the transport answered. Authenticated operations fail fast
//! without credentials; an expired session is refreshed once and the request
//! sent once more.

use vstd::prelude::*;
use vstd::string::StringExecFns;
use crate::credentials::{decode_tokens, tokens_payload, CredentialStore};
use crate::descriptor::{Content, Descriptor, Method};
use crate::envelope::{
    all_errors_decode, decode_envelope, envelope_tag, error_items, errors_match, ApiError,
    DecodeError, Envelope,
};
use crate::json::{str_is, Json};
use crate::tags::ResultType;

verus! {

/// Status with which the server reports an expired or missing session.
pub const AUTH_EXPIRED_STATUS: u16 = 401;

/// Why the refresh that followed an expired session failed.
#[derive(Debug, PartialEq)]
pub enum RefreshFailure {
    Transport(String),
    Decode(DecodeError),
    Api(Vec<ApiError>),
}

/// The ways a send can fail.
#[derive(Debug, PartialEq)]
pub enum DispatchError {
    /// The operation needs authentication and the store holds no credentials.
    MissingTokens,
    /// The transport could not complete the exchange.
    Transport(String),
    /// The response did not have the expected shape.
    Decode(DecodeError),
    /// The server reported errors.
    Api(Vec<ApiError>),
    /// The session had expired and renewing it failed; `original` is what the
    /// server first reported.
    RefreshFailed { original: Vec<ApiError>, cause: RefreshFailure },
}

/// What the transport answered to the last request.
#[derive(Debug, PartialEq)]
pub enum Event {
    /// A response whose body is this JSON document.
    Response(Json),
    /// A response whose body is not JSON.
    Unreadable,
    TransportFailed(String),
}

/// What the caller is to do next.
#[derive(Debug, PartialEq)]
pub enum Action {
    /// Send the operation's request, with this `Authorization` header value if any.
    Send { authorization: Option<String> },
    /// Send this refresh request, then report its answer.
    Refresh(Descriptor),
    /// Stop: the success envelope, for the declared payload's decoder, or the error.
    Finish(Result<Json, DispatchError>),
}

#[derive(Debug, PartialEq)]
pub enum Phase {
    /// The request went out once.
    Sent,
    /// A refresh is out; the errors of the first answer are kept.
    Refreshing(Vec<ApiError>),
    /// The request went out again after a refresh.
    Resent,
    Done,
}

/// One send in progress.
#[derive(Debug, PartialEq)]
pub struct Dispatch {
    pub auth_required: bool,
    pub phase: Phase,
}

pub open spec fn bearer(session: Seq<char>) -> Seq<char> {
    "Bearer "@ + session
}

/// `h` is the header that the credentials `store` give, where `auth` asks for one.
pub open spec fn authorizes(h: Option<String>, store: Option<(Seq<char>, Seq<char>)>, auth: bool) -> bool {
    match (auth, h, store) {
        (false, None, _) => true,
        (true, Some(x), Some(p)) => x@ == bearer(p.0),
        _ => false,
    }
}

pub open spec fn sends_with(a: Action, store: Option<(Seq<char>, Seq<char>)>, auth: bool) -> bool {
    match a {
        Action::Send { authorization } => authorizes(authorization, store, auth),
        _ => false,
    }
}

/// Some reported error says that the session is not valid.
pub open spec fn is_auth_expired(es: Seq<ApiError>) -> bool {
    exists|i: int| 0 <= i < es.len() && (#[trigger] es[i]).status == AUTH_EXPIRED_STATUS
}

/// `c` is the body `{"token": {"refresh": <refresh>}}`.
pub open spec fn refresh_body(c: Content, refresh: Seq<char>) -> bool {
    match c {
        Content::Body(Json::Object(ms)) => ms@.len() == 1 && ms@[0].0@ == "token"@ && match ms@[0].1 {
            Json::Object(tm) => tm@.len() == 1 && tm@[0].0@ == "refresh"@ && str_is(tm@[0].1, refresh),
            _ => false,
        },
        _ => false,
    }
}

/// `d` renews a session with the refresh token `refresh`, unauthenticated by header.
pub open spec fn is_refresh_request(d: Descriptor, refresh: Seq<char>) -> bool {
    &&& d.method == Method::Post
    &&& d.path@ == "/auth/refresh"@
    &&& !d.auth_required
    &&& refresh_body(d.content, refresh)
}

pub open spec fn finish_err(e: DispatchError) -> Action {
    Action::Finish(Err(e))
}

/// What a response to the operation's own request leads to; `first` holds on
/// the first attempt, the only one after which a refresh may follow.
pub open spec fn answers(
    auth: bool,
    first: bool,
    store: Option<(Seq<char>, Seq<char>)>,
    body: Json,
    a: Action,
    next: Phase,
) -> bool {
    match envelope_tag(body) {
        Err(e) => a == finish_err(DispatchError::Decode(e)) && next is Done,
        Ok(ResultType::Success) => a == Action::Finish(Ok(body)) && next is Done,
        Ok(ResultType::Error) => match error_items(body) {
            None => a == finish_err(DispatchError::Decode(DecodeError::MissingErrors)) && next is Done,
            Some(items) => if !all_errors_decode(items) {
                a == finish_err(DispatchError::Decode(DecodeError::MalformedError)) && next is Done
            } else {
                match a {
                    Action::Finish(Err(DispatchError::Api(es))) => errors_match(items, es@)
                        && next is Done
                        && !(first && auth && store is Some && is_auth_expired(es@)),
                    Action::Refresh(d) => match next {
                        Phase::Refreshing(es) => errors_match(items, es@) && first && auth
                            && store is Some && is_auth_expired(es@)
                            && is_refresh_request(d, store->Some_0.1),
                        _ => false,
                    },
                    _ => false,
                }
            },
        },
    }
}

pub open spec fn refresh_failed(original: Vec<ApiError>, cause: RefreshFailure) -> Action {
    Action::Finish(Err(DispatchError::RefreshFailed { original, cause }))
}

/// What the answer to a refresh leads to: on success the store holds the new
/// pair and the request goes out again with it; otherwise the store is kept and
/// the send fails with the first answer's errors and the refresh's failure.
pub open spec fn answers_refresh(
    original: Vec<ApiError>,
    store: Option<(Seq<char>, Seq<char>)>,
    store2: Option<(Seq<char>, Seq<char>)>,
    body: Json,
    a: Action,
    next: Phase,
) -> bool {
    match envelope_tag(body) {
        Err(e) => a == refresh_failed(original, RefreshFailure::Decode(e)) && next is Done && store2 == store,
        Ok(ResultType::Error) => store2 == store && next is Done && match error_items(body) {
            None => a == refresh_failed(original, RefreshFailure::Decode(DecodeError::MissingErrors)),
            Some(items) => if !all_errors_decode(items) {
                a == refresh_failed(original, RefreshFailure::Decode(DecodeError::MalformedError))
            } else {
                match a {
                    Action::Finish(Err(DispatchError::RefreshFailed { original: o, cause: RefreshFailure::Api(es) })) =>
                        o == original && errors_match(items, es@),
                    _ => false,
                }
            },
        },
        Ok(ResultType::Success) => match tokens_payload(body) {
            None => a == refresh_failed(original, RefreshFailure::Decode(DecodeError::PayloadMismatch))
                && next is Done && store2 == store,
            Some(p) => store2 == Some(p) && next is Resent && sends_with(a, store2, true),
        },
    }
}

/// The `Authorization` header value for a session token.
pub fn bearer_header(session: &String) -> (r: String)
    ensures
        r@ == bearer(session@),
{
    "Bearer ".to_owned().concat(session.as_str())
}

/// The request that renews a session.
pub fn refresh_descriptor(refresh: String) -> (d: Descriptor)
    ensures
        is_refresh_request(d, refresh@),
{
    let mut tm: Vec<(String, Json)> = Vec::new();
    tm.push(("refresh".to_owned(), Json::Str(refresh)));
    let mut ms: Vec<(String, Json)> = Vec::new();
    ms.push(("token".to_owned(), Json::Object(tm)));
    Descriptor {
        method: Method::Post,
        path: "/auth/refresh".to_owned(),
        content: Content::Body(Json::Object(ms)),
        auth_required: false,
    }
}

/// Whether some reported error says that the session is not valid.
pub fn any_auth_expired(es: &Vec<ApiError>) -> (r: bool)
    ensures
        r == is_auth_expired(es@),
{
    let mut i: usize = 0;
    while i < es.len()
        invariant
            0 <= i <= es.len(),
            forall|j: int| 0 <= j < i ==> (#[trigger] es@[j]).status != AUTH_EXPIRED_STATUS,
        decreases es.len() - i,
    {
        if es[i].status == AUTH_EXPIRED_STATUS {
            return true;
        }
        i = i + 1;
    }
    false
}

fn answer_response(auth: bool, first: bool, store: &CredentialStore, body: Json) -> (r: (Action, Phase))
    ensures
        answers(auth, first, store@, body, r.0, r.1),
{
    match decode_envelope(&body) {
        Err(e) => (Action::Finish(Err(DispatchError::Decode(e))), Phase::Done),
        Ok(Envelope::Success) => (Action::Finish(Ok(body)), Phase::Done),
        Ok(Envelope::Failure(es)) => {
            if first && auth && any_auth_expired(&es) {
                match store.get() {
                    Some(t) => (Action::Refresh(refresh_descriptor(t.refresh)), Phase::Refreshing(es)),
                    None => (Action::Finish(Err(DispatchError::Api(es))), Phase::Done),
                }
            } else {
                (Action::Finish(Err(DispatchError::Api(es))), Phase::Done)
            }
        },
    }
}

fn answer_refresh(store: &mut CredentialStore, original: Vec<ApiError>, body: Json) -> (r: (Action, Phase))
    ensures
        answers_refresh(original, old(store)@, final(store)@, body, r.0, r.1),
{
    match decode_envelope(&body) {
        Err(e) => (
            Action::Finish(Err(DispatchError::RefreshFailed { original, cause: RefreshFailure::Decode(e) })),
            Phase::Done,
        ),
        Ok(Envelope::Failure(es)) => (
            Action::Finish(Err(DispatchError::RefreshFailed { original, cause: RefreshFailure::Api(es) })),
            Phase::Done,
        ),
        Ok(Envelope::Success) => match decode_tokens(&body) {
            Err(e) => (
                Action::Finish(Err(DispatchError::RefreshFailed { original, cause: RefreshFailure::Decode(e) })),
                Phase::Done,
            ),
            Ok(t) => {
                let h = bearer_header(&t.session);
                store.set(t);
                (Action::Send { authorization: Some(h) }, Phase::Resent)
            },
        },
    }
}

impl Dispatch {
    /// Begins a send of `desc`. Without credentials an authenticated operation
    /// finishes at once with `MissingTokens` and nothing is sent; otherwise the
    /// request goes out, with the bearer header of the stored session exactly
    /// when the operation is authenticated.
    pub fn start(desc: &Descriptor, store: &CredentialStore) -> (r: (Dispatch, Action))
        ensures
            r.0.auth_required == desc.auth_required,
            desc.auth_required && store@ is None ==> r.1 == finish_err(DispatchError::MissingTokens)
                && r.0.phase is Done,
            !(desc.auth_required && store@ is None) ==> r.0.phase is Sent
                && sends_with(r.1, store@, desc.auth_required),
    {
        if desc.auth_required {
            match store.get() {
                None => (
                    Dispatch { auth_required: true, phase: Phase::Done },
                    Action::Finish(Err(DispatchError::MissingTokens)),
                ),
                Some(t) => (
                    Dispatch { auth_required: true, phase: Phase::Sent },
                    Action::Send { authorization: Some(bearer_header(&t.session)) },
                ),
            }
        } else {
            (Dispatch { auth_required: false, phase: Phase::Sent }, Action::Send { authorization: None })
        }
    }

    /// Takes the transport's answer to the last action and returns the next one.
    pub fn step(&mut self, store: &mut CredentialStore, event: Event) -> (r: Action)
        requires
            !(old(self).phase is Done),
        ensures
            final(self).auth_required == old(self).auth_required,
            match event {
                Event::TransportFailed(m) => final(self).phase is Done && final(store)@ == old(store)@
                    && match old(self).phase {
                        Phase::Refreshing(o) => r == refresh_failed(o, RefreshFailure::Transport(m)),
                        _ => r == finish_err(DispatchError::Transport(m)),
                    },
                Event::Unreadable => final(self).phase is Done && final(store)@ == old(store)@
                    && match old(self).phase {
                        Phase::Refreshing(o) => r == refresh_failed(o, RefreshFailure::Decode(DecodeError::NotJson)),
                        _ => r == finish_err(DispatchError::Decode(DecodeError::NotJson)),
                    },
                Event::Response(body) => match old(self).phase {
                    Phase::Refreshing(o) => answers_refresh(o, old(store)@, final(store)@, body, r, final(self).phase),
                    _ => final(store)@ == old(store)@ && answers(
                        old(self).auth_required,
                        old(self).phase is Sent,
                        old(store)@,
                        body,
                        r,
                        final(self).phase,
                    ),
                },
            },
    {
        let mut phase = Phase::Done;
        core::mem::swap(&mut self.phase, &mut phase);
        match phase {
            Phase::Refreshing(original) => match event {
                Event::TransportFailed(m) => Action::Finish(Err(DispatchError::RefreshFailed {
                    original,
                    cause: RefreshFailure::Transport(m),
                })),
                Event::Unreadable => Action::Finish(Err(DispatchError::RefreshFailed {
                    original,
                    cause: RefreshFailure::Decode(DecodeError::NotJson),
                })),
                Event::Response(body) => {
                    let (a, next) = answer_refresh(store, original, body);
                    self.phase = next;
                    a
                },
            },
            // A finished send takes no more events (see `requires`).
            Phase::Done => Action::Finish(Err(DispatchError::MissingTokens)),
            Phase::Sent | Phase::Resent => {
                let first = match phase {
                    Phase::Sent => true,
                    _ => false,
                };
                match event {
                    Event::TransportFailed(m) => Action::Finish(Err(DispatchError::Transport(m))),
                    Event::Unreadable => Action::Finish(Err(DispatchError::Decode(DecodeError::NotJson))),
                    Event::Response(body) => {
                        let (a, next) = answer_response(self.auth_required, first, store, body);
                        self.phase = next;
                        a
                    },
                }
            },
        }
    }
}

} // verus!
