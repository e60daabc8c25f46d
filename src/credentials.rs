//! Session credentials and the store that holds them.

use vstd::prelude::*;
use crate::envelope::{members, DecodeError};
use crate::json::{find_member, member, Json};

verus! {

/// A session token and the refresh token that renews it, always together.
#[derive(Clone, Debug, PartialEq, Eq)]
pub struct AuthTokens {
    pub session: String,
    pub refresh: String,
}

impl AuthTokens {
    pub open spec fn model(&self) -> (Seq<char>, Seq<char>) {
        (self.session@, self.refresh@)
    }
}

/// Holds the current pair, or nothing. A pair is only ever replaced whole.
pub struct CredentialStore {
    tokens: Option<AuthTokens>,
}

impl View for CredentialStore {
    type V = Option<(Seq<char>, Seq<char>)>;

    closed spec fn view(&self) -> Self::V {
        match self.tokens {
            Some(t) => Some(t.model()),
            None => None,
        }
    }
}

impl CredentialStore {
    /// An empty store: unauthenticated.
    pub fn new() -> (r: Self)
        ensures
            r@ is None,
    {
        CredentialStore { tokens: None }
    }

    /// A store that starts with `tokens`.
    pub fn with_tokens(tokens: AuthTokens) -> (r: Self)
        ensures
            r@ == Some(tokens.model()),
    {
        CredentialStore { tokens: Some(tokens) }
    }

    /// A copy of the current pair, if there is one.
    pub fn get(&self) -> (r: Option<AuthTokens>)
        ensures
            match r {
                Some(t) => self@ == Some(t.model()),
                None => self@ is None,
            },
    {
        match &self.tokens {
            Some(t) => Some(AuthTokens { session: t.session.clone(), refresh: t.refresh.clone() }),
            None => None,
        }
    }

    /// Replaces the pair whole.
    pub fn set(&mut self, tokens: AuthTokens)
        ensures
            final(self)@ == Some(tokens.model()),
    {
        self.tokens = Some(tokens);
    }

    /// Removes the pair.
    pub fn clear(&mut self)
        ensures
            final(self)@ is None,
    {
        self.tokens = None;
    }
}

/// The pair carried by a refresh response: `{"token": {"session": .., "refresh": ..}}`.
pub open spec fn tokens_payload(v: Json) -> Option<(Seq<char>, Seq<char>)> {
    match members(v) {
        Some(ms) => match member(ms, "token"@) {
            Some(Json::Object(tm)) => match (member(tm@, "session"@), member(tm@, "refresh"@)) {
                (Some(Json::Str(s)), Some(Json::Str(r))) => Some((s@, r@)),
                _ => None,
            },
            _ => None,
        },
        None => None,
    }
}

fn text_at(ms: &Vec<(String, Json)>, key: &str) -> (r: Option<String>)
    ensures
        match r {
            Some(s) => member(ms@, key@) matches Some(Json::Str(x)) && x@ == s@,
            None => !(member(ms@, key@) is Some && member(ms@, key@)->Some_0 is Str),
        },
{
    match find_member(ms, key) {
        Some(i) => match &ms[i].1 {
            Json::Str(s) => Some(s.clone()),
            _ => None,
        },
        None => None,
    }
}

/// Decodes the success payload of a refresh response into the new pair; a
/// payload of another shape is `PayloadMismatch`.
pub fn decode_tokens(v: &Json) -> (r: Result<AuthTokens, DecodeError>)
    ensures
        match r {
            Ok(t) => tokens_payload(*v) == Some(t.model()),
            Err(e) => tokens_payload(*v) is None && e == DecodeError::PayloadMismatch,
        },
{
    let ms = match v {
        Json::Object(ms) => ms,
        _ => return Err(DecodeError::PayloadMismatch),
    };
    let tm = match find_member(ms, "token") {
        Some(i) => match &ms[i].1 {
            Json::Object(tm) => tm,
            _ => return Err(DecodeError::PayloadMismatch),
        },
        None => return Err(DecodeError::PayloadMismatch),
    };
    let session = match text_at(tm, "session") {
        Some(s) => s,
        None => return Err(DecodeError::PayloadMismatch),
    };
    let refresh = match text_at(tm, "refresh") {
        Some(s) => s,
        None => return Err(DecodeError::PayloadMismatch),
    };
    Ok(AuthTokens { session, refresh })
}

} // verus!
