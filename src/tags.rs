//! Closed tag enumerations, written on the wire as lowercase snake-case strings.

use vstd::prelude::*;

verus! {

/// Discriminator of a response envelope.
#[derive(Clone, Copy, Debug, PartialEq, Eq, Hash, Structural)]
pub enum ResultType {
    Success,
    Error,
}

/// Approval state of a manga entry.
#[derive(Clone, Copy, Debug, PartialEq, Eq, Hash, Structural)]
pub enum MangaState {
    Draft,
    Published,
    Rejected,
    Submitted,
}

pub open spec fn result_type_text(t: ResultType) -> Seq<char> {
    match t {
        ResultType::Success => "ok"@,
        ResultType::Error => "error"@,
    }
}

/// The tag that a wire string names, if any; no other string is accepted.
pub open spec fn result_type_of(s: Seq<char>) -> Option<ResultType> {
    if s == "ok"@ {
        Some(ResultType::Success)
    } else if s == "error"@ {
        Some(ResultType::Error)
    } else {
        None
    }
}

pub open spec fn manga_state_text(m: MangaState) -> Seq<char> {
    match m {
        MangaState::Draft => "draft"@,
        MangaState::Published => "published"@,
        MangaState::Rejected => "rejected"@,
        MangaState::Submitted => "submitted"@,
    }
}

pub open spec fn manga_state_of(s: Seq<char>) -> Option<MangaState> {
    if s == "draft"@ {
        Some(MangaState::Draft)
    } else if s == "published"@ {
        Some(MangaState::Published)
    } else if s == "rejected"@ {
        Some(MangaState::Rejected)
    } else if s == "submitted"@ {
        Some(MangaState::Submitted)
    } else {
        None
    }
}

impl Default for ResultType {
    /// The success tag; used when a record is built in code, never when parsing.
    fn default() -> (r: Self)
        ensures
            r == ResultType::Success,
    {
        ResultType::Success
    }
}

impl ResultType {
    pub fn as_str(&self) -> (r: &'static str)
        ensures
            r@ == result_type_text(*self),
    {
        match self {
            ResultType::Success => "ok",
            ResultType::Error => "error",
        }
    }

    /// Reads a wire tag; an unknown tag is `None`, never a default.
    pub fn from_tag(s: &str) -> (r: Option<ResultType>)
        ensures
            r == result_type_of(s@),
    {
        let t = s.to_owned();
        if t == "ok".to_owned() {
            Some(ResultType::Success)
        } else if t == "error".to_owned() {
            Some(ResultType::Error)
        } else {
            None
        }
    }
}

impl MangaState {
    pub fn as_str(&self) -> (r: &'static str)
        ensures
            r@ == manga_state_text(*self),
    {
        match self {
            MangaState::Draft => "draft",
            MangaState::Published => "published",
            MangaState::Rejected => "rejected",
            MangaState::Submitted => "submitted",
        }
    }

    /// Reads a wire tag; an unknown tag is `None`.
    pub fn from_tag(s: &str) -> (r: Option<MangaState>)
        ensures
            r == manga_state_of(s@),
    {
        let t = s.to_owned();
        if t == "draft".to_owned() {
            Some(MangaState::Draft)
        } else if t == "published".to_owned() {
            Some(MangaState::Published)
        } else if t == "rejected".to_owned() {
            Some(MangaState::Rejected)
        } else if t == "submitted".to_owned() {
            Some(MangaState::Submitted)
        } else {
            None
        }
    }
}

/// Reading back the text of a result tag gives the same tag.
pub proof fn lemma_result_type_round_trip(t: ResultType)
    ensures
        result_type_of(result_type_text(t)) == Some(t),
{
    reveal_strlit("ok");
    reveal_strlit("error");
    assert("ok"@.len() != "error"@.len());
}

/// Reading back the text of a manga state gives the same state.
pub proof fn lemma_manga_state_round_trip(m: MangaState)
    ensures
        manga_state_of(manga_state_text(m)) == Some(m),
{
    reveal_strlit("draft");
    reveal_strlit("published");
    reveal_strlit("rejected");
    reveal_strlit("submitted");
    assert("draft"@[0] != "published"@[0]);
    assert("draft"@[0] != "rejected"@[0]);
    assert("draft"@[0] != "submitted"@[0]);
    assert("published"@[0] != "rejected"@[0]);
    assert("published"@[0] != "submitted"@[0]);
    assert("rejected"@[0] != "submitted"@[0]);
}

} // verus!
