//! The response envelope: `{"result": "ok", ..}` or
//! `{"result": "error", "errors": [..]}`, read tag first.

use vstd::prelude::*;
use crate::ids::{uuid_from_text, uuid_parsed};
use crate::json::{find_member, member, Json};
use crate::tags::{result_type_of, ResultType};

verus! {

/// One error reported by the server.
#[derive(Clone, Debug, PartialEq, Eq)]
pub struct ApiError {
    pub id: u128,
    pub status: u16,
    pub title: Option<String>,
    pub detail: Option<String>,
}

/// Why a response could not be read.
#[derive(Clone, Copy, Debug, PartialEq, Eq, Hash, Structural)]
pub enum DecodeError {
    /// The body is not JSON at all.
    NotJson,
    NotAnObject,
    MissingResult,
    UnknownResult,
    MissingErrors,
    MalformedError,
    /// The success payload does not have the declared shape.
    PayloadMismatch,
}

/// The payload of endpoints that only confirm success.
#[derive(Clone, Copy, Debug, PartialEq, Eq, Hash, Structural)]
pub struct NoData {
    pub result: ResultType,
}

/// A decoded envelope. A success carries nothing: its payload is read by the
/// decoder of the type the caller declared.
#[derive(Clone, Debug, PartialEq, Eq)]
pub enum Envelope {
    Success,
    Failure(Vec<ApiError>),
}

pub open spec fn opt_view(o: Option<String>) -> Option<Seq<char>> {
    match o {
        Some(s) => Some(s@),
        None => None,
    }
}

/// An optional text member: absent or `null` is `None`, a string is its text,
/// anything else fails.
pub open spec fn optional_text(v: Option<Json>) -> Option<Option<Seq<char>>> {
    match v {
        None => Some(None),
        Some(Json::Null) => Some(None),
        Some(Json::Str(s)) => Some(Some(s@)),
        Some(_) => None,
    }
}

/// The members of `v` if it is an object.
pub open spec fn members(v: Json) -> Option<Seq<(String, Json)>> {
    match v {
        Json::Object(ms) => Some(ms@),
        _ => None,
    }
}

/// Whether an item of `errors` has the shape of an error.
pub open spec fn api_error_decodes(item: Json) -> bool {
    match members(item) {
        Some(ms) => {
            &&& match member(ms, "id"@) {
                Some(Json::Str(s)) => uuid_parsed(s@) is Some,
                _ => false,
            }
            &&& match member(ms, "status"@) {
                Some(Json::Int(n)) => 0 <= n <= 65535,
                _ => false,
            }
            &&& optional_text(member(ms, "title"@)) is Some
            &&& optional_text(member(ms, "detail"@)) is Some
        },
        None => false,
    }
}

/// `e` is, field for field, what the item `item` of `errors` says.
pub open spec fn api_error_matches(item: Json, e: ApiError) -> bool {
    match members(item) {
        Some(ms) => {
            &&& match member(ms, "id"@) {
                Some(Json::Str(s)) => uuid_parsed(s@) == Some(e.id),
                _ => false,
            }
            &&& match member(ms, "status"@) {
                Some(Json::Int(n)) => n == e.status as i64,
                _ => false,
            }
            &&& optional_text(member(ms, "title"@)) == Some(opt_view(e.title))
            &&& optional_text(member(ms, "detail"@)) == Some(opt_view(e.detail))
        },
        None => false,
    }
}

/// The discriminator of an envelope, or why it cannot be read.
pub open spec fn envelope_tag(v: Json) -> Result<ResultType, DecodeError> {
    match members(v) {
        Some(ms) => match member(ms, "result"@) {
            None => Err(DecodeError::MissingResult),
            Some(Json::Str(t)) => match result_type_of(t@) {
                Some(r) => Ok(r),
                None => Err(DecodeError::UnknownResult),
            },
            Some(_) => Err(DecodeError::UnknownResult),
        },
        None => Err(DecodeError::NotAnObject),
    }
}

/// The items of the `errors` array of `v`, if there is one.
pub open spec fn error_items(v: Json) -> Option<Seq<Json>> {
    match members(v) {
        Some(ms) => match member(ms, "errors"@) {
            Some(Json::Array(a)) => Some(a@),
            _ => None,
        },
        None => None,
    }
}

/// Every item of an `errors` array has the shape of an error.
pub open spec fn all_errors_decode(items: Seq<Json>) -> bool {
    forall|i: int| 0 <= i < items.len() ==> api_error_decodes(#[trigger] items[i])
}

/// `es` is the decoded list `items`, in the same order.
pub open spec fn errors_match(items: Seq<Json>, es: Seq<ApiError>) -> bool {
    &&& es.len() == items.len()
    &&& forall|i: int| 0 <= i < items.len() ==> api_error_matches(items[i], #[trigger] es[i])
}

/// What decoding the envelope `v` gives. The error list is only looked at under
/// the error tag; nothing else is looked at under the success tag.
pub open spec fn envelope_decodes_to(v: Json, r: Result<Envelope, DecodeError>) -> bool {
    match envelope_tag(v) {
        Err(e) => r == Err::<Envelope, DecodeError>(e),
        Ok(ResultType::Success) => r == Ok::<Envelope, DecodeError>(Envelope::Success),
        Ok(ResultType::Error) => match error_items(v) {
            None => r == Err::<Envelope, DecodeError>(DecodeError::MissingErrors),
            Some(items) => if all_errors_decode(items) {
                r matches Ok(Envelope::Failure(es)) && errors_match(items, es@)
            } else {
                r == Err::<Envelope, DecodeError>(DecodeError::MalformedError)
            },
        },
    }
}

fn optional_text_member(ms: &Vec<(String, Json)>, key: &str) -> (r: Option<Option<String>>)
    ensures
        match r {
            Some(o) => optional_text(member(ms@, key@)) == Some(opt_view(o)),
            None => optional_text(member(ms@, key@)) is None,
        },
{
    match find_member(ms, key) {
        None => Some(None),
        Some(i) => match &ms[i].1 {
            Json::Null => Some(None),
            Json::Str(s) => Some(Some(s.clone())),
            _ => None,
        },
    }
}

/// Reads one item of an `errors` array.
pub fn decode_api_error(item: &Json) -> (r: Option<ApiError>)
    ensures
        match r {
            Some(e) => api_error_matches(*item, e),
            None => !api_error_decodes(*item),
        },
{
    let ms = match item {
        Json::Object(ms) => ms,
        _ => return None,
    };
    let id = match find_member(ms, "id") {
        Some(i) => match &ms[i].1 {
            Json::Str(s) => match uuid_from_text(s.as_str()) {
                Some(v) => v,
                None => return None,
            },
            _ => return None,
        },
        None => return None,
    };
    let status = match find_member(ms, "status") {
        Some(i) => match &ms[i].1 {
            Json::Int(n) => {
                if 0 <= *n && *n <= 65535 {
                    *n as u16
                } else {
                    return None;
                }
            },
            _ => return None,
        },
        None => return None,
    };
    let title = match optional_text_member(ms, "title") {
        Some(o) => o,
        None => return None,
    };
    let detail = match optional_text_member(ms, "detail") {
        Some(o) => o,
        None => return None,
    };
    Some(ApiError { id, status, title, detail })
}

/// Reads the discriminator of an envelope.
pub fn decode_tag(v: &Json) -> (r: Result<ResultType, DecodeError>)
    ensures
        r == envelope_tag(*v),
{
    let ms = match v {
        Json::Object(ms) => ms,
        _ => return Err(DecodeError::NotAnObject),
    };
    match find_member(ms, "result") {
        None => Err(DecodeError::MissingResult),
        Some(i) => match &ms[i].1 {
            Json::Str(t) => match ResultType::from_tag(t.as_str()) {
                Some(r) => Ok(r),
                None => Err(DecodeError::UnknownResult),
            },
            _ => Err(DecodeError::UnknownResult),
        },
    }
}

/// Reads every item of an `errors` array, keeping their order.
pub fn decode_errors(items: &Vec<Json>) -> (r: Option<Vec<ApiError>>)
    ensures
        match r {
            Some(es) => all_errors_decode(items@) && errors_match(items@, es@),
            None => !all_errors_decode(items@),
        },
{
    let mut es: Vec<ApiError> = Vec::new();
    let mut i: usize = 0;
    while i < items.len()
        invariant
            0 <= i <= items.len(),
            es@.len() == i,
            forall|j: int| 0 <= j < i ==> api_error_decodes(#[trigger] items@[j]),
            forall|j: int| 0 <= j < i ==> api_error_matches(items@[j], #[trigger] es@[j]),
        decreases items.len() - i,
    {
        match decode_api_error(&items[i]) {
            Some(e) => es.push(e),
            None => return None,
        }
        i = i + 1;
    }
    Some(es)
}

/// Decodes an envelope: the tag first, then the error list only under the
/// error tag.
pub fn decode_envelope(v: &Json) -> (r: Result<Envelope, DecodeError>)
    ensures
        envelope_decodes_to(*v, r),
{
    match decode_tag(v) {
        Err(e) => Err(e),
        Ok(ResultType::Success) => Ok(Envelope::Success),
        Ok(ResultType::Error) => {
            let ms = match v {
                Json::Object(ms) => ms,
                _ => return Err(DecodeError::NotAnObject),
            };
            match find_member(ms, "errors") {
                Some(i) => match &ms[i].1 {
                    Json::Array(items) => match decode_errors(items) {
                        Some(es) => Ok(Envelope::Failure(es)),
                        None => Err(DecodeError::MalformedError),
                    },
                    _ => Err(DecodeError::MissingErrors),
                },
                None => Err(DecodeError::MissingErrors),
            }
        },
    }
}

/// Decodes the payload of an endpoint that returns no data: any success
/// envelope is one; an error envelope is not this payload.
pub fn decode_no_data(v: &Json) -> (r: Result<NoData, DecodeError>)
    ensures
        match envelope_tag(*v) {
            Ok(ResultType::Success) => r == Ok::<NoData, DecodeError>(NoData { result: ResultType::Success }),
            Ok(ResultType::Error) => r == Err::<NoData, DecodeError>(DecodeError::PayloadMismatch),
            Err(e) => r == Err::<NoData, DecodeError>(e),
        },
{
    match decode_tag(v) {
        Ok(ResultType::Success) => Ok(NoData { result: ResultType::Success }),
        Ok(ResultType::Error) => Err(DecodeError::PayloadMismatch),
        Err(e) => Err(e),
    }
}

/// An error as plain values: id, status, title, detail.
pub open spec fn api_error_model(e: ApiError) -> (u128, u16, Option<Seq<char>>, Option<Seq<char>>) {
    (e.id, e.status, opt_view(e.title), opt_view(e.detail))
}

/// Under the error tag, a well-formed `errors` array decodes to a list of the
/// same length whose `i`-th error is the `i`-th item, field for field.
pub proof fn lemma_error_envelope_keeps_order(v: Json, r: Result<Envelope, DecodeError>)
    requires
        envelope_tag(v) == Ok::<ResultType, DecodeError>(ResultType::Error),
        error_items(v) is Some,
        all_errors_decode(error_items(v)->Some_0),
        envelope_decodes_to(v, r),
    ensures
        r is Ok,
        r->Ok_0 is Failure,
        r->Ok_0->Failure_0@.len() == error_items(v)->Some_0.len(),
        forall|i: int|
            0 <= i < error_items(v)->Some_0.len() ==> api_error_matches(
                error_items(v)->Some_0[i],
                #[trigger] r->Ok_0->Failure_0@[i],
            ),
{
}

/// Decoding the same document twice gives the same result: the same error,
/// the same tag, or errors equal field for field.
pub proof fn lemma_decode_deterministic(
    v: Json,
    r1: Result<Envelope, DecodeError>,
    r2: Result<Envelope, DecodeError>,
)
    requires
        envelope_decodes_to(v, r1),
        envelope_decodes_to(v, r2),
    ensures
        r1 is Ok <==> r2 is Ok,
        r1 is Err ==> r1 == r2,
        r1 is Ok && r1->Ok_0 is Success ==> r2 == r1,
        r1 is Ok && r1->Ok_0 is Failure ==> r2 is Ok && r2->Ok_0 is Failure
            && r1->Ok_0->Failure_0@.map_values(|e: ApiError| api_error_model(e))
                == r2->Ok_0->Failure_0@.map_values(|e: ApiError| api_error_model(e)),
{
    if r1 is Ok && r1->Ok_0 is Failure {
        let es1 = r1->Ok_0->Failure_0@;
        let es2 = r2->Ok_0->Failure_0@;
        let items = error_items(v)->Some_0;
        assert forall|i: int| 0 <= i < es1.len() implies api_error_model(es1[i]) == api_error_model(es2[i]) by {
            assert(api_error_matches(items[i], es1[i]));
            assert(api_error_matches(items[i], es2[i]));
        }
        assert(es1.map_values(|e: ApiError| api_error_model(e)) =~= es2.map_values(|e: ApiError| api_error_model(e)));
    }
}

/// Decoding an envelope reads only its `result` and `errors` members: two
/// objects that agree on those decode alike, whatever else they hold.
pub proof fn lemma_decode_reads_only_tag_and_errors(v1: Json, v2: Json, r: Result<Envelope, DecodeError>)
    requires
        members(v1) is Some,
        members(v2) is Some,
        member(members(v1)->Some_0, "result"@) == member(members(v2)->Some_0, "result"@),
        member(members(v1)->Some_0, "errors"@) == member(members(v2)->Some_0, "errors"@),
        envelope_decodes_to(v1, r),
    ensures
        envelope_decodes_to(v2, r),
{
}

} // verus!
