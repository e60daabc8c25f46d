use mangadex_api::credentials::{decode_tokens, AuthTokens, CredentialStore};
use mangadex_api::envelope::{decode_envelope, decode_no_data, DecodeError, Envelope, NoData};
use mangadex_api::json::Json;
use mangadex_api::tags::{MangaState, ResultType};

fn s(v: &str) -> Json {
    Json::Str(v.to_string())
}

fn obj(ms: Vec<(&str, Json)>) -> Json {
    Json::Object(ms.into_iter().map(|(k, v)| (k.to_string(), v)).collect())
}

fn item(id: &str, status: i64) -> Json {
    obj(vec![("id", s(id)), ("status", Json::Int(status)), ("title", s("t")), ("detail", Json::Null)])
}

#[test]
fn error_envelope_keeps_order_and_length() {
    let v = obj(vec![
        ("result", s("error")),
        (
            "errors",
            Json::Array(vec![
                item("00000000-0000-0000-0000-000000000003", 404),
                item("00000000-0000-0000-0000-000000000001", 400),
                item("00000000-0000-0000-0000-000000000003", 404),
            ]),
        ),
    ]);
    match decode_envelope(&v) {
        Ok(Envelope::Failure(es)) => {
            assert_eq!(es.len(), 3);
            assert_eq!((es[0].id, es[0].status), (3, 404));
            assert_eq!((es[1].id, es[1].status), (1, 400));
            assert_eq!((es[2].id, es[2].status), (3, 404));
            assert_eq!(es[0].title, Some("t".to_string()));
            assert_eq!(es[0].detail, None);
        },
        other => panic!("unexpected {:?}", other),
    }
}

#[test]
fn error_envelope_ignores_other_members() {
    let v = obj(vec![
        ("result", s("error")),
        ("data", Json::Int(5)),
        ("errors", Json::Array(vec![])),
    ]);
    assert_eq!(decode_envelope(&v), Ok(Envelope::Failure(vec![])));
}

#[test]
fn envelope_shape_errors() {
    assert_eq!(decode_envelope(&Json::Int(1)), Err(DecodeError::NotAnObject));
    assert_eq!(decode_envelope(&obj(vec![])), Err(DecodeError::MissingResult));
    assert_eq!(decode_envelope(&obj(vec![("result", s("maybe"))])), Err(DecodeError::UnknownResult));
    assert_eq!(decode_envelope(&obj(vec![("result", Json::Bool(true))])), Err(DecodeError::UnknownResult));
    assert_eq!(decode_envelope(&obj(vec![("result", s("error"))])), Err(DecodeError::MissingErrors));
    let bad_id = obj(vec![("result", s("error")), ("errors", Json::Array(vec![item("not-a-uuid", 400)]))]);
    assert_eq!(decode_envelope(&bad_id), Err(DecodeError::MalformedError));
    let bad_status = obj(vec![
        ("result", s("error")),
        ("errors", Json::Array(vec![item("00000000-0000-0000-0000-000000000001", 70000)])),
    ]);
    assert_eq!(decode_envelope(&bad_status), Err(DecodeError::MalformedError));
}

#[test]
fn first_member_of_a_name_wins() {
    let v = obj(vec![("result", s("ok")), ("result", s("error"))]);
    assert_eq!(decode_envelope(&v), Ok(Envelope::Success));
}

#[test]
fn ok_envelope_decodes_no_data_and_tokens() {
    assert_eq!(decode_no_data(&obj(vec![("result", s("ok"))])), Ok(NoData { result: ResultType::Success }));
    assert_eq!(
        decode_no_data(&obj(vec![("result", s("error")), ("errors", Json::Array(vec![]))])),
        Err(DecodeError::PayloadMismatch)
    );
    let good = obj(vec![
        ("result", s("ok")),
        ("token", obj(vec![("session", s("a")), ("refresh", s("b"))])),
    ]);
    assert_eq!(decode_tokens(&good), Ok(AuthTokens { session: "a".to_string(), refresh: "b".to_string() }));
    let bad = obj(vec![("result", s("ok")), ("token", obj(vec![("session", s("a"))]))]);
    assert_eq!(decode_tokens(&bad), Err(DecodeError::PayloadMismatch));
}

#[test]
fn decoding_twice_gives_equal_values() {
    let v = obj(vec![
        ("result", s("ok")),
        ("token", obj(vec![("session", s("a")), ("refresh", s("b"))])),
    ]);
    assert_eq!(decode_tokens(&v), decode_tokens(&v));
    assert_eq!(decode_envelope(&v), decode_envelope(&v));
}

#[test]
fn tags_read_and_write() {
    assert_eq!(ResultType::default(), ResultType::Success);
    assert_eq!(ResultType::from_tag("ok"), Some(ResultType::Success));
    assert_eq!(ResultType::from_tag("error"), Some(ResultType::Error));
    assert_eq!(ResultType::from_tag("Ok"), None);
    assert_eq!(ResultType::Error.as_str(), "error");
    assert_eq!(MangaState::from_tag("published"), Some(MangaState::Published));
    assert_eq!(MangaState::from_tag("unknown"), None);
    assert_eq!(MangaState::Submitted.as_str(), "submitted");
}

#[test]
fn store_set_get_clear() {
    let mut store = CredentialStore::new();
    assert_eq!(store.get(), None);
    store.set(AuthTokens { session: "s".to_string(), refresh: "r".to_string() });
    assert_eq!(store.get(), Some(AuthTokens { session: "s".to_string(), refresh: "r".to_string() }));
    store.clear();
    assert_eq!(store.get(), None);
}
