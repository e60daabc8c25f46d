use mangadex_api::credentials::{AuthTokens, CredentialStore};
use mangadex_api::descriptor::{Content, Descriptor, Method, QueryValue};
use mangadex_api::dispatch::{Action, Dispatch, DispatchError, Event, RefreshFailure};
use mangadex_api::endpoints::{
    AbandonUploadSession, CreateOrUpdateUserSettings, DeleteMangaRating, ListUser, RecoverAccount,
};
use mangadex_api::envelope::ApiError;
use mangadex_api::json::Json;

const ERROR_ID: u128 = 0x0a1b2c3d_4e5f_4a6b_8c7d_8e9fa0b1c2d3;
const ERROR_ID_TEXT: &str = "0a1b2c3d-4e5f-4a6b-8c7d-8e9fa0b1c2d3";

fn s(v: &str) -> Json {
    Json::Str(v.to_string())
}

fn obj(ms: Vec<(&str, Json)>) -> Json {
    Json::Object(ms.into_iter().map(|(k, v)| (k.to_string(), v)).collect())
}

fn ok_body() -> Json {
    obj(vec![("result", s("ok"))])
}

fn error_body(status: i64, title: &str, detail: &str) -> Json {
    obj(vec![
        ("result", s("error")),
        (
            "errors",
            Json::Array(vec![obj(vec![
                ("id", s(ERROR_ID_TEXT)),
                ("status", Json::Int(status)),
                ("title", s(title)),
                ("detail", s(detail)),
            ])]),
        ),
    ])
}

fn stored() -> CredentialStore {
    CredentialStore::with_tokens(AuthTokens {
        session: "sessiontoken".to_string(),
        refresh: "refreshtoken".to_string(),
    })
}

/// One call that reached the transport.
#[derive(Debug, PartialEq)]
enum Call {
    Request(Option<String>),
    Refresh(Descriptor),
}

/// Drives a send, answering each call with the next of `answers`.
fn drive(
    desc: &Descriptor,
    store: &mut CredentialStore,
    answers: Vec<Event>,
) -> (Result<Json, DispatchError>, Vec<Call>) {
    let mut answers = answers.into_iter();
    let mut calls = Vec::new();
    let (mut machine, mut action) = Dispatch::start(desc, store);
    loop {
        match action {
            Action::Finish(r) => return (r, calls),
            Action::Send { authorization } => calls.push(Call::Request(authorization)),
            Action::Refresh(d) => calls.push(Call::Refresh(d)),
        }
        let event = answers.next().expect("more transport calls than answers");
        action = machine.step(store, event);
    }
}

#[test]
fn delete_manga_rating_fires_a_request_to_base_url() {
    let mut store = stored();
    let desc = DeleteMangaRating { manga_id: 0xf9c33607_9180_4ba6_b85c_e4b5faee7192 }.descriptor();
    assert_eq!(desc.method, Method::Delete);
    assert_eq!(desc.path, "/rating/f9c33607-9180-4ba6-b85c-e4b5faee7192");
    let (res, calls) = drive(&desc, &mut store, vec![Event::Response(ok_body())]);
    assert_eq!(res, Ok(ok_body()));
    assert_eq!(calls, vec![Call::Request(Some("Bearer sessiontoken".to_string()))]);
}

#[test]
fn delete_manga_rating_requires_auth() {
    let mut store = CredentialStore::new();
    let desc = DeleteMangaRating { manga_id: 7 }.descriptor();
    let (res, calls) = drive(&desc, &mut store, vec![]);
    assert_eq!(res, Err(DispatchError::MissingTokens));
    assert!(calls.is_empty());
}

#[test]
fn create_or_update_user_settings_requires_auth() {
    let mut store = CredentialStore::new();
    let desc = CreateOrUpdateUserSettings {
        settings: vec![],
        updated_at: "2021-01-01T00:00:00".to_string(),
    }
    .descriptor();
    assert_eq!(desc.method, Method::Post);
    assert_eq!(desc.path, "/settings");
    let (res, calls) = drive(&desc, &mut store, vec![]);
    assert_eq!(res, Err(DispatchError::MissingTokens));
    assert!(calls.is_empty());
}

#[test]
fn abandon_session_fires_a_request_to_base_url() {
    let mut store = stored();
    let desc = AbandonUploadSession { session_id: 0x1 }.descriptor();
    assert_eq!(desc.method, Method::Delete);
    assert_eq!(desc.path, "/upload/00000000-0000-0000-0000-000000000001");
    let (res, calls) = drive(&desc, &mut store, vec![Event::Response(ok_body())]);
    assert!(res.is_ok());
    assert_eq!(calls, vec![Call::Request(Some("Bearer sessiontoken".to_string()))]);
}

#[test]
fn recover_fires_a_request_to_base_url() {
    let mut store = CredentialStore::new();
    let desc = RecoverAccount { email: "someone@example.com".to_string() }.descriptor();
    assert_eq!(desc.method, Method::Post);
    assert_eq!(desc.path, "/account/recover");
    assert!(!desc.auth_required);
    assert_eq!(desc.content, Content::Body(obj(vec![("email", s("someone@example.com"))])));
    let (res, calls) = drive(&desc, &mut store, vec![Event::Response(ok_body())]);
    assert!(res.is_ok());
    assert_eq!(calls, vec![Call::Request(None)]);
}

#[test]
fn list_user_fires_a_request_to_base_url() {
    let mut store = stored();
    let desc = ListUser { limit: Some(1), ..ListUser::default() }.descriptor();
    assert_eq!(desc.method, Method::Get);
    assert_eq!(desc.path, "/user");
    assert_eq!(desc.content, Content::Query(vec![("limit".to_string(), QueryValue::Number(1))]));
    let user = obj(vec![
        ("id", s(ERROR_ID_TEXT)),
        ("type", s("user")),
        (
            "attributes",
            obj(vec![
                ("username", s("myusername")),
                (
                    "roles",
                    Json::Array(vec![s("ROLE_MEMBER"), s("ROLE_GROUP_MEMBER"), s("ROLE_GROUP_LEADER")]),
                ),
                ("version", Json::Int(1)),
            ]),
        ),
    ]);
    let body = obj(vec![
        ("result", s("ok")),
        ("response", s("collection")),
        ("data", Json::Array(vec![user])),
        ("limit", Json::Int(1)),
        ("offset", Json::Int(0)),
        ("total", Json::Int(1)),
    ]);
    let (res, calls) = drive(&desc, &mut store, vec![Event::Response(body)]);
    assert_eq!(calls, vec![Call::Request(Some("Bearer sessiontoken".to_string()))]);
    let body = res.expect("success");
    let Json::Object(ms) = body else { panic!("not an object") };
    assert_eq!(ms[1], ("response".to_string(), s("collection")));
    let Json::Array(data) = &ms[2].1 else { panic!("no data") };
    let Json::Object(u) = &data[0] else { panic!("no user") };
    assert_eq!(u[0].1, s(ERROR_ID_TEXT));
    let Json::Object(attrs) = &u[2].1 else { panic!("no attributes") };
    assert_eq!(attrs[0].1, s("myusername"));
    assert_eq!(attrs[2].1, Json::Int(1));
}

#[test]
fn list_manga_handles_400() {
    let mut store = stored();
    let desc = ListUser { limit: Some(0), ..ListUser::default() }.descriptor();
    let body = error_body(400, "Invalid limit", "Limit must be between 1 and 100");
    let (res, calls) = drive(&desc, &mut store, vec![Event::Response(body)]);
    assert_eq!(calls.len(), 1);
    match res {
        Err(DispatchError::Api(errors)) => {
            assert_eq!(errors.len(), 1);
            assert_eq!(errors[0].id, ERROR_ID);
            assert_eq!(errors[0].status, 400);
            assert_eq!(errors[0].title, Some("Invalid limit".to_string()));
            assert_eq!(errors[0].detail, Some("Limit must be between 1 and 100".to_string()));
        },
        other => panic!("expected error, got {:?}", other),
    }
}

fn token_body(session: &str, refresh: &str) -> Json {
    obj(vec![
        ("result", s("ok")),
        ("token", obj(vec![("session", s(session)), ("refresh", s(refresh))])),
    ])
}

#[test]
fn expired_session_is_refreshed_and_resent_once() {
    let mut store = stored();
    let desc = DeleteMangaRating { manga_id: 9 }.descriptor();
    let expired = error_body(401, "Unauthorized", "Token expired");
    let answers = vec![
        Event::Response(expired),
        Event::Response(token_body("newsession", "newrefresh")),
        Event::Response(ok_body()),
    ];
    let (res, calls) = drive(&desc, &mut store, answers);
    assert_eq!(res, Ok(ok_body()));
    assert_eq!(calls.len(), 3);
    assert_eq!(calls[0], Call::Request(Some("Bearer sessiontoken".to_string())));
    match &calls[1] {
        Call::Refresh(d) => {
            assert_eq!(d.method, Method::Post);
            assert_eq!(d.path, "/auth/refresh");
            assert!(!d.auth_required);
            assert_eq!(d.content, Content::Body(obj(vec![("token", obj(vec![("refresh", s("refreshtoken"))]))])));
        },
        other => panic!("expected a refresh, got {:?}", other),
    }
    assert_eq!(calls[2], Call::Request(Some("Bearer newsession".to_string())));
    assert_eq!(
        store.get(),
        Some(AuthTokens { session: "newsession".to_string(), refresh: "newrefresh".to_string() })
    );
}

#[test]
fn second_expiry_after_refresh_is_returned_without_retry() {
    let mut store = stored();
    let desc = DeleteMangaRating { manga_id: 9 }.descriptor();
    let answers = vec![
        Event::Response(error_body(401, "Unauthorized", "Token expired")),
        Event::Response(token_body("newsession", "newrefresh")),
        Event::Response(error_body(401, "Unauthorized", "Still expired")),
    ];
    let (res, calls) = drive(&desc, &mut store, answers);
    assert_eq!(calls.len(), 3);
    match res {
        Err(DispatchError::Api(es)) => assert_eq!(es[0].detail, Some("Still expired".to_string())),
        other => panic!("expected the second failure, got {:?}", other),
    }
}

#[test]
fn failed_refresh_keeps_store_and_reports_both_failures() {
    let mut store = stored();
    let desc = DeleteMangaRating { manga_id: 9 }.descriptor();
    let answers = vec![
        Event::Response(error_body(401, "Unauthorized", "Token expired")),
        Event::Response(error_body(401, "Unauthorized", "Refresh token invalid")),
    ];
    let (res, calls) = drive(&desc, &mut store, answers);
    assert_eq!(calls.len(), 2);
    match res {
        Err(DispatchError::RefreshFailed { original, cause: RefreshFailure::Api(es) }) => {
            assert_eq!(original[0].detail, Some("Token expired".to_string()));
            assert_eq!(es[0].detail, Some("Refresh token invalid".to_string()));
        },
        other => panic!("expected a refresh failure, got {:?}", other),
    }
    assert_eq!(
        store.get(),
        Some(AuthTokens { session: "sessiontoken".to_string(), refresh: "refreshtoken".to_string() })
    );
}

#[test]
fn expired_session_on_unauthenticated_operation_is_not_refreshed() {
    let mut store = stored();
    let desc = RecoverAccount { email: "a@b.c".to_string() }.descriptor();
    let (res, calls) = drive(&desc, &mut store, vec![Event::Response(error_body(401, "x", "y"))]);
    assert_eq!(calls, vec![Call::Request(None)]);
    assert!(matches!(res, Err(DispatchError::Api(_))));
}

#[test]
fn transport_failure_is_not_retried() {
    let mut store = stored();
    let desc = DeleteMangaRating { manga_id: 9 }.descriptor();
    let (res, calls) =
        drive(&desc, &mut store, vec![Event::TransportFailed("connection refused".to_string())]);
    assert_eq!(calls.len(), 1);
    assert_eq!(res, Err(DispatchError::Transport("connection refused".to_string())));
}

#[test]
fn unreadable_body_is_a_decode_error() {
    let mut store = stored();
    let desc = DeleteMangaRating { manga_id: 9 }.descriptor();
    let (res, _) = drive(&desc, &mut store, vec![Event::Unreadable]);
    assert_eq!(res, Err(DispatchError::Decode(mangadex_api::envelope::DecodeError::NotJson)));
}

#[test]
fn list_user_query_keeps_field_order() {
    let desc = ListUser {
        limit: Some(10),
        offset: Some(20),
        user_ids: vec![1, 2],
        username: Some("holo".to_string()),
    }
    .descriptor();
    let q = |k: &str, v: QueryValue| (k.to_string(), v);
    assert_eq!(
        desc.content,
        Content::Query(vec![
            q("limit", QueryValue::Number(10)),
            q("offset", QueryValue::Number(20)),
            q("ids[]", QueryValue::Text("00000000-0000-0000-0000-000000000001".to_string())),
            q("ids[]", QueryValue::Text("00000000-0000-0000-0000-000000000002".to_string())),
            q("username", QueryValue::Text("holo".to_string())),
        ])
    );
}

#[test]
fn settings_body_lists_each_setting() {
    let desc = CreateOrUpdateUserSettings {
        settings: vec![("theme".to_string(), "dark".to_string()), ("lang".to_string(), "en".to_string())],
        updated_at: "2021-01-01T00:00:00".to_string(),
    }
    .descriptor();
    assert!(desc.auth_required);
    assert_eq!(
        desc.content,
        Content::Body(obj(vec![
            ("settings", obj(vec![("theme", s("dark")), ("lang", s("en"))])),
            ("updatedAt", s("2021-01-01T00:00:00")),
        ]))
    );
}

#[test]
fn error_id_is_parsed_from_text() {
    let e: ApiError = match mangadex_api::envelope::decode_api_error(&obj(vec![
        ("id", s(ERROR_ID_TEXT)),
        ("status", Json::Int(403)),
        ("title", Json::Null),
    ])) {
        Some(e) => e,
        None => panic!("should decode"),
    };
    assert_eq!(e, ApiError { id: ERROR_ID, status: 403, title: None, detail: None });
}
