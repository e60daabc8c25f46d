//! The operations of the API that this library defines; each one only
//! produces a descriptor.

use vstd::prelude::*;
use vstd::string::StringExecFns;
use crate::descriptor::{query_model, Content, Descriptor, Method, ParamModel, QueryValue};
use crate::ids::{uuid_text, uuid_to_text};
use crate::envelope::members;
use crate::json::{str_is, Json};

verus! {

/// The members of a JSON object body.
pub open spec fn body_members(c: Content) -> Option<Seq<(String, Json)>> {
    match c {
        Content::Body(Json::Object(ms)) => Some(ms@),
        _ => None,
    }
}

/// Path of an operation on one identified resource: `prefix` then the id.
pub open spec fn id_path(prefix: Seq<char>, id: u128) -> Seq<char> {
    prefix + uuid_text(id)
}

/// Deletes the caller's rating of a manga. Requires authentication.
#[derive(Clone, Copy, Debug, PartialEq, Eq, Structural)]
pub struct DeleteMangaRating {
    pub manga_id: u128,
}

impl DeleteMangaRating {
    pub fn descriptor(self) -> (r: Descriptor)
        ensures
            r.method == Method::Delete,
            r.path@ == id_path("/rating/"@, self.manga_id),
            r.content is Empty,
            r.auth_required,
    {
        let path = "/rating/".to_owned().concat(uuid_to_text(self.manga_id).as_str());
        Descriptor { method: Method::Delete, path, content: Content::Empty, auth_required: true }
    }
}

/// Abandons an upload session. Requires authentication.
#[derive(Clone, Copy, Debug, PartialEq, Eq, Structural)]
pub struct AbandonUploadSession {
    pub session_id: u128,
}

impl AbandonUploadSession {
    pub fn descriptor(self) -> (r: Descriptor)
        ensures
            r.method == Method::Delete,
            r.path@ == id_path("/upload/"@, self.session_id),
            r.content is Empty,
            r.auth_required,
    {
        let path = "/upload/".to_owned().concat(uuid_to_text(self.session_id).as_str());
        Descriptor { method: Method::Delete, path, content: Content::Empty, auth_required: true }
    }
}

/// Starts account recovery for an e-mail address. No authentication.
#[derive(Clone, Debug, PartialEq, Eq)]
pub struct RecoverAccount {
    pub email: String,
}

impl RecoverAccount {
    /// The body is `{"email": <email>}`.
    pub fn descriptor(self) -> (r: Descriptor)
        ensures
            r.method == Method::Post,
            r.path@ == "/account/recover"@,
            body_members(r.content) matches Some(ms) && ms.len() == 1 && ms[0].0@ == "email"@
                && str_is(ms[0].1, self.email@),
            !r.auth_required,
    {
        let mut ms: Vec<(String, Json)> = Vec::new();
        ms.push(("email".to_owned(), Json::Str(self.email)));
        Descriptor {
            method: Method::Post,
            path: "/account/recover".to_owned(),
            content: Content::Body(Json::Object(ms)),
            auth_required: false,
        }
    }
}

/// Creates or replaces the caller's settings. Requires authentication.
#[derive(Clone, Debug, PartialEq, Eq)]
pub struct CreateOrUpdateUserSettings {
    /// Setting names and values, in the order they are sent.
    pub settings: Vec<(String, String)>,
    /// Time of the update, as the API writes a date and time.
    pub updated_at: String,
}

/// `ms` is the object of string members that `kv` lists, in order.
pub open spec fn text_object(ms: Seq<(String, Json)>, kv: Seq<(String, String)>) -> bool {
    &&& ms.len() == kv.len()
    &&& forall|i: int|
        0 <= i < kv.len() ==> (#[trigger] ms[i]).0@ == kv[i].0@ && str_is(ms[i].1, kv[i].1@)
}

/// `v` is an object of string members that `kv` lists, in order.
pub open spec fn text_object_json(v: Json, kv: Seq<(String, String)>) -> bool {
    match members(v) {
        Some(ms) => text_object(ms, kv),
        None => false,
    }
}

impl CreateOrUpdateUserSettings {
    /// The body is `{"settings": {<name>: <value>, ..}, "updatedAt": <time>}`.
    pub fn descriptor(self) -> (r: Descriptor)
        ensures
            r.method == Method::Post,
            r.path@ == "/settings"@,
            body_members(r.content) matches Some(ms) && ms.len() == 2 && ms[0].0@ == "settings"@
                && text_object_json(ms[0].1, self.settings@) && ms[1].0@ == "updatedAt"@
                && str_is(ms[1].1, self.updated_at@),
            r.auth_required,
    {
        let ghost kv = self.settings@;
        let mut sm: Vec<(String, Json)> = Vec::new();
        let mut i: usize = 0;
        while i < self.settings.len()
            invariant
                0 <= i <= self.settings.len(),
                kv == self.settings@,
                text_object(sm@, kv.subrange(0, i as int)),
            decreases self.settings.len() - i,
        {
            let k = self.settings[i].0.clone();
            let v = self.settings[i].1.clone();
            sm.push((k, Json::Str(v)));
            i = i + 1;
        }
        assert(kv.subrange(0, kv.len() as int) =~= kv);
        let mut ms: Vec<(String, Json)> = Vec::new();
        ms.push(("settings".to_owned(), Json::Object(sm)));
        ms.push(("updatedAt".to_owned(), Json::Str(self.updated_at)));
        Descriptor {
            method: Method::Post,
            path: "/settings".to_owned(),
            content: Content::Body(Json::Object(ms)),
            auth_required: true,
        }
    }
}

/// Lists users. Requires authentication.
#[derive(Clone, Debug, PartialEq, Eq, Default)]
pub struct ListUser {
    pub limit: Option<u32>,
    pub offset: Option<u32>,
    pub user_ids: Vec<u128>,
    pub username: Option<String>,
}

pub open spec fn number_param(key: Seq<char>, v: Option<u32>) -> Seq<(Seq<char>, ParamModel)> {
    match v {
        Some(n) => seq![(key, ParamModel::Number(n))],
        None => seq![],
    }
}

/// The query of a user listing: `limit`, `offset`, one `ids[]` per id, `username`,
/// each only where it is set.
pub open spec fn list_user_query(l: ListUser) -> Seq<(Seq<char>, ParamModel)> {
    number_param("limit"@, l.limit) + number_param("offset"@, l.offset)
        + l.user_ids@.map_values(|id: u128| ("ids[]"@, ParamModel::Text(uuid_text(id))))
        + match l.username {
            Some(u) => seq![("username"@, ParamModel::Text(u@))],
            None => seq![],
        }
}

impl ListUser {
    pub fn descriptor(self) -> (r: Descriptor)
        ensures
            r.method == Method::Get,
            r.path@ == "/user"@,
            r.content matches Content::Query(q) && query_model(q@) == list_user_query(self),
            r.auth_required,
    {
        let ghost l = self;
        let mut q: Vec<(String, QueryValue)> = Vec::new();
        if let Some(n) = self.limit {
            q.push(("limit".to_owned(), QueryValue::Number(n)));
        }
        if let Some(n) = self.offset {
            q.push(("offset".to_owned(), QueryValue::Number(n)));
        }
        let ghost head = number_param("limit"@, l.limit) + number_param("offset"@, l.offset);
        assert(query_model(q@) =~= head);
        let mut i: usize = 0;
        while i < self.user_ids.len()
            invariant
                0 <= i <= self.user_ids.len(),
                l.user_ids@ == self.user_ids@,
                query_model(q@) =~= head + self.user_ids@.subrange(0, i as int).map_values(
                    |id: u128| ("ids[]"@, ParamModel::Text(uuid_text(id))),
                ),
            decreases self.user_ids.len() - i,
        {
            let text = uuid_to_text(self.user_ids[i]);
            let ghost before = q@;
            q.push(("ids[]".to_owned(), QueryValue::Text(text)));
            assert(self.user_ids@.subrange(0, i + 1) =~= self.user_ids@.subrange(0, i as int).push(self.user_ids@[i as int]));
            assert(query_model(q@) =~= query_model(before).push(query_model(q@).last()));
            i = i + 1;
        }
        assert(self.user_ids@.subrange(0, self.user_ids@.len() as int) =~= self.user_ids@);
        let ghost mid = q@;
        if let Some(u) = self.username {
            q.push(("username".to_owned(), QueryValue::Text(u)));
            assert(query_model(q@) =~= query_model(mid).push(query_model(q@).last()));
        }
        assert(query_model(q@) =~= list_user_query(l));
        Descriptor {
            method: Method::Get,
            path: "/user".to_owned(),
            content: Content::Query(q),
            auth_required: true,
        }
    }
}

} // verus!
