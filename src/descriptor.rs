//! What one API operation asks of the dispatch engine: verb, resolved path,
//! content and whether it must be authenticated.

use vstd::prelude::*;
use crate::json::Json;

verus! {

#[derive(Clone, Copy, Debug, PartialEq, Eq, Hash, Structural)]
pub enum Method {
    Get,
    Post,
    Put,
    Delete,
}

pub open spec fn method_text(m: Method) -> Seq<char> {
    match m {
        Method::Get => "GET"@,
        Method::Post => "POST"@,
        Method::Put => "PUT"@,
        Method::Delete => "DELETE"@,
    }
}

impl Method {
    pub fn as_str(&self) -> (r: &'static str)
        ensures
            r@ == method_text(*self),
    {
        match self {
            Method::Get => "GET",
            Method::Post => "POST",
            Method::Put => "PUT",
            Method::Delete => "DELETE",
        }
    }
}

/// One value of a query string.
#[derive(Clone, Debug, PartialEq, Eq)]
pub enum QueryValue {
    Text(String),
    Number(u32),
}

/// A query value as text-free data.
pub ghost enum ParamModel {
    Text(Seq<char>),
    Number(u32),
}

pub open spec fn param_model(v: QueryValue) -> ParamModel {
    match v {
        QueryValue::Text(s) => ParamModel::Text(s@),
        QueryValue::Number(n) => ParamModel::Number(n),
    }
}

pub open spec fn query_model(q: Seq<(String, QueryValue)>) -> Seq<(Seq<char>, ParamModel)> {
    q.map_values(|p: (String, QueryValue)| (p.0@, param_model(p.1)))
}

/// How the request carries its arguments.
#[derive(Debug, PartialEq)]
pub enum Content {
    Empty,
    Body(Json),
    Query(Vec<(String, QueryValue)>),
}

/// One request, built for a single send.
#[derive(Debug, PartialEq)]
pub struct Descriptor {
    pub method: Method,
    pub path: String,
    pub content: Content,
    pub auth_required: bool,
}

} // verus!
