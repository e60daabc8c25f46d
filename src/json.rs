//! A JSON document as the library reads and writes it. Objects keep their
//! members in document order.

use vstd::prelude::*;

verus! {

#[derive(Debug, PartialEq)]
pub enum Json {
    Null,
    Bool(bool),
    Int(i64),
    Str(String),
    Array(Vec<Json>),
    Object(Vec<(String, Json)>),
}

/// Index of the first member at or after `i` whose key is `key`.
pub open spec fn first_key_from(ms: Seq<(String, Json)>, key: Seq<char>, i: int) -> Option<int>
    decreases ms.len() - i,
{
    if i < 0 || i >= ms.len() {
        None
    } else if ms[i].0@ == key {
        Some(i)
    } else {
        first_key_from(ms, key, i + 1)
    }
}

/// The value of the first member named `key`; a JSON object read by name.
pub open spec fn member(ms: Seq<(String, Json)>, key: Seq<char>) -> Option<Json> {
    match first_key_from(ms, key, 0) {
        Some(i) => Some(ms[i].1),
        None => None,
    }
}

/// `v` is the string `s`.
pub open spec fn str_is(v: Json, s: Seq<char>) -> bool {
    match v {
        Json::Str(x) => x@ == s,
        _ => false,
    }
}

/// Position of the first member named `key`.
pub fn find_member(ms: &Vec<(String, Json)>, key: &str) -> (r: Option<usize>)
    ensures
        match r {
            Some(i) => i < ms@.len() && first_key_from(ms@, key@, 0) == Some(i as int),
            None => first_key_from(ms@, key@, 0) is None,
        },
{
    let k = key.to_owned();
    let mut i: usize = 0;
    while i < ms.len()
        invariant
            0 <= i <= ms.len(),
            k@ == key@,
            first_key_from(ms@, key@, 0) == first_key_from(ms@, key@, i as int),
        decreases ms.len() - i,
    {
        if ms[i].0 == k {
            return Some(i);
        }
        i = i + 1;
    }
    None
}

} // verus!
