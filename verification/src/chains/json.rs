//! The JSON documents that the chain RPC endpoints exchange, as far as the
//! clients read and write them.

use crate::error::{chain_message, Error};
use crate::text::str_equals;
use vstd::prelude::*;

verus! {

/// A JSON number, told apart the way `serde_json` stores it. The value of a
/// floating-point number is never read by the clients, so it is not kept.
#[derive(Debug, Clone, Copy, PartialEq, Eq, Structural)]
pub enum JsonNumber {
    /// A non-negative integer.
    PosInt(u64),
    /// A negative integer.
    NegInt(i64),
    /// A number with a fraction or an exponent.
    Float,
}

/// A JSON value. An object keeps its members in order; a key that occurs
/// twice is found at its first occurrence.
#[derive(Debug)]
pub enum Json {
    Null,
    Bool(bool),
    Number(JsonNumber),
    Str(String),
    Array(Vec<Json>),
    Object(Vec<(String, Json)>),
}

/// The value stored under `key` among `entries`, at its first occurrence.
pub open spec fn entry_lookup(entries: Seq<(String, Json)>, key: Seq<char>) -> Option<Json>
    decreases entries.len(),
{
    if entries.len() == 0 {
        None
    } else if entries[0].0@ == key {
        Some(entries[0].1)
    } else {
        entry_lookup(entries.drop_first(), key)
    }
}

impl Json {
    /// The member `key` of an object (`Value::get`); `None` for a missing
    /// member and for anything but an object.
    pub open spec fn field(self, key: Seq<char>) -> Option<Json> {
        match self {
            Json::Object(entries) => entry_lookup(entries@, key),
            _ => None,
        }
    }

    /// `value[key]`: the member `key`, or `Null`.
    pub open spec fn at(self, key: Seq<char>) -> Json {
        match self.field(key) {
            Some(v) => v,
            None => Json::Null,
        }
    }

    /// `Value::as_u64`.
    pub open spec fn u64_value(self) -> Option<u64> {
        match self {
            Json::Number(JsonNumber::PosInt(u)) => Some(u),
            _ => None,
        }
    }

    /// `Value::as_i64`.
    pub open spec fn i64_value(self) -> Option<i64> {
        match self {
            Json::Number(JsonNumber::PosInt(u)) => if u <= i64::MAX as u64 {
                Some(u as i64)
            } else {
                None
            },
            Json::Number(JsonNumber::NegInt(i)) => Some(i),
            _ => None,
        }
    }

    /// `Value::as_str`.
    pub open spec fn str_value(self) -> Option<Seq<char>> {
        match self {
            Json::Str(s) => Some(s@),
            _ => None,
        }
    }

    /// The length of an array (`Value::as_array` then `len`).
    pub open spec fn array_length(self) -> Option<nat> {
        match self {
            Json::Array(items) => Some(items@.len()),
            _ => None,
        }
    }

    /// The member `key` of an object, if there is one.
    pub fn get(&self, key: &str) -> (r: Option<&Json>)
        ensures
            match r {
                Some(v) => self.field(key@) == Some(*v),
                None => self.field(key@) is None,
            },
    {
        match self {
            Json::Object(entries) => {
                let n = entries.len();
                let mut i: usize = 0;
                assert(entries@.skip(0) =~= entries@);
                while i < n
                    invariant
                        n == entries@.len(),
                        self.field(key@) == entry_lookup(entries@, key@),
                        i <= n,
                        entry_lookup(entries@, key@) == entry_lookup(entries@.skip(i as int), key@),
                    decreases n - i,
                {
                    assert(entries@.skip(i as int).drop_first() =~= entries@.skip(i + 1));
                    assert(entries@.skip(i as int)[0] == entries@[i as int]);
                    if str_equals(entries[i].0.as_str(), key) {
                        return Some(&entries[i].1);
                    }
                    i = i + 1;
                }
                None
            },
            _ => None,
        }
    }

    /// `value[key]`: the member `key`, or `Null` where there is none.
    pub fn index(&self, key: &str) -> (r: &Json)
        ensures
            *r == self.at(key@),
    {
        match self.get(key) {
            Some(v) => v,
            None => &Json::Null,
        }
    }

    /// The member `key` of an object, taken out of it.
    pub fn take_field(self, key: &str) -> (r: Option<Json>)
        ensures
            r == self.field(key@),
    {
        let ghost original = self;
        match self {
            Json::Object(entries) => {
                let mut entries = entries;
                let ghost all = entries@;
                let n = entries.len();
                let mut i: usize = 0;
                assert(all.skip(0) =~= all);
                while i < n
                    invariant
                        n == entries@.len(),
                        entries@ == all,
                        original.field(key@) == entry_lookup(all, key@),
                        original == self,
                        i <= n,
                        entry_lookup(all, key@) == entry_lookup(all.skip(i as int), key@),
                    decreases n - i,
                {
                    assert(all.skip(i as int).drop_first() =~= all.skip(i + 1));
                    assert(all.skip(i as int)[0] == all[i as int]);
                    if str_equals(entries[i].0.as_str(), key) {
                        let (_, v) = entries.remove(i);
                        return Some(v);
                    }
                    i = i + 1;
                }
                None
            },
            _ => None,
        }
    }

    /// `Value::as_u64`.
    pub fn as_u64(&self) -> (r: Option<u64>)
        ensures
            r == self.u64_value(),
    {
        match self {
            Json::Number(JsonNumber::PosInt(u)) => Some(*u),
            _ => None,
        }
    }

    /// `Value::as_i64`.
    pub fn as_i64(&self) -> (r: Option<i64>)
        ensures
            r == self.i64_value(),
    {
        match self {
            Json::Number(JsonNumber::PosInt(u)) => if *u <= i64::MAX as u64 {
                Some(*u as i64)
            } else {
                None
            },
            Json::Number(JsonNumber::NegInt(i)) => Some(*i),
            _ => None,
        }
    }

    /// `Value::as_str`.
    pub fn as_str(&self) -> (r: Option<&str>)
        ensures
            match r {
                Some(s) => self.str_value() == Some(s@),
                None => self.str_value() is None,
            },
    {
        match self {
            Json::Str(s) => Some(s.as_str()),
            _ => None,
        }
    }

    /// The length of an array, if the value is one.
    pub fn array_len(&self) -> (r: Option<usize>)
        ensures
            match r {
                Some(n) => self.array_length() == Some(n as nat),
                None => self.array_length() is None,
            },
    {
        match self {
            Json::Array(items) => Some(items.len()),
            _ => None,
        }
    }

    /// A JSON string holding `s`.
    pub fn string(s: &str) -> (r: Json)
        ensures
            r.str_value() == Some(s@),
    {
        Json::Str(String::from_str(s))
    }
}

/// `r` is a JSON-RPC 2.0 request `{"jsonrpc": "2.0", "id": .., "method":
/// method, "params": ..}`.
pub open spec fn is_rpc_request(r: Json, method: Seq<char>) -> bool {
    &&& r matches Json::Object(entries)
    &&& entries@.len() == 4
    &&& entries@[0].0@ == "jsonrpc"@ && entries@[0].1.str_value() == Some("2.0"@)
    &&& entries@[1].0@ == "id"@
    &&& entries@[2].0@ == "method"@ && entries@[2].1.str_value() == Some(method)
    &&& entries@[3].0@ == "params"@
}

/// The `id` of a request that `is_rpc_request` accepts.
pub open spec fn rpc_id(r: Json) -> Json {
    match r {
        Json::Object(entries) => entries@[1].1,
        _ => Json::Null,
    }
}

/// The `params` of a request that `is_rpc_request` accepts.
pub open spec fn rpc_params(r: Json) -> Json {
    match r {
        Json::Object(entries) => entries@[3].1,
        _ => Json::Null,
    }
}

/// The items of an array; empty for anything else.
pub open spec fn array_items(j: Json) -> Seq<Json> {
    match j {
        Json::Array(items) => items@,
        _ => Seq::empty(),
    }
}

/// The JSON-RPC 2.0 request for `method` with `params`, numbered `id`.
pub fn rpc_request(id: Json, method: &str, params: Json) -> (r: Json)
    ensures
        is_rpc_request(r, method@),
        rpc_id(r) == id,
        rpc_params(r) == params,
{
    let mut entries: Vec<(String, Json)> = Vec::new();
    entries.push((String::from_str("jsonrpc"), Json::string("2.0")));
    entries.push((String::from_str("id"), id));
    entries.push((String::from_str("method"), Json::string(method)));
    entries.push((String::from_str("params"), params));
    Json::Object(entries)
}

/// What a step of a block fetch over JSON-RPC asks for next: another call,
/// with the state to resume from when its result comes; or the outcome.
pub enum RpcStep<S> {
    Call(S, Json),
    Done(Result<crate::chains::Block, Error>),
}

/// The `result` member of a JSON-RPC response; the error `missing` where the
/// response has none.
pub fn rpc_result(response: Json, missing: &str) -> (r: Result<Json, Error>)
    ensures
        match response.field("result"@) {
            Some(v) => r == Ok::<Json, Error>(v),
            None => r is Err && chain_message(r->Err_0) == Some(missing@),
        },
{
    match response.take_field("result") {
        Some(v) => Ok(v),
        None => Err(Error::chain(missing)),
    }
}

} // verus!
