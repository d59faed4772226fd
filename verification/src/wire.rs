//! The structured wire values this layer frames for the remote transport.
//!
//! A `Json` value models one message payload: an object of key/value pairs,
//! an array, a string, a number, a boolean, or an opaque payload supplied by
//! another subsystem and carried through untouched. Absent optional fields
//! are omitted from an object entirely, never encoded as null, so the model
//! has no null variant.

use vstd::prelude::*;
use vstd::string::StringExecFns;

verus! {

/// One structured wire value.
#[derive(Debug, PartialEq)]
pub enum Json {
    Object(Vec<(String, Json)>),
    Array(Vec<Json>),
    Str(String),
    UInt(u64),
    Int(i64),
    Bool(bool),
    Payload(serde_json::Value),
}

/// The key/value entries of an object, in emission order; empty for any
/// other wire value.
pub open spec fn obj_entries(j: Json) -> Seq<(String, Json)> {
    match j {
        Json::Object(fields) => fields@,
        _ => Seq::empty(),
    }
}

/// The key of entry `i` of an object.
pub open spec fn entry_key(j: Json, i: int) -> Seq<char> {
    obj_entries(j)[i].0@
}

/// The value of entry `i` of an object.
pub open spec fn entry_val(j: Json, i: int) -> Json {
    obj_entries(j)[i].1
}

/// Whether an object carries an entry under key `k`.
pub open spec fn has_key(j: Json, k: Seq<char>) -> bool {
    exists|i: int| 0 <= i < obj_entries(j).len() && entry_key(j, i) == k
}

/// Whether `j` is the string `s`.
pub open spec fn is_str(j: Json, s: Seq<char>) -> bool {
    j matches Json::Str(t) && t@ == s
}

/// Whether `j` is an array holding exactly the opaque payloads `vs`, in order.
pub open spec fn is_payload_seq(j: Json, vs: Seq<serde_json::Value>) -> bool {
    &&& j matches Json::Array(items)
    &&& items@.len() == vs.len()
    &&& forall|i: int| 0 <= i < vs.len() ==> items@[i] == Json::Payload(vs[i])
}

/// Whether `j` is an array holding exactly the strings `ss`, in order.
pub open spec fn is_str_seq(j: Json, ss: Seq<Seq<char>>) -> bool {
    &&& j matches Json::Array(items)
    &&& items@.len() == ss.len()
    &&& forall|i: int| 0 <= i < ss.len() ==> is_str(items@[i], ss[i])
}

/// A string wire value.
pub fn jstr(s: &str) -> (r: Json)
    ensures
        is_str(r, s@),
{
    Json::Str(String::from_str(s))
}

/// An array of opaque payloads, cloned from `vs` in order.
pub fn payload_array(vs: &Vec<serde_json::Value>) -> (r: Json)
    ensures
        is_payload_seq(r, vs@),
{
    let mut items: Vec<Json> = Vec::new();
    let mut i: usize = 0;
    while i < vs.len()
        invariant
            i <= vs.len(),
            items@.len() == i,
            forall|k: int| 0 <= k < i ==> items@[k] == Json::Payload(vs@[k]),
        decreases vs.len() - i,
    {
        items.push(Json::Payload(vs[i].clone()));
        i = i + 1;
    }
    Json::Array(items)
}

/// An array of strings, cloned from `ss` in order.
pub fn str_array(ss: &Vec<String>) -> (r: Json)
    ensures
        is_str_seq(r, ss@.map_values(|s: String| s@)),
{
    let mut items: Vec<Json> = Vec::new();
    let mut i: usize = 0;
    while i < ss.len()
        invariant
            i <= ss.len(),
            items@.len() == i,
            forall|k: int| 0 <= k < i ==> is_str(items@[k], ss@[k]@),
        decreases ss.len() - i,
    {
        items.push(Json::Str(ss[i].clone()));
        i = i + 1;
    }
    Json::Array(items)
}

/// An object of one entry.
pub fn obj1(k1: &str, v1: Json) -> (r: Json)
    ensures
        obj_entries(r).len() == 1,
        entry_key(r, 0) == k1@,
        entry_val(r, 0) == v1,
{
    let mut fields: Vec<(String, Json)> = Vec::new();
    fields.push((String::from_str(k1), v1));
    Json::Object(fields)
}

/// An object of two entries, in the given order.
pub fn obj2(k1: &str, v1: Json, k2: &str, v2: Json) -> (r: Json)
    ensures
        obj_entries(r).len() == 2,
        entry_key(r, 0) == k1@,
        entry_val(r, 0) == v1,
        entry_key(r, 1) == k2@,
        entry_val(r, 1) == v2,
{
    let mut fields: Vec<(String, Json)> = Vec::new();
    fields.push((String::from_str(k1), v1));
    fields.push((String::from_str(k2), v2));
    Json::Object(fields)
}

/// An object of three entries, in the given order.
pub fn obj3(k1: &str, v1: Json, k2: &str, v2: Json, k3: &str, v3: Json) -> (r: Json)
    ensures
        obj_entries(r).len() == 3,
        entry_key(r, 0) == k1@,
        entry_val(r, 0) == v1,
        entry_key(r, 1) == k2@,
        entry_val(r, 1) == v2,
        entry_key(r, 2) == k3@,
        entry_val(r, 2) == v3,
{
    let mut fields: Vec<(String, Json)> = Vec::new();
    fields.push((String::from_str(k1), v1));
    fields.push((String::from_str(k2), v2));
    fields.push((String::from_str(k3), v3));
    Json::Object(fields)
}

/// An object of five entries, in the given order.
pub fn obj5(
    k1: &str,
    v1: Json,
    k2: &str,
    v2: Json,
    k3: &str,
    v3: Json,
    k4: &str,
    v4: Json,
    k5: &str,
    v5: Json,
) -> (r: Json)
    ensures
        obj_entries(r).len() == 5,
        entry_key(r, 0) == k1@,
        entry_val(r, 0) == v1,
        entry_key(r, 1) == k2@,
        entry_val(r, 1) == v2,
        entry_key(r, 2) == k3@,
        entry_val(r, 2) == v3,
        entry_key(r, 3) == k4@,
        entry_val(r, 3) == v4,
        entry_key(r, 4) == k5@,
        entry_val(r, 4) == v5,
{
    let mut fields: Vec<(String, Json)> = Vec::new();
    fields.push((String::from_str(k1), v1));
    fields.push((String::from_str(k2), v2));
    fields.push((String::from_str(k3), v3));
    fields.push((String::from_str(k4), v4));
    fields.push((String::from_str(k5), v5));
    Json::Object(fields)
}

} // verus!
