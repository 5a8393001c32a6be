//! The JSON tree that response bodies decode through, with verified field
//! lookup and scalar extraction. Grammar-level parsing is delegated to
//! serde_json behind a trusted wrapper; everything that reads the tree —
//! field lookup, renames, required-field checks, integer parsing — is
//! verified here.
use vstd::prelude::*;

use crate::error::Error;
use crate::numbers::parse_i32;
use crate::numbers::spec_parse_i32;
use crate::text::str_eq;

verus! {

/// A JSON document. Numbers keep their decimal text: the library never
/// interprets a numeric field it does not expose as an integer.
pub enum Json {
    Null,
    Bool(bool),
    Number(String),
    Str(String),
    Array(Vec<Json>),
    Object(Vec<(String, Json)>),
}

#[verifier::external_type_specification]
#[verifier::external_body]
pub struct ExSerdeValue(serde_json::Value);

/// What `parse_json` returns for a given text; the result of parsing depends
/// on the text alone.
pub uninterp spec fn spec_parse_json(s: Seq<char>) -> Option<Json>;

/// Relies on `serde_json::Value` and `serde_json::Number::to_string`: maps
/// each node of a parsed document onto the library's tree, one arm per
/// variant, a number becoming its decimal text. Only `parse_json` calls this.
#[verifier::external_body]
fn json_from_value(v: serde_json::Value) -> (r: Json) {
    match v {
        serde_json::Value::Null => Json::Null,
        serde_json::Value::Bool(b) => Json::Bool(b),
        serde_json::Value::Number(n) => Json::Number(n.to_string()),
        serde_json::Value::String(s) => Json::Str(s),
        serde_json::Value::Array(a) => Json::Array(a.into_iter().map(json_from_value).collect()),
        serde_json::Value::Object(o) => Json::Object(
            o.into_iter().map(|(k, x)| (k, json_from_value(x))).collect(),
        ),
    }
}

/// Relies on `serde_json::from_str::<serde_json::Value>`: parses JSON text,
/// deterministically in the text alone; `None` reports a grammar error.
#[verifier::external_body]
pub(crate) fn parse_json(s: &str) -> (r: Option<Json>)
    ensures
        r == spec_parse_json(s@),
{
    match serde_json::from_str::<serde_json::Value>(s) {
        Ok(v) => Some(json_from_value(v)),
        Err(_) => None,
    }
}

/// The value under `key` in an object's field list: the first binding whose
/// name matches, as upstream objects never repeat a name.
pub open spec fn spec_field(fields: Seq<(String, Json)>, key: Seq<char>) -> Option<Json>
    decreases fields.len(),
{
    if fields.len() == 0 {
        None
    } else if fields[0].0@ == key {
        Some(fields[0].1)
    } else {
        spec_field(fields.drop_first(), key)
    }
}

/// Looks `key` up in an object's field list.
pub fn field<'a>(fields: &'a Vec<(String, Json)>, key: &str) -> (r: Option<&'a Json>)
    ensures
        match r {
            Some(j) => spec_field(fields@, key@) == Some(*j),
            None => spec_field(fields@, key@) is None,
        },
{
    let mut i: usize = 0;
    proof {
        assert(fields@.skip(0) =~= fields@);
    }
    while i < fields.len()
        invariant
            0 <= i <= fields@.len(),
            spec_field(fields@.skip(i as int), key@) == spec_field(fields@, key@),
        decreases fields@.len() - i,
    {
        if str_eq(fields[i].0.as_str(), key) {
            proof {
                assert(fields@.skip(i as int)[0] == fields@[i as int]);
            }
            return Some(&fields[i].1);
        }
        proof {
            assert(fields@.skip(i as int).drop_first() =~= fields@.skip(i as int + 1));
        }
        i = i + 1;
    }
    proof {
        assert(fields@.skip(i as int).len() == 0);
    }
    None
}

/// A decode failure naming the field that was missing or malformed.
pub fn field_error(key: &str) -> (r: Error)
    ensures
        r is Decode,
{
    let mut msg = "missing or malformed field: ".to_owned();
    msg.append(key);
    Error::Decode(msg)
}

/// A required string field.
pub open spec fn spec_string_field(fields: Seq<(String, Json)>, key: Seq<char>) -> Option<
    Seq<char>,
> {
    match spec_field(fields, key) {
        Some(Json::Str(s)) => Some(s@),
        _ => None,
    }
}

/// Reads a required string field.
pub fn string_field(fields: &Vec<(String, Json)>, key: &str) -> (r: Result<String, Error>)
    ensures
        r is Ok <==> spec_string_field(fields@, key@) is Some,
        r matches Ok(s) ==> spec_string_field(fields@, key@) == Some(s@),
        r matches Err(e) ==> e is Decode,
{
    match field(fields, key) {
        Some(Json::Str(s)) => Ok(s.clone()),
        _ => Err(field_error(key)),
    }
}

/// An optional string field: absent or null reads as `None`; any other
/// non-string shape is malformed.
pub open spec fn spec_opt_string_field(fields: Seq<(String, Json)>, key: Seq<char>) -> Option<
    Option<Seq<char>>,
> {
    match spec_field(fields, key) {
        None => Some(None),
        Some(Json::Null) => Some(None),
        Some(Json::Str(s)) => Some(Some(s@)),
        _ => None,
    }
}

/// Reads an optional string field.
pub fn opt_string_field(fields: &Vec<(String, Json)>, key: &str) -> (r: Result<
    Option<String>,
    Error,
>)
    ensures
        r is Ok <==> spec_opt_string_field(fields@, key@) is Some,
        r matches Ok(v) ==> spec_opt_string_field(fields@, key@) == Some(
            match v {
                Some(s) => Some(s@),
                None => None,
            },
        ),
        r matches Err(e) ==> e is Decode,
{
    match field(fields, key) {
        None => Ok(None),
        Some(Json::Null) => Ok(None),
        Some(Json::Str(s)) => Ok(Some(s.clone())),
        _ => Err(field_error(key)),
    }
}

/// A required numeric field, kept as its decimal text.
pub open spec fn spec_number_field(fields: Seq<(String, Json)>, key: Seq<char>) -> Option<
    Seq<char>,
> {
    match spec_field(fields, key) {
        Some(Json::Number(s)) => Some(s@),
        _ => None,
    }
}

/// Reads a required numeric field as its decimal text.
pub fn number_field(fields: &Vec<(String, Json)>, key: &str) -> (r: Result<String, Error>)
    ensures
        r is Ok <==> spec_number_field(fields@, key@) is Some,
        r matches Ok(s) ==> spec_number_field(fields@, key@) == Some(s@),
        r matches Err(e) ==> e is Decode,
{
    match field(fields, key) {
        Some(Json::Number(s)) => Ok(s.clone()),
        _ => Err(field_error(key)),
    }
}

/// An optional numeric field, kept as its decimal text.
pub open spec fn spec_opt_number_field(fields: Seq<(String, Json)>, key: Seq<char>) -> Option<
    Option<Seq<char>>,
> {
    match spec_field(fields, key) {
        None => Some(None),
        Some(Json::Null) => Some(None),
        Some(Json::Number(s)) => Some(Some(s@)),
        _ => None,
    }
}

/// Reads an optional numeric field as its decimal text.
pub fn opt_number_field(fields: &Vec<(String, Json)>, key: &str) -> (r: Result<
    Option<String>,
    Error,
>)
    ensures
        r is Ok <==> spec_opt_number_field(fields@, key@) is Some,
        r matches Ok(v) ==> spec_opt_number_field(fields@, key@) == Some(
            match v {
                Some(s) => Some(s@),
                None => None,
            },
        ),
        r matches Err(e) ==> e is Decode,
{
    match field(fields, key) {
        None => Ok(None),
        Some(Json::Null) => Ok(None),
        Some(Json::Number(s)) => Ok(Some(s.clone())),
        _ => Err(field_error(key)),
    }
}

/// A required integer field: a number whose decimal text denotes an `i32`.
pub open spec fn spec_i32_field(fields: Seq<(String, Json)>, key: Seq<char>) -> Option<i32> {
    match spec_number_field(fields, key) {
        Some(t) => spec_parse_i32(t),
        None => None,
    }
}

/// Reads a required integer field.
pub fn i32_field(fields: &Vec<(String, Json)>, key: &str) -> (r: Result<i32, Error>)
    ensures
        r is Ok <==> spec_i32_field(fields@, key@) is Some,
        r matches Ok(v) ==> spec_i32_field(fields@, key@) == Some(v),
        r matches Err(e) ==> e is Decode,
{
    let t = match number_field(fields, key) {
        Ok(v) => v,
        Err(e) => {
            return Err(e);
        },
    };
    match parse_i32(t.as_str()) {
        Some(v) => Ok(v),
        None => Err(field_error(key)),
    }
}

/// A required array field.
pub open spec fn spec_array_field(fields: Seq<(String, Json)>, key: Seq<char>) -> Option<
    Seq<Json>,
> {
    match spec_field(fields, key) {
        Some(Json::Array(a)) => Some(a@),
        _ => None,
    }
}

/// Reads a required array field.
pub fn array_field<'a>(fields: &'a Vec<(String, Json)>, key: &str) -> (r: Result<
    &'a Vec<Json>,
    Error,
>)
    ensures
        r is Ok <==> spec_array_field(fields@, key@) is Some,
        r matches Ok(a) ==> spec_array_field(fields@, key@) == Some(a@),
        r matches Err(e) ==> e is Decode,
{
    match field(fields, key) {
        Some(Json::Array(a)) => Ok(a),
        _ => Err(field_error(key)),
    }
}

/// A required object-valued field.
pub open spec fn spec_object_field(fields: Seq<(String, Json)>, key: Seq<char>) -> Option<Json> {
    match spec_field(fields, key) {
        Some(j) => if j is Object {
            Some(j)
        } else {
            None
        },
        _ => None,
    }
}

/// Reads a required object-valued field.
pub fn object_field<'a>(fields: &'a Vec<(String, Json)>, key: &str) -> (r: Result<
    &'a Json,
    Error,
>)
    ensures
        r is Ok <==> spec_object_field(fields@, key@) is Some,
        r matches Ok(j) ==> spec_object_field(fields@, key@) == Some(*j),
        r matches Err(e) ==> e is Decode,
{
    match field(fields, key) {
        Some(j) => if matches!(j, Json::Object(_)) {
            Ok(j)
        } else {
            Err(field_error(key))
        },
        None => Err(field_error(key)),
    }
}

} // verus!
