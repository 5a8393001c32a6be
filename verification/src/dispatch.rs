//! The fetch dispatcher: the one choke point that turns a transport outcome
//! into a typed result. The transport itself is behind the `Fetch` trait;
//! everything from the HTTP status decision to the record decode is verified.
use vstd::prelude::*;

use crate::error::Error;
use crate::json::spec_parse_json;
use crate::json::Json;
use crate::json::parse_json;
use crate::numbers::parse_i32;
use crate::numbers::spec_parse_i32;
use crate::spec_is_success_status;
use crate::is_success_status;
use crate::types::Request;

verus! {

/// What one attempted HTTP round trip came back with: a reply with its status
/// code and raw body text, or a transport failure with its cause.
pub enum Outcome {
    Reply(u16, String),
    Failure(String),
}

/// A response record that decodes from a JSON document. Each implementation
/// is verified: `json_wf` says which documents have the record's shape, and
/// `of_json` says that a decoded value carries exactly the fields read from
/// the document.
pub trait FromJson: Sized {
    /// Whether `j` has the shape this record requires.
    spec fn json_wf(j: Json) -> bool;

    /// Whether `self` holds exactly what a decode of `j` reads.
    spec fn of_json(self, j: Json) -> bool;

    /// Decodes `j`; fails with a decode error exactly on documents without
    /// the record's shape.
    fn from_json(j: &Json) -> (r: Result<Self, Error>)
        ensures
            r is Ok <==> Self::json_wf(*j),
            r matches Ok(v) ==> v.of_json(*j),
            r matches Err(e) ==> e is Decode,
    ;
}

/// Whether every element of `elems` has `T`'s shape.
pub open spec fn spec_array_wf<T: FromJson>(elems: Seq<Json>) -> bool {
    forall|i: int| 0 <= i < elems.len() ==> T::json_wf(#[trigger] elems[i])
}

/// Whether `items` decodes `elems` element by element.
pub open spec fn spec_array_of<T: FromJson>(items: Seq<T>, elems: Seq<Json>) -> bool {
    &&& items.len() == elems.len()
    &&& forall|i: int| 0 <= i < elems.len() ==> (#[trigger] items[i]).of_json(elems[i])
}

/// Decodes every element of a JSON array into a record, failing on the first
/// element without the record's shape.
pub fn decode_array<T: FromJson>(elems: &Vec<Json>) -> (r: Result<Vec<T>, Error>)
    ensures
        r is Ok <==> spec_array_wf::<T>(elems@),
        r matches Ok(v) ==> spec_array_of::<T>(v@, elems@),
        r matches Err(e) ==> e is Decode,
{
    let mut out: Vec<T> = Vec::new();
    let mut i: usize = 0;
    while i < elems.len()
        invariant
            0 <= i <= elems@.len(),
            out@.len() == i,
            forall|k: int| 0 <= k < i ==> T::json_wf(#[trigger] elems@[k]),
            forall|k: int| 0 <= k < i ==> (#[trigger] out@[k]).of_json(elems@[k]),
        decreases elems@.len() - i,
    {
        match T::from_json(&elems[i]) {
            Ok(v) => {
                out.push(v);
            },
            Err(e) => {
                return Err(e);
            },
        }
        i = i + 1;
    }
    Ok(out)
}

/// Whether every element of `elems` is a number whose text denotes an `i32`.
pub open spec fn spec_i32_array_wf(elems: Seq<Json>) -> bool {
    forall|i: int|
        0 <= i < elems.len() ==> ((#[trigger] elems[i]) matches Json::Number(t)
            && spec_parse_i32(t@) is Some)
}

/// Whether `items` reads `elems` number by number.
pub open spec fn spec_i32_array_of(items: Seq<i32>, elems: Seq<Json>) -> bool {
    &&& items.len() == elems.len()
    &&& forall|i: int|
        0 <= i < elems.len() ==> ((#[trigger] elems[i]) matches Json::Number(t)
            && spec_parse_i32(t@) == Some(items[i]))
}

/// Decodes a JSON array of numbers into integers, failing on the first
/// element that is not a number denoting an `i32`.
pub fn decode_i32_array(elems: &Vec<Json>) -> (r: Result<Vec<i32>, Error>)
    ensures
        r is Ok <==> spec_i32_array_wf(elems@),
        r matches Ok(v) ==> spec_i32_array_of(v@, elems@),
        r matches Err(e) ==> e is Decode,
{
    let mut out: Vec<i32> = Vec::new();
    let mut i: usize = 0;
    while i < elems.len()
        invariant
            0 <= i <= elems@.len(),
            out@.len() == i,
            forall|k: int|
                0 <= k < i ==> ((#[trigger] elems@[k]) matches Json::Number(t) && spec_parse_i32(
                    t@,
                ) == Some(out@[k])),
        decreases elems@.len() - i,
    {
        let v = match &elems[i] {
            Json::Number(t) => match parse_i32(t.as_str()) {
                Some(v) => v,
                None => {
                    return Err(Error::Decode("expected an integer".to_owned()));
                },
            },
            _ => {
                return Err(Error::Decode("expected a number".to_owned()));
            },
        };
        out.push(v);
        i = i + 1;
    }
    Ok(out)
}

/// Whether every element of `elems` is a string.
pub open spec fn spec_string_array_wf(elems: Seq<Json>) -> bool {
    forall|i: int| 0 <= i < elems.len() ==> (#[trigger] elems[i]) is Str
}

/// Whether `items` reads `elems` string by string.
pub open spec fn spec_string_array_of(items: Seq<String>, elems: Seq<Json>) -> bool {
    &&& items.len() == elems.len()
    &&& forall|i: int|
        0 <= i < elems.len() ==> ((#[trigger] elems[i]) matches Json::Str(t) && items[i]@ == t@)
}

/// Decodes a JSON array of strings, failing on the first element that is not
/// a string.
pub fn decode_string_array(elems: &Vec<Json>) -> (r: Result<Vec<String>, Error>)
    ensures
        r is Ok <==> spec_string_array_wf(elems@),
        r matches Ok(v) ==> spec_string_array_of(v@, elems@),
        r matches Err(e) ==> e is Decode,
{
    let mut out: Vec<String> = Vec::new();
    let mut i: usize = 0;
    while i < elems.len()
        invariant
            0 <= i <= elems@.len(),
            out@.len() == i,
            forall|k: int|
                0 <= k < i ==> ((#[trigger] elems@[k]) matches Json::Str(t) && out@[k]@ == t@),
        decreases elems@.len() - i,
    {
        let v = match &elems[i] {
            Json::Str(t) => t.clone(),
            _ => {
                return Err(Error::Decode("expected a string".to_owned()));
            },
        };
        out.push(v);
        i = i + 1;
    }
    Ok(out)
}

/// Maps one transport outcome onto the typed result: a transport failure
/// surfaces as a network error; a non-2xx reply surfaces as an HTTP status
/// error with status and body; a 2xx reply is parsed as JSON (a grammar error
/// is a decode error carrying the raw body) and then decoded into `T`.
pub fn interpret_outcome<T: FromJson>(outcome: Outcome) -> (r: Result<T, Error>)
    ensures
        outcome matches Outcome::Failure(m) ==> (r matches Err(e) && e matches Error::Network(m2)
            && m2@ == m@),
        outcome matches Outcome::Reply(status, body) ==> (!spec_is_success_status(status) ==> (
        r matches Err(e) && e matches Error::HttpStatus(s2, b2) && s2 == status && b2@ == body@)),
        outcome matches Outcome::Reply(status, body) ==> (spec_is_success_status(status)
            ==> match spec_parse_json(body@) {
            None => r matches Err(e) && e matches Error::Decode(b) && b@ == body@,
            Some(j) => {
                &&& (r is Ok <==> T::json_wf(j))
                &&& (r matches Ok(v) ==> v.of_json(j))
                &&& (r matches Err(e) ==> e is Decode)
            },
        }),
{
    match outcome {
        Outcome::Failure(m) => Err(Error::Network(m)),
        Outcome::Reply(status, body) => {
            if !is_success_status(status) {
                Err(Error::HttpStatus(status, body))
            } else {
                match parse_json(body.as_str()) {
                    None => Err(Error::Decode(body)),
                    Some(j) => T::from_json(&j),
                }
            }
        },
    }
}

/// The ability to perform one HTTP round trip. The library's operations are
/// written once against this trait; a caller supplies the transport — a real
/// HTTP client outside the library, or a canned responder for tests.
pub trait Fetch: Sized {
    /// Performs one GET for `request`: the key goes into the service's fixed
    /// `api_key` header, the query parameters onto the URL. Exactly one
    /// attempt per call; timeouts, retries or backoff belong to the
    /// implementor, never to the library.
    fn perform(&self, request: &Request) -> Outcome;

    /// Issues `request` and decodes the reply into `T`. Whatever the
    /// transport did, an `Ok` only ever carries a faithful decode of some
    /// well-formed reply body.
    fn fetch<T: FromJson>(&self, request: Request) -> (r: Result<T, Error>)
        ensures
            r matches Ok(v) ==> exists|j: Json| T::json_wf(j) && (#[trigger] v.of_json(j)),
    {
        let outcome = self.perform(&request);
        let ghost o = outcome;
        let r = interpret_outcome::<T>(outcome);
        proof {
            if r is Ok {
                let j = spec_parse_json(o->Reply_1@)->Some_0;
                assert(T::json_wf(j) && r->Ok_0.of_json(j));
            }
        }
        r
    }
}

} // verus!
