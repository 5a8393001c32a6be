//! The request value that every operation builds: an API key, an endpoint
//! path, and optional ordered query parameters.
use vstd::prelude::*;

use crate::text::decimal_string;
use crate::text::spec_decimal;

verus! {

/// The mathematical content of a `Request`: its key, path and query as
/// character sequences.
pub ghost struct ReqModel {
    pub api_key: Seq<char>,
    pub path: Seq<char>,
    pub query: Option<Seq<(Seq<char>, Seq<char>)>>,
}

/// The query parameters of a request, as character sequences in order.
pub open spec fn spec_query_model(query: Option<Vec<(String, String)>>) -> Option<
    Seq<(Seq<char>, Seq<char>)>,
> {
    match query {
        None => None,
        Some(q) => Some(q@.map_values(|p: (String, String)| (p.0@, p.1@))),
    }
}

/// One upstream call: an API key, an endpoint path, and ordered query
/// parameters. Immutable once built; the parameter order mirrors the order
/// the upstream interface documents.
pub struct Request {
    pub api_key: String,
    pub path: String,
    pub query: Option<Vec<(String, String)>>,
}

impl Request {
    /// The request's content, for contracts.
    pub open spec fn model(&self) -> ReqModel {
        ReqModel {
            api_key: self.api_key@,
            path: self.path@,
            query: spec_query_model(self.query),
        }
    }

    /// Builds a request from its parts.
    pub fn new(api_key: String, path: String, query: Option<Vec<(String, String)>>) -> (r:
        Request)
        ensures
            r.model() == (ReqModel {
                api_key: api_key@,
                path: path@,
                query: spec_query_model(query),
            }),
    {
        Request { api_key, path, query }
    }
}

/// A radius in meters around a point, for entrance searches. The coordinates
/// are carried as the decimal text that goes into the query, which the
/// library never interprets.
pub struct RadiusAtLatLong {
    /// Radius (in meters) around the point.
    pub radius: u32,
    /// Latitude of the point, as decimal text.
    pub latitude: String,
    /// Longitude of the point, as decimal text.
    pub longitude: String,
}

impl RadiusAtLatLong {
    /// The query parameters this point contributes.
    pub open spec fn spec_query(&self) -> Seq<(Seq<char>, Seq<char>)> {
        seq![
            ("Radius"@, spec_decimal(self.radius as nat)),
            ("Lat"@, self.latitude@),
            ("Lon"@, self.longitude@),
        ]
    }

    /// Constructor for a point with a radius in meters.
    pub fn new(radius: u32, latitude: String, longitude: String) -> (r: RadiusAtLatLong)
        ensures
            r.radius == radius,
            r.latitude@ == latitude@,
            r.longitude@ == longitude@,
    {
        RadiusAtLatLong { radius, latitude, longitude }
    }

    /// The ordered query parameters for this point: `Radius`, `Lat`, `Lon`.
    pub fn to_query(&self) -> (r: Vec<(String, String)>)
        ensures
            spec_query_model(Some(r)) == Some(self.spec_query()),
    {
        let mut q: Vec<(String, String)> = Vec::new();
        q.push(("Radius".to_owned(), decimal_string(self.radius as u64)));
        q.push(("Lat".to_owned(), self.latitude.clone()));
        q.push(("Lon".to_owned(), self.longitude.clone()));
        proof {
            assert(q@.map_values(|p: (String, String)| (p.0@, p.1@)) =~= self.spec_query());
        }
        q
    }
}

} // verus!
