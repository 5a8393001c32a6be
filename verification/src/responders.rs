//! Canned transports. Operations are written against `Fetch`; these
//! implementors answer from fixed data, so a caller can exercise every
//! operation — and a test every decode path — without a network.
use vstd::prelude::*;

use crate::dispatch::Fetch;
use crate::dispatch::Outcome;
use crate::rail::traits::NeedsLine;
use crate::rail::traits::NeedsStation;
use crate::bus::traits::NeedsStop;
use crate::text::str_eq;
use crate::types::spec_query_model;
use crate::types::Request;

verus! {

/// Answers every request with one fixed reply.
pub struct FixedResponder {
    /// The HTTP status of the reply.
    pub status: u16,
    /// The raw body of the reply.
    pub body: String,
}

impl FixedResponder {
    /// A responder that replies with `status` and `body` to every request.
    pub fn new(status: u16, body: &str) -> (r: FixedResponder)
        ensures
            r.status == status,
            r.body@ == body@,
    {
        FixedResponder { status, body: body.to_owned() }
    }
}

impl Fetch for FixedResponder {
    fn perform(&self, request: &Request) -> (r: Outcome)
        ensures
            r == Outcome::Reply(self.status, self.body),
    {
        Outcome::Reply(self.status, self.body.clone())
    }
}

impl NeedsLine for FixedResponder {

}

impl NeedsStation for FixedResponder {

}

impl NeedsStop for FixedResponder {

}

/// Fails every request with one fixed transport error.
pub struct FailingResponder {
    /// The reported cause.
    pub message: String,
}

impl FailingResponder {
    /// A responder whose every request fails with `message`.
    pub fn new(message: &str) -> (r: FailingResponder)
        ensures
            r.message@ == message@,
    {
        FailingResponder { message: message.to_owned() }
    }
}

impl Fetch for FailingResponder {
    fn perform(&self, request: &Request) -> (r: Outcome)
        ensures
            r == Outcome::Failure(self.message),
    {
        Outcome::Failure(self.message.clone())
    }
}

impl NeedsLine for FailingResponder {

}

impl NeedsStation for FailingResponder {

}

impl NeedsStop for FailingResponder {

}

/// Whether two query parameter lists carry the same names and values in the
/// same order.
pub open spec fn spec_query_eq(
    a: Option<Seq<(Seq<char>, Seq<char>)>>,
    b: Option<Seq<(Seq<char>, Seq<char>)>>,
) -> bool {
    match (a, b) {
        (None, None) => true,
        (Some(x), Some(y)) => x =~= y,
        _ => false,
    }
}

/// Compares two query parameter lists by content.
pub fn query_eq(a: &Option<Vec<(String, String)>>, b: &Option<Vec<(String, String)>>) -> (r: bool)
    ensures
        r == spec_query_eq(spec_query_model(*a), spec_query_model(*b)),
{
    match (a, b) {
        (None, None) => true,
        (Some(x), Some(y)) => {
            let ghost xm = spec_query_model(*a)->Some_0;
            let ghost ym = spec_query_model(*b)->Some_0;
            proof {
                assert(xm.len() == x@.len() && ym.len() == y@.len());
            }
            if x.len() != y.len() {
                return false;
            }
            let mut i: usize = 0;
            while i < x.len()
                invariant
                    0 <= i <= x@.len(),
                    x@.len() == y@.len(),
                    spec_query_model(*a) == Some(xm),
                    spec_query_model(*b) == Some(ym),
                    xm.len() == x@.len(),
                    ym.len() == y@.len(),
                    forall|k: int| 0 <= k < i ==> xm[k] == ym[k],
                    xm == x@.map_values(|p: (String, String)| (p.0@, p.1@)),
                    ym == y@.map_values(|p: (String, String)| (p.0@, p.1@)),
                decreases x@.len() - i,
            {
                if !str_eq(x[i].0.as_str(), y[i].0.as_str()) || !str_eq(
                    x[i].1.as_str(),
                    y[i].1.as_str(),
                ) {
                    proof {
                        assert(xm.len() == x@.len() && ym.len() == y@.len());
                        assert(xm[i as int] == (x@[i as int].0@, x@[i as int].1@));
                        assert(ym[i as int] == (y@[i as int].0@, y@[i as int].1@));
                        assert(!(xm =~= ym)) by {
                            assert(xm[i as int] != ym[i as int]);
                        }
                    }
                    return false;
                }
                i = i + 1;
            }
            proof {
                assert(xm =~= ym);
            }
            true
        },
        _ => false,
    }
}

/// Answers with a fixed reply only when the request matches an expected key,
/// path and query; any other request fails. Lets a caller check which request
/// an operation builds.
pub struct MatchingResponder {
    /// The expected request.
    pub expect: Request,
    /// The HTTP status of the reply to a matching request.
    pub status: u16,
    /// The raw body of the reply to a matching request.
    pub body: String,
}

impl MatchingResponder {
    /// A responder that answers `status` and `body` exactly for `expect`.
    pub fn new(expect: Request, status: u16, body: &str) -> (r: MatchingResponder)
        ensures
            r.expect == expect,
            r.status == status,
            r.body@ == body@,
    {
        MatchingResponder { expect, status, body: body.to_owned() }
    }

    /// Whether a request carries the expected key, path and query.
    pub open spec fn spec_matches(&self, request: Request) -> bool {
        &&& self.expect.api_key@ == request.api_key@
        &&& self.expect.path@ == request.path@
        &&& spec_query_eq(spec_query_model(self.expect.query), spec_query_model(request.query))
    }
}

impl Fetch for MatchingResponder {
    fn perform(&self, request: &Request) -> (r: Outcome)
        ensures
            self.spec_matches(*request) ==> r == Outcome::Reply(self.status, self.body),
            !self.spec_matches(*request) ==> (r matches Outcome::Failure(m) && m@
                == "unexpected request"@),
    {
        if str_eq(self.expect.api_key.as_str(), request.api_key.as_str()) && str_eq(
            self.expect.path.as_str(),
            request.path.as_str(),
        ) && query_eq(&self.expect.query, &request.query) {
            Outcome::Reply(self.status, self.body.clone())
        } else {
            Outcome::Failure("unexpected request".to_owned())
        }
    }
}

impl NeedsLine for MatchingResponder {

}

impl NeedsStation for MatchingResponder {

}

impl NeedsStop for MatchingResponder {

}

} // verus!
