//! Route keys written as `VERB_uri`.
use vstd::prelude::*;

use crate::text::{to_upper, upper_of};

verus! {

/// A verb together with its URI, one variant per verb.
#[derive(Debug)]
pub enum HTTPMethod {
    GET(String),
    POST(String),
    UPDATE(String),
    PATCH(String),
    DELETE(String),
    OPTIONS(String),
}

impl HTTPMethod {
    /// Name of the variant, which is the verb in upper case.
    pub open spec fn spec_method(&self) -> Seq<char> {
        match self {
            HTTPMethod::GET(_) => seq!['G', 'E', 'T'],
            HTTPMethod::POST(_) => seq!['P', 'O', 'S', 'T'],
            HTTPMethod::UPDATE(_) => seq!['U', 'P', 'D', 'A', 'T', 'E'],
            HTTPMethod::PATCH(_) => seq!['P', 'A', 'T', 'C', 'H'],
            HTTPMethod::DELETE(_) => seq!['D', 'E', 'L', 'E', 'T', 'E'],
            HTTPMethod::OPTIONS(_) => seq!['O', 'P', 'T', 'I', 'O', 'N', 'S'],
        }
    }

    /// The URI that the variant holds.
    pub open spec fn spec_uri(&self) -> Seq<char> {
        match self {
            HTTPMethod::GET(uri) => uri@,
            HTTPMethod::POST(uri) => uri@,
            HTTPMethod::UPDATE(uri) => uri@,
            HTTPMethod::PATCH(uri) => uri@,
            HTTPMethod::DELETE(uri) => uri@,
            HTTPMethod::OPTIONS(uri) => uri@,
        }
    }

    /// The verb, in upper case.
    pub fn method(&self) -> (r: String)
        ensures
            r@ == self.spec_method(),
    {
        proof {
            reveal_strlit("GET");
            reveal_strlit("POST");
            reveal_strlit("UPDATE");
            reveal_strlit("PATCH");
            reveal_strlit("DELETE");
            reveal_strlit("OPTIONS");
        }
        let name = match self {
            HTTPMethod::GET(_) => "GET",
            HTTPMethod::POST(_) => "POST",
            HTTPMethod::UPDATE(_) => "UPDATE",
            HTTPMethod::PATCH(_) => "PATCH",
            HTTPMethod::DELETE(_) => "DELETE",
            HTTPMethod::OPTIONS(_) => "OPTIONS",
        };
        name.to_owned()
    }

    /// A copy of the URI.
    pub fn uri(&self) -> (r: String)
        ensures
            r@ == self.spec_uri(),
    {
        match self {
            HTTPMethod::GET(uri)
            | HTTPMethod::POST(uri)
            | HTTPMethod::UPDATE(uri)
            | HTTPMethod::PATCH(uri)
            | HTTPMethod::DELETE(uri)
            | HTTPMethod::OPTIONS(uri) => uri.as_str().to_owned(),
        }
    }

    /// The route key `VERB_uri` of this value.
    pub fn to_string(&self) -> (r: String)
        ensures
            r@ == upper_of(self.spec_method()) + seq!['_'] + self.spec_uri(),
    {
        let m = self.method();
        let u = self.uri();
        HTTPMethod::convert(m.as_str(), u.as_str())
    }

    /// The route key of `method` on `uri`: `method` upper-cased by
    /// `str::to_uppercase`, `_`, `uri`.
    pub fn convert(method: &str, uri: &str) -> (r: String)
        ensures
            r@ == upper_of(method@) + seq!['_'] + uri@,
    {
        let upper = to_upper(method);
        HTTPMethod::route_key(upper.as_str(), uri)
    }

    /// The route key of an already upper-cased verb `upper` on `uri`:
    /// `upper`, `_`, `uri`.
    pub fn route_key(upper: &str, uri: &str) -> (r: String)
        ensures
            r@ == upper@ + seq!['_'] + uri@,
    {
        proof {
            reveal_strlit("_");
        }
        upper.to_owned().concat("_").concat(uri)
    }
}

} // verus!
