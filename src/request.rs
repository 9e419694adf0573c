//! Requests: a parsed request line together with the connection it came on.
use vstd::prelude::*;

use crate::method::{after_first, parse_method, InvalidMethodError, Method, MethodFault, Verb};
use crate::text::{chars_of, find_space, text_without_spaces, without_spaces};
use crate::version::{parse_version, InvalidHTTPVersionError, Version};

verus! {

/// A request: its method, its version, and the connection `C` that it owns
/// until it is answered.
#[derive(Debug)]
pub struct Request<C> {
    method: Method,
    version: Version,
    stream: C,
}

/// Why a request line is not a request.
#[derive(Debug)]
pub enum RequestLineError {
    /// The verb or the URI is invalid.
    Method(InvalidMethodError),
    /// The version is invalid.
    Version(InvalidHTTPVersionError),
}

/// Abstract value of a [`RequestLineError`].
pub enum RequestFault {
    Method(MethodFault),
    Version(Seq<char>),
}

impl View for RequestLineError {
    type V = RequestFault;

    open spec fn view(&self) -> RequestFault {
        match self {
            RequestLineError::Method(e) => RequestFault::Method(e@),
            RequestLineError::Version(e) => RequestFault::Version(e@),
        }
    }
}

/// Message that describes a request-line fault.
pub open spec fn fault_message(f: RequestFault) -> Seq<char> {
    match f {
        RequestFault::Method(MethodFault::Uri(u)) => "Invalid URI: '"@ + u + "'"@,
        RequestFault::Method(MethodFault::Verb(v)) => "Invalid Method: '"@ + v + "'"@,
        RequestFault::Version(t) => "Invalid HTTP version: '"@ + t + "'"@,
    }
}

impl RequestLineError {
    /// Message that describes the error.
    pub fn to_string(&self) -> (r: String)
        ensures
            r@ == fault_message(self@),
    {
        match self {
            RequestLineError::Method(e) => e.to_string(),
            RequestLineError::Version(e) => e.to_string(),
        }
    }
}

/// The version text of a request line: all that follows its second space,
/// with the spaces left out.
pub open spec fn version_part(line: Seq<char>) -> Seq<char> {
    without_spaces(after_first(after_first(line)))
}

/// What a request line holds: its method and its version, or the first fault
/// found, the method's before the version's.
pub open spec fn parse_request_line(line: Seq<char>) -> Result<
    ((Verb, Seq<char>), (char, char)),
    RequestFault,
> {
    match parse_method(line) {
        Err(f) => Err(RequestFault::Method(f)),
        Ok(m) => match parse_version(version_part(line)) {
            Some(v) => Ok((m, v)),
            None => Err(RequestFault::Version(version_part(line))),
        },
    }
}

impl<C> Request<C> {
    /// The method of the request.
    pub closed spec fn spec_method(&self) -> Method {
        self.method
    }

    /// The version of the request.
    pub closed spec fn spec_version(&self) -> Version {
        self.version
    }

    /// The connection of the request.
    pub closed spec fn spec_stream(&self) -> C {
        self.stream
    }

    /// A request of `method` and `version` on `stream`.
    pub fn new(method: Method, version: Version, stream: C) -> (r: Request<C>)
        ensures
            r.spec_method() == method,
            r.spec_version() == version,
            r.spec_stream() == stream,
    {
        Request { method, version, stream }
    }

    /// The request that `line` describes (`VERB URI VERSION`), on `stream`; or
    /// the fault, with `stream` handed back so that it can still be answered.
    pub fn from_line(line: &str, stream: C) -> (r: Result<Request<C>, (RequestLineError, C)>)
        ensures
            match parse_request_line(line@) {
                Ok((m, v)) => r is Ok && r->Ok_0.spec_method()@ == m && r->Ok_0.spec_version()@
                    == v && r->Ok_0.spec_stream() == stream,
                Err(f) => r is Err && r->Err_0.0@ == f && r->Err_0.1 == stream,
            },
    {
        let method = match Method::try_from_line(line) {
            Ok(m) => m,
            Err(e) => {
                return Err((RequestLineError::Method(e), stream));
            },
        };
        let v = chars_of(line);
        let first = find_space(&v, 0);
        assert(v@.skip(0) =~= v@);
        let second_start: usize = if first < v.len() { first + 1 } else { v.len() };
        let second_end = find_space(&v, second_start);
        let rest: usize = if second_end < v.len() { second_end + 1 } else { v.len() };
        proof {
            let a = after_first(line@);
            assert(a =~= v@.skip(second_start as int));
            let b = after_first(a);
            assert(b =~= v@.skip(rest as int));
        }
        let text = text_without_spaces(&v, rest);
        match Version::try_from_line(text.as_str()) {
            Ok(version) => Ok(Request { method, version, stream }),
            Err(e) => Err((RequestLineError::Version(e), stream)),
        }
    }

    /// The method of the request.
    pub fn method(&self) -> (r: &Method)
        ensures
            *r == self.spec_method(),
    {
        &self.method
    }

    /// The version of the request.
    pub fn version(&self) -> (r: Version)
        ensures
            r == self.spec_version(),
    {
        self.version
    }

    /// The method, the version and the connection, taken apart.
    pub fn take_content(self) -> (r: (Method, Version, C))
        ensures
            r == (self.spec_method(), self.spec_version(), self.spec_stream()),
    {
        (self.method, self.version, self.stream)
    }
}

} // verus!
