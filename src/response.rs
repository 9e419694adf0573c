//! Responses: a status line and a body, to be written back on a request's connection.
use vstd::prelude::*;

use crate::request::{fault_message, Request, RequestLineError};
use crate::status::{render_status, Status};
use crate::text::{decimal, decimal_string};
use crate::version::{render_version, Version};

verus! {

/// Number of bytes of the UTF-8 encoding of a text.
pub open spec fn byte_len(s: Seq<char>) -> nat {
    vstd::utf8::encode_utf8(s).len()
}

/// The bytes of a response on the wire, as text:
/// `<version> <code> <reason>\r\nContent-Length: <n>\r\n\r\n<body>`.
pub open spec fn wire_text(
    version: (char, char),
    status: u16,
    body: Seq<char>,
    body_bytes: nat,
) -> Seq<char> {
    render_version(version) + seq![' '] + render_status(status) + "\r\nContent-Length: "@
        + decimal(body_bytes) + "\r\n\r\n"@ + body
}

/// A response: a version, a status, a body, and the connection `C` it is for.
#[derive(Debug)]
pub struct Response<C> {
    version: Version,
    status: Status,
    contents: String,
    stream: C,
}

impl<C> Response<C> {
    /// The version of the response.
    pub closed spec fn spec_version(&self) -> Version {
        self.version
    }

    /// The status of the response.
    pub closed spec fn spec_status(&self) -> Status {
        self.status
    }

    /// The body of the response.
    pub closed spec fn spec_contents(&self) -> Seq<char> {
        self.contents@
    }

    /// The connection the response is for.
    pub closed spec fn spec_stream(&self) -> C {
        self.stream
    }

    /// An empty response of `version` and `status` on `stream`.
    pub fn new(version: Version, status: Status, stream: C) -> (r: Response<C>)
        ensures
            r.spec_version() == version,
            r.spec_status() == status,
            r.spec_contents() == Seq::<char>::empty(),
            r.spec_stream() == stream,
    {
        Response { version, status, contents: String::new(), stream }
    }

    /// An empty response of `status` to `request`, with the request's version,
    /// on the request's connection.
    pub fn from_request(request: Request<C>, status: Status) -> (r: Response<C>)
        ensures
            r.spec_version() == request.spec_version(),
            r.spec_status() == status,
            r.spec_contents() == Seq::<char>::empty(),
            r.spec_stream() == request.spec_stream(),
    {
        let (_, version, stream) = request.take_content();
        Response::new(version, status, stream)
    }

    /// The answer to a request line that could not be parsed: `400 BAD REQUEST`
    /// in HTTP/1.1, the error's message as body, on `stream`.
    pub fn bad_request(error: &RequestLineError, stream: C) -> (r: Response<C>)
        ensures
            r.spec_version()@ == ('1', '1'),
            r.spec_status()@ == 400,
            r.spec_contents() == fault_message(error@),
            r.spec_stream() == stream,
    {
        let mut response = Response::new(Version::default(), Status::bad_request(), stream);
        let message = error.to_string();
        response.add_content(message.as_str());
        response
    }

    /// The answer to a request turned away because the pool is saturated:
    /// `503 SERVICE UNAVAILABLE`, empty body, the request's version and connection.
    pub fn service_unavailable(request: Request<C>) -> (r: Response<C>)
        ensures
            r.spec_version() == request.spec_version(),
            r.spec_status()@ == 503,
            r.spec_contents() == Seq::<char>::empty(),
            r.spec_stream() == request.spec_stream(),
    {
        Response::from_request(request, Status::service_unavailable())
    }

    /// The answer to a request whose method has no handler: `404 NOT FOUND`,
    /// `page` as body, the request's version and connection.
    pub fn not_found(request: Request<C>, page: &str) -> (r: Response<C>)
        ensures
            r.spec_version() == request.spec_version(),
            r.spec_status()@ == 404,
            r.spec_contents() == page@,
            r.spec_stream() == request.spec_stream(),
    {
        let mut response = Response::from_request(request, Status::not_found());
        response.add_content(page);
        assert(Seq::<char>::empty() + page@ =~= page@);
        response
    }

    /// Appends `text` to the body.
    pub fn add_content(&mut self, text: &str)
        ensures
            final(self).spec_contents() == old(self).spec_contents() + text@,
            final(self).spec_version() == old(self).spec_version(),
            final(self).spec_status() == old(self).spec_status(),
            final(self).spec_stream() == old(self).spec_stream(),
    {
        self.contents.append(text);
    }

    /// The version of the response.
    pub fn version(&self) -> (r: Version)
        ensures
            r == self.spec_version(),
    {
        self.version
    }

    /// The status of the response.
    pub fn status(&self) -> (r: Status)
        ensures
            r == self.spec_status(),
    {
        self.status
    }

    /// The body of the response.
    pub fn contents(&self) -> (r: &str)
        ensures
            r@ == self.spec_contents(),
    {
        self.contents.as_str()
    }

    /// The text to write on the connection; `Content-Length` counts the bytes
    /// of the body.
    pub fn to_string(&self) -> (r: String)
        ensures
            r@ == wire_text(
                self.spec_version()@,
                self.spec_status()@,
                self.spec_contents(),
                (byte_len(self.spec_contents()) as usize) as nat,
            ),
    {
        proof {
            reveal_strlit(" ");
            reveal_strlit("\r\nContent-Length: ");
            reveal_strlit("\r\n\r\n");
        }
        let n = self.contents.as_str().len();
        let head = self.version.to_string().concat(" ").concat(self.status.to_string().as_str());
        let length = decimal_string(n);
        head.concat("\r\nContent-Length: ").concat(length.as_str()).concat("\r\n\r\n").concat(
            self.contents.as_str(),
        )
    }

    /// The wire text and the connection to write it on.
    pub fn into_parts(self) -> (r: (String, C))
        ensures
            r.0@ == wire_text(
                self.spec_version()@,
                self.spec_status()@,
                self.spec_contents(),
                (byte_len(self.spec_contents()) as usize) as nat,
            ),
            r.1 == self.spec_stream(),
    {
        let text = self.to_string();
        (text, self.stream)
    }
}

} // verus!
