//! Plain descriptions of the HTTP requests the library wants performed.
//! The unverified driver turns a description into a real request, sends it,
//! and hands back the status code, the headers it was asked for, and the
//! decoded body.

use vstd::prelude::*;
use vstd::string::StringExecFns;
use vstd::string::StringSliceAdditionalSpecFns;
use crate::error::Error;
use crate::query::{spec_query_string, Query};
use crate::text::push_char;

verus! {

/// The HTTP method of a request.
#[derive(Debug, Clone, Copy, PartialEq, Eq, Structural)]
pub enum Method {
    Get,
    Post,
    Put,
    Delete,
    Head,
}

/// Whether a request runs under the transport's default timeout or with the
/// timeout disabled. Data transfers of in-progress transcodes may stay idle
/// for long stretches, so their requests disable the timeout.
#[derive(Debug, Clone, Copy, PartialEq, Eq, Structural)]
pub enum TimeoutPolicy {
    DefaultTimeout,
    NoTimeout,
}

/// One HTTP request, described as plain values.
#[derive(Debug)]
pub struct RequestBuilder {
    pub method: Method,
    pub path: String,
    pub query: Query,
    pub headers: Vec<(String, String)>,
    pub body: Option<String>,
    pub timeout: TimeoutPolicy,
}

impl RequestBuilder {
    /// The header list as character sequences.
    pub open spec fn spec_headers(self) -> Seq<(Seq<char>, Seq<char>)> {
        Seq::new(self.headers@.len(), |i: int| (self.headers@[i].0@, self.headers@[i].1@))
    }

    /// The path plus the serialized query, as the driver must put it on the
    /// request line.
    pub open spec fn spec_url(self) -> Seq<char> {
        if self.query@.len() == 0 {
            self.path@
        } else {
            self.path@ + seq!['?'] + spec_query_string(self.query@)
        }
    }

    /// A request with no parameters, no headers, no body and the default
    /// timeout.
    pub fn new(method: Method, path: String) -> (r: RequestBuilder)
        ensures
            r.method == method,
            r.path@ == path@,
            r.query@ == Seq::<(Seq<char>, Seq<char>)>::empty(),
            r.spec_headers() == Seq::<(Seq<char>, Seq<char>)>::empty(),
            r.body is None,
            r.timeout == TimeoutPolicy::DefaultTimeout,
    {
        let r = RequestBuilder {
            method,
            path,
            query: Query::new(),
            headers: Vec::new(),
            body: None,
            timeout: TimeoutPolicy::DefaultTimeout,
        };
        proof {
            assert(r.spec_headers() =~= Seq::<(Seq<char>, Seq<char>)>::empty());
        }
        r
    }

    /// The same request with `query` as its parameter list.
    pub fn with_query(self, query: Query) -> (r: RequestBuilder)
        ensures
            r == (RequestBuilder { query, ..self }),
    {
        RequestBuilder { query, ..self }
    }

    /// Appends a request header.
    pub fn header(self, key: &str, value: &str) -> (r: RequestBuilder)
        ensures
            r.spec_headers() == self.spec_headers().push((key@, value@)),
            r.method == self.method,
            r.path == self.path,
            r.query == self.query,
            r.body == self.body,
            r.timeout == self.timeout,
    {
        let mut headers = self.headers;
        let ghost prev = Seq::new(headers@.len(), |i: int| (headers@[i].0@, headers@[i].1@));
        headers.push((key.to_owned(), value.to_owned()));
        let r = RequestBuilder { headers, ..self };
        proof {
            assert(r.spec_headers() =~= prev.push((key@, value@)));
        }
        r
    }

    /// Replaces the timeout policy.
    pub fn timeout(self, timeout: TimeoutPolicy) -> (r: RequestBuilder)
        ensures
            r == (RequestBuilder { timeout, ..self }),
    {
        RequestBuilder { timeout, ..self }
    }

    /// Attaches a body.
    pub fn body(self, body: String) -> (r: RequestBuilder)
        ensures
            r == (RequestBuilder { body: Some(body), ..self }),
    {
        RequestBuilder { body: Some(body), ..self }
    }

    /// Attaches form-encoded parameters as the body, with the form content
    /// type and the body's exact byte length announced in headers.
    pub fn form(self, params: &Query) -> (r: RequestBuilder)
        ensures
            r.method == self.method,
            r.path == self.path,
            r.query == self.query,
            r.timeout == self.timeout,
            r.body matches Some(b) && b@ == spec_query_string(params@),
            r.spec_headers() == self.spec_headers().push(
                ("Content-type"@, "application/x-www-form-urlencoded"@),
            ).push(
                (
                    "Content-Length"@,
                    crate::text::spec_dec(
                        vstd::utf8::encode_utf8(spec_query_string(params@)).len() as usize as nat,
                    ),
                ),
            ),
    {
        let body = params.to_query_string();
        let body_str = body.as_str();
        let len = body_str.len();
        proof {
            assert(body_str.spec_bytes() == vstd::utf8::encode_utf8(spec_query_string(params@)));
        }
        let len_value = crate::text::u64_to_string(len as u64);
        self.header("Content-type", "application/x-www-form-urlencoded").header(
            "Content-Length",
            len_value.as_str(),
        ).body(body)
    }

    /// Renders the request line's path-and-query part.
    pub fn url(&self) -> (s: String)
        ensures
            s@ == self.spec_url(),
    {
        let mut s = self.path.clone();
        if !self.query.is_empty() {
            push_char(&mut s, '?');
            let qs = self.query.to_query_string();
            s.append(qs.as_str());
        }
        s
    }
}

/// The error for a response that the protocol does not foresee, carrying the
/// status code and the raw body for diagnostics.
pub fn response_error(status_code: u16, content: String) -> (r: Error)
    ensures
        r == (Error::UnexpectedApiResponse { status_code, content }),
{
    Error::UnexpectedApiResponse { status_code, content }
}

/// Whether a response status allows decoding the body as a document: the
/// transport decodes on 200, 201 and 202 and refuses anything else.
pub fn decode_status_ok(status_code: u16) -> (r: bool)
    ensures
        r <==> (status_code == 200 || status_code == 201 || status_code == 202),
{
    status_code == 200 || status_code == 201 || status_code == 202
}

} // verus!
