//! HTTP requests as plain values, and the per-invocation list of requests
//! issued and responses received.

use std::collections::HashMap;
use vstd::prelude::*;
use vstd::utf8::{decode_utf8, valid_utf8};
use crate::error::{ErrorView, RequestProcessorError};
use crate::headers::{group_pairs, Headers};
use crate::response::{body_text, Response};
use crate::text::{clone_opt_text, text_from_utf8};

verus! {

broadcast use vstd::std_specs::hash::group_hash_axioms;

/// The protocol versions of HTTP.
#[derive(Clone, Copy, Debug, PartialEq, Eq, Structural)]
pub enum HttpVersion {
    Http09,
    Http10,
    Http11,
    Http2,
    Http3,
}

/// The text of a protocol version.
pub open spec fn version_text(v: HttpVersion) -> Seq<char> {
    match v {
        HttpVersion::Http09 => "HTTP/0.9"@,
        HttpVersion::Http10 => "HTTP/1.0"@,
        HttpVersion::Http11 => "HTTP/1.1"@,
        HttpVersion::Http2 => "HTTP/2"@,
        HttpVersion::Http3 => "HTTP/3"@,
    }
}

/// Writes a protocol version as text.
pub fn version_to_string(v: HttpVersion) -> (text: String)
    ensures
        text@ == version_text(v),
{
    match v {
        HttpVersion::Http09 => "HTTP/0.9".to_owned(),
        HttpVersion::Http10 => "HTTP/1.0".to_owned(),
        HttpVersion::Http11 => "HTTP/1.1".to_owned(),
        HttpVersion::Http2 => "HTTP/2".to_owned(),
        HttpVersion::Http3 => "HTTP/3".to_owned(),
    }
}

/// An HTTP request, inbound or outbound.
#[derive(Debug)]
pub struct Request {
    pub headers: Headers,
    pub body: String,
    pub method: String,
    pub path: String,
    pub query: Option<String>,
    pub version: String,
}

/// The mathematical value of a request.
pub struct RequestView {
    pub headers: Map<Seq<char>, Seq<Seq<char>>>,
    pub body: Seq<char>,
    pub method: Seq<char>,
    pub path: Seq<char>,
    pub query: Option<Seq<char>>,
    pub version: Seq<char>,
}

impl View for Request {
    type V = RequestView;

    open spec fn view(&self) -> RequestView {
        RequestView {
            headers: self.headers@,
            body: self.body@,
            method: self.method@,
            path: self.path@,
            query: self.query.deep_view(),
            version: self.version@,
        }
    }
}

impl Request {
    /// A copy of the request.
    pub fn duplicate(&self) -> (copy: Request)
        ensures
            copy@ == self@,
    {
        Request {
            headers: self.headers.duplicate(),
            body: self.body.clone(),
            method: self.method.clone(),
            path: self.path.clone(),
            query: clone_opt_text(&self.query),
            version: self.version.clone(),
        }
    }

    /// Builds a request from what an HTTP server read: the method, the path,
    /// the query string if there is one, the version, the headers as
    /// (name, value) pairs in the order read, and the whole body. Fails exactly
    /// when the body is no UTF-8.
    pub fn from_parts(
        method: String,
        path: String,
        query: Option<String>,
        version: HttpVersion,
        headers: Vec<(String, String)>,
        body: Vec<u8>,
    ) -> (made: Result<Request, RequestProcessorError>)
        ensures
            match made {
                Ok(r) => valid_utf8(body@) && r@ == (RequestView {
                    headers: group_pairs(headers.deep_view()),
                    body: decode_utf8(body@),
                    method: method@,
                    path: path@,
                    query: query.deep_view(),
                    version: version_text(version),
                }),
                Err(e) => !valid_utf8(body@) && e@ == ErrorView::Custom(
                    "request body is not valid UTF-8"@,
                ),
            },
    {
        match text_from_utf8(body) {
            Some(text) => Ok(
                Request {
                    headers: Headers::from_pairs(headers),
                    body: text,
                    method,
                    path,
                    query,
                    version: version_to_string(version),
                },
            ),
            None => Err(RequestProcessorError::Custom("request body is not valid UTF-8".to_owned())),
        }
    }
}

/// A request together with the absolute URL that it is to be sent to.
#[derive(Debug)]
pub struct RequestSpec {
    pub request: Request,
    pub url: String,
}

/// The requests issued and the responses received during one invocation,
/// each under the index of its request, and the index of the response that
/// was added last.
#[derive(Debug)]
pub struct RequestResponseList {
    pub requests: HashMap<usize, Request>,
    pub responses: HashMap<usize, Response>,
    pub last_response: Option<usize>,
}

impl RequestResponseList {
    /// The index of the last response names a response of the list, and is
    /// absent only where the list holds no response.
    pub open spec fn wf(&self) -> bool {
        match self.last_response {
            Some(k) => self.responses@.contains_key(k),
            None => self.responses@ == Map::<usize, Response>::empty(),
        }
    }

    /// The body of the response that was added last, empty where that
    /// response has no body; nothing where no response was added.
    pub open spec fn last_response_body(&self) -> Option<Seq<char>> {
        match self.last_response {
            Some(k) => if self.responses@.contains_key(k) {
                Some(body_text(self.responses@[k]@))
            } else {
                None
            },
            None => None,
        }
    }

    /// The empty list.
    pub fn new() -> (list: Self)
        ensures
            list.wf(),
            list.requests@ == Map::<usize, Request>::empty(),
            list.responses@ == Map::<usize, Response>::empty(),
            list.last_response is None,
    {
        Self { requests: HashMap::new(), responses: HashMap::new(), last_response: None }
    }

    /// Records a request under an index, in place of any that stood there.
    pub fn add_request(&mut self, idx: usize, req: Request)
        ensures
            final(self).requests@ == old(self).requests@.insert(idx, req),
            final(self).responses@ == old(self).responses@,
            final(self).last_response == old(self).last_response,
            old(self).wf() ==> final(self).wf(),
    {
        self.requests.insert(idx, req);
    }

    /// Records a response under an index, in place of any that stood there,
    /// and makes it the last response.
    pub fn add_response(&mut self, idx: usize, resp: Response)
        ensures
            final(self).responses@ == old(self).responses@.insert(idx, resp),
            final(self).requests@ == old(self).requests@,
            final(self).last_response == Some(idx),
            final(self).wf(),
    {
        self.responses.insert(idx, resp);
        self.last_response = Some(idx);
    }

    /// The body of the response that was added last, if any response was
    /// added; the empty text where that response has no body.
    pub fn get_last_response_body(&self) -> (body: Option<String>)
        ensures
            body.deep_view() == self.last_response_body(),
    {
        match self.last_response {
            Some(k) => {
                match self.responses.get(&k) {
                    Some(r) => Some(r.body_or_empty()),
                    None => None,
                }
            },
            None => None,
        }
    }
}

} // verus!
