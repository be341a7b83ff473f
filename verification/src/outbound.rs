//! Outbound HTTP calls: what is checked before one is made, and what is
//! sent.

use vstd::prelude::*;
use vstd::utf8::encode_utf8;
use crate::headers::{lemma_entries_domain, Headers};

verus! {

/// A character that may stand in an HTTP token: a letter or digit of ASCII,
/// or one of ``!#$%&'*+-.^_`|~``.
pub open spec fn is_token_char(c: char) -> bool {
    let n = c as u32;
    (0x61 <= n && n <= 0x7a) || (0x41 <= n && n <= 0x5a) || (0x30 <= n && n <= 0x39) || n == 0x21
        || n == 0x23 || n == 0x24 || n == 0x25 || n == 0x26 || n == 0x27 || n == 0x2a || n
        == 0x2b || n == 0x2d || n == 0x2e || n == 0x5e || n == 0x5f || n == 0x60 || n == 0x7c
        || n == 0x7e
}

/// A text that names an HTTP method: a token, which is one or more token
/// characters.
pub open spec fn is_method(text: Seq<char>) -> bool {
    text.len() > 0 && forall|i: int| 0 <= i < text.len() ==> is_token_char(#[trigger] text[i])
}

/// Whether `reqwest::Url::parse`, which is `url::Url::parse`, reads a text
/// as an absolute URL.
pub uninterp spec fn parses_as_url(text: Seq<char>) -> bool;

/// Asks `reqwest::Method::from_bytes`, which is `http::Method::from_bytes`,
/// whether a text names an HTTP method. It accepts exactly the tokens: texts
/// that are not empty and hold token characters only.
#[verifier::external_body]
pub(crate) fn method_is_valid(method: &str) -> (ok: bool)
    ensures
        ok == is_method(method@),
{
    reqwest::Method::from_bytes(method.as_bytes()).is_ok()
}

/// Asks `reqwest::Url::parse`, which is `url::Url::parse`, whether a text is
/// an absolute URL.
#[verifier::external_body]
pub(crate) fn url_is_valid(url: &str) -> (ok: bool)
    ensures
        ok == parses_as_url(url@),
{
    reqwest::Url::parse(url).is_ok()
}

/// A byte of ASCII in lower case; any other byte as it is.
pub open spec fn lower(b: u8) -> u8 {
    if 0x41 <= b && b <= 0x5a {
        (b + 0x20) as u8
    } else {
        b
    }
}

/// Two byte strings are equal but for the case of ASCII letters.
pub open spec fn same_ignoring_case(a: Seq<u8>, b: Seq<u8>) -> bool {
    a.len() == b.len() && forall|i: int| 0 <= i < a.len() ==> lower(#[trigger] a[i]) == lower(b[i])
}

/// Two header names name the same header: they are equal but for the case
/// of ASCII letters.
pub open spec fn same_header(a: Seq<char>, b: Seq<char>) -> bool {
    same_ignoring_case(encode_utf8(a), encode_utf8(b))
}

/// Some name of the multi-map names the header `wanted`.
pub open spec fn has_header(headers: Map<Seq<char>, Seq<Seq<char>>>, wanted: Seq<char>) -> bool {
    exists|name: Seq<char>| headers.contains_key(name) && same_header(name, wanted)
}

/// The headers of an outbound call: those of the request, and `accept:
/// application/json` where the request names no `accept` header itself.
pub open spec fn outbound_headers(headers: Map<Seq<char>, Seq<Seq<char>>>) -> Map<
    Seq<char>,
    Seq<Seq<char>>,
> {
    if has_header(headers, "accept"@) {
        headers
    } else {
        headers.insert("accept"@, seq!["application/json"@])
    }
}

fn lower_byte(b: u8) -> (l: u8)
    ensures
        l == lower(b),
{
    if 0x41 <= b && b <= 0x5a {
        b + 0x20
    } else {
        b
    }
}

/// True when the two names name the same header.
pub fn same_header_name(a: &str, b: &str) -> (same: bool)
    ensures
        same == same_header(a@, b@),
{
    let x = a.as_bytes();
    let y = b.as_bytes();
    if x.len() != y.len() {
        return false;
    }
    let mut i: usize = 0;
    while i < x.len()
        invariant
            i <= x@.len(),
            x@.len() == y@.len(),
            x@ == encode_utf8(a@),
            y@ == encode_utf8(b@),
            forall|j: int| 0 <= j < i ==> lower(#[trigger] x@[j]) == lower(y@[j]),
        decreases x@.len() - i,
    {
        if lower_byte(x[i]) != lower_byte(y[i]) {
            return false;
        }
        i += 1;
    }
    true
}

impl Headers {
    /// True when some name of the multi-map names the header `wanted`.
    pub fn has_header(&self, wanted: &str) -> (found: bool)
        ensures
            found == has_header(self@, wanted@),
    {
        let mut i: usize = 0;
        while i < self.entries.len()
            invariant
                i <= self.entries@.len(),
                forall|j: int|
                    0 <= j < i ==> !same_header((#[trigger] self.entries@[j]).name@, wanted@),
            decreases self.entries@.len() - i,
        {
            if same_header_name(self.entries[i].name.as_str(), wanted) {
                proof {
                    lemma_entries_domain(self.entries@, self.entries@[i as int].name@);
                }
                return true;
            }
            i += 1;
        }
        proof {
            if has_header(self@, wanted@) {
                let name = choose|name: Seq<char>|
                    self@.contains_key(name) && same_header(name, wanted@);
                lemma_entries_domain(self.entries@, name);
            }
        }
        false
    }

    /// The headers of an outbound call for a request with these headers.
    pub fn outbound(&self) -> (sent: Headers)
        ensures
            sent@ == outbound_headers(self@),
    {
        let mut sent = self.duplicate();
        if !self.has_header("accept") {
            let mut values: Vec<String> = Vec::new();
            values.push("application/json".to_owned());
            proof {
                assert(values.deep_view() =~= seq!["application/json"@]);
            }
            sent.insert("accept".to_owned(), values);
        }
        sent
    }
}

/// An outbound call that is ready to be made.
#[derive(Debug)]
pub struct OutboundCall {
    /// The index of the request, under which its response is recorded.
    pub inc: usize,
    pub method: String,
    pub url: String,
    pub headers: Headers,
    pub body: String,
}

} // verus!
