//! HTTP responses as plain values.

use vstd::prelude::*;
use vstd::utf8::{decode_utf8, valid_utf8};
use crate::error::{ErrorView, Origin, RequestProcessorError};
use crate::headers::{group_pairs, HeaderEntry, Headers};
use crate::request::{version_text, version_to_string, HttpVersion};
use crate::show::{
    decimal,
    decimal_text,
    join_next,
    joined,
    lemma_joined_next,
    quote,
    quoted,
    quoted_list,
    quoted_list_text,
};
use crate::text::{clone_opt_text, text_from_utf8};

verus! {

/// An HTTP response: status code, protocol version, headers and an optional
/// body.
#[derive(Debug)]
pub struct Response {
    pub code: u16,
    pub headers: Headers,
    pub body: Option<String>,
    pub version: String,
}

/// The mathematical value of a response.
pub struct ResponseView {
    pub code: u16,
    pub headers: Map<Seq<char>, Seq<Seq<char>>>,
    pub body: Option<Seq<char>>,
    pub version: Seq<char>,
}

impl View for Response {
    type V = ResponseView;

    open spec fn view(&self) -> ResponseView {
        ResponseView {
            code: self.code,
            headers: self.headers@,
            body: self.body.deep_view(),
            version: self.version@,
        }
    }
}

/// The body of a response as text: empty where it has none.
pub open spec fn body_text(response: ResponseView) -> Seq<char> {
    match response.body {
        Some(b) => b,
        None => Seq::empty(),
    }
}

/// The text that shows a header entry: the name between double quotes, a
/// colon and a blank, and the list of its values.
pub open spec fn entry_text(entry: HeaderEntry) -> Seq<char> {
    quoted(entry.name@) + ": "@ + quoted_list(entry.values.deep_view())
}

/// The text that shows header entries: the texts of the entries, in the
/// order in which the entries are kept, with a comma and a blank between
/// each two, between braces.
pub open spec fn entries_text(entries: Seq<HeaderEntry>) -> Seq<char> {
    "{"@ + joined(entries.map_values(|e: HeaderEntry| entry_text(e)), ", "@) + "}"@
}

/// The text that shows an optional text.
pub open spec fn optional_text(text: Option<Seq<char>>) -> Seq<char> {
    match text {
        Some(t) => "Some("@ + quoted(t) + ")"@,
        None => "None"@,
    }
}

/// The text that shows a response: its status code in decimal, its headers,
/// its body and its version, each under its name. Texts stand between
/// double quotes as they are.
pub open spec fn response_text(r: Response) -> Seq<char> {
    "Response { code: "@ + decimal(r.code as nat) + ", headers: "@ + entries_text(
        r.headers.entries@,
    ) + ", body: "@ + optional_text(r.body.deep_view()) + ", version: "@ + quoted(r.version@)
        + " }"@
}

/// Writes the text that shows header entries.
fn entries_to_text(entries: &Vec<HeaderEntry>) -> (text: String)
    ensures
        text@ == entries_text(entries@),
{
    let ghost parts = entries@.map_values(|e: HeaderEntry| entry_text(e));
    let mut inner = String::new();
    let mut i: usize = 0;
    proof {
        assert(parts.take(0) =~= Seq::<Seq<char>>::empty());
    }
    while i < entries.len()
        invariant
            i <= entries@.len(),
            parts == entries@.map_values(|e: HeaderEntry| entry_text(e)),
            inner@ == joined(parts.take(i as int), ", "@),
        decreases entries@.len() - i,
    {
        let mut part = quote(entries[i].name.as_str());
        part.append(": ");
        part.append(quoted_list_text(&entries[i].values).as_str());
        proof {
            lemma_joined_next(parts, i as int, ", "@);
            assert(parts[i as int] == part@);
        }
        join_next(&mut inner, i == 0, ", ", part.as_str());
        i += 1;
    }
    proof {
        assert(parts.take(entries@.len() as int) =~= parts);
    }
    let mut text = "{".to_owned();
    text.append(inner.as_str());
    text.append("}");
    text
}

/// Writes the text that shows an optional text.
fn optional_to_text(text: &Option<String>) -> (shown: String)
    ensures
        shown@ == optional_text(text.deep_view()),
{
    match text {
        Some(t) => {
            let mut shown = "Some(".to_owned();
            shown.append(quote(t.as_str()).as_str());
            shown.append(")");
            shown
        },
        None => "None".to_owned(),
    }
}

impl Response {
    /// The text that shows the response, with its code, headers, body and
    /// version.
    pub fn describe(&self) -> (text: String)
        ensures
            text@ == response_text(*self),
    {
        let mut text = "Response { code: ".to_owned();
        text.append(decimal_text(self.code).as_str());
        text.append(", headers: ");
        text.append(entries_to_text(&self.headers.entries).as_str());
        text.append(", body: ");
        text.append(optional_to_text(&self.body).as_str());
        text.append(", version: ");
        text.append(quote(self.version.as_str()).as_str());
        text.append(" }");
        text
    }

    /// The failure of the engine over a response: its message is the reason,
    /// a colon and a blank, and the text that shows the response.
    pub fn error_msg(reason: &str, r: Self) -> (e: RequestProcessorError)
        ensures
            e@ == (ErrorView::Processing {
                origin: Origin::Engine,
                message: reason@ + ": "@ + response_text(r),
            }),
    {
        let mut message = reason.to_owned();
        message.append(": ");
        message.append(r.describe().as_str());
        RequestProcessorError::Processing { origin: Origin::Engine, message }
    }

    /// A copy of the response.
    pub fn duplicate(&self) -> (copy: Response)
        ensures
            copy@ == self@,
    {
        Response {
            code: self.code,
            headers: self.headers.duplicate(),
            body: clone_opt_text(&self.body),
            version: self.version.clone(),
        }
    }

    /// The body as text: empty where the response has none.
    pub fn body_or_empty(&self) -> (text: String)
        ensures
            text@ == body_text(self@),
    {
        match &self.body {
            Some(b) => b.clone(),
            None => String::new(),
        }
    }

    /// Builds a response from what an HTTP client read: the status, the
    /// version, the headers as (name, value) pairs in the order read, and the
    /// whole body. Fails exactly when the body is no UTF-8.
    pub fn from_parts(
        code: u16,
        version: HttpVersion,
        headers: Vec<(String, String)>,
        body: Vec<u8>,
    ) -> (made: Result<Response, RequestProcessorError>)
        ensures
            match made {
                Ok(r) => valid_utf8(body@) && r@ == (ResponseView {
                    code,
                    headers: group_pairs(headers.deep_view()),
                    body: Some(decode_utf8(body@)),
                    version: version_text(version),
                }),
                Err(e) => !valid_utf8(body@) && e@ == (ErrorView::Processing {
                    origin: Origin::Outbound,
                    message: "response body is not valid UTF-8"@,
                }),
            },
    {
        match text_from_utf8(body) {
            Some(text) => Ok(
                Response {
                    code,
                    headers: Headers::from_pairs(headers),
                    body: Some(text),
                    version: version_to_string(version),
                },
            ),
            None => Err(
                RequestProcessorError::Processing {
                    origin: Origin::Outbound,
                    message: "response body is not valid UTF-8".to_owned(),
                },
            ),
        }
    }
}

} // verus!
