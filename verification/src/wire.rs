//! The wire format: how requests, responses and the other values of the
//! gateway are written as JSON documents, and read from them.
//!
//! All names are in snake case. Reading ignores members that it does not
//! know, takes a missing optional member for an absent value, and fails on
//! a missing or ill-typed member that it needs.

use vstd::prelude::*;
use crate::audit::{item_views, AuditItem, AuditItemView};
use crate::conversation::{RequestConversation, RequestConversationView};
use crate::error::{ErrorMessage, ErrorView, RequestProcessorError};
use crate::headers::{entries_map, HeaderEntry, Headers};
use crate::ident::{id_text, id_to_string};
use crate::json::{
    field,
    json_views,
    lemma_json_value,
    lemma_members_domain,
    lemma_members_empty,
    lemma_members_first,
    lemma_members_push,
    members_map,
    Json,
    JsonView,
};
use crate::processor::{ProcessorDraft, ProcessorDraftView, RequestProcessor, RequestProcessorView};
use crate::request::{Request, RequestSpec, RequestView};
use crate::response::{Response, ResponseView};

verus! {

/// A list of texts as a document: the array of the texts.
pub open spec fn values_json(values: Seq<Seq<char>>) -> JsonView {
    JsonView::Array(values.map_values(|v: Seq<char>| JsonView::Text(v)))
}

/// A header multi-map as a document: the object with one member for each
/// name, which holds the name's values.
pub open spec fn headers_json(headers: Map<Seq<char>, Seq<Seq<char>>>) -> JsonView {
    JsonView::Object(headers.map_values(|vs: Seq<Seq<char>>| values_json(vs)))
}

/// An optional text as a document: the text, or null.
pub open spec fn optional_text_json(text: Option<Seq<char>>) -> JsonView {
    match text {
        Some(t) => JsonView::Text(t),
        None => JsonView::Null,
    }
}

/// A request as a document.
pub open spec fn request_json(r: RequestView) -> JsonView {
    JsonView::Object(
        Map::<Seq<char>, JsonView>::empty().insert("headers"@, headers_json(r.headers)).insert(
            "body"@,
            JsonView::Text(r.body),
        ).insert("method"@, JsonView::Text(r.method)).insert("path"@, JsonView::Text(r.path)).insert(
            "query"@,
            optional_text_json(r.query),
        ).insert("version"@, JsonView::Text(r.version)),
    )
}

/// The text that a document is, if it is one.
pub open spec fn json_text(j: Option<JsonView>) -> Option<Seq<char>> {
    match j {
        Some(JsonView::Text(t)) => Some(t),
        _ => None,
    }
}

/// The optional text that a member is: absent where the member is missing
/// or null.
pub open spec fn json_optional_text(j: Option<JsonView>) -> Option<Option<Seq<char>>> {
    match j {
        None => Some(None),
        Some(JsonView::Null) => Some(None),
        Some(JsonView::Text(t)) => Some(Some(t)),
        _ => None,
    }
}

/// The list of texts that a document is, if it is an array of texts.
pub open spec fn json_values(j: JsonView) -> Option<Seq<Seq<char>>> {
    match j {
        JsonView::Array(items) => if forall|i: int|
            0 <= i < items.len() ==> (#[trigger] items[i]) is Text {
            Some(items.map_values(|item: JsonView| item->Text_0))
        } else {
            None
        },
        _ => None,
    }
}

/// The header multi-map that a document is, if it is an object of arrays of
/// texts.
pub open spec fn json_headers(j: Option<JsonView>) -> Option<Map<Seq<char>, Seq<Seq<char>>>> {
    match j {
        Some(JsonView::Object(m)) => if forall|name: Seq<char>|
            m.contains_key(name) ==> json_values(#[trigger] m[name]) is Some {
            Some(m.map_values(|v: JsonView| json_values(v)->Some_0))
        } else {
            None
        },
        _ => None,
    }
}

/// The request that a document is, if it is one: an object with the
/// members `headers`, `body`, `method`, `path` and `version`, and `query`
/// where the request has a query string.
pub open spec fn json_request(j: JsonView) -> Option<RequestView> {
    match (
        json_headers(field(j, "headers"@)),
        json_text(field(j, "body"@)),
        json_text(field(j, "method"@)),
        json_text(field(j, "path"@)),
        json_optional_text(field(j, "query"@)),
        json_text(field(j, "version"@)),
    ) {
        (Some(headers), Some(body), Some(method), Some(path), Some(query), Some(version)) => Some(
            RequestView { headers, body, method, path, query, version },
        ),
        _ => None,
    }
}

/// The names of the members of a request differ from one another.
pub proof fn lemma_request_names_differ()
    ensures
        "headers"@ != "body"@,
        "headers"@ != "method"@,
        "headers"@ != "path"@,
        "headers"@ != "query"@,
        "headers"@ != "version"@,
        "body"@ != "method"@,
        "body"@ != "path"@,
        "body"@ != "query"@,
        "body"@ != "version"@,
        "method"@ != "path"@,
        "method"@ != "query"@,
        "method"@ != "version"@,
        "path"@ != "query"@,
        "path"@ != "version"@,
        "query"@ != "version"@,
{
    reveal_strlit("headers");
    reveal_strlit("body");
    reveal_strlit("method");
    reveal_strlit("path");
    reveal_strlit("query");
    reveal_strlit("version");
    assert("headers"@[0] == 'h' && "headers"@.len() == 7);
    assert("body"@[0] == 'b' && "body"@.len() == 4);
    assert("method"@[0] == 'm' && "method"@.len() == 6);
    assert("path"@[0] == 'p' && "path"@.len() == 4);
    assert("query"@[0] == 'q' && "query"@.len() == 5);
    assert("version"@[0] == 'v' && "version"@.len() == 7);
}

/// A list of texts that is written as a document is read back as it was.
pub proof fn lemma_values_round_trip(values: Seq<Seq<char>>)
    ensures
        json_values(values_json(values)) == Some(values),
{
    let items = values.map_values(|v: Seq<char>| JsonView::Text(v));
    assert(items.map_values(|item: JsonView| item->Text_0) =~= values);
}

/// A header multi-map that is written as a document is read back as it
/// was.
pub proof fn lemma_headers_round_trip(headers: Map<Seq<char>, Seq<Seq<char>>>)
    ensures
        json_headers(Some(headers_json(headers))) == Some(headers),
{
    let m = headers.map_values(|vs: Seq<Seq<char>>| values_json(vs));
    assert forall|name: Seq<char>| m.contains_key(name) implies json_values(#[trigger] m[name])
        == Some(headers[name]) by {
        lemma_values_round_trip(headers[name]);
    }
    assert(m.map_values(|v: JsonView| json_values(v)->Some_0) =~= headers);
}

/// A request that is written as a document is read back as it was.
pub proof fn law_request_round_trip(r: RequestView)
    ensures
        json_request(request_json(r)) == Some(r),
{
    lemma_request_names_differ();
    lemma_headers_round_trip(r.headers);
}

/// Writes a list of texts as a document.
pub fn values_to_json(values: &Vec<String>) -> (j: Json)
    ensures
        j@ == values_json(values.deep_view()),
{
    let mut items: Vec<Json> = Vec::new();
    let mut i: usize = 0;
    while i < values.len()
        invariant
            i <= values@.len(),
            items@.len() == i,
            forall|k: int| 0 <= k < i ==> (#[trigger] items@[k])@ == JsonView::Text(values@[k]@),
        decreases values@.len() - i,
    {
        items.push(Json::Text(values[i].clone()));
        i += 1;
    }
    let j = Json::Array(items);
    proof {
        lemma_json_value(j);
        assert(json_views(items@) =~= values.deep_view().map_values(
            |v: Seq<char>| JsonView::Text(v),
        ));
    }
    j
}

/// Reads a list of texts from a document.
pub fn values_from_json(j: &Json) -> (values: Option<Vec<String>>)
    ensures
        values.deep_view() == json_values(j@),
{
    proof {
        lemma_json_value(*j);
    }
    match j {
        Json::Array(items) => {
            let mut values: Vec<String> = Vec::new();
            let mut i: usize = 0;
            while i < items.len()
                invariant
                    i <= items@.len(),
                    values@.len() == i,
                    j@ == JsonView::Array(json_views(items@)),
                    forall|k: int|
                        0 <= k < i ==> (#[trigger] items@[k])@ == JsonView::Text(values@[k]@),
                decreases items@.len() - i,
            {
                match &items[i] {
                    Json::Text(t) => {
                        values.push(t.clone());
                    },
                    _ => {
                        proof {
                            assert(!(json_views(items@)[i as int] is Text));
                        }
                        return None;
                    },
                }
                i += 1;
            }
            proof {
                assert forall|k: int| 0 <= k < items@.len() implies (#[trigger] json_views(
                    items@,
                )[k]) is Text by {
                    assert(items@[k]@ == JsonView::Text(values@[k]@));
                }
                assert(values.deep_view() =~= json_views(items@).map_values(
                    |item: JsonView| item->Text_0,
                )) by {
                    assert forall|k: int| 0 <= k < items@.len() implies values.deep_view()[k]
                        == json_views(items@)[k]->Text_0 by {
                        assert(items@[k]@ == JsonView::Text(values@[k]@));
                    }
                }
            }
            Some(values)
        },
        _ => None,
    }
}

/// Writes a header multi-map as a document.
pub fn headers_to_json(headers: &Headers) -> (j: Json)
    ensures
        j@ == headers_json(headers@),
{
    let mut members: Vec<(String, Json)> = Vec::new();
    let mut i: usize = 0;
    proof {
        lemma_members_empty();
        assert(headers.entries@.take(0) =~= Seq::<HeaderEntry>::empty());
        assert(members_map(members@) =~= entries_map(headers.entries@.take(0)).map_values(
            |vs: Seq<Seq<char>>| values_json(vs),
        ));
    }
    while i < headers.entries.len()
        invariant
            i <= headers.entries@.len(),
            members_map(members@) == entries_map(headers.entries@.take(i as int)).map_values(
                |vs: Seq<Seq<char>>| values_json(vs),
            ),
        decreases headers.entries@.len() - i,
    {
        let name = headers.entries[i].name.clone();
        let values = values_to_json(&headers.entries[i].values);
        proof {
            let entries = headers.entries@;
            assert(entries.take(i as int + 1).drop_last() =~= entries.take(i as int));
            assert(entries.take(i as int + 1).last() == entries[i as int]);
            lemma_members_push(members@, (name, values));
            assert(members_map(members@.push((name, values))) =~= entries_map(
                entries.take(i as int + 1),
            ).map_values(|vs: Seq<Seq<char>>| values_json(vs)));
        }
        members.push((name, values));
        i += 1;
    }
    let j = Json::Object(members);
    proof {
        assert(headers.entries@.take(headers.entries@.len() as int) =~= headers.entries@);
        lemma_json_value(j);
    }
    j
}

/// Reads a header multi-map from a document.
pub fn headers_from_json(j: &Json) -> (headers: Option<Headers>)
    ensures
        match headers {
            Some(h) => json_headers(Some(j@)) == Some(h@),
            None => json_headers(Some(j@)) is None,
        },
{
    proof {
        lemma_json_value(*j);
    }
    match j {
        Json::Object(members) => {
            let ghost all = members_map(members@);
            let mut headers = Headers::new();
            let mut i: usize = 0;
            proof {
                lemma_members_empty();
                assert(members@.take(0) =~= Seq::<(String, Json)>::empty());
                assert(headers@ =~= members_map(members@.take(0)).map_values(
                    |v: JsonView| json_values(v)->Some_0,
                ));
            }
            while i < members.len()
                invariant
                    i <= members@.len(),
                    all == members_map(members@),
                    j@ == JsonView::Object(all),
                    forall|name: Seq<char>|
                        members_map(members@.take(i as int)).contains_key(name) ==> json_values(
                            #[trigger] members_map(members@.take(i as int))[name],
                        ) is Some,
                    headers@ == members_map(members@.take(i as int)).map_values(
                        |v: JsonView| json_values(v)->Some_0,
                    ),
                decreases members@.len() - i,
            {
                let ghost seen = members@.take(i as int);
                let ghost longer = members@.take(i as int + 1);
                proof {
                    assert(longer =~= seen.push(members@[i as int]));
                    lemma_members_push(seen, members@[i as int]);
                }
                if !headers.contains_key(members[i].0.as_str()) {
                    match values_from_json(&members[i].1) {
                        Some(values) => {
                            let ghost before = headers.entries@;
                            let ghost shown = values.deep_view();
                            headers.entries.push(
                                HeaderEntry { name: members[i].0.clone(), values },
                            );
                            proof {
                                let name = members@[i as int].0@;
                                assert(headers.entries@.drop_last() =~= before);
                                assert(headers@ == entries_map(before).insert(name, shown));
                                assert(members_map(longer) == members_map(seen).insert(
                                    name,
                                    members@[i as int].1@,
                                ));
                                assert(headers@ =~= members_map(longer).map_values(
                                    |v: JsonView| json_values(v)->Some_0,
                                ));
                            }
                        },
                        None => {
                            proof {
                                let name = members@[i as int].0@;
                                lemma_members_domain(seen, name);
                                assert forall|k: int| 0 <= k < i implies (
                                #[trigger] members@[k]).0@ != name by {
                                    assert(seen[k] == members@[k]);
                                }
                                lemma_members_first(members@, i as int);
                                assert(json_values(all[name]) is None);
                            }
                            return None;
                        },
                    }
                }
                i += 1;
            }
            proof {
                assert(members@.take(members@.len() as int) =~= members@);
            }
            Some(headers)
        },
        _ => None,
    }
}

/// Adds a member to a list of members.
pub fn add_member(members: &mut Vec<(String, Json)>, name: &str, value: Json)
    ensures
        members_map(final(members)@) == if members_map(old(members)@).contains_key(name@) {
            members_map(old(members)@)
        } else {
            members_map(old(members)@).insert(name@, value@)
        },
{
    let member = (name.to_owned(), value);
    proof {
        lemma_members_push(members@, member);
    }
    members.push(member);
}

/// Writes an optional text as a document.
pub fn optional_text_to_json(text: &Option<String>) -> (j: Json)
    ensures
        j@ == optional_text_json(text.deep_view()),
{
    match text {
        Some(t) => Json::Text(t.clone()),
        None => Json::Null,
    }
}

/// Reads the text under a name of a document.
pub fn text_member(j: &Json, name: &str) -> (text: Option<String>)
    ensures
        text.deep_view() == json_text(field(j@, name@)),
{
    match j.get(name) {
        Some(Json::Text(t)) => Some(t.clone()),
        _ => None,
    }
}

/// Reads the optional text under a name of a document.
pub fn optional_text_member(j: &Json, name: &str) -> (text: Option<Option<String>>)
    ensures
        text.deep_view() == json_optional_text(field(j@, name@)),
{
    match j.get(name) {
        None => Some(None),
        Some(Json::Null) => Some(None),
        Some(Json::Text(t)) => Some(Some(t.clone())),
        _ => None,
    }
}

/// Reads the header multi-map under a name of a document.
pub fn headers_member(j: &Json, name: &str) -> (headers: Option<Headers>)
    ensures
        match headers {
            Some(h) => json_headers(field(j@, name@)) == Some(h@),
            None => json_headers(field(j@, name@)) is None,
        },
{
    match j.get(name) {
        Some(member) => headers_from_json(member),
        None => None,
    }
}

/// The failure for a document that is not what it is read as.
pub open spec fn no_document(what: Seq<char>) -> ErrorView {
    ErrorView::JsonSerialize("document is no "@ + what)
}

/// The failure for a document that is not what it is read as.
pub fn document_error(what: &str) -> (e: RequestProcessorError)
    ensures
        e@ == no_document(what@),
{
    let mut text = "document is no ".to_owned();
    text.append(what);
    RequestProcessorError::JsonSerialize(text)
}

impl Request {
    /// Writes the request as a document.
    pub fn to_json(&self) -> (j: Json)
        ensures
            j@ == request_json(self@),
    {
        let mut members: Vec<(String, Json)> = Vec::new();
        proof {
            lemma_members_empty();
            lemma_request_names_differ();
        }
        add_member(&mut members, "headers", headers_to_json(&self.headers));
        add_member(&mut members, "body", Json::Text(self.body.clone()));
        add_member(&mut members, "method", Json::Text(self.method.clone()));
        add_member(&mut members, "path", Json::Text(self.path.clone()));
        add_member(&mut members, "query", optional_text_to_json(&self.query));
        add_member(&mut members, "version", Json::Text(self.version.clone()));
        let j = Json::Object(members);
        proof {
            lemma_json_value(j);
        }
        j
    }

    /// Reads a request from a document. Fails exactly when the document is
    /// no request.
    pub fn from_json(j: &Json) -> (read: Result<Request, RequestProcessorError>)
        ensures
            match read {
                Ok(r) => json_request(j@) == Some(r@),
                Err(e) => json_request(j@) is None && e@ == no_document("request"@),
            },
    {
        let headers = headers_member(j, "headers");
        let body = text_member(j, "body");
        let method = text_member(j, "method");
        let path = text_member(j, "path");
        let query = optional_text_member(j, "query");
        let version = text_member(j, "version");
        match (headers, body, method, path, query, version) {
            (Some(headers), Some(body), Some(method), Some(path), Some(query), Some(version)) => Ok(
                Request { headers, body, method, path, query, version },
            ),
            _ => Err(document_error("request")),
        }
    }
}

/// A response as a document.
pub open spec fn response_json(r: ResponseView) -> JsonView {
    JsonView::Object(
        Map::<Seq<char>, JsonView>::empty().insert("code"@, JsonView::Integer(r.code as i64)).insert(
            "headers"@,
            headers_json(r.headers),
        ).insert("body"@, optional_text_json(r.body)).insert("version"@, JsonView::Text(r.version)),
    )
}

/// The status code that a document is, if it is one: an integer that fits
/// 16 bits without a sign.
pub open spec fn json_code(j: Option<JsonView>) -> Option<u16> {
    match j {
        Some(JsonView::Integer(i)) => if 0 <= i <= 0xffff {
            Some(i as u16)
        } else {
            None
        },
        _ => None,
    }
}

/// The response that a document is, if it is one: an object with the
/// members `code`, `headers` and `version`, and `body` where the response
/// has a body.
pub open spec fn json_response(j: JsonView) -> Option<ResponseView> {
    match (
        json_code(field(j, "code"@)),
        json_headers(field(j, "headers"@)),
        json_optional_text(field(j, "body"@)),
        json_text(field(j, "version"@)),
    ) {
        (Some(code), Some(headers), Some(body), Some(version)) => Some(
            ResponseView { code, headers, body, version },
        ),
        _ => None,
    }
}

/// The names of the members of a response differ from one another.
pub proof fn lemma_response_names_differ()
    ensures
        "code"@ != "headers"@,
        "code"@ != "body"@,
        "code"@ != "version"@,
        "headers"@ != "body"@,
        "headers"@ != "version"@,
        "body"@ != "version"@,
{
    reveal_strlit("code");
    reveal_strlit("headers");
    reveal_strlit("body");
    reveal_strlit("version");
    assert("code"@[0] == 'c' && "code"@.len() == 4);
    assert("headers"@[0] == 'h' && "headers"@.len() == 7);
    assert("body"@[0] == 'b' && "body"@.len() == 4);
    assert("version"@[0] == 'v' && "version"@.len() == 7);
}

/// A response that is written as a document is read back as it was.
pub proof fn law_response_round_trip(r: ResponseView)
    ensures
        json_response(response_json(r)) == Some(r),
{
    lemma_response_names_differ();
    lemma_headers_round_trip(r.headers);
}

/// Reads the status code under a name of a document.
pub fn code_member(j: &Json, name: &str) -> (code: Option<u16>)
    ensures
        code == json_code(field(j@, name@)),
{
    match j.get(name) {
        Some(Json::Integer(i)) => if 0 <= *i && *i <= 0xffff {
            Some(*i as u16)
        } else {
            None
        },
        _ => None,
    }
}

impl Response {
    /// Writes the response as a document.
    pub fn to_json(&self) -> (j: Json)
        ensures
            j@ == response_json(self@),
    {
        let mut members: Vec<(String, Json)> = Vec::new();
        proof {
            lemma_members_empty();
            lemma_response_names_differ();
        }
        add_member(&mut members, "code", Json::Integer(self.code as i64));
        add_member(&mut members, "headers", headers_to_json(&self.headers));
        add_member(&mut members, "body", optional_text_to_json(&self.body));
        add_member(&mut members, "version", Json::Text(self.version.clone()));
        let j = Json::Object(members);
        proof {
            lemma_json_value(j);
        }
        j
    }

    /// Reads a response from a document. Fails exactly when the document is
    /// no response.
    pub fn from_json(j: &Json) -> (read: Result<Response, RequestProcessorError>)
        ensures
            match read {
                Ok(r) => json_response(j@) == Some(r@),
                Err(e) => json_response(j@) is None && e@ == no_document("response"@),
            },
    {
        let code = code_member(j, "code");
        let headers = headers_member(j, "headers");
        let body = optional_text_member(j, "body");
        let version = text_member(j, "version");
        match (code, headers, body, version) {
            (Some(code), Some(headers), Some(body), Some(version)) => Ok(
                Response { code, headers, body, version },
            ),
            _ => Err(document_error("response")),
        }
    }
}

/// The request and the URL that a document asks an outbound call for, if it
/// asks for one: an object with the members `request` and `url`.
pub open spec fn json_request_spec(j: JsonView) -> Option<(RequestView, Seq<char>)> {
    match (field(j, "request"@), json_text(field(j, "url"@))) {
        (Some(request), Some(url)) => match json_request(request) {
            Some(r) => Some((r, url)),
            None => None,
        },
        _ => None,
    }
}

impl RequestSpec {
    /// Reads what an outbound call is asked for from a document. Fails
    /// exactly when the document is no such thing.
    pub fn from_json(j: &Json) -> (read: Result<RequestSpec, RequestProcessorError>)
        ensures
            match read {
                Ok(s) => json_request_spec(j@) == Some((s.request@, s.url@)),
                Err(e) => json_request_spec(j@) is None && e@ == no_document("request spec"@),
            },
    {
        let url = text_member(j, "url");
        let request = match j.get("request") {
            Some(member) => match Request::from_json(member) {
                Ok(r) => Some(r),
                Err(_) => None,
            },
            None => None,
        };
        match (request, url) {
            (Some(request), Some(url)) => Ok(RequestSpec { request, url }),
            _ => Err(document_error("request spec")),
        }
    }
}

/// What a document describes a processor as, if it describes one: the
/// texts of the members `name`, `language`, `runtime` and `code` of an
/// object.
pub open spec fn json_draft(j: JsonView) -> Option<ProcessorDraftView> {
    match (
        json_text(field(j, "name"@)),
        json_text(field(j, "language"@)),
        json_text(field(j, "runtime"@)),
        json_text(field(j, "code"@)),
    ) {
        (Some(name), Some(language), Some(runtime), Some(code)) => Some(
            ProcessorDraftView { name, language, runtime, code },
        ),
        _ => None,
    }
}

impl ProcessorDraft {
    /// Reads the description of a processor from a document. Fails exactly
    /// when the document describes none.
    pub fn from_json(j: &Json) -> (read: Result<ProcessorDraft, RequestProcessorError>)
        ensures
            match read {
                Ok(d) => json_draft(j@) == Some(d@),
                Err(e) => json_draft(j@) is None && e@ == no_document("request processor"@),
            },
    {
        let name = text_member(j, "name");
        let language = text_member(j, "language");
        let runtime = text_member(j, "runtime");
        let code = text_member(j, "code");
        match (name, language, runtime, code) {
            (Some(name), Some(language), Some(runtime), Some(code)) => Ok(
                ProcessorDraft { name, language, runtime, code },
            ),
            _ => Err(document_error("request processor")),
        }
    }
}

/// A processor as a document. The identifier is written as its canonical
/// text, language and runtime as their tags.
pub open spec fn processor_json(p: RequestProcessorView) -> JsonView {
    JsonView::Object(
        Map::<Seq<char>, JsonView>::empty().insert("id"@, JsonView::Text(id_text(p.id))).insert(
            "name"@,
            JsonView::Text(p.name),
        ).insert("language"@, JsonView::Text(p.language.tag_text())).insert(
            "runtime"@,
            JsonView::Text(p.runtime.tag_text()),
        ).insert("code"@, JsonView::Text(p.code)).insert("user_id"@, JsonView::Text(p.user_id)),
    )
}

/// The names of the members of a processor differ from one another.
pub proof fn lemma_processor_names_differ()
    ensures
        "id"@ != "name"@,
        "id"@ != "language"@,
        "id"@ != "runtime"@,
        "id"@ != "code"@,
        "id"@ != "user_id"@,
        "name"@ != "language"@,
        "name"@ != "runtime"@,
        "name"@ != "code"@,
        "name"@ != "user_id"@,
        "language"@ != "runtime"@,
        "language"@ != "code"@,
        "language"@ != "user_id"@,
        "runtime"@ != "code"@,
        "runtime"@ != "user_id"@,
        "code"@ != "user_id"@,
{
    reveal_strlit("id");
    reveal_strlit("name");
    reveal_strlit("language");
    reveal_strlit("runtime");
    reveal_strlit("code");
    reveal_strlit("user_id");
    assert("id"@[0] == 'i' && "id"@.len() == 2);
    assert("name"@[0] == 'n' && "name"@.len() == 4);
    assert("language"@[0] == 'l' && "language"@.len() == 8);
    assert("runtime"@[0] == 'r' && "runtime"@.len() == 7);
    assert("code"@[0] == 'c' && "code"@.len() == 4);
    assert("user_id"@[0] == 'u' && "user_id"@.len() == 7);
}

impl RequestProcessor {
    /// Writes the processor as a document.
    pub fn to_json(&self) -> (j: Json)
        ensures
            j@ == processor_json(self@),
    {
        let mut members: Vec<(String, Json)> = Vec::new();
        proof {
            lemma_members_empty();
            lemma_processor_names_differ();
        }
        add_member(&mut members, "id", Json::Text(id_to_string(self.id)));
        add_member(&mut members, "name", Json::Text(self.name.clone()));
        add_member(&mut members, "language", Json::Text(self.language.tag().to_owned()));
        add_member(&mut members, "runtime", Json::Text(self.runtime.tag().to_owned()));
        add_member(&mut members, "code", Json::Text(self.code.clone()));
        add_member(&mut members, "user_id", Json::Text(self.user_id.clone()));
        let j = Json::Object(members);
        proof {
            lemma_json_value(j);
        }
        j
    }
}

/// An audit item as a document. The member `kind` tells the three kinds of
/// items apart; identifiers are written as their canonical texts, the time
/// of creation as its nanoseconds since the epoch.
pub open spec fn audit_item_json(item: AuditItemView) -> JsonView {
    match item {
        AuditItemView::Request { id, created_at, inc, conversation_id, payload } => {
            JsonView::Object(
                Map::<Seq<char>, JsonView>::empty().insert("kind"@, JsonView::Text("request"@)).insert(
                    "id"@,
                    JsonView::Text(id_text(id)),
                ).insert("created_at"@, JsonView::Integer(created_at.nanos)).insert(
                    "inc"@,
                    JsonView::Integer(inc as i64),
                ).insert("conversation_id"@, JsonView::Text(id_text(conversation_id))).insert(
                    "payload"@,
                    request_json(payload),
                ),
            )
        },
        AuditItemView::Response { id, created_at, conversation_id, request_id, payload } => {
            JsonView::Object(
                Map::<Seq<char>, JsonView>::empty().insert("kind"@, JsonView::Text("response"@)).insert(
                    "id"@,
                    JsonView::Text(id_text(id)),
                ).insert("created_at"@, JsonView::Integer(created_at.nanos)).insert(
                    "conversation_id"@,
                    JsonView::Text(id_text(conversation_id)),
                ).insert("request_id"@, JsonView::Text(id_text(request_id))).insert(
                    "payload"@,
                    response_json(payload),
                ),
            )
        },
        AuditItemView::Log { id, created_at, conversation_id, payload } => JsonView::Object(
            Map::<Seq<char>, JsonView>::empty().insert("kind"@, JsonView::Text("log"@)).insert(
                "id"@,
                JsonView::Text(id_text(id)),
            ).insert("created_at"@, JsonView::Integer(created_at.nanos)).insert(
                "conversation_id"@,
                JsonView::Text(id_text(conversation_id)),
            ).insert("payload"@, JsonView::Text(payload)),
        ),
    }
}

/// The names of the members of an audit item differ from one another.
pub proof fn lemma_audit_names_differ()
    ensures
        "kind"@ != "id"@,
        "kind"@ != "created_at"@,
        "kind"@ != "inc"@,
        "kind"@ != "conversation_id"@,
        "kind"@ != "request_id"@,
        "kind"@ != "payload"@,
        "id"@ != "created_at"@,
        "id"@ != "inc"@,
        "id"@ != "conversation_id"@,
        "id"@ != "request_id"@,
        "id"@ != "payload"@,
        "created_at"@ != "inc"@,
        "created_at"@ != "conversation_id"@,
        "created_at"@ != "request_id"@,
        "created_at"@ != "payload"@,
        "inc"@ != "conversation_id"@,
        "inc"@ != "request_id"@,
        "inc"@ != "payload"@,
        "conversation_id"@ != "request_id"@,
        "conversation_id"@ != "payload"@,
        "request_id"@ != "payload"@,
{
    reveal_strlit("kind");
    reveal_strlit("id");
    reveal_strlit("created_at");
    reveal_strlit("inc");
    reveal_strlit("conversation_id");
    reveal_strlit("request_id");
    reveal_strlit("payload");
    assert("kind"@.len() == 4);
    assert("id"@.len() == 2);
    assert("created_at"@.len() == 10);
    assert("inc"@.len() == 3);
    assert("conversation_id"@.len() == 15);
    assert("request_id"@.len() == 10 && "request_id"@[0] == 'r');
    assert("payload"@.len() == 7);
    assert("created_at"@[0] == 'c');
}

impl AuditItem {
    /// Writes the item as a document.
    pub fn to_json(&self) -> (j: Json)
        ensures
            j@ == audit_item_json(self@),
    {
        let mut members: Vec<(String, Json)> = Vec::new();
        proof {
            lemma_members_empty();
            lemma_audit_names_differ();
        }
        match self {
            AuditItem::Request { id, created_at, inc, conversation_id, payload } => {
                add_member(&mut members, "kind", Json::Text("request".to_owned()));
                add_member(&mut members, "id", Json::Text(id_to_string(*id)));
                add_member(&mut members, "created_at", Json::Integer(created_at.nanos));
                add_member(&mut members, "inc", Json::Integer(*inc as i64));
                add_member(
                    &mut members,
                    "conversation_id",
                    Json::Text(id_to_string(*conversation_id)),
                );
                add_member(&mut members, "payload", payload.to_json());
            },
            AuditItem::Response { id, created_at, conversation_id, request_id, payload } => {
                add_member(&mut members, "kind", Json::Text("response".to_owned()));
                add_member(&mut members, "id", Json::Text(id_to_string(*id)));
                add_member(&mut members, "created_at", Json::Integer(created_at.nanos));
                add_member(
                    &mut members,
                    "conversation_id",
                    Json::Text(id_to_string(*conversation_id)),
                );
                add_member(&mut members, "request_id", Json::Text(id_to_string(*request_id)));
                add_member(&mut members, "payload", payload.to_json());
            },
            AuditItem::Log { id, created_at, conversation_id, payload } => {
                add_member(&mut members, "kind", Json::Text("log".to_owned()));
                add_member(&mut members, "id", Json::Text(id_to_string(*id)));
                add_member(&mut members, "created_at", Json::Integer(created_at.nanos));
                add_member(
                    &mut members,
                    "conversation_id",
                    Json::Text(id_to_string(*conversation_id)),
                );
                add_member(&mut members, "payload", Json::Text(payload.clone()));
            },
        }
        let j = Json::Object(members);
        proof {
            lemma_json_value(j);
        }
        j
    }
}

/// A list of audit items as a document: the array of the items.
pub open spec fn audit_items_json(items: Seq<AuditItemView>) -> JsonView {
    JsonView::Array(items.map_values(|item: AuditItemView| audit_item_json(item)))
}

/// Writes a list of audit items as a document.
pub fn audit_items_to_json(items: &Vec<AuditItem>) -> (j: Json)
    ensures
        j@ == audit_items_json(item_views(items@)),
{
    let mut documents: Vec<Json> = Vec::new();
    let mut i: usize = 0;
    while i < items.len()
        invariant
            i <= items@.len(),
            documents@.len() == i,
            forall|k: int| 0 <= k < i ==> (#[trigger] documents@[k])@ == audit_item_json(items@[k]@),
        decreases items@.len() - i,
    {
        documents.push(items[i].to_json());
        i += 1;
    }
    let j = Json::Array(documents);
    proof {
        lemma_json_value(j);
        assert(json_views(documents@) =~= item_views(items@).map_values(
            |item: AuditItemView| audit_item_json(item),
        ));
    }
    j
}

/// A conversation as a document.
pub open spec fn conversation_json(c: RequestConversationView) -> JsonView {
    JsonView::Object(
        Map::<Seq<char>, JsonView>::empty().insert("id"@, JsonView::Text(id_text(c.id))).insert(
            "created_at"@,
            JsonView::Integer(c.created_at.nanos),
        ).insert("request_processor_id"@, JsonView::Text(id_text(c.request_processor_id))).insert(
            "audit_items"@,
            audit_items_json(c.audit_items),
        ),
    )
}

/// The names of the members of a conversation differ from one another.
pub proof fn lemma_conversation_names_differ()
    ensures
        "id"@ != "created_at"@,
        "id"@ != "request_processor_id"@,
        "id"@ != "audit_items"@,
        "created_at"@ != "request_processor_id"@,
        "created_at"@ != "audit_items"@,
        "request_processor_id"@ != "audit_items"@,
{
    reveal_strlit("id");
    reveal_strlit("created_at");
    reveal_strlit("request_processor_id");
    reveal_strlit("audit_items");
    assert("id"@.len() == 2);
    assert("created_at"@.len() == 10);
    assert("request_processor_id"@.len() == 20);
    assert("audit_items"@.len() == 11);
}

impl RequestConversation {
    /// Writes the conversation as a document.
    pub fn to_json(&self) -> (j: Json)
        ensures
            j@ == conversation_json(self@),
    {
        let mut members: Vec<(String, Json)> = Vec::new();
        proof {
            lemma_members_empty();
            lemma_conversation_names_differ();
        }
        add_member(&mut members, "id", Json::Text(id_to_string(self.id)));
        add_member(&mut members, "created_at", Json::Integer(self.created_at.nanos));
        add_member(
            &mut members,
            "request_processor_id",
            Json::Text(id_to_string(self.request_processor_id)),
        );
        add_member(&mut members, "audit_items", audit_items_to_json(&self.audit_items));
        let j = Json::Object(members);
        proof {
            lemma_json_value(j);
        }
        j
    }
}

/// The body of an error answer as a document.
pub open spec fn error_message_json(code: u16, message: Seq<char>) -> JsonView {
    JsonView::Object(
        Map::<Seq<char>, JsonView>::empty().insert("code"@, JsonView::Integer(code as i64)).insert(
            "message"@,
            JsonView::Text(message),
        ),
    )
}

impl ErrorMessage {
    /// Writes the body of an error answer as a document.
    pub fn to_json(&self) -> (j: Json)
        ensures
            j@ == error_message_json(self.code, self.message@),
    {
        let mut members: Vec<(String, Json)> = Vec::new();
        proof {
            lemma_members_empty();
            reveal_strlit("code");
            reveal_strlit("message");
            assert("code"@.len() == 4);
            assert("message"@.len() == 7);
        }
        add_member(&mut members, "code", Json::Integer(self.code as i64));
        add_member(&mut members, "message", Json::Text(self.message.clone()));
        let j = Json::Object(members);
        proof {
            lemma_json_value(j);
        }
        j
    }
}

/// A list of processors as a document: the array of the processors.
pub open spec fn processors_json(processors: Seq<RequestProcessorView>) -> JsonView {
    JsonView::Array(processors.map_values(|p: RequestProcessorView| processor_json(p)))
}

/// Writes a list of processors as a document.
pub fn processors_to_json(processors: &Vec<RequestProcessor>) -> (j: Json)
    ensures
        j@ == processors_json(processors@.map_values(|p: RequestProcessor| p@)),
{
    let mut documents: Vec<Json> = Vec::new();
    let mut i: usize = 0;
    while i < processors.len()
        invariant
            i <= processors@.len(),
            documents@.len() == i,
            forall|k: int|
                0 <= k < i ==> (#[trigger] documents@[k])@ == processor_json(processors@[k]@),
        decreases processors@.len() - i,
    {
        documents.push(processors[i].to_json());
        i += 1;
    }
    let j = Json::Array(documents);
    proof {
        lemma_json_value(j);
        assert(json_views(documents@) =~= processors@.map_values(
            |p: RequestProcessor| p@,
        ).map_values(|p: RequestProcessorView| processor_json(p)));
    }
    j
}

} // verus!
