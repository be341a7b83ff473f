//! The rows in which processors and audit items are stored, and the
//! conversions between rows and values.

use vstd::prelude::*;
use crate::audit::{item_views, AuditItem, AuditItemView};
use crate::chronology::chronological;
use crate::error::{ErrorView, RequestProcessorError};
use crate::ident::Timestamp;
use crate::json::{Json, JsonView};
use crate::processor::{
    no_variant_text,
    RequestProcessor,
    RequestProcessorLanguage,
    RequestProcessorRuntime,
    RequestProcessorView,
};
use crate::request::Request;
use crate::response::Response;
use crate::text::text_eq;
use crate::wire::{
    document_error,
    json_request,
    json_response,
    law_request_round_trip,
    law_response_round_trip,
    no_document,
    request_json,
    response_json,
};

verus! {

/// A stored processor: language and runtime are kept as their tags.
#[derive(Debug)]
pub struct ProcessorRow {
    pub id: u128,
    pub name: String,
    pub language: String,
    pub runtime: String,
    pub code: String,
    pub user_id: String,
}

/// The mathematical value of a processor row.
pub struct ProcessorRowView {
    pub id: u128,
    pub name: Seq<char>,
    pub language: Seq<char>,
    pub runtime: Seq<char>,
    pub code: Seq<char>,
    pub user_id: Seq<char>,
}

impl View for ProcessorRow {
    type V = ProcessorRowView;

    open spec fn view(&self) -> ProcessorRowView {
        ProcessorRowView {
            id: self.id,
            name: self.name@,
            language: self.language@,
            runtime: self.runtime@,
            code: self.code@,
            user_id: self.user_id@,
        }
    }
}

/// The row that stores a processor.
pub open spec fn processor_row(p: RequestProcessorView) -> ProcessorRowView {
    ProcessorRowView {
        id: p.id,
        name: p.name,
        language: p.language.tag_text(),
        runtime: p.runtime.tag_text(),
        code: p.code,
        user_id: p.user_id,
    }
}

/// The processor that a row stores. A row whose language or runtime is no
/// known tag stores none.
pub open spec fn row_processor(row: ProcessorRowView) -> Result<RequestProcessorView, ErrorView> {
    if row.language != "javascript"@ || row.runtime != "v8"@ {
        Err(ErrorView::Parse(no_variant_text()))
    } else {
        Ok(
            RequestProcessorView {
                id: row.id,
                name: row.name,
                language: RequestProcessorLanguage::Javascript,
                runtime: RequestProcessorRuntime::V8,
                code: row.code,
                user_id: row.user_id,
            },
        )
    }
}

/// The value of what reading a processor gives.
pub open spec fn processor_outcome(r: Result<RequestProcessor, RequestProcessorError>) -> Result<
    RequestProcessorView,
    ErrorView,
> {
    match r {
        Ok(p) => Ok(p@),
        Err(e) => Err(e@),
    }
}

/// A stored processor reads back as it was.
pub proof fn law_processor_row_round_trip(p: RequestProcessorView)
    ensures
        row_processor(processor_row(p)) == Ok::<RequestProcessorView, ErrorView>(p),
{
}

impl ProcessorRow {
    /// A copy of the row.
    pub fn duplicate(&self) -> (copy: ProcessorRow)
        ensures
            copy@ == self@,
    {
        ProcessorRow {
            id: self.id,
            name: self.name.clone(),
            language: self.language.clone(),
            runtime: self.runtime.clone(),
            code: self.code.clone(),
            user_id: self.user_id.clone(),
        }
    }
}

impl RequestProcessor {
    /// The row that stores the processor.
    pub fn to_row(&self) -> (row: ProcessorRow)
        ensures
            row@ == processor_row(self@),
    {
        ProcessorRow {
            id: self.id,
            name: self.name.clone(),
            language: self.language.tag().to_owned(),
            runtime: self.runtime.tag().to_owned(),
            code: self.code.clone(),
            user_id: self.user_id.clone(),
        }
    }

    /// The processor that a row stores.
    pub fn from_row(row: &ProcessorRow) -> (read: Result<RequestProcessor, RequestProcessorError>)
        ensures
            processor_outcome(read) == row_processor(row@),
    {
        let language = match RequestProcessorLanguage::from_tag(row.language.as_str()) {
            Ok(l) => l,
            Err(e) => {
                return Err(e);
            },
        };
        let runtime = match RequestProcessorRuntime::from_tag(row.runtime.as_str()) {
            Ok(r) => r,
            Err(e) => {
                return Err(e);
            },
        };
        Ok(
            RequestProcessor {
                id: row.id,
                name: row.name.clone(),
                language,
                runtime,
                code: row.code.clone(),
                user_id: row.user_id.clone(),
            },
        )
    }
}

/// What an audit row carries: a JSON document, or plain text.
#[derive(Debug)]
pub enum AuditPayload {
    Document(Json),
    Text(String),
}

/// The mathematical value of a payload.
pub enum AuditPayloadView {
    Document(JsonView),
    Text(Seq<char>),
}

impl View for AuditPayload {
    type V = AuditPayloadView;

    open spec fn view(&self) -> AuditPayloadView {
        match self {
            AuditPayload::Document(j) => AuditPayloadView::Document(j@),
            AuditPayload::Text(t) => AuditPayloadView::Text(t@),
        }
    }
}

/// True for the kinds of audit rows whose payload is a JSON document:
/// `request` and `response`.
pub fn kind_carries_document(kind: &str) -> (carries: bool)
    ensures
        carries == (kind@ == "request"@ || kind@ == "response"@),
{
    text_eq(kind, "request") || text_eq(kind, "response")
}

/// The payload of a stored audit item of the kind given, whose payload is
/// stored as the text given: for a kind that carries a document, the
/// document that the text writes, or null where it writes none; for any
/// other kind, the text.
pub open spec fn stored_payload(
    kind: Seq<char>,
    text: Seq<char>,
    document: Option<JsonView>,
) -> AuditPayloadView {
    if kind == "request"@ || kind == "response"@ {
        match document {
            Some(j) => AuditPayloadView::Document(j),
            None => AuditPayloadView::Document(JsonView::Null),
        }
    } else {
        AuditPayloadView::Text(text)
    }
}

impl AuditPayload {
    /// The payload of a stored audit item of the kind given, from the text
    /// that stores it and the document that the text writes, if it writes
    /// one.
    pub fn read(kind: &str, text: String, document: Option<Json>) -> (payload: AuditPayload)
        ensures
            payload@ == stored_payload(
                kind@,
                text@,
                match document {
                    Some(j) => Some(j@),
                    None => None,
                },
            ),
    {
        if kind_carries_document(kind) {
            match document {
                Some(j) => AuditPayload::Document(j),
                None => AuditPayload::Document(Json::Null),
            }
        } else {
            AuditPayload::Text(text)
        }
    }
}

/// A stored audit item. `kind` is one of `request`, `response` and `log`;
/// `inc` is set for requests only, `request_id` for responses only. The
/// payload of a request or a response is its JSON document, that of a log
/// entry its text.
#[derive(Debug)]
pub struct DbAuditItem {
    pub id: u128,
    pub kind: String,
    pub created_at: Timestamp,
    pub inc: Option<i32>,
    pub conversation_id: u128,
    pub request_id: Option<u128>,
    pub payload: AuditPayload,
}

/// The mathematical value of an audit row.
pub struct DbAuditItemView {
    pub id: u128,
    pub kind: Seq<char>,
    pub created_at: Timestamp,
    pub inc: Option<i32>,
    pub conversation_id: u128,
    pub request_id: Option<u128>,
    pub payload: AuditPayloadView,
}

impl View for DbAuditItem {
    type V = DbAuditItemView;

    open spec fn view(&self) -> DbAuditItemView {
        DbAuditItemView {
            id: self.id,
            kind: self.kind@,
            created_at: self.created_at,
            inc: self.inc,
            conversation_id: self.conversation_id,
            request_id: self.request_id,
            payload: self.payload@,
        }
    }
}

/// The values of a list of audit rows.
pub open spec fn row_views(rows: Seq<DbAuditItem>) -> Seq<DbAuditItemView> {
    rows.map_values(|row: DbAuditItem| row@)
}

/// The row that stores an audit item.
pub open spec fn audit_row(item: AuditItemView) -> DbAuditItemView {
    match item {
        AuditItemView::Request { id, created_at, inc, conversation_id, payload } => {
            DbAuditItemView {
                id,
                kind: "request"@,
                created_at,
                inc: Some(inc),
                conversation_id,
                request_id: None,
                payload: AuditPayloadView::Document(request_json(payload)),
            }
        },
        AuditItemView::Response { id, created_at, conversation_id, request_id, payload } => {
            DbAuditItemView {
                id,
                kind: "response"@,
                created_at,
                inc: None,
                conversation_id,
                request_id: Some(request_id),
                payload: AuditPayloadView::Document(response_json(payload)),
            }
        },
        AuditItemView::Log { id, created_at, conversation_id, payload } => DbAuditItemView {
            id,
            kind: "log"@,
            created_at,
            inc: None,
            conversation_id,
            request_id: None,
            payload: AuditPayloadView::Text(payload),
        },
    }
}

/// The request that a payload is, if it is one.
pub open spec fn payload_request(payload: AuditPayloadView) -> Option<crate::request::RequestView> {
    match payload {
        AuditPayloadView::Document(j) => json_request(j),
        AuditPayloadView::Text(_) => None,
    }
}

/// The response that a payload is, if it is one.
pub open spec fn payload_response(payload: AuditPayloadView) -> Option<
    crate::response::ResponseView,
> {
    match payload {
        AuditPayloadView::Document(j) => json_response(j),
        AuditPayloadView::Text(_) => None,
    }
}

/// The audit item that a row stores, or why it stores none: a request row
/// needs `inc` and the document of a request as payload, a response row
/// needs `request_id` and the document of a response as payload, a log row
/// needs text as payload, and no other kind is known.
pub open spec fn row_item(row: DbAuditItemView) -> Result<AuditItemView, ErrorView> {
    if row.kind == "request"@ {
        match (row.inc, payload_request(row.payload)) {
            (None, _) => Err(
                ErrorView::EmptyDbField("Field 'inc' must not be NULL for kind 'request'"@),
            ),
            (Some(inc), Some(payload)) => Ok(
                AuditItemView::Request {
                    id: row.id,
                    created_at: row.created_at,
                    inc,
                    conversation_id: row.conversation_id,
                    payload,
                },
            ),
            (Some(_), None) => Err(no_document("request"@)),
        }
    } else if row.kind == "response"@ {
        match (row.request_id, payload_response(row.payload)) {
            (None, _) => Err(
                ErrorView::EmptyDbField("Field 'request' must not be NULL for kind 'response'"@),
            ),
            (Some(request_id), Some(payload)) => Ok(
                AuditItemView::Response {
                    id: row.id,
                    created_at: row.created_at,
                    conversation_id: row.conversation_id,
                    request_id,
                    payload,
                },
            ),
            (Some(_), None) => Err(no_document("response"@)),
        }
    } else if row.kind == "log"@ {
        match row.payload {
            AuditPayloadView::Text(payload) => Ok(
                AuditItemView::Log {
                    id: row.id,
                    created_at: row.created_at,
                    conversation_id: row.conversation_id,
                    payload,
                },
            ),
            _ => Err(no_document("log entry"@)),
        }
    } else {
        Err(ErrorView::Custom("Unsupported AuditItem type: '"@ + row.kind + "'"@))
    }
}

/// The value of what reading an audit item gives.
pub open spec fn item_outcome(r: Result<AuditItem, RequestProcessorError>) -> Result<
    AuditItemView,
    ErrorView,
> {
    match r {
        Ok(i) => Ok(i@),
        Err(e) => Err(e@),
    }
}

/// The three kinds of audit rows have three different tags.
pub proof fn lemma_kinds_differ()
    ensures
        "request"@ != "response"@,
        "request"@ != "log"@,
        "response"@ != "log"@,
{
    reveal_strlit("request");
    reveal_strlit("response");
    reveal_strlit("log");
    assert("request"@.len() == 7);
    assert("response"@.len() == 8);
    assert("log"@.len() == 3);
}

/// A stored audit item reads back as it was.
pub proof fn lemma_audit_row_round_trip(item: AuditItemView)
    ensures
        row_item(audit_row(item)) == Ok::<AuditItemView, ErrorView>(item),
{
    lemma_kinds_differ();
    match item {
        AuditItemView::Request { payload, .. } => {
            law_request_round_trip(payload);
        },
        AuditItemView::Response { payload, .. } => {
            law_response_round_trip(payload);
        },
        _ => {},
    }
}

impl AuditItem {
    /// The row that stores the item.
    pub fn to_audit_db_item(&self) -> (row: DbAuditItem)
        ensures
            row@ == audit_row(self@),
    {
        match self {
            AuditItem::Request { id, conversation_id, created_at, inc, payload } => DbAuditItem {
                kind: "request".to_owned(),
                id: *id,
                conversation_id: *conversation_id,
                created_at: *created_at,
                inc: Some(*inc),
                payload: AuditPayload::Document(payload.to_json()),
                request_id: None,
            },
            AuditItem::Response { id, created_at, conversation_id, request_id, payload } => {
                DbAuditItem {
                    kind: "response".to_owned(),
                    id: *id,
                    conversation_id: *conversation_id,
                    created_at: *created_at,
                    inc: None,
                    payload: AuditPayload::Document(payload.to_json()),
                    request_id: Some(*request_id),
                }
            },
            AuditItem::Log { id, created_at, conversation_id, payload } => DbAuditItem {
                kind: "log".to_owned(),
                id: *id,
                conversation_id: *conversation_id,
                created_at: *created_at,
                inc: None,
                payload: AuditPayload::Text(payload.clone()),
                request_id: None,
            },
        }
    }

    /// The item that a row stores, or why the row stores none.
    pub fn from_db_audit_item(item: &DbAuditItem) -> (read: Result<
        AuditItem,
        RequestProcessorError,
    >)
        ensures
            item_outcome(read) == row_item(item@),
    {
        if text_eq(item.kind.as_str(), "request") {
            let inc = match item.inc {
                Some(inc) => inc,
                None => {
                    return Err(
                        RequestProcessorError::EmptyDbField(
                            "Field 'inc' must not be NULL for kind 'request'".to_owned(),
                        ),
                    );
                },
            };
            let payload = match &item.payload {
                AuditPayload::Document(j) => Request::from_json(j),
                AuditPayload::Text(_) => Err(document_error("request")),
            };
            match payload {
                Ok(payload) => Ok(
                    AuditItem::Request {
                        id: item.id,
                        created_at: item.created_at,
                        inc,
                        conversation_id: item.conversation_id,
                        payload,
                    },
                ),
                Err(e) => Err(e),
            }
        } else if text_eq(item.kind.as_str(), "response") {
            let request_id = match item.request_id {
                Some(request_id) => request_id,
                None => {
                    return Err(
                        RequestProcessorError::EmptyDbField(
                            "Field 'request' must not be NULL for kind 'response'".to_owned(),
                        ),
                    );
                },
            };
            let payload = match &item.payload {
                AuditPayload::Document(j) => Response::from_json(j),
                AuditPayload::Text(_) => Err(document_error("response")),
            };
            match payload {
                Ok(payload) => Ok(
                    AuditItem::Response {
                        id: item.id,
                        created_at: item.created_at,
                        conversation_id: item.conversation_id,
                        request_id,
                        payload,
                    },
                ),
                Err(e) => Err(e),
            }
        } else if text_eq(item.kind.as_str(), "log") {
            match &item.payload {
                AuditPayload::Text(payload) => Ok(
                    AuditItem::Log {
                        id: item.id,
                        created_at: item.created_at,
                        conversation_id: item.conversation_id,
                        payload: payload.clone(),
                    },
                ),
                _ => Err(document_error("log entry")),
            }
        } else {
            let mut text = "Unsupported AuditItem type: '".to_owned();
            text.append(item.kind.as_str());
            text.append("'");
            Err(RequestProcessorError::Custom(text))
        }
    }
}

/// The items that a list of rows stores, in the order of the rows, or the
/// failure of the first row that stores none.
pub open spec fn rows_items(rows: Seq<DbAuditItemView>) -> Result<Seq<AuditItemView>, ErrorView>
    decreases rows.len(),
{
    if rows.len() == 0 {
        Ok(Seq::empty())
    } else {
        match rows_items(rows.drop_last()) {
            Err(e) => Err(e),
            Ok(items) => match row_item(rows.last()) {
                Err(e) => Err(e),
                Ok(item) => Ok(items.push(item)),
            },
        }
    }
}

/// What reading the audit items of a conversation from its rows gives: the
/// items that the rows store, in the order in which they are shown.
pub open spec fn rows_shown(rows: Seq<DbAuditItemView>) -> Result<Seq<AuditItemView>, ErrorView> {
    match rows_items(rows) {
        Err(e) => Err(e),
        Ok(items) => Ok(chronological(items)),
    }
}

/// The value of what reading a list of audit items gives.
pub open spec fn items_outcome(r: Result<Vec<AuditItem>, RequestProcessorError>) -> Result<
    Seq<AuditItemView>,
    ErrorView,
> {
    match r {
        Ok(items) => Ok(item_views(items@)),
        Err(e) => Err(e@),
    }
}

/// Where the first rows of a list store no items, the list stores none, for
/// the same reason.
pub proof fn lemma_rows_items_fail(rows: Seq<DbAuditItemView>, n: int)
    requires
        0 <= n <= rows.len(),
        rows_items(rows.take(n)) is Err,
    ensures
        rows_items(rows) == rows_items(rows.take(n)),
    decreases rows.len() - n,
{
    if n < rows.len() {
        assert(rows.take(n + 1).drop_last() =~= rows.take(n));
        lemma_rows_items_fail(rows, n + 1);
    } else {
        assert(rows.take(n) =~= rows);
    }
}

} // verus!
