//! The state of one invocation of a processor, and the operations that the
//! processor's code reaches it by.
//!
//! The state performs no I/O. An operation that writes to the audit trail
//! hands out the audit item for the caller to persist; the state records, as
//! its journal, the items handed out so far.

use vstd::prelude::*;
use crate::audit::{AuditItem, AuditItemView};
use crate::error::{ErrorView, Origin, RequestProcessorError};
use crate::headers::Headers;
use crate::ident::{id_text, id_to_string, lemma_id_text_chars, text_id};
use crate::json::Json;
use crate::outbound::{
    is_method,
    method_is_valid,
    outbound_headers,
    parses_as_url,
    url_is_valid,
    OutboundCall,
};
use crate::request::{Request, RequestResponseList, RequestSpec, RequestView};
use crate::response::{body_text, Response, ResponseView};
use crate::route::{lemma_conversation_route, route_of, Route};
use crate::wire::{json_request_spec, json_response, no_document, request_json, response_json};

verus! {

/// A counter of requests.
#[derive(Debug)]
pub struct RequestCounter(pub usize);

impl RequestCounter {
    /// Adds one to the counter and gives the value that it had.
    pub fn increment(&mut self) -> (before: usize)
        requires
            old(self).0 < usize::MAX,
        ensures
            before == old(self).0,
            final(self).0 == old(self).0 + 1,
    {
        let before = self.0;
        self.0 += 1;
        before
    }
}

/// The `inc` values of the request items of a list, in the order of the
/// list.
pub open spec fn request_incs(items: Seq<AuditItemView>) -> Seq<int>
    decreases items.len(),
{
    if items.len() == 0 {
        Seq::empty()
    } else {
        let front = request_incs(items.drop_last());
        match items.last() {
            AuditItemView::Request { inc, .. } => front.push(inc as int),
            _ => front,
        }
    }
}

/// The numbers from 0 up to, not including, `n`.
pub open spec fn counting(n: int) -> Seq<int> {
    Seq::new(n as nat, |i: int| i)
}

/// The largest number of requests that one invocation may issue.
pub const MAX_REQUESTS: usize = 0x7fff_ffff;

/// The name of the header that carries the conversation's identifier.
pub open spec fn conversation_header() -> Seq<char> {
    "FH-Conversation-Id"@
}

/// The state of one invocation.
pub struct RuntimeState {
    /// The number of requests that the processor's code has issued.
    pub counter: RequestCounter,
    /// The inbound request.
    pub request: Request,
    /// The identifier of the audit item of the inbound request.
    pub request_audit_id: u128,
    /// The requests issued and the responses received.
    pub request_list: RequestResponseList,
    /// The conversation of this invocation.
    pub conversation_id: u128,
    /// The final response, where the processor's code has set one.
    pub final_response: Option<Response>,
    /// The audit items handed out so far, in the order of the operations.
    pub journal: Ghost<Seq<AuditItemView>>,
}

/// `after` and `added` are what recording a request that the processor's
/// code issues does to the state `before` and gives: the request gets the
/// next index, which is its `inc`, is recorded under it, and its audit item
/// is handed out. Recording fails, and leaves the state as it was, exactly
/// when the counter has reached `MAX_REQUESTS`, beyond which an `inc` cannot
/// count.
pub open spec fn request_added(
    before: RuntimeState,
    after: RuntimeState,
    request: RequestView,
    added: Result<(usize, AuditItem), RequestProcessorError>,
) -> bool {
    &&& after.request@ == before.request@
    &&& after.conversation_id == before.conversation_id
    &&& after.request_audit_id == before.request_audit_id
    &&& after.final_response == before.final_response
    &&& after.request_list.responses@ == before.request_list.responses@
    &&& after.request_list.last_response == before.request_list.last_response
    &&& match added {
        Ok((inc, item)) => {
            &&& before.counter.0 < MAX_REQUESTS
            &&& inc == before.counter.0 + 1
            &&& after.counter.0 == inc
            &&& item@ == (AuditItemView::Request {
                id: item@.id(),
                created_at: item@.created_at(),
                inc: inc as i32,
                conversation_id: before.conversation_id,
                payload: request,
            })
            &&& after.journal@ == before.journal@.push(item@)
            &&& after.request_list.requests@.contains_key(inc)
            &&& after.request_list.requests@[inc]@ == request
            &&& after.request_list.requests@.remove(inc) == before.request_list.requests@.remove(
                inc,
            )
        },
        Err(e) => {
            &&& before.counter.0 == MAX_REQUESTS
            &&& e@ == (ErrorView::Processing {
                origin: Origin::Engine,
                message: "too many requests in one invocation"@,
            })
            &&& after.counter.0 == before.counter.0
            &&& after.journal@ == before.journal@
            &&& after.request_list.requests@ == before.request_list.requests@
        },
    }
}

/// `after` and `item` are what recording a response under the index of its
/// request does to the state `before` and hands out: the response is
/// recorded under the index in place of any that stood there, it becomes
/// the last response, and its audit item names the item of the inbound
/// request.
pub open spec fn response_recorded(
    before: RuntimeState,
    after: RuntimeState,
    idx: usize,
    response: ResponseView,
    item: AuditItemView,
) -> bool {
    &&& after.request@ == before.request@
    &&& after.conversation_id == before.conversation_id
    &&& after.request_audit_id == before.request_audit_id
    &&& after.final_response == before.final_response
    &&& after.counter.0 == before.counter.0
    &&& after.request_list.requests@ == before.request_list.requests@
    &&& after.request_list.last_response == Some(idx)
    &&& after.request_list.responses@.contains_key(idx)
    &&& after.request_list.responses@[idx]@ == response
    &&& after.request_list.responses@.remove(idx) == before.request_list.responses@.remove(idx)
    &&& after.request_list.last_response_body() == Some(body_text(response))
    &&& item == (AuditItemView::Response {
        id: item.id(),
        created_at: item.created_at(),
        conversation_id: before.conversation_id,
        request_id: before.request_audit_id,
        payload: response,
    })
    &&& after.journal@ == before.journal@.push(item)
}

impl RuntimeState {
    /// The state is consistent with its journal: the journal starts with the
    /// item of the inbound request, every item belongs to the conversation,
    /// the request items count up from 0 to the counter, and every response
    /// item names the item of the inbound request.
    pub open spec fn wf(&self) -> bool {
        &&& self.request_list.wf()
        &&& self.counter.0 <= MAX_REQUESTS
        &&& self.journal@.len() > 0
        &&& self.journal@[0] == (AuditItemView::Request {
            id: self.request_audit_id,
            created_at: self.journal@[0].created_at(),
            inc: 0,
            conversation_id: self.conversation_id,
            payload: self.request@,
        })
        &&& forall|i: int|
            0 <= i < self.journal@.len() ==> (#[trigger] self.journal@[i]).conversation_id()
                == self.conversation_id
        &&& forall|i: int|
            0 <= i < self.journal@.len() ==> match #[trigger] self.journal@[i] {
                AuditItemView::Response { request_id, .. } => request_id == self.request_audit_id,
                _ => true,
            }
        &&& request_incs(self.journal@) == counting(self.counter.0 + 1)
    }

    /// The body of the final response as the state stands: that of the final
    /// response where one is set, else that of the last response received,
    /// each empty where the response has no body; else the body of the
    /// inbound request.
    pub open spec fn final_body(&self) -> Seq<char> {
        match self.final_response {
            Some(r) => body_text(r@),
            None => match self.request_list.last_response_body() {
                Some(b) => b,
                None => self.request@.body,
            },
        }
    }

    /// The response that the invocation answers with as the state stands:
    /// the final response where one is set, else status 200 with no headers,
    /// the final body and version `HTTP/1.1`; in both cases with the
    /// conversation's identifier as the only value of `FH-Conversation-Id`.
    pub open spec fn answer(&self) -> ResponseView {
        let base = match self.final_response {
            Some(r) => r@,
            None => ResponseView {
                code: 200,
                headers: Map::empty(),
                body: Some(self.final_body()),
                version: "HTTP/1.1"@,
            },
        };
        ResponseView {
            headers: base.headers.insert(
                conversation_header(),
                seq![id_text(self.conversation_id)],
            ),
            ..base
        }
    }

    /// Starts the state of an invocation and hands out the audit item of the
    /// inbound request, which has `inc` 0.
    pub fn new(request: Request, conversation_id: u128) -> (started: (RuntimeState, AuditItem))
        ensures
            started.0.wf(),
            started.0.journal@ == seq![started.1@],
            started.0.request@ == request@,
            started.0.conversation_id == conversation_id,
            started.0.request_audit_id == started.1@.id(),
            started.0.counter.0 == 0,
            started.0.final_response is None,
            started.0.request_list.last_response is None,
            started.0.request_list.requests@ == Map::<usize, Request>::empty(),
            started.0.request_list.responses@ == Map::<usize, Response>::empty(),
            started.1@ == (AuditItemView::Request {
                id: started.1@.id(),
                created_at: started.1@.created_at(),
                inc: 0,
                conversation_id,
                payload: request@,
            }),
    {
        let item = AuditItem::new_request(conversation_id, 0, request.duplicate());
        let journal = Ghost(Seq::<AuditItemView>::empty().push(item@));
        let state = RuntimeState {
            counter: RequestCounter(0),
            request,
            request_audit_id: item.get_id(),
            request_list: RequestResponseList::new(),
            conversation_id,
            final_response: None,
            journal,
        };
        proof {
            lemma_request_incs_push(Seq::empty(), item@);
            assert(Seq::<AuditItemView>::empty().push(item@) =~= seq![item@]);
            assert(request_incs(Seq::<AuditItemView>::empty()).push(0int) =~= counting(1));
        }
        (state, item)
    }

    /// The inbound request.
    pub fn get_request(&self) -> (request: Request)
        ensures
            request@ == self.request@,
    {
        self.request.duplicate()
    }

    /// Records a request that the processor's code issues and hands out its
    /// index, which is its `inc`, and its audit item. Fails, and leaves the
    /// state as it was, exactly when the counter has reached `MAX_REQUESTS`.
    pub fn add_request(&mut self, request: Request) -> (added: Result<
        (usize, AuditItem),
        RequestProcessorError,
    >)
        requires
            old(self).wf(),
        ensures
            final(self).wf(),
            request_added(*old(self), *final(self), request@, added),
    {
        if self.counter.0 >= MAX_REQUESTS {
            return Err(
                RequestProcessorError::Processing {
                    origin: Origin::Engine,
                    message: "too many requests in one invocation".to_owned(),
                },
            );
        }
        self.counter.increment();
        let inc = self.counter.0;
        self.request_list.add_request(inc, request.duplicate());
        proof {
            assert(self.request_list.requests@.remove(inc) =~= old(
                self,
            ).request_list.requests@.remove(inc));
        }
        let item = AuditItem::new_request(self.conversation_id, inc as i32, request);
        proof {
            lemma_request_incs_push(self.journal@, item@);
            assert(counting(inc as int).push(inc as int) =~= counting(inc + 1));
            self.journal@ = self.journal@.push(item@);
        }
        Ok((inc, item))
    }

    /// Records a response received under the index of its request, makes it
    /// the last response, and hands out its audit item, which names the item
    /// of the inbound request.
    pub fn add_response(&mut self, idx: usize, response: Response) -> (item: AuditItem)
        requires
            old(self).wf(),
        ensures
            final(self).wf(),
            response_recorded(*old(self), *final(self), idx, response@, item@),
    {
        self.request_list.add_response(idx, response.duplicate());
        proof {
            assert(self.request_list.responses@.remove(idx) =~= old(
                self,
            ).request_list.responses@.remove(idx));
        }
        let item = AuditItem::new_response(self.conversation_id, self.request_audit_id, response);
        proof {
            lemma_request_incs_push(self.journal@, item@);
            self.journal@ = self.journal@.push(item@);
        }
        item
    }

    /// Sets the final response. No audit item is written.
    pub fn add_final_response(&mut self, response: Response)
        requires
            old(self).wf(),
        ensures
            final(self).wf(),
            final(self).final_response == Some(response),
            final(self).request@ == old(self).request@,
            final(self).conversation_id == old(self).conversation_id,
            final(self).request_audit_id == old(self).request_audit_id,
            final(self).counter.0 == old(self).counter.0,
            final(self).request_list == old(self).request_list,
            final(self).journal@ == old(self).journal@,
    {
        self.final_response = Some(response);
    }

    /// Hands out the audit item of a log entry.
    pub fn add_log_entry(&mut self, log: String) -> (item: AuditItem)
        requires
            old(self).wf(),
        ensures
            final(self).wf(),
            final(self).request@ == old(self).request@,
            final(self).conversation_id == old(self).conversation_id,
            final(self).request_audit_id == old(self).request_audit_id,
            final(self).final_response == old(self).final_response,
            final(self).counter.0 == old(self).counter.0,
            final(self).request_list == old(self).request_list,
            item@ == (AuditItemView::Log {
                id: item@.id(),
                created_at: item@.created_at(),
                conversation_id: old(self).conversation_id,
                payload: log@,
            }),
            final(self).journal@ == old(self).journal@.push(item@),
    {
        let item = AuditItem::new_log(self.conversation_id, log);
        proof {
            lemma_request_incs_push(self.journal@, item@);
            self.journal@ = self.journal@.push(item@);
        }
        item
    }

    /// The body of the final response as the state stands.
    pub fn get_final_response_body(&self) -> (body: Result<String, RequestProcessorError>)
        ensures
            body matches Ok(b) && b@ == self.final_body(),
    {
        match &self.final_response {
            Some(r) => Ok(r.body_or_empty()),
            None => match self.request_list.get_last_response_body() {
                Some(b) => Ok(b),
                None => Ok(self.request.body.clone()),
            },
        }
    }

    /// The response that the invocation answers with as the state stands.
    /// The value of its header `FH-Conversation-Id` reads back as the
    /// conversation's identifier, and behind `/conversation/` it is the path
    /// under which the conversation is fetched.
    pub fn final_response(&self) -> (response: Response)
        ensures
            response@ == self.answer(),
            text_id(id_text(self.conversation_id)) == Some(self.conversation_id),
            route_of("GET"@, "/conversation/"@ + id_text(self.conversation_id))
                == Route::GetConversation(self.conversation_id),
    {
        let mut response = match &self.final_response {
            Some(r) => r.duplicate(),
            None => {
                let body = match self.get_final_response_body() {
                    Ok(b) => b,
                    Err(_) => String::new(),
                };
                Response {
                    code: 200,
                    headers: Headers::new(),
                    body: Some(body),
                    version: "HTTP/1.1".to_owned(),
                }
            },
        };
        let mut values: Vec<String> = Vec::new();
        values.push(id_to_string(self.conversation_id));
        proof {
            assert(values.deep_view() =~= seq![id_text(self.conversation_id)]);
            lemma_id_text_chars(self.conversation_id);
            lemma_conversation_route(id_text(self.conversation_id), self.conversation_id);
        }
        response.headers.insert("FH-Conversation-Id".to_owned(), values);
        response
    }
}

/// What asking for an outbound call gives: the audit item of the request,
/// and the call to make, or why none is made.
#[derive(Debug)]
pub struct Dispatch {
    pub item: AuditItem,
    pub call: Result<OutboundCall, RequestProcessorError>,
}

/// The failure for an outbound call whose method or URL is not valid. The
/// method is judged first.
pub open spec fn dispatch_failure(method_ok: bool) -> ErrorView {
    ErrorView::Processing {
        origin: Origin::Outbound,
        message: if method_ok {
            "invalid URL"@
        } else {
            "invalid HTTP method"@
        },
    }
}

/// `after` and `asked` are what asking for an outbound call with the
/// request and the URL given did to the state `before` and gave, where
/// `method_ok` and `url_ok` say whether the method and the URL are valid.
///
/// The request is recorded under the next index, and its audit item handed
/// out, whether or not the call is made; only a full counter prevents that. The call is made
/// exactly when method and URL are valid. It carries the request's index,
/// method and body, the URL, and the request's headers with `accept:
/// application/json` added where the request names no `accept` header.
pub open spec fn dispatched(
    before: RuntimeState,
    after: RuntimeState,
    request: RequestView,
    url: Seq<char>,
    method_ok: bool,
    url_ok: bool,
    asked: Result<Dispatch, RequestProcessorError>,
) -> bool {
    &&& after.request@ == before.request@
    &&& after.conversation_id == before.conversation_id
    &&& after.request_audit_id == before.request_audit_id
    &&& after.final_response == before.final_response
    &&& after.request_list.responses@ == before.request_list.responses@
    &&& after.request_list.last_response == before.request_list.last_response
    &&& match asked {
        Err(e) => {
            &&& before.counter.0 == MAX_REQUESTS
            &&& e@ == (ErrorView::Processing {
                origin: Origin::Engine,
                message: "too many requests in one invocation"@,
            })
            &&& after.counter.0 == before.counter.0
            &&& after.journal@ == before.journal@
            &&& after.request_list.requests@ == before.request_list.requests@
        },
        Ok(d) => {
            &&& before.counter.0 < MAX_REQUESTS
            &&& after.counter.0 == before.counter.0 + 1
            &&& after.request_list.requests@.contains_key(after.counter.0)
            &&& after.request_list.requests@[after.counter.0]@ == request
            &&& after.request_list.requests@.remove(after.counter.0)
                == before.request_list.requests@.remove(after.counter.0)
            &&& d.item@ == (AuditItemView::Request {
                id: d.item@.id(),
                created_at: d.item@.created_at(),
                inc: (before.counter.0 + 1) as i32,
                conversation_id: before.conversation_id,
                payload: request,
            })
            &&& after.journal@ == before.journal@.push(d.item@)
            &&& match d.call {
                Ok(c) => {
                    &&& method_ok && url_ok
                    &&& c.inc == before.counter.0 + 1
                    &&& c.method@ == request.method
                    &&& c.url@ == url
                    &&& c.body@ == request.body
                    &&& c.headers@ == outbound_headers(request.headers)
                },
                Err(e) => !(method_ok && url_ok) && e@ == dispatch_failure(method_ok),
            }
        },
    }
}

impl RuntimeState {
    /// Asks for an outbound call, given whether its method and its URL are
    /// valid.
    pub fn dispatch_checked(&mut self, spec: RequestSpec, method_ok: bool, url_ok: bool) -> (asked:
        Result<Dispatch, RequestProcessorError>)
        requires
            old(self).wf(),
        ensures
            final(self).wf(),
            dispatched(
                *old(self),
                *final(self),
                spec.request@,
                spec.url@,
                method_ok,
                url_ok,
                asked,
            ),
    {
        let headers = spec.request.headers.outbound();
        let method = spec.request.method.clone();
        let body = spec.request.body.clone();
        let (inc, item) = match self.add_request(spec.request) {
            Ok(added) => added,
            Err(e) => {
                return Err(e);
            },
        };
        let call = if !method_ok {
            Err(
                RequestProcessorError::Processing {
                    origin: Origin::Outbound,
                    message: "invalid HTTP method".to_owned(),
                },
            )
        } else if !url_ok {
            Err(
                RequestProcessorError::Processing {
                    origin: Origin::Outbound,
                    message: "invalid URL".to_owned(),
                },
            )
        } else {
            Ok(OutboundCall { inc, method, url: spec.url, headers, body })
        };
        Ok(Dispatch { item, call })
    }

    /// Asks for an outbound call. The method is valid where it is an HTTP
    /// token, the URL where it reads as an absolute URL.
    pub fn dispatch_request(&mut self, spec: RequestSpec) -> (asked: Result<
        Dispatch,
        RequestProcessorError,
    >)
        requires
            old(self).wf(),
        ensures
            final(self).wf(),
            dispatched(
                *old(self),
                *final(self),
                spec.request@,
                spec.url@,
                is_method(spec.request@.method),
                parses_as_url(spec.url@),
                asked,
            ),
    {
        let method_ok = method_is_valid(spec.request.method.as_str());
        let url_ok = url_is_valid(spec.url.as_str());
        self.dispatch_checked(spec, method_ok, url_ok)
    }

    /// The operation `get_request`: the inbound request as a document.
    pub fn op_get_request(&self) -> (document: Json)
        ensures
            document@ == request_json(self.request@),
    {
        self.request.to_json()
    }

    /// The operation `respond_with`: sets the final response to the one
    /// that the document is. Fails, and leaves the state as it was, exactly
    /// when the document is no response. No audit item is written.
    pub fn op_respond_with(&mut self, args: &Json) -> (set: Result<(), RequestProcessorError>)
        requires
            old(self).wf(),
        ensures
            final(self).wf(),
            final(self).request@ == old(self).request@,
            final(self).conversation_id == old(self).conversation_id,
            final(self).request_audit_id == old(self).request_audit_id,
            final(self).counter.0 == old(self).counter.0,
            final(self).request_list == old(self).request_list,
            final(self).journal@ == old(self).journal@,
            match set {
                Ok(_) => final(self).final_response matches Some(r) && json_response(args@) == Some(
                    r@,
                ),
                Err(e) => {
                    &&& json_response(args@) is None
                    &&& e@ == no_document("response"@)
                    &&& final(self).final_response == old(self).final_response
                },
            },
    {
        match Response::from_json(args) {
            Ok(response) => {
                self.add_final_response(response);
                Ok(())
            },
            Err(e) => Err(e),
        }
    }

    /// The operation `dispatch_request`, up to the outbound call: asks for
    /// the call that the document describes. Fails, and leaves the state as
    /// it was, when the document describes none.
    pub fn op_dispatch_request(&mut self, args: &Json) -> (asked: Result<
        Dispatch,
        RequestProcessorError,
    >)
        requires
            old(self).wf(),
        ensures
            final(self).wf(),
            match json_request_spec(args@) {
                None => {
                    &&& asked matches Err(e)
                    &&& e@ == no_document("request spec"@)
                    &&& *final(self) == *old(self)
                },
                Some(described) => dispatched(
                    *old(self),
                    *final(self),
                    described.0,
                    described.1,
                    is_method(described.0.method),
                    parses_as_url(described.1),
                    asked,
                ),
            },
    {
        match RequestSpec::from_json(args) {
            Ok(spec) => self.dispatch_request(spec),
            Err(e) => Err(e),
        }
    }

    /// The operation `dispatch_request`, after the outbound call: records
    /// the response received for the request with index `inc`, and hands out
    /// its audit item and the response as a document.
    pub fn op_dispatch_response(&mut self, inc: usize, response: Response) -> (recorded: (
        AuditItem,
        Json,
    ))
        requires
            old(self).wf(),
        ensures
            final(self).wf(),
            response_recorded(*old(self), *final(self), inc, response@, recorded.0@),
            recorded.1@ == response_json(response@),
    {
        let document = response.to_json();
        let item = self.add_response(inc, response);
        (item, document)
    }

    /// Writes a log entry with the text given and hands out its audit item.
    /// Fails, and leaves the state as it was, exactly when no text is given.
    pub fn op_log(&mut self, data: Option<String>) -> (logged: Result<
        AuditItem,
        RequestProcessorError,
    >)
        requires
            old(self).wf(),
        ensures
            final(self).wf(),
            final(self).request@ == old(self).request@,
            final(self).conversation_id == old(self).conversation_id,
            final(self).request_audit_id == old(self).request_audit_id,
            final(self).final_response == old(self).final_response,
            final(self).counter.0 == old(self).counter.0,
            final(self).request_list == old(self).request_list,
            match logged {
                Ok(item) => {
                    &&& data matches Some(text)
                    &&& item@ == (AuditItemView::Log {
                        id: item@.id(),
                        created_at: item@.created_at(),
                        conversation_id: old(self).conversation_id,
                        payload: text@,
                    })
                    &&& final(self).journal@ == old(self).journal@.push(item@)
                },
                Err(e) => {
                    &&& data is None
                    &&& e@ == ErrorView::Custom(
                        "No 'data' attribute available for AuditEntry::Log"@,
                    )
                    &&& final(self).journal@ == old(self).journal@
                },
            },
    {
        match data {
            Some(text) => Ok(self.add_log_entry(text)),
            None => Err(
                RequestProcessorError::Custom(
                    "No 'data' attribute available for AuditEntry::Log".to_owned(),
                ),
            ),
        }
    }
}

/// The code that is run for a processor: the processor's code, between the
/// prelude and the sequel where it is to be wrapped.
pub open spec fn user_code(
    code: Seq<char>,
    wrap_prelude: bool,
    prelude: Seq<char>,
    sequel: Seq<char>,
) -> Seq<char> {
    if wrap_prelude {
        prelude + code + sequel
    } else {
        code
    }
}

/// Prepares the code that is run for a processor.
pub fn prepare_user_code(code: &str, wrap_prelude: bool, prelude: &str, sequel: &str) -> (final_code:
    String)
    ensures
        final_code@ == user_code(code@, wrap_prelude, prelude@, sequel@),
{
    let mut final_code = String::new();
    if wrap_prelude {
        final_code.append(prelude);
        final_code.append(code);
        final_code.append(sequel);
    } else {
        final_code.append(code);
    }
    proof {
        assert(Seq::<char>::empty() + prelude@ =~= prelude@);
        assert(Seq::<char>::empty() + code@ =~= code@);
    }
    final_code
}

/// What an item adds to the `inc` values of a list: its `inc` where it is a
/// request, nothing where it is not.
pub proof fn lemma_request_incs_push(items: Seq<AuditItemView>, item: AuditItemView)
    ensures
        request_incs(items.push(item)) == match item {
            AuditItemView::Request { inc, .. } => request_incs(items).push(inc as int),
            _ => request_incs(items),
        },
{
    assert(items.push(item).drop_last() =~= items);
}

} // verus!
