//! What the HTTP front end decides: what to do with an inbound request, and
//! how the reply to it is rendered.

use vstd::prelude::*;
use vstd::utf8::{decode_utf8, valid_utf8};
use crate::audit::item_views;
use crate::command::{ReqCmd, ReqReply};
use crate::engine::ProcessorCmd;
use crate::error::{
    handle_rejections,
    rejection_code,
    rejection_message,
    Rejection,
    RequestProcessorError,
};
use crate::headers::{group_pairs, pair_texts, text_pairs, value_text};
use crate::json::{Json, JsonView};
use crate::outbound::{same_header, same_header_name};
use crate::processor::{
    drafted,
    made_as,
    made_id,
    owner_of,
    owner_text,
    ProcessorDraft,
    RequestProcessor,
    RequestProcessorView,
};
use crate::request::{version_text, HttpVersion, Request, RequestView};
use crate::response::{Response, ResponseView};
use crate::route::{route, route_of, Route};
use crate::wire::{
    audit_item_json,
    audit_items_json,
    audit_items_to_json,
    conversation_json,
    error_message_json,
    json_draft,
    no_document,
    processor_json,
    processors_json,
    processors_to_json,
    response_json,
};

verus! {

/// The base URL under which the application is reached.
#[derive(Debug)]
pub struct ApplicationBaseUrl(pub String);

/// The answer to a run: the response, which is sent as the JSON body, and
/// the conversation's identifier, which is sent as the header
/// `FH-Conversation-Id`.
#[derive(Debug)]
pub struct RunAnswer {
    pub response: Response,
    pub conversation_id: String,
}

/// The first value of the header `FH-Conversation-Id` of a response, if it
/// has one.
pub open spec fn conversation_of(response: ResponseView) -> Option<Seq<char>> {
    if response.headers.contains_key("FH-Conversation-Id"@)
        && response.headers["FH-Conversation-Id"@].len() > 0 {
        Some(response.headers["FH-Conversation-Id"@][0])
    } else {
        None
    }
}

/// Renders the engine's reply to a run. A failure is turned down as the
/// failure that it is. A response is answered with its conversation's
/// identifier; one that names no conversation is turned down as unhandled.
pub fn render_run(reply: Result<Response, RequestProcessorError>) -> (rendered: Result<
    RunAnswer,
    Rejection,
>)
    ensures
        match reply {
            Err(e) => rendered matches Err(Rejection::Processor(f)) && f@ == e@,
            Ok(response) => match conversation_of(response@) {
                Some(id) => {
                    &&& rendered matches Ok(answer)
                    &&& answer.response@ == response@
                    &&& answer.conversation_id@ == id
                },
                None => rendered matches Err(Rejection::Unhandled),
            },
        },
{
    match reply {
        Err(e) => Err(Rejection::Processor(e)),
        Ok(response) => {
            let found = match response.headers.get("FH-Conversation-Id") {
                Some(values) => if values.len() > 0 {
                    Some(values[0].clone())
                } else {
                    None
                },
                None => None,
            };
            match found {
                Some(conversation_id) => Ok(RunAnswer { response, conversation_id }),
                None => Err(Rejection::Unhandled),
            }
        },
    }
}

/// An HTTP answer: the status, the value of the header
/// `FH-Conversation-Id` where the answer carries it, and the JSON body
/// where the answer has one.
#[derive(Debug)]
pub struct HttpAnswer {
    pub status: u16,
    pub conversation_id: Option<String>,
    pub body: Option<Json>,
}

/// The value of the body of an answer.
pub open spec fn body_view(body: Option<Json>) -> Option<JsonView> {
    match body {
        Some(j) => Some(j@),
        None => None,
    }
}

/// The answer to a rejection: its status, and its status and message as
/// the body.
pub open spec fn rejected(r: Rejection) -> (u16, Option<JsonView>) {
    (rejection_code(r), Some(error_message_json(rejection_code(r), rejection_message(r))))
}

/// Renders what a handler came to: a body, if any, is answered with status
/// 200; a rejection with its status, and its status and message as the body.
pub fn render(outcome: Result<Option<Json>, Rejection>) -> (answer: HttpAnswer)
    ensures
        answer.conversation_id is None,
        match outcome {
            Ok(body) => answer.status == 200 && body_view(answer.body) == body_view(body),
            Err(r) => (answer.status, body_view(answer.body)) == rejected(r),
        },
{
    match outcome {
        Ok(body) => HttpAnswer { status: 200, conversation_id: None, body },
        Err(r) => {
            let message = handle_rejections(&r);
            HttpAnswer {
                status: message.code,
                conversation_id: None,
                body: Some(message.to_json()),
            }
        },
    }
}

/// Renders the engine's reply to a run: a response that names its
/// conversation is answered with status 200, the conversation's identifier
/// as header and the response as body; everything else as the rejection
/// that `render_run` makes of it.
pub fn render_run_answer(reply: Result<Response, RequestProcessorError>) -> (answer: HttpAnswer)
    ensures
        match reply {
            Ok(response) => match conversation_of(response@) {
                Some(id) => {
                    &&& answer.status == 200
                    &&& answer.conversation_id.deep_view() == Some(id)
                    &&& body_view(answer.body) == Some(response_json(response@))
                },
                None => {
                    &&& answer.conversation_id is None
                    &&& (answer.status, body_view(answer.body)) == rejected(Rejection::Unhandled)
                },
            },
            Err(e) => {
                &&& answer.conversation_id is None
                &&& (answer.status, body_view(answer.body)) == rejected(Rejection::Processor(e))
            },
        },
{
    match render_run(reply) {
        Ok(run) => HttpAnswer {
            status: 200,
            conversation_id: Some(run.conversation_id),
            body: Some(run.response.to_json()),
        },
        Err(r) => render(Err(r)),
    }
}

/// The text with which a body that is no JSON is turned down.
pub open spec fn no_json_text() -> Seq<char> {
    "request body is no JSON"@
}

/// The processor that a request body describes, for the owner and under
/// the identifier given; or the text with which the body is turned down:
/// because it is no JSON, because it describes no processor, or because its
/// language is not `javascript` or its runtime is not `v8`.
pub open spec fn described_processor(body: Option<JsonView>, owner: Seq<char>, id: u128) -> Result<
    RequestProcessorView,
    Seq<char>,
> {
    match body {
        None => Err(no_json_text()),
        Some(j) => match json_draft(j) {
            None => Err(crate::error::message_of(no_document("request processor"@))),
            Some(draft) => drafted(draft, owner, id),
        },
    }
}

/// Reads the processor that the body of a request describes, for the user
/// given; nothing is passed as body where the body is no JSON. The processor
/// gets a fresh identifier.
pub fn read_processor(body: Option<Json>, user_id: Option<String>) -> (made: Result<
    RequestProcessor,
    Rejection,
>)
    ensures
        made_as(made, described_processor(body_view(body), owner_text(user_id), made_id(made))),
{
    match &body {
        None => Err(Rejection::BodyDeserialize("request body is no JSON".to_owned())),
        Some(j) => match ProcessorDraft::from_json(j) {
            Err(e) => Err(Rejection::BodyDeserialize(e.message())),
            Ok(draft) => RequestProcessor::from_draft(draft, user_id),
        },
    }
}

/// The body with which the storage actor's reply is answered where it
/// reports success: what the reply gives, as a document; none for a removal.
pub open spec fn reply_body(reply: ReqReply) -> Option<JsonView> {
    match reply {
        ReqReply::Processor(Ok(p)) => Some(processor_json(p@)),
        ReqReply::Processors(Ok(ps)) => Some(
            processors_json(ps@.map_values(|p: RequestProcessor| p@)),
        ),
        ReqReply::Deleted(Ok(_)) => None,
        ReqReply::Conversation(Ok(c)) => Some(conversation_json(c@)),
        ReqReply::AuditItem(Ok(i)) => Some(audit_item_json(i@)),
        ReqReply::AuditItems(Ok(items)) => Some(audit_items_json(item_views(items@))),
        _ => None,
    }
}

/// The failure that the storage actor's reply reports, if it reports one.
pub open spec fn reply_failure(reply: ReqReply) -> Option<RequestProcessorError> {
    match reply {
        ReqReply::Processor(Err(e)) => Some(e),
        ReqReply::Processors(Err(e)) => Some(e),
        ReqReply::Deleted(Err(e)) => Some(e),
        ReqReply::Conversation(Err(e)) => Some(e),
        ReqReply::AuditItem(Err(e)) => Some(e),
        ReqReply::AuditItems(Err(e)) => Some(e),
        _ => None,
    }
}

/// Renders the storage actor's reply: success is answered with status 200
/// and what the reply gives as body, a failure as the rejection that it is.
pub fn render_reply(reply: ReqReply) -> (answer: HttpAnswer)
    ensures
        answer.conversation_id is None,
        match reply_failure(reply) {
            Some(e) => (answer.status, body_view(answer.body)) == rejected(Rejection::Processor(e)),
            None => answer.status == 200 && body_view(answer.body) == reply_body(reply),
        },
{
    let outcome = match reply {
        ReqReply::Processor(Ok(p)) => Ok(Some(p.to_json())),
        ReqReply::Processors(Ok(ps)) => Ok(Some(processors_to_json(&ps))),
        ReqReply::Deleted(Ok(_)) => Ok(None),
        ReqReply::Conversation(Ok(c)) => Ok(Some(c.to_json())),
        ReqReply::AuditItem(Ok(i)) => Ok(Some(i.to_json())),
        ReqReply::AuditItems(Ok(items)) => Ok(Some(audit_items_to_json(&items))),
        ReqReply::Processor(Err(e)) => Err(Rejection::Processor(e)),
        ReqReply::Processors(Err(e)) => Err(Rejection::Processor(e)),
        ReqReply::Deleted(Err(e)) => Err(Rejection::Processor(e)),
        ReqReply::Conversation(Err(e)) => Err(Rejection::Processor(e)),
        ReqReply::AuditItem(Err(e)) => Err(Rejection::Processor(e)),
        ReqReply::AuditItems(Err(e)) => Err(Rejection::Processor(e)),
    };
    render(outcome)
}

/// An inbound HTTP request as it was read: the method, the path, the query
/// string if there is one, the version, the headers as (name, value) pairs
/// in the order read, with no value where a value is no text, the whole
/// body, and the JSON document that the body writes where it writes one.
#[derive(Debug)]
pub struct Inbound {
    pub method: String,
    pub path: String,
    pub query: Option<String>,
    pub version: HttpVersion,
    pub headers: Vec<(String, Option<String>)>,
    pub body: Vec<u8>,
    pub document: Option<Json>,
}

/// What the front end does with an inbound request: it sends a command to
/// the storage actor or to the engine actor and renders the reply, or it
/// answers at once.
#[derive(Debug)]
pub enum FrontAction {
    Storage(ReqCmd),
    Engine(ProcessorCmd),
    Answer(HttpAnswer),
}

/// The user that the headers of a request name: the value of the first
/// header `fh-user-id`.
pub open spec fn user_of(headers: Seq<(Seq<char>, Option<Seq<char>>)>) -> Option<Seq<char>>
    decreases headers.len(),
{
    if headers.len() == 0 {
        None
    } else if same_header(headers.first().0, "fh-user-id"@) {
        Some(value_text(headers.first().1))
    } else {
        user_of(headers.drop_first())
    }
}

/// The owner that the headers of a request name: the user, or `anonymous`.
pub open spec fn owner_of_headers(headers: Seq<(Seq<char>, Option<Seq<char>>)>) -> Seq<char> {
    match user_of(headers) {
        Some(u) => u,
        None => crate::processor::anonymous(),
    }
}

/// The user that the headers of a request name.
pub fn find_user(headers: &Vec<(String, Option<String>)>) -> (user: Option<String>)
    ensures
        user.deep_view() == user_of(headers.deep_view()),
        owner_text(user) == owner_of_headers(headers.deep_view()),
{
    let ghost all = headers.deep_view();
    let mut i: usize = 0;
    proof {
        assert(all.skip(0) =~= all);
    }
    while i < headers.len()
        invariant
            i <= headers@.len(),
            all == headers.deep_view(),
            user_of(all) == user_of(all.skip(i as int)),
        decreases headers@.len() - i,
    {
        proof {
            assert(all.skip(i as int).drop_first() =~= all.skip(i as int + 1));
            assert(all.skip(i as int).first() == all[i as int]);
        }
        if same_header_name(headers[i].0.as_str(), "fh-user-id") {
            let user = match &headers[i].1 {
                Some(v) => v.clone(),
                None => String::new(),
            };
            return Some(user);
        }
        i += 1;
    }
    None
}

/// The request that an inbound request is handed to a processor as, where
/// its body is UTF-8.
pub open spec fn inbound_request(inbound: Inbound) -> Option<RequestView> {
    if valid_utf8(inbound.body@) {
        Some(
            RequestView {
                headers: group_pairs(pair_texts(inbound.headers.deep_view())),
                body: decode_utf8(inbound.body@),
                method: inbound.method@,
                path: inbound.path@,
                query: inbound.query.deep_view(),
                version: version_text(inbound.version),
            },
        )
    } else {
        None
    }
}

/// The mathematical value of an answer: its status, the value of its
/// header `FH-Conversation-Id`, and its body.
pub open spec fn answer_view(answer: HttpAnswer) -> (u16, Option<Seq<char>>, Option<JsonView>) {
    (answer.status, answer.conversation_id.deep_view(), body_view(answer.body))
}

/// The answer that turns a request down with the status and the message
/// given.
pub open spec fn turned_down(code: u16, message: Seq<char>) -> (
    u16,
    Option<Seq<char>>,
    Option<JsonView>,
) {
    (code, None, Some(error_message_json(code, message)))
}

/// The action stores or replaces the processor that the request describes,
/// or answers that its body is unreadable.
pub open spec fn stores_processor(inbound: Inbound, action: FrontAction, replaced: Option<u128>) -> bool {
    let owner = owner_of_headers(inbound.headers.deep_view());
    let body = body_view(inbound.document);
    match described_processor(body, owner, 0) {
        Err(text) => action matches FrontAction::Answer(a) && answer_view(a) == turned_down(
            400,
            text,
        ),
        Ok(_) => match replaced {
            None => action matches FrontAction::Storage(ReqCmd::CreateRequestProcessor { proc })
                && described_processor(body, owner, proc.id) == Ok::<RequestProcessorView, Seq<char>>(
                proc@,
            ),
            Some(id) => action matches FrontAction::Storage(
                ReqCmd::UpdateRequestProcessor { id: i, proc },
            ) && i == id && described_processor(body, owner, proc.id) == Ok::<
                RequestProcessorView,
                Seq<char>,
            >(proc@),
        },
    }
}

/// The action hands the request to the engine actor with the command
/// given by `run`, or answers with status 400 that the body is unreadable
/// where it is no UTF-8.
pub open spec fn runs(inbound: Inbound, action: FrontAction, run: Option<(u128, bool)>) -> bool {
    match inbound_request(inbound) {
        None => action matches FrontAction::Answer(a) && answer_view(a) == turned_down(
            400,
            "request body is not valid UTF-8"@,
        ),
        Some(r) => match run {
            Some(named) => action matches FrontAction::Engine(
                ProcessorCmd::RunRequestProcessor { id, request, prelude },
            ) && id == named.0 && prelude == named.1 && request@ == r,
            None => action matches FrontAction::Engine(ProcessorCmd::Http { request })
                && request@ == r,
        },
    }
}

/// `action` is what the front end does with the inbound request: what the
/// route of its method and path asks for.
pub open spec fn front_dispatched(inbound: Inbound, action: FrontAction) -> bool {
    match route_of(inbound.method@, inbound.path@) {
        Route::CreateProcessor => stores_processor(inbound, action, None),
        Route::UpdateProcessor(id) => stores_processor(inbound, action, Some(id)),
        Route::GetProcessors => action matches FrontAction::Storage(
            ReqCmd::GetRequestProcessors { user_id },
        ) && user_id@ == owner_of_headers(inbound.headers.deep_view()),
        Route::GetProcessor(id) => action matches FrontAction::Storage(
            ReqCmd::GetRequestProcessor { id: i },
        ) && i == id,
        Route::DeleteProcessor(id) => action matches FrontAction::Storage(
            ReqCmd::DeleteRequestProcessor { id: i },
        ) && i == id,
        Route::GetConversation(id) => action matches FrontAction::Storage(
            ReqCmd::GetRequestConversation { id: i },
        ) && i == id,
        Route::GetConversationItems(id) => action matches FrontAction::Storage(
            ReqCmd::GetRequestConversationAuditItems { id: i },
        ) && i == id,
        Route::Run { id, prelude } => runs(inbound, action, Some((id, prelude))),
        Route::Hello => runs(inbound, action, None),
        Route::HealthCheck => action matches FrontAction::Answer(a) && answer_view(a) == (
            200u16,
            None::<Seq<char>>,
            None::<JsonView>,
        ),
        Route::MethodNotAllowed => action matches FrontAction::Answer(a) && answer_view(a)
            == turned_down(405, "METHOD_NOT_ALLOWED"@),
        Route::NotFound => action matches FrontAction::Answer(a) && answer_view(a) == turned_down(
            404,
            "NOT_FOUND"@,
        ),
    }
}

/// Reads the processor that an inbound request describes and has it
/// stored, or replaced where `replaced` names the processor to replace.
fn store_processor(inbound: Inbound, replaced: Option<u128>) -> (action: FrontAction)
    ensures
        stores_processor(inbound, action, replaced),
{
    let user = find_user(&inbound.headers);
    match read_processor(inbound.document, user) {
        Ok(proc) => match replaced {
            None => FrontAction::Storage(ReqCmd::CreateRequestProcessor { proc }),
            Some(id) => FrontAction::Storage(ReqCmd::UpdateRequestProcessor { id, proc }),
        },
        Err(rejection) => FrontAction::Answer(render(Err(rejection))),
    }
}

/// Hands an inbound request to the engine actor: to the processor that
/// `named` names, or to the default code.
fn run(inbound: Inbound, named: Option<(u128, bool)>) -> (action: FrontAction)
    ensures
        runs(inbound, action, named),
{
    let headers = text_pairs(&inbound.headers);
    match Request::from_parts(
        inbound.method,
        inbound.path,
        inbound.query,
        inbound.version,
        headers,
        inbound.body,
    ) {
        Ok(request) => match named {
            Some((id, prelude)) => FrontAction::Engine(
                ProcessorCmd::RunRequestProcessor { id, request, prelude },
            ),
            None => FrontAction::Engine(ProcessorCmd::Http { request }),
        },
        Err(e) => FrontAction::Answer(render(Err(Rejection::BodyDeserialize(e.message())))),
    }
}

/// `POST /admin/processor`: has the processor stored that the body
/// describes, for the user that the headers name; answers with status 400
/// where the body is no JSON, describes no processor, or names a language
/// other than `javascript` or a runtime other than `v8`.
pub fn create_processor(inbound: Inbound) -> (action: FrontAction)
    ensures
        stores_processor(inbound, action, None),
{
    store_processor(inbound, None)
}

/// `PUT /admin/processor/{id}`: has the processor `id` replaced by the one
/// that the body describes; answers with status 400 as `create_processor`
/// does.
pub fn update_processor(id: u128, inbound: Inbound) -> (action: FrontAction)
    ensures
        stores_processor(inbound, action, Some(id)),
{
    store_processor(inbound, Some(id))
}

/// `GET /admin/processors`: asks for the processors of the user that the
/// headers name, or of `anonymous`.
pub fn get_processors(inbound: Inbound) -> (action: FrontAction)
    ensures
        action matches FrontAction::Storage(ReqCmd::GetRequestProcessors { user_id }) && user_id@
            == owner_of_headers(inbound.headers.deep_view()),
{
    let user_id = owner_of(find_user(&inbound.headers));
    FrontAction::Storage(ReqCmd::GetRequestProcessors { user_id })
}

/// `GET /admin/processor/{id}`: asks for the processor `id`.
pub fn get_processor(id: u128) -> (action: FrontAction)
    ensures
        action matches FrontAction::Storage(ReqCmd::GetRequestProcessor { id: i }) && i == id,
{
    FrontAction::Storage(ReqCmd::GetRequestProcessor { id })
}

/// `DELETE /admin/processor/{id}`: has the processor `id` removed.
pub fn delete_processor(id: u128) -> (action: FrontAction)
    ensures
        action matches FrontAction::Storage(ReqCmd::DeleteRequestProcessor { id: i }) && i == id,
{
    FrontAction::Storage(ReqCmd::DeleteRequestProcessor { id })
}

/// `GET /conversation/{id}`: asks for the conversation `id` with its audit
/// items.
pub fn get_request_conversation(id: u128) -> (action: FrontAction)
    ensures
        action matches FrontAction::Storage(ReqCmd::GetRequestConversation { id: i }) && i == id,
{
    FrontAction::Storage(ReqCmd::GetRequestConversation { id })
}

/// `GET /conversation/{id}/audit_item`: asks for the audit items of the
/// conversation `id`.
pub fn get_request_conversation_audit_items(id: u128) -> (action: FrontAction)
    ensures
        action matches FrontAction::Storage(ReqCmd::GetRequestConversationAuditItems { id: i })
            && i == id,
{
    FrontAction::Storage(ReqCmd::GetRequestConversationAuditItems { id })
}

/// `/processor/{id}/run`, any method: hands the whole request to the
/// processor `id`, whose code runs as it is.
pub fn run_processor(id: u128, inbound: Inbound) -> (action: FrontAction)
    ensures
        runs(inbound, action, Some((id, false))),
{
    run(inbound, Some((id, false)))
}

/// `/processor/{id}/run_with_prelude`, any method: hands the whole request
/// to the processor `id`, whose code runs between prelude and sequel.
pub fn run_processor_with_prelude(id: u128, inbound: Inbound) -> (action: FrontAction)
    ensures
        runs(inbound, action, Some((id, true))),
{
    run(inbound, Some((id, true)))
}

/// `/hello/{name}`, any method: hands the whole request to the default
/// code.
pub fn deprecated_run_processor(inbound: Inbound) -> (action: FrontAction)
    ensures
        runs(inbound, action, None),
{
    run(inbound, None)
}

/// Decides what to do with an inbound request.
pub fn dispatch(inbound: Inbound) -> (action: FrontAction)
    ensures
        front_dispatched(inbound, action),
{
    match route(inbound.method.as_str(), inbound.path.as_str()) {
        Route::CreateProcessor => create_processor(inbound),
        Route::UpdateProcessor(id) => update_processor(id, inbound),
        Route::GetProcessors => get_processors(inbound),
        Route::GetProcessor(id) => get_processor(id),
        Route::DeleteProcessor(id) => delete_processor(id),
        Route::GetConversation(id) => get_request_conversation(id),
        Route::GetConversationItems(id) => get_request_conversation_audit_items(id),
        Route::Run { id, prelude } => if prelude {
            run_processor_with_prelude(id, inbound)
        } else {
            run_processor(id, inbound)
        },
        Route::Hello => deprecated_run_processor(inbound),
        Route::HealthCheck => FrontAction::Answer(
            HttpAnswer { status: 200, conversation_id: None, body: None },
        ),
        Route::MethodNotAllowed => FrontAction::Answer(render(Err(Rejection::MethodNotAllowed))),
        Route::NotFound => FrontAction::Answer(render(Err(Rejection::NotFound))),
    }
}

} // verus!
