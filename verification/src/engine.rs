//! The engine actor's protocol: what it asks of the storage actor and of
//! the JavaScript engine while it serves one command, and what it replies.
//!
//! An invocation is a state machine. `start` takes a command and gives the
//! first action; the caller performs each action and hands its outcome to
//! `advance`, until the action is a reply. While the action `Execute` runs,
//! the processor's code reaches the state of the invocation through the
//! operations of `RuntimeState`.

use vstd::prelude::*;
use crate::audit::AuditItemView;
use crate::command::{ReqCmd, ReqReply};
use crate::error::{message_of, processing_of, ErrorView, Origin, RequestProcessorError};
use crate::ident::{fresh_id, id_text, id_to_string};
use crate::processor::{RequestProcessor, RequestProcessorLanguage, RequestProcessorRuntime};
use crate::request::Request;
use crate::response::Response;
use crate::runtime::{prepare_user_code, user_code, RuntimeState};
use crate::text::{contains_text, holds_text};

verus! {

/// A command to the engine actor.
#[derive(Debug)]
pub enum ProcessorCmd {
    /// Run the bundled default code on a request, as a processor of its own
    /// that is stored for the occasion.
    Http { request: Request },
    /// Run the processor `id` on a request, with or without prelude and
    /// sequel around its code.
    RunRequestProcessor { id: u128, request: Request, prelude: bool },
}

/// The texts that are bundled with the engine.
#[derive(Debug)]
pub struct Scripts {
    pub prelude: String,
    pub sequel: String,
    pub default_code: String,
}

/// What the engine actor is to do next.
#[derive(Debug)]
pub enum EngineAction {
    /// Send the command to the storage actor and await its reply.
    Storage(ReqCmd),
    /// Run the source in a fresh engine, to the end of its event loop.
    Execute { source: String },
    /// Answer the command. The invocation is over.
    Reply(Result<Response, RequestProcessorError>),
}

/// How a run failed: the text of the error that ended it, and the failure
/// of the operation of the processor's code that failed last, unless an
/// operation has succeeded since.
#[derive(Debug)]
pub struct Thrown {
    pub text: String,
    pub kept: Option<RequestProcessorError>,
}

/// The outcome of an action.
#[derive(Debug)]
pub enum EngineEvent {
    /// The storage actor's reply.
    Storage(ReqReply),
    /// The engine finished, or failed as given.
    Executed(Result<(), Thrown>),
}

/// The stage that an invocation has reached.
#[allow(inconsistent_fields)]
pub enum Invocation {
    /// The processor for the default code is being stored.
    CreatingProcessor { request: Request },
    /// The conversation is being created. `source` is set where the code to
    /// run is known already.
    CreatingConversation { request: Request, prelude: bool, source: Option<String>, processor_id: u128 },
    /// The processor is being fetched.
    FetchingProcessor { request: Request, prelude: bool, conversation_id: u128, processor_id: u128 },
    /// The audit item of the inbound request is being stored.
    RecordingRequest { state: RuntimeState, source: String },
    /// The code is running.
    Running { state: RuntimeState },
    /// The command has been answered.
    Done,
}

/// The failure with which an outcome that the stage does not await is
/// answered.
pub open spec fn unexpected_event() -> ErrorView {
    ErrorView::Custom("unexpected event"@)
}

/// The failure that a failed run is answered with. Where the error that
/// ended the run carries the message of the failure kept, the code did not
/// catch that failure, and it is the answer, as a processing error: a failed
/// outbound call stays one. Else the code failed by itself, and the answer
/// is a processing error of the engine with the text of the error.
pub open spec fn run_failure(thrown: Thrown) -> ErrorView {
    match thrown.kept {
        Some(f) => if holds_text(thrown.text@, message_of(f@)) {
            processing_of(f@)
        } else {
            ErrorView::Processing { origin: Origin::Engine, message: thrown.text@ }
        },
        None => ErrorView::Processing { origin: Origin::Engine, message: thrown.text@ },
    }
}

/// The failure that a failed run is answered with.
pub fn failure_of_run(thrown: Thrown) -> (e: RequestProcessorError)
    ensures
        e@ == run_failure(thrown),
{
    match thrown.kept {
        Some(f) => {
            let message = f.message();
            if contains_text(thrown.text.as_str(), message.as_str()) {
                f.into_processing()
            } else {
                RequestProcessorError::Processing { origin: Origin::Engine, message: thrown.text }
            }
        },
        None => RequestProcessorError::Processing { origin: Origin::Engine, message: thrown.text },
    }
}

/// The action is the reply with the failure `e`.
pub open spec fn replies_failure(action: EngineAction, e: ErrorView) -> bool {
    action matches EngineAction::Reply(Err(f)) && f@ == e
}

/// The stage is `RecordingRequest` for a state fresh from the inbound
/// request, and the action stores the state's first audit item.
pub open spec fn records_request(
    next: Invocation,
    action: EngineAction,
    request: Request,
    conversation_id: u128,
    code: Seq<char>,
) -> bool {
    &&& next matches Invocation::RecordingRequest { state, source }
    &&& source@ == code
    &&& state.wf()
    &&& state.request@ == request@
    &&& state.conversation_id == conversation_id
    &&& state.counter.0 == 0
    &&& state.final_response is None
    &&& state.request_list.last_response is None
    &&& action matches EngineAction::Storage(ReqCmd::CreateAuditLogEntry { item })
    &&& state.journal@ == seq![item@]
    &&& item@ == (AuditItemView::Request {
        id: state.request_audit_id,
        created_at: item@.created_at(),
        inc: 0,
        conversation_id,
        payload: request@,
    })
}

/// `next` and `action` are what the invocation does at stage `stage` when
/// the outcome `event` comes.
///
/// A failure to create the conversation, or to store or fetch the
/// processor, ends the invocation with that failure as the reply. A failure
/// to store the inbound request's audit item ends it with the failure as a
/// processing error: a processing error as it is, any other failure as a
/// processing error of the engine with the failure's message. A failed run
/// ends it with the processing error that `run_failure` gives. An outcome
/// that the stage does not await ends the invocation too.
pub open spec fn advanced(
    stage: Invocation,
    event: EngineEvent,
    scripts: Scripts,
    next: Invocation,
    action: EngineAction,
) -> bool {
    match (stage, event) {
        (
            Invocation::CreatingProcessor { request },
            EngineEvent::Storage(ReqReply::Processor(created)),
        ) => match created {
            Ok(p) => {
                &&& next matches Invocation::CreatingConversation {
                    request: r,
                    prelude,
                    source,
                    processor_id,
                }
                &&& r@ == request@
                &&& !prelude
                &&& source matches Some(code)
                &&& code@ == p.code@
                &&& processor_id == p.id
                &&& action matches EngineAction::Storage(
                    ReqCmd::CreateRequestConversation { request_processor_id },
                )
                &&& request_processor_id == p.id
            },
            Err(e) => next is Done && replies_failure(action, e@),
        },
        (
            Invocation::CreatingConversation { request, prelude, source, processor_id },
            EngineEvent::Storage(ReqReply::Conversation(created)),
        ) => match created {
            Ok(c) => match source {
                Some(code) => records_request(next, action, request, c.id, code@),
                None => {
                    &&& next matches Invocation::FetchingProcessor {
                        request: r,
                        prelude: wrap,
                        conversation_id,
                        processor_id: pid,
                    }
                    &&& r@ == request@
                    &&& wrap == prelude
                    &&& conversation_id == c.id
                    &&& pid == processor_id
                    &&& action matches EngineAction::Storage(ReqCmd::GetRequestProcessor { id })
                    &&& id == processor_id
                },
            },
            Err(e) => next is Done && replies_failure(action, e@),
        },
        (
            Invocation::FetchingProcessor { request, prelude, conversation_id, processor_id },
            EngineEvent::Storage(ReqReply::Processor(fetched)),
        ) => match fetched {
            Ok(p) => records_request(
                next,
                action,
                request,
                conversation_id,
                user_code(p.code@, prelude, scripts.prelude@, scripts.sequel@),
            ),
            Err(e) => next is Done && replies_failure(action, e@),
        },
        (
            Invocation::RecordingRequest { state, source },
            EngineEvent::Storage(ReqReply::AuditItem(stored)),
        ) => match stored {
            Ok(_) => {
                &&& next matches Invocation::Running { state: running }
                &&& running == state
                &&& action matches EngineAction::Execute { source: code }
                &&& code@ == source@
            },
            Err(e) => next is Done && replies_failure(action, processing_of(e@)),
        },
        (Invocation::Running { state }, EngineEvent::Executed(run)) => match run {
            Ok(_) => {
                &&& next is Done
                &&& action matches EngineAction::Reply(Ok(response))
                &&& response@ == state.answer()
            },
            Err(thrown) => next is Done && replies_failure(action, run_failure(thrown)),
        },
        _ => next is Done && replies_failure(action, unexpected_event()),
    }
}

/// `stage` and `action` are what an invocation starts with for the command
/// given: for the default code, a processor named `temporary` with a fresh
/// identifier and a fresh owner is stored, whose code is the default code
/// between prelude and sequel; for a stored processor, the conversation is
/// created.
pub open spec fn started(
    cmd: ProcessorCmd,
    scripts: Scripts,
    stage: Invocation,
    action: EngineAction,
) -> bool {
    match cmd {
        ProcessorCmd::Http { request } => {
            &&& stage matches Invocation::CreatingProcessor { request: r }
            &&& r@ == request@
            &&& action matches EngineAction::Storage(ReqCmd::CreateRequestProcessor { proc })
            &&& proc@.name == temporary()
            &&& exists|owner: u128| proc@.user_id == #[trigger] id_text(owner)
            &&& proc@.language == RequestProcessorLanguage::Javascript
            &&& proc@.runtime == RequestProcessorRuntime::V8
            &&& proc@.code == user_code(
                scripts.default_code@,
                true,
                scripts.prelude@,
                scripts.sequel@,
            )
        },
        ProcessorCmd::RunRequestProcessor { id, request, prelude } => {
            &&& stage matches Invocation::CreatingConversation {
                request: r,
                prelude: wrap,
                source,
                processor_id,
            }
            &&& r@ == request@
            &&& wrap == prelude
            &&& source is None
            &&& processor_id == id
            &&& action matches EngineAction::Storage(
                ReqCmd::CreateRequestConversation { request_processor_id },
            )
            &&& request_processor_id == id
        },
    }
}

/// The name of the processor that is stored for the default code.
pub open spec fn temporary() -> Seq<char> {
    "temporary"@
}

impl Invocation {
    /// The state that the stage carries, if it carries one, is consistent.
    pub open spec fn wf(self) -> bool {
        match self {
            Invocation::RecordingRequest { state, source } => state.wf(),
            Invocation::Running { state } => state.wf(),
            _ => true,
        }
    }

    /// Takes a command and gives the first stage and action.
    pub fn start(cmd: ProcessorCmd, scripts: &Scripts) -> (first: (Invocation, EngineAction))
        ensures
            first.0.wf(),
            started(cmd, *scripts, first.0, first.1),
    {
        match cmd {
            ProcessorCmd::Http { request } => {
                let proc = RequestProcessor {
                    id: fresh_id(),
                    name: "temporary".to_owned(),
                    language: RequestProcessorLanguage::Javascript,
                    runtime: RequestProcessorRuntime::V8,
                    code: prepare_user_code(
                        scripts.default_code.as_str(),
                        true,
                        scripts.prelude.as_str(),
                        scripts.sequel.as_str(),
                    ),
                    user_id: id_to_string(fresh_id()),
                };
                (
                    Invocation::CreatingProcessor { request },
                    EngineAction::Storage(ReqCmd::CreateRequestProcessor { proc }),
                )
            },
            ProcessorCmd::RunRequestProcessor { id, request, prelude } => (
                Invocation::CreatingConversation { request, prelude, source: None, processor_id: id },
                EngineAction::Storage(
                    ReqCmd::CreateRequestConversation { request_processor_id: id },
                ),
            ),
        }
    }

    /// Starts the state for the inbound request and asks for its audit item
    /// to be stored.
    fn record(request: Request, conversation_id: u128, source: String) -> (step: (
        Invocation,
        EngineAction,
    ))
        ensures
            records_request(step.0, step.1, request, conversation_id, source@),
    {
        let (state, item) = RuntimeState::new(request, conversation_id);
        (
            Invocation::RecordingRequest { state, source },
            EngineAction::Storage(ReqCmd::CreateAuditLogEntry { item }),
        )
    }

    /// Ends the invocation with a failure.
    fn fail(e: RequestProcessorError) -> (step: (Invocation, EngineAction))
        ensures
            step.0 is Done,
            replies_failure(step.1, e@),
    {
        (Invocation::Done, EngineAction::Reply(Err(e)))
    }

    /// Ends the invocation because the outcome is not the one awaited.
    fn unexpected() -> (step: (Invocation, EngineAction))
        ensures
            step.0 is Done,
            replies_failure(step.1, unexpected_event()),
    {
        Invocation::fail(RequestProcessorError::Custom("unexpected event".to_owned()))
    }

    /// Takes the outcome of the last action and gives the next stage and
    /// action.
    pub fn advance(self, event: EngineEvent, scripts: &Scripts) -> (step: (Invocation, EngineAction))
        ensures
            advanced(self, event, *scripts, step.0, step.1),
            self.wf() ==> step.0.wf(),
    {
        match self {
            Invocation::CreatingProcessor { request } => match event {
                EngineEvent::Storage(ReqReply::Processor(created)) => match created {
                    Ok(p) => (
                        Invocation::CreatingConversation {
                            request,
                            prelude: false,
                            source: Some(p.code),
                            processor_id: p.id,
                        },
                        EngineAction::Storage(
                            ReqCmd::CreateRequestConversation { request_processor_id: p.id },
                        ),
                    ),
                    Err(e) => Invocation::fail(e),
                },
                _ => Invocation::unexpected(),
            },
            Invocation::CreatingConversation { request, prelude, source, processor_id } => {
                match event {
                    EngineEvent::Storage(ReqReply::Conversation(created)) => match created {
                        Ok(c) => match source {
                            Some(code) => Invocation::record(request, c.id, code),
                            None => (
                                Invocation::FetchingProcessor {
                                    request,
                                    prelude,
                                    conversation_id: c.id,
                                    processor_id,
                                },
                                EngineAction::Storage(
                                    ReqCmd::GetRequestProcessor { id: processor_id },
                                ),
                            ),
                        },
                        Err(e) => Invocation::fail(e),
                    },
                    _ => Invocation::unexpected(),
                }
            },
            Invocation::FetchingProcessor { request, prelude, conversation_id, processor_id } => {
                match event {
                    EngineEvent::Storage(ReqReply::Processor(fetched)) => match fetched {
                        Ok(p) => {
                            let source = prepare_user_code(
                                p.code.as_str(),
                                prelude,
                                scripts.prelude.as_str(),
                                scripts.sequel.as_str(),
                            );
                            Invocation::record(request, conversation_id, source)
                        },
                        Err(e) => Invocation::fail(e),
                    },
                    _ => Invocation::unexpected(),
                }
            },
            Invocation::RecordingRequest { state, source } => match event {
                EngineEvent::Storage(ReqReply::AuditItem(stored)) => match stored {
                    Ok(_) => (Invocation::Running { state }, EngineAction::Execute { source }),
                    Err(e) => Invocation::fail(e.into_processing()),
                },
                _ => Invocation::unexpected(),
            },
            Invocation::Running { state } => match event {
                EngineEvent::Executed(run) => match run {
                    Ok(_) => (Invocation::Done, EngineAction::Reply(Ok(state.final_response()))),
                    Err(thrown) => Invocation::fail(failure_of_run(thrown)),
                },
                _ => Invocation::unexpected(),
            },
            Invocation::Done => Invocation::unexpected(),
        }
    }
}

} // verus!
