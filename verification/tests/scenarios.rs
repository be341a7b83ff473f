use flow_heater::audit::AuditItem;
use flow_heater::command::{ReqCmd, ReqReply};
use flow_heater::engine::{
    failure_of_run, EngineAction, EngineEvent, Invocation, ProcessorCmd, Scripts, Thrown,
};
use flow_heater::error::{handle_rejections, Origin, Rejection, RequestProcessorError};
use flow_heater::frontend::{render, render_run_answer};
use flow_heater::headers::Headers;
use flow_heater::json::Json;
use flow_heater::processor::{ProcessorDraft, RequestProcessor};
use flow_heater::request::Request;
use flow_heater::response::Response;
use flow_heater::runtime::RuntimeState;
use flow_heater::storage::Store;

type Script<'a> = &'a mut dyn FnMut(&mut RuntimeState, &mut Store, &str) -> Result<(), RequestProcessorError>;

fn bundle() -> Scripts {
    Scripts {
        prelude: "/*prelude*/".to_string(),
        sequel: "/*sequel*/".to_string(),
        default_code: "/*default*/".to_string(),
    }
}

fn serve(store: &mut Store, cmd: ProcessorCmd, script: Script) -> Result<Response, RequestProcessorError> {
    let scripts = bundle();
    let (mut stage, mut action) = Invocation::start(cmd, &scripts);
    loop {
        let event = match action {
            EngineAction::Storage(cmd) => EngineEvent::Storage(store.process_command(cmd)),
            EngineAction::Execute { source } => match &mut stage {
                Invocation::Running { state } => {
                    EngineEvent::Executed(script(state, store, &source).map_err(|e| Thrown {
                        text: format!("Uncaught Error: {}", e.message()),
                        kept: Some(e),
                    }))
                }
                _ => panic!("nothing is running"),
            },
            EngineAction::Reply(reply) => {
                assert!(matches!(stage, Invocation::Done));
                return reply;
            }
        };
        let step = stage.advance(event, &scripts);
        stage = step.0;
        action = step.1;
    }
}

fn persist(store: &mut Store, item: AuditItem) -> Result<(), RequestProcessorError> {
    match store.process_command(ReqCmd::CreateAuditLogEntry { item }) {
        ReqReply::AuditItem(Ok(_)) => Ok(()),
        ReqReply::AuditItem(Err(e)) => Err(e),
        other => panic!("{:?}", other),
    }
}

fn post(body: &str) -> Request {
    Request {
        headers: Headers::new(),
        body: body.to_string(),
        method: "POST".to_string(),
        path: "/processor/x/run".to_string(),
        query: None,
        version: "HTTP/1.1".to_string(),
    }
}

fn new_processor(store: &mut Store, code: &str) -> u128 {
    let draft = ProcessorDraft {
        name: "p".to_string(),
        language: "javascript".to_string(),
        runtime: "v8".to_string(),
        code: code.to_string(),
    };
    let p = RequestProcessor::from_draft(draft, Some("user".to_string())).unwrap();
    store.create_request_processor(p).unwrap().id
}

fn conversation_of(response: &Response) -> u128 {
    let values = response.headers.get("FH-Conversation-Id").expect("header");
    assert_eq!(values.len(), 1);
    let text = &values[0];
    assert_eq!(text.len(), 36);
    u128::from_str_radix(&text.replace('-', ""), 16).unwrap()
}

fn object(members: Vec<(&str, Json)>) -> Json {
    Json::Object(members.into_iter().map(|(n, v)| (n.to_string(), v)).collect())
}

fn kinds(items: &[AuditItem]) -> Vec<String> {
    items
        .iter()
        .map(|i| match i {
            AuditItem::Request { inc, .. } => format!("request {}", inc),
            AuditItem::Response { .. } => "response".to_string(),
            AuditItem::Log { payload, .. } => format!("log {}", payload),
        })
        .collect()
}

#[test]
fn echo() {
    let mut store = Store::new();
    let id = new_processor(&mut store, "");
    let mut seen = String::new();
    let response = serve(
        &mut store,
        ProcessorCmd::RunRequestProcessor { id, request: post("hello"), prelude: false },
        &mut |_, _, source| {
            seen = source.to_string();
            Ok(())
        },
    )
    .unwrap();
    assert_eq!(seen, "");
    assert_eq!(response.code, 200);
    assert_eq!(response.body, Some("hello".to_string()));
    let conversation = store.get_request_conversation(conversation_of(&response)).unwrap();
    assert_eq!(conversation.request_processor_id, id);
    assert_eq!(conversation.audit_items.len(), 1);
    match &conversation.audit_items[0] {
        AuditItem::Request { inc, payload, .. } => {
            assert_eq!(*inc, 0);
            assert_eq!(payload.body, "hello");
        }
        other => panic!("{:?}", other),
    }
    let answer = render_run_answer(Ok(response));
    assert_eq!(answer.status, 200);
    assert!(answer.conversation_id.is_some());
}

#[test]
fn explicit_final() {
    let mut store = Store::new();
    let id = new_processor(&mut store, "respond");
    let response = serve(
        &mut store,
        ProcessorCmd::RunRequestProcessor { id, request: post("hello"), prelude: false },
        &mut |state, _, _| {
            state.op_respond_with(&object(vec![
                ("code", Json::Integer(201)),
                ("headers", object(vec![("X-Test", Json::Array(vec![Json::Text("1".to_string())]))])),
                ("body", Json::Text("ok".to_string())),
                ("version", Json::Text("HTTP/1.1".to_string())),
            ]))
        },
    )
    .unwrap();
    assert_eq!(response.code, 201);
    assert_eq!(response.body, Some("ok".to_string()));
    assert_eq!(response.headers.get("X-Test"), Some(&vec!["1".to_string()]));
    let items = store.get_audit_items(conversation_of(&response)).unwrap();
    assert_eq!(kinds(&items), vec!["request 0"]);
    let answer = render_run_answer(Ok(response));
    assert_eq!(answer.status, 200);
    assert!(matches!(answer.body.unwrap().get("code"), Some(Json::Integer(201))));
}

#[test]
fn outbound_dispatch() {
    let mut store = Store::new();
    let id = new_processor(&mut store, "dispatch");
    let mut inbound_audit = 0;
    let response = serve(
        &mut store,
        ProcessorCmd::RunRequestProcessor { id, request: post("hello"), prelude: false },
        &mut |state, store, _| {
            inbound_audit = state.request_audit_id;
            let args = object(vec![
                ("request", post("ping").to_json()),
                ("url", Json::Text("http://test.invalid/world".to_string())),
            ]);
            let dispatch = state.op_dispatch_request(&args)?;
            persist(store, dispatch.item)?;
            let call = dispatch.call?;
            let received =
                Response::from_parts(200, flow_heater::request::HttpVersion::Http11, Vec::new(), b"world".to_vec())?;
            let (item, _) = state.op_dispatch_response(call.inc, received);
            persist(store, item)
        },
    )
    .unwrap();
    assert_eq!(response.body, Some("world".to_string()));
    assert_eq!(response.code, 200);
    let items = store.get_audit_items(conversation_of(&response)).unwrap();
    assert_eq!(kinds(&items), vec!["request 0", "request 1", "response"]);
    match &items[0] {
        AuditItem::Request { id, payload, .. } => {
            assert_eq!(*id, inbound_audit);
            assert_eq!(payload.body, "hello");
        }
        other => panic!("{:?}", other),
    }
    match &items[1] {
        AuditItem::Request { payload, .. } => assert_eq!(payload.body, "ping"),
        other => panic!("{:?}", other),
    }
    match &items[2] {
        AuditItem::Response { request_id, payload, .. } => {
            assert_eq!(*request_id, inbound_audit);
            assert_eq!(payload.body, Some("world".to_string()));
        }
        other => panic!("{:?}", other),
    }
}

#[test]
fn log() {
    let mut store = Store::new();
    let id = new_processor(&mut store, "log");
    let response = serve(
        &mut store,
        ProcessorCmd::RunRequestProcessor { id, request: post("hello"), prelude: false },
        &mut |state, store, _| {
            let a = state.op_log(Some("\"a\"".to_string()))?;
            persist(store, a)?;
            let b = state.op_log(Some("\"b\"".to_string()))?;
            persist(store, b)
        },
    )
    .unwrap();
    let items = store.get_audit_items(conversation_of(&response)).unwrap();
    assert_eq!(kinds(&items), vec!["request 0", "log \"a\"", "log \"b\""]);
    assert_eq!(response.body, Some("hello".to_string()));
}

#[test]
fn not_found() {
    let store = Store::new();
    let random = 0x5a5a_5a5a_0000_4000_8000_0123_4567_89ab;
    let answer = render(match store.get_request_processor(random) {
        Ok(p) => Ok(Some(p.to_json())),
        Err(e) => Err(Rejection::Processor(e)),
    });
    assert_eq!(answer.status, 404);
    let body = answer.body.unwrap();
    assert!(matches!(body.get("code"), Some(Json::Integer(404))));
    assert!(matches!(
        body.get("message"),
        Some(Json::Text(m)) if m == "RequestProcessor with id 5a5a5a5a-0000-4000-8000-0123456789ab not found"
    ));
}

#[test]
fn run_of_a_missing_processor_is_not_found() {
    let mut store = Store::new();
    let reply = serve(
        &mut store,
        ProcessorCmd::RunRequestProcessor { id: 77, request: post("hello"), prelude: true },
        &mut |_, _, _| panic!("must not run"),
    );
    match &reply {
        Err(RequestProcessorError::NotFound { kind, id }) => {
            assert_eq!(kind, "RequestProcessor");
            assert_eq!(*id, 77);
        }
        other => panic!("{:?}", other),
    }
    assert_eq!(store.conversations.len(), 0);
    assert_eq!(render_run_answer(reply).status, 404);
}

#[test]
fn prelude_and_sequel_wrap_the_code_on_demand() {
    let mut store = Store::new();
    let id = new_processor(&mut store, "code();");
    for (prelude, expected) in [(true, "/*prelude*/code();/*sequel*/"), (false, "code();")] {
        let mut seen = String::new();
        serve(
            &mut store,
            ProcessorCmd::RunRequestProcessor { id, request: post("x"), prelude },
            &mut |_, _, source| {
                seen = source.to_string();
                Ok(())
            },
        )
        .unwrap();
        assert_eq!(seen, expected);
    }
}

#[test]
fn default_code_runs_as_a_stored_temporary_processor() {
    let mut store = Store::new();
    let mut seen = String::new();
    let response = serve(&mut store, ProcessorCmd::Http { request: post("hi") }, &mut |_, _, source| {
        seen = source.to_string();
        Ok(())
    })
    .unwrap();
    assert_eq!(seen, "/*prelude*//*default*//*sequel*/");
    assert_eq!(response.body, Some("hi".to_string()));
    assert_eq!(store.processors.len(), 1);
    assert_eq!(store.processors[0].name, "temporary");
    assert_eq!(store.processors[0].code, "/*prelude*//*default*//*sequel*/");
    assert_eq!(store.processors[0].user_id.len(), 36);
    let conversation = store.get_request_conversation(conversation_of(&response)).unwrap();
    assert_eq!(conversation.request_processor_id, store.processors[0].id);
    assert_eq!(kinds(&conversation.audit_items), vec!["request 0"]);
}

#[test]
fn failed_execution_drains_the_reply_with_the_error() {
    let mut store = Store::new();
    let id = new_processor(&mut store, "throw");
    let reply = serve(
        &mut store,
        ProcessorCmd::RunRequestProcessor { id, request: post("x"), prelude: false },
        &mut |_, _, _| {
            Err(RequestProcessorError::Processing { origin: Origin::Engine, message: "Uncaught Error".to_string() })
        },
    );
    assert!(matches!(
        &reply,
        Err(RequestProcessorError::Processing { origin: Origin::Engine, message }) if message == "Uncaught Error"
    ));
    assert_eq!(handle_rejections(&Rejection::Processor(reply.unwrap_err())).code, 500);
    assert_eq!(store.conversations.len(), 1);
    assert_eq!(store.audit_items.len(), 1);
}

#[test]
fn unparseable_url_drains_the_reply_and_leaves_no_response_item() {
    let mut store = Store::new();
    let id = new_processor(&mut store, "dispatch");
    let mut conversation = 0;
    let reply = serve(
        &mut store,
        ProcessorCmd::RunRequestProcessor { id, request: post("x"), prelude: false },
        &mut |state, store, _| {
            conversation = state.conversation_id;
            let args = object(vec![
                ("request", post("ping").to_json()),
                ("url", Json::Text("::not a url::".to_string())),
            ]);
            let dispatch = state.op_dispatch_request(&args)?;
            persist(store, dispatch.item)?;
            dispatch.call.map(|_| ())
        },
    );
    assert!(matches!(
        reply,
        Err(RequestProcessorError::Processing { origin: Origin::Outbound, .. })
    ));
    let items = store.get_audit_items(conversation).unwrap();
    assert_eq!(kinds(&items), vec!["request 0", "request 1"]);
}

#[test]
fn storage_failure_while_recording_is_a_processing_error() {
    let scripts = bundle();
    let (state, _) = RuntimeState::new(post("x"), 1);
    let stage = Invocation::RecordingRequest { state, source: "s".to_string() };
    let (next, action) = stage.advance(
        EngineEvent::Storage(ReqReply::AuditItem(Err(RequestProcessorError::Db("down".to_string())))),
        &scripts,
    );
    assert!(matches!(next, Invocation::Done));
    assert!(matches!(
        action,
        EngineAction::Reply(Err(RequestProcessorError::Processing { origin: Origin::Engine, message })) if message == "down"
    ));
}

#[test]
fn an_outcome_that_is_not_awaited_ends_the_invocation() {
    let scripts = bundle();
    let (stage, _) = Invocation::start(
        ProcessorCmd::RunRequestProcessor { id: 1, request: post("x"), prelude: false },
        &scripts,
    );
    let (next, action) = stage.advance(EngineEvent::Executed(Ok(())), &scripts);
    assert!(matches!(next, Invocation::Done));
    assert!(matches!(
        action,
        EngineAction::Reply(Err(RequestProcessorError::Custom(m))) if m == "unexpected event"
    ));
    let (next, action) = next.advance(EngineEvent::Executed(Ok(())), &scripts);
    assert!(matches!(next, Invocation::Done));
    assert!(matches!(action, EngineAction::Reply(Err(RequestProcessorError::Custom(_)))));
}

#[test]
fn two_invocations_have_distinct_conversations_and_independent_incs() {
    let mut store = Store::new();
    let id = new_processor(&mut store, "dispatch");
    let mut run = |store: &mut Store, calls: usize| {
        serve(
            store,
            ProcessorCmd::RunRequestProcessor { id, request: post("x"), prelude: false },
            &mut |state, store, _| {
                for _ in 0..calls {
                    let (_, item) = state.add_request(post("out"))?;
                    persist(store, item)?;
                }
                Ok(())
            },
        )
        .unwrap()
    };
    let first = conversation_of(&run(&mut store, 2));
    let second = conversation_of(&run(&mut store, 1));
    assert_ne!(first, second);
    assert_eq!(
        kinds(&store.get_audit_items(first).unwrap()),
        vec!["request 0", "request 1", "request 2"]
    );
    assert_eq!(kinds(&store.get_audit_items(second).unwrap()), vec!["request 0", "request 1"]);
}

#[test]
fn interleaved_invocations_keep_their_own_counters() {
    let mut store = Store::new();
    let id = new_processor(&mut store, "");
    let a = store.create_request_conversation(id).unwrap().id;
    let b = store.create_request_conversation(id).unwrap().id;
    let (mut first, item) = RuntimeState::new(post("a"), a);
    persist(&mut store, item).unwrap();
    let (mut second, item) = RuntimeState::new(post("b"), b);
    persist(&mut store, item).unwrap();
    for turn in 0..4 {
        let state = if turn % 2 == 0 { &mut first } else { &mut second };
        let (inc, item) = state.add_request(post("out")).unwrap();
        assert_eq!(inc, turn / 2 + 1);
        persist(&mut store, item).unwrap();
    }
    for conversation in [a, b] {
        let items = store.get_audit_items(conversation).unwrap();
        assert_eq!(kinds(&items), vec!["request 0", "request 1", "request 2"]);
        assert!(items.iter().all(|i| i.conversation_id() == conversation));
    }
}

#[test]
fn dispatches_appear_in_the_audit_trail_in_issue_order() {
    let mut store = Store::new();
    let id = new_processor(&mut store, "dispatch thrice");
    let response = serve(
        &mut store,
        ProcessorCmd::RunRequestProcessor { id, request: post("in"), prelude: false },
        &mut |state, store, _| {
            for body in ["first", "second", "third"] {
                let args = object(vec![
                    ("request", post(body).to_json()),
                    ("url", Json::Text("http://test.invalid/".to_string())),
                ]);
                let dispatch = state.op_dispatch_request(&args)?;
                persist(store, dispatch.item)?;
                let call = dispatch.call?;
                let (item, _) = state.op_dispatch_response(
                    call.inc,
                    Response {
                        code: 200,
                        headers: Headers::new(),
                        body: Some(format!("re: {}", body)),
                        version: "HTTP/1.1".to_string(),
                    },
                );
                persist(store, item)?;
            }
            Ok(())
        },
    )
    .unwrap();
    assert_eq!(response.body, Some("re: third".to_string()));
    let items = store.get_audit_items(conversation_of(&response)).unwrap();
    let requests: Vec<(i32, String)> = items
        .iter()
        .filter_map(|i| match i {
            AuditItem::Request { inc, payload, .. } => Some((*inc, payload.body.clone())),
            _ => None,
        })
        .collect();
    assert_eq!(
        requests,
        vec![
            (0, "in".to_string()),
            (1, "first".to_string()),
            (2, "second".to_string()),
            (3, "third".to_string()),
        ]
    );
    assert_eq!(items.iter().filter(|i| matches!(i, AuditItem::Response { .. })).count(), 3);
}

#[test]
fn a_failed_run_is_answered_with_a_processing_error() {
    let mut store = Store::new();
    let id = new_processor(&mut store, "fail");
    let failures: Vec<(RequestProcessorError, Origin, &str, u16)> = vec![
        (RequestProcessorError::Custom("No 'data' attribute available for AuditEntry::Log".to_string()), Origin::Engine, "No 'data' attribute available for AuditEntry::Log", 500),
        (RequestProcessorError::JsonSerialize("document is no response".to_string()), Origin::Engine, "document is no response", 500),
        (RequestProcessorError::Db("down".to_string()), Origin::Engine, "down", 500),
        (RequestProcessorError::Processing { origin: Origin::Outbound, message: "invalid URL".to_string() }, Origin::Outbound, "invalid URL", 502),
        (RequestProcessorError::Processing { origin: Origin::Engine, message: "Uncaught".to_string() }, Origin::Engine, "Uncaught", 500),
    ];
    for (failure, origin, text, status) in failures {
        let mut failure = Some(failure);
        let reply = serve(
            &mut store,
            ProcessorCmd::RunRequestProcessor { id, request: post("x"), prelude: false },
            &mut |_, _, _| Err(failure.take().unwrap()),
        );
        match &reply {
            Err(RequestProcessorError::Processing { origin: o, message }) => {
                assert_eq!(*o, origin);
                assert_eq!(message, text);
            }
            other => panic!("{:?}", other),
        }
        assert_eq!(render_run_answer(reply).status, status);
    }
}

#[test]
fn a_run_that_fails_by_itself_is_an_engine_error() {
    let caught = RequestProcessorError::Processing { origin: Origin::Outbound, message: "refused".to_string() };
    let e = failure_of_run(Thrown { text: "ReferenceError: x is not defined".to_string(), kept: Some(caught) });
    assert!(matches!(
        &e,
        RequestProcessorError::Processing { origin: Origin::Engine, message } if message == "ReferenceError: x is not defined"
    ));
    assert_eq!(e.status_code(), 500);
    let e = failure_of_run(Thrown { text: "TypeError".to_string(), kept: None });
    assert!(matches!(
        &e,
        RequestProcessorError::Processing { origin: Origin::Engine, message } if message == "TypeError"
    ));
    let uncaught = RequestProcessorError::Processing { origin: Origin::Outbound, message: "refused".to_string() };
    let e = failure_of_run(Thrown { text: "Uncaught Error: refused\n    at <anonymous>".to_string(), kept: Some(uncaught) });
    assert!(matches!(
        &e,
        RequestProcessorError::Processing { origin: Origin::Outbound, message } if message == "refused"
    ));
    assert_eq!(e.status_code(), 502);
    let uncaught = RequestProcessorError::Custom("No 'data' attribute available for AuditEntry::Log".to_string());
    let e = failure_of_run(Thrown {
        text: "No 'data' attribute available for AuditEntry::Log".to_string(),
        kept: Some(uncaught),
    });
    assert!(matches!(
        &e,
        RequestProcessorError::Processing { origin: Origin::Engine, message } if message == "No 'data' attribute available for AuditEntry::Log"
    ));

    let scripts = bundle();
    let (state, _) = RuntimeState::new(post("x"), 1);
    let (next, action) = Invocation::Running { state }.advance(
        EngineEvent::Executed(Err(Thrown { text: "boom".to_string(), kept: None })),
        &scripts,
    );
    assert!(matches!(next, Invocation::Done));
    assert!(matches!(
        action,
        EngineAction::Reply(Err(RequestProcessorError::Processing { origin: Origin::Engine, message })) if message == "boom"
    ));
}
