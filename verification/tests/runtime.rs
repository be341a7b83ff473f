use flow_heater::audit::AuditItem;
use flow_heater::error::{Origin, RequestProcessorError};
use flow_heater::command::ReqReply;
use flow_heater::frontend::{read_processor, render, render_reply, render_run, render_run_answer};
use flow_heater::processor::{owner_of, RequestProcessor, RequestProcessorLanguage, RequestProcessorRuntime};
use flow_heater::error::Rejection;
use flow_heater::headers::Headers;
use flow_heater::json::Json;
use flow_heater::request::{Request, RequestSpec};
use flow_heater::response::Response;
use flow_heater::runtime::{RequestCounter, RuntimeState, MAX_REQUESTS};

fn inbound(body: &str) -> Request {
    let mut headers = Headers::new();
    headers.append("host".to_string(), "gateway".to_string());
    Request {
        headers,
        body: body.to_string(),
        method: "POST".to_string(),
        path: "/processor/x/run".to_string(),
        query: None,
        version: "HTTP/1.1".to_string(),
    }
}

fn outbound(method: &str, body: &str) -> Request {
    Request {
        headers: Headers::new(),
        body: body.to_string(),
        method: method.to_string(),
        path: "/".to_string(),
        query: None,
        version: "HTTP/1.1".to_string(),
    }
}

fn answer(code: u16, body: Option<&str>) -> Response {
    Response {
        code,
        headers: Headers::new(),
        body: body.map(|b| b.to_string()),
        version: "HTTP/1.1".to_string(),
    }
}

fn inc_of(item: &AuditItem) -> i32 {
    match item {
        AuditItem::Request { inc, .. } => *inc,
        other => panic!("no request: {:?}", other),
    }
}

const CONVERSATION: u128 = 0x0123_4567_89ab_cdef_0123_4567_89ab_cdef;
const CONVERSATION_TEXT: &str = "01234567-89ab-cdef-0123-456789abcdef";

#[test]
fn new_state_hands_out_the_inbound_request_with_inc_zero() {
    let (state, item) = RuntimeState::new(inbound("hello"), CONVERSATION);
    match &item {
        AuditItem::Request { id, inc, conversation_id, payload, .. } => {
            assert_eq!(*inc, 0);
            assert_eq!(*conversation_id, CONVERSATION);
            assert_eq!(payload.body, "hello");
            assert_eq!(*id, state.request_audit_id);
        }
        other => panic!("{:?}", other),
    }
    assert_eq!(state.counter.0, 0);
    assert_eq!(state.conversation_id, CONVERSATION);
    assert!(state.final_response.is_none());
    assert_eq!(state.get_request().body, "hello");
}

#[test]
fn requests_count_up_from_one() {
    let (mut state, _) = RuntimeState::new(inbound("hello"), CONVERSATION);
    let (first, item) = state.add_request(outbound("GET", "a")).unwrap();
    assert_eq!(first, 1);
    assert_eq!(inc_of(&item), 1);
    assert_eq!(item.conversation_id(), CONVERSATION);
    let (second, item) = state.add_request(outbound("GET", "b")).unwrap();
    assert_eq!(second, 2);
    assert_eq!(inc_of(&item), 2);
    assert_eq!(state.counter.0, 2);
    assert_eq!(state.request_list.requests.get(&1).unwrap().body, "a");
    assert_eq!(state.request_list.requests.get(&2).unwrap().body, "b");
}

#[test]
fn a_full_counter_refuses_further_requests() {
    let (mut state, _) = RuntimeState::new(inbound("hello"), CONVERSATION);
    state.counter = RequestCounter(MAX_REQUESTS - 1);
    let (inc, item) = state.add_request(outbound("GET", "a")).unwrap();
    assert_eq!(inc, MAX_REQUESTS);
    assert_eq!(inc_of(&item), i32::MAX);
    match state.add_request(outbound("GET", "b")) {
        Err(RequestProcessorError::Processing { origin, message }) => {
            assert_eq!(origin, Origin::Engine);
            assert_eq!(message, "too many requests in one invocation");
        }
        other => panic!("{:?}", other),
    }
    assert_eq!(state.counter.0, MAX_REQUESTS);
    assert!(state
        .dispatch_request(RequestSpec { request: outbound("GET", "c"), url: "http://h/".to_string() })
        .is_err());
}

#[test]
fn responses_name_the_inbound_request() {
    let (mut state, first) = RuntimeState::new(inbound("hello"), CONVERSATION);
    let (inc, _) = state.add_request(outbound("GET", "a")).unwrap();
    let item = state.add_response(inc, answer(200, Some("world")));
    match item {
        AuditItem::Response { request_id, conversation_id, payload, .. } => {
            assert_eq!(request_id, first.get_id());
            assert_eq!(conversation_id, CONVERSATION);
            assert_eq!(payload.body, Some("world".to_string()));
        }
        other => panic!("{:?}", other),
    }
    assert_eq!(state.request_list.responses.get(&inc).unwrap().code, 200);
}

#[test]
fn final_body_prefers_final_response_then_last_response_then_inbound_body() {
    let (mut state, _) = RuntimeState::new(inbound("hello"), CONVERSATION);
    assert_eq!(state.get_final_response_body().unwrap(), "hello");
    let (one, _) = state.add_request(outbound("GET", "a")).unwrap();
    let (two, _) = state.add_request(outbound("GET", "b")).unwrap();
    state.add_response(two, answer(200, Some("second")));
    assert_eq!(state.get_final_response_body().unwrap(), "second");
    state.add_response(one, answer(200, Some("first")));
    assert_eq!(state.get_final_response_body().unwrap(), "first");
    state.add_response(one, answer(204, None));
    assert_eq!(state.get_final_response_body().unwrap(), "");
    state.add_final_response(answer(201, Some("final")));
    assert_eq!(state.get_final_response_body().unwrap(), "final");
    state.add_final_response(answer(201, None));
    assert_eq!(state.get_final_response_body().unwrap(), "");
}

#[test]
fn default_answer_is_200_with_the_conversation_header_only() {
    let (state, _) = RuntimeState::new(inbound("hello"), CONVERSATION);
    let r = state.final_response();
    assert_eq!(r.code, 200);
    assert_eq!(r.version, "HTTP/1.1");
    assert_eq!(r.body, Some("hello".to_string()));
    assert_eq!(r.headers.entries.len(), 1);
    assert_eq!(r.headers.get("FH-Conversation-Id"), Some(&vec![CONVERSATION_TEXT.to_string()]));
}

#[test]
fn explicit_answer_keeps_its_headers_and_gets_a_single_conversation_header() {
    let (mut state, _) = RuntimeState::new(inbound("hello"), CONVERSATION);
    let mut explicit = answer(201, None);
    explicit.headers.append("X-Test".to_string(), "1".to_string());
    explicit.headers.append("X-Test".to_string(), "2".to_string());
    explicit.headers.append("FH-Conversation-Id".to_string(), "forged".to_string());
    explicit.headers.append("FH-Conversation-Id".to_string(), "twice".to_string());
    explicit.version = "HTTP/2".to_string();
    state.add_final_response(explicit);
    let r = state.final_response();
    assert_eq!(r.code, 201);
    assert_eq!(r.body, None);
    assert_eq!(r.version, "HTTP/2");
    assert_eq!(r.headers.get("X-Test"), Some(&vec!["1".to_string(), "2".to_string()]));
    assert_eq!(r.headers.get("FH-Conversation-Id"), Some(&vec![CONVERSATION_TEXT.to_string()]));
    assert_eq!(r.headers.entries.len(), 2);
}

#[test]
fn log_needs_data() {
    let (mut state, _) = RuntimeState::new(inbound("hello"), CONVERSATION);
    match state.op_log(Some("\"a\"".to_string())).unwrap() {
        AuditItem::Log { payload, conversation_id, .. } => {
            assert_eq!(payload, "\"a\"");
            assert_eq!(conversation_id, CONVERSATION);
        }
        other => panic!("{:?}", other),
    }
    match state.op_log(None) {
        Err(RequestProcessorError::Custom(m)) => {
            assert_eq!(m, "No 'data' attribute available for AuditEntry::Log")
        }
        other => panic!("{:?}", other),
    }
    assert!(matches!(state.add_log_entry("b".to_string()), AuditItem::Log { .. }));
}

#[test]
fn dispatch_with_valid_method_and_url_gives_the_call() {
    let (mut state, _) = RuntimeState::new(inbound("hello"), CONVERSATION);
    let mut request = outbound("PATCH", "payload");
    request.headers.append("x-user".to_string(), "1".to_string());
    let d = state
        .dispatch_request(RequestSpec { request, url: "https://example.org/a?b=c".to_string() })
        .unwrap();
    assert_eq!(inc_of(&d.item), 1);
    let call = d.call.unwrap();
    assert_eq!(call.inc, 1);
    assert_eq!(call.method, "PATCH");
    assert_eq!(call.url, "https://example.org/a?b=c");
    assert_eq!(call.body, "payload");
    assert_eq!(call.headers.get("x-user"), Some(&vec!["1".to_string()]));
    assert_eq!(call.headers.get("accept"), Some(&vec!["application/json".to_string()]));
}

#[test]
fn dispatch_keeps_an_accept_header_of_the_user() {
    let (mut state, _) = RuntimeState::new(inbound("hello"), CONVERSATION);
    let mut request = outbound("GET", "");
    request.headers.append("Accept".to_string(), "text/html".to_string());
    let d = state
        .dispatch_request(RequestSpec { request, url: "http://example.org/".to_string() })
        .unwrap();
    let call = d.call.unwrap();
    assert_eq!(call.headers.get("Accept"), Some(&vec!["text/html".to_string()]));
    assert!(call.headers.get("accept").is_none());
}

#[test]
fn dispatch_with_unparseable_url_records_the_request_and_fails() {
    let (mut state, _) = RuntimeState::new(inbound("hello"), CONVERSATION);
    for url in ["not a url", "/relative/path", "", "http://"] {
        let before = state.counter.0;
        let d = state
            .dispatch_request(RequestSpec { request: outbound("GET", "x"), url: url.to_string() })
            .unwrap();
        assert_eq!(inc_of(&d.item) as usize, before + 1);
        match d.call {
            Err(RequestProcessorError::Processing { origin, message }) => {
                assert_eq!(origin, Origin::Outbound);
                assert_eq!(message, "invalid URL");
            }
            other => panic!("{}: {:?}", url, other),
        }
        assert_eq!(state.request_list.responses.len(), 0);
    }
    assert_eq!(state.get_final_response_body().unwrap(), "hello");
}

#[test]
fn dispatch_with_invalid_method_fails_before_the_url_is_judged() {
    let (mut state, _) = RuntimeState::new(inbound("hello"), CONVERSATION);
    for method in ["", "GE T", "GET\n", "g\u{e9}t", "a(b)"] {
        let d = state
            .dispatch_request(RequestSpec { request: outbound(method, "x"), url: "nonsense".to_string() })
            .unwrap();
        match d.call {
            Err(RequestProcessorError::Processing { origin, message }) => {
                assert_eq!(origin, Origin::Outbound);
                assert_eq!(message, "invalid HTTP method");
            }
            other => panic!("{:?}: {:?}", method, other),
        }
    }
    for method in ["get", "QUERY", "M-SEARCH", "a!#$%&'*+-.^_`|~9Z"] {
        let d = state
            .dispatch_request(RequestSpec { request: outbound(method, "x"), url: "http://h/".to_string() })
            .unwrap();
        assert!(d.call.is_ok(), "{}", method);
    }
}

#[test]
fn dispatch_checked_follows_the_verdicts_given() {
    let (mut state, _) = RuntimeState::new(inbound("hello"), CONVERSATION);
    let spec = || RequestSpec { request: outbound("GET", "x"), url: "u".to_string() };
    assert!(state.dispatch_checked(spec(), true, true).unwrap().call.is_ok());
    assert!(matches!(
        state.dispatch_checked(spec(), true, false).unwrap().call,
        Err(RequestProcessorError::Processing { message, .. }) if message == "invalid URL"
    ));
    assert!(matches!(
        state.dispatch_checked(spec(), false, true).unwrap().call,
        Err(RequestProcessorError::Processing { message, .. }) if message == "invalid HTTP method"
    ));
    assert!(matches!(
        state.dispatch_checked(spec(), false, false).unwrap().call,
        Err(RequestProcessorError::Processing { message, .. }) if message == "invalid HTTP method"
    ));
    assert_eq!(state.counter.0, 4);
}

fn object(members: Vec<(&str, Json)>) -> Json {
    Json::Object(members.into_iter().map(|(n, v)| (n.to_string(), v)).collect())
}

#[test]
fn operations_speak_json() {
    let (mut state, _) = RuntimeState::new(inbound("hello"), CONVERSATION);
    let request = state.op_get_request();
    assert!(matches!(request.get("body"), Some(Json::Text(b)) if b == "hello"));
    assert!(matches!(request.get("method"), Some(Json::Text(b)) if b == "POST"));

    let args = object(vec![
        ("request", outbound("GET", "x").to_json()),
        ("url", Json::Text("http://example.org/".to_string())),
    ]);
    let d = state.op_dispatch_request(&args).unwrap();
    let call = d.call.unwrap();
    assert_eq!(call.url, "http://example.org/");
    let (item, document) = state.op_dispatch_response(call.inc, answer(200, Some("world")));
    assert!(matches!(item, AuditItem::Response { .. }));
    assert!(matches!(document.get("body"), Some(Json::Text(b)) if b == "world"));
    assert!(matches!(document.get("code"), Some(Json::Integer(200))));
    assert_eq!(state.get_final_response_body().unwrap(), "world");

    match state.op_dispatch_request(&Json::Null) {
        Err(RequestProcessorError::JsonSerialize(m)) => assert_eq!(m, "document is no request spec"),
        other => panic!("{:?}", other),
    }
    assert_eq!(state.counter.0, 1);

    let explicit = object(vec![
        ("code", Json::Integer(201)),
        ("headers", object(vec![("X-Test", Json::Array(vec![Json::Text("1".to_string())]))])),
        ("body", Json::Text("ok".to_string())),
        ("version", Json::Text("HTTP/1.1".to_string())),
    ]);
    state.op_respond_with(&explicit).unwrap();
    assert_eq!(state.final_response.as_ref().unwrap().code, 201);
    match state.op_respond_with(&object(vec![("code", Json::Integer(201))])) {
        Err(RequestProcessorError::JsonSerialize(m)) => assert_eq!(m, "document is no response"),
        other => panic!("{:?}", other),
    }
    assert_eq!(state.final_response.as_ref().unwrap().code, 201);
}

#[test]
fn run_reply_is_rendered_with_the_conversation_header() {
    let (state, _) = RuntimeState::new(inbound("hello"), CONVERSATION);
    let run = render_run(Ok(state.final_response())).unwrap();
    assert_eq!(run.conversation_id, CONVERSATION_TEXT);
    assert_eq!(run.response.body, Some("hello".to_string()));

    let a = render_run_answer(Ok(state.final_response()));
    assert_eq!(a.status, 200);
    assert_eq!(a.conversation_id, Some(CONVERSATION_TEXT.to_string()));
    let body = a.body.unwrap();
    assert!(matches!(body.get("body"), Some(Json::Text(b)) if b == "hello"));
    assert!(matches!(body.get("code"), Some(Json::Integer(200))));
}

#[test]
fn run_reply_without_conversation_header_is_unhandled() {
    assert!(matches!(render_run(Ok(answer(200, None))), Err(Rejection::Unhandled)));
    let mut empty = answer(200, None);
    empty.headers.insert("FH-Conversation-Id".to_string(), Vec::new());
    assert!(matches!(render_run(Ok(empty)), Err(Rejection::Unhandled)));
    let a = render_run_answer(Ok(answer(200, None)));
    assert_eq!(a.status, 500);
    assert!(a.conversation_id.is_none());
    assert!(matches!(a.body.unwrap().get("message"), Some(Json::Text(m)) if m == "UNHANDLED_REJECTION"));
}

#[test]
fn failed_run_is_rendered_as_its_error() {
    let e = RequestProcessorError::Processing { origin: Origin::Outbound, message: "refused".to_string() };
    let a = render_run_answer(Err(e));
    assert_eq!(a.status, 502);
    let body = a.body.unwrap();
    assert!(matches!(body.get("code"), Some(Json::Integer(502))));
    assert!(matches!(body.get("message"), Some(Json::Text(m)) if m == "refused"));
    assert!(matches!(
        render_run(Err(RequestProcessorError::Custom("x".to_string()))),
        Err(Rejection::Processor(RequestProcessorError::Custom(_)))
    ));
}

#[test]
fn plain_outcomes_are_rendered() {
    let a = render(Ok(Some(Json::Bool(true))));
    assert_eq!(a.status, 200);
    assert!(matches!(a.body, Some(Json::Bool(true))));
    let a = render(Ok(None));
    assert_eq!(a.status, 200);
    assert!(a.body.is_none());
    let a = render(Err(Rejection::BodyDeserialize("bad".to_string())));
    assert_eq!(a.status, 400);
    assert!(matches!(a.body.unwrap().get("message"), Some(Json::Text(m)) if m == "bad"));
}

fn description(language: &str) -> Json {
    object(vec![
        ("name", Json::Text("n".to_string())),
        ("language", Json::Text(language.to_string())),
        ("runtime", Json::Text("v8".to_string())),
        ("code", Json::Text("c".to_string())),
    ])
}

#[test]
fn processor_is_read_from_a_request_body() {
    let p = read_processor(Some(description("javascript")), Some("u".to_string())).unwrap();
    assert_eq!((p.name.as_str(), p.code.as_str(), p.user_id.as_str()), ("n", "c", "u"));
    let q = read_processor(Some(description("javascript")), None).unwrap();
    assert_eq!(q.user_id, "anonymous");
    assert_eq!(owner_of(None), "anonymous");
    assert_eq!(owner_of(Some("me".to_string())), "me");
}

#[test]
fn unreadable_bodies_are_bad_requests() {
    let cases = vec![
        (None, "request body is no JSON"),
        (Some(Json::Null), "document is no request processor"),
        (Some(object(vec![("name", Json::Text("n".to_string()))])), "document is no request processor"),
        (Some(description("typescript")), "Unable to parse to enum: Matching variant not found"),
    ];
    for (body, message) in cases {
        let rejection = read_processor(body, None).unwrap_err();
        let a = render(Err(rejection));
        assert_eq!(a.status, 400);
        let body = a.body.unwrap();
        assert!(matches!(body.get("code"), Some(Json::Integer(400))));
        assert!(matches!(body.get("message"), Some(Json::Text(m)) if m == message));
    }
}

fn stored(id: u128) -> RequestProcessor {
    RequestProcessor {
        id,
        name: "n".to_string(),
        language: RequestProcessorLanguage::Javascript,
        runtime: RequestProcessorRuntime::V8,
        code: "c".to_string(),
        user_id: "u".to_string(),
    }
}

#[test]
fn storage_replies_are_rendered() {
    let a = render_reply(ReqReply::Processor(Ok(stored(1))));
    assert_eq!(a.status, 200);
    assert!(matches!(
        a.body.unwrap().get("id"),
        Some(Json::Text(t)) if t == "00000000-0000-0000-0000-000000000001"
    ));
    let a = render_reply(ReqReply::Processors(Ok(vec![stored(1), stored(2)])));
    assert!(matches!(a.body, Some(Json::Array(ref items)) if items.len() == 2));
    let a = render_reply(ReqReply::Deleted(Ok(())));
    assert_eq!(a.status, 200);
    assert!(a.body.is_none());
    let a = render_reply(ReqReply::AuditItems(Ok(Vec::new())));
    assert!(matches!(a.body, Some(Json::Array(ref items)) if items.is_empty()));
    let a = render_reply(ReqReply::Deleted(Err(RequestProcessorError::not_found("RequestProcessor", 3))));
    assert_eq!(a.status, 404);
    assert!(matches!(
        a.body.unwrap().get("message"),
        Some(Json::Text(m)) if m == "RequestProcessor with id 00000000-0000-0000-0000-000000000003 not found"
    ));
    let a = render_reply(ReqReply::Conversation(Err(RequestProcessorError::Db("down".to_string()))));
    assert_eq!(a.status, 500);
}

#[test]
fn the_conversation_header_is_the_path_to_the_conversation() {
    for conversation in [0u128, 7, CONVERSATION, u128::MAX] {
        let (state, _) = RuntimeState::new(inbound("hello"), conversation);
        let response = state.final_response();
        let text = response.headers.get("FH-Conversation-Id").unwrap()[0].clone();
        assert_eq!(
            flow_heater::route::route("GET", &format!("/conversation/{}", text)),
            flow_heater::route::Route::GetConversation(conversation)
        );
        assert_eq!(
            flow_heater::route::route("GET", &format!("/conversation/{}/audit_item", text)),
            flow_heater::route::Route::GetConversationItems(conversation)
        );
    }
}
