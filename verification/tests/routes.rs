use flow_heater::command::ReqCmd;
use flow_heater::engine::ProcessorCmd;
use flow_heater::frontend::{
    create_processor, delete_processor, deprecated_run_processor, dispatch, find_user,
    get_processor, get_processors, get_request_conversation,
    get_request_conversation_audit_items, run_processor, run_processor_with_prelude,
    update_processor, FrontAction, Inbound,
};
use flow_heater::json::Json;
use flow_heater::request::HttpVersion;
use flow_heater::route::{route, split_text, Route};

const ID: u128 = 0x550e8400_e29b_41d4_a716_446655440000;
const ID_TEXT: &str = "550e8400-e29b-41d4-a716-446655440000";

#[test]
fn texts_are_split_at_each_separator() {
    assert_eq!(split_text("", '/'), vec![""]);
    assert_eq!(split_text("/", '/'), vec!["", ""]);
    assert_eq!(split_text("abc", '/'), vec!["abc"]);
    assert_eq!(split_text("/a/b", '/'), vec!["", "a", "b"]);
    assert_eq!(split_text("/a//b/", '/'), vec!["", "a", "", "b", ""]);
    assert_eq!(split_text("/\u{e9}t\u{e9}/x", '/'), vec!["", "\u{e9}t\u{e9}", "x"]);
    assert_eq!(split_text("a,b", ','), vec!["a", "b"]);
}

#[test]
fn each_route_is_found() {
    let with_id = |pattern: &str| pattern.replace("{id}", ID_TEXT);
    assert_eq!(route("POST", "/admin/processor"), Route::CreateProcessor);
    assert_eq!(route("GET", "/admin/processors"), Route::GetProcessors);
    assert_eq!(route("GET", &with_id("/admin/processor/{id}")), Route::GetProcessor(ID));
    assert_eq!(route("PUT", &with_id("/admin/processor/{id}")), Route::UpdateProcessor(ID));
    assert_eq!(route("DELETE", &with_id("/admin/processor/{id}")), Route::DeleteProcessor(ID));
    assert_eq!(route("GET", &with_id("/conversation/{id}")), Route::GetConversation(ID));
    assert_eq!(
        route("GET", &with_id("/conversation/{id}/audit_item")),
        Route::GetConversationItems(ID)
    );
    assert_eq!(route("GET", "/health_check"), Route::HealthCheck);
    for method in ["GET", "POST", "PUT", "DELETE", "PATCH", "whatever"] {
        assert_eq!(
            route(method, &with_id("/processor/{id}/run")),
            Route::Run { id: ID, prelude: false }
        );
        assert_eq!(
            route(method, &with_id("/processor/{id}/run_with_prelude")),
            Route::Run { id: ID, prelude: true }
        );
        assert_eq!(route(method, "/hello/world"), Route::Hello);
    }
}

#[test]
fn identifiers_are_read_in_every_form() {
    for text in [
        "550e8400e29b41d4a716446655440000",
        "550E8400-E29B-41D4-A716-446655440000",
        "urn:uuid:550e8400-e29b-41d4-a716-446655440000",
        "{550e8400-e29b-41d4-a716-446655440000}",
    ] {
        assert_eq!(route("GET", &format!("/conversation/{}", text)), Route::GetConversation(ID));
    }
    assert_eq!(
        route("GET", "/conversation/00000000-0000-0000-0000-000000000000"),
        Route::GetConversation(0)
    );
}

#[test]
fn other_methods_on_a_route_are_not_allowed() {
    assert_eq!(route("GET", "/admin/processor"), Route::MethodNotAllowed);
    assert_eq!(route("DELETE", "/admin/processors"), Route::MethodNotAllowed);
    assert_eq!(route("POST", &format!("/admin/processor/{}", ID_TEXT)), Route::MethodNotAllowed);
    assert_eq!(route("PATCH", &format!("/admin/processor/{}", ID_TEXT)), Route::MethodNotAllowed);
    assert_eq!(route("POST", &format!("/conversation/{}", ID_TEXT)), Route::MethodNotAllowed);
    assert_eq!(route("PUT", "/health_check"), Route::MethodNotAllowed);
    assert_eq!(route("get", "/health_check"), Route::MethodNotAllowed);
}

#[test]
fn other_paths_are_not_found() {
    for path in [
        "",
        "/",
        "admin/processors",
        "/admin",
        "/admin/processors/",
        "/admin/processor/not-an-id",
        "/conversation/not-an-id",
        "/conversation/not-an-id/audit_item",
        "/processor/not-an-id/run",
        "/processor//run",
        "/hello",
        "/hello/a/b",
        "/health_check/",
        "/Admin/processors",
    ] {
        assert_eq!(route("GET", path), Route::NotFound, "{:?}", path);
    }
    assert_eq!(
        route("GET", &format!("/processor/{}/run/", ID_TEXT)),
        Route::NotFound
    );
}

fn inbound(method: &str, path: &str, user: Option<&str>, body: &[u8], document: Option<Json>) -> Inbound {
    let mut headers = vec![("host".to_string(), Some("gateway".to_string()))];
    if let Some(u) = user {
        headers.push(("FH-User-Id".to_string(), Some(u.to_string())));
        headers.push(("fh-user-id".to_string(), Some("second".to_string())));
    }
    Inbound {
        method: method.to_string(),
        path: path.to_string(),
        query: Some("a=b".to_string()),
        version: HttpVersion::Http11,
        headers,
        body: body.to_vec(),
        document,
    }
}

fn description(language: &str) -> Json {
    Json::Object(
        vec![("name", "n"), ("language", language), ("runtime", "v8"), ("code", "c")]
            .into_iter()
            .map(|(n, v)| (n.to_string(), Json::Text(v.to_string())))
            .collect(),
    )
}

#[test]
fn the_user_is_named_by_the_first_header_of_that_name() {
    let named = inbound("GET", "/", Some("me"), b"", None);
    assert_eq!(find_user(&named.headers), Some("me".to_string()));
    let anonymous = inbound("GET", "/", None, b"", None);
    assert_eq!(find_user(&anonymous.headers), None);
    assert_eq!(find_user(&vec![("fh-user-id".to_string(), None)]), Some(String::new()));
}

#[test]
fn create_is_dispatched_to_storage_with_the_owner() {
    match dispatch(inbound("POST", "/admin/processor", Some("me"), b"{}", Some(description("javascript")))) {
        FrontAction::Storage(ReqCmd::CreateRequestProcessor { proc }) => {
            assert_eq!(proc.user_id, "me");
            assert_eq!(proc.name, "n");
        }
        other => panic!("{:?}", other),
    }
    match dispatch(inbound("POST", "/admin/processor", None, b"{}", Some(description("javascript")))) {
        FrontAction::Storage(ReqCmd::CreateRequestProcessor { proc }) => {
            assert_eq!(proc.user_id, "anonymous")
        }
        other => panic!("{:?}", other),
    }
}

#[test]
fn create_with_unknown_language_is_answered_with_400() {
    for document in [Some(description("typescript")), Some(Json::Null), None] {
        match dispatch(inbound("POST", "/admin/processor", None, b"x", document)) {
            FrontAction::Answer(a) => {
                assert_eq!(a.status, 400);
                assert!(matches!(a.body.unwrap().get("code"), Some(Json::Integer(400))));
            }
            other => panic!("{:?}", other),
        }
    }
    let path = format!("/admin/processor/{}", ID_TEXT);
    assert!(matches!(
        dispatch(inbound("PUT", &path, None, b"x", Some(description("python")))),
        FrontAction::Answer(a) if a.status == 400
    ));
}

#[test]
fn admin_and_conversation_routes_are_dispatched_to_storage() {
    let processor = format!("/admin/processor/{}", ID_TEXT);
    let conversation = format!("/conversation/{}", ID_TEXT);
    let items = format!("/conversation/{}/audit_item", ID_TEXT);
    assert!(matches!(
        dispatch(inbound("GET", &processor, None, b"", None)),
        FrontAction::Storage(ReqCmd::GetRequestProcessor { id: ID })
    ));
    assert!(matches!(
        dispatch(inbound("DELETE", &processor, None, b"", None)),
        FrontAction::Storage(ReqCmd::DeleteRequestProcessor { id: ID })
    ));
    assert!(matches!(
        dispatch(inbound("PUT", &processor, Some("me"), b"", Some(description("javascript")))),
        FrontAction::Storage(ReqCmd::UpdateRequestProcessor { id: ID, proc }) if proc.user_id == "me"
    ));
    assert!(matches!(
        dispatch(inbound("GET", "/admin/processors", Some("me"), b"", None)),
        FrontAction::Storage(ReqCmd::GetRequestProcessors { user_id }) if user_id == "me"
    ));
    assert!(matches!(
        dispatch(inbound("GET", "/admin/processors", None, b"", None)),
        FrontAction::Storage(ReqCmd::GetRequestProcessors { user_id }) if user_id == "anonymous"
    ));
    assert!(matches!(
        dispatch(inbound("GET", &conversation, None, b"", None)),
        FrontAction::Storage(ReqCmd::GetRequestConversation { id: ID })
    ));
    assert!(matches!(
        dispatch(inbound("GET", &items, None, b"", None)),
        FrontAction::Storage(ReqCmd::GetRequestConversationAuditItems { id: ID })
    ));
}

#[test]
fn runs_are_dispatched_to_the_engine_with_the_whole_request() {
    let path = format!("/processor/{}/run_with_prelude", ID_TEXT);
    match dispatch(inbound("PATCH", &path, Some("me"), "h\u{e9}".as_bytes(), None)) {
        FrontAction::Engine(ProcessorCmd::RunRequestProcessor { id, request, prelude }) => {
            assert_eq!(id, ID);
            assert!(prelude);
            assert_eq!(request.method, "PATCH");
            assert_eq!(request.path, path);
            assert_eq!(request.query, Some("a=b".to_string()));
            assert_eq!(request.version, "HTTP/1.1");
            assert_eq!(request.body, "h\u{e9}");
            assert_eq!(request.headers.get("host"), Some(&vec!["gateway".to_string()]));
            assert_eq!(request.headers.get("FH-User-Id"), Some(&vec!["me".to_string()]));
            assert_eq!(request.headers.get("fh-user-id"), Some(&vec!["second".to_string()]));
        }
        other => panic!("{:?}", other),
    }
    match dispatch(inbound("GET", "/hello/you", None, b"hi", None)) {
        FrontAction::Engine(ProcessorCmd::Http { request }) => assert_eq!(request.body, "hi"),
        other => panic!("{:?}", other),
    }
    let run = format!("/processor/{}/run", ID_TEXT);
    match dispatch(inbound("POST", &run, None, &[0xff], None)) {
        FrontAction::Answer(a) => {
            assert_eq!(a.status, 400);
            assert!(matches!(
                a.body.unwrap().get("message"),
                Some(Json::Text(m)) if m == "request body is not valid UTF-8"
            ));
        }
        other => panic!("{:?}", other),
    }
}

#[test]
fn the_rest_is_answered_at_once() {
    match dispatch(inbound("GET", "/health_check", None, b"", None)) {
        FrontAction::Answer(a) => {
            assert_eq!(a.status, 200);
            assert!(a.body.is_none() && a.conversation_id.is_none());
        }
        other => panic!("{:?}", other),
    }
    match dispatch(inbound("GET", "/nowhere", None, b"", None)) {
        FrontAction::Answer(a) => {
            assert_eq!(a.status, 404);
            assert!(matches!(a.body.unwrap().get("message"), Some(Json::Text(m)) if m == "NOT_FOUND"));
        }
        other => panic!("{:?}", other),
    }
    match dispatch(inbound("POST", "/health_check", None, b"", None)) {
        FrontAction::Answer(a) => {
            assert_eq!(a.status, 405);
            assert!(matches!(
                a.body.unwrap().get("message"),
                Some(Json::Text(m)) if m == "METHOD_NOT_ALLOWED"
            ));
        }
        other => panic!("{:?}", other),
    }
}

#[test]
fn each_handler_decides_for_its_route() {
    assert!(matches!(
        create_processor(inbound("POST", "/any", Some("me"), b"", Some(description("javascript")))),
        FrontAction::Storage(ReqCmd::CreateRequestProcessor { proc }) if proc.user_id == "me"
    ));
    for language in ["python", "Javascript", "typescript", ""] {
        match create_processor(inbound("POST", "/any", None, b"", Some(description(language)))) {
            FrontAction::Answer(a) => {
                assert_eq!(a.status, 400);
                assert!(matches!(
                    a.body.unwrap().get("message"),
                    Some(Json::Text(m)) if m == "Unable to parse to enum: Matching variant not found"
                ));
            }
            other => panic!("{}: {:?}", language, other),
        }
    }
    assert!(matches!(
        update_processor(9, inbound("PUT", "/any", None, b"", Some(description("javascript")))),
        FrontAction::Storage(ReqCmd::UpdateRequestProcessor { id: 9, proc }) if proc.user_id == "anonymous"
    ));
    assert!(matches!(
        update_processor(9, inbound("PUT", "/any", None, b"", None)),
        FrontAction::Answer(a) if a.status == 400
    ));
    assert!(matches!(
        get_processors(inbound("GET", "/any", Some("me"), b"", None)),
        FrontAction::Storage(ReqCmd::GetRequestProcessors { user_id }) if user_id == "me"
    ));
    assert!(matches!(get_processor(3), FrontAction::Storage(ReqCmd::GetRequestProcessor { id: 3 })));
    assert!(matches!(
        delete_processor(4),
        FrontAction::Storage(ReqCmd::DeleteRequestProcessor { id: 4 })
    ));
    assert!(matches!(
        get_request_conversation(5),
        FrontAction::Storage(ReqCmd::GetRequestConversation { id: 5 })
    ));
    assert!(matches!(
        get_request_conversation_audit_items(6),
        FrontAction::Storage(ReqCmd::GetRequestConversationAuditItems { id: 6 })
    ));
    assert!(matches!(
        run_processor(7, inbound("POST", "/p", None, b"hi", None)),
        FrontAction::Engine(ProcessorCmd::RunRequestProcessor { id: 7, prelude: false, request }) if request.body == "hi"
    ));
    assert!(matches!(
        run_processor_with_prelude(8, inbound("POST", "/p", None, b"hi", None)),
        FrontAction::Engine(ProcessorCmd::RunRequestProcessor { id: 8, prelude: true, .. })
    ));
    assert!(matches!(
        deprecated_run_processor(inbound("GET", "/hello/x", None, b"yo", None)),
        FrontAction::Engine(ProcessorCmd::Http { request }) if request.body == "yo"
    ));
    assert!(matches!(
        run_processor(7, inbound("POST", "/p", None, &[0x80], None)),
        FrontAction::Answer(a) if a.status == 400
    ));
    assert!(matches!(
        deprecated_run_processor(inbound("POST", "/hello/x", None, &[0xc3], None)),
        FrontAction::Answer(a) if a.status == 400
    ));
}

#[test]
fn a_written_identifier_routes_back_to_itself() {
    for id in [0u128, 7, ID, u128::MAX] {
        let hex = format!("{:032x}", id);
        let text = format!("{}-{}-{}-{}-{}", &hex[0..8], &hex[8..12], &hex[12..16], &hex[16..20], &hex[20..32]);
        assert_eq!(route("GET", &format!("/conversation/{}", text)), Route::GetConversation(id));
    }
}
