use flow_heater::audit::AuditItem;
use flow_heater::conversation::RequestConversation;
use flow_heater::error::{ErrorMessage, RequestProcessorError};
use flow_heater::headers::Headers;
use flow_heater::ident::Timestamp;
use flow_heater::json::Json;
use flow_heater::processor::{
    ProcessorDraft, RequestProcessor, RequestProcessorLanguage, RequestProcessorRuntime,
};
use flow_heater::request::{Request, RequestSpec};
use flow_heater::response::Response;
use flow_heater::wire::{headers_from_json, headers_to_json, values_from_json, values_to_json};

fn text(j: &Json, name: &str) -> String {
    match j.get(name) {
        Some(Json::Text(t)) => t.clone(),
        other => panic!("member {} is {:?}", name, other),
    }
}

fn integer(j: &Json, name: &str) -> i64 {
    match j.get(name) {
        Some(Json::Integer(i)) => *i,
        other => panic!("member {} is {:?}", name, other),
    }
}

fn object(members: Vec<(&str, Json)>) -> Json {
    Json::Object(members.into_iter().map(|(n, v)| (n.to_string(), v)).collect())
}

fn t(s: &str) -> Json {
    Json::Text(s.to_string())
}

fn sample_request() -> Request {
    let mut headers = Headers::new();
    headers.append("accept".to_string(), "a/b".to_string());
    headers.append("accept".to_string(), "c/d".to_string());
    headers.append("host".to_string(), "example.org".to_string());
    Request {
        headers,
        body: "hello".to_string(),
        method: "POST".to_string(),
        path: "/x".to_string(),
        query: Some("q=1".to_string()),
        version: "HTTP/1.1".to_string(),
    }
}

#[test]
fn member_lookup_takes_the_first_member_of_a_name() {
    let j = object(vec![("a", t("1")), ("b", Json::Null), ("a", t("2"))]);
    assert_eq!(text(&j, "a"), "1");
    assert!(matches!(j.get("b"), Some(Json::Null)));
    assert!(j.get("c").is_none());
    assert!(t("x").get("a").is_none());
    assert!(Json::Array(vec![]).get("a").is_none());
}

#[test]
fn request_is_written_with_snake_case_members() {
    let j = sample_request().to_json();
    assert_eq!(text(&j, "body"), "hello");
    assert_eq!(text(&j, "method"), "POST");
    assert_eq!(text(&j, "path"), "/x");
    assert_eq!(text(&j, "query"), "q=1");
    assert_eq!(text(&j, "version"), "HTTP/1.1");
    let headers = j.get("headers").unwrap();
    match headers.get("accept") {
        Some(Json::Array(items)) => {
            assert_eq!(items.len(), 2);
            assert!(matches!(&items[0], Json::Text(v) if v == "a/b"));
            assert!(matches!(&items[1], Json::Text(v) if v == "c/d"));
        }
        other => panic!("accept is {:?}", other),
    }
    match &j {
        Json::Object(members) => assert_eq!(members.len(), 6),
        _ => panic!("no object"),
    }
}

#[test]
fn request_survives_the_round_trip_through_json() {
    let r = sample_request();
    let back = Request::from_json(&r.to_json()).unwrap();
    assert_eq!(back.body, r.body);
    assert_eq!(back.method, r.method);
    assert_eq!(back.path, r.path);
    assert_eq!(back.query, r.query);
    assert_eq!(back.version, r.version);
    assert_eq!(back.headers.get("accept"), r.headers.get("accept"));
    assert_eq!(back.headers.get("host"), r.headers.get("host"));
    assert_eq!(back.headers.entries.len(), 2);

    let mut bare = sample_request();
    bare.query = None;
    bare.headers = Headers::new();
    let j = bare.to_json();
    assert!(matches!(j.get("query"), Some(Json::Null)));
    let back = Request::from_json(&j).unwrap();
    assert_eq!(back.query, None);
    assert_eq!(back.headers.entries.len(), 0);
}

#[test]
fn request_reading_tolerates_missing_query_and_unknown_members() {
    let j = object(vec![
        ("extra", Json::Bool(true)),
        ("headers", object(vec![])),
        ("body", t("")),
        ("method", t("GET")),
        ("path", t("/")),
        ("version", t("HTTP/1.1")),
    ]);
    let r = Request::from_json(&j).unwrap();
    assert_eq!(r.query, None);
    assert_eq!(r.method, "GET");
}

#[test]
fn request_reading_fails_on_missing_or_ill_typed_members() {
    let good = |skip: &str, swap: Option<(&str, Json)>| {
        let mut members = vec![
            ("headers", object(vec![("a", Json::Array(vec![t("1")]))])),
            ("body", t("")),
            ("method", t("GET")),
            ("path", t("/")),
            ("query", Json::Null),
            ("version", t("HTTP/1.1")),
        ];
        members.retain(|(n, _)| *n != skip);
        if let Some((n, v)) = swap {
            members.retain(|(m, _)| *m != n);
            members.push((n, v));
        }
        object(members)
    };
    assert!(Request::from_json(&good("", None)).is_ok());
    for missing in ["headers", "body", "method", "path", "version"] {
        match Request::from_json(&good(missing, None)) {
            Err(RequestProcessorError::JsonSerialize(m)) => assert_eq!(m, "document is no request"),
            other => panic!("{}: {:?}", missing, other),
        }
    }
    assert!(Request::from_json(&good("", Some(("body", Json::Integer(1))))).is_err());
    assert!(Request::from_json(&good("", Some(("query", Json::Bool(false))))).is_err());
    assert!(Request::from_json(&good("", Some(("headers", t("x"))))).is_err());
    assert!(Request::from_json(&good("", Some(("headers", object(vec![("a", t("1"))]))))).is_err());
    assert!(Request::from_json(
        &good("", Some(("headers", object(vec![("a", Json::Array(vec![Json::Null]))]))))
    )
    .is_err());
    assert!(Request::from_json(&Json::Null).is_err());
    assert!(Request::from_json(&Json::Array(vec![])).is_err());
}

#[test]
fn hidden_members_of_headers_are_not_read() {
    let j = object(vec![("a", Json::Array(vec![t("1")])), ("a", t("not an array"))]);
    let h = headers_from_json(&j).unwrap();
    assert_eq!(h.get("a"), Some(&vec!["1".to_string()]));
    assert_eq!(h.entries.len(), 1);
    let bad = object(vec![("a", t("not an array")), ("a", Json::Array(vec![t("1")]))]);
    assert!(headers_from_json(&bad).is_none());
}

#[test]
fn lists_of_texts_survive_the_round_trip() {
    let values = vec!["a".to_string(), "".to_string(), "a".to_string()];
    assert_eq!(values_from_json(&values_to_json(&values)), Some(values));
    assert_eq!(values_from_json(&values_to_json(&Vec::new())), Some(Vec::new()));
    assert_eq!(values_from_json(&Json::Array(vec![t("a"), Json::Integer(1)])), None);
    assert_eq!(values_from_json(&Json::Null), None);
    let mut h = Headers::new();
    h.append("k".to_string(), "v".to_string());
    let back = headers_from_json(&headers_to_json(&h)).unwrap();
    assert_eq!(back.get("k"), Some(&vec!["v".to_string()]));
}

#[test]
fn response_survives_the_round_trip_through_json() {
    let mut headers = Headers::new();
    headers.append("X-Test".to_string(), "1".to_string());
    let r = Response { code: 201, headers, body: Some("ok".to_string()), version: "HTTP/1.1".to_string() };
    let j = r.to_json();
    assert_eq!(integer(&j, "code"), 201);
    assert_eq!(text(&j, "body"), "ok");
    let back = Response::from_json(&j).unwrap();
    assert_eq!(back.code, 201);
    assert_eq!(back.body, Some("ok".to_string()));
    assert_eq!(back.version, "HTTP/1.1");
    assert_eq!(back.headers.get("X-Test"), Some(&vec!["1".to_string()]));

    let none = Response { code: 65535, headers: Headers::new(), body: None, version: "v".to_string() };
    let back = Response::from_json(&none.to_json()).unwrap();
    assert_eq!(back.code, 65535);
    assert_eq!(back.body, None);
}

#[test]
fn response_reading_checks_the_status_code() {
    let doc = |code: Json| {
        object(vec![("code", code), ("headers", object(vec![])), ("version", t("HTTP/1.1"))])
    };
    assert_eq!(Response::from_json(&doc(Json::Integer(0))).unwrap().code, 0);
    assert_eq!(Response::from_json(&doc(Json::Integer(65535))).unwrap().code, 65535);
    for bad in [Json::Integer(-1), Json::Integer(65536), t("200"), Json::Decimal("200.5".to_string()), Json::Null] {
        match Response::from_json(&doc(bad)) {
            Err(RequestProcessorError::JsonSerialize(m)) => assert_eq!(m, "document is no response"),
            other => panic!("{:?}", other),
        }
    }
}

#[test]
fn request_spec_is_read_from_json() {
    let j = object(vec![("request", sample_request().to_json()), ("url", t("http://example.org/"))]);
    let spec = RequestSpec::from_json(&j).unwrap();
    assert_eq!(spec.url, "http://example.org/");
    assert_eq!(spec.request.body, "hello");
    let no_url = object(vec![("request", sample_request().to_json())]);
    match RequestSpec::from_json(&no_url) {
        Err(RequestProcessorError::JsonSerialize(m)) => assert_eq!(m, "document is no request spec"),
        other => panic!("{:?}", other),
    }
    let bad_request = object(vec![("request", Json::Null), ("url", t("http://example.org/"))]);
    assert!(RequestSpec::from_json(&bad_request).is_err());
}

#[test]
fn processor_description_is_read_from_json() {
    let j = object(vec![
        ("id", t("ignored")),
        ("name", t("n")),
        ("language", t("javascript")),
        ("runtime", t("v8")),
        ("code", t("c")),
    ]);
    let d = ProcessorDraft::from_json(&j).unwrap();
    assert_eq!((d.name.as_str(), d.language.as_str(), d.runtime.as_str(), d.code.as_str()), ("n", "javascript", "v8", "c"));
    let missing = object(vec![("name", t("n")), ("language", t("javascript")), ("runtime", t("v8"))]);
    match ProcessorDraft::from_json(&missing) {
        Err(RequestProcessorError::JsonSerialize(m)) => assert_eq!(m, "document is no request processor"),
        other => panic!("{:?}", other),
    }
}

#[test]
fn processor_is_written_as_json() {
    let p = RequestProcessor {
        id: 0x10,
        name: "n".to_string(),
        language: RequestProcessorLanguage::Javascript,
        runtime: RequestProcessorRuntime::V8,
        code: "c".to_string(),
        user_id: "u".to_string(),
    };
    let j = p.to_json();
    assert_eq!(text(&j, "id"), "00000000-0000-0000-0000-000000000010");
    assert_eq!(text(&j, "name"), "n");
    assert_eq!(text(&j, "language"), "javascript");
    assert_eq!(text(&j, "runtime"), "v8");
    assert_eq!(text(&j, "code"), "c");
    assert_eq!(text(&j, "user_id"), "u");
}

#[test]
fn audit_items_are_tagged_by_kind() {
    let request = AuditItem::Request {
        id: 1,
        created_at: Timestamp::from_nanos(5),
        inc: 3,
        conversation_id: 2,
        payload: sample_request(),
    };
    let j = request.to_json();
    assert_eq!(text(&j, "kind"), "request");
    assert_eq!(text(&j, "id"), "00000000-0000-0000-0000-000000000001");
    assert_eq!(text(&j, "conversation_id"), "00000000-0000-0000-0000-000000000002");
    assert_eq!(integer(&j, "created_at"), 5);
    assert_eq!(integer(&j, "inc"), 3);
    assert_eq!(text(j.get("payload").unwrap(), "body"), "hello");
    assert!(j.get("request_id").is_none());

    let response = AuditItem::Response {
        id: 3,
        created_at: Timestamp::from_nanos(6),
        conversation_id: 2,
        request_id: 1,
        payload: Response { code: 200, headers: Headers::new(), body: None, version: "v".to_string() },
    };
    let j = response.to_json();
    assert_eq!(text(&j, "kind"), "response");
    assert_eq!(text(&j, "request_id"), "00000000-0000-0000-0000-000000000001");
    assert_eq!(integer(j.get("payload").unwrap(), "code"), 200);
    assert!(j.get("inc").is_none());

    let log = AuditItem::Log {
        id: 4,
        created_at: Timestamp::from_nanos(7),
        conversation_id: 2,
        payload: "line".to_string(),
    };
    let j = log.to_json();
    assert_eq!(text(&j, "kind"), "log");
    assert_eq!(text(&j, "payload"), "line");
}

#[test]
fn conversation_is_written_with_its_items() {
    let c = RequestConversation {
        id: 7,
        created_at: Timestamp::from_nanos(11),
        request_processor_id: 8,
        audit_items: vec![AuditItem::Log {
            id: 4,
            created_at: Timestamp::from_nanos(12),
            conversation_id: 7,
            payload: "line".to_string(),
        }],
    };
    let j = c.to_json();
    assert_eq!(text(&j, "id"), "00000000-0000-0000-0000-000000000007");
    assert_eq!(text(&j, "request_processor_id"), "00000000-0000-0000-0000-000000000008");
    assert_eq!(integer(&j, "created_at"), 11);
    match j.get("audit_items") {
        Some(Json::Array(items)) => {
            assert_eq!(items.len(), 1);
            assert_eq!(text(&items[0], "kind"), "log");
        }
        other => panic!("{:?}", other),
    }
}

#[test]
fn error_message_is_written_as_code_and_message() {
    let j = ErrorMessage { code: 404, message: "gone".to_string() }.to_json();
    assert_eq!(integer(&j, "code"), 404);
    assert_eq!(text(&j, "message"), "gone");
}
