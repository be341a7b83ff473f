use flow_heater::error::{
    handle_rejections, FhHttpError, FhLockingError, FhProcessorError, Origin, Rejection,
    RequestProcessorError,
};

#[test]
fn missing_processor_is_rendered_as_404() {
    let err = RequestProcessorError::not_found("RequestProcessor", 1);
    let answer = handle_rejections(&Rejection::Processor(err));
    assert_eq!(answer.code, 404);
    assert_eq!(
        answer.message,
        "RequestProcessor with id 00000000-0000-0000-0000-000000000001 not found"
    );
}

#[test]
fn identifier_text_is_hyphenated_lower_case_hex() {
    let err = RequestProcessorError::not_found("X", 0xa1a2a3a4_b1b2_c1c2_d1d2_d3d4d5d6d7d8);
    assert_eq!(err.message(), "X with id a1a2a3a4-b1b2-c1c2-d1d2-d3d4d5d6d7d8 not found");
    let err = RequestProcessorError::not_found("X", u128::MAX);
    assert_eq!(err.message(), "X with id ffffffff-ffff-ffff-ffff-ffffffffffff not found");
}

#[test]
fn each_error_has_its_message_and_status() {
    let cases: Vec<(RequestProcessorError, &str, u16)> = vec![
        (RequestProcessorError::not_found("RequestConversation", 0), "RequestConversation with id 00000000-0000-0000-0000-000000000000 not found", 404),
        (RequestProcessorError::Db("db down".to_string()), "db down", 500),
        (RequestProcessorError::Parse("Matching variant not found".to_string()), "Unable to parse to enum: Matching variant not found", 500),
        (RequestProcessorError::UuidParse("bad id".to_string()), "bad id", 500),
        (RequestProcessorError::JsonSerialize("bad json".to_string()), "bad json", 500),
        (RequestProcessorError::Processing { origin: Origin::Engine, message: "boom".to_string() }, "boom", 500),
        (RequestProcessorError::Processing { origin: Origin::Outbound, message: "refused".to_string() }, "refused", 502),
        (RequestProcessorError::Locking("poisoned".to_string()), "poisoned", 500),
        (RequestProcessorError::TimeParse("bad time".to_string()), "bad time", 500),
        (RequestProcessorError::Custom("custom".to_string()), "custom", 500),
        (RequestProcessorError::EmptyDbField("empty".to_string()), "empty", 500),
    ];
    for (err, message, status) in cases {
        assert_eq!(err.message(), message);
        assert_eq!(err.status_code(), status);
        let copy = err.duplicate();
        assert_eq!(copy.message(), message);
        let answer = handle_rejections(&Rejection::Processor(err));
        assert_eq!(answer.code, status);
        assert_eq!(answer.message, message);
    }
}

#[test]
fn each_rejection_has_its_answer() {
    let a = handle_rejections(&Rejection::NotFound);
    assert_eq!((a.code, a.message.as_str()), (404, "NOT_FOUND"));
    let a = handle_rejections(&Rejection::Recv("channel closed".to_string()));
    assert_eq!((a.code, a.message.as_str()), (500, "channel closed"));
    let a = handle_rejections(&Rejection::MethodNotAllowed);
    assert_eq!((a.code, a.message.as_str()), (405, "METHOD_NOT_ALLOWED"));
    let a = handle_rejections(&Rejection::BodyDeserialize("bad body".to_string()));
    assert_eq!((a.code, a.message.as_str()), (400, "bad body"));
    let a = handle_rejections(&Rejection::Unhandled);
    assert_eq!((a.code, a.message.as_str()), (500, "UNHANDLED_REJECTION"));
}

#[test]
fn error_carriers_keep_what_they_are_given() {
    assert_eq!(FhLockingError::new("a".to_string()).err, "a");
    assert_eq!(FhProcessorError::new(7u8).err, 7);
    assert_eq!(FhHttpError::new((1, 2)).err, (1, 2));
}

#[test]
fn failures_become_processing_errors_and_processing_errors_stay() {
    let kept = RequestProcessorError::Processing { origin: Origin::Outbound, message: "refused".to_string() }
        .into_processing();
    assert!(matches!(
        &kept,
        RequestProcessorError::Processing { origin: Origin::Outbound, message } if message == "refused"
    ));
    assert_eq!(kept.status_code(), 502);
    let kept = RequestProcessorError::Processing { origin: Origin::Engine, message: "boom".to_string() }
        .into_processing();
    assert!(matches!(
        &kept,
        RequestProcessorError::Processing { origin: Origin::Engine, message } if message == "boom"
    ));
    let cases: Vec<(RequestProcessorError, &str)> = vec![
        (RequestProcessorError::not_found("RequestProcessor", 2), "RequestProcessor with id 00000000-0000-0000-0000-000000000002 not found"),
        (RequestProcessorError::Db("down".to_string()), "down"),
        (RequestProcessorError::Parse("x".to_string()), "Unable to parse to enum: x"),
        (RequestProcessorError::JsonSerialize("bad".to_string()), "bad"),
        (RequestProcessorError::Custom("odd".to_string()), "odd"),
        (RequestProcessorError::EmptyDbField("empty".to_string()), "empty"),
    ];
    for (e, text) in cases {
        match e.into_processing() {
            RequestProcessorError::Processing { origin, message } => {
                assert_eq!(origin, Origin::Engine);
                assert_eq!(message, text);
            }
            other => panic!("{:?}", other),
        }
    }
}
