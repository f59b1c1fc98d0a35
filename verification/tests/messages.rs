use ra_lsp_server::message::{
    error_number, notification_is, notification_new, request_new, ErrorCode, RequestId, Response,
    ResponseError,
};

#[test]
fn error_codes_are_those_of_the_protocol() {
    assert_eq!(error_number(ErrorCode::MethodNotFound), -32601);
    assert_eq!(error_number(ErrorCode::InternalError), -32603);
    assert_eq!(error_number(ErrorCode::RequestCanceled), -32800);
    assert_eq!(
        error_number(ErrorCode::MethodNotFound),
        lsp_server::ErrorCode::MethodNotFound as i32
    );
}

#[test]
fn ids_of_different_kinds_differ() {
    let number = RequestId::Number(1);
    let text = RequestId::Text("1".to_string());
    assert!(number.same(&number.clone()));
    assert!(text.same(&text.clone()));
    assert!(!number.same(&text));
    assert!(!text.same(&number));
    assert!(!number.same(&RequestId::Number(2)));
    assert!(!text.same(&RequestId::Text("2".to_string())));
}

#[test]
fn responses_hold_a_result_or_an_error() {
    let ok = Response::new_ok(RequestId::Number(3), "[1]".to_string());
    assert_eq!(ok.id, RequestId::Number(3));
    assert_eq!(ok.result, Some("[1]".to_string()));
    assert_eq!(ok.error, None);
    let err = Response::new_err(RequestId::Number(3), -1, "no".to_string());
    assert_eq!(err.id, RequestId::Number(3));
    assert_eq!(err.result, None);
    assert_eq!(err.error, Some(ResponseError { code: -1, message: "no".to_string() }));
}

#[test]
fn requests_and_notifications_are_put_together() {
    let req = request_new(RequestId::Number(9), "a/b", "{}".to_string());
    assert_eq!(req.id, RequestId::Number(9));
    assert_eq!(req.method, "a/b");
    assert_eq!(req.params, "{}");
    let not = notification_new("c/d", "null".to_string());
    assert_eq!(not.method, "c/d");
    assert_eq!(not.params, "null");
    assert!(notification_is(&not, "c/d"));
    assert!(!notification_is(&not, "c/D"));
}
