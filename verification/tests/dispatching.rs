use std::time::Instant;

use ra_lsp_server::action::{Action, Job, Task};
use ra_lsp_server::dispatch::{
    on_request, on_task, result_to_task, Dispatched, HandlerResult, PoolDispatcher,
};
use ra_lsp_server::lsp_error::LspError;
use ra_lsp_server::message::{
    notification_new, request_new, Message, RequestId, Response, ResponseError,
};
use ra_lsp_server::method::{ExtensionMethods, RequestKind};
use ra_lsp_server::pending_requests::{PendingRequest, PendingRequests};

fn extension_methods() -> ExtensionMethods {
    ExtensionMethods {
        collect_garbage: "ext/collectGarbage".to_string(),
        join_lines: "ext/joinLines".to_string(),
        on_enter: "ext/onEnter".to_string(),
        find_matching_brace: "ext/findMatchingBrace".to_string(),
        analyzer_status: "ext/analyzerStatus".to_string(),
        syntax_tree: "ext/syntaxTree".to_string(),
        parent_module: "ext/parentModule".to_string(),
        runnables: "ext/runnables".to_string(),
        decorations: "ext/decorationsRequest".to_string(),
        inlay_hints: "ext/inlayHints".to_string(),
        publish_decorations: "ext/publishDecorations".to_string(),
    }
}

fn dispatch(pending: &mut PendingRequests, id: u64, method: &str) -> Dispatched {
    let req = request_new(RequestId::Number(id), method, "{\"p\":0}".to_string());
    on_request(pending, &extension_methods(), Instant::now(), req)
}

#[test]
fn requests_go_to_their_kind() {
    let ext = extension_methods();
    for kind in RequestKind::all() {
        let mut pending = PendingRequests::new();
        let d = dispatch(&mut pending, 5, &kind.method(&ext));
        let job = Job { kind, id: RequestId::Number(5), params: "{\"p\":0}".to_string() };
        match d {
            Dispatched::Sync(j) => {
                assert!(kind.runs_on_loop());
                assert_eq!(j, job);
            }
            Dispatched::Pool(j) => {
                assert!(!kind.runs_on_loop());
                assert_eq!(j, job);
            }
            Dispatched::Unknown(r) => panic!("{:?}", r),
        }
        let record = pending.finish(&RequestId::Number(5)).unwrap();
        assert_eq!(record.id, RequestId::Number(5));
        assert_eq!(record.method, kind.method(&ext));
        assert!(pending.finish(&RequestId::Number(5)).is_none());
    }
}

#[test]
fn unknown_requests_get_an_error() {
    let mut pending = PendingRequests::new();
    match dispatch(&mut pending, 6, "textDocument/unheardOf") {
        Dispatched::Unknown(r) => {
            assert_eq!(r.id, RequestId::Number(6));
            assert_eq!(
                r.error,
                Some(ResponseError { code: -32601, message: "unknown request".to_string() })
            );
            assert_eq!(r.result, None);
        }
        other => panic!("{:?}", other),
    }
    assert!(!pending.cancel(&RequestId::Number(6)));
}

#[test]
fn the_first_kind_with_a_method_wins() {
    let mut ext = extension_methods();
    ext.join_lines = "textDocument/hover".to_string();
    let req = request_new(RequestId::Number(1), "textDocument/hover", String::new());
    match on_request(&mut PendingRequests::new(), &ext, Instant::now(), req) {
        Dispatched::Sync(job) => assert_eq!(job.kind, RequestKind::JoinLines),
        other => panic!("{:?}", other),
    }
}

#[test]
fn records_keep_the_time_of_their_request() {
    let mut pending = PendingRequests::new();
    let received = Instant::now();
    pending.start(PendingRequest {
        id: RequestId::Text("x".to_string()),
        method: "m".to_string(),
        received,
    });
    pending.start(PendingRequest {
        id: RequestId::Number(1),
        method: "n".to_string(),
        received,
    });
    pending.start(PendingRequest {
        id: RequestId::Text("x".to_string()),
        method: "o".to_string(),
        received,
    });
    let record = pending.finish(&RequestId::Text("x".to_string())).unwrap();
    assert_eq!(record.method, "o");
    assert_eq!(record.received, received);
    assert!(!pending.cancel(&RequestId::Text("x".to_string())));
    assert!(pending.cancel(&RequestId::Number(1)));
    assert!(!pending.cancel(&RequestId::Number(1)));
}

#[test]
fn a_response_goes_out_once() {
    let mut pending = PendingRequests::new();
    dispatch(&mut pending, 7, "textDocument/hover");
    let task = || Task::Respond(Response::new_ok(RequestId::Number(7), "1".to_string()));
    let actions = on_task(task(), &mut pending);
    assert_eq!(actions.len(), 2);
    match (&actions[0], &actions[1]) {
        (Action::CompleteRequest(record), Action::Send(Message::Response(r))) => {
            assert_eq!(record.id, RequestId::Number(7));
            assert_eq!(record.method, "textDocument/hover");
            assert_eq!(r.result, Some("1".to_string()));
        }
        other => panic!("{:?}", other),
    }
    assert!(on_task(task(), &mut pending).is_empty());
}

#[test]
fn notifications_always_go_out() {
    let mut pending = PendingRequests::new();
    let actions = on_task(Task::Notify(notification_new("a", "1".to_string())), &mut pending);
    assert_eq!(actions.len(), 1);
    match &actions[0] {
        Action::Send(Message::Notification(n)) => {
            assert_eq!(n.method, "a");
            assert_eq!(n.params, "1");
        }
        other => panic!("{:?}", other),
    }
}

#[test]
fn outcomes_of_handlers_become_responses() {
    let id = || RequestId::Number(8);
    assert_eq!(
        result_to_task(id(), HandlerResult::Done("[]".to_string())),
        Task::Respond(Response::new_ok(id(), "[]".to_string()))
    );
    assert_eq!(
        result_to_task(id(), HandlerResult::Lsp(LspError::new(-7, "lsp".to_string()))),
        Task::Respond(Response::new_err(id(), -7, "lsp".to_string()))
    );
    assert_eq!(
        result_to_task(id(), HandlerResult::Canceled),
        Task::Respond(Response::new_ok(id(), "null".to_string()))
    );
    assert_eq!(
        result_to_task(id(), HandlerResult::Failed("bad".to_string())),
        Task::Respond(Response::new_err(id(), -32603, "bad".to_string()))
    );
}

#[test]
fn a_request_is_claimed_once() {
    let ext = extension_methods();
    let mut pending = PendingRequests::new();
    let req = request_new(RequestId::Number(2), "textDocument/hover", "1".to_string());
    let mut dispatcher = PoolDispatcher::new(req, Instant::now());
    assert_eq!(dispatcher.parse(&mut pending, RequestKind::Rename, &ext), None);
    assert!(!pending.cancel(&RequestId::Number(2)));
    assert_eq!(
        dispatcher.parse(&mut pending, RequestKind::Hover, &ext),
        Some(Job { kind: RequestKind::Hover, id: RequestId::Number(2), params: "1".to_string() })
    );
    assert!(pending.cancel(&RequestId::Number(2)));
    assert_eq!(dispatcher.parse(&mut pending, RequestKind::Hover, &ext), None);
    assert_eq!(dispatcher.parse(&mut pending, RequestKind::Rename, &ext), None);
    assert!(!pending.cancel(&RequestId::Number(2)));
    assert_eq!(dispatcher.finish(), None);
}

#[test]
fn a_request_is_refused_once() {
    let ext = extension_methods();
    let mut pending = PendingRequests::new();
    let req = request_new(RequestId::Number(3), "no/such", "1".to_string());
    let mut dispatcher = PoolDispatcher::new(req, Instant::now());
    dispatcher.on_sync(&mut pending, RequestKind::JoinLines, &ext);
    dispatcher.on(&mut pending, RequestKind::Hover, &ext);
    assert_eq!(
        dispatcher.finish(),
        Some(Response::new_err(RequestId::Number(3), -32601, "unknown request".to_string()))
    );
    assert_eq!(dispatcher.finish(), None);
    assert!(!pending.cancel(&RequestId::Number(3)));
}
