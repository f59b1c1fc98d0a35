use lsp_types::notification as n;
use lsp_types::notification::Notification as _;
use ra_lsp_server::action::{Action, Anomaly, LoopError, Step, Turn};
use ra_lsp_server::message::{Message, Notification, RequestId};
use ra_lsp_server::notification::{
    change_document, change_watched_files, document_closed, document_opened, notification_cast,
    on_notification, NotificationParams,
};
use ra_lsp_server::params::no_diagnostics_params;
use ra_lsp_server::pending_requests::{PendingRequest, PendingRequests};
use ra_lsp_server::subscriptions::{FileId, Subscriptions};

fn notification(method: &str, params: &str) -> Notification {
    Notification { method: method.to_string(), params: params.to_string() }
}

fn cast(method: &str, params: &str) -> Option<NotificationParams> {
    notification_cast(&notification(method, params))
}

fn act(params: NotificationParams) -> Step {
    on_notification(&mut PendingRequests::new(), params)
}

fn goes_on(step: &Step) -> bool {
    matches!(step.turn, Turn::ProcessChanges { state_changed: true })
}

fn ends_with(step: &Step, error: LoopError) -> bool {
    match &step.turn {
        Turn::Failed(e) => *e == error,
        _ => false,
    }
}

#[test]
fn methods_of_notifications_are_those_of_the_protocol() {
    assert!(cast(n::Cancel::METHOD, "{\"id\":1}").is_some());
    assert_eq!(cast(n::Cancel::METHOD, "{}"), None);
    assert_eq!(cast(n::DidOpenTextDocument::METHOD, "{}"), None);
    assert_eq!(cast(n::DidChangeTextDocument::METHOD, "{}"), None);
    assert_eq!(cast(n::DidCloseTextDocument::METHOD, "{}"), None);
    assert_eq!(cast(n::DidChangeConfiguration::METHOD, "{}"), None);
    assert_eq!(cast(n::DidChangeWatchedFiles::METHOD, "{}"), None);
}

#[test]
fn cancelations_name_the_request() {
    assert_eq!(
        cast("$/cancelRequest", "{\"id\":17}"),
        Some(NotificationParams::Cancel(RequestId::Number(17)))
    );
    assert_eq!(
        cast("$/cancelRequest", "{\"id\":\"a-1\"}"),
        Some(NotificationParams::Cancel(RequestId::Text("a-1".to_string())))
    );
    assert_eq!(cast("$/cancelRequest", "{\"id\":null}"), None);
    assert_eq!(cast("$/cancelRequest", "not json"), None);
}

#[test]
fn opened_documents_have_a_uri_and_a_text() {
    let params = "{\"textDocument\":{\"uri\":\"file:///a.rs\",\"languageId\":\"rust\",\
                  \"version\":1,\"text\":\"fn main() {}\\n\"}}";
    assert_eq!(
        cast("textDocument/didOpen", params),
        Some(NotificationParams::DidOpenTextDocument {
            uri: "file:///a.rs".to_string(),
            text: "fn main() {}\n".to_string(),
        })
    );
}

#[test]
fn changed_documents_have_a_uri_and_changes() {
    let params = "{\"textDocument\":{\"uri\":\"file:///a.rs\",\"version\":2},\
                  \"contentChanges\":[{\"text\":\"one\"},{\"text\":\"two\"}]}";
    assert_eq!(
        cast("textDocument/didChange", params),
        Some(NotificationParams::DidChangeTextDocument {
            uri: "file:///a.rs".to_string(),
            changes: vec!["one".to_string(), "two".to_string()],
        })
    );
}

#[test]
fn closed_documents_have_a_uri() {
    assert_eq!(
        cast("textDocument/didClose", "{\"textDocument\":{\"uri\":\"file:///a.rs\"}}"),
        Some(NotificationParams::DidCloseTextDocument { uri: "file:///a.rs".to_string() })
    );
}

#[test]
fn other_notifications_are_told_apart() {
    assert_eq!(
        cast("workspace/didChangeConfiguration", "{\"settings\":{}}"),
        Some(NotificationParams::DidChangeConfiguration)
    );
    assert_eq!(
        cast(
            "workspace/didChangeWatchedFiles",
            "{\"changes\":[{\"uri\":\"file:///a.rs\",\"type\":1},\
              {\"uri\":\"file:///b.rs\",\"type\":3}]}"
        ),
        Some(NotificationParams::DidChangeWatchedFiles(vec![
            "file:///a.rs".to_string(),
            "file:///b.rs".to_string(),
        ]))
    );
    assert_eq!(
        cast("textDocument/didSave", "anything"),
        Some(NotificationParams::Unhandled)
    );
}

#[test]
fn a_pending_request_can_be_canceled_once() {
    let mut pending = PendingRequests::new();
    pending.start(PendingRequest {
        id: RequestId::Number(4),
        method: "m".to_string(),
        received: std::time::Instant::now(),
    });
    let step = on_notification(&mut pending, NotificationParams::Cancel(RequestId::Number(4)));
    assert!(goes_on(&step));
    assert_eq!(step.actions.len(), 1);
    match &step.actions[0] {
        Action::Send(Message::Response(r)) => {
            assert_eq!(r.id, RequestId::Number(4));
            assert_eq!(r.result, None);
            let e = r.error.as_ref().unwrap();
            assert_eq!(e.code, -32800);
            assert_eq!(e.message, "canceled by client");
        }
        other => panic!("{:?}", other),
    }
    let step = on_notification(&mut pending, NotificationParams::Cancel(RequestId::Number(4)));
    assert!(goes_on(&step));
    assert!(step.actions.is_empty());
}

#[test]
fn an_opened_document_lies_over_its_file() {
    let step = act(NotificationParams::DidOpenTextDocument {
        uri: "file:///src/a%20b.rs".to_string(),
        text: "text".to_string(),
    });
    assert!(step.actions.is_empty());
    match step.turn {
        Turn::AddFileOverlay { path, text } => {
            assert_eq!(path, b"/src/a b.rs".to_vec());
            assert_eq!(text, "text");
        }
        other => panic!("{:?}", other),
    }
}

#[test]
fn the_last_change_is_the_text() {
    let step = act(NotificationParams::DidChangeTextDocument {
        uri: "file:///a.rs".to_string(),
        changes: vec!["one".to_string(), "two".to_string()],
    });
    assert!(goes_on(&step));
    assert_eq!(step.actions.len(), 1);
    match &step.actions[0] {
        Action::ChangeFileOverlay { path, text } => {
            assert_eq!(path, b"/a.rs");
            assert_eq!(text, "two");
        }
        other => panic!("{:?}", other),
    }
}

#[test]
fn a_change_without_changes_is_an_error() {
    let step = act(NotificationParams::DidChangeTextDocument {
        uri: "file:///a.rs".to_string(),
        changes: vec![],
    });
    assert!(step.actions.is_empty());
    assert!(ends_with(&step, LoopError::EmptyChanges));
    // A URI that names no file is the graver error.
    let step = change_document("u".to_string(), None, vec![]);
    assert!(ends_with(&step, LoopError::InvalidUri("u".to_string())));
}

#[test]
fn uris_that_name_no_file_are_errors() {
    let uri = "untitled:Untitled-1".to_string();
    let error = || LoopError::InvalidUri("untitled:Untitled-1".to_string());
    let step = act(NotificationParams::DidOpenTextDocument {
        uri: uri.clone(),
        text: "text".to_string(),
    });
    assert!(ends_with(&step, error()));
    let step = act(NotificationParams::DidChangeTextDocument {
        uri: uri.clone(),
        changes: vec!["one".to_string()],
    });
    assert!(ends_with(&step, error()));
    let step = act(NotificationParams::DidCloseTextDocument { uri: uri.clone() });
    assert!(ends_with(&step, error()));
    assert!(step.actions.is_empty());
}

#[test]
fn a_closed_document_comes_off_its_file() {
    let step = act(NotificationParams::DidCloseTextDocument { uri: "file:///a.rs".to_string() });
    match step.turn {
        Turn::RemoveFileOverlay { path, uri } => {
            assert_eq!(path, b"/a.rs".to_vec());
            assert_eq!(uri, "file:///a.rs");
        }
        other => panic!("{:?}", other),
    }
}

#[test]
fn watched_files_are_passed_on_up_to_the_first_bad_one() {
    let step = act(NotificationParams::DidChangeWatchedFiles(vec![
        "file:///a.rs".to_string(),
        "file:///b.rs".to_string(),
    ]));
    assert!(goes_on(&step));
    assert_eq!(step.actions.len(), 2);
    match (&step.actions[0], &step.actions[1]) {
        (Action::NotifyChanged(a), Action::NotifyChanged(b)) => {
            assert_eq!(a, b"/a.rs");
            assert_eq!(b, b"/b.rs");
        }
        other => panic!("{:?}", other),
    }
    let step = act(NotificationParams::DidChangeWatchedFiles(vec![
        "file:///a.rs".to_string(),
        "untitled:x".to_string(),
        "file:///b.rs".to_string(),
    ]));
    assert!(ends_with(&step, LoopError::InvalidUri("untitled:x".to_string())));
    assert_eq!(step.actions.len(), 1);
    let step = change_watched_files(vec![]);
    assert!(goes_on(&step));
    assert!(step.actions.is_empty());
}

#[test]
fn configuration_changes_and_unknown_notifications_do_nothing() {
    let step = act(NotificationParams::DidChangeConfiguration);
    assert!(goes_on(&step));
    assert!(step.actions.is_empty());
    let step = act(NotificationParams::Unhandled);
    assert!(goes_on(&step));
    assert_eq!(step.actions.len(), 1);
    assert!(matches!(step.actions[0], Action::Report(Anomaly::UnhandledNotification)));
}

#[test]
fn known_files_are_subscribed_while_open() {
    let mut subs = Subscriptions::new();
    subs.add_sub(FileId(1));
    let step = document_opened(&mut subs, Some(FileId(2)));
    assert!(goes_on(&step));
    assert!(step.actions.is_empty());
    assert_eq!(subs.subscriptions(), vec![FileId(1), FileId(2)]);
    document_opened(&mut subs, Some(FileId(1)));
    document_opened(&mut subs, None);
    assert_eq!(subs.subscriptions(), vec![FileId(1), FileId(2)]);
    document_closed(&mut subs, "file:///b.rs".to_string(), Some(FileId(2)));
    assert_eq!(subs.subscriptions(), vec![FileId(1)]);
    document_closed(&mut subs, "file:///b.rs".to_string(), Some(FileId(2)));
    document_closed(&mut subs, "file:///c.rs".to_string(), None);
    assert_eq!(subs.subscriptions(), vec![FileId(1)]);
}

#[test]
fn closing_clears_the_diagnostics() {
    let uri = "file:///a%22b\u{e9}.rs";
    let step = document_closed(&mut Subscriptions::new(), uri.to_string(), None);
    assert!(goes_on(&step));
    assert_eq!(step.actions.len(), 1);
    match &step.actions[0] {
        Action::Send(Message::Notification(n)) => {
            assert_eq!(n.method, lsp_types::notification::PublishDiagnostics::METHOD);
            assert_eq!(n.params, format!("{{\"uri\":\"{}\",\"diagnostics\":[]}}", uri));
        }
        other => panic!("{:?}", other),
    }
}

#[test]
fn diagnostics_are_cleared_as_the_protocol_has_it() {
    let text = "file:///a%20b.rs";
    let url = lsp_types::Url::parse(text).unwrap();
    let params = lsp_types::PublishDiagnosticsParams { uri: url, diagnostics: vec![] };
    assert_eq!(
        no_diagnostics_params(text),
        serde_json::to_string(&params).unwrap()
    );
}

#[test]
fn texts_are_quoted_as_json() {
    assert_eq!(
        no_diagnostics_params("\"\\\u{8}\t\n\u{c}\r\u{1}\u{1f}\u{7f}/\u{e9}"),
        "{\"uri\":\"\\\"\\\\\\b\\t\\n\\f\\r\\u0001\\u001f\u{7f}/\u{e9}\",\"diagnostics\":[]}"
    );
}
