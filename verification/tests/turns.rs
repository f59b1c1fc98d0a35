use std::sync::Arc;
use std::time::Instant;

use lsp_types::request::Request as _;
use ra_lsp_server::action::{
    Action, Anomaly, Library, LoopError, SourceRootId, Step, Task, Turn,
};
use ra_lsp_server::dispatch::HandlerResult;
use ra_lsp_server::main_loop::{
    log_error, log_method, log_outcome, log_text_id, on_selected, on_shutdown_checked, Event,
    EventSummary, LoopState, Next, Reply, Selected, World, MAX_IN_FLIGHT_LIBS, THREADPOOL_SIZE,
};
use ra_lsp_server::message::{
    notification_new, request_new, Message, Notification, Request, RequestId, Response,
    ResponseError,
};
use ra_lsp_server::method::{ExtensionMethods, RequestKind};
use ra_lsp_server::startup::WorkspaceRoot;
use ra_lsp_server::subscriptions::FileId;
use relative_path::RelativePathBuf;

fn extension_methods() -> ExtensionMethods {
    ExtensionMethods {
        collect_garbage: "ext/collectGarbage".to_string(),
        join_lines: "ext/joinLines".to_string(),
        on_enter: "ext/onEnter".to_string(),
        find_matching_brace: "ext/findMatchingBrace".to_string(),
        analyzer_status: "ext/analyzerStatus".to_string(),
        syntax_tree: "ext/syntaxTree".to_string(),
        parent_module: "ext/parentModule".to_string(),
        runnables: "ext/runnables".to_string(),
        decorations: "ext/decorationsRequest".to_string(),
        inlay_hints: "ext/inlayHints".to_string(),
        publish_decorations: "ext/publishDecorations".to_string(),
    }
}

fn begin(state: &mut LoopState, event: Event) -> Step {
    state.loop_turn(&extension_methods(), Instant::now(), event).unwrap()
}

fn request(id: u64, method: &str) -> Request {
    request_new(RequestId::Number(id), method, "null".to_string())
}

fn notification(method: &str, params: &str) -> Event {
    Event::Msg(Message::Notification(notification_new(method, params.to_string())))
}

fn world(roots_to_scan: usize, notify_loaded: bool) -> World {
    World {
        roots_to_scan,
        packages: vec![3, 0, 4],
        notify_loaded,
        publish_diagnostics: true,
        publish_decorations: false,
    }
}

fn library(n: u32) -> Library {
    Library {
        root: SourceRootId(n),
        files: vec![(
            FileId(n),
            RelativePathBuf::from("src/lib.rs"),
            Arc::new("fn f() {}".to_string()),
        )],
    }
}

fn started(step: &Step) -> Vec<u32> {
    step.actions
        .iter()
        .map(|action| match action {
            Action::IndexLibrary(library) => library.root.0,
            other => panic!("{:?}", other),
        })
        .collect()
}

/// Ends a turn that waits for the world to take in its changes.
fn end(state: &mut LoopState, turn: Turn, libraries: Vec<Library>, world: World) -> Vec<Action> {
    let step = state.resume(turn, Reply::Libraries(libraries));
    let mut actions = step.actions;
    let step = state.resume(step.turn, Reply::World(world));
    assert!(matches!(step.turn, Turn::Done));
    actions.extend(step.actions);
    actions
}

fn unchanged(turn: &Turn) -> bool {
    matches!(turn, Turn::ProcessChanges { state_changed: false })
}

fn changed(turn: &Turn) -> bool {
    matches!(turn, Turn::ProcessChanges { state_changed: true })
}

#[test]
fn indexing_leaves_threads_free() {
    assert_eq!(THREADPOOL_SIZE, 8);
    assert_eq!(MAX_IN_FLIGHT_LIBS, 5);
}

#[test]
fn ids_are_drawn_in_order() {
    let mut state = LoopState::new();
    assert_eq!(state.next_request_id(), RequestId::Number(1));
    assert_eq!(state.next_request_id(), RequestId::Number(2));
}

#[test]
fn awaited_responses_are_taken_once() {
    let mut state = LoopState::new();
    let id = state.next_request_id();
    let response = |id: &RequestId| {
        Event::Msg(Message::Response(Response::new_ok(id.clone(), "1".to_string())))
    };
    let step = begin(&mut state, response(&id));
    assert!(step.actions.is_empty());
    assert!(unchanged(&step.turn));
    let step = begin(&mut state, response(&id));
    assert_eq!(step.actions.len(), 1);
    assert!(matches!(step.actions[0], Action::Report(Anomaly::UnexpectedResponse)));
    assert!(unchanged(&step.turn));
    state.next_request_id();
    let step = begin(&mut state, response(&RequestId::Text("2".to_string())));
    assert!(matches!(step.actions[0], Action::Report(Anomaly::UnexpectedResponse)));
    let step = begin(&mut state, response(&RequestId::Number(2)));
    assert!(step.actions.is_empty());
}

#[test]
fn sync_requests_are_answered_in_their_turn() {
    let mut state = LoopState::new();
    let step = begin(&mut state, Event::Msg(Message::Request(request(1, "ext/joinLines"))));
    assert!(step.actions.is_empty());
    match &step.turn {
        Turn::RunSync(job) => assert_eq!(job.kind, RequestKind::JoinLines),
        other => panic!("{:?}", other),
    }
    let step = state.resume(step.turn, Reply::Handled(HandlerResult::Done("7".to_string())));
    assert!(unchanged(&step.turn));
    assert_eq!(step.actions.len(), 2);
    match (&step.actions[0], &step.actions[1]) {
        (Action::CompleteRequest(record), Action::Send(Message::Response(r))) => {
            assert_eq!(record.id, RequestId::Number(1));
            assert_eq!(record.method, "ext/joinLines");
            assert_eq!(*r, Response::new_ok(RequestId::Number(1), "7".to_string()));
        }
        other => panic!("{:?}", other),
    }
    let late = Task::Respond(Response::new_ok(RequestId::Number(1), "8".to_string()));
    assert!(state.drain(late).is_empty());
}

#[test]
fn pool_requests_are_answered_when_their_task_comes() {
    let mut state = LoopState::new();
    let received = Instant::now();
    let event = Event::Msg(Message::Request(request(1, "textDocument/hover")));
    let step = state.loop_turn(&extension_methods(), received, event).unwrap();
    assert!(unchanged(&step.turn));
    assert_eq!(step.actions.len(), 1);
    assert!(matches!(&step.actions[0], Action::RunOnPool(job) if job.kind == RequestKind::Hover));
    let task = || Task::Respond(Response::new_ok(RequestId::Number(1), "7".to_string()));
    let step = begin(&mut state, Event::Task(task()));
    assert!(unchanged(&step.turn));
    assert_eq!(step.actions.len(), 3);
    match (&step.actions[0], &step.actions[1], &step.actions[2]) {
        (
            Action::CompleteRequest(record),
            Action::Send(Message::Response(_)),
            Action::MaybeCollectGarbage,
        ) => assert_eq!(record.received, received),
        other => panic!("{:?}", other),
    }
    let step = begin(&mut state, Event::Task(task()));
    assert_eq!(step.actions.len(), 1);
    assert!(matches!(step.actions[0], Action::MaybeCollectGarbage));
}

#[test]
fn canceled_requests_are_answered_once() {
    let mut state = LoopState::new();
    begin(&mut state, Event::Msg(Message::Request(request(1, "textDocument/hover"))));
    begin(&mut state, Event::Msg(Message::Request(request(2, "textDocument/hover"))));
    let step = begin(&mut state, notification("$/cancelRequest", "{\"id\":1}"));
    assert!(changed(&step.turn));
    assert_eq!(step.actions.len(), 1);
    match &step.actions[0] {
        Action::Send(Message::Response(r)) => assert_eq!(
            *r,
            Response::new_err(RequestId::Number(1), -32800, "canceled by client".to_string())
        ),
        other => panic!("{:?}", other),
    }
    let task = |id| Task::Respond(Response::new_ok(RequestId::Number(id), "7".to_string()));
    assert!(state.drain(task(1)).is_empty());
    assert_eq!(state.drain(task(2)).len(), 2);
    let step = begin(&mut state, notification("$/cancelRequest", "{\"id\":2}"));
    assert!(step.actions.is_empty());
}

#[test]
fn unknown_requests_are_refused() {
    let mut state = LoopState::new();
    let step = begin(&mut state, Event::Msg(Message::Request(request(1, "no/such"))));
    assert!(unchanged(&step.turn));
    assert_eq!(step.actions.len(), 2);
    assert!(matches!(step.actions[0], Action::Report(Anomaly::UnknownRequest)));
    match &step.actions[1] {
        Action::Send(Message::Response(r)) => assert_eq!(
            *r,
            Response::new_err(RequestId::Number(1), -32601, "unknown request".to_string())
        ),
        other => panic!("{:?}", other),
    }
}

#[test]
fn ill_fitting_notifications_get_no_turn() {
    let mut state = LoopState::new();
    let event = notification("$/cancelRequest", "[]");
    assert!(state.loop_turn(&extension_methods(), Instant::now(), event).is_none());
}

#[test]
fn bad_uris_end_the_loop() {
    let mut state = LoopState::new();
    let step = begin(
        &mut state,
        notification("textDocument/didClose", "{\"textDocument\":{\"uri\":\"untitled:1\"}}"),
    );
    assert!(step.actions.is_empty());
    match step.turn {
        Turn::Failed(e) => assert_eq!(e, LoopError::InvalidUri("untitled:1".to_string())),
        other => panic!("{:?}", other),
    }
}

#[test]
fn open_documents_are_subscribed_until_they_are_closed() {
    let mut state = LoopState::new();
    let open = "{\"textDocument\":{\"uri\":\"file:///a.rs\",\"languageId\":\"rust\",\
                \"version\":1,\"text\":\"\"}}";
    let step = begin(&mut state, notification("textDocument/didOpen", open));
    assert!(matches!(step.turn, Turn::AddFileOverlay { .. }));
    let step = state.resume(step.turn, Reply::File(Some(FileId(9))));
    assert!(changed(&step.turn));
    let actions = end(&mut state, step.turn, vec![], world(1, true));
    assert_eq!(actions.len(), 1);
    match &actions[0] {
        Action::UpdateFileNotifications {
            subscriptions,
            publish_diagnostics,
            publish_decorations,
        } => {
            assert_eq!(*subscriptions, vec![FileId(9)]);
            assert!(*publish_diagnostics);
            assert!(!*publish_decorations);
        }
        other => panic!("{:?}", other),
    }
    let close = "{\"textDocument\":{\"uri\":\"file:///a.rs\"}}";
    let step = begin(&mut state, notification("textDocument/didClose", close));
    let step = state.resume(step.turn, Reply::File(Some(FileId(9))));
    assert_eq!(step.actions.len(), 1);
    assert!(matches!(
        &step.actions[0],
        Action::Send(Message::Notification(Notification { method, .. }))
            if method == "textDocument/publishDiagnostics"
    ));
    let actions = end(&mut state, step.turn, vec![], world(1, true));
    match &actions[0] {
        Action::UpdateFileNotifications { subscriptions, .. } => assert!(subscriptions.is_empty()),
        other => panic!("{:?}", other),
    }
}

#[test]
fn file_system_events_refresh_the_files() {
    let mut state = LoopState::new();
    let step = begin(&mut state, Event::Vfs);
    assert_eq!(step.actions.len(), 1);
    assert!(matches!(step.actions[0], Action::HandleVfsTask));
    assert!(changed(&step.turn));
    let actions = end(&mut state, step.turn, vec![], world(1, true));
    assert_eq!(actions.len(), 1);
    assert!(matches!(actions[0], Action::UpdateFileNotifications { .. }));
}

#[test]
fn libraries_are_indexed_a_few_at_a_time_the_last_first() {
    let mut state = LoopState::new();
    let libraries: Vec<Library> = (0..7).map(library).collect();
    let step = state.resume(
        Turn::ProcessChanges { state_changed: false },
        Reply::Libraries(libraries),
    );
    assert!(matches!(step.turn, Turn::Inspect { state_changed: false }));
    assert_eq!(started(&step), vec![6, 5, 4, 3, 2]);
    assert_eq!(state.in_flight_libraries(), 5);
    let step = begin(&mut state, Event::Lib);
    assert_eq!(step.actions.len(), 2);
    assert!(matches!(step.actions[0], Action::AddLibrary));
    assert!(matches!(step.actions[1], Action::MaybeCollectGarbage));
    assert!(unchanged(&step.turn));
    assert_eq!(state.in_flight_libraries(), 4);
    let step = state.resume(step.turn, Reply::Libraries(vec![library(7)]));
    assert_eq!(started(&step), vec![7]);
    assert_eq!(state.in_flight_libraries(), 5);
    let step = state.resume(
        Turn::ProcessChanges { state_changed: true },
        Reply::Libraries(vec![]),
    );
    assert!(step.actions.is_empty());
    assert!(matches!(step.turn, Turn::Inspect { state_changed: true }));
}

#[test]
fn the_loaded_workspace_is_announced_once() {
    let mut state = LoopState::new();
    let idle = || Turn::ProcessChanges { state_changed: false };
    // A library is being indexed.
    let actions = end(&mut state, idle(), vec![library(0)], world(0, true));
    assert_eq!(actions.len(), 1);
    let step = begin(&mut state, Event::Lib);
    // A root is still to be scanned.
    assert!(end(&mut state, step.turn, vec![], world(1, true)).is_empty());
    let actions = end(&mut state, idle(), vec![], world(0, true));
    assert_eq!(actions.len(), 1);
    match &actions[0] {
        Action::Send(Message::Notification(n)) => {
            assert_eq!(n.method, "window/showMessage");
            assert_eq!(
                n.params,
                "{\"type\":3,\"message\":\"workspace loaded, 7 rust packages\"}"
            );
        }
        other => panic!("{:?}", other),
    }
    assert!(end(&mut state, idle(), vec![], world(0, true)).is_empty());
}

#[test]
fn the_announcement_can_be_turned_off() {
    let mut state = LoopState::new();
    let idle = || Turn::ProcessChanges { state_changed: false };
    assert!(end(&mut state, idle(), vec![], world(0, false)).is_empty());
    assert!(end(&mut state, idle(), vec![], world(0, true)).is_empty());
}

#[test]
fn requests_are_checked_for_a_shutdown() {
    let next = on_selected(Selected::Message(Message::Request(request(1, "shutdown"))));
    let req = match next {
        Next::CheckShutdown(req) => req,
        other => panic!("{:?}", other),
    };
    assert!(matches!(on_shutdown_checked(req, true), Next::Drain));
    match on_shutdown_checked(request(1, "a"), false) {
        Next::TakeTurn(Event::Msg(Message::Request(req))) => assert_eq!(req, request(1, "a")),
        other => panic!("{:?}", other),
    }
}

#[test]
fn other_events_get_their_turn() {
    let not = || notification_new("a", "1".to_string());
    match on_selected(Selected::Message(Message::Notification(not()))) {
        Next::TakeTurn(Event::Msg(Message::Notification(n))) => assert_eq!(n, not()),
        other => panic!("{:?}", other),
    }
    match on_selected(Selected::Task(Task::Notify(not()))) {
        Next::TakeTurn(Event::Task(Task::Notify(n))) => assert_eq!(n, not()),
        other => panic!("{:?}", other),
    }
    assert!(matches!(on_selected(Selected::Vfs), Next::TakeTurn(Event::Vfs)));
    assert!(matches!(on_selected(Selected::Lib), Next::TakeTurn(Event::Lib)));
}

#[test]
fn ended_channels_end_the_loop() {
    assert!(matches!(on_selected(Selected::ClientGone), Next::Fail(LoopError::ClientExited)));
    assert!(matches!(on_selected(Selected::VfsGone), Next::Fail(LoopError::VfsDied)));
}

#[test]
fn the_client_is_asked_to_watch_the_members() {
    let mut state = LoopState::new();
    let roots = vec![
        WorkspaceRoot { path: "/a".to_string(), is_member: true },
        WorkspaceRoot { path: "/dep".to_string(), is_member: false },
        WorkspaceRoot { path: "/b".to_string(), is_member: true },
    ];
    assert_eq!(state.register_watchers(false, &roots), None);
    let request = match state.register_watchers(true, &roots) {
        Some(Message::Request(request)) => request,
        other => panic!("{:?}", other),
    };
    assert_eq!(request.id, RequestId::Number(1));
    assert_eq!(request.method, lsp_types::request::RegisterCapability::METHOD);
    assert_eq!(
        request.params,
        "{\"registrations\":[{\"id\":\"file-watcher\",\
         \"method\":\"workspace/didChangeWatchedFiles\",\"registerOptions\":{\"watchers\":[\
         {\"globPattern\":\"/a/**/*.rs\"},{\"globPattern\":\"/b/**/*.rs\"}]}}]}"
    );
    let params: lsp_types::RegistrationParams = serde_json::from_str(&request.params).unwrap();
    assert_eq!(params.registrations.len(), 1);
    let answer = Response::new_ok(RequestId::Number(1), "null".to_string());
    let step = begin(&mut state, Event::Msg(Message::Response(answer)));
    assert!(step.actions.is_empty());
}

#[test]
fn no_member_means_no_watcher() {
    let mut state = LoopState::new();
    match state.register_watchers(true, &vec![]) {
        Some(Message::Request(request)) => assert_eq!(
            request.params,
            "{\"registrations\":[{\"id\":\"file-watcher\",\
             \"method\":\"workspace/didChangeWatchedFiles\",\
             \"registerOptions\":{\"watchers\":[]}}]}"
        ),
        other => panic!("{:?}", other),
    }
}

#[test]
fn long_events_are_logged_in_short() {
    let ext = extension_methods();
    let method = |event: Event| event.summary(&ext);
    let not = |method: &str| notification_new(method, "1".to_string());
    for name in ["textDocument/didOpen", "textDocument/didChange"] {
        assert_eq!(method(notification(name, "1")), EventSummary::Method(name.to_string()));
        assert_eq!(method(Event::Task(Task::Notify(not(name)))), EventSummary::Full);
    }
    for name in ["ext/publishDecorations", "textDocument/publishDiagnostics"] {
        assert_eq!(
            method(Event::Task(Task::Notify(not(name)))),
            EventSummary::Method(name.to_string())
        );
        assert_eq!(method(notification(name, "1")), EventSummary::Full);
    }
    let response = Response::new_err(RequestId::Number(1), 2, "e".to_string());
    match method(Event::Task(Task::Respond(response))) {
        EventSummary::Outcome(id, Some(error)) => {
            assert_eq!(id, RequestId::Number(1));
            assert_eq!(error.code, 2);
            assert_eq!(error.message, "e");
        }
        other => panic!("{:?}", other),
    }
    let response = Response::new_ok(RequestId::Number(1), "long".to_string());
    assert_eq!(
        method(Event::Task(Task::Respond(response))),
        EventSummary::Outcome(RequestId::Number(1), None)
    );
    assert_eq!(
        method(Event::Msg(Message::Request(request(1, "a")))),
        EventSummary::Full
    );
    assert_eq!(method(Event::Vfs), EventSummary::Full);
    assert_eq!(method(Event::Lib), EventSummary::Full);
}

#[test]
fn short_logs_read_like_the_protocol_types() {
    assert_eq!(
        EventSummary::Method("a\"b".to_string()).to_text().unwrap(),
        "Notification { method: \"a\\\"b\" }"
    );
    let number: lsp_server::RequestId = 7.into();
    assert_eq!(
        EventSummary::Outcome(RequestId::Number(7), None).to_text().unwrap(),
        format!("Response {{ id: {:?}, error: None }}", number)
    );
    let text: lsp_server::RequestId = "x\n".to_string().into();
    let error = lsp_server::ResponseError { code: -3, message: "no \"y\"".to_string(), data: None };
    assert_eq!(
        EventSummary::Outcome(
            RequestId::Text("x\n".to_string()),
            Some(ResponseError { code: -3, message: "no \"y\"".to_string() }),
        )
        .to_text()
        .unwrap(),
        format!("Response {{ id: {:?}, error: {:?} }}", text, Some(error))
    );
    assert_eq!(EventSummary::Full.to_text(), None);
}

#[test]
fn logs_are_put_together_from_what_is_shown() {
    assert_eq!(log_method("m"), "Notification { method: m }");
    assert_eq!(log_text_id("t"), "RequestId(String(t))");
    assert_eq!(log_error(-1, "e"), "Some(ResponseError { code: -1, message: e, data: None })");
    assert_eq!(log_outcome("i", "e"), "Response { id: i, error: e }");
}

#[test]
fn an_answered_id_can_be_used_again() {
    let mut state = LoopState::new();
    let task = || Task::Respond(Response::new_ok(RequestId::Number(1), "7".to_string()));
    for _ in 0..2 {
        assert!(state.drain(task()).is_empty());
        begin(&mut state, Event::Msg(Message::Request(request(1, "textDocument/hover"))));
        assert_eq!(state.drain(task()).len(), 2);
        begin(&mut state, Event::Vfs);
        begin(&mut state, notification("$/cancelRequest", "{\"id\":1}"));
    }
    assert!(state.drain(task()).is_empty());
}

#[test]
fn becoming_loaded_can_be_foreseen() {
    let mut state = LoopState::new();
    assert!(!state.becomes_loaded(1));
    assert!(state.becomes_loaded(0));
    let idle = || Turn::ProcessChanges { state_changed: false };
    state.resume(idle(), Reply::Libraries(vec![library(0)]));
    assert!(!state.becomes_loaded(0));
    let step = begin(&mut state, Event::Lib);
    assert!(state.becomes_loaded(0));
    end(&mut state, step.turn, vec![], world(0, false));
    assert!(!state.becomes_loaded(0));
}
