//! What the client's notifications lead to.

use vstd::prelude::*;

use crate::action::{
    Action, ActionView, Anomaly, LoopError, LoopErrorView, Step, StepView, Turn, TurnView,
};
use crate::message::{
    err_response, error_number, notification_is, notification_new, ErrorCode, Message, MessageView,
    Notification, NotificationView, RequestId, RequestIdView, Response,
};
use crate::params::{
    cancel_params, did_change_params, did_change_watched_files_params, did_close_params,
    did_open_params, file_path, is_did_change_configuration_params, no_diagnostics_json,
    no_diagnostics_params, parse_cancel, parse_did_change, parse_did_change_configuration,
    parse_did_change_watched_files, parse_did_close, parse_did_open, path_bytes, texts,
    uri_to_file_path,
};
use crate::pending_requests::{PendingRequestView, PendingRequests};
use crate::subscriptions::{subs_added, subs_removed, FileId, Subscriptions};

verus! {

/// The notifications that the loop acts on, with what it reads of their parameters.
#[derive(Debug, PartialEq, Eq)]
pub enum NotificationParams {
    Cancel(RequestId),
    DidOpenTextDocument { uri: String, text: String },
    DidChangeTextDocument { uri: String, changes: Vec<String> },
    DidCloseTextDocument { uri: String },
    DidChangeConfiguration,
    DidChangeWatchedFiles(Vec<String>),
    /// Any other method.
    Unhandled,
}

pub enum NotificationParamsView {
    Cancel(RequestIdView),
    DidOpenTextDocument { uri: Seq<char>, text: Seq<char> },
    DidChangeTextDocument { uri: Seq<char>, changes: Seq<Seq<char>> },
    DidCloseTextDocument { uri: Seq<char> },
    DidChangeConfiguration,
    DidChangeWatchedFiles(Seq<Seq<char>>),
    Unhandled,
}

impl View for NotificationParams {
    type V = NotificationParamsView;

    open spec fn view(&self) -> NotificationParamsView {
        match self {
            NotificationParams::Cancel(id) => NotificationParamsView::Cancel(id@),
            NotificationParams::DidOpenTextDocument { uri, text } => {
                NotificationParamsView::DidOpenTextDocument { uri: uri@, text: text@ }
            },
            NotificationParams::DidChangeTextDocument { uri, changes } => {
                NotificationParamsView::DidChangeTextDocument {
                    uri: uri@,
                    changes: texts(changes@),
                }
            },
            NotificationParams::DidCloseTextDocument { uri } => {
                NotificationParamsView::DidCloseTextDocument { uri: uri@ }
            },
            NotificationParams::DidChangeConfiguration => {
                NotificationParamsView::DidChangeConfiguration
            },
            NotificationParams::DidChangeWatchedFiles(uris) => {
                NotificationParamsView::DidChangeWatchedFiles(texts(uris@))
            },
            NotificationParams::Unhandled => NotificationParamsView::Unhandled,
        }
    }
}

/// What a notification says, or `None` where its parameters do not fit its method.
pub open spec fn cast(not: NotificationView) -> Option<NotificationParamsView> {
    if not.method == "$/cancelRequest"@ {
        match cancel_params(not.params) {
            Some(id) => Some(NotificationParamsView::Cancel(id)),
            None => None,
        }
    } else if not.method == "textDocument/didOpen"@ {
        match did_open_params(not.params) {
            Some((uri, text)) => Some(NotificationParamsView::DidOpenTextDocument { uri, text }),
            None => None,
        }
    } else if not.method == "textDocument/didChange"@ {
        match did_change_params(not.params) {
            Some((uri, changes)) => Some(
                NotificationParamsView::DidChangeTextDocument { uri, changes },
            ),
            None => None,
        }
    } else if not.method == "textDocument/didClose"@ {
        match did_close_params(not.params) {
            Some(uri) => Some(NotificationParamsView::DidCloseTextDocument { uri }),
            None => None,
        }
    } else if not.method == "workspace/didChangeConfiguration"@ {
        if is_did_change_configuration_params(not.params) {
            Some(NotificationParamsView::DidChangeConfiguration)
        } else {
            None
        }
    } else if not.method == "workspace/didChangeWatchedFiles"@ {
        match did_change_watched_files_params(not.params) {
            Some(uris) => Some(NotificationParamsView::DidChangeWatchedFiles(uris)),
            None => None,
        }
    } else {
        Some(NotificationParamsView::Unhandled)
    }
}

/// Reads a notification by its method. `None` says that the parameters do not fit the
/// method; a notification with a method the loop does not act on is read as `Unhandled`.
pub fn notification_cast(not: &Notification) -> (r: Option<NotificationParams>)
    ensures
        match r {
            Some(params) => cast(not@) == Some(params@),
            None => cast(not@) is None,
        },
{
    let params = not.params.as_str();
    if notification_is(not, "$/cancelRequest") {
        match parse_cancel(params) {
            Some(id) => Some(NotificationParams::Cancel(id)),
            None => None,
        }
    } else if notification_is(not, "textDocument/didOpen") {
        match parse_did_open(params) {
            Some((uri, text)) => Some(NotificationParams::DidOpenTextDocument { uri, text }),
            None => None,
        }
    } else if notification_is(not, "textDocument/didChange") {
        match parse_did_change(params) {
            Some((uri, changes)) => {
                Some(NotificationParams::DidChangeTextDocument { uri, changes })
            },
            None => None,
        }
    } else if notification_is(not, "textDocument/didClose") {
        match parse_did_close(params) {
            Some(uri) => Some(NotificationParams::DidCloseTextDocument { uri }),
            None => None,
        }
    } else if notification_is(not, "workspace/didChangeConfiguration") {
        if parse_did_change_configuration(params) {
            Some(NotificationParams::DidChangeConfiguration)
        } else {
            None
        }
    } else if notification_is(not, "workspace/didChangeWatchedFiles") {
        match parse_did_change_watched_files(params) {
            Some(uris) => Some(NotificationParams::DidChangeWatchedFiles(uris)),
            None => None,
        }
    } else {
        Some(NotificationParams::Unhandled)
    }
}

// ---- One document ----

/// The step after a change: the world takes it in.
pub open spec fn noticed(actions: Seq<ActionView>) -> StepView {
    StepView { actions, turn: TurnView::ProcessChanges { state_changed: true } }
}

/// The step that ends the loop over a URI that names no file.
pub open spec fn bad_uri(actions: Seq<ActionView>, uri: Seq<char>) -> StepView {
    StepView { actions, turn: TurnView::Failed(LoopErrorView::InvalidUri(uri)) }
}

/// What the cancelation of a request leads to.
pub open spec fn canceled(
    pending: Map<RequestIdView, PendingRequestView>,
    id: RequestIdView,
) -> StepView {
    if pending.contains_key(id) {
        noticed(
            seq![
                ActionView::Send(
                    MessageView::Response(
                        err_response(
                            id,
                            ErrorCode::RequestCanceled.spec_number(),
                            "canceled by client"@,
                        ),
                    ),
                ),
            ],
        )
    } else {
        noticed(seq![])
    }
}

/// Answers a pending request that the client cancels; any other id is passed over.
pub fn cancel_request(pending_requests: &mut PendingRequests, id: RequestId) -> (r: Step)
    requires
        old(pending_requests).wf(),
    ensures
        final(pending_requests).wf(),
        final(pending_requests)@ == old(pending_requests)@.remove(id@),
        r@ == canceled(old(pending_requests)@, id@),
{
    let mut actions: Vec<Action> = Vec::new();
    if pending_requests.cancel(&id) {
        let response = Response::new_err(
            id,
            error_number(ErrorCode::RequestCanceled),
            String::from_str("canceled by client"),
        );
        actions.push(Action::Send(Message::Response(response)));
    }
    let r = Step { actions, turn: Turn::ProcessChanges { state_changed: true } };
    assert(r@.actions =~= canceled(old(pending_requests)@, id@).actions);
    r
}

/// What the opening of a document at a path leads to.
pub open spec fn opened(uri: Seq<char>, path: Option<Seq<u8>>, text: Seq<char>) -> StepView {
    match path {
        Some(path) => StepView {
            actions: seq![],
            turn: TurnView::AddFileOverlay { path, text },
        },
        None => bad_uri(seq![], uri),
    }
}

/// Puts the text of an opened document over its file.
pub fn open_document(uri: String, path: Option<Vec<u8>>, text: String) -> (r: Step)
    ensures
        r@ == opened(uri@, path_bytes(path), text@),
        r.actions@.len() == 0,
        path matches Some(path) ==> r.turn == (Turn::AddFileOverlay { path, text }),
        path is None ==> r.turn == Turn::Failed(LoopError::InvalidUri(uri)),
{
    let turn = match path {
        Some(path) => Turn::AddFileOverlay { path, text },
        None => Turn::Failed(LoopError::InvalidUri(uri)),
    };
    let r = Step { actions: Vec::new(), turn };
    assert(r@.actions =~= seq![]);
    r
}

/// What a change of a document at a path leads to. The last change holds the whole text.
pub open spec fn changed(
    uri: Seq<char>,
    path: Option<Seq<u8>>,
    changes: Seq<Seq<char>>,
) -> StepView {
    match path {
        Some(path) => if changes.len() == 0 {
            StepView { actions: seq![], turn: TurnView::Failed(LoopErrorView::EmptyChanges) }
        } else {
            noticed(seq![ActionView::ChangeFileOverlay { path, text: changes.last() }])
        },
        None => bad_uri(seq![], uri),
    }
}

/// Replaces the text of an open document by that of the last change.
pub fn change_document(uri: String, path: Option<Vec<u8>>, changes: Vec<String>) -> (r: Step)
    ensures
        r@ == changed(uri@, path_bytes(path), texts(changes@)),
        path matches Some(p) ==> changes@.len() > 0 ==> {
            &&& r.actions@.len() == 1
            &&& (r.actions@[0] matches Action::ChangeFileOverlay { path: at, text } && at == p
                && text == changes@.last())
            &&& r.turn == (Turn::ProcessChanges { state_changed: true })
        },
        path matches Some(p) ==> changes@.len() == 0 ==> r.actions@.len() == 0 && r.turn
            == Turn::Failed(LoopError::EmptyChanges),
        path is None ==> r.actions@.len() == 0 && r.turn == Turn::Failed(
            LoopError::InvalidUri(uri),
        ),
{
    let mut actions: Vec<Action> = Vec::new();
    let mut changes = changes;
    let ghost all = changes@;
    let turn = match path {
        Some(path) => match changes.pop() {
            Some(text) => {
                actions.push(Action::ChangeFileOverlay { path, text });
                assert(texts(all).last() == text@);
                Turn::ProcessChanges { state_changed: true }
            },
            None => Turn::Failed(LoopError::EmptyChanges),
        },
        None => Turn::Failed(LoopError::InvalidUri(uri)),
    };
    let r = Step { actions, turn };
    assert(r@.actions =~= changed(uri@, path_bytes(path), texts(all)).actions);
    r
}

/// What the closing of a document at a path leads to.
pub open spec fn closed_document(uri: Seq<char>, path: Option<Seq<u8>>) -> StepView {
    match path {
        Some(path) => StepView {
            actions: seq![],
            turn: TurnView::RemoveFileOverlay { path, uri },
        },
        None => bad_uri(seq![], uri),
    }
}

/// Takes the text of a closed document off its file.
pub fn close_document(uri: String, path: Option<Vec<u8>>) -> (r: Step)
    ensures
        r@ == closed_document(uri@, path_bytes(path)),
        r.actions@.len() == 0,
        path matches Some(path) ==> r.turn == (Turn::RemoveFileOverlay { path, uri }),
        path is None ==> r.turn == Turn::Failed(LoopError::InvalidUri(uri)),
{
    let turn = match path {
        Some(path) => Turn::RemoveFileOverlay { path, uri },
        None => Turn::Failed(LoopError::InvalidUri(uri)),
    };
    let r = Step { actions: Vec::new(), turn };
    assert(r@.actions =~= seq![]);
    r
}

// ---- Files on disk ----

/// The URIs of files, each with the path it names.
pub open spec fn file_views(files: Seq<(String, Option<Vec<u8>>)>) -> Seq<
    (Seq<char>, Option<Seq<u8>>),
> {
    files.map_values(|f: (String, Option<Vec<u8>>)| (f.0@, path_bytes(f.1)))
}

/// How many of the files, from the first on, have a path.
pub open spec fn leading_paths(files: Seq<(Seq<char>, Option<Seq<u8>>)>) -> nat
    decreases files.len(),
{
    if files.len() == 0 {
        0
    } else if leading_paths(files.drop_last()) == files.len() - 1 && files.last().1 is Some {
        files.len()
    } else {
        leading_paths(files.drop_last())
    }
}

/// What the change of files on disk leads to: the file system layer is told of one after
/// the other, up to the first URI that names no file.
pub open spec fn watched_changed(files: Seq<(Seq<char>, Option<Seq<u8>>)>) -> StepView {
    let n = leading_paths(files) as int;
    let actions = Seq::new(n as nat, |i: int| ActionView::NotifyChanged(files[i].1->0));
    if n == files.len() {
        noticed(actions)
    } else {
        bad_uri(actions, files[n].0)
    }
}

/// Up to `n` all files have a path; at `n` there is none, or the files end.
pub proof fn lemma_leading_paths(files: Seq<(Seq<char>, Option<Seq<u8>>)>, n: int)
    requires
        0 <= n <= files.len(),
        forall|i: int| 0 <= i < n ==> (#[trigger] files[i]).1 is Some,
        n < files.len() ==> files[n].1 is None,
    ensures
        leading_paths(files) == n,
    decreases files.len(),
{
    if files.len() > 0 {
        let init = files.drop_last();
        if n == files.len() {
            lemma_leading_paths(init, n - 1);
        } else if n == files.len() - 1 {
            lemma_leading_paths(init, n);
        } else {
            assert(init[n] == files[n]);
            lemma_leading_paths(init, n);
        }
    }
}

/// Tells the file system layer of the changed files.
pub fn change_watched_files(files: Vec<(String, Option<Vec<u8>>)>) -> (r: Step)
    ensures
        r@ == watched_changed(file_views(files@)),
{
    let mut actions: Vec<Action> = Vec::new();
    let mut i: usize = 0;
    while i < files.len()
        invariant
            i <= files@.len(),
            actions@.len() == i,
            forall|j: int| 0 <= j < i ==> (#[trigger] file_views(files@)[j]).1 is Some,
            forall|j: int| #![trigger actions@[j]]
                0 <= j < i ==> actions@[j]@ == ActionView::NotifyChanged(
                    file_views(files@)[j].1->0,
                ),
        decreases files@.len() - i,
    {
        match &files[i].1 {
            Some(path) => {
                actions.push(Action::NotifyChanged(path.clone()));
            },
            None => {
                let uri = files[i].0.clone();
                let r = Step { actions, turn: Turn::Failed(LoopError::InvalidUri(uri)) };
                proof {
                    lemma_leading_paths(file_views(files@), i as int);
                    assert(r@.actions =~= watched_changed(file_views(files@)).actions);
                }
                return r;
            },
        }
        i += 1;
    }
    let r = Step { actions, turn: Turn::ProcessChanges { state_changed: true } };
    proof {
        lemma_leading_paths(file_views(files@), i as int);
        assert(r@.actions =~= watched_changed(file_views(files@)).actions);
    }
    r
}

/// URIs, each with the path it names.
pub open spec fn resolved(uris: Seq<Seq<char>>) -> Seq<(Seq<char>, Option<Seq<u8>>)> {
    uris.map_values(|uri: Seq<char>| (uri, file_path(uri)))
}

fn resolve(uris: Vec<String>) -> (r: Vec<(String, Option<Vec<u8>>)>)
    ensures
        file_views(r@) == resolved(texts(uris@)),
{
    let mut r: Vec<(String, Option<Vec<u8>>)> = Vec::new();
    let mut i: usize = 0;
    while i < uris.len()
        invariant
            i <= uris@.len(),
            r@.len() == i,
            forall|j: int| #![trigger r@[j]]
                0 <= j < i ==> r@[j].0@ == uris@[j]@ && path_bytes(r@[j].1) == file_path(
                    uris@[j]@,
                ),
        decreases uris@.len() - i,
    {
        let path = uri_to_file_path(uris[i].as_str());
        r.push((uris[i].clone(), path));
        i += 1;
    }
    assert(file_views(r@) =~= resolved(texts(uris@)));
    r
}

// ---- All notifications ----

/// The pending requests once a notification has been dealt with.
pub open spec fn pending_after_notification(
    pending: Map<RequestIdView, PendingRequestView>,
    params: NotificationParamsView,
) -> Map<RequestIdView, PendingRequestView> {
    match params {
        NotificationParamsView::Cancel(id) => pending.remove(id),
        _ => pending,
    }
}

/// What a notification leads to.
pub open spec fn notified(
    pending: Map<RequestIdView, PendingRequestView>,
    params: NotificationParamsView,
) -> StepView {
    match params {
        NotificationParamsView::Cancel(id) => canceled(pending, id),
        NotificationParamsView::DidOpenTextDocument { uri, text } => opened(
            uri,
            file_path(uri),
            text,
        ),
        NotificationParamsView::DidChangeTextDocument { uri, changes } => changed(
            uri,
            file_path(uri),
            changes,
        ),
        NotificationParamsView::DidCloseTextDocument { uri } => closed_document(
            uri,
            file_path(uri),
        ),
        NotificationParamsView::DidChangeConfiguration => noticed(seq![]),
        NotificationParamsView::DidChangeWatchedFiles(uris) => watched_changed(resolved(uris)),
        NotificationParamsView::Unhandled => noticed(
            seq![ActionView::Report(Anomaly::UnhandledNotification)],
        ),
    }
}

/// Acts on a notification.
pub fn on_notification(
    pending_requests: &mut PendingRequests,
    params: NotificationParams,
) -> (r: Step)
    requires
        old(pending_requests).wf(),
    ensures
        final(pending_requests).wf(),
        final(pending_requests)@ == pending_after_notification(old(pending_requests)@, params@),
        r@ == notified(old(pending_requests)@, params@),
{
    match params {
        NotificationParams::Cancel(id) => cancel_request(pending_requests, id),
        NotificationParams::DidOpenTextDocument { uri, text } => {
            let path = uri_to_file_path(uri.as_str());
            open_document(uri, path, text)
        },
        NotificationParams::DidChangeTextDocument { uri, changes } => {
            let path = uri_to_file_path(uri.as_str());
            change_document(uri, path, changes)
        },
        NotificationParams::DidCloseTextDocument { uri } => {
            let path = uri_to_file_path(uri.as_str());
            close_document(uri, path)
        },
        NotificationParams::DidChangeWatchedFiles(uris) => change_watched_files(resolve(uris)),
        NotificationParams::DidChangeConfiguration => {
            let r = Step {
                actions: Vec::new(),
                turn: Turn::ProcessChanges { state_changed: true },
            };
            assert(r@.actions =~= seq![]);
            r
        },
        NotificationParams::Unhandled => {
            let mut actions: Vec<Action> = Vec::new();
            actions.push(Action::Report(Anomaly::UnhandledNotification));
            let r = Step { actions, turn: Turn::ProcessChanges { state_changed: true } };
            assert(r@.actions =~= seq![ActionView::Report(Anomaly::UnhandledNotification)]);
            r
        },
    }
}

// ---- Once the overlay has changed ----

/// Subscribes to an opened document, where the file system layer knows its file.
pub fn document_opened(subs: &mut Subscriptions, file_id: Option<FileId>) -> (r: Step)
    requires
        old(subs).wf(),
    ensures
        final(subs).wf(),
        final(subs)@ == subs_after_open(old(subs)@, file_id),
        r@ == noticed(seq![]),
{
    match file_id {
        Some(file_id) => subs.add_sub(file_id),
        None => {},
    }
    let r = Step { actions: Vec::new(), turn: Turn::ProcessChanges { state_changed: true } };
    assert(r@.actions =~= seq![]);
    r
}

/// The subscriptions once a document has been opened.
pub open spec fn subs_after_open(subs: Seq<FileId>, file_id: Option<FileId>) -> Seq<FileId> {
    match file_id {
        Some(file_id) => subs_added(subs, file_id),
        None => subs,
    }
}

/// The subscriptions once a document has been closed.
pub open spec fn subs_after_close(subs: Seq<FileId>, file_id: Option<FileId>) -> Seq<FileId> {
    match file_id {
        Some(file_id) => subs_removed(subs, file_id),
        None => subs,
    }
}

/// The notification that leaves a document without diagnostics.
pub open spec fn no_diagnostics(uri: Seq<char>) -> NotificationView {
    NotificationView {
        method: "textDocument/publishDiagnostics"@,
        params: no_diagnostics_json(uri),
    }
}

/// Ends the subscription to a closed document, and clears its diagnostics.
pub fn document_closed(subs: &mut Subscriptions, uri: String, file_id: Option<FileId>) -> (r: Step)
    requires
        old(subs).wf(),
    ensures
        final(subs).wf(),
        final(subs)@ == subs_after_close(old(subs)@, file_id),
        r@ == noticed(
            seq![ActionView::Send(MessageView::Notification(no_diagnostics(uri@)))],
        ),
{
    match file_id {
        Some(file_id) => subs.remove_sub(file_id),
        None => {},
    }
    let params = no_diagnostics_params(uri.as_str());
    let not = notification_new("textDocument/publishDiagnostics", params);
    let mut actions: Vec<Action> = Vec::new();
    actions.push(Action::Send(Message::Notification(not)));
    let r = Step { actions, turn: Turn::ProcessChanges { state_changed: true } };
    assert(r@.actions =~= seq![
        ActionView::Send(MessageView::Notification(no_diagnostics(uri@))),
    ]);
    r
}

} // verus!
