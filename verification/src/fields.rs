//! What the views show: each value whole, field by field.

use vstd::prelude::*;

use crate::action::{
    action_views, Action, ActionView, Job, LoopError, LoopErrorView, Step, Task, TaskView, Turn,
    TurnView,
};
use crate::dispatch::{
    job_view, response_view, Dispatched, DispatchedView, HandlerResult, HandlerResultView,
};
use crate::main_loop::{
    Event, EventSummary, EventSummaryView, EventView, Next, NextView, Selected, SelectedView,
};
use crate::message::{
    Message, MessageView, Notification, Request, RequestId, RequestIdView, Response, ResponseError,
};
use crate::method::ExtensionMethods;
use crate::notification::{
    file_views, resolved, NotificationParams, NotificationParamsView,
};
use crate::params::{file_path, path_bytes, texts};
use crate::pending_requests::PendingRequest;
use crate::updates::{UpdateOutcome, UpdateOutcomeView};

verus! {

/// An id is shown as the number or the text it is.
pub proof fn ids_are_shown(id: RequestId)
    ensures
        match id {
            RequestId::Number(n) => id@ == RequestIdView::Number(n),
            RequestId::Text(text) => id@ == RequestIdView::Text(text@),
        },
{
}

/// Requests, responses, notifications and records are shown with all their fields.
pub proof fn messages_are_shown(
    req: Request,
    r: Response,
    e: ResponseError,
    n: Notification,
    m: Message,
    record: PendingRequest,
)
    ensures
        req@.id == req.id@,
        req@.method == req.method@,
        req@.params == req.params@,
        e@.code == e.code,
        e@.message == e.message@,
        r@.id == r.id@,
        r.result is None <==> r@.result is None,
        r.result matches Some(json) ==> r@.result == Some(json@),
        r.error is None <==> r@.error is None,
        r.error matches Some(error) ==> r@.error == Some(error@),
        n@.method == n.method@,
        n@.params == n.params@,
        match m {
            Message::Request(it) => m@ == MessageView::Request(it@),
            Message::Response(it) => m@ == MessageView::Response(it@),
            Message::Notification(it) => m@ == MessageView::Notification(it@),
        },
        record@.id == record.id@,
        record@.method == record.method@,
        record@.received == record.received,
{
}

/// Tasks, jobs and handlers' outcomes are shown as what they are, with all they hold.
pub proof fn work_is_shown(t: Task, j: Job, h: HandlerResult, d: Dispatched)
    ensures
        match t {
            Task::Respond(it) => t@ == TaskView::Respond(it@),
            Task::Notify(it) => t@ == TaskView::Notify(it@),
        },
        j@.kind == j.kind,
        j@.id == j.id@,
        j@.params == j.params@,
        match h {
            HandlerResult::Done(json) => h@ == HandlerResultView::Done(json@),
            HandlerResult::Lsp(e) => h@ == HandlerResultView::Lsp(e.code, e.message@),
            HandlerResult::Canceled => h@ == HandlerResultView::Canceled,
            HandlerResult::Failed(message) => h@ == HandlerResultView::Failed(message@),
        },
        match d {
            Dispatched::Sync(it) => d@ == DispatchedView::Sync(it@),
            Dispatched::Pool(it) => d@ == DispatchedView::Pool(it@),
            Dispatched::Unknown(it) => d@ == DispatchedView::Unknown(it@),
        },
        job_view(None) is None,
        job_view(Some(j)) == Some(j@),
        response_view(None) is None,
        forall|r: Response| #[trigger] response_view(Some(r)) == Some(r@),
{
}

/// An action is shown as what it asks for, with all it holds.
pub proof fn actions_are_shown(a: Action)
    ensures
        match a {
            Action::Send(m) => a@ == ActionView::Send(m@),
            Action::CompleteRequest(r) => a@ == ActionView::CompleteRequest(r@),
            Action::MaybeCollectGarbage => a@ == ActionView::MaybeCollectGarbage,
            Action::HandleVfsTask => a@ == ActionView::HandleVfsTask,
            Action::AddLibrary => a@ == ActionView::AddLibrary,
            Action::RunOnPool(j) => a@ == ActionView::RunOnPool(j@),
            Action::ChangeFileOverlay { path, text } => a@ == (ActionView::ChangeFileOverlay {
                path: path@,
                text: text@,
            }),
            Action::NotifyChanged(path) => a@ == ActionView::NotifyChanged(path@),
            Action::IndexLibrary(l) => a@ == ActionView::IndexLibrary(l),
            Action::UpdateFileNotifications {
                subscriptions,
                publish_diagnostics,
                publish_decorations,
            } => a@ == (ActionView::UpdateFileNotifications {
                subscriptions: subscriptions@,
                publish_diagnostics,
                publish_decorations,
            }),
            Action::Report(anomaly) => a@ == ActionView::Report(anomaly),
        },
{
}

/// A step is shown with each of its actions, in order, and with where the turn stands.
pub proof fn steps_are_shown(step: Step, turn: Turn, e: LoopError)
    ensures
        step@.actions == action_views(step.actions@),
        step@.actions.len() == step.actions@.len(),
        forall|i: int|
            0 <= i < step.actions@.len() ==> #[trigger] step@.actions[i] == step.actions@[i]@,
        step@.turn == step.turn@,
        match turn {
            Turn::RunSync(j) => turn@ == TurnView::RunSync(j@),
            Turn::AddFileOverlay { path, text } => turn@ == (TurnView::AddFileOverlay {
                path: path@,
                text: text@,
            }),
            Turn::RemoveFileOverlay { path, uri } => turn@ == (TurnView::RemoveFileOverlay {
                path: path@,
                uri: uri@,
            }),
            Turn::ProcessChanges { state_changed } => turn@ == (TurnView::ProcessChanges {
                state_changed,
            }),
            Turn::Inspect { state_changed } => turn@ == (TurnView::Inspect { state_changed }),
            Turn::Done => turn@ == TurnView::Done,
            Turn::Failed(error) => turn@ == TurnView::Failed(error@),
        },
        match e {
            LoopError::InvalidUri(uri) => e@ == LoopErrorView::InvalidUri(uri@),
            LoopError::EmptyChanges => e@ == LoopErrorView::EmptyChanges,
            LoopError::ClientExited => e@ == LoopErrorView::ClientExited,
            LoopError::VfsDied => e@ == LoopErrorView::VfsDied,
        },
{
}

/// Events, what is heard, what comes next and what is logged are shown as what they are.
pub proof fn events_are_shown(
    event: Event,
    selected: Selected,
    next: Next,
    summary: EventSummary,
    outcome: UpdateOutcome,
)
    ensures
        match event {
            Event::Msg(it) => event@ == EventView::Msg(it@),
            Event::Task(it) => event@ == EventView::Task(it@),
            Event::Vfs => event@ == EventView::Vfs,
            Event::Lib => event@ == EventView::Lib,
        },
        match selected {
            Selected::Message(it) => selected@ == SelectedView::Message(it@),
            Selected::ClientGone => selected@ == SelectedView::ClientGone,
            Selected::Task(it) => selected@ == SelectedView::Task(it@),
            Selected::Vfs => selected@ == SelectedView::Vfs,
            Selected::VfsGone => selected@ == SelectedView::VfsGone,
            Selected::Lib => selected@ == SelectedView::Lib,
        },
        match next {
            Next::CheckShutdown(it) => next@ == NextView::CheckShutdown(it@),
            Next::TakeTurn(it) => next@ == NextView::TakeTurn(it@),
            Next::Drain => next@ == NextView::Drain,
            Next::Fail(it) => next@ == NextView::Fail(it@),
        },
        match summary {
            EventSummary::Method(it) => summary@ == EventSummaryView::Method(it@),
            EventSummary::Outcome(id, None) => summary@ == EventSummaryView::Outcome(id@, None),
            EventSummary::Outcome(id, Some(error)) => summary@ == EventSummaryView::Outcome(
                id@,
                Some(error@),
            ),
            EventSummary::Full => summary@ == EventSummaryView::Full,
        },
        match outcome {
            UpdateOutcome::Send(it) => outcome@ == UpdateOutcomeView::Send(it@),
            UpdateOutcome::Skip => outcome@ == UpdateOutcomeView::Skip,
            UpdateOutcome::LogFailure => outcome@ == UpdateOutcomeView::LogFailure,
        },
{
}

/// What a notification says is shown whole.
pub proof fn notifications_are_shown(p: NotificationParams)
    ensures
        match p {
            NotificationParams::Cancel(id) => p@ == NotificationParamsView::Cancel(id@),
            NotificationParams::DidOpenTextDocument { uri, text } => p@ == (
            NotificationParamsView::DidOpenTextDocument { uri: uri@, text: text@ }),
            NotificationParams::DidChangeTextDocument { uri, changes } => p@ == (
            NotificationParamsView::DidChangeTextDocument {
                uri: uri@,
                changes: texts(changes@),
            }),
            NotificationParams::DidCloseTextDocument { uri } => p@ == (
            NotificationParamsView::DidCloseTextDocument { uri: uri@ }),
            NotificationParams::DidChangeConfiguration => p@
                == NotificationParamsView::DidChangeConfiguration,
            NotificationParams::DidChangeWatchedFiles(uris) => p@
                == NotificationParamsView::DidChangeWatchedFiles(texts(uris@)),
            NotificationParams::Unhandled => p@ == NotificationParamsView::Unhandled,
        },
{
}

/// Sequences of strings, paths and files are shown one for one, in order.
pub proof fn sequences_are_shown(
    strings: Seq<String>,
    files: Seq<(String, Option<Vec<u8>>)>,
    uris: Seq<Seq<char>>,
    path: Vec<u8>,
)
    ensures
        texts(strings).len() == strings.len(),
        forall|i: int| 0 <= i < strings.len() ==> #[trigger] texts(strings)[i] == strings[i]@,
        path_bytes(None) is None,
        path_bytes(Some(path)) == Some(path@),
        file_views(files).len() == files.len(),
        forall|i: int|
            0 <= i < files.len() ==> #[trigger] file_views(files)[i] == (
                files[i].0@,
                path_bytes(files[i].1),
            ),
        resolved(uris).len() == uris.len(),
        forall|i: int|
            0 <= i < uris.len() ==> #[trigger] resolved(uris)[i] == (uris[i], file_path(uris[i])),
{
}

/// The names of the extensions are shown as they are given.
pub proof fn extensions_are_shown(ext: ExtensionMethods)
    ensures
        ext@.collect_garbage == ext.collect_garbage@,
        ext@.join_lines == ext.join_lines@,
        ext@.on_enter == ext.on_enter@,
        ext@.find_matching_brace == ext.find_matching_brace@,
        ext@.analyzer_status == ext.analyzer_status@,
        ext@.syntax_tree == ext.syntax_tree@,
        ext@.parent_module == ext.parent_module@,
        ext@.runnables == ext.runnables@,
        ext@.decorations == ext.decorations@,
        ext@.inlay_hints == ext.inlay_hints@,
        ext@.publish_decorations == ext.publish_decorations@,
{
}

} // verus!
