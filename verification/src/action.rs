//! What the loop asks the program around it to do.

use std::sync::Arc;

use relative_path::RelativePathBuf;
use vstd::prelude::*;

use crate::message::{
    Message, MessageView, Notification, NotificationView, RequestId, RequestIdView, Response,
    ResponseView,
};
use crate::method::RequestKind;
use crate::pending_requests::{PendingRequest, PendingRequestView};
use crate::subscriptions::FileId;

verus! {

/// The number of a source root.
#[derive(Debug, Clone, Copy, PartialEq, Eq, Structural)]
pub struct SourceRootId(pub u32);

/// A library that waits to be indexed: its root and its files.
#[derive(Debug)]
pub struct Library {
    pub root: SourceRootId,
    pub files: Vec<(FileId, RelativePathBuf, Arc<String>)>,
}

/// A piece of work whose outcome goes to the client.
#[derive(Debug, PartialEq, Eq)]
pub enum Task {
    Respond(Response),
    Notify(Notification),
}

pub enum TaskView {
    Respond(ResponseView),
    Notify(NotificationView),
}

impl View for Task {
    type V = TaskView;

    open spec fn view(&self) -> TaskView {
        match self {
            Task::Respond(r) => TaskView::Respond(r@),
            Task::Notify(n) => TaskView::Notify(n@),
        }
    }
}

/// A request that is to be handed to the handler of its kind.
#[derive(Debug, PartialEq, Eq)]
pub struct Job {
    pub kind: RequestKind,
    pub id: RequestId,
    pub params: String,
}

pub struct JobView {
    pub kind: RequestKind,
    pub id: RequestIdView,
    pub params: Seq<char>,
}

impl View for Job {
    type V = JobView;

    open spec fn view(&self) -> JobView {
        JobView { kind: self.kind, id: self.id@, params: self.params@ }
    }
}

/// Something that a well-behaved client does not send.
#[derive(Debug, Clone, Copy, PartialEq, Eq, Structural)]
pub enum Anomaly {
    /// A request that no handler knows.
    UnknownRequest,
    /// A notification that the loop does not act on.
    UnhandledNotification,
    /// A response that the server does not await.
    UnexpectedResponse,
}

/// Something to do that the loop needs no answer from.
#[derive(Debug)]
pub enum Action {
    /// Send a message to the client.
    Send(Message),
    /// Note that a request has been answered.
    CompleteRequest(PendingRequest),
    /// Collect garbage, if it is time to.
    MaybeCollectGarbage,
    /// Hand the file system event of this turn to the file system layer.
    HandleVfsTask,
    /// Add the indexed library of this turn to the world.
    AddLibrary,
    /// Run a handler on the thread pool and send its outcome back as a task.
    RunOnPool(Job),
    /// Replace the text of an open file.
    ChangeFileOverlay { path: Vec<u8>, text: String },
    /// Tell the file system layer that a file on disk may have changed.
    NotifyChanged(Vec<u8>),
    /// Index a library on the thread pool and send the outcome back.
    IndexLibrary(Library),
    /// Compute what the subscribed files' notifications say, on the thread pool.
    UpdateFileNotifications {
        subscriptions: Vec<FileId>,
        publish_diagnostics: bool,
        publish_decorations: bool,
    },
    /// Log that the message of this turn is an anomaly.
    Report(Anomaly),
}

pub enum ActionView {
    Send(MessageView),
    CompleteRequest(PendingRequestView),
    MaybeCollectGarbage,
    HandleVfsTask,
    AddLibrary,
    RunOnPool(JobView),
    ChangeFileOverlay { path: Seq<u8>, text: Seq<char> },
    NotifyChanged(Seq<u8>),
    IndexLibrary(Library),
    UpdateFileNotifications {
        subscriptions: Seq<FileId>,
        publish_diagnostics: bool,
        publish_decorations: bool,
    },
    Report(Anomaly),
}

impl View for Action {
    type V = ActionView;

    open spec fn view(&self) -> ActionView {
        match self {
            Action::Send(m) => ActionView::Send(m@),
            Action::CompleteRequest(r) => ActionView::CompleteRequest(r@),
            Action::MaybeCollectGarbage => ActionView::MaybeCollectGarbage,
            Action::HandleVfsTask => ActionView::HandleVfsTask,
            Action::AddLibrary => ActionView::AddLibrary,
            Action::RunOnPool(j) => ActionView::RunOnPool(j@),
            Action::ChangeFileOverlay { path, text } => ActionView::ChangeFileOverlay {
                path: path@,
                text: text@,
            },
            Action::NotifyChanged(path) => ActionView::NotifyChanged(path@),
            Action::IndexLibrary(l) => ActionView::IndexLibrary(*l),
            Action::UpdateFileNotifications {
                subscriptions,
                publish_diagnostics,
                publish_decorations,
            } => ActionView::UpdateFileNotifications {
                subscriptions: subscriptions@,
                publish_diagnostics: *publish_diagnostics,
                publish_decorations: *publish_decorations,
            },
            Action::Report(anomaly) => ActionView::Report(*anomaly),
        }
    }
}

/// What a sequence of actions asks for.
pub open spec fn action_views(actions: Seq<Action>) -> Seq<ActionView> {
    actions.map_values(|a: Action| a@)
}

/// Why the loop ends before the client has shut the server down.
#[derive(Debug, PartialEq, Eq)]
pub enum LoopError {
    /// A document's URI names no file.
    InvalidUri(String),
    /// A change notification holds no change.
    EmptyChanges,
    /// The client closed the connection without a shutdown request.
    ClientExited,
    /// The file system layer stopped.
    VfsDied,
}

pub enum LoopErrorView {
    InvalidUri(Seq<char>),
    EmptyChanges,
    ClientExited,
    VfsDied,
}

impl View for LoopError {
    type V = LoopErrorView;

    open spec fn view(&self) -> LoopErrorView {
        match self {
            LoopError::InvalidUri(uri) => LoopErrorView::InvalidUri(uri@),
            LoopError::EmptyChanges => LoopErrorView::EmptyChanges,
            LoopError::ClientExited => LoopErrorView::ClientExited,
            LoopError::VfsDied => LoopErrorView::VfsDied,
        }
    }
}

/// What a reader of a `LoopError` sees.
pub open spec fn loop_error_text(error: LoopErrorView) -> Seq<char> {
    match error {
        LoopErrorView::InvalidUri(uri) => "invalid uri: "@ + uri,
        LoopErrorView::EmptyChanges => "empty changes"@,
        LoopErrorView::ClientExited => "client exited without shutdown"@,
        LoopErrorView::VfsDied => "vfs died"@,
    }
}

impl LoopError {
    /// The error as a sentence.
    pub fn to_text(&self) -> (r: String)
        ensures
            r@ == loop_error_text(self@),
    {
        match self {
            LoopError::InvalidUri(uri) => {
                let mut r = String::from_str("invalid uri: ");
                r.append(uri.as_str());
                r
            },
            LoopError::EmptyChanges => String::from_str("empty changes"),
            LoopError::ClientExited => String::from_str("client exited without shutdown"),
            LoopError::VfsDied => String::from_str("vfs died"),
        }
    }
}

/// Where a turn of the loop stands: what has to be answered before it can go on.
#[derive(Debug)]
pub enum Turn {
    /// Run a handler on this thread; its outcome is awaited.
    RunSync(Job),
    /// Put an overlay over a file; the file's number, if it has one, is awaited.
    AddFileOverlay { path: Vec<u8>, text: String },
    /// Take the overlay off a file; the file's number, if it has one, is awaited.
    RemoveFileOverlay { path: Vec<u8>, uri: String },
    /// Let the world take in its changes; the libraries to index are awaited.
    ProcessChanges { state_changed: bool },
    /// Look at the world; its condition is awaited.
    Inspect { state_changed: bool },
    /// The turn is over.
    Done,
    /// The turn, and the loop with it, ends with an error.
    Failed(LoopError),
}

pub enum TurnView {
    RunSync(JobView),
    AddFileOverlay { path: Seq<u8>, text: Seq<char> },
    RemoveFileOverlay { path: Seq<u8>, uri: Seq<char> },
    ProcessChanges { state_changed: bool },
    Inspect { state_changed: bool },
    Done,
    Failed(LoopErrorView),
}

impl View for Turn {
    type V = TurnView;

    open spec fn view(&self) -> TurnView {
        match self {
            Turn::RunSync(j) => TurnView::RunSync(j@),
            Turn::AddFileOverlay { path, text } => TurnView::AddFileOverlay {
                path: path@,
                text: text@,
            },
            Turn::RemoveFileOverlay { path, uri } => TurnView::RemoveFileOverlay {
                path: path@,
                uri: uri@,
            },
            Turn::ProcessChanges { state_changed } => TurnView::ProcessChanges {
                state_changed: *state_changed,
            },
            Turn::Inspect { state_changed } => TurnView::Inspect { state_changed: *state_changed },
            Turn::Done => TurnView::Done,
            Turn::Failed(e) => TurnView::Failed(e@),
        }
    }
}

/// One step of a turn: what to do, in order, and then where the turn stands.
#[derive(Debug)]
pub struct Step {
    pub actions: Vec<Action>,
    pub turn: Turn,
}

pub struct StepView {
    pub actions: Seq<ActionView>,
    pub turn: TurnView,
}

impl View for Step {
    type V = StepView;

    open spec fn view(&self) -> StepView {
        StepView { actions: action_views(self.actions@), turn: self.turn@ }
    }
}

} // verus!
