//! The loop: its state, and what each event does to it.

use std::time::Instant;

use rustc_hash::FxHashSet;
use vstd::prelude::*;

use crate::action::{
    action_views, Action, ActionView, Anomaly, Library, LoopError, LoopErrorView, Step, StepView,
    Task, TaskView, Turn, TurnView,
};
use crate::dispatch::{
    dispatched, on_request, on_task, pending_after_request, response_of, result_to_task, task_done,
    Dispatched, DispatchedView, HandlerResult,
};
use crate::message::{
    notification_is, request_new, Message, MessageView, Request, RequestId, RequestIdView,
    RequestView, ResponseError, ResponseErrorView,
};
use crate::method::{ExtensionMethods, ExtensionMethodsView};
use crate::notification::{
    cast, document_closed, document_opened, no_diagnostics, noticed, notification_cast, notified,
    on_notification, pending_after_notification, subs_after_close, subs_after_open,
};
use crate::params::{
    debug_text, registration_json, registration_params, write_debug, MessageType,
};
use crate::pending_requests::{PendingRequestView, PendingRequests};
use crate::startup::{member_globs, show_message, shown, watched_globs, WorkspaceRoot};
use crate::subscriptions::{FileId, Subscriptions};
use crate::text::{decimal, i32_text, signed_decimal, u64_text};

verus! {

/// The number of threads in the pool.
pub const THREADPOOL_SIZE: usize = 8;

/// The number of libraries that may be indexed at the same time: always fewer than there
/// are threads, so that one is ready to react to input.
pub const MAX_IN_FLIGHT_LIBS: usize = THREADPOOL_SIZE - 3;

/// What the loop remembers from turn to turn.
#[derive(Debug)]
pub struct LoopState {
    next_request_id: u64,
    pending_responses: FxHashSet<u64>,
    pending_requests: PendingRequests,
    subscriptions: Subscriptions,
    in_flight_libraries: usize,
    pending_libraries: Vec<Library>,
    workspace_loaded: bool,
}

pub struct LoopStateView {
    /// The id of the server's latest request.
    pub next_request_id: u64,
    /// The server's requests that the client has not answered yet.
    pub pending_responses: Set<u64>,
    /// The client's requests that the server has not answered yet.
    pub pending_requests: Map<RequestIdView, PendingRequestView>,
    pub subscriptions: Seq<FileId>,
    pub in_flight_libraries: usize,
    /// The libraries that wait to be indexed; the last one is next.
    pub pending_libraries: Seq<Library>,
    pub workspace_loaded: bool,
}

impl LoopStateView {
    /// What holds between any two steps.
    pub open spec fn wf(self) -> bool {
        &&& self.in_flight_libraries <= MAX_IN_FLIGHT_LIBS
        &&& forall|id: u64| #[trigger]
            self.pending_responses.contains(id) ==> 0 < id <= self.next_request_id
        &&& self.subscriptions.no_duplicates()
    }
}

impl View for LoopState {
    type V = LoopStateView;

    closed spec fn view(&self) -> LoopStateView {
        LoopStateView {
            next_request_id: self.next_request_id,
            pending_responses: self.pending_responses@,
            pending_requests: self.pending_requests@,
            subscriptions: self.subscriptions@,
            in_flight_libraries: self.in_flight_libraries,
            pending_libraries: self.pending_libraries@,
            workspace_loaded: self.workspace_loaded,
        }
    }
}

/// `insert` of a `rustc_hash::FxHashSet` of numbers: the number is in the set afterwards,
/// and the result says whether it was not before.
#[verifier::external_body]
fn insert_id(ids: &mut FxHashSet<u64>, id: u64) -> (r: bool)
    ensures
        final(ids)@ == old(ids)@.insert(id),
        r == !old(ids)@.contains(id),
{
    ids.insert(id)
}

/// `remove` of a `rustc_hash::FxHashSet` of numbers: the number is not in the set
/// afterwards, and the result says whether it was before.
#[verifier::external_body]
fn remove_id(ids: &mut FxHashSet<u64>, id: u64) -> (r: bool)
    ensures
        final(ids)@ == old(ids)@.remove(id),
        r == old(ids)@.contains(id),
{
    ids.remove(&id)
}

impl LoopState {
    pub closed spec fn wf(&self) -> bool {
        self@.wf() && self.pending_requests.wf()
    }

    pub fn new() -> (r: LoopState)
        ensures
            r.wf(),
            r@ == initial_state(),
    {
        LoopState {
            next_request_id: 0,
            pending_responses: FxHashSet::default(),
            pending_requests: PendingRequests::new(),
            subscriptions: Subscriptions::new(),
            in_flight_libraries: 0,
            pending_libraries: Vec::new(),
            workspace_loaded: false,
        }
    }

    /// What a state stands for is well-formed if the state is.
    pub proof fn lemma_wf(&self)
        requires
            self.wf(),
        ensures
            self@.wf(),
    {
    }

    /// How many libraries are being indexed.
    pub fn in_flight_libraries(&self) -> (r: usize)
        ensures
            r == self@.in_flight_libraries,
    {
        self.in_flight_libraries
    }

    /// Whether the workspace becomes loaded if so many roots are still to be scanned.
    pub fn becomes_loaded(&self, roots_to_scan: usize) -> (r: bool)
        ensures
            r == just_loaded(self@, roots_to_scan),
    {
        !self.workspace_loaded && roots_to_scan == 0 && self.pending_libraries.len() == 0
            && self.in_flight_libraries == 0
    }

    /// Draws the id of the next request to the client, and remembers that its answer is
    /// awaited.
    pub fn next_request_id(&mut self) -> (r: RequestId)
        requires
            old(self).wf(),
            old(self)@.next_request_id < u64::MAX,
        ensures
            final(self).wf(),
            r@ == RequestIdView::Number((old(self)@.next_request_id + 1) as u64),
            final(self)@ == id_drawn(old(self)@),
    {
        self.next_request_id = self.next_request_id + 1;
        let res: u64 = self.next_request_id;
        let inserted = insert_id(&mut self.pending_responses, res);
        proof {
            lemma_id_drawn(old(self)@);
            assert(!old(self)@.pending_responses.contains(res));
            assert(inserted);
            assert(self@ == id_drawn(old(self)@));
        }
        RequestId::Number(res)
    }
}

/// The state of a loop that has not seen any event.
pub open spec fn initial_state() -> LoopStateView {
    LoopStateView {
        next_request_id: 0,
        pending_responses: Set::empty(),
        pending_requests: Map::empty(),
        subscriptions: Seq::empty(),
        in_flight_libraries: 0,
        pending_libraries: Seq::empty(),
        workspace_loaded: false,
    }
}

/// The state once the id of a request to the client has been drawn.
pub open spec fn id_drawn(s: LoopStateView) -> LoopStateView {
    let id = (s.next_request_id + 1) as u64;
    LoopStateView { next_request_id: id, pending_responses: s.pending_responses.insert(id), ..s }
}

/// Drawing an id keeps the state well-formed.
proof fn lemma_id_drawn(s: LoopStateView)
    requires
        s.wf(),
        s.next_request_id < u64::MAX,
    ensures
        id_drawn(s).wf(),
{
    let after = id_drawn(s);
    assert forall|id: u64| #[trigger] after.pending_responses.contains(id) implies 0 < id
        <= after.next_request_id by {
        if id != after.next_request_id {
            assert(s.pending_responses.contains(id));
        }
    }
}

// ---- Events ----

/// What wakes the loop up. File system events and indexed libraries stay with the program
/// around the loop.
#[derive(Debug)]
pub enum Event {
    Msg(Message),
    Task(Task),
    Vfs,
    Lib,
}

pub enum EventView {
    Msg(MessageView),
    Task(TaskView),
    Vfs,
    Lib,
}

impl View for Event {
    type V = EventView;

    open spec fn view(&self) -> EventView {
        match self {
            Event::Msg(m) => EventView::Msg(m@),
            Event::Task(t) => EventView::Task(t@),
            Event::Vfs => EventView::Vfs,
            Event::Lib => EventView::Lib,
        }
    }
}

/// How much of an event goes to the log.
#[derive(Debug, PartialEq, Eq)]
pub enum EventSummary {
    /// The method of a notification whose parameters are too long.
    Method(String),
    /// The id and the error of a response whose result is too long.
    Outcome(RequestId, Option<ResponseError>),
    /// All of it.
    Full,
}

pub enum EventSummaryView {
    Method(Seq<char>),
    Outcome(RequestIdView, Option<ResponseErrorView>),
    Full,
}

impl View for EventSummary {
    type V = EventSummaryView;

    open spec fn view(&self) -> EventSummaryView {
        match self {
            EventSummary::Method(m) => EventSummaryView::Method(m@),
            EventSummary::Outcome(id, error) => EventSummaryView::Outcome(
                id@,
                match error {
                    Some(e) => Some(e@),
                    None => None,
                },
            ),
            EventSummary::Full => EventSummaryView::Full,
        }
    }
}

/// How much of an event goes to the log.
pub open spec fn summary_of(event: EventView, ext: ExtensionMethodsView) -> EventSummaryView {
    match event {
        EventView::Msg(MessageView::Notification(n)) => if n.method == "textDocument/didOpen"@
            || n.method == "textDocument/didChange"@ {
            EventSummaryView::Method(n.method)
        } else {
            EventSummaryView::Full
        },
        EventView::Task(TaskView::Notify(n)) => if n.method == ext.publish_decorations || n.method
            == "textDocument/publishDiagnostics"@ {
            EventSummaryView::Method(n.method)
        } else {
            EventSummaryView::Full
        },
        EventView::Task(TaskView::Respond(r)) => EventSummaryView::Outcome(r.id, r.error),
        _ => EventSummaryView::Full,
    }
}

impl Event {
    /// Decides how much of the event goes to the log.
    pub fn summary(&self, ext: &ExtensionMethods) -> (r: EventSummary)
        ensures
            r@ == summary_of(self@, ext@),
    {
        match self {
            Event::Msg(Message::Notification(not)) => {
                if notification_is(not, "textDocument/didOpen") || notification_is(
                    not,
                    "textDocument/didChange",
                ) {
                    EventSummary::Method(not.method.clone())
                } else {
                    EventSummary::Full
                }
            },
            Event::Task(Task::Notify(not)) => {
                if notification_is(not, ext.publish_decorations.as_str()) || notification_is(
                    not,
                    "textDocument/publishDiagnostics",
                ) {
                    EventSummary::Method(not.method.clone())
                } else {
                    EventSummary::Full
                }
            },
            Event::Task(Task::Respond(resp)) => {
                let error = match &resp.error {
                    Some(e) => Some(ResponseError { code: e.code, message: e.message.clone() }),
                    None => None,
                };
                EventSummary::Outcome(resp.id.clone(), error)
            },
            _ => EventSummary::Full,
        }
    }
}

/// A textual id in the log; `shown` is the text as it is to be shown.
pub open spec fn text_id_logged(shown: Seq<char>) -> Seq<char> {
    "RequestId(String("@ + shown + "))"@
}

/// An error in the log; `shown` is its message as it is to be shown. The loop's own errors
/// carry no data.
pub open spec fn error_logged(code: i32, shown: Seq<char>) -> Seq<char> {
    "Some(ResponseError { code: "@ + signed_decimal(code as int) + ", message: "@ + shown
        + ", data: None })"@
}

/// A notification in the log; `shown` is its method as it is to be shown.
pub open spec fn method_logged(shown: Seq<char>) -> Seq<char> {
    "Notification { method: "@ + shown + " }"@
}

/// A response in the log; `id` and `error` are as they are to be shown.
pub open spec fn outcome_logged(id: Seq<char>, error: Seq<char>) -> Seq<char> {
    "Response { id: "@ + id + ", error: "@ + error + " }"@
}

/// Writes a textual id for the log.
pub fn log_text_id(shown: &str) -> (r: String)
    ensures
        r@ == text_id_logged(shown@),
{
    let mut r = String::from_str("RequestId(String(");
    r.append(shown);
    r.append("))");
    r
}

/// Writes an error for the log.
pub fn log_error(code: i32, shown: &str) -> (r: String)
    ensures
        r@ == error_logged(code, shown@),
{
    let mut r = String::from_str("Some(ResponseError { code: ");
    let code = i32_text(code);
    r.append(code.as_str());
    r.append(", message: ");
    r.append(shown);
    r.append(", data: None })");
    r
}

/// Writes a notification for the log.
pub fn log_method(shown: &str) -> (r: String)
    ensures
        r@ == method_logged(shown@),
{
    let mut r = String::from_str("Notification { method: ");
    r.append(shown);
    r.append(" }");
    r
}

/// Writes a response for the log.
pub fn log_outcome(id: &str, error: &str) -> (r: String)
    ensures
        r@ == outcome_logged(id@, error@),
{
    let mut r = String::from_str("Response { id: ");
    r.append(id);
    r.append(", error: ");
    r.append(error);
    r.append(" }");
    r
}

/// The id of a request in the log.
pub open spec fn id_logged(id: RequestIdView) -> Seq<char> {
    match id {
        RequestIdView::Number(n) => "RequestId(U64("@ + decimal(n as nat) + "))"@,
        RequestIdView::Text(text) => text_id_logged(debug_text(text)),
    }
}

/// What a shortened event reads in the log; `None` where the event is logged in full.
pub open spec fn summary_logged(summary: EventSummaryView) -> Option<Seq<char>> {
    match summary {
        EventSummaryView::Method(method) => Some(method_logged(debug_text(method))),
        EventSummaryView::Outcome(id, error) => Some(
            outcome_logged(
                id_logged(id),
                match error {
                    Some(e) => error_logged(e.code, debug_text(e.message)),
                    None => "None"@,
                },
            ),
        ),
        EventSummaryView::Full => None,
    }
}

fn log_id(id: &RequestId) -> (r: String)
    ensures
        r@ == id_logged(id@),
{
    match id {
        RequestId::Number(n) => {
            let mut r = String::from_str("RequestId(U64(");
            let n = u64_text(*n);
            r.append(n.as_str());
            r.append("))");
            r
        },
        RequestId::Text(text) => {
            let shown = write_debug(text.as_str());
            log_text_id(shown.as_str())
        },
    }
}

impl EventSummary {
    /// What a shortened event reads in the log. `None` says that the event is to be logged in
    /// full.
    pub fn to_text(&self) -> (r: Option<String>)
        ensures
            match r {
                Some(text) => summary_logged(self@) == Some(text@),
                None => summary_logged(self@) is None,
            },
    {
        match self {
            EventSummary::Method(method) => {
                let shown = write_debug(method.as_str());
                Some(log_method(shown.as_str()))
            },
            EventSummary::Outcome(id, error) => {
                let id = log_id(id);
                let error = match error {
                    Some(e) => {
                        let shown = write_debug(e.message.as_str());
                        log_error(e.code, shown.as_str())
                    },
                    None => String::from_str("None"),
                };
                Some(log_outcome(id.as_str(), error.as_str()))
            },
            EventSummary::Full => None,
        }
    }
}

// ---- The channels ----

/// What the loop heard on its channels.
#[derive(Debug)]
pub enum Selected {
    /// A message of the client.
    Message(Message),
    /// The end of the connection.
    ClientGone,
    /// A finished task.
    Task(Task),
    /// An event of the file system layer.
    Vfs,
    /// The end of the file system layer.
    VfsGone,
    /// An indexed library.
    Lib,
}

pub enum SelectedView {
    Message(MessageView),
    ClientGone,
    Task(TaskView),
    Vfs,
    VfsGone,
    Lib,
}

impl View for Selected {
    type V = SelectedView;

    open spec fn view(&self) -> SelectedView {
        match self {
            Selected::Message(m) => SelectedView::Message(m@),
            Selected::ClientGone => SelectedView::ClientGone,
            Selected::Task(t) => SelectedView::Task(t@),
            Selected::Vfs => SelectedView::Vfs,
            Selected::VfsGone => SelectedView::VfsGone,
            Selected::Lib => SelectedView::Lib,
        }
    }
}

/// What the loop does next.
#[derive(Debug)]
pub enum Next {
    /// Find out whether a request shuts the server down.
    CheckShutdown(Request),
    /// Take a turn with an event.
    TakeTurn(Event),
    /// Stop listening and deal with the tasks that are still to come.
    Drain,
    /// End with an error.
    Fail(LoopError),
}

pub enum NextView {
    CheckShutdown(RequestView),
    TakeTurn(EventView),
    Drain,
    Fail(LoopErrorView),
}

impl View for Next {
    type V = NextView;

    open spec fn view(&self) -> NextView {
        match self {
            Next::CheckShutdown(r) => NextView::CheckShutdown(r@),
            Next::TakeTurn(e) => NextView::TakeTurn(e@),
            Next::Drain => NextView::Drain,
            Next::Fail(e) => NextView::Fail(e@),
        }
    }
}

/// What the loop does with what it heard: a request may be the one that shuts the server
/// down, and a channel that has ended ends the loop.
pub open spec fn heard(selected: SelectedView) -> NextView {
    match selected {
        SelectedView::Message(MessageView::Request(req)) => NextView::CheckShutdown(req),
        SelectedView::Message(m) => NextView::TakeTurn(EventView::Msg(m)),
        SelectedView::ClientGone => NextView::Fail(LoopErrorView::ClientExited),
        SelectedView::Task(t) => NextView::TakeTurn(EventView::Task(t)),
        SelectedView::Vfs => NextView::TakeTurn(EventView::Vfs),
        SelectedView::VfsGone => NextView::Fail(LoopErrorView::VfsDied),
        SelectedView::Lib => NextView::TakeTurn(EventView::Lib),
    }
}

/// Decides what the loop does with what it heard.
pub fn on_selected(selected: Selected) -> (r: Next)
    ensures
        r@ == heard(selected@),
{
    match selected {
        Selected::Message(Message::Request(req)) => Next::CheckShutdown(req),
        Selected::Message(m) => Next::TakeTurn(Event::Msg(m)),
        Selected::ClientGone => Next::Fail(LoopError::ClientExited),
        Selected::Task(t) => Next::TakeTurn(Event::Task(t)),
        Selected::Vfs => Next::TakeTurn(Event::Vfs),
        Selected::VfsGone => Next::Fail(LoopError::VfsDied),
        Selected::Lib => Next::TakeTurn(Event::Lib),
    }
}

/// What the loop does with a request once it is known whether it shuts the server down.
pub open spec fn shutdown_checked(req: RequestView, shutdown: bool) -> NextView {
    if shutdown {
        NextView::Drain
    } else {
        NextView::TakeTurn(EventView::Msg(MessageView::Request(req)))
    }
}

/// Decides what the loop does with a request once it is known whether it shuts the server
/// down.
pub fn on_shutdown_checked(req: Request, shutdown: bool) -> (r: Next)
    ensures
        r@ == shutdown_checked(req@, shutdown),
{
    if shutdown {
        Next::Drain
    } else {
        Next::TakeTurn(Event::Msg(Message::Request(req)))
    }
}

// ---- A turn, from its event on ----

/// The state and the first step of a turn, or `None` where the event is a notification whose
/// parameters do not fit its method.
pub open spec fn turn_begun(
    s: LoopStateView,
    ext: ExtensionMethodsView,
    received: Instant,
    event: EventView,
) -> Option<(LoopStateView, StepView)> {
    match event {
        EventView::Task(task) => {
            let (pending_requests, actions) = task_done(s.pending_requests, task);
            Some(
                (
                    LoopStateView { pending_requests, ..s },
                    StepView {
                        actions: actions.push(ActionView::MaybeCollectGarbage),
                        turn: TurnView::ProcessChanges { state_changed: false },
                    },
                ),
            )
        },
        EventView::Vfs => Some((s, noticed(seq![ActionView::HandleVfsTask]))),
        EventView::Lib => Some(
            (
                LoopStateView { in_flight_libraries: (s.in_flight_libraries - 1) as usize, ..s },
                StepView {
                    actions: seq![ActionView::AddLibrary, ActionView::MaybeCollectGarbage],
                    turn: TurnView::ProcessChanges { state_changed: false },
                },
            ),
        ),
        EventView::Msg(MessageView::Request(req)) => Some(
            (
                LoopStateView {
                    pending_requests: pending_after_request(
                        s.pending_requests,
                        req,
                        received,
                        ext,
                    ),
                    ..s
                },
                request_step(dispatched(req, ext)),
            ),
        ),
        EventView::Msg(MessageView::Notification(not)) => match cast(not) {
            Some(params) => Some(
                (
                    LoopStateView {
                        pending_requests: pending_after_notification(s.pending_requests, params),
                        ..s
                    },
                    notified(s.pending_requests, params),
                ),
            ),
            None => None,
        },
        EventView::Msg(MessageView::Response(resp)) => Some(
            (
                response_taken(s, resp.id),
                StepView {
                    actions: if awaits(s, resp.id) {
                        seq![]
                    } else {
                        seq![ActionView::Report(Anomaly::UnexpectedResponse)]
                    },
                    turn: TurnView::ProcessChanges { state_changed: false },
                },
            ),
        ),
    }
}

/// The first step of a turn over a request.
pub open spec fn request_step(d: DispatchedView) -> StepView {
    match d {
        DispatchedView::Sync(job) => StepView { actions: seq![], turn: TurnView::RunSync(job) },
        DispatchedView::Pool(job) => StepView {
            actions: seq![ActionView::RunOnPool(job)],
            turn: TurnView::ProcessChanges { state_changed: false },
        },
        DispatchedView::Unknown(response) => StepView {
            actions: seq![
                ActionView::Report(Anomaly::UnknownRequest),
                ActionView::Send(MessageView::Response(response)),
            ],
            turn: TurnView::ProcessChanges { state_changed: false },
        },
    }
}

/// Whether the server awaits an answer with this id. The server's own ids are numbers.
pub open spec fn awaits(s: LoopStateView, id: RequestIdView) -> bool {
    id matches RequestIdView::Number(n) && s.pending_responses.contains(n)
}

/// The state once the client has answered a request of the server.
pub open spec fn response_taken(s: LoopStateView, id: RequestIdView) -> LoopStateView {
    match id {
        RequestIdView::Number(n) => LoopStateView {
            pending_responses: s.pending_responses.remove(n),
            ..s
        },
        RequestIdView::Text(_) => s,
    }
}

// ---- A turn, from an answer on ----

/// How the world stands.
#[derive(Debug)]
pub struct World {
    /// The number of source roots that have not been scanned yet.
    pub roots_to_scan: usize,
    /// The number of packages in each workspace.
    pub packages: Vec<usize>,
    /// Whether the user wants to be told that the workspace is loaded.
    pub notify_loaded: bool,
    pub publish_diagnostics: bool,
    pub publish_decorations: bool,
}

/// The answer that a turn waits for.
#[derive(Debug)]
pub enum Reply {
    /// What came of the handler.
    Handled(HandlerResult),
    /// The number of the file whose overlay changed, if it has one.
    File(Option<FileId>),
    /// The libraries to index.
    Libraries(Vec<Library>),
    /// How the world stands.
    World(World),
}

/// Whether an answer is the one that a turn waits for.
pub open spec fn answers(turn: TurnView, reply: Reply) -> bool {
    match turn {
        TurnView::RunSync(_) => reply is Handled,
        TurnView::AddFileOverlay { .. } => reply is File,
        TurnView::RemoveFileOverlay { .. } => reply is File,
        TurnView::ProcessChanges { .. } => reply is Libraries,
        TurnView::Inspect { .. } => reply is World,
        TurnView::Done => false,
        TurnView::Failed(_) => false,
    }
}

/// How many of `n` waiting libraries are started while `in_flight` are being indexed.
pub open spec fn started_count(in_flight: usize, n: nat) -> nat {
    if MAX_IN_FLIGHT_LIBS <= in_flight {
        0
    } else if n <= MAX_IN_FLIGHT_LIBS - in_flight {
        n
    } else {
        (MAX_IN_FLIGHT_LIBS - in_flight) as nat
    }
}

/// The state and the step once the world has taken in its changes: the new libraries join
/// those that wait, and as many as may be are started, the last one first.
pub open spec fn libraries_scheduled(
    s: LoopStateView,
    libraries: Seq<Library>,
    state_changed: bool,
) -> (LoopStateView, StepView) {
    let waiting = s.pending_libraries + libraries;
    let n = started_count(s.in_flight_libraries, waiting.len());
    (
        LoopStateView {
            in_flight_libraries: (s.in_flight_libraries + n) as usize,
            pending_libraries: waiting.take(waiting.len() - n),
            ..s
        },
        StepView {
            actions: Seq::new(
                n,
                |i: int| ActionView::IndexLibrary(waiting[waiting.len() - 1 - i]),
            ),
            turn: TurnView::Inspect { state_changed },
        },
    )
}

/// Whether the workspace has just become loaded: all roots are scanned, and no library
/// waits or is being indexed.
pub open spec fn just_loaded(s: LoopStateView, roots_to_scan: usize) -> bool {
    !s.workspace_loaded && roots_to_scan == 0 && s.pending_libraries.len() == 0
        && s.in_flight_libraries == 0
}

/// The sum of numbers.
pub open spec fn total(numbers: Seq<usize>) -> nat
    decreases numbers.len(),
{
    if numbers.len() == 0 {
        0
    } else {
        total(numbers.drop_last()) + numbers.last() as nat
    }
}

/// The message that the workspace is loaded.
pub open spec fn loaded_message(packages: nat) -> MessageView {
    shown(MessageType::Info, "workspace loaded, "@ + decimal(packages) + " rust packages"@)
}

/// The state and the last step of a turn: the user is told once that the workspace is
/// loaded, and the subscribed files are looked at again if something changed.
pub open spec fn inspected(s: LoopStateView, world: World, state_changed: bool) -> (
    LoopStateView,
    StepView,
) {
    let loaded = if just_loaded(s, world.roots_to_scan) && world.notify_loaded {
        seq![ActionView::Send(loaded_message(total(world.packages@)))]
    } else {
        seq![]
    };
    let updates = if state_changed {
        seq![
            ActionView::UpdateFileNotifications {
                subscriptions: s.subscriptions,
                publish_diagnostics: world.publish_diagnostics,
                publish_decorations: world.publish_decorations,
            },
        ]
    } else {
        seq![]
    };
    (
        LoopStateView {
            workspace_loaded: s.workspace_loaded || just_loaded(s, world.roots_to_scan),
            ..s
        },
        StepView { actions: loaded + updates, turn: TurnView::Done },
    )
}

/// The state and the step once a turn has been answered.
pub open spec fn turn_resumed(s: LoopStateView, turn: TurnView, reply: Reply) -> (
    LoopStateView,
    StepView,
) {
    match (turn, reply) {
        (TurnView::RunSync(job), Reply::Handled(result)) => {
            let (pending_requests, actions) = task_done(
                s.pending_requests,
                TaskView::Respond(response_of(job.id, result@)),
            );
            (
                LoopStateView { pending_requests, ..s },
                StepView { actions, turn: TurnView::ProcessChanges { state_changed: false } },
            )
        },
        (TurnView::AddFileOverlay { .. }, Reply::File(file_id)) => (
            LoopStateView { subscriptions: subs_after_open(s.subscriptions, file_id), ..s },
            noticed(seq![]),
        ),
        (TurnView::RemoveFileOverlay { uri, .. }, Reply::File(file_id)) => (
            LoopStateView { subscriptions: subs_after_close(s.subscriptions, file_id), ..s },
            noticed(seq![ActionView::Send(MessageView::Notification(no_diagnostics(uri)))]),
        ),
        (
            TurnView::ProcessChanges { state_changed },
            Reply::Libraries(libraries),
        ) => libraries_scheduled(s, libraries@, state_changed),
        (TurnView::Inspect { state_changed }, Reply::World(world)) => inspected(
            s,
            world,
            state_changed,
        ),
        _ => (s, StepView { actions: seq![], turn }),
    }
}

fn sum(numbers: &Vec<usize>) -> (r: usize)
    requires
        total(numbers@) <= usize::MAX,
    ensures
        r == total(numbers@),
{
    let mut r: usize = 0;
    let mut i: usize = 0;
    while i < numbers.len()
        invariant
            i <= numbers@.len(),
            r == total(numbers@.take(i as int)),
            total(numbers@) <= usize::MAX,
        decreases numbers@.len() - i,
    {
        proof {
            assert(numbers@.take(i + 1).drop_last() =~= numbers@.take(i as int));
            lemma_total_prefix(numbers@, i + 1);
        }
        r = r + numbers[i];
        i += 1;
    }
    assert(numbers@.take(i as int) =~= numbers@);
    r
}

proof fn lemma_total_prefix(numbers: Seq<usize>, n: int)
    requires
        0 <= n <= numbers.len(),
    ensures
        total(numbers.take(n)) <= total(numbers),
    decreases numbers.len(),
{
    if n == numbers.len() {
        assert(numbers.take(n) =~= numbers);
    } else {
        assert(numbers.drop_last().take(n) =~= numbers.take(n));
        lemma_total_prefix(numbers.drop_last(), n);
    }
}

impl LoopState {
    /// Begins a turn with an event. `None` says that the event is a notification whose
    /// parameters do not fit its method; nothing has changed then.
    pub fn loop_turn(
        &mut self,
        ext: &ExtensionMethods,
        loop_start: Instant,
        event: Event,
    ) -> (r: Option<Step>)
        requires
            old(self).wf(),
            event is Lib ==> old(self)@.in_flight_libraries > 0,
        ensures
            final(self).wf(),
            match turn_begun(old(self)@, ext@, loop_start, event@) {
                Some((after, step)) => final(self)@ == after && (r matches Some(s) && s@ == step),
                None => final(self)@ == old(self)@ && r is None,
            },
            event is Lib ==> {
                &&& r matches Some(step)
                &&& step.actions@.len() == 2
                &&& step.actions@[0] is AddLibrary
                &&& step.actions@[1] is MaybeCollectGarbage
                &&& final(self)@ == (LoopStateView {
                    in_flight_libraries: (old(self)@.in_flight_libraries - 1) as usize,
                    ..old(self)@
                })
            },
    {
        match event {
            Event::Task(task) => {
                let mut actions = on_task(task, &mut self.pending_requests);
                let ghost before = actions@;
                actions.push(Action::MaybeCollectGarbage);
                let step = Step { actions, turn: Turn::ProcessChanges { state_changed: false } };
                assert(step@.actions =~= action_views(before).push(
                    ActionView::MaybeCollectGarbage,
                ));
                Some(step)
            },
            Event::Vfs => {
                let mut actions: Vec<Action> = Vec::new();
                actions.push(Action::HandleVfsTask);
                let step = Step { actions, turn: Turn::ProcessChanges { state_changed: true } };
                assert(step@.actions =~= seq![ActionView::HandleVfsTask]);
                Some(step)
            },
            Event::Lib => {
                let mut actions: Vec<Action> = Vec::new();
                actions.push(Action::AddLibrary);
                actions.push(Action::MaybeCollectGarbage);
                self.in_flight_libraries = self.in_flight_libraries - 1;
                let step = Step { actions, turn: Turn::ProcessChanges { state_changed: false } };
                assert(step@.actions =~= seq![
                    ActionView::AddLibrary,
                    ActionView::MaybeCollectGarbage,
                ]);
                Some(step)
            },
            Event::Msg(Message::Request(req)) => {
                let d = on_request(&mut self.pending_requests, ext, loop_start, req);
                let mut actions: Vec<Action> = Vec::new();
                let turn = match d {
                    Dispatched::Sync(job) => Turn::RunSync(job),
                    Dispatched::Pool(job) => {
                        actions.push(Action::RunOnPool(job));
                        Turn::ProcessChanges { state_changed: false }
                    },
                    Dispatched::Unknown(response) => {
                        actions.push(Action::Report(Anomaly::UnknownRequest));
                        actions.push(Action::Send(Message::Response(response)));
                        Turn::ProcessChanges { state_changed: false }
                    },
                };
                let step = Step { actions, turn };
                assert(step@.actions =~= request_step(d@).actions);
                Some(step)
            },
            Event::Msg(Message::Notification(not)) => match notification_cast(&not) {
                Some(params) => Some(on_notification(&mut self.pending_requests, params)),
                None => None,
            },
            Event::Msg(Message::Response(resp)) => {
                let removed = match resp.id {
                    RequestId::Number(id) => remove_id(&mut self.pending_responses, id),
                    RequestId::Text(_) => false,
                };
                let mut actions: Vec<Action> = Vec::new();
                if !removed {
                    actions.push(Action::Report(Anomaly::UnexpectedResponse));
                }
                let step = Step { actions, turn: Turn::ProcessChanges { state_changed: false } };
                proof {
                    lemma_response_taken(old(self)@, resp.id@);
                    assert(self@ == response_taken(old(self)@, resp.id@));
                    assert(step@.actions =~= if awaits(old(self)@, resp.id@) {
                        seq![]
                    } else {
                        seq![ActionView::Report(Anomaly::UnexpectedResponse)]
                    });
                }
                Some(step)
            },
        }
    }

    /// Goes on with a turn once it has been answered.
    pub fn resume(&mut self, turn: Turn, reply: Reply) -> (r: Step)
        requires
            old(self).wf(),
            answers(turn@, reply),
            reply matches Reply::World(world) ==> just_loaded(old(self)@, world.roots_to_scan)
                ==> total(world.packages@) <= usize::MAX,
        ensures
            final(self).wf(),
            (final(self)@, r@) == turn_resumed(old(self)@, turn@, reply),
    {
        match (turn, reply) {
            (Turn::RunSync(job), Reply::Handled(result)) => {
                let task = result_to_task(job.id, result);
                let actions = on_task(task, &mut self.pending_requests);
                Step { actions, turn: Turn::ProcessChanges { state_changed: false } }
            },
            (Turn::AddFileOverlay { .. }, Reply::File(file_id)) => {
                let r = document_opened(&mut self.subscriptions, file_id);
                proof {
                    lemma_resubscribed(old(self)@, self.subscriptions@);
                }
                r
            },
            (Turn::RemoveFileOverlay { uri, .. }, Reply::File(file_id)) => {
                let r = document_closed(&mut self.subscriptions, uri, file_id);
                proof {
                    lemma_resubscribed(old(self)@, self.subscriptions@);
                }
                r
            },
            (Turn::ProcessChanges { state_changed }, Reply::Libraries(libraries)) => {
                self.schedule_libraries(libraries, state_changed)
            },
            (Turn::Inspect { state_changed }, Reply::World(world)) => {
                self.inspect(world, state_changed)
            },
            (turn, _) => Step { actions: Vec::new(), turn },
        }
    }

    /// Queues the libraries that came up, and starts as many of the queue as may be indexed
    /// at the same time.
    fn schedule_libraries(&mut self, libraries: Vec<Library>, state_changed: bool) -> (r: Step)
        requires
            old(self).wf(),
        ensures
            final(self).wf(),
            (final(self)@, r@) == libraries_scheduled(old(self)@, libraries@, state_changed),
    {
        let mut libraries = libraries;
        let ghost waiting = self.pending_libraries@ + libraries@;
        let ghost n = started_count(self.in_flight_libraries, waiting.len());
        let ghost added = libraries@;
        self.pending_libraries.append(&mut libraries);
        let mut actions: Vec<Action> = Vec::new();
        assert(self.pending_libraries@ =~= waiting.take(waiting.len() as int));
        while self.in_flight_libraries < MAX_IN_FLIGHT_LIBS && self.pending_libraries.len() > 0
            invariant
                n == started_count(old(self).in_flight_libraries, waiting.len()),
                old(self).in_flight_libraries <= MAX_IN_FLIGHT_LIBS,
                self.next_request_id == old(self).next_request_id,
                self.pending_responses == old(self).pending_responses,
                self.pending_requests == old(self).pending_requests,
                self.subscriptions == old(self).subscriptions,
                self.workspace_loaded == old(self).workspace_loaded,
                actions@.len() <= n,
                self.in_flight_libraries == old(self).in_flight_libraries + actions@.len(),
                self.pending_libraries@ == waiting.take(waiting.len() - actions@.len()),
                forall|i: int| #![trigger actions@[i]]
                    0 <= i < actions@.len() ==> actions@[i]@ == ActionView::IndexLibrary(
                        waiting[waiting.len() - 1 - i],
                    ),
            decreases self.pending_libraries@.len(),
        {
            match self.pending_libraries.pop() {
                Some(library) => {
                    self.in_flight_libraries = self.in_flight_libraries + 1;
                    actions.push(Action::IndexLibrary(library));
                    assert(self.pending_libraries@ =~= waiting.take(
                        waiting.len() - actions@.len(),
                    ));
                },
                None => {},
            }
        }
        let step = Step { actions, turn: Turn::Inspect { state_changed } };
        proof {
            let after = libraries_scheduled(old(self)@, added, state_changed);
            assert(step@.actions =~= after.1.actions);
            assert(self@ == after.0);
        }
        step
    }

    /// Ends a turn: looks whether the workspace has become loaded, and has the subscribed
    /// files looked at again if something changed.
    fn inspect(&mut self, world: World, state_changed: bool) -> (r: Step)
        requires
            old(self).wf(),
            just_loaded(old(self)@, world.roots_to_scan) ==> total(world.packages@) <= usize::MAX,
        ensures
            final(self).wf(),
            (final(self)@, r@) == inspected(old(self)@, world, state_changed),
    {
        let mut actions: Vec<Action> = Vec::new();
        if self.becomes_loaded(world.roots_to_scan) {
            self.workspace_loaded = true;
            let n_packages = sum(&world.packages);
            if world.notify_loaded {
                let mut msg = String::from_str("workspace loaded, ");
                let count = u64_text(n_packages as u64);
                msg.append(count.as_str());
                msg.append(" rust packages");
                actions.push(Action::Send(show_message(MessageType::Info, msg)));
            }
        }
        if state_changed {
            actions.push(
                Action::UpdateFileNotifications {
                    subscriptions: self.subscriptions.subscriptions(),
                    publish_diagnostics: world.publish_diagnostics,
                    publish_decorations: world.publish_decorations,
                },
            );
        }
        let step = Step { actions, turn: Turn::Done };
        assert(step@.actions =~= inspected(old(self)@, world, state_changed).1.actions);
        step
    }

    /// Deals with a task that finished after the last turn.
    pub fn drain(&mut self, task: Task) -> (r: Vec<Action>)
        requires
            old(self).wf(),
        ensures
            final(self).wf(),
            action_views(r@) == task_done(old(self)@.pending_requests, task@).1,
            final(self)@ == (LoopStateView {
                pending_requests: task_done(old(self)@.pending_requests, task@).0,
                ..old(self)@
            }),
    {
        on_task(task, &mut self.pending_requests)
    }

    /// Asks the client, where it is to watch files, to watch the sources of the workspaces'
    /// members.
    pub fn register_watchers(
        &mut self,
        use_client_watching: bool,
        roots: &Vec<WorkspaceRoot>,
    ) -> (r: Option<Message>)
        requires
            old(self).wf(),
            use_client_watching ==> old(self)@.next_request_id < u64::MAX,
        ensures
            final(self).wf(),
            !use_client_watching ==> r is None && final(self)@ == old(self)@,
            use_client_watching ==> {
                &&& final(self)@ == id_drawn(old(self)@)
                &&& r matches Some(m) && m@ == watch_request(
                    final(self)@.next_request_id,
                    roots@,
                )
            },
    {
        if use_client_watching {
            let globs = watched_globs(roots);
            let params = registration_params(
                "file-watcher",
                "workspace/didChangeWatchedFiles",
                globs,
            );
            let id = self.next_request_id();
            let request = request_new(id, "client/registerCapability", params);
            Some(Message::Request(request))
        } else {
            None
        }
    }
}

/// The request that asks the client to watch the sources of the workspaces' members.
pub open spec fn watch_request(id: u64, roots: Seq<WorkspaceRoot>) -> MessageView {
    MessageView::Request(
        RequestView {
            id: RequestIdView::Number(id),
            method: "client/registerCapability"@,
            params: registration_json(
                "file-watcher"@,
                "workspace/didChangeWatchedFiles"@,
                member_globs(roots),
            ),
        },
    )
}

proof fn lemma_resubscribed(s: LoopStateView, subscriptions: Seq<FileId>)
    requires
        s.wf(),
        subscriptions.no_duplicates(),
    ensures
        (LoopStateView { subscriptions, ..s }).wf(),
{
}

/// Taking an answer keeps the state well-formed.
pub proof fn lemma_response_taken(s: LoopStateView, id: RequestIdView)
    requires
        s.wf(),
    ensures
        response_taken(s, id).wf(),
{
    let after = response_taken(s, id);
    assert forall|n: u64| #[trigger] after.pending_responses.contains(n) implies 0 < n
        <= after.next_request_id by {
        assert(s.pending_responses.contains(n));
    }
}

} // verus!
