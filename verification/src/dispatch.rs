//! From requests to handlers, and from the handlers' outcomes to responses.

use std::time::Instant;

use vstd::prelude::*;

use crate::action::{action_views, Action, ActionView, Job, JobView, Task, TaskView};
use crate::lsp_error::LspError;
use crate::message::{
    err_response, error_number, ok_response, ErrorCode, Message, MessageView, Request, RequestId,
    RequestIdView, RequestView, Response, ResponseView,
};
use crate::method::{
    dispatch_order, is_sync, method_of, route, route_from, ExtensionMethods, ExtensionMethodsView,
    RequestKind,
};
use crate::pending_requests::{PendingRequest, PendingRequestView, PendingRequests};

verus! {

/// The pending requests and the actions once a task has been dealt with. A response goes
/// out only while its request is pending; a notification always goes out.
pub open spec fn task_done(
    pending: Map<RequestIdView, PendingRequestView>,
    task: TaskView,
) -> (Map<RequestIdView, PendingRequestView>, Seq<ActionView>) {
    match task {
        TaskView::Respond(response) => if pending.contains_key(response.id) {
            (
                pending.remove(response.id),
                seq![
                    ActionView::CompleteRequest(pending[response.id]),
                    ActionView::Send(MessageView::Response(response)),
                ],
            )
        } else {
            (pending, seq![])
        },
        TaskView::Notify(n) => (pending, seq![ActionView::Send(MessageView::Notification(n))]),
    }
}

/// Deals with a finished task.
pub fn on_task(task: Task, pending_requests: &mut PendingRequests) -> (r: Vec<Action>)
    requires
        old(pending_requests).wf(),
    ensures
        final(pending_requests).wf(),
        (final(pending_requests)@, action_views(r@)) == task_done(old(pending_requests)@, task@),
        task matches Task::Notify(n) ==> {
            &&& r@.len() == 1
            &&& (r@[0] matches Action::Send(Message::Notification(sent)) && sent == n)
            &&& final(pending_requests)@ == old(pending_requests)@
        },
        task matches Task::Respond(response) ==> {
            let due = old(pending_requests)@.contains_key(response.id@);
            &&& due ==> {
                &&& r@.len() == 2
                &&& (r@[0] matches Action::CompleteRequest(completed) && completed@ == old(
                    pending_requests,
                )@[response.id@])
                &&& (r@[1] matches Action::Send(Message::Response(sent)) && sent == response)
            }
            &&& !due ==> r@.len() == 0
            &&& final(pending_requests)@ == old(pending_requests)@.remove(response.id@)
        },
{
    let mut actions: Vec<Action> = Vec::new();
    match task {
        Task::Respond(response) => {
            let ghost before = pending_requests@;
            match pending_requests.finish(&response.id) {
                Some(completed) => {
                    actions.push(Action::CompleteRequest(completed));
                    actions.push(Action::Send(Message::Response(response)));
                },
                None => {
                    assert(before.remove(response.id@) =~= before);
                },
            }
        },
        Task::Notify(n) => {
            actions.push(Action::Send(Message::Notification(n)));
        },
    }
    assert(action_views(actions@) =~= task_done(old(pending_requests)@, task@).1);
    actions
}

/// What came of a handler.
#[derive(Debug)]
pub enum HandlerResult {
    /// It returned a result, here as JSON.
    Done(String),
    /// It returned an error that is meant for the client.
    Lsp(LspError),
    /// The world changed under it.
    Canceled,
    /// It failed otherwise; this is what the error says.
    Failed(String),
}

pub enum HandlerResultView {
    Done(Seq<char>),
    Lsp(i32, Seq<char>),
    Canceled,
    Failed(Seq<char>),
}

impl View for HandlerResult {
    type V = HandlerResultView;

    open spec fn view(&self) -> HandlerResultView {
        match self {
            HandlerResult::Done(json) => HandlerResultView::Done(json@),
            HandlerResult::Lsp(e) => HandlerResultView::Lsp(e.code, e.message@),
            HandlerResult::Canceled => HandlerResultView::Canceled,
            HandlerResult::Failed(message) => HandlerResultView::Failed(message@),
        }
    }
}

/// The response that a handler's outcome leads to. A handler that was canceled because the
/// world changed is answered like one that returned nothing: some clients put errors before
/// the user every time.
pub open spec fn response_of(id: RequestIdView, result: HandlerResultView) -> ResponseView {
    match result {
        HandlerResultView::Done(json) => ok_response(id, json),
        HandlerResultView::Lsp(code, message) => err_response(id, code, message),
        HandlerResultView::Canceled => ok_response(id, "null"@),
        HandlerResultView::Failed(message) => err_response(
            id,
            ErrorCode::InternalError.spec_number(),
            message,
        ),
    }
}

/// Turns the outcome of a handler into the task that answers the request.
pub fn result_to_task(id: RequestId, result: HandlerResult) -> (r: Task)
    ensures
        r@ == TaskView::Respond(response_of(id@, result@)),
        r matches Task::Respond(response) && response.id == id && match result {
            HandlerResult::Done(json) => response.result == Some(json) && response.error is None,
            HandlerResult::Lsp(e) => {
                &&& response.result is None
                &&& response.error matches Some(error) && error.code == e.code && error.message
                    == e.message
            },
            HandlerResult::Canceled => {
                &&& response.result matches Some(json) && json@ == "null"@
                &&& response.error is None
            },
            HandlerResult::Failed(message) => {
                &&& response.result is None
                &&& response.error matches Some(error) && error.code == -32603 && error.message
                    == message
            },
        },
{
    let response = match result {
        HandlerResult::Done(json) => Response::new_ok(id, json),
        HandlerResult::Lsp(e) => Response::new_err(id, e.code, e.message),
        HandlerResult::Canceled => Response::new_ok(id, String::from_str("null")),
        HandlerResult::Failed(message) => {
            Response::new_err(id, error_number(ErrorCode::InternalError), message)
        },
    };
    Task::Respond(response)
}

/// What is to be done with a request.
#[derive(Debug)]
pub enum Dispatched {
    /// Its handler runs on the loop's own thread.
    Sync(Job),
    /// Its handler runs on the thread pool.
    Pool(Job),
    /// No handler knows it; this is the answer.
    Unknown(Response),
}

pub enum DispatchedView {
    Sync(JobView),
    Pool(JobView),
    Unknown(ResponseView),
}

impl View for Dispatched {
    type V = DispatchedView;

    open spec fn view(&self) -> DispatchedView {
        match self {
            Dispatched::Sync(j) => DispatchedView::Sync(j@),
            Dispatched::Pool(j) => DispatchedView::Pool(j@),
            Dispatched::Unknown(r) => DispatchedView::Unknown(r@),
        }
    }
}

/// A request on its way to the handler of a kind.
pub open spec fn job_of(kind: RequestKind, req: RequestView) -> JobView {
    JobView { kind, id: req.id, params: req.params }
}

/// A request that is served by a kind.
pub open spec fn served_by(kind: RequestKind, req: RequestView) -> DispatchedView {
    if is_sync(kind) {
        DispatchedView::Sync(job_of(kind, req))
    } else {
        DispatchedView::Pool(job_of(kind, req))
    }
}

/// What is to be done with a request.
pub open spec fn dispatched(req: RequestView, ext: ExtensionMethodsView) -> DispatchedView {
    match route(req.method, ext) {
        Some(kind) => served_by(kind, req),
        None => DispatchedView::Unknown(refusal(req.id)),
    }
}

/// The pending requests once a request has been recorded.
pub open spec fn recorded(
    pending: Map<RequestIdView, PendingRequestView>,
    req: RequestView,
    received: Instant,
) -> Map<RequestIdView, PendingRequestView> {
    pending.insert(req.id, PendingRequestView { id: req.id, method: req.method, received })
}

/// The pending requests once a request has been dispatched: a request that some kind serves
/// is recorded, an unknown one is not.
pub open spec fn pending_after_request(
    pending: Map<RequestIdView, PendingRequestView>,
    req: RequestView,
    received: Instant,
    ext: ExtensionMethodsView,
) -> Map<RequestIdView, PendingRequestView> {
    match route(req.method, ext) {
        Some(_) => recorded(pending, req, received),
        None => pending,
    }
}

/// Offers a request to one kind after the other.
#[derive(Debug)]
pub struct PoolDispatcher {
    /// The request, until some kind takes it.
    req: Option<Request>,
    request_received: Instant,
    /// What the kind that took the request is to do with it.
    dispatched: Option<Dispatched>,
}

pub struct PoolDispatcherView {
    pub req: Option<RequestView>,
    pub request_received: Instant,
    pub dispatched: Option<DispatchedView>,
}

impl View for PoolDispatcher {
    type V = PoolDispatcherView;

    closed spec fn view(&self) -> PoolDispatcherView {
        PoolDispatcherView {
            req: match self.req {
                Some(req) => Some(req@),
                None => None,
            },
            request_received: self.request_received,
            dispatched: match self.dispatched {
                Some(d) => Some(d@),
                None => None,
            },
        }
    }
}

/// The dispatcher, the pending requests and the job once the request has been offered to a
/// kind. Where a request is left and has the kind's method, the kind takes it, and it is
/// recorded; otherwise nothing changes.
pub open spec fn parsed(
    d: PoolDispatcherView,
    pending: Map<RequestIdView, PendingRequestView>,
    kind: RequestKind,
    ext: ExtensionMethodsView,
) -> (PoolDispatcherView, Map<RequestIdView, PendingRequestView>, Option<JobView>) {
    match d.req {
        Some(req) => if req.method == method_of(kind, ext) {
            (
                PoolDispatcherView { req: None, ..d },
                recorded(pending, req, d.request_received),
                Some(job_of(kind, req)),
            )
        } else {
            (d, pending, None)
        },
        None => (d, pending, None),
    }
}

/// The dispatcher and the pending requests once the request has been offered to a kind whose
/// handler runs on the loop's own thread.
pub open spec fn offered_sync(
    d: PoolDispatcherView,
    pending: Map<RequestIdView, PendingRequestView>,
    kind: RequestKind,
    ext: ExtensionMethodsView,
) -> (PoolDispatcherView, Map<RequestIdView, PendingRequestView>) {
    match parsed(d, pending, kind, ext) {
        (after, pending, Some(job)) => (
            PoolDispatcherView { dispatched: Some(DispatchedView::Sync(job)), ..after },
            pending,
        ),
        (after, pending, None) => (after, pending),
    }
}

/// The dispatcher and the pending requests once the request has been offered to a kind whose
/// handler runs on the thread pool.
pub open spec fn offered_to_pool(
    d: PoolDispatcherView,
    pending: Map<RequestIdView, PendingRequestView>,
    kind: RequestKind,
    ext: ExtensionMethodsView,
) -> (PoolDispatcherView, Map<RequestIdView, PendingRequestView>) {
    match parsed(d, pending, kind, ext) {
        (after, pending, Some(job)) => (
            PoolDispatcherView { dispatched: Some(DispatchedView::Pool(job)), ..after },
            pending,
        ),
        (after, pending, None) => (after, pending),
    }
}

/// The answer to a request that no kind serves.
pub open spec fn refusal(id: RequestIdView) -> ResponseView {
    err_response(id, ErrorCode::MethodNotFound.spec_number(), "unknown request"@)
}

/// The dispatcher and the answer once all kinds have been offered the request: a request that
/// is left is refused.
pub open spec fn finished(d: PoolDispatcherView) -> (PoolDispatcherView, Option<ResponseView>) {
    match d.req {
        Some(req) => (PoolDispatcherView { req: None, ..d }, Some(refusal(req.id))),
        None => (d, None),
    }
}

impl PoolDispatcher {
    pub fn new(req: Request, request_received: Instant) -> (r: PoolDispatcher)
        ensures
            r@ == (PoolDispatcherView {
                req: Some(req@),
                request_received,
                dispatched: None,
            }),
    {
        PoolDispatcher { req: Some(req), request_received, dispatched: None }
    }

    /// Takes the request, if it is of the given kind, and records it as pending. Once some
    /// kind has taken the request, no further call takes it.
    pub fn parse(
        &mut self,
        pending_requests: &mut PendingRequests,
        kind: RequestKind,
        ext: &ExtensionMethods,
    ) -> (r: Option<Job>)
        requires
            old(pending_requests).wf(),
        ensures
            final(pending_requests).wf(),
            (final(self)@, final(pending_requests)@, job_view(r)) == parsed(
                old(self)@,
                old(pending_requests)@,
                kind,
                ext@,
            ),
            old(self)@.req is None ==> r is None && final(self)@ == old(self)@
                && final(pending_requests)@ == old(pending_requests)@,
    {
        let req = match self.req.take() {
            Some(req) => req,
            None => {
                return None;
            },
        };
        let method = kind.method(ext);
        if req.method == method {
            pending_requests.start(
                PendingRequest { id: req.id.clone(), method, received: self.request_received },
            );
            Some(Job { kind, id: req.id, params: req.params })
        } else {
            self.req = Some(req);
            None
        }
    }

    /// Dispatches the request onto the current thread.
    pub fn on_sync(
        &mut self,
        pending_requests: &mut PendingRequests,
        kind: RequestKind,
        ext: &ExtensionMethods,
    )
        requires
            old(pending_requests).wf(),
        ensures
            final(pending_requests).wf(),
            (final(self)@, final(pending_requests)@) == offered_sync(
                old(self)@,
                old(pending_requests)@,
                kind,
                ext@,
            ),
    {
        match self.parse(pending_requests, kind, ext) {
            Some(job) => {
                self.dispatched = Some(Dispatched::Sync(job));
            },
            None => {},
        }
    }

    /// Dispatches the request onto the thread pool.
    pub fn on(
        &mut self,
        pending_requests: &mut PendingRequests,
        kind: RequestKind,
        ext: &ExtensionMethods,
    )
        requires
            old(pending_requests).wf(),
        ensures
            final(pending_requests).wf(),
            (final(self)@, final(pending_requests)@) == offered_to_pool(
                old(self)@,
                old(pending_requests)@,
                kind,
                ext@,
            ),
    {
        match self.parse(pending_requests, kind, ext) {
            Some(job) => {
                self.dispatched = Some(Dispatched::Pool(job));
            },
            None => {},
        }
    }

    /// Answers the request that no kind has taken.
    pub fn finish(&mut self) -> (r: Option<Response>)
        ensures
            (final(self)@, response_view(r)) == finished(old(self)@),
    {
        match self.req.take() {
            None => None,
            Some(req) => Some(
                Response::new_err(
                    req.id,
                    error_number(ErrorCode::MethodNotFound),
                    String::from_str("unknown request"),
                ),
            ),
        }
    }
}

/// What an optional job says.
pub open spec fn job_view(job: Option<Job>) -> Option<JobView> {
    match job {
        Some(job) => Some(job@),
        None => None,
    }
}

/// What an optional response says.
pub open spec fn response_view(response: Option<Response>) -> Option<ResponseView> {
    match response {
        Some(response) => Some(response@),
        None => None,
    }
}

/// Decides what is to be done with a request, and records it as pending where a handler
/// is to answer it.
pub fn on_request(
    pending_requests: &mut PendingRequests,
    ext: &ExtensionMethods,
    request_received: Instant,
    req: Request,
) -> (r: Dispatched)
    requires
        old(pending_requests).wf(),
    ensures
        final(pending_requests).wf(),
        r@ == dispatched(req@, ext@),
        final(pending_requests)@ == pending_after_request(
            old(pending_requests)@,
            req@,
            request_received,
            ext@,
        ),
{
    let kinds = RequestKind::all();
    let mut dispatcher = PoolDispatcher::new(req, request_received);
    let ghost start = dispatcher@;
    let mut i: usize = 0;
    while i < kinds.len()
        invariant
            kinds@ == dispatch_order(),
            i <= kinds@.len(),
            pending_requests.wf(),
            start == (PoolDispatcherView { req: Some(req@), request_received, dispatched: None }),
            dispatcher@.req is Some ==> {
                &&& dispatcher@ == start
                &&& pending_requests@ == old(pending_requests)@
                &&& route(req@.method, ext@) == route_from(req@.method, ext@, i as int)
            },
            dispatcher@.req is None ==> {
                &&& dispatcher@.dispatched == Some(dispatched(req@, ext@))
                &&& route(req@.method, ext@) is Some
                &&& pending_requests@ == recorded(
                    old(pending_requests)@,
                    req@,
                    request_received,
                )
            },
        decreases kinds@.len() - i,
    {
        let kind = kinds[i];
        if kind.runs_on_loop() {
            dispatcher.on_sync(pending_requests, kind, ext);
        } else {
            dispatcher.on(pending_requests, kind, ext);
        }
        i += 1;
    }
    match dispatcher.finish() {
        Some(response) => Dispatched::Unknown(response),
        None => dispatcher.dispatched.unwrap(),
    }
}

} // verus!
