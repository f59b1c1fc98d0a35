//! What holds of the loop as a whole, whatever the client and the world do.

use std::time::Instant;

use vstd::prelude::*;

use crate::action::{ActionView, Anomaly, JobView, Library, StepView, TaskView, TurnView};
use crate::dispatch::{
    dispatched, finished, job_of, parsed, recorded, refusal, response_of, task_done,
    DispatchedView, HandlerResult, HandlerResultView, PoolDispatcherView,
};
use crate::main_loop::{
    answers, awaits, heard, id_drawn, initial_state, inspected, just_loaded,
    lemma_response_taken, libraries_scheduled, loaded_message, response_taken, shutdown_checked,
    total, turn_begun, turn_resumed, EventView, LoopStateView, NextView, Reply, SelectedView,
    World, MAX_IN_FLIGHT_LIBS, THREADPOOL_SIZE,
};
use crate::message::{
    err_response, MessageView, NotificationView, RequestIdView, RequestView, ResponseErrorView,
    ResponseView,
};
use crate::method::{
    dispatch_order, is_sync, method_of, route, route_from, ExtensionMethodsView, RequestKind,
};
use crate::notification::{
    bad_uri, cast, changed, lemma_leading_paths, no_diagnostics, noticed, notified, resolved,
    subs_after_close, subs_after_open, watched_changed, NotificationParamsView,
};
use crate::params::file_path;
use crate::pending_requests::PendingRequestView;
use crate::startup::{member_globs, source_glob, WorkspaceRoot};
use crate::subscriptions::FileId;
use crate::updates::{all_updates, file_updates, FileUpdate};

verus! {

// ---- The invariant ----

/// A fresh loop is well-formed.
pub proof fn initial_state_is_well_formed()
    ensures
        initial_state().wf(),
{
}

/// Whatever the event, the beginning of a turn leaves the state well-formed.
pub proof fn events_keep_the_invariant(
    s: LoopStateView,
    ext: ExtensionMethodsView,
    received: Instant,
    event: EventView,
)
    requires
        s.wf(),
        event is Lib ==> s.in_flight_libraries > 0,
    ensures
        turn_begun(s, ext, received, event) matches Some((after, _)) ==> after.wf(),
{
    if let EventView::Msg(MessageView::Response(resp)) = event {
        lemma_response_taken(s, resp.id);
    }
}

/// Whatever the answer, going on with a turn leaves the state well-formed.
pub proof fn answers_keep_the_invariant(s: LoopStateView, turn: TurnView, reply: Reply)
    requires
        s.wf(),
        answers(turn, reply),
    ensures
        turn_resumed(s, turn, reply).0.wf(),
{
    match reply {
        Reply::File(file_id) => {
            if let Some(file_id) = file_id {
                lemma_open_keeps_no_duplicates(s.subscriptions, file_id);
                lemma_close_keeps_no_duplicates(s.subscriptions, file_id);
            }
        },
        _ => {},
    }
}

proof fn lemma_open_keeps_no_duplicates(subs: Seq<FileId>, file_id: FileId)
    requires
        subs.no_duplicates(),
    ensures
        subs_after_open(subs, Some(file_id)).no_duplicates(),
{
}

proof fn lemma_close_keeps_no_duplicates(subs: Seq<FileId>, file_id: FileId)
    requires
        subs.no_duplicates(),
    ensures
        subs_after_close(subs, Some(file_id)).no_duplicates(),
        !subs_after_close(subs, Some(file_id)).contains(file_id),
{
    subs.index_of_first_ensures(file_id);
}

/// However many libraries there are, three threads of the pool are free of indexing, so that
/// one is always ready to react to input.
pub proof fn threads_stay_free(s: LoopStateView)
    requires
        s.wf(),
    ensures
        s.in_flight_libraries + 3 <= THREADPOOL_SIZE,
{
}

// ---- Libraries ----

/// No library is lost or indexed twice: those that are started, in reverse, follow those
/// that still wait, and together they are those that waited before and the new ones.
pub proof fn libraries_are_conserved(
    s: LoopStateView,
    libraries: Seq<Library>,
    state_changed: bool,
)
    requires
        s.wf(),
    ensures
        ({
            let (after, step) = libraries_scheduled(s, libraries, state_changed);
            let started = step.actions.map_values(|a: ActionView| a->IndexLibrary_0);
            &&& forall|i: int|
                0 <= i < step.actions.len() ==> (#[trigger] step.actions[i]) is IndexLibrary
            &&& after.pending_libraries + started.reverse() == s.pending_libraries + libraries
            &&& after.in_flight_libraries == s.in_flight_libraries + started.len()
        }),
{
    let (after, step) = libraries_scheduled(s, libraries, state_changed);
    let started = step.actions.map_values(|a: ActionView| a->IndexLibrary_0);
    assert(after.pending_libraries + started.reverse() =~= s.pending_libraries + libraries);
}

/// A library waits only while as many as may be are being indexed.
pub proof fn libraries_wait_only_for_threads(
    s: LoopStateView,
    libraries: Seq<Library>,
    state_changed: bool,
)
    requires
        s.wf(),
    ensures
        ({
            let (after, _) = libraries_scheduled(s, libraries, state_changed);
            after.pending_libraries.len() > 0 ==> after.in_flight_libraries == MAX_IN_FLIGHT_LIBS
        }),
{
}

// ---- Requests to the client ----

/// A drawn id is new: it is greater than all that are awaited, and it is awaited itself.
pub proof fn drawn_ids_are_fresh(s: LoopStateView)
    requires
        s.wf(),
        s.next_request_id < u64::MAX,
    ensures
        ({
            let after = id_drawn(s);
            &&& after.next_request_id > s.next_request_id
            &&& forall|id: u64| #[trigger]
                s.pending_responses.contains(id) ==> id < after.next_request_id
            &&& awaits(after, RequestIdView::Number(after.next_request_id))
        }),
{
}

/// No event and no answer takes an id back, so no two requests to the client share one.
pub proof fn ids_are_never_taken_back(
    s: LoopStateView,
    ext: ExtensionMethodsView,
    received: Instant,
    event: EventView,
    turn: TurnView,
    reply: Reply,
)
    ensures
        turn_begun(s, ext, received, event) matches Some((after, _)) ==> after.next_request_id
            == s.next_request_id,
        turn_resumed(s, turn, reply).0.next_request_id == s.next_request_id,
{
}

/// An answer of the client counts once: after it, a second one with the same id is reported
/// and changes nothing.
pub proof fn answers_count_once(
    s: LoopStateView,
    ext: ExtensionMethodsView,
    received: Instant,
    first: ResponseView,
    second: ResponseView,
)
    requires
        first.id == second.id,
    ensures
        ({
            let (after, _) = turn_begun(
                s,
                ext,
                received,
                EventView::Msg(MessageView::Response(first)),
            )->0;
            turn_begun(after, ext, received, EventView::Msg(MessageView::Response(second)))
                == Some(
                (
                    after,
                    StepView {
                        actions: seq![ActionView::Report(Anomaly::UnexpectedResponse)],
                        turn: TurnView::ProcessChanges { state_changed: false },
                    },
                ),
            )
        }),
{
    let after = response_taken(s, first.id);
    assert(response_taken(after, second.id).pending_responses =~= after.pending_responses);
}

/// An answer that the server does not await changes nothing.
pub proof fn unexpected_answers_change_nothing(s: LoopStateView, id: RequestIdView)
    requires
        !awaits(s, id),
    ensures
        response_taken(s, id) == s,
{
    assert(response_taken(s, id).pending_responses =~= s.pending_responses);
}

// ---- Requests of the client ----

/// A request that no kind serves is answered at once, under its own id, and leaves no trace.
pub proof fn unknown_requests_are_refused(
    s: LoopStateView,
    ext: ExtensionMethodsView,
    received: Instant,
    req: RequestView,
)
    requires
        forall|kind: RequestKind| req.method != #[trigger] method_of(kind, ext),
    ensures
        turn_begun(s, ext, received, EventView::Msg(MessageView::Request(req))) == Some(
            (
                s,
                StepView {
                    actions: seq![
                        ActionView::Report(Anomaly::UnknownRequest),
                        ActionView::Send(
                            MessageView::Response(
                                err_response(req.id, -32601i32, "unknown request"@),
                            ),
                        ),
                    ],
                    turn: TurnView::ProcessChanges { state_changed: false },
                },
            ),
        ),
{
    lemma_route_from(req.method, ext, 0);
}

/// What is served has the method of its kind, and what is not served has that of none.
pub proof fn lemma_route_from(method: Seq<char>, ext: ExtensionMethodsView, from: int)
    requires
        0 <= from,
    ensures
        match route_from(method, ext, from) {
            Some(kind) => method == method_of(kind, ext),
            None => forall|i: int|
                from <= i < dispatch_order().len() ==> method != method_of(
                    #[trigger] dispatch_order()[i],
                    ext,
                ),
        },
    decreases dispatch_order().len() - from,
{
    if from < dispatch_order().len() && method != method_of(dispatch_order()[from], ext) {
        lemma_route_from(method, ext, from + 1);
    }
}

/// The kinds are offered a request in an order that holds each of them.
pub proof fn every_kind_is_offered(kind: RequestKind)
    ensures
        dispatch_order().contains(kind),
{
    let order = dispatch_order();
    assert(order[0] == RequestKind::CollectGarbage);
    assert(order[1] == RequestKind::JoinLines);
    assert(order[2] == RequestKind::OnEnter);
    assert(order[3] == RequestKind::SelectionRange);
    assert(order[4] == RequestKind::FindMatchingBrace);
    assert(order[5] == RequestKind::AnalyzerStatus);
    assert(order[6] == RequestKind::SyntaxTree);
    assert(order[7] == RequestKind::OnTypeFormatting);
    assert(order[8] == RequestKind::DocumentSymbol);
    assert(order[9] == RequestKind::WorkspaceSymbol);
    assert(order[10] == RequestKind::GotoDefinition);
    assert(order[11] == RequestKind::GotoImplementation);
    assert(order[12] == RequestKind::GotoTypeDefinition);
    assert(order[13] == RequestKind::ParentModule);
    assert(order[14] == RequestKind::Runnables);
    assert(order[15] == RequestKind::Decorations);
    assert(order[16] == RequestKind::Completion);
    assert(order[17] == RequestKind::CodeAction);
    assert(order[18] == RequestKind::CodeLens);
    assert(order[19] == RequestKind::CodeLensResolve);
    assert(order[20] == RequestKind::FoldingRange);
    assert(order[21] == RequestKind::SignatureHelp);
    assert(order[22] == RequestKind::Hover);
    assert(order[23] == RequestKind::PrepareRename);
    assert(order[24] == RequestKind::Rename);
    assert(order[25] == RequestKind::References);
    assert(order[26] == RequestKind::Formatting);
    assert(order[27] == RequestKind::DocumentHighlight);
    assert(order[28] == RequestKind::InlayHints);
}

/// Of the kinds that have a request's method, the first in the order serves it.
pub proof fn the_first_matching_kind_serves(
    method: Seq<char>,
    ext: ExtensionMethodsView,
    i: int,
)
    requires
        0 <= i < dispatch_order().len(),
        method == method_of(dispatch_order()[i], ext),
        forall|j: int| 0 <= j < i ==> method != method_of(#[trigger] dispatch_order()[j], ext),
    ensures
        route(method, ext) == Some(dispatch_order()[i]),
{
    lemma_route_skips(method, ext, 0, i);
}

proof fn lemma_route_skips(method: Seq<char>, ext: ExtensionMethodsView, from: int, to: int)
    requires
        0 <= from <= to < dispatch_order().len(),
        forall|j: int| from <= j < to ==> method != method_of(#[trigger] dispatch_order()[j], ext),
    ensures
        route_from(method, ext, from) == route_from(method, ext, to),
    decreases to - from,
{
    if from < to {
        assert(method != method_of(dispatch_order()[from], ext));
        lemma_route_skips(method, ext, from + 1, to);
    }
}

/// A request is refused if and only if no kind has its method.
pub proof fn refusals_are_for_unknown_methods(req: RequestView, ext: ExtensionMethodsView)
    ensures
        dispatched(req, ext) is Unknown <==> forall|kind: RequestKind|
            req.method != #[trigger] method_of(kind, ext),
        dispatched(req, ext) is Unknown ==> dispatched(req, ext) == DispatchedView::Unknown(
            refusal(req.id),
        ),
{
    lemma_route_from(req.method, ext, 0);
    if route(req.method, ext) is None {
        assert forall|kind: RequestKind| req.method != #[trigger] method_of(kind, ext) by {
            every_kind_is_offered(kind);
            let i = choose|i: int| 0 <= i < dispatch_order().len() && dispatch_order()[i] == kind;
            assert(dispatch_order()[i] == kind);
        }
    }
}

/// A request is claimed once: after a kind has taken it, no kind takes it again, the same one
/// neither, and a further offer changes nothing.
pub proof fn requests_are_claimed_once(
    d: PoolDispatcherView,
    pending: Map<RequestIdView, PendingRequestView>,
    first: RequestKind,
    second: RequestKind,
    ext: ExtensionMethodsView,
)
    requires
        parsed(d, pending, first, ext).2 is Some,
    ensures
        ({
            let (after, pending_after, _) = parsed(d, pending, first, ext);
            &&& after.req is None
            &&& parsed(after, pending_after, second, ext) == (
                after,
                pending_after,
                None::<JobView>,
            )
        }),
{
}

/// A request is refused exactly when it is left over, under its own id, and once: a second
/// end of the dispatch refuses nothing and changes nothing.
pub proof fn requests_are_refused_once(d: PoolDispatcherView)
    ensures
        ({
            let (after, answer) = finished(d);
            &&& answer is Some <==> d.req is Some
            &&& d.req matches Some(req) ==> answer == Some(
                err_response(req.id, -32601i32, "unknown request"@),
            )
            &&& after == (PoolDispatcherView { req: None, ..d })
            &&& finished(after) == (after, None::<ResponseView>)
        }),
{
}

/// A request that some kind has taken is not refused.
pub proof fn claimed_requests_are_not_refused(
    d: PoolDispatcherView,
    pending: Map<RequestIdView, PendingRequestView>,
    kind: RequestKind,
    ext: ExtensionMethodsView,
)
    requires
        parsed(d, pending, kind, ext).2 is Some,
    ensures
        finished(parsed(d, pending, kind, ext).0).1 is None,
{
}

/// Whether the protocol itself names the method of a kind.
pub open spec fn is_standard(kind: RequestKind) -> bool {
    match kind {
        RequestKind::CollectGarbage => false,
        RequestKind::JoinLines => false,
        RequestKind::OnEnter => false,
        RequestKind::FindMatchingBrace => false,
        RequestKind::AnalyzerStatus => false,
        RequestKind::SyntaxTree => false,
        RequestKind::ParentModule => false,
        RequestKind::Runnables => false,
        RequestKind::Decorations => false,
        RequestKind::InlayHints => false,
        _ => true,
    }
}

/// What tells the protocol's methods apart.
spec fn marks(method: Seq<char>) -> (nat, char, char) {
    (method.len(), method[13], method[15])
}

/// The protocol has a method of its own for each of its kinds.
proof fn lemma_standard_methods_differ(a: RequestKind, b: RequestKind, ext: ExtensionMethodsView)
    requires
        is_standard(a),
        is_standard(b),
        method_of(a, ext) == method_of(b, ext),
    ensures
        a == b,
{
    reveal_strlit("textDocument/selectionRange");
    assert(marks("textDocument/selectionRange"@) == (27nat, 's', 'l'));
    reveal_strlit("textDocument/onTypeFormatting");
    assert(marks("textDocument/onTypeFormatting"@) == (29nat, 'o', 'T'));
    reveal_strlit("textDocument/documentSymbol");
    assert(marks("textDocument/documentSymbol"@) == (27nat, 'd', 'c'));
    reveal_strlit("workspace/symbol");
    assert(marks("workspace/symbol"@) == (16nat, 'b', 'l'));
    reveal_strlit("textDocument/definition");
    assert(marks("textDocument/definition"@) == (23nat, 'd', 'f'));
    reveal_strlit("textDocument/implementation");
    assert(marks("textDocument/implementation"@) == (27nat, 'i', 'p'));
    reveal_strlit("textDocument/typeDefinition");
    assert(marks("textDocument/typeDefinition"@) == (27nat, 't', 'p'));
    reveal_strlit("textDocument/completion");
    assert(marks("textDocument/completion"@) == (23nat, 'c', 'm'));
    reveal_strlit("textDocument/codeAction");
    assert(marks("textDocument/codeAction"@) == (23nat, 'c', 'd'));
    reveal_strlit("textDocument/codeLens");
    assert(marks("textDocument/codeLens"@) == (21nat, 'c', 'd'));
    reveal_strlit("codeLens/resolve");
    assert(marks("codeLens/resolve"@) == (16nat, 'l', 'e'));
    reveal_strlit("textDocument/foldingRange");
    assert(marks("textDocument/foldingRange"@) == (25nat, 'f', 'l'));
    reveal_strlit("textDocument/signatureHelp");
    assert(marks("textDocument/signatureHelp"@) == (26nat, 's', 'g'));
    reveal_strlit("textDocument/hover");
    assert(marks("textDocument/hover"@) == (18nat, 'h', 'v'));
    reveal_strlit("textDocument/prepareRename");
    assert(marks("textDocument/prepareRename"@) == (26nat, 'p', 'e'));
    reveal_strlit("textDocument/rename");
    assert(marks("textDocument/rename"@) == (19nat, 'r', 'n'));
    reveal_strlit("textDocument/references");
    assert(marks("textDocument/references"@) == (23nat, 'r', 'f'));
    reveal_strlit("textDocument/formatting");
    assert(marks("textDocument/formatting"@) == (23nat, 'f', 'r'));
    reveal_strlit("textDocument/documentHighlight");
    assert(marks("textDocument/documentHighlight"@) == (30nat, 'd', 'c'));
}

/// Where the names of the extensions differ from each other and from those of the protocol,
/// a request with a kind's method is served by that kind.
pub proof fn requests_reach_their_kind(kind: RequestKind, ext: ExtensionMethodsView)
    requires
        forall|a: RequestKind, b: RequestKind|
            a != b && !is_standard(a) ==> #[trigger] method_of(a, ext) != #[trigger] method_of(
                b,
                ext,
            ),
    ensures
        route(method_of(kind, ext), ext) == Some(kind),
{
    every_kind_is_offered(kind);
    lemma_route_from(method_of(kind, ext), ext, 0);
    let i = choose|i: int| 0 <= i < dispatch_order().len() && dispatch_order()[i] == kind;
    assert(dispatch_order()[i] == kind);
    let served = route(method_of(kind, ext), ext)->0;
    if is_standard(kind) && is_standard(served) {
        lemma_standard_methods_differ(kind, served, ext);
    }
}

/// A request whose handler runs on the loop's own thread is answered in the turn that
/// receives it, under its own id, and is not pending afterwards.
pub proof fn sync_requests_are_answered_in_their_turn(
    s: LoopStateView,
    ext: ExtensionMethodsView,
    received: Instant,
    req: RequestView,
    kind: RequestKind,
    result: HandlerResult,
)
    requires
        route(req.method, ext) == Some(kind),
        is_sync(kind),
    ensures
        ({
            let (during, step) = turn_begun(
                s,
                ext,
                received,
                EventView::Msg(MessageView::Request(req)),
            )->0;
            let (after, answer) = turn_resumed(during, step.turn, Reply::Handled(result));
            &&& step.turn == TurnView::RunSync(job_of(kind, req))
            &&& answer.actions == seq![
                ActionView::CompleteRequest(
                    PendingRequestView { id: req.id, method: req.method, received },
                ),
                ActionView::Send(
                    MessageView::Response(
                        ResponseView {
                            id: req.id,
                            result: match result {
                                HandlerResult::Done(json) => Some(json@),
                                HandlerResult::Canceled => Some("null"@),
                                _ => None,
                            },
                            error: match result {
                                HandlerResult::Lsp(e) => Some(
                                    ResponseErrorView { code: e.code, message: e.message@ },
                                ),
                                HandlerResult::Failed(message) => Some(
                                    ResponseErrorView { code: -32603i32, message: message@ },
                                ),
                                _ => None,
                            },
                        },
                    ),
                ),
            ]
            &&& after == (LoopStateView {
                pending_requests: s.pending_requests.remove(req.id),
                ..s
            })
        }),
{
    assert(recorded(s.pending_requests, req, received).remove(req.id)
        =~= s.pending_requests.remove(req.id));
}

/// A request whose handler runs on the pool is pending from its turn on, and its answer goes
/// out when it comes, as long as the request is still pending then.
pub proof fn pool_requests_are_answered_later(
    s: LoopStateView,
    ext: ExtensionMethodsView,
    received: Instant,
    req: RequestView,
    kind: RequestKind,
    later: LoopStateView,
    at: Instant,
    result: HandlerResultView,
)
    requires
        route(req.method, ext) == Some(kind),
        !is_sync(kind),
        later.pending_requests.contains_key(req.id),
    ensures
        ({
            let (after, step) = turn_begun(
                s,
                ext,
                received,
                EventView::Msg(MessageView::Request(req)),
            )->0;
            &&& step.actions == seq![ActionView::RunOnPool(job_of(kind, req))]
            &&& after.pending_requests == s.pending_requests.insert(
                req.id,
                PendingRequestView { id: req.id, method: req.method, received },
            )
        }),
        ({
            let task = TaskView::Respond(response_of(req.id, result));
            let (after, step) = turn_begun(later, ext, at, EventView::Task(task))->0;
            &&& step.actions == seq![
                ActionView::CompleteRequest(later.pending_requests[req.id]),
                ActionView::Send(
                    MessageView::Response(
                        ResponseView {
                            id: req.id,
                            result: match result {
                                HandlerResultView::Done(json) => Some(json),
                                HandlerResultView::Canceled => Some("null"@),
                                _ => None,
                            },
                            error: match result {
                                HandlerResultView::Lsp(code, message) => Some(
                                    ResponseErrorView { code, message },
                                ),
                                HandlerResultView::Failed(message) => Some(
                                    ResponseErrorView { code: -32603i32, message },
                                ),
                                _ => None,
                            },
                        },
                    ),
                ),
                ActionView::MaybeCollectGarbage,
            ]
            &&& after.pending_requests == later.pending_requests.remove(req.id)
        }),
{
    let task = TaskView::Respond(response_of(req.id, result));
    assert(task_done(later.pending_requests, task).1.push(ActionView::MaybeCollectGarbage)
        =~= seq![
        ActionView::CompleteRequest(later.pending_requests[req.id]),
        ActionView::Send(MessageView::Response(response_of(req.id, result))),
        ActionView::MaybeCollectGarbage,
    ]);
}

/// Whatever a handler returns, the response bears the id of the request, and it holds either
/// a result or an error.
pub proof fn responses_bear_the_id(id: RequestIdView, result: HandlerResultView)
    ensures
        response_of(id, result).id == id,
        response_of(id, result).result is Some <==> response_of(id, result).error is None,
{
}

/// Something that happens to the loop's state.
pub enum Move {
    /// A turn begins with an event.
    Begin(ExtensionMethodsView, Instant, EventView),
    /// A turn goes on with an answer.
    Resume(TurnView, Reply),
    /// A task finishes after the last turn.
    Drain(TaskView),
}

/// The state and the actions that a move leads to.
pub open spec fn moved(s: LoopStateView, m: Move) -> (LoopStateView, Seq<ActionView>) {
    match m {
        Move::Begin(ext, received, event) => match turn_begun(s, ext, received, event) {
            Some((after, step)) => (after, step.actions),
            None => (s, seq![]),
        },
        Move::Resume(turn, reply) => {
            let (after, step) = turn_resumed(s, turn, reply);
            (after, step.actions)
        },
        Move::Drain(task) => {
            let (pending_requests, actions) = task_done(s.pending_requests, task);
            (LoopStateView { pending_requests, ..s }, actions)
        },
    }
}

/// The state after a sequence of moves.
pub open spec fn after_moves(s: LoopStateView, moves: Seq<Move>) -> LoopStateView
    decreases moves.len(),
{
    if moves.len() == 0 {
        s
    } else {
        moved(after_moves(s, moves.drop_last()), moves.last()).0
    }
}

/// Whether a move brings in a request under an id, or the outcome of its handler on the loop's
/// own thread.
pub open spec fn asks(m: Move, id: RequestIdView) -> bool {
    match m {
        Move::Begin(_, _, EventView::Msg(MessageView::Request(req))) => req.id == id,
        Move::Resume(TurnView::RunSync(job), _) => job.id == id,
        _ => false,
    }
}

/// Whether some action sends a response with an id.
pub open spec fn responds(actions: Seq<ActionView>, id: RequestIdView) -> bool {
    exists|i: int|
        0 <= i < actions.len() && ((#[trigger] actions[i]) matches ActionView::Send(
            MessageView::Response(response),
        ) && response.id == id)
}

/// Whether no move of a sequence asks for an answer under an id.
pub open spec fn none_asks(moves: Seq<Move>, id: RequestIdView) -> bool {
    forall|i: int| 0 <= i < moves.len() ==> !asks(#[trigger] moves[i], id)
}

/// Whether no move of a sequence sends a response with an id.
pub open spec fn none_responds(s: LoopStateView, moves: Seq<Move>, id: RequestIdView) -> bool {
    forall|i: int|
        0 <= i < moves.len() ==> !responds(
            moved(after_moves(s, moves.take(i)), #[trigger] moves[i]).1,
            id,
        )
}

/// A request that is not pending stays so, and nothing is answered under its id, unless the
/// client sends a request under it.
#[verifier::spinoff_prover]
pub proof fn answered_requests_stay_answered(
    s: LoopStateView,
    ext: ExtensionMethodsView,
    received: Instant,
    event: EventView,
    id: RequestIdView,
)
    requires
        !s.pending_requests.contains_key(id),
        event matches EventView::Msg(MessageView::Request(req)) ==> req.id != id,
    ensures
        turn_begun(s, ext, received, event) matches Some((after, step)) ==> {
            &&& !after.pending_requests.contains_key(id)
            &&& !responds(step.actions, id)
        },
{
}

/// Within a turn, a request that is not pending stays so, and nothing is answered under its
/// id, unless it is the one whose handler the turn runs.
pub proof fn answered_requests_stay_answered_within_a_turn(
    s: LoopStateView,
    turn: TurnView,
    reply: Reply,
    id: RequestIdView,
)
    requires
        !s.pending_requests.contains_key(id),
        turn matches TurnView::RunSync(job) ==> job.id != id,
    ensures
        ({
            let (after, step) = turn_resumed(s, turn, reply);
            &&& !after.pending_requests.contains_key(id)
            &&& !responds(step.actions, id)
        }),
{
}

/// However the loop goes on, nothing is answered under an id that is not pending until the
/// client sends a request under it.
#[verifier::spinoff_prover]
pub proof fn only_pending_requests_are_answered(
    s: LoopStateView,
    moves: Seq<Move>,
    id: RequestIdView,
)
    requires
        !s.pending_requests.contains_key(id),
        none_asks(moves, id),
    ensures
        !after_moves(s, moves).pending_requests.contains_key(id),
        none_responds(s, moves, id),
    decreases moves.len(),
{
    if moves.len() > 0 {
        let init = moves.drop_last();
        let last = moves.last();
        let before = after_moves(s, init);
        assert forall|i: int| 0 <= i < init.len() implies !asks(#[trigger] init[i], id) by {
            assert(init[i] == moves[i]);
        }
        only_pending_requests_are_answered(s, init, id);
        assert(!asks(moves[moves.len() - 1], id));
        assert(!moved(before, last).0.pending_requests.contains_key(id) && !responds(
            moved(before, last).1,
            id,
        )) by {
            match last {
                Move::Begin(ext, received, event) => {
                    answered_requests_stay_answered(before, ext, received, event, id);
                },
                Move::Resume(turn, reply) => {
                    answered_requests_stay_answered_within_a_turn(before, turn, reply, id);
                },
                Move::Drain(task) => {},
            }
        }
        assert forall|i: int| 0 <= i < moves.len() implies !responds(
            moved(after_moves(s, moves.take(i)), #[trigger] moves[i]).1,
            id,
        ) by {
            if i < init.len() {
                assert(moves.take(i) =~= init.take(i));
                assert(init[i] == moves[i]);
            } else {
                assert(moves.take(i) =~= init);
            }
        }
    }
}

/// A request is answered at most once: after its answer, however the loop goes on, no other
/// response with its id goes out until the client sends another request under it.
pub proof fn requests_are_answered_once(
    s: LoopStateView,
    ext: ExtensionMethodsView,
    received: Instant,
    response: ResponseView,
    moves: Seq<Move>,
)
    requires
        none_asks(moves, response.id),
    ensures
        ({
            let task = EventView::Task(TaskView::Respond(response));
            let (after, _) = turn_begun(s, ext, received, task)->0;
            none_responds(after, moves, response.id)
        }),
{
    let task = EventView::Task(TaskView::Respond(response));
    let (after, _) = turn_begun(s, ext, received, task)->0;
    only_pending_requests_are_answered(after, moves, response.id);
}

/// A pending request that the client cancels is answered with the error for canceled
/// requests. After that, however the loop goes on, no other response with its id goes out
/// until the client sends another request under it: the answer that its handler still
/// produces is dropped.
pub proof fn canceled_requests_are_answered_once(
    s: LoopStateView,
    ext: ExtensionMethodsView,
    received: Instant,
    not: NotificationView,
    id: RequestIdView,
    moves: Seq<Move>,
)
    requires
        cast(not) == Some(NotificationParamsView::Cancel(id)),
        s.pending_requests.contains_key(id),
        none_asks(moves, id),
    ensures
        ({
            let (after, step) = turn_begun(
                s,
                ext,
                received,
                EventView::Msg(MessageView::Notification(not)),
            )->0;
            &&& step.actions == seq![
                ActionView::Send(
                    MessageView::Response(err_response(id, -32800i32, "canceled by client"@)),
                ),
            ]
            &&& none_responds(after, moves, id)
        }),
{
    let event = EventView::Msg(MessageView::Notification(not));
    let (after, _) = turn_begun(s, ext, received, event)->0;
    only_pending_requests_are_answered(after, moves, id);
}

/// A pending request stays pending, with its record as it is, until a response with its id
/// goes out, the client cancels it, or the client sends another request under its id.
pub proof fn requests_stay_pending(
    s: LoopStateView,
    ext: ExtensionMethodsView,
    received: Instant,
    event: EventView,
    id: RequestIdView,
)
    requires
        s.pending_requests.contains_key(id),
        event matches EventView::Task(TaskView::Respond(response)) ==> response.id != id,
        event matches EventView::Msg(MessageView::Request(req)) ==> req.id != id,
        event matches EventView::Msg(MessageView::Notification(not)) ==> cast(not) != Some(
            NotificationParamsView::Cancel(id),
        ),
    ensures
        turn_begun(s, ext, received, event) matches Some((after, _)) ==> {
            &&& after.pending_requests.contains_key(id)
            &&& after.pending_requests[id] == s.pending_requests[id]
        },
{
}

/// Within a turn, a pending request stays pending, with its record as it is, unless it is
/// the one whose handler the turn runs.
pub proof fn requests_stay_pending_within_a_turn(
    s: LoopStateView,
    turn: TurnView,
    reply: Reply,
    id: RequestIdView,
)
    requires
        s.pending_requests.contains_key(id),
        turn matches TurnView::RunSync(job) ==> job.id != id,
    ensures
        ({
            let (after, _) = turn_resumed(s, turn, reply);
            &&& after.pending_requests.contains_key(id)
            &&& after.pending_requests[id] == s.pending_requests[id]
        }),
{
}

/// To cancel a request that is not pending does nothing.
pub proof fn late_cancelations_do_nothing(
    s: LoopStateView,
    ext: ExtensionMethodsView,
    received: Instant,
    not: NotificationView,
    id: RequestIdView,
)
    requires
        cast(not) == Some(NotificationParamsView::Cancel(id)),
        !s.pending_requests.contains_key(id),
    ensures
        ({
            let (after, step) = turn_begun(
                s,
                ext,
                received,
                EventView::Msg(MessageView::Notification(not)),
            )->0;
            after == s && step.actions == Seq::<ActionView>::empty()
        }),
{
    assert(s.pending_requests.remove(id) =~= s.pending_requests);
}

// ---- Turns ----

/// How many answers a turn still waits for, at most.
pub open spec fn answers_left(turn: TurnView) -> nat {
    match turn {
        TurnView::RunSync(_) => 3,
        TurnView::AddFileOverlay { .. } => 3,
        TurnView::RemoveFileOverlay { .. } => 3,
        TurnView::ProcessChanges { .. } => 2,
        TurnView::Inspect { .. } => 1,
        TurnView::Done => 0,
        TurnView::Failed(_) => 0,
    }
}

/// Every turn ends: each answer brings it closer to its end.
pub proof fn turns_end(s: LoopStateView, turn: TurnView, reply: Reply)
    requires
        answers(turn, reply),
    ensures
        answers_left(turn_resumed(s, turn, reply).1.turn) < answers_left(turn),
{
}

/// Whether a turn will have the subscribed files looked at again.
pub open spec fn refreshes(turn: TurnView) -> bool {
    match turn {
        TurnView::AddFileOverlay { .. } => true,
        TurnView::RemoveFileOverlay { .. } => true,
        TurnView::ProcessChanges { state_changed } => state_changed,
        TurnView::Inspect { state_changed } => state_changed,
        _ => false,
    }
}

/// Notifications and file system events have the subscribed files looked at again, unless
/// they end the loop; no other event does.
pub proof fn changes_refresh_the_files(
    s: LoopStateView,
    ext: ExtensionMethodsView,
    received: Instant,
    event: EventView,
)
    ensures
        turn_begun(s, ext, received, event) matches Some((_, step)) ==> step.turn is Failed || (
        refreshes(step.turn) <==> (event is Vfs || event matches EventView::Msg(
            MessageView::Notification(_),
        ))),
{
}

/// What a turn is to do about the subscribed files stays decided to its end, and there it is
/// done: the subscribed files are looked at again, all of them, or not at all.
pub proof fn refreshes_are_carried_out(s: LoopStateView, turn: TurnView, reply: Reply)
    requires
        answers(turn, reply),
    ensures
        ({
            let (after, step) = turn_resumed(s, turn, reply);
            &&& !(turn is Inspect) ==> refreshes(step.turn) == refreshes(turn)
            &&& turn is Inspect ==> (refreshes(turn) <==> exists|i: int|
                0 <= i < step.actions.len() && (
                #[trigger] step.actions[i]) is UpdateFileNotifications)
            &&& forall|i: int|
                0 <= i < step.actions.len() && (#[trigger] step.actions[i])
                    is UpdateFileNotifications
                    ==> step.actions[i]->UpdateFileNotifications_subscriptions
                    == after.subscriptions
        }),
{
    let (after, step) = turn_resumed(s, turn, reply);
    if let (TurnView::Inspect { state_changed }, Reply::World(world)) = (turn, reply) {
        if state_changed {
            assert(step.actions.last() is UpdateFileNotifications);
        }
    }
}

/// A notification that ends the loop leaves the loop's state as it was.
pub proof fn failures_leave_the_state(
    s: LoopStateView,
    ext: ExtensionMethodsView,
    received: Instant,
    event: EventView,
)
    ensures
        turn_begun(s, ext, received, event) matches Some((after, step)) ==> step.turn is Failed
            ==> after == s,
{
}

// ---- The workspace ----

/// Once loaded, the workspace stays loaded, whatever happens.
pub proof fn workspace_stays_loaded(
    s: LoopStateView,
    ext: ExtensionMethodsView,
    received: Instant,
    event: EventView,
    turn: TurnView,
    reply: Reply,
)
    requires
        s.workspace_loaded,
    ensures
        turn_begun(s, ext, received, event) matches Some((after, _)) ==> after.workspace_loaded,
        turn_resumed(s, turn, reply).0.workspace_loaded,
{
}

/// The user is told that the workspace is loaded at the moment it becomes so, if they want to
/// be, and never again.
pub proof fn loading_is_announced_once(
    s: LoopStateView,
    world: World,
    state_changed: bool,
    packages: nat,
)
    ensures
        ({
            let (after, step) = inspected(s, world, state_changed);
            &&& step.actions.contains(ActionView::Send(loaded_message(packages)))
                ==> !s.workspace_loaded && after.workspace_loaded && world.notify_loaded
            &&& !s.workspace_loaded && after.workspace_loaded && world.notify_loaded
                ==> step.actions.contains(
                ActionView::Send(loaded_message(total(world.packages@))),
            )
        }),
{
    let (after, step) = inspected(s, world, state_changed);
    if just_loaded(s, world.roots_to_scan) && world.notify_loaded {
        assert(step.actions[0] == ActionView::Send(loaded_message(total(world.packages@))));
    }
}

/// The workspace becomes loaded only when every root is scanned and no library waits or is
/// being indexed.
pub proof fn loading_means_nothing_is_left(s: LoopStateView, world: World, state_changed: bool)
    requires
        !s.workspace_loaded,
    ensures
        inspected(s, world, state_changed).0.workspace_loaded <==> world.roots_to_scan == 0
            && s.pending_libraries.len() == 0 && s.in_flight_libraries == 0,
{
}

// ---- Documents ----

/// An open document is subscribed; when it is closed again, the subscriptions are what they
/// were before it was opened.
pub proof fn closing_undoes_opening(subs: Seq<FileId>, file_id: FileId)
    requires
        subs.no_duplicates(),
        !subs.contains(file_id),
    ensures
        subs_after_open(subs, Some(file_id)).contains(file_id),
        subs_after_close(subs_after_open(subs, Some(file_id)), Some(file_id)) == subs,
{
    let open = subs.push(file_id);
    assert(open.last() == file_id);
    assert(open.contains(file_id));
    open.index_of_first_ensures(file_id);
    assert(open.remove(subs.len() as int) =~= subs);
}

/// A document that is opened a second time is subscribed once, and one close ends it.
pub proof fn closing_ends_the_subscription(subs: Seq<FileId>, file_id: FileId)
    requires
        subs.no_duplicates(),
    ensures
        subs_after_open(subs_after_open(subs, Some(file_id)), Some(file_id)) == subs_after_open(
            subs,
            Some(file_id),
        ),
        !subs_after_close(subs, Some(file_id)).contains(file_id),
{
    lemma_close_keeps_no_duplicates(subs, file_id);
    if !subs.contains(file_id) {
        assert(subs.push(file_id).last() == file_id);
    }
}

/// Only the opening and the closing of a document change the subscriptions.
pub proof fn only_documents_change_the_subscriptions(
    s: LoopStateView,
    ext: ExtensionMethodsView,
    received: Instant,
    event: EventView,
    turn: TurnView,
    reply: Reply,
)
    requires
        !(turn is AddFileOverlay),
        !(turn is RemoveFileOverlay),
    ensures
        turn_begun(s, ext, received, event) matches Some((after, _)) ==> after.subscriptions
            == s.subscriptions,
        turn_resumed(s, turn, reply).0.subscriptions == s.subscriptions,
{
}

/// A closed document is left without diagnostics, whether or not its file was known.
pub proof fn closing_clears_diagnostics(
    s: LoopStateView,
    path: Seq<u8>,
    uri: Seq<char>,
    file_id: Option<FileId>,
)
    ensures
        turn_resumed(
            s,
            TurnView::RemoveFileOverlay { path, uri },
            Reply::File(file_id),
        ).1.actions == seq![ActionView::Send(MessageView::Notification(no_diagnostics(uri)))],
{
}

/// Where every changed file has a path, the file system layer is told of all of them, in
/// order.
pub proof fn all_changed_files_are_told(
    pending: Map<RequestIdView, PendingRequestView>,
    uris: Seq<Seq<char>>,
)
    requires
        forall|i: int| 0 <= i < uris.len() ==> file_path(#[trigger] uris[i]) is Some,
    ensures
        notified(pending, NotificationParamsView::DidChangeWatchedFiles(uris)) == noticed(
            uris.map_values(|uri: Seq<char>| ActionView::NotifyChanged(file_path(uri)->0)),
        ),
{
    let files = resolved(uris);
    lemma_leading_paths(files, files.len() as int);
    assert(watched_changed(files).actions =~= uris.map_values(
        |uri: Seq<char>| ActionView::NotifyChanged(file_path(uri)->0),
    ));
}

/// The first changed file without a path ends the loop; the file system layer has been told
/// of those before it, and of no other.
pub proof fn a_bad_uri_stops_the_telling(
    pending: Map<RequestIdView, PendingRequestView>,
    uris: Seq<Seq<char>>,
    n: int,
)
    requires
        0 <= n < uris.len(),
        forall|i: int| 0 <= i < n ==> file_path(#[trigger] uris[i]) is Some,
        file_path(uris[n]) is None,
    ensures
        notified(pending, NotificationParamsView::DidChangeWatchedFiles(uris)) == bad_uri(
            uris.take(n).map_values(
                |uri: Seq<char>| ActionView::NotifyChanged(file_path(uri)->0),
            ),
            uris[n],
        ),
{
    let files = resolved(uris);
    lemma_leading_paths(files, n);
    assert(watched_changed(files).actions =~= uris.take(n).map_values(
        |uri: Seq<char>| ActionView::NotifyChanged(file_path(uri)->0),
    ));
}

/// Of several changes only the last one counts.
pub proof fn the_last_change_counts(
    uri: Seq<char>,
    path: Option<Seq<u8>>,
    changes: Seq<Seq<char>>,
)
    requires
        changes.len() > 0,
    ensures
        changed(uri, path, changes) == changed(uri, path, seq![changes.last()]),
{
}

/// The updates are about the subscribed files and no others, and of the kinds that are to be
/// published.
pub proof fn updates_are_about_the_subscriptions(
    subs: Seq<FileId>,
    publish_diagnostics: bool,
    publish_decorations: bool,
    file_id: FileId,
)
    ensures
        all_updates(subs, publish_diagnostics, publish_decorations).contains(
            FileUpdate::Diagnostics(file_id),
        ) <==> publish_diagnostics && subs.contains(file_id),
        all_updates(subs, publish_diagnostics, publish_decorations).contains(
            FileUpdate::Decorations(file_id),
        ) <==> publish_decorations && subs.contains(file_id),
    decreases subs.len(),
{
    if subs.len() > 0 {
        let init = subs.drop_last();
        updates_are_about_the_subscriptions(
            init,
            publish_diagnostics,
            publish_decorations,
            file_id,
        );
        let before = all_updates(init, publish_diagnostics, publish_decorations);
        let own = file_updates(subs.last(), publish_diagnostics, publish_decorations);
        lemma_contains_in_sum(before, own, FileUpdate::Diagnostics(file_id));
        lemma_contains_in_sum(before, own, FileUpdate::Decorations(file_id));
        lemma_own_updates(subs.last(), publish_diagnostics, publish_decorations, file_id);
        assert(subs =~= init.push(subs.last()));
        assert(subs.contains(file_id) <==> init.contains(file_id) || subs.last() == file_id) by {
            if init.contains(file_id) {
                let i = choose|i: int| 0 <= i < init.len() && init[i] == file_id;
                assert(subs[i] == file_id);
            }
            if subs.contains(file_id) {
                let i = choose|i: int| 0 <= i < subs.len() && subs[i] == file_id;
                if i < init.len() {
                    assert(init[i] == file_id);
                }
            }
        }
    }
}

proof fn lemma_contains_in_sum(a: Seq<FileUpdate>, b: Seq<FileUpdate>, x: FileUpdate)
    ensures
        (a + b).contains(x) <==> a.contains(x) || b.contains(x),
{
    let sum = a + b;
    if a.contains(x) {
        let i = choose|i: int| 0 <= i < a.len() && a[i] == x;
        assert(sum[i] == x);
    }
    if b.contains(x) {
        let i = choose|i: int| 0 <= i < b.len() && b[i] == x;
        assert(sum[a.len() + i] == x);
    }
    if sum.contains(x) {
        let i = choose|i: int| 0 <= i < sum.len() && sum[i] == x;
        if i < a.len() {
            assert(a[i] == x);
        } else {
            assert(b[i - a.len()] == x);
        }
    }
}

proof fn lemma_own_updates(
    own: FileId,
    publish_diagnostics: bool,
    publish_decorations: bool,
    file_id: FileId,
)
    ensures
        file_updates(own, publish_diagnostics, publish_decorations).contains(
            FileUpdate::Diagnostics(file_id),
        ) <==> publish_diagnostics && own == file_id,
        file_updates(own, publish_diagnostics, publish_decorations).contains(
            FileUpdate::Decorations(file_id),
        ) <==> publish_decorations && own == file_id,
{
    let updates = file_updates(own, publish_diagnostics, publish_decorations);
    if publish_diagnostics {
        assert(updates[0] == FileUpdate::Diagnostics(own));
    }
    if publish_decorations {
        assert(updates.last() == FileUpdate::Decorations(own));
    }
}

// ---- Before the first turn ----

/// The sources below a root are watched if and only if the root belongs to the workspace.
pub proof fn only_members_are_watched(roots: Seq<WorkspaceRoot>, glob: Seq<char>)
    ensures
        member_globs(roots).contains(glob) <==> exists|i: int|
            0 <= i < roots.len() && (#[trigger] roots[i]).is_member && glob == source_glob(
                roots[i].path@,
            ),
    decreases roots.len(),
{
    if roots.len() > 0 {
        let init = roots.drop_last();
        let last = roots.last();
        let before = member_globs(init);
        only_members_are_watched(init, glob);
        if before.contains(glob) {
            let i = choose|i: int|
                0 <= i < init.len() && (#[trigger] init[i]).is_member && glob == source_glob(
                    init[i].path@,
                );
            assert(roots[i] == init[i]);
            let k = choose|k: int| 0 <= k < before.len() && before[k] == glob;
            assert(member_globs(roots)[k] == glob);
        }
        if last.is_member {
            assert(member_globs(roots).last() == source_glob(last.path@));
            assert(roots[roots.len() - 1] == last);
        }
        if exists|i: int|
            0 <= i < roots.len() && (#[trigger] roots[i]).is_member && glob == source_glob(
                roots[i].path@,
            ) {
            let i = choose|i: int|
                0 <= i < roots.len() && (#[trigger] roots[i]).is_member && glob == source_glob(
                    roots[i].path@,
                );
            if i < init.len() {
                assert(init[i] == roots[i]);
            }
        }
        if member_globs(roots).contains(glob) && !before.contains(glob) {
            let k = choose|k: int|
                0 <= k < member_globs(roots).len() && member_globs(roots)[k] == glob;
            if k < before.len() {
                assert(before[k] == glob);
            }
        }
    }
}

// ---- Shutdown ----

/// Only a request can shut the server down, and every request is looked at before it gets
/// a turn; a request that does not shut the server down gets its turn unchanged.
pub proof fn requests_are_checked_before_their_turn(selected: SelectedView, req: RequestView)
    ensures
        heard(selected) !is Drain,
        heard(selected) != NextView::TakeTurn(EventView::Msg(MessageView::Request(req))),
        heard(selected) == NextView::CheckShutdown(req) <==> selected == SelectedView::Message(
            MessageView::Request(req),
        ),
        shutdown_checked(req, true) is Drain,
        shutdown_checked(req, false) == NextView::TakeTurn(
            EventView::Msg(MessageView::Request(req)),
        ),
{
}

} // verus!
