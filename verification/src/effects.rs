//! What each operation does, spelled out from its inputs to its results.

use std::time::Instant;

use vstd::prelude::*;

use crate::action::{
    loop_error_text, ActionView, Anomaly, JobView, Library, LoopErrorView, StepView, TaskView,
    TurnView,
};
use crate::dispatch::{
    dispatched, finished, offered_sync, offered_to_pool, parsed, pending_after_request,
    refusal, response_of, task_done, DispatchedView, HandlerResult, HandlerResultView,
    PoolDispatcherView,
};
use crate::laws::{every_kind_is_offered, lemma_route_from, the_first_matching_kind_serves};
use crate::lsp_error::lsp_error_text;
use crate::main_loop::{
    answers, awaits, error_logged, heard, id_drawn, id_logged, initial_state, inspected,
    just_loaded, libraries_scheduled, loaded_message, method_logged, outcome_logged,
    response_taken, shutdown_checked, summary_logged, summary_of, text_id_logged, total,
    turn_begun, turn_resumed, watch_request, EventSummaryView, EventView, LoopStateView, NextView,
    Reply, SelectedView, World, MAX_IN_FLIGHT_LIBS, THREADPOOL_SIZE,
};
use crate::message::{
    err_response, ok_response, ErrorCode, MessageView, NotificationView, RequestIdView,
    RequestView, ResponseErrorView, ResponseView,
};
use crate::method::{
    dispatch_order, is_sync, method_of, route, ExtensionMethodsView, RequestKind,
};
use crate::notification::{
    bad_uri, canceled, cast, changed, closed_document, lemma_leading_paths, no_diagnostics,
    noticed, notified, opened, pending_after_notification, resolved, subs_after_close,
    subs_after_open, watched_changed, NotificationParamsView,
};
use crate::params::{
    cancel_params, debug_text, did_change_params, did_change_watched_files_params,
    did_close_params, did_open_params, file_path, is_did_change_configuration_params, json_char,
    json_chars, json_string, no_diagnostics_json, watchers_json, MessageType,
};
use crate::pending_requests::PendingRequestView;
use crate::startup::{
    first_failure, location_links, member_globs, shown, source_glob, ClientCapabilities,
    WorkspaceRoot,
};
use crate::subscriptions::{lemma_removal_filters, subs_added, subs_removed, FileId};
use crate::text::{decimal, signed_decimal};
use crate::updates::{all_updates, update_method, FileUpdate};

verus! {

// ---- Numbers ----

/// The number that decimal digits stand for.
pub open spec fn read_decimal(digits: Seq<char>) -> int
    decreases digits.len(),
{
    if digits.len() == 0 {
        0
    } else {
        read_decimal(digits.drop_last()) * 10 + (digits.last() as int - '0' as int)
    }
}

/// A written number reads back as itself; it is made of digits and has no leading zero.
pub proof fn decimals_read_back(n: nat)
    ensures
        read_decimal(decimal(n)) == n,
        decimal(n).len() > 0,
        decimal(n).len() > 1 ==> decimal(n)[0] != '0',
        n > 0 ==> decimal(n)[0] != '0',
        forall|i: int|
            0 <= i < decimal(n).len() ==> '0' as int <= (#[trigger] decimal(n)[i]) as int
                <= '9' as int,
    decreases n,
{
    if n < 10 {
        let s = decimal(n);
        assert(s.drop_last() =~= Seq::empty());
        assert(read_decimal(s.drop_last()) == 0);
    } else {
        decimals_read_back(n / 10);
        let init = decimal(n / 10);
        assert(decimal(n).drop_last() =~= init);
        assert(decimal(n)[0] == init[0]);
        assert forall|i: int| 0 <= i < decimal(n).len() implies '0' as int <= (
        #[trigger] decimal(n)[i]) as int <= '9' as int by {
            if i < init.len() {
                assert(decimal(n)[i] == init[i]);
            }
        }
    }
}

/// A negative number is its absolute value behind a minus sign.
pub proof fn signs_are_written(n: int)
    ensures
        n >= 0 ==> signed_decimal(n) == decimal(n as nat),
        n < 0 ==> signed_decimal(n) == seq!['-'] + decimal((-n) as nat),
{
}

// ---- Texts for people ----

/// The sentence of an error holds its code and its message, whatever they are.
pub proof fn errors_read_as_sentences(code: i32, message: Seq<char>, uri: Seq<char>)
    ensures
        lsp_error_text(code, message) == "Language Server request failed with "@ + signed_decimal(
            code as int,
        ) + ". ("@ + message + ")"@,
        loop_error_text(LoopErrorView::InvalidUri(uri)) == "invalid uri: "@ + uri,
        loop_error_text(LoopErrorView::EmptyChanges) == "empty changes"@,
        loop_error_text(LoopErrorView::ClientExited) == "client exited without shutdown"@,
        loop_error_text(LoopErrorView::VfsDied) == "vfs died"@,
{
}

/// The notification that shows a message holds the number of its type and the message.
pub proof fn messages_are_shown_whole(message: Seq<char>, packages: nat)
    ensures
        shown(MessageType::Error, message) == MessageView::Notification(
            NotificationView {
                method: "window/showMessage"@,
                params: "{\"type\":"@ + seq!['1'] + ",\"message\":"@ + json_string(message) + "}"@,
            },
        ),
        shown(MessageType::Warning, message) == MessageView::Notification(
            NotificationView {
                method: "window/showMessage"@,
                params: "{\"type\":"@ + seq!['2'] + ",\"message\":"@ + json_string(message) + "}"@,
            },
        ),
        shown(MessageType::Info, message) == MessageView::Notification(
            NotificationView {
                method: "window/showMessage"@,
                params: "{\"type\":"@ + seq!['3'] + ",\"message\":"@ + json_string(message) + "}"@,
            },
        ),
        shown(MessageType::Log, message) == MessageView::Notification(
            NotificationView {
                method: "window/showMessage"@,
                params: "{\"type\":"@ + seq!['4'] + ",\"message\":"@ + json_string(message) + "}"@,
            },
        ),
        loaded_message(packages) == MessageView::Notification(
            NotificationView {
                method: "window/showMessage"@,
                params: "{\"type\":"@ + seq!['3'] + ",\"message\":"@ + json_string(
                    "workspace loaded, "@ + decimal(packages) + " rust packages"@,
                ) + "}"@,
            },
        ),
{
}

/// Long notifications and responses are logged by their method, or by their id and error;
/// everything else is logged whole.
pub proof fn logs_show_what_they_are_about(
    event: EventView,
    ext: ExtensionMethodsView,
    n: NotificationView,
    r: ResponseView,
    number: u64,
    text: Seq<char>,
    e: ResponseErrorView,
)
    ensures
        summary_of(EventView::Task(TaskView::Respond(r)), ext) == EventSummaryView::Outcome(
            r.id,
            r.error,
        ),
        summary_of(EventView::Task(TaskView::Notify(n)), ext) == if n.method
            == ext.publish_decorations || n.method == "textDocument/publishDiagnostics"@ {
            EventSummaryView::Method(n.method)
        } else {
            EventSummaryView::Full
        },
        summary_of(EventView::Msg(MessageView::Notification(n)), ext) == if n.method
            == "textDocument/didOpen"@ || n.method == "textDocument/didChange"@ {
            EventSummaryView::Method(n.method)
        } else {
            EventSummaryView::Full
        },
        !(event is Task) && !(event matches EventView::Msg(MessageView::Notification(_)))
            ==> summary_of(event, ext) == EventSummaryView::Full,
        summary_logged(EventSummaryView::Method(text)) == Some(
            "Notification { method: "@ + debug_text(text) + " }"@,
        ),
        summary_logged(EventSummaryView::Full) is None,
        summary_logged(EventSummaryView::Outcome(r.id, None)) == Some(
            "Response { id: "@ + id_logged(r.id) + ", error: "@ + "None"@ + " }"@,
        ),
        summary_logged(EventSummaryView::Outcome(r.id, Some(e))) == Some(
            "Response { id: "@ + id_logged(r.id) + ", error: "@ + (
            "Some(ResponseError { code: "@ + signed_decimal(e.code as int) + ", message: "@
                + debug_text(e.message) + ", data: None })"@) + " }"@,
        ),
        id_logged(RequestIdView::Number(number)) == "RequestId(U64("@ + decimal(number as nat)
            + "))"@,
        id_logged(RequestIdView::Text(text)) == "RequestId(String("@ + debug_text(text) + "))"@,
{
}

/// What is shown stands in the log as it is.
pub proof fn logs_hold_what_is_shown(code: i32, shown: Seq<char>, other: Seq<char>)
    ensures
        text_id_logged(shown) == "RequestId(String("@ + shown + "))"@,
        error_logged(code, shown) == "Some(ResponseError { code: "@ + signed_decimal(code as int)
            + ", message: "@ + shown + ", data: None })"@,
        method_logged(shown) == "Notification { method: "@ + shown + " }"@,
        outcome_logged(shown, other) == "Response { id: "@ + shown + ", error: "@ + other + " }"@,
{
}

// ---- JSON ----

/// A JSON string is made character by character, between quotes.
pub proof fn json_is_written_piece_by_piece(a: Seq<char>, b: Seq<char>)
    ensures
        json_string(a) == seq!['"'] + json_chars(a) + seq!['"'],
        json_chars(a + b) == json_chars(a) + json_chars(b),
        json_chars(Seq::<char>::empty()) == Seq::<char>::empty(),
    decreases b.len(),
{
    if b.len() == 0 {
        assert(a + b =~= a);
        assert(json_chars(b) =~= Seq::<char>::empty());
    } else {
        json_is_written_piece_by_piece(a, b.drop_last());
        assert((a + b).drop_last() =~= a + b.drop_last());
        assert(json_chars(a + b) =~= json_chars(a) + json_chars(b));
    }
}

/// The quote, the backslash and the control characters are escaped, and no others.
pub proof fn json_escapes_these_characters(c: char)
    ensures
        json_chars(seq![c]) == json_char(c),
        c != '"' && c != '\\' && c as int >= 0x20 ==> json_char(c) == seq![c],
        json_char('"') == seq!['\\', '"'],
        json_char('\\') == seq!['\\', '\\'],
        json_char('\u{8}') == seq!['\\', 'b'],
        json_char('\t') == seq!['\\', 't'],
        json_char('\n') == seq!['\\', 'n'],
        json_char('\u{c}') == seq!['\\', 'f'],
        json_char('\r') == seq!['\\', 'r'],
        (c as int) < 0x20 && c != '\u{8}' && c != '\t' && c != '\n' && c != '\u{c}' && c != '\r'
            ==> {
            let (high, low) = ((c as int) / 16, (c as int) % 16);
            &&& json_char(c).len() == 6
            &&& json_char(c).take(4) == seq!['\\', 'u', '0', '0']
            &&& json_char(c)[4] as int == '0' as int + high
            &&& json_char(c)[5] as int == if low < 10 {
                '0' as int + low
            } else {
                'a' as int + low - 10
            }
        },
{
    reveal_strlit("0123456789abcdef");
    if (c as int) < 0x20 && c != '\u{8}' && c != '\t' && c != '\n' && c != '\u{c}' && c != '\r' {
        assert(json_char(c).take(4) =~= seq!['\\', 'u', '0', '0']);
    }
    assert(seq![c].drop_last() =~= Seq::<char>::empty());
    assert(json_chars(Seq::<char>::empty()) =~= Seq::<char>::empty());
    assert(json_chars(seq![c]) =~= json_char(c));
}

/// A text without such characters stands in JSON as it is.
pub proof fn plain_texts_stand_as_they_are(s: Seq<char>)
    requires
        forall|i: int|
            0 <= i < s.len() ==> (#[trigger] s[i]) != '"' && s[i] != '\\' && s[i] as int >= 0x20,
    ensures
        json_chars(s) == s,
    decreases s.len(),
{
    if s.len() > 0 {
        assert(s.last() == s[s.len() - 1]);
        plain_texts_stand_as_they_are(s.drop_last());
        assert(json_chars(s) =~= s);
    }
}

/// Closing a document sends its whole URI, with no diagnostics.
pub proof fn no_diagnostics_name_the_document(uri: Seq<char>)
    ensures
        no_diagnostics_json(uri) == "{\"uri\":"@ + json_string(uri) + ",\"diagnostics\":[]}"@,
        no_diagnostics(uri) == (NotificationView {
            method: "textDocument/publishDiagnostics"@,
            params: "{\"uri\":"@ + json_string(uri) + ",\"diagnostics\":[]}"@,
        }),
{
}

// ---- Responses ----

/// The client is told what the handler returned, all of it; an error made for the client is
/// told with its own code and message, any other failure as an internal error with its text,
/// and a canceled handler as one that returned nothing.
pub proof fn responses_say_what_came_of_the_handler(
    id: RequestIdView,
    json: Seq<char>,
    code: i32,
    message: Seq<char>,
)
    ensures
        ({
            let r = response_of(id, HandlerResultView::Done(json));
            r.id == id && r.result == Some(json) && r.error is None
        }),
        ({
            let r = response_of(id, HandlerResultView::Lsp(code, message));
            r.id == id && r.result is None && r.error == Some(ResponseErrorView { code, message })
        }),
        ({
            let r = response_of(id, HandlerResultView::Failed(message));
            r.id == id && r.result is None && r.error == Some(
                ResponseErrorView { code: -32603i32, message },
            )
        }),
        ({
            let r = response_of(id, HandlerResultView::Canceled);
            r.id == id && r.result == Some("null"@) && r.error is None
        }),
{
}

/// A response holds just what it is made from, and the error codes are the protocol's.
pub proof fn responses_hold_what_they_are_made_from(
    id: RequestIdView,
    result: Seq<char>,
    code: i32,
    message: Seq<char>,
)
    ensures
        ok_response(id, result) == (ResponseView { id, result: Some(result), error: None }),
        err_response(id, code, message) == (ResponseView {
            id,
            result: None,
            error: Some(ResponseErrorView { code, message }),
        }),
        refusal(id) == (ResponseView {
            id,
            result: None,
            error: Some(ResponseErrorView { code: -32601i32, message: "unknown request"@ }),
        }),
        ErrorCode::MethodNotFound.spec_number() == -32601i32,
        ErrorCode::InternalError.spec_number() == -32603i32,
        ErrorCode::RequestCanceled.spec_number() == -32800i32,
{
}

// ---- Tasks ----

/// A notification goes to the client as it is, in a turn and after the last one, and touches
/// nothing else.
pub proof fn notifications_reach_the_client(
    s: LoopStateView,
    ext: ExtensionMethodsView,
    received: Instant,
    n: NotificationView,
)
    ensures
        task_done(s.pending_requests, TaskView::Notify(n)) == (
            s.pending_requests,
            seq![ActionView::Send(MessageView::Notification(n))],
        ),
        turn_begun(s, ext, received, EventView::Task(TaskView::Notify(n))) == Some(
            (
                s,
                StepView {
                    actions: seq![
                        ActionView::Send(MessageView::Notification(n)),
                        ActionView::MaybeCollectGarbage,
                    ],
                    turn: TurnView::ProcessChanges { state_changed: false },
                },
            ),
        ),
{
    assert(seq![ActionView::Send(MessageView::Notification(n))].push(
        ActionView::MaybeCollectGarbage,
    ) =~= seq![
        ActionView::Send(MessageView::Notification(n)),
        ActionView::MaybeCollectGarbage,
    ]);
}

/// A response to a pending request goes to the client as it is, in a turn and after the last
/// one; the request is pending no more, and nothing else changes.
pub proof fn responses_reach_the_client(
    s: LoopStateView,
    ext: ExtensionMethodsView,
    received: Instant,
    response: ResponseView,
)
    requires
        s.pending_requests.contains_key(response.id),
    ensures
        task_done(s.pending_requests, TaskView::Respond(response)) == (
            s.pending_requests.remove(response.id),
            seq![
                ActionView::CompleteRequest(s.pending_requests[response.id]),
                ActionView::Send(MessageView::Response(response)),
            ],
        ),
        turn_begun(s, ext, received, EventView::Task(TaskView::Respond(response))) == Some(
            (
                LoopStateView {
                    pending_requests: s.pending_requests.remove(response.id),
                    ..s
                },
                StepView {
                    actions: seq![
                        ActionView::CompleteRequest(s.pending_requests[response.id]),
                        ActionView::Send(MessageView::Response(response)),
                        ActionView::MaybeCollectGarbage,
                    ],
                    turn: TurnView::ProcessChanges { state_changed: false },
                },
            ),
        ),
{
    assert(seq![
        ActionView::CompleteRequest(s.pending_requests[response.id]),
        ActionView::Send(MessageView::Response(response)),
    ].push(ActionView::MaybeCollectGarbage) =~= seq![
        ActionView::CompleteRequest(s.pending_requests[response.id]),
        ActionView::Send(MessageView::Response(response)),
        ActionView::MaybeCollectGarbage,
    ]);
}

/// A response to a request that is not pending is dropped.
pub proof fn late_responses_are_dropped(
    s: LoopStateView,
    ext: ExtensionMethodsView,
    received: Instant,
    response: ResponseView,
)
    requires
        !s.pending_requests.contains_key(response.id),
    ensures
        task_done(s.pending_requests, TaskView::Respond(response)) == (
            s.pending_requests,
            Seq::<ActionView>::empty(),
        ),
        turn_begun(s, ext, received, EventView::Task(TaskView::Respond(response))) == Some(
            (
                s,
                StepView {
                    actions: seq![ActionView::MaybeCollectGarbage],
                    turn: TurnView::ProcessChanges { state_changed: false },
                },
            ),
        ),
{
    assert(Seq::<ActionView>::empty().push(ActionView::MaybeCollectGarbage)
        =~= seq![ActionView::MaybeCollectGarbage]);
}

// ---- The world's events ----

/// An indexed library joins the world, whatever the state; one less is being indexed, and
/// nothing else changes.
pub proof fn indexed_libraries_join_the_world(
    s: LoopStateView,
    ext: ExtensionMethodsView,
    received: Instant,
)
    requires
        s.in_flight_libraries > 0,
    ensures
        turn_begun(s, ext, received, EventView::Lib) == Some(
            (
                LoopStateView {
                    in_flight_libraries: (s.in_flight_libraries - 1) as usize,
                    ..s
                },
                StepView {
                    actions: seq![ActionView::AddLibrary, ActionView::MaybeCollectGarbage],
                    turn: TurnView::ProcessChanges { state_changed: false },
                },
            ),
        ),
{
}

/// An event of the file system goes to the file system layer, and counts as a change.
pub proof fn file_system_events_are_handled(
    s: LoopStateView,
    ext: ExtensionMethodsView,
    received: Instant,
)
    ensures
        turn_begun(s, ext, received, EventView::Vfs) == Some(
            (
                s,
                StepView {
                    actions: seq![ActionView::HandleVfsTask],
                    turn: TurnView::ProcessChanges { state_changed: true },
                },
            ),
        ),
{
}

/// An answer of the client that is awaited is awaited no more; one that is not is reported.
/// Nothing else changes.
pub proof fn answers_of_the_client_are_taken(
    s: LoopStateView,
    ext: ExtensionMethodsView,
    received: Instant,
    response: ResponseView,
)
    ensures
        ({
            let awaited = response.id matches RequestIdView::Number(n)
                && s.pending_responses.contains(n);
            let after = match response.id {
                RequestIdView::Number(n) => LoopStateView {
                    pending_responses: s.pending_responses.remove(n),
                    ..s
                },
                RequestIdView::Text(_) => s,
            };
            &&& awaits(s, response.id) == awaited
            &&& response_taken(s, response.id) == after
            &&& turn_begun(s, ext, received, EventView::Msg(MessageView::Response(response)))
                == Some(
                (
                    after,
                    StepView {
                        actions: if awaited {
                            seq![]
                        } else {
                            seq![ActionView::Report(Anomaly::UnexpectedResponse)]
                        },
                        turn: TurnView::ProcessChanges { state_changed: false },
                    },
                ),
            )
        }),
{
}

// ---- Requests ----

/// The order in which the kinds are offered a request; the first five run on the loop's own
/// thread.
pub proof fn kinds_come_in_this_order()
    ensures
        dispatch_order().len() == 29,
        dispatch_order() == seq![
            RequestKind::CollectGarbage,
            RequestKind::JoinLines,
            RequestKind::OnEnter,
            RequestKind::SelectionRange,
            RequestKind::FindMatchingBrace,
            RequestKind::AnalyzerStatus,
            RequestKind::SyntaxTree,
            RequestKind::OnTypeFormatting,
            RequestKind::DocumentSymbol,
            RequestKind::WorkspaceSymbol,
            RequestKind::GotoDefinition,
            RequestKind::GotoImplementation,
            RequestKind::GotoTypeDefinition,
            RequestKind::ParentModule,
            RequestKind::Runnables,
            RequestKind::Decorations,
            RequestKind::Completion,
            RequestKind::CodeAction,
            RequestKind::CodeLens,
            RequestKind::CodeLensResolve,
            RequestKind::FoldingRange,
            RequestKind::SignatureHelp,
            RequestKind::Hover,
            RequestKind::PrepareRename,
            RequestKind::Rename,
            RequestKind::References,
            RequestKind::Formatting,
            RequestKind::DocumentHighlight,
            RequestKind::InlayHints,
        ],
        forall|i: int| 0 <= i < 29 ==> (is_sync(#[trigger] dispatch_order()[i]) <==> i < 5),
{
}

/// The methods of the kinds: the protocol's own, and the names given to the extensions.
pub proof fn kinds_have_these_methods(ext: ExtensionMethodsView)
    ensures
        method_of(RequestKind::CollectGarbage, ext) == ext.collect_garbage,
        method_of(RequestKind::JoinLines, ext) == ext.join_lines,
        method_of(RequestKind::OnEnter, ext) == ext.on_enter,
        method_of(RequestKind::SelectionRange, ext) == "textDocument/selectionRange"@,
        method_of(RequestKind::FindMatchingBrace, ext) == ext.find_matching_brace,
        method_of(RequestKind::AnalyzerStatus, ext) == ext.analyzer_status,
        method_of(RequestKind::SyntaxTree, ext) == ext.syntax_tree,
        method_of(RequestKind::OnTypeFormatting, ext) == "textDocument/onTypeFormatting"@,
        method_of(RequestKind::DocumentSymbol, ext) == "textDocument/documentSymbol"@,
        method_of(RequestKind::WorkspaceSymbol, ext) == "workspace/symbol"@,
        method_of(RequestKind::GotoDefinition, ext) == "textDocument/definition"@,
        method_of(RequestKind::GotoImplementation, ext) == "textDocument/implementation"@,
        method_of(RequestKind::GotoTypeDefinition, ext) == "textDocument/typeDefinition"@,
        method_of(RequestKind::ParentModule, ext) == ext.parent_module,
        method_of(RequestKind::Runnables, ext) == ext.runnables,
        method_of(RequestKind::Decorations, ext) == ext.decorations,
        method_of(RequestKind::Completion, ext) == "textDocument/completion"@,
        method_of(RequestKind::CodeAction, ext) == "textDocument/codeAction"@,
        method_of(RequestKind::CodeLens, ext) == "textDocument/codeLens"@,
        method_of(RequestKind::CodeLensResolve, ext) == "codeLens/resolve"@,
        method_of(RequestKind::FoldingRange, ext) == "textDocument/foldingRange"@,
        method_of(RequestKind::SignatureHelp, ext) == "textDocument/signatureHelp"@,
        method_of(RequestKind::Hover, ext) == "textDocument/hover"@,
        method_of(RequestKind::PrepareRename, ext) == "textDocument/prepareRename"@,
        method_of(RequestKind::Rename, ext) == "textDocument/rename"@,
        method_of(RequestKind::References, ext) == "textDocument/references"@,
        method_of(RequestKind::Formatting, ext) == "textDocument/formatting"@,
        method_of(RequestKind::DocumentHighlight, ext) == "textDocument/documentHighlight"@,
        method_of(RequestKind::InlayHints, ext) == ext.inlay_hints,
{
}

/// A request goes, whole, to the first kind that has its method, and is pending from then on:
/// the first five kinds run on the loop's own thread, the others on the pool.
pub proof fn requests_are_handed_on(
    s: LoopStateView,
    ext: ExtensionMethodsView,
    received: Instant,
    req: RequestView,
    i: int,
)
    requires
        0 <= i < dispatch_order().len(),
        req.method == method_of(dispatch_order()[i], ext),
        forall|j: int|
            0 <= j < i ==> req.method != method_of(#[trigger] dispatch_order()[j], ext),
    ensures
        ({
            let job = JobView { kind: dispatch_order()[i], id: req.id, params: req.params };
            let pending = s.pending_requests.insert(
                req.id,
                PendingRequestView { id: req.id, method: req.method, received },
            );
            &&& dispatched(req, ext) == if i < 5 {
                DispatchedView::Sync(job)
            } else {
                DispatchedView::Pool(job)
            }
            &&& pending_after_request(s.pending_requests, req, received, ext) == pending
            &&& turn_begun(s, ext, received, EventView::Msg(MessageView::Request(req))) == Some(
                (
                    LoopStateView { pending_requests: pending, ..s },
                    if i < 5 {
                        StepView { actions: seq![], turn: TurnView::RunSync(job) }
                    } else {
                        StepView {
                            actions: seq![ActionView::RunOnPool(job)],
                            turn: TurnView::ProcessChanges { state_changed: false },
                        }
                    },
                ),
            )
        }),
{
    the_first_matching_kind_serves(req.method, ext, i);
    kinds_come_in_this_order();
    assert(is_sync(dispatch_order()[i]) <==> i < 5);
}

/// A request that no kind has the method of is refused, and is not pending.
pub proof fn other_requests_are_refused(
    s: LoopStateView,
    ext: ExtensionMethodsView,
    received: Instant,
    req: RequestView,
)
    requires
        forall|j: int|
            0 <= j < dispatch_order().len() ==> req.method != method_of(
                #[trigger] dispatch_order()[j],
                ext,
            ),
    ensures
        ({
            let answer = ResponseView {
                id: req.id,
                result: None,
                error: Some(ResponseErrorView { code: -32601i32, message: "unknown request"@ }),
            };
            &&& dispatched(req, ext) == DispatchedView::Unknown(answer)
            &&& pending_after_request(s.pending_requests, req, received, ext)
                == s.pending_requests
            &&& turn_begun(s, ext, received, EventView::Msg(MessageView::Request(req))) == Some(
                (
                    s,
                    StepView {
                        actions: seq![
                            ActionView::Report(Anomaly::UnknownRequest),
                            ActionView::Send(MessageView::Response(answer)),
                        ],
                        turn: TurnView::ProcessChanges { state_changed: false },
                    },
                ),
            )
        }),
{
    lemma_route_from(req.method, ext, 0);
    if let Some(kind) = route(req.method, ext) {
        every_kind_is_offered(kind);
        let i = choose|i: int| 0 <= i < dispatch_order().len() && dispatch_order()[i] == kind;
        assert(dispatch_order()[i] == kind);
    }
}

/// A dispatcher whose request has the kind's method hands the request on, whole, and records
/// it; one whose request has another method keeps it.
pub proof fn dispatchers_offer_the_whole_request(
    d: PoolDispatcherView,
    pending: Map<RequestIdView, PendingRequestView>,
    kind: RequestKind,
    ext: ExtensionMethodsView,
    req: RequestView,
)
    requires
        d.req == Some(req),
    ensures
        ({
            let job = JobView { kind, id: req.id, params: req.params };
            let record = PendingRequestView {
                id: req.id,
                method: req.method,
                received: d.request_received,
            };
            if req.method == method_of(kind, ext) {
                &&& parsed(d, pending, kind, ext) == (
                    PoolDispatcherView { req: None, ..d },
                    pending.insert(req.id, record),
                    Some(job),
                )
                &&& offered_sync(d, pending, kind, ext) == (
                    PoolDispatcherView {
                        req: None,
                        dispatched: Some(DispatchedView::Sync(job)),
                        ..d
                    },
                    pending.insert(req.id, record),
                )
                &&& offered_to_pool(d, pending, kind, ext) == (
                    PoolDispatcherView {
                        req: None,
                        dispatched: Some(DispatchedView::Pool(job)),
                        ..d
                    },
                    pending.insert(req.id, record),
                )
            } else {
                &&& parsed(d, pending, kind, ext) == (d, pending, None::<JobView>)
                &&& offered_sync(d, pending, kind, ext) == (d, pending)
                &&& offered_to_pool(d, pending, kind, ext) == (d, pending)
            }
        }),
        finished(d) == (
            PoolDispatcherView { req: None, ..d },
            Some(
                ResponseView {
                    id: req.id,
                    result: None,
                    error: Some(
                        ResponseErrorView { code: -32601i32, message: "unknown request"@ },
                    ),
                },
            ),
        ),
{
}

/// A dispatcher without a request does nothing.
pub proof fn empty_dispatchers_do_nothing(
    d: PoolDispatcherView,
    pending: Map<RequestIdView, PendingRequestView>,
    kind: RequestKind,
    ext: ExtensionMethodsView,
)
    requires
        d.req is None,
    ensures
        parsed(d, pending, kind, ext) == (d, pending, None::<JobView>),
        offered_sync(d, pending, kind, ext) == (d, pending),
        offered_to_pool(d, pending, kind, ext) == (d, pending),
        finished(d) == (d, None::<ResponseView>),
{
}

// ---- Notifications ----

proof fn lemma_notification_methods_differ()
    ensures
        "$/cancelRequest"@.len() == 15,
        "textDocument/didOpen"@.len() == 20,
        "textDocument/didChange"@.len() == 22,
        "textDocument/didClose"@.len() == 21,
        "workspace/didChangeConfiguration"@.len() == 32,
        "workspace/didChangeWatchedFiles"@.len() == 31,
{
    reveal_strlit("$/cancelRequest");
    reveal_strlit("textDocument/didOpen");
    reveal_strlit("textDocument/didChange");
    reveal_strlit("textDocument/didClose");
    reveal_strlit("workspace/didChangeConfiguration");
    reveal_strlit("workspace/didChangeWatchedFiles");
}

/// What a notification is read as depends on its method and, by that method, on what its
/// parameters hold.
pub proof fn notifications_are_read_by_method(method: Seq<char>, params: Seq<char>)
    ensures
        ({
            let r = cast(NotificationView { method, params });
            &&& method == "$/cancelRequest"@ ==> r == match cancel_params(params) {
                Some(id) => Some(NotificationParamsView::Cancel(id)),
                None => None,
            }
            &&& method == "textDocument/didOpen"@ ==> r == match did_open_params(params) {
                Some((uri, text)) => Some(
                    NotificationParamsView::DidOpenTextDocument { uri, text },
                ),
                None => None,
            }
            &&& method == "textDocument/didChange"@ ==> r == match did_change_params(params) {
                Some((uri, changes)) => Some(
                    NotificationParamsView::DidChangeTextDocument { uri, changes },
                ),
                None => None,
            }
            &&& method == "textDocument/didClose"@ ==> r == match did_close_params(params) {
                Some(uri) => Some(NotificationParamsView::DidCloseTextDocument { uri }),
                None => None,
            }
            &&& method == "workspace/didChangeConfiguration"@ ==> r == (
            if is_did_change_configuration_params(params) {
                Some(NotificationParamsView::DidChangeConfiguration)
            } else {
                None
            })
            &&& method == "workspace/didChangeWatchedFiles"@
                ==> r == match did_change_watched_files_params(params) {
                Some(uris) => Some(NotificationParamsView::DidChangeWatchedFiles(uris)),
                None => None,
            }
            &&& method != "$/cancelRequest"@ && method != "textDocument/didOpen"@ && method
                != "textDocument/didChange"@ && method != "textDocument/didClose"@ && method
                != "workspace/didChangeConfiguration"@ && method
                != "workspace/didChangeWatchedFiles"@ ==> r == Some(
                NotificationParamsView::Unhandled,
            )
        }),
{
    lemma_notification_methods_differ();
}

/// A notification has its turn if and only if its parameters fit its method, and the turn
/// begins with what the notification is read as.
pub proof fn read_notifications_have_their_turn(
    s: LoopStateView,
    ext: ExtensionMethodsView,
    received: Instant,
    not: NotificationView,
)
    ensures
        turn_begun(s, ext, received, EventView::Msg(MessageView::Notification(not)))
            == match cast(not) {
            Some(params) => Some(
                (
                    LoopStateView {
                        pending_requests: match params {
                            NotificationParamsView::Cancel(id) => s.pending_requests.remove(id),
                            _ => s.pending_requests,
                        },
                        ..s
                    },
                    notified(s.pending_requests, params),
                ),
            ),
            None => None,
        },
{
}

/// A pending request that is canceled is answered with the error for canceled requests, under
/// its id; a cancelation of any other id is passed over.
pub proof fn cancelations_answer_the_request(
    pending: Map<RequestIdView, PendingRequestView>,
    id: RequestIdView,
)
    ensures
        ({
            let step = StepView {
                actions: if pending.contains_key(id) {
                    seq![
                        ActionView::Send(
                            MessageView::Response(
                                ResponseView {
                                    id,
                                    result: None,
                                    error: Some(
                                        ResponseErrorView {
                                            code: -32800i32,
                                            message: "canceled by client"@,
                                        },
                                    ),
                                },
                            ),
                        ),
                    ]
                } else {
                    seq![]
                },
                turn: TurnView::ProcessChanges { state_changed: true },
            };
            &&& canceled(pending, id) == step
            &&& notified(pending, NotificationParamsView::Cancel(id)) == step
            &&& pending_after_notification(pending, NotificationParamsView::Cancel(id))
                == pending.remove(id)
        }),
{
}

/// The whole text of an opened document is put over the file its URI names; a URI that names
/// no file ends the loop.
pub proof fn opened_documents_lie_over_their_file(
    pending: Map<RequestIdView, PendingRequestView>,
    uri: Seq<char>,
    path: Option<Seq<u8>>,
    text: Seq<char>,
)
    ensures
        opened(uri, path, text) == (StepView {
            actions: seq![],
            turn: match path {
                Some(path) => TurnView::AddFileOverlay { path, text },
                None => TurnView::Failed(LoopErrorView::InvalidUri(uri)),
            },
        }),
        notified(pending, NotificationParamsView::DidOpenTextDocument { uri, text }) == (
        StepView {
            actions: seq![],
            turn: match file_path(uri) {
                Some(path) => TurnView::AddFileOverlay { path, text },
                None => TurnView::Failed(LoopErrorView::InvalidUri(uri)),
            },
        }),
        pending_after_notification(
            pending,
            NotificationParamsView::DidOpenTextDocument { uri, text },
        ) == pending,
{
}

/// The text of the last change, whatever it is, replaces that of the file the URI names; no
/// change at all, or a URI that names no file, ends the loop.
pub proof fn changed_documents_take_the_last_text(
    pending: Map<RequestIdView, PendingRequestView>,
    uri: Seq<char>,
    path: Seq<u8>,
    changes: Seq<Seq<char>>,
)
    ensures
        changes.len() > 0 ==> changed(uri, Some(path), changes) == (StepView {
            actions: seq![
                ActionView::ChangeFileOverlay { path, text: changes[changes.len() - 1] },
            ],
            turn: TurnView::ProcessChanges { state_changed: true },
        }),
        changes.len() == 0 ==> changed(uri, Some(path), changes) == (StepView {
            actions: seq![],
            turn: TurnView::Failed(LoopErrorView::EmptyChanges),
        }),
        changed(uri, None, changes) == (StepView {
            actions: seq![],
            turn: TurnView::Failed(LoopErrorView::InvalidUri(uri)),
        }),
        notified(pending, NotificationParamsView::DidChangeTextDocument { uri, changes }) == (
        StepView {
            actions: if file_path(uri) is Some && changes.len() > 0 {
                seq![
                    ActionView::ChangeFileOverlay {
                        path: file_path(uri)->0,
                        text: changes[changes.len() - 1],
                    },
                ]
            } else {
                seq![]
            },
            turn: if file_path(uri) is None {
                TurnView::Failed(LoopErrorView::InvalidUri(uri))
            } else if changes.len() == 0 {
                TurnView::Failed(LoopErrorView::EmptyChanges)
            } else {
                TurnView::ProcessChanges { state_changed: true }
            },
        }),
        pending_after_notification(
            pending,
            NotificationParamsView::DidChangeTextDocument { uri, changes },
        ) == pending,
{
}

/// A closed document comes off the file its URI names; a URI that names no file ends the loop.
pub proof fn closed_documents_come_off_their_file(
    pending: Map<RequestIdView, PendingRequestView>,
    uri: Seq<char>,
    path: Option<Seq<u8>>,
)
    ensures
        closed_document(uri, path) == (StepView {
            actions: seq![],
            turn: match path {
                Some(path) => TurnView::RemoveFileOverlay { path, uri },
                None => TurnView::Failed(LoopErrorView::InvalidUri(uri)),
            },
        }),
        notified(pending, NotificationParamsView::DidCloseTextDocument { uri }) == (StepView {
            actions: seq![],
            turn: match file_path(uri) {
                Some(path) => TurnView::RemoveFileOverlay { path, uri },
                None => TurnView::Failed(LoopErrorView::InvalidUri(uri)),
            },
        }),
        pending_after_notification(
            pending,
            NotificationParamsView::DidCloseTextDocument { uri },
        ) == pending,
{
}

/// Changed configurations and unknown notifications only count as a change; the latter are
/// reported.
pub proof fn other_notifications_count_as_changes(
    pending: Map<RequestIdView, PendingRequestView>,
    uris: Seq<Seq<char>>,
)
    ensures
        notified(pending, NotificationParamsView::DidChangeConfiguration) == (StepView {
            actions: seq![],
            turn: TurnView::ProcessChanges { state_changed: true },
        }),
        notified(pending, NotificationParamsView::Unhandled) == (StepView {
            actions: seq![ActionView::Report(Anomaly::UnhandledNotification)],
            turn: TurnView::ProcessChanges { state_changed: true },
        }),
        pending_after_notification(pending, NotificationParamsView::DidChangeConfiguration)
            == pending,
        pending_after_notification(pending, NotificationParamsView::Unhandled) == pending,
        pending_after_notification(pending, NotificationParamsView::DidChangeWatchedFiles(uris))
            == pending,
{
}

/// The file system layer is told of each changed file, by its path and in order, up to the
/// first that has none; that one ends the loop.
pub proof fn changed_files_are_told_up_to_the_first_bad_one(
    files: Seq<(Seq<char>, Option<Seq<u8>>)>,
    n: int,
)
    requires
        0 <= n <= files.len(),
        forall|i: int| 0 <= i < n ==> (#[trigger] files[i]).1 is Some,
        n < files.len() ==> files[n].1 is None,
    ensures
        ({
            let step = watched_changed(files);
            &&& step.actions.len() == n
            &&& forall|i: int|
                0 <= i < n ==> #[trigger] step.actions[i] == ActionView::NotifyChanged(
                    files[i].1->0,
                )
            &&& step.turn == if n < files.len() {
                TurnView::Failed(LoopErrorView::InvalidUri(files[n].0))
            } else {
                TurnView::ProcessChanges { state_changed: true }
            }
        }),
{
    lemma_leading_paths(files, n);
}

/// The changed files of a notification are those its URIs name.
pub proof fn changed_files_are_named_by_their_uris(
    pending: Map<RequestIdView, PendingRequestView>,
    uris: Seq<Seq<char>>,
    n: int,
)
    requires
        0 <= n <= uris.len(),
        forall|i: int| 0 <= i < n ==> file_path(#[trigger] uris[i]) is Some,
        n < uris.len() ==> file_path(uris[n]) is None,
    ensures
        ({
            let step = notified(pending, NotificationParamsView::DidChangeWatchedFiles(uris));
            &&& step.actions.len() == n
            &&& forall|i: int|
                0 <= i < n ==> #[trigger] step.actions[i] == ActionView::NotifyChanged(
                    file_path(uris[i])->0,
                )
            &&& step.turn == if n < uris.len() {
                TurnView::Failed(LoopErrorView::InvalidUri(uris[n]))
            } else {
                TurnView::ProcessChanges { state_changed: true }
            }
        }),
{
    changed_files_are_told_up_to_the_first_bad_one(resolved(uris), n);
}

/// The steps by which notifications end.
pub proof fn notifications_end_like_this(actions: Seq<ActionView>, uri: Seq<char>)
    ensures
        noticed(actions) == (StepView {
            actions,
            turn: TurnView::ProcessChanges { state_changed: true },
        }),
        bad_uri(actions, uri) == (StepView {
            actions,
            turn: TurnView::Failed(LoopErrorView::InvalidUri(uri)),
        }),
{
}

// ---- Subscriptions ----

/// Opening a document adds its file at the end, unless it is subscribed already, and changes
/// no other subscription.
pub proof fn opening_adds_one_subscription(subs: Seq<FileId>, file_id: FileId)
    ensures
        !subs.contains(file_id) ==> subs_added(subs, file_id) == subs.push(file_id),
        subs.contains(file_id) ==> subs_added(subs, file_id) == subs,
        subs_after_open(subs, Some(file_id)) == subs_added(subs, file_id),
        subs_after_open(subs, None) == subs,
        subs_after_close(subs, Some(file_id)) == subs_removed(subs, file_id),
        subs_after_close(subs, None) == subs,
{
}

/// Closing a document ends the subscription to its file and to no other: the others stay, in
/// their order.
pub proof fn closing_ends_one_subscription(subs: Seq<FileId>, file_id: FileId, other: FileId)
    requires
        subs.no_duplicates(),
    ensures
        subs_after_close(subs, Some(file_id)) == subs.filter(|f: FileId| f != file_id),
        !subs_after_close(subs, Some(file_id)).contains(file_id),
        other != file_id ==> (subs_after_close(subs, Some(file_id)).contains(other)
            <==> subs.contains(other)),
{
    lemma_removal_filters(subs, file_id);
    subs.index_of_first_ensures(file_id);
    let after = subs_after_close(subs, Some(file_id));
    if other != file_id {
        if subs.contains(other) {
            let i = choose|i: int| 0 <= i < subs.len() && subs[i] == other;
            if let Some(k) = subs.index_of_first(file_id) {
                assert(after == subs.remove(k));
                if i < k {
                    assert(after[i] == other);
                } else {
                    assert(after[i - 1] == other);
                }
            }
        }
        if after.contains(other) {
            let i = choose|i: int| 0 <= i < after.len() && after[i] == other;
            if let Some(k) = subs.index_of_first(file_id) {
                assert(after == subs.remove(k));
                if i < k {
                    assert(subs[i] == other);
                } else {
                    assert(subs[i + 1] == other);
                }
            }
        }
    }
}

// ---- Answers within a turn ----

/// A request whose handler has run is answered with what the handler returned, if it is still
/// pending; the turn goes on.
pub proof fn handled_requests_are_answered(s: LoopStateView, job: JobView, result: HandlerResult)
    ensures
        ({
            let response = ResponseView {
                id: job.id,
                result: match result@ {
                    HandlerResultView::Done(json) => Some(json),
                    HandlerResultView::Canceled => Some("null"@),
                    _ => None,
                },
                error: match result@ {
                    HandlerResultView::Lsp(code, message) => Some(
                        ResponseErrorView { code, message },
                    ),
                    HandlerResultView::Failed(message) => Some(
                        ResponseErrorView { code: -32603i32, message },
                    ),
                    _ => None,
                },
            };
            turn_resumed(s, TurnView::RunSync(job), Reply::Handled(result)) == (
                LoopStateView {
                    pending_requests: if s.pending_requests.contains_key(job.id) {
                        s.pending_requests.remove(job.id)
                    } else {
                        s.pending_requests
                    },
                    ..s
                },
                StepView {
                    actions: if s.pending_requests.contains_key(job.id) {
                        seq![
                            ActionView::CompleteRequest(s.pending_requests[job.id]),
                            ActionView::Send(MessageView::Response(response)),
                        ]
                    } else {
                        seq![]
                    },
                    turn: TurnView::ProcessChanges { state_changed: false },
                },
            )
        }),
{
}

/// A request whose handler runs on the pool is answered with what the handler returned, when
/// the outcome comes and the request is still pending.
pub proof fn pool_outcomes_are_answered(
    s: LoopStateView,
    ext: ExtensionMethodsView,
    received: Instant,
    id: RequestIdView,
    result: HandlerResultView,
)
    requires
        s.pending_requests.contains_key(id),
    ensures
        ({
            let task = TaskView::Respond(response_of(id, result));
            let (after, step) = turn_begun(s, ext, received, EventView::Task(task))->0;
            &&& step.actions.len() == 3
            &&& step.actions[1] == ActionView::Send(
                MessageView::Response(
                    ResponseView {
                        id,
                        result: match result {
                            HandlerResultView::Done(json) => Some(json),
                            HandlerResultView::Canceled => Some("null"@),
                            _ => None,
                        },
                        error: match result {
                            HandlerResultView::Lsp(code, message) => Some(
                                ResponseErrorView { code, message },
                            ),
                            HandlerResultView::Failed(message) => Some(
                                ResponseErrorView { code: -32603i32, message },
                            ),
                            _ => None,
                        },
                    },
                ),
            )
            &&& after == (LoopStateView {
                pending_requests: s.pending_requests.remove(id),
                ..s
            })
        }),
{
    responses_reach_the_client(s, ext, received, response_of(id, result));
}

/// An opened document is subscribed where its file is known, and nothing else changes.
pub proof fn opened_documents_are_subscribed(
    s: LoopStateView,
    path: Seq<u8>,
    text: Seq<char>,
    file_id: FileId,
)
    ensures
        ({
            let turn = TurnView::AddFileOverlay { path, text };
            let step = StepView {
                actions: seq![],
                turn: TurnView::ProcessChanges { state_changed: true },
            };
            &&& turn_resumed(s, turn, Reply::File(Some(file_id))) == (
                LoopStateView {
                    subscriptions: if s.subscriptions.contains(file_id) {
                        s.subscriptions
                    } else {
                        s.subscriptions.push(file_id)
                    },
                    ..s
                },
                step,
            )
            &&& turn_resumed(s, turn, Reply::File(None)) == (s, step)
        }),
{
}

/// A closed document's file is subscribed no more, its diagnostics are cleared whether or not
/// the file is known, and nothing else changes.
pub proof fn closed_documents_are_unsubscribed(
    s: LoopStateView,
    path: Seq<u8>,
    uri: Seq<char>,
    file_id: FileId,
)
    requires
        s.subscriptions.no_duplicates(),
    ensures
        ({
            let turn = TurnView::RemoveFileOverlay { path, uri };
            let step = StepView {
                actions: seq![
                    ActionView::Send(
                        MessageView::Notification(
                            NotificationView {
                                method: "textDocument/publishDiagnostics"@,
                                params: "{\"uri\":"@ + json_string(uri)
                                    + ",\"diagnostics\":[]}"@,
                            },
                        ),
                    ),
                ],
                turn: TurnView::ProcessChanges { state_changed: true },
            };
            &&& turn_resumed(s, turn, Reply::File(Some(file_id))) == (
                LoopStateView {
                    subscriptions: s.subscriptions.filter(|f: FileId| f != file_id),
                    ..s
                },
                step,
            )
            &&& turn_resumed(s, turn, Reply::File(None)) == (s, step)
        }),
{
    lemma_removal_filters(s.subscriptions, file_id);
}

/// The libraries that wait join at the end; from the end, as many are started as five leave
/// room for. Nothing else changes.
pub proof fn libraries_are_started_from_the_end(
    s: LoopStateView,
    libraries: Vec<Library>,
    state_changed: bool,
    n: int,
)
    requires
        s.in_flight_libraries <= 5,
        n == if s.pending_libraries.len() + libraries@.len() <= 5 - s.in_flight_libraries {
            (s.pending_libraries.len() + libraries@.len()) as int
        } else {
            5 - s.in_flight_libraries
        },
    ensures
        ({
            let waiting = s.pending_libraries + libraries@;
            let turn = TurnView::ProcessChanges { state_changed };
            let (after, step) = turn_resumed(s, turn, Reply::Libraries(libraries));
            &&& after == (LoopStateView {
                in_flight_libraries: (s.in_flight_libraries + n) as usize,
                pending_libraries: waiting.take(waiting.len() - n),
                ..s
            })
            &&& step.turn == TurnView::Inspect { state_changed }
            &&& step.actions.len() == n
            &&& forall|i: int|
                0 <= i < n ==> #[trigger] step.actions[i] == ActionView::IndexLibrary(
                    waiting[waiting.len() - 1 - i],
                )
            &&& libraries_scheduled(s, libraries@, state_changed) == (after, step)
        }),
{
}

/// At the end of a turn the workspace becomes loaded where nothing is left to do, the user is
/// told so if they want to be, and the subscribed files, all of them, are looked at again if
/// something changed. Nothing else changes.
pub proof fn turns_end_like_this(s: LoopStateView, world: World, state_changed: bool)
    ensures
        ({
            let loaded = !s.workspace_loaded && world.roots_to_scan == 0
                && s.pending_libraries.len() == 0 && s.in_flight_libraries == 0;
            let told = if loaded && world.notify_loaded {
                seq![
                    ActionView::Send(
                        MessageView::Notification(
                            NotificationView {
                                method: "window/showMessage"@,
                                params: "{\"type\":"@ + seq!['3'] + ",\"message\":"@
                                    + json_string(
                                    "workspace loaded, "@ + decimal(total(world.packages@))
                                        + " rust packages"@,
                                ) + "}"@,
                            },
                        ),
                    ),
                ]
            } else {
                seq![]
            };
            let refreshed = if state_changed {
                seq![
                    ActionView::UpdateFileNotifications {
                        subscriptions: s.subscriptions,
                        publish_diagnostics: world.publish_diagnostics,
                        publish_decorations: world.publish_decorations,
                    },
                ]
            } else {
                seq![]
            };
            let turn = TurnView::Inspect { state_changed };
            &&& just_loaded(s, world.roots_to_scan) == loaded
            &&& turn_resumed(s, turn, Reply::World(world)) == (
                LoopStateView { workspace_loaded: s.workspace_loaded || loaded, ..s },
                StepView { actions: told + refreshed, turn: TurnView::Done },
            )
            &&& inspected(s, world, state_changed) == turn_resumed(s, turn, Reply::World(world))
        }),
{
}

/// Each question of a turn has its own sort of answer, and any answer of that sort will do.
pub proof fn questions_have_their_answers(turn: TurnView, reply: Reply)
    ensures
        answers(turn, reply) <==> {
            ||| turn is RunSync && reply is Handled
            ||| turn is AddFileOverlay && reply is File
            ||| turn is RemoveFileOverlay && reply is File
            ||| turn is ProcessChanges && reply is Libraries
            ||| turn is Inspect && reply is World
        },
{
}

/// The pool has eight threads, and five libraries may be indexed at the same time.
pub proof fn five_of_eight_threads_index()
    ensures
        THREADPOOL_SIZE == 8,
        MAX_IN_FLIGHT_LIBS == 5,
{
}

/// The packages of all workspaces are counted, each once.
pub proof fn packages_are_summed(numbers: Seq<usize>, n: usize)
    ensures
        total(Seq::<usize>::empty()) == 0,
        total(numbers.push(n)) == total(numbers) + n,
{
    assert(numbers.push(n).drop_last() =~= numbers);
}

// ---- The channels and the start ----

/// What comes over a channel gets its turn as it is, a request once it is known not to shut
/// the server down; a channel that has ended ends the loop with its own error.
pub proof fn channels_are_heard(req: RequestView, r: ResponseView, n: NotificationView, t: TaskView)
    ensures
        heard(SelectedView::Message(MessageView::Request(req))) == NextView::CheckShutdown(req),
        heard(SelectedView::Message(MessageView::Response(r))) == NextView::TakeTurn(
            EventView::Msg(MessageView::Response(r)),
        ),
        heard(SelectedView::Message(MessageView::Notification(n))) == NextView::TakeTurn(
            EventView::Msg(MessageView::Notification(n)),
        ),
        heard(SelectedView::Task(t)) == NextView::TakeTurn(EventView::Task(t)),
        heard(SelectedView::Vfs) == NextView::TakeTurn(EventView::Vfs),
        heard(SelectedView::Lib) == NextView::TakeTurn(EventView::Lib),
        heard(SelectedView::ClientGone) == NextView::Fail(LoopErrorView::ClientExited),
        heard(SelectedView::VfsGone) == NextView::Fail(LoopErrorView::VfsDied),
        shutdown_checked(req, true) == NextView::Drain,
        shutdown_checked(req, false) == NextView::TakeTurn(
            EventView::Msg(MessageView::Request(req)),
        ),
{
}

/// A fresh loop has seen nothing, and each drawn id is one more than the last and is awaited.
pub proof fn loops_start_from_nothing(s: LoopStateView)
    requires
        s.next_request_id < u64::MAX,
    ensures
        initial_state() == (LoopStateView {
            next_request_id: 0,
            pending_responses: Set::empty(),
            pending_requests: Map::empty(),
            subscriptions: Seq::empty(),
            in_flight_libraries: 0,
            pending_libraries: Seq::empty(),
            workspace_loaded: false,
        }),
        id_drawn(s) == (LoopStateView {
            next_request_id: (s.next_request_id + 1) as u64,
            pending_responses: s.pending_responses.insert((s.next_request_id + 1) as u64),
            ..s
        }),
{
}

/// The sources below each member are watched, in order, and those below other roots are not.
pub proof fn members_are_watched_in_order(roots: Seq<WorkspaceRoot>)
    ensures
        member_globs(roots) == roots.filter(|root: WorkspaceRoot| root.is_member).map_values(
            |root: WorkspaceRoot| root.path@ + "/**/*.rs"@,
        ),
    decreases roots.len(),
{
    reveal(Seq::filter);
    let member = |root: WorkspaceRoot| root.is_member;
    let glob = |root: WorkspaceRoot| root.path@ + "/**/*.rs"@;
    if roots.len() == 0 {
        assert(member_globs(roots) =~= roots.filter(member).map_values(glob));
    } else {
        let init = roots.drop_last();
        members_are_watched_in_order(init);
        if roots.last().is_member {
            assert(roots.filter(member) == init.filter(member).push(roots.last()));
            assert(roots.filter(member).map_values(glob) =~= init.filter(member).map_values(
                glob,
            ).push(source_glob(roots.last().path@)));
        } else {
            assert(roots.filter(member) == init.filter(member));
        }
    }
}

/// The client is asked, under the drawn id, to watch just these globs.
pub proof fn the_client_is_asked_to_watch(
    id: u64,
    roots: Seq<WorkspaceRoot>,
    globs: Seq<Seq<char>>,
    glob: Seq<char>,
)
    ensures
        watch_request(id, roots) == MessageView::Request(
            RequestView {
                id: RequestIdView::Number(id),
                method: "client/registerCapability"@,
                params: "{\"registrations\":[{\"id\":"@ + json_string("file-watcher"@)
                    + ",\"method\":"@ + json_string("workspace/didChangeWatchedFiles"@)
                    + ",\"registerOptions\":{\"watchers\":["@ + watchers_json(
                    member_globs(roots),
                ) + "]}}]}"@,
            },
        ),
        watchers_json(Seq::<Seq<char>>::empty()) == Seq::<char>::empty(),
        watchers_json(globs.push(glob)) == watchers_json(globs) + (if globs.len() == 0 {
            seq![]
        } else {
            seq![',']
        }) + "{\"globPattern\":"@ + json_string(glob) + "}"@,
{
    assert(globs.push(glob).drop_last() =~= globs);
}

/// The first failure has only successes before it.
pub proof fn first_failures_come_after_successes<G, E>(outcomes: Seq<Result<G, E>>, i: int, j: int)
    ensures
        first_failure(outcomes, i) ==> outcomes[i] is Err,
        first_failure(outcomes, i) && 0 <= j < i ==> outcomes[j] is Ok,
{
}

/// Links are supported if and only if the client says so, all the way down.
pub proof fn links_need_every_capability(caps: ClientCapabilities)
    ensures
        location_links(caps) <==> (caps.text_document is Some
            && caps.text_document->0.definition is Some
            && caps.text_document->0.definition->0.link_support is Some
            && caps.text_document->0.definition->0.link_support->0),
{
}

// ---- Updates ----

/// Each subscribed file is updated in its turn: first its diagnostics, then its decorations,
/// as far as they are to be published.
#[verifier::spinoff_prover]
pub proof fn files_are_updated_in_order(subs: Seq<FileId>)
    ensures
        all_updates(subs, false, false) == Seq::<FileUpdate>::empty(),
        all_updates(subs, true, false) == subs.map_values(|f: FileId| FileUpdate::Diagnostics(f)),
        all_updates(subs, false, true) == subs.map_values(|f: FileId| FileUpdate::Decorations(f)),
        all_updates(subs, true, true).len() == 2 * subs.len(),
        forall|i: int|
            0 <= i < subs.len() ==> all_updates(subs, true, true)[2 * i]
                == FileUpdate::Diagnostics(#[trigger] subs[i]) && all_updates(
                subs,
                true,
                true,
            )[2 * i + 1] == FileUpdate::Decorations(subs[i]),
    decreases subs.len(),
{
    if subs.len() == 0 {
        assert(all_updates(subs, true, false) =~= subs.map_values(
            |f: FileId| FileUpdate::Diagnostics(f),
        ));
        assert(all_updates(subs, false, true) =~= subs.map_values(
            |f: FileId| FileUpdate::Decorations(f),
        ));
    } else {
        let init = subs.drop_last();
        files_are_updated_in_order(init);
        assert(all_updates(subs, false, false) =~= Seq::<FileUpdate>::empty());
        assert(all_updates(subs, true, false) =~= subs.map_values(
            |f: FileId| FileUpdate::Diagnostics(f),
        ));
        assert(all_updates(subs, false, true) =~= subs.map_values(
            |f: FileId| FileUpdate::Decorations(f),
        ));
        let before = all_updates(init, true, true);
        let all = all_updates(subs, true, true);
        assert(all =~= before.push(FileUpdate::Diagnostics(subs.last())).push(
            FileUpdate::Decorations(subs.last()),
        ));
        assert forall|i: int| 0 <= i < subs.len() implies all[2 * i] == FileUpdate::Diagnostics(
            #[trigger] subs[i],
        ) && all[2 * i + 1] == FileUpdate::Decorations(subs[i]) by {
            if i < init.len() {
                assert(init[i] == subs[i]);
                assert(all[2 * i] == before[2 * i]);
                assert(all[2 * i + 1] == before[2 * i + 1]);
            }
        }
    }
}

/// Diagnostics and decorations go out under their own methods.
pub proof fn updates_go_out_under_their_method(file_id: FileId, ext: ExtensionMethodsView)
    ensures
        update_method(FileUpdate::Diagnostics(file_id), ext) == "textDocument/publishDiagnostics"@,
        update_method(FileUpdate::Decorations(file_id), ext) == ext.publish_decorations,
{
}

} // verus!
