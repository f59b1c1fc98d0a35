//! What the client is told about the subscribed files after a change.

use vstd::prelude::*;

use crate::action::{Task, TaskView};
use crate::message::{notification_new, NotificationView};
use crate::method::{ExtensionMethods, ExtensionMethodsView};
use crate::subscriptions::FileId;

verus! {

/// Something the client is told about a file.
#[derive(Debug, Clone, Copy, PartialEq, Eq, Structural)]
pub enum FileUpdate {
    Diagnostics(FileId),
    Decorations(FileId),
}

/// What the client is told about one file.
pub open spec fn file_updates(
    file_id: FileId,
    publish_diagnostics: bool,
    publish_decorations: bool,
) -> Seq<FileUpdate> {
    let diagnostics = if publish_diagnostics {
        seq![FileUpdate::Diagnostics(file_id)]
    } else {
        seq![]
    };
    let decorations = if publish_decorations {
        seq![FileUpdate::Decorations(file_id)]
    } else {
        seq![]
    };
    diagnostics + decorations
}

/// What the client is told about a sequence of files, file by file.
pub open spec fn all_updates(
    subscriptions: Seq<FileId>,
    publish_diagnostics: bool,
    publish_decorations: bool,
) -> Seq<FileUpdate>
    decreases subscriptions.len(),
{
    if subscriptions.len() == 0 {
        seq![]
    } else {
        all_updates(subscriptions.drop_last(), publish_diagnostics, publish_decorations)
            + file_updates(subscriptions.last(), publish_diagnostics, publish_decorations)
    }
}

/// Lists what is to be computed for the subscribed files, in order.
pub fn update_file_notifications(
    subscriptions: &Vec<FileId>,
    publish_diagnostics: bool,
    publish_decorations: bool,
) -> (r: Vec<FileUpdate>)
    ensures
        r@ == all_updates(subscriptions@, publish_diagnostics, publish_decorations),
{
    let mut r: Vec<FileUpdate> = Vec::new();
    let mut i: usize = 0;
    while i < subscriptions.len()
        invariant
            i <= subscriptions@.len(),
            r@ == all_updates(
                subscriptions@.take(i as int),
                publish_diagnostics,
                publish_decorations,
            ),
        decreases subscriptions@.len() - i,
    {
        let ghost before = r@;
        let file_id = subscriptions[i];
        if publish_diagnostics {
            r.push(FileUpdate::Diagnostics(file_id));
        }
        if publish_decorations {
            r.push(FileUpdate::Decorations(file_id));
        }
        proof {
            let upto = subscriptions@.take(i + 1);
            assert(upto.drop_last() =~= subscriptions@.take(i as int));
            assert(r@ =~= before + file_updates(
                file_id,
                publish_diagnostics,
                publish_decorations,
            ));
        }
        i += 1;
    }
    assert(subscriptions@.take(i as int) =~= subscriptions@);
    r
}

/// What came of the computation of an update.
#[derive(Debug)]
pub enum UpdateResult {
    /// The parameters of the notification, as JSON.
    Computed(String),
    /// The world changed under it.
    Canceled,
    /// It failed otherwise.
    Failed,
}

/// What is to be done with a computed update.
#[derive(Debug, PartialEq, Eq)]
pub enum UpdateOutcome {
    /// Send the task to the loop.
    Send(Task),
    /// Do nothing: a newer computation is on its way.
    Skip,
    /// Write the failure to the log.
    LogFailure,
}

pub enum UpdateOutcomeView {
    Send(TaskView),
    Skip,
    LogFailure,
}

impl View for UpdateOutcome {
    type V = UpdateOutcomeView;

    open spec fn view(&self) -> UpdateOutcomeView {
        match self {
            UpdateOutcome::Send(task) => UpdateOutcomeView::Send(task@),
            UpdateOutcome::Skip => UpdateOutcomeView::Skip,
            UpdateOutcome::LogFailure => UpdateOutcomeView::LogFailure,
        }
    }
}

/// The method of the notification that carries an update.
pub open spec fn update_method(update: FileUpdate, ext: ExtensionMethodsView) -> Seq<char> {
    match update {
        FileUpdate::Diagnostics(_) => "textDocument/publishDiagnostics"@,
        FileUpdate::Decorations(_) => ext.publish_decorations,
    }
}

/// Decides what is to be done with a computed update.
pub fn update_computed(update: FileUpdate, result: UpdateResult, ext: &ExtensionMethods) -> (r:
    UpdateOutcome)
    ensures
        r@ == match result {
            UpdateResult::Computed(json) => UpdateOutcomeView::Send(
                TaskView::Notify(
                    NotificationView { method: update_method(update, ext@), params: json@ },
                ),
            ),
            UpdateResult::Canceled => UpdateOutcomeView::Skip,
            UpdateResult::Failed => UpdateOutcomeView::LogFailure,
        },
{
    match result {
        UpdateResult::Computed(json) => {
            let not = match update {
                FileUpdate::Diagnostics(_) => {
                    notification_new("textDocument/publishDiagnostics", json)
                },
                FileUpdate::Decorations(_) => {
                    notification_new(ext.publish_decorations.as_str(), json)
                },
            };
            UpdateOutcome::Send(Task::Notify(not))
        },
        UpdateResult::Canceled => UpdateOutcome::Skip,
        UpdateResult::Failed => UpdateOutcome::LogFailure,
    }
}

} // verus!
