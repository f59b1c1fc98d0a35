use lsp_types::notification::Notification as _;
use ra_lsp_server::action::Task;
use ra_lsp_server::message::notification_new;
use ra_lsp_server::method::ExtensionMethods;
use ra_lsp_server::subscriptions::FileId;
use ra_lsp_server::updates::{
    update_computed, update_file_notifications, FileUpdate, UpdateOutcome, UpdateResult,
};

fn extension_methods() -> ExtensionMethods {
    ExtensionMethods {
        collect_garbage: "ext/collectGarbage".to_string(),
        join_lines: "ext/joinLines".to_string(),
        on_enter: "ext/onEnter".to_string(),
        find_matching_brace: "ext/findMatchingBrace".to_string(),
        analyzer_status: "ext/analyzerStatus".to_string(),
        syntax_tree: "ext/syntaxTree".to_string(),
        parent_module: "ext/parentModule".to_string(),
        runnables: "ext/runnables".to_string(),
        decorations: "ext/decorationsRequest".to_string(),
        inlay_hints: "ext/inlayHints".to_string(),
        publish_decorations: "ext/publishDecorations".to_string(),
    }
}

#[test]
fn files_are_updated_one_after_the_other() {
    let subs = vec![FileId(3), FileId(1)];
    assert_eq!(
        update_file_notifications(&subs, true, true),
        vec![
            FileUpdate::Diagnostics(FileId(3)),
            FileUpdate::Decorations(FileId(3)),
            FileUpdate::Diagnostics(FileId(1)),
            FileUpdate::Decorations(FileId(1)),
        ]
    );
    assert_eq!(
        update_file_notifications(&subs, true, false),
        vec![FileUpdate::Diagnostics(FileId(3)), FileUpdate::Diagnostics(FileId(1))]
    );
    assert_eq!(
        update_file_notifications(&subs, false, true),
        vec![FileUpdate::Decorations(FileId(3)), FileUpdate::Decorations(FileId(1))]
    );
    assert!(update_file_notifications(&subs, false, false).is_empty());
    assert!(update_file_notifications(&vec![], true, true).is_empty());
}

#[test]
fn computed_updates_are_sent() {
    let ext = extension_methods();
    let computed = || UpdateResult::Computed("{}".to_string());
    assert_eq!(
        update_computed(FileUpdate::Diagnostics(FileId(1)), computed(), &ext),
        UpdateOutcome::Send(Task::Notify(notification_new(
            lsp_types::notification::PublishDiagnostics::METHOD,
            "{}".to_string(),
        )))
    );
    assert_eq!(
        update_computed(FileUpdate::Decorations(FileId(1)), computed(), &ext),
        UpdateOutcome::Send(Task::Notify(notification_new(
            "ext/publishDecorations",
            "{}".to_string(),
        )))
    );
}

#[test]
fn canceled_updates_are_skipped_and_failed_ones_logged() {
    let ext = extension_methods();
    let update = FileUpdate::Diagnostics(FileId(1));
    assert_eq!(update_computed(update, UpdateResult::Canceled, &ext), UpdateOutcome::Skip);
    assert_eq!(update_computed(update, UpdateResult::Failed, &ext), UpdateOutcome::LogFailure);
}
