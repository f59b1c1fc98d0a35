use lsp_types::request as r;
use lsp_types::request::Request as _;
use ra_lsp_server::method::{ExtensionMethods, RequestKind};

fn extension_methods() -> ExtensionMethods {
    ExtensionMethods {
        collect_garbage: "ext/collectGarbage".to_string(),
        join_lines: "ext/joinLines".to_string(),
        on_enter: "ext/onEnter".to_string(),
        find_matching_brace: "ext/findMatchingBrace".to_string(),
        analyzer_status: "ext/analyzerStatus".to_string(),
        syntax_tree: "ext/syntaxTree".to_string(),
        parent_module: "ext/parentModule".to_string(),
        runnables: "ext/runnables".to_string(),
        decorations: "ext/decorationsRequest".to_string(),
        inlay_hints: "ext/inlayHints".to_string(),
        publish_decorations: "ext/publishDecorations".to_string(),
    }
}

#[test]
fn standard_methods_are_those_of_the_protocol() {
    let ext = extension_methods();
    let expected = [
        (RequestKind::SelectionRange, r::SelectionRangeRequest::METHOD),
        (RequestKind::OnTypeFormatting, r::OnTypeFormatting::METHOD),
        (RequestKind::DocumentSymbol, r::DocumentSymbolRequest::METHOD),
        (RequestKind::WorkspaceSymbol, r::WorkspaceSymbol::METHOD),
        (RequestKind::GotoDefinition, r::GotoDefinition::METHOD),
        (RequestKind::GotoImplementation, r::GotoImplementation::METHOD),
        (RequestKind::GotoTypeDefinition, r::GotoTypeDefinition::METHOD),
        (RequestKind::Completion, r::Completion::METHOD),
        (RequestKind::CodeAction, r::CodeActionRequest::METHOD),
        (RequestKind::CodeLens, r::CodeLensRequest::METHOD),
        (RequestKind::CodeLensResolve, r::CodeLensResolve::METHOD),
        (RequestKind::FoldingRange, r::FoldingRangeRequest::METHOD),
        (RequestKind::SignatureHelp, r::SignatureHelpRequest::METHOD),
        (RequestKind::Hover, r::HoverRequest::METHOD),
        (RequestKind::PrepareRename, r::PrepareRenameRequest::METHOD),
        (RequestKind::Rename, r::Rename::METHOD),
        (RequestKind::References, r::References::METHOD),
        (RequestKind::Formatting, r::Formatting::METHOD),
        (RequestKind::DocumentHighlight, r::DocumentHighlightRequest::METHOD),
    ];
    for (kind, method) in expected {
        assert_eq!(kind.method(&ext), method);
    }
}

#[test]
fn extension_methods_are_those_given() {
    let ext = extension_methods();
    let expected = [
        (RequestKind::CollectGarbage, "ext/collectGarbage"),
        (RequestKind::JoinLines, "ext/joinLines"),
        (RequestKind::OnEnter, "ext/onEnter"),
        (RequestKind::FindMatchingBrace, "ext/findMatchingBrace"),
        (RequestKind::AnalyzerStatus, "ext/analyzerStatus"),
        (RequestKind::SyntaxTree, "ext/syntaxTree"),
        (RequestKind::ParentModule, "ext/parentModule"),
        (RequestKind::Runnables, "ext/runnables"),
        (RequestKind::Decorations, "ext/decorationsRequest"),
        (RequestKind::InlayHints, "ext/inlayHints"),
    ];
    for (kind, method) in expected {
        assert_eq!(kind.method(&ext), method);
    }
}

#[test]
fn every_kind_is_offered_once() {
    let all = RequestKind::all();
    assert_eq!(all.len(), 29);
    for i in 0..all.len() {
        for j in 0..i {
            assert_ne!(all[i], all[j]);
        }
    }
    let sync: Vec<RequestKind> = all.into_iter().filter(|kind| kind.runs_on_loop()).collect();
    assert_eq!(
        sync,
        vec![
            RequestKind::CollectGarbage,
            RequestKind::JoinLines,
            RequestKind::OnEnter,
            RequestKind::SelectionRange,
            RequestKind::FindMatchingBrace,
        ]
    );
}
