//! The methods the server knows, and how it serves each of them.

use vstd::prelude::*;

verus! {

/// The kinds of request that the server serves.
#[derive(Debug, Clone, Copy, PartialEq, Eq, Structural)]
pub enum RequestKind {
    CollectGarbage,
    JoinLines,
    OnEnter,
    SelectionRange,
    FindMatchingBrace,
    AnalyzerStatus,
    SyntaxTree,
    OnTypeFormatting,
    DocumentSymbol,
    WorkspaceSymbol,
    GotoDefinition,
    GotoImplementation,
    GotoTypeDefinition,
    ParentModule,
    Runnables,
    Decorations,
    Completion,
    CodeAction,
    CodeLens,
    CodeLensResolve,
    FoldingRange,
    SignatureHelp,
    Hover,
    PrepareRename,
    Rename,
    References,
    Formatting,
    DocumentHighlight,
    InlayHints,
}

/// The method names of the server's own extensions of the protocol.
#[derive(Debug)]
pub struct ExtensionMethods {
    pub collect_garbage: String,
    pub join_lines: String,
    pub on_enter: String,
    pub find_matching_brace: String,
    pub analyzer_status: String,
    pub syntax_tree: String,
    pub parent_module: String,
    pub runnables: String,
    pub decorations: String,
    pub inlay_hints: String,
    pub publish_decorations: String,
}

pub struct ExtensionMethodsView {
    pub collect_garbage: Seq<char>,
    pub join_lines: Seq<char>,
    pub on_enter: Seq<char>,
    pub find_matching_brace: Seq<char>,
    pub analyzer_status: Seq<char>,
    pub syntax_tree: Seq<char>,
    pub parent_module: Seq<char>,
    pub runnables: Seq<char>,
    pub decorations: Seq<char>,
    pub inlay_hints: Seq<char>,
    pub publish_decorations: Seq<char>,
}

impl View for ExtensionMethods {
    type V = ExtensionMethodsView;

    open spec fn view(&self) -> ExtensionMethodsView {
        ExtensionMethodsView {
            collect_garbage: self.collect_garbage@,
            join_lines: self.join_lines@,
            on_enter: self.on_enter@,
            find_matching_brace: self.find_matching_brace@,
            analyzer_status: self.analyzer_status@,
            syntax_tree: self.syntax_tree@,
            parent_module: self.parent_module@,
            runnables: self.runnables@,
            decorations: self.decorations@,
            inlay_hints: self.inlay_hints@,
            publish_decorations: self.publish_decorations@,
        }
    }
}

/// The method of the requests of a kind.
pub open spec fn method_of(kind: RequestKind, ext: ExtensionMethodsView) -> Seq<char> {
    match kind {
        RequestKind::CollectGarbage => ext.collect_garbage,
        RequestKind::JoinLines => ext.join_lines,
        RequestKind::OnEnter => ext.on_enter,
        RequestKind::SelectionRange => "textDocument/selectionRange"@,
        RequestKind::FindMatchingBrace => ext.find_matching_brace,
        RequestKind::AnalyzerStatus => ext.analyzer_status,
        RequestKind::SyntaxTree => ext.syntax_tree,
        RequestKind::OnTypeFormatting => "textDocument/onTypeFormatting"@,
        RequestKind::DocumentSymbol => "textDocument/documentSymbol"@,
        RequestKind::WorkspaceSymbol => "workspace/symbol"@,
        RequestKind::GotoDefinition => "textDocument/definition"@,
        RequestKind::GotoImplementation => "textDocument/implementation"@,
        RequestKind::GotoTypeDefinition => "textDocument/typeDefinition"@,
        RequestKind::ParentModule => ext.parent_module,
        RequestKind::Runnables => ext.runnables,
        RequestKind::Decorations => ext.decorations,
        RequestKind::Completion => "textDocument/completion"@,
        RequestKind::CodeAction => "textDocument/codeAction"@,
        RequestKind::CodeLens => "textDocument/codeLens"@,
        RequestKind::CodeLensResolve => "codeLens/resolve"@,
        RequestKind::FoldingRange => "textDocument/foldingRange"@,
        RequestKind::SignatureHelp => "textDocument/signatureHelp"@,
        RequestKind::Hover => "textDocument/hover"@,
        RequestKind::PrepareRename => "textDocument/prepareRename"@,
        RequestKind::Rename => "textDocument/rename"@,
        RequestKind::References => "textDocument/references"@,
        RequestKind::Formatting => "textDocument/formatting"@,
        RequestKind::DocumentHighlight => "textDocument/documentHighlight"@,
        RequestKind::InlayHints => ext.inlay_hints,
    }
}

/// The kinds in the order in which a request is offered to them.
pub open spec fn dispatch_order() -> Seq<RequestKind> {
    seq![
        RequestKind::CollectGarbage,
        RequestKind::JoinLines,
        RequestKind::OnEnter,
        RequestKind::SelectionRange,
        RequestKind::FindMatchingBrace,
        RequestKind::AnalyzerStatus,
        RequestKind::SyntaxTree,
        RequestKind::OnTypeFormatting,
        RequestKind::DocumentSymbol,
        RequestKind::WorkspaceSymbol,
        RequestKind::GotoDefinition,
        RequestKind::GotoImplementation,
        RequestKind::GotoTypeDefinition,
        RequestKind::ParentModule,
        RequestKind::Runnables,
        RequestKind::Decorations,
        RequestKind::Completion,
        RequestKind::CodeAction,
        RequestKind::CodeLens,
        RequestKind::CodeLensResolve,
        RequestKind::FoldingRange,
        RequestKind::SignatureHelp,
        RequestKind::Hover,
        RequestKind::PrepareRename,
        RequestKind::Rename,
        RequestKind::References,
        RequestKind::Formatting,
        RequestKind::DocumentHighlight,
        RequestKind::InlayHints,
    ]
}

/// The kinds whose handlers run on the loop's own thread, before the loop goes on; the
/// handlers of all others run on the thread pool.
pub open spec fn is_sync(kind: RequestKind) -> bool {
    match kind {
        RequestKind::CollectGarbage => true,
        RequestKind::JoinLines => true,
        RequestKind::OnEnter => true,
        RequestKind::SelectionRange => true,
        RequestKind::FindMatchingBrace => true,
        _ => false,
    }
}

/// The first kind, from place `from` of the dispatch order on, whose method is `method`.
pub open spec fn route_from(method: Seq<char>, ext: ExtensionMethodsView, from: int) -> Option<
    RequestKind,
>
    decreases dispatch_order().len() - from,
{
    if from < 0 || from >= dispatch_order().len() {
        None
    } else if method == method_of(dispatch_order()[from], ext) {
        Some(dispatch_order()[from])
    } else {
        route_from(method, ext, from + 1)
    }
}

/// The kind that serves a method, where the server knows it.
pub open spec fn route(method: Seq<char>, ext: ExtensionMethodsView) -> Option<RequestKind> {
    route_from(method, ext, 0)
}

impl RequestKind {
    /// The method of the requests of this kind.
    pub fn method(self, ext: &ExtensionMethods) -> (r: String)
        ensures
            r@ == method_of(self, ext@),
    {
        match self {
            RequestKind::CollectGarbage => ext.collect_garbage.clone(),
            RequestKind::JoinLines => ext.join_lines.clone(),
            RequestKind::OnEnter => ext.on_enter.clone(),
            RequestKind::SelectionRange => String::from_str("textDocument/selectionRange"),
            RequestKind::FindMatchingBrace => ext.find_matching_brace.clone(),
            RequestKind::AnalyzerStatus => ext.analyzer_status.clone(),
            RequestKind::SyntaxTree => ext.syntax_tree.clone(),
            RequestKind::OnTypeFormatting => String::from_str("textDocument/onTypeFormatting"),
            RequestKind::DocumentSymbol => String::from_str("textDocument/documentSymbol"),
            RequestKind::WorkspaceSymbol => String::from_str("workspace/symbol"),
            RequestKind::GotoDefinition => String::from_str("textDocument/definition"),
            RequestKind::GotoImplementation => String::from_str("textDocument/implementation"),
            RequestKind::GotoTypeDefinition => String::from_str("textDocument/typeDefinition"),
            RequestKind::ParentModule => ext.parent_module.clone(),
            RequestKind::Runnables => ext.runnables.clone(),
            RequestKind::Decorations => ext.decorations.clone(),
            RequestKind::Completion => String::from_str("textDocument/completion"),
            RequestKind::CodeAction => String::from_str("textDocument/codeAction"),
            RequestKind::CodeLens => String::from_str("textDocument/codeLens"),
            RequestKind::CodeLensResolve => String::from_str("codeLens/resolve"),
            RequestKind::FoldingRange => String::from_str("textDocument/foldingRange"),
            RequestKind::SignatureHelp => String::from_str("textDocument/signatureHelp"),
            RequestKind::Hover => String::from_str("textDocument/hover"),
            RequestKind::PrepareRename => String::from_str("textDocument/prepareRename"),
            RequestKind::Rename => String::from_str("textDocument/rename"),
            RequestKind::References => String::from_str("textDocument/references"),
            RequestKind::Formatting => String::from_str("textDocument/formatting"),
            RequestKind::DocumentHighlight => String::from_str("textDocument/documentHighlight"),
            RequestKind::InlayHints => ext.inlay_hints.clone(),
        }
    }

    /// Whether the handler runs on the loop's own thread.
    pub fn runs_on_loop(self) -> (r: bool)
        ensures
            r == is_sync(self),
    {
        match self {
            RequestKind::CollectGarbage => true,
            RequestKind::JoinLines => true,
            RequestKind::OnEnter => true,
            RequestKind::SelectionRange => true,
            RequestKind::FindMatchingBrace => true,
            _ => false,
        }
    }

    /// All kinds, in the order in which a request is offered to them.
    pub fn all() -> (r: Vec<RequestKind>)
        ensures
            r@ == dispatch_order(),
    {
        vec![
            RequestKind::CollectGarbage,
            RequestKind::JoinLines,
            RequestKind::OnEnter,
            RequestKind::SelectionRange,
            RequestKind::FindMatchingBrace,
            RequestKind::AnalyzerStatus,
            RequestKind::SyntaxTree,
            RequestKind::OnTypeFormatting,
            RequestKind::DocumentSymbol,
            RequestKind::WorkspaceSymbol,
            RequestKind::GotoDefinition,
            RequestKind::GotoImplementation,
            RequestKind::GotoTypeDefinition,
            RequestKind::ParentModule,
            RequestKind::Runnables,
            RequestKind::Decorations,
            RequestKind::Completion,
            RequestKind::CodeAction,
            RequestKind::CodeLens,
            RequestKind::CodeLensResolve,
            RequestKind::FoldingRange,
            RequestKind::SignatureHelp,
            RequestKind::Hover,
            RequestKind::PrepareRename,
            RequestKind::Rename,
            RequestKind::References,
            RequestKind::Formatting,
            RequestKind::DocumentHighlight,
            RequestKind::InlayHints,
        ]
    }
}

} // verus!
