use ra_lsp_server::action::LoopError;
use ra_lsp_server::lsp_error::LspError;

#[test]
fn lsp_error_keeps_code_and_message() {
    let e = LspError::new(7, "no such item".to_string());
    assert_eq!(e.code, 7);
    assert_eq!(e.message, "no such item");
}

#[test]
fn lsp_error_reads_as_a_sentence() {
    let e = LspError::new(-32603, "boom".to_string());
    assert_eq!(e.to_text(), "Language Server request failed with -32603. (boom)");
    let e = LspError::new(0, String::new());
    assert_eq!(e.to_text(), "Language Server request failed with 0. ()");
}

#[test]
fn loop_errors_read_as_sentences() {
    assert_eq!(
        LoopError::InvalidUri("untitled:Untitled-1".to_string()).to_text(),
        "invalid uri: untitled:Untitled-1"
    );
    assert_eq!(LoopError::EmptyChanges.to_text(), "empty changes");
    assert_eq!(LoopError::ClientExited.to_text(), "client exited without shutdown");
    assert_eq!(LoopError::VfsDied.to_text(), "vfs died");
}
