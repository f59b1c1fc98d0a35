use lsp_types::notification::Notification as _;
use ra_lsp_server::message::{Message, Notification};
use ra_lsp_server::params::MessageType;
use ra_lsp_server::startup::{
    feature_flag_set, globs_parsed, server_options, show_message, unknown_feature_flag,
    vfs_watches, watched_globs, workspace_discovered, ClientCapabilities, GotoCapability, Options,
    TextDocumentCapabilities, WorkspaceRoot,
};

fn shown(message: &Message) -> &Notification {
    match message {
        Message::Notification(n) => {
            assert_eq!(n.method, lsp_types::notification::ShowMessage::METHOD);
            n
        }
        other => panic!("{:?}", other),
    }
}

#[test]
fn messages_are_shown_as_the_protocol_has_it() {
    let types = [
        (MessageType::Error, lsp_types::MessageType::Error, "1"),
        (MessageType::Warning, lsp_types::MessageType::Warning, "2"),
        (MessageType::Info, lsp_types::MessageType::Info, "3"),
        (MessageType::Log, lsp_types::MessageType::Log, "4"),
    ];
    for (typ, protocol_typ, number) in types {
        let message = show_message(typ, "a \"b\"\n\u{e9}".to_string());
        let params = &shown(&message).params;
        assert_eq!(
            *params,
            format!("{{\"type\":{},\"message\":\"a \\\"b\\\"\\n\u{e9}\"}}", number)
        );
        let read: lsp_types::ShowMessageParams = serde_json::from_str(params).unwrap();
        assert_eq!(read.typ, protocol_typ);
        assert_eq!(read.message, "a \"b\"\n\u{e9}");
    }
}

#[test]
fn workspaces_are_collected_and_failures_shown() {
    let mut loaded: Vec<u8> = vec![];
    assert_eq!(workspace_discovered(&mut loaded, Ok(1)), None);
    let message = workspace_discovered(&mut loaded, Err("no Cargo.toml".to_string())).unwrap();
    assert_eq!(
        shown(&message).params,
        "{\"type\":1,\"message\":\"rust-analyzer failed to load workspace: no Cargo.toml\"}"
    );
    assert_eq!(workspace_discovered(&mut loaded, Ok(2)), None);
    assert_eq!(loaded, vec![1, 2]);
}

#[test]
fn unknown_flags_are_shown() {
    assert_eq!(feature_flag_set("lsp.diagnostics", true), None);
    let message = feature_flag_set("no\"such\nflag", false).unwrap();
    let read: lsp_types::ShowMessageParams =
        serde_json::from_str(&shown(&message).params).unwrap();
    assert_eq!(read.typ, lsp_types::MessageType::Error);
    assert_eq!(read.message, "unknown feature flag: \"no\\\"such\\nflag\"");
    let message = unknown_feature_flag("x");
    assert_eq!(
        shown(&message).params,
        "{\"type\":1,\"message\":\"unknown feature flag: x\"}"
    );
}

#[test]
fn only_members_are_watched() {
    let roots = vec![
        WorkspaceRoot { path: "/a".to_string(), is_member: true },
        WorkspaceRoot { path: "/b".to_string(), is_member: false },
        WorkspaceRoot { path: "/c".to_string(), is_member: true },
    ];
    assert_eq!(watched_globs(&roots), vec!["/a/**/*.rs", "/c/**/*.rs"]);
    assert!(watched_globs(&vec![]).is_empty());
}

#[test]
fn links_need_the_whole_chain_of_capabilities() {
    let caps = |link_support| ClientCapabilities {
        text_document: Some(TextDocumentCapabilities {
            definition: Some(GotoCapability { link_support }),
        }),
    };
    let links = |caps| server_options(false, caps).supports_location_link;
    assert!(links(caps(Some(true))));
    assert!(!links(caps(Some(false))));
    assert!(!links(caps(None)));
    assert!(!links(ClientCapabilities {
        text_document: Some(TextDocumentCapabilities { definition: None }),
    }));
    assert!(!links(ClientCapabilities { text_document: None }));
    assert_eq!(
        server_options(true, caps(Some(true))),
        Options { publish_decorations: true, supports_location_link: true }
    );
}

#[test]
fn the_first_bad_glob_is_the_error() {
    let none: Vec<Result<u8, &str>> = vec![];
    assert_eq!(globs_parsed(none), Ok(vec![]));
    assert_eq!(globs_parsed::<u8, &str>(vec![Ok(1), Ok(2)]), Ok(vec![1, 2]));
    assert_eq!(
        globs_parsed(vec![Ok(1), Err("first"), Ok(2), Err("second")]),
        Err("first")
    );
}

#[test]
fn the_server_watches_unless_the_client_does() {
    assert!(vfs_watches(false));
    assert!(!vfs_watches(true));
}
