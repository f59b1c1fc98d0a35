//! What happens before the first turn of the loop.

use vstd::prelude::*;

use crate::message::{notification_new, Message, MessageView, NotificationView};
use crate::params::{
    debug_text, show_message_json, show_message_params, texts, write_debug, MessageType,
};

verus! {

/// The notification that puts a message before the user.
pub open spec fn shown(typ: MessageType, message: Seq<char>) -> MessageView {
    MessageView::Notification(
        NotificationView {
            method: "window/showMessage"@,
            params: show_message_json(typ, message),
        },
    )
}

/// Makes the notification that puts a message before the user.
pub fn show_message(typ: MessageType, message: String) -> (r: Message)
    ensures
        r@ == shown(typ, message@),
{
    let params = show_message_params(typ, message);
    Message::Notification(notification_new("window/showMessage", params))
}

/// Takes in the outcome of loading a workspace: a workspace joins those loaded before, a
/// failure is put before the user.
pub fn workspace_discovered<W>(loaded: &mut Vec<W>, outcome: Result<W, String>) -> (r: Option<
    Message,
>)
    ensures
        match outcome {
            Ok(workspace) => r is None && final(loaded)@ == old(loaded)@.push(workspace),
            Err(e) => {
                &&& final(loaded)@ == old(loaded)@
                &&& r matches Some(m) && m@ == shown(
                    MessageType::Error,
                    "rust-analyzer failed to load workspace: "@ + e@,
                )
            },
        },
{
    match outcome {
        Ok(workspace) => {
            loaded.push(workspace);
            None
        },
        Err(e) => {
            let mut message = String::from_str("rust-analyzer failed to load workspace: ");
            message.append(e.as_str());
            Some(show_message(MessageType::Error, message))
        },
    }
}

/// Puts a flag that the server does not know before the user; `flag` is the flag as it is
/// to be shown.
pub fn unknown_feature_flag(flag: &str) -> (r: Message)
    ensures
        r@ == shown(MessageType::Error, "unknown feature flag: "@ + flag@),
{
    let mut message = String::from_str("unknown feature flag: ");
    message.append(flag);
    show_message(MessageType::Error, message)
}

/// Takes in the outcome of setting a feature flag: a flag that the server does not know is
/// put before the user.
pub fn feature_flag_set(flag: &str, known: bool) -> (r: Option<Message>)
    ensures
        known ==> r is None,
        !known ==> (r matches Some(m) && m@ == shown(
            MessageType::Error,
            "unknown feature flag: "@ + debug_text(flag@),
        )),
{
    if known {
        None
    } else {
        let flag = write_debug(flag);
        Some(unknown_feature_flag(flag.as_str()))
    }
}

/// Takes in the outcomes of reading the globs of the files to leave out: all globs in order,
/// or the first failure.
pub fn globs_parsed<G, E>(outcomes: Vec<Result<G, E>>) -> (r: Result<Vec<G>, E>)
    ensures
        match r {
            Ok(globs) => {
                &&& globs@.len() == outcomes@.len()
                &&& forall|i: int|
                    0 <= i < outcomes@.len() ==> #[trigger] outcomes@[i] == Ok::<G, E>(globs@[i])
            },
            Err(e) => exists|i: int|
                0 <= i < outcomes@.len() && first_failure(outcomes@, i) && outcomes@[i] == Err::<
                    G,
                    E,
                >(e),
        },
        r is Ok <==> forall|i: int| 0 <= i < outcomes@.len() ==> (#[trigger] outcomes@[i]) is Ok,
{
    let mut globs: Vec<G> = Vec::new();
    for outcome in it: outcomes
        invariant
            it.seq() == outcomes@,
            globs@.len() == it.index(),
            forall|i: int|
                0 <= i < it.index() ==> #[trigger] outcomes@[i] == Ok::<G, E>(globs@[i]),
    {
        match outcome {
            Ok(glob) => globs.push(glob),
            Err(e) => {
                assert(first_failure(outcomes@, it.index() as int));
                return Err(e);
            },
        }
    }
    Ok(globs)
}

/// Whether the outcome at `i` is a failure, and none before it is.
pub open spec fn first_failure<G, E>(outcomes: Seq<Result<G, E>>, i: int) -> bool {
    outcomes[i] is Err && forall|j: int| 0 <= j < i ==> (#[trigger] outcomes[j]) is Ok
}

/// Says whether the server watches the files itself: it does unless the client does.
pub fn vfs_watches(use_client_watching: bool) -> (r: bool)
    ensures
        r == !use_client_watching,
{
    !use_client_watching
}

/// A root directory of a workspace.
#[derive(Debug)]
pub struct WorkspaceRoot {
    pub path: String,
    /// Whether it belongs to the workspace itself rather than to a dependency.
    pub is_member: bool,
}

/// The glob that covers the sources below a directory.
pub open spec fn source_glob(path: Seq<char>) -> Seq<char> {
    path + "/**/*.rs"@
}

/// The globs that cover the sources of the workspaces' members.
pub open spec fn member_globs(roots: Seq<WorkspaceRoot>) -> Seq<Seq<char>>
    decreases roots.len(),
{
    if roots.len() == 0 {
        seq![]
    } else if roots.last().is_member {
        member_globs(roots.drop_last()).push(source_glob(roots.last().path@))
    } else {
        member_globs(roots.drop_last())
    }
}

/// Lists the globs that cover the sources of the workspaces' members.
pub fn watched_globs(roots: &Vec<WorkspaceRoot>) -> (r: Vec<String>)
    ensures
        texts(r@) == member_globs(roots@),
{
    let mut r: Vec<String> = Vec::new();
    let mut i: usize = 0;
    assert(texts(r@) =~= member_globs(roots@.take(0)));
    while i < roots.len()
        invariant
            i <= roots@.len(),
            texts(r@) == member_globs(roots@.take(i as int)),
        decreases roots@.len() - i,
    {
        let ghost before = r@;
        proof {
            assert(roots@.take(i + 1).drop_last() =~= roots@.take(i as int));
        }
        if roots[i].is_member {
            let mut glob = roots[i].path.clone();
            glob.append("/**/*.rs");
            r.push(glob);
            assert(texts(r@) =~= texts(before).push(glob@));
        }
        i += 1;
    }
    assert(roots@.take(i as int) =~= roots@);
    r
}

/// What the server reads of the client's capabilities.
#[derive(Debug, Clone, Copy)]
pub struct ClientCapabilities {
    pub text_document: Option<TextDocumentCapabilities>,
}

#[derive(Debug, Clone, Copy)]
pub struct TextDocumentCapabilities {
    pub definition: Option<GotoCapability>,
}

#[derive(Debug, Clone, Copy)]
pub struct GotoCapability {
    pub link_support: Option<bool>,
}

/// Whether the client says, all the way down, that it takes links to definitions.
pub open spec fn location_links(caps: ClientCapabilities) -> bool {
    caps.text_document matches Some(text_document) && text_document.definition matches Some(
        definition,
    ) && definition.link_support == Some(true)
}

/// The choices that hold for the life of the server.
#[derive(Debug, Clone, Copy, PartialEq, Eq)]
pub struct Options {
    pub publish_decorations: bool,
    pub supports_location_link: bool,
}

/// Draws the options from the configuration and the client's capabilities.
pub fn server_options(publish_decorations: bool, client_caps: ClientCapabilities) -> (r: Options)
    ensures
        r.publish_decorations == publish_decorations,
        r.supports_location_link == location_links(client_caps),
{
    let supports_location_link = match client_caps.text_document {
        Some(text_document) => match text_document.definition {
            Some(definition) => match definition.link_support {
                Some(link_support) => link_support,
                None => false,
            },
            None => false,
        },
        None => false,
    };
    Options { publish_decorations, supports_location_link }
}

} // verus!
