//! The parameters of notifications and requests, in and out of JSON.

use vstd::prelude::*;

use crate::message::{RequestId, RequestIdView};

verus! {

/// The texts that a sequence of strings holds.
pub open spec fn texts(strings: Seq<String>) -> Seq<Seq<char>> {
    strings.map_values(|s: String| s@)
}

// ---- Parameters that come in ----

/// What `$/cancelRequest` parameters say: the id of the request, or `None` where the JSON
/// does not hold such parameters.
pub uninterp spec fn cancel_params(json: Seq<char>) -> Option<RequestIdView>;

/// What `textDocument/didOpen` parameters say: the document's URI and its text.
pub uninterp spec fn did_open_params(json: Seq<char>) -> Option<(Seq<char>, Seq<char>)>;

/// What `textDocument/didChange` parameters say: the document's URI and the text of each
/// change.
pub uninterp spec fn did_change_params(json: Seq<char>) -> Option<(Seq<char>, Seq<Seq<char>>)>;

/// What `textDocument/didClose` parameters say: the document's URI.
pub uninterp spec fn did_close_params(json: Seq<char>) -> Option<Seq<char>>;

/// Whether the JSON holds `workspace/didChangeConfiguration` parameters.
pub uninterp spec fn is_did_change_configuration_params(json: Seq<char>) -> bool;

/// What `workspace/didChangeWatchedFiles` parameters say: the URI of each changed file.
pub uninterp spec fn did_change_watched_files_params(json: Seq<char>) -> Option<Seq<Seq<char>>>;

/// `serde_json::from_value` into `lsp_types::CancelParams`, of the value the text stands
/// for. What it makes of the text goes by the name `cancel_params`.
#[verifier::external_body]
pub(crate) fn parse_cancel(json: &str) -> (r: Option<RequestId>)
    ensures
        match r {
            Some(id) => cancel_params(json@) == Some(id@),
            None => cancel_params(json@) is None,
        },
{
    let value: serde_json::Value = serde_json::from_str(json).ok()?;
    let params: lsp_types::CancelParams = serde_json::from_value(value).ok()?;
    Some(match params.id {
        lsp_types::NumberOrString::Number(id) => RequestId::Number(id),
        lsp_types::NumberOrString::String(id) => RequestId::Text(id),
    })
}

/// `serde_json::from_value` into `lsp_types::DidOpenTextDocumentParams`, of the value the
/// text stands for. What it makes of the text goes by the name `did_open_params`.
#[verifier::external_body]
pub(crate) fn parse_did_open(json: &str) -> (r: Option<(String, String)>)
    ensures
        match r {
            Some(p) => did_open_params(json@) == Some((p.0@, p.1@)),
            None => did_open_params(json@) is None,
        },
{
    let value: serde_json::Value = serde_json::from_str(json).ok()?;
    let params: lsp_types::DidOpenTextDocumentParams = serde_json::from_value(value).ok()?;
    Some((String::from(params.text_document.uri), params.text_document.text))
}

/// `serde_json::from_value` into `lsp_types::DidChangeTextDocumentParams`, of the value the
/// text stands for. What it makes of the text goes by the name `did_change_params`.
#[verifier::external_body]
pub(crate) fn parse_did_change(json: &str) -> (r: Option<(String, Vec<String>)>)
    ensures
        match r {
            Some(p) => did_change_params(json@) == Some((p.0@, texts(p.1@))),
            None => did_change_params(json@) is None,
        },
{
    let value: serde_json::Value = serde_json::from_str(json).ok()?;
    let params: lsp_types::DidChangeTextDocumentParams = serde_json::from_value(value).ok()?;
    let changes = params.content_changes.into_iter().map(|change| change.text).collect();
    Some((String::from(params.text_document.uri), changes))
}

/// `serde_json::from_value` into `lsp_types::DidCloseTextDocumentParams`, of the value the
/// text stands for. What it makes of the text goes by the name `did_close_params`.
#[verifier::external_body]
pub(crate) fn parse_did_close(json: &str) -> (r: Option<String>)
    ensures
        match r {
            Some(uri) => did_close_params(json@) == Some(uri@),
            None => did_close_params(json@) is None,
        },
{
    let value: serde_json::Value = serde_json::from_str(json).ok()?;
    let params: lsp_types::DidCloseTextDocumentParams = serde_json::from_value(value).ok()?;
    Some(String::from(params.text_document.uri))
}

/// `serde_json::from_value` into `lsp_types::DidChangeConfigurationParams`, of the value
/// the text stands for. Whether it succeeds goes by the name
/// `is_did_change_configuration_params`.
#[verifier::external_body]
pub(crate) fn parse_did_change_configuration(json: &str) -> (r: bool)
    ensures
        r == is_did_change_configuration_params(json@),
{
    match serde_json::from_str::<serde_json::Value>(json) {
        Ok(value) => {
            serde_json::from_value::<lsp_types::DidChangeConfigurationParams>(value).is_ok()
        },
        Err(_) => false,
    }
}

/// `serde_json::from_value` into `lsp_types::DidChangeWatchedFilesParams`, of the value
/// the text stands for. What it makes of the text goes by the name
/// `did_change_watched_files_params`.
#[verifier::external_body]
pub(crate) fn parse_did_change_watched_files(json: &str) -> (r: Option<Vec<String>>)
    ensures
        match r {
            Some(uris) => did_change_watched_files_params(json@) == Some(texts(uris@)),
            None => did_change_watched_files_params(json@) is None,
        },
{
    let value: serde_json::Value = serde_json::from_str(json).ok()?;
    let params: lsp_types::DidChangeWatchedFilesParams = serde_json::from_value(value).ok()?;
    Some(params.changes.into_iter().map(|change| String::from(change.uri)).collect())
}

// ---- Paths ----

/// The path of the file that a URI names, as the bytes of the platform's own encoding, or
/// `None` where the URI names no file. Which URIs name files, and under which path, is
/// fixed by the platform the crate is built for.
pub uninterp spec fn file_path(uri: Seq<char>) -> Option<Seq<u8>>;

/// The bytes that an optional path holds.
pub open spec fn path_bytes(path: Option<Vec<u8>>) -> Option<Seq<u8>> {
    match path {
        Some(bytes) => Some(bytes@),
        None => None,
    }
}

/// `lsp_types::Url::to_file_path`, of the URL the text stands for. What it makes of the
/// text goes by the name `file_path`.
#[verifier::external_body]
pub(crate) fn uri_to_file_path(uri: &str) -> (r: Option<Vec<u8>>)
    ensures
        path_bytes(r) == file_path(uri@),
{
    let url = lsp_types::Url::parse(uri).ok()?;
    let path = url.to_file_path().ok()?;
    Some(path.into_os_string().into_encoded_bytes())
}

// ---- Parameters that go out ----

/// A hexadecimal digit, in lower case.
pub open spec fn hex_digit(d: int) -> char {
    "0123456789abcdef"@[d]
}

/// A character inside a JSON string.
pub open spec fn json_char(c: char) -> Seq<char> {
    if c == '"' {
        seq!['\\', '"']
    } else if c == '\\' {
        seq!['\\', '\\']
    } else if c == '\u{8}' {
        seq!['\\', 'b']
    } else if c == '\t' {
        seq!['\\', 't']
    } else if c == '\n' {
        seq!['\\', 'n']
    } else if c == '\u{c}' {
        seq!['\\', 'f']
    } else if c == '\r' {
        seq!['\\', 'r']
    } else if (c as int) < 0x20 {
        seq!['\\', 'u', '0', '0', hex_digit((c as int) / 16), hex_digit((c as int) % 16)]
    } else {
        seq![c]
    }
}

/// The characters of a text inside a JSON string.
pub open spec fn json_chars(s: Seq<char>) -> Seq<char>
    decreases s.len(),
{
    if s.len() == 0 {
        seq![]
    } else {
        json_chars(s.drop_last()) + json_char(s.last())
    }
}

/// A text as a JSON string.
pub open spec fn json_string(s: Seq<char>) -> Seq<char> {
    seq!['"'] + json_chars(s) + seq!['"']
}

/// `serde_json::to_string` of a string: the text between double quotes, with quotes,
/// backslashes and control characters escaped.
#[verifier::external_body]
fn quote(s: &str) -> (r: String)
    ensures
        r@ == json_string(s@),
{
    serde_json::to_string(s).unwrap()
}

/// How grave a message to the user is.
#[derive(Debug, Clone, Copy, PartialEq, Eq)]
pub enum MessageType {
    Error,
    Warning,
    Info,
    Log,
}

impl MessageType {
    pub open spec fn spec_number(self) -> char {
        match self {
            MessageType::Error => '1',
            MessageType::Warning => '2',
            MessageType::Info => '3',
            MessageType::Log => '4',
        }
    }
}

/// The parameters of `window/showMessage`.
pub open spec fn show_message_json(typ: MessageType, message: Seq<char>) -> Seq<char> {
    "{\"type\":"@ + seq![typ.spec_number()] + ",\"message\":"@ + json_string(message) + "}"@
}

/// `serde_json::to_string` of `lsp_types::ShowMessageParams`: an object of the type's
/// number and the message.
#[verifier::external_body]
pub(crate) fn show_message_params(typ: MessageType, message: String) -> (r: String)
    ensures
        r@ == show_message_json(typ, message@),
{
    let typ = match typ {
        MessageType::Error => lsp_types::MessageType::Error,
        MessageType::Warning => lsp_types::MessageType::Warning,
        MessageType::Info => lsp_types::MessageType::Info,
        MessageType::Log => lsp_types::MessageType::Log,
    };
    serde_json::to_string(&lsp_types::ShowMessageParams { typ, message }).unwrap()
}

/// The watchers of a registration, one for each glob.
pub open spec fn watchers_json(globs: Seq<Seq<char>>) -> Seq<char>
    decreases globs.len(),
{
    if globs.len() == 0 {
        seq![]
    } else {
        let before = watchers_json(globs.drop_last());
        let comma = if globs.len() == 1 {
            seq![]
        } else {
            seq![',']
        };
        before + comma + "{\"globPattern\":"@ + json_string(globs.last()) + "}"@
    }
}

/// The parameters of `client/registerCapability` that ask the client to watch files.
pub open spec fn registration_json(
    id: Seq<char>,
    method: Seq<char>,
    globs: Seq<Seq<char>>,
) -> Seq<char> {
    "{\"registrations\":[{\"id\":"@ + json_string(id) + ",\"method\":"@ + json_string(method)
        + ",\"registerOptions\":{\"watchers\":["@ + watchers_json(globs) + "]}}]}"@
}

/// `serde_json::to_string` of `lsp_types::RegistrationParams` with one registration, whose
/// options are `lsp_types::DidChangeWatchedFilesRegistrationOptions` with a watcher of no
/// particular kind for each glob.
#[verifier::external_body]
pub(crate) fn registration_params(id: &str, method: &str, globs: Vec<String>) -> (r: String)
    ensures
        r@ == registration_json(id@, method@, texts(globs@)),
{
    let watchers = globs.into_iter()
        .map(|glob_pattern| lsp_types::FileSystemWatcher { glob_pattern, kind: None })
        .collect();
    let options = lsp_types::DidChangeWatchedFilesRegistrationOptions { watchers };
    let registration = lsp_types::Registration {
        id: id.to_string(),
        method: method.to_string(),
        register_options: Some(serde_json::to_value(options).unwrap()),
    };
    let params = lsp_types::RegistrationParams { registrations: vec![registration] };
    serde_json::to_string(&params).unwrap()
}

/// The parameters of `textDocument/publishDiagnostics` that leave a document without
/// diagnostics.
pub open spec fn no_diagnostics_json(uri: Seq<char>) -> Seq<char> {
    "{\"uri\":"@ + json_string(uri) + ",\"diagnostics\":[]}"@
}

/// Writes the parameters that leave a document without diagnostics.
pub fn no_diagnostics_params(uri: &str) -> (r: String)
    ensures
        r@ == no_diagnostics_json(uri@),
{
    let mut r = String::from_str("{\"uri\":");
    let quoted = quote(uri);
    r.append(quoted.as_str());
    r.append(",\"diagnostics\":[]}");
    r
}

// ---- Texts for people ----

/// A text as a programmer writes it: between double quotes, with escapes.
pub uninterp spec fn debug_text(s: Seq<char>) -> Seq<char>;

/// `format!` with `{:?}` of a string. What it writes goes by the name `debug_text`.
#[verifier::external_body]
pub(crate) fn write_debug(s: &str) -> (r: String)
    ensures
        r@ == debug_text(s@),
{
    format!("{:?}", s)
}

} // verus!
