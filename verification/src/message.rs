//! The messages that travel between the client and the server.
//!
//! Parameters and results are JSON; here they are the text of that JSON.

use vstd::prelude::*;

verus! {

/// What a request is known by: a number or a text.
#[derive(Debug, PartialEq, Eq)]
pub enum RequestId {
    Number(u64),
    Text(String),
}

#[verifier::ext_equal]
pub enum RequestIdView {
    Number(u64),
    Text(Seq<char>),
}

impl View for RequestId {
    type V = RequestIdView;

    open spec fn view(&self) -> RequestIdView {
        match self {
            RequestId::Number(n) => RequestIdView::Number(*n),
            RequestId::Text(s) => RequestIdView::Text(s@),
        }
    }
}

impl Clone for RequestId {
    fn clone(&self) -> (r: Self)
        ensures
            r@ == self@,
    {
        match self {
            RequestId::Number(n) => RequestId::Number(*n),
            RequestId::Text(s) => RequestId::Text(s.clone()),
        }
    }
}

impl RequestId {
    /// Whether two ids are the same.
    pub fn same(&self, other: &RequestId) -> (r: bool)
        ensures
            r == (self@ == other@),
            r == match (*self, *other) {
                (RequestId::Number(a), RequestId::Number(b)) => a == b,
                (RequestId::Text(a), RequestId::Text(b)) => a@ == b@,
                _ => false,
            },
    {
        match (self, other) {
            (RequestId::Number(a), RequestId::Number(b)) => *a == *b,
            (RequestId::Text(a), RequestId::Text(b)) => *a == *b,
            _ => false,
        }
    }
}

/// A request: the peer answers it with a response that bears the same id.
#[derive(Debug, PartialEq, Eq)]
pub struct Request {
    pub id: RequestId,
    pub method: String,
    pub params: String,
}

pub struct RequestView {
    pub id: RequestIdView,
    pub method: Seq<char>,
    pub params: Seq<char>,
}

impl View for Request {
    type V = RequestView;

    open spec fn view(&self) -> RequestView {
        RequestView { id: self.id@, method: self.method@, params: self.params@ }
    }
}

/// The error half of a response.
#[derive(Debug, PartialEq, Eq)]
pub struct ResponseError {
    pub code: i32,
    pub message: String,
}

pub struct ResponseErrorView {
    pub code: i32,
    pub message: Seq<char>,
}

impl View for ResponseError {
    type V = ResponseErrorView;

    open spec fn view(&self) -> ResponseErrorView {
        ResponseErrorView { code: self.code, message: self.message@ }
    }
}

/// The answer to a request: a result or an error.
#[derive(Debug, PartialEq, Eq)]
pub struct Response {
    pub id: RequestId,
    pub result: Option<String>,
    pub error: Option<ResponseError>,
}

pub struct ResponseView {
    pub id: RequestIdView,
    pub result: Option<Seq<char>>,
    pub error: Option<ResponseErrorView>,
}

impl View for Response {
    type V = ResponseView;

    open spec fn view(&self) -> ResponseView {
        ResponseView {
            id: self.id@,
            result: match self.result {
                Some(s) => Some(s@),
                None => None,
            },
            error: match self.error {
                Some(e) => Some(e@),
                None => None,
            },
        }
    }
}

/// A message that nobody answers.
#[derive(Debug, PartialEq, Eq)]
pub struct Notification {
    pub method: String,
    pub params: String,
}

pub struct NotificationView {
    pub method: Seq<char>,
    pub params: Seq<char>,
}

impl View for Notification {
    type V = NotificationView;

    open spec fn view(&self) -> NotificationView {
        NotificationView { method: self.method@, params: self.params@ }
    }
}

#[derive(Debug, PartialEq, Eq)]
pub enum Message {
    Request(Request),
    Response(Response),
    Notification(Notification),
}

pub enum MessageView {
    Request(RequestView),
    Response(ResponseView),
    Notification(NotificationView),
}

impl View for Message {
    type V = MessageView;

    open spec fn view(&self) -> MessageView {
        match self {
            Message::Request(r) => MessageView::Request(r@),
            Message::Response(r) => MessageView::Response(r@),
            Message::Notification(n) => MessageView::Notification(n@),
        }
    }
}

/// The protocol's error codes that the loop itself answers with.
#[derive(Debug, Clone, Copy, PartialEq, Eq)]
pub enum ErrorCode {
    MethodNotFound,
    InternalError,
    RequestCanceled,
}

impl ErrorCode {
    pub open spec fn spec_number(self) -> i32 {
        match self {
            ErrorCode::MethodNotFound => -32601i32,
            ErrorCode::InternalError => -32603i32,
            ErrorCode::RequestCanceled => -32800i32,
        }
    }
}

/// The number of an error code on the wire.
pub fn error_number(code: ErrorCode) -> (r: i32)
    ensures
        r == code.spec_number(),
{
    wire_number(code)
}

/// The discriminant of the variant of `lsp_server::ErrorCode` that bears the same name.
/// That the three discriminants are the numbers of `spec_number` is taken from that enum.
#[verifier::external_body]
fn wire_number(code: ErrorCode) -> (r: i32)
    ensures
        r == code.spec_number(),
{
    match code {
        ErrorCode::MethodNotFound => lsp_server::ErrorCode::MethodNotFound as i32,
        ErrorCode::InternalError => lsp_server::ErrorCode::InternalError as i32,
        ErrorCode::RequestCanceled => lsp_server::ErrorCode::RequestCanceled as i32,
    }
}

/// A response that carries a result.
pub open spec fn ok_response(id: RequestIdView, result: Seq<char>) -> ResponseView {
    ResponseView { id, result: Some(result), error: None }
}

/// A response that carries an error.
pub open spec fn err_response(id: RequestIdView, code: i32, message: Seq<char>) -> ResponseView {
    ResponseView { id, result: None, error: Some(ResponseErrorView { code, message }) }
}

impl Response {
    pub fn new_ok(id: RequestId, result: String) -> (r: Response)
        ensures
            r@ == ok_response(id@, result@),
            r.id == id,
            r.result == Some(result),
            r.error is None,
    {
        Response { id, result: Some(result), error: None }
    }

    pub fn new_err(id: RequestId, code: i32, message: String) -> (r: Response)
        ensures
            r@ == err_response(id@, code, message@),
            r.id == id,
            r.result is None,
            r.error matches Some(e) && e.code == code && e.message == message,
    {
        Response { id, result: None, error: Some(ResponseError { code, message }) }
    }
}

/// A request with the given method and parameters.
pub fn request_new(id: RequestId, method: &str, params: String) -> (r: Request)
    ensures
        r@ == (RequestView { id: id@, method: method@, params: params@ }),
        r.id == id,
        r.method@ == method@,
        r.params == params,
{
    Request { id, method: String::from_str(method), params }
}

/// A notification with the given method and parameters.
pub fn notification_new(method: &str, params: String) -> (r: Notification)
    ensures
        r@ == (NotificationView { method: method@, params: params@ }),
        r.method@ == method@,
        r.params == params,
{
    Notification { method: String::from_str(method), params }
}

/// Whether a notification has the given method.
pub fn notification_is(notification: &Notification, method: &str) -> (r: bool)
    ensures
        r == (notification@.method == method@),
        r == (notification.method@ == method@),
{
    notification.method == String::from_str(method)
}

} // verus!
