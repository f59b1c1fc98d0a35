//! The error a request handler answers the client with.

use vstd::prelude::*;

use crate::text::{i32_text, signed_decimal};

verus! {

/// An error with the code and the message that the client is to see.
#[derive(Debug)]
pub struct LspError {
    pub code: i32,
    pub message: String,
}

/// What a reader of an `LspError` sees.
pub open spec fn lsp_error_text(code: i32, message: Seq<char>) -> Seq<char> {
    "Language Server request failed with "@ + signed_decimal(code as int) + ". ("@ + message + ")"@
}

impl LspError {
    pub fn new(code: i32, message: String) -> (r: LspError)
        ensures
            r.code == code,
            r.message == message,
    {
        LspError { code, message }
    }

    /// The error as a sentence.
    pub fn to_text(&self) -> (r: String)
        ensures
            r@ == lsp_error_text(self.code, self.message@),
    {
        let mut r = String::from_str("Language Server request failed with ");
        let code = i32_text(self.code);
        r.append(code.as_str());
        r.append(". (");
        r.append(self.message.as_str());
        r.append(")");
        r
    }
}

} // verus!
