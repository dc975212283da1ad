//! Checking of encoded values.
//!
//! The cache stores values as JSON text. Turning typed values into text and
//! back is left to the caller; what is checked here is that a text is
//! well-formed JSON before it is stored.

use vstd::prelude::*;
use crate::error::{BrewDeckError, ErrorKind};

verus! {

/// What `serde_json::from_str::<serde_json::Value>` says of a text: `None`
/// when it accepts the text as one JSON value, else the message of its
/// error. The parser refuses, besides malformed text, values that are nested
/// deeper than its limit.
pub uninterp spec fn json_syntax_error(text: Seq<char>) -> Option<Seq<char>>;

/// Parses `text` with `serde_json::from_str` into a `serde_json::Value`,
/// drops the value and hands back the error's `Display` text, if any. The
/// contract names the outcome: it depends on the characters of `text` alone.
#[verifier::external_body]
pub(crate) fn json_syntax_check(text: &str) -> (problem: Option<String>)
    ensures
        problem is Some == json_syntax_error(text@) is Some,
        problem matches Some(message) ==> json_syntax_error(text@) == Some(message@),
{
    serde_json::from_str::<serde_json::Value>(text).err().map(|e| e.to_string())
}

/// Whether `text` is one well-formed JSON value, as the parser sees it.
pub open spec fn is_json(text: Seq<char>) -> bool {
    json_syntax_error(text) is None
}

/// A text that was checked to be one well-formed JSON value.
pub struct JsonText {
    text: String,
}

impl View for JsonText {
    type V = Seq<char>;

    closed spec fn view(&self) -> Seq<char> {
        self.text@
    }
}

impl JsonText {
    #[verifier::type_invariant]
    spec fn checked(&self) -> bool {
        is_json(self.text@)
    }

    /// Checks a text. A text that is not well-formed JSON is a
    /// `SerializationError` that carries the parser's message.
    pub fn parse(text: String) -> (r: Result<JsonText, BrewDeckError>)
        ensures
            match json_syntax_error(text@) {
                None => r matches Ok(json) && json@ == text@,
                Some(message) => r matches Err(e) && e@.kind == ErrorKind::SerializationError
                    && e@.message == message,
            },
    {
        match json_syntax_check(text.as_str()) {
            None => Ok(JsonText { text }),
            Some(message) => Err(BrewDeckError::from_encoding(message)),
        }
    }

    /// The text.
    pub fn as_str(&self) -> (text: &str)
        ensures
            text@ == self@,
            is_json(text@),
    {
        proof {
            use_type_invariant(self);
        }
        self.text.as_str()
    }

    /// The text, given up by the value.
    pub fn into_string(self) -> (text: String)
        ensures
            text@ == self@,
            is_json(text@),
    {
        proof {
            use_type_invariant(&self);
        }
        self.text
    }
}

} // verus!
