//! Convert text holding ANSI escape codes to HTML, with a small, immutable
//! configuration that a builder-style [`builder::Converter`] accumulates.
//!
//! The conversion itself is done by the `ansi-to-html` crate; this crate keeps
//! the configuration as plain values, states exactly how each setter and each
//! conversion call behaves, and wraps every conversion failure in a single
//! error type whose message carries the underlying detail.

use vstd::prelude::*;

pub mod builder;
pub mod conversion;
pub mod laws;

pub use builder::Converter;

use crate::conversion::Config;
use crate::conversion::conversion;
use vstd::string::StringExecFns;

verus! {

/// The prefix every conversion-failure message starts with.
pub open spec fn error_prefix() -> Seq<char> {
    "ANSI conversion error: "@
}

/// The full message reported for an underlying failure detail: the fixed
/// prefix followed by the detail.
pub open spec fn wrapped_message(detail: Seq<char>) -> Seq<char> {
    error_prefix() + detail
}

/// The error a conversion returns when `ansi-to-html` rejects the input.
/// Its message is `wrapped_message` of the underlying detail.
#[derive(Debug)]
pub struct ConvertError {
    message: String,
}

impl View for ConvertError {
    type V = Seq<char>;

    closed spec fn view(&self) -> Seq<char> {
        self.message@
    }
}

impl ConvertError {
    /// Wraps an underlying failure detail in the fixed message template.
    pub(crate) fn wrap(detail: String) -> (r: ConvertError)
        ensures
            r@ == wrapped_message(detail@),
    {
        ConvertError { message: "ANSI conversion error: ".to_owned().concat(detail.as_str()) }
    }

    /// The full message: the fixed prefix followed by the underlying detail.
    pub fn message(&self) -> (r: &str)
        ensures
            r@ == self@,
    {
        self.message.as_str()
    }
}

/// Converts `text` with the default settings: HTML special characters in the
/// input are escaped and the produced tags are minimized. Succeeds exactly
/// when the conversion of `text` under the default configuration succeeds,
/// and then returns its HTML verbatim; otherwise the error message wraps the
/// underlying detail.
pub fn convert(text: &str) -> (r: Result<String, ConvertError>)
    ensures
        (match conversion(text@, Config::default_config()) {
            Ok(html) => r is Ok && r->Ok_0@ == html,
            Err(detail) => r is Err && r->Err_0@ == wrapped_message(detail),
        }),
{
    match crate::conversion::convert_default(text) {
        Ok(html) => Ok(html),
        Err(detail) => Err(ConvertError::wrap(detail)),
    }
}

} // verus!
