//! The builder-style converter: an immutable configuration value with
//! setters that each return a fresh, singly-changed copy.

use vstd::prelude::*;

use crate::ConvertError;
use crate::conversion::Config;
use crate::conversion::conversion;
use crate::conversion::prefix_view;
use crate::wrapped_message;

verus! {

/// An immutable conversion configuration.
///
/// Every setter takes the receiver by shared reference and returns a new
/// value with exactly one field changed, so a partially configured converter
/// can be branched and reused freely.
pub struct Converter {
    pub skip_escape: bool,
    pub skip_optimize: bool,
    pub four_bit_var_prefix: Option<String>,
}

impl View for Converter {
    type V = Config;

    open spec fn view(&self) -> Config {
        Config {
            skip_escape: self.skip_escape,
            skip_optimize: self.skip_optimize,
            four_bit_var_prefix: prefix_view(self.four_bit_var_prefix),
        }
    }
}

impl Converter {
    /// A converter with the default settings.
    pub fn new() -> (r: Converter)
        ensures
            r@ == Config::default_config(),
    {
        Converter { skip_escape: false, skip_optimize: false, four_bit_var_prefix: None }
    }

    /// A copy of `self` in which HTML special characters are escaped during
    /// conversion exactly when `skip` is false; every other setting is kept.
    pub fn skip_escape(&self, skip: bool) -> (r: Converter)
        ensures
            r@ == self@.with_skip_escape(skip),
    {
        Converter {
            skip_escape: skip,
            skip_optimize: self.skip_optimize,
            four_bit_var_prefix: clone_prefix(&self.four_bit_var_prefix),
        }
    }

    /// A copy of `self` in which the produced HTML is optimized exactly when
    /// `skip` is false; every other setting is kept.
    pub fn skip_optimize(&self, skip: bool) -> (r: Converter)
        ensures
            r@ == self@.with_skip_optimize(skip),
    {
        Converter {
            skip_escape: self.skip_escape,
            skip_optimize: skip,
            four_bit_var_prefix: clone_prefix(&self.four_bit_var_prefix),
        }
    }

    /// A copy of `self` that uses `prefix` for the CSS custom properties of
    /// the 16 ANSI palette colors (`None` restores the default prefix); every
    /// other setting is kept.
    pub fn four_bit_var_prefix(&self, prefix: Option<String>) -> (r: Converter)
        ensures
            r@ == self@.with_four_bit_var_prefix(prefix_view(prefix)),
    {
        Converter {
            skip_escape: self.skip_escape,
            skip_optimize: self.skip_optimize,
            four_bit_var_prefix: prefix,
        }
    }

    /// Converts `text` under the accumulated settings. Succeeds exactly when
    /// the conversion of `text` under `self`'s configuration succeeds, and
    /// then returns its HTML verbatim; otherwise the error message wraps the
    /// underlying detail.
    pub fn convert(&self, text: &str) -> (r: Result<String, ConvertError>)
        ensures
            (match conversion(text@, self@) {
                Ok(html) => r is Ok && r->Ok_0@ == html,
                Err(detail) => r is Err && r->Err_0@ == wrapped_message(detail),
            }),
    {
        let out = crate::conversion::convert_configured(
            text,
            self.skip_escape,
            self.skip_optimize,
            &self.four_bit_var_prefix,
        );
        match out {
            Ok(html) => Ok(html),
            Err(detail) => Err(ConvertError::wrap(detail)),
        }
    }
}

/// A copy of an optional prefix string with the same characters.
fn clone_prefix(prefix: &Option<String>) -> (r: Option<String>)
    ensures
        prefix_view(r) == prefix_view(*prefix),
{
    match prefix {
        Some(s) => Some(s.clone()),
        None => None,
    }
}

} // verus!
