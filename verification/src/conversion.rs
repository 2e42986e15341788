//! The mathematical model of a conversion: the configuration value, the
//! meaning of one conversion call, and the trusted calls into `ansi-to-html`.

use vstd::prelude::*;

verus! {

/// The settings that drive one conversion, as plain values.
///
/// `skip_escape` turns off escaping of HTML special characters in the input,
/// `skip_optimize` turns off minimization of the produced tags, and
/// `four_bit_var_prefix` replaces the default prefix of the CSS custom
/// properties used for the 16 ANSI palette colors (`None` keeps the default).
#[verifier::ext_equal]
pub ghost struct Config {
    pub skip_escape: bool,
    pub skip_optimize: bool,
    pub four_bit_var_prefix: Option<Seq<char>>,
}

impl Config {
    /// The defaults a fresh converter starts from: escape HTML special
    /// characters, optimize the output, use the default CSS variable prefix.
    pub open spec fn default_config() -> Config {
        Config { skip_escape: false, skip_optimize: false, four_bit_var_prefix: None }
    }

    /// The configuration equal to `self` except for `skip_escape`.
    pub open spec fn with_skip_escape(self, skip: bool) -> Config {
        Config { skip_escape: skip, ..self }
    }

    /// The configuration equal to `self` except for `skip_optimize`.
    pub open spec fn with_skip_optimize(self, skip: bool) -> Config {
        Config { skip_optimize: skip, ..self }
    }

    /// The configuration equal to `self` except for `four_bit_var_prefix`.
    pub open spec fn with_four_bit_var_prefix(self, prefix: Option<Seq<char>>) -> Config {
        Config { four_bit_var_prefix: prefix, ..self }
    }
}

/// The characters of an optional prefix string.
pub open spec fn prefix_view(prefix: Option<String>) -> Option<Seq<char>> {
    match prefix {
        Some(s) => Some(s@),
        None => None,
    }
}

/// What `ansi-to-html` produces for `text` under the given settings: the HTML
/// on success, the failure's displayed detail on failure. The conversion is a
/// pure function of these four arguments and of nothing else.
pub uninterp spec fn ansi_html(
    text: Seq<char>,
    skip_escape: bool,
    skip_optimize: bool,
    four_bit_var_prefix: Option<Seq<char>>,
) -> Result<Seq<char>, Seq<char>>;

/// The outcome of converting `text` under the configuration `cfg`.
pub open spec fn conversion(text: Seq<char>, cfg: Config) -> Result<Seq<char>, Seq<char>> {
    ansi_html(text, cfg.skip_escape, cfg.skip_optimize, cfg.four_bit_var_prefix)
}

/// Relies on `ansi_to_html::Converter`: `new` yields the default settings
/// (escaping on, optimization on, no custom prefix), `skip_escape`,
/// `skip_optimize` and `four_bit_var_prefix` each replace exactly the one
/// setting they are named after, and `convert` maps the text to HTML as a
/// pure function of the text and the settings, or reports an error whose
/// display is the failure detail.
#[verifier::external_body]
pub(crate) fn convert_configured(
    text: &str,
    skip_escape: bool,
    skip_optimize: bool,
    four_bit_var_prefix: &Option<String>,
) -> (r: Result<String, String>)
    ensures
        (match r {
            Ok(html) => ansi_html(text@, skip_escape, skip_optimize, prefix_view(*four_bit_var_prefix))
                == Ok::<Seq<char>, Seq<char>>(html@),
            Err(detail) => ansi_html(text@, skip_escape, skip_optimize, prefix_view(*four_bit_var_prefix))
                == Err::<Seq<char>, Seq<char>>(detail@),
        }),
{
    let converter = ansi_to_html::Converter::new()
        .skip_escape(skip_escape)
        .skip_optimize(skip_optimize)
        .four_bit_var_prefix(four_bit_var_prefix.clone());
    match converter.convert(text) {
        Ok(html) => Ok(html),
        Err(err) => Err(format!("{}", err)),
    }
}

/// Relies on `ansi_to_html::convert`, which converts with a converter fresh
/// from `ansi_to_html::Converter::new`, that is, with the default settings.
#[verifier::external_body]
pub(crate) fn convert_default(text: &str) -> (r: Result<String, String>)
    ensures
        (match r {
            Ok(html) => ansi_html(text@, false, false, None)
                == Ok::<Seq<char>, Seq<char>>(html@),
            Err(detail) => ansi_html(text@, false, false, None)
                == Err::<Seq<char>, Seq<char>>(detail@),
        }),
{
    match ansi_to_html::convert(text) {
        Ok(html) => Ok(html),
        Err(err) => Err(format!("{}", err)),
    }
}

} // verus!
