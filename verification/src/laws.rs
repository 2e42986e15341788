//! Laws the library guarantees, each stated over the configuration model and
//! the conversion outcome that the public contracts use.

use vstd::prelude::*;

use crate::conversion::Config;
use crate::conversion::ansi_html;
use crate::conversion::conversion;
use crate::error_prefix;
use crate::wrapped_message;

verus! {

/// Deriving a configuration from the defaults with `skip_escape` sets that
/// field to the given flag and leaves every other field at its default.
pub proof fn lemma_new_skip_escape(skip: bool)
    ensures
        Config::default_config().with_skip_escape(skip).skip_escape == skip,
        Config::default_config().with_skip_escape(skip).skip_optimize
            == Config::default_config().skip_optimize,
        Config::default_config().with_skip_escape(skip).four_bit_var_prefix
            == Config::default_config().four_bit_var_prefix,
{
}

/// Setters on disjoint fields commute: applying `skip_escape` and
/// `skip_optimize` in either order yields the same configuration.
pub proof fn lemma_escape_optimize_commute(c: Config, escape: bool, optimize: bool)
    ensures
        c.with_skip_escape(escape).with_skip_optimize(optimize)
            == c.with_skip_optimize(optimize).with_skip_escape(escape),
{
    assert(c.with_skip_escape(escape).with_skip_optimize(optimize)
        =~= c.with_skip_optimize(optimize).with_skip_escape(escape));
}

/// Setters on disjoint fields commute: applying `skip_escape` and
/// `four_bit_var_prefix` in either order yields the same configuration.
pub proof fn lemma_escape_prefix_commute(c: Config, escape: bool, prefix: Option<Seq<char>>)
    ensures
        c.with_skip_escape(escape).with_four_bit_var_prefix(prefix)
            == c.with_four_bit_var_prefix(prefix).with_skip_escape(escape),
{
    assert(c.with_skip_escape(escape).with_four_bit_var_prefix(prefix)
        =~= c.with_four_bit_var_prefix(prefix).with_skip_escape(escape));
}

/// Setters on disjoint fields commute: applying `skip_optimize` and
/// `four_bit_var_prefix` in either order yields the same configuration.
pub proof fn lemma_optimize_prefix_commute(c: Config, optimize: bool, prefix: Option<Seq<char>>)
    ensures
        c.with_skip_optimize(optimize).with_four_bit_var_prefix(prefix)
            == c.with_four_bit_var_prefix(prefix).with_skip_optimize(optimize),
{
    assert(c.with_skip_optimize(optimize).with_four_bit_var_prefix(prefix)
        =~= c.with_four_bit_var_prefix(prefix).with_skip_optimize(optimize));
}

/// Conversion is deterministic: its outcome is a function of the input text
/// and the configuration value alone. Together with the setters taking their
/// receiver by shared reference (so a derived configuration is a fresh value
/// and the receiver's configuration is untouched), this is also why deriving
/// a new configuration can never change how the original one converts.
pub proof fn lemma_conversion_deterministic(
    text1: Seq<char>,
    text2: Seq<char>,
    c1: Config,
    c2: Config,
)
    requires
        text1 == text2,
        c1 == c2,
    ensures
        conversion(text1, c1) == conversion(text2, c2),
{
}

/// The free conversion function and a converter fresh from `new` agree: both
/// outcomes are the conversion under the default settings.
pub proof fn lemma_free_matches_builder(text: Seq<char>)
    ensures
        conversion(text, Config::default_config()) == ansi_html(text, false, false, None),
{
}

/// A failure message is the fixed prefix followed by the underlying detail:
/// it starts with `"ANSI conversion error: "` and carries the detail whole.
pub proof fn lemma_wrapped_message_shape(detail: Seq<char>)
    ensures
        wrapped_message(detail).len() == error_prefix().len() + detail.len(),
        wrapped_message(detail).take(error_prefix().len() as int) == error_prefix(),
        wrapped_message(detail).skip(error_prefix().len() as int) == detail,
{
    assert(wrapped_message(detail).take(error_prefix().len() as int) =~= error_prefix());
    assert(wrapped_message(detail).skip(error_prefix().len() as int) =~= detail);
}

} // verus!
