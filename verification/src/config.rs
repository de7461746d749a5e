//! Process configuration: resolving the listen port from an optional
//! environment-style setting. An unparsable setting is fatal to startup, so
//! it is surfaced as a rejection, never replaced by a guess.

use vstd::prelude::*;
use crate::parse::all_digits;
use crate::parse::dec_val;
use crate::parse::parse_decimal;

verus! {

/// The listen port used when the setting is absent.
pub const DEFAULT_PORT: u16 = 8080;

/// Resolves the listen port: an absent setting means the default; a present
/// one must be a decimal number that fits a port, and anything else is
/// rejected so that startup can fail rather than run degraded.
pub fn resolve_port(setting: &Option<Vec<u8>>) -> (r: Option<u16>)
    ensures
        setting is None ==> r == Some(DEFAULT_PORT),
        setting matches Some(v) ==> r == (if v@.len() > 0 && all_digits(v@) && dec_val(v@)
            <= u16::MAX {
            Some(dec_val(v@) as u16)
        } else {
            Option::<u16>::None
        }),
{
    match setting {
        Option::None => Some(DEFAULT_PORT),
        Option::Some(v) => {
            match parse_decimal(v, 65535) {
                Option::Some(x) => Some(x as u16),
                Option::None => None,
            }
        },
    }
}

} // verus!
