//! The flexible text entry point: a string is read as a plain decimal
//! 64-bit value, as steam2 notation, or as steam3 notation, in that order.

use vstd::prelude::*;
use vstd::string::StrSliceExecFns;

use crate::decimal::all_dec_digits;
use crate::decimal::dec_val;
use crate::decimal::is_dec_digit;
use crate::decimal::lemma_digit_run_end_bounds;
use crate::decimal::lemma_digit_run_end_unique;
use crate::decimal::scan_digits;
use crate::fields::SteamIDParseError;
use crate::steam2::spec_from_steam2;
use crate::steam3::spec_from_steam3;
use crate::steamid::SteamID;
use crate::steamid::spec_from_steam64;

verus! {

/// Where the numeral of a numeric string begins: a single leading plus
/// sign may stand before the digits, as in a decimal 64-bit integer.
pub open spec fn spec_numeric_start(s: Seq<char>) -> int {
    if s.len() >= 1 && s[0] == '+' {
        1
    } else {
        0
    }
}

/// The identifier a string denotes under the three-way reading: a string
/// of digits, with at most one leading plus sign, is a raw 64-bit value
/// (and is then only validated, never re-read as text); otherwise the
/// steam2 reading wins over the steam3 one; a string none of the three
/// grammars accepts denotes nothing.
pub open spec fn spec_parse_any(s: Seq<char>) -> Option<SteamID> {
    let digits = s.subrange(spec_numeric_start(s), s.len() as int);
    if digits.len() >= 1 && all_dec_digits(digits) && dec_val(digits)
        <= 0xFFFF_FFFF_FFFF_FFFF {
        spec_from_steam64(dec_val(digits) as u64)
    } else if spec_from_steam2(s) is Some {
        spec_from_steam2(s)
    } else {
        spec_from_steam3(s)
    }
}

impl SteamID {
    /// Parses a string in any of the three supported forms: a plain
    /// decimal 64-bit value, steam2 notation, or steam3 notation, tried
    /// in that order. Use [`SteamID::from_steam2`] or
    /// [`SteamID::from_steam3`] when the format is known.
    pub fn parse_any(s: &str) -> (r: Result<SteamID, SteamIDParseError>)
        ensures
            r matches Ok(id) ==> spec_parse_any(s@) == Some(id),
            r is Err <==> spec_parse_any(s@) is None,
    {
        let len = s.unicode_len();
        let start: usize = if len >= 1 && s.get_char(0) == '+' {
            1
        } else {
            0
        };
        let (end, acc) = scan_digits(s, start);
        let ghost digits = s@.subrange(start as int, len as int);
        proof {
            lemma_digit_run_end_bounds(s@, start as int);
        }
        if len > start && end == len && acc <= 0xFFFF_FFFF_FFFF_FFFF {
            proof {
                assert(digits =~= s@.subrange(start as int, end as int));
                assert forall|k: int| 0 <= k < digits.len() implies is_dec_digit(
                    #[trigger] digits[k],
                ) by {
                    assert(digits[k] == s@[start + k]);
                }
            }
            SteamID::from_steam64(acc as u64)
        } else {
            proof {
                if digits.len() >= 1 && all_dec_digits(digits) && dec_val(digits)
                    <= 0xFFFF_FFFF_FFFF_FFFF {
                    assert forall|k: int| start <= k < len implies is_dec_digit(
                        #[trigger] s@[k],
                    ) by {
                        assert(s@[k] == digits[k - start]);
                    }
                    lemma_digit_run_end_unique(s@, start as int, len as int);
                    assert(digits =~= s@.subrange(start as int, end as int));
                    assert(false);
                }
            }
            match SteamID::from_steam2(s) {
                Ok(id) => Ok(id),
                Err(_) => SteamID::from_steam3(s),
            }
        }
    }
}

impl core::str::FromStr for SteamID {
    type Err = SteamIDParseError;

    /// Parses via [`SteamID::parse_any`].
    fn from_str(s: &str) -> Result<SteamID, SteamIDParseError> {
        SteamID::parse_any(s)
    }
}

} // verus!
