//! The steam2 text notation:
//! `STEAM_<universe digit 0-4>:<auth bit 0-1>:<account number, 1-10 digits>`.

use vstd::prelude::*;
use vstd::string::StrSliceExecFns;
use vstd::string::StringExecFns;

use crate::decimal::all_dec_digits;
use crate::decimal::append_dec_u64;
use crate::decimal::char_digit;
use crate::decimal::dec_render;
use crate::decimal::dec_val;
use crate::decimal::digit_char;
use crate::decimal::digit_val;
use crate::decimal::is_dec_digit;
use crate::decimal::lemma_dec_render_digits;
use crate::decimal::lemma_dec_render_len;
use crate::decimal::lemma_dec_render_val;
use crate::decimal::lemma_digit_run_end_bounds;
use crate::decimal::pow10;
use crate::decimal::scan_digits;
use crate::fields::AccountType;
use crate::fields::SteamIDParseError;
use crate::fields::Universe;
use crate::fields::spec_universe_code;
use crate::fields::spec_universe_from_code;
use crate::instance::Instance;
use crate::instance::InstanceFlags;
use crate::instance::InstanceType;
use crate::steamid::SteamID;
use crate::steamid::spec_steam64;

verus! {

/// The identifier a steam2 string denotes, or nothing when the string is
/// out of grammar. A parsed identifier always carries the Desktop instance
/// and the Individual account type; a universe digit of 0 is coerced to
/// Public, a historical-compatibility rule: clients from before a certain
/// revision wrote universe 0 even for public accounts. The account number
/// may hold at most 10 digits and must fit in 32 bits; the final account
/// id is the number shifted left once with the auth bit in the low bit,
/// truncated to 32 bits.
pub open spec fn spec_from_steam2(s: Seq<char>) -> Option<SteamID> {
    if s.len() < 11 || s.len() > 20 {
        None
    } else if !(s[0] == 'S' && s[1] == 'T' && s[2] == 'E' && s[3] == 'A' && s[4] == 'M' && s[5]
        == '_') {
        None
    } else if !(is_dec_digit(s[6]) && digit_val(s[6]) <= 4) {
        None
    } else if s[7] != ':' {
        None
    } else if !(s[8] == '0' || s[8] == '1') {
        None
    } else if s[9] != ':' {
        None
    } else if !all_dec_digits(s.subrange(10, s.len() as int)) {
        None
    } else if dec_val(s.subrange(10, s.len() as int)) > 0xFFFF_FFFF {
        None
    } else {
        let universe = if digit_val(s[6]) == 0 {
            Universe::Public
        } else {
            spec_universe_from_code(digit_val(s[6]) as u8)->0
        };
        let auth: nat = if s[8] == '1' {
            1
        } else {
            0
        };
        let number = dec_val(s.subrange(10, s.len() as int));
        Some(
            SteamID {
                account_id: ((2 * number + auth) % 0x1_0000_0000) as u32,
                instance: Instance {
                    instance_type: InstanceType::Desktop,
                    flags: InstanceFlags::Empty,
                },
                account_type: AccountType::Individual,
                universe,
            },
        )
    }
}

/// The steam2 rendering of an identifier. Only Individual and Invalid
/// account types have a steam2 representation; for every other type the
/// fallback is the plain decimal 64-bit value, by design not an error.
pub open spec fn spec_steam2_render(id: SteamID) -> Seq<char> {
    match id.account_type {
        AccountType::Individual | AccountType::Invalid => seq!['S', 'T', 'E', 'A', 'M', '_']
            + dec_render(spec_universe_code(id.universe) as nat) + seq![':'] + dec_render(
            (id.account_id % 2) as nat,
        ) + seq![':'] + dec_render((id.account_id / 2) as nat),
        _ => dec_render(spec_steam64(id) as nat),
    }
}

/// The identifiers whose steam2 rendering parses back unchanged: the
/// Individual account type (an Invalid one renders in steam2 form too,
/// but parses back as Individual), the Desktop instance with no flags
/// (the only instance steam2 can carry), and a universe that the one-digit
/// grammar accepts and does not coerce (all but Invalid and RC).
pub open spec fn steam2_round_trippable(id: SteamID) -> bool {
    &&& id.account_type == AccountType::Individual
    &&& id.instance == (Instance {
        instance_type: InstanceType::Desktop,
        flags: InstanceFlags::Empty,
    })
    &&& (id.universe == Universe::Public || id.universe == Universe::Beta || id.universe
        == Universe::Internal || id.universe == Universe::Dev)
}

/// Steam2 round trip: parsing the steam2 rendering of any representable
/// identifier yields exactly that identifier.
pub proof fn lemma_steam2_round_trip(id: SteamID)
    requires
        steam2_round_trippable(id),
    ensures
        spec_from_steam2(spec_steam2_render(id)) == Some(id),
{
    let s = spec_steam2_render(id);
    let u = spec_universe_code(id.universe) as nat;
    let a = id.account_id as nat;
    let auth = a % 2;
    let number = a / 2;
    let ar = dec_render(number);

    lemma_dec_render_digits(number);
    lemma_dec_render_val(number);
    assert(pow10(10) == 10000000000) by {
        reveal_with_fuel(pow10, 11);
    }
    assert(number < 10000000000);
    lemma_dec_render_len(number, 10);

    assert(1 <= u <= 4);
    assert(dec_render(u) =~= seq![digit_char(u)]);
    assert(dec_render(auth) =~= seq![digit_char(auth)]);
    let head = seq!['S', 'T', 'E', 'A', 'M', '_'] + dec_render(u) + seq![':'] + dec_render(auth)
        + seq![':'];
    assert(head =~= seq!['S', 'T', 'E', 'A', 'M', '_', digit_char(u), ':', digit_char(auth), ':']);
    assert(s =~= head + ar);
    let alen = ar.len() as int;
    let len = s.len() as int;
    assert(len == 10 + alen);
    assert(11 <= len <= 20);

    assert(s[0] == 'S' && s[1] == 'T' && s[2] == 'E' && s[3] == 'A' && s[4] == 'M' && s[5] == '_');
    assert(s[6] == digit_char(u));
    assert(is_dec_digit(digit_char(u)) && digit_val(digit_char(u)) == u);
    assert(s[7] == ':' && s[9] == ':');
    assert(s[8] == digit_char(auth));
    assert(auth == 0 || auth == 1);
    assert(s[8] == '0' || s[8] == '1');

    let digits = s.subrange(10, len);
    assert(digits =~= ar);
    assert(dec_val(digits) == number);
    assert(spec_universe_from_code(u as u8) == Some(id.universe));

    let recombined = if s[8] == '1' {
        1nat
    } else {
        0nat
    };
    assert(recombined == auth);
    assert(2 * number + auth == a);
    assert((2 * number + auth) % 0x1_0000_0000 == a);
    assert(spec_from_steam2(s) == Some(id));
}

impl SteamID {
    /// Renders this identifier in steam2 notation, or as its plain decimal
    /// 64-bit value for account types with no steam2 representation.
    pub fn steam2(&self) -> (r: String)
        ensures
            r@ == spec_steam2_render(*self),
    {
        match self.account_type {
            AccountType::Individual | AccountType::Invalid => {
                let mut out = String::new();
                out.append("STEAM_");
                proof {
                    reveal_strlit("STEAM_");
                    assert("STEAM_"@ =~= seq!['S', 'T', 'E', 'A', 'M', '_']);
                }
                append_dec_u64(&mut out, self.universe.code() as u64);
                out.append(":");
                proof {
                    reveal_strlit(":");
                    assert(":"@ =~= seq![':']);
                }
                append_dec_u64(&mut out, (self.account_id % 2) as u64);
                out.append(":");
                append_dec_u64(&mut out, (self.account_id / 2) as u64);
                proof {
                    assert(out@ =~= spec_steam2_render(*self));
                }
                out
            },
            _ => {
                let mut out = String::new();
                append_dec_u64(&mut out, self.steam64());
                proof {
                    assert(out@ =~= spec_steam2_render(*self));
                }
                out
            },
        }
    }

    /// Parses a steam2 string. Succeeds exactly on the strings of the
    /// steam2 grammar whose account number fits in 32 bits, and yields
    /// exactly the identifier the string denotes.
    pub fn from_steam2(steam2: &str) -> (r: Result<SteamID, SteamIDParseError>)
        ensures
            r matches Ok(id) ==> spec_from_steam2(steam2@) == Some(id),
            r is Err <==> spec_from_steam2(steam2@) is None,
    {
        let len = steam2.unicode_len();
        if len < 11 || len > 20 {
            return Err(SteamIDParseError);
        }
        if steam2.get_char(0) != 'S' || steam2.get_char(1) != 'T' || steam2.get_char(2) != 'E'
            || steam2.get_char(3) != 'A' || steam2.get_char(4) != 'M' || steam2.get_char(5)
            != '_' {
            return Err(SteamIDParseError);
        }
        let universe_digit = match char_digit(steam2.get_char(6)) {
            Some(d) => d,
            None => {
                return Err(SteamIDParseError);
            },
        };
        if universe_digit > 4 {
            return Err(SteamIDParseError);
        }
        if steam2.get_char(7) != ':' {
            return Err(SteamIDParseError);
        }
        let auth: u64 = match steam2.get_char(8) {
            '0' => 0,
            '1' => 1,
            _ => {
                return Err(SteamIDParseError);
            },
        };
        if steam2.get_char(9) != ':' {
            return Err(SteamIDParseError);
        }
        let (end, acc) = scan_digits(steam2, 10);
        let ghost digits = steam2@.subrange(10, len as int);
        proof {
            lemma_digit_run_end_bounds(steam2@, 10);
        }
        if end != len {
            proof {
                assert(digits[end - 10] == steam2@[end as int]);
                assert(!all_dec_digits(digits));
            }
            return Err(SteamIDParseError);
        }
        proof {
            assert forall|j: int| 0 <= j < digits.len() implies is_dec_digit(
                #[trigger] digits[j],
            ) by {
                assert(digits[j] == steam2@[10 + j]);
            }
        }
        if acc > 0xFFFF_FFFF {
            return Err(SteamIDParseError);
        }
        let number = acc as u64;
        let account_id = ((2 * number + auth) % 0x1_0000_0000) as u32;
        let universe = if universe_digit == 0 {
            Universe::Public
        } else {
            Universe::from_code(universe_digit).unwrap()
        };
        Ok(
            SteamID::new(
                account_id,
                Instance::new(InstanceType::Desktop, InstanceFlags::Empty),
                AccountType::Individual,
                universe,
            ),
        )
    }
}

} // verus!
