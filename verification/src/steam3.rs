//! The steam3 text notation:
//! `[<type char>:<universe digit 0-4>:<account number>(:<instance number>)?]`.

use vstd::prelude::*;
use vstd::string::StrSliceExecFns;
use vstd::string::StringExecFns;

use crate::decimal::append_dec_u64;
use crate::decimal::char_digit;
use crate::decimal::digit_char;
use crate::decimal::dec_render;
use crate::decimal::dec_val;
use crate::decimal::digit_run_end;
use crate::decimal::digit_val;
use crate::decimal::is_dec_digit;
use crate::decimal::lemma_dec_render_digits;
use crate::decimal::lemma_dec_render_len;
use crate::decimal::lemma_dec_render_val;
use crate::decimal::lemma_digit_run_end_bounds;
use crate::decimal::lemma_digit_run_end_unique;
use crate::decimal::pow10;
use crate::decimal::scan_digits;
use crate::fields::AccountType;
use crate::fields::SteamIDParseError;
use crate::fields::Universe;
use crate::fields::spec_universe_code;
use crate::fields::spec_universe_from_code;
use crate::instance::Instance;
use crate::instance::InstanceFlags;
use crate::instance::InstanceType;
use crate::instance::spec_instance_type_code;
use crate::instance::spec_instance_type_from_code;
use crate::instance::spec_instance_value;
use crate::steamid::SteamID;

verus! {

/// The steam3 type character of an account type, refined by the instance
/// flags for chat identifiers.
pub open spec fn spec_type_char(t: AccountType, f: InstanceFlags) -> char {
    match t {
        AccountType::Invalid => 'I',
        AccountType::Individual => 'U',
        AccountType::Multiseat => 'M',
        AccountType::GameServer => 'G',
        AccountType::AnonGameServer => 'A',
        AccountType::Pending => 'P',
        AccountType::ContentServer => 'C',
        AccountType::Clan => 'g',
        AccountType::Chat => match f {
            InstanceFlags::Clan => 'c',
            InstanceFlags::Lobby => 'L',
            _ => 'T',
        },
        AccountType::ConsoleUser => 'U',
        AccountType::AnonUser => 'a',
    }
}

/// The fixed steam3 table from a type character to an account type and the
/// instance flags the character conveys; flags are never conveyed by the
/// numeric instance suffix, only by the type character.
pub open spec fn spec_char_account_type(c: char) -> Option<(AccountType, InstanceFlags)> {
    if c == 'U' {
        Some((AccountType::Individual, InstanceFlags::Empty))
    } else if c == 'M' {
        Some((AccountType::Multiseat, InstanceFlags::Empty))
    } else if c == 'G' {
        Some((AccountType::GameServer, InstanceFlags::Empty))
    } else if c == 'A' {
        Some((AccountType::AnonGameServer, InstanceFlags::Empty))
    } else if c == 'P' {
        Some((AccountType::Pending, InstanceFlags::Empty))
    } else if c == 'C' {
        Some((AccountType::ContentServer, InstanceFlags::Empty))
    } else if c == 'g' {
        Some((AccountType::Clan, InstanceFlags::Empty))
    } else if c == 'T' {
        Some((AccountType::Chat, InstanceFlags::Empty))
    } else if c == 'c' {
        Some((AccountType::Chat, InstanceFlags::Clan))
    } else if c == 'L' {
        Some((AccountType::Chat, InstanceFlags::Lobby))
    } else if c == 'a' {
        Some((AccountType::AnonUser, InstanceFlags::Empty))
    } else if c == 'I' || c == 'i' {
        Some((AccountType::Invalid, InstanceFlags::Empty))
    } else {
        None
    }
}

/// Whether the steam3 rendering of an identifier carries the numeric
/// instance segment: always for AnonGameServer and Multiseat, for
/// Individual only away from the Desktop default, never otherwise.
pub open spec fn spec_steam3_show_instance(id: SteamID) -> bool {
    match id.account_type {
        AccountType::AnonGameServer | AccountType::Multiseat => true,
        AccountType::Individual => id.instance.instance_type != InstanceType::Desktop,
        _ => false,
    }
}

/// The steam3 rendering of an identifier.
pub open spec fn spec_steam3_render(id: SteamID) -> Seq<char> {
    seq!['['] + seq![spec_type_char(id.account_type, id.instance.flags)] + seq![':'] + dec_render(
        spec_universe_code(id.universe) as nat,
    ) + seq![':'] + dec_render(id.account_id as nat) + (if spec_steam3_show_instance(id) {
        seq![':'] + dec_render(spec_instance_value(id.instance) as nat)
    } else {
        Seq::<char>::empty()
    }) + seq![']']
}

/// The identifier a steam3 string denotes, or nothing when the string is
/// out of grammar. The account number takes 1 to 10 digits and must fit
/// in 32 bits. When no instance suffix is given, the instance type
/// defaults by account type: Desktop for Individual, All for every other.
/// When a suffix is given but the account type is Clan or Chat, the
/// instance type is forced to All regardless of the supplied number:
/// clan and chat identifiers carry no meaningful instance type.
pub open spec fn spec_from_steam3(s: Seq<char>) -> Option<SteamID> {
    if s.len() < 7 {
        None
    } else if s[0] != '[' {
        None
    } else if spec_char_account_type(s[1]) is None {
        None
    } else if s[2] != ':' {
        None
    } else if !(is_dec_digit(s[3]) && digit_val(s[3]) <= 4) {
        None
    } else if s[4] != ':' {
        None
    } else if s[s.len() - 1] != ']' {
        None
    } else {
        let (account_type, char_flags) = spec_char_account_type(s[1])->0;
        let universe = spec_universe_from_code(digit_val(s[3]) as u8)->0;
        let end = s.len() - 1;
        let j = digit_run_end(s, 5);
        if j == 5 || j - 5 > 10 || dec_val(s.subrange(5, j)) > 0xFFFF_FFFF {
            None
        } else {
            let account_id = dec_val(s.subrange(5, j)) as u32;
            if j == end {
                let instance_type = if account_type == AccountType::Individual {
                    InstanceType::Desktop
                } else {
                    InstanceType::All
                };
                Some(
                    SteamID {
                        account_id,
                        instance: Instance { instance_type, flags: char_flags },
                        account_type,
                        universe,
                    },
                )
            } else if s[j] == ':' {
                let k = digit_run_end(s, j + 1);
                if k != end || k == j + 1 || dec_val(s.subrange(j + 1, k)) > 0xFFFF_FFFF {
                    None
                } else if spec_instance_type_from_code(
                    dec_val(s.subrange(j + 1, k)) as u32,
                ) is None {
                    None
                } else {
                    let explicit = spec_instance_type_from_code(dec_val(s.subrange(j + 1, k)) as u32)->0;
                    let instance_type = if account_type == AccountType::Clan || account_type
                        == AccountType::Chat {
                        InstanceType::All
                    } else {
                        explicit
                    };
                    Some(
                        SteamID {
                            account_id,
                            instance: Instance { instance_type, flags: char_flags },
                            account_type,
                            universe,
                        },
                    )
                }
            } else {
                None
            }
        }
    }
}

/// The identifiers whose steam3 rendering parses back unchanged: every
/// account type but ConsoleUser (whose type character belongs to
/// Individual), every universe with a single-digit code in the grammar
/// (all but RC), flags only where the type character conveys them, and an
/// instance type that the rendering carries — explicitly for
/// AnonGameServer, Multiseat and Individual, as the All default otherwise.
pub open spec fn steam3_round_trippable(id: SteamID) -> bool {
    &&& id.account_type != AccountType::ConsoleUser
    &&& id.universe != Universe::RC
    &&& (id.instance.flags == InstanceFlags::Empty || (id.account_type == AccountType::Chat && (
    id.instance.flags == InstanceFlags::Clan || id.instance.flags == InstanceFlags::Lobby)))
    &&& (match id.account_type {
        AccountType::AnonGameServer | AccountType::Multiseat | AccountType::Individual => true,
        _ => id.instance.instance_type == InstanceType::All,
    })
}

/// Steam3 round trip: parsing the steam3 rendering of any representable
/// identifier yields exactly that identifier.
pub proof fn lemma_steam3_round_trip(id: SteamID)
    requires
        steam3_round_trippable(id),
    ensures
        spec_from_steam3(spec_steam3_render(id)) == Some(id),
{
    let s = spec_steam3_render(id);
    let tc = spec_type_char(id.account_type, id.instance.flags);
    let u = spec_universe_code(id.universe) as nat;
    let a = id.account_id as nat;
    let ar = dec_render(a);
    let iv = spec_instance_value(id.instance) as nat;
    let ir = dec_render(iv);
    let show = spec_steam3_show_instance(id);
    let mid: Seq<char> = if show {
        seq![':'] + ir
    } else {
        Seq::<char>::empty()
    };
    let head = seq!['['] + seq![tc] + seq![':'] + dec_render(u) + seq![':'];

    lemma_dec_render_digits(a);
    lemma_dec_render_val(a);
    assert(pow10(10) == 10000000000) by {
        reveal_with_fuel(pow10, 11);
    }
    lemma_dec_render_len(a, 10);
    lemma_dec_render_digits(iv);
    lemma_dec_render_val(iv);

    assert(u <= 4);
    assert(dec_render(u) =~= seq![digit_char(u)]);
    assert(head =~= seq!['[', tc, ':', digit_char(u), ':']);
    assert(s =~= head + ar + mid + seq![']']);
    let alen = ar.len() as int;
    let len = s.len() as int;
    let end = len - 1;
    assert(len == 6 + alen + mid.len());

    assert(s[0] == '[');
    assert(s[1] == tc);
    assert(s[2] == ':');
    assert(s[3] == digit_char(u));
    assert(s[4] == ':');
    assert(s[end] == ']');

    assert(spec_char_account_type(tc) == Some((id.account_type, id.instance.flags)));
    assert(is_dec_digit(digit_char(u)) && digit_val(digit_char(u)) == u);
    assert(spec_universe_from_code(u as u8) == Some(id.universe));

    assert forall|x: int| 5 <= x < 5 + alen implies is_dec_digit(#[trigger] s[x]) by {
        assert(s[x] == ar[x - 5]);
    }
    assert(!is_dec_digit(s[5 + alen])) by {
        if show {
            assert(s[5 + alen] == mid[0] == ':');
        } else {
            assert(s[5 + alen] == ']');
        }
    }
    lemma_digit_run_end_unique(s, 5, 5 + alen);
    let j = digit_run_end(s, 5);
    assert(j == 5 + alen);
    assert(s.subrange(5, j) =~= ar);
    assert(dec_val(s.subrange(5, j)) == a);

    if !show {
        assert(j == end);
        assert(spec_from_steam3(s) == Some(id));
    } else {
        let ilen = ir.len() as int;
        assert(mid.len() == 1 + ilen);
        assert(s[j] == mid[0] == ':');
        assert forall|x: int| j + 1 <= x < j + 1 + ilen implies is_dec_digit(#[trigger] s[x]) by {
            assert(s[x] == mid[x - j] == ir[x - (j + 1)]);
        }
        assert(j + 1 + ilen == end);
        lemma_digit_run_end_unique(s, j + 1, end);
        let k = digit_run_end(s, j + 1);
        assert(k == end && k != j + 1);
        assert(s.subrange(j + 1, k) =~= ir);
        assert(dec_val(s.subrange(j + 1, k)) == iv);
        assert(id.instance.flags == InstanceFlags::Empty);
        assert(iv == spec_instance_type_code(id.instance.instance_type));
        assert(spec_instance_type_from_code(iv as u32) == Some(id.instance.instance_type));
        assert(spec_from_steam3(s) == Some(id));
    }
}

/// The steam3 type character of an account type, refined by the instance
/// flags for chat identifiers.
pub fn account_type_to_char(account_type: AccountType, flags: InstanceFlags) -> (r: char)
    ensures
        r == spec_type_char(account_type, flags),
{
    match account_type {
        AccountType::Invalid => 'I',
        AccountType::Individual => 'U',
        AccountType::Multiseat => 'M',
        AccountType::GameServer => 'G',
        AccountType::AnonGameServer => 'A',
        AccountType::Pending => 'P',
        AccountType::ContentServer => 'C',
        AccountType::Clan => 'g',
        AccountType::Chat => match flags {
            InstanceFlags::Clan => 'c',
            InstanceFlags::Lobby => 'L',
            _ => 'T',
        },
        AccountType::ConsoleUser => 'U',
        AccountType::AnonUser => 'a',
    }
}

/// The account type and conveyed instance flags of a steam3 type
/// character; fails on every character outside the fixed table.
pub fn char_to_account_type(c: char) -> (r: Option<(AccountType, InstanceFlags)>)
    ensures
        r == spec_char_account_type(c),
{
    match c {
        'U' => Some((AccountType::Individual, InstanceFlags::Empty)),
        'M' => Some((AccountType::Multiseat, InstanceFlags::Empty)),
        'G' => Some((AccountType::GameServer, InstanceFlags::Empty)),
        'A' => Some((AccountType::AnonGameServer, InstanceFlags::Empty)),
        'P' => Some((AccountType::Pending, InstanceFlags::Empty)),
        'C' => Some((AccountType::ContentServer, InstanceFlags::Empty)),
        'g' => Some((AccountType::Clan, InstanceFlags::Empty)),
        'T' => Some((AccountType::Chat, InstanceFlags::Empty)),
        'c' => Some((AccountType::Chat, InstanceFlags::Clan)),
        'L' => Some((AccountType::Chat, InstanceFlags::Lobby)),
        'a' => Some((AccountType::AnonUser, InstanceFlags::Empty)),
        'I' | 'i' => Some((AccountType::Invalid, InstanceFlags::Empty)),
        _ => None,
    }
}

/// Appends the steam3 type character.
fn append_type_char(out: &mut String, account_type: AccountType, flags: InstanceFlags)
    ensures
        final(out)@ == old(out)@ + seq![spec_type_char(account_type, flags)],
{
    match account_type_to_char(account_type, flags) {
        'I' => {
            out.append("I");
            proof {
                reveal_strlit("I");
                assert("I"@ =~= seq!['I']);
            }
        },
        'U' => {
            out.append("U");
            proof {
                reveal_strlit("U");
                assert("U"@ =~= seq!['U']);
            }
        },
        'M' => {
            out.append("M");
            proof {
                reveal_strlit("M");
                assert("M"@ =~= seq!['M']);
            }
        },
        'G' => {
            out.append("G");
            proof {
                reveal_strlit("G");
                assert("G"@ =~= seq!['G']);
            }
        },
        'A' => {
            out.append("A");
            proof {
                reveal_strlit("A");
                assert("A"@ =~= seq!['A']);
            }
        },
        'P' => {
            out.append("P");
            proof {
                reveal_strlit("P");
                assert("P"@ =~= seq!['P']);
            }
        },
        'C' => {
            out.append("C");
            proof {
                reveal_strlit("C");
                assert("C"@ =~= seq!['C']);
            }
        },
        'g' => {
            out.append("g");
            proof {
                reveal_strlit("g");
                assert("g"@ =~= seq!['g']);
            }
        },
        'c' => {
            out.append("c");
            proof {
                reveal_strlit("c");
                assert("c"@ =~= seq!['c']);
            }
        },
        'L' => {
            out.append("L");
            proof {
                reveal_strlit("L");
                assert("L"@ =~= seq!['L']);
            }
        },
        'T' => {
            out.append("T");
            proof {
                reveal_strlit("T");
                assert("T"@ =~= seq!['T']);
            }
        },
        _ => {
            out.append("a");
            proof {
                reveal_strlit("a");
                assert("a"@ =~= seq!['a']);
            }
        },
    }
}

impl SteamID {
    /// Renders this identifier in steam3 notation.
    pub fn steam3(&self) -> (r: String)
        ensures
            r@ == spec_steam3_render(*self),
    {
        let mut out = String::new();
        out.append("[");
        proof {
            reveal_strlit("[");
            assert("["@ =~= seq!['[']);
        }
        append_type_char(&mut out, self.account_type, self.instance.flags);
        out.append(":");
        proof {
            reveal_strlit(":");
            assert(":"@ =~= seq![':']);
        }
        append_dec_u64(&mut out, self.universe.code() as u64);
        out.append(":");
        append_dec_u64(&mut out, self.account_id as u64);
        let show_instance = match self.account_type {
            AccountType::AnonGameServer | AccountType::Multiseat => true,
            AccountType::Individual => self.instance.instance_type != InstanceType::Desktop,
            _ => false,
        };
        if show_instance {
            out.append(":");
            append_dec_u64(&mut out, self.instance.value() as u64);
        }
        out.append("]");
        proof {
            reveal_strlit("]");
            assert("]"@ =~= seq![']']);
            assert(out@ =~= spec_steam3_render(*self));
        }
        out
    }

    /// Parses a steam3 string. Succeeds exactly on the strings of the
    /// steam3 grammar whose numerals fit their fields, and yields exactly
    /// the identifier the string denotes.
    pub fn from_steam3(steam3: &str) -> (r: Result<SteamID, SteamIDParseError>)
        ensures
            r matches Ok(id) ==> spec_from_steam3(steam3@) == Some(id),
            r is Err <==> spec_from_steam3(steam3@) is None,
    {
        let len = steam3.unicode_len();
        if len < 7 {
            return Err(SteamIDParseError);
        }
        if steam3.get_char(0) != '[' {
            return Err(SteamIDParseError);
        }
        let (account_type, char_flags) = match char_to_account_type(steam3.get_char(1)) {
            Some(pair) => pair,
            None => {
                return Err(SteamIDParseError);
            },
        };
        if steam3.get_char(2) != ':' {
            return Err(SteamIDParseError);
        }
        let universe_digit = match char_digit(steam3.get_char(3)) {
            Some(d) => d,
            None => {
                return Err(SteamIDParseError);
            },
        };
        if universe_digit > 4 {
            return Err(SteamIDParseError);
        }
        if steam3.get_char(4) != ':' {
            return Err(SteamIDParseError);
        }
        let end = len - 1;
        if steam3.get_char(end) != ']' {
            return Err(SteamIDParseError);
        }
        let universe = Universe::from_code(universe_digit).unwrap();
        let (j, acc) = scan_digits(steam3, 5);
        proof {
            lemma_digit_run_end_bounds(steam3@, 5);
        }
        if j == 5 {
            return Err(SteamIDParseError);
        }
        if j - 5 > 10 {
            return Err(SteamIDParseError);
        }
        if acc > 0xFFFF_FFFF {
            return Err(SteamIDParseError);
        }
        let account_id = acc as u32;
        if j == end {
            let instance_type = if account_type == AccountType::Individual {
                InstanceType::Desktop
            } else {
                InstanceType::All
            };
            return Ok(
                SteamID::new(
                    account_id,
                    Instance::new(instance_type, char_flags),
                    account_type,
                    universe,
                ),
            );
        }
        proof {
            if j > end {
                assert(is_dec_digit(steam3@[end as int]));
            }
        }
        if steam3.get_char(j) != ':' {
            return Err(SteamIDParseError);
        }
        let (k, instance_acc) = scan_digits(steam3, j + 1);
        proof {
            lemma_digit_run_end_bounds(steam3@, j + 1);
        }
        if k != end || k == j + 1 {
            return Err(SteamIDParseError);
        }
        if instance_acc > 0xFFFF_FFFF {
            return Err(SteamIDParseError);
        }
        let explicit = match InstanceType::from_code(instance_acc as u32) {
            Some(t) => t,
            None => {
                return Err(SteamIDParseError);
            },
        };
        let instance_type = if account_type == AccountType::Clan || account_type
            == AccountType::Chat {
            InstanceType::All
        } else {
            explicit
        };
        Ok(
            SteamID::new(
                account_id,
                Instance::new(instance_type, char_flags),
                account_type,
                universe,
            ),
        )
    }
}

} // verus!
