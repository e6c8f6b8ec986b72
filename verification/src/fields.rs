//! The closed enumerations that make up a Steam identifier, with their
//! narrow numeric encodings, and the shared parse error type.

use vstd::prelude::*;

verus! {

/// The single error of this library: the input was not a well-formed
/// Steam identifier in the expected encoding.
#[derive(Clone, Copy, PartialEq, Eq, Structural, Debug, Default)]
pub struct SteamIDParseError;

impl SteamIDParseError {
    /// A human-readable description of the error.
    pub fn message(&self) -> (r: &'static str)
        ensures
            r@ == "Malformed SteamID"@,
    {
        "Malformed SteamID"
    }
}

/// The category of entity an identifier names (4-bit field, codes 0 to 10).
#[derive(Clone, Copy, PartialEq, Eq, Structural, Debug, Hash)]
pub enum AccountType {
    Invalid,
    Individual,
    Multiseat,
    GameServer,
    AnonGameServer,
    Pending,
    ContentServer,
    Clan,
    Chat,
    ConsoleUser,
    AnonUser,
}

/// The numeric code of an account type in the packed 64-bit word.
pub open spec fn spec_account_type_code(t: AccountType) -> u8 {
    match t {
        AccountType::Invalid => 0,
        AccountType::Individual => 1,
        AccountType::Multiseat => 2,
        AccountType::GameServer => 3,
        AccountType::AnonGameServer => 4,
        AccountType::Pending => 5,
        AccountType::ContentServer => 6,
        AccountType::Clan => 7,
        AccountType::Chat => 8,
        AccountType::ConsoleUser => 9,
        AccountType::AnonUser => 10,
    }
}

/// The account type denoted by a numeric code, if the code is in range.
pub open spec fn spec_account_type_from_code(code: u8) -> Option<AccountType> {
    if code == 0 {
        Some(AccountType::Invalid)
    } else if code == 1 {
        Some(AccountType::Individual)
    } else if code == 2 {
        Some(AccountType::Multiseat)
    } else if code == 3 {
        Some(AccountType::GameServer)
    } else if code == 4 {
        Some(AccountType::AnonGameServer)
    } else if code == 5 {
        Some(AccountType::Pending)
    } else if code == 6 {
        Some(AccountType::ContentServer)
    } else if code == 7 {
        Some(AccountType::Clan)
    } else if code == 8 {
        Some(AccountType::Chat)
    } else if code == 9 {
        Some(AccountType::ConsoleUser)
    } else if code == 10 {
        Some(AccountType::AnonUser)
    } else {
        None
    }
}

impl AccountType {
    /// The numeric code of this account type.
    pub fn code(self) -> (r: u8)
        ensures
            r == spec_account_type_code(self),
    {
        match self {
            AccountType::Invalid => 0,
            AccountType::Individual => 1,
            AccountType::Multiseat => 2,
            AccountType::GameServer => 3,
            AccountType::AnonGameServer => 4,
            AccountType::Pending => 5,
            AccountType::ContentServer => 6,
            AccountType::Clan => 7,
            AccountType::Chat => 8,
            AccountType::ConsoleUser => 9,
            AccountType::AnonUser => 10,
        }
    }

    /// The account type with the given numeric code; fails on codes 11 to 255.
    pub fn from_code(code: u8) -> (r: Option<AccountType>)
        ensures
            r == spec_account_type_from_code(code),
            r is Some <==> code <= 10,
            r is Some ==> spec_account_type_code(r->0) == code,
    {
        match code {
            0 => Some(AccountType::Invalid),
            1 => Some(AccountType::Individual),
            2 => Some(AccountType::Multiseat),
            3 => Some(AccountType::GameServer),
            4 => Some(AccountType::AnonGameServer),
            5 => Some(AccountType::Pending),
            6 => Some(AccountType::ContentServer),
            7 => Some(AccountType::Clan),
            8 => Some(AccountType::Chat),
            9 => Some(AccountType::ConsoleUser),
            10 => Some(AccountType::AnonUser),
            _ => None,
        }
    }
}

/// The deployment realm an identifier belongs to (8-bit field, codes 0 to 5).
#[derive(Clone, Copy, PartialEq, Eq, Structural, Debug, Hash)]
pub enum Universe {
    Invalid,
    Public,
    Beta,
    Internal,
    Dev,
    RC,
}

/// The numeric code of a universe in the packed 64-bit word.
pub open spec fn spec_universe_code(u: Universe) -> u8 {
    match u {
        Universe::Invalid => 0,
        Universe::Public => 1,
        Universe::Beta => 2,
        Universe::Internal => 3,
        Universe::Dev => 4,
        Universe::RC => 5,
    }
}

/// The universe denoted by a numeric code, if the code is in range.
pub open spec fn spec_universe_from_code(code: u8) -> Option<Universe> {
    if code == 0 {
        Some(Universe::Invalid)
    } else if code == 1 {
        Some(Universe::Public)
    } else if code == 2 {
        Some(Universe::Beta)
    } else if code == 3 {
        Some(Universe::Internal)
    } else if code == 4 {
        Some(Universe::Dev)
    } else if code == 5 {
        Some(Universe::RC)
    } else {
        None
    }
}

impl Universe {
    /// The numeric code of this universe.
    pub fn code(self) -> (r: u8)
        ensures
            r == spec_universe_code(self),
    {
        match self {
            Universe::Invalid => 0,
            Universe::Public => 1,
            Universe::Beta => 2,
            Universe::Internal => 3,
            Universe::Dev => 4,
            Universe::RC => 5,
        }
    }

    /// The universe with the given numeric code; fails on codes 6 to 255.
    pub fn from_code(code: u8) -> (r: Option<Universe>)
        ensures
            r == spec_universe_from_code(code),
            r is Some <==> code <= 5,
            r is Some ==> spec_universe_code(r->0) == code,
    {
        match code {
            0 => Some(Universe::Invalid),
            1 => Some(Universe::Public),
            2 => Some(Universe::Beta),
            3 => Some(Universe::Internal),
            4 => Some(Universe::Dev),
            5 => Some(Universe::RC),
            _ => None,
        }
    }
}

} // verus!
