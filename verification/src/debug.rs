//! Human-readable renderings of an identifier and its fields, with the
//! exact text pinned down in specifications.

use vstd::prelude::*;
use vstd::string::StringExecFns;

use crate::decimal::append_dec_u64;
use crate::decimal::dec_render;
use crate::fields::AccountType;
use crate::fields::Universe;
use crate::instance::Instance;
use crate::instance::InstanceFlags;
use crate::instance::InstanceType;
use crate::steamid::SteamID;
use crate::steamid::spec_steam64;

verus! {

/// The textual name of an account type.
pub open spec fn spec_account_type_name(t: AccountType) -> Seq<char> {
    match t {
        AccountType::Invalid => "Invalid"@,
        AccountType::Individual => "Individual"@,
        AccountType::Multiseat => "Multiseat"@,
        AccountType::GameServer => "GameServer"@,
        AccountType::AnonGameServer => "AnonGameServer"@,
        AccountType::Pending => "Pending"@,
        AccountType::ContentServer => "ContentServer"@,
        AccountType::Clan => "Clan"@,
        AccountType::Chat => "Chat"@,
        AccountType::ConsoleUser => "ConsoleUser"@,
        AccountType::AnonUser => "AnonUser"@,
    }
}

/// The textual name of a universe.
pub open spec fn spec_universe_name(u: Universe) -> Seq<char> {
    match u {
        Universe::Invalid => "Invalid"@,
        Universe::Public => "Public"@,
        Universe::Beta => "Beta"@,
        Universe::Internal => "Internal"@,
        Universe::Dev => "Dev"@,
        Universe::RC => "RC"@,
    }
}

/// The textual name of an instance type.
pub open spec fn spec_instance_type_name(t: InstanceType) -> Seq<char> {
    match t {
        InstanceType::All => "All"@,
        InstanceType::Desktop => "Desktop"@,
        InstanceType::Console => "Console"@,
        InstanceType::Web => "Web"@,
    }
}

/// The textual name of an instance flag set; the empty set prints as
/// "None", the conventional rendering of the flag field.
pub open spec fn spec_instance_flags_name(f: InstanceFlags) -> Seq<char> {
    match f {
        InstanceFlags::Empty => "None"@,
        InstanceFlags::Clan => "Clan"@,
        InstanceFlags::Lobby => "Lobby"@,
        InstanceFlags::MMSLobby => "MMSLobby"@,
    }
}

/// The debug rendering of an instance descriptor.
pub open spec fn spec_instance_debug(i: Instance) -> Seq<char> {
    "{Type: "@ + spec_instance_type_name(i.instance_type) + ", Flags: "@
        + spec_instance_flags_name(i.flags) + "}"@
}

/// The debug rendering of an identifier: its packed value and each of its
/// four fields by name.
pub open spec fn spec_steamid_debug(id: SteamID) -> Seq<char> {
    "SteamID("@ + dec_render(spec_steam64(id) as nat) + ") {ID: "@ + dec_render(
        id.account_id as nat,
    ) + ", Instance: "@ + spec_instance_debug(id.instance) + ", Type: "@ + spec_account_type_name(
        id.account_type,
    ) + ", Universe: "@ + spec_universe_name(id.universe) + "}"@
}

/// The textual name of an account type.
fn account_type_name(t: AccountType) -> (r: &'static str)
    ensures
        r@ == spec_account_type_name(t),
{
    match t {
        AccountType::Invalid => "Invalid",
        AccountType::Individual => "Individual",
        AccountType::Multiseat => "Multiseat",
        AccountType::GameServer => "GameServer",
        AccountType::AnonGameServer => "AnonGameServer",
        AccountType::Pending => "Pending",
        AccountType::ContentServer => "ContentServer",
        AccountType::Clan => "Clan",
        AccountType::Chat => "Chat",
        AccountType::ConsoleUser => "ConsoleUser",
        AccountType::AnonUser => "AnonUser",
    }
}

/// The textual name of a universe.
fn universe_name(u: Universe) -> (r: &'static str)
    ensures
        r@ == spec_universe_name(u),
{
    match u {
        Universe::Invalid => "Invalid",
        Universe::Public => "Public",
        Universe::Beta => "Beta",
        Universe::Internal => "Internal",
        Universe::Dev => "Dev",
        Universe::RC => "RC",
    }
}

/// The textual name of an instance type.
fn instance_type_name(t: InstanceType) -> (r: &'static str)
    ensures
        r@ == spec_instance_type_name(t),
{
    match t {
        InstanceType::All => "All",
        InstanceType::Desktop => "Desktop",
        InstanceType::Console => "Console",
        InstanceType::Web => "Web",
    }
}

/// The textual name of an instance flag set.
fn instance_flags_name(f: InstanceFlags) -> (r: &'static str)
    ensures
        r@ == spec_instance_flags_name(f),
{
    match f {
        InstanceFlags::Empty => "None",
        InstanceFlags::Clan => "Clan",
        InstanceFlags::Lobby => "Lobby",
        InstanceFlags::MMSLobby => "MMSLobby",
    }
}

impl Instance {
    /// The debug rendering of this descriptor: its type and flags by name.
    pub fn debug_string(&self) -> (r: String)
        ensures
            r@ == spec_instance_debug(*self),
    {
        let mut out = String::new();
        out.append("{Type: ");
        out.append(instance_type_name(self.instance_type));
        out.append(", Flags: ");
        out.append(instance_flags_name(self.flags));
        out.append("}");
        proof {
            assert(out@ =~= spec_instance_debug(*self));
        }
        out
    }
}

impl SteamID {
    /// The debug rendering of this identifier: its packed value and each
    /// of its four fields by name.
    pub fn debug_string(&self) -> (r: String)
        ensures
            r@ == spec_steamid_debug(*self),
    {
        let mut out = String::new();
        out.append("SteamID(");
        append_dec_u64(&mut out, self.steam64());
        out.append(") {ID: ");
        append_dec_u64(&mut out, self.account_id as u64);
        out.append(", Instance: ");
        let instance_part = self.instance.debug_string();
        out.append(instance_part.as_str());
        out.append(", Type: ");
        out.append(account_type_name(self.account_type));
        out.append(", Universe: ");
        out.append(universe_name(self.universe));
        out.append("}");
        proof {
            assert(out@ =~= spec_steamid_debug(*self));
        }
        out
    }
}

} // verus!
