//! The packed 64-bit identifier: four typed fields and their bit layout.
//!
//! Layout of the 64-bit word (bit 0 is the least significant):
//! bits 0 to 31 hold the account id, bits 32 to 51 the instance value
//! (instance type in 32 to 43, flags in 44 to 51), bits 52 to 55 the
//! account type code, bits 56 to 63 the universe code.

use vstd::prelude::*;

use crate::fields::AccountType;
use crate::fields::SteamIDParseError;
use crate::fields::Universe;
use crate::fields::spec_account_type_code;
use crate::fields::spec_account_type_from_code;
use crate::fields::spec_universe_code;
use crate::fields::spec_universe_from_code;
use crate::instance::Instance;
use crate::instance::InstanceFlags;
use crate::instance::InstanceType;
use crate::instance::spec_instance_from_value;
use crate::instance::spec_instance_value;

verus! {

/// A validated Steam identifier. Each field is a closed, validated type,
/// so every constructed `SteamID` is well-formed: no bit pattern outside
/// the known enumerations can be represented.
#[derive(Clone, Copy, PartialEq, Eq, Structural, Debug, Hash)]
pub struct SteamID {
    /// The opaque 32-bit account number.
    pub account_id: u32,
    /// The 20-bit instance descriptor.
    pub instance: Instance,
    /// The enumerated account kind.
    pub account_type: AccountType,
    /// The enumerated deployment realm.
    pub universe: Universe,
}

/// The packed 64-bit value of an identifier, assembled per the bit layout.
pub open spec fn spec_steam64(id: SteamID) -> u64 {
    (id.account_id as u64) | ((spec_instance_value(id.instance) as u64) << 32)
        | ((spec_account_type_code(id.account_type) as u64) << 52) | ((spec_universe_code(
        id.universe,
    ) as u64) << 56)
}

/// The identifier denoted by a raw 64-bit value: each field is extracted
/// by mask and shift and re-validated against its enumeration; any field
/// with an unknown bit pattern makes the whole value invalid.
pub open spec fn spec_from_steam64(value: u64) -> Option<SteamID> {
    let account_id = (value & 0xFFFF_FFFF) as u32;
    let instance_value = ((value >> 32) & 0xFFFFF) as u32;
    let type_code = ((value >> 52) & 0xF) as u8;
    let universe_code = ((value >> 56) & 0xFF) as u8;
    if spec_instance_from_value(instance_value) is Some && spec_account_type_from_code(
        type_code,
    ) is Some && spec_universe_from_code(universe_code) is Some {
        Some(
            SteamID {
                account_id,
                instance: spec_instance_from_value(instance_value)->0,
                account_type: spec_account_type_from_code(type_code)->0,
                universe: spec_universe_from_code(universe_code)->0,
            },
        )
    } else {
        None
    }
}

impl SteamID {
    /// Builds an identifier out of its four typed fields. Always succeeds:
    /// each field type is itself a closed, validated enumeration or range.
    pub fn new(
        account_id: u32,
        instance: Instance,
        account_type: AccountType,
        universe: Universe,
    ) -> (r: SteamID)
        ensures
            r == (SteamID { account_id, instance, account_type, universe }),
    {
        SteamID { account_id, instance, account_type, universe }
    }

    /// The 32-bit account number.
    pub fn account_id(&self) -> (r: u32)
        ensures
            r == self.account_id,
    {
        self.account_id
    }

    /// Replaces the account number, keeping the other fields.
    pub fn set_account_id(&mut self, account_id: u32)
        ensures
            *final(self) == (SteamID { account_id, ..*old(self) }),
    {
        self.account_id = account_id;
    }

    /// The instance descriptor.
    pub fn instance(&self) -> (r: Instance)
        ensures
            r == self.instance,
    {
        self.instance
    }

    /// Replaces the instance descriptor, keeping the other fields.
    pub fn set_instance(&mut self, instance: Instance)
        ensures
            *final(self) == (SteamID { instance, ..*old(self) }),
    {
        self.instance = instance;
    }

    /// Replaces the instance type, keeping the instance flags and the
    /// other fields.
    pub fn set_instance_type(&mut self, instance_type: InstanceType)
        ensures
            *final(self) == (
            SteamID {
                instance: Instance { instance_type, flags: old(self).instance.flags },
                ..*old(self)
            }),
    {
        self.instance.instance_type = instance_type;
    }

    /// Replaces the instance flags, keeping the instance type and the
    /// other fields.
    pub fn set_instance_flags(&mut self, instance_flags: InstanceFlags)
        ensures
            *final(self) == (
            SteamID {
                instance: Instance {
                    instance_type: old(self).instance.instance_type,
                    flags: instance_flags,
                },
                ..*old(self)
            }),
    {
        self.instance.flags = instance_flags;
    }

    /// The enumerated account kind.
    pub fn account_type(&self) -> (r: AccountType)
        ensures
            r == self.account_type,
    {
        self.account_type
    }

    /// Replaces the account kind, keeping the other fields.
    pub fn set_account_type(&mut self, account_type: AccountType)
        ensures
            *final(self) == (SteamID { account_type, ..*old(self) }),
    {
        self.account_type = account_type;
    }

    /// The enumerated deployment realm.
    pub fn universe(&self) -> (r: Universe)
        ensures
            r == self.universe,
    {
        self.universe
    }

    /// Replaces the deployment realm, keeping the other fields.
    pub fn set_universe(&mut self, universe: Universe)
        ensures
            *final(self) == (SteamID { universe, ..*old(self) }),
    {
        self.universe = universe;
    }

    /// Packs the four fields into the 64-bit word.
    pub fn steam64(&self) -> (r: u64)
        ensures
            r == spec_steam64(*self),
    {
        (self.account_id as u64) | ((self.instance.value() as u64) << 32u64) | ((
        self.account_type.code() as u64) << 52u64) | ((self.universe.code() as u64) << 56u64)
    }

    /// Unpacks a raw 64-bit value, re-validating every field; a value whose
    /// bit pattern holds an unknown instance type, flag set, account type or
    /// universe is rejected. A successful unpack packs back to the same raw
    /// value.
    pub fn from_steam64(value: u64) -> (r: Result<SteamID, SteamIDParseError>)
        ensures
            r is Ok <==> spec_from_steam64(value) is Some,
            r matches Ok(id) ==> Some(id) == spec_from_steam64(value),
            r matches Ok(id) ==> spec_steam64(id) == value,
    {
        let account_id = (value & 0xFFFF_FFFF) as u32;
        let instance_value = ((value >> 32u64) & 0xFFFFF) as u32;
        let type_code = ((value >> 52u64) & 0xF) as u8;
        let universe_code = ((value >> 56u64) & 0xFF) as u8;
        let instance = Instance::from_value(instance_value);
        let account_type = AccountType::from_code(type_code);
        let universe = Universe::from_code(universe_code);
        match (instance, account_type, universe) {
            (Some(instance), Some(account_type), Some(universe)) => {
                proof {
                    lemma_steam64_unpack_then_pack(value);
                }
                Ok(SteamID { account_id, instance, account_type, universe })
            },
            _ => Err(SteamIDParseError),
        }
    }
}

impl Default for SteamID {
    /// The all-zero identifier: account 0, the All instance with no
    /// flags, the Invalid account type and the Invalid universe.
    fn default() -> (r: SteamID)
        ensures
            r == (SteamID {
                account_id: 0,
                instance: Instance {
                    instance_type: InstanceType::All,
                    flags: InstanceFlags::Empty,
                },
                account_type: AccountType::Invalid,
                universe: Universe::Invalid,
            }),
    {
        SteamID {
            account_id: 0,
            instance: Instance { instance_type: InstanceType::All, flags: InstanceFlags::Empty },
            account_type: AccountType::Invalid,
            universe: Universe::Invalid,
        }
    }
}

/// Bit-layout round trip, packing first: unpacking the packed word of any
/// identifier yields exactly that identifier's fields. Every `SteamID` is
/// well-formed by construction, so nothing is required of `id`.
pub proof fn lemma_steam64_pack_then_unpack(id: SteamID)
    ensures
        spec_from_steam64(spec_steam64(id)) == Some(id),
{
    let a = id.account_id as u64;
    let i = spec_instance_value(id.instance) as u64;
    let t = spec_account_type_code(id.account_type) as u64;
    let u = spec_universe_code(id.universe) as u64;
    let v = spec_steam64(id);
    assert(i < 0x100000 && t < 0x10 && u < 0x100);
    assert((v & 0xFFFF_FFFF) == a && ((v >> 32) & 0xFFFFF) == i && ((v >> 52) & 0xF) == t && ((v
        >> 56) & 0xFF) == u) by (bit_vector)
        requires
            v == a | (i << 32) | (t << 52) | (u << 56),
            a < 0x1_0000_0000,
            i < 0x100000,
            t < 0x10,
            u < 0x100,
    ;
    lemma_instance_value_pack_then_unpack(id.instance);
}

/// Bit-layout round trip, unpacking first: any raw value that unpacks
/// (all four bit patterns known) packs back to the same raw value.
pub proof fn lemma_steam64_unpack_then_pack(value: u64)
    requires
        spec_from_steam64(value) is Some,
    ensures
        spec_steam64(spec_from_steam64(value)->0) == value,
{
    let a = value & 0xFFFF_FFFF;
    let i = (value >> 32) & 0xFFFFF;
    let t = (value >> 52) & 0xF;
    let u = (value >> 56) & 0xFF;
    assert(a < 0x1_0000_0000 && i < 0x100000 && t < 0x10 && u < 0x100 && value == a | (i << 32) | (
    t << 52) | (u << 56)) by (bit_vector)
        requires
            a == value & 0xFFFF_FFFF,
            i == (value >> 32) & 0xFFFFF,
            t == (value >> 52) & 0xF,
            u == (value >> 56) & 0xFF,
    ;
    let id = spec_from_steam64(value)->0;
    lemma_instance_value_unpack_then_pack(i as u32);
    assert(spec_instance_value(id.instance) == i as u32);
    assert(spec_account_type_code(id.account_type) == t as u8);
    assert(spec_universe_code(id.universe) == u as u8);
}

/// A 20-bit instance value assembled from a descriptor splits back into
/// the same descriptor.
proof fn lemma_instance_value_pack_then_unpack(i: Instance)
    ensures
        spec_instance_from_value(spec_instance_value(i)) == Some(i),
{
}

/// A 20-bit value whose two sub-fields carry legal codes is reassembled
/// exactly by the descriptor it denotes.
proof fn lemma_instance_value_unpack_then_pack(value: u32)
    requires
        spec_instance_from_value(value) is Some,
    ensures
        spec_instance_value(spec_instance_from_value(value)->0) == value,
{
    vstd::arithmetic::div_mod::lemma_fundamental_div_mod(value as int, 0x1000);
}

} // verus!
