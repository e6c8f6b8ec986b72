//! The 20-bit instance descriptor: a 12-bit instance type together with an
//! 8-bit set of mutually exclusive flags.

use vstd::prelude::*;

verus! {

/// The kind of session an instance descriptor names (12-bit field,
/// codes 0, 1, 2 and 4; 3 is not a legal code).
#[derive(Clone, Copy, PartialEq, Eq, Structural, Debug, Hash)]
pub enum InstanceType {
    All,
    Desktop,
    Console,
    Web,
}

/// The numeric code of an instance type in the packed 64-bit word.
pub open spec fn spec_instance_type_code(t: InstanceType) -> u32 {
    match t {
        InstanceType::All => 0,
        InstanceType::Desktop => 1,
        InstanceType::Console => 2,
        InstanceType::Web => 4,
    }
}

/// The instance type denoted by a numeric code, if the code is legal.
pub open spec fn spec_instance_type_from_code(code: u32) -> Option<InstanceType> {
    if code == 0 {
        Some(InstanceType::All)
    } else if code == 1 {
        Some(InstanceType::Desktop)
    } else if code == 2 {
        Some(InstanceType::Console)
    } else if code == 4 {
        Some(InstanceType::Web)
    } else {
        None
    }
}

impl InstanceType {
    /// The numeric code of this instance type.
    pub fn code(self) -> (r: u32)
        ensures
            r == spec_instance_type_code(self),
    {
        match self {
            InstanceType::All => 0,
            InstanceType::Desktop => 1,
            InstanceType::Console => 2,
            InstanceType::Web => 4,
        }
    }

    /// The instance type with the given numeric code; fails on every code
    /// outside {0, 1, 2, 4}.
    pub fn from_code(code: u32) -> (r: Option<InstanceType>)
        ensures
            r == spec_instance_type_from_code(code),
            r is Some <==> (code == 0 || code == 1 || code == 2 || code == 4),
            r is Some ==> spec_instance_type_code(r->0) == code,
    {
        match code {
            0 => Some(InstanceType::All),
            1 => Some(InstanceType::Desktop),
            2 => Some(InstanceType::Console),
            4 => Some(InstanceType::Web),
            _ => None,
        }
    }
}

/// The mutually exclusive instance flags (8-bit field; at most one of the
/// three flag bits 0x80, 0x40, 0x20 may be set).
#[derive(Clone, Copy, PartialEq, Eq, Structural, Debug, Hash)]
pub enum InstanceFlags {
    Empty,
    Clan,
    Lobby,
    MMSLobby,
}

/// The numeric code of an instance flag set in the packed 64-bit word.
pub open spec fn spec_instance_flags_code(f: InstanceFlags) -> u8 {
    match f {
        InstanceFlags::Empty => 0,
        InstanceFlags::Clan => 0x80,
        InstanceFlags::Lobby => 0x40,
        InstanceFlags::MMSLobby => 0x20,
    }
}

/// The instance flag set denoted by a numeric code, if the code is legal.
pub open spec fn spec_instance_flags_from_code(code: u8) -> Option<InstanceFlags> {
    if code == 0 {
        Some(InstanceFlags::Empty)
    } else if code == 0x80 {
        Some(InstanceFlags::Clan)
    } else if code == 0x40 {
        Some(InstanceFlags::Lobby)
    } else if code == 0x20 {
        Some(InstanceFlags::MMSLobby)
    } else {
        None
    }
}

impl InstanceFlags {
    /// The numeric code of this flag set.
    pub fn code(self) -> (r: u8)
        ensures
            r == spec_instance_flags_code(self),
    {
        match self {
            InstanceFlags::Empty => 0,
            InstanceFlags::Clan => 0x80,
            InstanceFlags::Lobby => 0x40,
            InstanceFlags::MMSLobby => 0x20,
        }
    }

    /// The flag set with the given numeric code; fails on every code
    /// outside {0, 0x80, 0x40, 0x20}.
    pub fn from_code(code: u8) -> (r: Option<InstanceFlags>)
        ensures
            r == spec_instance_flags_from_code(code),
            r is Some <==> (code == 0 || code == 0x80 || code == 0x40 || code == 0x20),
            r is Some ==> spec_instance_flags_code(r->0) == code,
    {
        match code {
            0 => Some(InstanceFlags::Empty),
            0x80 => Some(InstanceFlags::Clan),
            0x40 => Some(InstanceFlags::Lobby),
            0x20 => Some(InstanceFlags::MMSLobby),
            _ => None,
        }
    }
}

impl Default for InstanceFlags {
    /// The empty flag set.
    fn default() -> (r: InstanceFlags)
        ensures
            r == InstanceFlags::Empty,
    {
        InstanceFlags::Empty
    }
}

/// A 20-bit instance descriptor. Every combination of the two closed
/// enumerations is legal, so a constructed `Instance` is always valid.
#[derive(Clone, Copy, PartialEq, Eq, Structural, Debug, Hash)]
pub struct Instance {
    /// The kind of session.
    pub instance_type: InstanceType,
    /// The flag set (bits 12 to 19 of the 20-bit instance value).
    pub flags: InstanceFlags,
}

/// The 20-bit numeric value of an instance descriptor: the instance type
/// code in bits 0 to 11, the flag code in bits 12 to 19.
pub open spec fn spec_instance_value(i: Instance) -> u32 {
    (spec_instance_type_code(i.instance_type)
        + spec_instance_flags_code(i.flags) * 0x1000) as u32
}

/// The instance descriptor denoted by a 20-bit value, if both sub-fields
/// carry legal codes.
pub open spec fn spec_instance_from_value(value: u32) -> Option<Instance> {
    let type_code = (value % 0x1000) as u32;
    let flag_code = (value / 0x1000) as u8;
    if value < 0x100000
        && spec_instance_type_from_code(type_code) is Some
        && spec_instance_flags_from_code(flag_code) is Some {
        Some(
            Instance {
                instance_type: spec_instance_type_from_code(type_code)->0,
                flags: spec_instance_flags_from_code(flag_code)->0,
            },
        )
    } else {
        None
    }
}

impl Instance {
    /// Builds the descriptor out of its two sub-fields.
    pub fn new(instance_type: InstanceType, flags: InstanceFlags) -> (r: Instance)
        ensures
            r == (Instance { instance_type, flags }),
    {
        Instance { instance_type, flags }
    }

    /// The kind of session.
    pub fn instance_type(&self) -> (r: InstanceType)
        ensures
            r == self.instance_type,
    {
        self.instance_type
    }

    /// Replaces the kind of session, keeping the flags.
    pub fn set_instance_type(&mut self, instance_type: InstanceType)
        ensures
            *final(self) == (Instance { instance_type, flags: old(self).flags }),
    {
        self.instance_type = instance_type;
    }

    /// The flag set.
    pub fn flags(&self) -> (r: InstanceFlags)
        ensures
            r == self.flags,
    {
        self.flags
    }

    /// Replaces the flag set, keeping the kind of session.
    pub fn set_flags(&mut self, flags: InstanceFlags)
        ensures
            *final(self) == (Instance { instance_type: old(self).instance_type, flags }),
    {
        self.flags = flags;
    }

    /// The 20-bit numeric value of this descriptor.
    pub fn value(&self) -> (r: u32)
        ensures
            r == spec_instance_value(*self),
            r < 0x100000,
    {
        self.instance_type.code() + (self.flags.code() as u32) * 0x1000
    }

    /// The descriptor denoted by a 20-bit value; fails whenever either
    /// sub-field's bit pattern is not a legal code.
    pub fn from_value(value: u32) -> (r: Option<Instance>)
        ensures
            r == spec_instance_from_value(value),
            r is Some ==> spec_instance_value(r->0) == value,
    {
        if value >= 0x100000 {
            return None;
        }
        let type_code: u32 = value % 0x1000;
        let flag_code: u8 = (value / 0x1000) as u8;
        match (InstanceType::from_code(type_code), InstanceFlags::from_code(flag_code)) {
            (Some(instance_type), Some(flags)) => Some(Instance { instance_type, flags }),
            _ => None,
        }
    }
}

} // verus!
