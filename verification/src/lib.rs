//! A compact Steam identifier type: four typed fields (account id, instance,
//! account type, universe) packed into one 64-bit word, with lossless
//! conversions to and from the steam2 and steam3 text notations.

pub mod debug;
pub mod decimal;
pub mod fields;
pub mod instance;
pub mod parse;
pub mod steam2;
pub mod steam3;
pub mod steamid;

pub use fields::AccountType;
pub use fields::SteamIDParseError;
pub use fields::Universe;
pub use instance::Instance;
pub use instance::InstanceFlags;
pub use instance::InstanceType;
pub use steam3::account_type_to_char;
pub use steam3::char_to_account_type;
pub use steamid::SteamID;
