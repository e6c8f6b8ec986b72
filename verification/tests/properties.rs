use steamid_ng::AccountType;
use steamid_ng::Instance;
use steamid_ng::InstanceFlags;
use steamid_ng::InstanceType;
use steamid_ng::SteamID;
use steamid_ng::Universe;
use steamid_ng::account_type_to_char;
use steamid_ng::char_to_account_type;

#[test]
fn steam3_round_trip_scenario() {
    let once = SteamID::from_steam3("[U:1:123]").unwrap();
    let again = SteamID::from_steam3(once.steam3().as_str()).unwrap();
    assert_eq!(again, once);
}

#[test]
fn steam3_round_trip_more_shapes() {
    let ids = vec![
        SteamID::new(
            0,
            Instance::new(InstanceType::All, InstanceFlags::Empty),
            AccountType::Invalid,
            Universe::Invalid,
        ),
        SteamID::new(
            4294967295,
            Instance::new(InstanceType::Console, InstanceFlags::Empty),
            AccountType::Multiseat,
            Universe::Dev,
        ),
        SteamID::new(
            77,
            Instance::new(InstanceType::All, InstanceFlags::MMSLobby),
            AccountType::Chat,
            Universe::Public,
        ),
    ];
    for id in ids {
        let rendered = id.steam3();
        let parsed = SteamID::from_steam3(rendered.as_str()).unwrap();
        // The MMSLobby flag has no type character of its own, so only the
        // other fields survive; every other shape above survives whole.
        assert_eq!(parsed.account_id(), id.account_id());
        assert_eq!(parsed.account_type(), id.account_type());
        assert_eq!(parsed.universe(), id.universe());
        assert_eq!(
            parsed.instance().instance_type(),
            id.instance().instance_type()
        );
    }
}

#[test]
fn steam2_round_trip_scenario() {
    let once = SteamID::from_steam2("STEAM_1:1:4491990").unwrap();
    let again = SteamID::from_steam2(once.steam2().as_str()).unwrap();
    assert_eq!(again, once);
}

#[test]
fn bit_layout_round_trip() {
    let id = SteamID::new(
        987654321,
        Instance::new(InstanceType::Web, InstanceFlags::Lobby),
        AccountType::AnonUser,
        Universe::RC,
    );
    assert_eq!(SteamID::from_steam64(id.steam64()).unwrap(), id);

    // And unpacking first: a valid raw value packs back to itself.
    let raw: u64 = 103582791432294076;
    assert_eq!(SteamID::from_steam64(raw).unwrap().steam64(), raw);
}

#[test]
fn pack_unpack_fields() {
    let id = SteamID::new(
        42,
        Instance::new(InstanceType::Desktop, InstanceFlags::Clan),
        AccountType::Chat,
        Universe::Internal,
    );
    assert_eq!(id.account_id(), 42);
    assert_eq!(
        id.instance(),
        Instance::new(InstanceType::Desktop, InstanceFlags::Clan)
    );
    assert_eq!(id.account_type(), AccountType::Chat);
    assert_eq!(id.universe(), Universe::Internal);
}

#[test]
fn from_steam64_rejects_bad_fields() {
    // Instance type 3 is not a legal code.
    let bad_instance_type: u64 = 1 | (3u64 << 32) | (1u64 << 52) | (1u64 << 56);
    assert!(SteamID::from_steam64(bad_instance_type).is_err());

    // Two instance flag bits at once (0xC0) are not a legal flag set.
    let bad_flags: u64 = ((0xC0u64 << 12) | 1) << 32;
    assert!(SteamID::from_steam64(bad_flags).is_err());

    // Account type 11 is out of the enumeration.
    let bad_account_type: u64 = (11u64 << 52) | (1u64 << 56);
    assert!(SteamID::from_steam64(bad_account_type).is_err());

    // Universe 6 is out of the enumeration.
    let bad_universe: u64 = 6u64 << 56;
    assert!(SteamID::from_steam64(bad_universe).is_err());
}

#[test]
fn steam3_overflow_and_malformed() {
    // Account numbers past 32 bits fail cleanly instead of wrapping.
    assert!(SteamID::from_steam3("[U:1:9999999999]").is_err());
    assert!(SteamID::from_steam3("[U:1:4294967296]").is_err());
    assert_eq!(
        SteamID::from_steam3("[U:1:4294967295]").unwrap().account_id(),
        4294967295
    );

    // Instance suffix: overflow, an illegal type code, and an empty suffix.
    assert!(SteamID::from_steam3("[U:1:1:9999999999]").is_err());
    assert!(SteamID::from_steam3("[U:1:1:3]").is_err());
    assert!(SteamID::from_steam3("[U:1:1:]").is_err());

    // Structure: missing bracket, trailing garbage, bad universe digit.
    assert!(SteamID::from_steam3("U:1:123").is_err());
    assert!(SteamID::from_steam3("[U:1:123").is_err());
    assert!(SteamID::from_steam3("[U:1:123]x").is_err());
    assert!(SteamID::from_steam3("[U:1:123]]").is_err());
    assert!(SteamID::from_steam3("[U:5:123]").is_err());
    assert!(SteamID::from_steam3("[U:A:123]").is_err());
    assert!(SteamID::from_steam3("[Q:1:123]").is_err());
    assert!(SteamID::from_steam3("[U:1:]").is_err());
    assert!(SteamID::from_steam3("").is_err());
}

#[test]
fn steam3_digit_count_bound() {
    // The grammar takes 1 to 10 account digits: an 11-digit numeral is
    // out of grammar even when its value is small.
    assert!(SteamID::from_steam3("[U:1:00000000123]").is_err());
    // Ten digits, leading zeros included, are in grammar.
    let s = SteamID::from_steam3("[U:1:0000000123]").unwrap();
    assert_eq!(s.account_id(), 123);
}

#[test]
fn steam2_overflow_and_malformed() {
    assert!(SteamID::from_steam2("STEAM_0:0:4294967296").is_err());
    assert_eq!(
        SteamID::from_steam2("STEAM_0:0:4294967295")
            .unwrap()
            .account_id(),
        4294967294
    );

    assert!(SteamID::from_steam2("STEAM_0:0:12345678901").is_err());
    assert!(SteamID::from_steam2("STEAM_5:0:1").is_err());
    assert!(SteamID::from_steam2("STEAM_0:2:1").is_err());
    assert!(SteamID::from_steam2("STEAM_0:0:").is_err());
    assert!(SteamID::from_steam2("STEAM_0:0:12x").is_err());
    assert!(SteamID::from_steam2("steam_0:0:1").is_err());
    assert!(SteamID::from_steam2("").is_err());
}

#[test]
fn parse_any_three_ways() {
    let from_number = SteamID::parse_any("103582791432294076").unwrap();
    assert_eq!(from_number.account_type(), AccountType::Clan);
    assert_eq!(from_number.account_id(), 2772668);

    let from_steam2 = SteamID::parse_any("STEAM_0:1:4491990").unwrap();
    assert_eq!(from_steam2.account_id(), 8983981);
    assert_eq!(from_steam2.universe(), Universe::Public);

    let from_steam3 = SteamID::parse_any("[L:2:123]").unwrap();
    assert_eq!(from_steam3.account_type(), AccountType::Chat);
    assert_eq!(from_steam3.instance().flags(), InstanceFlags::Lobby);

    // A numeric string is only validated, never re-read as text.
    assert!(SteamID::parse_any("17293822569102704640").is_err());

    // A numeral may carry one leading plus sign, nothing else may.
    let plus = SteamID::parse_any("+103582791432294076").unwrap();
    assert_eq!(plus.account_id(), 2772668);
    assert!(SteamID::parse_any("+").is_err());
    assert!(SteamID::parse_any("++1").is_err());
    assert!(SteamID::parse_any("+bogus").is_err());

    assert!(SteamID::parse_any("bogus").is_err());
    assert!(SteamID::parse_any("").is_err());
}

#[test]
fn default_values() {
    let d = SteamID::default();
    assert_eq!(d.steam64(), 0);
    assert_eq!(d.account_id(), 0);
    assert_eq!(d.account_type(), AccountType::Invalid);
    assert_eq!(d.universe(), Universe::Invalid);
    assert_eq!(
        d.instance(),
        Instance::new(InstanceType::All, InstanceFlags::Empty)
    );
    assert_eq!(InstanceFlags::default(), InstanceFlags::Empty);
}

#[test]
fn type_char_table() {
    assert_eq!(
        char_to_account_type('U'),
        Some((AccountType::Individual, InstanceFlags::Empty))
    );
    assert_eq!(
        char_to_account_type('i'),
        Some((AccountType::Invalid, InstanceFlags::Empty))
    );
    assert_eq!(
        char_to_account_type('c'),
        Some((AccountType::Chat, InstanceFlags::Clan))
    );
    assert_eq!(
        char_to_account_type('L'),
        Some((AccountType::Chat, InstanceFlags::Lobby))
    );
    assert_eq!(char_to_account_type('Q'), None);

    assert_eq!(
        account_type_to_char(AccountType::Clan, InstanceFlags::Empty),
        'g'
    );
    assert_eq!(
        account_type_to_char(AccountType::Chat, InstanceFlags::Empty),
        'T'
    );
    assert_eq!(
        account_type_to_char(AccountType::Chat, InstanceFlags::MMSLobby),
        'T'
    );
    assert_eq!(
        account_type_to_char(AccountType::ConsoleUser, InstanceFlags::Empty),
        'U'
    );
}

#[test]
fn instance_value_round_trip() {
    let i = Instance::new(InstanceType::Web, InstanceFlags::Clan);
    assert_eq!(i.value(), 0x80004);
    assert_eq!(Instance::from_value(0x80004), Some(i));
    assert_eq!(Instance::from_value(3), None);
    assert_eq!(Instance::from_value(0xC0000), None);

    let mut j = i;
    j.set_instance_type(InstanceType::All);
    assert_eq!(j.instance_type(), InstanceType::All);
    assert_eq!(j.flags(), InstanceFlags::Clan);
    j.set_flags(InstanceFlags::Empty);
    assert_eq!(j.value(), 0);
}

#[test]
fn set_instance_flags_on_id() {
    let mut s = SteamID::new(
        7,
        Instance::new(InstanceType::All, InstanceFlags::Empty),
        AccountType::Chat,
        Universe::Public,
    );
    s.set_instance_flags(InstanceFlags::Lobby);
    assert_eq!(s.instance().flags(), InstanceFlags::Lobby);
    assert_eq!(s.instance().instance_type(), InstanceType::All);
    s.set_instance(Instance::new(InstanceType::Desktop, InstanceFlags::Empty));
    assert_eq!(
        s.instance(),
        Instance::new(InstanceType::Desktop, InstanceFlags::Empty)
    );
}

#[test]
fn error_message_text() {
    let e = steamid_ng::SteamIDParseError;
    assert_eq!(e.message(), "Malformed SteamID");
}

#[test]
fn field_codes() {
    assert_eq!(AccountType::Individual.code(), 1);
    assert_eq!(AccountType::from_code(10), Some(AccountType::AnonUser));
    assert_eq!(AccountType::from_code(11), None);
    assert_eq!(Universe::RC.code(), 5);
    assert_eq!(Universe::from_code(6), None);
    assert_eq!(InstanceType::Web.code(), 4);
    assert_eq!(InstanceType::from_code(3), None);
    assert_eq!(InstanceFlags::MMSLobby.code(), 0x20);
    assert_eq!(InstanceFlags::from_code(0x60), None);
}

#[test]
fn parse_via_from_str() {
    let x: SteamID = "76561197960287930".parse().unwrap();
    let y: SteamID = "[U:1:22202]".parse().unwrap();
    let z: SteamID = "STEAM_1:0:11101".parse().unwrap();
    assert_eq!(x, y);
    assert_eq!(y, z);
    assert_eq!(z.steam64(), 76561197960287930);
    assert!("nonsense".parse::<SteamID>().is_err());
}

#[test]
fn steam2_universe_zero_coercion() {
    let s = SteamID::from_steam2("STEAM_0:0:4491990").unwrap();
    assert_eq!(s.universe(), Universe::Public);
    // steam3 has no such coercion: universe 0 stays Invalid.
    let t = SteamID::from_steam3("[U:0:123]").unwrap();
    assert_eq!(t.universe(), Universe::Invalid);
}
