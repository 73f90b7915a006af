use schnose_discord_bot::steam_id::{SteamId, STEAM_ID_LIMIT, STEAM_ID_OFFSET};

#[test]
fn new_reads_every_form() {
    for input in
        ["STEAM_1:1:161178172", "STEAM_0:1:161178172", "U:1:322356345", "[U:1:322356345]", "76561198282622073", "322356345", "0322356345"]
    {
        let steam_id = SteamId::new(input).unwrap();
        assert_eq!(steam_id.as_id64(), 76561198282622073, "{input:?}");
        assert_eq!(steam_id.as_id32(), 322356345, "{input:?}");
        assert_eq!(steam_id.to_text(), "STEAM_1:1:161178172", "{input:?}");
    }
}

#[test]
fn new_agrees_with_the_outside_parser() {
    for input in [
        "STEAM_1:1:161178172", "STEAM_1:0:0", "STEAM_1:0:1", "STEAM_5:1:2147483647", "STEAM_1:1:4294967295",
        "STEAM_1:1:4294967296", "STEAM_6:1:1", "STEAM_1:2:1", "STEAM_1:1:", "steam_1:1:1", "U:1:0", "U:1:1",
        "[U:1:4294967295]", "[U:1:4294967296", "U:1:76561197960265727", "U:1:76561197960265728", "I:1:5", "u:1:5",
        "0", "1", "322356345", "76561197960265728", "76561197960265729", "76561198282622073", "432345564227567615",
        "+76561198282622073", "076561198282622073", "AlphaKeks", "", " ", "STEAM_1:1:161178172 ", "١٢٣",
    ] {
        let outside = gokz_rs::SteamID::new(input).ok().map(|steam_id| steam_id.as_id64());
        let outside = outside.filter(|id| (STEAM_ID_OFFSET..STEAM_ID_LIMIT).contains(id));
        let bare = if input.starts_with('+') { None } else { input.parse::<u32>().ok() };
        let expected = bare.map(|id32| STEAM_ID_OFFSET + id32 as u64).or(outside);
        assert_eq!(SteamId::new(input).map(|steam_id| steam_id.as_id64()), expected, "{input:?}");
    }
}

#[test]
fn new_refuses_what_has_no_canonical_text() {
    assert!(gokz_rs::SteamID::new("432345564227567616").is_ok());
    assert_eq!(SteamId::new("432345564227567616"), None);
    assert!(gokz_rs::SteamID::new("18446744073709551615").is_ok());
    assert_eq!(SteamId::new("18446744073709551615"), None);
    assert_eq!(SteamId::new("432345564227567615").map(|id| id.as_id64()), Some(432345564227567615));
}

#[test]
fn new_refuses_mentions_and_nothing() {
    assert_eq!(SteamId::new(""), None);
    assert_eq!(SteamId::new("<@76561198282622073>"), None);
    assert_eq!(SteamId::new("<"), None);
    assert!(gokz_rs::SteamID::new("").is_err());
    assert!(gokz_rs::SteamID::new("<@76561198282622073>").is_err());
    assert!(gokz_rs::SteamID::new("<").is_err());
}

#[test]
fn from_parsed_keeps_what_can_be_written() {
    assert_eq!(SteamId::from_parsed(None), None);
    assert_eq!(SteamId::from_parsed(Some(0)), None);
    assert_eq!(SteamId::from_parsed(Some(STEAM_ID_OFFSET - 1)), None);
    assert_eq!(SteamId::from_parsed(Some(STEAM_ID_OFFSET)), Some(SteamId::from_id32(0)));
    assert_eq!(SteamId::from_parsed(Some(76561198282622073)), Some(SteamId::from_id32(322356345)));
    assert_eq!(SteamId::from_parsed(Some(STEAM_ID_LIMIT - 1)).map(|id| id.as_id64()), Some(STEAM_ID_LIMIT - 1));
    assert_eq!(SteamId::from_parsed(Some(STEAM_ID_LIMIT)), None);
    assert_eq!(SteamId::from_parsed(Some(u64::MAX)), None);
}

#[test]
fn from_id64_wants_more_than_the_offset() {
    assert_eq!(SteamId::from_id64(0), None);
    assert_eq!(SteamId::from_id64(STEAM_ID_OFFSET), None);
    assert_eq!(SteamId::from_id64(STEAM_ID_OFFSET + 1), Some(SteamId::from_id32(1)));
    assert_eq!(SteamId::from_id64(76561198282622073), Some(SteamId::from_id32(322356345)));
    assert_eq!(SteamId::from_id64(STEAM_ID_LIMIT), None);
    assert_eq!(SteamId::from_id64(u64::MAX), None);
    for id in [0, 1, STEAM_ID_OFFSET, STEAM_ID_OFFSET + 1, 76561198282622073, STEAM_ID_LIMIT - 1] {
        let expected = gokz_rs::SteamID::from_id64(id).ok().map(|steam_id| steam_id.as_id64());
        assert_eq!(SteamId::from_id64(id).map(|steam_id| steam_id.as_id64()), expected, "{id}");
    }
}

#[test]
fn from_id32_adds_the_offset() {
    assert_eq!(SteamId::from_id32(0).as_id64(), 76561197960265728);
    assert_eq!(SteamId::from_id32(322356345).as_id64(), 76561198282622073);
    assert_eq!(SteamId::from_id32(u32::MAX).as_id64(), 76561202255233023);
    for id in [0, 1, 2, 322356345, u32::MAX - 1, u32::MAX] {
        assert_eq!(SteamId::from_id32(id).as_id64(), gokz_rs::SteamID::from_id32(id).as_id64(), "{id}");
        assert_eq!(SteamId::from_id32(id).as_id32(), id, "{id}");
    }
}

#[test]
fn as_id32_is_the_low_half_of_the_distance() {
    assert_eq!(SteamId::from_id64(76561198282622073).unwrap().as_id32(), 322356345);
    assert_eq!(SteamId::from_id64(STEAM_ID_OFFSET + 4294967296 + 5).unwrap().as_id32(), 5);
    for id in [STEAM_ID_OFFSET + 1, 76561198282622073, STEAM_ID_OFFSET + 4294967294, STEAM_ID_OFFSET + 4294967296 + 5] {
        assert_eq!(SteamId::from_id64(id).unwrap().as_id32(), gokz_rs::SteamID::from_id64(id).unwrap().as_id32(), "{id}");
    }
}

#[test]
fn to_text_is_the_canonical_form() {
    assert_eq!(SteamId::from_id32(0).to_text(), "STEAM_1:0:0");
    assert_eq!(SteamId::from_id32(1).to_text(), "STEAM_1:1:0");
    assert_eq!(SteamId::from_id32(2).to_text(), "STEAM_1:0:1");
    assert_eq!(SteamId::from_id32(322356345).to_text(), "STEAM_1:1:161178172");
    assert_eq!(SteamId::from_id32(u32::MAX).to_text(), "STEAM_1:1:2147483647");
    assert_eq!(SteamId::from_id64(STEAM_ID_LIMIT - 1).unwrap().to_text(), "STEAM_5:1:2147483647");
}

#[test]
fn to_text_agrees_with_the_outside_display() {
    for id in [
        STEAM_ID_OFFSET + 1, STEAM_ID_OFFSET + 2, 76561198282622073, 76561202255233023, STEAM_ID_OFFSET + 4294967296 + 5,
        2 * 72057594037927936 + 12345, 3 * 72057594037927936 + 1, 5 * 72057594037927936 + 77, STEAM_ID_LIMIT - 1,
    ] {
        let outside = gokz_rs::SteamID::from_id64(id).unwrap();
        assert_eq!(SteamId::from_id64(id).unwrap().to_text(), outside.to_string(), "{id}");
    }
    assert_eq!(SteamId::from_id32(0).to_text(), gokz_rs::SteamID::from_id32(0).to_string());
}

#[test]
fn the_canonical_text_is_read_back() {
    for id32 in [0, 1, 2, 322356345, u32::MAX - 1, u32::MAX] {
        let steam_id = SteamId::from_id32(id32);
        assert_eq!(SteamId::new(&steam_id.to_text()), Some(steam_id), "{id32}");
    }
}

#[test]
fn a_text_of_another_universe_is_read_as_public() {
    let beta = SteamId::from_id64(STEAM_ID_OFFSET + 72057594037927936 + 5).unwrap();
    assert_eq!(beta.to_text(), "STEAM_2:1:2");
    assert_eq!(SteamId::new(&beta.to_text()), Some(SteamId::from_id32(5)));
    let second_instance = SteamId::from_id64(STEAM_ID_OFFSET + 4294967296 + 5).unwrap();
    assert_eq!(second_instance.to_text(), "STEAM_1:1:2");
    assert_eq!(SteamId::new(&second_instance.to_text()), Some(SteamId::from_id32(5)));
}

#[test]
fn a_bare_number_is_the_32_bit_form() {
    assert_eq!(SteamId::new("0"), Some(SteamId::from_id32(0)));
    assert_eq!(SteamId::new("1"), Some(SteamId::from_id32(1)));
    assert_eq!(SteamId::new("322356345"), Some(SteamId::from_id32(322356345)));
    assert_eq!(SteamId::new("4294967295"), Some(SteamId::from_id32(u32::MAX)));
    assert_eq!(SteamId::new("0000000000004294967295"), Some(SteamId::from_id32(u32::MAX)));
    assert_eq!(SteamId::new("4294967296"), None);
    assert_eq!(SteamId::new("76561197960265728"), None);
    assert_eq!(SteamId::new("76561197960265729"), Some(SteamId::from_id32(1)));
    assert_eq!(SteamId::new("+1"), None);
    assert_eq!(SteamId::new("-1"), None);
    assert_eq!(SteamId::new(" 1"), None);
    for id32 in [0u32, 7, 322356345, u32::MAX] {
        assert_eq!(SteamId::new(&format!("{id32}")), Some(SteamId::from_id32(id32)));
        assert_eq!(SteamId::new(&format!("U:1:{id32}")), Some(SteamId::from_id32(id32)));
        assert_eq!(SteamId::new(&format!("{}", 76561197960265728u64 + id32 as u64)).map(|id| id.as_id32()), if id32 == 0 { None } else { Some(id32) });
    }
}

#[test]
fn a_number_is_the_32_bit_or_the_64_bit_form() {
    assert_eq!(SteamId::from_number(0), Some(SteamId::from_id32(0)));
    assert_eq!(SteamId::from_number(322356345), Some(SteamId::from_id32(322356345)));
    assert_eq!(SteamId::from_number(4294967295), Some(SteamId::from_id32(u32::MAX)));
    assert_eq!(SteamId::from_number(4294967296), None);
    assert_eq!(SteamId::from_number(STEAM_ID_OFFSET - 1), None);
    assert_eq!(SteamId::from_number(STEAM_ID_OFFSET), None);
    assert_eq!(SteamId::from_number(STEAM_ID_OFFSET + 1), Some(SteamId::from_id32(1)));
    assert_eq!(SteamId::from_number(76561198282622073), Some(SteamId::from_id32(322356345)));
    assert_eq!(SteamId::from_number(STEAM_ID_LIMIT - 1).map(|id| id.as_id64()), Some(STEAM_ID_LIMIT - 1));
    assert_eq!(SteamId::from_number(STEAM_ID_LIMIT), None);
    assert_eq!(SteamId::from_number(u64::MAX), None);
    for number in [0u64, 5, 4294967295, 4294967296, STEAM_ID_OFFSET, STEAM_ID_OFFSET + 1, STEAM_ID_LIMIT - 1, STEAM_ID_LIMIT, u64::MAX] {
        assert_eq!(SteamId::new(&number.to_string()), SteamId::from_number(number), "{number}");
    }
    assert_eq!(SteamId::new("18446744073709551616"), None);
    assert_eq!(SteamId::new("99999999999999999999999999999"), None);
}
