use schnose_discord_bot::database::{Log, LogRow, User, UserRow};
use schnose_discord_bot::error::Error;
use schnose_discord_bot::logging::Level;
use schnose_discord_bot::params::Mode;
use schnose_discord_bot::steam_id::SteamId;

fn row(discord_id: i64, steam_id: Option<i32>, mode: Option<i16>) -> UserRow {
    UserRow { discord_id, name: String::from("AlphaKeks"), steam_id, mode }
}

fn log_row(id: i64, level: i16) -> LogRow<(u32, u32)> {
    LogRow { id, level, content: String::from("Connected to discord."), created_on: (1686000000, 17) }
}

#[test]
fn a_sound_row_is_a_user() {
    assert_eq!(
        User::from_row(row(291585142164815873, Some(322356345), Some(201))),
        Ok(User {
            discord_id: 291585142164815873,
            name: String::from("AlphaKeks"),
            steam_id: Some(SteamId::from_id32(322356345)),
            mode: Some(Mode::SimpleKZ),
        })
    );
    assert_eq!(
        User::from_row(row(0, None, None)),
        Ok(User { discord_id: 0, name: String::from("AlphaKeks"), steam_id: None, mode: None })
    );
    assert_eq!(User::from_row(row(i64::MAX, Some(0), Some(200))).unwrap().discord_id, i64::MAX as u64);
    assert_eq!(User::from_row(row(1, Some(i32::MAX), Some(202))).unwrap().steam_id.unwrap().as_id64(), 76561200107749375);
    assert_eq!(User::from_row(row(1, None, Some(200))).unwrap().mode, Some(Mode::KZTimer));
    assert_eq!(User::from_row(row(1, None, Some(202))).unwrap().mode, Some(Mode::Vanilla));
}

#[test]
fn a_negative_user_id_is_refused() {
    assert_eq!(User::from_row(row(-1, Some(1), Some(200))), Err(Error::InvalidDBUserID));
    assert_eq!(User::from_row(row(i64::MIN, None, None)), Err(Error::InvalidDBUserID));
    assert_eq!(User::from_row(row(-1, Some(-1), Some(-1))), Err(Error::InvalidDBUserID));
}

#[test]
fn a_negative_steam_id_is_refused() {
    assert_eq!(User::from_row(row(1, Some(-1), Some(200))), Err(Error::InvalidDBSteamID));
    assert_eq!(User::from_row(row(1, Some(i32::MIN), None)), Err(Error::InvalidDBSteamID));
    assert_eq!(User::from_row(row(1, Some(-1), Some(7))), Err(Error::InvalidDBSteamID));
}

#[test]
fn an_unknown_mode_is_refused() {
    for mode in [-1, 0, 1, 199, 203, 255, 256, 456, i16::MAX, i16::MIN] {
        assert_eq!(User::from_row(row(1, Some(1), Some(mode))), Err(Error::InvalidDBMode), "{mode}");
    }
}

#[test]
fn a_sound_row_is_a_log_entry() {
    for (number, level) in [(0, Level::Trace), (1, Level::Debug), (2, Level::Info), (3, Level::Warn), (4, Level::Error)] {
        assert_eq!(
            Log::from_row(log_row(12, number)),
            Ok(Log { id: 12, level, content: String::from("Connected to discord."), created_on: (1686000000, 17) })
        );
    }
    assert_eq!(Log::from_row(log_row(0, 0)).unwrap().id, 0);
    assert_eq!(Log::from_row(log_row(i64::MAX, 4)).unwrap().id, i64::MAX as u64);
}

#[test]
fn a_negative_log_id_is_refused() {
    assert_eq!(Log::from_row(log_row(-1, 2)), Err(Error::InvalidLogID));
    assert_eq!(Log::from_row(log_row(i64::MIN, 2)), Err(Error::InvalidLogID));
    assert_eq!(Log::from_row(log_row(-1, 9)), Err(Error::InvalidLogID));
}

#[test]
fn an_unknown_log_level_is_refused() {
    for level in [-1, 5, 6, 255, i16::MAX, i16::MIN] {
        assert_eq!(Log::from_row(log_row(1, level)), Err(Error::InvalidLogLevel(level)), "{level}");
    }
}
