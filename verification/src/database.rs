//! Rows as the database holds them, and what they stand for once checked.

use crate::error::{Error, ErrorView};
use crate::logging::Level;
use crate::params::Mode;
use crate::steam_id::{SteamId, STEAM_ID_OFFSET};
use vstd::prelude::*;

verus! {

/// A user as the database holds them.
#[derive(Debug, Clone, PartialEq, Eq)]
pub struct UserRow {
    /// The user's account id on the chat platform.
    pub discord_id: i64,
    /// The user's last known name on the chat platform.
    pub name: String,
    /// The user's 32-bit Steam id.
    pub steam_id: Option<i32>,
    /// The number of the user's favourite mode.
    pub mode: Option<i16>,
}

/// A user of the chat platform with their saved preferences.
#[derive(Debug, Clone, PartialEq, Eq)]
pub struct User {
    /// The user's account id on the chat platform.
    pub discord_id: u64,
    /// The user's last known name on the chat platform.
    pub name: String,
    /// The user's Steam id.
    pub steam_id: Option<SteamId>,
    /// The user's favourite mode.
    pub mode: Option<Mode>,
}

/// A [`User`] with the name as a sequence of characters and the Steam id as
/// its 64-bit number.
pub ghost struct UserView {
    pub discord_id: u64,
    pub name: Seq<char>,
    pub steam_id: Option<u64>,
    pub mode: Option<Mode>,
}

impl View for User {
    type V = UserView;

    open spec fn view(&self) -> UserView {
        UserView {
            discord_id: self.discord_id,
            name: self.name@,
            steam_id: match self.steam_id {
                Some(steam_id) => Some(steam_id@),
                None => None,
            },
            mode: self.mode,
        }
    }
}

impl UserRow {
    /// What is wrong with the row, if anything: the first of the account id,
    /// the Steam id and the mode that is out of range.
    pub open spec fn defect(&self) -> Option<ErrorView> {
        if self.discord_id < 0 {
            Some(ErrorView::InvalidDBUserID)
        } else if self.steam_id is Some && self.steam_id->0 < 0 {
            Some(ErrorView::InvalidDBSteamID)
        } else if self.mode is Some && (self.mode->0 < 0 || self.mode->0 > 255 || Mode::of_id(
            self.mode->0 as u8,
        ) is None) {
            Some(ErrorView::InvalidDBMode)
        } else {
            None
        }
    }

    /// The user that a row without defect stands for.
    pub open spec fn user(&self) -> UserView
        recommends
            self.defect() is None,
    {
        UserView {
            discord_id: self.discord_id as u64,
            name: self.name@,
            steam_id: match self.steam_id {
                Some(id32) => Some((id32 + STEAM_ID_OFFSET) as u64),
                None => None,
            },
            mode: match self.mode {
                Some(id) => Mode::of_id(id as u8),
                None => None,
            },
        }
    }
}

impl User {
    /// Checks a row and turns it into a user.
    pub fn from_row(row: UserRow) -> (r: Result<User, Error>)
        ensures
            match row.defect() {
                Some(e) => r is Err && r->Err_0@ == e,
                None => r is Ok && r->Ok_0@ == row.user(),
            },
    {
        if row.discord_id < 0 {
            return Err(Error::InvalidDBUserID);
        }
        let discord_id: u64 = row.discord_id as u64;
        let steam_id = match row.steam_id {
            Some(id32) => {
                if id32 < 0 {
                    return Err(Error::InvalidDBSteamID);
                }
                Some(SteamId::from_id32(id32 as u32))
            },
            None => None,
        };
        let mode = match row.mode {
            Some(id) => {
                if id < 0 || id > 255 {
                    return Err(Error::InvalidDBMode);
                }
                match Mode::from_id(id as u8) {
                    Some(mode) => Some(mode),
                    None => {
                        return Err(Error::InvalidDBMode);
                    },
                }
            },
            None => None,
        };
        Ok(User { discord_id, name: row.name, steam_id, mode })
    }
}

/// A log entry as the database holds it. `T` is the type of the time stamp,
/// which is carried along unread.
#[derive(Debug, Clone, PartialEq, Eq)]
pub struct LogRow<T> {
    /// The id that the database gave the entry.
    pub id: i64,
    /// The number of the entry's level.
    pub level: i16,
    /// The message.
    pub content: String,
    /// When the entry was made.
    pub created_on: T,
}

/// A log entry.
#[derive(Debug, Clone, PartialEq, Eq)]
pub struct Log<T> {
    /// The id that the database gave the entry.
    pub id: u64,
    /// The entry's level.
    pub level: Level,
    /// The message.
    pub content: String,
    /// When the entry was made.
    pub created_on: T,
}

impl<T> LogRow<T> {
    /// What is wrong with the row, if anything: the id where it is negative,
    /// else the level where its number names none.
    pub open spec fn defect(&self) -> Option<ErrorView> {
        if self.id < 0 {
            Some(ErrorView::InvalidLogID)
        } else if Level::of_number(self.level as int) is None {
            Some(ErrorView::InvalidLogLevel(self.level))
        } else {
            None
        }
    }
}

impl<T> Log<T> {
    /// Checks a row and turns it into a log entry.
    pub fn from_row(row: LogRow<T>) -> (r: Result<Log<T>, Error>)
        ensures
            match row.defect() {
                Some(e) => r is Err && r->Err_0@ == e,
                None => {
                    &&& r is Ok
                    &&& r->Ok_0.id == row.id
                    &&& Some(r->Ok_0.level) == Level::of_number(row.level as int)
                    &&& r->Ok_0.content@ == row.content@
                    &&& r->Ok_0.created_on == row.created_on
                },
            },
    {
        if row.id < 0 {
            return Err(Error::InvalidLogID);
        }
        let id: u64 = row.id as u64;
        let level = if row.level == 0 {
            Level::Trace
        } else if row.level == 1 {
            Level::Debug
        } else if row.level == 2 {
            Level::Info
        } else if row.level == 3 {
            Level::Warn
        } else if row.level == 4 {
            Level::Error
        } else {
            return Err(Error::InvalidLogLevel(row.level));
        };
        Ok(Log { id, level, content: row.content, created_on: row.created_on })
    }
}

} // verus!
