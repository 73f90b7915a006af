//! Log levels: their names, their colours and their numbers.

use crate::error::{Error, ErrorView};
use crate::text::{append_string, decimal, u64_to_string};
use vstd::prelude::*;
use vstd::std_specs::convert::FromSpecImpl;
use vstd::string::*;

verus! {

/// How much a log entry matters.
#[derive(Debug, Clone, Copy, PartialEq, Eq, PartialOrd, Ord, Hash, Structural)]
pub enum Level {
    Trace,
    Debug,
    Info,
    Warn,
    Error,
}

impl Level {
    /// The upper-case name of the level.
    pub open spec fn name(self) -> Seq<char> {
        match self {
            Level::Trace => "TRACE"@,
            Level::Debug => "DEBUG"@,
            Level::Info => "INFO"@,
            Level::Warn => "WARN"@,
            Level::Error => "ERROR"@,
        }
    }

    /// The colour that entries of the level are shown in, as red, green and
    /// blue.
    pub open spec fn color(self) -> (u8, u8, u8) {
        match self {
            Level::Trace => (148u8, 226u8, 213u8),
            Level::Debug => (137u8, 180u8, 250u8),
            Level::Info => (166u8, 227u8, 161u8),
            Level::Warn => (249u8, 226u8, 175u8),
            Level::Error => (243u8, 139u8, 168u8),
        }
    }

    /// The level with the given number, from 0 for the least to 4 for the
    /// most important, if there is one.
    pub open spec fn of_number(number: int) -> Option<Level> {
        if number == 0 {
            Some(Level::Trace)
        } else if number == 1 {
            Some(Level::Debug)
        } else if number == 2 {
            Some(Level::Info)
        } else if number == 3 {
            Some(Level::Warn)
        } else if number == 4 {
            Some(Level::Error)
        } else {
            None
        }
    }

    /// The message for a number that names no level.
    pub open spec fn invalid_level_message(number: u8) -> Seq<char> {
        "`"@ + decimal(number as nat) + "` is an invalid log level."@
    }

    /// The upper-case name of the level.
    pub fn to_text(&self) -> (r: String)
        ensures
            r@ == self.name(),
    {
        match self {
            Level::Trace => String::from_str("TRACE"),
            Level::Debug => String::from_str("DEBUG"),
            Level::Info => String::from_str("INFO"),
            Level::Warn => String::from_str("WARN"),
            Level::Error => String::from_str("ERROR"),
        }
    }

    /// The level with the given number, or a message that names the number
    /// where there is no such level.
    pub fn try_from(level: u8) -> (r: Result<Level, Error>)
        ensures
            match Level::of_number(level as int) {
                Some(l) => r == Ok::<Level, Error>(l),
                None => r is Err && r->Err_0@ == ErrorView::Custom(
                    Level::invalid_level_message(level),
                ),
            },
    {
        if level == 0 {
            Ok(Level::Trace)
        } else if level == 1 {
            Ok(Level::Debug)
        } else if level == 2 {
            Ok(Level::Info)
        } else if level == 3 {
            Ok(Level::Warn)
        } else if level == 4 {
            Ok(Level::Error)
        } else {
            let mut message = String::from_str("`");
            append_string(&mut message, u64_to_string(level as u64));
            message.append("` is an invalid log level.");
            Err(Error::Custom(message))
        }
    }
}

impl From<Level> for (u8, u8, u8) {
    fn from(level: Level) -> (r: (u8, u8, u8)) {
        match level {
            Level::Trace => (148, 226, 213),
            Level::Debug => (137, 180, 250),
            Level::Info => (166, 227, 161),
            Level::Warn => (249, 226, 175),
            Level::Error => (243, 139, 168),
        }
    }
}

impl FromSpecImpl<Level> for (u8, u8, u8) {
    open spec fn obeys_from_spec() -> bool {
        true
    }

    open spec fn from_spec(level: Level) -> (u8, u8, u8) {
        level.color()
    }
}

} // verus!
