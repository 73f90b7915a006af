//! The failures that the library reports.

use vstd::prelude::*;
use vstd::string::*;

verus! {

/// What a fallible function of the library returns.
pub type Result<T> = core::result::Result<T, Error>;

/// Everything that can go wrong in the library.
#[derive(Debug, Clone, PartialEq, Eq, Hash)]
pub enum Error {
    /// A one-off failure that has only a message.
    Custom(String),
    /// A user's id in the database is not a `u64`.
    InvalidDBUserID,
    /// A user's Steam id in the database is not a `u32`.
    InvalidDBSteamID,
    /// A user's mode in the database is none of the known modes.
    InvalidDBMode,
    /// A log entry's id in the database is not a `u64`.
    InvalidLogID,
    /// A log entry's level in the database is none of the known levels.
    InvalidLogLevel(i16),
    /// A parameter was outside of the range that the platform allows.
    OutOfBoundsParam {
        /// The parameter in question.
        param: String,
        /// The value that was submitted.
        value: u64,
        /// The lower bound.
        min: u64,
        /// The upper bound.
        max: u64,
    },
    /// An input was given but held nothing.
    EmptyInput {
        /// What the input should have held.
        expected: String,
    },
    /// Neither the run with teleports nor the one without was found.
    NoRecords,
    /// No mode was given and none is saved for the user.
    NoMode,
}

/// An [`Error`] with its texts as sequences of characters.
pub ghost enum ErrorView {
    Custom(Seq<char>),
    InvalidDBUserID,
    InvalidDBSteamID,
    InvalidDBMode,
    InvalidLogID,
    InvalidLogLevel(i16),
    OutOfBoundsParam { param: Seq<char>, value: u64, min: u64, max: u64 },
    EmptyInput { expected: Seq<char> },
    NoRecords,
    NoMode,
}

impl View for Error {
    type V = ErrorView;

    open spec fn view(&self) -> ErrorView {
        match self {
            Error::Custom(message) => ErrorView::Custom(message@),
            Error::InvalidDBUserID => ErrorView::InvalidDBUserID,
            Error::InvalidDBSteamID => ErrorView::InvalidDBSteamID,
            Error::InvalidDBMode => ErrorView::InvalidDBMode,
            Error::InvalidLogID => ErrorView::InvalidLogID,
            Error::InvalidLogLevel(level) => ErrorView::InvalidLogLevel(*level),
            Error::OutOfBoundsParam { param, value, min, max } => ErrorView::OutOfBoundsParam {
                param: param@,
                value: *value,
                min: *min,
                max: *max,
            },
            Error::EmptyInput { expected } => ErrorView::EmptyInput { expected: expected@ },
            Error::NoRecords => ErrorView::NoRecords,
            Error::NoMode => ErrorView::NoMode,
        }
    }
}

impl Error {
    /// What a failed database request is reported as: a fixed message when
    /// the requested row does not exist, and the driver's own message
    /// otherwise.
    pub open spec fn database_failure(row_not_found: bool, message: Seq<char>) -> ErrorView {
        if row_not_found {
            ErrorView::Custom("Requested database entry not found."@)
        } else {
            ErrorView::Custom(message)
        }
    }

    /// Reports a failed database request.
    pub fn from_database(row_not_found: bool, message: String) -> (r: Error)
        ensures
            r@ == Self::database_failure(row_not_found, message@),
    {
        if row_not_found {
            Error::Custom(String::from_str("Requested database entry not found."))
        } else {
            Error::Custom(message)
        }
    }

    /// What a failure of the chat platform is reported as: the bounds that
    /// were broken where it was a value out of range, and the platform's own
    /// message otherwise.
    pub open spec fn platform_failure(
        out_of_range: Option<(Seq<char>, u64, u64, u64)>,
        message: Seq<char>,
    ) -> ErrorView {
        match out_of_range {
            Some((param, value, min, max)) => ErrorView::OutOfBoundsParam { param, value, min, max },
            None => ErrorView::Custom(message),
        }
    }

    /// Reports a failure of the chat platform.
    pub fn from_platform(out_of_range: Option<(String, u64, u64, u64)>, message: String) -> (r:
        Error)
        ensures
            r@ == Self::platform_failure(
                match out_of_range {
                    Some((param, value, min, max)) => Some((param@, value, min, max)),
                    None => None,
                },
                message@,
            ),
    {
        match out_of_range {
            Some((param, value, min, max)) => Error::OutOfBoundsParam { param, value, min, max },
            None => Error::Custom(message),
        }
    }
}

} // verus!
