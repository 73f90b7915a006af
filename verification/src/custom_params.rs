//! The choices as commands offer them, and what each stands for.

use crate::database::{User, UserView};
use crate::params::{Mode, Tier};
use vstd::prelude::*;
use vstd::std_specs::convert::FromSpecImpl;

verus! {

/// The choice between no and yes.
#[derive(Debug, Clone, Copy, PartialEq, Eq, Structural)]
pub enum BoolChoice {
    No,
    Yes,
}

impl BoolChoice {
    /// The truth value that the choice stands for.
    pub open spec fn as_bool(self) -> bool {
        self == BoolChoice::Yes
    }
}

impl From<BoolChoice> for bool {
    fn from(choice: BoolChoice) -> (r: bool) {
        match choice {
            BoolChoice::Yes => true,
            BoolChoice::No => false,
        }
    }
}

impl FromSpecImpl<BoolChoice> for bool {
    open spec fn obeys_from_spec() -> bool {
        true
    }

    open spec fn from_spec(choice: BoolChoice) -> bool {
        choice.as_bool()
    }
}

/// The choice between runs with teleports and runs without.
#[derive(Debug, Clone, Copy, PartialEq, Eq, Structural)]
pub enum RuntypeChoice {
    TP,
    PRO,
}

impl RuntypeChoice {
    /// Whether the chosen runs have teleports.
    pub open spec fn has_teleports(self) -> bool {
        self == RuntypeChoice::TP
    }
}

impl From<RuntypeChoice> for bool {
    fn from(choice: RuntypeChoice) -> (r: bool) {
        match choice {
            RuntypeChoice::TP => true,
            RuntypeChoice::PRO => false,
        }
    }
}

impl FromSpecImpl<RuntypeChoice> for bool {
    open spec fn obeys_from_spec() -> bool {
        true
    }

    open spec fn from_spec(choice: RuntypeChoice) -> bool {
        choice.has_teleports()
    }
}

/// The choice of a mode.
#[derive(Debug, Clone, Copy, PartialEq, Eq, Structural)]
pub enum ModeChoice {
    KZTimer,
    SimpleKZ,
    Vanilla,
}

impl ModeChoice {
    /// The mode that the choice stands for.
    pub open spec fn mode(self) -> Mode {
        match self {
            ModeChoice::KZTimer => Mode::KZTimer,
            ModeChoice::SimpleKZ => Mode::SimpleKZ,
            ModeChoice::Vanilla => Mode::Vanilla,
        }
    }

    /// The mode to use where none was chosen: the one saved for the user,
    /// and KZTimer where there is no such user or no mode is saved for them.
    pub open spec fn fallback(user: Option<UserView>) -> Mode {
        match Mode::saved(user) {
            Some(mode) => mode,
            None => Mode::KZTimer,
        }
    }

    /// Figures out a mode to use where none was chosen. `user` is what is
    /// saved for the target of the command.
    pub fn figure_out(user: Option<&User>) -> (r: Mode)
        ensures
            r == ModeChoice::fallback(
                match user {
                    Some(user) => Some(user@),
                    None => None,
                },
            ),
    {
        match user {
            Some(user) => match user.mode {
                Some(mode) => mode,
                None => Mode::KZTimer,
            },
            None => Mode::KZTimer,
        }
    }
}

impl From<ModeChoice> for Mode {
    fn from(choice: ModeChoice) -> (r: Mode) {
        match choice {
            ModeChoice::KZTimer => Mode::KZTimer,
            ModeChoice::SimpleKZ => Mode::SimpleKZ,
            ModeChoice::Vanilla => Mode::Vanilla,
        }
    }
}

impl FromSpecImpl<ModeChoice> for Mode {
    open spec fn obeys_from_spec() -> bool {
        true
    }

    open spec fn from_spec(choice: ModeChoice) -> Mode {
        choice.mode()
    }
}

/// The choice of a mode to save, or of saving none.
#[derive(Debug, Clone, Copy, PartialEq, Eq, Structural)]
pub enum DBModeChoice {
    /// No mode is to be saved.
    Unset,
    KZTimer,
    SimpleKZ,
    Vanilla,
}

impl DBModeChoice {
    /// The mode that the choice stands for, if any.
    pub open spec fn mode(self) -> Option<Mode> {
        match self {
            DBModeChoice::Unset => None,
            DBModeChoice::KZTimer => Some(Mode::KZTimer),
            DBModeChoice::SimpleKZ => Some(Mode::SimpleKZ),
            DBModeChoice::Vanilla => Some(Mode::Vanilla),
        }
    }
}

impl From<DBModeChoice> for Option<Mode> {
    fn from(choice: DBModeChoice) -> (r: Option<Mode>) {
        match choice {
            DBModeChoice::Unset => None,
            DBModeChoice::KZTimer => Some(Mode::KZTimer),
            DBModeChoice::SimpleKZ => Some(Mode::SimpleKZ),
            DBModeChoice::Vanilla => Some(Mode::Vanilla),
        }
    }
}

impl FromSpecImpl<DBModeChoice> for Option<Mode> {
    open spec fn obeys_from_spec() -> bool {
        true
    }

    open spec fn from_spec(choice: DBModeChoice) -> Option<Mode> {
        choice.mode()
    }
}

/// The choice of a tier.
#[derive(Debug, Clone, Copy, PartialEq, Eq, Structural)]
pub enum TierChoice {
    VeryEasy,
    Easy,
    Medium,
    Hard,
    VeryHard,
    Extreme,
    Death,
}

impl TierChoice {
    /// The tier that the choice stands for.
    pub open spec fn tier(self) -> Tier {
        match self {
            TierChoice::VeryEasy => Tier::VeryEasy,
            TierChoice::Easy => Tier::Easy,
            TierChoice::Medium => Tier::Medium,
            TierChoice::Hard => Tier::Hard,
            TierChoice::VeryHard => Tier::VeryHard,
            TierChoice::Extreme => Tier::Extreme,
            TierChoice::Death => Tier::Death,
        }
    }
}

impl From<TierChoice> for Tier {
    fn from(choice: TierChoice) -> (r: Tier) {
        match choice {
            TierChoice::VeryEasy => Tier::VeryEasy,
            TierChoice::Easy => Tier::Easy,
            TierChoice::Medium => Tier::Medium,
            TierChoice::Hard => Tier::Hard,
            TierChoice::VeryHard => Tier::VeryHard,
            TierChoice::Extreme => Tier::Extreme,
            TierChoice::Death => Tier::Death,
        }
    }
}

impl FromSpecImpl<TierChoice> for Tier {
    open spec fn obeys_from_spec() -> bool {
        true
    }

    open spec fn from_spec(choice: TierChoice) -> Tier {
        choice.tier()
    }
}

} // verus!
