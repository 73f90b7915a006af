//! The closed choices that commands take as parameters, with their mappings
//! to and from plain values.

use crate::database::{User, UserView};
use crate::error::{Error, ErrorView};
use vstd::prelude::*;
use vstd::std_specs::convert::FromSpecImpl;
use vstd::string::*;

verus! {

/// A yes/no choice.
#[derive(Debug, Clone, Copy, PartialEq, Eq, Structural)]
pub enum Bool {
    Yes,
    No,
}

impl Bool {
    /// The truth value that the choice stands for.
    pub open spec fn as_bool(self) -> bool {
        self == Bool::Yes
    }

    /// The choice that stands for a truth value.
    pub open spec fn of_bool(b: bool) -> Bool {
        if b {
            Bool::Yes
        } else {
            Bool::No
        }
    }

    /// The number under which the choice is registered: one for yes and
    /// zero for no.
    pub open spec fn spec_id(self) -> u8 {
        if self.as_bool() {
            1
        } else {
            0
        }
    }

    /// The choice that is registered under a number, if there is one.
    pub open spec fn of_id(id: u8) -> Option<Bool> {
        if id == 1 {
            Some(Bool::Yes)
        } else if id == 0 {
            Some(Bool::No)
        } else {
            None
        }
    }

    /// The word that the choice is offered as.
    pub open spec fn label(self) -> Seq<char> {
        match self {
            Bool::Yes => "Yes"@,
            Bool::No => "No"@,
        }
    }

    /// The number under which the choice is registered.
    #[verifier::when_used_as_spec(spec_id)]
    pub fn id(self) -> (r: u8)
        ensures
            r == self.spec_id(),
    {
        match self {
            Bool::Yes => 1,
            Bool::No => 0,
        }
    }

    /// The choice that is registered under a number, if there is one.
    pub fn from_id(id: u8) -> (r: Option<Bool>)
        ensures
            r == Bool::of_id(id),
    {
        if id == 1 {
            Some(Bool::Yes)
        } else if id == 0 {
            Some(Bool::No)
        } else {
            None
        }
    }

    /// The word that the choice is offered as.
    pub fn to_text(&self) -> (r: String)
        ensures
            r@ == self.label(),
    {
        match self {
            Bool::Yes => String::from_str("Yes"),
            Bool::No => String::from_str("No"),
        }
    }

    /// Going to a truth value or to a number and back changes nothing, in
    /// either direction.
    pub proof fn lemma_round_trip(choice: Bool, b: bool, id: u8)
        ensures
            Bool::of_bool(choice.as_bool()) == choice,
            Bool::of_bool(b).as_bool() == b,
            Bool::of_id(choice.spec_id()) == Some(choice),
            Bool::of_id(id) is Some ==> Bool::of_id(id)->0.spec_id() == id,
    {
    }
}

impl From<bool> for Bool {
    fn from(b: bool) -> (r: Bool) {
        if b {
            Bool::Yes
        } else {
            Bool::No
        }
    }
}

impl FromSpecImpl<bool> for Bool {
    open spec fn obeys_from_spec() -> bool {
        true
    }

    open spec fn from_spec(b: bool) -> Bool {
        Bool::of_bool(b)
    }
}

impl From<Bool> for bool {
    fn from(choice: Bool) -> (r: bool) {
        match choice {
            Bool::Yes => true,
            Bool::No => false,
        }
    }
}

impl FromSpecImpl<Bool> for bool {
    open spec fn obeys_from_spec() -> bool {
        true
    }

    open spec fn from_spec(choice: Bool) -> bool {
        choice.as_bool()
    }
}

/// Whether a run used teleports.
#[derive(Debug, Clone, Copy, PartialEq, Eq, Structural)]
pub enum Runtype {
    /// A run without teleports.
    Pro,
    /// A run with teleports.
    TP,
}

impl Runtype {
    /// Whether runs of this type have teleports.
    pub open spec fn has_teleports(self) -> bool {
        self == Runtype::TP
    }

    /// The type of the runs that have teleports, or of those that have none.
    pub open spec fn of_bool(has_teleports: bool) -> Runtype {
        if has_teleports {
            Runtype::TP
        } else {
            Runtype::Pro
        }
    }

    /// The number under which the choice is registered: one for runs with
    /// teleports and zero for runs without.
    pub open spec fn spec_id(self) -> u8 {
        if self.has_teleports() {
            1
        } else {
            0
        }
    }

    /// The choice that is registered under a number, if there is one.
    pub open spec fn of_id(id: u8) -> Option<Runtype> {
        if id == 1 {
            Some(Runtype::TP)
        } else if id == 0 {
            Some(Runtype::Pro)
        } else {
            None
        }
    }

    /// The word that the choice is offered as.
    pub open spec fn label(self) -> Seq<char> {
        match self {
            Runtype::Pro => "PRO"@,
            Runtype::TP => "TP"@,
        }
    }

    /// The number under which the choice is registered.
    #[verifier::when_used_as_spec(spec_id)]
    pub fn id(self) -> (r: u8)
        ensures
            r == self.spec_id(),
    {
        match self {
            Runtype::Pro => 0,
            Runtype::TP => 1,
        }
    }

    /// The choice that is registered under a number, if there is one.
    pub fn from_id(id: u8) -> (r: Option<Runtype>)
        ensures
            r == Runtype::of_id(id),
    {
        if id == 1 {
            Some(Runtype::TP)
        } else if id == 0 {
            Some(Runtype::Pro)
        } else {
            None
        }
    }

    /// The word that the choice is offered as.
    pub fn to_text(&self) -> (r: String)
        ensures
            r@ == self.label(),
    {
        match self {
            Runtype::Pro => String::from_str("PRO"),
            Runtype::TP => String::from_str("TP"),
        }
    }

    /// Going to a truth value or to a number and back changes nothing, in
    /// either direction.
    pub proof fn lemma_round_trip(runtype: Runtype, b: bool, id: u8)
        ensures
            Runtype::of_bool(runtype.has_teleports()) == runtype,
            Runtype::of_bool(b).has_teleports() == b,
            Runtype::of_id(runtype.spec_id()) == Some(runtype),
            Runtype::of_id(id) is Some ==> Runtype::of_id(id)->0.spec_id() == id,
    {
    }
}

impl From<bool> for Runtype {
    fn from(has_teleports: bool) -> (r: Runtype) {
        if has_teleports {
            Runtype::TP
        } else {
            Runtype::Pro
        }
    }
}

impl FromSpecImpl<bool> for Runtype {
    open spec fn obeys_from_spec() -> bool {
        true
    }

    open spec fn from_spec(has_teleports: bool) -> Runtype {
        Runtype::of_bool(has_teleports)
    }
}

impl From<Runtype> for bool {
    fn from(runtype: Runtype) -> (r: bool) {
        match runtype {
            Runtype::Pro => false,
            Runtype::TP => true,
        }
    }
}

impl FromSpecImpl<Runtype> for bool {
    open spec fn obeys_from_spec() -> bool {
        true
    }

    open spec fn from_spec(runtype: Runtype) -> bool {
        runtype.has_teleports()
    }
}

impl Default for Runtype {
    fn default() -> (r: Runtype)
        ensures
            r == Runtype::Pro,
    {
        Runtype::Pro
    }
}

/// Turns the upper-case ASCII letters of a text into lower case and leaves
/// everything else as it is.
pub open spec fn ascii_lowercase(s: Seq<char>) -> Seq<char> {
    s.map_values(
        |c: char|
            if 'A' <= c <= 'Z' {
                ((c as u8) + 32) as char
            } else {
                c
            },
    )
}

/// One of the three game modes.
#[derive(Debug, Clone, Copy, PartialEq, Eq, Structural)]
pub enum Mode {
    KZTimer,
    SimpleKZ,
    Vanilla,
}

impl Mode {
    /// The number that the leaderboard service knows the mode by.
    pub open spec fn spec_id(self) -> u8 {
        match self {
            Mode::KZTimer => 200,
            Mode::SimpleKZ => 201,
            Mode::Vanilla => 202,
        }
    }

    /// The mode with the given number, if there is one.
    pub open spec fn of_id(id: u8) -> Option<Mode> {
        if id == 200 {
            Some(Mode::KZTimer)
        } else if id == 201 {
            Some(Mode::SimpleKZ)
        } else if id == 202 {
            Some(Mode::Vanilla)
        } else {
            None
        }
    }

    /// The abbreviation that players use for the mode.
    pub open spec fn short_text(self) -> Seq<char> {
        match self {
            Mode::KZTimer => "KZT"@,
            Mode::SimpleKZ => "SKZ"@,
            Mode::Vanilla => "VNL"@,
        }
    }

    /// The full name of the mode.
    pub open spec fn name(self) -> Seq<char> {
        match self {
            Mode::KZTimer => "KZTimer"@,
            Mode::SimpleKZ => "SimpleKZ"@,
            Mode::Vanilla => "Vanilla"@,
        }
    }

    /// The full name of the mode.
    pub fn to_text(&self) -> (r: String)
        ensures
            r@ == self.name(),
    {
        match self {
            Mode::KZTimer => String::from_str("KZTimer"),
            Mode::SimpleKZ => String::from_str("SimpleKZ"),
            Mode::Vanilla => String::from_str("Vanilla"),
        }
    }

    /// The number that the leaderboard service knows the mode by.
    #[verifier::when_used_as_spec(spec_id)]
    pub fn id(self) -> (r: u8)
        ensures
            r == self.spec_id(),
    {
        match self {
            Mode::KZTimer => 200,
            Mode::SimpleKZ => 201,
            Mode::Vanilla => 202,
        }
    }

    /// The mode with the given number, if there is one.
    pub fn from_id(id: u8) -> (r: Option<Mode>)
        ensures
            r == Mode::of_id(id),
    {
        if id == 200 {
            Some(Mode::KZTimer)
        } else if id == 201 {
            Some(Mode::SimpleKZ)
        } else if id == 202 {
            Some(Mode::Vanilla)
        } else {
            None
        }
    }

    /// The abbreviation that players use for the mode.
    pub fn short(&self) -> (r: String)
        ensures
            r@ == self.short_text(),
    {
        match self {
            Mode::KZTimer => String::from_str("KZT"),
            Mode::SimpleKZ => String::from_str("SKZ"),
            Mode::Vanilla => String::from_str("VNL"),
        }
    }

    /// The abbreviation in lower case, the key under which profile and map
    /// pages take the mode.
    pub fn short_lowercase(&self) -> (r: String)
        ensures
            r@ == ascii_lowercase(self.short_text()),
    {
        proof {
            reveal_strlit("KZT");
            reveal_strlit("SKZ");
            reveal_strlit("VNL");
            reveal_strlit("kzt");
            reveal_strlit("skz");
            reveal_strlit("vnl");
        }
        let r = match self {
            Mode::KZTimer => String::from_str("kzt"),
            Mode::SimpleKZ => String::from_str("skz"),
            Mode::Vanilla => String::from_str("vnl"),
        };
        assert(r@ =~= ascii_lowercase(self.short_text()));
        r
    }

    /// The mode that is saved for a user, if the user is there and has one.
    pub open spec fn saved(user: Option<UserView>) -> Option<Mode> {
        match user {
            Some(user) => user.mode,
            None => None,
        }
    }

    /// Settles the mode that a command runs in: the one that was given, else
    /// the one saved for the caller.
    ///
    /// `user` is what the request for the caller's saved preferences
    /// returned; where a mode was given, none is made and `user` is not
    /// read. A failed request fails the command with the same error, and so
    /// does a caller without a saved mode, with [`Error::NoMode`].
    pub fn parse_param(mode: Option<Mode>, user: Result<Option<User>, Error>) -> (r: Result<
        Mode,
        Error,
    >)
        ensures
            mode is Some ==> r == Ok::<Mode, Error>(mode->0),
            mode is None ==> match user {
                Err(error) => r == Err::<Mode, Error>(error),
                Ok(user) => match Mode::saved(
                    match user {
                        Some(user) => Some(user@),
                        None => None,
                    },
                ) {
                    Some(mode) => r == Ok::<Mode, Error>(mode),
                    None => r is Err && r->Err_0@ == ErrorView::NoMode,
                },
            },
    {
        if let Some(mode) = mode {
            return Ok(mode);
        }
        match user {
            Err(error) => Err(error),
            Ok(Some(user)) => match user.mode {
                Some(mode) => Ok(mode),
                None => Err(Error::NoMode),
            },
            Ok(None) => Err(Error::NoMode),
        }
    }

    /// A mode is found again by its number, and a number that names a mode
    /// is that mode's number.
    pub proof fn lemma_id_round_trip(mode: Mode, id: u8)
        ensures
            Mode::of_id(mode.spec_id()) == Some(mode),
            Mode::of_id(id) is Some ==> Mode::of_id(id)->0.spec_id() == id,
            Mode::of_id(id) is Some <==> 200 <= id <= 202,
    {
    }
}

/// The difficulty of a map.
#[derive(Debug, Clone, Copy, PartialEq, Eq, Structural)]
pub enum Tier {
    VeryEasy,
    Easy,
    Medium,
    Hard,
    VeryHard,
    Extreme,
    Death,
}

impl Tier {
    /// The number of the tier, from 1 for the easiest to 7 for the hardest.
    pub open spec fn spec_level(self) -> u8 {
        match self {
            Tier::VeryEasy => 1,
            Tier::Easy => 2,
            Tier::Medium => 3,
            Tier::Hard => 4,
            Tier::VeryHard => 5,
            Tier::Extreme => 6,
            Tier::Death => 7,
        }
    }

    /// The tier with the given number, if there is one.
    pub open spec fn of_level(level: u8) -> Option<Tier> {
        if level == 1 {
            Some(Tier::VeryEasy)
        } else if level == 2 {
            Some(Tier::Easy)
        } else if level == 3 {
            Some(Tier::Medium)
        } else if level == 4 {
            Some(Tier::Hard)
        } else if level == 5 {
            Some(Tier::VeryHard)
        } else if level == 6 {
            Some(Tier::Extreme)
        } else if level == 7 {
            Some(Tier::Death)
        } else {
            None
        }
    }

    /// The words that the tier is offered as.
    pub open spec fn label(self) -> Seq<char> {
        match self {
            Tier::VeryEasy => "Very Easy"@,
            Tier::Easy => "Easy"@,
            Tier::Medium => "Medium"@,
            Tier::Hard => "Hard"@,
            Tier::VeryHard => "VeryHard"@,
            Tier::Extreme => "Extreme"@,
            Tier::Death => "Death"@,
        }
    }

    /// The words that the tier is offered as.
    pub fn to_text(&self) -> (r: String)
        ensures
            r@ == self.label(),
    {
        match self {
            Tier::VeryEasy => String::from_str("Very Easy"),
            Tier::Easy => String::from_str("Easy"),
            Tier::Medium => String::from_str("Medium"),
            Tier::Hard => String::from_str("Hard"),
            Tier::VeryHard => String::from_str("VeryHard"),
            Tier::Extreme => String::from_str("Extreme"),
            Tier::Death => String::from_str("Death"),
        }
    }

    /// The number of the tier.
    #[verifier::when_used_as_spec(spec_level)]
    pub fn level(self) -> (r: u8)
        ensures
            r == self.spec_level(),
            1 <= r <= 7,
    {
        match self {
            Tier::VeryEasy => 1,
            Tier::Easy => 2,
            Tier::Medium => 3,
            Tier::Hard => 4,
            Tier::VeryHard => 5,
            Tier::Extreme => 6,
            Tier::Death => 7,
        }
    }

    /// The tier with the given number, if there is one.
    pub fn from_level(level: u8) -> (r: Option<Tier>)
        ensures
            r == Tier::of_level(level),
    {
        if level == 1 {
            Some(Tier::VeryEasy)
        } else if level == 2 {
            Some(Tier::Easy)
        } else if level == 3 {
            Some(Tier::Medium)
        } else if level == 4 {
            Some(Tier::Hard)
        } else if level == 5 {
            Some(Tier::VeryHard)
        } else if level == 6 {
            Some(Tier::Extreme)
        } else if level == 7 {
            Some(Tier::Death)
        } else {
            None
        }
    }

    /// A tier is found again by its number, and a number that names a tier
    /// is that tier's number.
    pub proof fn lemma_level_round_trip(tier: Tier, level: u8)
        ensures
            Tier::of_level(tier.spec_level()) == Some(tier),
            Tier::of_level(level) is Some ==> Tier::of_level(level)->0.spec_level() == level,
            Tier::of_level(level) is Some <==> 1 <= level <= 7,
    {
    }
}

} // verus!
