//! Who a command is about: reading the target from what the caller typed,
//! writing it back as text, and settling on the player to ask the leaderboard
//! for.

use crate::database::{User, UserView};
use crate::error::{Error, ErrorView};
use crate::steam_id::{
    lemma_numbers_are_read, lemma_steam_id_text_is_trimmed, steam_id_text, SteamId,
    STEAM_ID_OFFSET,
};
use crate::text::{
    all_digits, append_string, decimal, decimal_value, is_blank, is_whitespace,
    lemma_decimal_round_trip, lemma_trimmed, lemma_trimmed_fixed, lemma_trimmed_idempotent,
    parse_decimal, trim, trimmed, u64_to_string,
};
use vstd::prelude::*;
use vstd::std_specs::convert::FromSpecImpl;
use vstd::string::*;

verus! {

/// Who a command is about.
#[derive(Debug, Clone, PartialEq, Eq)]
pub enum Target {
    /// Nobody was named: the caller, by their account id.
    Unspecified { user_id: u64 },
    /// Somebody was mentioned, by their account id.
    Mention { user_id: u64 },
    /// A Steam id was given.
    SteamID { steam_id: SteamId },
    /// Something else was given, which is taken as a name.
    Name { name: String },
}

/// A [`Target`] with the Steam id as its 64-bit number and the name as a
/// sequence of characters.
pub ghost enum TargetView {
    Unspecified { user_id: u64 },
    Mention { user_id: u64 },
    SteamID { steam_id: u64 },
    Name { name: Seq<char> },
}

impl View for Target {
    type V = TargetView;

    open spec fn view(&self) -> TargetView {
        match self {
            Target::Unspecified { user_id } => TargetView::Unspecified { user_id: *user_id },
            Target::Mention { user_id } => TargetView::Mention { user_id: *user_id },
            Target::SteamID { steam_id } => TargetView::SteamID { steam_id: steam_id@ },
            Target::Name { name } => TargetView::Name { name: name@ },
        }
    }
}

/// The player that a target resolves to, as the leaderboard takes it.
#[derive(Debug, Clone, PartialEq, Eq)]
pub enum PlayerIdentifier {
    SteamID(SteamId),
    Name(String),
}

/// A [`PlayerIdentifier`] with the Steam id as its 64-bit number and the
/// name as a sequence of characters.
pub ghost enum PlayerIdentifierView {
    SteamID(u64),
    Name(Seq<char>),
}

impl View for PlayerIdentifier {
    type V = PlayerIdentifierView;

    open spec fn view(&self) -> PlayerIdentifierView {
        match self {
            PlayerIdentifier::SteamID(steam_id) => PlayerIdentifierView::SteamID(steam_id@),
            PlayerIdentifier::Name(name) => PlayerIdentifierView::Name(name@),
        }
    }
}

impl PlayerIdentifier {
    /// The text that the player is asked for by: the canonical text of a
    /// Steam id, and a name as it is.
    pub open spec fn text(self) -> Seq<char> {
        match self@ {
            PlayerIdentifierView::SteamID(steam_id) => steam_id_text(steam_id),
            PlayerIdentifierView::Name(name) => name,
        }
    }

    /// Writes the player as text.
    pub fn to_text(&self) -> (r: String)
        ensures
            r@ == self.text(),
    {
        match self {
            PlayerIdentifier::SteamID(steam_id) => steam_id.to_text(),
            PlayerIdentifier::Name(name) => name.clone(),
        }
    }
}

/// The saved preferences that belong to a target, by the key that finds them.
#[derive(Debug, Clone, PartialEq, Eq)]
pub enum UserQuery {
    /// The user with this account id.
    ById(u64),
    /// The user with this Steam id.
    BySteamId(SteamId),
    /// A user whose name contains this text.
    ByName(String),
}

/// Whether `text` is a mention token: `<@`, one or more ASCII digits, `>`,
/// and nothing else.
pub open spec fn is_mention(text: Seq<char>) -> bool {
    &&& text.len() >= 4
    &&& text[0] == '<'
    &&& text[1] == '@'
    &&& text.last() == '>'
    &&& all_digits(mention_digits(text))
}

/// The digits between the brackets of a mention token.
pub open spec fn mention_digits(text: Seq<char>) -> Seq<char>
    recommends
        text.len() >= 3,
{
    text.subrange(2, text.len() - 1)
}

/// The account id that a text mentions: the number between the brackets of
/// a mention token, where it fits in 64 bits.
pub open spec fn mentioned_id(text: Seq<char>) -> Option<u64> {
    if is_mention(text) && decimal_value(mention_digits(text)) <= u64::MAX {
        Some(decimal_value(mention_digits(text)) as u64)
    } else {
        None
    }
}

/// The mention token for an account id.
pub open spec fn mention_text(user_id: u64) -> Seq<char> {
    "<@"@ + decimal(user_id as nat) + ">"@
}

/// What is expected where a target is asked for.
pub open spec fn expected_input() -> Seq<char> {
    "User identifier"@
}

/// What a text that was typed as a target stands for, given the Steam id
/// that was read from it, if any. The text is taken as it is, without
/// trimming.
///
/// The first of these that applies decides: an empty text is refused, a
/// Steam id is taken, a mention is taken, and anything else is a name.
pub open spec fn classified(text: Seq<char>, steam_id: Option<u64>) -> Result<
    TargetView,
    ErrorView,
> {
    if text.len() == 0 {
        Err(ErrorView::EmptyInput { expected: expected_input() })
    } else if steam_id is Some {
        Ok(TargetView::SteamID { steam_id: steam_id->0 })
    } else if mentioned_id(text) is Some {
        Ok(TargetView::Mention { user_id: mentioned_id(text)->0 })
    } else {
        Ok(TargetView::Name { name: text })
    }
}

/// What a text that was typed as a target stands for: the text is trimmed,
/// read as a Steam id and classified.
pub open spec fn parsed_text(text: Seq<char>) -> Result<TargetView, ErrorView> {
    classified(trimmed(text), SteamId::read(trimmed(text)))
}

/// What the target field of a command stands for: the caller where it was
/// left out, and what was typed otherwise.
pub open spec fn parsed(input: Option<Seq<char>>, caller_id: u64) -> Result<
    TargetView,
    ErrorView,
> {
    match input {
        None => Ok(TargetView::Unspecified { user_id: caller_id }),
        Some(text) => parsed_text(text),
    }
}

/// The text that a target is written as: a mention token for an account id,
/// the canonical text for a Steam id, and a name as it is.
pub open spec fn target_text(target: TargetView) -> Seq<char> {
    match target {
        TargetView::Unspecified { user_id } => mention_text(user_id),
        TargetView::Mention { user_id } => mention_text(user_id),
        TargetView::SteamID { steam_id } => steam_id_text(steam_id),
        TargetView::Name { name } => name,
    }
}

/// The account id whose saved preferences decide who the target is, if the
/// target does not say so itself.
pub open spec fn lookup_id(target: TargetView) -> Option<u64> {
    match target {
        TargetView::Unspecified { user_id } => Some(user_id),
        TargetView::Mention { user_id } => Some(user_id),
        _ => None,
    }
}

/// What a request for saved preferences led to: the user, or nothing where
/// there is none or the request failed, whatever the failure was.
pub open spec fn found_user<E>(lookup: Result<Option<User>, E>) -> Option<UserView> {
    match lookup {
        Ok(Some(user)) => Some(user@),
        _ => None,
    }
}

/// What a request for a member's name led to: the name, or nothing where no
/// request was made or the request failed, whatever the failure was.
pub open spec fn found_name<F>(lookup: Option<Result<String, F>>) -> Option<Seq<char>> {
    match lookup {
        Some(Ok(name)) => Some(name@),
        _ => None,
    }
}

/// The player that a target resolves to.
///
/// A Steam id or a name stands for itself. An account id stands for the
/// Steam id in the saved preferences, else for the name saved there, else
/// for the name the account has as a member of the guild, else for the
/// fallback name.
pub open spec fn resolved(
    target: TargetView,
    user: Option<UserView>,
    member_name: Option<Seq<char>>,
    fallback_name: Seq<char>,
) -> PlayerIdentifierView {
    match target {
        TargetView::SteamID { steam_id } => PlayerIdentifierView::SteamID(steam_id),
        TargetView::Name { name } => PlayerIdentifierView::Name(name),
        _ => match user {
            Some(user) => match user.steam_id {
                Some(steam_id) => PlayerIdentifierView::SteamID(steam_id),
                None => PlayerIdentifierView::Name(user.name),
            },
            None => match member_name {
                Some(name) => PlayerIdentifierView::Name(name),
                None => PlayerIdentifierView::Name(fallback_name),
            },
        },
    }
}

/// Reads the account id out of a mention token.
pub fn parse_mention(text: &str) -> (r: Option<u64>)
    ensures
        r == mentioned_id(text@),
{
    let n: usize = text.unicode_len();
    if n < 4 {
        return None;
    }
    if text.get_char(0) != '<' || text.get_char(1) != '@' || text.get_char(n - 1) != '>' {
        return None;
    }
    parse_decimal(text.substring_char(2, n - 1))
}

/// Writes the mention token for an account id.
pub fn format_mention(user_id: u64) -> (r: String)
    ensures
        r@ == mention_text(user_id),
{
    let mut r = String::from_str("<@");
    append_string(&mut r, u64_to_string(user_id));
    r.append(">");
    r
}

impl Target {
    /// Classifies a text that was typed as a target, given the Steam id that
    /// was read from it, if any. The text is taken as it is, without
    /// trimming.
    pub fn classify(text: &str, steam_id: Option<SteamId>) -> (r: Result<Target, Error>)
        ensures
            match classified(
                text@,
                match steam_id {
                    Some(id) => Some(id@),
                    None => None,
                },
            ) {
                Ok(target) => r is Ok && r->Ok_0@ == target,
                Err(error) => r is Err && r->Err_0@ == error,
            },
    {
        if text.unicode_len() == 0 {
            return Err(Error::EmptyInput { expected: String::from_str("User identifier") });
        }
        if let Some(steam_id) = steam_id {
            return Ok(Target::SteamID { steam_id });
        }
        if let Some(user_id) = parse_mention(text) {
            return Ok(Target::Mention { user_id });
        }
        Ok(Target::Name { name: String::from_str(text) })
    }

    /// Reads a target from what was typed.
    pub fn from_str(s: &str) -> (r: Result<Target, Error>)
        ensures
            match parsed_text(s@) {
                Ok(target) => r is Ok && r->Ok_0@ == target,
                Err(error) => r is Err && r->Err_0@ == error,
            },
    {
        let text = trim(s);
        let steam_id = SteamId::new(text);
        Target::classify(text, steam_id)
    }

    /// Reads the target field of a command: the caller where the field was
    /// left out, and what was typed otherwise.
    pub fn parse(input: Option<&str>, caller_id: u64) -> (r: Result<Target, Error>)
        ensures
            match parsed(
                match input {
                    Some(text) => Some(text@),
                    None => None,
                },
                caller_id,
            ) {
                Ok(target) => r is Ok && r->Ok_0@ == target,
                Err(error) => r is Err && r->Err_0@ == error,
            },
    {
        match input {
            None => Ok(Target::Unspecified { user_id: caller_id }),
            Some(text) => Target::from_str(text),
        }
    }

    /// Writes the target as text.
    pub fn to_text(&self) -> (r: String)
        ensures
            r@ == target_text(self@),
    {
        match self {
            Target::Unspecified { user_id } => format_mention(*user_id),
            Target::Mention { user_id } => format_mention(*user_id),
            Target::SteamID { steam_id } => steam_id.to_text(),
            Target::Name { name } => name.clone(),
        }
    }

    /// The key under which the saved preferences of the target are found.
    pub fn user_query(&self) -> (r: UserQuery)
        ensures
            match self@ {
                TargetView::Unspecified { user_id } => r == UserQuery::ById(user_id),
                TargetView::Mention { user_id } => r == UserQuery::ById(user_id),
                TargetView::SteamID { steam_id } => r matches UserQuery::BySteamId(id) && id@
                    == steam_id,
                TargetView::Name { name } => r matches UserQuery::ByName(text) && text@ == name,
            },
    {
        match self {
            Target::Unspecified { user_id } => UserQuery::ById(*user_id),
            Target::Mention { user_id } => UserQuery::ById(*user_id),
            Target::SteamID { steam_id } => UserQuery::BySteamId(*steam_id),
            Target::Name { name } => UserQuery::ByName(name.clone()),
        }
    }

    /// The account id whose saved preferences are to be read before the
    /// target can be resolved, if any.
    pub fn user_lookup(&self) -> (r: Option<u64>)
        ensures
            r == lookup_id(self@),
    {
        match self {
            Target::Unspecified { user_id } => Some(*user_id),
            Target::Mention { user_id } => Some(*user_id),
            _ => None,
        }
    }

    /// The account id whose guild membership is to be read before the target
    /// can be resolved, if any: that of a target that stands for an account
    /// of which nothing is saved. `user` is what the request for the saved
    /// preferences returned.
    pub fn member_lookup<E>(&self, user: &Result<Option<User>, E>) -> (r: Option<u64>)
        ensures
            r == (if found_user(*user) is None {
                lookup_id(self@)
            } else {
                None
            }),
    {
        match user {
            Ok(Some(_)) => None,
            _ => self.user_lookup(),
        }
    }

    /// Resolves the target to the player to ask the leaderboard for.
    ///
    /// `user` is what the request that [`Target::user_lookup`] asked for
    /// returned, and `Ok(None)` where it asked for none. `member_name` is
    /// what the request that [`Target::member_lookup`] asked for returned,
    /// and `None` where it asked for none or there is no guild.
    /// `fallback_name` is the caller's own name. A failed request counts as
    /// one that found nothing.
    pub fn into_player<E, F>(
        self,
        user: Result<Option<User>, E>,
        member_name: Option<Result<String, F>>,
        fallback_name: String,
    ) -> (r: PlayerIdentifier)
        ensures
            r@ == resolved(self@, found_user(user), found_name(member_name), fallback_name@),
    {
        match self {
            Target::SteamID { steam_id } => PlayerIdentifier::SteamID(steam_id),
            Target::Name { name } => PlayerIdentifier::Name(name),
            _ => match user {
                Ok(Some(user)) => match user.steam_id {
                    Some(steam_id) => PlayerIdentifier::SteamID(steam_id),
                    None => PlayerIdentifier::Name(user.name),
                },
                _ => match member_name {
                    Some(Ok(name)) => PlayerIdentifier::Name(name),
                    _ => PlayerIdentifier::Name(fallback_name),
                },
            },
        }
    }
}

impl From<u64> for Target {
    /// The caller with the given account id as the target.
    fn from(user_id: u64) -> (r: Target) {
        Target::Unspecified { user_id }
    }
}

impl FromSpecImpl<u64> for Target {
    open spec fn obeys_from_spec() -> bool {
        true
    }

    open spec fn from_spec(user_id: u64) -> Target {
        Target::Unspecified { user_id }
    }
}

impl From<SteamId> for PlayerIdentifier {
    fn from(steam_id: SteamId) -> (r: PlayerIdentifier) {
        PlayerIdentifier::SteamID(steam_id)
    }
}

impl FromSpecImpl<SteamId> for PlayerIdentifier {
    open spec fn obeys_from_spec() -> bool {
        true
    }

    open spec fn from_spec(steam_id: SteamId) -> PlayerIdentifier {
        PlayerIdentifier::SteamID(steam_id)
    }
}

impl From<String> for PlayerIdentifier {
    fn from(name: String) -> (r: PlayerIdentifier) {
        PlayerIdentifier::Name(name)
    }
}

impl FromSpecImpl<String> for PlayerIdentifier {
    open spec fn obeys_from_spec() -> bool {
        true
    }

    open spec fn from_spec(name: String) -> PlayerIdentifier {
        PlayerIdentifier::Name(name)
    }
}

impl core::str::FromStr for Target {
    type Err = Error;

    /// Reads a target from what was typed, as [`Target::from_str`] does.
    fn from_str(s: &str) -> (r: Result<Target, Error>)
        ensures
            match parsed_text(s@) {
                Ok(target) => r is Ok && r->Ok_0@ == target,
                Err(error) => r is Err && r->Err_0@ == error,
            },
    {
        Target::from_str(s)
    }
}

/// Whether a target is one that reading its own text gives back.
///
/// A mention always is. A Steam id is where the outside parser reads its
/// canonical text as the same id. A name is where it is what is left of
/// itself after trimming and is neither empty, nor read as a Steam id, nor a
/// mention. A target that stands for the caller is not: its text is a
/// mention.
pub open spec fn is_reparsable(target: TargetView) -> bool {
    match target {
        TargetView::Unspecified { user_id } => false,
        TargetView::Mention { user_id } => true,
        TargetView::SteamID { steam_id } => SteamId::read(steam_id_text(steam_id)) == Some(
            steam_id,
        ),
        TargetView::Name { name } => {
            &&& name.len() > 0
            &&& trimmed(name) == name
            &&& SteamId::read(name) is None
            &&& mentioned_id(name) is None
        },
    }
}

/// A text of nothing but white space is refused as empty input, and no other
/// text is refused.
pub proof fn lemma_blank_input_is_refused(text: Seq<char>)
    ensures
        is_blank(text) ==> parsed_text(text) == Err::<TargetView, ErrorView>(
            ErrorView::EmptyInput { expected: expected_input() },
        ),
        !is_blank(text) ==> parsed_text(text) is Ok,
{
    lemma_trimmed(text);
}

/// Two texts that are read as the same Steam id give the same target, and
/// that target is written as the canonical text of the id.
pub proof fn lemma_same_steam_id_same_target(a: Seq<char>, b: Seq<char>)
    requires
        SteamId::read(trimmed(a)) is Some,
        SteamId::read(trimmed(a)) == SteamId::read(trimmed(b)),
    ensures
        parsed_text(a) == parsed_text(b),
        parsed_text(a) == Ok::<TargetView, ErrorView>(
            TargetView::SteamID { steam_id: SteamId::read(trimmed(a))->0 },
        ),
        target_text(parsed_text(a)->Ok_0) == target_text(parsed_text(b)->Ok_0),
        target_text(parsed_text(a)->Ok_0) == steam_id_text(SteamId::read(trimmed(a))->0),
{
}

/// A 32-bit number written in base ten gives the Steam id that far from the
/// offset, whatever white space stands around it, and so does the 64-bit
/// number of that Steam id, unless it is the offset itself.
pub proof fn lemma_number_is_a_steam_id(text: Seq<char>, id32: u32)
    requires
        trimmed(text) == decimal(id32 as nat) || (id32 > 0 && trimmed(text) == decimal(
            (id32 + STEAM_ID_OFFSET) as nat,
        )),
    ensures
        parsed_text(text) == Ok::<TargetView, ErrorView>(
            TargetView::SteamID { steam_id: (id32 + STEAM_ID_OFFSET) as u64 },
        ),
{
    lemma_numbers_are_read(id32);
    lemma_decimal_round_trip(id32 as nat);
    lemma_decimal_round_trip((id32 + STEAM_ID_OFFSET) as nat);
}

/// A text that is a mention token, once trimmed, gives a mention of the
/// number between the brackets, as long as that number fits in 64 bits.
pub proof fn lemma_mention_is_read(text: Seq<char>)
    requires
        is_mention(trimmed(text)),
        decimal_value(mention_digits(trimmed(text))) <= u64::MAX,
    ensures
        parsed_text(text) == Ok::<TargetView, ErrorView>(
            TargetView::Mention {
                user_id: decimal_value(mention_digits(trimmed(text))) as u64,
            },
        ),
{
}

/// A text that is not blank, not read as a Steam id and not a mention gives
/// a name, which is the text without the white space around it.
pub proof fn lemma_other_text_is_a_name(text: Seq<char>)
    requires
        !is_blank(text),
        SteamId::read(trimmed(text)) is None,
        mentioned_id(trimmed(text)) is None,
    ensures
        parsed_text(text) == Ok::<TargetView, ErrorView>(
            TargetView::Name { name: trimmed(text) },
        ),
{
    lemma_trimmed(text);
}

/// The mention token of an account id is read as a mention of that id.
pub proof fn lemma_mention_text_is_read(user_id: u64)
    ensures
        is_mention(mention_text(user_id)),
        mentioned_id(mention_text(user_id)) == Some(user_id),
        trimmed(mention_text(user_id)) == mention_text(user_id),
        parsed_text(mention_text(user_id)) == Ok::<TargetView, ErrorView>(
            TargetView::Mention { user_id },
        ),
{
    reveal_strlit("<@");
    reveal_strlit(">");
    let text = mention_text(user_id);
    let digits = decimal(user_id as nat);
    lemma_decimal_round_trip(user_id as nat);
    assert(text.len() == digits.len() + 3);
    assert(text[0] == '<');
    assert(text[1] == '@');
    assert(text.last() == '>');
    assert(mention_digits(text) =~= digits);
    assert(!is_whitespace(text.first()));
    assert(!is_whitespace(text.last()));
    lemma_trimmed_fixed(text);
}

/// Different account ids have different mention tokens.
pub proof fn lemma_mention_text_tells_ids_apart(a: u64, b: u64)
    requires
        mention_text(a) == mention_text(b),
    ensures
        a == b,
{
    lemma_mention_text_is_read(a);
    lemma_mention_text_is_read(b);
}

/// Reading the text of a target gives the target back, for every target
/// that [`is_reparsable`]. The text of a target that stands for the caller
/// is read as a mention of the caller.
pub proof fn lemma_reparse(target: TargetView)
    requires
        is_reparsable(target) || target is Unspecified,
    ensures
        is_reparsable(target) ==> parsed_text(target_text(target)) == Ok::<TargetView, ErrorView>(
            target,
        ),
        target matches TargetView::Unspecified { user_id } ==> parsed_text(target_text(target))
            == Ok::<TargetView, ErrorView>(TargetView::Mention { user_id }),
{
    match target {
        TargetView::Unspecified { user_id } => {
            lemma_mention_text_is_read(user_id);
        },
        TargetView::Mention { user_id } => {
            lemma_mention_text_is_read(user_id);
        },
        TargetView::SteamID { steam_id } => {
            let text = steam_id_text(steam_id);
            lemma_steam_id_text_is_trimmed(steam_id);
        },
        TargetView::Name { name } => {},
    }
}

/// Whatever a text is read as can be written and read again, with the same
/// result; for a Steam id, as long as the outside parser reads the canonical
/// text as the id that it stands for.
pub proof fn lemma_parse_is_idempotent(text: Seq<char>)
    requires
        parsed_text(text) matches Ok(TargetView::SteamID { steam_id }) ==> SteamId::read(
            steam_id_text(steam_id),
        ) == Some(steam_id),
    ensures
        parsed_text(text) matches Ok(target) ==> is_reparsable(target) && parsed_text(
            target_text(target),
        ) == parsed_text(text),
{
    if let Ok(target) = parsed_text(text) {
        lemma_trimmed(text);
        lemma_trimmed_idempotent(text);
        lemma_reparse(target);
    }
}

/// Resolving reads no more than was asked for: a target that says who it is
/// resolves without any lookup, saved preferences settle the matter without
/// the guild, and a member's name without the fallback.
pub proof fn lemma_resolution_reads_in_turn(
    target: TargetView,
    user: Option<UserView>,
    other_user: Option<UserView>,
    member_name: Option<Seq<char>>,
    other_member_name: Option<Seq<char>>,
    fallback_name: Seq<char>,
    other_fallback_name: Seq<char>,
)
    ensures
        lookup_id(target) is None ==> resolved(target, user, member_name, fallback_name)
            == resolved(target, other_user, other_member_name, other_fallback_name),
        user is Some ==> resolved(target, user, member_name, fallback_name) == resolved(
            target,
            user,
            other_member_name,
            other_fallback_name,
        ),
        member_name is Some ==> resolved(target, user, member_name, fallback_name) == resolved(
            target,
            user,
            member_name,
            other_fallback_name,
        ),
{
}

/// The caller and a mention of the caller resolve to the same player.
pub proof fn lemma_caller_resolves_like_mention(
    user_id: u64,
    user: Option<UserView>,
    member_name: Option<Seq<char>>,
    fallback_name: Seq<char>,
)
    ensures
        resolved(TargetView::Unspecified { user_id }, user, member_name, fallback_name)
            == resolved(TargetView::Mention { user_id }, user, member_name, fallback_name),
{
}

} // verus!
