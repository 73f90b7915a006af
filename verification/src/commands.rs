//! What the commands decide and say once they have their data: which course
//! is meant, how healthy the leaderboard service is, which map is drawn, and
//! the titles, notes and messages of the replies.

use crate::database::{User, UserView};
use crate::global_api::{fetched, Record, RecordView};
use crate::params::{ascii_lowercase, Mode, Runtype, Tier};
use crate::steam_id::{steam_id_text, SteamId};
use crate::target::mention_text;
use crate::text::{append_string, decimal, u64_to_string};
use rand::Rng;
use vstd::prelude::*;
use vstd::string::*;

verus! {

/// How the leaderboard service is doing.
#[derive(Debug, Clone, Copy, PartialEq, Eq, Structural)]
pub enum Health {
    Healthy,
    Unsteady,
    OnFire,
    Down,
}

/// The score of a health report out of a hundred: five for each of the ten
/// checks that succeeded and five for each that was fast, as far as a byte
/// can tell it.
pub open spec fn health_score(successful_responses: u8, fast_responses: u8) -> nat {
    let score = 5 * (successful_responses + fast_responses);
    if score > 255 {
        255
    } else {
        score as nat
    }
}

/// The health that a score stands for.
pub open spec fn health_of(score: nat) -> Health {
    if score >= 90 {
        Health::Healthy
    } else if score >= 67 {
        Health::Unsteady
    } else if score >= 33 {
        Health::OnFire
    } else {
        Health::Down
    }
}

impl Health {
    /// What is said of the service.
    pub open spec fn status(self) -> Seq<char> {
        match self {
            Health::Healthy => "Healthy"@,
            Health::Unsteady => "<:schnosesus:947467755727241287>"@,
            Health::OnFire => "everything is on fire"@,
            Health::Down => "zer0.k wanted to be funny and pulled the usb stick again"@,
        }
    }

    /// The colour that the report is shown in, as red, green and blue.
    pub open spec fn color(self) -> (u8, u8, u8) {
        match self {
            Health::Healthy => (116u8, 227u8, 161u8),
            Health::Unsteady => (249u8, 226u8, 175u8),
            Health::OnFire => (250u8, 179u8, 135u8),
            Health::Down => (243u8, 139u8, 168u8),
        }
    }

    /// Judges a health report by how many of the last ten checks succeeded
    /// and how many were fast.
    pub fn judge(successful_responses: u8, fast_responses: u8) -> (r: Health)
        ensures
            r == health_of(health_score(successful_responses, fast_responses)),
    {
        let sum: u16 = successful_responses as u16 + fast_responses as u16;
        let score: u16 = 5 * sum;
        if score >= 90 {
            Health::Healthy
        } else if score >= 67 {
            Health::Unsteady
        } else if score >= 33 {
            Health::OnFire
        } else {
            Health::Down
        }
    }

    /// What is said of the service.
    pub fn to_text(&self) -> (r: String)
        ensures
            r@ == self.status(),
    {
        match self {
            Health::Healthy => String::from_str("Healthy"),
            Health::Unsteady => String::from_str("<:schnosesus:947467755727241287>"),
            Health::OnFire => String::from_str("everything is on fire"),
            Health::Down => String::from_str(
                "zer0.k wanted to be funny and pulled the usb stick again",
            ),
        }
    }

    /// The colour that the report is shown in, as red, green and blue.
    pub fn to_color(&self) -> (r: (u8, u8, u8))
        ensures
            r == self.color(),
    {
        match self {
            Health::Healthy => (116, 227, 161),
            Health::Unsteady => (249, 226, 175),
            Health::OnFire => (250, 179, 135),
            Health::Down => (243, 139, 168),
        }
    }
}

/// How many of the last ten checks did well, as `n / 10`.
pub open spec fn out_of_ten(responses: u8) -> Seq<char> {
    decimal(responses as nat) + " / 10"@
}

/// Writes how many of the last ten checks did well.
pub fn format_out_of_ten(responses: u8) -> (r: String)
    ensures
        r@ == out_of_ten(responses),
{
    let mut r = u64_to_string(responses as u64);
    r.append(" / 10");
    r
}

/// The bonus course that is meant: the one that was given, and the first
/// where none or course zero was.
pub open spec fn bonus_of(course: Option<u8>) -> u8 {
    match course {
        Some(course) if course > 0 => course,
        _ => 1,
    }
}

/// The bonus course that is meant.
pub fn bonus_course(course: Option<u8>) -> (r: u8)
    ensures
        r == bonus_of(course),
        r >= 1,
{
    match course {
        Some(course) => if course > 0 {
            course
        } else {
            1
        },
        None => 1,
    }
}

/// What a title says of the course: nothing of the main course, and `B`
/// with the number of a bonus course.
pub open spec fn course_note(course: u8) -> Seq<char> {
    if course > 0 {
        " B"@ + decimal(course as nat)
    } else {
        Seq::empty()
    }
}

/// Writes what a title says of the course.
pub fn format_course(course: u8) -> (r: String)
    ensures
        r@ == course_note(course),
{
    if course > 0 {
        let mut r = String::from_str(" B");
        append_string(&mut r, u64_to_string(course as u64));
        r
    } else {
        String::new()
    }
}

/// The title of a reply that shows the records of a map.
pub open spec fn wr_title(map_name: Seq<char>, course: u8) -> Seq<char> {
    "[WR] "@ + map_name + course_note(course)
}

/// Writes the title of a reply that shows the records of a map.
pub fn format_wr_title(map_name: &str, course: u8) -> (r: String)
    ensures
        r@ == wr_title(map_name@, course),
{
    let mut r = String::from_str("[WR] ");
    r.append(map_name);
    append_string(&mut r, format_course(course));
    r
}

/// The title of a reply that shows the personal bests of a player on a map.
pub open spec fn pb_title(player_name: Seq<char>, map_name: Seq<char>, course: u8) -> Seq<char> {
    "[PB] "@ + player_name + " on "@ + map_name + course_note(course)
}

/// Writes the title of a reply that shows the personal bests of a player on
/// a map.
pub fn format_pb_title(player_name: &str, map_name: &str, course: u8) -> (r: String)
    ensures
        r@ == pb_title(player_name@, map_name@, course),
{
    let mut r = String::from_str("[PB] ");
    r.append(player_name);
    r.append(" on ");
    r.append(map_name);
    append_string(&mut r, format_course(course));
    r
}

/// The name to put in the title: that of the player of the first run that
/// was found, the one with teleports before the one without, and the
/// fallback where neither was.
pub open spec fn holder_name(
    tp: Option<RecordView>,
    pro: Option<RecordView>,
    fallback_name: Seq<char>,
) -> Seq<char> {
    match (tp, pro) {
        (Some(record), _) => record.player_name,
        (None, Some(record)) => record.player_name,
        (None, None) => fallback_name,
    }
}

/// Picks the name to put in the title.
pub fn record_holder<E>(tp: &Result<Record, E>, pro: &Result<Record, E>, fallback_name: &str) -> (r:
    String)
    ensures
        r@ == holder_name(fetched(*tp), fetched(*pro), fallback_name@),
{
    match tp {
        Ok(record) => record.player_name.clone(),
        Err(_) => match pro {
            Ok(record) => record.player_name.clone(),
            Err(_) => String::from_str(fallback_name),
        },
    }
}

/// The address of a page for a mode: the page's address, `?`, the mode's
/// abbreviation in lower case, `=`.
pub open spec fn mode_url(page: Seq<char>, mode: Mode) -> Seq<char> {
    page + "?"@ + ascii_lowercase(mode.short_text()) + "="@
}

/// Writes the address of a page for a mode.
pub fn format_mode_url(page: &str, mode: Mode) -> (r: String)
    ensures
        r@ == mode_url(page@, mode),
{
    let mut r = String::from_str(page);
    r.append("?");
    append_string(&mut r, mode.short_lowercase());
    r.append("=");
    r
}

/// The footer that tells the mode of a reply.
pub open spec fn mode_footer(signature: Seq<char>, mode: Mode) -> Seq<char> {
    signature + " | Mode: "@ + mode.short_text()
}

/// Writes the footer that tells the mode of a reply.
pub fn format_mode_footer(signature: &str, mode: Mode) -> (r: String)
    ensures
        r@ == mode_footer(signature@, mode),
{
    let mut r = String::from_str(signature);
    r.append(" | Mode: ");
    append_string(&mut r, mode.short());
    r
}

/// The footer that tells the page of a reply, counting the pages from one.
pub open spec fn page_footer(signature: Seq<char>, page: nat, pages: nat) -> Seq<char> {
    signature + " | Page "@ + decimal(page + 1) + " / "@ + decimal(pages)
}

/// Writes the footer that tells the page of a reply. `page` counts from
/// zero.
pub fn format_page_footer(signature: &str, page: u8, pages: u8) -> (r: String)
    ensures
        r@ == page_footer(signature@, page as nat, pages as nat),
{
    let mut r = String::from_str(signature);
    r.append(" | Page ");
    append_string(&mut r, u64_to_string(page as u64 + 1));
    r.append(" / ");
    append_string(&mut r, u64_to_string(pages as u64));
    r
}

/// The title of an entry of a leaderboard: the player and their place.
pub open spec fn entry_title(player_name: Seq<char>, place: nat) -> Seq<char> {
    player_name + " [#"@ + decimal(place) + "]"@
}

/// Writes the title of an entry of a leaderboard.
pub fn format_entry_title(player_name: &str, place: u32) -> (r: String)
    ensures
        r@ == entry_title(player_name@, place as nat),
{
    let mut r = String::from_str(player_name);
    r.append(" [#");
    append_string(&mut r, u64_to_string(place as u64));
    r.append("]");
    r
}

/// The word for a type of run in a title.
pub open spec fn runtype_word(runtype: Runtype) -> Seq<char> {
    match runtype {
        Runtype::Pro => "Pro"@,
        Runtype::TP => "TP"@,
    }
}

/// The title of a leaderboard of a map.
pub open spec fn maptop_title(mode: Mode, runtype: Runtype, map_name: Seq<char>, course: u8) -> Seq<
    char,
> {
    "["@ + mode.short_text() + " "@ + runtype_word(runtype) + "] Top 100 on "@ + map_name
        + course_note(course)
}

/// Writes the title of a leaderboard of a map.
pub fn format_maptop_title(mode: Mode, runtype: Runtype, map_name: &str, course: u8) -> (r: String)
    ensures
        r@ == maptop_title(mode, runtype, map_name@, course),
{
    let mut r = String::from_str("[");
    append_string(&mut r, mode.short());
    r.append(" ");
    match runtype {
        Runtype::Pro => r.append("Pro"),
        Runtype::TP => r.append("TP"),
    }
    r.append("] Top 100 on ");
    r.append(map_name);
    append_string(&mut r, format_course(course));
    r
}

/// The title of the leaderboard of world record holders.
pub open spec fn top_title(mode: Mode, runtype: Runtype) -> Seq<char> {
    "["@ + mode.short_text() + " "@ + runtype_word(runtype) + "] Top 100 WR holders"@
}

/// Writes the title of the leaderboard of world record holders.
pub fn format_top_title(mode: Mode, runtype: Runtype) -> (r: String)
    ensures
        r@ == top_title(mode, runtype),
{
    let mut r = String::from_str("[");
    append_string(&mut r, mode.short());
    r.append(" ");
    match runtype {
        Runtype::Pro => r.append("Pro"),
        Runtype::TP => r.append("TP"),
    }
    r.append("] Top 100 WR holders");
    r
}

/// The description of a reply that shows personal bests: the links to the
/// player's profiles, an empty line and the block of replays, each empty
/// where there is none.
pub open spec fn pb_description(
    player_links: Option<Seq<char>>,
    replay_links: Option<Seq<char>>,
) -> Seq<char> {
    (match player_links {
        Some(links) => links,
        None => Seq::empty(),
    }) + "\n\n"@ + (match replay_links {
        Some(links) => links,
        None => Seq::empty(),
    })
}

/// Writes the description of a reply that shows personal bests.
pub fn format_pb_description(player_links: Option<String>, replay_links: Option<String>) -> (r:
    String)
    ensures
        r@ == pb_description(
            match player_links {
                Some(links) => Some(links@),
                None => None,
            },
            match replay_links {
                Some(links) => Some(links@),
                None => None,
            },
        ),
{
    let mut r = match player_links {
        Some(links) => links,
        None => String::new(),
    };
    r.append("\n\n");
    let tail = match replay_links {
        Some(links) => links,
        None => String::new(),
    };
    append_string(&mut r, tail);
    r
}

/// The title of a recent run: the player, the map, the bonus course where
/// it was one, and the tier of the map, with a question mark for a map that
/// is not in the pool.
pub open spec fn recent_title(
    player_name: Seq<char>,
    map_name: Seq<char>,
    course: u8,
    tier: Option<Tier>,
) -> Seq<char> {
    player_name + " on "@ + map_name + course_note(course) + " (T"@ + (match tier {
        Some(tier) => decimal(tier.spec_level() as nat),
        None => "?"@,
    }) + ")"@
}

/// Writes the title of a recent run.
pub fn format_recent_title(player_name: &str, map_name: &str, course: u8, tier: Option<Tier>) -> (r:
    String)
    ensures
        r@ == recent_title(player_name@, map_name@, course, tier),
{
    let mut r = String::from_str(player_name);
    r.append(" on ");
    r.append(map_name);
    append_string(&mut r, format_course(course));
    r.append(" (T");
    let tier = match tier {
        Some(tier) => u64_to_string(tier.level() as u64),
        None => String::from_str("?"),
    };
    append_string(&mut r, tier);
    r.append(")");
    r
}

/// The type of a run by its teleports: one with teleports where it used
/// any.
pub open spec fn runtype_of(teleports: u32) -> Runtype {
    if teleports > 0 {
        Runtype::TP
    } else {
        Runtype::Pro
    }
}

/// The heading over a recent run: the mode and the type of the run.
pub open spec fn recent_heading(mode: Mode, teleports: u32) -> Seq<char> {
    mode.short_text() + " "@ + runtype_of(teleports).label()
}

/// Writes the heading over a recent run.
pub fn format_recent_heading(mode: Mode, teleports: u32) -> (r: String)
    ensures
        r@ == recent_heading(mode, teleports),
{
    let mut r = mode.short();
    r.append(" ");
    if teleports > 0 {
        r.append("TP");
    } else {
        r.append("PRO");
    }
    r
}

/// The footer under a recent run: the signature, the id of the run and the
/// page, counted from one.
pub open spec fn record_footer(signature: Seq<char>, record_id: nat, page: nat, pages: nat) -> Seq<
    char,
> {
    signature + " | Record ID: "@ + decimal(record_id) + " | Page: "@ + decimal(page + 1) + " / "@
        + decimal(pages)
}

/// Writes the footer under a recent run. `page` counts from zero.
pub fn format_record_footer(signature: &str, record_id: u32, page: u32, pages: u32) -> (r: String)
    ensures
        r@ == record_footer(signature@, record_id as nat, page as nat, pages as nat),
{
    let mut r = String::from_str(signature);
    r.append(" | Record ID: ");
    append_string(&mut r, u64_to_string(record_id as u64));
    r.append(" | Page: ");
    append_string(&mut r, u64_to_string(page as u64 + 1));
    r.append(" / ");
    append_string(&mut r, u64_to_string(pages as u64));
    r
}

/// The footer that names a player, and the page where there are several,
/// counted from one.
pub open spec fn player_footer(player_name: Seq<char>, page: Option<(nat, nat)>) -> Seq<char> {
    "Player: "@ + player_name + (match page {
        Some((page, pages)) => " | Page "@ + decimal(page + 1) + " / "@ + decimal(pages),
        None => Seq::empty(),
    })
}

/// Writes the footer that names a player. `page` holds the page, counted
/// from zero, and the number of pages.
pub fn format_player_footer(player_name: &str, page: Option<(u8, u8)>) -> (r: String)
    ensures
        r@ == player_footer(
            player_name@,
            match page {
                Some((page, pages)) => Some((page as nat, pages as nat)),
                None => None,
            },
        ),
{
    let mut r = String::from_str("Player: ");
    r.append(player_name);
    let tail = match page {
        Some((page, pages)) => {
            let mut tail = String::from_str(" | Page ");
            append_string(&mut tail, u64_to_string(page as u64 + 1));
            tail.append(" / ");
            append_string(&mut tail, u64_to_string(pages as u64));
            tail
        },
        None => String::new(),
    };
    append_string(&mut r, tail);
    r
}

/// What is said after a preference was saved: that it was cleared where
/// there is no new value, that it was updated where there was an old one,
/// and that it was set otherwise.
pub open spec fn preference_message(
    what: Seq<char>,
    user_id: u64,
    value: Option<Seq<char>>,
    had_value: bool,
) -> Seq<char> {
    match value {
        None => "Successfully cleared "@ + what + " for "@ + mention_text(user_id) + "!"@,
        Some(value) => if had_value {
            "Successfully updated "@ + what + " for "@ + mention_text(user_id) + "! (New "@ + what
                + ": `"@ + value + "`)"@
        } else {
            "Successfully set "@ + what + " `"@ + value + "` for "@ + mention_text(user_id) + "!"@
        },
    }
}

/// Writes what is said after a preference was saved.
pub fn format_preference_message(
    what: &str,
    user_id: u64,
    value: Option<&str>,
    had_value: bool,
) -> (r: String)
    ensures
        r@ == preference_message(
            what@,
            user_id,
            match value {
                Some(value) => Some(value@),
                None => None,
            },
            had_value,
        ),
{
    let mention = crate::target::format_mention(user_id);
    match value {
        None => {
            let mut r = String::from_str("Successfully cleared ");
            r.append(what);
            r.append(" for ");
            append_string(&mut r, mention);
            r.append("!");
            r
        },
        Some(value) => if had_value {
            let mut r = String::from_str("Successfully updated ");
            r.append(what);
            r.append(" for ");
            append_string(&mut r, mention);
            r.append("! (New ");
            r.append(what);
            r.append(": `");
            r.append(value);
            r.append("`)");
            r
        } else {
            let mut r = String::from_str("Successfully set ");
            r.append(what);
            r.append(" `");
            r.append(value);
            r.append("` for ");
            append_string(&mut r, mention);
            r.append("!");
            r
        },
    }
}

/// One line of the list of maps that a player has not finished.
pub open spec fn unfinished_line(number: nat, map_name: Seq<char>, mode: Mode, tier: Tier) -> Seq<
    char,
> {
    decimal(number) + ". ["@ + map_name + "](https://kzgo.eu/maps/"@ + map_name + "?"@
        + ascii_lowercase(mode.short_text()) + "=) (T"@ + decimal(tier.spec_level() as nat) + ")"@
}

/// Writes one line of the list of maps that a player has not finished.
/// `index` counts from zero, the line from one.
pub fn format_unfinished_line(index: u32, map_name: &str, mode: Mode, tier: Tier) -> (r: String)
    ensures
        r@ == unfinished_line(index as nat + 1, map_name@, mode, tier),
{
    let mut r = u64_to_string(index as u64 + 1);
    r.append(". [");
    r.append(map_name);
    r.append("](https://kzgo.eu/maps/");
    r.append(map_name);
    r.append("?");
    append_string(&mut r, mode.short_lowercase());
    r.append("=) (T");
    append_string(&mut r, u64_to_string(tier.level() as u64));
    r.append(")");
    r
}

/// The title of the list of maps that a player has not finished: the mode,
/// the type of run and the tier where one was asked for, after the number of
/// maps where the list takes several pages.
pub open spec fn unfinished_title(
    maps: Option<nat>,
    mode: Mode,
    runtype: Runtype,
    tier: Option<Tier>,
) -> Seq<char> {
    (match maps {
        Some(maps) => decimal(maps) + " maps - "@,
        None => Seq::empty(),
    }) + mode.short_text() + " "@ + runtype_word(runtype) + " "@ + (match tier {
        Some(tier) => "[T"@ + decimal(tier.spec_level() as nat) + "]"@,
        None => Seq::empty(),
    })
}

/// Writes the title of the list of maps that a player has not finished.
pub fn format_unfinished_title(
    maps: Option<u32>,
    mode: Mode,
    runtype: Runtype,
    tier: Option<Tier>,
) -> (r: String)
    ensures
        r@ == unfinished_title(
            match maps {
                Some(maps) => Some(maps as nat),
                None => None,
            },
            mode,
            runtype,
            tier,
        ),
{
    let mut r = match maps {
        Some(maps) => {
            let mut head = u64_to_string(maps as u64);
            head.append(" maps - ");
            head
        },
        None => String::new(),
    };
    append_string(&mut r, mode.short());
    r.append(" ");
    match runtype {
        Runtype::Pro => r.append("Pro"),
        Runtype::TP => r.append("TP"),
    }
    r.append(" ");
    let tail = match tier {
        Some(tier) => {
            let mut tail = String::from_str("[T");
            append_string(&mut tail, u64_to_string(tier.level() as u64));
            tail.append("]");
            tail
        },
        None => String::new(),
    };
    append_string(&mut r, tail);
    r
}

/// The title of a page of the manual: the command and its description, and
/// the command alone where it has no page.
pub open spec fn help_title(command: Seq<char>, description: Option<Seq<char>>) -> Seq<char> {
    match description {
        Some(description) => "[/"@ + command + "]: "@ + description,
        None => "/"@ + command,
    }
}

/// Writes the title of a page of the manual.
pub fn format_help_title(command: &str, description: Option<&str>) -> (r: String)
    ensures
        r@ == help_title(
            command@,
            match description {
                Some(description) => Some(description@),
                None => None,
            },
        ),
{
    match description {
        Some(description) => {
            let mut r = String::from_str("[/");
            r.append(command);
            r.append("]: ");
            r.append(description);
            r
        },
        None => {
            let mut r = String::from_str("/");
            r.append(command);
            r
        },
    }
}

/// What is shown of a user's saved preferences: the account id, the name,
/// the Steam id and the mode, each on a line of its own, with `None` for what
/// is not saved.
pub open spec fn database_entries(user: UserView) -> Seq<char> {
    "- `discord_id`: "@ + decimal(user.discord_id as nat) + "\n- `name`: "@ + user.name
        + "\n- `steam_id`: "@ + (match user.steam_id {
        Some(steam_id) => steam_id_text(steam_id),
        None => "None"@,
    }) + "\n- `mode`: "@ + (match user.mode {
        Some(mode) => mode.short_text(),
        None => "None"@,
    })
}

/// Writes what is shown of a user's saved preferences.
pub fn format_database_entries(user: &User) -> (r: String)
    ensures
        r@ == database_entries(user@),
{
    let mut r = String::from_str("- `discord_id`: ");
    append_string(&mut r, u64_to_string(user.discord_id));
    r.append("\n- `name`: ");
    r.append(user.name.as_str());
    r.append("\n- `steam_id`: ");
    let steam_id = match &user.steam_id {
        Some(steam_id) => steam_id.to_text(),
        None => String::from_str("None"),
    };
    append_string(&mut r, steam_id);
    r.append("\n- `mode`: ");
    let mode = match user.mode {
        Some(mode) => mode.short(),
        None => String::from_str("None"),
    };
    append_string(&mut r, mode);
    r
}

/// The mark for a mode in which a map can or cannot be played for the
/// leaderboard.
pub open spec fn filter_mark(available: bool) -> Seq<char> {
    if available {
        "✅"@
    } else {
        "❌"@
    }
}

/// Writes the mark for a mode in which a map can or cannot be played for
/// the leaderboard.
pub fn format_filter(available: bool) -> (r: String)
    ensures
        r@ == filter_mark(available),
{
    if available {
        String::from_str("✅")
    } else {
        String::from_str("❌")
    }
}

/// The name of a mapper as a link to their page on Steam.
pub open spec fn mapper_link(name: Seq<char>, steam_id: u64) -> Seq<char> {
    "["@ + name + "](https://steamcommunity.com/profiles/"@ + decimal(steam_id as nat) + ")"@
}

/// The mappers of a map as links, with a comma and a blank between one and
/// the next.
pub open spec fn mapper_links(mappers: Seq<(Seq<char>, u64)>) -> Seq<char>
    decreases mappers.len(),
{
    if mappers.len() == 0 {
        Seq::empty()
    } else if mappers.len() == 1 {
        mapper_link(mappers[0].0, mappers[0].1)
    } else {
        mapper_links(mappers.drop_last()) + ", "@ + mapper_link(
            mappers.last().0,
            mappers.last().1,
        )
    }
}

/// A list of mappers with the names as sequences of characters and the
/// Steam ids as their 64-bit numbers.
pub open spec fn mappers_view(mappers: Seq<(String, SteamId)>) -> Seq<(Seq<char>, u64)> {
    mappers.map_values(|mapper: (String, SteamId)| (mapper.0@, mapper.1@))
}

/// Writes the mappers of a map as links.
pub fn format_mappers(mappers: &Vec<(String, SteamId)>) -> (r: String)
    ensures
        r@ == mapper_links(mappers_view(mappers@)),
{
    let ghost all = mappers_view(mappers@);
    let mut r = String::new();
    let mut i: usize = 0;
    assert(all.subrange(0, 0) =~= Seq::<(Seq<char>, u64)>::empty());
    while i < mappers.len()
        invariant
            0 <= i <= mappers@.len(),
            all == mappers_view(mappers@),
            r@ == mapper_links(all.subrange(0, i as int)),
        decreases mappers@.len() - i,
    {
        let ghost before = all.subrange(0, i as int);
        let ghost here = all.subrange(0, i + 1);
        proof {
            assert(here.drop_last() =~= before);
            assert(here.last() == (mappers@[i as int].0@, mappers@[i as int].1@));
            if i == 0 {
                assert(here[0] == here.last());
                assert(r@ =~= Seq::<char>::empty());
            }
        }
        if i > 0 {
            r.append(", ");
        }
        let mapper = &mappers[i];
        let mut link = String::from_str("[");
        link.append(mapper.0.as_str());
        link.append("](https://steamcommunity.com/profiles/");
        append_string(&mut link, u64_to_string(mapper.1.as_id64()));
        link.append(")");
        append_string(&mut r, link);
        proof {
            let wanted = mapper_link(here.last().0, here.last().1);
            assert(link@ == wanted);
            if i == 0 {
                assert(r@ =~= wanted);
            } else {
                assert(r@ =~= mapper_links(before) + ", "@ + wanted);
            }
        }
        i = i + 1;
    }
    proof {
        assert(all.subrange(0, i as int) =~= all);
    }
    r
}

/// Whether a map of tier `tier` is among those that were asked for.
pub open spec fn tier_matches(tier: Tier, wanted: Option<Tier>) -> bool {
    wanted is None || wanted == Some(tier)
}

/// The positions of the maps that were asked for, in the order of the maps.
pub open spec fn matching(tiers: Seq<Tier>, wanted: Option<Tier>) -> Seq<int>
    decreases tiers.len(),
{
    if tiers.len() == 0 {
        Seq::empty()
    } else if tier_matches(tiers.last(), wanted) {
        matching(tiers.drop_last(), wanted).push(tiers.len() - 1)
    } else {
        matching(tiers.drop_last(), wanted)
    }
}

/// The positions in a list as mathematical integers.
pub open spec fn positions(list: Seq<usize>) -> Seq<int> {
    list.map_values(|i: usize| i as int)
}

/// The list of the maps that were asked for holds positions of such maps
/// only, holds each of them, and holds them in rising order.
pub proof fn lemma_matching(tiers: Seq<Tier>, wanted: Option<Tier>)
    ensures
        matching(tiers, wanted).len() <= tiers.len(),
        forall|k: int|
            0 <= k < matching(tiers, wanted).len() ==> 0 <= #[trigger] matching(tiers, wanted)[k]
                < tiers.len() && tier_matches(tiers[matching(tiers, wanted)[k]], wanted),
        forall|k: int, l: int|
            0 <= k < l < matching(tiers, wanted).len() ==> matching(tiers, wanted)[k] < matching(
                tiers,
                wanted,
            )[l],
        forall|i: int|
            0 <= i < tiers.len() && tier_matches(#[trigger] tiers[i], wanted) ==> matching(
                tiers,
                wanted,
            ).contains(i),
    decreases tiers.len(),
{
    if tiers.len() > 0 {
        let front = tiers.drop_last();
        let before = matching(front, wanted);
        let all = matching(tiers, wanted);
        lemma_matching(front, wanted);
        assert forall|i: int| 0 <= i < tiers.len() && tier_matches(
            #[trigger] tiers[i],
            wanted,
        ) implies all.contains(i) by {
            if i < front.len() {
                assert(front[i] == tiers[i]);
                let k = choose|k: int| 0 <= k < before.len() && before[k] == i;
                assert(all[k] == i);
            } else {
                assert(all[all.len() - 1] == i);
            }
        }
        assert forall|k: int| 0 <= k < all.len() implies 0 <= #[trigger] all[k] < tiers.len()
            && tier_matches(tiers[all[k]], wanted) by {
            if k < before.len() {
                assert(all[k] == before[k]);
                assert(front[before[k]] == tiers[before[k]]);
            }
        }
    }
}

/// Lists the positions of the maps whose tier was asked for, in the order
/// of the maps.
pub fn matching_maps(tiers: &Vec<Tier>, wanted: Option<Tier>) -> (r: Vec<usize>)
    ensures
        positions(r@) == matching(tiers@, wanted),
{
    let mut found: Vec<usize> = Vec::new();
    let mut i: usize = 0;
    assert(tiers@.subrange(0, 0) =~= Seq::<Tier>::empty());
    assert(positions(found@) =~= matching(tiers@.subrange(0, 0), wanted));
    while i < tiers.len()
        invariant
            0 <= i <= tiers@.len(),
            positions(found@) == matching(tiers@.subrange(0, i as int), wanted),
        decreases tiers@.len() - i,
    {
        let tier = tiers[i];
        let matches = match wanted {
            None => true,
            Some(wanted) => wanted.level() == tier.level(),
        };
        let ghost before = found@;
        let ghost front = tiers@.subrange(0, i as int);
        let ghost here = tiers@.subrange(0, i + 1);
        proof {
            assert(here.drop_last() =~= front);
            assert(here.last() == tier);
            assert(matches == tier_matches(tier, wanted));
        }
        if matches {
            found.push(i);
            proof {
                assert(positions(found@) =~= positions(before).push(i as int));
            }
        }
        i = i + 1;
    }
    proof {
        assert(tiers@.subrange(0, i as int) =~= tiers@);
    }
    found
}

/// The map that is drawn by a number: of the maps whose tier was asked for,
/// the one with that number, counted from zero, and none where there are not
/// so many.
pub fn draw_map(tiers: &Vec<Tier>, wanted: Option<Tier>, drawn: usize) -> (r: Option<usize>)
    ensures
        r is Some <==> drawn < matching(tiers@, wanted).len(),
        r is Some ==> r->0 == matching(tiers@, wanted)[drawn as int],
{
    let candidates = matching_maps(tiers, wanted);
    if drawn < candidates.len() {
        let position = candidates[drawn];
        assert(positions(candidates@)[drawn as int] == position);
        Some(position)
    } else {
        None
    }
}

/// Draws a number below `bound` from the thread's random number generator.
///
/// Trusted: `rand::Rng::gen_range` on the range from zero up to `bound`
/// returns a number of that range. It panics on an empty range, which is
/// left out.
#[verifier::external_body]
fn random_below(bound: usize) -> (r: usize)
    requires
        bound > 0,
    ensures
        r < bound,
{
    rand::thread_rng().gen_range(0..bound)
}

/// Draws one of the maps whose tier was asked for, at random. There is
/// nothing to draw where no map has that tier.
pub fn random_map(tiers: &Vec<Tier>, wanted: Option<Tier>) -> (r: Option<usize>)
    ensures
        r is None <==> matching(tiers@, wanted).len() == 0,
        r is Some ==> matching(tiers@, wanted).contains(r->0 as int),
{
    let candidates = matching_maps(tiers, wanted);
    if candidates.len() == 0 {
        return None;
    }
    let drawn = random_below(candidates.len());
    let position = candidates[drawn];
    assert(positions(candidates@)[drawn as int] == position);
    Some(position)
}

} // verus!
