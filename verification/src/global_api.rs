//! Turning what the leaderboard returned for a run with teleports and for
//! one without into lines and links that can be shown.

use crate::error::{Error, ErrorView};
use crate::params::{ascii_lowercase, Mode, Runtype};
use crate::steam_id::{steam_id_text, SteamId};
use crate::text::{append_string, decimal, u64_to_string};
use vstd::prelude::*;
use vstd::string::*;

verus! {

/// The link to watch a replay and the link to download it.
pub type Links = (Option<String>, Option<String>);

/// A run as the leaderboard reports it.
#[derive(Debug, Clone, PartialEq, Eq)]
pub struct Record {
    /// The id of the run on the leaderboard.
    pub id: u32,
    /// The name of the player.
    pub player_name: String,
    /// The Steam id of the player.
    pub steam_id: SteamId,
    /// The mode of the run.
    pub mode: Mode,
    /// The time of the run, as the shared time format renders it.
    pub time: String,
    /// How many teleports were used.
    pub teleports: u32,
    /// Where the replay can be watched.
    pub replay_view_link: Option<String>,
    /// Where the replay can be downloaded.
    pub replay_download_link: Option<String>,
}

/// A [`Record`] with its texts as sequences of characters and the Steam id
/// as its 64-bit number.
pub ghost struct RecordView {
    pub id: u32,
    pub player_name: Seq<char>,
    pub steam_id: u64,
    pub mode: Mode,
    pub time: Seq<char>,
    pub teleports: u32,
    pub replay_view_link: Option<Seq<char>>,
    pub replay_download_link: Option<Seq<char>>,
}

/// An optional text as an optional sequence of characters.
pub open spec fn text_view(text: Option<String>) -> Option<Seq<char>> {
    match text {
        Some(text) => Some(text@),
        None => None,
    }
}

/// An optional pair of optional links as sequences of characters.
pub open spec fn links_view(links: Option<Links>) -> Option<(Option<Seq<char>>, Option<Seq<char>>)> {
    match links {
        Some((view, download)) => Some((text_view(view), text_view(download))),
        None => None,
    }
}

/// A line and its replay links as sequences of characters.
pub open spec fn entry_view(entry: (String, Option<Links>)) -> (
    Seq<char>,
    Option<(Option<Seq<char>>, Option<Seq<char>>)>,
) {
    (entry.0@, links_view(entry.1))
}

impl View for Record {
    type V = RecordView;

    open spec fn view(&self) -> RecordView {
        RecordView {
            id: self.id,
            player_name: self.player_name@,
            steam_id: self.steam_id@,
            mode: self.mode,
            time: self.time@,
            teleports: self.teleports,
            replay_view_link: text_view(self.replay_view_link),
            replay_download_link: text_view(self.replay_download_link),
        }
    }
}

/// What the leaderboard returned for a run: the run, or nothing where the
/// request failed, whatever the failure was.
pub open spec fn fetched<E>(result: Result<Record, E>) -> Option<RecordView> {
    match result {
        Ok(record) => Some(record@),
        Err(_) => None,
    }
}

/// What a request for a run's place returned: the place, or nothing where
/// no request was made or the request failed, whatever the failure was.
pub open spec fn placed<F>(place: Option<Result<u32, F>>) -> Option<u32> {
    match place {
        Some(Ok(place)) => Some(place),
        _ => None,
    }
}

/// The line that stands for a run that was not found.
pub open spec fn placeholder() -> Seq<char> {
    "😔"@
}

/// The part of a line that tells the place of a run, with the blank that
/// parts it from the time; empty where the place is not known.
pub open spec fn place_note(place: Option<u32>) -> Seq<char> {
    match place {
        Some(place) => "[#"@ + decimal(place as nat) + "] "@,
        None => Seq::empty(),
    }
}

/// The part of a line that tells how many teleports a run used, with the
/// blank that parts it from the time; empty for a run without teleports.
pub open spec fn teleports_note(teleports: u32) -> Seq<char> {
    if teleports == 0 {
        Seq::empty()
    } else if teleports == 1 {
        " (1 TP)"@
    } else {
        " ("@ + decimal(teleports as nat) + " TPs)"@
    }
}

/// The address of a player's profile for a mode.
pub open spec fn profile_url(steam_id: u64, mode: Mode) -> Seq<char> {
    "https://kzgo.eu/players/"@ + steam_id_text(steam_id) + "?"@ + ascii_lowercase(
        mode.short_text(),
    ) + "="@
}

/// The address of a player's page on Steam.
pub open spec fn steam_url(steam_id: u64) -> Seq<char> {
    "https://steamcommunity.com/profiles/"@ + decimal(steam_id as nat)
}

/// A player's name as a link to their profile.
pub open spec fn player_link(name: Seq<char>, steam_id: u64, mode: Mode) -> Seq<char> {
    "["@ + name + "]("@ + profile_url(steam_id, mode) + ")"@
}

/// The line for a run of the given type: the place where it is known, the
/// time, the teleports where the type has them and the run used any, and on
/// a second line the player.
pub open spec fn record_line(record: RecordView, place: Option<u32>, runtype: Runtype) -> Seq<
    char,
> {
    place_note(place) + record.time + (if runtype.has_teleports() {
        teleports_note(record.teleports)
    } else {
        Seq::empty()
    }) + "\n> by "@ + player_link(record.player_name, record.steam_id, record.mode)
}

/// The replay links of a run: both, or none where either is missing.
pub open spec fn record_links(record: RecordView) -> Option<
    (Option<Seq<char>>, Option<Seq<char>>),
> {
    match (record.replay_view_link, record.replay_download_link) {
        (Some(view), Some(download)) => Some((Some(view), Some(download))),
        _ => None,
    }
}

/// What is shown for a run that was not found: the placeholder and no
/// replay links.
pub open spec fn missing_entry() -> (Seq<char>, Option<(Option<Seq<char>>, Option<Seq<char>>)>) {
    (placeholder(), None)
}

/// The line and the replay links for what the leaderboard returned: those of
/// the run, or the placeholder and no links where there is no run.
pub open spec fn normalized(record: Option<RecordView>, place: Option<u32>, runtype: Runtype) -> (
    Seq<char>,
    Option<(Option<Seq<char>>, Option<Seq<char>>)>,
) {
    match record {
        Some(record) => (record_line(record, place, runtype), record_links(record)),
        None => missing_entry(),
    }
}

/// The links that can be shown: both, where both are there.
pub open spec fn usable_links(links: Option<(Option<Seq<char>>, Option<Seq<char>>)>) -> Option<
    (Seq<char>, Seq<char>),
> {
    match links {
        Some((Some(view), Some(download))) => Some((view, download)),
        _ => None,
    }
}

/// The line that offers the replay of the run with teleports.
pub open spec fn tp_replay_line(view: Seq<char>, download: Seq<char>) -> Seq<char> {
    "TP Replay: [View Online]("@ + view + ") | [Download]("@ + download + ")"@
}

/// The line that offers the replay of the run without teleports.
pub open spec fn pro_replay_line(view: Seq<char>, download: Seq<char>) -> Seq<char> {
    "PRO Replay: [View Online]("@ + view + ") | [Download]("@ + download + ")"@
}

/// The block that offers the replays: the line for the run with teleports,
/// then the line for the run without, each only where its links can be
/// shown, and no block where neither can.
pub open spec fn replay_block(
    tp: Option<(Option<Seq<char>>, Option<Seq<char>>)>,
    pro: Option<(Option<Seq<char>>, Option<Seq<char>>)>,
) -> Option<Seq<char>> {
    match (usable_links(tp), usable_links(pro)) {
        (Some((tp_view, tp_download)), Some((pro_view, pro_download))) => Some(
            tp_replay_line(tp_view, tp_download) + "\n"@ + pro_replay_line(pro_view, pro_download),
        ),
        (Some((tp_view, tp_download)), None) => Some(tp_replay_line(tp_view, tp_download)),
        (None, Some((pro_view, pro_download))) => Some(pro_replay_line(pro_view, pro_download)),
        (None, None) => None,
    }
}

/// The line with the links to a player's profiles.
pub open spec fn player_info_line(steam_id: u64, mode: Mode) -> Seq<char> {
    "Player: [KZ:GO]("@ + profile_url(steam_id, mode) + ") | [Steam]("@ + steam_url(steam_id)
        + ")"@
}

/// The links to the profiles of the player of the first run that was found,
/// the one with teleports before the one without.
pub open spec fn player_info(tp: Option<RecordView>, pro: Option<RecordView>) -> Option<
    Seq<char>,
> {
    match (tp, pro) {
        (Some(record), _) => Some(player_info_line(record.steam_id, record.mode)),
        (None, Some(record)) => Some(player_info_line(record.steam_id, record.mode)),
        (None, None) => None,
    }
}

/// Writes the part of a line that tells the place of a run.
pub fn format_place(place: Option<u32>) -> (r: String)
    ensures
        r@ == place_note(place),
{
    match place {
        Some(place) => {
            let mut r = String::from_str("[#");
            append_string(&mut r, u64_to_string(place as u64));
            r.append("] ");
            r
        },
        None => String::new(),
    }
}

/// Writes the part of a line that tells how many teleports a run used.
pub fn format_teleports(teleports: u32) -> (r: String)
    ensures
        r@ == teleports_note(teleports),
{
    if teleports == 0 {
        String::new()
    } else if teleports == 1 {
        String::from_str(" (1 TP)")
    } else {
        let mut r = String::from_str(" (");
        append_string(&mut r, u64_to_string(teleports as u64));
        r.append(" TPs)");
        r
    }
}

/// Writes the address of a player's profile for a mode.
pub fn format_profile_url(steam_id: &SteamId, mode: Mode) -> (r: String)
    ensures
        r@ == profile_url(steam_id@, mode),
{
    let mut r = String::from_str("https://kzgo.eu/players/");
    append_string(&mut r, steam_id.to_text());
    r.append("?");
    append_string(&mut r, mode.short_lowercase());
    r.append("=");
    r
}

/// Writes a player's name as a link to their profile.
pub fn format_player_link(name: &str, steam_id: &SteamId, mode: Mode) -> (r: String)
    ensures
        r@ == player_link(name@, steam_id@, mode),
{
    let mut r = String::from_str("[");
    r.append(name);
    r.append("](");
    append_string(&mut r, format_profile_url(steam_id, mode));
    r.append(")");
    r
}

/// Writes the line with the links to a player's profiles.
pub fn format_player_info(steam_id: &SteamId, mode: Mode) -> (r: String)
    ensures
        r@ == player_info_line(steam_id@, mode),
{
    let mut url = String::from_str("https://steamcommunity.com/profiles/");
    append_string(&mut url, u64_to_string(steam_id.as_id64()));
    let mut r = String::from_str("Player: [KZ:GO](");
    append_string(&mut r, format_profile_url(steam_id, mode));
    r.append(") | [Steam](");
    append_string(&mut r, url);
    r.append(")");
    r
}

/// The id of the run whose place is worth asking for: that of the run that
/// was found, and none where the request for the run failed.
pub fn place_lookup<E>(record: &Result<Record, E>) -> (r: Option<u32>)
    ensures
        r == (match fetched(*record) {
            Some(record) => Some(record.id),
            None => None,
        }),
{
    match record {
        Ok(record) => Some(record.id),
        Err(_) => None,
    }
}

/// Takes what the leaderboard returned for a run of the given type, and for
/// its place, and writes the line and the replay links for it.
///
/// `place` is `None` where the place was not asked for. A failure of either
/// request is not passed on: the place is left out, and a run that was not
/// found is shown as the placeholder.
pub fn parse_record<E, F>(
    record: &Result<Record, E>,
    place: &Option<Result<u32, F>>,
    runtype: Runtype,
) -> (r: (String, Option<Links>))
    ensures
        entry_view(r) == normalized(fetched(*record), placed(*place), runtype),
{
    match record {
        Err(_) => (String::from_str("😔"), None),
        Ok(record) => {
            let place = match place {
                Some(Ok(place)) => Some(*place),
                _ => None,
            };
            let mut line = format_place(place);
            line.append(record.time.as_str());
            let teleports = match runtype {
                Runtype::TP => format_teleports(record.teleports),
                Runtype::Pro => String::new(),
            };
            append_string(&mut line, teleports);
            line.append("\n> by ");
            append_string(
                &mut line,
                format_player_link(record.player_name.as_str(), &record.steam_id, record.mode),
            );
            let links = match (&record.replay_view_link, &record.replay_download_link) {
                (Some(view), Some(download)) => Some((Some(view.clone()), Some(download.clone()))),
                _ => None,
            };
            (line, links)
        },
    }
}

/// Takes what the leaderboard returned for the run with teleports and for
/// the run without, and for the place of each, and writes the line and the
/// replay links for each, the run with teleports first.
pub fn parse_records<E, F>(
    tp: &Result<Record, E>,
    pro: &Result<Record, E>,
    tp_place: &Option<Result<u32, F>>,
    pro_place: &Option<Result<u32, F>>,
) -> (r: ((String, Option<Links>), (String, Option<Links>)))
    ensures
        entry_view(r.0) == normalized(fetched(*tp), placed(*tp_place), Runtype::TP),
        entry_view(r.1) == normalized(fetched(*pro), placed(*pro_place), Runtype::Pro),
{
    let tp = parse_record(tp, tp_place, Runtype::TP);
    let pro = parse_record(pro, pro_place, Runtype::Pro);
    (tp, pro)
}

/// Writes one line that offers a replay, after the given label.
fn format_replay_line(label: &str, view: &str, download: &str) -> (r: String)
    ensures
        r@ == label@ + view@ + ") | [Download]("@ + download@ + ")"@,
{
    let mut r = String::from_str(label);
    r.append(view);
    r.append(") | [Download](");
    r.append(download);
    r.append(")");
    r
}

/// Takes the replay links of the run with teleports and of the run without
/// and writes the block that offers them.
pub fn format_replay_links(tp: Option<Links>, pro: Option<Links>) -> (r: Option<String>)
    ensures
        text_view(r) == replay_block(links_view(tp), links_view(pro)),
{
    let tp_line = match tp {
        Some((Some(view), Some(download))) => Some(
            format_replay_line("TP Replay: [View Online](", view.as_str(), download.as_str()),
        ),
        _ => None,
    };
    let pro_line = match pro {
        Some((Some(view), Some(download))) => Some(
            format_replay_line("PRO Replay: [View Online](", view.as_str(), download.as_str()),
        ),
        _ => None,
    };
    match (tp_line, pro_line) {
        (Some(tp_line), Some(pro_line)) => {
            let mut r = tp_line;
            r.append("\n");
            append_string(&mut r, pro_line);
            Some(r)
        },
        (Some(tp_line), None) => Some(tp_line),
        (None, Some(pro_line)) => Some(pro_line),
        (None, None) => None,
    }
}

/// Takes what the leaderboard returned for the run with teleports and for
/// the run without and writes the links to the profiles of the player of
/// the first that was found.
pub fn get_player_info<E>(tp: Result<Record, E>, pro: Result<Record, E>) -> (r: Option<String>)
    ensures
        text_view(r) == player_info(fetched(tp), fetched(pro)),
{
    if let Ok(record) = tp {
        return Some(format_player_info(&record.steam_id, record.mode));
    } else if let Ok(record) = pro {
        return Some(format_player_info(&record.steam_id, record.mode));
    }
    None
}

/// Tells whether anything can be shown: fails with [`Error::NoRecords`]
/// where neither the run with teleports nor the run without was found.
pub fn require_records<E>(tp: &Result<Record, E>, pro: &Result<Record, E>) -> (r: Result<
    (),
    Error,
>)
    ensures
        r is Err <==> fetched(*tp) is None && fetched(*pro) is None,
        r is Err ==> r->Err_0@ == ErrorView::NoRecords,
{
    if tp.is_err() && pro.is_err() {
        return Err(Error::NoRecords);
    }
    Ok(())
}

/// A run that was not found is shown as the placeholder without links,
/// whatever the failure was, whatever its place is said to be and whichever
/// type it is of.
pub proof fn lemma_failure_is_placeholder<E>(
    failure: E,
    other_failure: E,
    place: Option<u32>,
    runtype: Runtype,
)
    ensures
        fetched(Err::<Record, E>(failure)) == fetched(Err::<Record, E>(other_failure)),
        normalized(fetched(Err::<Record, E>(failure)), place, runtype) == missing_entry(),
{
}

/// A run that was found is shown as its line, which is never the
/// placeholder.
pub proof fn lemma_found_run_is_shown(record: RecordView, place: Option<u32>, runtype: Runtype)
    ensures
        normalized(Some(record), place, runtype).0 == record_line(record, place, runtype),
        normalized(Some(record), place, runtype).0 != placeholder(),
        normalized(Some(record), place, runtype).1 == record_links(record),
{
    reveal_strlit("😔");
    reveal_strlit("\n> by ");
    assert(placeholder().len() == 1);
    assert(record_line(record, place, runtype).len() >= 6);
}

/// Of two runs of which one was found and one was not, that one is shown as
/// its line and the other as the placeholder, on whichever side each is.
pub proof fn lemma_one_failure_leaves_the_other(
    record: RecordView,
    place: Option<u32>,
    other_place: Option<u32>,
)
    ensures
        normalized(Some(record), place, Runtype::TP).0 != placeholder(),
        normalized(None, other_place, Runtype::Pro) == missing_entry(),
        normalized(Some(record), place, Runtype::Pro).0 != placeholder(),
        normalized(None, other_place, Runtype::TP) == missing_entry(),
        player_info(Some(record), None) is Some,
        player_info(None, Some(record)) is Some,
{
    lemma_found_run_is_shown(record, place, Runtype::TP);
    lemma_found_run_is_shown(record, place, Runtype::Pro);
}

/// No teleports are not mentioned, one is mentioned in the singular, and
/// more are mentioned in the plural with their number.
pub proof fn lemma_teleports_note(teleports: u32)
    ensures
        teleports == 0 ==> teleports_note(teleports) == Seq::<char>::empty(),
        teleports == 1 ==> teleports_note(teleports) == " (1 TP)"@,
        teleports > 1 ==> teleports_note(teleports) == " ("@ + decimal(teleports as nat)
            + " TPs)"@,
        teleports > 0 <==> teleports_note(teleports).len() > 0,
{
    reveal_strlit(" (1 TP)");
    reveal_strlit(" (");
}

/// The line of a run without teleports, or of a run of the type that has
/// none, says nothing of teleports: the time is followed by the player.
pub proof fn lemma_line_without_teleports(record: RecordView, place: Option<u32>)
    ensures
        record_line(record, place, Runtype::Pro) == place_note(place) + record.time + "\n> by "@
            + player_link(record.player_name, record.steam_id, record.mode),
        record.teleports == 0 ==> record_line(record, place, Runtype::TP) == record_line(
            record,
            place,
            Runtype::Pro,
        ),
{
    let head = place_note(place) + record.time;
    assert(head + Seq::<char>::empty() =~= head);
}

/// A run has replay links exactly where it has both a link to watch and a
/// link to download; then those are its links, and with one alone it has
/// none.
pub proof fn lemma_links_need_both(record: RecordView)
    ensures
        record_links(record) is Some <==> record.replay_view_link is Some
            && record.replay_download_link is Some,
        record_links(record) is Some ==> record_links(record) == Some(
            (record.replay_view_link, record.replay_download_link),
        ),
        usable_links(record_links(record)) is Some <==> record_links(record) is Some,
        usable_links(Some((record.replay_view_link, record.replay_download_link)))
            == usable_links(record_links(record)),
{
}

/// The block of replays is there exactly where the links of either run can
/// be shown. It is the line for the run with teleports, the line for the run
/// without, or the first, a line break and the second.
pub proof fn lemma_replay_block(
    tp: Option<(Option<Seq<char>>, Option<Seq<char>>)>,
    pro: Option<(Option<Seq<char>>, Option<Seq<char>>)>,
)
    ensures
        replay_block(tp, pro) is Some <==> usable_links(tp) is Some || usable_links(pro) is Some,
        usable_links(tp) matches Some((view, download)) ==> usable_links(pro) is None
            ==> replay_block(tp, pro) == Some(tp_replay_line(view, download)),
        usable_links(pro) matches Some((view, download)) ==> usable_links(tp) is None
            ==> replay_block(tp, pro) == Some(pro_replay_line(view, download)),
        usable_links(tp) matches Some((tp_view, tp_download)) ==> (usable_links(pro) matches Some(
            (pro_view, pro_download),
        ) ==> replay_block(tp, pro) == Some(
            tp_replay_line(tp_view, tp_download) + "\n"@ + pro_replay_line(pro_view, pro_download),
        )),
{
}

/// Where neither run was found, nothing is shown but two placeholders: no
/// replays and no player. Where either was found, the player is shown.
pub proof fn lemma_nothing_found(tp: Option<RecordView>, pro: Option<RecordView>)
    ensures
        tp is None && pro is None ==> {
            &&& normalized(tp, None, Runtype::TP) == missing_entry()
            &&& normalized(pro, None, Runtype::Pro) == missing_entry()
            &&& replay_block(None, None) is None
            &&& player_info(tp, pro) is None
        },
        player_info(tp, pro) is None <==> tp is None && pro is None,
{
}

} // verus!
