use schnose_discord_bot::commands::{
    bonus_course, draw_map, format_course, format_database_entries, format_entry_title, format_filter,
    format_help_title, format_mappers, format_maptop_title, format_mode_footer, format_mode_url, format_out_of_ten,
    format_page_footer, format_pb_description, format_pb_title, format_player_footer, format_preference_message,
    format_recent_heading, format_recent_title, format_record_footer, format_top_title, format_unfinished_line,
    format_unfinished_title, format_wr_title, matching_maps, random_map, record_holder, Health,
};
use schnose_discord_bot::database::User;
use schnose_discord_bot::global_api::Record;
use schnose_discord_bot::params::{Mode, Runtype, Tier};
use schnose_discord_bot::steam_id::SteamId;

fn run(player_name: &str) -> Result<Record, String> {
    Ok(Record {
        id: 1,
        player_name: String::from(player_name),
        steam_id: SteamId::from_id32(322356345),
        mode: Mode::KZTimer,
        time: String::from("00:31.248"),
        teleports: 0,
        replay_view_link: None,
        replay_download_link: None,
    })
}

fn failure() -> Result<Record, String> {
    Err(String::from("no record"))
}

#[test]
fn health_is_judged_by_the_score() {
    assert_eq!(Health::judge(10, 10), Health::Healthy);
    assert_eq!(Health::judge(9, 9), Health::Healthy);
    assert_eq!(Health::judge(10, 8), Health::Healthy);
    assert_eq!(Health::judge(9, 8), Health::Unsteady);
    assert_eq!(Health::judge(7, 7), Health::Unsteady);
    assert_eq!(Health::judge(7, 6), Health::OnFire);
    assert_eq!(Health::judge(4, 3), Health::OnFire);
    assert_eq!(Health::judge(3, 3), Health::Down);
    assert_eq!(Health::judge(0, 0), Health::Down);
    assert_eq!(Health::judge(255, 255), Health::Healthy);
}

#[test]
fn health_is_judged_as_the_fractions_tell() {
    for successful in 0u8..=12 {
        for fast in 0u8..=12 {
            let average = (successful as f64 + fast as f64) / 2_f64;
            let success = (average * 10_f64) as u8;
            let expected = match success {
                90.. => Health::Healthy,
                67.. => Health::Unsteady,
                33.. => Health::OnFire,
                _ => Health::Down,
            };
            assert_eq!(Health::judge(successful, fast), expected, "{successful} {fast}");
        }
    }
}

#[test]
fn health_has_words_and_colours() {
    assert_eq!(Health::Healthy.to_text(), "Healthy");
    assert_eq!(Health::Unsteady.to_text(), "<:schnosesus:947467755727241287>");
    assert_eq!(Health::OnFire.to_text(), "everything is on fire");
    assert_eq!(Health::Down.to_text(), "zer0.k wanted to be funny and pulled the usb stick again");
    assert_eq!(Health::Healthy.to_color(), (116, 227, 161));
    assert_eq!(Health::Unsteady.to_color(), (249, 226, 175));
    assert_eq!(Health::OnFire.to_color(), (250, 179, 135));
    assert_eq!(Health::Down.to_color(), (243, 139, 168));
    assert_eq!(format_out_of_ten(0), "0 / 10");
    assert_eq!(format_out_of_ten(7), "7 / 10");
    assert_eq!(format_out_of_ten(10), format!("{} / {}", 10, 10));
}

#[test]
fn the_first_bonus_is_the_default() {
    assert_eq!(bonus_course(None), 1);
    assert_eq!(bonus_course(Some(0)), 1);
    assert_eq!(bonus_course(Some(1)), 1);
    assert_eq!(bonus_course(Some(2)), 2);
    assert_eq!(bonus_course(Some(100)), 100);
    assert_eq!(bonus_course(Some(255)), 255);
    for course in [None, Some(0), Some(1), Some(7), Some(255)] {
        assert_eq!(bonus_course(course), course.unwrap_or(1).max(1));
    }
}

#[test]
fn titles_name_the_course_of_a_bonus() {
    assert_eq!(format_course(0), "");
    assert_eq!(format_course(1), " B1");
    assert_eq!(format_course(255), " B255");
    assert_eq!(format_wr_title("kz_lionharder", 0), "[WR] kz_lionharder");
    assert_eq!(format_wr_title("kz_lionharder", 3), "[WR] kz_lionharder B3");
    assert_eq!(format_pb_title("AlphaKeks", "kz_lionharder", 0), "[PB] AlphaKeks on kz_lionharder");
    assert_eq!(format_pb_title("AlphaKeks", "kz_lionharder", 12), "[PB] AlphaKeks on kz_lionharder B12");
    assert_eq!(format_maptop_title(Mode::KZTimer, Runtype::Pro, "kz_lionharder", 0), "[KZT Pro] Top 100 on kz_lionharder");
    assert_eq!(format_maptop_title(Mode::Vanilla, Runtype::TP, "kz_lionharder", 2), "[VNL TP] Top 100 on kz_lionharder B2");
    assert_eq!(
        format_maptop_title(Mode::SimpleKZ, Runtype::Pro, "kz_x", 0),
        format!("[{} {:?}] Top 100 on {}", "SKZ", Runtype::Pro, "kz_x")
    );
}

#[test]
fn the_title_names_the_player_of_the_first_run_found() {
    assert_eq!(record_holder(&run("Tp"), &run("Pro"), "Caller"), "Tp");
    assert_eq!(record_holder(&run("Tp"), &failure(), "Caller"), "Tp");
    assert_eq!(record_holder(&failure(), &run("Pro"), "Caller"), "Pro");
    assert_eq!(record_holder(&failure(), &failure(), "Caller"), "Caller");
}

#[test]
fn addresses_and_footers_name_the_mode() {
    assert_eq!(format_mode_url("https://kzgo.eu/maps/kz_lionharder", Mode::KZTimer), "https://kzgo.eu/maps/kz_lionharder?kzt=");
    assert_eq!(format_mode_url("https://kzgo.eu/leaderboards", Mode::SimpleKZ), "https://kzgo.eu/leaderboards?skz=");
    assert_eq!(format_mode_url("", Mode::Vanilla), "?vnl=");
    assert_eq!(format_mode_footer("(͡ ͡° ͜ つ ͡͡°)", Mode::KZTimer), "(͡ ͡° ͜ つ ͡͡°) | Mode: KZT");
    assert_eq!(format_mode_footer("x", Mode::Vanilla), "x | Mode: VNL");
}

#[test]
fn footers_count_the_pages_from_one() {
    assert_eq!(format_page_footer("(͡ ͡° ͜ つ ͡͡°)", 0, 9), "(͡ ͡° ͜ つ ͡͡°) | Page 1 / 9");
    assert_eq!(format_page_footer("x", 8, 9), "x | Page 9 / 9");
    assert_eq!(format_page_footer("x", 255, 255), "x | Page 256 / 255");
    assert_eq!(format_entry_title("AlphaKeks", 1), "AlphaKeks [#1]");
    assert_eq!(format_entry_title("", 100), " [#100]");
}

#[test]
fn saved_preferences_are_confirmed() {
    assert_eq!(
        format_preference_message("SteamID", 291585142164815873, None, true),
        "Successfully cleared SteamID for <@291585142164815873>!"
    );
    assert_eq!(
        format_preference_message("SteamID", 291585142164815873, None, false),
        "Successfully cleared SteamID for <@291585142164815873>!"
    );
    assert_eq!(
        format_preference_message("SteamID", 291585142164815873, Some("STEAM_1:1:161178172"), true),
        "Successfully updated SteamID for <@291585142164815873>! (New SteamID: `STEAM_1:1:161178172`)"
    );
    assert_eq!(
        format_preference_message("SteamID", 291585142164815873, Some("STEAM_1:1:161178172"), false),
        "Successfully set SteamID `STEAM_1:1:161178172` for <@291585142164815873>!"
    );
    assert_eq!(format_preference_message("Mode", 7, Some("SimpleKZ"), true), "Successfully updated Mode for <@7>! (New Mode: `SimpleKZ`)");
    assert_eq!(format_preference_message("Mode", 7, Some("SimpleKZ"), false), "Successfully set Mode `SimpleKZ` for <@7>!");
    assert_eq!(format_preference_message("Mode", 7, None, false), "Successfully cleared Mode for <@7>!");
}

#[test]
fn unfinished_maps_are_listed_with_their_tier() {
    assert_eq!(
        format_unfinished_line(0, "kz_lionharder", Mode::KZTimer, Tier::Death),
        "1. [kz_lionharder](https://kzgo.eu/maps/kz_lionharder?kzt=) (T7)"
    );
    assert_eq!(
        format_unfinished_line(41, "kz_beginnerblock_go", Mode::Vanilla, Tier::VeryEasy),
        "42. [kz_beginnerblock_go](https://kzgo.eu/maps/kz_beginnerblock_go?vnl=) (T1)"
    );
    assert_eq!(
        format_unfinished_line(u32::MAX, "m", Mode::SimpleKZ, Tier::Hard),
        "4294967296. [m](https://kzgo.eu/maps/m?skz=) (T4)"
    );
}

fn tiers() -> Vec<Tier> {
    vec![Tier::Easy, Tier::Death, Tier::Easy, Tier::Medium, Tier::Death, Tier::Easy]
}

#[test]
fn maps_are_matched_by_tier() {
    assert_eq!(matching_maps(&tiers(), None), vec![0, 1, 2, 3, 4, 5]);
    assert_eq!(matching_maps(&tiers(), Some(Tier::Easy)), vec![0, 2, 5]);
    assert_eq!(matching_maps(&tiers(), Some(Tier::Death)), vec![1, 4]);
    assert_eq!(matching_maps(&tiers(), Some(Tier::Medium)), vec![3]);
    assert_eq!(matching_maps(&tiers(), Some(Tier::Extreme)), Vec::<usize>::new());
    assert_eq!(matching_maps(&Vec::new(), None), Vec::<usize>::new());
    assert_eq!(matching_maps(&Vec::new(), Some(Tier::Easy)), Vec::<usize>::new());
}

#[test]
fn a_number_draws_a_map() {
    assert_eq!(draw_map(&tiers(), Some(Tier::Easy), 0), Some(0));
    assert_eq!(draw_map(&tiers(), Some(Tier::Easy), 1), Some(2));
    assert_eq!(draw_map(&tiers(), Some(Tier::Easy), 2), Some(5));
    assert_eq!(draw_map(&tiers(), Some(Tier::Easy), 3), None);
    assert_eq!(draw_map(&tiers(), None, 4), Some(4));
    assert_eq!(draw_map(&tiers(), None, 6), None);
    assert_eq!(draw_map(&tiers(), Some(Tier::Extreme), 0), None);
    assert_eq!(draw_map(&Vec::new(), None, 0), None);
}

#[test]
fn a_random_map_is_one_that_was_asked_for() {
    let tiers = tiers();
    let mut seen = [false; 6];
    for _ in 0..2000 {
        let drawn = random_map(&tiers, Some(Tier::Easy)).unwrap();
        assert_eq!(tiers[drawn], Tier::Easy);
        seen[drawn] = true;
        let any = random_map(&tiers, None).unwrap();
        assert!(any < tiers.len());
    }
    assert_eq!(seen, [true, false, true, false, false, true]);
    assert_eq!(random_map(&tiers, Some(Tier::Medium)), Some(3));
    assert_eq!(random_map(&tiers, Some(Tier::Extreme)), None);
    assert_eq!(random_map(&Vec::new(), None), None);
}

#[test]
fn the_unfinished_title_tells_what_was_asked_for() {
    assert_eq!(format_unfinished_title(None, Mode::KZTimer, Runtype::Pro, None), "KZT Pro ");
    assert_eq!(format_unfinished_title(None, Mode::SimpleKZ, Runtype::TP, Some(Tier::Hard)), "SKZ TP [T4]");
    assert_eq!(format_unfinished_title(Some(13), Mode::Vanilla, Runtype::Pro, Some(Tier::Death)), "13 maps - VNL Pro [T7]");
    assert_eq!(format_unfinished_title(Some(700), Mode::KZTimer, Runtype::TP, None), "700 maps - KZT TP ");
    let tier: Option<Tier> = Some(Tier::Easy);
    assert_eq!(
        format_unfinished_title(None, Mode::KZTimer, Runtype::Pro, tier),
        format!(
            "{mode} {runtype:?} {tier}",
            mode = "KZT",
            runtype = Runtype::Pro,
            tier = tier.map_or_else(String::new, |tier| format!("[T{}]", tier.level())),
        )
    );
}

#[test]
fn the_manual_names_the_command() {
    assert_eq!(format_help_title("pb", Some("A player's personal best on a map.")), "[/pb]: A player's personal best on a map.");
    assert_eq!(format_help_title("pb", Some("")), "[/pb]: ");
    assert_eq!(format_help_title("nope", None), "/nope");
    assert_eq!(format_help_title("", None), "/");
}

#[test]
fn saved_preferences_are_listed() {
    let user = User {
        discord_id: 291585142164815873,
        name: String::from("AlphaKeks"),
        steam_id: Some(SteamId::from_id32(322356345)),
        mode: Some(Mode::SimpleKZ),
    };
    assert_eq!(
        format_database_entries(&user),
        "- `discord_id`: 291585142164815873\n- `name`: AlphaKeks\n- `steam_id`: STEAM_1:1:161178172\n- `mode`: SKZ"
    );
    let bare = User { discord_id: 0, name: String::new(), steam_id: None, mode: None };
    assert_eq!(format_database_entries(&bare), "- `discord_id`: 0\n- `name`: \n- `steam_id`: None\n- `mode`: None");
}

#[test]
fn filters_are_marked() {
    assert_eq!(format_filter(true), "✅");
    assert_eq!(format_filter(false), "❌");
}

#[test]
fn mappers_are_linked_and_joined() {
    let mapper = |name: &str, id32: u32| (String::from(name), SteamId::from_id32(id32));
    assert_eq!(format_mappers(&Vec::new()), "");
    assert_eq!(
        format_mappers(&vec![mapper("AlphaKeks", 322356345)]),
        "[AlphaKeks](https://steamcommunity.com/profiles/76561198282622073)"
    );
    assert_eq!(
        format_mappers(&vec![mapper("a", 1), mapper("b", 2), mapper("", 3)]),
        "[a](https://steamcommunity.com/profiles/76561197960265729), [b](https://steamcommunity.com/profiles/76561197960265730), [](https://steamcommunity.com/profiles/76561197960265731)"
    );
    let mappers = vec![mapper("x, y", 7), mapper("z", 8)];
    let joined = mappers
        .iter()
        .map(|(name, steam_id)| format!("[{}](https://steamcommunity.com/profiles/{})", name, steam_id.as_id64()))
        .collect::<Vec<_>>()
        .join(", ");
    assert_eq!(format_mappers(&mappers), joined);
}

#[test]
fn the_top_title_names_mode_and_type() {
    assert_eq!(format_top_title(Mode::KZTimer, Runtype::Pro), "[KZT Pro] Top 100 WR holders");
    assert_eq!(format_top_title(Mode::SimpleKZ, Runtype::TP), "[SKZ TP] Top 100 WR holders");
    assert_eq!(
        format_top_title(Mode::Vanilla, Runtype::TP),
        format!("[{} {:?}] Top 100 WR holders", "VNL", Runtype::TP)
    );
}

#[test]
fn the_description_keeps_its_empty_line() {
    let player = || Some(String::from("Player: p"));
    let replays = || Some(String::from("TP Replay: r"));
    assert_eq!(format_pb_description(player(), replays()), "Player: p\n\nTP Replay: r");
    assert_eq!(format_pb_description(player(), None), "Player: p\n\n");
    assert_eq!(format_pb_description(None, replays()), "\n\nTP Replay: r");
    assert_eq!(format_pb_description(None, None), "\n\n");
}

#[test]
fn recent_runs_are_headed_by_what_they_were() {
    assert_eq!(format_recent_title("AlphaKeks", "kz_lionharder", 0, Some(Tier::Death)), "AlphaKeks on kz_lionharder (T7)");
    assert_eq!(format_recent_title("AlphaKeks", "kz_lionharder", 2, Some(Tier::Easy)), "AlphaKeks on kz_lionharder B2 (T2)");
    assert_eq!(format_recent_title("AlphaKeks", "kz_unknown", 0, None), "AlphaKeks on kz_unknown (T?)");
    assert_eq!(format_recent_heading(Mode::KZTimer, 0), "KZT PRO");
    assert_eq!(format_recent_heading(Mode::KZTimer, 1), "KZT TP");
    assert_eq!(format_recent_heading(Mode::Vanilla, u32::MAX), "VNL TP");
    assert_eq!(format_record_footer("(͡ ͡° ͜ つ ͡͡°)", 13131313, 0, 10), "(͡ ͡° ͜ つ ͡͡°) | Record ID: 13131313 | Page: 1 / 10");
    assert_eq!(format_record_footer("x", 0, 9, 10), "x | Record ID: 0 | Page: 10 / 10");
    assert_eq!(format_record_footer("x", u32::MAX, u32::MAX, u32::MAX), "x | Record ID: 4294967295 | Page: 4294967296 / 4294967295");
}

#[test]
fn the_player_footer_tells_the_page_of_several() {
    assert_eq!(format_player_footer("AlphaKeks", None), "Player: AlphaKeks");
    assert_eq!(format_player_footer("AlphaKeks", Some((0, 3))), "Player: AlphaKeks | Page 1 / 3");
    assert_eq!(format_player_footer("", Some((2, 3))), "Player:  | Page 3 / 3");
    assert_eq!(format_player_footer("x", Some((255, 255))), "Player: x | Page 256 / 255");
}
