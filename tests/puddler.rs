use puddler::catalog::{contains_item, merge_response};
use puddler::item::{text_eq, Items, UserData};
use puddler::menu::{menu_entry, single_entry, year_text};
use puddler::playback::{gate_admits, Command, PlaybackSession, Reply, Step};
use puddler::player::{
    episode_label, episode_launch_args, episode_subtitle_pattern, player_args, player_title,
};
use puddler::selection::{
    classify_query, is_numeric, item_action, locate_in_queue, process_input, resolve,
    ItemAction, Query, SelectionError,
};
use puddler::series::{episode_branch, foreign_season_mark, process_series, season_branch};
use puddler::subtitle::{
    pick_subtitle, season_number, season_number_from_digits, subtitle_pattern, FALLBACK_SEASON,
};
use puddler::text::{int_text, nat_text, padded2_text};
use puddler::urls::{children_url, is_emby, latest_url, next_up_url, resume_url, search_url, stream_url};

fn user(played: bool) -> UserData {
    UserData { played_percentage_bits: None, playback_position_ticks: 0, played }
}

fn movie(name: &str, id: &str) -> Items {
    Items {
        name: name.to_string(),
        id: id.to_string(),
        run_time_ticks: Some(100),
        item_type: "Movie".to_string(),
        user_data: user(false),
        series_name: None,
        series_id: None,
        season_name: None,
        season_id: None,
        premiere_date: Some("2019-04-01T00:00:00Z".to_string()),
    }
}

fn episode(name: &str, id: &str, season: &str) -> Items {
    Items {
        name: name.to_string(),
        id: id.to_string(),
        run_time_ticks: None,
        item_type: "Episode".to_string(),
        user_data: user(false),
        series_name: Some("Show".to_string()),
        series_id: Some("s1".to_string()),
        season_name: Some(season.to_string()),
        season_id: None,
        premiere_date: None,
    }
}

fn ids(list: &[Items]) -> Vec<String> {
    list.iter().map(|i| i.id.clone()).collect()
}

#[test]
fn merge_skips_equal_items() {
    let mut list = Vec::new();
    let resp = vec![movie("A", "1"), movie("B", "2"), movie("A", "1")];
    merge_response(&mut list, &resp);
    assert_eq!(ids(&list), vec!["1", "2"]);
}

#[test]
fn merge_keeps_items_that_differ_in_one_field() {
    let mut list = Vec::new();
    let mut other = movie("A", "1");
    other.user_data.played = true;
    merge_response(&mut list, &vec![movie("A", "1"), other]);
    assert_eq!(list.len(), 2);
}

#[test]
fn merge_twice_is_merge_once() {
    let resp = vec![movie("A", "1"), movie("B", "2"), episode("E", "3", "Season 1")];
    let mut once = Vec::new();
    merge_response(&mut once, &resp);
    let mut twice = Vec::new();
    merge_response(&mut twice, &resp);
    merge_response(&mut twice, &resp);
    assert!(once == twice);
}

#[test]
fn merge_keeps_earlier_indices() {
    let mut list = Vec::new();
    merge_response(&mut list, &vec![movie("A", "1"), movie("B", "2")]);
    merge_response(&mut list, &vec![movie("C", "3"), movie("A", "1"), movie("D", "4")]);
    merge_response(&mut list, &vec![movie("B", "2"), movie("E", "5")]);
    assert_eq!(ids(&list), vec!["1", "2", "3", "4", "5"]);
}

#[test]
fn contains_item_compares_every_field() {
    let list = vec![movie("A", "1")];
    assert!(contains_item(&list, &movie("A", "1")));
    assert!(!contains_item(&list, &movie("A", "2")));
    assert!(!contains_item(&list, &movie("B", "1")));
}

#[test]
fn special_listed_in_two_seasons_stands_twice() {
    let season1 = vec![
        episode("E1", "e1", "Season 1"),
        episode("Sp", "sp", "Season 1"),
        episode("E2", "e2", "Season 1"),
    ];
    let specials = vec![episode("Sp", "sp", "Specials")];
    let queue = process_series(&vec![season1, specials]);
    assert_eq!(queue.len(), 4);
    assert_eq!(ids(&queue), vec!["e1", "sp", "e2", "sp"]);
    assert_eq!(queue.iter().filter(|i| i.id == "e1").count(), 1);
}

#[test]
fn season_list_example_counts_the_special_twice() {
    let season1 = vec![episode("E1", "e1", "Season 1"), episode("E", "e", "Season 1")];
    let specials = vec![episode("E", "e", "Specials"), episode("X", "x", "Specials")];
    let queue = process_series(&vec![season1.clone(), specials.clone()]);
    assert_eq!(queue.len(), season1.len() + specials.len());
    assert_eq!(queue.iter().filter(|i| i.id == "e").count(), 2);
}

#[test]
fn repeated_regular_episode_stands_once() {
    let season1 = vec![episode("E1", "e1", "Season 1")];
    let again = vec![episode("E1", "e1", "Season 1"), episode("E2", "e2", "Season 1")];
    let queue = process_series(&vec![season1, again]);
    assert_eq!(ids(&queue), vec!["e1", "e2"]);
}

#[test]
fn repeated_specials_entry_is_kept() {
    let specials = vec![episode("Sp", "sp", "Specials"), episode("Sp", "sp", "Specials")];
    let queue = process_series(&vec![specials]);
    assert_eq!(queue.len(), 2);
}

#[test]
fn tree_branches() {
    assert_eq!(season_branch(true), "└─");
    assert_eq!(season_branch(false), "├─");
    assert_eq!(episode_branch(true, true), "     └──");
    assert_eq!(episode_branch(true, false), "│    └──");
    assert_eq!(episode_branch(false, true), "     ├──");
    assert_eq!(episode_branch(false, false), "│    ├──");
    let e = episode("Sp", "sp", "Specials");
    assert_eq!(foreign_season_mark(&e, &"Season 1".to_string()), " (S)");
    assert_eq!(foreign_season_mark(&e, &"Specials".to_string()), "");
}

#[test]
fn resolve_accepts_exactly_the_shown_indices() {
    assert_eq!(resolve(3, 0), Ok(0));
    assert_eq!(resolve(3, 2), Ok(2));
    assert_eq!(resolve(3, 3), Err(SelectionError::OutOfRange));
    assert_eq!(resolve(3, -1), Err(SelectionError::OutOfRange));
    assert_eq!(resolve(0, 0), Err(SelectionError::OutOfRange));
}

#[test]
fn process_input_typed_index_at_every_length() {
    let empty: Vec<Items> = Vec::new();
    assert_eq!(process_input(&empty, Some("0")), Err(SelectionError::OutOfRange));
    assert_eq!(process_input(&empty, Some("4")), Err(SelectionError::OutOfRange));
    let one = vec![movie("A", "1")];
    assert_eq!(process_input(&one, Some("0")), Ok(Some(0)));
    assert_eq!(process_input(&one, Some("1")), Err(SelectionError::OutOfRange));
    assert_eq!(process_input(&one, Some("whatever")), Err(SelectionError::NotANumber));
    let two = vec![movie("A", "1"), movie("B", "2")];
    assert_eq!(process_input(&two, Some("1")), Ok(Some(1)));
    assert_eq!(process_input(&two, Some("+0")), Ok(Some(0)));
    assert_eq!(process_input(&two, Some("2")), Err(SelectionError::OutOfRange));
    assert_eq!(process_input(&two, Some("-1")), Err(SelectionError::OutOfRange));
    assert_eq!(process_input(&two, Some("x")), Err(SelectionError::NotANumber));
    assert_eq!(process_input(&two, Some("")), Err(SelectionError::NotANumber));
    assert_eq!(process_input(&two, Some("99999999999")), Err(SelectionError::NotANumber));
}

#[test]
fn process_input_confirmation() {
    let empty: Vec<Items> = Vec::new();
    assert_eq!(process_input(&empty, None), Ok(None));
    let one = vec![movie("A", "1")];
    assert_eq!(process_input(&one, None), Ok(Some(0)));
    let two = vec![movie("A", "1"), movie("B", "2")];
    assert_eq!(process_input(&two, None), Ok(None));
}

#[test]
fn query_kinds() {
    assert_eq!(classify_query("ALL"), Query::All);
    assert_eq!(classify_query("12"), Query::Index);
    assert_eq!(classify_query("all"), Query::Search);
    assert_eq!(classify_query("Naruto"), Query::Search);
    assert!(is_numeric("1 2-3"));
    assert!(!is_numeric("1a"));
    assert!(!is_numeric("京"));
}

#[test]
fn locate_finds_last_entry_of_duplicated_special() {
    let queue = vec![
        episode("E1", "e1", "Season 1"),
        episode("Sp", "sp", "Season 1"),
        episode("E2", "e2", "Season 1"),
        episode("Sp", "sp", "Specials"),
    ];
    assert_eq!(locate_in_queue(&queue, &episode("Sp", "sp", "Specials")), 3);
    assert_eq!(locate_in_queue(&queue, &episode("Sp", "sp", "Season 1")), 1);
    assert_eq!(locate_in_queue(&queue, &episode("E2", "e2", "Season 1")), 2);
    assert_eq!(locate_in_queue(&queue, &episode("Z", "zz", "Season 1")), 0);
}

#[test]
fn actions_by_type() {
    assert_eq!(item_action(&movie("A", "1")), ItemAction::PlayMovie);
    let mut s = movie("S", "2");
    s.item_type = "Series".to_string();
    assert_eq!(item_action(&s), ItemAction::ExpandSeries);
    assert_eq!(item_action(&episode("E", "3", "Season 1")), ItemAction::PlayFromSeries);
    let mut sp = episode("Sp", "5", "Specials");
    sp.item_type = "Special".to_string();
    assert_eq!(item_action(&sp), ItemAction::PlayFromSeries);
    let mut b = movie("B", "4");
    b.item_type = "BoxSet".to_string();
    assert_eq!(item_action(&b), ItemAction::Nothing);
    b.item_type = "Epi".to_string();
    assert_eq!(item_action(&b), ItemAction::Nothing);
    b.item_type = String::new();
    assert_eq!(item_action(&b), ItemAction::Nothing);
    assert!(text_eq("abc", "abc"));
    assert!(!text_eq("abc", "abd"));
}

#[test]
fn season_numbers() {
    assert_eq!(season_number("Season 12"), 12);
    assert_eq!(season_number("S3 part 4"), 3);
    assert_eq!(season_number("Specials"), FALLBACK_SEASON);
    assert_eq!(FALLBACK_SEASON, 66);
    assert_eq!(season_number("Season 99999999999"), FALLBACK_SEASON);
    assert_eq!(season_number_from_digits(&Some("7".to_string())), 7);
    assert_eq!(season_number_from_digits(&None), 66);
}

#[test]
fn subtitle_choice() {
    let none: Vec<String> = Vec::new();
    assert_eq!(pick_subtitle(&none), None);
    let one = vec!["dir/Show S1E05 x.ass".to_string()];
    assert_eq!(pick_subtitle(&one), Some("dir/Show S1E05 x.ass".to_string()));
    assert_eq!(pick_subtitle(&one), pick_subtitle(&one));
    let two = vec!["a.ass".to_string(), "b.ass".to_string()];
    assert_eq!(pick_subtitle(&two), None);
    assert_eq!(subtitle_pattern("subs/", 1, "05"), "subs/*S1E05*.ass");
}

#[test]
fn decimal_texts() {
    assert_eq!(nat_text(0), "0");
    assert_eq!(nat_text(1234), "1234");
    assert_eq!(int_text(-42), "-42");
    assert_eq!(int_text(i64::MIN), i64::MIN.to_string());
    assert_eq!(padded2_text(5), "05");
    assert_eq!(padded2_text(12), "12");
    assert_eq!(padded2_text(-3), "-3");
}

#[test]
fn sequential_auto_plays_each_episode_then_ends() {
    let mut s = PlaybackSession::new(0, true);
    assert_eq!(s.next_step(3), Step::Autoplay(0));
    assert_eq!(s.next_step(3), Step::Autoplay(1));
    assert_eq!(s.next_step(3), Step::Autoplay(2));
    assert_eq!(s.next_step(3), Step::EndOfList);
    assert_eq!(s.next_step(3), Step::EndOfList);
}

#[test]
fn past_the_end_ends_in_every_mode() {
    for autoplay in [false, true] {
        let mut s = PlaybackSession::new(5, autoplay);
        assert_eq!(s.next_step(5), Step::EndOfList);
        s.apply_command(Command::EnterPrefetch, 5);
        assert_eq!(s.next_step(5), Step::EndOfList);
    }
    let mut s = PlaybackSession::new(0, false);
    assert_eq!(s.next_step(0), Step::EndOfList);
    let mut neg = PlaybackSession::new(-1, false);
    assert_eq!(neg.next_step(3), Step::Stop);
}

#[test]
fn interactive_commands() {
    let mut s = PlaybackSession::new(0, false);
    assert_eq!(s.next_step(10), Step::Prompt(0));
    assert_eq!(s.apply_command(Command::Next, 10), Reply::Spawn(0));
    assert_eq!(s.cursor, 1);
    assert_eq!(s.apply_command(Command::Seek(5), 10), Reply::Continue);
    assert_eq!(s.cursor, 4);
    assert_eq!(s.apply_command(Command::SetSubtitleOffset(0), 10), Reply::Continue);
    assert_eq!(s.subtitle_offset, 0);
    assert_eq!(s.apply_command(Command::SetStartOffset(30), 10), Reply::Continue);
    assert_eq!(s.start_offset_secs, 30);
    assert_eq!(s.apply_command(Command::ShowTotal, 10), Reply::ShowTotal);
    assert_eq!(s.apply_command(Command::PrintAll, 10), Reply::PrintAll);
    assert_eq!(s.apply_command(Command::ReturnToMenu, 10), Reply::ReturnToMenu);
    assert_eq!(s.apply_command(Command::Exit, 10), Reply::ExitProgram);
    assert_eq!(s.cursor, 4);
    assert_eq!(s.next_step(10), Step::Prompt(4));
}

#[test]
fn defaults_of_a_new_session() {
    let s = PlaybackSession::new(3, false);
    assert_eq!(s.start_offset_secs, 140);
    assert_eq!(s.subtitle_offset, 1);
    assert_eq!(s.window, 2);
    assert_eq!(s.prefetched, 0);
    assert!(!s.prefetching);
}

#[test]
fn prefetch_fills_the_window_then_waits_at_the_gate() {
    let mut s = PlaybackSession::new(0, false);
    s.apply_command(Command::EnterPrefetch, 10);
    assert_eq!(s.next_step(10), Step::Prefetch(0));
    assert_eq!(s.next_step(10), Step::Prefetch(1));
    assert_eq!(s.next_step(10), Step::Prefetch(2));
    assert_eq!(s.prefetched, 3);
    assert_eq!(s.next_step(10), Step::WaitThenSpawn(3, 3));
    assert_eq!(s.next_step(10), Step::WaitThenSpawn(4, 3));
    assert_eq!(s.prefetched, 3);
    assert!(gate_admits(2, 3));
    assert!(!gate_admits(3, 3));
    assert!(!gate_admits(0, 0));
    assert!(!gate_admits(0, -1));
}

#[test]
fn request_addresses() {
    assert_eq!(
        resume_url("http://h:8096", "/emby", "u1"),
        "http://h:8096/emby/Users/u1/Items/Resume?Fields=PremiereDate,MediaSources"
    );
    assert_eq!(
        next_up_url("http://h", "", "u1"),
        "http://h/Shows/NextUp?Fields=PremiereDate,MediaSources&UserId=u1"
    );
    assert_eq!(
        latest_url("http://h", "", "u1", "Movie"),
        "http://h/Users/u1/Items/Latest?Limit=10&IncludeItemTypes=Movie&Fields=PremiereDate,MediaSources"
    );
    assert_eq!(
        children_url("http://h", "", "u1", "p9"),
        "http://h/Users/u1/Items?ParentId=p9&Fields=PremiereDate,MediaSources&collapseBoxSetItems=False"
    );
    assert_eq!(
        stream_url("http://h", "/emby", "i7", "tok"),
        "http://h/emby/Videos/i7/stream?Container=mkv&Static=true&api_key=tok"
    );
    assert!(is_emby("/emby"));
    assert!(!is_emby(""));
}

#[test]
fn search_term_is_percent_encoded() {
    assert_eq!(
        search_url("http://h", "", "a b&c~ä", "u1"),
        "http://h/Items?SearchTerm=a%20b%26c~%C3%A4&UserId=u1&Recursive=true&IncludeItemTypes=Series,Movie&Fields=PremiereDate,MediaSources&collapseBoxSetItems=False"
    );
}

#[test]
fn player_launch() {
    assert_eq!(episode_label(4, 1), "05");
    assert_eq!(episode_label(11, 1), "12");
    assert_eq!(player_title("Pilot", "Show", 1, "01"), "Pilot - Show S1E01");
    let args = player_args("http://x", 140, "T", &None);
    assert_eq!(
        args,
        vec!["http://x", "--start=140", "--fs", "--idle=once", "--pause", "--force-media-title=T", "--sub-file=None"]
    );
    let args = player_args("u", -5, "T", &Some("s.ass".to_string()));
    assert_eq!(args[1], "--start=-5");
    assert_eq!(args[6], "--sub-file=s.ass");
}

#[test]
fn menu_texts() {
    assert_eq!(menu_entry(&movie("Up", "1"), 3), "[3] Up (2019) - (Movie)");
    let mut e = episode("Pilot", "2", "Season 1");
    e.premiere_date = Some("2001".to_string());
    assert_eq!(menu_entry(&e, 0), "[0] Show (2001) - Season 1 - Pilot - (Episode)");
    assert_eq!(single_entry(&movie("Up", "1")), "[Enter] Up (2019) - (Movie)");
    assert_eq!(year_text(&None), "????");
    assert_eq!(year_text(&Some("19".to_string())), "19");
}

#[test]
fn episode_launch_from_matches() {
    let mut e = episode("Pilot", "i9", "Season 2");
    e.series_name = Some("Show".to_string());
    let mut s = PlaybackSession::new(0, false);
    s.apply_command(Command::SetStartOffset(30), 5);
    assert_eq!(episode_subtitle_pattern("subs/", 4, 2, 1), "subs/*S2E05*.ass");
    let one = vec!["subs/Show S2E05.ass".to_string()];
    let args = episode_launch_args(&e, 4, 2, &s, "http://h", "", "tok", &one);
    assert_eq!(
        args,
        vec![
            "http://h/Videos/i9/stream?Container=mkv&Static=true&api_key=tok",
            "--start=30",
            "--fs",
            "--idle=once",
            "--pause",
            "--force-media-title=Pilot - Show S2E05",
            "--sub-file=subs/Show S2E05.ass",
        ]
    );
    let two = vec!["a.ass".to_string(), "b.ass".to_string()];
    let args = episode_launch_args(&e, 4, 2, &s, "http://h", "", "tok", &two);
    assert_eq!(args[6], "--sub-file=None");
}
