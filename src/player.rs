use vstd::prelude::*;

use crate::item::{opt_text, Items};
use crate::menu::{or_empty, text_or_empty};
use crate::playback::PlaybackSession;
use crate::subtitle::{chosen_subtitle, pick_subtitle, subtitle_pattern, subtitle_pattern_of};
use crate::text::{int_decimal, int_text, padded2_text, zero_padded2};
use crate::urls::{stream_url, stream_url_of};

verus! {

/// The episode number shown for a queue index: the index moved by the
/// subtitle offset, in decimal, at least two characters wide.
pub open spec fn episode_label_of(index: int, subtitle_offset: i32) -> Seq<char> {
    zero_padded2(int_decimal(index + subtitle_offset))
}

pub fn episode_label(index: i64, subtitle_offset: i32) -> (r: String)
    requires
        i64::MIN / 2 <= index <= i64::MAX / 2,
    ensures
        r@ == episode_label_of(index as int, subtitle_offset),
{
    padded2_text(index + subtitle_offset as i64)
}

/// The title the player shows: `<name> - <series> S<season>E<episode>`.
pub open spec fn title_of(name: Seq<char>, series_name: Seq<char>, season: i32, episode: Seq<char>) -> Seq<
    char,
> {
    name + " - "@ + series_name + " S"@ + int_decimal(season as int) + "E"@ + episode
}

pub fn player_title(name: &str, series_name: &str, season: i32, episode: &str) -> (r: String)
    ensures
        r@ == title_of(name@, series_name@, season, episode@),
{
    let mut r = String::from_str(name);
    r.append(" - ");
    r.append(series_name);
    r.append(" S");
    let s = int_text(season as i64);
    r.append(s.as_str());
    r.append("E");
    r.append(episode);
    r
}

/// The text the player gets for the subtitle file: its path, or `None`.
pub open spec fn subtitle_arg_of(subtitle: Option<Seq<char>>) -> Seq<char> {
    match subtitle {
        Some(p) => p,
        None => "None"@,
    }
}

/// The arguments the player is started with: the stream, where to start,
/// full screen, stay open once, start paused, the title and the subtitle file.
pub open spec fn player_args_of(
    stream: Seq<char>,
    start_secs: i32,
    title: Seq<char>,
    subtitle: Option<Seq<char>>,
) -> Seq<Seq<char>> {
    seq![
        stream,
        "--start="@ + int_decimal(start_secs as int),
        "--fs"@,
        "--idle=once"@,
        "--pause"@,
        "--force-media-title="@ + title,
        "--sub-file="@ + subtitle_arg_of(subtitle),
    ]
}

pub open spec fn texts(v: Seq<String>) -> Seq<Seq<char>> {
    v.map_values(|a: String| a@)
}

pub fn player_args(stream: &str, start_secs: i32, title: &str, subtitle: &Option<String>) -> (r:
    Vec<String>)
    ensures
        texts(r@) == player_args_of(stream@, start_secs, title@, opt_text(*subtitle)),
{
    let mut args: Vec<String> = Vec::new();
    args.push(String::from_str(stream));
    let mut start = String::from_str("--start=");
    let secs = int_text(start_secs as i64);
    start.append(secs.as_str());
    args.push(start);
    args.push(String::from_str("--fs"));
    args.push(String::from_str("--idle=once"));
    args.push(String::from_str("--pause"));
    let mut t = String::from_str("--force-media-title=");
    t.append(title);
    args.push(t);
    let mut sub = String::from_str("--sub-file=");
    match subtitle {
        Some(p) => sub.append(p.as_str()),
        None => sub.append("None"),
    }
    args.push(sub);
    assert(texts(args@) =~= player_args_of(stream@, start_secs, title@, opt_text(*subtitle)));
    args
}

/// The glob pattern of the subtitles of the episode at a queue index, in a
/// given season.
pub fn episode_subtitle_pattern(dir: &str, index: i64, season: i32, subtitle_offset: i32) -> (r:
    String)
    requires
        i64::MIN / 2 <= index <= i64::MAX / 2,
    ensures
        r@ == subtitle_pattern_of(dir@, season, episode_label_of(index as int, subtitle_offset)),
{
    let episode = episode_label(index, subtitle_offset);
    subtitle_pattern(dir, season, episode.as_str())
}

/// The arguments that start the player on the episode at a queue index: its
/// stream, the session's start offset, its title, and the one subtitle file
/// among the paths that matched its pattern.
pub fn episode_launch_args(
    item: &Items,
    index: i64,
    season: i32,
    session: &PlaybackSession,
    base: &str,
    server: &str,
    token: &str,
    matches: &Vec<String>,
) -> (r: Vec<String>)
    requires
        i64::MIN / 2 <= index <= i64::MAX / 2,
    ensures
        texts(r@) == player_args_of(
            stream_url_of(base@, server@, item@.id, token@),
            session.start_offset_secs,
            title_of(
                item@.name,
                or_empty(item@.series_name),
                season,
                episode_label_of(index as int, session.subtitle_offset),
            ),
            chosen_subtitle(texts(matches@)),
        ),
{
    let episode = episode_label(index, session.subtitle_offset);
    let series = text_or_empty(&item.series_name);
    let title = player_title(item.name.as_str(), series.as_str(), season, episode.as_str());
    let subtitle = pick_subtitle(matches);
    let url = stream_url(base, server, item.id.as_str(), token);
    player_args(url.as_str(), session.start_offset_secs, title.as_str(), &subtitle)
}

} // verus!
