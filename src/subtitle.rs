use vstd::prelude::*;

use crate::item::opt_text;
use crate::selection::{parse_i32, parsed_i32};
use crate::text::{int_decimal, int_text};

verus! {

/// The season number used when a season's name holds no usable number.
pub const FALLBACK_SEASON: i32 = 66;

/// The name of what the pattern `\d+` of the regex crate finds first in a
/// text: the leftmost run of Unicode decimal digits, as long as it goes.
pub uninterp spec fn first_digit_run(s: Seq<char>) -> Option<Seq<char>>;

/// Relies on `regex::Regex::find` with the pattern `\d+`, whose first match
/// depends on the text alone.
#[verifier::external_body]
fn find_digit_run(s: &str) -> (r: Option<String>)
    ensures
        opt_text(r) == first_digit_run(s@),
{
    let re = regex::Regex::new(r"\d+").unwrap();
    re.find(s).map(|m| m.as_str().to_string())
}

/// The season number that a run of digits found in a season's name gives.
pub open spec fn season_from_digits(digits: Option<Seq<char>>) -> i32 {
    match digits {
        Some(d) => match parsed_i32(d) {
            Some(v) => v,
            None => FALLBACK_SEASON,
        },
        None => FALLBACK_SEASON,
    }
}

/// The season number from the first run of digits in a season's name; the
/// fallback where there is none, or where it is no number that fits.
pub fn season_number_from_digits(digits: &Option<String>) -> (r: i32)
    ensures
        r == season_from_digits(opt_text(*digits)),
{
    match digits {
        Some(d) => match parse_i32(d.as_str()) {
            Some(v) => v,
            None => FALLBACK_SEASON,
        },
        None => FALLBACK_SEASON,
    }
}

/// The season number that a season's name holds.
pub fn season_number(season_name: &str) -> (r: i32)
    ensures
        r == season_from_digits(first_digit_run(season_name@)),
{
    let digits = find_digit_run(season_name);
    season_number_from_digits(&digits)
}

/// The file pattern of the subtitles of one episode in a directory.
pub open spec fn subtitle_pattern_of(dir: Seq<char>, season: i32, episode: Seq<char>) -> Seq<
    char,
> {
    dir + "*S"@ + int_decimal(season as int) + "E"@ + episode + "*.ass"@
}

/// The glob pattern `<dir>*S<season>E<episode>*.ass`.
pub fn subtitle_pattern(dir: &str, season: i32, episode: &str) -> (r: String)
    ensures
        r@ == subtitle_pattern_of(dir@, season, episode@),
{
    let mut r = String::from_str(dir);
    r.append("*S");
    let s = int_text(season as i64);
    r.append(s.as_str());
    r.append("E");
    r.append(episode);
    r.append("*.ass");
    r
}

/// The subtitle chosen from the files that matched: the one file when exactly
/// one matched, and none when none or several did.
pub open spec fn chosen_subtitle(matches: Seq<Seq<char>>) -> Option<Seq<char>> {
    if matches.len() == 1 {
        Some(matches[0])
    } else {
        None
    }
}

/// The subtitle to use, from the paths that matched the pattern.
pub fn pick_subtitle(matches: &Vec<String>) -> (r: Option<String>)
    ensures
        opt_text(r) == chosen_subtitle(crate::player::texts(matches@)),
{
    if matches.len() == 1 {
        Some(matches[0].clone())
    } else {
        None
    }
}

/// The choice depends on the matching files alone: equal snapshots give
/// equal choices, and neither no match nor an ambiguous one yields a subtitle.
pub proof fn lemma_subtitle_choice(matches: Seq<Seq<char>>, again: Seq<Seq<char>>)
    ensures
        matches == again ==> chosen_subtitle(matches) == chosen_subtitle(again),
        matches.len() != 1 ==> chosen_subtitle(matches) is None,
        matches.len() == 1 ==> chosen_subtitle(matches) == Some(matches[0]),
{
}

} // verus!
