use vstd::prelude::*;

use crate::item::{text_eq, ItemView, Items};
use crate::text::{nat_decimal, nat_text};

verus! {

/// The year shown for a premiere date: its first four characters, the whole
/// date where it is shorter, and `????` where there is none.
pub open spec fn year_of(premiere: Option<Seq<char>>) -> Seq<char> {
    match premiere {
        Some(d) => if d.len() >= 4 {
            d.subrange(0, 4)
        } else {
            d
        },
        None => "????"@,
    }
}

pub fn year_text(premiere: &Option<String>) -> (r: String)
    ensures
        r@ == year_of(crate::item::opt_text(*premiere)),
{
    match premiere {
        Some(d) => {
            let s = d.as_str();
            if s.unicode_len() >= 4 {
                String::from_str(s.substring_char(0, 4))
            } else {
                String::from_str(s)
            }
        },
        None => String::from_str("????"),
    }
}

/// The text of an optional field, empty where it is absent.
pub open spec fn or_empty(o: Option<Seq<char>>) -> Seq<char> {
    match o {
        Some(s) => s,
        None => Seq::empty(),
    }
}

pub(crate) fn text_or_empty(o: &Option<String>) -> (r: String)
    ensures
        r@ == or_empty(crate::item::opt_text(*o)),
{
    match o {
        Some(s) => s.clone(),
        None => String::new(),
    }
}

/// Whether an entry is listed with its series and season.
pub open spec fn is_episode_like(v: ItemView) -> bool {
    v.item_type == "Episode"@ || v.item_type == "Special"@
}

/// The menu text of an entry at a displayed index.
pub open spec fn menu_entry_of(v: ItemView, index: nat) -> Seq<char> {
    if is_episode_like(v) {
        "["@ + nat_decimal(index) + "] "@ + or_empty(v.series_name) + " ("@ + year_of(
            v.premiere_date,
        ) + ") - "@ + or_empty(v.season_name) + " - "@ + v.name + " - ("@ + v.item_type + ")"@
    } else {
        "["@ + nat_decimal(index) + "] "@ + v.name + " ("@ + year_of(v.premiere_date) + ") - ("@
            + v.item_type + ")"@
    }
}

/// The menu text of an entry at a displayed index: series, year, season,
/// name and type for an episode or special; name, year and type otherwise.
pub fn menu_entry(item: &Items, index: u64) -> (r: String)
    ensures
        r@ == menu_entry_of(item@, index as nat),
{
    let t = item.item_type.as_str();
    let year = year_text(&item.premiere_date);
    let mut r = String::from_str("[");
    let i = nat_text(index);
    r.append(i.as_str());
    r.append("] ");
    if text_eq(t, "Episode") || text_eq(t, "Special") {
        let series = text_or_empty(&item.series_name);
        let season = text_or_empty(&item.season_name);
        r.append(series.as_str());
        r.append(" (");
        r.append(year.as_str());
        r.append(") - ");
        r.append(season.as_str());
        r.append(" - ");
        r.append(item.name.as_str());
        r.append(" - (");
        r.append(t);
        r.append(")");
    } else {
        r.append(item.name.as_str());
        r.append(" (");
        r.append(year.as_str());
        r.append(") - (");
        r.append(t);
        r.append(")");
    }
    r
}

/// The text offered when a search found a single entry.
pub fn single_entry(item: &Items) -> (r: String)
    ensures
        r@ == "[Enter] "@ + item@.name + " ("@ + year_of(item@.premiere_date) + ") - ("@
            + item@.item_type + ")"@,
{
    let year = year_text(&item.premiere_date);
    let mut r = String::from_str("[Enter] ");
    r.append(item.name.as_str());
    r.append(" (");
    r.append(year.as_str());
    r.append(") - (");
    r.append(item.item_type.as_str());
    r.append(")");
    r
}

} // verus!
