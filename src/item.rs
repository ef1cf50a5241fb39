use vstd::prelude::*;

verus! {

/// What the server reports of one user's progress on an item.
#[derive(Clone, Copy, Debug)]
pub struct UserData {
    /// The played percentage, 0 to 100, held as the bit pattern of the
    /// 64-bit float that the server sent (`None` when it sent none).
    pub played_percentage_bits: Option<u64>,
    pub playback_position_ticks: i64,
    pub played: bool,
}

/// One entry of the remote catalog: a movie, series, season, episode or special.
#[derive(Clone, Debug)]
pub struct Items {
    pub name: String,
    pub id: String,
    pub run_time_ticks: Option<u64>,
    pub item_type: String,
    pub user_data: UserData,
    pub series_name: Option<String>,
    pub series_id: Option<String>,
    pub season_name: Option<String>,
    pub season_id: Option<String>,
    pub premiere_date: Option<String>,
}

/// The mathematical value of a catalog item: every field, strings as characters.
pub struct ItemView {
    pub name: Seq<char>,
    pub id: Seq<char>,
    pub run_time_ticks: Option<u64>,
    pub item_type: Seq<char>,
    pub user_data: UserData,
    pub series_name: Option<Seq<char>>,
    pub series_id: Option<Seq<char>>,
    pub season_name: Option<Seq<char>>,
    pub season_id: Option<Seq<char>>,
    pub premiere_date: Option<Seq<char>>,
}

pub open spec fn opt_text(o: Option<String>) -> Option<Seq<char>> {
    match o {
        Some(s) => Some(s@),
        None => None,
    }
}

impl View for Items {
    type V = ItemView;

    open spec fn view(&self) -> ItemView {
        ItemView {
            name: self.name@,
            id: self.id@,
            run_time_ticks: self.run_time_ticks,
            item_type: self.item_type@,
            user_data: self.user_data,
            series_name: opt_text(self.series_name),
            series_id: opt_text(self.series_id),
            season_name: opt_text(self.season_name),
            season_id: opt_text(self.season_id),
            premiere_date: opt_text(self.premiere_date),
        }
    }
}

/// The name of the season that a server uses for specials.
pub open spec fn specials_name() -> Seq<char> {
    "Specials"@
}

/// An entry listed under the dedicated specials season.
pub open spec fn in_specials_season(v: ItemView) -> bool {
    v.season_name == Some(specials_name())
}

/// Character-wise equality of two strings.
pub fn text_eq(a: &str, b: &str) -> (r: bool)
    ensures
        r == (a@ == b@),
{
    let n = a.unicode_len();
    if n != b.unicode_len() {
        return false;
    }
    let mut i: usize = 0;
    while i < n
        invariant
            n == a@.len(),
            n == b@.len(),
            i <= n,
            a@.subrange(0, i as int) == b@.subrange(0, i as int),
        decreases n - i,
    {
        if a.get_char(i) != b.get_char(i) {
            return false;
        }
        proof {
            assert(a@.subrange(0, i + 1) == a@.subrange(0, i as int).push(a@[i as int]));
            assert(b@.subrange(0, i + 1) == b@.subrange(0, i as int).push(b@[i as int]));
        }
        i = i + 1;
    }
    proof {
        assert(a@ == a@.subrange(0, n as int));
        assert(b@ == b@.subrange(0, n as int));
    }
    true
}

pub fn opt_text_eq(a: &Option<String>, b: &Option<String>) -> (r: bool)
    ensures
        r == (opt_text(*a) == opt_text(*b)),
{
    match (a, b) {
        (Some(x), Some(y)) => *x == *y,
        (None, None) => true,
        _ => false,
    }
}

pub fn opt_text_copy(a: &Option<String>) -> (r: Option<String>)
    ensures
        opt_text(r) == opt_text(*a),
{
    match a {
        Some(x) => Some(x.clone()),
        None => None,
    }
}

pub fn user_data_eq(a: &UserData, b: &UserData) -> (r: bool)
    ensures
        r == (*a == *b),
{
    let pct = match (a.played_percentage_bits, b.played_percentage_bits) {
        (Some(x), Some(y)) => x == y,
        (None, None) => true,
        _ => false,
    };
    pct && a.playback_position_ticks == b.playback_position_ticks && a.played == b.played
}

impl Items {
    /// Whether two items agree in every field.
    pub fn same_as(&self, other: &Items) -> (r: bool)
        ensures
            r == (self@ == other@),
    {
        let ticks = match (self.run_time_ticks, other.run_time_ticks) {
            (Some(x), Some(y)) => x == y,
            (None, None) => true,
            _ => false,
        };
        self.name == other.name && self.id == other.id && ticks && self.item_type
            == other.item_type && user_data_eq(&self.user_data, &other.user_data)
            && opt_text_eq(&self.series_name, &other.series_name) && opt_text_eq(
            &self.series_id,
            &other.series_id,
        ) && opt_text_eq(&self.season_name, &other.season_name) && opt_text_eq(
            &self.season_id,
            &other.season_id,
        ) && opt_text_eq(&self.premiere_date, &other.premiere_date)
    }

    /// A copy that agrees with this item in every field.
    pub fn duplicate(&self) -> (r: Items)
        ensures
            r@ == self@,
    {
        Items {
            name: self.name.clone(),
            id: self.id.clone(),
            run_time_ticks: self.run_time_ticks,
            item_type: self.item_type.clone(),
            user_data: self.user_data,
            series_name: opt_text_copy(&self.series_name),
            series_id: opt_text_copy(&self.series_id),
            season_name: opt_text_copy(&self.season_name),
            season_id: opt_text_copy(&self.season_id),
            premiere_date: opt_text_copy(&self.premiere_date),
        }
    }

    /// Whether the item is listed under the dedicated specials season.
    pub fn is_in_specials_season(&self) -> (r: bool)
        ensures
            r == in_specials_season(self@),
    {
        match &self.season_name {
            Some(s) => text_eq(s.as_str(), "Specials"),
            None => false,
        }
    }
}

impl PartialEq for Items {
    fn eq(&self, other: &Items) -> (r: bool) {
        self.same_as(other)
    }
}

impl vstd::std_specs::cmp::PartialEqSpecImpl for Items {
    open spec fn obeys_eq_spec() -> bool {
        true
    }

    open spec fn eq_spec(&self, other: &Items) -> bool {
        self@ == other@
    }
}

} // verus!
