use vstd::prelude::*;

use crate::catalog::views;
use crate::item::{in_specials_season, text_eq, ItemView, Items};

verus! {

/// Why a typed selection was refused.
#[derive(Clone, Copy, Debug, PartialEq, Eq)]
pub enum SelectionError {
    /// The text is not a whole number.
    NotANumber,
    /// The number names no entry of the list shown.
    OutOfRange,
}

/// What the user's line at the catalog prompt asks for.
#[derive(Clone, Copy, Debug, PartialEq, Eq)]
pub enum Query {
    /// The whole catalog.
    All,
    /// An entry of the list shown, by its index.
    Index,
    /// A search for the text typed.
    Search,
}

/// What to do with a chosen catalog entry.
#[derive(Clone, Copy, Debug, PartialEq, Eq)]
pub enum ItemAction {
    PlayMovie,
    /// Build the episode queue of the series and ask where to start.
    ExpandSeries,
    /// Build the episode queue of the episode's series and start at the episode.
    PlayFromSeries,
    Nothing,
}

/// The value of a run of decimal digits.
pub open spec fn digits_value(d: Seq<char>) -> int
    decreases d.len(),
{
    if d.len() == 0 {
        0
    } else {
        10 * digits_value(d.drop_last()) + (d.last() as int - '0' as int)
    }
}

pub open spec fn all_digits(d: Seq<char>) -> bool {
    forall|i: int| 0 <= i < d.len() ==> '0' <= #[trigger] d[i] <= '9'
}

/// The integer that `s` writes in decimal: an optional sign, then one or
/// more digits and nothing else.
pub open spec fn signed_decimal(s: Seq<char>) -> Option<int> {
    let neg = s.len() > 0 && s[0] == '-';
    let signed = s.len() > 0 && (s[0] == '-' || s[0] == '+');
    let d = if signed {
        s.drop_first()
    } else {
        s
    };
    if d.len() > 0 && all_digits(d) {
        Some(
            if neg {
                -digits_value(d)
            } else {
                digits_value(d)
            },
        )
    } else {
        None
    }
}

/// `signed_decimal`, where the value fits in an `i32`.
pub open spec fn parsed_i32(s: Seq<char>) -> Option<i32> {
    match signed_decimal(s) {
        Some(v) => if i32::MIN <= v <= i32::MAX {
            Some(v as i32)
        } else {
            None
        },
        None => None,
    }
}

/// Relies on `str::parse::<i32>`: an optional `+` or `-`, then ASCII digits
/// only, and a value in range; anything else is an error.
#[verifier::external_body]
pub(crate) fn parse_i32(s: &str) -> (r: Option<i32>)
    ensures
        r == parsed_i32(s@),
{
    s.parse::<i32>().ok()
}

/// The name of what `char::is_alphabetic` decides: the Unicode Alphabetic property.
pub uninterp spec fn alphabetic(c: char) -> bool;

/// Relies on `char::is_alphabetic`, which depends on the character alone.
#[verifier::external_body]
fn is_alphabetic(c: char) -> (r: bool)
    ensures
        r == alphabetic(c),
{
    c.is_alphabetic()
}

/// Whether no character of `input` is a letter.
pub fn is_numeric(input: &str) -> (r: bool)
    ensures
        r == (forall|i: int| 0 <= i < input@.len() ==> !alphabetic(#[trigger] input@[i])),
{
    let n = input.unicode_len();
    let mut i: usize = 0;
    while i < n
        invariant
            n == input@.len(),
            i <= n,
            forall|j: int| 0 <= j < i ==> !alphabetic(#[trigger] input@[j]),
        decreases n - i,
    {
        if is_alphabetic(input.get_char(i)) {
            return false;
        }
        i = i + 1;
    }
    true
}

/// What a line typed at the catalog prompt, without surrounding white space,
/// asks for: `ALL` the whole catalog, a line without letters an index, and
/// anything else a search.
pub fn classify_query(input: &str) -> (r: Query)
    ensures
        input@ == "ALL"@ ==> r == Query::All,
        input@ != "ALL"@ ==> (r == Query::Index <==> (forall|i: int|
            0 <= i < input@.len() ==> !alphabetic(#[trigger] input@[i]))),
        input@ != "ALL"@ ==> r != Query::All,
{
    if text_eq(input, "ALL") {
        Query::All
    } else if is_numeric(input) {
        Query::Index
    } else {
        Query::Search
    }
}

/// Validates a chosen index against a list of `len` entries.
pub fn resolve(len: usize, pick: i64) -> (r: Result<usize, SelectionError>)
    ensures
        0 <= pick < len ==> r == Ok::<usize, SelectionError>(pick as usize),
        !(0 <= pick < len) ==> r == Err::<usize, SelectionError>(SelectionError::OutOfRange),
{
    if 0 <= pick && (pick as u64) < (len as u64) {
        Ok(pick as usize)
    } else {
        Err(SelectionError::OutOfRange)
    }
}

/// The entry a selection names in a list shown to the user. A typed index
/// names the entry at that index, at every length of the list, and is out of
/// range unless `0 <= index < len`. Without a typed index (the user only
/// confirmed), a list of one entry gives that entry, and any other list none.
pub fn process_input(item_list: &Vec<Items>, typed: Option<&str>) -> (r: Result<
    Option<usize>,
    SelectionError,
>)
    ensures
        typed is None ==> r == Ok::<Option<usize>, SelectionError>(
            if item_list.len() == 1 {
                Some(0usize)
            } else {
                None
            },
        ),
        typed is Some ==> match parsed_i32(typed->0@) {
            None => r == Err::<Option<usize>, SelectionError>(SelectionError::NotANumber),
            Some(v) => if 0 <= v < item_list.len() {
                r == Ok::<Option<usize>, SelectionError>(Some(v as usize))
            } else {
                r == Err::<Option<usize>, SelectionError>(SelectionError::OutOfRange)
            },
        },
{
    let n = item_list.len();
    match typed {
        None => if n == 1 {
            Ok(Some(0))
        } else {
            Ok(None)
        },
        Some(t) => match parse_i32(t) {
            None => Err(SelectionError::NotANumber),
            Some(v) => match resolve(n, v as i64) {
                Ok(i) => Ok(Some(i)),
                Err(e) => Err(e),
            },
        },
    }
}

/// The entries of `q` whose id is `id`.
pub open spec fn id_count(q: Seq<ItemView>, id: Seq<char>) -> nat
    decreases q.len(),
{
    if q.len() == 0 {
        0
    } else {
        id_count(q.drop_last(), id) + if q.last().id == id {
            1nat
        } else {
            0nat
        }
    }
}

/// `k` is the first index of `q` with id `id`.
pub open spec fn first_with_id(q: Seq<ItemView>, id: Seq<char>, k: int) -> bool {
    0 <= k < q.len() && q[k].id == id && forall|j: int| 0 <= j < k ==> q[j].id != id
}

/// `k` is the last index of `q` with id `id`.
pub open spec fn last_with_id(q: Seq<ItemView>, id: Seq<char>, k: int) -> bool {
    0 <= k < q.len() && q[k].id == id && forall|j: int| k < j < q.len() ==> q[j].id != id
}

/// The queue position at which to start an item chosen in another listing.
/// A special listed under the specials season that stands more than once in
/// the queue starts at its last entry, the one embedded in its own season;
/// any other item at its first entry, and an item not in the queue at 0.
pub open spec fn start_position(q: Seq<ItemView>, item: ItemView, k: int) -> bool {
    if in_specials_season(item) && id_count(q, item.id) > 1 {
        last_with_id(q, item.id, k)
    } else if exists|j: int| 0 <= j < q.len() && q[j].id == item.id {
        first_with_id(q, item.id, k)
    } else {
        k == 0
    }
}

/// How many entries of `queue` have the id `id`.
pub fn count_id(queue: &Vec<Items>, id: &String) -> (r: usize)
    ensures
        r == id_count(views(queue@), id@),
{
    let mut count: usize = 0;
    let mut i: usize = 0;
    while i < queue.len()
        invariant
            i <= queue.len(),
            count == id_count(views(queue@).take(i as int), id@),
            count <= i,
        decreases queue.len() - i,
    {
        proof {
            let t = views(queue@).take(i as int + 1);
            assert(t.drop_last() == views(queue@).take(i as int));
        }
        if queue[i].id == *id {
            count = count + 1;
        }
        i = i + 1;
    }
    proof {
        assert(views(queue@).take(queue@.len() as int) == views(queue@));
    }
    count
}

/// Where in the queue of its series to start an item chosen elsewhere.
pub fn locate_in_queue(queue: &Vec<Items>, item: &Items) -> (r: usize)
    ensures
        start_position(views(queue@), item@, r as int),
{
    let ghost q = views(queue@);
    let amount = count_id(queue, &item.id);
    if item.is_in_specials_season() && amount > 1 {
        let mut i: usize = queue.len();
        while i > 0
            invariant
                i <= queue.len(),
                q == views(queue@),
                forall|j: int| i <= j < q.len() ==> q[j].id != item.id@,
                id_count(q, item.id@) > 1,
                in_specials_season(item@),
            decreases i,
        {
            if queue[i - 1].id == item.id {
                proof {
                    assert(q[i - 1].id == item.id@);
                    assert(last_with_id(q, item.id@, i - 1));
                }
                return i - 1;
            }
            proof {
                assert(q[i - 1].id != item.id@);
            }
            i = i - 1;
        }
        proof {
            lemma_no_id_count(q, item.id@);
        }
        0
    } else {
        let mut i: usize = 0;
        while i < queue.len()
            invariant
                i <= queue.len(),
                q == views(queue@),
                forall|j: int| 0 <= j < i ==> q[j].id != item.id@,
                !(in_specials_season(item@) && id_count(q, item.id@) > 1),
            decreases queue.len() - i,
        {
            if queue[i].id == item.id {
                proof {
                    assert(q[i as int].id == item.id@);
                    assert(first_with_id(q, item.id@, i as int));
                    assert(exists|j: int| 0 <= j < q.len() && q[j].id == item.id@);
                }
                return i;
            }
            proof {
                assert(q[i as int].id != item.id@);
            }
            i = i + 1;
        }
        0
    }
}

pub proof fn lemma_no_id_count(q: Seq<ItemView>, id: Seq<char>)
    requires
        forall|j: int| 0 <= j < q.len() ==> q[j].id != id,
    ensures
        id_count(q, id) == 0,
    decreases q.len(),
{
    if q.len() > 0 {
        lemma_no_id_count(q.drop_last(), id);
    }
}

/// What to do with a chosen entry, by its type: a movie is played, a series
/// expanded, and an episode or a special played from within its series.
pub fn item_action(item: &Items) -> (r: ItemAction)
    ensures
        item@.item_type == "Movie"@ ==> r == ItemAction::PlayMovie,
        item@.item_type == "Series"@ ==> r == ItemAction::ExpandSeries,
        item@.item_type == "Episode"@ || item@.item_type == "Special"@ ==> r
            == ItemAction::PlayFromSeries,
        item@.item_type != "Movie"@ && item@.item_type != "Series"@ && item@.item_type
            != "Episode"@ && item@.item_type != "Special"@ ==> r == ItemAction::Nothing,
{
    proof {
        reveal_strlit("Movie");
        reveal_strlit("Series");
        reveal_strlit("Episode");
        reveal_strlit("Special");
        assert("Movie"@.len() != "Series"@.len());
        assert("Movie"@.len() != "Episode"@.len());
        assert("Movie"@.len() != "Special"@.len());
        assert("Series"@.len() != "Episode"@.len());
        assert("Series"@.len() != "Special"@.len());
    }
    let t = item.item_type.as_str();
    if text_eq(t, "Movie") {
        ItemAction::PlayMovie
    } else if text_eq(t, "Series") {
        ItemAction::ExpandSeries
    } else if text_eq(t, "Episode") || text_eq(t, "Special") {
        ItemAction::PlayFromSeries
    } else {
        ItemAction::Nothing
    }
}

} // verus!
