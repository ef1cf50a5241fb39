use vstd::prelude::*;

use crate::catalog::{contains_item, views};
use crate::item::{in_specials_season, ItemView, Items};
use crate::selection::id_count;

verus! {

/// `acc` with each episode of `eps` appended in order, unless an equal entry
/// is already there; an episode of the specials season is appended always.
pub open spec fn expanded(acc: Seq<ItemView>, eps: Seq<ItemView>) -> Seq<ItemView>
    decreases eps.len(),
{
    if eps.len() == 0 {
        acc
    } else {
        let prev = expanded(acc, eps.drop_last());
        if prev.contains(eps.last()) && !in_specials_season(eps.last()) {
            prev
        } else {
            prev.push(eps.last())
        }
    }
}

/// The episode queue of a series whose seasons, in order, list `seasons`.
pub open spec fn expanded_seasons(seasons: Seq<Seq<ItemView>>) -> Seq<ItemView>
    decreases seasons.len(),
{
    if seasons.len() == 0 {
        Seq::empty()
    } else {
        expanded(expanded_seasons(seasons.drop_last()), seasons.last())
    }
}

/// How many entries of `s` equal `x`.
pub open spec fn occurrences(s: Seq<ItemView>, x: ItemView) -> nat
    decreases s.len(),
{
    if s.len() == 0 {
        0
    } else {
        occurrences(s.drop_last(), x) + if s.last() == x {
            1nat
        } else {
            0nat
        }
    }
}

/// How many entries equal to `x` all the seasons list together.
pub open spec fn occurrences_in_seasons(seasons: Seq<Seq<ItemView>>, x: ItemView) -> nat
    decreases seasons.len(),
{
    if seasons.len() == 0 {
        0
    } else {
        occurrences_in_seasons(seasons.drop_last(), x) + occurrences(seasons.last(), x)
    }
}

/// The values of each season's episode list.
pub open spec fn season_views(seasons: Seq<Vec<Items>>) -> Seq<Seq<ItemView>> {
    seasons.map_values(|v: Vec<Items>| views(v@))
}

/// Appends the episodes of one season to `episode_list`, in order: one that
/// equals an entry already there is skipped, unless it belongs to the
/// specials season.
pub fn expand_season(episode_list: &mut Vec<Items>, season_items: &Vec<Items>)
    ensures
        views(final(episode_list)@) == expanded(views(old(episode_list)@), views(season_items@)),
{
    let ghost start = views(episode_list@);
    let mut e: usize = 0;
    while e < season_items.len()
        invariant
            e <= season_items.len(),
            views(episode_list@) == expanded(start, views(season_items@).take(e as int)),
        decreases season_items.len() - e,
    {
        let ghost before = views(episode_list@);
        proof {
            let t = views(season_items@).take(e as int + 1);
            assert(t.drop_last() == views(season_items@).take(e as int));
            assert(t.last() == season_items@[e as int]@);
        }
        let episode = &season_items[e];
        if !contains_item(episode_list, episode) || episode.is_in_specials_season() {
            episode_list.push(episode.duplicate());
            proof {
                assert(views(episode_list@) == before.push(season_items@[e as int]@));
            }
        }
        e = e + 1;
    }
    proof {
        assert(views(season_items@).take(season_items@.len() as int) == views(season_items@));
    }
}

/// The episode queue of a series, from the episode lists of its seasons in
/// the order the server gave them.
pub fn process_series(seasons: &Vec<Vec<Items>>) -> (r: Vec<Items>)
    ensures
        views(r@) == expanded_seasons(season_views(seasons@)),
{
    let mut episode_list: Vec<Items> = Vec::new();
    let mut s: usize = 0;
    while s < seasons.len()
        invariant
            s <= seasons.len(),
            views(episode_list@) == expanded_seasons(season_views(seasons@).take(s as int)),
        decreases seasons.len() - s,
    {
        proof {
            let t = season_views(seasons@).take(s as int + 1);
            assert(t.drop_last() == season_views(seasons@).take(s as int));
            assert(t.last() == views(seasons@[s as int]@));
        }
        expand_season(&mut episode_list, &seasons[s]);
        s = s + 1;
    }
    proof {
        assert(season_views(seasons@).take(seasons@.len() as int) == season_views(seasons@));
    }
    episode_list
}

/// The branch drawn before a season in the tree listing.
pub fn season_branch(last_season: bool) -> (r: &'static str)
    ensures
        last_season ==> r@ == "└─"@,
        !last_season ==> r@ == "├─"@,
{
    if last_season {
        "└─"
    } else {
        "├─"
    }
}

/// The branch drawn before an episode in the tree listing.
pub fn episode_branch(last_episode: bool, last_season: bool) -> (r: &'static str)
    ensures
        last_episode && last_season ==> r@ == "     └──"@,
        last_episode && !last_season ==> r@ == "│    └──"@,
        !last_episode && last_season ==> r@ == "     ├──"@,
        !last_episode && !last_season ==> r@ == "│    ├──"@,
{
    if last_episode && last_season {
        "     └──"
    } else if last_episode {
        "│    └──"
    } else if last_season {
        "     ├──"
    } else {
        "│    ├──"
    }
}

/// The mark after an episode listed under a season other than its own.
pub fn foreign_season_mark(episode: &Items, season_name: &String) -> (r: &'static str)
    ensures
        episode@.season_name == Some(season_name@) ==> r@ == ""@,
        episode@.season_name != Some(season_name@) ==> r@ == " (S)"@,
{
    let own = match &episode.season_name {
        Some(s) => *s == *season_name,
        None => false,
    };
    if own {
        ""
    } else {
        " (S)"
    }
}

pub proof fn lemma_occurrences_contains(s: Seq<ItemView>, x: ItemView)
    ensures
        (occurrences(s, x) > 0) == s.contains(x),
    decreases s.len(),
{
    if s.len() > 0 {
        lemma_occurrences_contains(s.drop_last(), x);
        if s.drop_last().contains(x) {
            let k = choose|k: int| 0 <= k < s.drop_last().len() && s.drop_last()[k] == x;
            assert(s[k] == x);
        }
        if s.contains(x) && s.last() != x {
            let k = choose|k: int| 0 <= k < s.len() && s[k] == x;
            assert(s.drop_last()[k] == x);
        }
    }
}

pub proof fn lemma_occurrences_push(s: Seq<ItemView>, y: ItemView, x: ItemView)
    ensures
        occurrences(s.push(y), x) == occurrences(s, x) + if y == x {
            1nat
        } else {
            0nat
        },
{
    assert(s.push(y).drop_last() == s);
}

/// How often one season's episodes leave a value in the queue.
pub proof fn lemma_expanded_count(acc: Seq<ItemView>, eps: Seq<ItemView>, x: ItemView)
    ensures
        in_specials_season(x) ==> occurrences(expanded(acc, eps), x) == occurrences(acc, x)
            + occurrences(eps, x),
        !in_specials_season(x) && occurrences(acc, x) <= 1 ==> occurrences(expanded(acc, eps), x)
            == if occurrences(acc, x) + occurrences(eps, x) > 0 {
            1nat
        } else {
            0nat
        },
    decreases eps.len(),
{
    if eps.len() > 0 {
        let prev = expanded(acc, eps.drop_last());
        let y = eps.last();
        lemma_expanded_count(acc, eps.drop_last(), x);
        lemma_occurrences_push(prev, y, x);
        lemma_occurrences_contains(prev, y);
        lemma_occurrences_contains(prev, x);
    }
}

/// In the queue of a series, an episode of the specials season stands as
/// often as the seasons list it; any other episode stands once if some season
/// lists it, and not at all otherwise. So a special that a regular season
/// also lists, under that season's name, stands twice, and every other
/// episode once.
pub proof fn lemma_specials_duplication(seasons: Seq<Seq<ItemView>>, x: ItemView)
    ensures
        in_specials_season(x) ==> occurrences(expanded_seasons(seasons), x)
            == occurrences_in_seasons(seasons, x),
        !in_specials_season(x) ==> occurrences(expanded_seasons(seasons), x) == if occurrences_in_seasons(seasons, x) > 0 {
            1nat
        } else {
            0nat
        },
    decreases seasons.len(),
{
    if seasons.len() > 0 {
        lemma_specials_duplication(seasons.drop_last(), x);
        lemma_expanded_count(expanded_seasons(seasons.drop_last()), seasons.last(), x);
    }
}

/// Where every entry of `q` with id `id` equals `a` or `s`, two different
/// values, the entries with that id are those equal to `a` and those equal to `s`.
pub proof fn lemma_id_count_two(q: Seq<ItemView>, a: ItemView, s: ItemView)
    requires
        a.id == s.id,
        a != s,
        forall|k: int| 0 <= k < q.len() && (#[trigger] q[k]).id == a.id ==> q[k] == a || q[k] == s,
    ensures
        id_count(q, a.id) == occurrences(q, a) + occurrences(q, s),
    decreases q.len(),
{
    if q.len() > 0 {
        let p = q.drop_last();
        assert forall|k: int| 0 <= k < p.len() && (#[trigger] p[k]).id == a.id implies p[k] == a
            || p[k] == s by {
            assert(p[k] == q[k]);
        }
        lemma_id_count_two(p, a, s);
        assert(q[q.len() - 1] == q.last());
    }
}

/// A special that a regular season lists under that season's name, and the
/// specials season lists once under its own, stands in the queue of the
/// series exactly twice by its id, where the seasons list that id under no
/// other value.
pub proof fn lemma_special_twice_by_id(seasons: Seq<Seq<ItemView>>, a: ItemView, s: ItemView)
    requires
        a.id == s.id,
        !in_specials_season(a),
        in_specials_season(s),
        occurrences_in_seasons(seasons, a) > 0,
        occurrences_in_seasons(seasons, s) == 1,
        forall|x: ItemView|
            x.id == a.id && #[trigger] occurrences_in_seasons(seasons, x) > 0 ==> x == a || x == s,
    ensures
        id_count(expanded_seasons(seasons), a.id) == 2,
{
    let q = expanded_seasons(seasons);
    assert forall|k: int| 0 <= k < q.len() && (#[trigger] q[k]).id == a.id implies q[k] == a
        || q[k] == s by {
        let x = q[k];
        lemma_occurrences_contains(q, x);
        lemma_specials_duplication(seasons, x);
        assert(occurrences_in_seasons(seasons, x) > 0);
    }
    lemma_id_count_two(q, a, s);
    lemma_specials_duplication(seasons, a);
    lemma_specials_duplication(seasons, s);
}

} // verus!
