use vstd::prelude::*;

use crate::item::{ItemView, Items};

verus! {

/// The values of a list of items.
pub open spec fn views(s: Seq<Items>) -> Seq<ItemView> {
    s.map_values(|i: Items| i@)
}

/// `acc` with each entry of `resp` appended in order, unless an equal entry
/// is already there.
pub open spec fn merged(acc: Seq<ItemView>, resp: Seq<ItemView>) -> Seq<ItemView>
    decreases resp.len(),
{
    if resp.len() == 0 {
        acc
    } else {
        let prev = merged(acc, resp.drop_last());
        if prev.contains(resp.last()) {
            prev
        } else {
            prev.push(resp.last())
        }
    }
}

/// The list after merging each response of `resps` in turn.
pub open spec fn merged_all(acc: Seq<ItemView>, resps: Seq<Seq<ItemView>>) -> Seq<ItemView>
    decreases resps.len(),
{
    if resps.len() == 0 {
        acc
    } else {
        merged(merged_all(acc, resps.drop_last()), resps.last())
    }
}

/// Whether an entry equal to `x` is in `list`.
pub fn contains_item(list: &Vec<Items>, x: &Items) -> (r: bool)
    ensures
        r == views(list@).contains(x@),
{
    let mut i: usize = 0;
    while i < list.len()
        invariant
            i <= list.len(),
            forall|j: int| 0 <= j < i ==> list@[j]@ != x@,
        decreases list.len() - i,
    {
        if list[i].same_as(x) {
            proof {
                assert(views(list@)[i as int] == x@);
            }
            return true;
        }
        i = i + 1;
    }
    proof {
        if views(list@).contains(x@) {
            let k = choose|k: int| 0 <= k < views(list@).len() && views(list@)[k] == x@;
            assert(list@[k]@ == x@);
        }
    }
    false
}

/// Appends to `item_list` each item of `response`, in order, that is not
/// already there; what was there keeps its place.
pub fn merge_response(item_list: &mut Vec<Items>, response: &Vec<Items>)
    ensures
        views(final(item_list)@) == merged(views(old(item_list)@), views(response@)),
{
    let ghost start = views(item_list@);
    let mut h: usize = 0;
    while h < response.len()
        invariant
            h <= response.len(),
            views(item_list@) == merged(start, views(response@).take(h as int)),
        decreases response.len() - h,
    {
        let ghost before = views(item_list@);
        proof {
            let t = views(response@).take(h as int + 1);
            assert(t.drop_last() == views(response@).take(h as int));
            assert(t.last() == response@[h as int]@);
        }
        if !contains_item(item_list, &response[h]) {
            item_list.push(response[h].duplicate());
            proof {
                assert(views(item_list@) == before.push(response@[h as int]@));
            }
        }
        h = h + 1;
    }
    proof {
        assert(views(response@).take(response@.len() as int) == views(response@));
    }
}

/// Every entry of the merged list is in the list before or in the response.
pub proof fn lemma_merged_members(acc: Seq<ItemView>, resp: Seq<ItemView>, x: ItemView)
    ensures
        merged(acc, resp).contains(x) <==> (acc.contains(x) || resp.contains(x)),
    decreases resp.len(),
{
    if resp.len() > 0 {
        let prev = merged(acc, resp.drop_last());
        lemma_merged_members(acc, resp.drop_last(), x);
        if resp.contains(x) && !resp.drop_last().contains(x) {
            let k = choose|k: int| 0 <= k < resp.len() && resp[k] == x;
            if k < resp.len() - 1 {
                assert(resp.drop_last()[k] == x);
            }
        }
        if resp.drop_last().contains(x) {
            let k = choose|k: int| 0 <= k < resp.drop_last().len() && resp.drop_last()[k] == x;
            assert(resp[k] == x);
        }
        if prev.contains(x) && !prev.contains(resp.last()) {
            let k = choose|k: int| 0 <= k < prev.len() && prev[k] == x;
            assert(prev.push(resp.last())[k] == x);
        }
        if !prev.contains(resp.last()) {
            assert(prev.push(resp.last())[prev.len() as int] == resp.last());
            if prev.push(resp.last()).contains(x) && x != resp.last() {
                let k = choose|k: int|
                    0 <= k < prev.len() + 1 && prev.push(resp.last())[k] == x;
                assert(prev[k] == x);
            }
        }
    }
}

/// Merging a response whose entries are all already in the list changes nothing.
pub proof fn lemma_merge_absorbed(acc: Seq<ItemView>, resp: Seq<ItemView>)
    requires
        forall|k: int| 0 <= k < resp.len() ==> acc.contains(#[trigger] resp[k]),
    ensures
        merged(acc, resp) == acc,
    decreases resp.len(),
{
    if resp.len() > 0 {
        lemma_merge_absorbed(acc, resp.drop_last());
        assert(acc.contains(resp[resp.len() - 1]));
    }
}

/// Merging the same response twice gives the list that merging it once gives.
pub proof fn lemma_merge_idempotent(acc: Seq<ItemView>, resp: Seq<ItemView>)
    ensures
        merged(merged(acc, resp), resp) == merged(acc, resp),
{
    assert forall|k: int| 0 <= k < resp.len() implies merged(acc, resp).contains(
        #[trigger] resp[k],
    ) by {
        lemma_merged_members(acc, resp, resp[k]);
    }
    lemma_merge_absorbed(merged(acc, resp), resp);
}

/// Merging a response only appends: every entry keeps its index.
pub proof fn lemma_merge_keeps_indices(acc: Seq<ItemView>, resp: Seq<ItemView>)
    ensures
        acc.len() <= merged(acc, resp).len(),
        merged(acc, resp).subrange(0, acc.len() as int) == acc,
    decreases resp.len(),
{
    if resp.len() > 0 {
        lemma_merge_keeps_indices(acc, resp.drop_last());
        let prev = merged(acc, resp.drop_last());
        assert(prev.push(resp.last()).subrange(0, acc.len() as int) == prev.subrange(
            0,
            acc.len() as int,
        ));
    }
}

/// Over a sequence of responses merged in turn, an entry already in the list
/// before a later response is merged keeps its index.
pub proof fn lemma_merge_all_keeps_indices(
    acc: Seq<ItemView>,
    resps: Seq<Seq<ItemView>>,
    n: int,
)
    requires
        0 <= n <= resps.len(),
    ensures
        merged_all(acc, resps.take(n)).len() <= merged_all(acc, resps).len(),
        merged_all(acc, resps).subrange(0, merged_all(acc, resps.take(n)).len() as int)
            == merged_all(acc, resps.take(n)),
    decreases resps.len(),
{
    if n == resps.len() {
        assert(resps.take(n) == resps);
    } else {
        lemma_merge_all_keeps_indices(acc, resps.drop_last(), n);
        assert(resps.drop_last().take(n) == resps.take(n));
        let before = merged_all(acc, resps.drop_last());
        let mid = merged_all(acc, resps.take(n));
        lemma_merge_keeps_indices(before, resps.last());
        let after = merged(before, resps.last());
        assert(after.subrange(0, mid.len() as int) == before.subrange(0, mid.len() as int));
    }
}

} // verus!
