//! What a listing of items shows beside the items themselves.

use vstd::prelude::*;
use crate::dto::Item;

verus! {

/// The latest publication date among the items; zero where there are none.
pub open spec fn latest_of(items: Seq<Item>) -> i64
    decreases items.len(),
{
    if items.len() == 0 {
        0
    } else if items.len() == 1 {
        items[0].pub_date
    } else {
        let before = latest_of(items.drop_last());
        if items.last().pub_date > before {
            items.last().pub_date
        } else {
            before
        }
    }
}

/// The latest date is the date of one of the items, and none is later.
pub proof fn lemma_latest_is_greatest(items: Seq<Item>)
    requires
        items.len() > 0,
    ensures
        exists|i: int| 0 <= i < items.len() && items[i].pub_date == latest_of(items),
        forall|i: int| 0 <= i < items.len() ==> items[i].pub_date <= latest_of(items),
    decreases items.len(),
{
    if items.len() == 1 {
        assert(items[0].pub_date == latest_of(items));
    } else {
        let front = items.drop_last();
        lemma_latest_is_greatest(front);
        let i = choose|i: int| 0 <= i < front.len() && front[i].pub_date == latest_of(front);
        if items.last().pub_date > latest_of(front) {
            assert(items[items.len() - 1].pub_date == latest_of(items));
        } else {
            assert(items[i].pub_date == latest_of(items));
        }
        assert forall|j: int| 0 <= j < items.len() implies items[j].pub_date <= latest_of(
            items,
        ) by {
            if j < front.len() {
                assert(front[j].pub_date <= latest_of(front));
            }
        }
    }
}

/// The date up to which a listing counts as read once it is marked so: the
/// latest publication date among its items, zero for an empty listing.
pub fn latest_read(items: &Vec<Item>) -> (r: i64)
    ensures
        r == latest_of(items@),
{
    if items.len() == 0 {
        return 0;
    }
    let mut latest = items[0].pub_date;
    let mut i: usize = 1;
    assert(items@.subrange(0, 1).len() == 1);
    while i < items.len()
        invariant
            1 <= i <= items.len(),
            latest == latest_of(items@.subrange(0, i as int)),
        decreases items.len() - i,
    {
        assert(items@.subrange(0, i + 1).drop_last() =~= items@.subrange(0, i as int));
        if items[i].pub_date > latest {
            latest = items[i].pub_date;
        }
        i = i + 1;
    }
    assert(items@.subrange(0, i as int) =~= items@);
    latest
}

/// The number of items that belong to a subscription.
pub open spec fn count_of(items: Seq<Item>, subscription_id: i64) -> nat
    decreases items.len(),
{
    if items.len() == 0 {
        0
    } else {
        let before = count_of(items.drop_last(), subscription_id);
        if items.last().subscription_id == subscription_id {
            before + 1
        } else {
            before
        }
    }
}

/// Counts the items of a listing that belong to a subscription.
pub fn items_of_subscription(items: &Vec<Item>, subscription_id: i64) -> (r: usize)
    ensures
        r == count_of(items@, subscription_id),
{
    let mut count: usize = 0;
    let mut i: usize = 0;
    while i < items.len()
        invariant
            i <= items.len(),
            count == count_of(items@.subrange(0, i as int), subscription_id),
            count <= i,
        decreases items.len() - i,
    {
        assert(items@.subrange(0, i + 1).drop_last() =~= items@.subrange(0, i as int));
        if items[i].subscription_id == subscription_id {
            count = count + 1;
        }
        i = i + 1;
    }
    assert(items@.subrange(0, i as int) =~= items@);
    count
}

/// The heading of the articles page: all articles, or those with the tags
/// that the user has chosen.
pub open spec fn heading(tags: Option<Seq<char>>) -> Seq<char> {
    match tags {
        Some(tags) => "Articles with tag: "@ + tags,
        None => "All Articles"@,
    }
}

/// Writes the heading of the articles page.
pub fn listing_title(tags: Option<&str>) -> (r: String)
    ensures
        r@ == heading(
            match tags {
                Some(t) => Some(t@),
                None => None,
            },
        ),
{
    match tags {
        Some(tags) => {
            let mut title = "Articles with tag: ".to_owned();
            title.append(tags);
            title
        },
        None => "All Articles".to_owned(),
    }
}

} // verus!
