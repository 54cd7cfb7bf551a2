//! The tags by which a user filters the articles, as the tags form posts
//! them and as they are stored.

use vstd::prelude::*;
use crate::text::{same_text, texts, trim, trimmed};

verus! {

/// `imbl::OrdSet`, an ordered set. Opaque to the verifier: what a set of
/// tags holds is given by `tag_texts`.
#[verifier::external_type_specification]
#[verifier::external_body]
#[verifier::reject_recursive_types(A)]
pub struct ExOrdSet<A>(imbl::OrdSet<A>);

/// The tags that a set holds, as texts.
pub uninterp spec fn tag_texts(set: imbl::OrdSet<String>) -> Set<Seq<char>>;

/// The tags that a form posts: one, or several.
pub enum Tags {
    Single(String),
    Multiple(imbl::OrdSet<String>),
}

/// The order of strings: the first character in which two texts differ
/// decides, by its code point, and a text comes before every text that it
/// begins.
pub open spec fn text_before(a: Seq<char>, b: Seq<char>) -> bool
    decreases a.len(),
{
    if b.len() == 0 {
        false
    } else if a.len() == 0 {
        true
    } else if a[0] != b[0] {
        (a[0] as u32) < (b[0] as u32)
    } else {
        text_before(a.drop_first(), b.drop_first())
    }
}

/// Texts in strictly ascending order.
pub open spec fn ascending(list: Seq<Seq<char>>) -> bool {
    forall|i: int, j: int| 0 <= i < j < list.len() ==> text_before(list[i], list[j])
}

/// A list holds the tags of a set, each once, in the order of strings.
pub open spec fn lists_in_order(list: Seq<Seq<char>>, tags: Set<Seq<char>>) -> bool {
    &&& ascending(list)
    &&& forall|tag: Seq<char>| tags.contains(tag) <==> list.contains(tag)
}

/// Calls `imbl::OrdSet::unit`: the set that holds this one tag.
#[verifier::external_body]
fn single_tag(tag: String) -> (r: imbl::OrdSet<String>)
    ensures
        tag_texts(r) == set![tag@],
{
    imbl::OrdSet::unit(tag)
}

/// Calls `clone` on an `imbl::OrdSet`: a set that holds the same tags.
#[verifier::external_body]
fn clone_tags(set: &imbl::OrdSet<String>) -> (r: imbl::OrdSet<String>)
    ensures
        tag_texts(r) == tag_texts(*set),
{
    set.clone()
}

/// Walks an `imbl::OrdSet` with `into_iter` and collects what it yields:
/// the tags of the set, each once, in the order of strings.
#[verifier::external_body]
fn tags_in_order(set: imbl::OrdSet<String>) -> (r: Vec<String>)
    ensures
        lists_in_order(texts(r@), tag_texts(set)),
{
    set.into_iter().collect()
}

impl Tags {
    /// The tags, as a set of texts.
    pub open spec fn texts(self) -> Set<Seq<char>> {
        match self {
            Tags::Single(tag) => set![tag@],
            Tags::Multiple(set) => tag_texts(set),
        }
    }

    /// The tags as a set.
    pub fn to_set(&self) -> (r: imbl::OrdSet<String>)
        ensures
            tag_texts(r) == self.texts(),
    {
        match self {
            Tags::Single(tag) => single_tag(tag.clone()),
            Tags::Multiple(set) => clone_tags(set),
        }
    }
}

/// Texts written one after the other, a space before each.
pub open spec fn spaced(list: Seq<Seq<char>>) -> Seq<char>
    decreases list.len(),
{
    if list.len() == 0 {
        Seq::empty()
    } else {
        spaced(list.drop_last()) + seq![' '] + list.last()
    }
}

/// The tags that a form posts; none where it posts none.
pub open spec fn posted_tags(tags: Option<&Tags>) -> Set<Seq<char>> {
    match tags {
        Some(tags) => tags.texts(),
        None => Set::empty(),
    }
}

/// A text is the stored form of a set of tags where it is the tags in the
/// order of strings, a space between each two, without white space at
/// either end.
pub open spec fn is_stored_form(text: Seq<char>, tags: Set<Seq<char>>) -> bool {
    exists|list: Seq<Seq<char>>| lists_in_order(list, tags) && text == trimmed(spaced(list))
}

/// Writes the tags that a form posts in their stored form.
pub fn all_tags(tags: Option<&Tags>) -> (r: String)
    ensures
        is_stored_form(r@, posted_tags(tags)),
{
    let ghost posted = posted_tags(tags);
    let list: Vec<String> = match tags {
        Some(tags) => tags_in_order(tags.to_set()),
        None => {
            let none: Vec<String> = Vec::new();
            assert(lists_in_order(texts(none@), posted)) by {
                assert forall|tag: Seq<char>| !texts(none@).contains(tag) by {
                    if texts(none@).contains(tag) {
                        let i = choose|i: int| 0 <= i < texts(none@).len() && texts(none@)[i] == tag;
                    }
                }
            }
            none
        },
    };
    let mut text = String::new();
    let mut i: usize = 0;
    assert(texts(list@).subrange(0, 0) =~= Seq::empty());
    while i < list.len()
        invariant
            i <= list.len(),
            text@ == spaced(texts(list@).subrange(0, i as int)),
        decreases list.len() - i,
    {
        let ghost before = text@;
        proof {
            reveal_strlit(" ");
            assert(texts(list@).subrange(0, i + 1).drop_last() =~= texts(list@).subrange(
                0,
                i as int,
            ));
            assert(texts(list@).subrange(0, i + 1).last() == list@[i as int]@);
            assert(" "@ =~= seq![' ']);
        }
        text.append(" ");
        text.append(list[i].as_str());
        i = i + 1;
    }
    assert(texts(list@).subrange(0, i as int) =~= texts(list@));
    trim(text.as_str())
}

/// What becomes of a user's choice of tags when the tags form is posted.
#[derive(Debug, Clone)]
pub enum TagChoice {
    /// This choice is stored.
    Store(String),
    /// The stored choice is deleted: every article is shown.
    Clear,
}

/// Decides what a posted tags form does: with the action `set` and at
/// least one tag, the tags are stored, in their stored form; with any other
/// action, or without tags, the stored choice is deleted.
pub fn choose_tags(action: &str, tags: Option<&Tags>) -> (r: TagChoice)
    ensures
        match r {
            TagChoice::Store(text) => {
                &&& action@ == "set"@
                &&& text@.len() > 0
                &&& is_stored_form(text@, posted_tags(tags))
            },
            TagChoice::Clear => action@ != "set"@ || is_stored_form(
                Seq::empty(),
                posted_tags(tags),
            ),
        },
{
    let text = all_tags(tags);
    if same_text(action, "set") && !text.as_str().is_empty() {
        TagChoice::Store(text)
    } else {
        assert(action@ == "set"@ ==> text@ =~= Seq::empty());
        TagChoice::Clear
    }
}

/// The number of tags that a map from tag to number holds for each tag.
pub uninterp spec fn tag_counts(map: imbl::OrdMap<String, u64>) -> Map<Seq<char>, u64>;

/// Calls `imbl::OrdMap::new`: the map that holds nothing.
#[verifier::external_body]
fn no_counts() -> (r: imbl::OrdMap<String, u64>)
    ensures
        tag_counts(r) =~= Map::empty(),
{
    imbl::OrdMap::new()
}

/// Calls `imbl::OrdMap::get` and copies the value out: the number that is
/// held for the tag, if there is one.
#[verifier::external_body]
fn count_of_tag(map: &imbl::OrdMap<String, u64>, tag: &str) -> (r: Option<u64>)
    ensures
        r == (if tag_counts(*map).contains_key(tag@) {
            Some(tag_counts(*map)[tag@])
        } else {
            None
        }),
{
    map.get(tag).copied()
}

/// Calls `imbl::OrdMap::insert`: afterwards the map holds the number for
/// the tag and is otherwise as before.
#[verifier::external_body]
fn set_count(map: &mut imbl::OrdMap<String, u64>, tag: String, count: u64)
    ensures
        tag_counts(*final(map)) == tag_counts(*old(map)).insert(tag@, count),
{
    map.insert(tag, count);
}

/// The tags of a list of tags with numbers.
pub open spec fn counted_tags(list: Seq<(String, u64)>) -> Seq<Seq<char>> {
    list.map_values(|entry: (String, u64)| entry.0@)
}

/// Walks an `imbl::OrdMap` with `into_iter` and collects what it yields:
/// every tag of the map, once, with its number, in the order of strings.
#[verifier::external_body]
fn counts_in_order(map: imbl::OrdMap<String, u64>) -> (r: Vec<(String, u64)>)
    ensures
        lists_in_order(counted_tags(r@), tag_counts(map).dom()),
        forall|i: int| 0 <= i < r@.len() ==> tag_counts(map)[(#[trigger] r@[i]).0@] == r@[i].1,
{
    map.into_iter().collect()
}

/// How often a tag stands in a list.
pub open spec fn occurrences(list: Seq<Seq<char>>, tag: Seq<char>) -> nat
    decreases list.len(),
{
    if list.len() == 0 {
        0
    } else if list.last() == tag {
        occurrences(list.drop_last(), tag) + 1
    } else {
        occurrences(list.drop_last(), tag)
    }
}

/// A tag stands in a list no more often than the list is long.
pub proof fn lemma_occurrences_are_bounded(list: Seq<Seq<char>>, tag: Seq<char>)
    ensures
        occurrences(list, tag) <= list.len(),
    decreases list.len(),
{
    if list.len() > 0 {
        lemma_occurrences_are_bounded(list.drop_last(), tag);
    }
}

/// Counts the tags of the sites: for each tag that occurs, once, how often
/// it occurs, the tags in the order of strings.
pub fn count_tags(tags: &Vec<String>) -> (r: Vec<(String, u64)>)
    ensures
        ascending(counted_tags(r@)),
        forall|i: int|
            0 <= i < r@.len() ==> (#[trigger] r@[i]).1 == occurrences(texts(tags@), r@[i].0@)
                && r@[i].1 > 0,
        forall|tag: Seq<char>|
            occurrences(texts(tags@), tag) > 0 <==> counted_tags(r@).contains(tag),
{
    let mut counts = no_counts();
    let mut i: usize = 0;
    let ghost all = texts(tags@);
    assert(all.subrange(0, 0) =~= Seq::empty());
    while i < tags.len()
        invariant
            i <= tags.len(),
            all == texts(tags@),
            forall|tag: Seq<char>|
                tag_counts(counts).contains_key(tag) <==> occurrences(
                    all.subrange(0, i as int),
                    tag,
                ) > 0,
            forall|tag: Seq<char>| #[trigger]
                tag_counts(counts).contains_key(tag) ==> tag_counts(counts)[tag] == occurrences(
                    all.subrange(0, i as int),
                    tag,
                ),
        decreases tags.len() - i,
    {
        let ghost before = tag_counts(counts);
        let ghost seen = all.subrange(0, i as int);
        let ghost next = all.subrange(0, i + 1);
        proof {
            assert(next.drop_last() =~= seen);
            assert(next.last() == tags@[i as int]@);
            lemma_occurrences_are_bounded(seen, tags@[i as int]@);
        }
        let count = match count_of_tag(&counts, tags[i].as_str()) {
            Some(count) => count,
            None => 0,
        };
        set_count(&mut counts, tags[i].clone(), count + 1);
        proof {
            assert forall|tag: Seq<char>|
                tag_counts(counts).contains_key(tag) <==> occurrences(next, tag) > 0 by {
                if tag != tags@[i as int]@ {
                    assert(before.contains_key(tag) <==> occurrences(seen, tag) > 0);
                }
            }
            assert forall|tag: Seq<char>| #[trigger]
                tag_counts(counts).contains_key(tag) implies tag_counts(counts)[tag]
                == occurrences(next, tag) by {
                if tag != tags@[i as int]@ {
                    assert(before.contains_key(tag));
                } else if !before.contains_key(tag) {
                    assert(occurrences(seen, tag) == 0);
                }
            }
        }
        i = i + 1;
    }
    assert(all.subrange(0, i as int) =~= all);
    let ghost held = tag_counts(counts);
    let list = counts_in_order(counts);
    proof {
        assert forall|i: int| 0 <= i < list@.len() implies (#[trigger] list@[i]).1 == occurrences(
            all,
            list@[i].0@,
        ) && list@[i].1 > 0 by {
            assert(counted_tags(list@)[i] == list@[i].0@);
            assert(counted_tags(list@).contains(list@[i].0@));
            assert(held.dom().contains(list@[i].0@));
        }
        assert forall|tag: Seq<char>|
            occurrences(all, tag) > 0 <==> counted_tags(list@).contains(tag) by {
            assert(held.dom().contains(tag) <==> held.contains_key(tag));
        }
    }
    list
}

/// The order of strings is strict: no text comes before itself, and of two
/// texts at most one comes before the other.
pub proof fn lemma_text_order_is_strict(a: Seq<char>, b: Seq<char>)
    ensures
        !text_before(a, a),
        text_before(a, b) ==> !text_before(b, a),
    decreases a.len(),
{
    if a.len() > 0 {
        lemma_text_order_is_strict(a.drop_first(), a.drop_first());
        if b.len() > 0 && a[0] == b[0] {
            lemma_text_order_is_strict(a.drop_first(), b.drop_first());
        }
    }
}

/// A set of tags has one list in order and no other: the stored form of a
/// choice of tags, and the list of counted tags, are settled by the tags.
pub proof fn lemma_list_in_order_is_unique(
    first: Seq<Seq<char>>,
    second: Seq<Seq<char>>,
    tags: Set<Seq<char>>,
)
    requires
        lists_in_order(first, tags),
        lists_in_order(second, tags),
    ensures
        first == second,
    decreases first.len(),
{
    if first.len() == 0 {
        if second.len() > 0 {
            assert(second.contains(second[0]));
            assert(first.contains(second[0]));
        }
        assert(first =~= second);
    } else {
        assert(first.contains(first[0]));
        assert(second.contains(first[0]));
        let j = choose|j: int| 0 <= j < second.len() && second[j] == first[0];
        assert(second.contains(second[0]));
        assert(first.contains(second[0]));
        let i = choose|i: int| 0 <= i < first.len() && first[i] == second[0];
        if i > 0 && j > 0 {
            assert(text_before(first[0], first[i]));
            assert(text_before(second[0], second[j]));
            lemma_text_order_is_strict(first[0], second[0]);
        }
        if i > 0 && j == 0 {
            // second[0] == first[0] == first[i] with i > 0
            assert(text_before(first[0], first[i]));
            lemma_text_order_is_strict(first[0], first[0]);
        }
        if i == 0 && j > 0 {
            assert(text_before(second[0], second[j]));
            lemma_text_order_is_strict(second[0], second[0]);
        }
        assert(first[0] == second[0]);
        let head = first[0];
        let rest = tags.remove(head);
        let first_tail = first.drop_first();
        let second_tail = second.drop_first();
        assert forall|tag: Seq<char>| rest.contains(tag) <==> first_tail.contains(tag) by {
            if rest.contains(tag) {
                let k = choose|k: int| 0 <= k < first.len() && first[k] == tag;
                assert(k > 0);
                assert(first_tail[k - 1] == tag);
            }
            if first_tail.contains(tag) {
                let k = choose|k: int| 0 <= k < first_tail.len() && first_tail[k] == tag;
                assert(first[k + 1] == tag);
                assert(first.contains(tag));
                assert(text_before(first[0], first[k + 1]));
                lemma_text_order_is_strict(head, head);
            }
        }
        assert forall|tag: Seq<char>| rest.contains(tag) <==> second_tail.contains(tag) by {
            if rest.contains(tag) {
                let k = choose|k: int| 0 <= k < second.len() && second[k] == tag;
                assert(k > 0);
                assert(second_tail[k - 1] == tag);
            }
            if second_tail.contains(tag) {
                let k = choose|k: int| 0 <= k < second_tail.len() && second_tail[k] == tag;
                assert(second[k + 1] == tag);
                assert(second.contains(tag));
                assert(text_before(second[0], second[k + 1]));
                lemma_text_order_is_strict(head, head);
            }
        }
        assert(ascending(first_tail)) by {
            assert forall|a: int, b: int| 0 <= a < b < first_tail.len() implies text_before(
                first_tail[a],
                first_tail[b],
            ) by {
                assert(text_before(first[a + 1], first[b + 1]));
            }
        }
        assert(ascending(second_tail)) by {
            assert forall|a: int, b: int| 0 <= a < b < second_tail.len() implies text_before(
                second_tail[a],
                second_tail[b],
            ) by {
                assert(text_before(second[a + 1], second[b + 1]));
            }
        }
        lemma_list_in_order_is_unique(first_tail, second_tail, rest);
        assert(first =~= seq![head] + first_tail);
        assert(second =~= seq![head] + second_tail);
    }
}

/// The stored form of a choice of tags is one text: two texts that are the
/// stored form of the same tags are the same.
pub proof fn lemma_stored_form_is_unique(a: Seq<char>, b: Seq<char>, tags: Set<Seq<char>>)
    requires
        is_stored_form(a, tags),
        is_stored_form(b, tags),
    ensures
        a == b,
{
    let first = choose|list: Seq<Seq<char>>| lists_in_order(list, tags) && a == trimmed(spaced(list));
    let second = choose|list: Seq<Seq<char>>|
        lists_in_order(list, tags) && b == trimmed(spaced(list));
    lemma_list_in_order_is_unique(first, second, tags);
}

} // verus!
