//! Sets of tag names.

use rustc_hash::{FxBuildHasher, FxHashSet};
use std::collections::HashSet;
use vstd::prelude::*;

use crate::text::{lowercased, to_ascii_lowercase};

verus! {

/// `rustc_hash::FxBuildHasher`: the hasher of the tag sets, never looked
/// into.
#[verifier::external_type_specification]
#[verifier::external_body]
pub struct ExFxBuildHasher(FxBuildHasher);

/// The names that a tag set holds.
pub uninterp spec fn tag_names(set: HashSet<String, FxBuildHasher>) -> Set<Seq<char>>;

/// `FxHashSet::default`: a set that holds nothing.
#[verifier::external_body]
pub(crate) fn empty_set() -> (set: FxHashSet<String>)
    ensures
        tag_names(set) == Set::<Seq<char>>::empty(),
{
    FxHashSet::default()
}

/// `HashSet::insert`: the set gains the name; the result tells whether it
/// was new.
#[verifier::external_body]
pub(crate) fn insert_name(set: &mut FxHashSet<String>, name: String) -> (fresh: bool)
    ensures
        tag_names(*final(set)) == tag_names(*old(set)).insert(name@),
        fresh == !tag_names(*old(set)).contains(name@),
{
    set.insert(name)
}

/// `HashSet::iter`, each name copied: every name of the set once, in no
/// stated order.
#[verifier::external_body]
pub(crate) fn list_names(set: &FxHashSet<String>) -> (names: Vec<String>)
    ensures
        names.deep_view().no_duplicates(),
        names.deep_view().to_set() == tag_names(*set),
{
    set.iter().map(|name| name.clone()).collect()
}

/// The tag names that a list of category names gives: each non-empty name in
/// ASCII lower case.
pub open spec fn category_tags(categories: Seq<Seq<char>>) -> Set<Seq<char>> {
    Set::new(
        |tag: Seq<char>|
            exists|i: int|
                0 <= i < categories.len() && categories[i].len() > 0 && tag == lowercased(
                    #[trigger] categories[i],
                ),
    )
}

/// The tag set of a feed entry's categories.
pub fn tags_of_categories(categories: &Vec<String>) -> (set: FxHashSet<String>)
    ensures
        tag_names(set) == category_tags(categories.deep_view()),
{
    let mut set = empty_set();
    let mut i: usize = 0;
    while i < categories.len()
        invariant
            0 <= i <= categories.len(),
            tag_names(set) == category_tags(categories.deep_view().take(i as int)),
        decreases categories.len() - i,
    {
        let ghost before = tag_names(set);
        let name = &categories[i];
        if !name.as_str().is_empty() {
            let tag = to_ascii_lowercase(name.as_str());
            insert_name(&mut set, tag);
        }
        proof {
            let all = categories.deep_view();
            let head = all.take(i as int);
            let next = all.take(i + 1);
            assert(next == head.push(all[i as int]));
            assert forall|tag: Seq<char>| #[trigger]
                category_tags(next).contains(tag) <==> (category_tags(head).contains(tag) || (
                all[i as int].len() > 0 && tag == lowercased(all[i as int]))) by {
                if category_tags(next).contains(tag) {
                    let j = choose|j: int|
                        0 <= j < next.len() && next[j].len() > 0 && tag == lowercased(
                            #[trigger] next[j],
                        );
                    if j < i {
                        assert(head[j] == next[j]);
                    }
                }
                if category_tags(head).contains(tag) {
                    let j = choose|j: int|
                        0 <= j < head.len() && head[j].len() > 0 && tag == lowercased(
                            #[trigger] head[j],
                        );
                    assert(next[j] == head[j]);
                }
                if all[i as int].len() > 0 && tag == lowercased(all[i as int]) {
                    assert(next[i as int] == all[i as int]);
                }
            }
            assert(tag_names(set) =~= category_tags(next));
        }
        i = i + 1;
    }
    proof {
        assert(categories.deep_view().take(categories.len() as int) == categories.deep_view());
    }
    set
}

/// Adds every name of `from` to `into`.
pub fn union_names(into: &mut FxHashSet<String>, from: &FxHashSet<String>)
    ensures
        tag_names(*final(into)) == tag_names(*old(into)).union(tag_names(*from)),
{
    let names = list_names(from);
    let ghost start = tag_names(*into);
    let ghost all = names.deep_view();
    let mut i: usize = 0;
    while i < names.len()
        invariant
            0 <= i <= names.len(),
            all == names.deep_view(),
            tag_names(*into) == start.union(all.take(i as int).to_set()),
        decreases names.len() - i,
    {
        insert_name(into, names[i].clone());
        proof {
            assert(all.take(i + 1) == all.take(i as int).push(all[i as int]));
            lemma_to_set_push(all.take(i as int), all[i as int]);
            assert(tag_names(*into) =~= start.union(all.take(i + 1).to_set()));
        }
        i = i + 1;
    }
    proof {
        assert(all.take(names.len() as int) == all);
    }
}

/// The names of a set as a list: each once, in no stated order.
pub fn names_of(set: &FxHashSet<String>) -> (names: Vec<String>)
    ensures
        names.deep_view().no_duplicates(),
        names.deep_view().to_set() == tag_names(*set),
{
    list_names(set)
}

/// The members of a list with one more pushed are the members of the list
/// and that one.
pub proof fn lemma_to_set_push<T>(list: Seq<T>, last: T)
    ensures
        list.push(last).to_set() == list.to_set().insert(last),
{
    let longer = list.push(last);
    assert forall|x: T| longer.to_set().contains(x) <==> list.to_set().insert(last).contains(
        x,
    ) by {
        if longer.to_set().contains(x) {
            let i = choose|i: int| 0 <= i < longer.len() && longer[i] == x;
            if i < list.len() {
                assert(list[i] == x);
            }
        }
        if list.to_set().contains(x) {
            let i = choose|i: int| 0 <= i < list.len() && list[i] == x;
            assert(longer[i] == x);
        }
        if x == last {
            assert(longer[list.len() as int] == x);
        }
    }
    assert(longer.to_set() =~= list.to_set().insert(last));
}

} // verus!
