//! Preview: what a poll of a source would list, without storing anything.

use rustc_hash::FxHashSet;
use vstd::prelude::*;

use crate::crud::GetItemsReturn;
use crate::db::item::ItemView;
use crate::db::source::SourceView;
use crate::db::Source;
use crate::enrich::{enrich_item, enriched_at, EnrichedItem};
use crate::feed::{Channel, ChannelView};
use crate::tags::{category_tags, insert_name, lemma_to_set_push, list_names, tag_names};
use crate::time::Timestamp;

verus! {

/// A previewed item as plain values. The order of its tag names means
/// nothing.
pub struct PreviewView {
    pub item: ItemView,
    pub tags: Set<Seq<char>>,
}

/// The tag names of a previewed entry: the tags that a poll derives from
/// its own categories, each non-empty name in ASCII lower case, and the
/// feed's categories as they are written.
pub open spec fn preview_tags(entry: Seq<Seq<char>>, feed: Seq<Seq<char>>) -> Set<Seq<char>> {
    category_tags(entry).union(feed.to_set())
}

/// What the entry at `index` shows in a preview: nothing where a poll would
/// drop the entry, else the item that a poll would store, with the
/// preview's tag names.
pub open spec fn previewed_at(
    source: SourceView,
    channel: ChannelView,
    pages: Seq<Option<Seq<char>>>,
    now: Timestamp,
    index: int,
) -> Option<PreviewView> {
    match enriched_at(source, channel.items, pages, now, index) {
        Some(kept) => Some(
            PreviewView {
                item: kept.item,
                tags: preview_tags(channel.items[index].categories, channel.categories),
            },
        ),
        None => None,
    }
}

/// What the first `count` entries show in a preview, in their order.
pub open spec fn previewed_prefix(
    source: SourceView,
    channel: ChannelView,
    pages: Seq<Option<Seq<char>>>,
    now: Timestamp,
    count: int,
) -> Seq<PreviewView>
    decreases count,
{
    if count <= 0 {
        Seq::empty()
    } else {
        let before = previewed_prefix(source, channel, pages, now, count - 1);
        match previewed_at(source, channel, pages, now, count - 1) {
            Some(shown) => before.push(shown),
            None => before,
        }
    }
}

/// What a feed shows in a preview.
pub open spec fn previewed(
    source: SourceView,
    channel: ChannelView,
    pages: Seq<Option<Seq<char>>>,
    now: Timestamp,
) -> Seq<PreviewView> {
    previewed_prefix(source, channel, pages, now, channel.items.len() as int)
}

/// The entries of a preview as plain values.
pub open spec fn preview_views(list: Seq<GetItemsReturn>) -> Seq<PreviewView> {
    list.map_values(
        |entry: GetItemsReturn| PreviewView { item: entry.item@, tags: entry.tags.deep_view().to_set() },
    )
}

/// Adds each name to the set, as it is written.
fn insert_all(set: &mut FxHashSet<String>, names: &Vec<String>)
    ensures
        tag_names(*final(set)) == tag_names(*old(set)).union(names.deep_view().to_set()),
{
    let ghost start = tag_names(*set);
    let ghost all = names.deep_view();
    let mut i: usize = 0;
    proof {
        assert(tag_names(*set) =~= start.union(all.take(0).to_set()));
    }
    while i < names.len()
        invariant
            0 <= i <= names.len(),
            all == names.deep_view(),
            tag_names(*set) == start.union(all.take(i as int).to_set()),
        decreases names.len() - i,
    {
        insert_name(set, names[i].clone());
        proof {
            assert(all.take(i + 1) == all.take(i as int).push(all[i as int]));
            lemma_to_set_push(all.take(i as int), all[i as int]);
            assert(tag_names(*set) =~= start.union(all.take(i + 1).to_set()));
        }
        i = i + 1;
    }
    proof {
        assert(all.take(names.len() as int) == all);
    }
}

/// What a poll of the source at `now` would list, given its feed and the
/// page of each entry in the order of the entries: the items that the poll
/// would store, each with the tags that the poll would derive from its
/// categories and with the feed's own categories as tag names, each name
/// once. Nothing is stored.
pub fn preview_source(
    source: &Source,
    channel: &Channel,
    pages: &Vec<Option<String>>,
    now: Timestamp,
) -> (list: Vec<GetItemsReturn>)
    ensures
        preview_views(list@) == previewed(source@, channel@, pages.deep_view(), now),
        forall|i: int| 0 <= i < list.len() ==> (#[trigger] list[i]).tags.deep_view().no_duplicates(),
{
    let mut list: Vec<GetItemsReturn> = Vec::new();
    let missing: Option<String> = None;
    let mut i: usize = 0;
    while i < channel.items.len()
        invariant
            0 <= i <= channel.items.len(),
            missing is None,
            preview_views(list@) == previewed_prefix(
                source@,
                channel@,
                pages.deep_view(),
                now,
                i as int,
            ),
            forall|k: int|
                0 <= k < list.len() ==> (#[trigger] list[k]).tags.deep_view().no_duplicates(),
        decreases channel.items.len() - i,
    {
        let page = if i < pages.len() {
            &pages[i]
        } else {
            &missing
        };
        proof {
            assert(channel@.items[i as int] == channel.items[i as int]@);
        }
        match enrich_item(source, &channel.items[i], page, now) {
            Some(kept) => {
                let EnrichedItem { item, tags: mut set } = kept;
                insert_all(&mut set, &channel.categories);
                let tags = list_names(&set);
                proof {
                    assert(tags.deep_view().to_set() =~= preview_tags(
                        channel@.items[i as int].categories,
                        channel@.categories,
                    ));
                }
                let ghost before = preview_views(list@);
                let entry = GetItemsReturn { item, tags };
                let ghost shown = PreviewView {
                    item: entry.item@,
                    tags: entry.tags.deep_view().to_set(),
                };
                list.push(entry);
                proof {
                    assert(preview_views(list@) =~= before.push(shown));
                }
            },
            None => {},
        }
        i = i + 1;
    }
    list
}

} // verus!
