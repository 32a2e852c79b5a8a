//! Enrichment: what each entry of a fetched feed contributes, given the page
//! that its link leads to.
//!
//! Every entry is judged alone: whether it is kept depends on the entry and
//! on its own page, never on another entry.

use rustc_hash::FxHashSet;
use vstd::prelude::*;

use crate::db::item::ItemView;
use crate::db::source::SourceView;
use crate::db::{Item, Source};
use crate::feed::{Channel, FeedItem, FeedItemView};
use crate::tags::{category_tags, tag_names, tags_of_categories};
use crate::text::clone_optional;
use crate::thumbnail::{get_image_from_link, image_of_page};
use crate::time::{optional_date, read_date, FeedDate, Timestamp};

verus! {

/// An entry that is kept: the item to store and the tags of its categories.
#[derive(Debug)]
pub struct EnrichedItem {
    pub item: Item,
    pub tags: FxHashSet<String>,
}

/// A kept entry as plain values.
pub struct EnrichedView {
    pub item: ItemView,
    pub tags: Set<Seq<char>>,
}

impl View for EnrichedItem {
    type V = EnrichedView;

    open spec fn view(&self) -> EnrichedView {
        EnrichedView { item: self.item@, tags: tag_names(self.tags) }
    }
}

/// The kept entries of a batch as plain values.
pub open spec fn batch_view(batch: Seq<EnrichedItem>) -> Seq<EnrichedView> {
    batch.map_values(|entry: EnrichedItem| entry@)
}

/// An entry is stale when the source has a cutoff, the entry has a readable
/// date, and that date, on the entry's own wall clock, lies before the
/// cutoff.
pub open spec fn is_stale(min_date: Option<Timestamp>, date: Option<FeedDate>) -> bool {
    min_date is Some && date is Some && date->0.local.before(min_date->0)
}

/// The link whose page is to be fetched for an entry: the entry's link,
/// unless the entry has none or is stale.
pub open spec fn wanted_link(min_date: Option<Timestamp>, entry: FeedItemView) -> Option<
    Seq<char>,
> {
    if entry.link is Some && !is_stale(min_date, optional_date(entry.pub_date)) {
        entry.link
    } else {
        None
    }
}

/// The item that an entry becomes.
pub open spec fn item_of_entry(
    source: SourceView,
    entry: FeedItemView,
    page: Seq<char>,
    now: Timestamp,
) -> ItemView {
    ItemView {
        id: 0,
        link: entry.link->0,
        title: entry.title,
        description: entry.description,
        author: entry.author,
        published: match optional_date(entry.pub_date) {
            Some(date) => Some(date.local),
            None => None,
        },
        source_link: Some(source.url),
        image: image_of_page(page),
        favorite: false,
        done: false,
        created_at: now,
        updated_at: now,
        source_id: Some(source.id),
    }
}

/// What an entry contributes: nothing if it has no link, is stale, or its
/// page could not be fetched; else its item and the tags of its categories.
pub open spec fn enriched(
    source: SourceView,
    entry: FeedItemView,
    page: Option<Seq<char>>,
    now: Timestamp,
) -> Option<EnrichedView> {
    if wanted_link(source.min_date, entry) is Some && page is Some {
        Some(
            EnrichedView {
                item: item_of_entry(source, entry, page->0, now),
                tags: category_tags(entry.categories),
            },
        )
    } else {
        None
    }
}

/// The page that belongs to the entry at `index`; an entry without one
/// counts as not fetched.
pub open spec fn page_at(pages: Seq<Option<Seq<char>>>, index: int) -> Option<Seq<char>> {
    if 0 <= index < pages.len() {
        pages[index]
    } else {
        None
    }
}

/// What the entry at `index` contributes.
pub open spec fn enriched_at(
    source: SourceView,
    entries: Seq<FeedItemView>,
    pages: Seq<Option<Seq<char>>>,
    now: Timestamp,
    index: int,
) -> Option<EnrichedView> {
    enriched(source, entries[index], page_at(pages, index), now)
}

/// What the first `count` entries contribute, in their order.
pub open spec fn emitted_prefix(
    source: SourceView,
    entries: Seq<FeedItemView>,
    pages: Seq<Option<Seq<char>>>,
    now: Timestamp,
    count: int,
) -> Seq<EnrichedView>
    decreases count,
{
    if count <= 0 {
        Seq::empty()
    } else {
        let before = emitted_prefix(source, entries, pages, now, count - 1);
        match enriched_at(source, entries, pages, now, count - 1) {
            Some(kept) => before.push(kept),
            None => before,
        }
    }
}

/// What a feed contributes: the contribution of each entry that has one, in
/// the order of the entries.
pub open spec fn emitted(
    source: SourceView,
    entries: Seq<FeedItemView>,
    pages: Seq<Option<Seq<char>>>,
    now: Timestamp,
) -> Seq<EnrichedView> {
    emitted_prefix(source, entries, pages, now, entries.len() as int)
}

/// The links to fetch for a feed, entry by entry.
pub open spec fn wanted_links(min_date: Option<Timestamp>, entries: Seq<FeedItemView>) -> Seq<
    Option<Seq<char>>,
> {
    entries.map_values(|entry: FeedItemView| wanted_link(min_date, entry))
}

/// Whether an entry's date puts it before the source's cutoff: the source
/// has a cutoff, the entry has a date, and the date on the entry's own wall
/// clock lies before the cutoff.
pub fn stale(min_date: Option<Timestamp>, date: Option<FeedDate>) -> (r: bool)
    ensures
        r == is_stale(min_date, date),
{
    match (min_date, date) {
        (Some(cutoff), Some(date)) => date.local.is_before(&cutoff),
        _ => false,
    }
}

/// For each entry of the feed, the link whose page is to be fetched, or none
/// where the entry is dropped without a fetch.
pub fn links_to_fetch(source: &Source, channel: &Channel) -> (links: Vec<Option<String>>)
    ensures
        links.deep_view() == wanted_links(source.min_date, channel@.items),
{
    let mut links: Vec<Option<String>> = Vec::new();
    let mut i: usize = 0;
    while i < channel.items.len()
        invariant
            0 <= i <= channel.items.len(),
            links.deep_view() == wanted_links(source.min_date, channel@.items).take(i as int),
        decreases channel.items.len() - i,
    {
        let entry = &channel.items[i];
        let date = read_date(&entry.pub_date);
        let link = if entry.link.is_some() && !stale(source.min_date, date) {
            clone_optional(&entry.link)
        } else {
            None
        };
        proof {
            let all = wanted_links(source.min_date, channel@.items);
            assert(channel@.items[i as int] == entry@);
            assert(all.take(i + 1) == all.take(i as int).push(all[i as int]));
        }
        links.push(link);
        proof {
            assert(links.deep_view() =~= wanted_links(source.min_date, channel@.items).take(
                i + 1,
            ));
        }
        i = i + 1;
    }
    proof {
        let all = wanted_links(source.min_date, channel@.items);
        assert(all.take(channel.items.len() as int) == all);
    }
    links
}

/// What one entry contributes, given its page: `None` for the page means
/// that the fetch failed.
pub fn enrich_item(source: &Source, entry: &FeedItem, page: &Option<String>, now: Timestamp) -> (r:
    Option<EnrichedItem>)
    ensures
        match r {
            Some(kept) => enriched(source@, entry@, page.deep_view(), now) == Some(kept@),
            None => enriched(source@, entry@, page.deep_view(), now) is None,
        },
{
    let link = match &entry.link {
        Some(link) => link,
        None => {
            return None;
        },
    };
    let date = read_date(&entry.pub_date);
    if stale(source.min_date, date) {
        return None;
    }
    let page = match page {
        Some(page) => page,
        None => {
            return None;
        },
    };
    let item = Item {
        id: 0,
        link: link.clone(),
        title: clone_optional(&entry.title),
        description: clone_optional(&entry.description),
        author: clone_optional(&entry.author),
        published: match date {
            Some(date) => Some(date.local),
            None => None,
        },
        source_link: Some(source.url.clone()),
        image: get_image_from_link(page.as_str()),
        favorite: false,
        done: false,
        created_at: now,
        updated_at: now,
        source_id: Some(source.id),
    };
    let tags = tags_of_categories(&entry.categories);
    Some(EnrichedItem { item, tags })
}

/// What a feed contributes, given the page of each entry in the order of
/// the entries. A page that is missing, or `None`, means that the fetch
/// failed and drops that entry alone.
pub fn enrich(source: &Source, channel: &Channel, pages: &Vec<Option<String>>, now: Timestamp) -> (batch:
    Vec<EnrichedItem>)
    ensures
        batch_view(batch@) == emitted(source@, channel@.items, pages.deep_view(), now),
{
    let mut batch: Vec<EnrichedItem> = Vec::new();
    let missing: Option<String> = None;
    let mut i: usize = 0;
    while i < channel.items.len()
        invariant
            0 <= i <= channel.items.len(),
            missing is None,
            batch_view(batch@) == emitted_prefix(
                source@,
                channel@.items,
                pages.deep_view(),
                now,
                i as int,
            ),
        decreases channel.items.len() - i,
    {
        let page = if i < pages.len() {
            &pages[i]
        } else {
            &missing
        };
        proof {
            assert(page.deep_view() == page_at(pages.deep_view(), i as int));
            assert(channel@.items[i as int] == channel.items[i as int]@);
        }
        let ghost before = batch_view(batch@);
        match enrich_item(source, &channel.items[i], page, now) {
            Some(kept) => {
                batch.push(kept);
                proof {
                    assert(batch_view(batch@) =~= before.push(kept@));
                }
            },
            None => {},
        }
        i = i + 1;
    }
    batch
}

/// A kept entry is in what the feed contributes exactly when some entry
/// contributes it.
pub proof fn lemma_emitted_members(
    source: SourceView,
    entries: Seq<FeedItemView>,
    pages: Seq<Option<Seq<char>>>,
    now: Timestamp,
    count: int,
    kept: EnrichedView,
)
    requires
        0 <= count <= entries.len(),
    ensures
        emitted_prefix(source, entries, pages, now, count).contains(kept) <==> exists|i: int|
            0 <= i < count && #[trigger] enriched_at(source, entries, pages, now, i) == Some(kept),
    decreases count,
{
    if count > 0 {
        lemma_emitted_members(source, entries, pages, now, count - 1, kept);
        let before = emitted_prefix(source, entries, pages, now, count - 1);
        let all = emitted_prefix(source, entries, pages, now, count);
        let last = enriched_at(source, entries, pages, now, count - 1);
        if all.contains(kept) {
            let k = choose|k: int| 0 <= k < all.len() && all[k] == kept;
            if last is Some && k == before.len() {
                assert(enriched_at(source, entries, pages, now, count - 1) == Some(kept));
            } else {
                assert(before[k] == kept);
                assert(before.contains(kept));
            }
        }
        if exists|i: int|
            0 <= i < count && #[trigger] enriched_at(source, entries, pages, now, i) == Some(kept) {
            let i = choose|i: int|
                0 <= i < count && #[trigger] enriched_at(source, entries, pages, now, i) == Some(
                    kept,
                );
            if i == count - 1 {
                assert(all[before.len() as int] == kept);
            } else {
                assert(before.contains(kept));
                let k = choose|k: int| 0 <= k < before.len() && before[k] == kept;
                assert(all[k] == kept);
            }
        }
    }
}

/// A failed fetch drops its own entry and no other: with the page of one
/// entry lost, the feed contributes exactly what the other entries
/// contributed before.
pub proof fn lemma_failure_is_isolated(
    source: SourceView,
    entries: Seq<FeedItemView>,
    pages: Seq<Option<Seq<char>>>,
    now: Timestamp,
    failed: int,
    kept: EnrichedView,
)
    requires
        0 <= failed < pages.len(),
    ensures
        forall|i: int|
            i != failed ==> #[trigger] enriched_at(source, entries, pages.update(failed, None), now, i)
                == enriched_at(source, entries, pages, now, i),
        enriched_at(source, entries, pages.update(failed, None), now, failed) is None,
        emitted(source, entries, pages.update(failed, None), now).contains(kept) <==> exists|i: int|
            0 <= i < entries.len() && i != failed && #[trigger] enriched_at(
                source,
                entries,
                pages,
                now,
                i,
            ) == Some(kept),
{
    let lost = pages.update(failed, None);
    assert forall|i: int| i != failed implies #[trigger] enriched_at(source, entries, lost, now, i)
        == enriched_at(source, entries, pages, now, i) by {
        assert(page_at(lost, i) == page_at(pages, i));
    }
    assert(page_at(lost, failed) is None);
    lemma_emitted_members(source, entries, lost, now, entries.len() as int, kept);
    if emitted(source, entries, lost, now).contains(kept) {
        let i = choose|i: int|
            0 <= i < entries.len() && #[trigger] enriched_at(source, entries, lost, now, i) == Some(
                kept,
            );
        assert(i != failed);
        assert(enriched_at(source, entries, pages, now, i) == Some(kept));
    }
    if exists|i: int|
        0 <= i < entries.len() && i != failed && #[trigger] enriched_at(
            source,
            entries,
            pages,
            now,
            i,
        ) == Some(kept) {
        let i = choose|i: int|
            0 <= i < entries.len() && i != failed && #[trigger] enriched_at(
                source,
                entries,
                pages,
                now,
                i,
            ) == Some(kept);
        assert(enriched_at(source, entries, lost, now, i) == Some(kept));
    }
}

/// An entry dated before the source's cutoff contributes nothing, whatever
/// its page; an entry with a link, a fetched page and a date not before the
/// cutoff contributes an item published at that date.
pub proof fn lemma_stale_entries_are_dropped(
    source: SourceView,
    entry: FeedItemView,
    page: Option<Seq<char>>,
    now: Timestamp,
    cutoff: Timestamp,
    date: FeedDate,
)
    requires
        source.min_date == Some(cutoff),
        optional_date(entry.pub_date) == Some(date),
    ensures
        date.local.before(cutoff) ==> enriched(source, entry, page, now) is None,
        !date.local.before(cutoff) && entry.link is Some && page is Some ==> enriched(
            source,
            entry,
            page,
            now,
        ) is Some && enriched(source, entry, page, now)->0.item.published == Some(date.local),
{
}

/// An unchanged feed contributes the same links whenever it is polled: the
/// time of the poll, and everything about the source but its cutoff, change
/// nothing about which entries are kept and under which links.
pub proof fn lemma_same_feed_same_links(
    first: SourceView,
    second: SourceView,
    entries: Seq<FeedItemView>,
    pages: Seq<Option<Seq<char>>>,
    then: Timestamp,
    now: Timestamp,
    count: int,
)
    requires
        first.min_date == second.min_date,
    ensures
        emitted_prefix(first, entries, pages, then, count).len() == emitted_prefix(
            second,
            entries,
            pages,
            now,
            count,
        ).len(),
        forall|i: int|
            0 <= i < emitted_prefix(first, entries, pages, then, count).len() ==> (
            #[trigger] emitted_prefix(first, entries, pages, then, count)[i]).item.link
                == emitted_prefix(second, entries, pages, now, count)[i].item.link,
    decreases count,
{
    if count > 0 {
        lemma_same_feed_same_links(first, second, entries, pages, then, now, count - 1);
    }
}

} // verus!
