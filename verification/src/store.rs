//! The store as the poller relies on it, and what follows for a re-poll.
//!
//! The store keeps at most one item per link. An insert of an item whose
//! link is already kept changes nothing and is answered as a duplicate; any
//! other insert keeps the item under an id of the store's choosing. Linking
//! an id to tag names adds those names to the item with that id. This
//! module holds that contract as plain mathematics, lets the poller's own
//! rule run against it, and proves what a poll leaves behind.

use vstd::prelude::*;

use crate::db::item::ItemView;
use crate::enrich::{emitted, lemma_same_feed_same_links};
use crate::feed::FeedItemView;
use crate::ingest::{linked_tags, InsertOutcome};
use crate::poller::{
    insert_from, lemma_seek_fetches_or_sleeps, next, PollerView, RequestView, ResponseView, Turn,
};

verus! {

/// One kept item and the tag names linked to it.
pub struct Stored {
    pub item: ItemView,
    pub tags: Set<Seq<char>>,
}

/// What the store keeps, by link.
pub struct StoreView {
    pub rows: Map<Seq<char>, Stored>,
}

/// The store's answer to a request. `id_of` is the id that the store gives
/// to a new item with a given link.
pub open spec fn answer(
    store: StoreView,
    request: RequestView,
    id_of: spec_fn(Seq<char>) -> i64,
) -> ResponseView {
    match request {
        RequestView::InsertItem(item) => if store.rows.contains_key(item.link) {
            ResponseView::Insert(InsertOutcome::Duplicate)
        } else {
            ResponseView::Insert(InsertOutcome::Inserted(id_of(item.link)))
        },
        _ => ResponseView::Done,
    }
}

/// The store after a request.
pub open spec fn effect(
    store: StoreView,
    request: RequestView,
    id_of: spec_fn(Seq<char>) -> i64,
) -> StoreView {
    match request {
        RequestView::InsertItem(item) => if store.rows.contains_key(item.link) {
            store
        } else {
            StoreView {
                rows: store.rows.insert(
                    item.link,
                    Stored { item: ItemView { id: id_of(item.link), ..item }, tags: Set::empty() },
                ),
            }
        },
        RequestView::LinkTags(id, names) => StoreView {
            rows: Map::new(
                |link: Seq<char>| store.rows.contains_key(link),
                |link: Seq<char>|
                    if id_of(link) == id {
                        Stored { tags: store.rows[link].tags.union(names), ..store.rows[link] }
                    } else {
                        store.rows[link]
                    },
            ),
        },
        _ => store,
    }
}

/// The store after the poller has worked through the entries of a batch:
/// as long as the poller asks for an insert or a link, the store answers and
/// the poller's rule gives the next request. `fuel` bounds the number of
/// requests; two for each entry are enough.
pub open spec fn settle(
    turn: Turn,
    store: StoreView,
    id_of: spec_fn(Seq<char>) -> i64,
    fuel: nat,
) -> StoreView
    decreases fuel,
{
    if fuel == 0 {
        store
    } else if turn.request is InsertItem || turn.request is LinkTags {
        settle(
            next(turn.state, answer(store, turn.request, id_of)),
            effect(store, turn.request, id_of),
            id_of,
            (fuel - 1) as nat,
        )
    } else {
        store
    }
}

/// Whether no two links share an id.
pub open spec fn distinct_ids(id_of: spec_fn(Seq<char>) -> i64) -> bool {
    forall|a: Seq<char>, b: Seq<char>| #[trigger] id_of(a) == #[trigger] id_of(b) ==> a == b
}

/// What the store keeps, it keeps: no request removes a link.
pub proof fn lemma_settle_keeps_links(
    turn: Turn,
    store: StoreView,
    id_of: spec_fn(Seq<char>) -> i64,
    fuel: nat,
    link: Seq<char>,
)
    requires
        store.rows.contains_key(link),
    ensures
        settle(turn, store, id_of, fuel).rows.contains_key(link),
    decreases fuel,
{
    if fuel > 0 && (turn.request is InsertItem || turn.request is LinkTags) {
        lemma_settle_keeps_links(
            next(turn.state, answer(store, turn.request, id_of)),
            effect(store, turn.request, id_of),
            id_of,
            (fuel - 1) as nat,
            link,
        );
    }
}

/// Entries whose links are all kept already leave the store as it is: each
/// insert is answered as a duplicate, and nothing is linked.
pub proof fn lemma_duplicates_change_nothing(
    state: PollerView,
    index: int,
    store: StoreView,
    id_of: spec_fn(Seq<char>) -> i64,
    fuel: nat,
)
    requires
        0 <= index,
        forall|i: int|
            index <= i < state.batch.len() ==> store.rows.contains_key(
                #[trigger] state.batch[i].item.link,
            ),
    ensures
        settle(insert_from(state, index), store, id_of, fuel) == store,
    decreases state.batch.len() - index, fuel,
{
    if index >= state.batch.len() {
        lemma_seek_fetches_or_sleeps(state, state.position + 1);
    } else if fuel > 0 {
        let turn = insert_from(state, index);
        assert(store.rows.contains_key(state.batch[index].item.link));
        assert(next(turn.state, answer(store, turn.request, id_of)) == insert_from(
            turn.state,
            index + 1,
        ));
        lemma_duplicates_change_nothing(turn.state, index + 1, store, id_of, (fuel - 1) as nat);
    }
}

/// After the poller has worked through a batch, the store keeps every link
/// of the batch.
pub proof fn lemma_batch_is_kept(
    state: PollerView,
    index: int,
    store: StoreView,
    id_of: spec_fn(Seq<char>) -> i64,
    fuel: nat,
    entry: int,
)
    requires
        0 <= index <= entry < state.batch.len(),
        fuel >= 2 * (state.batch.len() - index),
    ensures
        settle(insert_from(state, index), store, id_of, fuel).rows.contains_key(
            state.batch[entry].item.link,
        ),
    decreases state.batch.len() - index,
{
    let turn = insert_from(state, index);
    let link = state.batch[index].item.link;
    let asked = answer(store, turn.request, id_of);
    let kept = effect(store, turn.request, id_of);
    assert(kept.rows.contains_key(link));
    if store.rows.contains_key(link) {
        assert(next(turn.state, asked) == insert_from(turn.state, index + 1));
        if entry == index {
            lemma_settle_keeps_links(
                insert_from(turn.state, index + 1),
                kept,
                id_of,
                (fuel - 1) as nat,
                link,
            );
        } else {
            lemma_batch_is_kept(turn.state, index + 1, kept, id_of, (fuel - 1) as nat, entry);
        }
    } else {
        let linking = next(turn.state, asked);
        assert(linking.request is LinkTags);
        let linked = effect(kept, linking.request, id_of);
        assert(linked.rows.contains_key(link));
        let after = next(linking.state, answer(kept, linking.request, id_of));
        assert(after == insert_from(linking.state, index + 1));
        assert(settle(turn, store, id_of, fuel) == settle(linking, kept, id_of, (fuel - 1) as nat));
        assert(settle(linking, kept, id_of, (fuel - 1) as nat) == settle(
            after,
            linked,
            id_of,
            (fuel - 2) as nat,
        ));
        if entry == index {
            lemma_settle_keeps_links(after, linked, id_of, (fuel - 2) as nat, link);
        } else {
            lemma_batch_is_kept(linking.state, index + 1, linked, id_of, (fuel - 2) as nat, entry);
        }
    }
}

/// Polling again inserts nothing: once the poller has worked through a
/// batch, working through a batch with the same links, or some of them,
/// finds every insert answered as a duplicate and leaves the store exactly
/// as it was.
pub proof fn lemma_repoll_inserts_nothing(
    first: PollerView,
    second: PollerView,
    store: StoreView,
    id_of: spec_fn(Seq<char>) -> i64,
    fuel: nat,
    again: nat,
)
    requires
        fuel >= 2 * first.batch.len(),
        forall|i: int|
            0 <= i < second.batch.len() ==> exists|j: int|
                0 <= j < first.batch.len() && (#[trigger] first.batch[j]).item.link == (
                #[trigger] second.batch[i]).item.link,
    ensures
        ({
            let after = settle(insert_from(first, 0), store, id_of, fuel);
            &&& settle(insert_from(second, 0), after, id_of, again) == after
            &&& forall|i: int|
                0 <= i < second.batch.len() ==> answer(
                    after,
                    RequestView::InsertItem(#[trigger] second.batch[i].item),
                    id_of,
                ) == ResponseView::Insert(InsertOutcome::Duplicate)
        }),
{
    let after = settle(insert_from(first, 0), store, id_of, fuel);
    assert forall|i: int| 0 <= i < second.batch.len() implies after.rows.contains_key(
        #[trigger] second.batch[i].item.link,
    ) by {
        let j = choose|j: int|
            0 <= j < first.batch.len() && (#[trigger] first.batch[j]).item.link
                == second.batch[i].item.link;
        lemma_batch_is_kept(first, 0, store, id_of, fuel, j);
    }
    lemma_duplicates_change_nothing(second, 0, after, id_of, again);
}

/// Polling a source again while its feed is unchanged inserts nothing: with
/// the same entries, the same pages and the same cutoff, the second poll
/// finds every insert answered as a duplicate and leaves the store exactly
/// as the first poll left it.
pub proof fn lemma_repoll_of_unchanged_feed(
    first: PollerView,
    second: PollerView,
    entries: Seq<FeedItemView>,
    pages: Seq<Option<Seq<char>>>,
    store: StoreView,
    id_of: spec_fn(Seq<char>) -> i64,
    fuel: nat,
    again: nat,
)
    requires
        first.polling() && first.wf(),
        second.polling() && second.wf(),
        first.source().min_date == second.source().min_date,
        first.batch == emitted(first.source(), entries, pages, first.now),
        second.batch == emitted(second.source(), entries, pages, second.now),
        fuel >= 2 * first.batch.len(),
    ensures
        ({
            let after = settle(insert_from(first, 0), store, id_of, fuel);
            &&& settle(insert_from(second, 0), after, id_of, again) == after
            &&& forall|i: int|
                0 <= i < second.batch.len() ==> answer(
                    after,
                    RequestView::InsertItem(#[trigger] second.batch[i].item),
                    id_of,
                ) == ResponseView::Insert(InsertOutcome::Duplicate)
        }),
{
    lemma_same_feed_same_links(
        first.source(),
        second.source(),
        entries,
        pages,
        first.now,
        second.now,
        entries.len() as int,
    );
    assert forall|i: int| 0 <= i < second.batch.len() implies exists|j: int|
        0 <= j < first.batch.len() && (#[trigger] first.batch[j]).item.link == (
        #[trigger] second.batch[i]).item.link by {
        assert(first.batch[i].item.link == second.batch[i].item.link);
    }
    lemma_repoll_inserts_nothing(first, second, store, id_of, fuel, again);
}

/// An item that the store keeps is left as it is by the entries that are
/// worked through later, as long as the store gives no id twice.
pub proof fn lemma_later_entries_leave_item(
    state: PollerView,
    index: int,
    store: StoreView,
    id_of: spec_fn(Seq<char>) -> i64,
    fuel: nat,
    link: Seq<char>,
)
    requires
        0 <= index,
        distinct_ids(id_of),
        store.rows.contains_key(link),
    ensures
        settle(insert_from(state, index), store, id_of, fuel).rows[link] == store.rows[link],
    decreases state.batch.len() - index, fuel,
{
    if index >= state.batch.len() {
        lemma_seek_fetches_or_sleeps(state, state.position + 1);
    } else if fuel > 0 {
        let turn = insert_from(state, index);
        let other = state.batch[index].item.link;
        let asked = answer(store, turn.request, id_of);
        let kept = effect(store, turn.request, id_of);
        if store.rows.contains_key(other) {
            assert(next(turn.state, asked) == insert_from(turn.state, index + 1));
            lemma_later_entries_leave_item(
                turn.state,
                index + 1,
                store,
                id_of,
                (fuel - 1) as nat,
                link,
            );
        } else {
            let linking = next(turn.state, asked);
            assert(linking.request is LinkTags);
            let linked = effect(kept, linking.request, id_of);
            assert(id_of(link) != id_of(other));
            assert(linked.rows[link] == store.rows[link]);
            assert(linked.rows.contains_key(link));
            assert(settle(turn, store, id_of, fuel) == settle(
                linking,
                kept,
                id_of,
                (fuel - 1) as nat,
            ));
            if fuel > 1 {
                let after = next(linking.state, answer(kept, linking.request, id_of));
                assert(after == insert_from(linking.state, index + 1));
                assert(settle(linking, kept, id_of, (fuel - 1) as nat) == settle(
                    after,
                    linked,
                    id_of,
                    (fuel - 2) as nat,
                ));
                lemma_later_entries_leave_item(
                    linking.state,
                    index + 1,
                    linked,
                    id_of,
                    (fuel - 2) as nat,
                    link,
                );
            }
        }
    }
}

/// A new item ends up linked to exactly its entry's tags and its source's:
/// where the store gives no id twice and did not keep the entry's link
/// before, the poller leaves that link kept with the entry's item, under
/// the store's id, and with those tag names and no others.
pub proof fn lemma_new_item_is_linked(
    state: PollerView,
    index: int,
    store: StoreView,
    id_of: spec_fn(Seq<char>) -> i64,
    fuel: nat,
    entry: int,
)
    requires
        0 <= index <= entry < state.batch.len(),
        fuel >= 2 * (state.batch.len() - index),
        distinct_ids(id_of),
        !store.rows.contains_key(state.batch[entry].item.link),
        forall|k: int|
            index <= k < entry ==> (#[trigger] state.batch[k]).item.link
                != state.batch[entry].item.link,
    ensures
        ({
            let link = state.batch[entry].item.link;
            let after = settle(insert_from(state, index), store, id_of, fuel);
            &&& after.rows.contains_key(link)
            &&& after.rows[link].item == ItemView { id: id_of(link), ..state.batch[entry].item }
            &&& after.rows[link].tags == linked_tags(state.batch[entry].tags, state.source_tags)
        }),
    decreases state.batch.len() - index,
{
    let link = state.batch[entry].item.link;
    let turn = insert_from(state, index);
    let other = state.batch[index].item.link;
    let asked = answer(store, turn.request, id_of);
    let kept = effect(store, turn.request, id_of);
    if store.rows.contains_key(other) {
        assert(index < entry);
        assert(next(turn.state, asked) == insert_from(turn.state, index + 1));
        lemma_new_item_is_linked(turn.state, index + 1, store, id_of, (fuel - 1) as nat, entry);
    } else {
        let linking = next(turn.state, asked);
        assert(linking.request is LinkTags);
        let linked = effect(kept, linking.request, id_of);
        let after = next(linking.state, answer(kept, linking.request, id_of));
        assert(after == insert_from(linking.state, index + 1));
        assert(settle(turn, store, id_of, fuel) == settle(linking, kept, id_of, (fuel - 1) as nat));
        assert(settle(linking, kept, id_of, (fuel - 1) as nat) == settle(
            after,
            linked,
            id_of,
            (fuel - 2) as nat,
        ));
        if index == entry {
            assert(linked.rows.contains_key(link));
            assert(linked.rows[link].tags =~= linked_tags(
                state.batch[entry].tags,
                state.source_tags,
            ));
            lemma_settle_keeps_links(after, linked, id_of, (fuel - 2) as nat, link);
            lemma_later_entries_leave_item(
                linking.state,
                index + 1,
                linked,
                id_of,
                (fuel - 2) as nat,
                link,
            );
        } else {
            assert(state.batch[index].item.link != link);
            assert(!linked.rows.contains_key(link));
            lemma_new_item_is_linked(
                linking.state,
                index + 1,
                linked,
                id_of,
                (fuel - 2) as nat,
                entry,
            );
        }
    }
}

} // verus!
