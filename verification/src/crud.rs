//! What the listing and the creation of rows compute before and after the
//! store is asked.

use vstd::prelude::*;

use crate::db::item::{ItemView, ItemWTags};
use crate::db::{Item, Source};
use crate::feed::Channel;
use crate::ingest::{channel_last_pub, channel_ttl, described};
use crate::text::{split, split_on};
use crate::time::{Timespan, Timestamp};

verus! {

/// Which items a listing asks for: those created within the last
/// `from_last`, and those already done only on request.
#[derive(Debug)]
pub struct GetItemsQuery {
    pub from_last: Timespan,
    pub include_done: bool,
}

/// One listed item with the names of its tags.
#[derive(Debug)]
pub struct GetItemsReturn {
    pub item: Item,
    pub tags: Vec<String>,
}

/// A listed item as plain values.
pub struct ReturnView {
    pub item: ItemView,
    pub tags: Seq<Seq<char>>,
}

impl View for GetItemsReturn {
    type V = ReturnView;

    open spec fn view(&self) -> ReturnView {
        ReturnView { item: self.item@, tags: self.tags.deep_view() }
    }
}

/// The tag names that a row's joined names hold: the pieces between the
/// commas. A row without names counts as one with the empty text.
pub open spec fn listed_tags(joined: Option<Seq<char>>) -> Seq<Seq<char>> {
    match joined {
        Some(names) => split_on(names, ','),
        None => split_on(Seq::empty(), ','),
    }
}

/// A row of the feed query as it is listed.
pub open spec fn listed(row: ItemWTags) -> ReturnView {
    ReturnView { item: row.item@, tags: listed_tags(row.tags.deep_view()) }
}

/// The rows of the feed query as they are listed: each item with its tag
/// names taken apart, in the order of the rows.
pub fn get_items(rows: Vec<ItemWTags>) -> (list: Vec<GetItemsReturn>)
    ensures
        list@.map_values(|entry: GetItemsReturn| entry@) == rows@.map_values(
            |row: ItemWTags| listed(row),
        ),
{
    let mut list: Vec<GetItemsReturn> = Vec::new();
    let mut i: usize = 0;
    while i < rows.len()
        invariant
            0 <= i <= rows.len(),
            list@.map_values(|entry: GetItemsReturn| entry@) == rows@.map_values(
                |row: ItemWTags| listed(row),
            ).take(i as int),
        decreases rows.len() - i,
    {
        let row = &rows[i];
        let tags = match &row.tags {
            Some(names) => split(names.as_str(), ','),
            None => split("", ','),
        };
        proof {
            reveal_strlit("");
            assert(""@ =~= Seq::<char>::empty());
        }
        let ghost before = list@.map_values(|entry: GetItemsReturn| entry@);
        let entry = GetItemsReturn { item: row.item.duplicate(), tags };
        let ghost added = entry@;
        list.push(entry);
        proof {
            let all = rows@.map_values(|row: ItemWTags| listed(row));
            assert(added == all[i as int]);
            assert(list@.map_values(|entry: GetItemsReturn| entry@) =~= before.push(added));
            assert(all.take(i + 1) =~= all.take(i as int).push(all[i as int]));
        }
        i = i + 1;
    }
    proof {
        let all = rows@.map_values(|row: ItemWTags| listed(row));
        assert(all.take(rows.len() as int) == all);
    }
    list
}

/// Fills in what the feed says of a source that is about to be created: its
/// publication time and poll interval. Everything else stays as it was
/// given; the source counts as never polled until its first poll.
pub fn create_source(source: &mut Source, channel: &Channel, now: Timestamp)
    ensures
        final(source)@ == described(old(source)@, channel@, now),
{
    source.last_pub = channel_last_pub(channel, now);
    source.ttl = channel_ttl(channel);
}

} // verus!
