//! Ingestion: what is written to the store for one polled source.
//!
//! The tags of the whole batch are created first, then the source's
//! bookkeeping is written, then each kept entry is inserted in turn and,
//! where the insert succeeded, linked to its own tags and to the source's.

use rustc_hash::FxHashSet;
use vstd::prelude::*;

use crate::db::source::SourceView;
use crate::db::tag::plain_tag;
use crate::db::{DbError, Source, Tag, ViolationKind};
use crate::enrich::{batch_view, EnrichedItem, EnrichedView};
use crate::feed::{Channel, ChannelView};
use crate::tags::{empty_set, insert_name, lemma_to_set_push, list_names, tag_names, union_names};
use crate::text::{decimal_i64, parse_i64};
use crate::time::{optional_date, read_date, Timestamp};

verus! {

/// When the feed says it was published; a feed that does not say, or says
/// it unreadably, counts as published now.
pub open spec fn published_at(pub_date: Option<Seq<char>>, now: Timestamp) -> Timestamp {
    match optional_date(pub_date) {
        Some(date) => date.utc,
        None => now,
    }
}

/// The minutes between polls that the feed asks for, if it asks readably.
pub open spec fn interval_of(ttl: Option<Seq<char>>) -> Option<i64> {
    match ttl {
        Some(text) => decimal_i64(text),
        None => None,
    }
}

/// A source after a poll at `now`: publication time and interval as the
/// feed gives them, polled at `now`, everything else as it was.
pub open spec fn refreshed(source: SourceView, channel: ChannelView, now: Timestamp) -> SourceView {
    SourceView {
        last_pub: published_at(channel.pub_date, now),
        last_poll: Some(now),
        ttl: interval_of(channel.ttl),
        ..source
    }
}

/// A new source after its feed was first read: publication time and
/// interval as the feed gives them, everything else as it was.
pub open spec fn described(source: SourceView, channel: ChannelView, now: Timestamp) -> SourceView {
    SourceView {
        last_pub: published_at(channel.pub_date, now),
        ttl: interval_of(channel.ttl),
        ..source
    }
}

/// The publication time that a feed gives, or `now`.
pub fn channel_last_pub(channel: &Channel, now: Timestamp) -> (at: Timestamp)
    ensures
        at == published_at(channel@.pub_date, now),
{
    match read_date(&channel.pub_date) {
        Some(date) => date.utc,
        None => now,
    }
}

/// The poll interval that a feed gives.
pub fn channel_ttl(channel: &Channel) -> (ttl: Option<i64>)
    ensures
        ttl == interval_of(channel@.ttl),
{
    match &channel.ttl {
        Some(text) => parse_i64(text.as_str()),
        None => None,
    }
}

/// Writes into a source what a poll at `now` found out about it.
pub fn record_poll(source: &mut Source, channel: &Channel, now: Timestamp)
    ensures
        final(source)@ == refreshed(old(source)@, channel@, now),
{
    source.last_pub = channel_last_pub(channel, now);
    source.last_poll = Some(now);
    source.ttl = channel_ttl(channel);
}

/// The names of a list of tags.
pub open spec fn tag_name_list(tags: Seq<Tag>) -> Seq<Seq<char>> {
    tags.map_values(|tag: Tag| tag.name@)
}

/// Every tag name that some kept entry of the batch carries.
pub open spec fn batch_tags(batch: Seq<EnrichedView>) -> Set<Seq<char>> {
    Set::new(|name: Seq<char>| exists|i: int| 0 <= i < batch.len() && #[trigger] batch[i].tags.contains(name))
}

/// The tag names of a whole batch.
pub fn batch_tag_names(batch: &Vec<EnrichedItem>) -> (names: FxHashSet<String>)
    ensures
        tag_names(names) == batch_tags(batch_view(batch@)),
{
    let mut names = empty_set();
    let ghost all = batch_view(batch@);
    let mut i: usize = 0;
    while i < batch.len()
        invariant
            0 <= i <= batch.len(),
            all == batch_view(batch@),
            tag_names(names) == batch_tags(all.take(i as int)),
        decreases batch.len() - i,
    {
        union_names(&mut names, &batch[i].tags);
        proof {
            let head = all.take(i as int);
            let next = all.take(i + 1);
            assert(all[i as int] == batch[i as int]@);
            assert forall|name: Seq<char>| #[trigger]
                batch_tags(next).contains(name) <==> (batch_tags(head).contains(name)
                    || all[i as int].tags.contains(name)) by {
                if batch_tags(next).contains(name) {
                    let j = choose|j: int| 0 <= j < next.len() && #[trigger] next[j].tags.contains(name);
                    if j < i {
                        assert(head[j].tags.contains(name));
                    }
                }
                if batch_tags(head).contains(name) {
                    let j = choose|j: int| 0 <= j < head.len() && #[trigger] head[j].tags.contains(name);
                    assert(next[j].tags.contains(name));
                }
                if all[i as int].tags.contains(name) {
                    assert(next[i as int].tags.contains(name));
                }
            }
            assert(tag_names(names) =~= batch_tags(next));
        }
        i = i + 1;
    }
    proof {
        assert(all.take(batch.len() as int) == all);
    }
    names
}

/// The tags to create for a batch: one for each tag name of the batch,
/// without colors, stamped `now`.
pub fn new_tags(batch: &Vec<EnrichedItem>, now: Timestamp) -> (tags: Vec<Tag>)
    ensures
        forall|i: int| 0 <= i < tags.len() ==> (#[trigger] tags[i])@ == plain_tag(tags[i].name@, now),
        tag_name_list(tags@).no_duplicates(),
        tag_name_list(tags@).to_set() == batch_tags(batch_view(batch@)),
{
    let set = batch_tag_names(batch);
    let names = list_names(&set);
    let mut tags: Vec<Tag> = Vec::new();
    let mut i: usize = 0;
    while i < names.len()
        invariant
            0 <= i <= names.len(),
            forall|k: int| 0 <= k < tags.len() ==> (#[trigger] tags[k])@ == plain_tag(tags[k].name@, now),
            tag_name_list(tags@) == names.deep_view().take(i as int),
        decreases names.len() - i,
    {
        let tag = Tag::plain(names[i].clone(), now);
        let ghost before = tags@;
        let ghost name = tag.name@;
        tags.push(tag);
        proof {
            assert(name == names.deep_view()[i as int]);
            assert(tag_name_list(tags@) =~= tag_name_list(before).push(name));
            assert(names.deep_view().take(i + 1) =~= names.deep_view().take(i as int).push(name));
        }
        i = i + 1;
    }
    proof {
        assert(names.deep_view().take(names.len() as int) == names.deep_view());
    }
    tags
}

/// The names to link a newly inserted item to: the entry's own tags and the
/// tags of its source.
pub open spec fn linked_tags(entry_tags: Set<Seq<char>>, source_tags: Seq<Seq<char>>) -> Set<
    Seq<char>,
> {
    entry_tags.union(source_tags.to_set())
}

/// The tag names to link a newly inserted item to, each once.
pub fn tags_to_link(entry_tags: &FxHashSet<String>, source_tags: &Vec<Tag>) -> (names: Vec<String>)
    ensures
        names.deep_view().no_duplicates(),
        names.deep_view().to_set() == linked_tags(
            tag_names(*entry_tags),
            tag_name_list(source_tags@),
        ),
{
    let mut set = empty_set();
    union_names(&mut set, entry_tags);
    let ghost own = tag_names(*entry_tags);
    let ghost all = tag_name_list(source_tags@);
    proof {
        assert(tag_names(set) =~= own.union(all.take(0).to_set()));
    }
    let mut i: usize = 0;
    while i < source_tags.len()
        invariant
            0 <= i <= source_tags.len(),
            all == tag_name_list(source_tags@),
            tag_names(set) == own.union(all.take(i as int).to_set()),
        decreases source_tags.len() - i,
    {
        insert_name(&mut set, source_tags[i].name.clone());
        proof {
            assert(all.take(i + 1) == all.take(i as int).push(all[i as int]));
            lemma_to_set_push(all.take(i as int), all[i as int]);
            assert(tag_names(set) =~= own.union(all.take(i + 1).to_set()));
        }
        i = i + 1;
    }
    proof {
        assert(all.take(source_tags.len() as int) == all);
    }
    list_names(&set)
}

/// How the insert of an item ended.
#[derive(Debug, Clone, Copy, PartialEq, Eq, Structural)]
pub enum InsertOutcome {
    /// The item is new; the store gave it this id.
    Inserted(i64),
    /// The store already holds an item with this link.
    Duplicate,
    /// The store failed in any other way.
    Failed,
}

/// A failed insert is a duplicate exactly when the database reported a
/// uniqueness violation.
pub open spec fn outcome_of_failure(kind: Option<ViolationKind>) -> InsertOutcome {
    if kind == Some(ViolationKind::Unique) {
        InsertOutcome::Duplicate
    } else {
        InsertOutcome::Failed
    }
}

/// Tells a duplicate from any other failed insert.
pub fn classify_failure(kind: Option<ViolationKind>) -> (outcome: InsertOutcome)
    ensures
        outcome == outcome_of_failure(kind),
{
    match kind {
        Some(ViolationKind::Unique) => InsertOutcome::Duplicate,
        _ => InsertOutcome::Failed,
    }
}

/// How an insert ended: the new id where the store gave one; else a
/// duplicate where the database reported a uniqueness violation, and a
/// failure in every other case.
pub open spec fn outcome_of(result: Result<i64, DbError>) -> InsertOutcome {
    match result {
        Ok(id) => InsertOutcome::Inserted(id),
        Err(error) => outcome_of_failure(error.reported()),
    }
}

/// How an insert ended, from what the store returned.
pub fn insert_outcome(result: &Result<i64, DbError>) -> (outcome: InsertOutcome)
    ensures
        outcome == outcome_of(*result),
{
    match result {
        Ok(id) => InsertOutcome::Inserted(*id),
        Err(error) => classify_failure(error.violation()),
    }
}

} // verus!
