//! The poller: a state machine that decides, step by step, what is done
//! next in a poll cycle.
//!
//! The machine does nothing by itself. It hands out one [`Request`] at a
//! time; whoever drives it carries the request out and hands back a
//! [`Response`]. A cycle announces itself, lists the sources, and takes the
//! due ones in turn: fetch the feed, fetch the entries' pages, create the
//! batch's tags, write the source's bookkeeping, report, list the source's
//! own tags, then insert the kept entries one after another and link the
//! new ones to their tags. After the last source the machine sleeps until it
//! is woken.

use vstd::prelude::*;

use crate::db::item::ItemView;
use crate::db::source::{due, SourceView};
use crate::db::tag::{plain_tag, TagView};
use crate::db::{Item, Source, Tag};
use crate::enrich::{
    batch_view, emitted, enrich, links_to_fetch, wanted_links, EnrichedItem, EnrichedView,
};
use crate::feed::{feed_document, get_channel_for_source, Channel, ChannelView};
use crate::ingest::{
    batch_tags, linked_tags, new_tags, record_poll, refreshed, tag_name_list, tags_to_link,
    InsertOutcome,
};
use crate::time::Timestamp;

verus! {

/// Seconds that the poller sleeps between two cycles, unless a trigger
/// wakes it earlier.
pub const CHECK_INTERVAL_SECS: u64 = 60;

/// How many triggers can wait for the poller: one, so that any number of
/// triggers during one sleep starts one cycle.
pub const TRIGGER_CAPACITY: usize = 1;

/// How many lifecycle events are kept for a listener that falls behind.
/// Older events are lost to it; publishing never waits.
pub const STATUS_CAPACITY: usize = 128;

/// Lifecycle events published while sources are polled.
#[derive(Debug, Clone, Copy, PartialEq, Eq, Structural)]
pub enum PollMessage {
    /// A poll cycle has started.
    Polling,
    /// One source has been polled and its bookkeeping written.
    PollDone,
}

/// What the driver is asked to do next.
#[derive(Debug)]
pub enum Request {
    /// Publish a lifecycle event to whoever listens. Answer: `Done`.
    Publish(PollMessage),
    /// List every source. Answer: `Sources`, or `Failed`.
    ListSources,
    /// Fetch the document at a feed URL. Answer: `Feed`, or `Failed`.
    FetchFeed(String),
    /// Fetch the page of each link, all at once. Answer: `Pages`, with one
    /// page per entry of the request, `None` where the fetch failed.
    FetchPages(Vec<Option<String>>),
    /// Create the tags that do not exist yet. For no tags there is nothing
    /// to create, and the answer is `Done`. Answer: `Done` or `Failed`.
    InsertTags(Vec<Tag>),
    /// Write a source's row. Answer: `Done` or `Failed`.
    UpdateSource(Source),
    /// List the tags of a source. Answer: `SourceTags`, or `Failed`.
    ListSourceTags(i64),
    /// Insert an item. Answer: `Insert`.
    InsertItem(Item),
    /// Link an item to tags. Answer: `Done` or `Failed`.
    LinkTags(i64, Vec<String>),
    /// Wait for the interval to pass or for a trigger. Answer: `Woken`.
    Sleep,
}

/// A request as plain values. The tags to create and the names to link are
/// sets: their order means nothing.
pub enum RequestView {
    Publish(PollMessage),
    ListSources,
    FetchFeed(Seq<char>),
    FetchPages(Seq<Option<Seq<char>>>),
    InsertTags(Set<TagView>),
    UpdateSource(SourceView),
    ListSourceTags(i64),
    InsertItem(ItemView),
    LinkTags(i64, Set<Seq<char>>),
    Sleep,
}

/// The tags of a list as plain values.
pub open spec fn tag_views(tags: Seq<Tag>) -> Seq<TagView> {
    tags.map_values(|tag: Tag| tag@)
}

impl View for Request {
    type V = RequestView;

    open spec fn view(&self) -> RequestView {
        match self {
            Request::Publish(message) => RequestView::Publish(*message),
            Request::ListSources => RequestView::ListSources,
            Request::FetchFeed(url) => RequestView::FetchFeed(url@),
            Request::FetchPages(links) => RequestView::FetchPages(links.deep_view()),
            Request::InsertTags(tags) => RequestView::InsertTags(tag_views(tags@).to_set()),
            Request::UpdateSource(source) => RequestView::UpdateSource(source@),
            Request::ListSourceTags(id) => RequestView::ListSourceTags(*id),
            Request::InsertItem(item) => RequestView::InsertItem(item@),
            Request::LinkTags(id, names) => RequestView::LinkTags(*id, names.deep_view().to_set()),
            Request::Sleep => RequestView::Sleep,
        }
    }
}

impl Request {
    /// No tag is to be created twice, and no name linked twice.
    pub open spec fn distinct(&self) -> bool {
        match self {
            Request::InsertTags(tags) => tag_name_list(tags@).no_duplicates(),
            Request::LinkTags(_, names) => names.deep_view().no_duplicates(),
            _ => true,
        }
    }
}

/// What came of a request.
#[derive(Debug)]
pub enum Response {
    /// The request was carried out.
    Done,
    /// The request failed.
    Failed,
    /// The sleep is over; the clock shows this time.
    Woken(Timestamp),
    Sources(Vec<Source>),
    Feed(Vec<u8>),
    Pages(Vec<Option<String>>),
    SourceTags(Vec<Tag>),
    Insert(InsertOutcome),
}

/// A response as plain values. Of a source's tags only the names count.
pub enum ResponseView {
    Done,
    Failed,
    Woken(Timestamp),
    Sources(Seq<SourceView>),
    Feed(Seq<u8>),
    Pages(Seq<Option<Seq<char>>>),
    SourceTags(Seq<Seq<char>>),
    Insert(InsertOutcome),
}

/// The sources of a list as plain values.
pub open spec fn source_views(sources: Seq<Source>) -> Seq<SourceView> {
    sources.map_values(|source: Source| source@)
}

impl View for Response {
    type V = ResponseView;

    open spec fn view(&self) -> ResponseView {
        match self {
            Response::Done => ResponseView::Done,
            Response::Failed => ResponseView::Failed,
            Response::Woken(now) => ResponseView::Woken(*now),
            Response::Sources(sources) => ResponseView::Sources(source_views(sources@)),
            Response::Feed(bytes) => ResponseView::Feed(bytes@),
            Response::Pages(pages) => ResponseView::Pages(pages.deep_view()),
            Response::SourceTags(tags) => ResponseView::SourceTags(tag_name_list(tags@)),
            Response::Insert(outcome) => ResponseView::Insert(*outcome),
        }
    }
}

/// Which answer the poller waits for.
#[derive(Debug, Clone, Copy, PartialEq, Eq, Structural)]
pub enum Stage {
    /// The start of a cycle is being published.
    Announcing,
    /// The sources are being listed.
    Listing,
    /// The current source's feed is being fetched.
    Fetching,
    /// The pages of the feed's entries are being fetched.
    Enriching,
    /// The batch's tags are being created.
    Tagging,
    /// The current source's row is being written.
    Updating,
    /// The end of the current source's poll is being published.
    Reporting,
    /// The current source's own tags are being listed.
    SourceTagging,
    /// The current entry is being inserted.
    Inserting,
    /// The current entry is being linked to its tags.
    Linking,
    /// Nothing is going on until the poller is woken.
    Sleeping,
}

/// The poller's state.
#[derive(Debug)]
pub struct Poller {
    stage: Stage,
    now: Timestamp,
    sources: Vec<Source>,
    position: usize,
    channel: Option<Channel>,
    batch: Vec<EnrichedItem>,
    source_tags: Vec<Tag>,
    cursor: usize,
}

/// The poller's state as plain values: the stage; the time at which the
/// cycle began; the sources of the cycle and the index of the current one;
/// the current source's feed, kept entries and own tag names; and the index
/// of the current entry.
pub struct PollerView {
    pub stage: Stage,
    pub now: Timestamp,
    pub sources: Seq<SourceView>,
    pub position: int,
    pub channel: Option<ChannelView>,
    pub batch: Seq<EnrichedView>,
    pub source_tags: Seq<Seq<char>>,
    pub cursor: int,
}

/// A state and the request that goes out with it.
pub struct Turn {
    pub state: PollerView,
    pub request: RequestView,
}

impl PollerView {
    /// The source that is being polled.
    pub open spec fn source(self) -> SourceView {
        self.sources[self.position]
    }

    /// Whether a source is being polled.
    pub open spec fn polling(self) -> bool {
        self.stage != Stage::Announcing && self.stage != Stage::Listing && self.stage
            != Stage::Sleeping
    }

    /// What every reachable state satisfies: while a source is polled it is
    /// one of the cycle's sources; while its feed is worked on the feed is
    /// there; while an entry is inserted or linked it is one of the batch.
    pub open spec fn wf(self) -> bool {
        &&& self.polling() ==> 0 <= self.position < self.sources.len()
        &&& (self.stage == Stage::Enriching || self.stage == Stage::Tagging)
            ==> self.channel is Some
        &&& (self.stage == Stage::Inserting || self.stage == Stage::Linking) ==> 0 <= self.cursor
            < self.batch.len()
    }
}

/// The state in which a poller starts: a first cycle is being announced.
pub open spec fn initial(now: Timestamp) -> PollerView {
    PollerView {
        stage: Stage::Announcing,
        now,
        sources: Seq::empty(),
        position: 0,
        channel: None,
        batch: Seq::empty(),
        source_tags: Seq::empty(),
        cursor: 0,
    }
}

/// Moves on to the first due source at or after index `from`: its feed is
/// fetched. With no such source the cycle is over and the poller sleeps.
pub open spec fn seek(state: PollerView, from: int) -> Turn
    decreases state.sources.len() - from,
{
    if from < 0 || from >= state.sources.len() {
        Turn { state: PollerView { stage: Stage::Sleeping, ..state }, request: RequestView::Sleep }
    } else if due(state.now, state.sources[from].last_poll, state.sources[from].ttl) {
        Turn {
            state: PollerView { stage: Stage::Fetching, position: from, ..state },
            request: RequestView::FetchFeed(state.sources[from].url),
        }
    } else {
        seek(state, from + 1)
    }
}

/// Moves on to the kept entry at `index`: it is inserted. With no such entry
/// the source is finished and the next due source is sought.
pub open spec fn insert_from(state: PollerView, index: int) -> Turn {
    if 0 <= index < state.batch.len() {
        Turn {
            state: PollerView { stage: Stage::Inserting, cursor: index, ..state },
            request: RequestView::InsertItem(state.batch[index].item),
        }
    } else {
        seek(state, state.position + 1)
    }
}

/// The tags to create for a batch.
pub open spec fn tags_to_create(batch: Seq<EnrichedView>, now: Timestamp) -> Set<TagView> {
    Set::new(
        |tag: TagView| batch_tags(batch).contains(tag.name) && tag == plain_tag(tag.name, now),
    )
}

/// The poller's one rule: the state and the request that follow a state and
/// the response to its request.
///
/// A response of the wrong sort counts as a failure of what was asked. A
/// failure to list the sources ends the cycle. A failure to fetch or read a
/// feed, or to list the source's tags, ends that source's poll and nothing
/// more. A page that was not delivered drops its entry alone. A failure to
/// create tags, to write the source or to link tags is passed over. An item
/// that is not newly inserted is passed over, whatever the reason.
pub open spec fn next(state: PollerView, response: ResponseView) -> Turn {
    match state.stage {
        Stage::Sleeping => match response {
            ResponseView::Woken(now) => Turn {
                state: PollerView { stage: Stage::Announcing, now, ..state },
                request: RequestView::Publish(PollMessage::Polling),
            },
            _ => Turn { state, request: RequestView::Sleep },
        },
        Stage::Announcing => Turn {
            state: PollerView { stage: Stage::Listing, ..state },
            request: RequestView::ListSources,
        },
        Stage::Listing => match response {
            ResponseView::Sources(sources) => seek(PollerView { sources, ..state }, 0),
            _ => Turn {
                state: PollerView { stage: Stage::Sleeping, ..state },
                request: RequestView::Sleep,
            },
        },
        Stage::Fetching => match response {
            ResponseView::Feed(bytes) => match feed_document(bytes) {
                Some(channel) => Turn {
                    state: PollerView { stage: Stage::Enriching, channel: Some(channel), ..state },
                    request: RequestView::FetchPages(
                        wanted_links(state.source().min_date, channel.items),
                    ),
                },
                None => seek(state, state.position + 1),
            },
            _ => seek(state, state.position + 1),
        },
        Stage::Enriching => {
            let pages = match response {
                ResponseView::Pages(pages) => pages,
                _ => Seq::empty(),
            };
            let batch = emitted(state.source(), state.channel->0.items, pages, state.now);
            Turn {
                state: PollerView { stage: Stage::Tagging, batch, ..state },
                request: RequestView::InsertTags(tags_to_create(batch, state.now)),
            }
        },
        Stage::Tagging => Turn {
            state: PollerView { stage: Stage::Updating, ..state },
            request: RequestView::UpdateSource(
                refreshed(state.source(), state.channel->0, state.now),
            ),
        },
        Stage::Updating => Turn {
            state: PollerView { stage: Stage::Reporting, ..state },
            request: RequestView::Publish(PollMessage::PollDone),
        },
        Stage::Reporting => Turn {
            state: PollerView { stage: Stage::SourceTagging, ..state },
            request: RequestView::ListSourceTags(state.source().id),
        },
        Stage::SourceTagging => match response {
            ResponseView::SourceTags(names) => insert_from(
                PollerView { source_tags: names, ..state },
                0,
            ),
            _ => seek(state, state.position + 1),
        },
        Stage::Inserting => match response {
            ResponseView::Insert(InsertOutcome::Inserted(id)) => Turn {
                state: PollerView { stage: Stage::Linking, ..state },
                request: RequestView::LinkTags(
                    id,
                    linked_tags(state.batch[state.cursor].tags, state.source_tags),
                ),
            },
            _ => insert_from(state, state.cursor + 1),
        },
        Stage::Linking => insert_from(state, state.cursor + 1),
    }
}

impl View for Poller {
    type V = PollerView;

    closed spec fn view(&self) -> PollerView {
        PollerView {
            stage: self.stage,
            now: self.now,
            sources: source_views(self.sources@),
            position: self.position as int,
            channel: match self.channel {
                Some(channel) => Some(channel@),
                None => None,
            },
            batch: batch_view(self.batch@),
            source_tags: tag_name_list(self.source_tags@),
            cursor: self.cursor as int,
        }
    }
}

/// A poller about to run its first cycle, and its first request: the start
/// of the cycle is published.
pub fn start_poller(now: Timestamp) -> (r: (Poller, Request))
    ensures
        r.0@ == initial(now),
        r.0@.wf(),
        r.1@ == RequestView::Publish(PollMessage::Polling),
{
    let poller = Poller {
        stage: Stage::Announcing,
        now,
        sources: Vec::new(),
        position: 0,
        channel: None,
        batch: Vec::new(),
        source_tags: Vec::new(),
        cursor: 0,
    };
    proof {
        assert(poller@.sources =~= Seq::empty());
        assert(poller@.batch =~= Seq::empty());
        assert(poller@.source_tags =~= Seq::empty());
    }
    (poller, Request::Publish(PollMessage::Polling))
}

impl Poller {
    /// Every poller is well formed.
    #[verifier::type_invariant]
    spec fn well_formed(self) -> bool {
        self@.wf()
    }

    /// Which answer the poller waits for.
    pub fn stage(&self) -> (stage: Stage)
        ensures
            stage == self@.stage,
    {
        self.stage
    }

    /// Moves on to the first due source at or after `from`.
    fn seek(self, from: usize) -> (r: (Poller, Request))
        ensures
            r.0@ == seek(self@, from as int).state,
            r.1@ == seek(self@, from as int).request,
            r.0@.wf(),
            r.1.distinct(),
    {
        let mut index: usize = from;
        while index < self.sources.len()
            invariant
                from <= index,
                seek(self@, index as int) == seek(self@, from as int),
            decreases self.sources.len() - index,
        {
            proof {
                assert(self@.sources[index as int] == self.sources[index as int]@);
            }
            if self.sources[index].is_due(self.now) {
                let url = self.sources[index].url.clone();
                return (
                    Poller { stage: Stage::Fetching, position: index, ..self },
                    Request::FetchFeed(url),
                );
            }
            index = index + 1;
        }
        (Poller { stage: Stage::Sleeping, ..self }, Request::Sleep)
    }

    /// Leaves the current source and moves on to the next due one.
    fn next_source(self) -> (r: (Poller, Request))
        requires
            self@.polling(),
        ensures
            r.0@ == seek(self@, self@.position + 1).state,
            r.1@ == seek(self@, self@.position + 1).request,
            r.0@.wf(),
            r.1.distinct(),
    {
        proof {
            use_type_invariant(&self);
            assert(self.position < self.sources.len());
        }
        let from: usize = self.position + 1;
        self.seek(from)
    }

    /// Moves on to the kept entry at `index`.
    fn insert_from(self, index: usize) -> (r: (Poller, Request))
        requires
            self@.polling(),
        ensures
            r.0@ == insert_from(self@, index as int).state,
            r.1@ == insert_from(self@, index as int).request,
            r.0@.wf(),
            r.1.distinct(),
    {
        proof {
            use_type_invariant(&self);
        }
        if index < self.batch.len() {
            let item = self.batch[index].item.duplicate();
            proof {
                assert(self@.batch[index as int] == self.batch[index as int]@);
            }
            (Poller { stage: Stage::Inserting, cursor: index, ..self }, Request::InsertItem(item))
        } else {
            self.next_source()
        }
    }

    /// Leaves the current entry and moves on to the next one.
    fn next_entry(self) -> (r: (Poller, Request))
        requires
            self@.stage == Stage::Inserting || self@.stage == Stage::Linking,
        ensures
            r.0@ == insert_from(self@, self@.cursor + 1).state,
            r.1@ == insert_from(self@, self@.cursor + 1).request,
            r.0@.wf(),
            r.1.distinct(),
    {
        proof {
            use_type_invariant(&self);
            assert(self.cursor < self.batch.len());
        }
        let index: usize = self.cursor + 1;
        self.insert_from(index)
    }

    /// Turns the pages of the current feed's entries into the batch to
    /// store, and asks for the batch's tags to be created.
    fn enrich(self, pages: Vec<Option<String>>) -> (r: (Poller, Request))
        requires
            self@.stage == Stage::Enriching,
        ensures
            r.0@ == (PollerView {
                stage: Stage::Tagging,
                batch: emitted(self@.source(), self@.channel->0.items, pages.deep_view(), self@.now),
                ..self@
            }),
            r.1@ == RequestView::InsertTags(tags_to_create(r.0@.batch, self@.now)),
            r.0@.wf(),
            r.1.distinct(),
    {
        proof {
            use_type_invariant(&self);
            assert(self@.source() == self.sources[self.position as int]@);
        }
        let (batch, tags) = match &self.channel {
            Some(channel) => {
                let batch = enrich(&self.sources[self.position], channel, &pages, self.now);
                let tags = new_tags(&batch, self.now);
                (batch, tags)
            },
            None => (Vec::new(), Vec::new()),
        };
        proof {
            let wanted = tags_to_create(batch_view(batch@), self.now);
            assert forall|tag: TagView| #[trigger]
                tag_views(tags@).to_set().contains(tag) <==> wanted.contains(tag) by {
                if tag_views(tags@).to_set().contains(tag) {
                    let i = choose|i: int| 0 <= i < tags.len() && tag_views(tags@)[i] == tag;
                    assert(tag_name_list(tags@)[i] == tag.name);
                    assert(tag_name_list(tags@).to_set().contains(tag.name));
                }
                if wanted.contains(tag) {
                    assert(tag_name_list(tags@).to_set().contains(tag.name));
                    let i = choose|i: int|
                        0 <= i < tags.len() && tag_name_list(tags@)[i] == tag.name;
                    assert(tag_views(tags@)[i] == tag);
                }
            }
            assert(tag_views(tags@).to_set() =~= wanted);
        }
        (Poller { stage: Stage::Tagging, batch, ..self }, Request::InsertTags(tags))
    }

    /// Asks for the current source to be written as polled.
    fn update(self) -> (r: (Poller, Request))
        requires
            self@.stage == Stage::Tagging,
        ensures
            r.0@ == (PollerView { stage: Stage::Updating, ..self@ }),
            r.1@ == RequestView::UpdateSource(
                refreshed(self@.source(), self@.channel->0, self@.now),
            ),
            r.0@.wf(),
    {
        proof {
            use_type_invariant(&self);
            assert(self@.source() == self.sources[self.position as int]@);
        }
        let mut source = self.sources[self.position].duplicate();
        match &self.channel {
            Some(channel) => {
                record_poll(&mut source, channel, self.now);
            },
            None => {},
        }
        (Poller { stage: Stage::Updating, ..self }, Request::UpdateSource(source))
    }

    /// Takes the response to the request that is out, and gives the state
    /// that follows and the next request.
    pub fn advance(self, response: Response) -> (r: (Poller, Request))
        ensures
            r.0@ == next(self@, response@).state,
            r.1@ == next(self@, response@).request,
            r.0@.wf(),
            r.1.distinct(),
    {
        proof {
            use_type_invariant(&self);
        }
        match self.stage {
            Stage::Sleeping => match response {
                Response::Woken(now) => (
                    Poller { stage: Stage::Announcing, now, ..self },
                    Request::Publish(PollMessage::Polling),
                ),
                _ => (self, Request::Sleep),
            },
            Stage::Announcing => (Poller { stage: Stage::Listing, ..self }, Request::ListSources),
            Stage::Listing => match response {
                Response::Sources(sources) => {
                    let poller = Poller { sources, ..self };
                    poller.seek(0)
                },
                _ => (Poller { stage: Stage::Sleeping, ..self }, Request::Sleep),
            },
            Stage::Fetching => match response {
                Response::Feed(bytes) => match get_channel_for_source(bytes.as_slice()) {
                    Ok(channel) => {
                        proof {
                            assert(self@.source() == self.sources[self.position as int]@);
                        }
                        let links = links_to_fetch(&self.sources[self.position], &channel);
                        (
                            Poller { stage: Stage::Enriching, channel: Some(channel), ..self },
                            Request::FetchPages(links),
                        )
                    },
                    Err(_) => self.next_source(),
                },
                _ => self.next_source(),
            },
            Stage::Enriching => match response {
                Response::Pages(pages) => self.enrich(pages),
                _ => {
                    let pages: Vec<Option<String>> = Vec::new();
                    proof {
                        assert(pages.deep_view() =~= Seq::empty());
                    }
                    self.enrich(pages)
                },
            },
            Stage::Tagging => self.update(),
            Stage::Updating => (
                Poller { stage: Stage::Reporting, ..self },
                Request::Publish(PollMessage::PollDone),
            ),
            Stage::Reporting => {
                proof {
                    assert(self@.source() == self.sources[self.position as int]@);
                }
                let id: i64 = self.sources[self.position].id;
                (Poller { stage: Stage::SourceTagging, ..self }, Request::ListSourceTags(id))
            },
            Stage::SourceTagging => match response {
                Response::SourceTags(source_tags) => {
                    let poller = Poller { source_tags, ..self };
                    poller.insert_from(0)
                },
                _ => self.next_source(),
            },
            Stage::Inserting => match response {
                Response::Insert(InsertOutcome::Inserted(id)) => {
                    proof {
                        assert(self@.batch[self.cursor as int] == self.batch[self.cursor as int]@);
                    }
                    let names = tags_to_link(&self.batch[self.cursor].tags, &self.source_tags);
                    (Poller { stage: Stage::Linking, ..self }, Request::LinkTags(id, names))
                },
                _ => self.next_entry(),
            },
            Stage::Linking => self.next_entry(),
        }
    }
}

/// Seeking asks for a feed or for sleep, and for nothing else.
pub proof fn lemma_seek_fetches_or_sleeps(state: PollerView, from: int)
    ensures
        seek(state, from).request is FetchFeed || seek(state, from).request is Sleep,
    decreases state.sources.len() - from,
{
    if 0 <= from < state.sources.len() {
        lemma_seek_fetches_or_sleeps(state, from + 1);
    }
}

/// Seeking finds the first due source and no other: either the feed of a
/// due source is fetched, and no source between `from` and that one is
/// due; or the poller sleeps, and no source from `from` on is due. Nothing
/// but the stage and the current source changes.
pub proof fn lemma_seek_finds_first_due(state: PollerView, from: int)
    requires
        0 <= from,
    ensures
        ({
            let found = seek(state, from);
            if found.state.stage == Stage::Fetching {
                let at: int = found.state.position;
                &&& found.state == (PollerView { stage: Stage::Fetching, position: at, ..state })
                &&& from <= at < state.sources.len()
                &&& due(state.now, state.sources[at].last_poll, state.sources[at].ttl)
                &&& found.request == RequestView::FetchFeed(state.sources[at].url)
                &&& forall|i: int|
                    from <= i < at ==> !due(
                        state.now,
                        (#[trigger] state.sources[i]).last_poll,
                        state.sources[i].ttl,
                    )
            } else {
                &&& found.state == (PollerView { stage: Stage::Sleeping, ..state })
                &&& found.request == RequestView::Sleep
                &&& forall|i: int|
                    from <= i < state.sources.len() ==> !due(
                        state.now,
                        (#[trigger] state.sources[i]).last_poll,
                        state.sources[i].ttl,
                    )
            }
        }),
    decreases state.sources.len() - from,
{
    if from < state.sources.len() && !due(
        state.now,
        state.sources[from].last_poll,
        state.sources[from].ttl,
    ) {
        lemma_seek_finds_first_due(state, from + 1);
    }
}

/// Once a source's feed has been read, the source's poll is reported,
/// whatever comes of the pages, of the tags and of the write: the batch's
/// tags are created, then the source is written as polled at the start of
/// the cycle, then the end of its poll is published.
pub proof fn lemma_poll_is_reported(
    state: PollerView,
    pages: ResponseView,
    tagged: ResponseView,
    written: ResponseView,
)
    requires
        state.stage == Stage::Enriching,
    ensures
        ({
            let tagging = next(state, pages);
            let updating = next(tagging.state, tagged);
            let reporting = next(updating.state, written);
            &&& tagging.request is InsertTags
            &&& updating.request == RequestView::UpdateSource(
                refreshed(state.source(), state.channel->0, state.now),
            )
            &&& reporting.request == RequestView::Publish(PollMessage::PollDone)
        }),
{
}

/// The start of a cycle is published exactly when a sleeping poller is
/// woken, and the end of a source's poll exactly when the answer to the
/// write of that source comes in. Nothing else is ever published.
pub proof fn lemma_when_events_are_published(state: PollerView, response: ResponseView)
    ensures
        next(state, response).request == RequestView::Publish(PollMessage::Polling) <==> (
        state.stage == Stage::Sleeping && response is Woken),
        next(state, response).request == RequestView::Publish(PollMessage::PollDone)
            <==> state.stage == Stage::Updating,
        next(state, response).request is Publish ==> (state.stage == Stage::Sleeping
            || state.stage == Stage::Updating),
{
    lemma_seek_fetches_or_sleeps(state, state.position + 1);
    if let ResponseView::Sources(sources) = response {
        lemma_seek_fetches_or_sleeps(PollerView { sources, ..state }, 0);
    }
    if let ResponseView::SourceTags(names) = response {
        lemma_seek_fetches_or_sleeps(
            PollerView { source_tags: names, ..state },
            state.position + 1,
        );
    }
}

/// How far a stage is from the end of a source's poll.
pub open spec fn steps_left(stage: Stage) -> int {
    match stage {
        Stage::Fetching => 6,
        Stage::Enriching => 5,
        Stage::Tagging => 4,
        Stage::Updating => 3,
        Stage::Reporting => 2,
        Stage::SourceTagging => 1,
        _ => 0,
    }
}

/// How many answers the entries of the batch can still take while they are
/// inserted and linked: two for each entry from the current one on, less
/// one while the current entry is being linked.
pub open spec fn answers_left(state: PollerView) -> int {
    match state.stage {
        Stage::Inserting => 2 * (state.batch.len() - state.cursor),
        Stage::Linking => 2 * (state.batch.len() - state.cursor) - 1,
        _ => 0,
    }
}

/// Whether `after` is closer to the end of the cycle than `before`: fewer
/// sources are left; or as many, and the source's poll is further on; or it
/// is as far on, and fewer answers are left for the entries.
pub open spec fn closer_to_sleep(after: PollerView, before: PollerView) -> bool {
    let left_after: int = after.sources.len() - after.position;
    let left_before: int = before.sources.len() - before.position;
    0 <= left_after && 0 <= steps_left(after.stage) && 0 <= answers_left(after) && (left_after
        < left_before || (left_after == left_before && (steps_left(after.stage) < steps_left(
        before.stage,
    ) || (steps_left(after.stage) == steps_left(before.stage) && answers_left(after)
        < answers_left(before)))))
}

/// A cycle runs to its end: while a source is polled, every response
/// either puts the poller to sleep or brings it closer to sleep, so that no
/// sequence of responses keeps a cycle going forever.
pub proof fn lemma_cycle_runs_to_its_end(state: PollerView, response: ResponseView)
    requires
        state.wf(),
        state.polling(),
    ensures
        ({
            let after = next(state, response).state;
            after.wf() && (after.stage == Stage::Sleeping || (after.polling() && closer_to_sleep(
                after,
                state,
            )))
        }),
{
    lemma_seek_finds_first_due(state, state.position + 1);
    if state.stage == Stage::SourceTagging {
        if let ResponseView::SourceTags(names) = response {
            lemma_seek_finds_first_due(
                PollerView { source_tags: names, ..state },
                state.position + 1,
            );
        }
    }
}

} // verus!
