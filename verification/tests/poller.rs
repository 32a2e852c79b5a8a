use my_feed::db::{Source, Tag};
use my_feed::ingest::InsertOutcome;
use my_feed::poller::{start_poller, Poller, Request, Response, Stage};
use my_feed::time::Timestamp;
use my_feed::PollMessage;

const START: Timestamp = Timestamp { secs: 1_704_200_000, nanos: 0 };

const FEED: &str = r#"<rss version="2.0"><channel>
<title>Example</title><link>https://example.com/</link><description>d</description>
<pubDate>Tue, 02 Jan 2024 12:00:00 +0000</pubDate><ttl>30</ttl>
<item><title>One</title><link>https://example.com/1</link><category>Tech</category></item>
<item><title>Two</title><link>https://example.com/2</link><category>Rust</category><category>Tech</category></item>
<item><title>Three</title></item>
</channel></rss>"#;

fn source(id: i64, last_poll: Option<Timestamp>, ttl: Option<i64>) -> Source {
    Source {
        id,
        name: format!("source {}", id),
        url: format!("https://example.com/feed/{}", id),
        last_pub: Timestamp { secs: 0, nanos: 0 },
        last_poll,
        ttl,
        favorite: false,
        created_at: Timestamp { secs: 0, nanos: 0 },
        updated_at: Timestamp { secs: 0, nanos: 0 },
        min_date: None,
    }
}

fn tag(name: &str) -> Tag {
    Tag {
        name: name.to_string(),
        background_color: None,
        text_color: None,
        border_color: None,
        created_at: Timestamp { secs: 0, nanos: 0 },
        updated_at: Timestamp { secs: 0, nanos: 0 },
    }
}

fn page() -> Option<String> {
    Some(
        "<!DOCTYPE html><html><head><title>t</title><meta property=\"og:image\" content=\"/i.png\"></head><body><p>x</p></body></html>"
            .to_string(),
    )
}

fn sorted(mut names: Vec<String>) -> Vec<String> {
    names.sort();
    names
}

/// Drives a poller that has just been started up to the request for the
/// pages of the first due source's feed.
fn until_pages(sources: Vec<Source>) -> (Poller, Request) {
    let (poller, request) = start_poller(START);
    assert!(matches!(request, Request::Publish(PollMessage::Polling)));
    let (poller, request) = poller.advance(Response::Done);
    assert!(matches!(request, Request::ListSources));
    let (poller, request) = poller.advance(Response::Sources(sources));
    assert!(matches!(request, Request::FetchFeed(_)));
    poller.advance(Response::Feed(FEED.as_bytes().to_vec()))
}

/// Drives a poller from the request for pages up to the first insert.
fn until_first_insert(poller: Poller, pages: Vec<Option<String>>, source_tags: Vec<Tag>) -> (Poller, Request) {
    let (poller, request) = poller.advance(Response::Pages(pages));
    assert!(matches!(request, Request::InsertTags(_)));
    let (poller, request) = poller.advance(Response::Done);
    assert!(matches!(request, Request::UpdateSource(_)));
    let (poller, request) = poller.advance(Response::Done);
    assert!(matches!(request, Request::Publish(PollMessage::PollDone)));
    let (poller, request) = poller.advance(Response::Done);
    assert!(matches!(request, Request::ListSourceTags(_)));
    poller.advance(Response::SourceTags(source_tags))
}

#[test]
fn cycle_of_one_source_runs_through_every_step() {
    let (poller, request) = start_poller(START);
    assert_eq!(poller.stage(), Stage::Announcing);
    assert!(matches!(request, Request::Publish(PollMessage::Polling)));

    let (poller, request) = poller.advance(Response::Done);
    assert_eq!(poller.stage(), Stage::Listing);
    assert!(matches!(request, Request::ListSources));

    let (poller, request) = poller.advance(Response::Sources(vec![source(7, None, None)]));
    assert_eq!(poller.stage(), Stage::Fetching);
    match request {
        Request::FetchFeed(url) => assert_eq!(url, "https://example.com/feed/7"),
        other => panic!("unexpected request {:?}", other),
    }

    let (poller, request) = poller.advance(Response::Feed(FEED.as_bytes().to_vec()));
    assert_eq!(poller.stage(), Stage::Enriching);
    match request {
        Request::FetchPages(links) => assert_eq!(
            links,
            vec![
                Some("https://example.com/1".to_string()),
                Some("https://example.com/2".to_string()),
                None
            ]
        ),
        other => panic!("unexpected request {:?}", other),
    }

    let (poller, request) = poller.advance(Response::Pages(vec![page(), page(), None]));
    assert_eq!(poller.stage(), Stage::Tagging);
    match request {
        Request::InsertTags(tags) => {
            assert_eq!(
                sorted(tags.iter().map(|tag| tag.name.clone()).collect()),
                vec!["rust".to_string(), "tech".to_string()]
            );
            assert!(tags.iter().all(|tag| tag.created_at == START && tag.background_color.is_none()));
        }
        other => panic!("unexpected request {:?}", other),
    }

    let (poller, request) = poller.advance(Response::Done);
    assert_eq!(poller.stage(), Stage::Updating);
    match request {
        Request::UpdateSource(updated) => {
            assert_eq!(updated.id, 7);
            assert_eq!(updated.name, "source 7");
            assert_eq!(updated.url, "https://example.com/feed/7");
            assert_eq!(updated.last_pub, Timestamp { secs: 1_704_196_800, nanos: 0 });
            assert_eq!(updated.last_poll, Some(START));
            assert_eq!(updated.ttl, Some(30));
        }
        other => panic!("unexpected request {:?}", other),
    }

    let (poller, request) = poller.advance(Response::Done);
    assert_eq!(poller.stage(), Stage::Reporting);
    assert!(matches!(request, Request::Publish(PollMessage::PollDone)));

    let (poller, request) = poller.advance(Response::Done);
    assert_eq!(poller.stage(), Stage::SourceTagging);
    assert!(matches!(request, Request::ListSourceTags(7)));

    let (poller, request) = poller.advance(Response::SourceTags(vec![tag("news")]));
    assert_eq!(poller.stage(), Stage::Inserting);
    match request {
        Request::InsertItem(item) => {
            assert_eq!(item.link, "https://example.com/1");
            assert_eq!(item.image.as_deref(), Some("/i.png"));
            assert_eq!(item.source_id, Some(7));
            assert_eq!(item.created_at, START);
        }
        other => panic!("unexpected request {:?}", other),
    }

    let (poller, request) = poller.advance(Response::Insert(InsertOutcome::Inserted(101)));
    assert_eq!(poller.stage(), Stage::Linking);
    match request {
        Request::LinkTags(id, names) => {
            assert_eq!(id, 101);
            assert_eq!(sorted(names), vec!["news".to_string(), "tech".to_string()]);
        }
        other => panic!("unexpected request {:?}", other),
    }

    let (poller, request) = poller.advance(Response::Done);
    assert_eq!(poller.stage(), Stage::Inserting);
    match request {
        Request::InsertItem(item) => assert_eq!(item.link, "https://example.com/2"),
        other => panic!("unexpected request {:?}", other),
    }

    let (poller, request) = poller.advance(Response::Insert(InsertOutcome::Inserted(102)));
    match request {
        Request::LinkTags(id, names) => {
            assert_eq!(id, 102);
            assert_eq!(
                sorted(names),
                vec!["news".to_string(), "rust".to_string(), "tech".to_string()]
            );
        }
        other => panic!("unexpected request {:?}", other),
    }

    let (poller, request) = poller.advance(Response::Failed);
    assert_eq!(poller.stage(), Stage::Sleeping);
    assert!(matches!(request, Request::Sleep));
}

#[test]
fn second_poll_of_unchanged_feed_links_nothing() {
    let (poller, _) = until_pages(vec![source(7, None, None)]);
    let (poller, request) = until_first_insert(poller, vec![page(), page(), None], vec![tag("news")]);
    assert!(matches!(request, Request::InsertItem(_)));
    let (poller, request) = poller.advance(Response::Insert(InsertOutcome::Duplicate));
    match request {
        Request::InsertItem(item) => assert_eq!(item.link, "https://example.com/2"),
        other => panic!("unexpected request {:?}", other),
    }
    let (poller, request) = poller.advance(Response::Insert(InsertOutcome::Duplicate));
    assert!(matches!(request, Request::Sleep));
    assert_eq!(poller.stage(), Stage::Sleeping);
}

#[test]
fn failed_insert_is_passed_over() {
    let (poller, _) = until_pages(vec![source(7, None, None)]);
    let (poller, _) = until_first_insert(poller, vec![page(), page(), None], Vec::new());
    let (poller, request) = poller.advance(Response::Insert(InsertOutcome::Failed));
    match request {
        Request::InsertItem(item) => assert_eq!(item.link, "https://example.com/2"),
        other => panic!("unexpected request {:?}", other),
    }
    let (_, request) = poller.advance(Response::Failed);
    assert!(matches!(request, Request::Sleep));
}

#[test]
fn poll_is_reported_even_when_every_page_and_write_fails() {
    let (poller, _) = until_pages(vec![source(7, None, None)]);
    let (poller, request) = poller.advance(Response::Failed);
    match request {
        Request::InsertTags(tags) => assert!(tags.is_empty()),
        other => panic!("unexpected request {:?}", other),
    }
    let (poller, request) = poller.advance(Response::Failed);
    assert!(matches!(request, Request::UpdateSource(_)));
    let (poller, request) = poller.advance(Response::Failed);
    assert!(matches!(request, Request::Publish(PollMessage::PollDone)));
    let (poller, request) = poller.advance(Response::Done);
    assert!(matches!(request, Request::ListSourceTags(7)));
    let (poller, request) = poller.advance(Response::SourceTags(vec![tag("news")]));
    assert!(matches!(request, Request::Sleep));
    assert_eq!(poller.stage(), Stage::Sleeping);
}

#[test]
fn one_failed_page_keeps_the_other_entries_and_the_report() {
    let (poller, _) = until_pages(vec![source(7, None, None)]);
    let (poller, request) = until_first_insert(poller, vec![None, page(), None], Vec::new());
    match request {
        Request::InsertItem(item) => assert_eq!(item.link, "https://example.com/2"),
        other => panic!("unexpected request {:?}", other),
    }
    let (_, request) = poller.advance(Response::Insert(InsertOutcome::Duplicate));
    assert!(matches!(request, Request::Sleep));
}

#[test]
fn sources_that_are_not_due_are_skipped() {
    let recently = Timestamp { secs: START.secs - 29 * 60, nanos: 0 };
    let long_ago = Timestamp { secs: START.secs - 31 * 60, nanos: 0 };
    let sources = vec![
        source(1, Some(recently), Some(30)),
        source(2, Some(long_ago), Some(30)),
        source(3, Some(recently), None),
        source(4, None, None),
    ];
    let (poller, request) = start_poller(START);
    assert!(matches!(request, Request::Publish(PollMessage::Polling)));
    let (poller, _) = poller.advance(Response::Done);
    let (poller, request) = poller.advance(Response::Sources(sources));
    match request {
        Request::FetchFeed(url) => assert_eq!(url, "https://example.com/feed/2"),
        other => panic!("unexpected request {:?}", other),
    }
    let (poller, _) = poller.advance(Response::Feed(FEED.as_bytes().to_vec()));
    // No entry is kept, so the next due source follows the source's tags.
    let (poller, request) = until_first_insert(poller, vec![None, None, None], Vec::new());
    match request {
        Request::FetchFeed(url) => assert_eq!(url, "https://example.com/feed/4"),
        other => panic!("unexpected request {:?}", other),
    }
    let (_, request) = poller.advance(Response::Failed);
    assert!(matches!(request, Request::Sleep));
}

#[test]
fn next_due_source_follows_a_source_without_kept_entries() {
    let (poller, request) = start_poller(START);
    assert!(matches!(request, Request::Publish(_)));
    let (poller, _) = poller.advance(Response::Done);
    let polled = Timestamp { secs: START.secs - 60, nanos: 0 };
    let (poller, request) = poller.advance(Response::Sources(vec![
        source(1, Some(polled), None),
        source(2, None, None),
        source(3, Some(polled), Some(5)),
        source(4, Some(polled), Some(1)),
    ]));
    match request {
        Request::FetchFeed(url) => assert_eq!(url, "https://example.com/feed/2"),
        other => panic!("unexpected request {:?}", other),
    }
    let (poller, request) = poller.advance(Response::Failed);
    match request {
        Request::FetchFeed(url) => assert_eq!(url, "https://example.com/feed/4"),
        other => panic!("unexpected request {:?}", other),
    }
    let (poller, request) = poller.advance(Response::Feed(b"no feed".to_vec()));
    assert!(matches!(request, Request::Sleep));
    assert_eq!(poller.stage(), Stage::Sleeping);
}

#[test]
fn failure_to_list_sources_ends_the_cycle() {
    let (poller, _) = start_poller(START);
    let (poller, _) = poller.advance(Response::Done);
    let (poller, request) = poller.advance(Response::Failed);
    assert!(matches!(request, Request::Sleep));
    assert_eq!(poller.stage(), Stage::Sleeping);
}

#[test]
fn failure_to_list_source_tags_ends_the_source_s_poll() {
    let (poller, _) = until_pages(vec![source(7, None, None), source(8, None, None)]);
    let (poller, _) = poller.advance(Response::Pages(vec![page(), page(), None]));
    let (poller, _) = poller.advance(Response::Done);
    let (poller, _) = poller.advance(Response::Done);
    let (poller, request) = poller.advance(Response::Done);
    assert!(matches!(request, Request::ListSourceTags(7)));
    let (_, request) = poller.advance(Response::Failed);
    match request {
        Request::FetchFeed(url) => assert_eq!(url, "https://example.com/feed/8"),
        other => panic!("unexpected request {:?}", other),
    }
}

#[test]
fn sleeping_poller_starts_a_cycle_when_woken() {
    let (poller, _) = start_poller(START);
    let (poller, _) = poller.advance(Response::Done);
    let (poller, request) = poller.advance(Response::Sources(Vec::new()));
    assert!(matches!(request, Request::Sleep));
    let (poller, request) = poller.advance(Response::Done);
    assert!(matches!(request, Request::Sleep));
    assert_eq!(poller.stage(), Stage::Sleeping);
    let later = Timestamp { secs: START.secs + 60, nanos: 0 };
    let (poller, request) = poller.advance(Response::Woken(later));
    assert!(matches!(request, Request::Publish(PollMessage::Polling)));
    let (poller, _) = poller.advance(Response::Done);
    // One minute later, a source polled 59 minutes before the start is due.
    let polled = Timestamp { secs: START.secs - 59 * 60, nanos: 0 };
    let (_, request) = poller.advance(Response::Sources(vec![source(1, Some(polled), None)]));
    assert!(matches!(request, Request::FetchFeed(_)));
}
