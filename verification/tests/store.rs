use my_feed::db::{Bind, DbError, Item, Source, Statement, Tag, ViolationKind};
use my_feed::ingest::{insert_outcome, InsertOutcome};
use my_feed::poller::{start_poller, Poller, Request, Response};
use my_feed::time::Timestamp;
use my_feed::PollMessage;
use sqlx::sqlite::{SqlitePool, SqlitePoolOptions};
use sqlx::Row;

const SCHEMA: &[&str] = &[
    "CREATE TABLE sources (id INTEGER PRIMARY KEY AUTOINCREMENT, name TEXT NOT NULL, url TEXT NOT NULL, last_pub DATETIME NOT NULL, last_poll DATETIME, ttl INTEGER, favorite BOOLEAN NOT NULL DEFAULT FALSE)",
    "CREATE TABLE items (id INTEGER PRIMARY KEY AUTOINCREMENT, link TEXT NOT NULL UNIQUE, title TEXT, description TEXT, author TEXT, published DATETIME, source_link TEXT, image TEXT, favorite BOOLEAN NOT NULL DEFAULT FALSE, done BOOLEAN NOT NULL DEFAULT FALSE, source_id INTEGER)",
    "CREATE TABLE sources_to_tags (source_id INTEGER NOT NULL, tag_id TEXT NOT NULL REFERENCES tags(name), PRIMARY KEY (source_id, tag_id))",
    "CREATE TABLE tags (name TEXT PRIMARY KEY, background_color TEXT, text_color TEXT, border_color TEXT)",
    "CREATE TABLE items_to_tags (item_id INTEGER NOT NULL REFERENCES items(id), tag_id TEXT NOT NULL REFERENCES tags(name), PRIMARY KEY (item_id, tag_id))",
];

const FEED: &str = r#"<rss version="2.0"><channel>
<title>Example</title><link>https://example.com/</link><description>d</description>
<item><title>One</title><link>https://example.com/1</link><category>Tech</category></item>
<item><title>Two</title><link>https://example.com/2</link></item>
<item><title>Three</title><link>https://example.com/3</link><category>Rust</category></item>
<item><title>Four</title><link>https://example.com/4</link></item>
<item><title>Five</title><link>https://example.com/5</link></item>
</channel></rss>"#;

fn source() -> Source {
    Source {
        id: 1,
        name: "Example".to_string(),
        url: "https://example.com/feed".to_string(),
        last_pub: Timestamp { secs: 0, nanos: 0 },
        last_poll: None,
        ttl: None,
        favorite: false,
        created_at: Timestamp { secs: 0, nanos: 0 },
        updated_at: Timestamp { secs: 0, nanos: 0 },
        min_date: None,
    }
}

fn news() -> Tag {
    Tag {
        name: "news".to_string(),
        background_color: None,
        text_color: None,
        border_color: None,
        created_at: Timestamp { secs: 0, nanos: 0 },
        updated_at: Timestamp { secs: 0, nanos: 0 },
    }
}

fn page() -> Option<String> {
    Some("<!DOCTYPE html><html><head><title>t</title></head><body><p>x</p></body></html>".to_string())
}

async fn open() -> SqlitePool {
    let pool = SqlitePoolOptions::new().max_connections(1).connect("sqlite::memory:").await.unwrap();
    for table in SCHEMA {
        sqlx::query(table).execute(&pool).await.unwrap();
    }
    execute(&pool, &Tag::insert_many(&[news()]).unwrap()).await.unwrap();
    sqlx::query("INSERT INTO sources(id, name, url, last_pub) VALUES (1, 'Example', 'https://example.com/feed', '1970-01-01 00:00:00')")
        .execute(&pool)
        .await
        .unwrap();
    execute(&pool, &Source::add_tags(1, &vec!["news".to_string()])).await.unwrap();
    // Creating a tag or a link again changes nothing.
    execute(&pool, &news().insert()).await.unwrap();
    execute(&pool, &Source::add_tags(1, &vec!["news".to_string()])).await.unwrap();
    pool
}

async fn polled(pool: &SqlitePool) -> (Option<chrono::NaiveDateTime>, chrono::NaiveDateTime, Option<i64>) {
    let row = sqlx::query("SELECT last_poll, last_pub, ttl FROM sources WHERE id = 1")
        .fetch_one(pool)
        .await
        .unwrap();
    (row.get(0), row.get(1), row.get(2))
}

fn naive(time: Timestamp) -> chrono::NaiveDateTime {
    chrono::DateTime::from_timestamp(time.secs, time.nanos).unwrap().naive_utc()
}

fn bound<'q>(
    statement: &'q Statement,
) -> sqlx::query::Query<'q, sqlx::Sqlite, sqlx::sqlite::SqliteArguments<'q>> {
    let mut query = sqlx::query(&statement.sql);
    for bind in &statement.binds {
        query = match bind {
            Bind::Integer(value) => query.bind(*value),
            Bind::OptionalInteger(value) => query.bind(*value),
            Bind::Count(value) => query.bind(*value as i64),
            Bind::Flag(value) => query.bind(*value),
            Bind::Text(value) => query.bind(value.clone()),
            Bind::OptionalText(value) => query.bind(value.clone()),
            Bind::Time(value) => query.bind(naive(*value)),
            Bind::OptionalTime(value) => query.bind(value.map(naive)),
        };
    }
    query
}

async fn execute(pool: &SqlitePool, statement: &Statement) -> Result<(), sqlx::Error> {
    bound(statement).execute(pool).await.map(|_| ())
}

async fn insert(pool: &SqlitePool, item: &Item) -> Result<i64, DbError> {
    bound(&item.insert())
        .execute(pool)
        .await
        .map(|done| done.last_insert_rowid())
        .map_err(|error| DbError::InsertError("items", error))
}

/// Carries out the poller's requests against the database until it sleeps.
/// Returns the lifecycle events that were published and the number of
/// inserts that were answered as duplicates.
async fn run_cycle(
    pool: &SqlitePool,
    poller: Poller,
    first: Request,
    pages: Vec<Option<String>>,
) -> (Poller, Vec<PollMessage>, usize) {
    let mut published = Vec::new();
    let mut duplicates = 0;
    let mut poller = poller;
    let mut request = first;
    loop {
        let response = match request {
            Request::Sleep => return (poller, published, duplicates),
            Request::Publish(message) => {
                published.push(message);
                Response::Done
            }
            Request::ListSources => {
                let listed = bound(&Source::get_all()).fetch_all(pool).await.unwrap();
                assert_eq!(listed.len(), 1);
                Response::Sources(vec![source()])
            }
            Request::FetchFeed(_) => Response::Feed(FEED.as_bytes().to_vec()),
            Request::FetchPages(_) => Response::Pages(pages.clone()),
            Request::InsertTags(tags) => match Tag::insert_many(&tags) {
                Some(statement) => match execute(pool, &statement).await {
                    Ok(()) => Response::Done,
                    Err(_) => Response::Failed,
                },
                None => Response::Done,
            },
            Request::UpdateSource(updated) => match execute(pool, &updated.update()).await {
                Ok(()) => Response::Done,
                Err(_) => Response::Failed,
            },
            Request::ListSourceTags(id) => {
                let rows = bound(&Source::tags(id)).fetch_all(pool).await.unwrap();
                let names: Vec<String> = rows.iter().map(|row| row.get::<String, _>(0)).collect();
                assert_eq!(names, vec!["news".to_string()]);
                Response::SourceTags(vec![news()])
            }
            Request::InsertItem(item) => {
                let outcome = insert_outcome(&insert(pool, &item).await);
                if outcome == InsertOutcome::Duplicate {
                    duplicates += 1;
                }
                Response::Insert(outcome)
            }
            Request::LinkTags(id, names) => match execute(pool, &Item::add_tags(id, &names)).await {
                Ok(()) => Response::Done,
                Err(_) => Response::Failed,
            },
        };
        let (next, following) = poller.advance(response);
        poller = next;
        request = following;
    }
}

async fn links(pool: &SqlitePool) -> Vec<String> {
    sqlx::query("SELECT link FROM items ORDER BY link")
        .fetch_all(pool)
        .await
        .unwrap()
        .iter()
        .map(|row| row.get::<String, _>(0))
        .collect()
}

async fn tags_of(pool: &SqlitePool, link: &str) -> Vec<String> {
    sqlx::query("SELECT it.tag_id FROM items_to_tags it JOIN items i ON i.id = it.item_id WHERE i.link = ? ORDER BY it.tag_id")
        .bind(link.to_string())
        .fetch_all(pool)
        .await
        .unwrap()
        .iter()
        .map(|row| row.get::<String, _>(0))
        .collect()
}

fn block_on<F: std::future::Future>(future: F) -> F::Output {
    tokio::runtime::Builder::new_current_thread().enable_all().build().unwrap().block_on(future)
}

#[test]
fn polling_twice_persists_the_same_items() {
    block_on(async {
        let pool = open().await;
        let now = Timestamp { secs: 1_704_200_000, nanos: 0 };
        let (poller, request) = start_poller(now);
        let pages = vec![page(), page(), page(), page(), page()];
        let (poller, published, duplicates) = run_cycle(&pool, poller, request, pages.clone()).await;
        assert_eq!(published, vec![PollMessage::Polling, PollMessage::PollDone]);
        assert_eq!(duplicates, 0);
        assert_eq!(polled(&pool).await, (Some(naive(now)), naive(now), None));
        let after_first = links(&pool).await;
        assert_eq!(after_first.len(), 5);

        let later = Timestamp { secs: now.secs + 60, nanos: 0 };
        let (poller, request) = poller.advance(Response::Woken(later));
        let (_, published, duplicates) = run_cycle(&pool, poller, request, pages).await;
        assert_eq!(published, vec![PollMessage::Polling, PollMessage::PollDone]);
        assert_eq!(duplicates, 5);
        assert_eq!(links(&pool).await, after_first);
    });
}

#[test]
fn new_item_is_linked_to_its_own_tags_and_its_source_s() {
    block_on(async {
        let pool = open().await;
        let (poller, request) = start_poller(Timestamp { secs: 1_704_200_000, nanos: 0 });
        run_cycle(&pool, poller, request, vec![page(), page(), page(), page(), page()]).await;
        assert_eq!(
            tags_of(&pool, "https://example.com/1").await,
            vec!["news".to_string(), "tech".to_string()]
        );
        assert_eq!(tags_of(&pool, "https://example.com/2").await, vec!["news".to_string()]);
        assert_eq!(
            tags_of(&pool, "https://example.com/3").await,
            vec!["news".to_string(), "rust".to_string()]
        );
    });
}

#[test]
fn item_whose_page_failed_is_absent_and_the_poll_is_still_reported() {
    block_on(async {
        let pool = open().await;
        let (poller, request) = start_poller(Timestamp { secs: 1_704_200_000, nanos: 0 });
        let pages = vec![page(), page(), None, page(), page()];
        let (_, published, _) = run_cycle(&pool, poller, request, pages).await;
        assert_eq!(published, vec![PollMessage::Polling, PollMessage::PollDone]);
        assert_eq!(
            links(&pool).await,
            vec![
                "https://example.com/1".to_string(),
                "https://example.com/2".to_string(),
                "https://example.com/4".to_string(),
                "https://example.com/5".to_string(),
            ]
        );
    });
}

#[test]
fn item_that_failed_before_is_inserted_by_the_next_poll() {
    block_on(async {
        let pool = open().await;
        let now = Timestamp { secs: 1_704_200_000, nanos: 0 };
        let (poller, request) = start_poller(now);
        let (poller, _, _) =
            run_cycle(&pool, poller, request, vec![page(), page(), None, page(), page()]).await;
        let (poller, request) = poller.advance(Response::Woken(Timestamp { secs: now.secs + 60, nanos: 0 }));
        let (_, _, duplicates) =
            run_cycle(&pool, poller, request, vec![page(), page(), page(), page(), page()]).await;
        assert_eq!(duplicates, 4);
        assert_eq!(links(&pool).await.len(), 5);
        assert_eq!(
            tags_of(&pool, "https://example.com/3").await,
            vec!["news".to_string(), "rust".to_string()]
        );
    });
}

async fn failure(pool: &SqlitePool, sql: &str) -> DbError {
    DbError::InsertError("items", sqlx::query(sql).execute(pool).await.unwrap_err())
}

#[test]
fn kind_of_failure_is_the_one_that_the_database_reported() {
    block_on(async {
        let pool = open().await;
        sqlx::query("PRAGMA foreign_keys = ON").execute(&pool).await.unwrap();
        sqlx::query("CREATE TABLE checked (n INTEGER CHECK (n > 0))").execute(&pool).await.unwrap();
        sqlx::query("INSERT INTO items(link) VALUES ('https://example.com/x')")
            .execute(&pool)
            .await
            .unwrap();

        let unique = failure(&pool, "INSERT INTO items(link) VALUES ('https://example.com/x')").await;
        assert_eq!(unique.violation(), Some(ViolationKind::Unique));
        assert_eq!(insert_outcome(&Err(unique)), InsertOutcome::Duplicate);

        let not_null = failure(&pool, "INSERT INTO items(link) VALUES (NULL)").await;
        assert_eq!(not_null.violation(), Some(ViolationKind::NotNull));
        assert_eq!(insert_outcome(&Err(not_null)), InsertOutcome::Failed);

        let foreign = failure(&pool, "INSERT INTO items_to_tags(item_id, tag_id) VALUES (999, 'none')").await;
        assert_eq!(foreign.violation(), Some(ViolationKind::ForeignKey));
        assert_eq!(insert_outcome(&Err(foreign)), InsertOutcome::Failed);

        let check = failure(&pool, "INSERT INTO checked(n) VALUES (0)").await;
        assert_eq!(check.violation(), Some(ViolationKind::Check));
        assert_eq!(insert_outcome(&Err(check)), InsertOutcome::Failed);

        let other = failure(&pool, "INSERT INTO nowhere(n) VALUES (0)").await;
        assert_eq!(other.violation(), Some(ViolationKind::Other));
        assert_eq!(insert_outcome(&Err(other)), InsertOutcome::Failed);
    });
}

#[test]
fn lookup_that_finds_no_row_answers_none() {
    block_on(async {
        let pool = open().await;
        let missing = bound(&Item::get_by_id(12345)).fetch_one(&pool).await.map(|_| 0i64);
        assert!(matches!(my_feed::db::select_one(missing, "items"), Ok(None)));
        let broken = sqlx::query("SELECT * FROM nowhere").fetch_one(&pool).await.map(|_| 0i64);
        assert!(matches!(
            my_feed::db::select_one(broken, "items"),
            Err(DbError::SelectError("items", _))
        ));
    });
}

#[test]
fn linking_to_no_tags_changes_nothing() {
    block_on(async {
        let pool = open().await;
        sqlx::query("INSERT INTO items(link) VALUES ('https://example.com/x')")
            .execute(&pool)
            .await
            .unwrap();
        execute(&pool, &Item::add_tags(1, &Vec::new())).await.unwrap();
        assert!(tags_of(&pool, "https://example.com/x").await.is_empty());
    });
}
