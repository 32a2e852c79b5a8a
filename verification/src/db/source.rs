//! Sources: the feeds that are polled, and when each is due.

use vstd::prelude::*;
use vstd::string::StringExecFns;

use crate::db::{
    bind_names, placeholders, repeated, select_one, selected, text_binds, Bind, BindView, DbError, Statement,
    END_OF_TAGS,
};
use crate::time::{whole_minutes, Timestamp};

verus! {

/// Minutes between polls of a source whose feed names no interval.
pub const DEFAULT_TTL: i64 = 60;

/// A feed that is polled on a schedule.
#[derive(Debug)]
pub struct Source {
    pub id: i64,
    pub name: String,
    pub url: String,
    pub last_pub: Timestamp,
    pub last_poll: Option<Timestamp>,
    pub ttl: Option<i64>,
    pub favorite: bool,
    pub created_at: Timestamp,
    pub updated_at: Timestamp,
    pub min_date: Option<Timestamp>,
}

/// A source as plain values.
pub struct SourceView {
    pub id: i64,
    pub name: Seq<char>,
    pub url: Seq<char>,
    pub last_pub: Timestamp,
    pub last_poll: Option<Timestamp>,
    pub ttl: Option<i64>,
    pub favorite: bool,
    pub created_at: Timestamp,
    pub updated_at: Timestamp,
    pub min_date: Option<Timestamp>,
}

impl View for Source {
    type V = SourceView;

    open spec fn view(&self) -> SourceView {
        SourceView {
            id: self.id,
            name: self.name@,
            url: self.url@,
            last_pub: self.last_pub,
            last_poll: self.last_poll,
            ttl: self.ttl,
            favorite: self.favorite,
            created_at: self.created_at,
            updated_at: self.updated_at,
            min_date: self.min_date,
        }
    }
}

/// The minutes that must pass between two polls: what the feed asked for,
/// or the default.
pub open spec fn poll_interval(ttl: Option<i64>) -> int {
    match ttl {
        Some(minutes) => minutes as int,
        None => DEFAULT_TTL as int,
    }
}

/// A source is due when it was never polled, or when the whole minutes since
/// its last poll reach its interval.
pub open spec fn due(now: Timestamp, last_poll: Option<Timestamp>, ttl: Option<i64>) -> bool {
    match last_poll {
        None => true,
        Some(last) => whole_minutes(now.total_nanos() - last.total_nanos()) >= poll_interval(ttl),
    }
}

/// Lists every source.
pub const SELECT_SOURCES: &'static str =
    "SELECT * FROM sources;";

/// Looks up the source with an id.
pub const SELECT_SOURCE: &'static str =
    "SELECT * FROM sources WHERE id = ?;";

/// Lists the sources that carry every one of some tags: up to the tags'
/// placeholders.
pub const SELECT_SOURCES_WITH_TAGS: &'static str =
    "SELECT s.* FROM sources s JOIN sources_to_tags st ON s.id = st.source_id JOIN tags t ON st.tag_id = t.name WHERE t.name IN (";

/// Lists the sources that carry every one of some tags: after the tags'
/// placeholders.
pub const SELECT_SOURCES_WITH_TAGS_END: &'static str =
    ") GROUP BY s.id HAVING COUNT(DISTINCT t.name) = ?;";

/// Inserts a source as a new row. The store chooses the id.
pub const INSERT_SOURCE: &'static str =
    "INSERT INTO sources(name, url, last_pub, last_poll, ttl, favorite, min_date) VALUES (?, ?, ?, ?, ?, ?, ?);";

/// Writes a source over the row with its id. When the row was created, and
/// from when on entries count, is not written.
pub const UPDATE_SOURCE: &'static str =
    "UPDATE sources SET name = ?, url = ?, last_pub = ?, last_poll = ?, ttl = ?, favorite = ? WHERE id = ?;";

/// Links a source to each of some tags that the store has, unless it is
/// linked already: up to the tags' placeholders.
pub const LINK_SOURCE: &'static str =
    "INSERT OR IGNORE INTO sources_to_tags (source_id, tag_id) SELECT ?, name FROM tags WHERE name IN (";

/// Takes a tag off a source.
pub const UNLINK_SOURCE: &'static str =
    "DELETE FROM sources_to_tags WHERE source_id = ? AND tag_id = ?;";

/// Lists the tags of a source.
pub const SELECT_SOURCE_TAGS: &'static str =
    "SELECT t.* FROM tags t JOIN sources_to_tags st ON t.name = st.tag_id WHERE st.source_id = ?;";

/// Deletes the source with an id.
pub const DELETE_SOURCE: &'static str =
    "DELETE FROM sources WHERE id = ?;";

impl Source {
    /// Whether this source is to be polled in a cycle that starts at `now`.
    pub fn is_due(&self, now: Timestamp) -> (r: bool)
        ensures
            r == due(now, self.last_poll, self.ttl),
    {
        match self.last_poll {
            None => true,
            Some(last) => {
                let interval: i64 = match self.ttl {
                    Some(minutes) => minutes,
                    None => DEFAULT_TTL,
                };
                now.minutes_since(&last) >= interval
            },
        }
    }

    /// The statement that lists every source.
    pub fn get_all() -> (statement: Statement)
        ensures
            statement@.sql == SELECT_SOURCES@,
            statement@.binds == Seq::<BindView>::empty(),
    {
        let binds: Vec<Bind> = Vec::new();
        let statement = Statement { sql: SELECT_SOURCES.to_owned(), binds };
        proof {
            assert(statement@.binds =~= Seq::<BindView>::empty());
        }
        statement
    }

    /// The statement that looks up the source with an id.
    pub fn get_by_id(id: i64) -> (statement: Statement)
        ensures
            statement@.sql == SELECT_SOURCE@,
            statement@.binds == seq![
                BindView::Integer(id),
            ],
    {
        let mut binds: Vec<Bind> = Vec::new();
        binds.push(Bind::Integer(id));
        let statement = Statement { sql: SELECT_SOURCE.to_owned(), binds };
        proof {
            assert(statement@.binds =~= seq![
                BindView::Integer(id),
            ]);
        }
        statement
    }

    /// What a lookup of one source answers, from what the store returned: the
    /// source; none where the driver's error says that no row was found; else
    /// a failed select.
    pub fn found(row: Result<Source, sqlx::Error>) -> (r: Result<Option<Source>, DbError>)
        ensures
            r == selected(row, "sources"),
    {
        select_one(row, "sources")
    }

    /// The statement that lists the sources that carry every one of the
    /// given tags: one placeholder for each tag, and one for their number.
    pub fn all_with_tags(tags: &Vec<String>) -> (statement: Statement)
        ensures
            statement@.sql == SELECT_SOURCES_WITH_TAGS@ + repeated("?"@, tags@.len()) + SELECT_SOURCES_WITH_TAGS_END@,
            statement@.binds == text_binds(tags.deep_view()).push(BindView::Count(tags.len())),
    {
        let mut sql = SELECT_SOURCES_WITH_TAGS.to_owned();
        sql.append(placeholders("?", tags.len()).as_str());
        sql.append(SELECT_SOURCES_WITH_TAGS_END);
        let mut binds: Vec<Bind> = Vec::new();
        bind_names(&mut binds, tags);
        let ghost before = binds@.map_values(|bind: Bind| bind@);
        binds.push(Bind::Count(tags.len()));
        proof {
            assert(before =~= text_binds(tags.deep_view()));
            assert(binds@.map_values(|bind: Bind| bind@) =~= before.push(
                BindView::Count(tags.len()),
            ));
        }
        Statement { sql, binds }
    }

    /// The statement that inserts this source as a new row: name, address,
    /// publication time, time of the last poll, interval, favorite mark, and
    /// from when on entries count.
    pub fn insert(&self) -> (statement: Statement)
        ensures
            statement@.sql == INSERT_SOURCE@,
            statement@.binds == seq![
                BindView::Text(self.name@),
                BindView::Text(self.url@),
                BindView::Time(self.last_pub),
                BindView::OptionalTime(self.last_poll),
                BindView::OptionalInteger(self.ttl),
                BindView::Flag(self.favorite),
                BindView::OptionalTime(self.min_date),
            ],
    {
        let mut binds: Vec<Bind> = Vec::new();
        binds.push(Bind::Text(self.name.clone()));
        binds.push(Bind::Text(self.url.clone()));
        binds.push(Bind::Time(self.last_pub));
        binds.push(Bind::OptionalTime(self.last_poll));
        binds.push(Bind::OptionalInteger(self.ttl));
        binds.push(Bind::Flag(self.favorite));
        binds.push(Bind::OptionalTime(self.min_date));
        let statement = Statement { sql: INSERT_SOURCE.to_owned(), binds };
        proof {
            assert(statement@.binds =~= seq![
                BindView::Text(self.name@),
                BindView::Text(self.url@),
                BindView::Time(self.last_pub),
                BindView::OptionalTime(self.last_poll),
                BindView::OptionalInteger(self.ttl),
                BindView::Flag(self.favorite),
                BindView::OptionalTime(self.min_date),
            ]);
        }
        statement
    }

    /// The statement that writes this source over the row with its id:
    /// name, address, publication time, time of the last poll, interval and
    /// favorite mark.
    pub fn update(&self) -> (statement: Statement)
        ensures
            statement@.sql == UPDATE_SOURCE@,
            statement@.binds == seq![
                BindView::Text(self.name@),
                BindView::Text(self.url@),
                BindView::Time(self.last_pub),
                BindView::OptionalTime(self.last_poll),
                BindView::OptionalInteger(self.ttl),
                BindView::Flag(self.favorite),
                BindView::Integer(self.id),
            ],
    {
        let mut binds: Vec<Bind> = Vec::new();
        binds.push(Bind::Text(self.name.clone()));
        binds.push(Bind::Text(self.url.clone()));
        binds.push(Bind::Time(self.last_pub));
        binds.push(Bind::OptionalTime(self.last_poll));
        binds.push(Bind::OptionalInteger(self.ttl));
        binds.push(Bind::Flag(self.favorite));
        binds.push(Bind::Integer(self.id));
        let statement = Statement { sql: UPDATE_SOURCE.to_owned(), binds };
        proof {
            assert(statement@.binds =~= seq![
                BindView::Text(self.name@),
                BindView::Text(self.url@),
                BindView::Time(self.last_pub),
                BindView::OptionalTime(self.last_poll),
                BindView::OptionalInteger(self.ttl),
                BindView::Flag(self.favorite),
                BindView::Integer(self.id),
            ]);
        }
        statement
    }

    /// The statement that links a source to each of the given tags that the
    /// store has, unless it is linked already: a placeholder for the
    /// source's id, then one for each tag.
    pub fn add_tags(id: i64, tags: &Vec<String>) -> (statement: Statement)
        ensures
            statement@.sql == LINK_SOURCE@ + repeated("?"@, tags@.len()) + END_OF_TAGS@,
            statement@.binds == seq![BindView::Integer(id)] + text_binds(tags.deep_view()),
    {
        let mut sql = LINK_SOURCE.to_owned();
        sql.append(placeholders("?", tags.len()).as_str());
        sql.append(END_OF_TAGS);
        let mut binds: Vec<Bind> = Vec::new();
        binds.push(Bind::Integer(id));
        proof {
            assert(binds@.map_values(|bind: Bind| bind@) =~= seq![BindView::Integer(id)]);
        }
        bind_names(&mut binds, tags);
        Statement { sql, binds }
    }

    /// The statement that takes a tag off the source with an id.
    pub fn remove_tag(id: i64, tag: &str) -> (statement: Statement)
        ensures
            statement@.sql == UNLINK_SOURCE@,
            statement@.binds == seq![
                BindView::Integer(id),
                BindView::Text(tag@),
            ],
    {
        let mut binds: Vec<Bind> = Vec::new();
        binds.push(Bind::Integer(id));
        binds.push(Bind::Text(tag.to_owned()));
        let statement = Statement { sql: UNLINK_SOURCE.to_owned(), binds };
        proof {
            assert(statement@.binds =~= seq![
                BindView::Integer(id),
                BindView::Text(tag@),
            ]);
        }
        statement
    }

    /// The statement that lists the tags of the source with an id.
    pub fn tags(id: i64) -> (statement: Statement)
        ensures
            statement@.sql == SELECT_SOURCE_TAGS@,
            statement@.binds == seq![
                BindView::Integer(id),
            ],
    {
        let mut binds: Vec<Bind> = Vec::new();
        binds.push(Bind::Integer(id));
        let statement = Statement { sql: SELECT_SOURCE_TAGS.to_owned(), binds };
        proof {
            assert(statement@.binds =~= seq![
                BindView::Integer(id),
            ]);
        }
        statement
    }

    /// The statement that deletes the source with an id.
    pub fn delete(id: i64) -> (statement: Statement)
        ensures
            statement@.sql == DELETE_SOURCE@,
            statement@.binds == seq![
                BindView::Integer(id),
            ],
    {
        let mut binds: Vec<Bind> = Vec::new();
        binds.push(Bind::Integer(id));
        let statement = Statement { sql: DELETE_SOURCE.to_owned(), binds };
        proof {
            assert(statement@.binds =~= seq![
                BindView::Integer(id),
            ]);
        }
        statement
    }

    /// A copy of this source.
    pub fn duplicate(&self) -> (source: Source)
        ensures
            source@ == self@,
    {
        Source {
            id: self.id,
            name: self.name.clone(),
            url: self.url.clone(),
            last_pub: self.last_pub,
            last_poll: self.last_poll,
            ttl: self.ttl,
            favorite: self.favorite,
            created_at: self.created_at,
            updated_at: self.updated_at,
            min_date: self.min_date,
        }
    }
}

/// A source that was never polled is due at any time.
pub proof fn lemma_never_polled_is_due(now: Timestamp, ttl: Option<i64>)
    ensures
        due(now, None, ttl),
{
}

/// A source polled exactly `elapsed` minutes ago is due if and only if
/// `elapsed` reaches its interval.
pub proof fn lemma_due_after_whole_minutes(
    now: Timestamp,
    last: Timestamp,
    elapsed: int,
    ttl: Option<i64>,
)
    requires
        now.nanos == last.nanos,
        now.secs == last.secs + 60 * elapsed,
    ensures
        due(now, Some(last), ttl) <==> elapsed >= poll_interval(ttl),
{
    let span = now.total_nanos() - last.total_nanos();
    assert(span == elapsed * 60_000_000_000) by (nonlinear_arith)
        requires
            span == (last.secs + 60 * elapsed) * 1_000_000_000 + now.nanos - (last.secs
                * 1_000_000_000 + last.nanos),
            now.nanos == last.nanos,
    ;
    if elapsed >= 0 {
        assert((elapsed * 60_000_000_000) / 60_000_000_000 == elapsed) by (nonlinear_arith)
            requires
                elapsed >= 0,
        ;
    } else {
        assert((-(elapsed * 60_000_000_000)) / 60_000_000_000 == -elapsed) by (nonlinear_arith)
            requires
                elapsed < 0,
        ;
    }
}

} // verus!
