//! Items: the entries that ingestion keeps, one per link.

use vstd::prelude::*;
use vstd::string::StringExecFns;

use crate::db::{
    bind_names, placeholders, repeated, select_one, selected, text_binds, Bind, BindView, DbError, Statement,
    END_OF_TAGS,
};
use crate::text::clone_optional;
use crate::time::{Timespan, Timestamp};

verus! {

/// One ingested feed entry.
#[derive(Debug)]
pub struct Item {
    pub id: i64,
    pub link: String,
    pub title: Option<String>,
    pub description: Option<String>,
    pub author: Option<String>,
    pub published: Option<Timestamp>,
    pub source_link: Option<String>,
    pub image: Option<String>,
    pub favorite: bool,
    pub done: bool,
    pub created_at: Timestamp,
    pub updated_at: Timestamp,
    pub source_id: Option<i64>,
}

/// An item as plain values.
pub struct ItemView {
    pub id: i64,
    pub link: Seq<char>,
    pub title: Option<Seq<char>>,
    pub description: Option<Seq<char>>,
    pub author: Option<Seq<char>>,
    pub published: Option<Timestamp>,
    pub source_link: Option<Seq<char>>,
    pub image: Option<Seq<char>>,
    pub favorite: bool,
    pub done: bool,
    pub created_at: Timestamp,
    pub updated_at: Timestamp,
    pub source_id: Option<i64>,
}

impl View for Item {
    type V = ItemView;

    open spec fn view(&self) -> ItemView {
        ItemView {
            id: self.id,
            link: self.link@,
            title: self.title.deep_view(),
            description: self.description.deep_view(),
            author: self.author.deep_view(),
            published: self.published,
            source_link: self.source_link.deep_view(),
            image: self.image.deep_view(),
            favorite: self.favorite,
            done: self.done,
            created_at: self.created_at,
            updated_at: self.updated_at,
            source_id: self.source_id,
        }
    }
}

/// Lists every item.
pub const SELECT_ITEMS: &'static str =
    "SELECT * FROM items;";

/// Lists the items created from a time on, newest first, each with the names of
/// its tags joined by commas; items that are done only where the flag is set.
pub const SELECT_FEED: &'static str =
    "SELECT i.*, GROUP_CONCAT(t.name, ',') AS tags FROM items i LEFT JOIN items_to_tags it ON i.id = it.item_id LEFT JOIN tags t ON it.tag_id = t.name WHERE i.created_at >= ? AND (? OR i.done = false) GROUP BY i.id ORDER BY i.created_at DESC;";

/// Marks an item as done or not done.
pub const UPDATE_ITEM_DONE: &'static str =
    "UPDATE items SET done = ? WHERE id = ?;";

/// Looks up the item with an id.
pub const SELECT_ITEM: &'static str =
    "SELECT * FROM items WHERE id = ?;";

/// Lists the items that carry every one of some tags: up to the tags' placeholders.
pub const SELECT_ITEMS_WITH_TAGS: &'static str =
    "SELECT i.* FROM items i JOIN items_to_tags st ON i.id = st.item_id JOIN tags t ON st.tag_id = t.name WHERE t.name IN (";

/// Lists the items that carry every one of some tags: after the tags' placeholders.
pub const SELECT_ITEMS_WITH_TAGS_END: &'static str =
    ") GROUP BY i.id HAVING COUNT(DISTINCT t.name) = ?;";

/// Inserts an item as a new row. The store chooses the id and refuses a link
/// that it already holds.
pub const INSERT_ITEM: &'static str =
    "INSERT INTO items(link, title, description, author, published, source_link, image, favorite, source_id) VALUES (?, ?, ?, ?, ?, ?, ?, ?, ?);";

/// Links an item to each of some tags that the store has, unless it is linked
/// already: up to the tags' placeholders.
pub const LINK_ITEM: &'static str =
    "INSERT OR IGNORE INTO items_to_tags (item_id, tag_id) SELECT ?, name FROM tags WHERE name IN (";

/// Takes a tag off an item.
pub const UNLINK_ITEM: &'static str =
    "DELETE FROM items_to_tags WHERE item_id = ? AND tag_id = ?;";

/// Deletes the item with an id.
pub const DELETE_ITEM: &'static str =
    "DELETE FROM items WHERE id = ?;";

impl Item {
    /// The statement that lists every item.
    pub fn get_all() -> (statement: Statement)
        ensures
            statement@.sql == SELECT_ITEMS@,
            statement@.binds == Seq::<BindView>::empty(),
    {
        let binds: Vec<Bind> = Vec::new();
        let statement = Statement { sql: SELECT_ITEMS.to_owned(), binds };
        proof {
            assert(statement@.binds =~= Seq::<BindView>::empty());
        }
        statement
    }

    /// The statement that lists the items created within the last
    /// `duration` before `now`, newest first, each with the names of its
    /// tags joined by commas; items that are done only where asked for.
    /// There is none where that time lies outside what a timestamp holds.
    pub fn feed(now: Timestamp, duration: &Timespan, include_done: bool) -> (r: Option<Statement>)
        ensures
            match r {
                Some(statement) => {
                    &&& now.earlier(*duration) is Some
                    &&& statement@.sql == SELECT_FEED@
                    &&& statement@.binds == seq![
                        BindView::Time(now.earlier(*duration)->0),
                        BindView::Flag(include_done),
                    ]
                },
                None => now.earlier(*duration) is None,
            },
    {
        match now.earlier_by(duration) {
            Some(cutoff) => {
                let mut binds: Vec<Bind> = Vec::new();
                binds.push(Bind::Time(cutoff));
                binds.push(Bind::Flag(include_done));
                let statement = Statement { sql: SELECT_FEED.to_owned(), binds };
                proof {
                    assert(statement@.binds =~= seq![
                        BindView::Time(cutoff),
                        BindView::Flag(include_done),
                    ]);
                }
                Some(statement)
            },
            None => None,
        }
    }

    /// The statement that marks the item with an id as done or not done.
    pub fn set_done(id: i64, done: bool) -> (statement: Statement)
        ensures
            statement@.sql == UPDATE_ITEM_DONE@,
            statement@.binds == seq![
                BindView::Flag(done),
                BindView::Integer(id),
            ],
    {
        let mut binds: Vec<Bind> = Vec::new();
        binds.push(Bind::Flag(done));
        binds.push(Bind::Integer(id));
        let statement = Statement { sql: UPDATE_ITEM_DONE.to_owned(), binds };
        proof {
            assert(statement@.binds =~= seq![
                BindView::Flag(done),
                BindView::Integer(id),
            ]);
        }
        statement
    }

    /// The statement that looks up the item with an id.
    pub fn get_by_id(id: i64) -> (statement: Statement)
        ensures
            statement@.sql == SELECT_ITEM@,
            statement@.binds == seq![
                BindView::Integer(id),
            ],
    {
        let mut binds: Vec<Bind> = Vec::new();
        binds.push(Bind::Integer(id));
        let statement = Statement { sql: SELECT_ITEM.to_owned(), binds };
        proof {
            assert(statement@.binds =~= seq![
                BindView::Integer(id),
            ]);
        }
        statement
    }

    /// What a lookup of one item answers, from what the store returned: the
    /// item; none where the driver's error says that no row was found; else
    /// a failed select.
    pub fn found(row: Result<Item, sqlx::Error>) -> (r: Result<Option<Item>, DbError>)
        ensures
            r == selected(row, "items"),
    {
        select_one(row, "items")
    }

    /// The statement that lists the items that carry every one of the given
    /// tags: one placeholder for each tag, and one for their number.
    pub fn all_with_tags(tags: &Vec<String>) -> (statement: Statement)
        ensures
            statement@.sql == SELECT_ITEMS_WITH_TAGS@ + repeated("?"@, tags@.len()) + SELECT_ITEMS_WITH_TAGS_END@,
            statement@.binds == text_binds(tags.deep_view()).push(BindView::Count(tags.len())),
    {
        let mut sql = SELECT_ITEMS_WITH_TAGS.to_owned();
        sql.append(placeholders("?", tags.len()).as_str());
        sql.append(SELECT_ITEMS_WITH_TAGS_END);
        let mut binds: Vec<Bind> = Vec::new();
        bind_names(&mut binds, tags);
        let ghost before = binds@.map_values(|bind: Bind| bind@);
        binds.push(Bind::Count(tags.len()));
        proof {
            assert(before =~= text_binds(tags.deep_view()));
            assert(binds@.map_values(|bind: Bind| bind@) =~= before.push(
                BindView::Count(tags.len()),
            ));
        }
        Statement { sql, binds }
    }

    /// The statement that inserts this item as a new row: link, title,
    /// description, author, publication time, its source's address, image,
    /// favorite mark and its source's id.
    pub fn insert(&self) -> (statement: Statement)
        ensures
            statement@.sql == INSERT_ITEM@,
            statement@.binds == seq![
                BindView::Text(self.link@),
                BindView::OptionalText(self.title.deep_view()),
                BindView::OptionalText(self.description.deep_view()),
                BindView::OptionalText(self.author.deep_view()),
                BindView::OptionalTime(self.published),
                BindView::OptionalText(self.source_link.deep_view()),
                BindView::OptionalText(self.image.deep_view()),
                BindView::Flag(self.favorite),
                BindView::OptionalInteger(self.source_id),
            ],
    {
        let mut binds: Vec<Bind> = Vec::new();
        binds.push(Bind::Text(self.link.clone()));
        binds.push(Bind::OptionalText(clone_optional(&self.title)));
        binds.push(Bind::OptionalText(clone_optional(&self.description)));
        binds.push(Bind::OptionalText(clone_optional(&self.author)));
        binds.push(Bind::OptionalTime(self.published));
        binds.push(Bind::OptionalText(clone_optional(&self.source_link)));
        binds.push(Bind::OptionalText(clone_optional(&self.image)));
        binds.push(Bind::Flag(self.favorite));
        binds.push(Bind::OptionalInteger(self.source_id));
        let statement = Statement { sql: INSERT_ITEM.to_owned(), binds };
        proof {
            assert(statement@.binds =~= seq![
                BindView::Text(self.link@),
                BindView::OptionalText(self.title.deep_view()),
                BindView::OptionalText(self.description.deep_view()),
                BindView::OptionalText(self.author.deep_view()),
                BindView::OptionalTime(self.published),
                BindView::OptionalText(self.source_link.deep_view()),
                BindView::OptionalText(self.image.deep_view()),
                BindView::Flag(self.favorite),
                BindView::OptionalInteger(self.source_id),
            ]);
        }
        statement
    }

    /// The statement that links an item to each of the given tags that the
    /// store has, unless it is linked already: a placeholder for the item's
    /// id, then one for each tag.
    pub fn add_tags(id: i64, tags: &Vec<String>) -> (statement: Statement)
        ensures
            statement@.sql == LINK_ITEM@ + repeated("?"@, tags@.len()) + END_OF_TAGS@,
            statement@.binds == seq![BindView::Integer(id)] + text_binds(tags.deep_view()),
    {
        let mut sql = LINK_ITEM.to_owned();
        sql.append(placeholders("?", tags.len()).as_str());
        sql.append(END_OF_TAGS);
        let mut binds: Vec<Bind> = Vec::new();
        binds.push(Bind::Integer(id));
        proof {
            assert(binds@.map_values(|bind: Bind| bind@) =~= seq![BindView::Integer(id)]);
        }
        bind_names(&mut binds, tags);
        Statement { sql, binds }
    }

    /// The statement that takes a tag off the item with an id.
    pub fn remove_tag(id: i64, tag: &str) -> (statement: Statement)
        ensures
            statement@.sql == UNLINK_ITEM@,
            statement@.binds == seq![
                BindView::Integer(id),
                BindView::Text(tag@),
            ],
    {
        let mut binds: Vec<Bind> = Vec::new();
        binds.push(Bind::Integer(id));
        binds.push(Bind::Text(tag.to_owned()));
        let statement = Statement { sql: UNLINK_ITEM.to_owned(), binds };
        proof {
            assert(statement@.binds =~= seq![
                BindView::Integer(id),
                BindView::Text(tag@),
            ]);
        }
        statement
    }

    /// The statement that deletes the item with an id.
    pub fn delete(id: i64) -> (statement: Statement)
        ensures
            statement@.sql == DELETE_ITEM@,
            statement@.binds == seq![
                BindView::Integer(id),
            ],
    {
        let mut binds: Vec<Bind> = Vec::new();
        binds.push(Bind::Integer(id));
        let statement = Statement { sql: DELETE_ITEM.to_owned(), binds };
        proof {
            assert(statement@.binds =~= seq![
                BindView::Integer(id),
            ]);
        }
        statement
    }

    /// A copy of this item.
    pub fn duplicate(&self) -> (item: Item)
        ensures
            item@ == self@,
    {
        Item {
            id: self.id,
            link: self.link.clone(),
            title: clone_optional(&self.title),
            description: clone_optional(&self.description),
            author: clone_optional(&self.author),
            published: self.published,
            source_link: clone_optional(&self.source_link),
            image: clone_optional(&self.image),
            favorite: self.favorite,
            done: self.done,
            created_at: self.created_at,
            updated_at: self.updated_at,
            source_id: self.source_id,
        }
    }
}

/// An item with the names of its tags, joined by commas, as the feed query
/// returns it.
#[derive(Debug)]
pub struct ItemWTags {
    pub item: Item,
    pub tags: Option<String>,
}

} // verus!
