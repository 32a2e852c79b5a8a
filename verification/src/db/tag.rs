//! Tags: labels that sources and items carry, known by name.

use vstd::prelude::*;
use vstd::string::StringExecFns;

use crate::db::{
    placeholders, repeated, select_one, selected, Bind, BindView, DbError, Statement,
};
use crate::text::clone_optional;
use crate::time::Timestamp;

verus! {

/// A named label with optional display colors.
#[derive(Debug)]
pub struct Tag {
    pub name: String,
    pub background_color: Option<String>,
    pub text_color: Option<String>,
    pub border_color: Option<String>,
    pub created_at: Timestamp,
    pub updated_at: Timestamp,
}

/// A tag as plain values.
pub struct TagView {
    pub name: Seq<char>,
    pub background_color: Option<Seq<char>>,
    pub text_color: Option<Seq<char>>,
    pub border_color: Option<Seq<char>>,
    pub created_at: Timestamp,
    pub updated_at: Timestamp,
}

impl View for Tag {
    type V = TagView;

    open spec fn view(&self) -> TagView {
        TagView {
            name: self.name@,
            background_color: self.background_color.deep_view(),
            text_color: self.text_color.deep_view(),
            border_color: self.border_color.deep_view(),
            created_at: self.created_at,
            updated_at: self.updated_at,
        }
    }
}

/// The tag that ingestion creates for a category name: no colors, stamped
/// with the time of the poll.
pub open spec fn plain_tag(name: Seq<char>, now: Timestamp) -> TagView {
    TagView {
        name,
        background_color: None,
        text_color: None,
        border_color: None,
        created_at: now,
        updated_at: now,
    }
}

/// The values bound for one tag: its name, then its background, text and
/// border colors.
pub open spec fn tag_binds(tag: TagView) -> Seq<BindView> {
    seq![
        BindView::Text(tag.name),
        BindView::OptionalText(tag.background_color),
        BindView::OptionalText(tag.text_color),
        BindView::OptionalText(tag.border_color),
    ]
}

/// The values bound for the first `count` tags of a list, tag after tag.
pub open spec fn tags_binds(tags: Seq<Tag>, count: int) -> Seq<BindView>
    decreases count,
{
    if count <= 0 {
        Seq::empty()
    } else {
        tags_binds(tags, count - 1) + tag_binds(tags[count - 1]@)
    }
}

/// Lists every tag.
pub const SELECT_TAGS: &'static str =
    "SELECT * FROM tags;";

/// Looks up the tag with a name.
pub const SELECT_TAG: &'static str =
    "SELECT * FROM tags WHERE name = ?;";

/// Inserts a tag as a new row, unless the store has a tag of that name.
pub const INSERT_TAG: &'static str =
    "INSERT OR IGNORE INTO tags(name, background_color, text_color, border_color) VALUES (?, ?, ?, ?);";

/// Creates each of some tags whose name the store does not have yet, and leaves
/// the others as they are: up to the tags' groups of placeholders, of which
/// there is at least one.
pub const INSERT_MISSING_TAGS: &'static str =
    "INSERT OR IGNORE INTO tags(name, background_color, text_color, border_color) VALUES ";

/// The placeholders for one tag.
pub const TAG_PLACEHOLDERS: &'static str =
    "(?, ?, ?, ?)";

/// Ends a statement.
pub const END_OF_STATEMENT: &'static str =
    ";";

/// Writes a tag's colors over the row with its name.
pub const UPDATE_TAG: &'static str =
    "UPDATE tags SET background_color = ?, text_color = ?, border_color = ? WHERE name = ?;";

/// Deletes the tag with a name.
pub const DELETE_TAG: &'static str =
    "DELETE FROM tags WHERE name = ?;";

impl Tag {
    /// The statement that lists every tag.
    pub fn get_all() -> (statement: Statement)
        ensures
            statement@.sql == SELECT_TAGS@,
            statement@.binds == Seq::<BindView>::empty(),
    {
        let binds: Vec<Bind> = Vec::new();
        let statement = Statement { sql: SELECT_TAGS.to_owned(), binds };
        proof {
            assert(statement@.binds =~= Seq::<BindView>::empty());
        }
        statement
    }

    /// The statement that looks up the tag with a name.
    pub fn get_by_name(name: &str) -> (statement: Statement)
        ensures
            statement@.sql == SELECT_TAG@,
            statement@.binds == seq![
                BindView::Text(name@),
            ],
    {
        let mut binds: Vec<Bind> = Vec::new();
        binds.push(Bind::Text(name.to_owned()));
        let statement = Statement { sql: SELECT_TAG.to_owned(), binds };
        proof {
            assert(statement@.binds =~= seq![
                BindView::Text(name@),
            ]);
        }
        statement
    }

    /// What a lookup of one tag answers, from what the store returned: the
    /// tag; none where the driver's error says that no row was found; else
    /// a failed select.
    pub fn found(row: Result<Tag, sqlx::Error>) -> (r: Result<Option<Tag>, DbError>)
        ensures
            r == selected(row, "tags"),
    {
        select_one(row, "tags")
    }

    /// The statement that inserts this tag as a new row, unless the store
    /// has a tag of its name.
    pub fn insert(&self) -> (statement: Statement)
        ensures
            statement@.sql == INSERT_TAG@,
            statement@.binds == tag_binds(self@),
    {
        let mut binds: Vec<Bind> = Vec::new();
        binds.push(Bind::Text(self.name.clone()));
        binds.push(Bind::OptionalText(clone_optional(&self.background_color)));
        binds.push(Bind::OptionalText(clone_optional(&self.text_color)));
        binds.push(Bind::OptionalText(clone_optional(&self.border_color)));
        let statement = Statement { sql: INSERT_TAG.to_owned(), binds };
        proof {
            assert(statement@.binds =~= tag_binds(self@));
        }
        statement
    }

    /// The statement that creates each of the tags whose name the store
    /// does not have yet, and leaves the others as they are: one group of
    /// four placeholders for each tag. For no tags there is nothing to run,
    /// and no statement.
    pub fn insert_many(tags: &[Tag]) -> (r: Option<Statement>)
        ensures
            match r {
                Some(statement) => {
                    &&& tags@.len() > 0
                    &&& statement@.sql == INSERT_MISSING_TAGS@ + repeated(
                        TAG_PLACEHOLDERS@,
                        tags@.len(),
                    ) + END_OF_STATEMENT@
                    &&& statement@.binds == tags_binds(tags@, tags@.len() as int)
                },
                None => tags@.len() == 0,
            },
    {
        if tags.len() == 0 {
            return None;
        }
        let mut sql = INSERT_MISSING_TAGS.to_owned();
        sql.append(placeholders(TAG_PLACEHOLDERS, tags.len()).as_str());
        sql.append(END_OF_STATEMENT);
        let mut binds: Vec<Bind> = Vec::new();
        let mut i: usize = 0;
        while i < tags.len()
            invariant
                0 <= i <= tags.len(),
                binds@.map_values(|bind: Bind| bind@) == tags_binds(tags@, i as int),
            decreases tags.len() - i,
        {
            let ghost before = binds@.map_values(|bind: Bind| bind@);
            let tag = &tags[i];
            binds.push(Bind::Text(tag.name.clone()));
            binds.push(Bind::OptionalText(clone_optional(&tag.background_color)));
            binds.push(Bind::OptionalText(clone_optional(&tag.text_color)));
            binds.push(Bind::OptionalText(clone_optional(&tag.border_color)));
            proof {
                assert(binds@.map_values(|bind: Bind| bind@) =~= before + tag_binds(tag@));
            }
            i = i + 1;
        }
        Some(Statement { sql, binds })
    }

    /// The statement that writes this tag's colors over the row with its
    /// name.
    pub fn update(&self) -> (statement: Statement)
        ensures
            statement@.sql == UPDATE_TAG@,
            statement@.binds == seq![
                BindView::OptionalText(self.background_color.deep_view()),
                BindView::OptionalText(self.text_color.deep_view()),
                BindView::OptionalText(self.border_color.deep_view()),
                BindView::Text(self.name@),
            ],
    {
        let mut binds: Vec<Bind> = Vec::new();
        binds.push(Bind::OptionalText(clone_optional(&self.background_color)));
        binds.push(Bind::OptionalText(clone_optional(&self.text_color)));
        binds.push(Bind::OptionalText(clone_optional(&self.border_color)));
        binds.push(Bind::Text(self.name.clone()));
        let statement = Statement { sql: UPDATE_TAG.to_owned(), binds };
        proof {
            assert(statement@.binds =~= seq![
                BindView::OptionalText(self.background_color.deep_view()),
                BindView::OptionalText(self.text_color.deep_view()),
                BindView::OptionalText(self.border_color.deep_view()),
                BindView::Text(self.name@),
            ]);
        }
        statement
    }

    /// The statement that deletes the tag with a name.
    pub fn delete(name: &str) -> (statement: Statement)
        ensures
            statement@.sql == DELETE_TAG@,
            statement@.binds == seq![
                BindView::Text(name@),
            ],
    {
        let mut binds: Vec<Bind> = Vec::new();
        binds.push(Bind::Text(name.to_owned()));
        let statement = Statement { sql: DELETE_TAG.to_owned(), binds };
        proof {
            assert(statement@.binds =~= seq![
                BindView::Text(name@),
            ]);
        }
        statement
    }

    /// A tag without colors, created and updated at `now`.
    pub fn plain(name: String, now: Timestamp) -> (tag: Tag)
        ensures
            tag@ == plain_tag(name@, now),
    {
        Tag {
            name,
            background_color: None,
            text_color: None,
            border_color: None,
            created_at: now,
            updated_at: now,
        }
    }

    /// A copy of this tag.
    pub fn duplicate(&self) -> (tag: Tag)
        ensures
            tag@ == self@,
    {
        Tag {
            name: self.name.clone(),
            background_color: clone_optional(&self.background_color),
            text_color: clone_optional(&self.text_color),
            border_color: clone_optional(&self.border_color),
            created_at: self.created_at,
            updated_at: self.updated_at,
        }
    }
}

} // verus!
