//! The rows that the store keeps, and the ways a call to it can fail.

use vstd::prelude::*;
use vstd::string::StringExecFns;

use crate::time::Timestamp;

pub mod item;
pub mod source;
pub mod tag;

pub use item::Item;
pub use source::Source;
pub use tag::Tag;

verus! {

/// `sqlx::Error`: the driver's error, carried through unread.
#[verifier::external_type_specification]
#[verifier::external_body]
pub struct ExSqlxError(sqlx::Error);

/// A failed call to the store: what was attempted, on which table, and the
/// driver's error; or a row that could not be read.
#[derive(Debug)]
pub enum DbError {
    InsertError(&'static str, sqlx::Error),
    UpdateError(&'static str, sqlx::Error),
    SelectError(&'static str, sqlx::Error),
    DeleteError(&'static str, sqlx::Error),
    InvalidRow(&'static str, String),
}

/// A value bound to a placeholder of a statement.
#[derive(Debug)]
pub enum Bind {
    Integer(i64),
    OptionalInteger(Option<i64>),
    Count(usize),
    Flag(bool),
    Text(String),
    OptionalText(Option<String>),
    Time(Timestamp),
    OptionalTime(Option<Timestamp>),
}

/// A bound value as plain values.
pub enum BindView {
    Integer(i64),
    OptionalInteger(Option<i64>),
    Count(usize),
    Flag(bool),
    Text(Seq<char>),
    OptionalText(Option<Seq<char>>),
    Time(Timestamp),
    OptionalTime(Option<Timestamp>),
}

impl View for Bind {
    type V = BindView;

    open spec fn view(&self) -> BindView {
        match self {
            Bind::Integer(value) => BindView::Integer(*value),
            Bind::OptionalInteger(value) => BindView::OptionalInteger(*value),
            Bind::Count(value) => BindView::Count(*value),
            Bind::Flag(value) => BindView::Flag(*value),
            Bind::Text(value) => BindView::Text(value@),
            Bind::OptionalText(value) => BindView::OptionalText(value.deep_view()),
            Bind::Time(value) => BindView::Time(*value),
            Bind::OptionalTime(value) => BindView::OptionalTime(*value),
        }
    }
}

/// A statement for the store: its text, with a `?` for each value, and the
/// values in the order of their placeholders.
#[derive(Debug)]
pub struct Statement {
    pub sql: String,
    pub binds: Vec<Bind>,
}

/// A statement as plain values.
pub struct StatementView {
    pub sql: Seq<char>,
    pub binds: Seq<BindView>,
}

impl View for Statement {
    type V = StatementView;

    open spec fn view(&self) -> StatementView {
        StatementView { sql: self.sql@, binds: self.binds@.map_values(|bind: Bind| bind@) }
    }
}

/// Ends a list of placeholders for tags, and the statement with it.
pub const END_OF_TAGS: &'static str = ");";

/// `count` copies of a piece of text with a comma between them.
pub open spec fn repeated(piece: Seq<char>, count: nat) -> Seq<char>
    decreases count,
{
    if count == 0 {
        Seq::empty()
    } else if count == 1 {
        piece
    } else {
        repeated(piece, (count - 1) as nat) + seq![','] + piece
    }
}

/// A text bound for each name, in order.
pub open spec fn text_binds(names: Seq<Seq<char>>) -> Seq<BindView> {
    names.map_values(|name: Seq<char>| BindView::Text(name))
}

/// `count` copies of a piece of text with a comma between them.
pub fn placeholders(piece: &str, count: usize) -> (text: String)
    ensures
        text@ == repeated(piece@, count as nat),
{
    let mut text = String::new();
    let mut i: usize = 0;
    while i < count
        invariant
            0 <= i <= count,
            text@ == repeated(piece@, i as nat),
        decreases count - i,
    {
        if i > 0 {
            proof {
                reveal_strlit(",");
                assert(","@ =~= seq![',']);
            }
            text.append(",");
        }
        text.append(piece);
        proof {
            if i == 0 {
                assert(text@ =~= piece@);
            }
        }
        i = i + 1;
    }
    text
}

/// Appends a text bound for each name.
pub fn bind_names(binds: &mut Vec<Bind>, names: &Vec<String>)
    ensures
        final(binds)@.map_values(|bind: Bind| bind@) == old(binds)@.map_values(|bind: Bind| bind@)
            + text_binds(names.deep_view()),
{
    let ghost start = binds@.map_values(|bind: Bind| bind@);
    let ghost all = text_binds(names.deep_view());
    let mut i: usize = 0;
    proof {
        assert(binds@.map_values(|bind: Bind| bind@) =~= start + all.take(0));
    }
    while i < names.len()
        invariant
            0 <= i <= names.len(),
            all == text_binds(names.deep_view()),
            binds@.map_values(|bind: Bind| bind@) == start + all.take(i as int),
        decreases names.len() - i,
    {
        let ghost before = binds@.map_values(|bind: Bind| bind@);
        let bind = Bind::Text(names[i].clone());
        let ghost added = bind@;
        binds.push(bind);
        proof {
            assert(added == all[i as int]);
            assert(binds@.map_values(|bind: Bind| bind@) =~= before.push(added));
            assert(start + all.take(i + 1) =~= (start + all.take(i as int)).push(all[i as int]));
        }
        i = i + 1;
    }
    proof {
        assert(all.take(names.len() as int) == all);
    }
}

/// What kind of failure the database reported, as far as the driver tells.
#[derive(Debug, Clone, Copy, PartialEq, Eq, Structural)]
pub enum ViolationKind {
    Unique,
    ForeignKey,
    NotNull,
    Check,
    Other,
}

/// The kind of failure that the database reported in a driver's error;
/// none where the error did not come from the database.
pub uninterp spec fn reported_kind(error: sqlx::Error) -> Option<ViolationKind>;

/// Whether a driver's error says that a query found no row.
pub uninterp spec fn row_missing(error: sqlx::Error) -> bool;

/// `sqlx::Error::as_database_error` and `DatabaseError::kind`: the kind of
/// failure that the database reported, or none where the error did not come
/// from the database. The kind depends on the error alone.
#[verifier::external_body]
fn violation_kind(error: &sqlx::Error) -> (kind: Option<ViolationKind>)
    ensures
        kind == reported_kind(*error),
{
    match error.as_database_error()?.kind() {
        sqlx::error::ErrorKind::UniqueViolation => Some(ViolationKind::Unique),
        sqlx::error::ErrorKind::ForeignKeyViolation => Some(ViolationKind::ForeignKey),
        sqlx::error::ErrorKind::NotNullViolation => Some(ViolationKind::NotNull),
        sqlx::error::ErrorKind::CheckViolation => Some(ViolationKind::Check),
        _ => Some(ViolationKind::Other),
    }
}

/// Whether an `sqlx::Error` is its variant `RowNotFound`.
#[verifier::external_body]
fn is_row_not_found(error: &sqlx::Error) -> (missing: bool)
    ensures
        missing == row_missing(*error),
{
    matches!(error, sqlx::Error::RowNotFound)
}

/// What a lookup answers to an error of the driver: no row where the error
/// says that none was found, else a failed select on the table.
pub open spec fn answer_to_error<T>(error: sqlx::Error, missing: bool, table: &'static str) -> Result<
    Option<T>,
    DbError,
> {
    if missing {
        Ok(None)
    } else {
        Err(DbError::SelectError(table, error))
    }
}

/// What a lookup answers when the store returned an error: no row where
/// the error says that none was found, else a failed select on the table.
pub fn missing_or_failed<T>(error: sqlx::Error, missing: bool, table: &'static str) -> (r: Result<
    Option<T>,
    DbError,
>)
    ensures
        r == answer_to_error::<T>(error, missing, table),
{
    if missing {
        Ok(None)
    } else {
        Err(DbError::SelectError(table, error))
    }
}

/// What a lookup of one row answers to what the store returned.
pub open spec fn selected<T>(row: Result<T, sqlx::Error>, table: &'static str) -> Result<
    Option<T>,
    DbError,
> {
    match row {
        Ok(found) => Ok(Some(found)),
        Err(error) => answer_to_error::<T>(error, row_missing(error), table),
    }
}

/// What a lookup of one row answers, from what the store returned: the row
/// that was found; no row, where the driver's error says that none was
/// found; else a failed select on the table, with the driver's error.
pub fn select_one<T>(row: Result<T, sqlx::Error>, table: &'static str) -> (r: Result<
    Option<T>,
    DbError,
>)
    ensures
        r == selected(row, table),
{
    match row {
        Ok(found) => Ok(Some(found)),
        Err(error) => {
            let missing = is_row_not_found(&error);
            missing_or_failed(error, missing, table)
        },
    }
}

impl DbError {
    /// The kind of failure that the database reported, where this error
    /// holds a driver's error that came from the database.
    pub open spec fn reported(self) -> Option<ViolationKind> {
        match self.driver_error() {
            Some(error) => reported_kind(error),
            None => None,
        }
    }

    /// The kind of failure that the database reported: what the driver
    /// tells of the error that this error holds, and none for an invalid
    /// row, which holds no driver's error.
    pub fn violation(&self) -> (kind: Option<ViolationKind>)
        ensures
            kind == self.reported(),
    {
        match self {
            DbError::InsertError(_, error) => violation_kind(error),
            DbError::UpdateError(_, error) => violation_kind(error),
            DbError::SelectError(_, error) => violation_kind(error),
            DbError::DeleteError(_, error) => violation_kind(error),
            DbError::InvalidRow(_, _) => None,
        }
    }

    /// The driver's error, where there is one.
    pub open spec fn driver_error(self) -> Option<sqlx::Error> {
        match self {
            DbError::InsertError(_, error) => Some(error),
            DbError::UpdateError(_, error) => Some(error),
            DbError::SelectError(_, error) => Some(error),
            DbError::DeleteError(_, error) => Some(error),
            DbError::InvalidRow(_, _) => None,
        }
    }

    /// Hands out the driver's error. An invalid row holds none.
    pub fn into_sqlx_error(self) -> (error: sqlx::Error)
        requires
            !(self is InvalidRow),
        ensures
            self.driver_error() == Some(error),
    {
        match self {
            DbError::InsertError(_, error) => error,
            DbError::UpdateError(_, error) => error,
            DbError::SelectError(_, error) => error,
            DbError::DeleteError(_, error) => error,
            DbError::InvalidRow(_, _) => unreached(),
        }
    }
}

} // verus!
