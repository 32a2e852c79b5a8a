use my_feed::db::{placeholders, select_one, Bind, DbError, Item, Source, Tag, ViolationKind};
use my_feed::time::Timestamp;

fn names(list: &[&str]) -> Vec<String> {
    list.iter().map(|name| name.to_string()).collect()
}

fn texts(binds: &[Bind]) -> Vec<String> {
    binds.iter().map(|bind| format!("{:?}", bind)).collect()
}

fn tag(name: &str, background: Option<&str>, text: Option<&str>, border: Option<&str>) -> Tag {
    Tag {
        name: name.to_string(),
        background_color: background.map(|c| c.to_string()),
        text_color: text.map(|c| c.to_string()),
        border_color: border.map(|c| c.to_string()),
        created_at: Timestamp { secs: 0, nanos: 0 },
        updated_at: Timestamp { secs: 0, nanos: 0 },
    }
}

#[test]
fn placeholders_are_separated_by_commas() {
    assert_eq!(placeholders("?", 0), "");
    assert_eq!(placeholders("?", 1), "?");
    assert_eq!(placeholders("?", 3), "?,?,?");
    assert_eq!(placeholders("(?, ?)", 2), "(?, ?),(?, ?)");
    assert_eq!(placeholders("", 3), ",,");
}

#[test]
fn insert_many_binds_four_values_for_each_tag() {
    let statement = Tag::insert_many(&[
        tag("tech", None, None, None),
        tag("news", Some("#000"), Some("#fff"), Some("#ccc")),
    ])
    .unwrap();
    assert_eq!(
        statement.sql,
        "INSERT OR IGNORE INTO tags(name, background_color, text_color, border_color) VALUES (?, ?, ?, ?),(?, ?, ?, ?);"
    );
    assert_eq!(
        texts(&statement.binds),
        vec![
            "Text(\"tech\")",
            "OptionalText(None)",
            "OptionalText(None)",
            "OptionalText(None)",
            "Text(\"news\")",
            "OptionalText(Some(\"#000\"))",
            "OptionalText(Some(\"#fff\"))",
            "OptionalText(Some(\"#ccc\"))",
        ]
    );
}

#[test]
fn insert_many_of_no_tags_is_nothing_to_run() {
    assert!(Tag::insert_many(&[]).is_none());
    let one = Tag::insert_many(&[tag("solo", None, None, None)]).unwrap();
    assert_eq!(
        one.sql,
        "INSERT OR IGNORE INTO tags(name, background_color, text_color, border_color) VALUES (?, ?, ?, ?);"
    );
    assert_eq!(one.binds.len(), 4);
}

#[test]
fn item_is_linked_to_tags_by_id_and_names() {
    let statement = Item::add_tags(12, &names(&["tech", "news"]));
    assert_eq!(
        statement.sql,
        "INSERT OR IGNORE INTO items_to_tags (item_id, tag_id) SELECT ?, name FROM tags WHERE name IN (?,?);"
    );
    assert_eq!(texts(&statement.binds), vec!["Integer(12)", "Text(\"tech\")", "Text(\"news\")"]);
}

#[test]
fn source_is_linked_to_tags_by_id_and_names() {
    let statement = Source::add_tags(-3, &names(&["a"]));
    assert_eq!(
        statement.sql,
        "INSERT OR IGNORE INTO sources_to_tags (source_id, tag_id) SELECT ?, name FROM tags WHERE name IN (?);"
    );
    assert_eq!(texts(&statement.binds), vec!["Integer(-3)", "Text(\"a\")"]);
}

#[test]
fn rows_with_all_tags_are_selected_by_names_and_their_number() {
    let items = Item::all_with_tags(&names(&["a", "b", "c"]));
    assert_eq!(
        items.sql,
        "SELECT i.* FROM items i JOIN items_to_tags st ON i.id = st.item_id JOIN tags t ON st.tag_id = t.name WHERE t.name IN (?,?,?) GROUP BY i.id HAVING COUNT(DISTINCT t.name) = ?;"
    );
    assert_eq!(
        texts(&items.binds),
        vec!["Text(\"a\")", "Text(\"b\")", "Text(\"c\")", "Count(3)"]
    );
    let sources = Source::all_with_tags(&names(&[]));
    assert_eq!(
        sources.sql,
        "SELECT s.* FROM sources s JOIN sources_to_tags st ON s.id = st.source_id JOIN tags t ON st.tag_id = t.name WHERE t.name IN () GROUP BY s.id HAVING COUNT(DISTINCT t.name) = ?;"
    );
    assert_eq!(texts(&sources.binds), vec!["Count(0)"]);
}

#[test]
fn row_that_is_not_found_is_no_row() {
    assert!(matches!(select_one::<i32>(Ok(5), "items"), Ok(Some(5))));
    assert!(matches!(select_one::<i32>(Err(sqlx::Error::RowNotFound), "items"), Ok(None)));
    assert!(matches!(
        select_one::<i32>(Err(sqlx::Error::PoolClosed), "items"),
        Err(DbError::SelectError("items", sqlx::Error::PoolClosed))
    ));
    assert!(matches!(Tag::found(Err(sqlx::Error::RowNotFound)), Ok(None)));
    assert!(matches!(
        Tag::found(Err(sqlx::Error::PoolTimedOut)),
        Err(DbError::SelectError("tags", _))
    ));
    assert!(matches!(
        Source::found(Err(sqlx::Error::WorkerCrashed)),
        Err(DbError::SelectError("sources", _))
    ));
    assert!(matches!(
        Item::found(Err(sqlx::Error::WorkerCrashed)),
        Err(DbError::SelectError("items", _))
    ));
    let found = Tag::found(Ok(tag("x", None, None, None))).unwrap().unwrap();
    assert_eq!(found.name, "x");
}

#[test]
fn driver_error_is_handed_out() {
    assert!(matches!(
        DbError::InsertError("items", sqlx::Error::RowNotFound).into_sqlx_error(),
        sqlx::Error::RowNotFound
    ));
    assert!(matches!(
        DbError::UpdateError("items", sqlx::Error::PoolClosed).into_sqlx_error(),
        sqlx::Error::PoolClosed
    ));
    assert!(matches!(
        DbError::SelectError("items", sqlx::Error::PoolTimedOut).into_sqlx_error(),
        sqlx::Error::PoolTimedOut
    ));
    assert!(matches!(
        DbError::DeleteError("items", sqlx::Error::WorkerCrashed).into_sqlx_error(),
        sqlx::Error::WorkerCrashed
    ));
}

#[test]
fn errors_that_are_not_the_database_s_have_no_violation() {
    assert_eq!(DbError::InsertError("items", sqlx::Error::RowNotFound).violation(), None);
    assert_eq!(DbError::UpdateError("items", sqlx::Error::PoolClosed).violation(), None);
    assert_eq!(DbError::InvalidRow("items", "bad".to_string()).violation(), None);
    assert_ne!(Some(ViolationKind::Unique), None);
}

#[test]
fn item_is_inserted_with_nine_values() {
    let item = Item {
        id: 77,
        link: "https://example.com/1".to_string(),
        title: Some("Title".to_string()),
        description: None,
        author: Some("Author".to_string()),
        published: Some(Timestamp { secs: 5, nanos: 6 }),
        source_link: Some("https://example.com/feed".to_string()),
        image: None,
        favorite: true,
        done: true,
        created_at: Timestamp { secs: 1, nanos: 0 },
        updated_at: Timestamp { secs: 2, nanos: 0 },
        source_id: Some(3),
    };
    let statement = item.insert();
    assert_eq!(
        statement.sql,
        "INSERT INTO items(link, title, description, author, published, source_link, image, favorite, source_id) VALUES (?, ?, ?, ?, ?, ?, ?, ?, ?);"
    );
    assert_eq!(
        texts(&statement.binds),
        vec![
            "Text(\"https://example.com/1\")",
            "OptionalText(Some(\"Title\"))",
            "OptionalText(None)",
            "OptionalText(Some(\"Author\"))",
            "OptionalTime(Some(Timestamp { secs: 5, nanos: 6 }))",
            "OptionalText(Some(\"https://example.com/feed\"))",
            "OptionalText(None)",
            "Flag(true)",
            "OptionalInteger(Some(3))",
        ]
    );
}

#[test]
fn source_is_written_by_its_id() {
    let source = Source {
        id: 4,
        name: "Name".to_string(),
        url: "https://example.com/feed".to_string(),
        last_pub: Timestamp { secs: 10, nanos: 0 },
        last_poll: None,
        ttl: Some(30),
        favorite: false,
        created_at: Timestamp { secs: 1, nanos: 0 },
        updated_at: Timestamp { secs: 2, nanos: 0 },
        min_date: Some(Timestamp { secs: 3, nanos: 0 }),
    };
    let statement = source.update();
    assert_eq!(
        statement.sql,
        "UPDATE sources SET name = ?, url = ?, last_pub = ?, last_poll = ?, ttl = ?, favorite = ? WHERE id = ?;"
    );
    assert_eq!(
        texts(&statement.binds),
        vec![
            "Text(\"Name\")",
            "Text(\"https://example.com/feed\")",
            "Time(Timestamp { secs: 10, nanos: 0 })",
            "OptionalTime(None)",
            "OptionalInteger(Some(30))",
            "Flag(false)",
            "Integer(4)",
        ]
    );
}

#[test]
fn sources_and_their_tags_are_listed() {
    let all = Source::get_all();
    assert_eq!(all.sql, "SELECT * FROM sources;");
    assert!(all.binds.is_empty());
    let tags = Source::tags(8);
    assert_eq!(
        tags.sql,
        "SELECT t.* FROM tags t JOIN sources_to_tags st ON t.name = st.tag_id WHERE st.source_id = ?;"
    );
    assert_eq!(texts(&tags.binds), vec!["Integer(8)"]);
}

#[test]
fn rows_are_looked_up_changed_and_deleted_by_their_key() {
    let one = |sql: &str, binds: &[&str], statement: my_feed::db::Statement| {
        assert_eq!(statement.sql, sql);
        assert_eq!(texts(&statement.binds), binds.to_vec());
    };
    one("SELECT * FROM items;", &[], Item::get_all());
    one("SELECT * FROM tags;", &[], Tag::get_all());
    one("SELECT * FROM items WHERE id = ?;", &["Integer(5)"], Item::get_by_id(5));
    one("SELECT * FROM sources WHERE id = ?;", &["Integer(6)"], Source::get_by_id(6));
    one("SELECT * FROM tags WHERE name = ?;", &["Text(\"a\")"], Tag::get_by_name("a"));
    one(
        "UPDATE items SET done = ? WHERE id = ?;",
        &["Flag(true)", "Integer(7)"],
        Item::set_done(7, true),
    );
    one(
        "DELETE FROM items_to_tags WHERE item_id = ? AND tag_id = ?;",
        &["Integer(8)", "Text(\"t\")"],
        Item::remove_tag(8, "t"),
    );
    one(
        "DELETE FROM sources_to_tags WHERE source_id = ? AND tag_id = ?;",
        &["Integer(9)", "Text(\"t\")"],
        Source::remove_tag(9, "t"),
    );
    one("DELETE FROM items WHERE id = ?;", &["Integer(1)"], Item::delete(1));
    one("DELETE FROM sources WHERE id = ?;", &["Integer(2)"], Source::delete(2));
    one("DELETE FROM tags WHERE name = ?;", &["Text(\"old\")"], Tag::delete("old"));
}

#[test]
fn new_rows_are_inserted_with_their_values() {
    let statement = tag("news", Some("#000"), None, Some("#ccc")).insert();
    assert_eq!(
        statement.sql,
        "INSERT OR IGNORE INTO tags(name, background_color, text_color, border_color) VALUES (?, ?, ?, ?);"
    );
    assert_eq!(
        texts(&statement.binds),
        vec![
            "Text(\"news\")",
            "OptionalText(Some(\"#000\"))",
            "OptionalText(None)",
            "OptionalText(Some(\"#ccc\"))",
        ]
    );
    let statement = tag("news", Some("#000"), None, Some("#ccc")).update();
    assert_eq!(
        statement.sql,
        "UPDATE tags SET background_color = ?, text_color = ?, border_color = ? WHERE name = ?;"
    );
    assert_eq!(
        texts(&statement.binds),
        vec![
            "OptionalText(Some(\"#000\"))",
            "OptionalText(None)",
            "OptionalText(Some(\"#ccc\"))",
            "Text(\"news\")",
        ]
    );
    let source = Source {
        id: 4,
        name: "Name".to_string(),
        url: "https://example.com/feed".to_string(),
        last_pub: Timestamp { secs: 10, nanos: 0 },
        last_poll: Some(Timestamp { secs: 11, nanos: 0 }),
        ttl: None,
        favorite: true,
        created_at: Timestamp { secs: 1, nanos: 0 },
        updated_at: Timestamp { secs: 2, nanos: 0 },
        min_date: Some(Timestamp { secs: 3, nanos: 0 }),
    };
    let statement = source.insert();
    assert_eq!(
        statement.sql,
        "INSERT INTO sources(name, url, last_pub, last_poll, ttl, favorite, min_date) VALUES (?, ?, ?, ?, ?, ?, ?);"
    );
    assert_eq!(
        texts(&statement.binds),
        vec![
            "Text(\"Name\")",
            "Text(\"https://example.com/feed\")",
            "Time(Timestamp { secs: 10, nanos: 0 })",
            "OptionalTime(Some(Timestamp { secs: 11, nanos: 0 }))",
            "OptionalInteger(None)",
            "Flag(true)",
            "OptionalTime(Some(Timestamp { secs: 3, nanos: 0 }))",
        ]
    );
}
