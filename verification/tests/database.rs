use clip_verse::commands::safe_limit;
use clip_verse::store::{
    content_hash_query, list_text_records_query, CONNECTION_SETUP_SQL, scan_columns, table_info_sql, text_content_statement,
    text_record_statement, ColumnScan, SqlValue, ADD_HASH_COLUMN_SQL, DELETE_RECORD_SQL,
    HASH_COLUMN, HASH_COLUMN_TABLE, HASH_INDEX_SQL, SCHEMA_SQL,
};
use rusqlite::types::Value;
use rusqlite::{params_from_iter, Connection};

fn bind(params: Vec<SqlValue>) -> Vec<Value> {
    params
        .into_iter()
        .map(|p| match p {
            SqlValue::Null => Value::Null,
            SqlValue::Integer(i) => Value::Integer(i),
            SqlValue::Text(t) => Value::Text(t),
        })
        .collect()
}

fn columns(conn: &Connection, table: &str) -> Vec<Option<String>> {
    let mut stmt = conn.prepare(&table_info_sql(table)).unwrap();
    let rows = stmt.query_map([], |row| row.get::<_, String>(1)).unwrap();
    rows.map(|r| r.ok()).collect()
}

fn init(conn: &Connection) {
    conn.execute_batch(SCHEMA_SQL).unwrap();
    match scan_columns(&columns(conn, HASH_COLUMN_TABLE), HASH_COLUMN) {
        ColumnScan::Present => {}
        ColumnScan::Absent => {
            conn.execute(ADD_HASH_COLUMN_SQL, []).unwrap();
        }
        ColumnScan::Failed(i) => panic!("column {i} unreadable"),
    }
    conn.execute_batch(HASH_INDEX_SQL).unwrap();
}

fn add_text(conn: &Connection, content: &str, ts: i64) -> i64 {
    let s = text_record_statement(content, "", ts, "t");
    conn.execute(&s.sql, params_from_iter(bind(s.params))).unwrap();
    let id = conn.last_insert_rowid();
    let s = text_content_statement(id, content, "t");
    conn.execute(&s.sql, params_from_iter(bind(s.params))).unwrap();
    id
}

fn search(conn: &Connection, keyword: Option<&str>) -> Vec<String> {
    let q = list_text_records_query(safe_limit(None), keyword);
    let mut stmt = conn.prepare(&q.sql).unwrap();
    let rows = stmt.query_map(params_from_iter(bind(q.params)), |row| row.get::<_, String>(6)).unwrap();
    rows.map(|r| r.unwrap()).collect()
}

#[test]
fn schema_has_documented_tables() {
    let conn = Connection::open_in_memory().unwrap();
    init(&conn);
    let mut stmt = conn.prepare("SELECT name FROM sqlite_master WHERE type = 'table' AND name NOT LIKE 'sqlite_%' ORDER BY name").unwrap();
    let names: Vec<String> = stmt.query_map([], |r| r.get(0)).unwrap().map(|r| r.unwrap()).collect();
    assert_eq!(
        names,
        vec!["clipboard_records", "file_contents", "image_contents", "rich_text_contents", "settings", "text_contents"]
    );
    for table in ["text_contents", "image_contents", "file_contents", "rich_text_contents"] {
        let mut fk = conn.prepare(&format!("PRAGMA foreign_key_list({table})")).unwrap();
        let rows: Vec<(String, String)> = fk
            .query_map([], |r| Ok((r.get::<_, String>(2)?, r.get::<_, String>(6)?)))
            .unwrap()
            .map(|r| r.unwrap())
            .collect();
        assert_eq!(rows, vec![("clipboard_records".to_string(), "CASCADE".to_string())]);
    }
}

#[test]
fn older_database_gains_hash_column() {
    let conn = Connection::open_in_memory().unwrap();
    conn.execute_batch(
        "CREATE TABLE clipboard_records (id INTEGER PRIMARY KEY AUTOINCREMENT, content_type TEXT NOT NULL, timestamp INTEGER NOT NULL, created_at TEXT NOT NULL, updated_at TEXT NOT NULL, preview TEXT, content_size INTEGER, is_encrypted BOOLEAN DEFAULT 0, is_favorite BOOLEAN DEFAULT 0);",
    )
    .unwrap();
    init(&conn);
    assert!(columns(&conn, "clipboard_records").contains(&Some("content_hash".to_string())));
    let n: i64 = conn
        .query_row("SELECT COUNT(*) FROM sqlite_master WHERE name = 'idx_clipboard_records_content_hash'", [], |r| r.get(0))
        .unwrap();
    assert_eq!(n, 1);
    init(&conn);
}

#[test]
fn keyword_is_a_plain_substring() {
    let conn = Connection::open_in_memory().unwrap();
    init(&conn);
    add_text(&conn, "500 items", 1);
    add_text(&conn, "discount 50% today", 2);
    add_text(&conn, "abc", 3);
    add_text(&conn, "a_c", 4);
    add_text(&conn, "hi there", 5);
    assert_eq!(search(&conn, Some("50%")), vec!["discount 50% today"]);
    assert_eq!(search(&conn, Some("a_c")), vec!["a_c"]);
    assert_eq!(search(&conn, Some("Hi")), Vec::<String>::new());
    assert_eq!(search(&conn, Some("hi")), vec!["hi there"]);
    assert_eq!(search(&conn, None).len(), 5);
    assert_eq!(search(&conn, Some("")).len(), 5);
    assert_eq!(search(&conn, None)[0], "hi there");
}

#[test]
fn deleting_a_record_removes_its_text() {
    let conn = Connection::open_in_memory().unwrap();
    init(&conn);
    let id = add_text(&conn, "gone", 1);
    conn.execute(DELETE_RECORD_SQL, [id]).unwrap();
    let n: i64 = conn.query_row("SELECT COUNT(*) FROM text_contents", [], |r| r.get(0)).unwrap();
    assert_eq!(n, 0);
}

#[test]
fn deleting_on_a_fresh_connection_removes_its_text() {
    let name = "file:clip_verse_fk_test?mode=memory&cache=shared";
    let keeper = Connection::open(name).unwrap();
    init(&keeper);
    let id = add_text(&keeper, "gone", 1);
    let conn = Connection::open(name).unwrap();
    conn.execute_batch(CONNECTION_SETUP_SQL).unwrap();
    conn.execute(DELETE_RECORD_SQL, [id]).unwrap();
    let n: i64 = conn.query_row("SELECT COUNT(*) FROM text_contents", [], |r| r.get(0)).unwrap();
    assert_eq!(n, 0);
}

#[test]
fn initialising_twice_changes_nothing() {
    let conn = Connection::open_in_memory().unwrap();
    init(&conn);
    add_text(&conn, "kept", 1);
    let before = columns(&conn, "clipboard_records");
    assert_eq!(scan_columns(&before, HASH_COLUMN), ColumnScan::Present);
    init(&conn);
    assert_eq!(columns(&conn, "clipboard_records"), before);
    assert_eq!(search(&conn, None), vec!["kept"]);
}

#[test]
fn text_without_hash_is_stored_under_empty_hash() {
    let conn = Connection::open_in_memory().unwrap();
    init(&conn);
    add_text(&conn, "plain", 1);
    let q = content_hash_query("");
    let found: Option<i64> = conn
        .query_row(&q.sql, params_from_iter(bind(q.params)), |r| r.get(0))
        .ok();
    assert!(found.is_some());
    let q = content_hash_query(&clip_verse::digest::text_fingerprint("plain"));
    let found: Option<i64> = conn
        .query_row(&q.sql, params_from_iter(bind(q.params)), |r| r.get(0))
        .ok();
    assert!(found.is_none());
}
