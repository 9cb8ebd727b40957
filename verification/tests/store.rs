use clip_verse::store::{
    content_hash_query, content_size, delete_record_statement, image_content_statement,
    image_preview, image_record_statement, list_text_records_query, scan_columns, table_info_sql,
    text_content_statement, text_preview, text_record_statement, ColumnScan, SqlValue,
    DELETE_RECORD_SQL, FIND_CONTENT_HASH_SQL, INSERT_IMAGE_CONTENT_SQL, INSERT_IMAGE_RECORD_SQL,
    INSERT_TEXT_CONTENT_SQL, INSERT_TEXT_RECORD_SQL, LIST_TEXT_MATCHING_SQL, LIST_TEXT_SQL,
};

fn text(s: &str) -> SqlValue {
    SqlValue::Text(s.to_string())
}

#[test]
fn preview_keeps_first_80_characters() {
    let long: String = "汉".repeat(100);
    assert_eq!(text_preview(&long), "汉".repeat(80));
    assert_eq!(text_preview("short"), "short");
    let exact = "a".repeat(80);
    assert_eq!(text_preview(&exact), exact);
}

#[test]
fn size_counts_utf8_bytes() {
    assert_eq!(content_size("abc"), 3);
    assert_eq!(content_size("汉字"), 6);
    assert_eq!(content_size(""), 0);
}

#[test]
fn image_preview_text() {
    assert_eq!(image_preview(1920, 1080), "图片 1920x1080");
}

#[test]
fn text_record_row() {
    let s = text_record_statement("hello", "abc123", 1700000000000, "2023-11-14T22:13:20+08:00");
    assert_eq!(s.sql, INSERT_TEXT_RECORD_SQL);
    assert_eq!(
        s.params,
        vec![
            text("text"),
            SqlValue::Integer(1700000000000),
            text("2023-11-14T22:13:20+08:00"),
            text("2023-11-14T22:13:20+08:00"),
            text("hello"),
            SqlValue::Integer(5),
            text("abc123"),
        ]
    );
}

#[test]
fn text_content_row() {
    let s = text_content_statement(42, "hello", "now");
    assert_eq!(s.sql, INSERT_TEXT_CONTENT_SQL);
    assert_eq!(s.params, vec![SqlValue::Integer(42), text("hello"), text("now"), text("now")]);
}

#[test]
fn image_record_row() {
    let s = image_record_statement(2, 3, 24, "h", true, 10, "t");
    assert_eq!(s.sql, INSERT_IMAGE_RECORD_SQL);
    assert_eq!(
        s.params,
        vec![
            text("image"),
            SqlValue::Integer(10),
            text("t"),
            text("t"),
            text("图片 2x3"),
            SqlValue::Integer(24),
            SqlValue::Integer(1),
            text("h"),
        ]
    );
    assert_eq!(image_record_statement(2, 3, 24, "h", false, 10, "t").params[6], SqlValue::Integer(0));
}

#[test]
fn image_content_row() {
    let s = image_content_statement(7, "/r.png", None, Some("/e.enc"), 2, 3, "t");
    assert_eq!(s.sql, INSERT_IMAGE_CONTENT_SQL);
    assert_eq!(
        s.params,
        vec![
            SqlValue::Integer(7),
            text("/r.png"),
            SqlValue::Null,
            text("/e.enc"),
            SqlValue::Integer(2),
            SqlValue::Integer(3),
            text("t"),
            text("t"),
        ]
    );
}

#[test]
fn hash_lookup() {
    let s = content_hash_query("ff00");
    assert_eq!(s.sql, FIND_CONTENT_HASH_SQL);
    assert_eq!(s.params, vec![text("ff00")]);
}

#[test]
fn listing_with_keyword() {
    let s = list_text_records_query(50, Some("rust"));
    assert!(s.sql.contains("instr(t.content, ?1) > 0"));
    assert_eq!(s.sql, LIST_TEXT_MATCHING_SQL);
    assert_eq!(s.params, vec![text("rust"), SqlValue::Integer(50)]);
}

#[test]
fn listing_without_keyword() {
    let s = list_text_records_query(100, None);
    assert_eq!(s.sql, LIST_TEXT_SQL);
    assert_eq!(s.params, vec![SqlValue::Integer(100)]);
}

#[test]
fn deletion() {
    let s = delete_record_statement(9);
    assert_eq!(s.sql, DELETE_RECORD_SQL);
    assert_eq!(s.params, vec![SqlValue::Integer(9)]);
}

#[test]
fn pragma_for_table() {
    assert_eq!(table_info_sql("clipboard_records"), "PRAGMA table_info(clipboard_records)");
}

#[test]
fn column_scan_outcomes() {
    let names = |v: &[Option<&str>]| v.iter().map(|n| n.map(|s| s.to_string())).collect::<Vec<_>>();
    assert_eq!(scan_columns(&names(&[Some("id"), Some("content_hash")]), "content_hash"), ColumnScan::Present);
    assert_eq!(scan_columns(&names(&[Some("id"), Some("preview")]), "content_hash"), ColumnScan::Absent);
    assert_eq!(scan_columns(&names(&[]), "content_hash"), ColumnScan::Absent);
    assert_eq!(scan_columns(&names(&[Some("id"), None, Some("content_hash")]), "content_hash"), ColumnScan::Failed(1));
    assert_eq!(scan_columns(&names(&[Some("content_hash"), None]), "content_hash"), ColumnScan::Present);
}
