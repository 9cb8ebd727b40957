//! The stored records: what each record holds, and every SQL statement the
//! recorder runs against its database, with the parameters bound to it.
use vstd::prelude::*;
use crate::text::{is_digit, lemma_signed_decimal_chars, lemma_signed_decimal_injective, push_signed_decimal, signed_decimal, string_push};

verus! {

/// A stored text record, as listed to the user.
#[derive(Debug, Clone, PartialEq, Eq)]
pub struct ClipboardRecord {
    pub id: i64,
    pub content_type: String,
    pub timestamp: i64,
    pub created_at: String,
    pub preview: String,
    pub content_size: i64,
    pub content: String,
}

/// Figures shown on the dashboard.
#[derive(Debug, Clone, PartialEq, Eq)]
pub struct DashboardStats {
    pub total_records: i64,
}

/// A value bound to a statement parameter.
#[derive(Debug, Clone, PartialEq, Eq)]
pub enum SqlValue {
    Null,
    Integer(i64),
    Text(String),
}

/// The view of a bound value.
pub enum SqlParam {
    Null,
    Integer(i64),
    Text(Seq<char>),
}

impl View for SqlValue {
    type V = SqlParam;

    open spec fn view(&self) -> SqlParam {
        match self {
            SqlValue::Null => SqlParam::Null,
            SqlValue::Integer(i) => SqlParam::Integer(*i),
            SqlValue::Text(t) => SqlParam::Text(t@),
        }
    }
}

/// An SQL statement with the values bound to its parameters `?1`, `?2`, ...
/// in order.
#[derive(Debug, Clone, PartialEq, Eq)]
pub struct SqlStatement {
    pub sql: String,
    pub params: Vec<SqlValue>,
}

/// The parameters of a statement, by view.
pub open spec fn params_view(s: &SqlStatement) -> Seq<SqlParam> {
    s.params@.map_values(|v: SqlValue| v@)
}

/// The first 80 characters of a text (all of it when it is shorter).
pub open spec fn text_preview_spec(content: Seq<char>) -> Seq<char> {
    if content.len() <= 80 {
        content
    } else {
        content.subrange(0, 80)
    }
}

/// The preview stored with a text record: its first 80 characters.
pub fn text_preview(content: &str) -> (res: String)
    ensures
        res@ == text_preview_spec(content@),
{
    let n: usize = content.unicode_len();
    let end: usize = if n <= 80 { n } else { 80 };
    let head = content.substring_char(0, end);
    proof {
        if n <= 80 {
            assert(content@.subrange(0, n as int) =~= content@);
        }
    }
    String::from_str(head)
}

/// The size stored with a text record: the length of its UTF-8 encoding in
/// bytes, converted to `i64` as `as` does (on a 64-bit target, the length
/// itself).
pub fn content_size(content: &str) -> (res: i64)
    ensures
        res == #[verifier::truncate] ((#[verifier::truncate] (vstd::utf8::encode_utf8(content@).len() as usize)) as i64),
{
    #[verifier::truncate] (content.len() as i64)
}

/// The preview stored with an image record: `图片 {width}x{height}`.
pub open spec fn image_preview_spec(width: int, height: int) -> Seq<char> {
    seq!['图', '片', ' '] + signed_decimal(width) + seq!['x'] + signed_decimal(height)
}

/// Builds the preview of an image record.
pub fn image_preview(width: i64, height: i64) -> (res: String)
    ensures
        res@ == image_preview_spec(width as int, height as int),
{
    let mut s = String::new();
    string_push(&mut s, '图');
    string_push(&mut s, '片');
    string_push(&mut s, ' ');
    push_signed_decimal(&mut s, width);
    string_push(&mut s, 'x');
    push_signed_decimal(&mut s, height);
    assert(s@ =~= image_preview_spec(width as int, height as int));
    s
}

} // verus!

verus! {

/// Adds a text record row to `clipboard_records`: neither encrypted nor a
/// favourite.
pub const INSERT_TEXT_RECORD_SQL: &'static str = "INSERT INTO clipboard_records (content_type, timestamp, created_at, updated_at, preview, content_size, is_encrypted, is_favorite, content_hash) VALUES (?1, ?2, ?3, ?4, ?5, ?6, 0, 0, ?7)";

/// Adds the text of a record to `text_contents`.
pub const INSERT_TEXT_CONTENT_SQL: &'static str = "INSERT INTO text_contents (record_id, content, created_at, updated_at) VALUES (?1, ?2, ?3, ?4)";

/// Adds an image record row to `clipboard_records`: not a favourite.
pub const INSERT_IMAGE_RECORD_SQL: &'static str = "INSERT INTO clipboard_records (content_type, timestamp, created_at, updated_at, preview, content_size, is_encrypted, is_favorite, content_hash) VALUES (?1, ?2, ?3, ?4, ?5, ?6, ?7, 0, ?8)";

/// Adds the files of an image record to `image_contents`.
pub const INSERT_IMAGE_CONTENT_SQL: &'static str = "INSERT INTO image_contents (record_id, file_path, thumbnail_path, encrypted_path, width, height, created_at, updated_at) VALUES (?1, ?2, ?3, ?4, ?5, ?6, ?7, ?8)";

/// The parameters of a new text record: type `text`, the time, the preview
/// and size of the content, and the content hash.
pub open spec fn text_record_params(
    content: Seq<char>,
    content_hash: Seq<char>,
    now_ts: i64,
    now_iso: Seq<char>,
) -> Seq<SqlParam> {
    seq![
        SqlParam::Text("text"@),
        SqlParam::Integer(now_ts),
        SqlParam::Text(now_iso),
        SqlParam::Text(now_iso),
        SqlParam::Text(text_preview_spec(content)),
        SqlParam::Integer(((vstd::utf8::encode_utf8(content).len() as usize) as i64)),
        SqlParam::Text(content_hash),
    ]
}

/// The statement that stores a new text record taken at `now_ts` /
/// `now_iso` (see [`text_record_params`]).
pub fn text_record_statement(content: &str, content_hash: &str, now_ts: i64, now_iso: &str) -> (res: SqlStatement)
    ensures
        res.sql@ == INSERT_TEXT_RECORD_SQL@,
        params_view(&res) == text_record_params(content@, content_hash@, now_ts, now_iso@),
        params_view(&res)[5] == SqlParam::Integer(
            #[verifier::truncate] ((#[verifier::truncate] (vstd::utf8::encode_utf8(content@).len() as usize)) as i64),
        ),
{
    let mut params: Vec<SqlValue> = Vec::new();
    params.push(SqlValue::Text(String::from_str("text")));
    params.push(SqlValue::Integer(now_ts));
    params.push(SqlValue::Text(String::from_str(now_iso)));
    params.push(SqlValue::Text(String::from_str(now_iso)));
    params.push(SqlValue::Text(text_preview(content)));
    params.push(SqlValue::Integer(content_size(content)));
    params.push(SqlValue::Text(String::from_str(content_hash)));
    let res = SqlStatement { sql: String::from_str(INSERT_TEXT_RECORD_SQL), params };
    assert(params_view(&res) =~= text_record_params(content@, content_hash@, now_ts, now_iso@));
    res
}

} // verus!

verus! {

/// The view of an optional path bound to a nullable column.
pub open spec fn optional_text(v: Option<&str>) -> SqlParam {
    match v {
        Some(t) => SqlParam::Text(t@),
        None => SqlParam::Null,
    }
}

fn optional_text_value(v: Option<&str>) -> (res: SqlValue)
    ensures
        res@ == optional_text(v),
{
    match v {
        Some(t) => SqlValue::Text(String::from_str(t)),
        None => SqlValue::Null,
    }
}

/// The statement that stores the text of record `record_id`.
pub fn text_content_statement(record_id: i64, content: &str, now_iso: &str) -> (res: SqlStatement)
    ensures
        res.sql@ == INSERT_TEXT_CONTENT_SQL@,
        params_view(&res) == seq![
            SqlParam::Integer(record_id),
            SqlParam::Text(content@),
            SqlParam::Text(now_iso@),
            SqlParam::Text(now_iso@),
        ],
{
    let mut params: Vec<SqlValue> = Vec::new();
    params.push(SqlValue::Integer(record_id));
    params.push(SqlValue::Text(String::from_str(content)));
    params.push(SqlValue::Text(String::from_str(now_iso)));
    params.push(SqlValue::Text(String::from_str(now_iso)));
    let res = SqlStatement { sql: String::from_str(INSERT_TEXT_CONTENT_SQL), params };
    assert(params_view(&res) =~= seq![
        SqlParam::Integer(record_id),
        SqlParam::Text(content@),
        SqlParam::Text(now_iso@),
        SqlParam::Text(now_iso@),
    ]);
    res
}

/// The parameters of a new image record: type `image`, the time, the
/// `图片 {width}x{height}` preview, the size, whether an encrypted copy was
/// made (1 or 0), and the content hash.
pub open spec fn image_record_params(
    width: i64,
    height: i64,
    content_size: i64,
    content_hash: Seq<char>,
    is_encrypted: bool,
    now_ts: i64,
    now_iso: Seq<char>,
) -> Seq<SqlParam> {
    seq![
        SqlParam::Text("image"@),
        SqlParam::Integer(now_ts),
        SqlParam::Text(now_iso),
        SqlParam::Text(now_iso),
        SqlParam::Text(image_preview_spec(width as int, height as int)),
        SqlParam::Integer(content_size),
        SqlParam::Integer(if is_encrypted { 1 } else { 0 }),
        SqlParam::Text(content_hash),
    ]
}

/// The statement that stores a new image record taken at `now_ts` /
/// `now_iso` (see [`image_record_params`]).
pub fn image_record_statement(
    width: i64,
    height: i64,
    content_size: i64,
    content_hash: &str,
    is_encrypted: bool,
    now_ts: i64,
    now_iso: &str,
) -> (res: SqlStatement)
    ensures
        res.sql@ == INSERT_IMAGE_RECORD_SQL@,
        params_view(&res) == image_record_params(
            width,
            height,
            content_size,
            content_hash@,
            is_encrypted,
            now_ts,
            now_iso@,
        ),
        params_view(&res)[4] == SqlParam::Text(image_preview_spec(width as int, height as int)),
{
    let mut params: Vec<SqlValue> = Vec::new();
    params.push(SqlValue::Text(String::from_str("image")));
    params.push(SqlValue::Integer(now_ts));
    params.push(SqlValue::Text(String::from_str(now_iso)));
    params.push(SqlValue::Text(String::from_str(now_iso)));
    params.push(SqlValue::Text(image_preview(width, height)));
    params.push(SqlValue::Integer(content_size));
    params.push(SqlValue::Integer(if is_encrypted { 1 } else { 0 }));
    params.push(SqlValue::Text(String::from_str(content_hash)));
    let res = SqlStatement { sql: String::from_str(INSERT_IMAGE_RECORD_SQL), params };
    assert(params_view(&res) =~= image_record_params(
        width,
        height,
        content_size,
        content_hash@,
        is_encrypted,
        now_ts,
        now_iso@,
    ));
    res
}

/// The statement that stores the files of image record `record_id`.
pub fn image_content_statement(
    record_id: i64,
    file_path: &str,
    thumbnail_path: Option<&str>,
    encrypted_path: Option<&str>,
    width: i64,
    height: i64,
    now_iso: &str,
) -> (res: SqlStatement)
    ensures
        res.sql@ == INSERT_IMAGE_CONTENT_SQL@,
        params_view(&res) == seq![
            SqlParam::Integer(record_id),
            SqlParam::Text(file_path@),
            optional_text(thumbnail_path),
            optional_text(encrypted_path),
            SqlParam::Integer(width),
            SqlParam::Integer(height),
            SqlParam::Text(now_iso@),
            SqlParam::Text(now_iso@),
        ],
{
    let mut params: Vec<SqlValue> = Vec::new();
    params.push(SqlValue::Integer(record_id));
    params.push(SqlValue::Text(String::from_str(file_path)));
    params.push(optional_text_value(thumbnail_path));
    params.push(optional_text_value(encrypted_path));
    params.push(SqlValue::Integer(width));
    params.push(SqlValue::Integer(height));
    params.push(SqlValue::Text(String::from_str(now_iso)));
    params.push(SqlValue::Text(String::from_str(now_iso)));
    let res = SqlStatement { sql: String::from_str(INSERT_IMAGE_CONTENT_SQL), params };
    assert(params_view(&res) =~= seq![
        SqlParam::Integer(record_id),
        SqlParam::Text(file_path@),
        optional_text(thumbnail_path),
        optional_text(encrypted_path),
        SqlParam::Integer(width),
        SqlParam::Integer(height),
        SqlParam::Text(now_iso@),
        SqlParam::Text(now_iso@),
    ]);
    res
}

} // verus!

verus! {

/// The tables and indexes of the database, created when missing: the record
/// table and its five companions (text, image, file and rich-text contents,
/// each removed with its record, and the settings). An older record table may
/// lack the `content_hash` column; its index is made by [`HASH_INDEX_SQL`]
/// once the column is known to exist.
pub const SCHEMA_SQL: &'static str = "
PRAGMA foreign_keys = ON;

CREATE TABLE IF NOT EXISTS clipboard_records (
    id INTEGER PRIMARY KEY AUTOINCREMENT,
    content_type TEXT NOT NULL,
    timestamp INTEGER NOT NULL,
    created_at TEXT NOT NULL,
    updated_at TEXT NOT NULL,
    preview TEXT,
    content_size INTEGER,
    is_encrypted BOOLEAN DEFAULT 0,
    is_favorite BOOLEAN DEFAULT 0,
    content_hash TEXT
);

CREATE TABLE IF NOT EXISTS text_contents (
    id INTEGER PRIMARY KEY AUTOINCREMENT,
    record_id INTEGER NOT NULL,
    content TEXT NOT NULL,
    created_at TEXT NOT NULL,
    updated_at TEXT NOT NULL,
    FOREIGN KEY (record_id) REFERENCES clipboard_records(id) ON DELETE CASCADE
);

CREATE TABLE IF NOT EXISTS image_contents (
    id INTEGER PRIMARY KEY AUTOINCREMENT,
    record_id INTEGER NOT NULL,
    file_path TEXT NOT NULL,
    thumbnail_path TEXT,
    encrypted_path TEXT,
    width INTEGER NOT NULL,
    height INTEGER NOT NULL,
    created_at TEXT NOT NULL,
    updated_at TEXT NOT NULL,
    FOREIGN KEY (record_id) REFERENCES clipboard_records(id) ON DELETE CASCADE
);

CREATE TABLE IF NOT EXISTS file_contents (
    id INTEGER PRIMARY KEY AUTOINCREMENT,
    record_id INTEGER NOT NULL,
    file_paths TEXT NOT NULL,
    total_size INTEGER,
    file_count INTEGER,
    created_at TEXT NOT NULL,
    updated_at TEXT NOT NULL,
    FOREIGN KEY (record_id) REFERENCES clipboard_records(id) ON DELETE CASCADE
);

CREATE TABLE IF NOT EXISTS rich_text_contents (
    id INTEGER PRIMARY KEY AUTOINCREMENT,
    record_id INTEGER NOT NULL,
    html_content TEXT,
    rtf_content TEXT,
    created_at TEXT NOT NULL,
    updated_at TEXT NOT NULL,
    FOREIGN KEY (record_id) REFERENCES clipboard_records(id) ON DELETE CASCADE
);

CREATE TABLE IF NOT EXISTS settings (
    key TEXT PRIMARY KEY,
    value TEXT NOT NULL,
    updated_at TEXT NOT NULL
);

CREATE INDEX IF NOT EXISTS idx_clipboard_records_timestamp
    ON clipboard_records(timestamp DESC);
CREATE INDEX IF NOT EXISTS idx_clipboard_records_content_type
    ON clipboard_records(content_type);
CREATE INDEX IF NOT EXISTS idx_text_contents_record_id
    ON text_contents(record_id);
CREATE INDEX IF NOT EXISTS idx_clipboard_records_created_at
    ON clipboard_records(created_at);
CREATE INDEX IF NOT EXISTS idx_image_contents_record_id
    ON image_contents(record_id);
CREATE INDEX IF NOT EXISTS idx_file_contents_record_id
    ON file_contents(record_id);
CREATE INDEX IF NOT EXISTS idx_rich_text_contents_record_id
    ON rich_text_contents(record_id);
";

/// Run on every new connection before anything else: SQLite enforces
/// foreign keys, and so removes a record's contents with it, only on a
/// connection where they are switched on.
pub const CONNECTION_SETUP_SQL: &'static str = "PRAGMA foreign_keys = ON;";

/// The table that older databases may lack a column of.
pub const HASH_COLUMN_TABLE: &'static str = "clipboard_records";

/// The column that older databases may lack.
pub const HASH_COLUMN: &'static str = "content_hash";

/// Adds the missing column.
pub const ADD_HASH_COLUMN_SQL: &'static str = "ALTER TABLE clipboard_records ADD COLUMN content_hash TEXT";

/// Indexes the content hash; run after the column check.
pub const HASH_INDEX_SQL: &'static str = "CREATE INDEX IF NOT EXISTS idx_clipboard_records_content_hash ON clipboard_records(content_hash)";

/// Looks up a record with a given content hash.
pub const FIND_CONTENT_HASH_SQL: &'static str = "SELECT id FROM clipboard_records WHERE content_hash = ?1 LIMIT 1";

/// Lists the newest text records whose text contains the keyword: SQLite's
/// `instr` gives the position of the keyword's first occurrence, or 0 when
/// there is none, comparing characters exactly, with no wildcards.
pub const LIST_TEXT_MATCHING_SQL: &'static str = "SELECT r.id, r.content_type, r.timestamp, r.created_at, COALESCE(r.preview, ''), COALESCE(r.content_size, 0), t.content FROM clipboard_records r INNER JOIN text_contents t ON t.record_id = r.id WHERE r.content_type = 'text' AND instr(t.content, ?1) > 0 ORDER BY r.timestamp DESC LIMIT ?2";

/// Lists the newest text records.
pub const LIST_TEXT_SQL: &'static str = "SELECT r.id, r.content_type, r.timestamp, r.created_at, COALESCE(r.preview, ''), COALESCE(r.content_size, 0), t.content FROM clipboard_records r INNER JOIN text_contents t ON t.record_id = r.id WHERE r.content_type = 'text' ORDER BY r.timestamp DESC LIMIT ?1";

/// Removes a record.
pub const DELETE_RECORD_SQL: &'static str = "DELETE FROM clipboard_records WHERE id = ?1";

/// Counts the records.
pub const COUNT_RECORDS_SQL: &'static str = "SELECT COUNT(*) FROM clipboard_records";

/// The query that lists the columns of `table`: `PRAGMA table_info(table)`.
pub fn table_info_sql(table: &str) -> (res: String)
    ensures
        res@ == "PRAGMA table_info("@ + table@ + ")"@,
{
    let mut s = String::from_str("PRAGMA table_info(");
    s.append(table);
    s.append(")");
    s
}

/// What reading the column names of a table showed.
#[derive(Debug, Clone, PartialEq, Eq)]
pub enum ColumnScan {
    /// The column was found.
    Present,
    /// Every name was read and none is the column.
    Absent,
    /// Reading the name at this position failed before the column was found.
    Failed(usize),
}

/// The first `k` names were all read and none of them is `column`.
pub open spec fn passed_names(names: Seq<Option<Seq<char>>>, column: Seq<char>, k: int) -> bool {
    forall|j: int| 0 <= j < k ==> (#[trigger] names[j]) is Some && names[j]->0 != column
}

/// The outcome of reading `names` in order, stopping at the first name that
/// is `column` or could not be read (`None`).
pub open spec fn scan_columns_spec(names: Seq<Option<Seq<char>>>, column: Seq<char>, res: ColumnScan) -> bool {
    match res {
        ColumnScan::Absent => passed_names(names, column, names.len() as int),
        ColumnScan::Present => exists|i: int|
            0 <= i < names.len() && #[trigger] names[i] == Some(column) && passed_names(names, column, i),
        ColumnScan::Failed(i) => i < names.len() && names[i as int] is None && passed_names(names, column, i as int),
    }
}

/// The views of column names read from the database.
pub open spec fn names_view(names: Seq<Option<String>>) -> Seq<Option<Seq<char>>> {
    names.map_values(|n: Option<String>| match n {
        Some(s) => Some(s@),
        None => None,
    })
}

/// Decides, from the column names of a table in the order the database lists
/// them (`None` where a name could not be read), whether `column` exists.
pub fn scan_columns(names: &Vec<Option<String>>, column: &str) -> (res: ColumnScan)
    ensures
        scan_columns_spec(names_view(names@), column@, res),
{
    let n: usize = names.len();
    let mut i: usize = 0;
    let wanted = String::from_str(column);
    let ghost v = names_view(names@);
    while i < n
        invariant
            n == names@.len(),
            v == names_view(names@),
            i <= n,
            passed_names(v, column@, i as int),
            wanted@ == column@,
        decreases n - i,
    {
        match &names[i] {
            None => {
                assert(v[i as int] is None);
                return ColumnScan::Failed(i);
            },
            Some(name) => {
                assert(v[i as int] == Some(name@));
                if name.eq(&wanted) {
                    assert(v[i as int] == Some(column@));
                    return ColumnScan::Present;
                }
                assert(name@ != column@);
            },
        }
        i = i + 1;
    }
    ColumnScan::Absent
}

} // verus!

verus! {

/// The query that finds a record with the given content hash.
pub fn content_hash_query(content_hash: &str) -> (res: SqlStatement)
    ensures
        res.sql@ == FIND_CONTENT_HASH_SQL@,
        params_view(&res) == seq![SqlParam::Text(content_hash@)],
{
    let mut params: Vec<SqlValue> = Vec::new();
    params.push(SqlValue::Text(String::from_str(content_hash)));
    let res = SqlStatement { sql: String::from_str(FIND_CONTENT_HASH_SQL), params };
    assert(params_view(&res) =~= seq![SqlParam::Text(content_hash@)]);
    res
}

/// The query that lists at most `limit` text records, newest first: those
/// whose text contains the keyword when one is given, all otherwise. The
/// keyword is bound as it is, so no character of it acts as a wildcard.
pub fn list_text_records_query(limit: i64, keyword: Option<&str>) -> (res: SqlStatement)
    ensures
        match keyword {
            Some(k) => {
                &&& res.sql@ == LIST_TEXT_MATCHING_SQL@
                &&& params_view(&res) == seq![
                    SqlParam::Text(k@),
                    SqlParam::Integer(limit),
                ]
            },
            None => {
                &&& res.sql@ == LIST_TEXT_SQL@
                &&& params_view(&res) == seq![SqlParam::Integer(limit)]
            },
        },
{
    let mut params: Vec<SqlValue> = Vec::new();
    match keyword {
        Some(k) => {
            params.push(SqlValue::Text(String::from_str(k)));
            params.push(SqlValue::Integer(limit));
            let res = SqlStatement { sql: String::from_str(LIST_TEXT_MATCHING_SQL), params };
            assert(params_view(&res) =~= seq![SqlParam::Text(k@), SqlParam::Integer(limit)]);
            res
        },
        None => {
            params.push(SqlValue::Integer(limit));
            let res = SqlStatement { sql: String::from_str(LIST_TEXT_SQL), params };
            assert(params_view(&res) =~= seq![SqlParam::Integer(limit)]);
            res
        },
    }
}

/// The statement that removes record `record_id`.
pub fn delete_record_statement(record_id: i64) -> (res: SqlStatement)
    ensures
        res.sql@ == DELETE_RECORD_SQL@,
        params_view(&res) == seq![SqlParam::Integer(record_id)],
{
    let mut params: Vec<SqlValue> = Vec::new();
    params.push(SqlValue::Integer(record_id));
    let res = SqlStatement { sql: String::from_str(DELETE_RECORD_SQL), params };
    assert(params_view(&res) =~= seq![SqlParam::Integer(record_id)]);
    res
}

} // verus!

verus! {

/// How long the UTF-8 encoding of a text is: one to four bytes a character;
/// one byte a character exactly when every character is ASCII; three bytes a
/// character when every character lies in U+0800..=U+FFFF, as the common
/// CJK characters do.
proof fn lemma_utf8_length(chars: Seq<char>)
    ensures
        chars.len() <= vstd::utf8::encode_utf8(chars).len() <= 4 * chars.len(),
        vstd::utf8::encode_utf8(chars).len() == chars.len() <==> (forall|i: int|
            0 <= i < chars.len() ==> (#[trigger] chars[i] as u32) < 0x80),
        (forall|i: int| 0 <= i < chars.len() ==> 0x800 <= (#[trigger] chars[i] as u32) <= 0xFFFF)
            ==> vstd::utf8::encode_utf8(chars).len() == 3 * chars.len(),
    decreases chars.len(),
{
    if chars.len() > 0 {
        let c = chars[0];
        let rest = chars.drop_first();
        lemma_utf8_length(rest);
        vstd::utf8::char_is_scalar(c);
        let e = vstd::utf8::encode_scalar(c as u32);
        assert(vstd::utf8::encode_utf8(chars) == e + vstd::utf8::encode_utf8(rest));
        assert(1 <= e.len() <= 4);
        assert(e.len() == 1 <==> (c as u32) < 0x80);
        assert(0x800 <= (c as u32) <= 0xFFFF ==> e.len() == 3);
        assert forall|i: int| 0 <= i < rest.len() implies #[trigger] rest[i] == chars[i + 1] by {}
        if forall|i: int| 0 <= i < chars.len() ==> (#[trigger] chars[i] as u32) < 0x80 {
            assert forall|i: int| 0 <= i < rest.len() implies (#[trigger] rest[i] as u32) < 0x80 by {
                assert(rest[i] == chars[i + 1]);
            }
        }
        if vstd::utf8::encode_utf8(chars).len() == chars.len() {
            assert forall|i: int| 0 <= i < chars.len() implies (#[trigger] chars[i] as u32) < 0x80 by {
                if i > 0 {
                    assert(chars[i] == rest[i - 1]);
                }
            }
        }
        if forall|i: int| 0 <= i < chars.len() ==> 0x800 <= (#[trigger] chars[i] as u32) <= 0xFFFF {
            assert forall|i: int| 0 <= i < rest.len() implies 0x800 <= (#[trigger] rest[i] as u32) <= 0xFFFF by {
                assert(rest[i] == chars[i + 1]);
            }
        }
    }
}

/// The size bound to a new text record counts the bytes of the text's UTF-8
/// encoding, not its characters: at least one byte a character and at most
/// four, as many bytes as characters exactly when the text is all ASCII, and
/// three bytes a character for a text of characters in U+0800..=U+FFFF (so
/// 6 for `汉字`).
pub proof fn lemma_text_size_counts_utf8_bytes(
    content: Seq<char>,
    content_hash: Seq<char>,
    now_ts: i64,
    now_iso: Seq<char>,
)
    requires
        vstd::utf8::encode_utf8(content).len() <= usize::MAX,
        vstd::utf8::encode_utf8(content).len() <= i64::MAX,
    ensures
        text_record_params(content, content_hash, now_ts, now_iso)[5] matches SqlParam::Integer(n)
            && n == vstd::utf8::encode_utf8(content).len(),
        content.len() <= vstd::utf8::encode_utf8(content).len() <= 4 * content.len(),
        vstd::utf8::encode_utf8(content).len() == content.len() <==> (forall|i: int|
            0 <= i < content.len() ==> (#[trigger] content[i] as u32) < 0x80),
        (forall|i: int| 0 <= i < content.len() ==> 0x800 <= (#[trigger] content[i] as u32) <= 0xFFFF)
            ==> vstd::utf8::encode_utf8(content).len() == 3 * content.len(),
{
    lemma_utf8_length(content);
}

/// Two image previews are the same only for the same width and height.
proof fn lemma_image_preview_injective(w1: int, h1: int, w2: int, h2: int)
    requires
        image_preview_spec(w1, h1) == image_preview_spec(w2, h2),
    ensures
        w1 == w2,
        h1 == h2,
{
    let p = image_preview_spec(w1, h1);
    let q = image_preview_spec(w2, h2);
    let a = signed_decimal(w1);
    let b = signed_decimal(w2);
    lemma_signed_decimal_chars(w1);
    lemma_signed_decimal_chars(w2);
    lemma_signed_decimal_chars(h1);
    lemma_signed_decimal_chars(h2);
    let i1: int = (a.len() + 3) as int;
    let i2: int = (b.len() + 3) as int;
    assert(p[i1] == 'x');
    assert(q[i2] == 'x');
    if i1 < i2 {
        assert(q[i1] == b[i1 - 3]);
        assert(b[i1 - 3] != 'x') by {
            if !(w2 < 0 && i1 - 3 == 0) {
                assert(is_digit(b[i1 - 3]));
            }
        }
    } else if i2 < i1 {
        assert(p[i2] == a[i2 - 3]);
        assert(a[i2 - 3] != 'x') by {
            if !(w1 < 0 && i2 - 3 == 0) {
                assert(is_digit(a[i2 - 3]));
            }
        }
    }
    assert(a =~= p.subrange(3, i1));
    assert(b =~= q.subrange(3, i2));
    assert(signed_decimal(h1) =~= p.subrange(i1 + 1, p.len() as int));
    assert(signed_decimal(h2) =~= q.subrange(i2 + 1, q.len() as int));
    lemma_signed_decimal_injective(w1, w2);
    lemma_signed_decimal_injective(h1, h2);
}

/// The preview bound to a new image record is `图片 `, then the width, `x`
/// and the height, each in decimal, width first; so the preview tells the
/// size apart: two image records get the same preview only when they have
/// the same width and the same height.
pub proof fn lemma_image_preview_names_size(
    w1: i64,
    h1: i64,
    w2: i64,
    h2: i64,
    content_size: i64,
    content_hash: Seq<char>,
    is_encrypted: bool,
    now_ts: i64,
    now_iso: Seq<char>,
)
    ensures
        image_record_params(w1, h1, content_size, content_hash, is_encrypted, now_ts, now_iso)[4]
            == SqlParam::Text(seq!['图', '片', ' '] + signed_decimal(w1 as int) + seq!['x'] + signed_decimal(h1 as int)),
        image_record_params(w1, h1, content_size, content_hash, is_encrypted, now_ts, now_iso)[4]
            == image_record_params(w2, h2, content_size, content_hash, is_encrypted, now_ts, now_iso)[4]
            ==> w1 == w2 && h1 == h2,
{
    if image_record_params(w1, h1, content_size, content_hash, is_encrypted, now_ts, now_iso)[4]
        == image_record_params(w2, h2, content_size, content_hash, is_encrypted, now_ts, now_iso)[4] {
        lemma_image_preview_injective(w1 as int, h1 as int, w2 as int, h2 as int);
    }
}

/// A text record's preview is the start of its text, at most 80 characters
/// long, and the whole text when that is no longer.
pub proof fn lemma_preview_is_head(content: Seq<char>)
    ensures
        text_preview_spec(content).len() <= 80,
        text_preview_spec(content).is_prefix_of(content),
        content.len() <= 80 ==> text_preview_spec(content) == content,
        content.len() > 80 ==> text_preview_spec(content).len() == 80,
{
}

} // verus!
