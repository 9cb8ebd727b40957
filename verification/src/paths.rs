//! Locations of the recorder's data directory and of the files inside it.
use vstd::prelude::*;

verus! {

/// Joining two path strings the way a Unix `PathBuf::push` does: an absolute
/// `part` replaces `base`; otherwise a `/` separator is put between them when
/// `base` is non-empty and does not already end in one.
pub open spec fn path_join(base: Seq<char>, part: Seq<char>) -> Seq<char> {
    if part.len() > 0 && part[0] == '/' {
        part
    } else if base.len() == 0 || base.last() == '/' {
        base + part
    } else {
        base + seq!['/'] + part
    }
}

/// Joins `part` onto `base` (see [`path_join`]).
pub fn join_path(base: &str, part: &str) -> (res: String)
    ensures
        res@ == path_join(base@, part@),
{
    if !part.is_empty() && part.get_char(0) == '/' {
        return String::from_str(part);
    }
    let mut res = String::from_str(base);
    if !base.is_empty() {
        let n: usize = base.unicode_len();
        if base.get_char(n - 1) != '/' {
            let sep = "/";
            proof {
                reveal_strlit("/");
            }
            res.append(sep);
        }
    }
    res.append(part);
    res
}

} // verus!

verus! {

/// The data directory: `.clip_verse` under the home directory when one is
/// known, and `.clip_verse` relative to the working directory otherwise.
pub open spec fn data_root_spec(home: Option<Seq<char>>) -> Seq<char> {
    match home {
        Some(h) => path_join(h, ".clip_verse"@),
        None => ".clip_verse"@,
    }
}

/// The view of an optional home directory.
pub open spec fn home_view(home: Option<&str>) -> Option<Seq<char>> {
    match home {
        Some(h) => Some(h@),
        None => None,
    }
}

/// A directory two levels below the data directory.
pub open spec fn under_root(home: Option<Seq<char>>, dir: Seq<char>, sub: Seq<char>) -> Seq<char> {
    path_join(path_join(data_root_spec(home), dir), sub)
}

/// The data directory for the given home directory (`None` when the home
/// directory is unknown).
pub fn data_root(home: Option<&str>) -> (res: String)
    ensures
        res@ == data_root_spec(home_view(home)),
{
    match home {
        Some(h) => join_path(h, ".clip_verse"),
        None => String::from_str(".clip_verse"),
    }
}

/// Joins two components onto the data directory.
fn root_subdir(home: Option<&str>, dir: &str, sub: &str) -> (res: String)
    ensures
        res@ == under_root(home_view(home), dir@, sub@),
{
    let root = data_root(home);
    let d = join_path(root.as_str(), dir);
    join_path(d.as_str(), sub)
}

/// Where the original images taken from the clipboard are stored.
pub fn images_raw_dir(home: Option<&str>) -> (res: String)
    ensures
        res@ == under_root(home_view(home), "images"@, "raw"@),
{
    root_subdir(home, "images", "raw")
}

/// Where image thumbnails are stored.
pub fn images_thumbnail_dir(home: Option<&str>) -> (res: String)
    ensures
        res@ == under_root(home_view(home), "images"@, "thumbnails"@),
{
    root_subdir(home, "images", "thumbnails")
}

/// Where encrypted copies of images are stored.
pub fn encrypted_images_dir(home: Option<&str>) -> (res: String)
    ensures
        res@ == under_root(home_view(home), "encrypted"@, "images"@),
{
    root_subdir(home, "encrypted", "images")
}

/// The SQLite database file.
pub fn db_path(home: Option<&str>) -> (res: String)
    ensures
        res@ == under_root(home_view(home), "database"@, "clipboard.db"@),
{
    root_subdir(home, "database", "clipboard.db")
}

/// The directories that must exist before the database is opened, in the
/// order they are created: the database directory, the raw image, thumbnail
/// and encrypted image directories, and the log directory.
pub fn required_dirs(home: Option<&str>) -> (res: Vec<String>)
    ensures
        res@.len() == 5,
        res@[0]@ == path_join(data_root_spec(home_view(home)), "database"@),
        res@[1]@ == under_root(home_view(home), "images"@, "raw"@),
        res@[2]@ == under_root(home_view(home), "images"@, "thumbnails"@),
        res@[3]@ == under_root(home_view(home), "encrypted"@, "images"@),
        res@[4]@ == path_join(data_root_spec(home_view(home)), "logs"@),
{
    let root = data_root(home);
    let mut dirs: Vec<String> = Vec::new();
    dirs.push(join_path(root.as_str(), "database"));
    dirs.push(images_raw_dir(home));
    dirs.push(images_thumbnail_dir(home));
    dirs.push(encrypted_images_dir(home));
    dirs.push(join_path(root.as_str(), "logs"));
    dirs
}

} // verus!

verus! {

/// Joining a relative, non-empty component extends the base path: the base
/// is a proper prefix of the result.
pub proof fn lemma_join_extends(base: Seq<char>, part: Seq<char>)
    requires
        part.len() > 0,
        part[0] != '/',
    ensures
        base.is_prefix_of(path_join(base, part)),
        path_join(base, part).len() > base.len(),
{
}

/// Every file and directory the recorder keeps lies strictly inside its data
/// directory, whatever the home directory is.
pub proof fn lemma_locations_inside_data_root(home: Option<Seq<char>>)
    ensures
        ({
            let root = data_root_spec(home);
            &&& root.is_prefix_of(path_join(root, "database"@))
            &&& root.is_prefix_of(path_join(root, "logs"@))
            &&& root.is_prefix_of(under_root(home, "images"@, "raw"@))
            &&& root.is_prefix_of(under_root(home, "images"@, "thumbnails"@))
            &&& root.is_prefix_of(under_root(home, "encrypted"@, "images"@))
            &&& root.is_prefix_of(under_root(home, "database"@, "clipboard.db"@))
            &&& root.len() < under_root(home, "database"@, "clipboard.db"@).len()
        }),
{
    reveal_strlit("database");
    reveal_strlit("logs");
    reveal_strlit("images");
    reveal_strlit("raw");
    reveal_strlit("thumbnails");
    reveal_strlit("encrypted");
    reveal_strlit("clipboard.db");
    let root = data_root_spec(home);
    lemma_join_extends(root, "database"@);
    lemma_join_extends(root, "logs"@);
    lemma_join_extends(root, "images"@);
    lemma_join_extends(root, "encrypted"@);
    lemma_join_extends(path_join(root, "images"@), "raw"@);
    lemma_join_extends(path_join(root, "images"@), "thumbnails"@);
    lemma_join_extends(path_join(root, "encrypted"@), "images"@);
    lemma_join_extends(path_join(root, "database"@), "clipboard.db"@);
    lemma_prefix_trans(root, path_join(root, "images"@), under_root(home, "images"@, "raw"@));
    lemma_prefix_trans(root, path_join(root, "images"@), under_root(home, "images"@, "thumbnails"@));
    lemma_prefix_trans(root, path_join(root, "encrypted"@), under_root(home, "encrypted"@, "images"@));
    lemma_prefix_trans(root, path_join(root, "database"@), under_root(home, "database"@, "clipboard.db"@));
}

proof fn lemma_prefix_trans(a: Seq<char>, b: Seq<char>, c: Seq<char>)
    requires
        a.is_prefix_of(b),
        b.is_prefix_of(c),
    ensures
        a.is_prefix_of(c),
{
    assert forall|i: int| 0 <= i < a.len() implies a[i] == c[i] by {
        assert(a[i] == b[i]);
    }
}

} // verus!
