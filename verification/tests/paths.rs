use clip_verse::paths::{
    data_root, db_path, encrypted_images_dir, images_raw_dir, images_thumbnail_dir, join_path,
    required_dirs,
};

#[test]
fn join_adds_separator() {
    assert_eq!(join_path("/home/u", ".clip_verse"), "/home/u/.clip_verse");
}

#[test]
fn join_keeps_existing_separator() {
    assert_eq!(join_path("/home/u/", "images"), "/home/u/images");
}

#[test]
fn join_onto_empty_base() {
    assert_eq!(join_path("", "images"), "images");
}

#[test]
fn join_absolute_part_replaces() {
    assert_eq!(join_path("/home/u", "/etc"), "/etc");
}

#[test]
fn data_root_under_home() {
    assert_eq!(data_root(Some("/home/alice")), "/home/alice/.clip_verse");
}

#[test]
fn data_root_without_home() {
    assert_eq!(data_root(None), ".clip_verse");
}

#[test]
fn image_directories() {
    assert_eq!(images_raw_dir(Some("/home/a")), "/home/a/.clip_verse/images/raw");
    assert_eq!(images_thumbnail_dir(Some("/home/a")), "/home/a/.clip_verse/images/thumbnails");
    assert_eq!(encrypted_images_dir(Some("/home/a")), "/home/a/.clip_verse/encrypted/images");
    assert_eq!(images_raw_dir(None), ".clip_verse/images/raw");
}

#[test]
fn database_file() {
    assert_eq!(db_path(Some("/home/a")), "/home/a/.clip_verse/database/clipboard.db");
}

#[test]
fn directories_created_before_opening() {
    let dirs = required_dirs(Some("/h"));
    assert_eq!(
        dirs,
        vec![
            "/h/.clip_verse/database".to_string(),
            "/h/.clip_verse/images/raw".to_string(),
            "/h/.clip_verse/images/thumbnails".to_string(),
            "/h/.clip_verse/encrypted/images".to_string(),
            "/h/.clip_verse/logs".to_string(),
        ]
    );
}

#[test]
fn every_location_inside_data_root() {
    let root = data_root(Some("/h/"));
    for d in required_dirs(Some("/h/")) {
        assert!(d.starts_with(&root) && d.len() > root.len());
    }
    assert!(db_path(Some("/h/")).starts_with(&root));
}
