use clip_verse::cipher::{decrypt_image, encrypt_image};
use clip_verse::time::ClockReading;
use clip_verse::digest::{image_fingerprint, text_fingerprint};
use clip_verse::monitor::{
    encryption_key, polling_interval_ms, setting_enabled, ClipboardImage, ImageRecordRequest,
    MonitorAction, MonitorConfig, Tick, TickOutcome, TickStage,
};

fn config(thumbs: bool, encrypt: bool) -> MonitorConfig {
    MonitorConfig {
        raw_dir: "/d/images/raw".to_string(),
        thumbnail_dir: "/d/images/thumbnails".to_string(),
        encrypted_dir: "/d/encrypted/images".to_string(),
        make_thumbnails: thumbs,
        encrypt,
        key: "k".to_string(),
    }
}

#[test]
fn polling_interval_setting() {
    assert_eq!(polling_interval_ms(None), 500);
    assert_eq!(polling_interval_ms(Some("250")), 250);
    assert_eq!(polling_interval_ms(Some("100")), 100);
    assert_eq!(polling_interval_ms(Some("99")), 500);
    assert_eq!(polling_interval_ms(Some("fast")), 500);
    assert_eq!(polling_interval_ms(Some("+1000")), 1000);
}

#[test]
fn on_off_settings() {
    assert!(setting_enabled(Some("1")));
    assert!(!setting_enabled(Some("true")));
    assert!(!setting_enabled(Some("")));
    assert!(!setting_enabled(None));
}

#[test]
fn key_setting() {
    assert_eq!(encryption_key(None), "clip-verse-default-key");
    assert_eq!(encryption_key(Some("secret")), "secret");
}

#[test]
fn new_text_is_recorded_trimmed() {
    let mut t = Tick::new(config(false, false));
    let a = t.on_text(Some("  hello \n"));
    let h = text_fingerprint("hello");
    assert_eq!(a, MonitorAction::LookUpText(h.clone()));
    let a = t.on_lookup(Some(false));
    assert_eq!(a, MonitorAction::RecordText { content: "hello".to_string(), content_hash: h });
    assert_eq!(t.on_written(true), MonitorAction::Finish(TickOutcome::TextRecorded));
    assert_eq!(t.stage, TickStage::Finished);
}

#[test]
fn known_text_is_not_recorded_again() {
    let mut t = Tick::new(config(false, false));
    t.on_text(Some("hello"));
    assert_eq!(t.on_lookup(Some(true)), MonitorAction::Finish(TickOutcome::NothingNew));
}

#[test]
fn blank_text_ends_tick_without_image() {
    let mut t = Tick::new(config(false, false));
    assert_eq!(t.on_text(Some(" \t ")), MonitorAction::Finish(TickOutcome::NothingNew));
    assert_eq!(t.stage, TickStage::Finished);
}

#[test]
fn failed_lookup_fails_tick() {
    let mut t = Tick::new(config(false, false));
    t.on_text(Some("x"));
    assert_eq!(t.on_lookup(None), MonitorAction::Finish(TickOutcome::Failed));
}

#[test]
fn failed_text_write_fails_tick() {
    let mut t = Tick::new(config(false, false));
    t.on_text(Some("x"));
    t.on_lookup(Some(false));
    assert_eq!(t.on_written(false), MonitorAction::Finish(TickOutcome::Failed));
}

#[test]
fn no_text_no_image() {
    let mut t = Tick::new(config(false, false));
    assert_eq!(t.on_text(None), MonitorAction::ReadImage);
    assert_eq!(t.on_image(None), MonitorAction::Finish(TickOutcome::NothingNew));
}

fn image() -> ClipboardImage {
    ClipboardImage { width: 2, height: 1, pixels: vec![1, 2, 3, 4, 5, 6, 7, 8] }
}

fn clock() -> ClockReading {
    ClockReading {
        utc_offset_secs: 28800,
        timestamp_millis: 1700000000123,
        rfc3339: "2023-11-15T06:13:20.123+08:00".to_string(),
        year: 2023,
        month: 11,
        day: 15,
        hour: 6,
        minute: 13,
        second: 20,
        nanosecond: 123_000_000,
    }
}

fn up_to_save(t: &mut Tick) -> String {
    let img = image();
    assert_eq!(t.on_text(None), MonitorAction::ReadImage);
    let h = image_fingerprint(2, 1, &img.pixels);
    assert_eq!(t.on_image(Some(&img)), MonitorAction::LookUpImage(h.clone()));
    assert_eq!(t.on_lookup(Some(false)), MonitorAction::ReadClock);
    let name = format!("1700000000123_{}.png", &h[..16]);
    assert_eq!(
        t.on_clock(&clock()),
        MonitorAction::SaveImage {
            dir: "/d/images/raw/2023/11".to_string(),
            path: format!("/d/images/raw/2023/11/{name}"),
            width: 2,
            height: 1,
        }
    );
    h
}

#[test]
fn new_image_plain() {
    let mut t = Tick::new(config(false, false));
    let h = up_to_save(&mut t);
    let raw = format!("/d/images/raw/2023/11/1700000000123_{}.png", &h[..16]);
    let a = t.on_written(true);
    assert_eq!(
        a,
        MonitorAction::RecordImage(ImageRecordRequest {
            file_path: raw.clone(),
            thumbnail_path: None,
            encrypted_path: None,
            width: 2,
            height: 1,
            content_size: 8,
            content_hash: h,
            is_encrypted: false,
        })
    );
    assert_eq!(t.on_written(true), MonitorAction::Finish(TickOutcome::ImageRecorded(raw)));
}

#[test]
fn new_image_with_thumbnail_and_encryption() {
    let mut t = Tick::new(config(true, true));
    let h = up_to_save(&mut t);
    let name = format!("1700000000123_{}.png", &h[..16]);
    let raw = format!("/d/images/raw/2023/11/{name}");
    match t.on_written(true) {
        MonitorAction::SaveThumbnail { dir, path, pixels } => {
            assert_eq!(dir, "/d/images/thumbnails/2023/11");
            assert_eq!(path, format!("/d/images/thumbnails/2023/11/thumb_{name}"));
            assert_eq!(pixels.len(), 256 * 256 * 4);
            let source = image::ImageBuffer::<image::Rgba<u8>, Vec<u8>>::from_raw(2, 1, image().pixels).unwrap();
            let expected = image::imageops::resize(&source, 256, 256, image::imageops::FilterType::Triangle);
            assert_eq!(pixels, expected.into_raw());
        }
        other => panic!("unexpected {other:?}"),
    }
    assert_eq!(t.on_written(true), MonitorAction::ReadSavedImage { path: raw.clone() });
    let file = vec![10u8, 20, 30];
    match t.on_file_read(Some(file.clone())) {
        MonitorAction::WriteEncrypted { path, bytes } => {
            assert_eq!(path, format!("/d/encrypted/images/{name}.enc"));
            assert_eq!(bytes, encrypt_image(&file, "k").unwrap());
            assert_eq!(decrypt_image(&bytes, "k"), Some(file.clone()));
        }
        other => panic!("unexpected {other:?}"),
    }
    match t.on_written(true) {
        MonitorAction::RecordImage(req) => {
            assert_eq!(req.thumbnail_path, Some(format!("/d/images/thumbnails/2023/11/thumb_{name}")));
            assert_eq!(req.width, 2);
            assert_eq!(req.content_size, 8);
            assert_eq!(req.encrypted_path, Some(format!("/d/encrypted/images/{name}.enc")));
            assert!(req.is_encrypted);
        }
        other => panic!("unexpected {other:?}"),
    }
}

#[test]
fn failed_copies_are_left_out_of_record() {
    let mut t = Tick::new(config(true, true));
    up_to_save(&mut t);
    t.on_written(true);
    t.on_written(false);
    t.on_file_read(Some(vec![1]));
    match t.on_written(false) {
        MonitorAction::RecordImage(req) => {
            assert_eq!(req.thumbnail_path, None);
            assert_eq!(req.encrypted_path, None);
            assert!(!req.is_encrypted);
        }
        other => panic!("unexpected {other:?}"),
    }
}

#[test]
fn unreadable_saved_file_records_unencrypted() {
    let mut t = Tick::new(config(false, true));
    up_to_save(&mut t);
    assert!(matches!(t.on_written(true), MonitorAction::ReadSavedImage { .. }));
    match t.on_file_read(None) {
        MonitorAction::RecordImage(req) => assert!(!req.is_encrypted),
        other => panic!("unexpected {other:?}"),
    }
}

#[test]
fn failed_image_save_fails_tick() {
    let mut t = Tick::new(config(true, true));
    up_to_save(&mut t);
    assert_eq!(t.on_written(false), MonitorAction::Finish(TickOutcome::Failed));
}

#[test]
fn pixels_too_short_are_unreadable() {
    let mut t = Tick::new(config(false, false));
    t.on_text(None);
    let img = ClipboardImage { width: 2, height: 2, pixels: vec![0; 8] };
    t.on_image(Some(&img));
    t.on_lookup(Some(false));
    assert_eq!(t.on_clock(&clock()), MonitorAction::Finish(TickOutcome::ImageUnreadable));
}

#[test]
fn known_image_is_not_saved_again() {
    let mut t = Tick::new(config(false, false));
    t.on_text(None);
    t.on_image(Some(&image()));
    assert_eq!(t.on_lookup(Some(true)), MonitorAction::Finish(TickOutcome::NothingNew));
}

#[test]
fn text_trimmed_of_unicode_white_space() {
    let mut t = Tick::new(config(false, false));
    assert_eq!(t.on_text(Some("\u{3000}hi there\t")), MonitorAction::LookUpText(text_fingerprint("hi there")));
    assert_eq!(t.content, "hi there");
}
