use clip_verse::time::{date_path, now_date_path, now_iso8601, now_shanghai, now_timestamp_millis};

#[test]
fn date_path_pads_month_and_day() {
    assert_eq!(date_path(2024, 1, 5), "2024/01/05");
    assert_eq!(date_path(2024, 12, 31), "2024/12/31");
    assert_eq!(date_path(-1, 3, 10), "-1/03/10");
}

#[test]
fn iso8601_is_in_china_standard_time() {
    let s = now_iso8601();
    assert!(s.ends_with("+08:00"), "{s}");
    assert_eq!(&s[4..5], "-");
    assert_eq!(&s[10..11], "T");
}

#[test]
fn timestamp_is_recent() {
    let ms = now_timestamp_millis();
    assert!(ms > 1_600_000_000_000);
}

#[test]
fn date_path_agrees_with_clock() {
    let r = now_shanghai();
    assert_eq!(r.utc_offset_secs, 8 * 3600);
    assert!((1..=12).contains(&r.month) && (1..=31).contains(&r.day));
    assert!(r.rfc3339.starts_with(&format!("{:04}-{:02}-{:02}", r.year, r.month, r.day)));
    let days = (r.timestamp_millis + 8 * 3600 * 1000).div_euclid(86_400_000);
    let date = chrono::NaiveDate::from_ymd_opt(r.year, r.month, r.day).unwrap();
    let epoch = chrono::NaiveDate::from_ymd_opt(1970, 1, 1).unwrap();
    assert_eq!((date - epoch).num_days(), days);
    let frac = if r.nanosecond == 0 {
        String::new()
    } else if r.nanosecond % 1_000_000 == 0 {
        format!(".{:03}", r.nanosecond / 1_000_000)
    } else if r.nanosecond % 1_000 == 0 {
        format!(".{:06}", r.nanosecond / 1_000)
    } else {
        format!(".{:09}", r.nanosecond)
    };
    assert_eq!(
        r.rfc3339,
        format!(
            "{:04}-{:02}-{:02}T{:02}:{:02}:{:02}{}+08:00",
            r.year, r.month, r.day, r.hour, r.minute, r.second, frac
        )
    );
    let of_day = (r.timestamp_millis + 8 * 3600 * 1000).rem_euclid(86_400_000);
    assert_eq!(
        of_day,
        (r.hour as i64) * 3_600_000 + (r.minute as i64) * 60_000 + (r.second as i64) * 1000
            + (r.nanosecond as i64) / 1_000_000
    );
    let p = now_date_path();
    assert_eq!(p.len(), 10);
    assert_eq!(&p[4..5], "/");
}
