use media_fs::error::FileError;
use media_fs::file_info::{
    get_file_info, get_file_time, utc_time_string, wrapping_i64, EpochTime, FileStat,
};

#[test]
fn time_strings() {
    assert_eq!(utc_time_string(0), "1970-01-01 00:00:00");
    assert_eq!(utc_time_string(1431648000), "2015-05-15 00:00:00");
    assert_eq!(utc_time_string(1700000000), "2023-11-14 22:13:20");
}

#[test]
fn time_string_wraps_and_falls_back() {
    assert_eq!(utc_time_string(u64::MAX), "1969-12-31 23:59:59");
    assert_eq!(utc_time_string(1 << 62), "1970-01-01 00:00:00");
}

#[test]
fn wrapping_casts() {
    assert_eq!(wrapping_i64(5), 5);
    assert_eq!(wrapping_i64((1u128 << 64) + 5), 5);
    assert_eq!(wrapping_i64(1u128 << 63), i64::MIN);
    assert_eq!(wrapping_i64(u64::MAX as u128), -1);
}

#[test]
fn epoch_millis() {
    let t = EpochTime { secs: 1431648000, subsec_millis: 250 };
    assert_eq!(t.millis(), 1431648000250);
}

#[test]
fn info_with_time() {
    let stat = FileStat {
        size: 42,
        modified: Some(EpochTime { secs: 1431648000, subsec_millis: 250 }),
    };
    let info = get_file_info("/media/Clip.MOV", Some(stat)).unwrap();
    assert_eq!(info.facts.name, "Clip");
    assert_eq!(info.facts.ext, ".MOV");
    assert_eq!(info.facts.full_name, "Clip.MOV");
    assert!(info.facts.is_video);
    assert!(!info.facts.is_image);
    assert_eq!(info.size, 42);
    assert_eq!(info.timestamp, Some(1431648000250));
    assert_eq!(info.time_string, Some("2015-05-15 00:00:00".to_string()));
}

#[test]
fn info_without_time() {
    let info = get_file_info("a.png", Some(FileStat { size: 0, modified: None })).unwrap();
    assert!(info.facts.is_image);
    assert_eq!(info.timestamp, None);
    assert_eq!(info.time_string, None);
}

#[test]
fn info_missing_file() {
    assert_eq!(
        get_file_info("/nope", None).err(),
        Some(FileError::NotFound("/nope".to_string()))
    );
}

#[test]
fn info_is_repeatable() {
    let stat = || FileStat {
        size: 7,
        modified: Some(EpochTime { secs: 1700000000, subsec_millis: 5 }),
    };
    let a = get_file_info("x.gif", Some(stat())).unwrap();
    let b = get_file_info("x.gif", Some(stat())).unwrap();
    assert_eq!(a.facts.name, b.facts.name);
    assert_eq!(a.facts.ext, b.facts.ext);
    assert_eq!(a.facts.full_name, b.facts.full_name);
    assert_eq!(a.size, b.size);
    assert_eq!(a.timestamp, b.timestamp);
    assert_eq!(a.time_string, b.time_string);
}

#[test]
fn file_time_fallbacks() {
    assert_eq!(get_file_time(Some(100), Some(50), Some(900)), 100);
    assert_eq!(get_file_time(None, Some(50), Some(900)), 50);
    assert_eq!(get_file_time(None, None, Some(900)), 900);
    assert_eq!(get_file_time(None, None, None), 0);
}
