use media_fs::error::FileError;
use media_fs::naming::{
    check_rename_target, is_taken, resolve_safe_name, resolve_temp_name, safe_name_candidate,
    safe_name_step, temp_name_candidate, temp_name_step, NameStep,
};

fn names(v: &[&str]) -> Vec<String> {
    v.iter().map(|s| s.to_string()).collect()
}

#[test]
fn candidates_in_order() {
    assert_eq!(safe_name_candidate("photo.jpg", 0), Some("photo.jpg".to_string()));
    assert_eq!(safe_name_candidate("photo.jpg", 3), Some("photo(3).jpg".to_string()));
    assert_eq!(safe_name_candidate("readme", 1), Some("readme(1)".to_string()));
    assert_eq!(safe_name_candidate("foo.", 2), Some("foo(2).".to_string()));
    assert_eq!(safe_name_candidate("dir/x.tar.gz", 12), Some("x.tar(12).gz".to_string()));
    assert_eq!(safe_name_candidate("a.txt", 9999), Some("a(9999).txt".to_string()));
    assert_eq!(safe_name_candidate("a.txt", 10000), None);
}

#[test]
fn free_name_is_kept() {
    let taken = names(&["other.jpg", "photo(1).jpg"]);
    assert_eq!(resolve_safe_name("photo.jpg", &taken), Ok("photo.jpg".to_string()));
    assert_eq!(resolve_safe_name("photo.jpg", &Vec::new()), Ok("photo.jpg".to_string()));
}

#[test]
fn ninth_suffix_after_eight_taken() {
    let mut taken = names(&["photo.jpg"]);
    for i in 1..=8 {
        taken.push(format!("photo({}).jpg", i));
    }
    assert_eq!(resolve_safe_name("photo.jpg", &taken), Ok("photo(9).jpg".to_string()));
}

#[test]
fn first_gap_is_used() {
    let taken = names(&["photo.jpg", "photo(2).jpg"]);
    assert_eq!(resolve_safe_name("photo.jpg", &taken), Ok("photo(1).jpg".to_string()));
    let taken = names(&["notes", "notes(1)"]);
    assert_eq!(resolve_safe_name("notes", &taken), Ok("notes(2)".to_string()));
}

#[test]
fn safe_names_exhausted() {
    let mut taken = names(&["a.txt"]);
    for i in 1..=9999 {
        taken.push(format!("a({}).txt", i));
    }
    assert_eq!(resolve_safe_name("a.txt", &taken), Err(FileError::Exhausted));
}

#[test]
fn taken_is_exact() {
    let taken = names(&["A.txt", "b.txt"]);
    assert!(is_taken(&taken, &"b.txt".to_string()));
    assert!(!is_taken(&taken, &"a.txt".to_string()));
}

#[test]
fn temp_candidates() {
    assert_eq!(
        temp_name_candidate("clip.mp4", 1700000000123, 0),
        Some("~temp_clip_17000000001230.mp4".to_string())
    );
    assert_eq!(
        temp_name_candidate("dir/notes", 5, 42),
        Some("~temp_notes_542".to_string())
    );
    assert_eq!(temp_name_candidate("clip.mp4", 1, 1000), None);
}

#[test]
fn temp_name_skips_taken() {
    let taken = names(&["~temp_clip_10.mp4", "~temp_clip_11.mp4"]);
    let r = resolve_temp_name("clip.mp4", 1, &taken).unwrap();
    assert_eq!(r, "~temp_clip_12.mp4");
    assert!(r.starts_with("~temp_"));
    assert!(!taken.contains(&r));
}

#[test]
fn temp_names_exhausted() {
    let mut taken = Vec::new();
    for i in 0..1000 {
        taken.push(format!("~temp_x_7{}", i));
    }
    assert_eq!(resolve_temp_name("x", 7, &taken), Err(FileError::Exhausted));
}

#[test]
fn rename_target_guard() {
    assert_eq!(
        check_rename_target("/d/b.txt", true),
        Err(FileError::AlreadyExists("/d/b.txt".to_string()))
    );
    assert_eq!(check_rename_target("/d/b.txt", false), Ok(()));
}

#[test]
fn error_messages() {
    assert_eq!(FileError::NotFound("x".to_string()).message(), "path does not exist: x");
    assert_eq!(FileError::AlreadyExists("y".to_string()).message(), "target already exists: y");
    assert_eq!(FileError::Exhausted.message(), "no free name is left");
    assert_eq!(FileError::Encode("e".to_string()).message(), "image encoding failed: e");
}

#[test]
fn name_search_steps() {
    assert_eq!(safe_name_step(0, false), NameStep::Found);
    assert_eq!(safe_name_step(0, true), NameStep::Next(1));
    assert_eq!(safe_name_step(9998, true), NameStep::Next(9999));
    assert_eq!(safe_name_step(9999, true), NameStep::Exhausted);
    assert_eq!(temp_name_step(998, true), NameStep::Next(999));
    assert_eq!(temp_name_step(999, true), NameStep::Exhausted);
    assert_eq!(temp_name_step(999, false), NameStep::Found);
}
