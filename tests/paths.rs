use media_fs::path_facts::{
    basename, classify, dotted_extension, file_name, is_image_ext, is_video_ext, same_text,
    split_file_name,
};
use media_fs::text::push_decimal;

fn decimal(n: u128) -> String {
    let mut s = String::new();
    push_decimal(&mut s, n);
    s
}

#[test]
fn decimal_digits() {
    assert_eq!(decimal(0), "0");
    assert_eq!(decimal(7), "7");
    assert_eq!(decimal(10), "10");
    assert_eq!(decimal(1700000000123), "1700000000123");
    assert_eq!(decimal(u128::MAX), u128::MAX.to_string());
}

#[test]
fn decimal_appends() {
    let mut s = String::from("n=");
    push_decimal(&mut s, 405);
    assert_eq!(s, "n=405");
}

#[test]
fn split_plain_names() {
    assert_eq!(split_file_name("photo.JPG"), ("photo".to_string(), Some("JPG".to_string())));
    assert_eq!(split_file_name("a.tar.gz"), ("a.tar".to_string(), Some("gz".to_string())));
    assert_eq!(split_file_name("readme"), ("readme".to_string(), None));
}

#[test]
fn split_edge_names() {
    assert_eq!(split_file_name(".bashrc"), (".bashrc".to_string(), None));
    assert_eq!(split_file_name("foo."), ("foo".to_string(), Some(String::new())));
    assert_eq!(split_file_name(".."), ("..".to_string(), None));
    assert_eq!(split_file_name(""), (String::new(), None));
    assert_eq!(split_file_name("..x"), (".".to_string(), Some("x".to_string())));
}

#[test]
fn file_names_of_paths() {
    assert_eq!(file_name("dir/sub/a.png"), "a.png");
    assert_eq!(file_name("a.png"), "a.png");
    assert_eq!(file_name("dir/.."), "");
    assert_eq!(file_name("/"), "");
}

#[test]
fn dotted_extensions() {
    assert_eq!(dotted_extension("a.png"), ".png");
    assert_eq!(dotted_extension("foo."), "");
    assert_eq!(dotted_extension("readme"), "");
    assert_eq!(dotted_extension(".hidden"), "");
}

#[test]
fn classify_uppercase_image() {
    let f = classify("photo.JPG");
    assert!(f.is_image);
    assert!(!f.is_video);
    assert_eq!(f.ext, ".JPG");
    assert_eq!(f.ext.to_lowercase(), ".jpg");
    assert_eq!(f.name, "photo");
    assert_eq!(f.full_name, "photo.JPG");
}

#[test]
fn classify_video() {
    let f = classify("clip.mkv");
    assert!(f.is_video);
    assert!(!f.is_image);
    assert_eq!(f.ext, ".mkv");
}

#[test]
fn classify_without_extension() {
    let f = classify("readme");
    assert!(!f.is_image);
    assert!(!f.is_video);
    assert_eq!(f.ext, "");
    assert_eq!(f.name, "readme");
}

#[test]
fn classify_nested_and_other() {
    let f = classify("/home/u/Pictures/Cat.Tiff");
    assert!(f.is_image);
    assert_eq!(f.full_name, "Cat.Tiff");
    assert_eq!(f.name, "Cat");
    let g = classify("notes.txt");
    assert!(!g.is_image && !g.is_video);
    let h = classify(".mp4");
    assert!(!h.is_video);
    assert_eq!(h.name, ".mp4");
    let v = classify("movie.3GP");
    assert!(v.is_video);
}

#[test]
fn extension_tables() {
    for e in [".jpg", ".jpeg", ".png", ".gif", ".bmp", ".webp", ".tiff", ".tif", ".svg", ".avif"] {
        assert!(is_image_ext(e));
        assert!(!is_video_ext(e));
    }
    for e in [".mp4", ".avi", ".mov", ".wmv", ".flv", ".webm", ".mkv", ".m4v", ".3gp", ".ogv"] {
        assert!(is_video_ext(e));
        assert!(!is_image_ext(e));
    }
    assert!(!is_image_ext(".JPG"));
    assert!(!is_image_ext("jpg"));
}

#[test]
fn basenames() {
    assert_eq!(basename("/a/b/report.final.pdf"), "report.final");
    assert_eq!(basename("noext"), "noext");
    assert_eq!(basename(""), "");
}

#[test]
fn text_equality() {
    assert!(same_text("abc", "abc"));
    assert!(!same_text("abc", "abd"));
    assert!(!same_text("ab", "abc"));
    assert!(same_text("", ""));
}
