use base64::Engine;
use media_fs::error::FileError;
use media_fs::thumbnail::{badge_label, generate_video_thumbnail, placeholder_pixel};

#[test]
fn pixel_background_and_halo() {
    assert_eq!(placeholder_pixel(120, 80, 0, 0), (7, 13, 9));
    assert_eq!(placeholder_pixel(120, 80, 54, 40), (41, 54, 44));
    assert_eq!(placeholder_pixel(120, 80, 119, 79), (24, 44, 29));
}

#[test]
fn pixel_glyph() {
    assert_eq!(placeholder_pixel(120, 80, 60, 40), (255, 255, 255));
    assert_eq!(placeholder_pixel(120, 80, 55, 40), (255, 255, 255));
    assert_eq!(placeholder_pixel(120, 80, 63, 40), (255, 255, 255));
}

#[test]
fn pixel_badge() {
    assert_eq!(placeholder_pixel(120, 80, 75, 63), (255, 255, 255));
    assert_eq!(placeholder_pixel(120, 80, 115, 75), (255, 255, 255));
    assert_eq!(placeholder_pixel(120, 80, 76, 64), (0, 0, 0));
    assert_eq!(placeholder_pixel(120, 80, 100, 70), (0, 0, 0));
}

#[test]
fn pixel_tiny_image() {
    assert_eq!(placeholder_pixel(1, 1, 0, 0), (255, 255, 255));
}

#[test]
fn thumbnail_decodes_to_size() {
    let text = generate_video_thumbnail("/videos/a.mp4", true, 120, 80).unwrap();
    assert!(!text.is_empty());
    let bytes = base64::engine::general_purpose::STANDARD.decode(text.as_bytes()).unwrap();
    assert_eq!(&bytes[..2], &[0xFF, 0xD8]);
    let img = image::load_from_memory_with_format(&bytes, image::ImageFormat::Jpeg).unwrap();
    assert_eq!(img.width(), 120);
    assert_eq!(img.height(), 80);
    assert_eq!(img.color(), image::ColorType::Rgb8);
}

#[test]
fn thumbnail_is_deterministic() {
    let a = generate_video_thumbnail("a.mkv", true, 64, 48).unwrap();
    let b = generate_video_thumbnail("other", true, 64, 48).unwrap();
    assert_eq!(a, b);
}

#[test]
fn thumbnail_missing_file() {
    assert_eq!(
        generate_video_thumbnail("/nope.mp4", false, 120, 80),
        Err(FileError::NotFound("/nope.mp4".to_string()))
    );
}

#[test]
fn thumbnail_pixels_survive_encoding() {
    let text = generate_video_thumbnail("v.mp4", true, 120, 80).unwrap();
    let bytes = base64::engine::general_purpose::STANDARD.decode(text.as_bytes()).unwrap();
    let img = image::load_from_memory_with_format(&bytes, image::ImageFormat::Jpeg)
        .unwrap()
        .to_rgb8();
    let near = |x: u32, y: u32, want: (u8, u8, u8)| {
        let p = img.get_pixel(x, y).0;
        let d = |a: u8, b: u8| (a as i32 - b as i32).abs();
        d(p[0], want.0) <= 24 && d(p[1], want.1) <= 24 && d(p[2], want.2) <= 24
    };
    assert!(near(58, 40, placeholder_pixel(120, 80, 58, 40)));
    assert!(near(2, 2, placeholder_pixel(120, 80, 2, 2)));
    assert!(near(95, 69, placeholder_pixel(120, 80, 95, 69)));
}

#[test]
fn badge_labels() {
    assert_eq!(badge_label("/v/clip.mkv"), Some("MKV".to_string()));
    assert_eq!(badge_label("movie"), None);
}

#[test]
fn missing_file_at_any_size() {
    assert_eq!(
        generate_video_thumbnail("/nope", false, u32::MAX, u32::MAX),
        Err(FileError::NotFound("/nope".to_string()))
    );
}

#[test]
fn thumbnail_text_shape() {
    let text = generate_video_thumbnail("a.mp4", true, 33, 7).unwrap();
    assert_eq!(text.len() % 4, 0);
    assert!(text
        .chars()
        .all(|c| c.is_ascii_alphanumeric() || c == '+' || c == '/' || c == '='));
    let bytes = base64::engine::general_purpose::STANDARD.decode(text.as_bytes()).unwrap();
    assert_eq!(&bytes[bytes.len() - 2..], &[0xFF, 0xD9]);
}

#[test]
fn thumbnail_widest_side() {
    assert!(generate_video_thumbnail("a.mp4", true, 65535, 1).is_ok());
}

#[test]
fn thumbnail_side_too_wide() {
    assert!(matches!(
        generate_video_thumbnail("a.mp4", true, 65536, 1),
        Err(FileError::Encode(_))
    ));
}
