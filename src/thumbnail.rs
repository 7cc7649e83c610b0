//! Placeholder thumbnails for video files: a gradient background, a soft
//! halo, a play glyph and a bordered badge, encoded as JPEG and then base64.
//! No video data is read.

use vstd::prelude::*;
use image::codecs::jpeg::JpegEncoder;
use image::{ImageBuffer, ImageError, Rgb};
use crate::error::FileError;
use crate::path_facts::{extension_of, file_name, file_name_text, split_file_name};

verus! {

/// An RGB image of the `image` crate, eight bits per channel, reached through
/// the functions below.
#[verifier::external_body]
pub struct RgbCanvas {
    img: ImageBuffer<Rgb<u8>, Vec<u8>>,
}

#[verifier::external_type_specification]
#[verifier::external_body]
pub struct ExImageError(ImageError);

/// The width of an RGB image, as `ImageBuffer::width` gives it.
pub uninterp spec fn image_width(img: RgbCanvas) -> nat;

/// The height of an RGB image, as `ImageBuffer::height` gives it.
pub uninterp spec fn image_height(img: RgbCanvas) -> nat;

/// The samples of an RGB image, three per pixel, row after row.
pub uninterp spec fn image_samples(img: RgbCanvas) -> Seq<u8>;

/// The JPEG stream of RGB samples of the given size at the given quality.
pub uninterp spec fn jpeg_bytes(samples: Seq<u8>, width: nat, height: nat, quality: u8) -> Seq<
    u8,
>;

/// The upper-case form of a text, as `str::to_uppercase` gives it.
pub uninterp spec fn upper_of(s: Seq<char>) -> Seq<char>;

/// The standard base64 alphabet: a digit of six bits picks its character.
pub open spec fn base64_alphabet() -> Seq<char> {
    "ABCDEFGHIJKLMNOPQRSTUVWXYZabcdefghijklmnopqrstuvwxyz0123456789+/"@
}

/// Padded standard base64: each group of three bytes gives four characters of
/// six bits each, and a last group of one or two bytes is padded with `=`.
pub open spec fn base64_text(b: Seq<u8>) -> Seq<char>
    decreases b.len(),
{
    let a = base64_alphabet();
    if b.len() == 0 {
        Seq::empty()
    } else if b.len() == 1 {
        let x = b[0] as int;
        seq![a[x / 4], a[(x % 4) * 16], '=', '=']
    } else if b.len() == 2 {
        let x = b[0] as int;
        let y = b[1] as int;
        seq![a[x / 4], a[(x % 4) * 16 + y / 16], a[(y % 16) * 4], '=']
    } else {
        let x = b[0] as int;
        let y = b[1] as int;
        let z = b[2] as int;
        seq![a[x / 4], a[(x % 4) * 16 + y / 16], a[(y % 16) * 4 + z / 64], a[z % 64]]
            + base64_text(b.subrange(3, b.len() as int))
    }
}

/// Base64 text has four characters for each started group of three bytes.
pub proof fn base64_length(b: Seq<u8>)
    ensures
        base64_text(b).len() == 4 * ((b.len() + 2) / 3),
    decreases b.len(),
{
    if b.len() >= 3 {
        base64_length(b.subrange(3, b.len() as int));
    }
}

/// Where the pixel `(x, y)` of a `width`-wide image starts among its samples.
pub open spec fn sample_index(width: int, x: int, y: int) -> int {
    3 * (y * width + x)
}

/// Relies on `ImageBuffer::new`: an image of the given size with all samples
/// zero, three per pixel. It panics where the sample count overflows `usize`.
#[verifier::external_body]
fn blank_image(width: u32, height: u32) -> (r: RgbCanvas)
    requires
        3 * width * height <= usize::MAX,
    ensures
        image_width(r) == width,
        image_height(r) == height,
        image_samples(r) == Seq::new((3 * width * height) as nat, |i: int| 0u8),
{
    RgbCanvas { img: ImageBuffer::new(width, height) }
}

/// Relies on `ImageBuffer::put_pixel`: the three samples of pixel `(x, y)`,
/// at `3 * (y * width + x)`, take the new values. It panics outside the image.
#[verifier::external_body]
fn put_rgb(img: &mut RgbCanvas, x: u32, y: u32, c: (u8, u8, u8))
    requires
        x < image_width(*old(img)),
        y < image_height(*old(img)),
        image_samples(*old(img)).len() == 3 * image_width(*old(img)) * image_height(*old(img)),
    ensures
        image_width(*final(img)) == image_width(*old(img)),
        image_height(*final(img)) == image_height(*old(img)),
        image_samples(*final(img)) == image_samples(*old(img)).update(
            sample_index(image_width(*old(img)) as int, x as int, y as int),
            c.0,
        ).update(sample_index(image_width(*old(img)) as int, x as int, y as int) + 1, c.1).update(
            sample_index(image_width(*old(img)) as int, x as int, y as int) + 2,
            c.2,
        ),
{
    img.img.put_pixel(x, y, Rgb([c.0, c.1, c.2]))
}

/// Relies on `JpegEncoder::new_with_quality` and `JpegEncoder::encode` with
/// `ColorType::Rgb8` on the image's raw samples: the stream depends on the
/// samples, the size and the quality alone. The encoder asserts that the
/// samples are three per pixel. Its only errors come from sides that do not
/// fit in 16 bits: writing into a `Vec` cannot fail, and a `Vec` of bytes
/// never holds more than `isize::MAX` of them.
#[verifier::external_body]
fn encode_jpeg(img: &RgbCanvas, quality: u8) -> (r: Result<Vec<u8>, ImageError>)
    requires
        image_samples(*img).len() == 3 * image_width(*img) * image_height(*img),
    ensures
        r matches Ok(b) ==> b@ == jpeg_bytes(
            image_samples(*img),
            image_width(*img),
            image_height(*img),
            quality,
        ),
        r matches Ok(b) ==> b@.len() <= isize::MAX,
        image_width(*img) <= 65535 && image_height(*img) <= 65535 ==> r is Ok,
{
    let mut buffer = Vec::new();
    let res = JpegEncoder::new_with_quality(&mut buffer, quality).encode(
        img.img.as_raw(),
        img.img.width(),
        img.img.height(),
        image::ColorType::Rgb8,
    );
    match res {
        Ok(()) => Ok(buffer),
        Err(e) => Err(e),
    }
}

/// Relies on `ImageError`'s `Display` impl for the encoder's message.
#[verifier::external_body]
fn image_error_message(e: &ImageError) -> (r: String) {
    e.to_string()
}

/// Relies on `base64::Engine::encode` with the `STANDARD` engine: padded
/// standard base64. It panics where the text's length overflows `usize`.
#[verifier::external_body]
fn to_base64(bytes: &Vec<u8>) -> (r: String)
    requires
        bytes@.len() <= usize::MAX / 4 * 3,
    ensures
        r@ == base64_text(bytes@),
{
    base64::Engine::encode(&base64::engine::general_purpose::STANDARD, bytes)
}

/// Relies on `str::to_uppercase`: the result depends on the characters alone.
#[verifier::external_body]
fn uppercase(s: &str) -> (r: String)
    ensures
        r@ == upper_of(s@),
{
    s.to_uppercase()
}

/// The format label of the video at `path`: its extension in upper case, or
/// none where it has no extension.
pub fn badge_label(path: &str) -> (r: Option<String>)
    ensures
        match extension_of(file_name_text(path@)) {
            Some(e) => r matches Some(l) && l@ == upper_of(e),
            None => r is None,
        },
{
    let name = file_name(path);
    let (_, ext) = split_file_name(name.as_str());
    match ext {
        Some(e) => Some(uppercase(e.as_str())),
        None => None,
    }
}

/// A colour as red, green and blue.
pub type Color = (u8, u8, u8);

pub open spec fn min_int(a: int, b: int) -> int {
    if a < b {
        a
    } else {
        b
    }
}

pub open spec fn abs_int(a: int) -> int {
    if a < 0 {
        -a
    } else {
        a
    }
}

/// A channel of the background gradient on row `y`: its base value scaled by
/// `0.3 + 0.7 * y / height`, rounded down.
pub open spec fn gradient_channel(base: int, y: int, height: int) -> int {
    base * (7 * y + 3 * height) / (10 * height)
}

/// A quarter of the shorter side.
pub open spec fn icon_size(width: int, height: int) -> int {
    min_int(width, height) / 4
}

/// The radius of the halo: 1.2 times the icon size, rounded down.
pub open spec fn halo_radius(width: int, height: int) -> int {
    icon_size(width, height) * 6 / 5
}

/// The squared distance of `(x, y)` from the centre `(width / 2, height / 2)`.
pub open spec fn center_dist2(width: int, height: int, x: int, y: int) -> int {
    (x - width / 2) * (x - width / 2) + (y - height / 2) * (y - height / 2)
}

/// What the halo adds to each channel: a third of `80 * (1 - d² / r²)`, both
/// rounded down, inside the halo; nothing outside it or where it has no radius.
pub open spec fn halo_boost(width: int, height: int, x: int, y: int) -> int {
    let r = halo_radius(width, height);
    let d = center_dist2(width, height, x, y);
    if r > 0 && d <= r * r {
        (80 * (r * r - d) / (r * r)) / 3
    } else {
        0
    }
}

/// Whether `(x, y)` lies in the play glyph: a triangle pointing right, as tall
/// as the icon, 0.8 of it wide (rounded down), starting a third of that width
/// left of the centre.
pub open spec fn in_play_glyph(width: int, height: int, x: int, y: int) -> bool {
    let t = icon_size(width, height);
    let tw = t * 4 / 5;
    let half = t / 2;
    let dx = x - width / 2 + tw / 3;
    let ady = abs_int(y - height / 2);
    &&& ady <= half
    &&& 0 <= dx
    &&& dx <= if t == 0 {
        0
    } else {
        (half - ady) * tw / t
    }
}

/// Badge width: a third of the width, at most 40.
pub open spec fn badge_width(width: int) -> int {
    min_int(width / 3, 40)
}

/// Badge height: a sixth of the height, at most 12.
pub open spec fn badge_height(height: int) -> int {
    min_int(height / 6, 12)
}

/// The badge's left column: 5 pixels of margin to its right, or 0.
pub open spec fn badge_left(width: int) -> int {
    if width >= badge_width(width) + 5 {
        width - (badge_width(width) + 5)
    } else {
        0
    }
}

/// The badge's top row: 5 pixels of margin below it, or 0.
pub open spec fn badge_top(height: int) -> int {
    if height >= badge_height(height) + 5 {
        height - (badge_height(height) + 5)
    } else {
        0
    }
}

pub open spec fn in_badge(width: int, height: int, x: int, y: int) -> bool {
    &&& badge_left(width) <= x <= badge_left(width) + badge_width(width)
    &&& badge_top(height) <= y <= badge_top(height) + badge_height(height)
}

pub open spec fn on_badge_border(width: int, height: int, x: int, y: int) -> bool {
    &&& in_badge(width, height, x, y)
    &&& (x == badge_left(width) || x == badge_left(width) + badge_width(width) || y == badge_top(
        height,
    ) || y == badge_top(height) + badge_height(height))
}

pub open spec fn saturate(v: int) -> u8 {
    if v > 255 {
        255
    } else {
        v as u8
    }
}

/// The colour of pixel `(x, y)` of the placeholder: the badge's white border
/// and black inside on top, then the white play glyph, then the gradient
/// brightened by the halo with saturation.
pub open spec fn placeholder_color(width: int, height: int, x: int, y: int) -> Color {
    if on_badge_border(width, height, x, y) {
        (255, 255, 255)
    } else if in_badge(width, height, x, y) {
        (0, 0, 0)
    } else if in_play_glyph(width, height, x, y) {
        (255, 255, 255)
    } else {
        let b = halo_boost(width, height, x, y);
        (
            saturate(gradient_channel(25, y, height) + b),
            saturate(gradient_channel(45, y, height) + b),
            saturate(gradient_channel(30, y, height) + b),
        )
    }
}

pub open spec fn channel(c: Color, j: int) -> u8 {
    if j == 0 {
        c.0
    } else if j == 1 {
        c.1
    } else {
        c.2
    }
}

/// The samples of the placeholder, three per pixel, row after row.
pub open spec fn placeholder_samples(width: nat, height: nat) -> Seq<u8> {
    Seq::new(
        3 * width * height,
        |i: int| channel(placeholder_color(width as int, height as int, (i / 3) % (width as int), (i / 3) / (width as int)), i % 3),
    )
}

fn gradient_value(base: u64, y: u32, height: u32) -> (r: u8)
    requires
        base <= 255,
        y < height,
    ensures
        r == gradient_channel(base as int, y as int, height as int),
{
    assert(base * (7 * y + 3 * height) <= base * (10 * height)) by (nonlinear_arith)
        requires
            y < height,
            base >= 0,
    ;
    assert(base * (10 * height) <= 255 * (10 * 0x1_0000_0000)) by (nonlinear_arith)
        requires
            base <= 255,
            height <= 0x1_0000_0000,
    ;
    let num: u64 = base * (7 * y as u64 + 3 * height as u64);
    let den: u64 = 10 * height as u64;
    assert((base * (7 * y + 3 * height)) / (10 * height) <= base) by (nonlinear_arith)
        requires
            base * (7 * y + 3 * height) <= base * (10 * height),
            height > 0,
    ;
    (num / den) as u8
}

fn add_saturating(a: u8, b: u64) -> (r: u8)
    requires
        b <= 255,
    ensures
        r == saturate(a + b),
{
    if a as u64 + b > 255 {
        255
    } else {
        (a as u64 + b) as u8
    }
}

/// The halo's boost at `(x, y)`.
fn halo_value(width: u32, height: u32, x: u32, y: u32) -> (r: u64)
    requires
        x < width,
        y < height,
    ensures
        r == halo_boost(width as int, height as int, x as int, y as int),
        r <= 80,
{
    let m: u64 = if width < height { width as u64 } else { height as u64 };
    let r: u64 = (m / 4) * 6 / 5;
    let dx: i64 = x as i64 - (width / 2) as i64;
    let dy: i64 = y as i64 - (height / 2) as i64;
    assert(-0x8000_0000 <= dx <= 0x8000_0000);
    assert(-0x8000_0000 <= dy <= 0x8000_0000);
    assert(0 <= dx * dx <= 0x4000_0000_0000_0000) by (nonlinear_arith)
        requires
            -0x8000_0000 <= dx <= 0x8000_0000,
    ;
    assert(0 <= dy * dy <= 0x4000_0000_0000_0000) by (nonlinear_arith)
        requires
            -0x8000_0000 <= dy <= 0x8000_0000,
    ;
    let d: u64 = (dx * dx) as u64 + (dy * dy) as u64;
    assert(r * r <= 0x4000_0000_0000_0000) by (nonlinear_arith)
        requires
            0 <= r <= 0x8000_0000,
    ;
    let r2: u64 = r * r;
    assert(r > 0 ==> r * r > 0) by (nonlinear_arith);
    if r > 0 && d <= r2 {
        let num: u128 = 80 * ((r2 - d) as u128);
        assert(num / (r2 as u128) <= 80) by (nonlinear_arith)
            requires
                num == 80 * (r2 - d),
                d <= r2,
                r2 > 0,
        ;
        ((num / (r2 as u128)) / 3) as u64
    } else {
        0
    }
}

fn in_glyph(width: u32, height: u32, x: u32, y: u32) -> (r: bool)
    requires
        x < width,
        y < height,
    ensures
        r == in_play_glyph(width as int, height as int, x as int, y as int),
{
    let m: i64 = if width < height { width as i64 } else { height as i64 };
    let t: i64 = m / 4;
    let tw: i64 = t * 4 / 5;
    let half: i64 = t / 2;
    let dx: i64 = x as i64 - (width / 2) as i64 + tw / 3;
    let dy: i64 = y as i64 - (height / 2) as i64;
    let ady: i64 = if dy < 0 { -dy } else { dy };
    if ady > half || dx < 0 {
        return false;
    }
    let limit: i64 = if t == 0 {
        0
    } else {
        assert((half - ady) * tw <= 0x1000_0000_0000_0000) by (nonlinear_arith)
            requires
                0 <= half - ady <= 0x4000_0000,
                0 <= tw <= 0x4000_0000,
        ;
        (half - ady) * tw / t
    };
    dx <= limit
}

/// The colour of pixel `(x, y)` of a `width` by `height` placeholder.
pub fn placeholder_pixel(width: u32, height: u32, x: u32, y: u32) -> (r: Color)
    requires
        x < width,
        y < height,
    ensures
        r == placeholder_color(width as int, height as int, x as int, y as int),
{
    let bw: u32 = if width / 3 < 40 { width / 3 } else { 40 };
    let bh: u32 = if height / 6 < 12 { height / 6 } else { 12 };
    let bx: u32 = if width >= bw + 5 { width - (bw + 5) } else { 0 };
    let by: u32 = if height >= bh + 5 { height - (bh + 5) } else { 0 };
    let badge = bx <= x && x <= bx + bw && by <= y && y <= by + bh;
    if badge && (x == bx || x == bx + bw || y == by || y == by + bh) {
        (255, 255, 255)
    } else if badge {
        (0, 0, 0)
    } else if in_glyph(width, height, x, y) {
        (255, 255, 255)
    } else {
        let b = halo_value(width, height, x, y);
        (
            add_saturating(gradient_value(25, y, height), b),
            add_saturating(gradient_value(45, y, height), b),
            add_saturating(gradient_value(30, y, height), b),
        )
    }
}

/// Draws the placeholder on a new canvas, pixel by pixel, row after row.
fn render_placeholder(width: u32, height: u32) -> (r: RgbCanvas)
    requires
        3 * width * height <= usize::MAX,
    ensures
        image_width(r) == width,
        image_height(r) == height,
        image_samples(r) == placeholder_samples(width as nat, height as nat),
{
    let ghost goal = placeholder_samples(width as nat, height as nat);
    let mut img = blank_image(width, height);
    assert(width * height <= u64::MAX) by (nonlinear_arith)
        requires
            width <= u32::MAX,
            height <= u32::MAX,
    ;
    let total: u64 = width as u64 * height as u64;
    let mut k: u64 = 0;
    assert(3 * width * height == 3 * total) by (nonlinear_arith)
        requires
            total == width * height,
    ;
    while k < total
        invariant
            total == width * height,
            k <= total,
            goal == placeholder_samples(width as nat, height as nat),
            image_width(img) == width,
            image_height(img) == height,
            image_samples(img).len() == 3 * width * height,
            image_samples(img).len() == 3 * total,
            goal.len() == 3 * total,
            forall|i: int| 0 <= i < 3 * k ==> image_samples(img)[i] == goal[i],
        decreases total - k,
    {
        assert(width > 0) by (nonlinear_arith)
            requires
                k < total,
                total == width * height,
        ;
        let xw: u64 = k % width as u64;
        let yw: u64 = k / width as u64;
        proof {
            vstd::arithmetic::div_mod::lemma_fundamental_div_mod(k as int, width as int);
            vstd::arithmetic::div_mod::lemma_mod_pos_bound(k as int, width as int);
            assert(yw < height) by (nonlinear_arith)
                requires
                    k < width * height,
                    k == width * yw + xw,
                    0 <= xw,
                    width > 0,
            ;
        }
        let x: u32 = xw as u32;
        let y: u32 = yw as u32;
        proof {
            assert(sample_index(width as int, x as int, y as int) == 3 * k) by (nonlinear_arith)
                requires
                    k == width * y + x,
            ;
        }
        let c = placeholder_pixel(width, height, x, y);
        let ghost before = image_samples(img);
        put_rgb(&mut img, x, y, c);
        proof {
            assert forall|i: int| 0 <= i < 3 * (k + 1) implies image_samples(img)[i] == goal[i] by {
                if i >= 3 * k {
                    assert(i / 3 == k);
                    assert(i % 3 == i - 3 * k);
                }
            }
        }
        k = k + 1;
    }
    assert(image_samples(img) =~= goal);
    img
}

/// The quality the thumbnails are encoded at.
pub const JPEG_QUALITY: u8 = 80;

/// The text of a `width` by `height` thumbnail: base64 of the placeholder's
/// JPEG stream at quality 80.
pub open spec fn thumbnail_text(width: nat, height: nat) -> Seq<char> {
    base64_text(jpeg_bytes(placeholder_samples(width, height), width, height, JPEG_QUALITY))
}

/// A placeholder thumbnail for the video at `path`, as base64 JPEG text;
/// `NotFound` where the path does not exist, `Encode` where the encoder fails,
/// which it does only for a side over 65535. The picture depends on the size
/// alone: the format label is worked out but the badge is left blank.
pub fn generate_video_thumbnail(path: &str, path_exists: bool, width: u32, height: u32) -> (r:
    Result<String, FileError>)
    requires
        path_exists ==> 3 * width * height <= usize::MAX,
    ensures
        !path_exists ==> (r matches Err(FileError::NotFound(p)) && p@ == path@),
        path_exists ==> match r {
            Ok(s) => s@ == thumbnail_text(width as nat, height as nat),
            Err(e) => e is Encode,
        },
        path_exists && width <= 65535 && height <= 65535 ==> r is Ok,
        r matches Ok(s) ==> s@.len() % 4 == 0,
{
    if !path_exists {
        return Err(FileError::NotFound(String::from_str(path)));
    }
    let _label = badge_label(path);
    let img = render_placeholder(width, height);
    match encode_jpeg(&img, JPEG_QUALITY) {
        Ok(bytes) => {
            let text = to_base64(&bytes);
            proof {
                base64_length(bytes@);
            }
            Ok(text)
        },
        Err(e) => Err(FileError::Encode(image_error_message(&e))),
    }
}

} // verus!
