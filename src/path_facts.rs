//! Facts derived from a path's text: file name, stem, extension and media kind.

use vstd::prelude::*;

verus! {

/// The final component of a path, as `std::path::Path::file_name` gives it.
pub uninterp spec fn final_component(path: Seq<char>) -> Option<Seq<char>>;

/// The lower-case form of a text, as `str::to_lowercase` gives it.
pub uninterp spec fn lower_of(s: Seq<char>) -> Seq<char>;

/// Relies on `std::path::Path::file_name`: the path's final component, if it
/// has one. A `&str` path is valid UTF-8, so the lossy conversion loses nothing.
#[verifier::external_body]
fn file_name_of(path: &str) -> (r: Option<String>)
    ensures
        match r {
            Some(s) => final_component(path@) == Some(s@),
            None => final_component(path@) == None::<Seq<char>>,
        },
{
    std::path::Path::new(path).file_name().map(|n| n.to_string_lossy().into_owned())
}

/// Relies on `str::to_lowercase`: the result depends on the characters alone.
#[verifier::external_body]
fn lowercase(s: &str) -> (r: String)
    ensures
        r@ == lower_of(s@),
{
    s.to_lowercase()
}

/// Index of the last `.` among the first `n` characters of `s`, or -1.
pub open spec fn last_dot_before(s: Seq<char>, n: int) -> int
    decreases n,
{
    if n <= 0 {
        -1
    } else if s[n - 1] == '.' {
        n - 1
    } else {
        last_dot_before(s, n - 1)
    }
}

pub open spec fn last_dot(s: Seq<char>) -> int {
    last_dot_before(s, s.len() as int)
}

pub open spec fn is_dot_dot(s: Seq<char>) -> bool {
    s == seq!['.', '.']
}

/// The stem of a file name: the whole name when it has no `.` but a leading
/// one (or is `..`), else what comes before the last `.`.
pub open spec fn stem_of(name: Seq<char>) -> Seq<char> {
    if is_dot_dot(name) || last_dot(name) <= 0 {
        name
    } else {
        name.subrange(0, last_dot(name))
    }
}

/// The extension of a file name, without its `.`: none when the name has no
/// `.` but a leading one (or is `..`), else what follows the last `.`.
pub open spec fn extension_of(name: Seq<char>) -> Option<Seq<char>> {
    if is_dot_dot(name) || last_dot(name) <= 0 {
        None
    } else {
        Some(name.subrange(last_dot(name) + 1, name.len() as int))
    }
}

/// The file name of a path, empty where it has none.
pub open spec fn file_name_text(path: Seq<char>) -> Seq<char> {
    match final_component(path) {
        Some(n) => n,
        None => Seq::empty(),
    }
}

/// The extension with a leading `.`, empty where there is none or it is empty.
pub open spec fn dotted_ext(name: Seq<char>) -> Seq<char> {
    match extension_of(name) {
        Some(e) => if e.len() == 0 { e } else { seq!['.'] + e },
        None => Seq::empty(),
    }
}

fn find_last_dot(s: &str) -> (r: Option<usize>)
    ensures
        match r {
            Some(k) => k == last_dot(s@),
            None => last_dot(s@) == -1,
        },
{
    let n = s.unicode_len();
    let mut i: usize = n;
    while i > 0
        invariant
            i <= n,
            n == s@.len(),
            last_dot(s@) == last_dot_before(s@, i as int),
        decreases i,
    {
        if s.get_char(i - 1) == '.' {
            return Some(i - 1);
        }
        i = i - 1;
    }
    None
}

/// Splits a file name into its stem and its extension (without the `.`).
pub fn split_file_name(name: &str) -> (r: (String, Option<String>))
    ensures
        r.0@ == stem_of(name@),
        match r.1 {
            Some(e) => extension_of(name@) == Some(e@),
            None => extension_of(name@) == None::<Seq<char>>,
        },
{
    let n = name.unicode_len();
    let dot_dot = n == 2 && name.get_char(0) == '.' && name.get_char(1) == '.';
    assert(dot_dot == is_dot_dot(name@)) by {
        if n == 2 && name@[0] == '.' && name@[1] == '.' {
            assert(name@ =~= seq!['.', '.']);
        }
    }
    match find_last_dot(name) {
        Some(k) if !dot_dot && k > 0 => {
            proof {
                lemma_last_dot_bounds(name@, name@.len() as int);
            }
            let stem = String::from_str(name.substring_char(0, k));
            let ext = String::from_str(name.substring_char(k + 1, n));
            (stem, Some(ext))
        },
        _ => (String::from_str(name), None),
    }
}

proof fn lemma_last_dot_bounds(s: Seq<char>, n: int)
    requires
        0 <= n <= s.len(),
    ensures
        -1 <= last_dot_before(s, n) < n,
        last_dot_before(s, n) >= 0 ==> s[last_dot_before(s, n)] == '.',
    decreases n,
{
    if n > 0 && s[n - 1] != '.' {
        lemma_last_dot_bounds(s, n - 1);
    }
}

/// Whether two texts hold the same characters.
pub fn same_text(a: &str, b: &str) -> (r: bool)
    ensures
        r == (a@ == b@),
{
    let n = a.unicode_len();
    if n != b.unicode_len() {
        return false;
    }
    let mut i: usize = 0;
    while i < n
        invariant
            i <= n,
            n == a@.len(),
            n == b@.len(),
            a@.subrange(0, i as int) == b@.subrange(0, i as int),
        decreases n - i,
    {
        if a.get_char(i) != b.get_char(i) {
            assert(a@[i as int] != b@[i as int]);
            return false;
        }
        assert(a@.subrange(0, i + 1) =~= a@.subrange(0, i as int).push(a@[i as int]));
        assert(b@.subrange(0, i + 1) =~= b@.subrange(0, i as int).push(b@[i as int]));
        i = i + 1;
    }
    assert(a@ =~= a@.subrange(0, n as int));
    assert(b@ =~= b@.subrange(0, n as int));
    true
}

/// Extensions (lower case, with their `.`) of the image formats.
pub open spec fn is_image_ext_text(e: Seq<char>) -> bool {
    e == ".jpg"@ || e == ".jpeg"@ || e == ".png"@ || e == ".gif"@ || e == ".bmp"@
        || e == ".webp"@ || e == ".tiff"@ || e == ".tif"@ || e == ".svg"@ || e == ".avif"@
}

/// Extensions (lower case, with their `.`) of the video formats.
pub open spec fn is_video_ext_text(e: Seq<char>) -> bool {
    e == ".mp4"@ || e == ".avi"@ || e == ".mov"@ || e == ".wmv"@ || e == ".flv"@
        || e == ".webm"@ || e == ".mkv"@ || e == ".m4v"@ || e == ".3gp"@ || e == ".ogv"@
}

/// Whether a lower-case extension (with its `.`) names an image format.
pub fn is_image_ext(lower: &str) -> (r: bool)
    ensures
        r == is_image_ext_text(lower@),
{
    same_text(lower, ".jpg") || same_text(lower, ".jpeg") || same_text(lower, ".png")
        || same_text(lower, ".gif") || same_text(lower, ".bmp") || same_text(lower, ".webp")
        || same_text(lower, ".tiff") || same_text(lower, ".tif") || same_text(lower, ".svg")
        || same_text(lower, ".avif")
}

/// Whether a lower-case extension (with its `.`) names a video format.
pub fn is_video_ext(lower: &str) -> (r: bool)
    ensures
        r == is_video_ext_text(lower@),
{
    same_text(lower, ".mp4") || same_text(lower, ".avi") || same_text(lower, ".mov")
        || same_text(lower, ".wmv") || same_text(lower, ".flv") || same_text(lower, ".webm")
        || same_text(lower, ".mkv") || same_text(lower, ".m4v") || same_text(lower, ".3gp")
        || same_text(lower, ".ogv")
}

/// What a path's text tells about the file it names.
pub struct PathFacts {
    /// The stem: the file name without its extension.
    pub name: String,
    /// The extension with its leading `.`, or empty.
    pub ext: String,
    /// The file name with its extension.
    pub full_name: String,
    pub is_image: bool,
    pub is_video: bool,
}

/// The facts of a path: the file name split by the stem and extension rules,
/// and the media kind from the lower-cased extension.
pub open spec fn facts_of(f: PathFacts, path: Seq<char>) -> bool {
    let name = file_name_text(path);
    let ext = dotted_ext(name);
    &&& f.full_name@ == name
    &&& f.name@ == stem_of(name)
    &&& f.ext@ == ext
    &&& f.is_image == (ext.len() > 0 && is_image_ext_text(lower_of(ext)))
    &&& f.is_video == (ext.len() > 0 && is_video_ext_text(lower_of(ext)))
}

/// The file name of a path as a `String`, empty where the path has none.
pub fn file_name(path: &str) -> (r: String)
    ensures
        r@ == file_name_text(path@),
{
    match file_name_of(path) {
        Some(n) => n,
        None => String::new(),
    }
}

/// The extension of a file name with its leading `.`, empty where there is none.
pub fn dotted_extension(name: &str) -> (r: String)
    ensures
        r@ == dotted_ext(name@),
{
    let (_, ext) = split_file_name(name);
    match ext {
        Some(e) => {
            if e.unicode_len() == 0 {
                e
            } else {
                let mut d = String::from_str(".");
                proof {
                    reveal_strlit(".");
                }
                d.append(e.as_str());
                assert(d@ =~= seq!['.'] + e@);
                d
            }
        },
        None => String::new(),
    }
}

/// Classifies a path by its text alone: stem, extension, file name and media kind.
pub fn classify(path: &str) -> (r: PathFacts)
    ensures
        facts_of(r, path@),
{
    let full_name = file_name(path);
    let (name, _) = split_file_name(full_name.as_str());
    let ext = dotted_extension(full_name.as_str());
    let has_ext = ext.unicode_len() > 0;
    let lower = lowercase(ext.as_str());
    let is_image = has_ext && is_image_ext(lower.as_str());
    let is_video = has_ext && is_video_ext(lower.as_str());
    PathFacts { name, ext, full_name, is_image, is_video }
}

/// No extension names both an image and a video format, so a path is never
/// classified as both.
pub proof fn image_and_video_exclusive(f: PathFacts, path: Seq<char>)
    requires
        facts_of(f, path),
    ensures
        !(f.is_image && f.is_video),
{
    reveal_strlit(".jpg");
    reveal_strlit(".jpeg");
    reveal_strlit(".png");
    reveal_strlit(".gif");
    reveal_strlit(".bmp");
    reveal_strlit(".webp");
    reveal_strlit(".tiff");
    reveal_strlit(".tif");
    reveal_strlit(".svg");
    reveal_strlit(".avif");
    reveal_strlit(".mp4");
    reveal_strlit(".avi");
    reveal_strlit(".mov");
    reveal_strlit(".wmv");
    reveal_strlit(".flv");
    reveal_strlit(".webm");
    reveal_strlit(".mkv");
    reveal_strlit(".m4v");
    reveal_strlit(".3gp");
    reveal_strlit(".ogv");
    let e = lower_of(dotted_ext(file_name_text(path)));
    if e == ".jpg"@ {
        assert(e.len() == 4 && e[1] == 'j' && e[3] == 'g');
        assert(!is_video_ext_text(e));
    }
    if e == ".jpeg"@ {
        assert(e.len() == 5 && e[1] == 'j' && e[4] == 'g');
        assert(!is_video_ext_text(e));
    }
    if e == ".png"@ {
        assert(e.len() == 4 && e[1] == 'p' && e[3] == 'g');
        assert(!is_video_ext_text(e));
    }
    if e == ".gif"@ {
        assert(e.len() == 4 && e[1] == 'g' && e[3] == 'f');
        assert(!is_video_ext_text(e));
    }
    if e == ".bmp"@ {
        assert(e.len() == 4 && e[1] == 'b' && e[3] == 'p');
        assert(!is_video_ext_text(e));
    }
    if e == ".webp"@ {
        assert(e.len() == 5 && e[1] == 'w' && e[4] == 'p');
        assert(!is_video_ext_text(e));
    }
    if e == ".tiff"@ {
        assert(e.len() == 5 && e[1] == 't' && e[4] == 'f');
        assert(!is_video_ext_text(e));
    }
    if e == ".tif"@ {
        assert(e.len() == 4 && e[1] == 't' && e[3] == 'f');
        assert(!is_video_ext_text(e));
    }
    if e == ".svg"@ {
        assert(e.len() == 4 && e[1] == 's' && e[3] == 'g');
        assert(!is_video_ext_text(e));
    }
    if e == ".avif"@ {
        assert(e.len() == 5 && e[1] == 'a' && e[4] == 'f');
        assert(!is_video_ext_text(e));
    }
}

/// The stem of a path's file name, empty where the path has none.
pub fn basename(path: &str) -> (r: String)
    ensures
        r@ == stem_of(file_name_text(path@)),
{
    let full_name = file_name(path);
    let (stem, _) = split_file_name(full_name.as_str());
    stem
}

} // verus!
