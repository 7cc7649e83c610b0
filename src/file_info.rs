//! File metadata records and the two modification-time policies: a strict one
//! for the metadata record and a degrading one for sort keys.

use vstd::prelude::*;
use crate::error::FileError;
use crate::path_facts::{classify, facts_of, PathFacts};

verus! {

/// The calendar text of a UTC time `secs` seconds after the epoch, rendered
/// with a strftime-style `pattern`; none where the time is out of range.
pub uninterp spec fn utc_text(secs: int, pattern: Seq<char>) -> Option<Seq<char>>;

/// The pattern of time strings: `YYYY-MM-DD HH:MM:SS`.
pub open spec fn time_pattern() -> Seq<char> {
    "%Y-%m-%d %H:%M:%S"@
}

/// Relies on `chrono::DateTime::from_timestamp`, which gives none for seconds
/// outside its range (the epoch lies inside it), and on `DateTime::format`
/// rendering the UTC date-time with `pattern`, whose items are all valid.
#[verifier::external_body]
fn format_utc(secs: i64, pattern: &str) -> (r: Option<String>)
    requires
        pattern@ == time_pattern(),
    ensures
        match r {
            Some(t) => utc_text(secs as int, pattern@) == Some(t@),
            None => utc_text(secs as int, pattern@) == None::<Seq<char>>,
        },
        secs == 0 ==> r is Some,
{
    chrono::DateTime::from_timestamp(secs, 0).map(|dt| dt.format(pattern).to_string())
}

/// `n` reduced to its low 64 bits, read as a two's complement `i64`.
pub open spec fn wrap_i64(n: int) -> int {
    let low = n % 0x1_0000_0000_0000_0000;
    if low < 0x8000_0000_0000_0000 {
        low
    } else {
        low - 0x1_0000_0000_0000_0000
    }
}

/// `n as i64`: the low 64 bits of `n` in two's complement.
pub fn wrapping_i64(n: u128) -> (r: i64)
    ensures
        r == wrap_i64(n as int),
{
    let low: u64 = (n % 0x1_0000_0000_0000_0000) as u64;
    if low < 0x8000_0000_0000_0000 {
        low as i64
    } else {
        i64::MIN + ((low - 0x8000_0000_0000_0000) as i64)
    }
}

/// The time string for `secs` seconds after the epoch; the epoch's where the
/// seconds, read as an `i64`, are out of the calendar's range.
pub open spec fn time_text(secs: int) -> Seq<char> {
    match utc_text(wrap_i64(secs), time_pattern()) {
        Some(t) => t,
        None => utc_text(0, time_pattern())->Some_0,
    }
}

/// `YYYY-MM-DD HH:MM:SS` for the UTC time `secs` seconds after the epoch.
pub fn utc_time_string(secs: u64) -> (r: String)
    ensures
        r@ == time_text(secs as int),
{
    let pattern = "%Y-%m-%d %H:%M:%S";
    match format_utc(wrapping_i64(secs as u128), pattern) {
        Some(t) => t,
        None => match format_utc(0, pattern) {
            Some(t) => t,
            None => String::new(),
        },
    }
}

/// A time after the epoch, as whole seconds and the milliseconds past them.
#[derive(Clone, Copy, Debug, PartialEq, Eq)]
pub struct EpochTime {
    pub secs: u64,
    pub subsec_millis: u32,
}

impl EpochTime {
    pub open spec fn millis_spec(self) -> int {
        self.secs * 1000 + self.subsec_millis
    }

    /// The time in whole milliseconds.
    pub fn millis(&self) -> (r: u128)
        ensures
            r == self.millis_spec(),
    {
        self.secs as u128 * 1000 + self.subsec_millis as u128
    }
}

/// What the filesystem reports of a file.
pub struct FileStat {
    /// Length in bytes.
    pub size: u64,
    /// Modification time, where readable.
    pub modified: Option<EpochTime>,
}

/// The metadata record of a file.
pub struct FileInfo {
    pub facts: PathFacts,
    pub size: u64,
    /// Modification time in milliseconds after the epoch.
    pub timestamp: Option<i64>,
    /// Modification time as `YYYY-MM-DD HH:MM:SS`, UTC, to the second.
    pub time_string: Option<String>,
}

/// The record of the file at `path` with metadata `stat`: the path's facts,
/// its size, and both time fields exactly when the modification time is known.
pub open spec fn info_of(info: FileInfo, path: Seq<char>, stat: FileStat) -> bool {
    &&& facts_of(info.facts, path)
    &&& info.size == stat.size
    &&& time_fields(stat.modified, info.timestamp, info.time_string)
}

/// The two time fields of a record: both present exactly when the
/// modification time is known.
pub open spec fn time_fields(
    modified: Option<EpochTime>,
    timestamp: Option<i64>,
    time_string: Option<String>,
) -> bool {
    match modified {
        Some(m) => timestamp == Some(wrap_i64(m.millis_spec()) as i64) && (time_string matches Some(
            t,
        ) && t@ == time_text(m.secs as int)),
        None => timestamp is None && time_string is None,
    }
}

fn time_fields_of(modified: Option<EpochTime>) -> (r: (Option<i64>, Option<String>))
    ensures
        time_fields(modified, r.0, r.1),
{
    match modified {
        Some(m) => (Some(wrapping_i64(m.millis())), Some(utc_time_string(m.secs))),
        None => (None, None),
    }
}

/// The metadata record of the file at `path`; `NotFound` where the filesystem
/// gave no metadata for it.
pub fn get_file_info(path: &str, stat: Option<FileStat>) -> (r: Result<FileInfo, FileError>)
    ensures
        match stat {
            Some(st) => r matches Ok(info) && info_of(info, path@, st),
            None => r matches Err(FileError::NotFound(p)) && p@ == path@,
        },
{
    match stat {
        None => Err(FileError::NotFound(String::from_str(path))),
        Some(st) => {
            let facts = classify(path);
            let (timestamp, time_string) = time_fields_of(st.modified);
            Ok(FileInfo { facts, size: st.size, timestamp, time_string })
        },
    }
}

/// Two records hold the same values.
pub open spec fn same_info(a: FileInfo, b: FileInfo) -> bool {
    &&& a.facts.name@ == b.facts.name@
    &&& a.facts.ext@ == b.facts.ext@
    &&& a.facts.full_name@ == b.facts.full_name@
    &&& a.facts.is_image == b.facts.is_image
    &&& a.facts.is_video == b.facts.is_video
    &&& a.size == b.size
    &&& a.timestamp == b.timestamp
    &&& match (a.time_string, b.time_string) {
        (Some(x), Some(y)) => x@ == y@,
        (None, None) => true,
        _ => false,
    }
}

/// The record of a file is fixed by its path and metadata: reading an
/// unmodified file twice gives the same values.
pub proof fn file_info_is_repeatable(a: FileInfo, b: FileInfo, path: Seq<char>, stat: FileStat)
    requires
        info_of(a, path, stat),
        info_of(b, path, stat),
    ensures
        same_info(a, b),
{
}

/// A file's time in seconds for sorting: its modification time, else its
/// creation time, else the current time, else 0.
pub fn get_file_time(modified: Option<u64>, created: Option<u64>, now: Option<u64>) -> (r: u64)
    ensures
        r == match modified {
            Some(m) => m,
            None => match created {
                Some(c) => c,
                None => match now {
                    Some(n) => n,
                    None => 0,
                },
            },
        },
{
    match modified {
        Some(m) => m,
        None => match created {
            Some(c) => c,
            None => match now {
                Some(n) => n,
                None => 0,
            },
        },
    }
}

} // verus!
