//! Collision-free names: numbered alternatives to a taken name, temporary
//! names for staging a rename, and the guard that keeps a rename from
//! replacing a file.

use vstd::prelude::*;
use crate::error::FileError;
use crate::path_facts::{extension_of, file_name, file_name_text, split_file_name, stem_of};
use crate::text::{decimal_text, push_decimal};

verus! {

/// The largest number tried as a suffix for a taken name.
pub const MAX_SUFFIX: u32 = 9999;

/// How many temporary names are tried for one timestamp.
pub const TEMP_ATTEMPTS: u32 = 1000;

/// The extension with a leading `.`, kept even when the extension is empty.
pub open spec fn suffix_ext(name: Seq<char>) -> Seq<char> {
    match extension_of(name) {
        Some(e) => seq!['.'] + e,
        None => Seq::empty(),
    }
}

/// `stem(k)ext`.
pub open spec fn numbered(stem: Seq<char>, ext: Seq<char>, k: nat) -> Seq<char> {
    stem + seq!['('] + decimal_text(k) + seq![')'] + ext
}

/// The `k`-th name tried for `desired`: the name itself, then `stem(k)ext`.
pub open spec fn safe_candidate(desired: Seq<char>, k: nat) -> Seq<char> {
    if k == 0 {
        desired
    } else {
        let n = file_name_text(desired);
        numbered(stem_of(n), suffix_ext(n), k)
    }
}

/// The first candidate from the `k`-th on that is not taken.
pub open spec fn first_free_from(desired: Seq<char>, taken: Set<Seq<char>>, k: nat) -> Option<
    Seq<char>,
>
    decreases MAX_SUFFIX + 1 - k,
{
    if k > MAX_SUFFIX {
        None
    } else if !taken.contains(safe_candidate(desired, k)) {
        Some(safe_candidate(desired, k))
    } else {
        first_free_from(desired, taken, k + 1)
    }
}

/// The name chosen for `desired` among the `taken` names, if any is free.
pub open spec fn safe_name(desired: Seq<char>, taken: Set<Seq<char>>) -> Option<Seq<char>> {
    first_free_from(desired, taken, 0)
}

pub open spec fn temp_prefix() -> Seq<char> {
    seq!['~', 't', 'e', 'm', 'p', '_']
}

/// `~temp_{stem}_{millis}{k}{ext}`.
pub open spec fn temp_candidate(source: Seq<char>, millis: nat, k: nat) -> Seq<char> {
    let n = file_name_text(source);
    temp_prefix() + stem_of(n) + seq!['_'] + decimal_text(millis) + decimal_text(k) + suffix_ext(n)
}

/// The first temporary name from the `k`-th on that is not taken.
pub open spec fn first_free_temp_from(
    source: Seq<char>,
    millis: nat,
    taken: Set<Seq<char>>,
    k: nat,
) -> Option<Seq<char>>
    decreases TEMP_ATTEMPTS - k,
{
    if k >= TEMP_ATTEMPTS {
        None
    } else if !taken.contains(temp_candidate(source, millis, k)) {
        Some(temp_candidate(source, millis, k))
    } else {
        first_free_temp_from(source, millis, taken, k + 1)
    }
}

/// The temporary name chosen for `source` at `millis` among the `taken` names.
pub open spec fn temp_name(source: Seq<char>, millis: nat, taken: Set<Seq<char>>) -> Option<
    Seq<char>,
> {
    first_free_temp_from(source, millis, taken, 0)
}

/// The names held by a list of entries.
pub open spec fn name_set(entries: Seq<String>) -> Set<Seq<char>> {
    Set::new(|s: Seq<char>| exists|i: int| 0 <= i < entries.len() && entries[i]@ == s)
}

/// Stem and `.ext` (kept when the extension is empty) of a name's file name.
fn name_parts(name: &str) -> (r: (String, String))
    ensures
        r.0@ == stem_of(file_name_text(name@)),
        r.1@ == suffix_ext(file_name_text(name@)),
{
    let full = file_name(name);
    let (stem, ext) = split_file_name(full.as_str());
    let dotted = match ext {
        Some(e) => {
            let mut d = String::from_str(".");
            proof {
                reveal_strlit(".");
            }
            d.append(e.as_str());
            assert(d@ =~= seq!['.'] + e@);
            d
        },
        None => String::new(),
    };
    (stem, dotted)
}

/// Whether `name` is among the `entries`.
pub fn is_taken(entries: &Vec<String>, name: &String) -> (r: bool)
    ensures
        r == name_set(entries@).contains(name@),
{
    let mut i: usize = 0;
    while i < entries.len()
        invariant
            i <= entries@.len(),
            forall|j: int| 0 <= j < i ==> entries@[j]@ != name@,
        decreases entries@.len() - i,
    {
        if entries[i].eq(name) {
            assert(name_set(entries@).contains(name@));
            return true;
        }
        i = i + 1;
    }
    false
}

/// What a name search does after looking at one candidate.
#[derive(Clone, Copy, Debug, PartialEq, Eq, Structural)]
pub enum NameStep {
    /// The candidate is free: it is the answer.
    Found,
    /// The candidate is taken: try the one with this number next.
    Next(u32),
    /// The candidate is taken and it was the last one.
    Exhausted,
}

/// The decision of a search over attempts `0..=last` after looking at
/// attempt `attempt`, which is `taken` or not.
pub open spec fn search_step(attempt: u32, last: u32, taken: bool) -> NameStep {
    if !taken {
        NameStep::Found
    } else if attempt < last {
        NameStep::Next((attempt + 1) as u32)
    } else {
        NameStep::Exhausted
    }
}

/// The step of the search for a free name: stop at a free candidate, else go
/// on to the next number, up to `stem(9999)ext`.
pub fn safe_name_step(attempt: u32, taken: bool) -> (r: NameStep)
    ensures
        r == search_step(attempt, MAX_SUFFIX, taken),
{
    if !taken {
        NameStep::Found
    } else if attempt < MAX_SUFFIX {
        NameStep::Next(attempt + 1)
    } else {
        NameStep::Exhausted
    }
}

/// The step of the search for a temporary name: stop at a free candidate,
/// else go on to the next attempt, up to attempt 999.
pub fn temp_name_step(attempt: u32, taken: bool) -> (r: NameStep)
    ensures
        r == search_step(attempt, (TEMP_ATTEMPTS - 1) as u32, taken),
{
    if !taken {
        NameStep::Found
    } else if attempt < TEMP_ATTEMPTS - 1 {
        NameStep::Next(attempt + 1)
    } else {
        NameStep::Exhausted
    }
}

/// The `attempt`-th name tried for `desired`: the name itself first, then
/// `stem(1)ext` up to `stem(9999)ext`; none after that.
pub fn safe_name_candidate(desired: &str, attempt: u32) -> (r: Option<String>)
    ensures
        attempt <= MAX_SUFFIX ==> (r matches Some(c) && c@ == safe_candidate(desired@, attempt as nat)),
        attempt > MAX_SUFFIX ==> r is None,
{
    if attempt > MAX_SUFFIX {
        return None;
    }
    if attempt == 0 {
        return Some(String::from_str(desired));
    }
    let (stem, ext) = name_parts(desired);
    let mut c = stem;
    proof {
        reveal_strlit("(");
        reveal_strlit(")");
    }
    c.append("(");
    push_decimal(&mut c, attempt as u128);
    c.append(")");
    c.append(ext.as_str());
    assert(c@ =~= safe_candidate(desired@, attempt as nat));
    Some(c)
}

/// The first of `desired`, `stem(1)ext`, ..., `stem(9999)ext` that is not
/// among `taken`; `Exhausted` when all of them are.
pub fn resolve_safe_name(desired: &str, taken: &Vec<String>) -> (r: Result<String, FileError>)
    ensures
        match safe_name(desired@, name_set(taken@)) {
            Some(n) => r matches Ok(s) && s@ == n,
            None => r == Err::<String, FileError>(FileError::Exhausted),
        },
{
    let ghost t = name_set(taken@);
    let mut k: u32 = 0;
    loop
        invariant
            k <= MAX_SUFFIX,
            t == name_set(taken@),
            safe_name(desired@, t) == first_free_from(desired@, t, k as nat),
        decreases MAX_SUFFIX - k,
    {
        let c = match safe_name_candidate(desired, k) {
            Some(c) => c,
            None => String::new(),
        };
        match safe_name_step(k, is_taken(taken, &c)) {
            NameStep::Found => return Ok(c),
            NameStep::Next(n) => k = n,
            NameStep::Exhausted => {
                assert(first_free_from(desired@, t, (k + 1) as nat) is None);
                return Err(FileError::Exhausted);
            },
        }
    }
}

/// The `attempt`-th temporary name tried for `source` at time `millis`:
/// `~temp_{stem}_{millis}{attempt}{ext}`, for attempts below 1000.
pub fn temp_name_candidate(source: &str, millis: u128, attempt: u32) -> (r: Option<String>)
    ensures
        attempt < TEMP_ATTEMPTS ==> (r matches Some(c) && c@ == temp_candidate(
            source@,
            millis as nat,
            attempt as nat,
        )),
        attempt >= TEMP_ATTEMPTS ==> r is None,
{
    if attempt >= TEMP_ATTEMPTS {
        return None;
    }
    let (stem, ext) = name_parts(source);
    let mut c = String::from_str("~temp_");
    proof {
        reveal_strlit("~temp_");
        reveal_strlit("_");
    }
    c.append(stem.as_str());
    c.append("_");
    push_decimal(&mut c, millis);
    push_decimal(&mut c, attempt as u128);
    c.append(ext.as_str());
    assert(c@ =~= temp_candidate(source@, millis as nat, attempt as nat));
    Some(c)
}

/// The first of the temporary names for `source` at `millis` that is not
/// among `taken`; `Exhausted` when all 1000 are.
pub fn resolve_temp_name(source: &str, millis: u128, taken: &Vec<String>) -> (r: Result<
    String,
    FileError,
>)
    ensures
        match temp_name(source@, millis as nat, name_set(taken@)) {
            Some(n) => r matches Ok(s) && s@ == n,
            None => r == Err::<String, FileError>(FileError::Exhausted),
        },
{
    let ghost t = name_set(taken@);
    let mut k: u32 = 0;
    loop
        invariant
            k < TEMP_ATTEMPTS,
            t == name_set(taken@),
            temp_name(source@, millis as nat, t) == first_free_temp_from(
                source@,
                millis as nat,
                t,
                k as nat,
            ),
        decreases TEMP_ATTEMPTS - k,
    {
        let c = match temp_name_candidate(source, millis, k) {
            Some(c) => c,
            None => String::new(),
        };
        match temp_name_step(k, is_taken(taken, &c)) {
            NameStep::Found => return Ok(c),
            NameStep::Next(n) => k = n,
            NameStep::Exhausted => {
                assert(first_free_temp_from(source@, millis as nat, t, (k + 1) as nat) is None);
                return Err(FileError::Exhausted);
            },
        }
    }
}

/// The check made before a rename: it fails with `AlreadyExists` exactly when
/// the target is taken, so that a rename never replaces a file.
pub fn check_rename_target(new: &str, target_exists: bool) -> (r: Result<(), FileError>)
    ensures
        target_exists ==> (r matches Err(FileError::AlreadyExists(p)) && p@ == new@),
        !target_exists ==> r is Ok,
{
    if target_exists {
        Err(FileError::AlreadyExists(String::from_str(new)))
    } else {
        Ok(())
    }
}

proof fn lemma_first_free(desired: Seq<char>, taken: Set<Seq<char>>, k: nat)
    requires
        k <= MAX_SUFFIX + 1,
    ensures
        match first_free_from(desired, taken, k) {
            Some(n) => !taken.contains(n) && exists|j: nat|
                k <= j <= MAX_SUFFIX && n == safe_candidate(desired, j),
            None => forall|j: nat| k <= j <= MAX_SUFFIX ==> taken.contains(safe_candidate(desired, j)),
        },
    decreases MAX_SUFFIX + 1 - k,
{
    if k <= MAX_SUFFIX {
        if taken.contains(safe_candidate(desired, k)) {
            lemma_first_free(desired, taken, k + 1);
            if first_free_from(desired, taken, k + 1) is None {
                assert forall|j: nat| k <= j <= MAX_SUFFIX implies taken.contains(
                    safe_candidate(desired, j),
                ) by {
                    if j > k {
                        assert(k + 1 <= j);
                    }
                }
            }
        }
    }
}

proof fn lemma_skip_taken(desired: Seq<char>, taken: Set<Seq<char>>, a: nat, b: nat)
    requires
        a <= b <= MAX_SUFFIX + 1,
        forall|j: nat| a <= j < b ==> taken.contains(safe_candidate(desired, j)),
    ensures
        first_free_from(desired, taken, a) == first_free_from(desired, taken, b),
    decreases b - a,
{
    if a < b {
        lemma_skip_taken(desired, taken, a + 1, b);
    }
}

/// A resolved name is never taken, and it is the desired name exactly when
/// the desired name is free. Nothing is resolved only when the desired name
/// and all of its numbered forms are taken.
pub proof fn safe_name_is_free(desired: Seq<char>, taken: Set<Seq<char>>)
    ensures
        match safe_name(desired, taken) {
            Some(n) => !taken.contains(n) && (n == desired <==> !taken.contains(desired)),
            None => forall|k: nat| k <= MAX_SUFFIX ==> taken.contains(safe_candidate(desired, k)),
        },
{
    lemma_first_free(desired, taken, 0);
}

/// When a name and its forms numbered 1 to 8 are taken but the one numbered 9
/// is free, the resolved name is `stem(9)ext`.
pub proof fn ninth_number_follows_eight(desired: Seq<char>, taken: Set<Seq<char>>)
    requires
        taken.contains(desired),
        forall|k: nat| 1 <= k <= 8 ==> taken.contains(safe_candidate(desired, k)),
        !taken.contains(safe_candidate(desired, 9)),
    ensures
        safe_name(desired, taken) == Some(
            stem_of(file_name_text(desired)) + seq!['(', '9', ')'] + suffix_ext(
                file_name_text(desired),
            ),
        ),
{
    lemma_skip_taken(desired, taken, 0, 9);
    assert(decimal_text(9) == seq!['9']);
    let n = file_name_text(desired);
    assert(numbered(stem_of(n), suffix_ext(n), 9) =~= stem_of(n) + seq!['(', '9', ')']
        + suffix_ext(n));
}

proof fn lemma_first_free_temp(source: Seq<char>, millis: nat, taken: Set<Seq<char>>, k: nat)
    requires
        k <= TEMP_ATTEMPTS,
    ensures
        match first_free_temp_from(source, millis, taken, k) {
            Some(n) => !taken.contains(n) && exists|j: nat|
                k <= j < TEMP_ATTEMPTS && n == temp_candidate(source, millis, j),
            None => forall|j: nat|
                k <= j < TEMP_ATTEMPTS ==> taken.contains(temp_candidate(source, millis, j)),
        },
    decreases TEMP_ATTEMPTS - k,
{
    if k < TEMP_ATTEMPTS {
        if taken.contains(temp_candidate(source, millis, k)) {
            lemma_first_free_temp(source, millis, taken, k + 1);
            if first_free_temp_from(source, millis, taken, k + 1) is None {
                assert forall|j: nat| k <= j < TEMP_ATTEMPTS implies taken.contains(
                    temp_candidate(source, millis, j),
                ) by {
                    if j > k {
                        assert(k + 1 <= j);
                    }
                }
            }
        }
    }
}

/// A temporary name starts with `~temp_` and is never one of the taken names.
pub proof fn temp_name_is_fresh(source: Seq<char>, millis: nat, taken: Set<Seq<char>>)
    ensures
        match temp_name(source, millis, taken) {
            Some(n) => !taken.contains(n) && n.len() >= 6 && n.subrange(0, 6) == temp_prefix(),
            None => forall|k: nat|
                k < TEMP_ATTEMPTS ==> taken.contains(temp_candidate(source, millis, k)),
        },
{
    lemma_first_free_temp(source, millis, taken, 0);
    if let Some(n) = temp_name(source, millis, taken) {
        let j = choose|j: nat| j < TEMP_ATTEMPTS && n == temp_candidate(source, millis, j);
        let f = file_name_text(source);
        assert(n =~= temp_prefix() + (stem_of(f) + seq!['_'] + decimal_text(millis)
            + decimal_text(j) + suffix_ext(f)));
        assert(n.subrange(0, 6) =~= temp_prefix());
    }
}

} // verus!
