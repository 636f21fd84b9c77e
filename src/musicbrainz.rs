//! Helpers shared by the catalogue tools: identifier checks, limits and
//! display formatting.

use vstd::prelude::*;
use vstd::string::StrSliceExecFns;
use vstd::string::StringExecFns;
use crate::text::{decimal, decimal_string, digit_char, digit_str, lower_of, lowercase, str_equals};

verus! {

/// Length of a catalogue identifier in the 8-4-4-4-12 layout.
pub const MBID_LENGTH: usize = 36;

/// Number of dashes in a catalogue identifier.
pub const MBID_DASH_COUNT: usize = 4;

/// Largest result count that a search may ask for.
pub const MAX_LIMIT: usize = 100;

pub open spec fn is_hex_digit(c: char) -> bool {
    ('0' <= c && c <= '9') || ('a' <= c && c <= 'f') || ('A' <= c && c <= 'F')
}

/// Number of occurrences of `c` in `s`.
pub open spec fn count_char(s: Seq<char>, c: char) -> nat
    decreases s.len(),
{
    if s.len() == 0 {
        0
    } else {
        count_char(s.drop_last(), c) + if s.last() == c { 1nat } else { 0nat }
    }
}

/// A string shaped like a catalogue identifier: 36 characters, each a hex
/// digit or a dash, with exactly four dashes.
pub open spec fn is_mbid_spec(s: Seq<char>) -> bool {
    &&& s.len() == MBID_LENGTH
    &&& count_char(s, '-') == MBID_DASH_COUNT
    &&& forall|i: int| 0 <= i < s.len() ==> (is_hex_digit(#[trigger] s[i]) || s[i] == '-')
}

/// Whether `query` looks like a catalogue identifier (a UUID).
pub fn is_mbid(query: &str) -> (r: bool)
    ensures
        r == is_mbid_spec(query@),
{
    let n = query.unicode_len();
    if n != MBID_LENGTH {
        return false;
    }
    let mut dashes: usize = 0;
    let mut i: usize = 0;
    while i < n
        invariant
            n == query@.len(),
            n == MBID_LENGTH,
            i <= n,
            dashes == count_char(query@.subrange(0, i as int), '-'),
            dashes <= i,
            forall|j: int| 0 <= j < i ==> (is_hex_digit(#[trigger] query@[j]) || query@[j] == '-'),
        decreases n - i,
    {
        let c = query.get_char(i);
        proof {
            let pre = query@.subrange(0, i as int + 1);
            assert(pre.drop_last() =~= query@.subrange(0, i as int));
        }
        if c == '-' {
            dashes = dashes + 1;
        } else if !(('0' <= c && c <= '9') || ('a' <= c && c <= 'f') || ('A' <= c && c <= 'F')) {
            return false;
        }
        i = i + 1;
    }
    assert(query@.subrange(0, n as int) =~= query@);
    dashes == MBID_DASH_COUNT
}

/// Two-digit rendering of a number below one hundred.
pub open spec fn two_digits(n: nat) -> Seq<char> {
    seq![digit_char(n / 10), digit_char(n % 10)]
}

/// `M:SS` rendering of a duration given in milliseconds.
pub open spec fn duration_text(length_ms: nat) -> Seq<char> {
    decimal(length_ms / 1000 / 60) + seq![':'] + two_digits((length_ms / 1000) % 60)
}

/// Formats a duration in milliseconds as minutes and zero-padded seconds.
pub fn format_duration(length_ms: u64) -> (r: String)
    ensures
        r@ == duration_text(length_ms as nat),
{
    let secs = length_ms / 1000;
    let minutes = secs / 60;
    let seconds = secs % 60;
    let mut s = decimal_string(minutes);
    s.append(":");
    s.append(digit_str(seconds / 10));
    s.append(digit_str(seconds % 10));
    proof {
        reveal_strlit(":");
        assert(s@ =~= duration_text(length_ms as nat));
    }
    s
}

/// The year part of a date written `YYYY`, `YYYY-MM` or `YYYY-MM-DD`: its
/// first four characters, if it has that many.
pub fn extract_year(date_str: &str) -> (r: Option<String>)
    ensures
        date_str@.len() >= 4 ==> r is Some && r->Some_0@ == date_str@.subrange(0, 4),
        date_str@.len() < 4 ==> r is None,
{
    if date_str.unicode_len() >= 4 {
        Some(String::from_str(date_str.substring_char(0, 4)))
    } else {
        None
    }
}

/// A date for display: shown as it was given.
pub fn format_date(date_str: &str) -> (r: String)
    ensures
        r@ == date_str@,
{
    String::from_str(date_str)
}

/// Result count used when a search names none.
pub fn default_limit() -> (r: usize)
    ensures
        r == 10,
{
    10
}

/// `limit` clamped to the range one to one hundred.
pub open spec fn clamp_limit(limit: nat) -> nat {
    if limit < 1 { 1 } else if limit > MAX_LIMIT { MAX_LIMIT as nat } else { limit }
}

/// Clamps a requested result count to the allowed range.
pub fn validate_limit(limit: usize) -> (r: usize)
    ensures
        r == clamp_limit(limit as nat),
        1 <= r <= MAX_LIMIT,
{
    if limit < 1 {
        1
    } else if limit > MAX_LIMIT {
        MAX_LIMIT
    } else {
        limit
    }
}

/// Kinds of catalogue entity that the advanced search covers.
#[derive(Debug, Clone, Copy, PartialEq, Eq, Structural)]
pub enum EntityType {
    Artist,
    Release,
    ReleaseGroup,
    Recording,
    Work,
    Label,
}

/// The entity named by an already lower-cased word.
pub open spec fn entity_of_word(w: Seq<char>) -> Option<EntityType> {
    if w == "artist"@ {
        Some(EntityType::Artist)
    } else if w == "release"@ {
        Some(EntityType::Release)
    } else if w == "release_group"@ || w == "release-group"@ || w == "releasegroup"@ {
        Some(EntityType::ReleaseGroup)
    } else if w == "recording"@ {
        Some(EntityType::Recording)
    } else if w == "work"@ {
        Some(EntityType::Work)
    } else if w == "label"@ {
        Some(EntityType::Label)
    } else {
        None
    }
}

impl EntityType {
    /// The entity named by a word that is already lower case.
    pub fn from_lowercase(w: &str) -> (r: Option<EntityType>)
        ensures
            r == entity_of_word(w@),
    {
        proof {
            reveal_strlit("artist");
            reveal_strlit("release");
            reveal_strlit("release_group");
            reveal_strlit("release-group");
            reveal_strlit("releasegroup");
            reveal_strlit("recording");
            reveal_strlit("work");
            reveal_strlit("label");
        }
        if str_equals(w, "artist") {
            Some(EntityType::Artist)
        } else if str_equals(w, "release") {
            Some(EntityType::Release)
        } else if str_equals(w, "release_group") || str_equals(w, "release-group")
            || str_equals(w, "releasegroup") {
            Some(EntityType::ReleaseGroup)
        } else if str_equals(w, "recording") {
            Some(EntityType::Recording)
        } else if str_equals(w, "work") {
            Some(EntityType::Work)
        } else if str_equals(w, "label") {
            Some(EntityType::Label)
        } else {
            None
        }
    }

    /// The entity named by `s`, in any letter case.
    pub fn from_str(s: &str) -> (r: Option<EntityType>)
        ensures
            r == entity_of_word(lower_of(s@)),
    {
        let w = lowercase(s);
        EntityType::from_lowercase(w.as_str())
    }
}

/// How much detail an audio identification asks the fingerprint service for.
#[derive(Debug, Clone, Copy, PartialEq, Eq, Structural)]
pub enum MetadataLevel {
    /// Recording identifiers only.
    Minimal,
    /// Identifiers with title, artists and duration.
    Basic,
    /// Everything, release groups included.
    Full,
}

impl MetadataLevel {
    /// The value of the service's `meta` parameter for this level.
    pub fn as_api_param(self) -> (r: &'static str)
        ensures
            self == MetadataLevel::Minimal ==> r@ == "recordingids"@,
            self == MetadataLevel::Basic ==> r@ == "recordings"@,
            self == MetadataLevel::Full ==> r@ == "recordings releasegroups compress"@,
    {
        match self {
            MetadataLevel::Minimal => "recordingids",
            MetadataLevel::Basic => "recordings",
            MetadataLevel::Full => "recordings releasegroups compress",
        }
    }
}

impl Default for MetadataLevel {
    fn default() -> (r: MetadataLevel)
        ensures
            r == MetadataLevel::Basic,
    {
        MetadataLevel::Basic
    }
}

/// Result count used when an identification names none.
pub fn default_result_limit() -> (r: usize)
    ensures
        r == 3,
{
    3
}

} // verus!
