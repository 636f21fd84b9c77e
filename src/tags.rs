//! The decisions of the tag tools: which fields a write sets, in which
//! order, how audio properties are described, and how results are
//! summarised. Reading and saving the audio file is the caller's part.

use vstd::prelude::*;
use vstd::string::StringExecFns;
use crate::musicbrainz::two_digits;
use crate::text::{decimal, decimal_string, digit_str};

verus! {

/// The tag fields that one write may set; `None` leaves a field alone.
#[derive(Debug, Clone)]
pub struct TagUpdate {
    pub title: Option<String>,
    pub artist: Option<String>,
    pub album: Option<String>,
    pub album_artist: Option<String>,
    pub year: Option<u32>,
    pub track: Option<u32>,
    pub track_total: Option<u32>,
    pub genre: Option<String>,
    pub comment: Option<String>,
    /// Remove every existing tag before writing.
    pub clear_existing: bool,
}

/// `(name, value)` when a text field is given, else nothing.
pub open spec fn text_field(name: Seq<char>, v: Option<String>) -> Seq<(Seq<char>, Seq<char>)> {
    match v {
        Some(s) => seq![(name, s@)],
        None => seq![],
    }
}

/// `(name, decimal value)` when a number field is given, else nothing.
pub open spec fn number_field(name: Seq<char>, v: Option<u32>) -> Seq<(Seq<char>, Seq<char>)> {
    match v {
        Some(n) => seq![(name, decimal(n as nat))],
        None => seq![],
    }
}

/// The fields that an update sets, each with its value as text, in the
/// order title, artist, album, album artist, year, track, track total,
/// genre, comment.
pub open spec fn update_fields(u: TagUpdate) -> Seq<(Seq<char>, Seq<char>)> {
    text_field("title"@, u.title) + text_field("artist"@, u.artist) + text_field("album"@, u.album)
        + text_field("album_artist"@, u.album_artist) + number_field("year"@, u.year)
        + number_field("track"@, u.track) + number_field("track_total"@, u.track_total)
        + text_field("genre"@, u.genre) + text_field("comment"@, u.comment)
}

pub open spec fn pair_view(v: Seq<(String, String)>) -> Seq<(Seq<char>, Seq<char>)> {
    v.map_values(|p: (String, String)| (p.0@, p.1@))
}

fn push_text(v: &mut Vec<(String, String)>, name: &str, value: &Option<String>)
    ensures
        pair_view(final(v)@) == pair_view(old(v)@) + text_field(name@, *value),
{
    if let Some(s) = value {
        v.push((String::from_str(name), s.clone()));
    }
    assert(pair_view(final(v)@) =~= pair_view(old(v)@) + text_field(name@, *value));
}

fn push_number(v: &mut Vec<(String, String)>, name: &str, value: Option<u32>)
    ensures
        pair_view(final(v)@) == pair_view(old(v)@) + number_field(name@, value),
{
    if let Some(n) = value {
        v.push((String::from_str(name), decimal_string(n as u64)));
    }
    assert(pair_view(final(v)@) =~= pair_view(old(v)@) + number_field(name@, value));
}

/// The fields that an update sets, with their values as text.
pub fn updated_fields(u: &TagUpdate) -> (r: Vec<(String, String)>)
    ensures
        pair_view(r@) == update_fields(*u),
{
    let mut v: Vec<(String, String)> = Vec::new();
    assert(pair_view(v@) =~= Seq::<(Seq<char>, Seq<char>)>::empty());
    push_text(&mut v, "title", &u.title);
    push_text(&mut v, "artist", &u.artist);
    push_text(&mut v, "album", &u.album);
    push_text(&mut v, "album_artist", &u.album_artist);
    push_number(&mut v, "year", u.year);
    push_number(&mut v, "track", u.track);
    push_number(&mut v, "track_total", u.track_total);
    push_text(&mut v, "genre", &u.genre);
    push_text(&mut v, "comment", &u.comment);
    assert(pair_view(v@) =~= update_fields(*u));
    v
}

/// The field names, separated by a comma and a space.
pub open spec fn joined_names(fields: Seq<(Seq<char>, Seq<char>)>) -> Seq<char>
    decreases fields.len(),
{
    if fields.len() == 0 {
        Seq::empty()
    } else if fields.len() == 1 {
        fields[0].0
    } else {
        joined_names(fields.drop_last()) + ", "@ + fields.last().0
    }
}

/// The summary of a tag write.
pub open spec fn write_summary_spec(path: Seq<char>, fields: Seq<(Seq<char>, Seq<char>)>, clear_existing: bool) -> Seq<char> {
    if fields.len() == 0 {
        "No fields updated for '"@ + path + "'"@
    } else if clear_existing {
        "Cleared and updated "@ + decimal(fields.len()) + " field(s) in '"@ + path + "': "@ + joined_names(fields)
    } else {
        "Updated "@ + decimal(fields.len()) + " field(s) in '"@ + path + "': "@ + joined_names(fields)
    }
}

/// Summarises a tag write that set `fields`.
pub fn write_summary(path: &str, fields: &Vec<(String, String)>, clear_existing: bool) -> (r: String)
    ensures
        r@ == write_summary_spec(path@, pair_view(fields@), clear_existing),
{
    let n = fields.len();
    if n == 0 {
        let mut s = String::from_str("No fields updated for '");
        s.append(path);
        s.append("'");
        return s;
    }
    let mut s = if clear_existing {
        String::from_str("Cleared and updated ")
    } else {
        String::from_str("Updated ")
    };
    s.append(decimal_string(n as u64).as_str());
    s.append(" field(s) in '");
    s.append(path);
    s.append("': ");
    let ghost head = s@;
    let mut i: usize = 0;
    while i < n
        invariant
            n == fields@.len(),
            n > 0,
            i <= n,
            s@ == head + joined_names(pair_view(fields@).subrange(0, i as int)),
        decreases n - i,
    {
        proof {
            let pv = pair_view(fields@);
            assert(pv.subrange(0, i as int + 1).drop_last() =~= pv.subrange(0, i as int));
        }
        if i > 0 {
            s.append(", ");
        }
        s.append(fields[i].0.as_str());
        proof {
            let pv = pair_view(fields@);
            if i == 0 {
                assert(pv.subrange(0, 0) =~= Seq::<(Seq<char>, Seq<char>)>::empty());
            }
        }
        i = i + 1;
        proof {
            let pv = pair_view(fields@);
            assert(s@ =~= head + joined_names(pv.subrange(0, i as int)));
        }
    }
    assert(pair_view(fields@).subrange(0, n as int) =~= pair_view(fields@));
    s
}

/// The tags found in a file.
#[derive(Debug, Clone)]
pub struct AudioMetadata {
    pub title: Option<String>,
    pub artist: Option<String>,
    pub album: Option<String>,
    pub album_artist: Option<String>,
    pub year: Option<u32>,
    pub track: Option<u32>,
    pub genre: Option<String>,
    pub comment: Option<String>,
    pub total_tags: u32,
}

/// The technical properties of a file.
#[derive(Debug, Clone)]
pub struct AudioProperties {
    pub duration_seconds: Option<u64>,
    pub duration_formatted: Option<String>,
    pub bitrate_kbps: Option<u32>,
    pub sample_rate_hz: Option<u32>,
    pub channels: Option<u8>,
    pub channel_description: Option<String>,
    pub bit_depth: Option<u8>,
}

/// `M:SS` for a positive duration in seconds.
pub open spec fn duration_spec(secs: nat) -> Option<Seq<char>> {
    if secs > 0 { Some(decimal(secs / 60) + ":"@ + two_digits(secs % 60)) } else { None }
}

/// Formats a duration in seconds; none for a zero duration.
pub fn duration_text(secs: u64) -> (r: Option<String>)
    ensures
        match r {
            Some(t) => duration_spec(secs as nat) == Some(t@),
            None => duration_spec(secs as nat) is None,
        },
{
    if secs == 0 {
        return None;
    }
    let mut t = decimal_string(secs / 60);
    t.append(":");
    t.append(digit_str((secs % 60) / 10));
    t.append(digit_str((secs % 60) % 10));
    proof {
        assert(t@ =~= decimal(secs as nat / 60) + ":"@ + two_digits(secs as nat % 60));
    }
    Some(t)
}

/// The word for a channel count.
pub open spec fn channel_word(ch: u8) -> Seq<char> {
    if ch == 1 { "Mono"@ } else if ch == 2 { "Stereo"@ } else { "Multi-channel"@ }
}

/// Describes a channel count.
pub fn channel_description(channels: Option<u8>) -> (r: Option<String>)
    ensures
        channels is None ==> r is None,
        channels is Some ==> r is Some && r->Some_0@ == channel_word(channels->Some_0),
{
    match channels {
        None => None,
        Some(1) => Some(String::from_str("Mono")),
        Some(2) => Some(String::from_str("Stereo")),
        Some(_) => Some(String::from_str("Multi-channel")),
    }
}

/// The properties record of a file.
pub fn audio_properties(duration_secs: u64, bitrate_kbps: Option<u32>, sample_rate_hz: Option<u32>, channels: Option<u8>, bit_depth: Option<u8>) -> (r: AudioProperties)
    ensures
        r.duration_seconds == Some(duration_secs),
        duration_secs > 0 ==> r.duration_formatted is Some
            && duration_spec(duration_secs as nat) == Some(r.duration_formatted->Some_0@),
        duration_secs == 0 ==> r.duration_formatted is None,
        r.bitrate_kbps == bitrate_kbps,
        r.sample_rate_hz == sample_rate_hz,
        r.channels == channels,
        channels is None ==> r.channel_description is None,
        channels is Some ==> r.channel_description is Some
            && r.channel_description->Some_0@ == channel_word(channels->Some_0),
        r.bit_depth == bit_depth,
{
    AudioProperties {
        duration_seconds: Some(duration_secs),
        duration_formatted: duration_text(duration_secs),
        bitrate_kbps,
        sample_rate_hz,
        channels,
        channel_description: channel_description(channels),
        bit_depth,
    }
}

pub open spec fn or_default(v: Option<String>, d: Seq<char>) -> Seq<char> {
    match v {
        Some(s) => s@,
        None => d,
    }
}

/// The summary of a tag read.
pub open spec fn read_summary_spec(path: Seq<char>, meta: Option<AudioMetadata>, props: Option<AudioProperties>) -> Seq<char> {
    match meta {
        None => "No metadata found in '"@ + path + "'"@,
        Some(m) => {
            let head = "'"@ + or_default(m.title, "Unknown"@) + "' by "@ + or_default(m.artist, "Unknown Artist"@);
            match props {
                Some(p) => match p.duration_formatted {
                    Some(d) => head + " ("@ + d@ + ", "@ + decimal(m.total_tags as nat) + " tags)"@,
                    None => head + " ("@ + decimal(m.total_tags as nat) + " tags)"@,
                },
                None => head + " ("@ + decimal(m.total_tags as nat) + " tags)"@,
            }
        },
    }
}

/// Summarises a tag read.
pub fn read_summary(path: &str, metadata: &Option<AudioMetadata>, properties: &Option<AudioProperties>) -> (r: String)
    ensures
        r@ == read_summary_spec(path@, *metadata, *properties),
{
    match metadata {
        None => {
            let mut s = String::from_str("No metadata found in '");
            s.append(path);
            s.append("'");
            s
        },
        Some(m) => {
            let mut s = String::from_str("'");
            match &m.title {
                Some(t) => s.append(t.as_str()),
                None => s.append("Unknown"),
            }
            s.append("' by ");
            match &m.artist {
                Some(a) => s.append(a.as_str()),
                None => s.append("Unknown Artist"),
            }
            s.append(" (");
            match properties {
                Some(p) => match &p.duration_formatted {
                    Some(d) => {
                        s.append(d.as_str());
                        s.append(", ");
                    },
                    None => {},
                },
                None => {},
            }
            s.append(decimal_string(m.total_tags as u64).as_str());
            s.append(" tags)");
            s
        },
    }
}

} // verus!
