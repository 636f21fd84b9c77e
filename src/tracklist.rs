//! The track listing of a release: its media, each with its tracks
//! numbered across the whole release, and the summary.

use vstd::prelude::*;
use vstd::string::StringExecFns;
use crate::musicbrainz::{duration_text, format_duration};
use crate::text::{decimal, decimal_string, str_equals};

verus! {

/// What the catalogue says of a track's recording. `artist` is the name
/// of its first credited artist, if any.
#[derive(Debug, Clone)]
pub struct RecordingRef {
    pub title: String,
    pub length_ms: Option<u32>,
    pub mbid: String,
    pub artist: Option<String>,
}

/// A medium (a disc) as the catalogue gives it.
#[derive(Debug, Clone)]
pub struct MediumInput {
    pub title: Option<String>,
    /// The tracks; a track without a recording is `None`.
    pub tracks: Option<Vec<Option<RecordingRef>>>,
}

/// One listed track.
#[derive(Debug, Clone)]
pub struct TrackInfo {
    /// Number across the whole release, from one.
    pub position: usize,
    pub title: String,
    pub duration: Option<String>,
    pub recording_mbid: String,
    /// The track's artist, when it differs from the release's.
    pub artist: Option<String>,
}

/// One listed medium.
#[derive(Debug, Clone)]
pub struct Medium {
    pub disc_number: usize,
    pub disc_title: Option<String>,
    pub tracks: Vec<TrackInfo>,
}

/// The track listing of a release.
#[derive(Debug, Clone)]
pub struct ReleaseRecordingsResult {
    pub release_title: String,
    pub release_mbid: String,
    pub artist: String,
    pub media: Vec<Medium>,
    pub total_tracks: usize,
}

/// The name of a credit's first artist, or "Unknown Artist".
pub open spec fn credit_name(first: Option<String>) -> Seq<char> {
    match first {
        Some(n) => n@,
        None => "Unknown Artist"@,
    }
}

/// The name shown for a credit.
pub fn artist_name(first: &Option<String>) -> (r: String)
    ensures
        r@ == credit_name(*first),
{
    match first {
        Some(n) => n.clone(),
        None => String::from_str("Unknown Artist"),
    }
}

/// The recordings listed for a medium: those of its first `limit` tracks
/// that have one.
pub open spec fn listed(tracks: Seq<Option<RecordingRef>>) -> Seq<RecordingRef>
    decreases tracks.len(),
{
    if tracks.len() == 0 {
        Seq::empty()
    } else {
        let rest = listed(tracks.drop_last());
        match tracks.last() {
            Some(r) => rest.push(r),
            None => rest,
        }
    }
}

pub open spec fn medium_recordings(m: MediumInput, limit: nat) -> Seq<RecordingRef> {
    match m.tracks {
        Some(ts) => listed(ts@.take(if limit < ts@.len() { limit as int } else { ts@.len() as int })),
        None => Seq::empty(),
    }
}

/// Number of tracks listed on the media before index `k`.
pub open spec fn listed_before(media: Seq<MediumInput>, limit: nat, k: int) -> nat
    decreases k,
{
    if k <= 0 {
        0
    } else {
        listed_before(media, limit, k - 1) + medium_recordings(media[k - 1], limit).len()
    }
}

/// A listed track shows the recording at its place in the release.
pub open spec fn shows(t: TrackInfo, r: RecordingRef, position: nat, release_artist: Seq<char>) -> bool {
    &&& t.position == position
    &&& t.title == r.title
    &&& t.recording_mbid == r.mbid
    &&& match r.length_ms {
        Some(l) => t.duration is Some && t.duration->Some_0@ == duration_text(l as nat),
        None => t.duration is None,
    }
    &&& if credit_name(r.artist) != release_artist && credit_name(r.artist) != "Unknown Artist"@ {
        t.artist is Some && t.artist->Some_0@ == credit_name(r.artist)
    } else {
        t.artist is None
    }
}

/// A listed medium shows a catalogue medium, its tracks numbered on from
/// `before`.
pub open spec fn medium_shows(out: Medium, m: MediumInput, disc: nat, before: nat, limit: nat, release_artist: Seq<char>) -> bool {
    &&& out.disc_number == disc
    &&& out.disc_title == m.title
    &&& out.tracks@.len() == medium_recordings(m, limit).len()
    &&& forall|i: int| 0 <= i < out.tracks@.len() ==> shows(#[trigger] out.tracks@[i],
            medium_recordings(m, limit)[i], (before + i + 1) as nat, release_artist)
}

fn track_info(r: &RecordingRef, position: usize, release_artist: &String) -> (t: TrackInfo)
    ensures
        shows(t, *r, position as nat, release_artist@),
{
    proof {
        reveal_strlit("Unknown Artist");
    }
    let name = artist_name(&r.artist);
    let artist = if !str_equals(name.as_str(), release_artist.as_str()) && !str_equals(name.as_str(), "Unknown Artist") {
        Some(name)
    } else {
        None
    };
    let duration = match r.length_ms {
        Some(l) => Some(format_duration(l as u64)),
        None => None,
    };
    TrackInfo { position, title: r.title.clone(), duration, recording_mbid: r.mbid.clone(), artist }
}

proof fn lemma_listed_prefix(ts: Seq<Option<RecordingRef>>, j: int)
    requires
        0 <= j < ts.len(),
    ensures
        listed(ts.take(j + 1)) == match ts[j] {
            Some(r) => listed(ts.take(j)).push(r),
            None => listed(ts.take(j)),
        },
{
    assert(ts.take(j + 1).drop_last() =~= ts.take(j));
}

/// Lists the media of a release: each medium keeps the recordings of its
/// first `limit` tracks, numbered across the whole release. Returns the
/// media and the number of tracks listed.
pub fn list_media(media: &Vec<MediumInput>, limit: usize, release_artist: &String) -> (r: (Vec<Medium>, usize))
    requires
        listed_before(media@, limit as nat, media@.len() as int) <= usize::MAX,
    ensures
        r.0@.len() == media@.len(),
        r.1 == listed_before(media@, limit as nat, media@.len() as int),
        forall|k: int| 0 <= k < media@.len() ==> medium_shows(#[trigger] r.0@[k], media@[k], (k + 1) as nat,
            listed_before(media@, limit as nat, k), limit as nat, release_artist@),
{
    let mut out: Vec<Medium> = Vec::new();
    let mut total: usize = 0;
    let mut k: usize = 0;
    while k < media.len()
        invariant
            k <= media@.len(),
            out@.len() == k,
            total == listed_before(media@, limit as nat, k as int),
            listed_before(media@, limit as nat, media@.len() as int) <= usize::MAX,
            forall|q: int| 0 <= q < k ==> medium_shows(#[trigger] out@[q], media@[q], (q + 1) as nat,
                listed_before(media@, limit as nat, q), limit as nat, release_artist@),
        decreases media@.len() - k,
    {
        proof { lemma_listed_before_grows(media@, limit as nat, k as int + 1, media@.len() as int); }
        let m = &media[k];
        let before = total;
        let mut tracks: Vec<TrackInfo> = Vec::new();
        match &m.tracks {
            Some(ts) => {
                let n = if limit < ts.len() { limit } else { ts.len() };
                let mut j: usize = 0;
                while j < n
                    invariant
                        n <= ts@.len(),
                        n == (if limit < ts@.len() { limit as int } else { ts@.len() as int }),
                        j <= n,
                        tracks@.len() == listed(ts@.take(j as int)).len(),
                        total == before + tracks@.len(),
                        before + listed(ts@.take(n as int)).len() <= usize::MAX,
                        forall|i: int| 0 <= i < tracks@.len() ==> shows(#[trigger] tracks@[i],
                            listed(ts@.take(j as int))[i], (before + i + 1) as nat, release_artist@),
                    decreases n - j,
                {
                    proof {
                        lemma_listed_prefix(ts@, j as int);
                        lemma_listed_grows(ts@, j as int + 1, n as int);
                    }
                    match &ts[j] {
                        Some(r) => {
                            total = total + 1;
                            let t = track_info(r, total, release_artist);
                            tracks.push(t);
                        },
                        None => {},
                    }
                    j = j + 1;
                }
                assert(listed(ts@.take(n as int)) == medium_recordings(*m, limit as nat));
            },
            None => {},
        }
        let ghost recs = medium_recordings(*m, limit as nat);
        out.push(Medium { disc_number: k + 1, disc_title: m.title.clone(), tracks });
        proof {
            assert(listed_before(media@, limit as nat, k as int + 1)
                == listed_before(media@, limit as nat, k as int) + recs.len());
        }
        k = k + 1;
    }
    (out, total)
}

proof fn lemma_listed_grows(ts: Seq<Option<RecordingRef>>, a: int, b: int)
    requires
        0 <= a <= b <= ts.len(),
    ensures
        listed(ts.take(a)).len() <= listed(ts.take(b)).len(),
    decreases b - a,
{
    if a < b {
        lemma_listed_grows(ts, a, b - 1);
        lemma_listed_prefix(ts, b - 1);
    }
}

proof fn lemma_listed_before_grows(media: Seq<MediumInput>, limit: nat, a: int, b: int)
    requires
        0 <= a <= b,
    ensures
        listed_before(media, limit, a) <= listed_before(media, limit, b),
    decreases b - a,
{
    if a < b {
        lemma_listed_before_grows(media, limit, a, b - 1);
    }
}

/// The summary of a track listing.
pub fn tracklist_summary(title: &str, artist: &str, total_tracks: usize) -> (r: String)
    ensures
        total_tracks > 0 ==> r@ == "Track listing for '"@ + title@ + "' by "@ + artist@ + " ("@
            + decimal(total_tracks as nat) + " track(s))"@,
        total_tracks == 0 ==> r@ == "No tracks available for '"@ + title@ + "'"@,
{
    if total_tracks > 0 {
        let mut s = String::from_str("Track listing for '");
        s.append(title);
        s.append("' by ");
        s.append(artist);
        s.append(" (");
        s.append(decimal_string(total_tracks as u64).as_str());
        s.append(" track(s))");
        s
    } else {
        let mut s = String::from_str("No tracks available for '");
        s.append(title);
        s.append("'");
        s
    }
}

} // verus!
