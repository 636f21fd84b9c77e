//! The shaping of catalogue search results: the limit on their number, the
//! refusal of an empty result, the records handed back and the summary.
//! The search itself is the caller's part.

use vstd::prelude::*;
use vstd::string::StrSliceExecFns;
use vstd::string::StringExecFns;
use crate::musicbrainz::{entity_of_word, extract_year, is_mbid, is_mbid_spec, EntityType};
use crate::text::{lower_of, str_equals};
use crate::text::{decimal, decimal_string};

verus! {

/// A disambiguation note, kept only when it says something.
pub open spec fn note_spec(o: Option<String>) -> Option<Seq<char>> {
    match o {
        Some(s) => if s@.len() > 0 { Some(s@) } else { None },
        None => None,
    }
}

pub open spec fn opt_seq(o: Option<String>) -> Option<Seq<char>> {
    match o {
        Some(s) => Some(s@),
        None => None,
    }
}

/// Drops an empty disambiguation note.
pub fn non_empty(o: Option<String>) -> (r: Option<String>)
    ensures
        opt_seq(r) == note_spec(o),
{
    match o {
        Some(s) => if s.as_str().unicode_len() > 0 { Some(s) } else { None },
        None => None,
    }
}

/// The first `limit` items.
pub fn take_limit<T>(items: Vec<T>, limit: usize) -> (r: Vec<T>)
    ensures
        r@ == items@.take(if limit < items@.len() { limit as int } else { items@.len() as int }),
{
    let mut items = items;
    if limit < items.len() {
        items.truncate(limit);
    }
    proof {
        assert(items@ =~= items@.take(items@.len() as int));
    }
    items
}

/// "Found N thing(s) matching 'query'".
pub open spec fn found_text(count: nat, noun: Seq<char>, query: Seq<char>) -> Seq<char> {
    "Found "@ + decimal(count) + " "@ + noun + "(s) matching '"@ + query + "'"@
}

/// "No things found for query: query".
pub open spec fn none_found_text(nouns: Seq<char>, query: Seq<char>) -> Seq<char> {
    "No "@ + nouns + " found for query: "@ + query
}

/// The summary of a search that found `count` items.
pub fn found_summary(count: usize, noun: &str, query: &str) -> (r: String)
    ensures
        r@ == found_text(count as nat, noun@, query@),
{
    let mut s = String::from_str("Found ");
    s.append(decimal_string(count as u64).as_str());
    s.append(" ");
    s.append(noun);
    s.append("(s) matching '");
    s.append(query);
    s.append("'");
    s
}

/// The refusal of a search that found nothing.
pub fn none_found(nouns: &str, query: &str) -> (r: String)
    ensures
        r@ == none_found_text(nouns@, query@),
{
    let mut s = String::from_str("No ");
    s.append(nouns);
    s.append(" found for query: ");
    s.append(query);
    s
}

/// One label found by a search.
#[derive(Debug, Clone)]
pub struct LabelInfo {
    pub name: String,
    pub mbid: String,
    pub label_type: Option<String>,
    pub country: Option<String>,
    pub disambiguation: Option<String>,
    pub label_code: Option<i32>,
}

/// The labels that a search hands back.
#[derive(Debug, Clone)]
pub struct LabelSearchResult {
    pub labels: Vec<LabelInfo>,
    pub total_count: usize,
    pub query: String,
}

/// One work found by a search.
#[derive(Debug, Clone)]
pub struct WorkInfo {
    pub title: String,
    pub mbid: String,
    pub work_type: Option<String>,
    pub disambiguation: Option<String>,
    pub language: Option<String>,
}

/// The works that a search hands back.
#[derive(Debug, Clone)]
pub struct WorkSearchResult {
    pub works: Vec<WorkInfo>,
    pub total_count: usize,
    pub query: String,
}

/// The number of items that a search keeps.
pub open spec fn kept(len: nat, limit: nat) -> nat {
    if limit < len { limit } else { len }
}

/// Shapes the labels that a search returned: at most `limit` of them, a
/// refusal when there are none, else the summary and the record.
pub fn label_search_result(query: &str, found: Vec<LabelInfo>, limit: usize) -> (r: Result<(String, LabelSearchResult), String>)
    ensures
        kept(found@.len(), limit as nat) == 0 ==> r is Err && r->Err_0@ == none_found_text("labels"@, query@),
        kept(found@.len(), limit as nat) > 0 ==> r is Ok
            && r->Ok_0.0@ == found_text(kept(found@.len(), limit as nat), "label"@, query@)
            && r->Ok_0.1.labels@ == found@.take(kept(found@.len(), limit as nat) as int)
            && r->Ok_0.1.total_count == kept(found@.len(), limit as nat)
            && r->Ok_0.1.query@ == query@,
{
    let labels = take_limit(found, limit);
    let count = labels.len();
    if count == 0 {
        return Err(none_found("labels", query));
    }
    let summary = found_summary(count, "label", query);
    Ok((summary, LabelSearchResult { labels, total_count: count, query: String::from_str(query) }))
}

/// Shapes the works that a search returned: at most `limit` of them, a
/// refusal when there are none, else the summary and the record.
pub fn work_search_result(query: &str, found: Vec<WorkInfo>, limit: usize) -> (r: Result<(String, WorkSearchResult), String>)
    ensures
        kept(found@.len(), limit as nat) == 0 ==> r is Err && r->Err_0@ == none_found_text("works"@, query@),
        kept(found@.len(), limit as nat) > 0 ==> r is Ok
            && r->Ok_0.0@ == found_text(kept(found@.len(), limit as nat), "work"@, query@)
            && r->Ok_0.1.works@ == found@.take(kept(found@.len(), limit as nat) as int)
            && r->Ok_0.1.total_count == kept(found@.len(), limit as nat)
            && r->Ok_0.1.query@ == query@,
{
    let works = take_limit(found, limit);
    let count = works.len();
    if count == 0 {
        return Err(none_found("works", query));
    }
    let summary = found_summary(count, "work", query);
    Ok((summary, WorkSearchResult { works, total_count: count, query: String::from_str(query) }))
}

/// One artist found by a search.
#[derive(Debug, Clone)]
pub struct ArtistSearchInfo {
    pub name: String,
    pub mbid: String,
    pub country: Option<String>,
    pub area: Option<String>,
    pub disambiguation: Option<String>,
}

/// The artists that a search hands back.
#[derive(Debug, Clone)]
pub struct ArtistSearchResult {
    pub artists: Vec<ArtistSearchInfo>,
    pub total_count: usize,
    pub query: String,
}

/// The record of an artist as the catalogue gives it: empty country and
/// disambiguation notes are dropped.
pub fn artist_info(name: String, mbid: String, country: Option<String>, area: Option<String>, disambiguation: String) -> (r: ArtistSearchInfo)
    ensures
        r.name == name,
        r.mbid == mbid,
        opt_seq(r.country) == note_spec(country),
        r.area == area,
        disambiguation@.len() == 0 ==> r.disambiguation is None,
        disambiguation@.len() > 0 ==> r.disambiguation == Some(disambiguation),
{
    let disambiguation = if disambiguation.as_str().unicode_len() == 0 { None } else { Some(disambiguation) };
    ArtistSearchInfo { name, mbid, country: non_empty(country), area, disambiguation }
}

/// Shapes the artists that a search returned: at most `limit` of them, a
/// refusal when there are none, else the summary and the record.
pub fn artist_search_result(query: &str, found: Vec<ArtistSearchInfo>, limit: usize) -> (r: Result<(String, ArtistSearchResult), String>)
    ensures
        kept(found@.len(), limit as nat) == 0 ==> r is Err && r->Err_0@ == none_found_text("artists"@, query@),
        kept(found@.len(), limit as nat) > 0 ==> r is Ok
            && r->Ok_0.0@ == found_text(kept(found@.len(), limit as nat), "artist"@, query@)
            && r->Ok_0.1.artists@ == found@.take(kept(found@.len(), limit as nat) as int)
            && r->Ok_0.1.total_count == kept(found@.len(), limit as nat)
            && r->Ok_0.1.query@ == query@,
{
    let artists = take_limit(found, limit);
    let count = artists.len();
    if count == 0 {
        return Err(none_found("artists", query));
    }
    let summary = found_summary(count, "artist", query);
    Ok((summary, ArtistSearchResult { artists, total_count: count, query: String::from_str(query) }))
}

/// How the releases of an artist are looked up: by the identifier the
/// query already is, or by the first artist that a name search finds.
#[derive(Debug, Clone)]
pub enum ArtistLookup {
    ById(String),
    ByName(String),
}

/// Decides how to find the artist that a query names.
pub fn artist_lookup(query: &str) -> (r: ArtistLookup)
    ensures
        is_mbid_spec(query@) ==> r is ById && r->ById_0@ == query@,
        !is_mbid_spec(query@) ==> r is ByName && r->ByName_0@ == query@,
{
    if is_mbid(query) {
        ArtistLookup::ById(String::from_str(query))
    } else {
        ArtistLookup::ByName(String::from_str(query))
    }
}

/// The refusal of a name search that found no artist.
pub fn no_artist_found(query: &str) -> (r: String)
    ensures
        r@ == "No artist found matching: "@ + query@,
{
    let mut s = String::from_str("No artist found matching: ");
    s.append(query);
    s
}

/// One release of an artist.
#[derive(Debug, Clone)]
pub struct ArtistReleaseInfo {
    pub title: String,
    pub mbid: String,
    pub year: Option<String>,
    pub country: Option<String>,
}

/// The releases of one artist.
#[derive(Debug, Clone)]
pub struct ArtistReleasesResult {
    pub artist_name: String,
    pub artist_mbid: String,
    pub releases: Vec<ArtistReleaseInfo>,
    pub total_count: usize,
}

/// The record of a release, with the year taken from its date.
pub fn artist_release_info(title: String, mbid: String, date: Option<String>, country: Option<String>) -> (r: ArtistReleaseInfo)
    ensures
        r.title == title,
        r.mbid == mbid,
        r.country == country,
        date is None ==> r.year is None,
        date is Some && date->Some_0@.len() < 4 ==> r.year is None,
        date is Some && date->Some_0@.len() >= 4 ==> r.year is Some
            && r.year->Some_0@ == date->Some_0@.subrange(0, 4),
{
    let year = match &date {
        Some(d) => extract_year(d.as_str()),
        None => None,
    };
    ArtistReleaseInfo { title, mbid, year, country }
}

/// Shapes the releases found for an artist: at most `limit` of them, a
/// refusal when there are none, else the summary and the record.
pub fn artist_releases_result(artist_name: &str, artist_mbid: String, found: Vec<ArtistReleaseInfo>, limit: usize) -> (r: Result<(String, ArtistReleasesResult), String>)
    ensures
        kept(found@.len(), limit as nat) == 0 ==> r is Err && r->Err_0@ == "No releases found for artist: "@ + artist_name@,
        kept(found@.len(), limit as nat) > 0 ==> r is Ok
            && r->Ok_0.0@ == "Found "@ + decimal(kept(found@.len(), limit as nat)) + " release(s) by '"@ + artist_name@ + "'"@
            && r->Ok_0.1.releases@ == found@.take(kept(found@.len(), limit as nat) as int)
            && r->Ok_0.1.total_count == kept(found@.len(), limit as nat)
            && r->Ok_0.1.artist_name@ == artist_name@
            && r->Ok_0.1.artist_mbid == artist_mbid,
{
    let releases = take_limit(found, limit);
    let count = releases.len();
    if count == 0 {
        let mut m = String::from_str("No releases found for artist: ");
        m.append(artist_name);
        return Err(m);
    }
    let mut summary = String::from_str("Found ");
    summary.append(decimal_string(count as u64).as_str());
    summary.append(" release(s) by '");
    summary.append(artist_name);
    summary.append("'");
    Ok((summary, ArtistReleasesResult {
        artist_name: String::from_str(artist_name),
        artist_mbid,
        releases,
        total_count: count,
    }))
}

/// The entity that an advanced search names, or the refusal of an unknown
/// one.
pub fn advanced_entity(entity: &str) -> (r: Result<EntityType, String>)
    ensures
        entity_of_word(lower_of(entity@)) is Some ==> r == Ok::<EntityType, String>(entity_of_word(lower_of(entity@))->Some_0),
        entity_of_word(lower_of(entity@)) is None ==> r is Err && r->Err_0@ == "Invalid entity type: '"@
            + entity@ + "'. Supported: artist, release, release_group, recording, work, label"@,
{
    match EntityType::from_str(entity) {
        Some(e) => Ok(e),
        None => {
            let mut m = String::from_str("Invalid entity type: '");
            m.append(entity);
            m.append("'. Supported: artist, release, release_group, recording, work, label");
            Err(m)
        },
    }
}

/// The searches of the artist tool.
#[derive(Debug, Clone, Copy, PartialEq, Eq, Structural)]
pub enum ArtistSearch {
    Artists,
    ArtistReleases,
}

/// The search that the artist tool's `search_type` names.
pub fn artist_search_kind(search_type: &str) -> (r: Result<ArtistSearch, String>)
    ensures
        search_type@ == "artist"@ ==> r == Ok::<ArtistSearch, String>(ArtistSearch::Artists),
        search_type@ == "artist_releases"@ ==> r == Ok::<ArtistSearch, String>(ArtistSearch::ArtistReleases),
        search_type@ != "artist"@ && search_type@ != "artist_releases"@ ==> r is Err
            && r->Err_0@ == "Unknown search type: "@ + search_type@ + ". Use 'artist' or 'artist_releases'"@,
{
    proof {
        reveal_strlit("artist");
        reveal_strlit("artist_releases");
        assert("artist"@.len() != "artist_releases"@.len());
    }
    if str_equals(search_type, "artist") {
        Ok(ArtistSearch::Artists)
    } else if str_equals(search_type, "artist_releases") {
        Ok(ArtistSearch::ArtistReleases)
    } else {
        let mut m = String::from_str("Unknown search type: ");
        m.append(search_type);
        m.append(". Use 'artist' or 'artist_releases'");
        Err(m)
    }
}

/// The searches of the recording tool.
#[derive(Debug, Clone, Copy, PartialEq, Eq, Structural)]
pub enum RecordingSearch {
    Recordings,
    RecordingReleases,
}

/// The search that the recording tool's `search_type` names.
pub fn recording_search_kind(search_type: &str) -> (r: Result<RecordingSearch, String>)
    ensures
        search_type@ == "recording"@ ==> r == Ok::<RecordingSearch, String>(RecordingSearch::Recordings),
        search_type@ == "recording_releases"@ ==> r == Ok::<RecordingSearch, String>(RecordingSearch::RecordingReleases),
        search_type@ != "recording"@ && search_type@ != "recording_releases"@ ==> r is Err
            && r->Err_0@ == "Unknown search type: "@ + search_type@ + ". Use 'recording' or 'recording_releases'"@,
{
    proof {
        reveal_strlit("recording");
        reveal_strlit("recording_releases");
        assert("recording"@.len() != "recording_releases"@.len());
    }
    if str_equals(search_type, "recording") {
        Ok(RecordingSearch::Recordings)
    } else if str_equals(search_type, "recording_releases") {
        Ok(RecordingSearch::RecordingReleases)
    } else {
        let mut m = String::from_str("Unknown search type: ");
        m.append(search_type);
        m.append(". Use 'recording' or 'recording_releases'");
        Err(m)
    }
}

/// The searches of the release tool.
#[derive(Debug, Clone, Copy, PartialEq, Eq, Structural)]
pub enum ReleaseSearch {
    Releases,
    ReleaseGroups,
    ReleaseRecordings,
    ReleaseGroupReleases,
}

/// The search that the release tool's `search_type` names.
pub fn release_search_kind(search_type: &str) -> (r: Result<ReleaseSearch, String>)
    ensures
        search_type@ == "release"@ ==> r == Ok::<ReleaseSearch, String>(ReleaseSearch::Releases),
        search_type@ == "release_group"@ ==> r == Ok::<ReleaseSearch, String>(ReleaseSearch::ReleaseGroups),
        search_type@ == "release_recordings"@ ==> r == Ok::<ReleaseSearch, String>(ReleaseSearch::ReleaseRecordings),
        search_type@ == "release_group_releases"@ ==> r == Ok::<ReleaseSearch, String>(ReleaseSearch::ReleaseGroupReleases),
        search_type@ != "release"@ && search_type@ != "release_group"@ && search_type@ != "release_recordings"@
            && search_type@ != "release_group_releases"@ ==> r is Err
            && r->Err_0@ == "Unknown search type: "@ + search_type@
                + ". Use 'release', 'release_group', 'release_recordings', or 'release_group_releases'"@,
{
    proof {
        reveal_strlit("release");
        reveal_strlit("release_group");
        reveal_strlit("release_recordings");
        reveal_strlit("release_group_releases");
        assert("release"@.len() != "release_group"@.len());
        assert("release"@.len() != "release_recordings"@.len());
        assert("release"@.len() != "release_group_releases"@.len());
        assert("release_group"@.len() != "release_recordings"@.len());
        assert("release_group"@.len() != "release_group_releases"@.len());
        assert("release_recordings"@.len() != "release_group_releases"@.len());
    }
    if str_equals(search_type, "release") {
        Ok(ReleaseSearch::Releases)
    } else if str_equals(search_type, "release_group") {
        Ok(ReleaseSearch::ReleaseGroups)
    } else if str_equals(search_type, "release_recordings") {
        Ok(ReleaseSearch::ReleaseRecordings)
    } else if str_equals(search_type, "release_group_releases") {
        Ok(ReleaseSearch::ReleaseGroupReleases)
    } else {
        let mut m = String::from_str("Unknown search type: ");
        m.append(search_type);
        m.append(". Use 'release', 'release_group', 'release_recordings', or 'release_group_releases'");
        Err(m)
    }
}

} // verus!
