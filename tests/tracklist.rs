use music_mcp_server::search::{
    artist_info, artist_lookup, artist_release_info, artist_releases_result, artist_search_result,
    no_artist_found, ArtistLookup,
};
use music_mcp_server::tracklist::{artist_name, list_media, tracklist_summary, MediumInput, RecordingRef};

fn rec(title: &str, length_ms: Option<u32>, artist: Option<&str>) -> Option<RecordingRef> {
    Some(RecordingRef {
        title: title.to_string(),
        length_ms,
        mbid: format!("id-{}", title),
        artist: artist.map(|a| a.to_string()),
    })
}

#[test]
fn tracks_are_numbered_across_discs() {
    let media = vec![
        MediumInput {
            title: None,
            tracks: Some(vec![rec("Airbag", Some(284_000), Some("Radiohead")), None, rec("Subterranean", None, Some("Guest"))]),
        },
        MediumInput { title: Some("Bonus".to_string()), tracks: Some(vec![rec("Polyethylene", Some(263_000), None)]) },
        MediumInput { title: None, tracks: None },
    ];
    let (listed, total) = list_media(&media, 10, &"Radiohead".to_string());
    assert_eq!(total, 3);
    assert_eq!(listed.len(), 3);
    assert_eq!(listed[0].disc_number, 1);
    assert_eq!(listed[0].tracks.len(), 2);
    assert_eq!(listed[0].tracks[0].position, 1);
    assert_eq!(listed[0].tracks[0].duration.as_deref(), Some("4:44"));
    assert_eq!(listed[0].tracks[0].artist, None);
    assert_eq!(listed[0].tracks[1].position, 2);
    assert_eq!(listed[0].tracks[1].artist.as_deref(), Some("Guest"));
    assert_eq!(listed[0].tracks[1].duration, None);
    assert_eq!(listed[1].disc_title.as_deref(), Some("Bonus"));
    assert_eq!(listed[1].tracks[0].position, 3);
    assert_eq!(listed[1].tracks[0].artist, None);
    assert!(listed[2].tracks.is_empty());
}

#[test]
fn limit_applies_to_each_disc() {
    let media = vec![
        MediumInput { title: None, tracks: Some(vec![rec("a", None, None), rec("b", None, None)]) },
        MediumInput { title: None, tracks: Some(vec![rec("c", None, None), rec("d", None, None)]) },
    ];
    let (listed, total) = list_media(&media, 1, &"X".to_string());
    assert_eq!(total, 2);
    assert_eq!(listed[0].tracks[0].title, "a");
    assert_eq!(listed[1].tracks[0].title, "c");
    assert_eq!(listed[1].tracks[0].position, 2);
}

#[test]
fn tracklist_summaries() {
    assert_eq!(tracklist_summary("OK Computer", "Radiohead", 12), "Track listing for 'OK Computer' by Radiohead (12 track(s))");
    assert_eq!(tracklist_summary("OK Computer", "Radiohead", 0), "No tracks available for 'OK Computer'");
    assert_eq!(artist_name(&None), "Unknown Artist");
    assert_eq!(artist_name(&Some("Björk".to_string())), "Björk");
}

#[test]
fn artist_search_shaping() {
    let a = artist_info("Nirvana".to_string(), "m".to_string(), Some(String::new()), None, String::new());
    assert!(a.country.is_none());
    assert!(a.disambiguation.is_none());
    let b = artist_info("Nirvana".to_string(), "n".to_string(), Some("GB".to_string()), Some("UK".to_string()), "60s band".to_string());
    assert_eq!(b.disambiguation.as_deref(), Some("60s band"));
    let (summary, result) = artist_search_result("Nirvana", vec![a, b], 10).unwrap();
    assert_eq!(summary, "Found 2 artist(s) matching 'Nirvana'");
    assert_eq!(result.artists.len(), 2);
    assert_eq!(artist_search_result("x", Vec::new(), 10).unwrap_err(), "No artists found for query: x");
}

#[test]
fn artist_release_shaping() {
    assert!(matches!(artist_lookup("a74b1b7f-71a5-4011-9441-d0b5e4122711"), ArtistLookup::ById(_)));
    assert!(matches!(artist_lookup("Radiohead"), ArtistLookup::ByName(_)));
    assert_eq!(no_artist_found("zzz"), "No artist found matching: zzz");
    let r = artist_release_info("OK Computer".to_string(), "m".to_string(), Some("1997-05-21".to_string()), None);
    assert_eq!(r.year.as_deref(), Some("1997"));
    let (summary, result) = artist_releases_result("Radiohead", "id".to_string(), vec![r], 5).unwrap();
    assert_eq!(summary, "Found 1 release(s) by 'Radiohead'");
    assert_eq!(result.artist_mbid, "id");
    assert_eq!(
        artist_releases_result("Radiohead", "id".to_string(), Vec::new(), 5).unwrap_err(),
        "No releases found for artist: Radiohead"
    );
}
