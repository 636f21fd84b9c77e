use music_mcp_server::musicbrainz::EntityType;
use music_mcp_server::search::{
    advanced_entity, artist_search_kind, recording_search_kind, release_search_kind, ArtistSearch,
    RecordingSearch, ReleaseSearch, found_summary, label_search_result, non_empty, none_found, take_limit, work_search_result,
    LabelInfo, WorkInfo,
};

fn label(name: &str) -> LabelInfo {
    LabelInfo {
        name: name.to_string(),
        mbid: "m".to_string(),
        label_type: None,
        country: None,
        disambiguation: None,
        label_code: None,
    }
}

#[test]
fn results_are_capped_and_summarised() {
    let found = vec![label("Sony"), label("Sony Music"), label("Sony BMG")];
    let (summary, result) = label_search_result("Sony", found, 2).unwrap();
    assert_eq!(summary, "Found 2 label(s) matching 'Sony'");
    assert_eq!(result.total_count, 2);
    assert_eq!(result.labels[1].name, "Sony Music");
    assert_eq!(result.query, "Sony");
}

#[test]
fn empty_results_are_refused() {
    assert_eq!(label_search_result("zzz", Vec::new(), 10).unwrap_err(), "No labels found for query: zzz");
    let work = WorkInfo {
        title: "Bohemian Rhapsody".to_string(),
        mbid: "m".to_string(),
        work_type: Some("Song".to_string()),
        disambiguation: None,
        language: None,
    };
    assert_eq!(work_search_result("q", vec![work.clone()], 0).unwrap_err(), "No works found for query: q");
    let (summary, result) = work_search_result("q", vec![work], 5).unwrap();
    assert_eq!(summary, "Found 1 work(s) matching 'q'");
    assert_eq!(result.works.len(), 1);
}

#[test]
fn small_shaping_helpers() {
    assert_eq!(take_limit(vec![1, 2, 3], 5), vec![1, 2, 3]);
    assert_eq!(take_limit(vec![1, 2, 3], 1), vec![1]);
    assert_eq!(non_empty(Some(String::new())), None);
    assert_eq!(non_empty(Some("UK band".to_string())).as_deref(), Some("UK band"));
    assert_eq!(non_empty(None), None);
    assert_eq!(found_summary(12, "artist", "x"), "Found 12 artist(s) matching 'x'");
    assert_eq!(none_found("artists", "x"), "No artists found for query: x");
}

#[test]
fn search_routing() {
    assert_eq!(advanced_entity("Release-Group"), Ok(EntityType::ReleaseGroup));
    assert_eq!(
        advanced_entity("invalid").unwrap_err(),
        "Invalid entity type: 'invalid'. Supported: artist, release, release_group, recording, work, label"
    );
    assert_eq!(artist_search_kind("artist"), Ok(ArtistSearch::Artists));
    assert_eq!(artist_search_kind("artist_releases"), Ok(ArtistSearch::ArtistReleases));
    assert_eq!(artist_search_kind("x").unwrap_err(), "Unknown search type: x. Use 'artist' or 'artist_releases'");
    assert_eq!(recording_search_kind("recording_releases"), Ok(RecordingSearch::RecordingReleases));
    assert!(recording_search_kind("Recording").is_err());
    assert_eq!(release_search_kind("release_group_releases"), Ok(ReleaseSearch::ReleaseGroupReleases));
    assert_eq!(release_search_kind("release"), Ok(ReleaseSearch::Releases));
    assert_eq!(
        release_search_kind("album").unwrap_err(),
        "Unknown search type: album. Use 'release', 'release_group', 'release_recordings', or 'release_group_releases'"
    );
}
