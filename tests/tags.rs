use music_mcp_server::tags::{
    audio_properties, channel_description, duration_text, read_summary, updated_fields, write_summary,
    AudioMetadata, TagUpdate,
};

fn empty() -> TagUpdate {
    TagUpdate {
        title: None,
        artist: None,
        album: None,
        album_artist: None,
        year: None,
        track: None,
        track_total: None,
        genre: None,
        comment: None,
        clear_existing: false,
    }
}

#[test]
fn fields_in_fixed_order_with_numbers_as_text() {
    let mut u = empty();
    u.genre = Some("Rock".to_string());
    u.year = Some(1997);
    u.title = Some("Airbag".to_string());
    u.track = Some(1);
    let fields = updated_fields(&u);
    let names: Vec<&str> = fields.iter().map(|(k, _)| k.as_str()).collect();
    assert_eq!(names, vec!["title", "year", "track", "genre"]);
    assert_eq!(fields[1].1, "1997");
    assert_eq!(write_summary("/m/a.mp3", &fields, false), "Updated 4 field(s) in '/m/a.mp3': title, year, track, genre");
    assert_eq!(
        write_summary("/m/a.mp3", &fields, true),
        "Cleared and updated 4 field(s) in '/m/a.mp3': title, year, track, genre"
    );
}

#[test]
fn no_fields_summary() {
    let fields = updated_fields(&empty());
    assert!(fields.is_empty());
    assert_eq!(write_summary("/m/a.mp3", &fields, true), "No fields updated for '/m/a.mp3'");
}

fn meta(title: Option<&str>, artist: Option<&str>, total_tags: u32) -> AudioMetadata {
    AudioMetadata {
        title: title.map(|s| s.to_string()),
        artist: artist.map(|s| s.to_string()),
        album: None,
        album_artist: None,
        year: None,
        track: None,
        genre: None,
        comment: None,
        total_tags,
    }
}

#[test]
fn audio_property_descriptions() {
    assert_eq!(duration_text(0), None);
    assert_eq!(duration_text(245).as_deref(), Some("4:05"));
    assert_eq!(duration_text(3600).as_deref(), Some("60:00"));
    assert_eq!(channel_description(Some(1)).as_deref(), Some("Mono"));
    assert_eq!(channel_description(Some(2)).as_deref(), Some("Stereo"));
    assert_eq!(channel_description(Some(6)).as_deref(), Some("Multi-channel"));
    assert_eq!(channel_description(None), None);
    let p = audio_properties(61, Some(320), Some(44100), Some(2), Some(16));
    assert_eq!(p.duration_seconds, Some(61));
    assert_eq!(p.duration_formatted.as_deref(), Some("1:01"));
    assert_eq!(p.channel_description.as_deref(), Some("Stereo"));
    assert_eq!(p.bitrate_kbps, Some(320));
}

#[test]
fn read_summaries() {
    assert_eq!(read_summary("/m/a.mp3", &None, &None), "No metadata found in '/m/a.mp3'");
    let m = Some(meta(Some("Airbag"), Some("Radiohead"), 7));
    assert_eq!(read_summary("/m/a.mp3", &m, &None), "'Airbag' by Radiohead (7 tags)");
    let p = Some(audio_properties(284, None, None, None, None));
    assert_eq!(read_summary("/m/a.mp3", &m, &p), "'Airbag' by Radiohead (4:44, 7 tags)");
    let p0 = Some(audio_properties(0, None, None, None, None));
    assert_eq!(read_summary("/m/a.mp3", &m, &p0), "'Airbag' by Radiohead (7 tags)");
    let unknown = Some(meta(None, None, 0));
    assert_eq!(read_summary("/m/a.mp3", &unknown, &None), "'Unknown' by Unknown Artist (0 tags)");
}
