use music_mcp_server::cover::{
    cover_file_name, default_filename, default_thumbnail_size, detect_extension, download_error,
    download_summary, file_conflict, get_image_url, image_type_label, mbid_error, secure_url,
    select_best_image, thumbnail_size_error, CoverImage, ImageChoiceError, Thumbnails,
};
use music_mcp_server::musicbrainz::{
    default_limit, default_result_limit, extract_year, format_date, format_duration, is_mbid,
    validate_limit, EntityType, MetadataLevel,
};

fn image(thumbnails: Thumbnails, front: bool, front_type: bool) -> CoverImage {
    CoverImage {
        front,
        back: false,
        first_type: None,
        front_type,
        image: "http://example.com/image-original.jpg".to_string(),
        thumbnails,
    }
}

fn no_thumbnails() -> Thumbnails {
    Thumbnails { small: None, large: None, res_250: None, res_500: None, res_1200: None }
}

#[test]
fn test_is_mbid_valid() {
    assert!(is_mbid("5b11f4ce-a62d-471e-81fc-a69a8278c7da"));
    assert!(is_mbid("1b022e01-4da6-387b-8658-8678046e4cef"));
}

#[test]
fn test_is_mbid_invalid() {
    assert!(!is_mbid("Nirvana"));
    assert!(!is_mbid("5b11f4ce-a62d-471e-81fc"));
    assert!(!is_mbid("5b11f4ce-a62d-471e-81fc-a69a8278c7da-extra"));
    assert!(!is_mbid("5b11f4ce_a62d_471e_81fc_a69a8278c7da"));
}

#[test]
fn test_format_duration() {
    assert_eq!(format_duration(180000), "3:00");
    assert_eq!(format_duration(245000), "4:05");
    assert_eq!(format_duration(61000), "1:01");
    assert_eq!(format_duration(59000), "0:59");
}

#[test]
fn test_validate_limit() {
    assert_eq!(validate_limit(10), 10);
    assert_eq!(validate_limit(0), 1);
    assert_eq!(validate_limit(200), 100);
    assert_eq!(validate_limit(50), 50);
}

#[test]
fn test_extract_year() {
    assert_eq!(extract_year("1997-06-16"), Some("1997".to_string()));
    assert_eq!(extract_year("1997-06"), Some("1997".to_string()));
    assert_eq!(extract_year("1997"), Some("1997".to_string()));
    assert_eq!(extract_year("97"), None);
}

#[test]
fn test_mbid_validation() {
    assert!(is_mbid("65c70b9f-fdef-4bc0-a5b6-ac4e34252d3c"));
    assert!(is_mbid("76df3287-6cda-33eb-8e9a-044b5e15ffdd"));
    assert!(!is_mbid("not-a-uuid"));
    assert!(!is_mbid("65c70b9f-fdef-4bc0-a5b6"));
    assert!(!is_mbid("65c70b9f-fdef-4bc0-a5b6-ac4e34252d3cXX"));
    assert!(!is_mbid("65c70b9f-fdef-4bc0-a5b6-ac4e34252d3"));
    assert!(!is_mbid("65c70b9f_fdef_4bc0_a5b6_ac4e34252d3c"));
}

#[test]
fn test_extension_detection() {
    assert_eq!(detect_extension("https://example.com/image.jpg"), "jpg");
    assert_eq!(detect_extension("https://example.com/image.jpeg"), "jpg");
    assert_eq!(detect_extension("https://example.com/image.png"), "png");
    assert_eq!(detect_extension("https://example.com/image.gif"), "gif");
    assert_eq!(detect_extension("https://example.com/image.webp"), "webp");
    assert_eq!(detect_extension("https://example.com/noext"), "jpg");
}

#[test]
fn test_default_limit() {
    assert_eq!(default_result_limit(), 3);
}

#[test]
fn test_entity_type_parsing() {
    assert_eq!(EntityType::from_str("artist"), Some(EntityType::Artist));
    assert_eq!(EntityType::from_str("ARTIST"), Some(EntityType::Artist));
    assert_eq!(EntityType::from_str("release"), Some(EntityType::Release));
    assert_eq!(EntityType::from_str("release_group"), Some(EntityType::ReleaseGroup));
    assert_eq!(EntityType::from_str("release-group"), Some(EntityType::ReleaseGroup));
    assert_eq!(EntityType::from_str("releasegroup"), Some(EntityType::ReleaseGroup));
    assert_eq!(EntityType::from_str("recording"), Some(EntityType::Recording));
    assert_eq!(EntityType::from_str("work"), Some(EntityType::Work));
    assert_eq!(EntityType::from_str("label"), Some(EntityType::Label));
    assert_eq!(EntityType::from_str("unknown"), None);
}

#[test]
fn test_get_image_url_legacy_format() {
    let thumbnails = Thumbnails {
        small: Some("http://example.com/image-250.jpg".to_string()),
        large: Some("http://example.com/image-500.jpg".to_string()),
        res_250: None,
        res_500: None,
        res_1200: None,
    };
    let image = image(thumbnails, true, false);

    let (url, size) = get_image_url(&image, "250");
    assert_eq!(url, "http://example.com/image-250.jpg");
    assert_eq!(size, "250");

    let (url, size) = get_image_url(&image, "500");
    assert_eq!(url, "http://example.com/image-500.jpg");
    assert_eq!(size, "500");

    let (url, size) = get_image_url(&image, "1200");
    assert_eq!(url, "http://example.com/image-500.jpg");
    assert_eq!(size, "500");

    let (url, size) = get_image_url(&image, "original");
    assert_eq!(url, "http://example.com/image-original.jpg");
    assert_eq!(size, "original");
}

#[test]
fn test_get_image_url_new_format() {
    let thumbnails = Thumbnails {
        small: None,
        large: None,
        res_250: Some("http://example.com/image-250.jpg".to_string()),
        res_500: Some("http://example.com/image-500.jpg".to_string()),
        res_1200: Some("http://example.com/image-1200.jpg".to_string()),
    };
    let image = image(thumbnails, true, false);

    let (url, size) = get_image_url(&image, "250");
    assert_eq!(url, "http://example.com/image-250.jpg");
    assert_eq!(size, "250");

    let (url, size) = get_image_url(&image, "500");
    assert_eq!(url, "http://example.com/image-500.jpg");
    assert_eq!(size, "500");

    let (url, size) = get_image_url(&image, "1200");
    assert_eq!(url, "http://example.com/image-1200.jpg");
    assert_eq!(size, "1200");
}

#[test]
fn test_get_image_url_mixed_format() {
    let thumbnails = Thumbnails {
        small: Some("http://example.com/image-250-legacy.jpg".to_string()),
        large: None,
        res_250: None,
        res_500: Some("http://example.com/image-500-new.jpg".to_string()),
        res_1200: None,
    };
    let image = image(thumbnails, true, false);

    let (url, size) = get_image_url(&image, "250");
    assert_eq!(url, "http://example.com/image-250-legacy.jpg");
    assert_eq!(size, "250");

    let (url, size) = get_image_url(&image, "500");
    assert_eq!(url, "http://example.com/image-500-new.jpg");
    assert_eq!(size, "500");
}

#[test]
fn image_url_falls_back_to_smaller_then_original() {
    let only_small = Thumbnails { small: Some("s.jpg".to_string()), ..no_thumbnails() };
    let img = image(only_small, false, false);
    assert_eq!(get_image_url(&img, "500"), ("s.jpg".to_string(), "250".to_string()));
    assert_eq!(
        get_image_url(&img, "1200"),
        ("http://example.com/image-original.jpg".to_string(), "original".to_string())
    );
    let bare = image(no_thumbnails(), false, false);
    assert_eq!(
        get_image_url(&bare, "250"),
        ("http://example.com/image-original.jpg".to_string(), "original".to_string())
    );
}

#[test]
fn best_image_prefers_front_flag_then_front_type_then_first() {
    let images = vec![
        image(no_thumbnails(), false, false),
        image(no_thumbnails(), false, true),
        image(no_thumbnails(), true, false),
    ];
    assert_eq!(select_best_image(&images), Ok(2));
    let images = vec![image(no_thumbnails(), false, false), image(no_thumbnails(), false, true)];
    assert_eq!(select_best_image(&images), Ok(1));
    let images = vec![image(no_thumbnails(), false, false), image(no_thumbnails(), false, false)];
    assert_eq!(select_best_image(&images), Ok(0));
    assert_eq!(select_best_image(&Vec::new()), Err(ImageChoiceError::NoImages));
}

#[test]
fn small_helpers_give_their_values() {
    assert_eq!(default_limit(), 10);
    assert_eq!(format_date("1997-06-16"), "1997-06-16");
    assert_eq!(default_filename(), "cover");
    assert_eq!(default_thumbnail_size(), "500");
    assert_eq!(MetadataLevel::Minimal.as_api_param(), "recordingids");
    assert_eq!(MetadataLevel::Basic.as_api_param(), "recordings");
    assert_eq!(MetadataLevel::Full.as_api_param(), "recordings releasegroups compress");
    assert_eq!(MetadataLevel::default(), MetadataLevel::Basic);
}

#[test]
fn duration_of_an_hour_and_more() {
    assert_eq!(format_duration(3_723_000), "62:03");
    assert_eq!(format_duration(999), "0:00");
}

#[test]
fn extract_year_counts_characters() {
    assert_eq!(extract_year("2001-é"), Some("2001".to_string()));
    assert_eq!(extract_year(""), None);
}

#[test]
fn cover_request_checks() {
    assert_eq!(mbid_error("65c70b9f-fdef-4bc0-a5b6-ac4e34252d3c"), None);
    assert_eq!(mbid_error("nope").as_deref(), Some("Invalid MBID format (expected UUID)"));
    for ok in ["250", "500", "1200", "original"] {
        assert_eq!(thumbnail_size_error(ok), None);
    }
    assert_eq!(
        thumbnail_size_error("600").as_deref(),
        Some("Invalid thumbnail size (use 250, 500, 1200, or original)")
    );
}

#[test]
fn cover_download_names_and_messages() {
    assert_eq!(
        secure_url("http://coverartarchive.org/release/x/1.jpg"),
        "https://coverartarchive.org/release/x/1.jpg"
    );
    assert_eq!(secure_url("http://example.com/a.jpg"), "http://example.com/a.jpg");
    assert_eq!(cover_file_name("cover", "https://x/y.png"), "cover.png");
    assert_eq!(cover_file_name("art", "https://x/y"), "art.jpg");
    assert_eq!(file_conflict("/m/cover.jpg", true, false).as_deref(), Some("File already exists: /m/cover.jpg. Use overwrite=true to replace"));
    assert_eq!(file_conflict("/m/cover.jpg", true, true), None);
    assert_eq!(file_conflict("/m/cover.jpg", false, false), None);
    assert_eq!(
        download_error(false, "404 Not Found", "https://u", 0).as_deref(),
        Some("Failed to download image: HTTP 404 Not Found - URL: https://u")
    );
    assert_eq!(download_error(true, "200 OK", "https://u", 0).as_deref(), Some("Failed to download image: Empty response"));
    assert_eq!(download_error(true, "200 OK", "https://u", 10), None);
    assert_eq!(
        download_summary("Front", "500", "/m/cover.jpg", 12345),
        "Downloaded Front cover (500) to /m/cover.jpg (12345 bytes)"
    );
}

#[test]
fn cover_image_labels() {
    let mut img = image(no_thumbnails(), true, false);
    assert_eq!(image_type_label(&img), "Front");
    img.front = false;
    img.back = true;
    assert_eq!(image_type_label(&img), "Back");
    img.back = false;
    assert_eq!(image_type_label(&img), "Unknown");
    img.first_type = Some("Booklet".to_string());
    assert_eq!(image_type_label(&img), "Booklet");
}
