//! Choice of a cover image, of its size, and of the file extension to save
//! it under.

use vstd::prelude::*;
use vstd::string::StringExecFns;
use crate::musicbrainz::{is_mbid, is_mbid_spec};
use crate::templates::{replace_all, replace_text};
use crate::text::{decimal, decimal_string, ends_with, ends_with_spec, starts_with, starts_with_spec, str_equals};

verus! {

/// The thumbnails that the cover archive lists for one image, in its newer
/// (`res_*`) and older (`small`, `large`) naming.
#[derive(Debug, Clone)]
pub struct Thumbnails {
    pub small: Option<String>,
    pub large: Option<String>,
    pub res_250: Option<String>,
    pub res_500: Option<String>,
    pub res_1200: Option<String>,
}

/// One image of a release's cover art.
#[derive(Debug, Clone)]
pub struct CoverImage {
    /// The archive marks this image as the front cover.
    pub front: bool,
    /// The archive marks this image as the back cover.
    pub back: bool,
    /// Name of the image's first type, if it has any.
    pub first_type: Option<String>,
    /// One of the image's types is "Front".
    pub front_type: bool,
    /// Address of the full-size image.
    pub image: String,
    pub thumbnails: Thumbnails,
}

pub open spec fn opt_view(o: Option<String>) -> Option<Seq<char>> {
    match o {
        Some(s) => Some(s@),
        None => None,
    }
}

/// The first of two optional addresses that is there.
pub open spec fn or_else(a: Option<Seq<char>>, b: Option<Seq<char>>) -> Option<Seq<char>> {
    if a is Some { a } else { b }
}

pub open spec fn thumb_250(t: Thumbnails) -> Option<Seq<char>> {
    or_else(opt_view(t.res_250), opt_view(t.small))
}

pub open spec fn thumb_500(t: Thumbnails) -> Option<Seq<char>> {
    or_else(opt_view(t.res_500), opt_view(t.large))
}

pub open spec fn thumb_1200(t: Thumbnails) -> Option<Seq<char>> {
    opt_view(t.res_1200)
}

/// `c` with its size label if it is there, else `rest`.
pub open spec fn pick(c: Option<Seq<char>>, label: Seq<char>, rest: (Seq<char>, Seq<char>)) -> (Seq<char>, Seq<char>) {
    if c is Some { (c->Some_0, label) } else { rest }
}

/// The address and size label chosen for an image and a requested size:
/// the requested size, then the fallbacks in a fixed order, then the full
/// image.
pub open spec fn image_url_spec(img: CoverImage, requested: Seq<char>) -> (Seq<char>, Seq<char>) {
    let t = img.thumbnails;
    let original = (img.image@, "original"@);
    if requested == "250"@ {
        pick(thumb_250(t), "250"@, pick(thumb_500(t), "500"@, pick(thumb_1200(t), "1200"@, original)))
    } else if requested == "500"@ {
        pick(thumb_500(t), "500"@, pick(thumb_1200(t), "1200"@, pick(thumb_250(t), "250"@, original)))
    } else if requested == "1200"@ {
        pick(thumb_1200(t), "1200"@, pick(thumb_500(t), "500"@, original))
    } else {
        original
    }
}

fn first_some(a: &Option<String>, b: &Option<String>) -> (r: Option<String>)
    ensures
        opt_view(r) == or_else(opt_view(*a), opt_view(*b)),
{
    match a {
        Some(s) => Some(s.clone()),
        None => match b {
            Some(s) => Some(s.clone()),
            None => None,
        },
    }
}

fn labelled(o: Option<String>, label: &str) -> (r: Option<(String, String)>)
    ensures
        o is Some <==> r is Some,
        r is Some ==> r->Some_0.0@ == o->Some_0@ && r->Some_0.1@ == label@,
{
    match o {
        Some(s) => Some((s, String::from_str(label))),
        None => None,
    }
}

/// Picks the address to download for a requested size ("250", "500",
/// "1200" or "original"), falling back to other sizes and at last to the
/// full image; returns the address and the size that it has.
pub fn get_image_url(image: &CoverImage, requested_size: &str) -> (r: (String, String))
    ensures
        (r.0@, r.1@) == image_url_spec(*image, requested_size@),
{
    proof {
        reveal_strlit("250");
        reveal_strlit("500");
        reveal_strlit("1200");
        reveal_strlit("original");
    }
    let t = &image.thumbnails;
    let c250 = first_some(&t.res_250, &t.small);
    let c500 = first_some(&t.res_500, &t.large);
    let c1200 = first_some(&t.res_1200, &None);
    let picked: Option<(String, String)> = if str_equals(requested_size, "250") {
        let a = labelled(c250, "250");
        if a.is_some() { a } else {
            let b = labelled(c500, "500");
            if b.is_some() { b } else { labelled(c1200, "1200") }
        }
    } else if str_equals(requested_size, "500") {
        let a = labelled(c500, "500");
        if a.is_some() { a } else {
            let b = labelled(c1200, "1200");
            if b.is_some() { b } else { labelled(c250, "250") }
        }
    } else if str_equals(requested_size, "1200") {
        let a = labelled(c1200, "1200");
        if a.is_some() { a } else { labelled(c500, "500") }
    } else {
        None
    };
    match picked {
        Some(p) => p,
        None => (image.image.clone(), String::from_str("original")),
    }
}

/// Why no image could be chosen.
#[derive(Debug, Clone, Copy, PartialEq, Eq, Structural)]
pub enum ImageChoiceError {
    NoImages,
}

/// Index of the first image satisfying `p`, if any.
pub open spec fn first_index(images: Seq<CoverImage>, front_flag: bool) -> Option<int> {
    if exists|i: int| 0 <= i < images.len() && image_matches(#[trigger] images[i], front_flag) {
        Some(choose|i: int| 0 <= i < images.len() && image_matches(images[i], front_flag)
            && forall|j: int| 0 <= j < i ==> !image_matches(#[trigger] images[j], front_flag))
    } else {
        None
    }
}

/// With `front_flag`, the image is marked front; else one of its types is
/// "Front".
pub open spec fn image_matches(img: CoverImage, front_flag: bool) -> bool {
    if front_flag { img.front } else { img.front_type }
}

/// The image to download: the first marked front, else the first whose
/// type is "Front", else the first image.
pub open spec fn best_image_spec(images: Seq<CoverImage>) -> Option<int> {
    if images.len() == 0 {
        None
    } else if first_index(images, true) is Some {
        first_index(images, true)
    } else if first_index(images, false) is Some {
        first_index(images, false)
    } else {
        Some(0)
    }
}

fn find_first(images: &Vec<CoverImage>, front_flag: bool) -> (r: Option<usize>)
    ensures
        match r {
            Some(i) => i < images@.len() && image_matches(images@[i as int], front_flag)
                && forall|j: int| 0 <= j < i ==> !image_matches(#[trigger] images@[j], front_flag),
            None => forall|j: int| 0 <= j < images@.len() ==> !image_matches(#[trigger] images@[j], front_flag),
        },
{
    let mut i: usize = 0;
    while i < images.len()
        invariant
            i <= images@.len(),
            forall|j: int| 0 <= j < i ==> !image_matches(#[trigger] images@[j], front_flag),
        decreases images@.len() - i,
    {
        let hit = if front_flag { images[i].front } else { images[i].front_type };
        if hit {
            return Some(i);
        }
        i = i + 1;
    }
    None
}

proof fn lemma_first_index(images: Seq<CoverImage>, front_flag: bool, r: Option<usize>)
    requires
        match r {
            Some(i) => i < images.len() && image_matches(images[i as int], front_flag)
                && forall|j: int| 0 <= j < i ==> !image_matches(#[trigger] images[j], front_flag),
            None => forall|j: int| 0 <= j < images.len() ==> !image_matches(#[trigger] images[j], front_flag),
        },
    ensures
        first_index(images, front_flag) == match r { Some(i) => Some(i as int), None => None::<int> },
{
    if let Some(i) = r {
        assert(image_matches(images[i as int], front_flag));
        let k = first_index(images, front_flag)->Some_0;
        assert(0 <= k < images.len() && image_matches(images[k], front_flag)
            && forall|j: int| 0 <= j < k ==> !image_matches(#[trigger] images[j], front_flag));
        if k < i {
            assert(!image_matches(images[k], front_flag));
        }
        if i < k {
            assert(!image_matches(images[i as int], front_flag));
        }
    }
}

/// Chooses which image of a release's cover art to download.
pub fn select_best_image(images: &Vec<CoverImage>) -> (r: Result<usize, ImageChoiceError>)
    ensures
        match r {
            Ok(i) => best_image_spec(images@) == Some(i as int),
            Err(_) => best_image_spec(images@) is None,
        },
{
    if images.len() == 0 {
        return Err(ImageChoiceError::NoImages);
    }
    let a = find_first(images, true);
    proof { lemma_first_index(images@, true, a); }
    if let Some(i) = a {
        return Ok(i);
    }
    let b = find_first(images, false);
    proof { lemma_first_index(images@, false, b); }
    if let Some(i) = b {
        return Ok(i);
    }
    Ok(0)
}

/// File extension for an image address: from its ending, `jpg` when
/// nothing known matches.
pub open spec fn extension_spec(url: Seq<char>) -> Seq<char> {
    if ends_with_spec(url, ".png"@) {
        "png"@
    } else if ends_with_spec(url, ".jpg"@) || ends_with_spec(url, ".jpeg"@) {
        "jpg"@
    } else if ends_with_spec(url, ".gif"@) {
        "gif"@
    } else if ends_with_spec(url, ".webp"@) {
        "webp"@
    } else {
        "jpg"@
    }
}

/// The file extension to save an image under.
pub fn detect_extension(url: &str) -> (r: String)
    ensures
        r@ == extension_spec(url@),
{
    proof {
        reveal_strlit(".png");
        reveal_strlit(".jpg");
        reveal_strlit(".jpeg");
        reveal_strlit(".gif");
        reveal_strlit(".webp");
        reveal_strlit("png");
        reveal_strlit("jpg");
        reveal_strlit("gif");
        reveal_strlit("webp");
    }
    let e = if ends_with(url, ".png") {
        "png"
    } else if ends_with(url, ".jpg") || ends_with(url, ".jpeg") {
        "jpg"
    } else if ends_with(url, ".gif") {
        "gif"
    } else if ends_with(url, ".webp") {
        "webp"
    } else {
        "jpg"
    };
    String::from_str(e)
}

/// File name used when a download names none.
pub fn default_filename() -> (r: String)
    ensures
        r@ == "cover"@,
{
    String::from_str("cover")
}

/// Thumbnail size used when a download names none.
pub fn default_thumbnail_size() -> (r: String)
    ensures
        r@ == "500"@,
{
    String::from_str("500")
}

/// The refusal of an identifier that is not shaped like one.
pub fn mbid_error(mbid: &str) -> (r: Option<String>)
    ensures
        is_mbid_spec(mbid@) <==> r is None,
        r is Some ==> r->Some_0@ == "Invalid MBID format (expected UUID)"@,
{
    if is_mbid(mbid) {
        None
    } else {
        Some(String::from_str("Invalid MBID format (expected UUID)"))
    }
}

/// The sizes that a download may ask for.
pub open spec fn known_size(size: Seq<char>) -> bool {
    size == "250"@ || size == "500"@ || size == "1200"@ || size == "original"@
}

/// The refusal of an unknown thumbnail size.
pub fn thumbnail_size_error(size: &str) -> (r: Option<String>)
    ensures
        known_size(size@) <==> r is None,
        r is Some ==> r->Some_0@ == "Invalid thumbnail size (use 250, 500, 1200, or original)"@,
{
    if str_equals(size, "250") || str_equals(size, "500") || str_equals(size, "1200")
        || str_equals(size, "original") {
        None
    } else {
        Some(String::from_str("Invalid thumbnail size (use 250, 500, 1200, or original)"))
    }
}

/// The address to download from: an address on the cover archive's own
/// host is switched to HTTPS (every `http://` in it becomes `https://`);
/// any other stays as it is.
pub open spec fn secure_url_spec(url: Seq<char>) -> Seq<char> {
    if starts_with_spec(url, "http://coverartarchive.org"@) {
        replace_all(url, "http://"@, "https://"@)
    } else {
        url
    }
}

/// The address to download an image from.
pub fn secure_url(url: &str) -> (r: String)
    ensures
        r@ == secure_url_spec(url@),
{
    proof {
        reveal_strlit("http://");
    }
    if starts_with(url, "http://coverartarchive.org") {
        replace_text(url, "http://", "https://")
    } else {
        String::from_str(url)
    }
}

/// The name to save an image under: the requested name and the
/// extension that the address shows.
pub fn cover_file_name(filename: &str, url: &str) -> (r: String)
    ensures
        r@ == filename@ + "."@ + extension_spec(url@),
{
    let mut s = String::from_str(filename);
    s.append(".");
    s.append(detect_extension(url).as_str());
    s
}

/// The refusal to replace an existing file without permission.
pub fn file_conflict(file_path: &str, exists: bool, overwrite: bool) -> (r: Option<String>)
    ensures
        (exists && !overwrite) <==> r is Some,
        r is Some ==> r->Some_0@ == "File already exists: "@ + file_path@ + ". Use overwrite=true to replace"@,
{
    if exists && !overwrite {
        let mut m = String::from_str("File already exists: ");
        m.append(file_path);
        m.append(". Use overwrite=true to replace");
        Some(m)
    } else {
        None
    }
}

/// The refusal of a download whose answer is unusable: a failed status,
/// or an empty body.
pub fn download_error(status_ok: bool, status: &str, url: &str, body_len: usize) -> (r: Option<String>)
    ensures
        !status_ok ==> r is Some && r->Some_0@ == "Failed to download image: HTTP "@ + status@ + " - URL: "@ + url@,
        status_ok && body_len == 0 ==> r is Some && r->Some_0@ == "Failed to download image: Empty response"@,
        status_ok && body_len > 0 ==> r is None,
{
    if !status_ok {
        let mut m = String::from_str("Failed to download image: HTTP ");
        m.append(status);
        m.append(" - URL: ");
        m.append(url);
        Some(m)
    } else if body_len == 0 {
        Some(String::from_str("Failed to download image: Empty response"))
    } else {
        None
    }
}

/// How an image is described: front, back, its first type, or unknown.
pub open spec fn image_label(img: CoverImage) -> Seq<char> {
    if img.front {
        "Front"@
    } else if img.back {
        "Back"@
    } else {
        match img.first_type {
            Some(t) => t@,
            None => "Unknown"@,
        }
    }
}

/// Describes an image for the download summary.
pub fn image_type_label(image: &CoverImage) -> (r: String)
    ensures
        r@ == image_label(*image),
{
    if image.front {
        String::from_str("Front")
    } else if image.back {
        String::from_str("Back")
    } else {
        match &image.first_type {
            Some(t) => t.clone(),
            None => String::from_str("Unknown"),
        }
    }
}

/// The summary of a finished download.
pub fn download_summary(image_type: &str, actual_size: &str, file_path: &str, size_bytes: u64) -> (r: String)
    ensures
        r@ == "Downloaded "@ + image_type@ + " cover ("@ + actual_size@ + ") to "@ + file_path@
            + " ("@ + decimal(size_bytes as nat) + " bytes)"@,
{
    let mut s = String::from_str("Downloaded ");
    s.append(image_type);
    s.append(" cover (");
    s.append(actual_size);
    s.append(") to ");
    s.append(file_path);
    s.append(" (");
    s.append(decimal_string(size_bytes).as_str());
    s.append(" bytes)");
    s
}

} // verus!
