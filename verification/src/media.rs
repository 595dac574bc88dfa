//! Media classification by file extension.

use vstd::prelude::*;
use crate::path_util::{extension_of, lowercase_of, path_extension, to_lowercase};
use crate::text::str_eq;

verus! {

/// The two kinds of media the viewer displays.
#[derive(Debug, Clone, Copy, PartialEq, Eq, Structural)]
pub enum MediaType {
    Image,
    Video,
}

/// Lower-case extensions recognised as images.
pub open spec fn is_image_extension(e: Seq<char>) -> bool {
    ||| e == "jpg"@
    ||| e == "jpeg"@
    ||| e == "png"@
    ||| e == "gif"@
    ||| e == "webp"@
    ||| e == "bmp"@
    ||| e == "ico"@
    ||| e == "tiff"@
    ||| e == "tif"@
    ||| e == "svg"@
}

/// Lower-case extensions recognised as videos.
pub open spec fn is_video_extension(e: Seq<char>) -> bool {
    ||| e == "mp4"@
    ||| e == "avi"@
    ||| e == "mov"@
    ||| e == "mkv"@
    ||| e == "webm"@
    ||| e == "m4v"@
    ||| e == "wmv"@
    ||| e == "flv"@
}

/// The media type of a lower-case extension.
pub open spec fn media_type_of_extension(e: Seq<char>) -> Option<MediaType> {
    if is_image_extension(e) {
        Some(MediaType::Image)
    } else if is_video_extension(e) {
        Some(MediaType::Video)
    } else {
        None
    }
}

/// The media type of a path: its extension, lower-cased, classified.
pub open spec fn media_type_of_path(path: Seq<char>) -> Option<MediaType> {
    match extension_of(path) {
        Some(e) => media_type_of_extension(lowercase_of(e)),
        None => None,
    }
}

/// Whether a path names an image.
pub open spec fn is_image_path(path: Seq<char>) -> bool {
    media_type_of_path(path) == Some(MediaType::Image)
}

/// Classifies an already lower-cased extension.
pub fn classify_extension(e: &str) -> (r: Option<MediaType>)
    ensures
        r == media_type_of_extension(e@),
{
    if str_eq(e, "jpg") || str_eq(e, "jpeg") || str_eq(e, "png") || str_eq(e, "gif")
        || str_eq(e, "webp") || str_eq(e, "bmp") || str_eq(e, "ico") || str_eq(e, "tiff")
        || str_eq(e, "tif") || str_eq(e, "svg") {
        Some(MediaType::Image)
    } else if str_eq(e, "mp4") || str_eq(e, "avi") || str_eq(e, "mov") || str_eq(e, "mkv")
        || str_eq(e, "webm") || str_eq(e, "m4v") || str_eq(e, "wmv") || str_eq(e, "flv") {
        Some(MediaType::Video)
    } else {
        None
    }
}

/// Detects the media type of a file from its extension, ignoring case.
/// Returns `None` for paths without an extension or with an unsupported one.
pub fn detect_media_type(path: &str) -> (r: Option<MediaType>)
    ensures
        r == media_type_of_path(path@),
{
    match path_extension(path) {
        Some(ext) => {
            let lower = to_lowercase(ext.as_str());
            classify_extension(lower.as_str())
        },
        None => None,
    }
}

/// Media type as recorded by the diagnostics log: a path with a video
/// extension is a video, any other extension an image, no extension unknown.
#[derive(Debug, Clone, Copy, PartialEq, Eq, Structural)]
pub enum DiagnosticMediaType {
    Image,
    Video,
    Unknown,
}

/// What the diagnostics log records as the media type of an optional path.
pub open spec fn diagnostic_media_type_of(path: Option<Seq<char>>) -> DiagnosticMediaType {
    match path {
        None => DiagnosticMediaType::Unknown,
        Some(p) => match extension_of(p) {
            None => DiagnosticMediaType::Unknown,
            Some(e) => if is_video_extension(lowercase_of(e)) {
                DiagnosticMediaType::Video
            } else {
                DiagnosticMediaType::Image
            },
        },
    }
}

/// Classifies a path for the diagnostics log.
pub fn diagnostic_media_type(path: Option<&str>) -> (r: DiagnosticMediaType)
    ensures
        r == diagnostic_media_type_of(match path { Some(p) => Some(p@), None => None }),
{
    match path {
        None => DiagnosticMediaType::Unknown,
        Some(p) => match path_extension(p) {
            None => DiagnosticMediaType::Unknown,
            Some(ext) => {
                let lower = to_lowercase(ext.as_str());
                let l = lower.as_str();
                if str_eq(l, "mp4") || str_eq(l, "avi") || str_eq(l, "mov") || str_eq(l, "mkv")
                    || str_eq(l, "webm") || str_eq(l, "m4v") || str_eq(l, "wmv") || str_eq(l, "flv") {
                    DiagnosticMediaType::Video
                } else {
                    DiagnosticMediaType::Image
                }
            },
        },
    }
}

/// The diagnostics record of a media file whose loading started.
#[derive(Debug, Clone, Copy, PartialEq, Eq, Structural)]
pub struct MediaLoadingStartedEvent {
    /// The media type guessed from the file extension.
    pub media_type: DiagnosticMediaType,
    /// The size of the file in bytes (0 when unknown).
    pub file_size_bytes: u64,
}

/// Builds the record of a load that starts, from the path and the size of
/// the file.
pub fn log_media_loading_started(path: &str, file_size_bytes: u64) -> (r: MediaLoadingStartedEvent)
    ensures
        r.media_type == diagnostic_media_type_of(Some(path@)),
        r.file_size_bytes == file_size_bytes,
{
    MediaLoadingStartedEvent { media_type: diagnostic_media_type(Some(path)), file_size_bytes }
}

/// Width and height in pixels.
#[derive(Debug, Clone, Copy, PartialEq, Eq, Structural)]
pub struct Dimensions {
    pub width: u32,
    pub height: u32,
}

/// The diagnostics record of a media file that loaded.
#[derive(Debug, Clone, Copy, PartialEq, Eq, Structural)]
pub struct MediaLoadedEvent {
    /// The type of the loaded media.
    pub media_type: DiagnosticMediaType,
    /// The size of the file in bytes (0 when unknown).
    pub file_size_bytes: u64,
    /// The size of the image or video frame, when known.
    pub dimensions: Option<Dimensions>,
}

/// Builds the record of a loaded media from its type, its size in pixels
/// and the size of the file. An image always records its dimensions; a
/// video records them only when both are known (not zero).
pub fn log_media_loaded(media_type: MediaType, width: u32, height: u32, file_size_bytes: u64) -> (r: MediaLoadedEvent)
    ensures
        r.media_type == match media_type {
            MediaType::Image => DiagnosticMediaType::Image,
            MediaType::Video => DiagnosticMediaType::Video,
        },
        r.file_size_bytes == file_size_bytes,
        r.dimensions == if media_type == MediaType::Image || (width > 0 && height > 0) {
            Some(Dimensions { width, height })
        } else {
            None::<Dimensions>
        },
{
    match media_type {
        MediaType::Image => MediaLoadedEvent {
            media_type: DiagnosticMediaType::Image,
            file_size_bytes,
            dimensions: Some(Dimensions { width, height }),
        },
        MediaType::Video => MediaLoadedEvent {
            media_type: DiagnosticMediaType::Video,
            file_size_bytes,
            dimensions: if width > 0 && height > 0 { Some(Dimensions { width, height }) } else { None },
        },
    }
}

/// The diagnostics record of a media file that failed to load.
#[derive(Debug, Clone, PartialEq)]
pub struct MediaFailedEvent {
    /// The media type guessed from the file extension.
    pub media_type: DiagnosticMediaType,
    /// The error text.
    pub reason: String,
}

/// Builds the record of a failed load from the error text and the path, if known.
pub fn log_media_failed(reason: &str, path: Option<&str>) -> (r: MediaFailedEvent)
    ensures
        r.media_type == diagnostic_media_type_of(match path { Some(p) => Some(p@), None => None }),
        r.reason@ == reason@,
{
    MediaFailedEvent { media_type: diagnostic_media_type(path), reason: reason.to_string() }
}


/// The extensions recognised (lower-cased) are exactly these: jpg, jpeg,
/// png, gif, webp, bmp, ico, tiff, tif and svg are images; mp4, avi, mov,
/// mkv, webm, m4v, wmv and flv are videos; every other extension is no
/// media at all.
pub proof fn lemma_recognised_extensions(e: Seq<char>)
    ensures
        media_type_of_extension(e) == Some(MediaType::Image) <==> set![
            "jpg"@, "jpeg"@, "png"@, "gif"@, "webp"@, "bmp"@, "ico"@, "tiff"@, "tif"@, "svg"@,
        ].contains(e),
        media_type_of_extension(e) == Some(MediaType::Video) <==> set![
            "mp4"@, "avi"@, "mov"@, "mkv"@, "webm"@, "m4v"@, "wmv"@, "flv"@,
        ].contains(e),
        media_type_of_extension(e) is None <==> !set![
            "jpg"@, "jpeg"@, "png"@, "gif"@, "webp"@, "bmp"@, "ico"@, "tiff"@, "tif"@, "svg"@,
            "mp4"@, "avi"@, "mov"@, "mkv"@, "webm"@, "m4v"@, "wmv"@, "flv"@,
        ].contains(e),
{
    reveal_strlit("jpg"); reveal_strlit("jpeg"); reveal_strlit("png"); reveal_strlit("gif");
    reveal_strlit("webp"); reveal_strlit("bmp"); reveal_strlit("ico"); reveal_strlit("tiff");
    reveal_strlit("tif"); reveal_strlit("svg");
    reveal_strlit("mp4"); reveal_strlit("avi"); reveal_strlit("mov"); reveal_strlit("mkv");
    reveal_strlit("webm"); reveal_strlit("m4v"); reveal_strlit("wmv"); reveal_strlit("flv");
    if is_video_extension(e) {
        assert(e.len() == 3 || e.len() == 4);
        assert(e[0] == 'm' || e[0] == 'a' || e[0] == 'w' || e[0] == 'f');
        assert(e.len() == 4 ==> e[3] == 'm');
        assert(!is_image_extension(e));
    }
}

} // verus!
