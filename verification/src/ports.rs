//! Interfaces that the media, AI and video infrastructure implement, with
//! the value types and errors they exchange.

use vstd::prelude::*;
use crate::media::MediaType;
use crate::text::{concat2, concat3, decimal, to_decimal};

verus! {

/// An image as uncompressed RGBA pixels.
#[derive(Debug, Clone)]
pub struct RawImage {
    pub width: u32,
    pub height: u32,
    pub rgba: Vec<u8>,
}

impl RawImage {
    /// An image of the given size and pixels.
    pub fn new(width: u32, height: u32, rgba: Vec<u8>) -> (r: Self)
        ensures
            r.width == width,
            r.height == height,
            r.rgba@ == rgba@,
    {
        RawImage { width, height, rgba }
    }
}

/// Properties of a video file: size, duration in milliseconds, frame rate
/// in thousandths of a frame per second, and whether it has sound.
#[derive(Debug, Clone, Copy, PartialEq, Eq, Structural)]
pub struct VideoMetadata {
    pub width: u32,
    pub height: u32,
    pub duration_ms: u64,
    pub fps_millis: u32,
    pub has_audio: bool,
}

impl VideoMetadata {
    /// Video properties from their parts.
    pub fn new(width: u32, height: u32, duration_ms: u64, fps_millis: u32, has_audio: bool) -> (r: Self)
        ensures
            r == (VideoMetadata { width, height, duration_ms, fps_millis, has_audio }),
    {
        VideoMetadata { width, height, duration_ms, fps_millis, has_audio }
    }
}

/// Errors that can occur during media loading.
#[derive(Debug, Clone, PartialEq)]
pub enum MediaError {
    /// The file format is not supported.
    UnsupportedFormat,
    /// The image dimensions are invalid (zero).
    InvalidDimensions { width: u32, height: u32 },
    /// The media data is corrupted or cannot be decoded.
    CorruptedData(String),
    /// The file could not be read.
    IoError(String),
    /// The file was not found.
    NotFound,
}

impl MediaError {
    /// The text shown for this error.
    pub open spec fn spec_message(&self) -> Seq<char> {
        match self {
            MediaError::UnsupportedFormat => "Unsupported media format"@,
            MediaError::InvalidDimensions { width, height } =>
                "Invalid dimensions: "@ + decimal(*width as nat) + "x"@ + decimal(*height as nat),
            MediaError::CorruptedData(m) => "Corrupted media data: "@ + m@,
            MediaError::IoError(m) => "I/O error: "@ + m@,
            MediaError::NotFound => "File not found"@,
        }
    }

    /// Describes the error for the user.
    pub fn message(&self) -> (r: String)
        ensures
            r@ == self.spec_message(),
    {
        match self {
            MediaError::UnsupportedFormat => "Unsupported media format".to_string(),
            MediaError::InvalidDimensions { width, height } => {
                let w = to_decimal(*width as u64);
                let h = to_decimal(*height as u64);
                let mut r = concat3("Invalid dimensions: ", w.as_str(), "x");
                r.append(h.as_str());
                r
            },
            MediaError::CorruptedData(m) => concat2("Corrupted media data: ", m.as_str()),
            MediaError::IoError(m) => concat2("I/O error: ", m.as_str()),
            MediaError::NotFound => "File not found".to_string(),
        }
    }
}

/// Result of successfully loading a media file.
#[derive(Debug, Clone)]
pub enum LoadedMedia {
    /// A static image.
    Image(RawImage),
    /// A video file with its properties.
    Video(VideoMetadata),
    /// An animated image: its frames and the duration of each, in milliseconds.
    AnimatedImage { frames: Vec<RawImage>, durations_ms: Vec<u64> },
}

impl LoadedMedia {
    /// The media type: animated images count as video (both play over time).
    pub fn media_type(&self) -> (r: MediaType)
        ensures
            r == if self is Image { MediaType::Image } else { MediaType::Video },
    {
        match self {
            LoadedMedia::Image(_) => MediaType::Image,
            LoadedMedia::Video(_) | LoadedMedia::AnimatedImage { .. } => MediaType::Video,
        }
    }

    /// Whether this is a static image.
    pub fn is_image(&self) -> (r: bool)
        ensures
            r == self is Image,
    {
        match self {
            LoadedMedia::Image(_) => true,
            _ => false,
        }
    }

    /// Whether this is a video.
    pub fn is_video(&self) -> (r: bool)
        ensures
            r == self is Video,
    {
        match self {
            LoadedMedia::Video(_) => true,
            _ => false,
        }
    }

    /// Whether this is an animated image.
    pub fn is_animated(&self) -> (r: bool)
        ensures
            r == self is AnimatedImage,
    {
        match self {
            LoadedMedia::AnimatedImage { .. } => true,
            _ => false,
        }
    }
}

/// Loading of media files, implemented by the infrastructure.
pub trait MediaLoader {
    /// Loads the media at `path`.
    fn load(&self, path: &str) -> Result<LoadedMedia, MediaError>;

    /// Whether `path` has a supported extension (without reading the file).
    fn supports(&self, path: &str) -> bool;

    /// Determines the media type without fully loading the file.
    fn probe(&self, path: &str) -> Result<MediaType, MediaError>;
}

/// Errors that can occur during AI processing.
#[derive(Debug, PartialEq)]
pub enum AIError {
    /// The model is not downloaded or not validated.
    ModelNotReady,
    /// Processing failed with an error message.
    ProcessingFailed(String),
    /// The input image is larger than the model accepts.
    InputTooLarge { max: (u32, u32), actual: (u32, u32) },
    /// The model file could not be loaded.
    ModelLoadFailed(String),
    /// Inference failed.
    InferenceFailed(String),
}

impl AIError {
    /// The text shown for this error.
    pub open spec fn spec_message(&self) -> Seq<char> {
        match self {
            AIError::ModelNotReady => "AI model is not ready"@,
            AIError::ProcessingFailed(m) => "AI processing failed: "@ + m@,
            AIError::InputTooLarge { max, actual } =>
                "Input too large: "@ + decimal(actual.0 as nat) + "x"@ + decimal(actual.1 as nat)
                    + " (max: "@ + decimal(max.0 as nat) + "x"@ + decimal(max.1 as nat) + ")"@,
            AIError::ModelLoadFailed(m) => "Failed to load model: "@ + m@,
            AIError::InferenceFailed(m) => "Inference failed: "@ + m@,
        }
    }

    /// Describes the error for the user.
    pub fn message(&self) -> (r: String)
        ensures
            r@ == self.spec_message(),
    {
        match self {
            AIError::ModelNotReady => "AI model is not ready".to_string(),
            AIError::ProcessingFailed(m) => concat2("AI processing failed: ", m.as_str()),
            AIError::InputTooLarge { max, actual } => {
                let a0 = to_decimal(actual.0 as u64);
                let a1 = to_decimal(actual.1 as u64);
                let m0 = to_decimal(max.0 as u64);
                let m1 = to_decimal(max.1 as u64);
                let mut r = concat3("Input too large: ", a0.as_str(), "x");
                r.append(a1.as_str());
                r.append(" (max: ");
                r.append(m0.as_str());
                r.append("x");
                r.append(m1.as_str());
                r.append(")");
                r
            },
            AIError::ModelLoadFailed(m) => concat2("Failed to load model: ", m.as_str()),
            AIError::InferenceFailed(m) => concat2("Inference failed: ", m.as_str()),
        }
    }
}

/// What an AI processor can do.
#[derive(Debug, Clone, Copy)]
pub struct ProcessorCapabilities {
    /// Human-readable name of the processor.
    pub name: &'static str,
    /// Scale factor of an upscaling processor; `None` when the size is kept.
    pub scale_factor: Option<u32>,
    /// Largest input (width, height) the model accepts; `None` for no limit.
    pub input_size_limit: Option<(u32, u32)>,
    /// Estimated processing time, in percent of the baseline.
    pub time_factor_percent: u32,
}

impl ProcessorCapabilities {
    /// A processor that keeps the image size, with no input limit.
    pub fn new(name: &'static str) -> (r: Self)
        ensures
            r.name == name,
            r.scale_factor is None,
            r.input_size_limit is None,
            r.time_factor_percent == 100,
    {
        ProcessorCapabilities { name, scale_factor: None, input_size_limit: None, time_factor_percent: 100 }
    }

    /// An upscaling processor with the given scale factor, with no input limit.
    pub fn upscaler(name: &'static str, scale_factor: u32) -> (r: Self)
        ensures
            r.name == name,
            r.scale_factor == Some(scale_factor),
            r.input_size_limit is None,
            r.time_factor_percent == 100,
    {
        ProcessorCapabilities {
            name,
            scale_factor: Some(scale_factor),
            input_size_limit: None,
            time_factor_percent: 100,
        }
    }

    /// The same capabilities with an input size limit.
    pub fn with_input_limit(self, max_width: u32, max_height: u32) -> (r: Self)
        ensures
            r == (ProcessorCapabilities { input_size_limit: Some((max_width, max_height)), ..self }),
    {
        ProcessorCapabilities { input_size_limit: Some((max_width, max_height)), ..self }
    }

    /// The same capabilities with a time factor (in percent of the baseline).
    pub fn with_time_factor(self, factor_percent: u32) -> (r: Self)
        ensures
            r == (ProcessorCapabilities { time_factor_percent: factor_percent, ..self }),
    {
        ProcessorCapabilities { time_factor_percent: factor_percent, ..self }
    }

    /// Whether this processor upscales.
    pub fn is_upscaler(&self) -> (r: bool)
        ensures
            r == self.scale_factor is Some,
    {
        self.scale_factor.is_some()
    }

    /// Whether an input of the given size is within the limit.
    pub fn supports_size(&self, width: u32, height: u32) -> (r: bool)
        ensures
            r == match self.input_size_limit {
                Some((w, h)) => width <= w && height <= h,
                None => true,
            },
    {
        match self.input_size_limit {
            Some((max_w, max_h)) => width <= max_w && height <= max_h,
            None => true,
        }
    }
}

/// AI image processing (deblurring, upscaling), implemented by the infrastructure.
pub trait AIProcessor {
    /// Processes an image through the model.
    fn process(&self, image: &RawImage) -> Result<RawImage, AIError>;

    /// Whether the model is downloaded, validated and loaded.
    fn is_ready(&self) -> bool;

    /// What this processor can do.
    fn capabilities(&self) -> ProcessorCapabilities;
}

/// Errors that video decoding reports.
#[derive(Debug, Clone, PartialEq)]
pub enum VideoError {
    /// A failure described by its message.
    Other(String),
}

/// Frame-by-frame video decoding, implemented by the infrastructure.
/// Positions are in microseconds from the start of the video.
pub trait VideoDecoder {
    /// Opens a video file and returns its properties; the position goes to the start.
    fn open(&mut self, path: &str) -> Result<VideoMetadata, VideoError>;

    /// Decodes the next frame; `None` at the end of the stream.
    fn decode_frame(&mut self) -> Result<Option<RawImage>, VideoError>;

    /// Moves to a position, in microseconds.
    fn seek(&mut self, position_us: u64) -> Result<(), VideoError>;

    /// The current position, in microseconds.
    fn position(&self) -> u64;

    /// Returns to the start of the video.
    fn reset(&mut self) -> Result<(), VideoError>;
}

/// Errors that can occur during metadata operations.
#[derive(Debug, Clone, PartialEq)]
pub enum MetadataError {
    ReadFailed(String),
    WriteFailed(String),
    UnsupportedFormat,
    CorruptedMetadata(String),
    FieldNotFound(String),
    IoError(String),
}

impl MetadataError {
    /// The text shown for this error.
    pub open spec fn spec_message(&self) -> Seq<char> {
        match self {
            MetadataError::ReadFailed(m) => "Failed to read metadata: "@ + m@,
            MetadataError::WriteFailed(m) => "Failed to write metadata: "@ + m@,
            MetadataError::UnsupportedFormat => "Format does not support metadata"@,
            MetadataError::CorruptedMetadata(m) => "Corrupted metadata: "@ + m@,
            MetadataError::FieldNotFound(f) => "Metadata field not found: "@ + f@,
            MetadataError::IoError(m) => "I/O error: "@ + m@,
        }
    }

    /// Describes the error for the user.
    pub fn message(&self) -> (r: String)
        ensures
            r@ == self.spec_message(),
    {
        match self {
            MetadataError::ReadFailed(m) => concat2("Failed to read metadata: ", m.as_str()),
            MetadataError::WriteFailed(m) => concat2("Failed to write metadata: ", m.as_str()),
            MetadataError::UnsupportedFormat => "Format does not support metadata".to_string(),
            MetadataError::CorruptedMetadata(m) => concat2("Corrupted metadata: ", m.as_str()),
            MetadataError::FieldNotFound(f) => concat2("Metadata field not found: ", f.as_str()),
            MetadataError::IoError(m) => concat2("I/O error: ", m.as_str()),
        }
    }
}

/// XMP (Dublin Core) metadata.
#[derive(Debug, Clone, PartialEq)]
pub struct XmpData {
    pub title: Option<String>,
    pub creator: Option<String>,
    pub description: Option<String>,
    pub keywords: Vec<String>,
    pub copyright: Option<String>,
    /// Rating from 1 to 5 stars; 0 means unrated.
    pub rating: Option<u8>,
}

impl XmpData {
    /// Empty metadata.
    pub fn new() -> (r: Self)
        ensures
            r.spec_is_empty(),
    {
        XmpData {
            title: None,
            creator: None,
            description: None,
            keywords: Vec::new(),
            copyright: None,
            rating: None,
        }
    }

    /// Whether no field is set.
    pub open spec fn spec_is_empty(&self) -> bool {
        &&& self.title is None
        &&& self.creator is None
        &&& self.description is None
        &&& self.keywords@.len() == 0
        &&& self.copyright is None
        &&& self.rating is None
    }

    /// Returns `true` if no field is set.
    pub fn is_empty(&self) -> (r: bool)
        ensures
            r == self.spec_is_empty(),
    {
        self.title.is_none() && self.creator.is_none() && self.description.is_none()
            && self.keywords.len() == 0 && self.copyright.is_none() && self.rating.is_none()
    }
}

impl Default for XmpData {
    /// Empty metadata.
    fn default() -> (r: Self)
        ensures
            r.spec_is_empty(),
    {
        XmpData::new()
    }
}

/// Metadata fields that can be stripped or edited.
#[derive(Debug, Clone, Copy, PartialEq, Eq, Hash, Structural)]
pub enum MetadataField {
    Gps,
    Software,
    ModifyDate,
    AllExif,
    AllXmp,
    IccProfile,
    All,
}

impl MetadataField {
    /// The human-readable name of a field.
    pub open spec fn spec_name(&self) -> Seq<char> {
        match self {
            MetadataField::Gps => "GPS"@,
            MetadataField::Software => "Software"@,
            MetadataField::ModifyDate => "Modify Date"@,
            MetadataField::AllExif => "All EXIF"@,
            MetadataField::AllXmp => "All XMP"@,
            MetadataField::IccProfile => "ICC Profile"@,
            MetadataField::All => "All Metadata"@,
        }
    }

    /// Returns the human-readable name of this field.
    pub fn name(&self) -> (r: &'static str)
        ensures
            r@ == self.spec_name(),
    {
        match self {
            MetadataField::Gps => "GPS",
            MetadataField::Software => "Software",
            MetadataField::ModifyDate => "Modify Date",
            MetadataField::AllExif => "All EXIF",
            MetadataField::AllXmp => "All XMP",
            MetadataField::IccProfile => "ICC Profile",
            MetadataField::All => "All Metadata",
        }
    }
}

} // verus!
