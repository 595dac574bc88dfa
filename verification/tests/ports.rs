use iced_lens::media::{
    diagnostic_media_type, log_media_failed, log_media_loaded, log_media_loading_started,
    DiagnosticMediaType, Dimensions, MediaType,
};
use iced_lens::ports::{
    AIError, AIProcessor, LoadedMedia, MediaError, MetadataError, MetadataField,
    ProcessorCapabilities, RawImage, VideoDecoder, VideoError, VideoMetadata, XmpData,
};

#[test]
fn ai_error_display() {
    let err = AIError::ModelNotReady;
    assert_eq!(err.message(), "AI model is not ready");

    let err = AIError::ProcessingFailed("out of memory".to_string());
    assert!(err.message().contains("out of memory"));

    let err = AIError::InputTooLarge {
        max: (1024, 1024),
        actual: (2048, 2048),
    };
    let display = err.message();
    assert!(display.contains("2048x2048"));
    assert!(display.contains("1024x1024"));
}

#[test]
fn processor_capabilities_basic() {
    let caps = ProcessorCapabilities::new("Test Deblur");
    assert_eq!(caps.name, "Test Deblur");
    assert!(caps.scale_factor.is_none());
    assert!(!caps.is_upscaler());
    assert!(caps.supports_size(10000, 10000));
}

#[test]
fn processor_capabilities_upscaler() {
    let caps = ProcessorCapabilities::upscaler("Real-ESRGAN x4", 4)
        .with_input_limit(1024, 1024)
        .with_time_factor(200);

    assert_eq!(caps.name, "Real-ESRGAN x4");
    assert_eq!(caps.scale_factor, Some(4));
    assert!(caps.is_upscaler());
    assert!(caps.supports_size(512, 512));
    assert!(!caps.supports_size(2048, 2048));
    assert_eq!(caps.time_factor_percent, 200);
}

struct MockProcessor {
    ready: bool,
}

impl AIProcessor for MockProcessor {
    fn process(&self, image: &RawImage) -> Result<RawImage, AIError> {
        if !self.ready {
            return Err(AIError::ModelNotReady);
        }
        Ok(RawImage::new(image.width, image.height, image.rgba.clone()))
    }

    fn is_ready(&self) -> bool {
        self.ready
    }

    fn capabilities(&self) -> ProcessorCapabilities {
        ProcessorCapabilities::new("Mock Processor")
    }
}

#[test]
fn mock_processor_ready() {
    let processor = MockProcessor { ready: true };
    assert!(processor.is_ready());

    let image = RawImage::new(10, 10, vec![0u8; 400]);
    let result = processor.process(&image);
    assert!(result.is_ok());
}

#[test]
fn mock_processor_not_ready() {
    let processor = MockProcessor { ready: false };
    assert!(!processor.is_ready());

    let image = RawImage::new(10, 10, vec![0u8; 400]);
    let result = processor.process(&image);
    assert!(matches!(result, Err(AIError::ModelNotReady)));
}

#[test]
fn media_error_display() {
    let err = MediaError::UnsupportedFormat;
    assert_eq!(err.message(), "Unsupported media format");

    let err = MediaError::InvalidDimensions {
        width: 0,
        height: 100,
    };
    assert!(err.message().contains("0x100"));

    let err = MediaError::CorruptedData("bad header".to_string());
    assert!(err.message().contains("bad header"));

    let err = MediaError::IoError("permission denied".to_string());
    assert!(err.message().contains("permission denied"));

    let err = MediaError::NotFound;
    assert!(err.message().contains("not found"));
}

#[test]
fn loaded_media_type_detection() {
    let raw = RawImage::new(10, 10, vec![0u8; 400]);
    let media = LoadedMedia::Image(raw);
    assert_eq!(media.media_type(), MediaType::Image);
    assert!(media.is_image());
    assert!(!media.is_video());
    assert!(!media.is_animated());

    let meta = VideoMetadata::new(1920, 1080, 120_000, 30_000, true);
    let media = LoadedMedia::Video(meta);
    assert_eq!(media.media_type(), MediaType::Video);
    assert!(!media.is_image());
    assert!(media.is_video());
    assert!(!media.is_animated());

    let media = LoadedMedia::AnimatedImage {
        frames: vec![],
        durations_ms: vec![],
    };
    assert_eq!(media.media_type(), MediaType::Video);
    assert!(!media.is_image());
    assert!(!media.is_video());
    assert!(media.is_animated());
}

#[test]
fn metadata_error_display() {
    let err = MetadataError::ReadFailed("invalid format".to_string());
    assert!(err.message().contains("invalid format"));

    let err = MetadataError::FieldNotFound("GPS".to_string());
    assert!(err.message().contains("GPS"));

    let err = MetadataError::UnsupportedFormat;
    assert!(err.message().contains("does not support"));
}

#[test]
fn xmp_data_empty() {
    let xmp = XmpData::new();
    assert!(xmp.is_empty());

    let mut xmp = XmpData::new();
    xmp.title = Some("Test".to_string());
    assert!(!xmp.is_empty());
}

#[test]
fn xmp_data_keywords() {
    let mut xmp = XmpData::new();
    xmp.keywords = vec!["nature".to_string(), "landscape".to_string()];
    assert!(!xmp.is_empty());
}

#[test]
fn metadata_field_names() {
    assert_eq!(MetadataField::Gps.name(), "GPS");
    assert_eq!(MetadataField::AllExif.name(), "All EXIF");
    assert_eq!(MetadataField::All.name(), "All Metadata");
}

struct MockDecoder {
    position_us: u64,
    is_open: bool,
}

impl MockDecoder {
    fn new() -> Self {
        Self {
            position_us: 0,
            is_open: false,
        }
    }
}

impl VideoDecoder for MockDecoder {
    fn open(&mut self, _path: &str) -> Result<VideoMetadata, VideoError> {
        self.is_open = true;
        self.position_us = 0;
        Ok(VideoMetadata::new(1920, 1080, 10_000, 30_000, true))
    }

    fn decode_frame(&mut self) -> Result<Option<RawImage>, VideoError> {
        if !self.is_open {
            return Err(VideoError::Other("Not open".to_string()));
        }
        self.position_us += 33_000;
        if self.position_us >= 10_000_000 {
            return Ok(None);
        }
        Ok(Some(RawImage::new(2, 2, vec![0u8; 16])))
    }

    fn seek(&mut self, position_us: u64) -> Result<(), VideoError> {
        if !self.is_open {
            return Err(VideoError::Other("Not open".to_string()));
        }
        self.position_us = position_us;
        Ok(())
    }

    fn position(&self) -> u64 {
        self.position_us
    }

    fn reset(&mut self) -> Result<(), VideoError> {
        self.seek(0)
    }
}

#[test]
fn mock_decoder_lifecycle() {
    let mut decoder = MockDecoder::new();

    let meta = decoder.open("test.mp4").unwrap();
    assert_eq!(meta.width, 1920);
    assert_eq!(meta.height, 1080);
    assert_eq!(decoder.position(), 0);

    let frame = decoder.decode_frame().unwrap().unwrap();
    assert_eq!(frame.width, 2);
    assert!(decoder.position() > 0);

    decoder.seek(5_000_000).unwrap();
    assert_eq!(decoder.position(), 5_000_000);

    decoder.reset().unwrap();
    assert_eq!(decoder.position(), 0);
}

#[test]
fn log_media_failed_captures_error_reason() {
    let event = log_media_failed("Config error: test config error", None);
    assert!(event.reason.contains("test config error"));
    assert_eq!(event.media_type, DiagnosticMediaType::Unknown);
}

#[test]
fn log_media_loading_started_detects_video_extension() {
    let event = log_media_loading_started("/tmp/test_video.mp4", 0);
    assert_eq!(event.media_type, DiagnosticMediaType::Video);
}

#[test]
fn log_media_loading_started_detects_image_extension() {
    let event = log_media_loading_started("/tmp/test_image.jpg", 0);
    assert_eq!(event.media_type, DiagnosticMediaType::Image);
}

#[test]
fn log_media_loaded_captures_image_dimensions() {
    let event = log_media_loaded(MediaType::Image, 100, 100, 0);
    assert_eq!(event.dimensions, Some(Dimensions { width: 100, height: 100 }));
}

#[test]
fn log_media_loaded_captures_video_dimensions() {
    let event = log_media_loaded(MediaType::Video, 1920, 1080, 0);
    assert_eq!(event.media_type, DiagnosticMediaType::Video);
    assert_eq!(event.dimensions, Some(Dimensions { width: 1920, height: 1080 }));
}

// Scenarios beyond the original suite.

#[test]
fn video_without_size_records_no_dimensions() {
    let event = log_media_loaded(MediaType::Video, 0, 1080, 42);
    assert_eq!(event.dimensions, None);
    assert_eq!(event.file_size_bytes, 42);
}

#[test]
fn diagnostic_media_type_ignores_case_and_treats_unknown_extensions_as_images() {
    assert_eq!(diagnostic_media_type(Some("/v/CLIP.MOV")), DiagnosticMediaType::Video);
    assert_eq!(diagnostic_media_type(Some("/v/file.xyz")), DiagnosticMediaType::Image);
    assert_eq!(diagnostic_media_type(Some("/v/noext")), DiagnosticMediaType::Unknown);
    assert_eq!(diagnostic_media_type(None), DiagnosticMediaType::Unknown);
}

#[test]
fn error_messages_are_exact() {
    assert_eq!(
        MediaError::InvalidDimensions { width: 0, height: 100 }.message(),
        "Invalid dimensions: 0x100"
    );
    assert_eq!(
        AIError::InputTooLarge { max: (1024, 768), actual: (4000, 3000) }.message(),
        "Input too large: 4000x3000 (max: 1024x768)"
    );
    assert_eq!(
        MetadataError::WriteFailed("disk full".to_string()).message(),
        "Failed to write metadata: disk full"
    );
}

#[test]
fn xmp_default_is_empty() {
    assert!(XmpData::default().is_empty());
    let mut xmp = XmpData::default();
    xmp.rating = Some(0);
    assert!(!xmp.is_empty());
}
