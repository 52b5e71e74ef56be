use minify::media::{
    spells, EncodeError, EncodingStatus, MediaType, Platform, VideoCodec,
};
use minify::text::chars_of;

fn kind(ext: &str) -> Option<MediaType> {
    MediaType::from_extension(&chars_of(ext))
}

#[test]
fn codec_is_chosen_by_name_in_any_case() {
    assert_eq!(VideoCodec::from_string("webm"), Some(VideoCodec::WEBM));
    assert_eq!(VideoCodec::from_string("WEBM"), Some(VideoCodec::WEBM));
    assert_eq!(VideoCodec::from_string("WebM"), Some(VideoCodec::WEBM));
    assert_eq!(VideoCodec::from_string("hevc"), Some(VideoCodec::HEVC));
    assert_eq!(VideoCodec::from_string("HEVC"), Some(VideoCodec::HEVC));
    assert_eq!(VideoCodec::from_string("hEvC"), Some(VideoCodec::HEVC));
}

#[test]
fn other_names_choose_no_codec() {
    assert_eq!(VideoCodec::from_string(""), None);
    assert_eq!(VideoCodec::from_string("vp9"), None);
    assert_eq!(VideoCodec::from_string("h265"), None);
    assert_eq!(VideoCodec::from_string("webm "), None);
    assert_eq!(VideoCodec::from_string(" hevc"), None);
    assert_eq!(VideoCodec::from_string("web"), None);
    assert_eq!(VideoCodec::from_string("webmm"), None);
}

#[test]
fn codec_defaults_to_webm() {
    assert_eq!(VideoCodec::from_choice(None), VideoCodec::WEBM);
    assert_eq!(VideoCodec::from_choice(Some("nonsense")), VideoCodec::WEBM);
    assert_eq!(VideoCodec::from_choice(Some("HEVC")), VideoCodec::HEVC);
    assert_eq!(VideoCodec::from_choice(Some("webm")), VideoCodec::WEBM);
}

#[test]
fn codec_names_its_encoders_and_container() {
    assert_eq!(VideoCodec::WEBM.to_text(), "WEBM");
    assert_eq!(VideoCodec::HEVC.to_text(), "HEVC");
    assert_eq!(VideoCodec::WEBM.video_encoder_name(), "libvpx-vp9");
    assert_eq!(VideoCodec::WEBM.audio_encoder_name(), "libopus");
    assert_eq!(VideoCodec::WEBM.container_name(), "webm");
    assert_eq!(VideoCodec::HEVC.video_encoder_name(), "libx265");
    assert_eq!(VideoCodec::HEVC.audio_encoder_name(), "aac");
    assert_eq!(VideoCodec::HEVC.container_name(), "mp4");
}

#[test]
fn terminal_statuses_are_finished_and_failed() {
    assert!(EncodingStatus::Finished.terminal());
    assert!(EncodingStatus::Failed.terminal());
    assert!(!EncodingStatus::InProgress.terminal());
    assert!(!EncodingStatus::NotStarted.terminal());
}

#[test]
fn platform_names_its_sink_and_separators() {
    assert_eq!(Platform::Unix.null_sink(), "/dev/null");
    assert_eq!(Platform::Windows.null_sink(), "NUL");
    assert!(Platform::Unix.is_separator('/'));
    assert!(!Platform::Unix.is_separator('\\'));
    assert!(Platform::Windows.is_separator('/'));
    assert!(Platform::Windows.is_separator('\\'));
    assert!(!Platform::Windows.is_separator(':'));
}

#[test]
fn every_error_has_its_sentence() {
    assert_eq!(
        EncodeError::ProbeToolUnavailable.message(),
        "Failed to run ffprobe. Make sure ffprobe is installed and file exists"
    );
    assert_eq!(EncodeError::MissingDuration.message(), "can't find duration of media anywhere");
    assert_eq!(EncodeError::MissingResolution.message(), "Missing resolution");
    assert_eq!(EncodeError::UnsupportedMedia.message(), "animated images are not supported");
    assert_eq!(EncodeError::EncodeLaunchFailed.message(), "failed to start the encoder");
    assert_eq!(EncodeError::MalformedPath.message(), "missing or bad path");
}

#[test]
fn video_extensions_are_recognized() {
    for ext in ["webm", "mp4", "mov", "avi", "mpeg", "mkv", "MKV", "Mp4"] {
        assert_eq!(kind(ext), Some(MediaType::Video));
    }
}

#[test]
fn audio_extensions_are_recognized() {
    for ext in ["mp3", "wav", "ogg", "opus", "flac", "aiff", "FLAC", "Ogg"] {
        assert_eq!(kind(ext), Some(MediaType::Audio));
    }
}

#[test]
fn image_extensions_are_recognized() {
    for ext in ["jpg", "png", "webp", "exr", "jpeg", "tiff", "bpm", "raw", "tif", "PNG", "JpEg"] {
        assert_eq!(kind(ext), Some(MediaType::Image));
    }
}

#[test]
fn gif_is_an_animated_image() {
    assert_eq!(kind("gif"), Some(MediaType::AnimatedImage));
    assert_eq!(kind("GIF"), Some(MediaType::AnimatedImage));
}

#[test]
fn other_extensions_are_not_recognized() {
    for ext in ["", "txt", "mp", "mp44", "bmp", "m4a", "web m", "\u{212A}mkv"] {
        assert_eq!(kind(ext), None);
    }
}

#[test]
fn a_literal_is_spelled_exactly() {
    assert!(spells(&chars_of("end"), "end"));
    assert!(!spells(&chars_of("End"), "end"));
    assert!(!spells(&chars_of("en"), "end"));
    assert!(spells(&[], ""));
}
