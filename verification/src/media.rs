//! The kinds of media, the codecs, the states of a job and the errors that
//! the rest of the crate speaks of.

use vstd::prelude::*;
use crate::text::{chars_of, lowercase, same_chars, to_lowercase};

verus! {

/// What a file holds, which decides how it is planned and encoded.
#[derive(PartialEq, Eq, Structural, Debug, Clone, Copy)]
pub enum MediaType {
    Video,
    Audio,
    Image,
    /// Known, and never encoded: planning one fails.
    AnimatedImage,
}

/// Where an encode job stands. `Finished` and `Failed` are terminal.
#[derive(PartialEq, Eq, Structural, Debug, Clone, Copy)]
pub enum EncodingStatus {
    Finished,
    Failed,
    InProgress,
    NotStarted,
}

/// The container and the pair of codecs that a video is encoded with.
#[derive(PartialEq, Eq, Structural, Debug, Clone, Copy)]
pub enum VideoCodec {
    /// VP9 and Opus in a WebM container.
    WEBM,
    /// HEVC and AAC in an MP4 container.
    HEVC,
}

/// The system that the encoder runs on, as far as its arguments depend on it.
#[derive(PartialEq, Eq, Structural, Debug, Clone, Copy)]
pub enum Platform {
    Unix,
    Windows,
}

/// Why a file could not be probed, planned or encoded.
#[derive(PartialEq, Eq, Structural, Debug, Clone, Copy)]
pub enum EncodeError {
    /// The probe tool is missing or ended with a failure status.
    ProbeToolUnavailable,
    /// No length was found, neither in the fields nor in the fallback.
    MissingDuration,
    /// A video without a width and a height.
    MissingResolution,
    /// An animated image.
    UnsupportedMedia,
    /// The encoder could not be started.
    EncodeLaunchFailed,
    /// A path without a file name, or with no extension where one is needed.
    MalformedPath,
}

impl EncodingStatus {
    /// A terminal status is never left again.
    pub open spec fn is_terminal(self) -> bool {
        self == EncodingStatus::Finished || self == EncodingStatus::Failed
    }

    /// Whether the job has reached `Finished` or `Failed`.
    pub fn terminal(&self) -> (out: bool)
        ensures
            out == self.is_terminal(),
    {
        match self {
            EncodingStatus::Finished => true,
            EncodingStatus::Failed => true,
            EncodingStatus::InProgress => false,
            EncodingStatus::NotStarted => false,
        }
    }
}

/// Whether `chars` spells the literal `word`.
pub fn spells(chars: &[char], word: &str) -> (out: bool)
    ensures
        out == (chars@ == word@),
{
    let letters = chars_of(word);
    same_chars(chars, letters.as_slice())
}

impl VideoCodec {
    /// The codec that `name` names, whatever the case of its ASCII letters.
    pub open spec fn named(name: Seq<char>) -> Option<VideoCodec> {
        if lowercase(name) == "webm"@ {
            Some(VideoCodec::WEBM)
        } else if lowercase(name) == "hevc"@ {
            Some(VideoCodec::HEVC)
        } else {
            None
        }
    }

    /// The codec chosen by `string`: `webm` or `hevc`, in any case.
    pub fn from_string(string: &str) -> (out: Option<Self>)
        ensures
            out == Self::named(string@),
    {
        let letters = chars_of(string);
        let lowered = to_lowercase(letters.as_slice());
        if spells(lowered.as_slice(), "webm") {
            Some(VideoCodec::WEBM)
        } else if spells(lowered.as_slice(), "hevc") {
            Some(VideoCodec::HEVC)
        } else {
            None
        }
    }

    /// The codec for an optional choice: the one that it names, and `WEBM`
    /// where there is no choice or it names none.
    pub fn from_choice(choice: Option<&str>) -> (out: Self)
        ensures
            out == match choice {
                Some(name) => match Self::named(name@) {
                    Some(codec) => codec,
                    None => VideoCodec::WEBM,
                },
                None => VideoCodec::WEBM,
            },
    {
        match choice {
            Some(name) => match Self::from_string(name) {
                Some(codec) => codec,
                None => VideoCodec::WEBM,
            },
            None => VideoCodec::WEBM,
        }
    }

    /// The codec's name in capitals.
    pub open spec fn label(self) -> Seq<char> {
        match self {
            VideoCodec::WEBM => "WEBM"@,
            VideoCodec::HEVC => "HEVC"@,
        }
    }

    /// The name by which the encoder knows the picture codec.
    pub open spec fn picture_encoder(self) -> Seq<char> {
        match self {
            VideoCodec::WEBM => "libvpx-vp9"@,
            VideoCodec::HEVC => "libx265"@,
        }
    }

    /// The name by which the encoder knows the sound codec.
    pub open spec fn sound_encoder(self) -> Seq<char> {
        match self {
            VideoCodec::WEBM => "libopus"@,
            VideoCodec::HEVC => "aac"@,
        }
    }

    /// The container's name, which is also the extension of the output.
    pub open spec fn container(self) -> Seq<char> {
        match self {
            VideoCodec::WEBM => "webm"@,
            VideoCodec::HEVC => "mp4"@,
        }
    }

    /// Computes `label`.
    pub fn to_text(&self) -> (out: String)
        ensures
            out@ == self.label(),
    {
        match self {
            VideoCodec::WEBM => "WEBM".to_owned(),
            VideoCodec::HEVC => "HEVC".to_owned(),
        }
    }

    /// Computes `picture_encoder`.
    pub fn video_encoder_name(&self) -> (out: &'static str)
        ensures
            out@ == self.picture_encoder(),
    {
        match self {
            VideoCodec::WEBM => "libvpx-vp9",
            VideoCodec::HEVC => "libx265",
        }
    }

    /// Computes `sound_encoder`.
    pub fn audio_encoder_name(&self) -> (out: &'static str)
        ensures
            out@ == self.sound_encoder(),
    {
        match self {
            VideoCodec::WEBM => "libopus",
            VideoCodec::HEVC => "aac",
        }
    }

    /// Computes `container`.
    pub fn container_name(&self) -> (out: &'static str)
        ensures
            out@ == self.container(),
    {
        match self {
            VideoCodec::WEBM => "webm",
            VideoCodec::HEVC => "mp4",
        }
    }
}

impl Platform {
    /// The destination that swallows what is written to it.
    pub open spec fn discard_sink(self) -> Seq<char> {
        match self {
            Platform::Unix => "/dev/null"@,
            Platform::Windows => "NUL"@,
        }
    }

    /// Computes `discard_sink`.
    pub fn null_sink(&self) -> (out: &'static str)
        ensures
            out@ == self.discard_sink(),
    {
        match self {
            Platform::Unix => "/dev/null",
            Platform::Windows => "NUL",
        }
    }

    /// Whether `c` parts the components of a path.
    pub open spec fn separates(self, c: char) -> bool {
        c == '/' || (self == Platform::Windows && c == '\\')
    }

    /// Computes `separates`.
    pub fn is_separator(&self, c: char) -> (out: bool)
        ensures
            out == self.separates(c),
    {
        c == '/' || (matches!(self, Platform::Windows) && c == '\\')
    }
}

impl EncodeError {
    /// The sentence that tells a user of this error.
    pub open spec fn sentence(self) -> Seq<char> {
        match self {
            EncodeError::ProbeToolUnavailable =>
                "Failed to run ffprobe. Make sure ffprobe is installed and file exists"@,
            EncodeError::MissingDuration => "can't find duration of media anywhere"@,
            EncodeError::MissingResolution => "Missing resolution"@,
            EncodeError::UnsupportedMedia => "animated images are not supported"@,
            EncodeError::EncodeLaunchFailed => "failed to start the encoder"@,
            EncodeError::MalformedPath => "missing or bad path"@,
        }
    }

    /// Computes `sentence`.
    pub fn message(&self) -> (out: String)
        ensures
            out@ == self.sentence(),
    {
        match self {
            EncodeError::ProbeToolUnavailable =>
                "Failed to run ffprobe. Make sure ffprobe is installed and file exists".to_owned(),
            EncodeError::MissingDuration => "can't find duration of media anywhere".to_owned(),
            EncodeError::MissingResolution => "Missing resolution".to_owned(),
            EncodeError::UnsupportedMedia => "animated images are not supported".to_owned(),
            EncodeError::EncodeLaunchFailed => "failed to start the encoder".to_owned(),
            EncodeError::MalformedPath => "missing or bad path".to_owned(),
        }
    }
}

/// Whether `ext`, in lower case, is the extension of a video.
pub open spec fn is_video_extension(ext: Seq<char>) -> bool {
    ext == "webm"@ || ext == "mp4"@ || ext == "mov"@ || ext == "avi"@ || ext == "mpeg"@ || ext
        == "mkv"@
}

/// Whether `ext`, in lower case, is the extension of an audio file.
pub open spec fn is_audio_extension(ext: Seq<char>) -> bool {
    ext == "mp3"@ || ext == "wav"@ || ext == "ogg"@ || ext == "opus"@ || ext == "flac"@ || ext
        == "aiff"@
}

/// Whether `ext`, in lower case, is the extension of a still image.
pub open spec fn is_image_extension(ext: Seq<char>) -> bool {
    ext == "jpg"@ || ext == "png"@ || ext == "webp"@ || ext == "exr"@ || ext == "jpeg"@ || ext
        == "tiff"@ || ext == "bpm"@ || ext == "raw"@ || ext == "tif"@
}

/// The kind of media that a file with the extension `ext` holds, whatever the
/// case of its ASCII letters; `None` for an extension that is not recognized.
pub open spec fn media_type_of(ext: Seq<char>) -> Option<MediaType> {
    let lowered = lowercase(ext);
    if is_video_extension(lowered) {
        Some(MediaType::Video)
    } else if is_audio_extension(lowered) {
        Some(MediaType::Audio)
    } else if is_image_extension(lowered) {
        Some(MediaType::Image)
    } else if lowered == "gif"@ {
        Some(MediaType::AnimatedImage)
    } else {
        None
    }
}

impl MediaType {
    /// Computes `media_type_of`.
    pub fn from_extension(ext: &[char]) -> (out: Option<MediaType>)
        ensures
            out == media_type_of(ext@),
    {
        let lowered = to_lowercase(ext);
        let e = lowered.as_slice();
        if spells(e, "webm") || spells(e, "mp4") || spells(e, "mov") || spells(e, "avi") || spells(
            e,
            "mpeg",
        ) || spells(e, "mkv") {
            Some(MediaType::Video)
        } else if spells(e, "mp3") || spells(e, "wav") || spells(e, "ogg") || spells(e, "opus")
            || spells(e, "flac") || spells(e, "aiff") {
            Some(MediaType::Audio)
        } else if spells(e, "jpg") || spells(e, "png") || spells(e, "webp") || spells(e, "exr")
            || spells(e, "jpeg") || spells(e, "tiff") || spells(e, "bpm") || spells(e, "raw")
            || spells(e, "tif") {
            Some(MediaType::Image)
        } else if spells(e, "gif") {
            Some(MediaType::AnimatedImage)
        } else {
            None
        }
    }
}

} // verus!
