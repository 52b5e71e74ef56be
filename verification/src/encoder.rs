//! Encode jobs: what the encoder is asked to do for one file, in one pass or
//! in two, and the job that follows the work.

use vstd::prelude::*;
use crate::media::{EncodeError, EncodingStatus, MediaType, Platform, VideoCodec};
use crate::number::{decimal_text, push_decimal};
use crate::paths::{
    file_name,
    file_name_of,
    has_file_name,
    prefix_and_replace_extension,
    prefixed_with_extension,
    replace_extension,
    strip_extension,
    with_extension,
    without_extension,
};
use crate::planner::{
    audio_only_rate,
    corridor_floor,
    corridor_top,
    encoder_rate,
    maxrate,
    minrate,
    plan_audio,
    plan_video,
    rate_argument,
    video_plan,
    BitratePlan,
    VideoPlan,
};
use crate::probe::MediaData;
use crate::text::{chars_of, push_word, push_words, string_of, texts};

verus! {

/// One run of an outside program: its name and its arguments.
#[derive(Debug)]
pub struct Invocation {
    pub program: String,
    pub args: Vec<String>,
}

/// An `Invocation` as plain text.
pub struct InvocationView {
    pub program: Seq<char>,
    pub args: Seq<Seq<char>>,
}

impl View for Invocation {
    type V = InvocationView;

    open spec fn view(&self) -> InvocationView {
        InvocationView { program: self.program@, args: texts(self.args@) }
    }
}

/// The work on one file: what the encoder is asked, and how far it has come.
#[derive(Debug)]
pub struct FFMPEGCommand {
    /// The name of the input file, without its directories.
    pub file_name: String,
    /// The encoder's first run and, for a video, its second.
    pub command: (Invocation, Option<Invocation>),
    /// The size budget in kilobits.
    pub target_size: u32,
    /// The length of the media in microseconds; a still image has none.
    pub duration: Option<u64>,
    pub media_type: MediaType,
    pub status: EncodingStatus,
    /// Whether the second pass of a video has been started.
    pub passed_pass_1: bool,
    /// How much of the media the running pass has encoded, in microseconds.
    pub progressed_time: u64,
    /// Whether a position that could not be read has ended the updates of
    /// `progressed_time`.
    pub time_stalled: bool,
    pub plan: BitratePlan,
    /// Where the encoded file is written.
    pub output_path: String,
}

/// An `FFMPEGCommand` as plain values.
pub struct JobView {
    pub file_name: Seq<char>,
    pub first_run: InvocationView,
    pub second_run: Option<InvocationView>,
    pub target_size: u32,
    pub duration: Option<u64>,
    pub media_type: MediaType,
    pub status: EncodingStatus,
    pub passed_pass_1: bool,
    pub progressed_time: u64,
    pub time_stalled: bool,
    pub plan: BitratePlan,
    pub output_path: Seq<char>,
}

impl JobView {
    /// What holds of every job from the day it is planned: only a video has
    /// a second run and a second pass, and it is running from the start; the
    /// plan is that of the job's kind; all but a still image have a length
    /// above zero; and a job that has not started has made no progress.
    pub open spec fn well_formed(self) -> bool {
        &&& self.media_type != MediaType::AnimatedImage
        &&& (self.media_type == MediaType::Video) == (self.second_run is Some)
        &&& self.passed_pass_1 ==> self.media_type == MediaType::Video
        &&& self.media_type == MediaType::Video ==> self.status != EncodingStatus::NotStarted
        &&& match self.plan {
            BitratePlan::Video(_) => self.media_type == MediaType::Video,
            BitratePlan::Audio { .. } => self.media_type == MediaType::Audio,
            BitratePlan::Still => self.media_type == MediaType::Image,
        }
        &&& match self.duration {
            Some(micros) => micros > 0 && self.media_type != MediaType::Image,
            None => self.media_type == MediaType::Image,
        }
        &&& self.status == EncodingStatus::NotStarted ==> self.progressed_time == 0
    }
}

impl View for FFMPEGCommand {
    type V = JobView;

    open spec fn view(&self) -> JobView {
        JobView {
            file_name: self.file_name@,
            first_run: self.command.0@,
            second_run: match self.command.1 {
                Some(run) => Some(run@),
                None => None,
            },
            target_size: self.target_size,
            duration: self.duration,
            media_type: self.media_type,
            status: self.status,
            passed_pass_1: self.passed_pass_1,
            progressed_time: self.progressed_time,
            time_stalled: self.time_stalled,
            plan: self.plan,
            output_path: self.output_path@,
        }
    }
}

/// The arguments that make the encoder report its progress on its standard
/// output, every 50 milliseconds.
pub open spec fn progress_flags() -> Seq<Seq<char>> {
    seq!["-progress"@, "-"@, "-nostats"@, "-stats_period"@, "50ms"@]
}

/// A rate as an argument: the number, then `k`.
pub open spec fn rate_text(kbps: nat) -> Seq<char> {
    decimal_text(kbps).push('k')
}

/// The scale filter that keeps the aspect and sets the height.
pub open spec fn scale_text(height: nat) -> Seq<char> {
    "scale=-1:"@ + decimal_text(height)
}

/// The arguments of the one pass that encodes an audio file.
pub open spec fn audio_arguments(input: Seq<char>, output: Seq<char>, audio_kbps: nat) -> Seq<
    Seq<char>,
> {
    progress_flags() + seq![
        "-y"@,
        "-i"@,
        input,
        "-c:a"@,
        "libopus"@,
        "-b:a"@,
        rate_text(audio_kbps),
        output,
    ]
}

/// The arguments of the one pass that encodes a still image: a fixed quality
/// and compression level, whatever the budget.
pub open spec fn image_arguments(input: Seq<char>, output: Seq<char>) -> Seq<Seq<char>> {
    progress_flags() + seq![
        "-y"@,
        "-i"@,
        input,
        "-qscale"@,
        "90"@,
        "-compression_level"@,
        "6"@,
        output,
    ]
}

/// The input, the codecs and the scale of a video pass.
pub open spec fn source_arguments(input: Seq<char>, codec: VideoCodec, height: nat) -> Seq<
    Seq<char>,
> {
    seq![
        "-y"@,
        "-i"@,
        input,
        "-vcodec"@,
        codec.picture_encoder(),
        "-acodec"@,
        codec.sound_encoder(),
        "-vf"@,
        scale_text(height),
    ]
}

/// The quality settings of a video pass.
pub open spec fn quality_arguments() -> Seq<Seq<char>> {
    seq![
        "-deadline"@,
        "good"@,
        "-quality"@,
        "good"@,
        "-cpu-used"@,
        "0"@,
        "-undershoot-pct"@,
        "0"@,
        "-overshoot-pct"@,
        "0"@,
    ]
}

/// The rates of a video pass: the picture's rate with its corridor, and the
/// sound's rate.
pub open spec fn rate_arguments(plan: VideoPlan) -> Seq<Seq<char>> {
    seq![
        "-b:v"@,
        rate_text(encoder_rate(plan.video_kbps as int)),
        "-minrate"@,
        rate_text(corridor_floor(plan.video_kbps as int)),
        "-maxrate"@,
        rate_text(corridor_top(plan.video_kbps as int)),
        "-b:a"@,
        rate_text(encoder_rate(plan.audio_kbps as int)),
    ]
}

/// The threading and key-frame settings of a video pass.
pub open spec fn tuning_arguments() -> Seq<Seq<char>> {
    seq![
        "-row-mt"@,
        "1"@,
        "-tile-rows"@,
        "2"@,
        "-tile-columns"@,
        "4"@,
        "-threads"@,
        "16"@,
        "-auto-alt-ref"@,
        "6"@,
        "-qmax"@,
        "60"@,
        "-qmin"@,
        "1"@,
        "-g"@,
        "240"@,
    ]
}

/// What the two passes of a video have in common.
pub open spec fn shared_pass_arguments(
    input: Seq<char>,
    codec: VideoCodec,
    plan: VideoPlan,
    pass_log: Seq<char>,
) -> Seq<Seq<char>> {
    source_arguments(input, codec, plan.output_height as nat) + quality_arguments()
        + rate_arguments(plan) + tuning_arguments() + seq!["-passlogfile"@, pass_log]
}

/// The arguments of the first pass of a video: it writes its statistics to
/// the pass log and its output to the sink that discards it.
pub open spec fn first_pass_arguments(
    platform: Platform,
    input: Seq<char>,
    codec: VideoCodec,
    plan: VideoPlan,
    pass_log: Seq<char>,
) -> Seq<Seq<char>> {
    progress_flags() + shared_pass_arguments(input, codec, plan, pass_log) + seq![
        "-pass"@,
        "1"@,
        "-f"@,
        codec.container(),
        platform.discard_sink(),
    ]
}

/// The arguments of the second pass of a video: it reads the pass log and
/// writes the output.
pub open spec fn second_pass_arguments(
    input: Seq<char>,
    codec: VideoCodec,
    plan: VideoPlan,
    pass_log: Seq<char>,
    output: Seq<char>,
) -> Seq<Seq<char>> {
    progress_flags() + shared_pass_arguments(input, codec, plan, pass_log) + seq![
        "-pass"@,
        "2"@,
        output,
    ]
}

/// The encoder run with the given arguments.
pub open spec fn encoder_run(args: Seq<Seq<char>>) -> InvocationView {
    InvocationView { program: "ffmpeg"@, args }
}

/// The job that encodes the audio file at `path`.
pub open spec fn audio_job(platform: Platform, path: Seq<char>, size: u32, media: MediaData) -> Result<
    JobView,
    EncodeError,
> {
    if media.duration == 0 {
        Err(EncodeError::MissingDuration)
    } else if !has_file_name(platform, path) {
        Err(EncodeError::MalformedPath)
    } else {
        let rate = audio_only_rate(size as nat, media.duration as nat, media.old_kbit_rate);
        let output = with_extension(platform, path, "ogg"@);
        Ok(
            JobView {
                file_name: file_name_of(platform, path),
                first_run: encoder_run(audio_arguments(path, output, rate)),
                second_run: None,
                target_size: size,
                duration: Some(media.duration),
                media_type: MediaType::Audio,
                status: EncodingStatus::NotStarted,
                passed_pass_1: false,
                progressed_time: 0,
                time_stalled: false,
                plan: BitratePlan::Audio { audio_kbps: rate as u64 },
                output_path: output,
            },
        )
    }
}

/// The job that encodes the still image at `path`.
pub open spec fn image_job(platform: Platform, path: Seq<char>, size: u32) -> Result<
    JobView,
    EncodeError,
> {
    if !has_file_name(platform, path) {
        Err(EncodeError::MalformedPath)
    } else {
        let output = with_extension(platform, path, "webp"@);
        Ok(
            JobView {
                file_name: file_name_of(platform, path),
                first_run: encoder_run(image_arguments(path, output)),
                second_run: None,
                target_size: size,
                duration: None,
                media_type: MediaType::Image,
                status: EncodingStatus::NotStarted,
                passed_pass_1: false,
                progressed_time: 0,
                time_stalled: false,
                plan: BitratePlan::Still,
                output_path: output,
            },
        )
    }
}

/// The job that encodes the video at `path` in two passes. Its output stands
/// beside the input, named `minified_`, the input's stem, and the container's
/// extension; its pass log is named by the input's path without extension.
pub open spec fn video_job(
    platform: Platform,
    path: Seq<char>,
    size: u32,
    codec: VideoCodec,
    media: MediaData,
) -> Result<JobView, EncodeError> {
    if media.duration == 0 {
        Err(EncodeError::MissingDuration)
    } else if media.resolution is None {
        Err(EncodeError::MissingResolution)
    } else if !has_file_name(platform, path) {
        Err(EncodeError::MalformedPath)
    } else {
        let plan = video_plan(
            size as nat,
            media.duration as nat,
            media.resolution->0.height as nat,
        );
        let output = prefixed_with_extension(platform, path, "minified_"@, codec.container());
        let pass_log = without_extension(platform, path);
        Ok(
            JobView {
                file_name: file_name_of(platform, path),
                first_run: encoder_run(first_pass_arguments(platform, path, codec, plan, pass_log)),
                second_run: Some(
                    encoder_run(second_pass_arguments(path, codec, plan, pass_log, output)),
                ),
                target_size: size,
                duration: Some(media.duration),
                media_type: MediaType::Video,
                status: EncodingStatus::InProgress,
                passed_pass_1: false,
                progressed_time: 0,
                time_stalled: false,
                plan: BitratePlan::Video(plan),
                output_path: output,
            },
        )
    }
}

/// The job for a file of the given kind. Audio and video need what the probe
/// found; an image needs nothing of it; an animated image has no job.
pub open spec fn planned_job(
    media_type: MediaType,
    platform: Platform,
    path: Seq<char>,
    size: u32,
    codec: VideoCodec,
    media: Option<MediaData>,
) -> Result<JobView, EncodeError> {
    match media_type {
        MediaType::Video => match media {
            Some(found) => video_job(platform, path, size, codec, found),
            None => Err(EncodeError::MissingDuration),
        },
        MediaType::Audio => match media {
            Some(found) => audio_job(platform, path, size, found),
            None => Err(EncodeError::MissingDuration),
        },
        MediaType::Image => image_job(platform, path, size),
        MediaType::AnimatedImage => Err(EncodeError::UnsupportedMedia),
    }
}

/// Every job that is planned is well formed, has made no progress and is in
/// no terminal status.
pub proof fn lemma_planned_job_is_well_formed(
    media_type: MediaType,
    platform: Platform,
    path: Seq<char>,
    size: u32,
    codec: VideoCodec,
    media: Option<MediaData>,
)
    ensures
        planned_job(media_type, platform, path, size, codec, media) matches Ok(job) ==> {
            &&& job.well_formed()
            &&& job.media_type == media_type
            &&& job.target_size == size
            &&& job.progressed_time == 0
            &&& !job.passed_pass_1
            &&& !job.time_stalled
            &&& !job.status.is_terminal()
            &&& job.file_name == file_name_of(platform, path)
        },
{
}

/// Whether `out` is the job, or the error, that `planned` describes.
pub open spec fn is_planned(out: Result<FFMPEGCommand, EncodeError>, planned: Result<
    JobView,
    EncodeError,
>) -> bool {
    match out {
        Ok(job) => planned == Ok::<JobView, EncodeError>(job@),
        Err(e) => planned == Err::<JobView, EncodeError>(e),
    }
}

/// Computes `rate_text`.
fn rate_word(kbps: u64) -> (out: String)
    ensures
        out@ == rate_text(kbps as nat),
{
    let mut letters: Vec<char> = Vec::new();
    push_decimal(&mut letters, kbps);
    letters.push('k');
    string_of(letters.as_slice())
}

/// Computes `scale_text`.
fn scale_word(height: u16) -> (out: String)
    ensures
        out@ == scale_text(height as nat),
{
    let mut letters = chars_of("scale=-1:");
    push_decimal(&mut letters, height as u64);
    string_of(letters.as_slice())
}

/// A list of arguments that starts with `progress_flags`.
fn progress_words() -> (out: Vec<String>)
    ensures
        texts(out@) == progress_flags(),
{
    let mut out: Vec<String> = Vec::new();
    assert(texts(out@) == Seq::<Seq<char>>::empty());
    push_word(&mut out, "-progress");
    push_word(&mut out, "-");
    push_word(&mut out, "-nostats");
    push_word(&mut out, "-stats_period");
    push_word(&mut out, "50ms");
    out
}

/// Appends `source_arguments` to `out`.
fn push_source(out: &mut Vec<String>, input: &str, codec: VideoCodec, height: u16)
    ensures
        texts(final(out)@) == texts(old(out)@) + source_arguments(input@, codec, height as nat),
{
    let scale = scale_word(height);
    push_word(out, "-y");
    push_word(out, "-i");
    push_word(out, input);
    push_word(out, "-vcodec");
    push_word(out, codec.video_encoder_name());
    push_word(out, "-acodec");
    push_word(out, codec.audio_encoder_name());
    push_word(out, "-vf");
    push_word(out, scale.as_str());
    assert(texts(out@) =~= texts(old(out)@) + source_arguments(input@, codec, height as nat));
}

/// Appends `quality_arguments` to `out`.
fn push_quality(out: &mut Vec<String>)
    ensures
        texts(final(out)@) == texts(old(out)@) + quality_arguments(),
{
    push_word(out, "-deadline");
    push_word(out, "good");
    push_word(out, "-quality");
    push_word(out, "good");
    push_word(out, "-cpu-used");
    push_word(out, "0");
    push_word(out, "-undershoot-pct");
    push_word(out, "0");
    push_word(out, "-overshoot-pct");
    push_word(out, "0");
    assert(texts(out@) =~= texts(old(out)@) + quality_arguments());
}

/// Appends `rate_arguments` to `out`.
fn push_rates(out: &mut Vec<String>, plan: VideoPlan)
    ensures
        texts(final(out)@) == texts(old(out)@) + rate_arguments(plan),
{
    let picture = rate_word(rate_argument(plan.video_kbps) as u64);
    let floor = rate_word(minrate(plan.video_kbps) as u64);
    let top = rate_word(maxrate(plan.video_kbps) as u64);
    let sound = rate_word(
        if plan.audio_kbps > 65535 {
            65535
        } else {
            plan.audio_kbps
        },
    );
    push_word(out, "-b:v");
    push_word(out, picture.as_str());
    push_word(out, "-minrate");
    push_word(out, floor.as_str());
    push_word(out, "-maxrate");
    push_word(out, top.as_str());
    push_word(out, "-b:a");
    push_word(out, sound.as_str());
    assert(texts(out@) =~= texts(old(out)@) + rate_arguments(plan));
}

/// Appends `tuning_arguments` to `out`.
fn push_tuning(out: &mut Vec<String>)
    ensures
        texts(final(out)@) == texts(old(out)@) + tuning_arguments(),
{
    push_word(out, "-row-mt");
    push_word(out, "1");
    push_word(out, "-tile-rows");
    push_word(out, "2");
    push_word(out, "-tile-columns");
    push_word(out, "4");
    push_word(out, "-threads");
    push_word(out, "16");
    push_word(out, "-auto-alt-ref");
    push_word(out, "6");
    push_word(out, "-qmax");
    push_word(out, "60");
    push_word(out, "-qmin");
    push_word(out, "1");
    push_word(out, "-g");
    push_word(out, "240");
    assert(texts(out@) =~= texts(old(out)@) + tuning_arguments());
}

/// The progress flags followed by `shared_pass_arguments`.
fn shared_pass_words(input: &str, codec: VideoCodec, plan: VideoPlan, pass_log: &str) -> (out: Vec<
    String,
>)
    ensures
        texts(out@) == progress_flags() + shared_pass_arguments(input@, codec, plan, pass_log@),
{
    let mut out = progress_words();
    push_source(&mut out, input, codec, plan.output_height);
    push_quality(&mut out);
    push_rates(&mut out, plan);
    push_tuning(&mut out);
    push_word(&mut out, "-passlogfile");
    push_word(&mut out, pass_log);
    assert(texts(out@) =~= progress_flags() + shared_pass_arguments(
        input@,
        codec,
        plan,
        pass_log@,
    ));
    out
}

/// The encoder with the arguments `args`.
fn ffmpeg(args: Vec<String>) -> (out: Invocation)
    ensures
        out@ == encoder_run(texts(args@)),
{
    Invocation { program: "ffmpeg".to_owned(), args }
}

impl FFMPEGCommand {
    /// The pass that the job is in: 1, or 2 once the second pass of a video
    /// has been started.
    pub open spec fn pass(self) -> nat {
        if self.passed_pass_1 {
            2
        } else {
            1
        }
    }

    /// Computes `pass`.
    pub fn current_pass(&self) -> (out: u8)
        ensures
            out == self.pass(),
    {
        if self.passed_pass_1 {
            2
        } else {
            1
        }
    }

    /// Plans the job for the file at `path`, of the kind `media_type`, within
    /// the budget `size` in kilobits. `media` is what the probe found; audio
    /// and video fail with `MissingDuration` without it.
    pub fn new(
        media_type: MediaType,
        platform: Platform,
        path: &str,
        size: u32,
        codec: VideoCodec,
        media: Option<MediaData>,
    ) -> (out: Result<Self, EncodeError>)
        ensures
            is_planned(out, planned_job(media_type, platform, path@, size, codec, media)),
    {
        match media_type {
            MediaType::Video => match media {
                Some(found) => Self::create_video(platform, path, size, codec, found),
                None => Err(EncodeError::MissingDuration),
            },
            MediaType::Audio => match media {
                Some(found) => Self::create_audio(platform, path, size, found),
                None => Err(EncodeError::MissingDuration),
            },
            MediaType::Image => Self::create_image(platform, path, size),
            MediaType::AnimatedImage => Self::create_animated_image(path),
        }
    }

    /// Plans an audio job: one pass to Opus in an Ogg file beside the input,
    /// at the planned rate. It fails with `MissingDuration` for a length of
    /// zero, and with `MalformedPath` for a path without a file name.
    pub fn create_audio(platform: Platform, path: &str, size: u32, media: MediaData) -> (out: Result<
        Self,
        EncodeError,
    >)
        ensures
            is_planned(out, audio_job(platform, path@, size, media)),
    {
        if media.duration == 0 {
            return Err(EncodeError::MissingDuration);
        }
        let letters = chars_of(path);
        let name = match file_name(platform, letters.as_slice()) {
            Some(name) => name,
            None => {
                return Err(EncodeError::MalformedPath);
            },
        };
        let rate = plan_audio(size, media.duration, media.old_kbit_rate);
        let ogg = chars_of("ogg");
        let output = string_of(replace_extension(platform, letters.as_slice(), ogg.as_slice()).as_slice());
        let rate_arg = rate_word(rate);
        let mut args = progress_words();
        push_word(&mut args, "-y");
        push_word(&mut args, "-i");
        push_word(&mut args, path);
        push_word(&mut args, "-c:a");
        push_word(&mut args, "libopus");
        push_word(&mut args, "-b:a");
        push_word(&mut args, rate_arg.as_str());
        push_word(&mut args, output.as_str());
        assert(texts(args@) =~= audio_arguments(path@, output@, rate as nat));
        Ok(
            FFMPEGCommand {
                file_name: string_of(name.as_slice()),
                command: (ffmpeg(args), None),
                target_size: size,
                duration: Some(media.duration),
                media_type: MediaType::Audio,
                status: EncodingStatus::NotStarted,
                passed_pass_1: false,
                progressed_time: 0,
                time_stalled: false,
                plan: BitratePlan::Audio { audio_kbps: rate },
                output_path: output,
            },
        )
    }

    /// Plans a video job: two passes that differ only in their number and
    /// their output. It fails with `MissingDuration` for a length of zero,
    /// with `MissingResolution` where the picture's size is unknown, and with
    /// `MalformedPath` for a path without a file name, in this order.
    pub fn create_video(
        platform: Platform,
        path: &str,
        size: u32,
        codec: VideoCodec,
        media: MediaData,
    ) -> (out: Result<Self, EncodeError>)
        ensures
            is_planned(out, video_job(platform, path@, size, codec, media)),
    {
        if media.duration == 0 {
            return Err(EncodeError::MissingDuration);
        }
        let resolution = match media.resolution {
            Some(resolution) => resolution,
            None => {
                return Err(EncodeError::MissingResolution);
            },
        };
        let letters = chars_of(path);
        let name = match file_name(platform, letters.as_slice()) {
            Some(name) => name,
            None => {
                return Err(EncodeError::MalformedPath);
            },
        };
        let plan = plan_video(size, media.duration, resolution.height);
        let prefix = chars_of("minified_");
        let container = chars_of(codec.container_name());
        let output = string_of(
            prefix_and_replace_extension(
                platform,
                letters.as_slice(),
                prefix.as_slice(),
                container.as_slice(),
            ).as_slice(),
        );
        let pass_log = string_of(strip_extension(platform, letters.as_slice()).as_slice());
        let shared = shared_pass_words(path, codec, plan, pass_log.as_str());
        let mut first: Vec<String> = Vec::new();
        assert(texts(first@) == Seq::<Seq<char>>::empty());
        push_words(&mut first, &shared);
        push_word(&mut first, "-pass");
        push_word(&mut first, "1");
        push_word(&mut first, "-f");
        push_word(&mut first, codec.container_name());
        push_word(&mut first, platform.null_sink());
        assert(texts(first@) =~= first_pass_arguments(platform, path@, codec, plan, pass_log@));
        let mut second = shared;
        push_word(&mut second, "-pass");
        push_word(&mut second, "2");
        push_word(&mut second, output.as_str());
        assert(texts(second@) =~= second_pass_arguments(path@, codec, plan, pass_log@, output@));
        Ok(
            FFMPEGCommand {
                file_name: string_of(name.as_slice()),
                command: (ffmpeg(first), Some(ffmpeg(second))),
                target_size: size,
                duration: Some(media.duration),
                media_type: MediaType::Video,
                status: EncodingStatus::InProgress,
                passed_pass_1: false,
                progressed_time: 0,
                time_stalled: false,
                plan: BitratePlan::Video(plan),
                output_path: output,
            },
        )
    }

    /// Plans an image job: one pass to a WebP file beside the input. It fails
    /// with `MalformedPath` for a path without a file name.
    pub fn create_image(platform: Platform, path: &str, size: u32) -> (out: Result<
        Self,
        EncodeError,
    >)
        ensures
            is_planned(out, image_job(platform, path@, size)),
    {
        let letters = chars_of(path);
        let name = match file_name(platform, letters.as_slice()) {
            Some(name) => name,
            None => {
                return Err(EncodeError::MalformedPath);
            },
        };
        let webp = chars_of("webp");
        let output = string_of(replace_extension(platform, letters.as_slice(), webp.as_slice()).as_slice());
        let mut args = progress_words();
        push_word(&mut args, "-y");
        push_word(&mut args, "-i");
        push_word(&mut args, path);
        push_word(&mut args, "-qscale");
        push_word(&mut args, "90");
        push_word(&mut args, "-compression_level");
        push_word(&mut args, "6");
        push_word(&mut args, output.as_str());
        assert(texts(args@) =~= image_arguments(path@, output@));
        Ok(
            FFMPEGCommand {
                file_name: string_of(name.as_slice()),
                command: (ffmpeg(args), None),
                target_size: size,
                duration: None,
                media_type: MediaType::Image,
                status: EncodingStatus::NotStarted,
                passed_pass_1: false,
                progressed_time: 0,
                time_stalled: false,
                plan: BitratePlan::Still,
                output_path: output,
            },
        )
    }

    /// An animated image is not encoded: this always fails with
    /// `UnsupportedMedia`.
    pub fn create_animated_image(_path: &str) -> (out: Result<Self, EncodeError>)
        ensures
            out is Err,
            out->Err_0 == EncodeError::UnsupportedMedia,
    {
        Err(EncodeError::UnsupportedMedia)
    }
}

} // verus!
