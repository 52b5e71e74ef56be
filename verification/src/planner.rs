//! Bitrate allocation: from a size budget and the length of the media to the
//! rate of each stream and the height of the picture.
//!
//! Sizes are in kilobits, rates in kilobits per second, and times in
//! microseconds, all whole numbers; a rate is rounded down.

use vstd::prelude::*;

verus! {

/// The lowest audio rate that is asked of the encoder.
pub const MIN_OPUS_BITRATE: u64 = 50;

/// The highest audio rate that is asked of the encoder.
pub const MAX_OPUS_BITRATE: u64 = 256;

/// The part of the budget, in thousandths, that an audio-only file spends.
pub const AUDIO_ONLY_SHARE: u64 = 850;

/// The part of the budget, in thousandths, that goes to the sound of a video.
pub const VIDEO_AUDIO_SHARE: u64 = 180;

/// The part of the budget, in thousandths, that goes to the picture of a video.
pub const VIDEO_PICTURE_SHARE: u64 = 780;

/// The kilobits in a megabyte.
pub const KBITS_PER_MEGABYTE: u32 = 8000;

/// The rates and the height planned for one video.
#[derive(PartialEq, Eq, Structural, Debug, Clone, Copy)]
pub struct VideoPlan {
    /// The rate of the picture. It is negative where the budget does not even
    /// pay for the lowest audio rate.
    pub video_kbps: i64,
    /// The rate of the sound.
    pub audio_kbps: u64,
    /// The height of the encoded picture, in pixels.
    pub output_height: u16,
}

/// What was planned for one file.
#[derive(PartialEq, Eq, Structural, Debug, Clone, Copy)]
pub enum BitratePlan {
    /// Two streams and a height.
    Video(VideoPlan),
    /// One audio stream, at this rate.
    Audio { audio_kbps: u64 },
    /// A still image is encoded at a fixed quality: no rate is planned.
    Still,
}

/// The size budget in kilobits for a target of `megabytes`.
pub open spec fn size_budget(megabytes: nat) -> nat {
    megabytes * 8000
}

/// Computes `size_budget`.
pub fn target_size_kbits(megabytes: u16) -> (out: u32)
    ensures
        out == size_budget(megabytes as nat),
{
    let wide: u32 = megabytes as u32;
    wide * KBITS_PER_MEGABYTE
}

/// The rate that spends `permille` thousandths of `target_kbits` evenly over
/// `duration_us`, rounded down.
pub open spec fn budget_rate(target_kbits: nat, permille: nat, duration_us: nat) -> nat {
    (target_kbits * permille * 1000) / duration_us
}

/// The highest audio rate for a source of the given rate: never above the
/// source's own, where that is known.
pub open spec fn audio_ceiling(source_kbps: Option<u32>) -> nat {
    match source_kbps {
        Some(rate) => if rate < MAX_OPUS_BITRATE {
            rate as nat
        } else {
            MAX_OPUS_BITRATE as nat
        },
        None => MAX_OPUS_BITRATE as nat,
    }
}

/// `raw` raised to the lowest audio rate and then cut to `ceiling`: the
/// ceiling wins where it lies below the lowest rate.
pub open spec fn clamp_audio(raw: nat, ceiling: nat) -> nat {
    let raised = if raw < MIN_OPUS_BITRATE {
        MIN_OPUS_BITRATE as nat
    } else {
        raw
    };
    if raised > ceiling {
        ceiling
    } else {
        raised
    }
}

/// The rate planned for an audio-only file.
pub open spec fn audio_only_rate(target_kbits: nat, duration_us: nat, source_kbps: Option<u32>) -> nat {
    clamp_audio(budget_rate(target_kbits, AUDIO_ONLY_SHARE as nat, duration_us), audio_ceiling(source_kbps))
}

/// The audio rate of a video before it is clamped.
pub open spec fn raw_audio_rate(target_kbits: nat, duration_us: nat) -> nat {
    budget_rate(target_kbits, VIDEO_AUDIO_SHARE as nat, duration_us)
}

/// The picture rate of a video before the audio's clamping is made up for.
pub open spec fn raw_video_rate(target_kbits: nat, duration_us: nat) -> nat {
    budget_rate(target_kbits, VIDEO_PICTURE_SHARE as nat, duration_us)
}

/// The audio rate planned for a video.
pub open spec fn video_audio_rate(target_kbits: nat, duration_us: nat) -> nat {
    clamp_audio(raw_audio_rate(target_kbits, duration_us), MAX_OPUS_BITRATE as nat)
}

/// The picture rate planned for a video: what clamping took from the audio is
/// added, what it gave is taken away.
pub open spec fn video_picture_rate(target_kbits: nat, duration_us: nat) -> int {
    raw_video_rate(target_kbits, duration_us) + raw_audio_rate(target_kbits, duration_us)
        - video_audio_rate(target_kbits, duration_us)
}

/// The height at which a picture of height `height` and length `duration_us`
/// is encoded: the first of 1080, 720 and 480 that the picture reaches and
/// whose length threshold is passed, else the height it has.
pub open spec fn downscaled_height(height: nat, duration_us: nat) -> nat {
    if height >= 1080 && duration_us > 150_000_000 {
        1080
    } else if height >= 720 && duration_us > 600_000_000 {
        720
    } else if height >= 480 && duration_us > 900_000_000 {
        480
    } else {
        height
    }
}

/// What is planned for a video.
pub open spec fn video_plan(target_kbits: nat, duration_us: nat, height: nat) -> VideoPlan {
    VideoPlan {
        video_kbps: video_picture_rate(target_kbits, duration_us) as i64,
        audio_kbps: video_audio_rate(target_kbits, duration_us) as u64,
        output_height: downscaled_height(height, duration_us) as u16,
    }
}

/// A budget rate fits in 52 bits and the product under it does not overflow.
proof fn lemma_budget_rate_bound(target_kbits: u32, permille: u64, duration_us: u64)
    requires
        permille <= 1000,
        duration_us > 0,
    ensures
        target_kbits * permille * 1000 <= 0xffff_ffff * 1_000_000,
        budget_rate(target_kbits as nat, permille as nat, duration_us as nat)
            <= target_kbits * permille * 1000,
{
    assert(target_kbits * permille * 1000 <= 0xffff_ffff * 1_000_000) by (nonlinear_arith)
        requires
            target_kbits <= 0xffff_ffff,
            permille <= 1000,
    ;
    let product: int = target_kbits * permille * 1000;
    assert(product / (duration_us as int) <= product) by (nonlinear_arith)
        requires
            product >= 0,
            duration_us >= 1,
    ;
}

/// Computes `budget_rate`.
fn rate_for(target_kbits: u32, permille: u64, duration_us: u64) -> (out: u64)
    requires
        permille <= 1000,
        duration_us > 0,
    ensures
        out == budget_rate(target_kbits as nat, permille as nat, duration_us as nat),
        out <= 0xffff_ffff * 1_000_000,
{
    proof {
        lemma_budget_rate_bound(target_kbits, permille, duration_us);
        assert(target_kbits * permille <= 0xffff_ffff * 1000) by (nonlinear_arith)
            requires
                target_kbits <= 0xffff_ffff,
                permille <= 1000,
        ;
    }
    let wide: u64 = target_kbits as u64;
    wide * permille * 1000 / duration_us
}

/// Computes `clamp_audio`.
fn clamp_rate(raw: u64, ceiling: u64) -> (out: u64)
    ensures
        out == clamp_audio(raw as nat, ceiling as nat),
{
    let raised: u64 = if raw < MIN_OPUS_BITRATE {
        MIN_OPUS_BITRATE
    } else {
        raw
    };
    if raised > ceiling {
        ceiling
    } else {
        raised
    }
}

/// Computes `audio_ceiling`.
pub fn ceiling_for(source_kbps: Option<u32>) -> (out: u64)
    ensures
        out == audio_ceiling(source_kbps),
        out <= MAX_OPUS_BITRATE,
{
    match source_kbps {
        Some(rate) => if (rate as u64) < MAX_OPUS_BITRATE {
            rate as u64
        } else {
            MAX_OPUS_BITRATE
        },
        None => MAX_OPUS_BITRATE,
    }
}

/// Plans an audio-only file: 85 hundredths of the budget spread over the
/// length, kept between the lowest rate and the ceiling. The rate never
/// passes the ceiling, and reaches the lowest rate wherever the ceiling does.
pub fn plan_audio(target_kbits: u32, duration_us: u64, source_kbps: Option<u32>) -> (out: u64)
    requires
        duration_us > 0,
    ensures
        out == audio_only_rate(target_kbits as nat, duration_us as nat, source_kbps),
        out <= audio_ceiling(source_kbps) <= MAX_OPUS_BITRATE,
        audio_ceiling(source_kbps) >= MIN_OPUS_BITRATE ==> out >= MIN_OPUS_BITRATE,
{
    let raw = rate_for(target_kbits, AUDIO_ONLY_SHARE, duration_us);
    clamp_rate(raw, ceiling_for(source_kbps))
}

/// Computes `downscaled_height`.
pub fn output_height(height: u16, duration_us: u64) -> (out: u16)
    ensures
        out == downscaled_height(height as nat, duration_us as nat),
        out <= height,
{
    if height >= 1080 && duration_us > 150_000_000 {
        1080
    } else if height >= 720 && duration_us > 600_000_000 {
        720
    } else if height >= 480 && duration_us > 900_000_000 {
        480
    } else {
        height
    }
}

/// Plans a video: 18 hundredths of the budget for the sound and 78 for the
/// picture; the sound is kept between the lowest and the highest audio rate
/// and the picture takes the difference, so that the two rates together are
/// what they were before.
pub fn plan_video(target_kbits: u32, duration_us: u64, height: u16) -> (out: VideoPlan)
    requires
        duration_us > 0,
    ensures
        out == video_plan(target_kbits as nat, duration_us as nat, height as nat),
        out.video_kbps == video_picture_rate(target_kbits as nat, duration_us as nat),
        out.audio_kbps == video_audio_rate(target_kbits as nat, duration_us as nat),
        out.output_height == downscaled_height(height as nat, duration_us as nat),
        MIN_OPUS_BITRATE <= out.audio_kbps <= MAX_OPUS_BITRATE,
        out.video_kbps + out.audio_kbps == raw_video_rate(target_kbits as nat, duration_us as nat)
            + raw_audio_rate(target_kbits as nat, duration_us as nat),
        out.output_height <= height,
{
    let raw_audio = rate_for(target_kbits, VIDEO_AUDIO_SHARE, duration_us);
    let raw_video = rate_for(target_kbits, VIDEO_PICTURE_SHARE, duration_us);
    let audio = clamp_rate(raw_audio, MAX_OPUS_BITRATE);
    let video: i64 = (raw_video as i64) + (raw_audio as i64) - (audio as i64);
    VideoPlan { video_kbps: video, audio_kbps: audio, output_height: output_height(height, duration_us) }
}

/// A rate as the encoder is given it: between 0 and 65535.
pub open spec fn encoder_rate(kbps: int) -> nat {
    if kbps < 0 {
        0
    } else if kbps > 65535 {
        65535
    } else {
        kbps as nat
    }
}

/// The floor of the encoder's rate corridor: half the picture rate.
pub open spec fn corridor_floor(video_kbps: int) -> nat {
    encoder_rate(video_kbps / 2)
}

/// The top of the encoder's rate corridor: 145 hundredths of the picture rate.
pub open spec fn corridor_top(video_kbps: int) -> nat {
    encoder_rate(video_kbps * 145 / 100)
}

/// Computes `encoder_rate`.
pub fn rate_argument(kbps: i64) -> (out: u16)
    ensures
        out == encoder_rate(kbps as int),
{
    if kbps < 0 {
        0
    } else if kbps > 65535 {
        65535
    } else {
        kbps as u16
    }
}

/// Computes `corridor_floor`.
pub fn minrate(video_kbps: i64) -> (out: u16)
    ensures
        out == corridor_floor(video_kbps as int),
{
    if video_kbps < 0 {
        0
    } else {
        rate_argument(video_kbps / 2)
    }
}

/// Computes `corridor_top`.
pub fn maxrate(video_kbps: i64) -> (out: u16)
    ensures
        out == corridor_top(video_kbps as int),
{
    if video_kbps < 0 {
        0
    } else if video_kbps > 65535 {
        65535
    } else {
        rate_argument(video_kbps * 145 / 100)
    }
}

/// The audio rate of an audio-only plan lies between the lowest rate and the
/// ceiling, for every budget and every length above zero, wherever the
/// ceiling is no lower than the lowest rate.
pub proof fn lemma_audio_rate_in_bounds(target_kbits: nat, duration_us: nat, source_kbps: Option<u32>)
    requires
        duration_us > 0,
        audio_ceiling(source_kbps) >= MIN_OPUS_BITRATE,
    ensures
        MIN_OPUS_BITRATE <= audio_only_rate(target_kbits, duration_us, source_kbps)
            <= audio_ceiling(source_kbps) <= MAX_OPUS_BITRATE,
        source_kbps is None ==> audio_ceiling(source_kbps) == MAX_OPUS_BITRATE,
{
}

/// Clamping the sound of a video changes neither what the two streams spend
/// together, nor lets the sound leave its bounds.
pub proof fn lemma_video_budget_preserved(target_kbits: nat, duration_us: nat)
    ensures
        video_picture_rate(target_kbits, duration_us) + video_audio_rate(target_kbits, duration_us)
            == raw_video_rate(target_kbits, duration_us) + raw_audio_rate(target_kbits, duration_us),
        MIN_OPUS_BITRATE <= video_audio_rate(target_kbits, duration_us) <= MAX_OPUS_BITRATE,
{
}

/// A longer video is never encoded higher than a shorter one of the same
/// height, and none is encoded higher than it is.
pub proof fn lemma_downscale_monotonic(height: nat, shorter_us: nat, longer_us: nat)
    requires
        shorter_us <= longer_us,
    ensures
        downscaled_height(height, longer_us) <= downscaled_height(height, shorter_us),
        downscaled_height(height, shorter_us) <= height,
{
}

} // verus!
