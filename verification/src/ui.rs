//! What a progress indicator shows of a job: its message, its position and
//! whether it is done. Painting is left to the caller.

use vstd::prelude::*;
use vstd::string::StringExecFns;
use crate::encoder::{FFMPEGCommand, JobView};
use crate::media::{EncodingStatus, MediaType};

verus! {

/// The microseconds in one step of an indicator: a hundredth of a second.
pub const MICROS_PER_STEP: u64 = 10_000;

/// What the indicator of one job shows at one poll.
#[derive(Debug)]
pub struct Frame {
    pub message: String,
    pub position: u64,
    /// Whether the job is in a terminal status: the indicator is finished and
    /// the job is polled no more.
    pub done: bool,
}

/// A `Frame` as plain values.
pub struct FrameView {
    pub message: Seq<char>,
    pub position: u64,
    pub done: bool,
}

impl View for Frame {
    type V = FrameView;

    open spec fn view(&self) -> FrameView {
        FrameView { message: self.message@, position: self.position, done: self.done }
    }
}

/// The length of the indicator of a job, in hundredths of a second. Every job
/// has an indicator: that of a job without a length has the length 0.
pub open spec fn indicator_length(job: JobView) -> Option<u64> {
    match job.duration {
        Some(micros) => Some(micros / MICROS_PER_STEP),
        None => Some(0),
    }
}

/// The message of a job's indicator.
pub open spec fn message_of(job: JobView) -> Seq<char> {
    match job.status {
        EncodingStatus::NotStarted => "Starting : "@,
        EncodingStatus::InProgress => if job.media_type == MediaType::Video {
            if job.passed_pass_1 {
                job.file_name + ": Encoding (Pass 2/2)"@
            } else {
                job.file_name + ": Encoding (Pass 1/2)"@
            }
        } else {
            job.file_name + ": Encoding"@
        },
        EncodingStatus::Failed => job.file_name + ": Failed!"@,
        EncodingStatus::Finished => job.file_name + ": Finished!"@,
    }
}

/// The position of a job's indicator: the progress in hundredths of a second
/// while the job is not over; then the whole seconds of its length.
pub open spec fn position_of(job: JobView) -> u64 {
    if job.status.is_terminal() {
        match job.duration {
            Some(micros) => micros / 1_000_000,
            None => 0,
        }
    } else {
        job.progressed_time / MICROS_PER_STEP
    }
}

/// What the indicator of `job` shows.
pub open spec fn frame_of(job: JobView) -> FrameView {
    FrameView {
        message: message_of(job),
        position: position_of(job),
        done: job.status.is_terminal(),
    }
}

/// The file name of `job` followed by `tail`.
fn named(job: &FFMPEGCommand, tail: &str) -> (out: String)
    ensures
        out@ == job@.file_name + tail@,
{
    let mut out = job.file_name.clone();
    out.append(tail);
    out
}

/// Computes `indicator_length`: there is a length for every job.
pub fn bar_length(job: &FFMPEGCommand) -> (out: Option<u64>)
    ensures
        out == indicator_length(job@),
        out is Some,
{
    match job.duration {
        Some(micros) => Some(micros / MICROS_PER_STEP),
        None => Some(0),
    }
}

/// What the indicator of `job` shows now.
pub fn frame(job: &FFMPEGCommand) -> (out: Frame)
    ensures
        out@ == frame_of(job@),
{
    let message = match job.status {
        EncodingStatus::NotStarted => "Starting : ".to_owned(),
        EncodingStatus::InProgress => match job.media_type {
            MediaType::Video => if job.passed_pass_1 {
                named(job, ": Encoding (Pass 2/2)")
            } else {
                named(job, ": Encoding (Pass 1/2)")
            },
            _ => named(job, ": Encoding"),
        },
        EncodingStatus::Failed => named(job, ": Failed!"),
        EncodingStatus::Finished => named(job, ": Finished!"),
    };
    let done = job.status.terminal();
    let position: u64 = if done {
        match job.duration {
            Some(micros) => micros / 1_000_000,
            None => 0,
        }
    } else {
        job.progressed_time / MICROS_PER_STEP
    };
    Frame { message, position, done }
}

/// Every job has one indicator, whatever its kind and status: it has a
/// length, a message that is not empty, and it is done exactly when the job is
/// in a terminal status. Until then its position is the job's progress.
pub proof fn lemma_every_job_has_an_indicator(job: JobView)
    ensures
        indicator_length(job) is Some,
        job.duration is None ==> indicator_length(job) == Some(0u64),
        frame_of(job).done == job.status.is_terminal(),
        !job.status.is_terminal() ==> frame_of(job).position == job.progressed_time
            / MICROS_PER_STEP,
{
}

} // verus!
