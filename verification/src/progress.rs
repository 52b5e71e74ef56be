//! The progress stream: what a line of the encoder's report says, and how a
//! job moves on it.

use vstd::prelude::*;
use crate::encoder::{FFMPEGCommand, JobView};
use crate::media::{spells, EncodeError, EncodingStatus, MediaType};
use crate::text::{chars_of, find, find_text, find_word_end, slice_of, word_end};
use crate::timecode::{clock_micros, parse_clock};

verus! {

/// What a line says of the position of the encode.
#[derive(PartialEq, Eq, Structural, Debug, Clone, Copy)]
pub enum TimeToken {
    /// The line holds no `out_time=`.
    Absent,
    /// The line holds one, and what follows is no clock text.
    Unreadable,
    /// The position, in microseconds.
    At(u64),
}

/// What a line says of the state of the pass.
#[derive(PartialEq, Eq, Structural, Debug, Clone, Copy)]
pub enum ProgressToken {
    /// The line holds no `progress=`.
    Absent,
    /// `progress=end`: the pass is over.
    End,
    /// `progress=continue`: the pass goes on.
    Continue,
    /// `progress=` with any other word.
    Other,
}

/// What one line of the progress stream says.
#[derive(PartialEq, Eq, Structural, Debug, Clone, Copy)]
pub struct ProgressLine {
    pub time: TimeToken,
    pub progress: ProgressToken,
}

/// What the caller has to do after a line.
#[derive(PartialEq, Eq, Structural, Debug, Clone, Copy)]
pub enum Signal {
    /// Read the next line.
    Idle,
    /// The first pass of a video is over: start the second and read its
    /// stream.
    LaunchSecondPass,
    /// The job has reached a terminal status: stop reading.
    Done,
}

/// The word that follows the first `key` in `line`: it ends before the next
/// blank, or with the line.
pub open spec fn token_value(line: Seq<char>, key: Seq<char>) -> Option<Seq<char>> {
    match find(line, key) {
        Some(at) => Some(line.subrange(at + key.len(), word_end(line, at + key.len()))),
        None => None,
    }
}

/// The position that `line` reports.
pub open spec fn time_token(line: Seq<char>) -> TimeToken {
    match token_value(line, "out_time="@) {
        Some(word) => match clock_micros(word) {
            Some(at) => TimeToken::At(at as u64),
            None => TimeToken::Unreadable,
        },
        None => TimeToken::Absent,
    }
}

/// The state of the pass that `line` reports.
pub open spec fn progress_token(line: Seq<char>) -> ProgressToken {
    match token_value(line, "progress="@) {
        Some(word) => if word == "end"@ {
            ProgressToken::End
        } else if word == "continue"@ {
            ProgressToken::Continue
        } else {
            ProgressToken::Other
        },
        None => ProgressToken::Absent,
    }
}

/// What `line` says: its two tokens are looked for independently.
pub open spec fn read_line(line: Seq<char>) -> ProgressLine {
    ProgressLine { time: time_token(line), progress: progress_token(line) }
}

/// Computes `token_value`.
fn token(line: &[char], key: &str) -> (out: Option<Vec<char>>)
    ensures
        match out {
            Some(word) => token_value(line@, key@) == Some(word@),
            None => token_value(line@, key@) is None,
        },
{
    let key_letters = chars_of(key);
    match find_text(line, key_letters.as_slice()) {
        Some(at) => {
            let start: usize = at + key_letters.len();
            let end = find_word_end(line, start);
            Some(slice_of(line, start, end))
        },
        None => None,
    }
}

/// Reads one line of the progress stream.
pub fn parse_line(line: &str) -> (out: ProgressLine)
    ensures
        out == read_line(line@),
{
    let letters = chars_of(line);
    let time = match token(letters.as_slice(), "out_time=") {
        Some(word) => match parse_clock(word.as_slice()) {
            Some(at) => TimeToken::At(at),
            None => TimeToken::Unreadable,
        },
        None => TimeToken::Absent,
    };
    let progress = match token(letters.as_slice(), "progress=") {
        Some(word) => if spells(word.as_slice(), "end") {
            ProgressToken::End
        } else if spells(word.as_slice(), "continue") {
            ProgressToken::Continue
        } else {
            ProgressToken::Other
        },
        None => ProgressToken::Absent,
    };
    ProgressLine { time, progress }
}

/// The job after the position of a line is taken in. A position sets the
/// progress and shows that the job is running. One that cannot be read ends
/// these updates for the rest of the job.
pub open spec fn after_time(job: JobView, time: TimeToken) -> JobView {
    if job.time_stalled {
        job
    } else {
        match time {
            TimeToken::Absent => job,
            TimeToken::Unreadable => JobView { time_stalled: true, ..job },
            TimeToken::At(at) => JobView {
                progressed_time: at,
                status: EncodingStatus::InProgress,
                ..job
            },
        }
    }
}

/// Whether the end of the running pass only leads to the second pass: the
/// job is a video whose second pass has not been started.
pub open spec fn awaits_second_pass(job: JobView) -> bool {
    job.media_type == MediaType::Video && !job.passed_pass_1
}

/// The job after the state of the pass on a line is taken in. `continue`
/// shows that the job is running. `end` finishes the job, unless the second
/// pass of a video is still to come: then the job goes on running.
pub open spec fn after_progress(job: JobView, progress: ProgressToken) -> JobView {
    match progress {
        ProgressToken::Absent => job,
        ProgressToken::Other => job,
        ProgressToken::Continue => JobView { status: EncodingStatus::InProgress, ..job },
        ProgressToken::End => if awaits_second_pass(job) {
            JobView { status: EncodingStatus::InProgress, ..job }
        } else {
            JobView { status: EncodingStatus::Finished, ..job }
        },
    }
}

/// The job after a line: a job in a terminal status stays as it is; any other
/// takes in the position, then the state of the pass.
pub open spec fn after_line(job: JobView, line: ProgressLine) -> JobView {
    if job.status.is_terminal() {
        job
    } else {
        after_progress(after_time(job, line.time), line.progress)
    }
}

/// What the caller has to do after `line` reached `job`.
pub open spec fn signal_after(job: JobView, line: ProgressLine) -> Signal {
    if job.status.is_terminal() {
        Signal::Done
    } else if line.progress == ProgressToken::End {
        if awaits_second_pass(job) {
            Signal::LaunchSecondPass
        } else {
            Signal::Done
        }
    } else {
        Signal::Idle
    }
}

/// The job after its second pass has been started: a video that is not in a
/// terminal status is in pass 2; any other job is as before.
pub open spec fn after_second_pass_started(job: JobView) -> JobView {
    if job.media_type == MediaType::Video && !job.status.is_terminal() {
        JobView { passed_pass_1: true, status: EncodingStatus::InProgress, ..job }
    } else {
        job
    }
}

/// The job after its encoder could not be started or ended with a failure:
/// failed, unless it was in a terminal status already.
pub open spec fn after_failure(job: JobView) -> JobView {
    if job.status.is_terminal() {
        job
    } else {
        JobView { status: EncodingStatus::Failed, ..job }
    }
}

/// The job after its progress stream closed before the end was reported: as
/// before where the encoder ended well, failed where it did not.
pub open spec fn after_stream_closed(job: JobView, ended_well: bool) -> JobView {
    if ended_well {
        job
    } else {
        after_failure(job)
    }
}

impl FFMPEGCommand {
    /// Takes in what a line of the progress stream says, and tells what to do
    /// next.
    pub fn apply(&mut self, line: ProgressLine) -> (out: Signal)
        ensures
            final(self)@ == after_line(old(self)@, line),
            out == signal_after(old(self)@, line),
    {
        if self.status.terminal() {
            return Signal::Done;
        }
        if !self.time_stalled {
            match line.time {
                TimeToken::Absent => {},
                TimeToken::Unreadable => {
                    self.time_stalled = true;
                },
                TimeToken::At(at) => {
                    self.progressed_time = at;
                    self.status = EncodingStatus::InProgress;
                },
            }
        }
        match line.progress {
            ProgressToken::Absent => Signal::Idle,
            ProgressToken::Other => Signal::Idle,
            ProgressToken::Continue => {
                self.status = EncodingStatus::InProgress;
                Signal::Idle
            },
            ProgressToken::End => {
                if matches!(self.media_type, MediaType::Video) && !self.passed_pass_1 {
                    self.status = EncodingStatus::InProgress;
                    Signal::LaunchSecondPass
                } else {
                    self.status = EncodingStatus::Finished;
                    Signal::Done
                }
            },
        }
    }

    /// Reads a line of the progress stream and takes in what it says.
    pub fn handle_line(&mut self, line: &str) -> (out: Signal)
        ensures
            final(self)@ == after_line(old(self)@, read_line(line@)),
            out == signal_after(old(self)@, read_line(line@)),
    {
        let report = parse_line(line);
        self.apply(report)
    }

    /// Records that the second pass has been started.
    pub fn second_pass_started(&mut self)
        ensures
            final(self)@ == after_second_pass_started(old(self)@),
    {
        if matches!(self.media_type, MediaType::Video) && !self.status.terminal() {
            self.passed_pass_1 = true;
            self.status = EncodingStatus::InProgress;
        }
    }

    /// Records that the encoder could not be started, and names the error.
    pub fn launch_failed(&mut self) -> (out: EncodeError)
        ensures
            final(self)@ == after_failure(old(self)@),
            out == EncodeError::EncodeLaunchFailed,
    {
        self.process_failed();
        EncodeError::EncodeLaunchFailed
    }

    /// Records that the progress stream closed before the end was reported.
    /// `ended_well` tells whether the encoder ended with success: the job is
    /// then left in the status it had; else it fails.
    pub fn stream_closed(&mut self, ended_well: bool)
        ensures
            final(self)@ == after_stream_closed(old(self)@, ended_well),
            final(self)@ == if ended_well {
                old(self)@
            } else {
                after_failure(old(self)@)
            },
    {
        if !ended_well {
            self.process_failed();
        }
    }

    /// Records that the encoder ended with a failure while the job ran.
    pub fn process_failed(&mut self)
        ensures
            final(self)@ == after_failure(old(self)@),
    {
        if !self.status.terminal() {
            self.status = EncodingStatus::Failed;
        }
    }
}

/// Whether a job may go from status `from` to status `to` in one step: it
/// stays, starts running, or ends from any status that is not terminal.
pub open spec fn may_follow(from: EncodingStatus, to: EncodingStatus) -> bool {
    from == to || (!from.is_terminal() && to != EncodingStatus::NotStarted)
}

/// A terminal status is absorbing: no line, no start of a second pass and no
/// failure changes a job that is finished or failed.
pub proof fn lemma_terminal_is_absorbing(job: JobView, line: ProgressLine)
    requires
        job.status.is_terminal(),
    ensures
        after_line(job, line) == job,
        signal_after(job, line) == Signal::Done,
        after_second_pass_started(job) == job,
        after_failure(job) == job,
        forall|ended_well: bool| after_stream_closed(job, ended_well) == job,
{
}

/// Every step moves the status along `NotStarted`, `InProgress`, then
/// `Finished` or `Failed`, and never back. A line changes nothing but the
/// status, the progress and whether the progress is still updated.
pub proof fn lemma_status_moves_forward(job: JobView, line: ProgressLine)
    ensures
        may_follow(job.status, after_line(job, line).status),
        may_follow(job.status, after_second_pass_started(job).status),
        may_follow(job.status, after_failure(job).status),
        forall|ended_well: bool|
            may_follow(job.status, (#[trigger] after_stream_closed(job, ended_well)).status),
        after_line(job, line).status != EncodingStatus::Failed || job.status
            == EncodingStatus::Failed,
        after_line(job, line) == (JobView {
            status: after_line(job, line).status,
            progressed_time: after_line(job, line).progressed_time,
            time_stalled: after_line(job, line).time_stalled,
            ..job
        }),
{
}

/// No step makes a well-formed job ill formed.
pub proof fn lemma_steps_keep_well_formed(job: JobView, line: ProgressLine)
    requires
        job.well_formed(),
    ensures
        after_line(job, line).well_formed(),
        after_second_pass_started(job).well_formed(),
        after_failure(job).well_formed(),
        forall|ended_well: bool| (#[trigger] after_stream_closed(job, ended_well)).well_formed(),
{
}

/// When the stream of a video in its first pass reports the end, the job
/// goes on running and the second pass is asked for. Once that pass has been
/// started, the next end finishes the job.
pub proof fn lemma_two_pass_video(job: JobView, first: ProgressLine, second: ProgressLine)
    requires
        job.media_type == MediaType::Video,
        !job.status.is_terminal(),
        !job.passed_pass_1,
        first.progress == ProgressToken::End,
        second.progress == ProgressToken::End,
    ensures
        after_line(job, first).status == EncodingStatus::InProgress,
        !after_line(job, first).passed_pass_1,
        signal_after(job, first) == Signal::LaunchSecondPass,
        after_second_pass_started(after_line(job, first)).passed_pass_1,
        after_second_pass_started(after_line(job, first)).status == EncodingStatus::InProgress,
        after_line(after_second_pass_started(after_line(job, first)), second).status
            == EncodingStatus::Finished,
        signal_after(after_second_pass_started(after_line(job, first)), second) == Signal::Done,
{
}

/// The end of the only pass of a job that is no video finishes it.
pub proof fn lemma_single_pass_end(job: JobView, line: ProgressLine)
    requires
        job.media_type != MediaType::Video,
        !job.status.is_terminal(),
        line.progress == ProgressToken::End,
    ensures
        after_line(job, line).status == EncodingStatus::Finished,
        signal_after(job, line) == Signal::Done,
{
}

/// Once a position could not be read, no later line moves the progress.
pub proof fn lemma_stalled_time_stays(job: JobView, line: ProgressLine)
    requires
        job.time_stalled,
    ensures
        after_line(job, line).progressed_time == job.progressed_time,
        after_line(job, line).time_stalled,
{
}

} // verus!
