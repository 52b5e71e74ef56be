use minify::encoder::FFMPEGCommand;
use minify::media::{EncodeError, EncodingStatus, MediaType, Platform, VideoCodec};
use minify::probe::{MediaData, Resolution};
use minify::progress::{parse_line, ProgressLine, ProgressToken, Signal, TimeToken};

fn video() -> FFMPEGCommand {
    FFMPEGCommand::create_video(
        Platform::Unix,
        "clip.mp4",
        200_000,
        VideoCodec::WEBM,
        MediaData {
            resolution: Some(Resolution { width: 1920, height: 1080 }),
            duration: 120_000_000,
            old_kbit_rate: None,
        },
    )
    .unwrap()
}

fn audio() -> FFMPEGCommand {
    FFMPEGCommand::create_audio(
        Platform::Unix,
        "song.mp3",
        200_000,
        MediaData { resolution: None, duration: 120_000_000, old_kbit_rate: None },
    )
    .unwrap()
}

fn image() -> FFMPEGCommand {
    FFMPEGCommand::create_image(Platform::Unix, "photo.png", 200_000).unwrap()
}

fn state(job: &FFMPEGCommand) -> (EncodingStatus, bool, u64, bool) {
    (job.status, job.passed_pass_1, job.progressed_time, job.time_stalled)
}

#[test]
fn a_line_may_hold_neither_token() {
    let nothing = ProgressLine { time: TimeToken::Absent, progress: ProgressToken::Absent };
    assert_eq!(parse_line(""), nothing);
    assert_eq!(parse_line("frame=120"), nothing);
    assert_eq!(parse_line("out_time_ms=1500000"), nothing);
    assert_eq!(parse_line("out_time_us=1500000"), nothing);
    assert_eq!(parse_line("speed=1.5x"), nothing);
}

#[test]
fn a_line_may_hold_the_position() {
    assert_eq!(
        parse_line("out_time=00:00:01.500000"),
        ProgressLine { time: TimeToken::At(1_500_000), progress: ProgressToken::Absent }
    );
    assert_eq!(parse_line("out_time=12:34:56").time, TimeToken::At(45_296_000_000));
    assert_eq!(parse_line("  out_time=00:01:00  ").time, TimeToken::At(60_000_000));
    assert_eq!(parse_line("out_time=00:00:07:25").time, TimeToken::At(7_000_000));
}

#[test]
fn a_position_may_be_unreadable() {
    assert_eq!(parse_line("out_time=N/A").time, TimeToken::Unreadable);
    assert_eq!(parse_line("out_time=").time, TimeToken::Unreadable);
    assert_eq!(parse_line("out_time=00:01").time, TimeToken::Unreadable);
    assert_eq!(parse_line("out_time=-00:00:00.033").time, TimeToken::Unreadable);
    assert_eq!(parse_line("out_time= 00:00:01").time, TimeToken::Unreadable);
    assert_eq!(parse_line("out_time=00:xx:01").time, TimeToken::Unreadable);
}

#[test]
fn a_line_may_hold_the_state_of_the_pass() {
    assert_eq!(
        parse_line("progress=end"),
        ProgressLine { time: TimeToken::Absent, progress: ProgressToken::End }
    );
    assert_eq!(parse_line("progress=continue").progress, ProgressToken::Continue);
    assert_eq!(parse_line("progress=paused").progress, ProgressToken::Other);
    assert_eq!(parse_line("progress=").progress, ProgressToken::Other);
    assert_eq!(parse_line("progress=END").progress, ProgressToken::Other);
    assert_eq!(parse_line("progress=ending").progress, ProgressToken::Other);
    assert_eq!(parse_line("progress=end\r").progress, ProgressToken::End);
    assert_eq!(parse_line("x progress=continue y").progress, ProgressToken::Continue);
}

#[test]
fn a_line_may_hold_both_tokens() {
    assert_eq!(
        parse_line("out_time=00:00:02.000000 progress=continue"),
        ProgressLine { time: TimeToken::At(2_000_000), progress: ProgressToken::Continue }
    );
    assert_eq!(
        parse_line("progress=end\tout_time=00:00:03"),
        ProgressLine { time: TimeToken::At(3_000_000), progress: ProgressToken::End }
    );
    assert_eq!(
        parse_line("out_time=bad progress=end"),
        ProgressLine { time: TimeToken::Unreadable, progress: ProgressToken::End }
    );
}

#[test]
fn the_first_of_two_equal_keys_counts() {
    assert_eq!(parse_line("progress=continue progress=end").progress, ProgressToken::Continue);
    assert_eq!(parse_line("out_time=0:0:1 out_time=0:0:2").time, TimeToken::At(1_000_000));
}

#[test]
fn a_position_starts_the_job_and_sets_the_progress() {
    let mut job = audio();
    assert_eq!(job.status, EncodingStatus::NotStarted);
    assert_eq!(job.handle_line("out_time=00:00:01.500000"), Signal::Idle);
    assert_eq!(state(&job), (EncodingStatus::InProgress, false, 1_500_000, false));
    assert_eq!(job.handle_line("out_time=00:00:03.000000"), Signal::Idle);
    assert_eq!(job.progressed_time, 3_000_000);
}

#[test]
fn continue_confirms_that_the_job_runs() {
    let mut job = audio();
    assert_eq!(job.handle_line("progress=continue"), Signal::Idle);
    assert_eq!(state(&job), (EncodingStatus::InProgress, false, 0, false));
}

#[test]
fn other_lines_change_nothing() {
    let mut job = audio();
    for line in ["", "frame=1", "fps=25.0", "progress=paused", "out_time_ms=5"] {
        assert_eq!(job.handle_line(line), Signal::Idle);
        assert_eq!(state(&job), (EncodingStatus::NotStarted, false, 0, false));
    }
}

#[test]
fn the_end_of_the_only_pass_finishes_the_job() {
    let mut job = audio();
    assert_eq!(job.handle_line("progress=end"), Signal::Done);
    assert_eq!(job.status, EncodingStatus::Finished);
    let mut job = image();
    assert_eq!(job.handle_line("progress=end"), Signal::Done);
    assert_eq!(job.status, EncodingStatus::Finished);
}

#[test]
fn the_end_of_the_first_pass_leads_to_the_second() {
    let mut job = video();
    assert_eq!(job.handle_line("out_time=00:01:59.000000"), Signal::Idle);
    assert_eq!(job.handle_line("progress=end"), Signal::LaunchSecondPass);
    assert_eq!(state(&job), (EncodingStatus::InProgress, false, 119_000_000, false));
    assert_eq!(job.current_pass(), 1);
    job.second_pass_started();
    assert_eq!(state(&job), (EncodingStatus::InProgress, true, 119_000_000, false));
    assert_eq!(job.current_pass(), 2);
    assert_eq!(job.handle_line("out_time=00:00:10.000000"), Signal::Idle);
    assert_eq!(job.progressed_time, 10_000_000);
    assert_eq!(job.handle_line("progress=continue"), Signal::Idle);
    assert_eq!(job.status, EncodingStatus::InProgress);
    assert_eq!(job.handle_line("progress=end"), Signal::Done);
    assert_eq!(state(&job), (EncodingStatus::Finished, true, 10_000_000, false));
}

#[test]
fn a_failed_launch_fails_the_job() {
    let mut job = video();
    assert_eq!(job.handle_line("progress=end"), Signal::LaunchSecondPass);
    assert_eq!(job.launch_failed(), EncodeError::EncodeLaunchFailed);
    assert_eq!(job.status, EncodingStatus::Failed);
    assert!(!job.passed_pass_1);
    let mut job = audio();
    assert_eq!(job.launch_failed(), EncodeError::EncodeLaunchFailed);
    assert_eq!(job.status, EncodingStatus::Failed);
}

#[test]
fn a_failing_encoder_fails_the_job() {
    let mut job = audio();
    job.handle_line("out_time=00:00:05");
    job.process_failed();
    assert_eq!(state(&job), (EncodingStatus::Failed, false, 5_000_000, false));
    let mut job = audio();
    job.handle_line("progress=end");
    job.process_failed();
    assert_eq!(job.status, EncodingStatus::Finished);
}

#[test]
fn a_stream_that_closes_early_fails_the_job_of_a_failing_encoder() {
    let mut job = video();
    job.handle_line("out_time=00:00:05");
    job.stream_closed(false);
    assert_eq!(state(&job), (EncodingStatus::Failed, false, 5_000_000, false));
    let mut job = audio();
    job.stream_closed(false);
    assert_eq!(state(&job), (EncodingStatus::Failed, false, 0, false));
}

#[test]
fn a_stream_that_closes_early_leaves_the_job_of_an_encoder_that_ended_well() {
    let mut job = video();
    job.handle_line("out_time=00:00:05");
    job.stream_closed(true);
    assert_eq!(state(&job), (EncodingStatus::InProgress, false, 5_000_000, false));
    let mut job = audio();
    job.stream_closed(true);
    assert_eq!(state(&job), (EncodingStatus::NotStarted, false, 0, false));
}

#[test]
fn a_closed_stream_does_not_change_a_job_that_is_over() {
    let mut job = audio();
    job.handle_line("progress=end");
    job.stream_closed(false);
    assert_eq!(job.status, EncodingStatus::Finished);
    job.stream_closed(true);
    assert_eq!(job.status, EncodingStatus::Finished);
}

#[test]
fn a_terminal_status_is_never_left() {
    let mut done = audio();
    done.handle_line("out_time=00:00:05");
    done.handle_line("progress=end");
    let mut failed = video();
    failed.launch_failed();
    for (job, status) in [(&mut done, EncodingStatus::Finished), (&mut failed, EncodingStatus::Failed)] {
        let before = state(job);
        for line in ["progress=continue", "progress=end", "out_time=00:00:09", "out_time=x", ""] {
            assert_eq!(job.handle_line(line), Signal::Done);
            assert_eq!(state(job), before);
        }
        job.second_pass_started();
        assert_eq!(state(job), before);
        job.launch_failed();
        assert_eq!(state(job), before);
        assert_eq!(job.status, status);
    }
}

#[test]
fn an_unreadable_position_ends_the_updates_of_the_progress() {
    let mut job = video();
    job.handle_line("out_time=00:00:05.000000");
    assert_eq!(job.handle_line("out_time=N/A"), Signal::Idle);
    assert_eq!(state(&job), (EncodingStatus::InProgress, false, 5_000_000, true));
    job.handle_line("out_time=00:00:06.000000");
    assert_eq!(job.progressed_time, 5_000_000);
    assert_eq!(job.handle_line("progress=end"), Signal::LaunchSecondPass);
    job.second_pass_started();
    job.handle_line("out_time=00:00:01.000000");
    assert_eq!(state(&job), (EncodingStatus::InProgress, true, 5_000_000, true));
    assert_eq!(job.handle_line("progress=end"), Signal::Done);
    assert_eq!(job.status, EncodingStatus::Finished);
}

#[test]
fn an_unreadable_position_does_not_hide_the_end_on_its_line() {
    let mut job = audio();
    assert_eq!(job.handle_line("out_time=N/A progress=end"), Signal::Done);
    assert_eq!(state(&job), (EncodingStatus::Finished, false, 0, true));
}

#[test]
fn an_unreadable_position_does_not_start_the_job() {
    let mut job = audio();
    job.handle_line("out_time=N/A");
    assert_eq!(state(&job), (EncodingStatus::NotStarted, false, 0, true));
    job.handle_line("out_time=00:00:01");
    assert_eq!(state(&job), (EncodingStatus::NotStarted, false, 0, true));
}

#[test]
fn both_tokens_of_a_line_are_taken_in() {
    let mut job = audio();
    assert_eq!(job.handle_line("out_time=00:00:04.250000 progress=end"), Signal::Done);
    assert_eq!(state(&job), (EncodingStatus::Finished, false, 4_250_000, false));
}

#[test]
fn a_report_is_applied_as_its_line_would_be() {
    let mut job = video();
    let report = ProgressLine { time: TimeToken::At(9), progress: ProgressToken::End };
    assert_eq!(job.apply(report), Signal::LaunchSecondPass);
    assert_eq!(state(&job), (EncodingStatus::InProgress, false, 9, false));
}

#[test]
fn only_a_video_has_a_second_pass() {
    let mut job = audio();
    job.second_pass_started();
    assert_eq!(state(&job), (EncodingStatus::NotStarted, false, 0, false));
    assert_eq!(job.current_pass(), 1);
    assert_eq!(job.media_type, MediaType::Audio);
}
