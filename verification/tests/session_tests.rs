use dual_recorder::capture::{LoopAction, LoopExit};
use dual_recorder::error::{ErrorClass, RecordingError};
use dual_recorder::frame::{CameraRead, CaptureConfig, FrameShape};
use dual_recorder::protocol::{Event, StreamRead};
use dual_recorder::reencode::ReencodeAction;
use dual_recorder::session::{Action, Camera, Session, Stage};
use dual_recorder::timing::FrameRate;

/// A pretend recorder: cameras, clock, stop flag and files, all in memory.
struct Rig {
    clock: u64,
    /// The flag is raised once this many frames are in the temporary file.
    stop_after_frames: Option<u64>,
    /// The flag is raised once the cameras were read this many times.
    stop_after_reads: Option<u64>,
    /// The flag is up from the start.
    stopped_from_start: bool,
    secondary_fails: bool,
    camera_shape: (i32, i32),
    reads: u64,
    temporary_frames: u64,
    temporary_writer_open: bool,
    temporary_removed: bool,
    read_while_writer_open: bool,
    stream_cursor: u64,
    final_opened_with: Option<(FrameRate, FrameShape)>,
    final_frames: u64,
    final_writer_open: bool,
    written_shapes: Vec<FrameShape>,
    actions: Vec<Action>,
    capture_started_at: u64,
}

fn rig() -> Rig {
    Rig {
        clock: 0,
        stop_after_frames: None,
        stop_after_reads: None,
        stopped_from_start: false,
        secondary_fails: false,
        camera_shape: (1280, 720),
        reads: 0,
        temporary_frames: 0,
        temporary_writer_open: false,
        temporary_removed: false,
        read_while_writer_open: false,
        stream_cursor: 0,
        final_opened_with: None,
        final_frames: 0,
        final_writer_open: false,
        written_shapes: Vec::new(),
        actions: Vec::new(),
        capture_started_at: 0,
    }
}

fn flag_is_up(rig: &Rig) -> bool {
    rig.stopped_from_start
        || rig.stop_after_frames.map_or(false, |n| rig.temporary_frames >= n)
        || rig.stop_after_reads.map_or(false, |n| rig.reads >= n)
}

fn perform(rig: &mut Rig, action: Action) -> Event {
    rig.actions.push(action);
    rig.clock += 1_000_000;
    match action {
        Action::Pause { nanos } => {
            rig.clock += nanos;
            Event::completed(rig.clock, true)
        }
        Action::VerifyTemporaryWriter => {
            rig.temporary_writer_open = true;
            rig.capture_started_at = rig.clock;
            Event::completed(rig.clock, true)
        }
        Action::ReleaseTemporaryWriter => {
            rig.temporary_writer_open = false;
            Event::completed(rig.clock, true)
        }
        Action::RemoveTemporaryFile => {
            rig.temporary_removed = true;
            Event::completed(rig.clock, true)
        }
        Action::Capture { capture } => match capture {
            LoopAction::PollCancellation => Event::flag(rig.clock, flag_is_up(rig)),
            LoopAction::ReadFrames => {
                rig.reads += 1;
                let (cols, rows) = rig.camera_shape;
                let secondary = if rig.secondary_fails {
                    CameraRead::dropped()
                } else {
                    CameraRead::frame(cols, rows)
                };
                Event::frames(rig.clock, CameraRead::frame(cols, rows), secondary)
            }
            LoopAction::Pause { nanos } => {
                rig.clock += nanos;
                Event::completed(rig.clock, true)
            }
            LoopAction::WriteComposite { shape } => {
                assert!(rig.temporary_writer_open);
                rig.temporary_frames += 1;
                rig.written_shapes.push(shape);
                Event::completed(rig.clock, true)
            }
            LoopAction::ResizeBoth { .. } | LoopAction::Compose => Event::completed(rig.clock, true),
            LoopAction::Stop { .. } => panic!("the session never passes a stop on"),
        },
        Action::Reencode { reencode } => match reencode {
            ReencodeAction::OpenInput => {
                if rig.temporary_writer_open {
                    rig.read_while_writer_open = true;
                }
                Event::completed(rig.clock, true)
            }
            ReencodeAction::QuerySize => Event::stream_size(rig.clock, true, 2560, 720),
            ReencodeAction::OpenOutput { rate, shape } => {
                rig.final_opened_with = Some((rate, shape));
                Event::completed(rig.clock, true)
            }
            ReencodeAction::VerifyOutput => {
                rig.final_writer_open = true;
                Event::completed(rig.clock, true)
            }
            ReencodeAction::ReadFrame => {
                if rig.stream_cursor < rig.temporary_frames {
                    rig.stream_cursor += 1;
                    Event::stream_frame(rig.clock, StreamRead::Frame { empty: false })
                } else {
                    Event::stream_frame(rig.clock, StreamRead::EndOfStream)
                }
            }
            ReencodeAction::WriteFrame => {
                assert!(rig.final_writer_open);
                rig.final_frames += 1;
                Event::completed(rig.clock, true)
            }
            ReencodeAction::ReleaseOutput => {
                rig.final_writer_open = false;
                Event::completed(rig.clock, true)
            }
            ReencodeAction::VerifyInput => Event::completed(rig.clock, true),
            ReencodeAction::Finish { .. } => panic!("the session never passes a finish on"),
        },
        _ => Event::completed(rig.clock, true),
    }
}

/// Runs a whole session on the rig and returns how it ended.
fn record(rig: &mut Rig, config: CaptureConfig) -> (Session, Option<RecordingError>) {
    let mut session = Session::new(config);
    let mut action = session.pending();
    for _ in 0..100_000 {
        if let Action::Finish { error } = action {
            return (session, error);
        }
        assert!(session.has_room());
        let event = perform(rig, action);
        action = session.step(event);
    }
    panic!("the session did not finish");
}

/// Steps a fresh session through set-up, answering `ok` to every action
/// but the `fail_at`-th, and returns the session with its pending action.
fn set_up(fail_at: Option<usize>) -> (Session, Action) {
    let mut session = Session::new(CaptureConfig::standard());
    let mut action = session.pending();
    for k in 0..9 {
        if let Action::Finish { .. } = action {
            break;
        }
        action = session.step(Event::completed(10 * (k as u64 + 1), Some(k) != fail_at));
    }
    (session, action)
}

#[test]
fn set_up_runs_step_by_step() {
    let mut session = Session::new(CaptureConfig::standard());
    let shape = FrameShape { cols: 1280, rows: 720 };
    let expected = [
        Action::EnsureDirectory,
        Action::OpenCamera { camera: Camera::Primary },
        Action::OpenCamera { camera: Camera::Secondary },
        Action::ConfigureCamera { camera: Camera::Primary, shape, fps: 24 },
        Action::ConfigureCamera { camera: Camera::Secondary, shape, fps: 24 },
        Action::VerifyCameras,
        Action::Pause { nanos: 1_000_000_000 },
        Action::OpenTemporaryWriter {
            rate: FrameRate { frames: 24, nanos: 1_000_000_000 },
            shape: FrameShape { cols: 2560, rows: 720 },
        },
        Action::VerifyTemporaryWriter,
        Action::Capture { capture: LoopAction::PollCancellation },
    ];
    let mut action = session.pending();
    for (k, want) in expected.iter().enumerate() {
        assert_eq!(action, *want);
        assert_eq!(session.outcome(), None);
        if k + 1 < expected.len() {
            action = session.step(Event::completed(k as u64, true));
        }
    }
    assert_eq!(session.stage, Stage::Capturing);
    assert!(session.writer_held);
}

#[test]
fn camera_indices_are_zero_and_one() {
    assert_eq!(Camera::Primary.index(), 0);
    assert_eq!(Camera::Secondary.index(), 1);
}

#[test]
fn each_set_up_failure_has_its_own_error() {
    let expected = [
        RecordingError::CreateDirectory,
        RecordingError::OpenCamera { index: 0 },
        RecordingError::OpenCamera { index: 1 },
        RecordingError::ConfigureCamera { index: 0 },
        RecordingError::ConfigureCamera { index: 1 },
        RecordingError::CamerasNotOpened,
    ];
    for (k, want) in expected.iter().enumerate() {
        let (session, action) = set_up(Some(k));
        assert_eq!(action, Action::Finish { error: Some(*want) });
        assert_eq!(session.outcome(), Some(Err(*want)));
        assert_eq!(want.class(), ErrorClass::Setup);
        assert!(!session.writer_held);
    }
}

#[test]
fn settling_pause_cannot_fail() {
    let (session, action) = set_up(Some(6));
    assert_eq!(action, Action::Capture { capture: LoopAction::PollCancellation });
    assert_eq!(session.stage, Stage::Capturing);
}

#[test]
fn temporary_writer_failures() {
    let (session, action) = set_up(Some(7));
    assert_eq!(action, Action::Finish { error: Some(RecordingError::OpenTemporaryWriter) });
    assert!(!session.writer_held);
    let (session, action) = set_up(Some(8));
    assert_eq!(action, Action::Finish { error: Some(RecordingError::TemporaryWriterNotOpened) });
    assert!(!session.writer_held);
}

#[test]
fn capture_clock_starts_when_the_writer_is_verified() {
    let (session, _) = set_up(None);
    assert_eq!(session.capture.started_at, 90);
    assert_eq!(session.frames_written(), 0);
}

#[test]
fn fifty_frames_at_24_fps_are_saved_at_the_observed_rate() {
    let mut world = rig();
    world.stop_after_frames = Some(50);
    let (session, error) = record(&mut world, CaptureConfig::standard());
    assert_eq!(error, None);
    assert_eq!(session.outcome(), Some(Ok(())));
    assert_eq!(session.frames_written(), 50);
    assert_eq!(world.temporary_frames, 50);
    assert_eq!(world.final_frames, 50);
    let (rate, shape) = world.final_opened_with.unwrap();
    assert_eq!(shape, FrameShape { cols: 2560, rows: 720 });
    assert_eq!(rate.frames, 50);
    let elapsed = session.capture.now - world.capture_started_at;
    assert_eq!(rate.nanos, elapsed);
    assert_eq!(rate, session.observed_rate());
    // Each iteration is paced to the 24 fps interval, so fifty frames take
    // a little over 49 intervals.
    assert!(elapsed >= 49 * 41_666_667);
    let fps = rate.frames as f64 / (rate.nanos as f64 / 1e9);
    assert!((fps - 50.0 / (elapsed as f64 / 1e9)).abs() < 1e-9);
    assert!(fps > 23.0 && fps < 24.6);
    assert!(world.temporary_removed);
    assert!(!world.read_while_writer_open);
    assert!(!world.temporary_writer_open);
    assert!(!world.final_writer_open);
    assert!(world.written_shapes.iter().all(|s| *s == FrameShape { cols: 2560, rows: 720 }));
}

#[test]
fn failing_secondary_camera_ends_in_empty_session() {
    let mut world = rig();
    world.secondary_fails = true;
    world.stop_after_reads = Some(10);
    let (session, error) = record(&mut world, CaptureConfig::standard());
    assert_eq!(error, Some(RecordingError::NoFramesRecorded));
    assert_eq!(error.unwrap().class(), ErrorClass::EmptySession);
    assert_eq!(session.frames_written(), 0);
    assert_eq!(world.reads, 10);
    assert_eq!(world.temporary_frames, 0);
    assert_eq!(world.final_opened_with, None);
    assert_eq!(world.final_frames, 0);
    assert!(world.temporary_removed);
    assert!(!world.temporary_writer_open);
    assert!(!world.actions.iter().any(|a| matches!(a, Action::Reencode { .. })));
}

#[test]
fn cancellation_set_from_the_start_ends_in_empty_session() {
    let mut world = rig();
    world.stopped_from_start = true;
    let (session, error) = record(&mut world, CaptureConfig::standard());
    assert_eq!(error, Some(RecordingError::NoFramesRecorded));
    assert_eq!(session.frames_written(), 0);
    assert_eq!(world.reads, 0);
    assert_eq!(world.final_opened_with, None);
    assert!(world.temporary_removed);
    let tail: Vec<Action> = world.actions[world.actions.len() - 3..].to_vec();
    assert_eq!(
        tail,
        vec![
            Action::Capture { capture: LoopAction::PollCancellation },
            Action::ReleaseTemporaryWriter,
            Action::RemoveTemporaryFile,
        ]
    );
}

#[test]
fn mismatched_cameras_still_write_composite_sized_frames() {
    let mut world = rig();
    world.camera_shape = (640, 480);
    world.stop_after_frames = Some(3);
    let (session, error) = record(&mut world, CaptureConfig::standard());
    assert_eq!(error, None);
    assert_eq!(session.frames_written(), 3);
    assert_eq!(world.written_shapes, vec![FrameShape { cols: 2560, rows: 720 }; 3]);
    assert!(world
        .actions
        .iter()
        .any(|a| matches!(a, Action::Capture { capture: LoopAction::ResizeBoth { .. } })));
}

#[test]
fn empty_session_fails_even_if_removal_fails() {
    let (mut session, _) = set_up(None);
    assert_eq!(session.step(Event::flag(100, true)), Action::ReleaseTemporaryWriter);
    assert!(session.writer_held);
    assert_eq!(session.step(Event::completed(101, false)), Action::RemoveTemporaryFile);
    assert!(!session.writer_held);
    assert_eq!(
        session.step(Event::completed(102, false)),
        Action::Finish { error: Some(RecordingError::NoFramesRecorded) }
    );
}

/// A session whose loop has just written one frame and awaits the poll.
fn one_frame_written() -> Session {
    let (mut session, _) = set_up(None);
    session.step(Event::flag(1_000, false));
    session.step(Event::frames(2_000, CameraRead::frame(1280, 720), CameraRead::frame(1280, 720)));
    session.step(Event::completed(3_000, true));
    session.step(Event::flag(4_000, false));
    assert_eq!(
        session.step(Event::completed(5_000, true)),
        Action::Capture { capture: LoopAction::PollCancellation }
    );
    session
}

#[test]
fn write_failure_ends_session_after_release_without_reencode() {
    let (mut session, _) = set_up(None);
    session.step(Event::flag(1_000, false));
    session.step(Event::frames(2_000, CameraRead::frame(1280, 720), CameraRead::frame(1280, 720)));
    session.step(Event::completed(3_000, true));
    session.step(Event::flag(4_000, false));
    assert_eq!(session.step(Event::completed(5_000, false)), Action::ReleaseTemporaryWriter);
    assert_eq!(session.capture.exit(), Some(LoopExit::WriteFailed));
    let action = session.step(Event::completed(6_000, true));
    assert_eq!(action, Action::Finish { error: Some(RecordingError::WriteFrame) });
    assert_eq!(RecordingError::WriteFrame.class(), ErrorClass::Capture);
    assert!(!session.writer_held);
}

#[test]
fn resize_and_compose_failures_end_the_session() {
    let (mut session, _) = set_up(None);
    session.step(Event::flag(1_000, false));
    session.step(Event::frames(2_000, CameraRead::frame(640, 480), CameraRead::frame(1280, 720)));
    assert_eq!(session.step(Event::completed(3_000, false)), Action::ReleaseTemporaryWriter);
    assert_eq!(
        session.step(Event::completed(4_000, true)),
        Action::Finish { error: Some(RecordingError::ResizeFrames) }
    );
    let (mut session, _) = set_up(None);
    session.step(Event::flag(1_000, false));
    session.step(Event::frames(2_000, CameraRead::frame(1280, 720), CameraRead::frame(1280, 720)));
    assert_eq!(session.step(Event::completed(3_000, false)), Action::ReleaseTemporaryWriter);
    assert_eq!(
        session.step(Event::completed(4_000, true)),
        Action::Finish { error: Some(RecordingError::ComposeFrames) }
    );
}

#[test]
fn observed_rate_is_frames_over_capture_time() {
    let mut session = one_frame_written();
    assert_eq!(session.step(Event::flag(2_000_000_090, true)), Action::ReleaseTemporaryWriter);
    assert_eq!(
        session.step(Event::completed(2_000_000_500, true)),
        Action::Reencode { reencode: ReencodeAction::OpenInput }
    );
    // The capture clock started at 90 and stopped at 2_000_000_090.
    assert_eq!(session.observed_rate(), FrameRate { frames: 1, nanos: 2_000_000_000 });
    session.step(Event::completed(0, true));
    session.step(Event::completed(0, true));
    assert_eq!(
        session.step(Event::stream_size(0, true, 2560, 720)),
        Action::Reencode {
            reencode: ReencodeAction::OpenOutput {
                rate: FrameRate { frames: 1, nanos: 2_000_000_000 },
                shape: FrameShape { cols: 2560, rows: 720 },
            }
        }
    );
}

#[test]
fn zero_elapsed_time_falls_back_to_requested_rate() {
    let (mut session, _) = set_up(None);
    // Every reply carries the clock reading of the start of the capture.
    session.step(Event::flag(90, false));
    session.step(Event::frames(90, CameraRead::frame(1280, 720), CameraRead::frame(1280, 720)));
    session.step(Event::completed(90, true));
    session.step(Event::flag(90, false));
    session.step(Event::completed(90, true));
    session.step(Event::flag(90, true));
    session.step(Event::completed(90, true));
    assert_eq!(session.observed_rate(), FrameRate { frames: 24, nanos: 1_000_000_000 });
    assert_eq!(session.reencode.rate, FrameRate { frames: 24, nanos: 1_000_000_000 });
}

#[test]
fn reencode_failure_leaves_the_temporary_file() {
    let mut session = one_frame_written();
    session.step(Event::flag(6_000, true));
    session.step(Event::completed(7_000, true));
    let action = session.step(Event::completed(8_000, false));
    assert_eq!(action, Action::Finish { error: Some(RecordingError::OpenTemporaryFile) });
    assert_eq!(RecordingError::OpenTemporaryFile.class(), ErrorClass::Reencode);
    assert_eq!(session.outcome(), Some(Err(RecordingError::OpenTemporaryFile)));
}

#[test]
fn removal_failure_after_reencode_is_reported() {
    let mut session = one_frame_written();
    session.step(Event::flag(6_000, true));
    session.step(Event::completed(7_000, true));
    session.step(Event::completed(8_000, true));
    session.step(Event::completed(8_000, true));
    session.step(Event::stream_size(8_000, true, 2560, 720));
    session.step(Event::completed(8_000, true));
    session.step(Event::completed(8_000, true));
    session.step(Event::stream_frame(8_000, StreamRead::Frame { empty: false }));
    session.step(Event::completed(8_000, true));
    session.step(Event::stream_frame(8_000, StreamRead::EndOfStream));
    assert_eq!(session.step(Event::completed(8_000, true)), Action::RemoveTemporaryFile);
    assert_eq!(session.stage, Stage::RemovingTemporary { saved: true });
    let mut failed = session;
    assert_eq!(
        failed.step(Event::completed(9_000, false)),
        Action::Finish { error: Some(RecordingError::RemoveTemporaryFile) }
    );
    assert_eq!(RecordingError::RemoveTemporaryFile.class(), ErrorClass::Cleanup);
    assert_eq!(session.step(Event::completed(9_000, true)), Action::Finish { error: None });
    assert_eq!(session.outcome(), Some(Ok(())));
}

#[test]
fn session_ignores_replies_of_the_wrong_kind() {
    let mut session = Session::new(CaptureConfig::standard());
    let before = session;
    assert_eq!(session.step(Event::flag(1, true)), Action::EnsureDirectory);
    assert_eq!(session.step(Event::stream_size(1, true, 1, 1)), Action::EnsureDirectory);
    assert_eq!(session, before);
    let (mut session, _) = set_up(None);
    session.step(Event::flag(100, true));
    let before = session;
    assert_eq!(session.step(Event::flag(101, false)), Action::ReleaseTemporaryWriter);
    assert_eq!(session, before);
}

#[test]
fn finished_session_stays_finished() {
    let (mut session, action) = set_up(Some(0));
    assert_eq!(action, Action::Finish { error: Some(RecordingError::CreateDirectory) });
    let done = session;
    assert_eq!(session.step(Event::completed(1, true)), action);
    assert_eq!(session.step(Event::flag(1, true)), action);
    assert_eq!(session, done);
}
