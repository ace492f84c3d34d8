//! What holds of every run of a recording session.

use vstd::prelude::*;
use crate::capture::LoopAction;
use crate::error::RecordingError;
use crate::frame::CaptureConfig;
use crate::protocol::{Event, Reply};
use crate::reencode::ReencodeAction;
use crate::session::{Action, SessionModel, Stage};

verus! {

/// A session starts well formed, asking for its save directory.
pub proof fn law_init_wf(config: CaptureConfig)
    requires
        config.wf(),
    ensures
        SessionModel::init(config).wf(),
        SessionModel::init(config).pending() == Action::EnsureDirectory,
{
}

/// One transition keeps a well-formed session well formed and leaves its
/// configuration alone.
pub proof fn law_next_keeps_wf(s: SessionModel, event: Event)
    requires
        s.wf(),
    ensures
        s.next(event).wf(),
        s.next(event).config == s.config,
{
    match s.stage {
        Stage::Capturing => {
            crate::capture::lemma_next_keeps_wf(s.capture, event);
            crate::capture_laws::lemma_run_keeps_config(s.capture, seq![event]);
            assert(seq![event].drop_last() =~= Seq::<Event>::empty());
            assert(s.capture.run(seq![event]) == s.capture.run(Seq::<Event>::empty()).next(event));
        },
        Stage::Reencoding => {
            crate::reencode_laws::law_next_keeps_wf(s.reencode, event);
        },
        Stage::VerifyingWriter => {
            crate::capture_laws::law_init_wf(s.config, event.at_nanos);
        },
        _ => {},
    }
}

/// Every state a run passes through is well formed.
pub proof fn law_run_keeps_wf(s: SessionModel, events: Seq<Event>)
    requires
        s.wf(),
    ensures
        s.run(events).wf(),
        s.run(events).config == s.config,
    decreases events.len(),
{
    if events.len() > 0 {
        law_run_keeps_wf(s, events.drop_last());
        law_next_keeps_wf(s.run(events.drop_last()), events.last());
    }
}

/// Whether the writer of the temporary file is open after `events`, read
/// off the actions and replies alone: it opens when the session hears that
/// the writer is open, and closes when the release has been carried out.
pub open spec fn writer_open(config: CaptureConfig, events: Seq<Event>) -> bool
    decreases events.len(),
{
    if events.len() == 0 {
        false
    } else {
        let before = SessionModel::init(config).run(events.drop_last());
        let was = writer_open(config, events.drop_last());
        match (before.pending(), events.last().reply) {
            (Action::VerifyTemporaryWriter, Reply::Completed { ok }) => ok || was,
            (Action::ReleaseTemporaryWriter, Reply::Completed { .. }) => false,
            _ => was,
        }
    }
}

/// The session's own record of the writer agrees with what the actions and
/// replies say.
pub proof fn lemma_writer_record(config: CaptureConfig, events: Seq<Event>)
    requires
        config.wf(),
    ensures
        SessionModel::init(config).run(events).writer_held == writer_open(config, events),
    decreases events.len(),
{
    law_init_wf(config);
    if events.len() > 0 {
        lemma_writer_record(config, events.drop_last());
        law_run_keeps_wf(SessionModel::init(config), events.drop_last());
    }
}

/// However the capture loop ended, by the time the session asks anything
/// of the re-encoder, and so before the temporary file is opened for
/// reading, the writer of that file has been released; and when the
/// session finishes, no writer is left open.
pub proof fn law_writer_released_before_reading(config: CaptureConfig, events: Seq<Event>)
    requires
        config.wf(),
    ensures
        SessionModel::init(config).run(events).pending() is Reencode ==> !writer_open(config, events),
        SessionModel::init(config).run(events).pending() is RemoveTemporaryFile ==> !writer_open(
            config,
            events,
        ),
        SessionModel::init(config).run(events).pending() is Finish ==> !writer_open(config, events)
            && !SessionModel::init(config).run(events).reencode.output_held,
{
    law_init_wf(config);
    law_run_keeps_wf(SessionModel::init(config), events);
    lemma_writer_record(config, events);
}

/// When the capture loop stops, for whatever reason, the very next thing
/// the session asks for is the release of the temporary writer.
pub proof fn law_loop_exit_releases_writer(s: SessionModel, event: Event)
    requires
        s.wf(),
        s.stage is Capturing,
        s.capture.next(event).phase is Stopped,
    ensures
        s.next(event).pending() == Action::ReleaseTemporaryWriter,
        s.next(event).writer_held,
{
}

/// The final file is opened only after at least one frame was written,
/// and with the rate of frames written over time elapsed; when the elapsed
/// time is positive that rate is exactly the pair of the two.
pub proof fn law_final_file_has_observed_rate(config: CaptureConfig, events: Seq<Event>)
    requires
        config.wf(),
    ensures
        ({
            let s = SessionModel::init(config).run(events);
            s.pending() matches Action::Reencode {
                reencode: ReencodeAction::OpenOutput { rate, .. },
            } ==> {
                &&& s.capture.frames_written > 0
                &&& rate == s.observed_rate()
                &&& s.capture.elapsed() > 0 && s.capture.frames_written <= u64::MAX ==> rate.frames
                    == s.capture.frames_written && rate.nanos == s.capture.elapsed()
            }
        }),
{
    law_init_wf(config);
    law_run_keeps_wf(SessionModel::init(config), events);
}

/// A session that wrote no frame never succeeds and never touches the
/// re-encoder: it can only end in failure.
pub proof fn law_empty_session_fails(config: CaptureConfig, events: Seq<Event>)
    requires
        config.wf(),
    ensures
        ({
            let s = SessionModel::init(config).run(events);
            s.capture.frames_written == 0 ==> !(s.pending() is Reencode) && s.pending()
                != (Action::Finish { error: None })
        }),
{
    law_init_wf(config);
    law_run_keeps_wf(SessionModel::init(config), events);
}

/// A loop cancelled with nothing written leads, through the release of the
/// writer and the removal of the temporary file, to the empty-session
/// failure, whether or not the removal worked.
pub proof fn law_cancelled_empty_session(s: SessionModel, released: Event, removed: Event)
    requires
        s.stage is ReleasingWriter,
        s.capture.phase == (crate::capture::LoopPhase::Stopped {
            exit: crate::capture::LoopExit::Cancelled,
        }),
        s.capture.frames_written == 0,
        released.reply is Completed,
        removed.reply is Completed,
    ensures
        s.next(released).pending() == Action::RemoveTemporaryFile,
        s.next(released).next(removed).pending() == (Action::Finish {
            error: Some(RecordingError::NoFramesRecorded),
        }),
{
}

/// A loop that failed ends the session with that failure as soon as the
/// writer is released: nothing is re-encoded and nothing removed.
pub proof fn law_failed_capture_skips_reencode(s: SessionModel, released: Event)
    requires
        s.stage is ReleasingWriter,
        s.capture.phase matches crate::capture::LoopPhase::Stopped { exit } && exit.error_spec() is Some,
        released.reply is Completed,
    ensures
        s.next(released).pending() matches Action::Finish { error: Some(e) }
            && e.class_spec() == crate::error::ErrorClass::Capture,
{
}

/// A failure of the re-encoder ends the session at once, leaving the
/// temporary file where it is; only a clean re-encode has it removed.
pub proof fn law_reencode_failure_keeps_temporary(s: SessionModel, event: Event)
    requires
        s.wf(),
        s.stage is Reencoding,
    ensures
        s.next(event).pending() is RemoveTemporaryFile <==> s.reencode.next(event).phase == (
        crate::reencode::ReencodePhase::Finished { error: None }),
        s.reencode.next(event).phase matches crate::reencode::ReencodePhase::Finished {
            error: Some(e),
        } ==> s.next(event).pending() == (Action::Finish { error: Some(e) }),
{
}

/// Once the capture loop of a session has stopped, nothing the session
/// does afterwards touches it.
proof fn lemma_capture_runs_inside_session(s: SessionModel, events: Seq<Event>)
    requires
        s.stage is Capturing,
        !(s.capture.phase is Stopped),
    ensures
        s.run(events).capture == s.capture.run(events),
        s.run(events).stage is Capturing ==> !(s.run(events).capture.phase is Stopped),
        !(s.run(events).stage is Capturing) ==> s.run(events).capture.phase is Stopped && (
        s.run(events).stage is ReleasingWriter || s.run(events).stage is Reencoding || s.run(
            events,
        ).stage is RemovingTemporary || s.run(events).stage is Done),
    decreases events.len(),
{
    if events.len() > 0 {
        lemma_capture_runs_inside_session(s, events.drop_last());
    }
}

/// Once every poll finds the stop flag set, a capturing session completes
/// at most one more write, asks for no new one, and leaves the capture
/// stage after at most four answered actions.
pub proof fn law_session_honors_cancellation(s: SessionModel, events: Seq<Event>)
    requires
        s.stage is Capturing,
        !(s.capture.phase is Stopped),
        s.capture.stop_requested_throughout(events),
    ensures
        s.run(events).capture.frames_written <= s.capture.frames_written + 1,
        s.run(events).capture.frames_written > s.capture.frames_written ==> s.capture.phase is Writing,
        events.len() >= 4 ==> !(s.run(events).stage is Capturing),
{
    lemma_capture_runs_inside_session(s, events);
    crate::capture_laws::law_cancellation_honored(s.capture, events);
}

/// Every write the session ever asks of the capture loop carries a frame
/// twice as wide as the configured frame and just as high.
pub proof fn law_session_writes_composites(config: CaptureConfig, events: Seq<Event>)
    requires
        config.wf(),
    ensures
        SessionModel::init(config).run(events).pending() matches Action::Capture {
            capture: LoopAction::WriteComposite { shape },
        } ==> shape.cols == 2 * config.cols && shape.rows == config.rows,
{
    law_init_wf(config);
    law_run_keeps_wf(SessionModel::init(config), events);
}

} // verus!
