//! What holds of every run of the capture loop.

use vstd::prelude::*;
use crate::capture::{CaptureModel, LoopAction, LoopExit, LoopPhase};
use crate::frame::CaptureConfig;
use crate::protocol::{Event, Reply};

verus! {

/// A loop starts well formed.
pub proof fn law_init_wf(config: CaptureConfig, started_at: u64)
    requires
        config.wf(),
    ensures
        CaptureModel::init(config, started_at).wf(),
        CaptureModel::init(config, started_at).pending() == LoopAction::PollCancellation,
{
    let rate = config.requested_rate_spec();
    crate::timing::lemma_nearest_quotient(rate.nanos as int, rate.frames as int);
}

/// Every state a run passes through is well formed.
pub proof fn law_run_keeps_wf(s: CaptureModel, events: Seq<Event>)
    requires
        s.wf(),
    ensures
        s.run(events).wf(),
    decreases events.len(),
{
    if events.len() > 0 {
        law_run_keeps_wf(s, events.drop_last());
        crate::capture::lemma_next_keeps_wf(s.run(events.drop_last()), events.last());
    }
}

/// Whenever the loop asks for a write, the frame to be written is twice
/// as wide as the configured frame and just as high, whether or not the
/// camera frames had to be resized.
pub proof fn law_written_frames_have_composite_size(s: CaptureModel)
    requires
        s.wf(),
    ensures
        s.pending() matches LoopAction::WriteComposite { shape } ==> shape.cols == 2
            * s.config.cols && shape.rows == s.config.rows,
{
}

/// The same along a whole run from the start: every write that is ever
/// asked for carries a frame of the composite size.
pub proof fn law_every_write_has_composite_size(
    config: CaptureConfig,
    started_at: u64,
    events: Seq<Event>,
)
    requires
        config.wf(),
    ensures
        CaptureModel::init(config, started_at).run(events).pending() matches LoopAction::WriteComposite {
            shape,
        } ==> shape.cols == 2 * config.cols && shape.rows == config.rows,
{
    let init = CaptureModel::init(config, started_at);
    law_init_wf(config, started_at);
    law_run_keeps_wf(init, events);
    lemma_run_keeps_config(init, events);
}

/// A run never changes the configuration or the clock reading it began at.
pub proof fn lemma_run_keeps_config(s: CaptureModel, events: Seq<Event>)
    ensures
        s.run(events).config == s.config,
        s.run(events).interval == s.interval,
        s.run(events).started_at == s.started_at,
    decreases events.len(),
{
    if events.len() > 0 {
        lemma_run_keeps_config(s, events.drop_last());
    }
}

/// A write is asked for only in answer to a poll that found the flag unset,
/// and a stopped loop stays stopped.
pub proof fn law_write_follows_clear_poll(s: CaptureModel, event: Event)
    ensures
        s.next(event).phase is Writing && !(s.phase is Writing) ==> s.phase is PollBeforeWrite
            && event.reply == (Reply::Flag { set: false }),
        s.phase is Stopped ==> s.next(event) == s,
        s.next(event).frames_written == s.frames_written || (s.phase is Writing
            && s.next(event).frames_written == s.frames_written + 1),
{
}

/// One if a write has been asked for and not answered yet, zero otherwise.
pub open spec fn writes_under_way(phase: LoopPhase) -> nat {
    if phase is Writing {
        1
    } else {
        0
    }
}

/// One answered step under a set flag brings the loop strictly nearer to
/// its stop, and can complete only a write that was already under way.
proof fn lemma_step_under_stop_request(s: CaptureModel, event: Event)
    requires
        s.phase is Stopped || s.answers(event.reply),
        event.reply matches Reply::Flag { set } ==> set,
    ensures
        s.phase is Stopped ==> s.next(event) == s,
        !(s.phase is Stopped) ==> s.next(event).phase.stop_distance() < s.phase.stop_distance(),
        !(s.next(event).phase is Writing),
        s.next(event).frames_written + writes_under_way(s.next(event).phase) <= s.frames_written
            + writes_under_way(s.phase),
{
}

/// The same over a whole run under a standing stop request.
proof fn lemma_run_under_stop_request(s: CaptureModel, events: Seq<Event>)
    requires
        s.stop_requested_throughout(events),
    ensures
        s.run(events).frames_written + writes_under_way(s.run(events).phase) <= s.frames_written
            + writes_under_way(s.phase),
        s.run(events).phase.stop_distance() + events.len() <= s.phase.stop_distance()
            || s.run(events).phase is Stopped,
    decreases events.len(),
{
    if events.len() > 0 {
        lemma_run_under_stop_request(s, events.drop_last());
        lemma_step_under_stop_request(s.run(events.drop_last()), events.last());
    }
}

/// From any state, once every poll finds the stop flag set, the loop
/// completes at most one more write, and only one that was already under
/// way; it asks for no new one; and after at most four answered actions it
/// has stopped.
pub proof fn law_cancellation_honored(s: CaptureModel, events: Seq<Event>)
    requires
        s.stop_requested_throughout(events),
    ensures
        s.run(events).frames_written <= s.frames_written + 1,
        s.run(events).frames_written > s.frames_written ==> s.phase is Writing,
        events.len() >= s.phase.stop_distance() ==> s.run(events).phase is Stopped,
        s.phase.stop_distance() <= 4,
        events.len() >= 4 ==> s.run(events).phase is Stopped,
{
    lemma_run_under_stop_request(s, events);
}

/// The loop stops for one of two reasons only: a poll found the stop flag
/// set, or a resize, a join or a write failed. Dropped frames never stop
/// it, however many there are, and there is no time limit.
pub proof fn law_stop_has_a_cause(s: CaptureModel, event: Event)
    requires
        s.wf(),
        !(s.phase is Stopped),
        s.next(event).phase is Stopped,
    ensures
        match s.next(event).phase {
            LoopPhase::Stopped { exit: LoopExit::Cancelled } => event.reply == (Reply::Flag {
                set: true,
            }) && s.pending() == LoopAction::PollCancellation,
            LoopPhase::Stopped { exit: LoopExit::ResizeFailed } => event.reply == (
            Reply::Completed { ok: false }) && s.phase is Resizing,
            LoopPhase::Stopped { exit: LoopExit::ComposeFailed } => event.reply == (
            Reply::Completed { ok: false }) && s.phase is Composing,
            LoopPhase::Stopped { exit: LoopExit::WriteFailed } => event.reply == (
            Reply::Completed { ok: false }) && s.phase is Writing,
            _ => false,
        },
{
    crate::frame::lemma_joined_targets(s.config);
}

/// A loop that finds the flag set at its very first poll stops at once,
/// having counted and written nothing.
pub proof fn law_stop_before_first_iteration(config: CaptureConfig, started_at: u64, at: u64)
    ensures
        ({
            let stopped = CaptureModel::init(config, started_at).next(
                Event { at_nanos: at, reply: Reply::Flag { set: true } },
            );
            &&& stopped.pending() == LoopAction::Stop { exit: LoopExit::Cancelled }
            &&& stopped.frames_written == 0
            &&& stopped.valid_frames == 0
        }),
{
}

/// Dropped frames are never counted: while the loop goes round the retry
/// path, both counters stand still.
pub proof fn law_dropped_frames_are_not_counted(s: CaptureModel, event: Event)
    requires
        s.phase is Reading,
        event.reply matches Reply::Frames { primary, secondary } && (!primary.usable_spec()
            || !secondary.usable_spec()),
    ensures
        s.next(event).phase is PollAfterDrop,
        s.next(event).valid_frames == s.valid_frames,
        s.next(event).frames_written == s.frames_written,
{
}

} // verus!
