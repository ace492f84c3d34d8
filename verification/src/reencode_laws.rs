//! What holds of every run of the re-encoder.

use vstd::prelude::*;
use crate::error::RecordingError;
use crate::protocol::{Event, Reply, StreamRead};
use crate::reencode::{ReencodeAction, ReencodeModel, ReencodePhase};
use crate::timing::FrameRate;

verus! {

/// No read so far has ended the stream: all of them brought a frame.
pub open spec fn stream_live(reads: Seq<StreamRead>) -> bool {
    forall|i: int| 0 <= i < reads.len() ==> (#[trigger] reads[i]) is Frame
}

/// The positions, in rising order, of the reads whose frame belongs in the
/// final file: the frames that hold pixels and come before the first end of
/// stream or failure.
pub open spec fn frames_to_copy(reads: Seq<StreamRead>) -> Seq<int>
    decreases reads.len(),
{
    if reads.len() == 0 {
        Seq::empty()
    } else {
        let before = frames_to_copy(reads.drop_last());
        if stream_live(reads.drop_last()) && reads.last() == (StreamRead::Frame { empty: false }) {
            before.push(reads.len() - 1)
        } else {
            before
        }
    }
}

/// The reply that carries `read`.
pub open spec fn read_event(read: StreamRead) -> Event {
    Event { at_nanos: 0, reply: Reply::StreamFrame { read } }
}

/// The reply that reports a successful write.
pub open spec fn written_event() -> Event {
    Event { at_nanos: 0, reply: Reply::Completed { ok: true } }
}

impl ReencodeModel {
    /// The re-encoder after the caller has answered its reads with `reads`,
    /// one by one, and carried out every write it asked for in between.
    pub open spec fn copy(self, reads: Seq<StreamRead>) -> ReencodeModel
        decreases reads.len(),
    {
        if reads.len() == 0 {
            self
        } else {
            let before = self.copy(reads.drop_last());
            let after = before.next(read_event(reads.last()));
            if before.phase is Reading && after.phase is Writing {
                after.next(written_event())
            } else {
                after
            }
        }
    }

    /// The positions of the reads that the re-encoder answered by asking
    /// for a write, in the order in which it asked.
    pub open spec fn copy_log(self, reads: Seq<StreamRead>) -> Seq<int>
        decreases reads.len(),
    {
        if reads.len() == 0 {
            Seq::empty()
        } else {
            let before = self.copy(reads.drop_last());
            let log = self.copy_log(reads.drop_last());
            if before.phase is Reading && before.next(read_event(reads.last())).phase is Writing {
                log.push(reads.len() - 1)
            } else {
                log
            }
        }
    }
}

/// A re-encoder starts well formed, asking for the temporary file.
pub proof fn law_init_wf(rate: FrameRate)
    ensures
        ReencodeModel::init(rate).wf(),
        ReencodeModel::init(rate).pending() == ReencodeAction::OpenInput,
{
}

/// One transition keeps a well-formed re-encoder well formed, and never
/// touches the rate it was given.
pub proof fn law_next_keeps_wf(s: ReencodeModel, event: Event)
    requires
        s.wf(),
    ensures
        s.next(event).wf(),
        s.next(event).rate == s.rate,
{
}

/// Every state a run passes through is well formed.
pub proof fn law_run_keeps_wf(s: ReencodeModel, events: Seq<Event>)
    requires
        s.wf(),
    ensures
        s.run(events).wf(),
        s.run(events).rate == s.rate,
    decreases events.len(),
{
    if events.len() > 0 {
        law_run_keeps_wf(s, events.drop_last());
        law_next_keeps_wf(s.run(events.drop_last()), events.last());
    }
}

/// The final file is opened with the rate the re-encoder was made with and
/// the frame size reported for the temporary file, whatever ran before.
pub proof fn law_output_has_given_rate(rate: FrameRate, events: Seq<Event>)
    ensures
        ReencodeModel::init(rate).run(events).pending() matches ReencodeAction::OpenOutput {
            rate: stamped,
            ..
        } ==> stamped == rate,
    decreases events.len(),
{
    law_init_wf(rate);
    law_run_keeps_wf(ReencodeModel::init(rate), events);
}

/// A finished re-encoder holds no writer: on every path that opened the
/// final writer, the writer was released before the end was reported.
pub proof fn law_finished_holds_nothing(rate: FrameRate, events: Seq<Event>)
    ensures
        ReencodeModel::init(rate).run(events).phase is Finished ==> !ReencodeModel::init(rate).run(
            events,
        ).output_held,
{
    law_init_wf(rate);
    law_run_keeps_wf(ReencodeModel::init(rate), events);
}

/// The positions to copy rise strictly and all lie within the reads.
pub proof fn lemma_frames_to_copy_rise(reads: Seq<StreamRead>)
    ensures
        frames_to_copy(reads).len() <= reads.len(),
        forall|k: int|
            0 <= k < frames_to_copy(reads).len() ==> 0 <= (#[trigger] frames_to_copy(reads)[k])
                < reads.len() && reads[frames_to_copy(reads)[k]] == (StreamRead::Frame {
                empty: false,
            }),
        forall|j: int, k: int|
            0 <= j < k < frames_to_copy(reads).len() ==> (#[trigger] frames_to_copy(reads)[j])
                < (#[trigger] frames_to_copy(reads)[k]),
    decreases reads.len(),
{
    if reads.len() > 0 {
        lemma_frames_to_copy_rise(reads.drop_last());
    }
}

/// While the stream is live, every frame that holds pixels is among the
/// positions to copy: none is dropped.
pub proof fn lemma_live_frames_are_copied(reads: Seq<StreamRead>, i: int)
    requires
        stream_live(reads),
        0 <= i < reads.len(),
        reads[i] == (StreamRead::Frame { empty: false }),
    ensures
        frames_to_copy(reads).contains(i),
    decreases reads.len(),
{
    let before = reads.drop_last();
    assert(stream_live(before)) by {
        assert forall|j: int| 0 <= j < before.len() implies (#[trigger] before[j]) is Frame by {
            assert(before[j] == reads[j]);
        }
    }
    if i == reads.len() - 1 {
        let log = frames_to_copy(reads);
        assert(log == frames_to_copy(before).push(i));
        assert(log[log.len() - 1] == i);
    } else {
        lemma_live_frames_are_copied(before, i);
        let k = choose|k: int|
            0 <= k < frames_to_copy(before).len() && frames_to_copy(before)[k] == i;
        assert(frames_to_copy(reads)[k] == i);
    }
}

/// Copying moves the re-encoder between reading and releasing only, counts
/// one copied frame for each position to copy, and asks for writes at just
/// those positions, in that order.
proof fn lemma_copy(s: ReencodeModel, reads: Seq<StreamRead>)
    requires
        s.phase is Reading,
    ensures
        s.copy_log(reads) == frames_to_copy(reads),
        s.copy(reads).frames_copied == s.frames_copied + frames_to_copy(reads).len(),
        stream_live(reads) ==> s.copy(reads).phase is Reading,
        !stream_live(reads) ==> s.copy(reads).phase is Releasing,
        s.copy(reads).rate == s.rate,
    decreases reads.len(),
{
    if reads.len() > 0 {
        let before = reads.drop_last();
        lemma_copy(s, before);
        assert forall|j: int| 0 <= j < before.len() implies before[j] == reads[j] by {}
        if stream_live(before) {
            if reads.last() is Frame {
                assert forall|j: int| 0 <= j < reads.len() implies (#[trigger] reads[j]) is Frame by {
                    if j < before.len() {
                        assert(before[j] is Frame);
                    }
                }
            } else {
                assert(!(reads[reads.len() - 1] is Frame));
            }
        } else {
            let j = choose|j: int| 0 <= j < before.len() && !((#[trigger] before[j]) is Frame);
            assert(!(reads[j] is Frame));
        }
    }
}

/// A re-encoder that has reached its copying phase asks for a write at
/// exactly the reads that brought a frame with pixels before the stream
/// ended, in the order in which they were read, each of them once; empty
/// frames are passed over without halting.
pub proof fn law_copy_preserves_order(s: ReencodeModel, reads: Seq<StreamRead>)
    requires
        s.phase is Reading,
    ensures
        s.copy_log(reads) == frames_to_copy(reads),
        s.copy(reads).frames_copied == s.frames_copied + frames_to_copy(reads).len(),
        forall|j: int, k: int|
            0 <= j < k < s.copy_log(reads).len() ==> (#[trigger] s.copy_log(reads)[j])
                < (#[trigger] s.copy_log(reads)[k]),
        forall|i: int|
            0 <= i < reads.len() && stream_live(reads.take(i)) && reads[i] == (StreamRead::Frame {
                empty: false,
            }) ==> s.copy_log(reads).contains(i),
{
    lemma_copy(s, reads);
    lemma_frames_to_copy_rise(reads);
    assert forall|i: int|
        0 <= i < reads.len() && stream_live(reads.take(i)) && reads[i] == (StreamRead::Frame {
            empty: false,
        }) implies s.copy_log(reads).contains(i) by {
        lemma_copy_of_prefix(reads, i + 1);
        let head = reads.take(i + 1);
        assert(stream_live(head)) by {
            assert forall|j: int| 0 <= j < head.len() implies (#[trigger] head[j]) is Frame by {
                if j < i {
                    assert(reads.take(i)[j] == head[j]);
                }
            }
        }
        lemma_live_frames_are_copied(head, i);
        let k = choose|k: int|
            0 <= k < frames_to_copy(head).len() && frames_to_copy(head)[k] == i;
        assert(frames_to_copy(reads)[k] == i);
    }
}

/// The positions to copy among the first `n` reads open the positions to
/// copy among all of them.
proof fn lemma_copy_of_prefix(reads: Seq<StreamRead>, n: int)
    requires
        0 <= n <= reads.len(),
    ensures
        frames_to_copy(reads.take(n)).len() <= frames_to_copy(reads).len(),
        forall|k: int|
            0 <= k < frames_to_copy(reads.take(n)).len() ==> (#[trigger] frames_to_copy(reads)[k])
                == frames_to_copy(reads.take(n))[k],
    decreases reads.len() - n,
{
    if n < reads.len() {
        lemma_copy_of_prefix(reads, n + 1);
        assert(reads.take(n + 1).drop_last() == reads.take(n));
    } else {
        assert(reads.take(n) == reads);
    }
}

/// What reading a sound file of `n` frames brings: `n` frames with pixels,
/// then the end of the stream.
pub open spec fn sound_stream(n: nat) -> Seq<StreamRead> {
    Seq::new(
        n + 1,
        |i: int|
            if i < n {
                StreamRead::Frame { empty: false }
            } else {
                StreamRead::EndOfStream
            },
    )
}

/// Where every read brings a frame with pixels, every position is copied.
proof fn lemma_all_frames_are_copied(reads: Seq<StreamRead>)
    requires
        forall|i: int| 0 <= i < reads.len() ==> reads[i] == (StreamRead::Frame { empty: false }),
    ensures
        stream_live(reads),
        frames_to_copy(reads) == Seq::new(reads.len(), |i: int| i),
    decreases reads.len(),
{
    if reads.len() > 0 {
        lemma_all_frames_are_copied(reads.drop_last());
        assert(frames_to_copy(reads) =~= Seq::new(reads.len(), |i: int| i));
    } else {
        assert(frames_to_copy(reads) =~= Seq::new(reads.len(), |i: int| i));
    }
}

/// Frame order and count are kept exactly: from a sound file of `n` frames
/// the re-encoder writes `n` frames, the first read first and the last
/// read last, and then asks to release the writer with no failure to
/// report.
pub proof fn law_sound_stream_is_copied_whole(s: ReencodeModel, n: nat)
    requires
        s.phase is Reading,
    ensures
        s.copy_log(sound_stream(n)) == Seq::new(n, |i: int| i),
        s.copy(sound_stream(n)).frames_copied == s.frames_copied + n,
        s.copy(sound_stream(n)).frames_skipped == s.frames_skipped,
        s.copy(sound_stream(n)).phase == (ReencodePhase::Releasing { error: None }),
{
    let reads = sound_stream(n);
    let frames = reads.drop_last();
    lemma_all_frames_are_copied(frames);
    lemma_copy(s, frames);
    lemma_copy(s, reads);
    lemma_copy_keeps_skipped(s, frames);
    assert(reads.last() == StreamRead::EndOfStream);
    assert(frames_to_copy(reads) == frames_to_copy(frames));
    assert(frames.len() == n);
}

/// Reads that all bring pixels leave the count of skipped frames alone.
proof fn lemma_copy_keeps_skipped(s: ReencodeModel, reads: Seq<StreamRead>)
    requires
        s.phase is Reading,
        forall|i: int| 0 <= i < reads.len() ==> reads[i] == (StreamRead::Frame { empty: false }),
    ensures
        s.copy(reads).frames_skipped == s.frames_skipped,
        s.copy(reads).phase is Reading,
    decreases reads.len(),
{
    if reads.len() > 0 {
        lemma_copy_keeps_skipped(s, reads.drop_last());
    }
}

/// On the end of the stream the writer is released and success reported.
pub proof fn law_end_of_stream_finishes(s: ReencodeModel, released: Event)
    requires
        s.phase is Reading,
        released.reply is Completed,
    ensures
        s.next(read_event(StreamRead::EndOfStream)).pending() == ReencodeAction::ReleaseOutput,
        s.next(read_event(StreamRead::EndOfStream)).next(released).pending()
            == (ReencodeAction::Finish { error: None }),
        !s.next(read_event(StreamRead::EndOfStream)).next(released).output_held,
{
}

/// A failed read or write ends the copy with that failure, after the
/// writer has been released.
pub proof fn law_copy_failures_release_the_writer(s: ReencodeModel, released: Event)
    requires
        released.reply is Completed,
    ensures
        s.phase is Reading ==> s.next(read_event(StreamRead::Failed)).pending()
            == ReencodeAction::ReleaseOutput && s.next(read_event(StreamRead::Failed)).next(
            released,
        ).pending() == (ReencodeAction::Finish {
            error: Some(RecordingError::ReadTemporaryFrame),
        }),
        s.phase is Writing ==> s.next(
            Event { at_nanos: released.at_nanos, reply: Reply::Completed { ok: false } },
        ).pending() == ReencodeAction::ReleaseOutput && s.next(
            Event { at_nanos: released.at_nanos, reply: Reply::Completed { ok: false } },
        ).next(released).pending() == (ReencodeAction::Finish {
            error: Some(RecordingError::WriteFinalFrame),
        }),
{
}

} // verus!
