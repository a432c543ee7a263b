use vstd::prelude::*;

use crate::chunk::{chunk_frames, frames_per_chunk};
use crate::error::PipelineError;
use crate::resolution::{compute_target_resolution, has_target_resolution, target_width, TARGET_HEIGHT};
use crate::stream::StreamDescriptor;

verus! {

/// Where the control loop stands.
#[derive(Debug, Clone, Copy, PartialEq, Eq, Structural)]
pub enum Phase {
    /// Waiting for the next packet of the container.
    ReadingPackets,
    /// A video packet was submitted; frames are drained until the decoder has none.
    DrainingPacket,
    /// End of stream was signalled; the decoder's buffered frames are drained.
    DrainingAfterEof,
    /// Every packet was consumed and the final drain is over.
    Finished,
    /// A stage failed; the run is over.
    Failed,
}

/// What the outside world reports to the control loop.
#[derive(Debug, Clone, Copy, PartialEq, Eq, Structural)]
pub enum Event {
    /// The next packet of the container was read; it belongs to stream `stream_index`.
    PacketRead { stream_index: usize },
    /// The container has no more packets.
    PacketsExhausted,
    /// The decoder handed out a frame.
    FrameDecoded,
    /// The decoder has no frame available without more input.
    DecoderEmpty,
    /// Reading, decoding, rescaling or processing failed.
    StageFailed { error: PipelineError },
}

/// What the control loop asks the outside world to do next.
#[derive(Debug, Clone, Copy, PartialEq, Eq, Structural)]
pub enum Action {
    /// Read the next packet of the container (the current one, if any, is discarded).
    ReadPacket,
    /// Submit the packet just read to the decoder, then ask it for a frame.
    SubmitPacket,
    /// Rescale the frame just decoded, hand it to the frame processor under `index`,
    /// then ask the decoder for another frame.
    ProcessFrame { index: u64 },
    /// Signal end of stream to the decoder, then ask it for a frame.
    SendEof,
    /// The run is complete.
    Finish,
    /// The run ends with `error`.
    Abort { error: PipelineError },
}

/// The mutable part of a run: the phase and the index that the next frame gets.
/// The index is kept wider than a frame index so that `u64::MAX` itself can be given
/// out; once it has been, no further frame is taken.
#[derive(Debug, Clone, Copy, PartialEq, Eq, Structural)]
pub struct PipelineState {
    pub phase: Phase,
    pub next_index: u128,
}

/// State of a run before the first packet is read.
pub open spec fn initial_state() -> PipelineState {
    PipelineState { phase: Phase::ReadingPackets, next_index: 0 }
}

/// Whether `e` can happen in state `s`: packet events while reading packets, decoder
/// events while draining, a failure in either; nothing once the run is over. A frame
/// needs an index left to give.
pub open spec fn accepts_event(s: PipelineState, e: Event) -> bool {
    match s.phase {
        Phase::ReadingPackets => e is PacketRead || e is PacketsExhausted || e is StageFailed,
        Phase::DrainingPacket | Phase::DrainingAfterEof => {
            ||| e is DecoderEmpty
            ||| e is StageFailed
            ||| (e is FrameDecoded && s.next_index <= u64::MAX)
        },
        Phase::Finished | Phase::Failed => false,
    }
}

/// One transition of the control loop for the video stream `video`: the next state and
/// the action to perform.
pub open spec fn next(s: PipelineState, video: usize, e: Event) -> (PipelineState, Action) {
    match e {
        Event::StageFailed { error } => (
            PipelineState { phase: Phase::Failed, ..s },
            Action::Abort { error },
        ),
        Event::PacketRead { stream_index } => if stream_index == video {
            (PipelineState { phase: Phase::DrainingPacket, ..s }, Action::SubmitPacket)
        } else {
            (s, Action::ReadPacket)
        },
        Event::PacketsExhausted => (
            PipelineState { phase: Phase::DrainingAfterEof, ..s },
            Action::SendEof,
        ),
        Event::FrameDecoded => (
            PipelineState { next_index: (s.next_index + 1) as u128, ..s },
            Action::ProcessFrame { index: s.next_index as u64 },
        ),
        Event::DecoderEmpty => if s.phase == Phase::DrainingAfterEof {
            (PipelineState { phase: Phase::Finished, ..s }, Action::Finish)
        } else {
            (PipelineState { phase: Phase::ReadingPackets, ..s }, Action::ReadPacket)
        },
    }
}

/// State and actions after feeding `events`, in order, from state `s`.
pub open spec fn run(s: PipelineState, video: usize, events: Seq<Event>) -> (
    PipelineState,
    Seq<Action>,
)
    decreases events.len(),
{
    if events.len() == 0 {
        (s, Seq::empty())
    } else {
        let (s1, actions) = run(s, video, events.drop_last());
        let (s2, a) = next(s1, video, events.last());
        (s2, actions.push(a))
    }
}

/// Every event of `events` is accepted in the state that the events before it lead to.
pub open spec fn run_accepted(s: PipelineState, video: usize, events: Seq<Event>) -> bool {
    forall|i: int|
        0 <= i < events.len() ==> #[trigger] accepts_event(
            run(s, video, events.take(i)).0,
            events[i],
        )
}

/// The indices handed to the frame processor by `actions`, in order.
pub open spec fn processed_indices(actions: Seq<Action>) -> Seq<u64>
    decreases actions.len(),
{
    if actions.len() == 0 {
        Seq::empty()
    } else {
        let before = processed_indices(actions.drop_last());
        match actions.last() {
            Action::ProcessFrame { index } => before.push(index),
            _ => before,
        }
    }
}

/// How many frames the decoder handed out in `events`.
pub open spec fn frames_decoded(events: Seq<Event>) -> nat
    decreases events.len(),
{
    if events.len() == 0 {
        0
    } else {
        frames_decoded(events.drop_last()) + if events.last() is FrameDecoded {
            1nat
        } else {
            0nat
        }
    }
}

/// The indices `0, 1, ..., n - 1`.
pub open spec fn index_range(n: nat) -> Seq<u64> {
    Seq::new(n, |i: int| i as u64)
}

/// Over any sequence of accepted events from the start of a run, the frame indices
/// handed to the processor are exactly `0, 1, ..., N - 1`, in that order, where `N`
/// is the number of frames the decoder handed out, counting every drain and the
/// final one after end of stream; the next index is `N`.
pub proof fn lemma_indices_contiguous(video: usize, events: Seq<Event>)
    requires
        run_accepted(initial_state(), video, events),
    ensures
        processed_indices(run(initial_state(), video, events).1) == index_range(
            frames_decoded(events),
        ),
        run(initial_state(), video, events).0.next_index == frames_decoded(events),
    decreases events.len(),
{
    let s0 = initial_state();
    if events.len() == 0 {
        assert(processed_indices(Seq::<Action>::empty()) =~= index_range(0));
    } else {
        let prefix = events.drop_last();
        assert forall|i: int| 0 <= i < prefix.len() implies #[trigger] accepts_event(
            run(s0, video, prefix.take(i)).0,
            prefix[i],
        ) by {
            assert(prefix.take(i) =~= events.take(i));
            assert(accepts_event(run(s0, video, events.take(i)).0, events[i]));
        }
        lemma_indices_contiguous(video, prefix);
        let last = events.len() - 1;
        assert(events.take(last) =~= prefix);
        assert(accepts_event(run(s0, video, events.take(last)).0, events[last]));
        let (s1, actions) = run(s0, video, prefix);
        let (s2, a) = next(s1, video, events.last());
        assert(run(s0, video, events) == (s2, actions.push(a)));
        assert(actions.push(a).drop_last() =~= actions);
        let n = frames_decoded(prefix);
        if events.last() is FrameDecoded {
            assert(index_range(n).push(n as u64) =~= index_range(n + 1));
        }
    }
}

/// A video packet that the decoder buffers without a frame, then a video packet after
/// which it hands out two frames before running dry.
pub open spec fn buffered_then_two_frames(video: usize) -> Seq<Event> {
    seq![
        Event::PacketRead { stream_index: video },
        Event::DecoderEmpty,
        Event::PacketRead { stream_index: video },
        Event::FrameDecoded,
        Event::FrameDecoded,
        Event::DecoderEmpty,
    ]
}

/// When the decoder emits no frame for one packet and two for the next, nothing is
/// processed after the first packet, and the drain after the second hands exactly
/// those two frames to the processor, under consecutive indices, before the next
/// packet is read. Both indices must be frame indices, so the first is below
/// `u64::MAX`.
pub proof fn lemma_buffered_frames_drained_together(s: PipelineState, video: usize)
    requires
        s.phase == Phase::ReadingPackets,
        s.next_index < u64::MAX,
    ensures
        run_accepted(s, video, buffered_then_two_frames(video)),
        run(s, video, buffered_then_two_frames(video)).1 == (seq![
            Action::SubmitPacket,
            Action::ReadPacket,
            Action::SubmitPacket,
            Action::ProcessFrame { index: s.next_index as u64 },
            Action::ProcessFrame { index: (s.next_index + 1) as u64 },
            Action::ReadPacket,
        ]),
        run(s, video, buffered_then_two_frames(video)).0 == (PipelineState {
            phase: Phase::ReadingPackets,
            next_index: (s.next_index + 2) as u128,
        }),
{
    let events = buffered_then_two_frames(video);
    assert(events.take(0) =~= Seq::<Event>::empty());
    let r0 = run(s, video, events.take(0));
    let r1 = run(s, video, events.take(1));
    let r2 = run(s, video, events.take(2));
    let r3 = run(s, video, events.take(3));
    let r4 = run(s, video, events.take(4));
    let r5 = run(s, video, events.take(5));
    let r6 = run(s, video, events.take(6));
    assert(events.take(1).drop_last() =~= events.take(0));
    assert(events.take(2).drop_last() =~= events.take(1));
    assert(events.take(3).drop_last() =~= events.take(2));
    assert(events.take(4).drop_last() =~= events.take(3));
    assert(events.take(5).drop_last() =~= events.take(4));
    assert(events.take(6).drop_last() =~= events.take(5));
    assert(r0.0 == s);
    assert(r1.0.phase == Phase::DrainingPacket && r1.0.next_index == s.next_index);
    assert(r2.0.phase == Phase::ReadingPackets && r2.0.next_index == s.next_index);
    assert(r3.0.phase == Phase::DrainingPacket && r3.0.next_index == s.next_index);
    assert(r4.0.phase == Phase::DrainingPacket && r4.0.next_index == s.next_index + 1);
    assert(r5.0.phase == Phase::DrainingPacket && r5.0.next_index == s.next_index + 2);
    assert(r6.1 =~= seq![
        Action::SubmitPacket,
        Action::ReadPacket,
        Action::SubmitPacket,
        Action::ProcessFrame { index: s.next_index as u64 },
        Action::ProcessFrame { index: (s.next_index + 1) as u64 },
        Action::ReadPacket,
    ]);
    assert(events.take(6) =~= events);
}

/// One run of the pipeline over a chosen video stream: the target resolution and
/// chunk size fixed at the start, and the state of the control loop.
#[derive(Debug, Clone, Copy, PartialEq, Eq, Structural)]
pub struct ChunkPipeline {
    pub stream: StreamDescriptor,
    pub dest_width: u32,
    pub dest_height: u32,
    pub frames_per_chunk: Option<i64>,
    pub state: PipelineState,
}

impl ChunkPipeline {
    /// Starts a run over `stream`, whose frames are `source_width` by `source_height`,
    /// with chunks of `chunk_duration_sec` seconds. Fails with `RescaleError` when the
    /// source has no target resolution.
    pub fn new(
        stream: StreamDescriptor,
        source_width: u32,
        source_height: u32,
        chunk_duration_sec: u32,
    ) -> (r: Result<ChunkPipeline, PipelineError>)
        ensures
            match r {
                Ok(p) => {
                    &&& has_target_resolution(source_width as nat, source_height as nat)
                    &&& p.stream == stream
                    &&& p.dest_width == target_width(source_width as nat, source_height as nat)
                    &&& p.dest_height == TARGET_HEIGHT
                    &&& p.frames_per_chunk == (if stream.rate_den == 0 {
                        None
                    } else {
                        Some(
                            chunk_frames(
                                stream.rate_num as int,
                                stream.rate_den as int,
                                chunk_duration_sec as int,
                            ) as i64,
                        )
                    })
                    &&& p.state == initial_state()
                },
                Err(e) => !has_target_resolution(source_width as nat, source_height as nat) && e
                    == PipelineError::RescaleError,
            },
    {
        let (dest_width, dest_height) = match compute_target_resolution(
            source_width,
            source_height,
        ) {
            Ok(size) => size,
            Err(e) => return Err(e),
        };
        let chunk = frames_per_chunk(stream.rate_num, stream.rate_den, chunk_duration_sec);
        Ok(
            ChunkPipeline {
                stream,
                dest_width,
                dest_height,
                frames_per_chunk: chunk,
                state: PipelineState { phase: Phase::ReadingPackets, next_index: 0 },
            },
        )
    }

    /// Whether the control loop can take `event` now.
    pub fn accepts(&self, event: &Event) -> (r: bool)
        ensures
            r == accepts_event(self.state, *event),
    {
        match self.state.phase {
            Phase::ReadingPackets => match event {
                Event::PacketRead { .. } | Event::PacketsExhausted | Event::StageFailed {
                    ..
                } => true,
                _ => false,
            },
            Phase::DrainingPacket | Phase::DrainingAfterEof => match event {
                Event::DecoderEmpty | Event::StageFailed { .. } => true,
                Event::FrameDecoded => self.state.next_index <= u64::MAX as u128,
                _ => false,
            },
            Phase::Finished | Phase::Failed => false,
        }
    }

    /// Takes one event and returns the action to perform next. A video packet is
    /// submitted and then drained; a packet of any other stream is discarded; each
    /// decoded frame gets the next index; end of packets leads to end of stream and a
    /// final drain; a failure ends the run.
    pub fn step(&mut self, event: Event) -> (a: Action)
        requires
            accepts_event(old(self).state, event),
        ensures
            (final(self).state, a) == next(old(self).state, old(self).stream.index, event),
            final(self).stream == old(self).stream,
            final(self).dest_width == old(self).dest_width,
            final(self).dest_height == old(self).dest_height,
            final(self).frames_per_chunk == old(self).frames_per_chunk,
    {
        match event {
            Event::StageFailed { error } => {
                self.state.phase = Phase::Failed;
                Action::Abort { error }
            },
            Event::PacketRead { stream_index } => {
                if stream_index == self.stream.index {
                    self.state.phase = Phase::DrainingPacket;
                    Action::SubmitPacket
                } else {
                    Action::ReadPacket
                }
            },
            Event::PacketsExhausted => {
                self.state.phase = Phase::DrainingAfterEof;
                Action::SendEof
            },
            Event::FrameDecoded => {
                let index = self.state.next_index;
                self.state.next_index = index + 1;
                Action::ProcessFrame { index: index as u64 }
            },
            Event::DecoderEmpty => {
                if self.state.phase == Phase::DrainingAfterEof {
                    self.state.phase = Phase::Finished;
                    Action::Finish
                } else {
                    self.state.phase = Phase::ReadingPackets;
                    Action::ReadPacket
                }
            },
        }
    }
}

} // verus!
