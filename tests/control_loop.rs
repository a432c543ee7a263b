use video_chunks::error::PipelineError;
use video_chunks::pipeline::{Action, ChunkPipeline, Event, Phase};
use video_chunks::stream::{select_video_stream, MediaType, StreamInfo};

fn info(medium: MediaType) -> StreamInfo {
    StreamInfo { medium, rate_num: 30, rate_den: 1 }
}

fn start(video: usize) -> ChunkPipeline {
    let streams: Vec<StreamInfo> = (0..=video)
        .map(|i| if i == video { info(MediaType::Video) } else { info(MediaType::Audio) })
        .collect();
    let stream = select_video_stream(&streams).unwrap();
    ChunkPipeline::new(stream, 1920, 1080, 2).unwrap()
}

fn feed(p: &mut ChunkPipeline, event: Event) -> Action {
    assert!(p.accepts(&event));
    p.step(event)
}

#[test]
fn first_video_stream_is_selected() {
    let mut streams = vec![info(MediaType::Audio), info(MediaType::Subtitle)];
    streams.push(StreamInfo { medium: MediaType::Video, rate_num: 24000, rate_den: 1001 });
    streams.push(info(MediaType::Video));
    let d = select_video_stream(&streams).unwrap();
    assert_eq!(d.index, 2);
    assert_eq!((d.rate_num, d.rate_den), (24000, 1001));
}

#[test]
fn container_without_video_is_rejected() {
    let streams = vec![info(MediaType::Audio), info(MediaType::Data)];
    assert_eq!(select_video_stream(&streams), Err(PipelineError::NoVideoStream));
    assert_eq!(select_video_stream(&Vec::new()), Err(PipelineError::NoVideoStream));
}

#[test]
fn new_pipeline_fixes_resolution_and_chunk_size() {
    let p = start(0);
    assert_eq!((p.dest_width, p.dest_height), (1280, 720));
    assert_eq!(p.frames_per_chunk, Some(60));
    assert_eq!(p.state.phase, Phase::ReadingPackets);
    assert_eq!(p.state.next_index, 0);
}

#[test]
fn new_pipeline_rejects_zero_height() {
    let stream = select_video_stream(&vec![info(MediaType::Video)]).unwrap();
    assert_eq!(ChunkPipeline::new(stream, 640, 0, 2), Err(PipelineError::RescaleError));
}

#[test]
fn buffered_packet_then_two_frames_are_drained_together() {
    let mut p = start(0);
    // packet k: the decoder buffers it and emits nothing
    assert_eq!(feed(&mut p, Event::PacketRead { stream_index: 0 }), Action::SubmitPacket);
    assert_eq!(feed(&mut p, Event::DecoderEmpty), Action::ReadPacket);
    // packet k + 1: two frames come out
    assert_eq!(feed(&mut p, Event::PacketRead { stream_index: 0 }), Action::SubmitPacket);
    assert_eq!(feed(&mut p, Event::FrameDecoded), Action::ProcessFrame { index: 0 });
    assert_eq!(feed(&mut p, Event::FrameDecoded), Action::ProcessFrame { index: 1 });
    assert_eq!(feed(&mut p, Event::DecoderEmpty), Action::ReadPacket);
    assert_eq!(p.state.next_index, 2);
}

#[test]
fn packets_of_other_streams_are_discarded() {
    let mut p = start(1);
    assert_eq!(feed(&mut p, Event::PacketRead { stream_index: 0 }), Action::ReadPacket);
    assert_eq!(feed(&mut p, Event::PacketRead { stream_index: 2 }), Action::ReadPacket);
    assert_eq!(p.state.phase, Phase::ReadingPackets);
    assert_eq!(feed(&mut p, Event::PacketRead { stream_index: 1 }), Action::SubmitPacket);
}

#[test]
fn end_of_stream_flush_is_drained_and_finishes() {
    let mut p = start(0);
    assert_eq!(feed(&mut p, Event::PacketsExhausted), Action::SendEof);
    assert_eq!(feed(&mut p, Event::FrameDecoded), Action::ProcessFrame { index: 0 });
    assert_eq!(feed(&mut p, Event::FrameDecoded), Action::ProcessFrame { index: 1 });
    assert_eq!(feed(&mut p, Event::DecoderEmpty), Action::Finish);
    assert_eq!(p.state.phase, Phase::Finished);
    assert!(!p.accepts(&Event::PacketsExhausted));
    assert!(!p.accepts(&Event::FrameDecoded));
}

#[test]
fn indices_are_contiguous_across_all_drains() {
    let mut p = start(0);
    let script = [
        Event::PacketRead { stream_index: 1 },
        Event::PacketRead { stream_index: 0 },
        Event::FrameDecoded,
        Event::DecoderEmpty,
        Event::PacketRead { stream_index: 0 },
        Event::DecoderEmpty,
        Event::PacketRead { stream_index: 0 },
        Event::FrameDecoded,
        Event::FrameDecoded,
        Event::FrameDecoded,
        Event::DecoderEmpty,
        Event::PacketsExhausted,
        Event::FrameDecoded,
        Event::DecoderEmpty,
    ];
    let mut indices = Vec::new();
    let mut last = Action::ReadPacket;
    for e in script {
        last = feed(&mut p, e);
        if let Action::ProcessFrame { index } = last {
            indices.push(index);
        }
    }
    assert_eq!(indices, vec![0, 1, 2, 3, 4]);
    assert_eq!(last, Action::Finish);
    assert_eq!(p.state.next_index, 5);
}

#[test]
fn failure_aborts_the_run() {
    let mut p = start(0);
    assert_eq!(feed(&mut p, Event::PacketRead { stream_index: 0 }), Action::SubmitPacket);
    assert_eq!(
        feed(&mut p, Event::StageFailed { error: PipelineError::DecodeError }),
        Action::Abort { error: PipelineError::DecodeError }
    );
    assert_eq!(p.state.phase, Phase::Failed);
    assert!(!p.accepts(&Event::DecoderEmpty));
}

#[test]
fn out_of_order_events_are_not_accepted() {
    let mut p = start(0);
    assert!(!p.accepts(&Event::FrameDecoded));
    assert!(!p.accepts(&Event::DecoderEmpty));
    assert!(p.accepts(&Event::StageFailed { error: PipelineError::DecodeError }));
    feed(&mut p, Event::PacketRead { stream_index: 0 });
    assert!(!p.accepts(&Event::PacketRead { stream_index: 0 }));
    assert!(!p.accepts(&Event::PacketsExhausted));
}

#[test]
fn last_index_cannot_be_exceeded() {
    let mut p = start(0);
    p.state.next_index = u64::MAX as u128 - 1;
    feed(&mut p, Event::PacketRead { stream_index: 0 });
    assert_eq!(feed(&mut p, Event::FrameDecoded), Action::ProcessFrame { index: u64::MAX - 1 });
    assert_eq!(feed(&mut p, Event::FrameDecoded), Action::ProcessFrame { index: u64::MAX });
    assert!(!p.accepts(&Event::FrameDecoded));
    assert!(p.accepts(&Event::DecoderEmpty));
}
