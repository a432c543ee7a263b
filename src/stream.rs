use vstd::prelude::*;

use crate::error::PipelineError;

verus! {

/// Media type of one stream of a container.
#[derive(Debug, Clone, Copy, PartialEq, Eq, Structural)]
pub enum MediaType {
    Video,
    Audio,
    Subtitle,
    Data,
    Attachment,
    Unknown,
}

/// What the pipeline reads of one stream of a container: its media type and its
/// average frame rate as the fraction `rate_num / rate_den`.
#[derive(Debug, Clone, Copy, PartialEq, Eq, Structural)]
pub struct StreamInfo {
    pub medium: MediaType,
    pub rate_num: i32,
    pub rate_den: i32,
}

/// The video stream chosen for a run: its position among the container's streams
/// and its average frame rate.
#[derive(Debug, Clone, Copy, PartialEq, Eq, Structural)]
pub struct StreamDescriptor {
    pub index: usize,
    pub rate_num: i32,
    pub rate_den: i32,
}

/// `i` is the position of the first video stream in `streams`.
pub open spec fn is_first_video(streams: Seq<StreamInfo>, i: int) -> bool {
    &&& 0 <= i < streams.len()
    &&& streams[i].medium == MediaType::Video
    &&& forall|j: int| 0 <= j < i ==> streams[j].medium != MediaType::Video
}

/// `streams` holds a stream of video type.
pub open spec fn has_video(streams: Seq<StreamInfo>) -> bool {
    exists|i: int| 0 <= i < streams.len() && streams[i].medium == MediaType::Video
}

/// Picks the first stream of video type, or fails with `NoVideoStream` when there is none.
pub fn select_video_stream(streams: &Vec<StreamInfo>) -> (r: Result<
    StreamDescriptor,
    PipelineError,
>)
    ensures
        match r {
            Ok(d) => is_first_video(streams@, d.index as int) && d.rate_num
                == streams@[d.index as int].rate_num && d.rate_den
                == streams@[d.index as int].rate_den,
            Err(e) => !has_video(streams@) && e == PipelineError::NoVideoStream,
        },
        r is Ok <==> has_video(streams@),
{
    let mut i: usize = 0;
    while i < streams.len()
        invariant
            i <= streams@.len(),
            forall|j: int| 0 <= j < i ==> streams@[j].medium != MediaType::Video,
        decreases streams@.len() - i,
    {
        let s = streams[i];
        if s.medium == MediaType::Video {
            return Ok(StreamDescriptor { index: i, rate_num: s.rate_num, rate_den: s.rate_den });
        }
        i = i + 1;
    }
    Err(PipelineError::NoVideoStream)
}

} // verus!
