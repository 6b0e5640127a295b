//! Decode-worker decisions: which stream to decode, which packets to feed,
//! and how decoded images are tagged with strictly increasing sequence
//! indices. The demuxing and decoding themselves happen outside; this module
//! owns every choice the worker makes.

use crate::channel::LoaderPlaybackMessage;
use crate::frame::Frame;
use crate::frame::FrameError;
use vstd::prelude::*;

verus! {

/// What a container stream carries, as far as the worker cares.
#[derive(Clone, Copy, Debug, PartialEq, Eq, Structural)]
pub enum MediaKind {
    Video,
    Audio,
    Other,
}

/// One stream of the opened container: its index within the container and
/// the kind of media it carries.
#[derive(Clone, Copy, Debug, PartialEq, Eq, Structural)]
pub struct StreamInfo {
    pub index: usize,
    pub kind: MediaKind,
}

/// The startup-only failures of the decode worker. Each is fatal: the worker
/// produces no frames and is not retried.
#[derive(Clone, Copy, Debug, PartialEq, Eq, Structural)]
pub enum StartupError {
    /// The video source could not be opened.
    SourceOpenFailed,
    /// The opened container holds no video stream.
    StreamNotFound,
    /// A decoder could not be built from the stream's parameters.
    DecoderInitFailed,
}

/// Whether some stream in `streams` carries video.
pub open spec fn has_video_stream(streams: Seq<StreamInfo>) -> bool {
    exists|i: int| 0 <= i < streams.len() && streams[i].kind == MediaKind::Video
}

/// Whether position `p` holds the first video stream of `streams`.
pub open spec fn is_first_video_position(streams: Seq<StreamInfo>, p: int) -> bool {
    &&& 0 <= p < streams.len()
    &&& streams[p].kind == MediaKind::Video
    &&& forall|j: int| 0 <= j < p ==> streams[j].kind != MediaKind::Video
}

/// Picks the stream to decode: the first video stream of the container, or
/// `StreamNotFound` if it has none.
pub fn select_video_stream(streams: &Vec<StreamInfo>) -> (r: Result<usize, StartupError>)
    ensures
        r is Ok <==> has_video_stream(streams@),
        r matches Ok(p) ==> is_first_video_position(streams@, p as int),
        r matches Err(e) ==> e == StartupError::StreamNotFound,
{
    let mut p: usize = 0;
    while p < streams.len()
        invariant
            p <= streams@.len(),
            forall|j: int| 0 <= j < p ==> streams@[j].kind != MediaKind::Video,
        decreases streams@.len() - p,
    {
        if streams[p].kind == MediaKind::Video {
            return Ok(p);
        }
        p = p + 1;
    }
    Err(StartupError::StreamNotFound)
}

/// The running decode worker's state: which container stream it decodes and
/// the sequence index the next emitted frame will carry.
pub struct DecodeWorker {
    video_stream_index: usize,
    next_frame_index: u64,
}

impl DecodeWorker {
    /// The container stream index whose packets this worker decodes.
    pub closed spec fn spec_video_stream_index(&self) -> usize {
        self.video_stream_index
    }

    /// The sequence index the next emitted frame will carry.
    pub closed spec fn spec_next_frame_index(&self) -> u64 {
        self.next_frame_index
    }

    /// Builds the worker state from the opened container's streams: selects
    /// the first video stream and starts the frame sequence at index zero.
    pub fn startup(streams: &Vec<StreamInfo>) -> (r: Result<DecodeWorker, StartupError>)
        ensures
            r is Ok <==> has_video_stream(streams@),
            r matches Ok(w) ==> {
                &&& w.spec_next_frame_index() == 0
                &&& exists|p: int|
                    #[trigger] is_first_video_position(streams@, p) && streams@[p].index
                        == w.spec_video_stream_index()
            },
            r matches Err(e) ==> e == StartupError::StreamNotFound,
    {
        let p = select_video_stream(streams)?;
        Ok(DecodeWorker { video_stream_index: streams[p].index, next_frame_index: 0 })
    }

    /// The container stream index whose packets this worker decodes.
    pub fn video_stream_index(&self) -> (r: usize)
        ensures
            r == self.spec_video_stream_index(),
    {
        self.video_stream_index
    }

    /// The sequence index the next emitted frame will carry.
    pub fn next_frame_index(&self) -> (r: u64)
        ensures
            r == self.spec_next_frame_index(),
    {
        self.next_frame_index
    }

    /// The packet-routing decision: only packets of the selected video
    /// stream are fed to the decoder; every other stream's packets are
    /// discarded without error.
    pub fn should_process(&self, packet_stream_index: usize) -> (r: bool)
        ensures
            r <==> packet_stream_index == self.spec_video_stream_index(),
    {
        packet_stream_index == self.video_stream_index
    }

    /// Wraps one rescaled RGBA image as the next outgoing frame message,
    /// tagging it with the current sequence index and advancing the
    /// sequence. Rejects a buffer that does not match its stated dimensions
    /// without consuming an index.
    pub fn tag_frame(&mut self, width: u32, height: u32, pixels: Vec<u8>) -> (r: Result<
        LoaderPlaybackMessage,
        FrameError,
    >)
        requires
            old(self).spec_next_frame_index() < u64::MAX,
        ensures
            final(self).spec_video_stream_index() == old(self).spec_video_stream_index(),
            r matches Ok(m) ==> {
                &&& m matches LoaderPlaybackMessage::NewFrame { frame }
                &&& frame@.index == old(self).spec_next_frame_index()
                &&& frame@.width == width
                &&& frame@.height == height
                &&& frame@.pixels == pixels@
                &&& final(self).spec_next_frame_index() == old(self).spec_next_frame_index() + 1
            },
            r is Ok <==> {
                &&& width <= crate::frame::MAX_FRAME_DIM
                &&& height <= crate::frame::MAX_FRAME_DIM
                &&& pixels@.len() == width * height * 4
            },
            r matches Err(e) ==> *final(self) == *old(self),
    {
        let frame = Frame::new(width, height, self.next_frame_index, pixels)?;
        self.next_frame_index = self.next_frame_index + 1;
        Ok(LoaderPlaybackMessage::NewFrame { frame })
    }
}

} // verus!
