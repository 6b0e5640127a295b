//! The playback renderer's state and policies: drain the frame channel to
//! the newest pending frame, validate it against the fixed decode-resolution
//! texture, and turn the shared viewport rectangle into a draw command.

use crate::channel::LoaderPlaybackHandle;
use crate::channel::LoaderPlaybackMessage;
use crate::frame::Frame;
use crate::frame::FrameError;
use crate::frame::FrameView;
use crate::frame::MAX_FRAME_DIM;
use crate::viewport::ViewportRect;
use crate::viewport::ViewportTracker;
use vstd::prelude::*;

verus! {

/// How many channel polls one render tick may spend at most, so a tick's
/// work stays bounded no matter how fast the producer runs.
pub const DRAIN_LIMIT: usize = 1024;

/// A user-issued playback command, queued by the UI and drained once per
/// event cycle.
#[derive(Clone, Copy, Debug, PartialEq, Eq, Structural)]
pub enum PlaybackInstruction {
    Play,
    Pause,
}

/// Whether the renderer advances the displayed frame on each tick.
#[derive(Clone, Copy, Debug, PartialEq, Eq, Structural)]
pub enum PlayState {
    Playing,
    Paused,
}

/// One GPU texture write, fully described: the pixel buffer covers the whole
/// texture extent, laid out in rows of `bytes_per_row` bytes.
pub struct TextureUpload {
    /// Sequence index of the frame these pixels came from.
    pub index: u64,
    /// Texture extent width in pixels.
    pub width: u32,
    /// Texture extent height in pixels.
    pub height: u32,
    /// Row pitch: always `4 * width`.
    pub bytes_per_row: u32,
    /// Rows in the buffer: always `height`.
    pub rows_per_image: u32,
    /// The RGBA8 bytes, exactly `width * height * 4` of them.
    pub pixels: Vec<u8>,
}

impl TextureUpload {
    /// Lays a frame out as a full-extent texture write.
    pub fn from_frame(frame: Frame) -> (u: TextureUpload)
        ensures
            u.index == frame@.index,
            u.width == frame@.width,
            u.height == frame@.height,
            u.bytes_per_row == 4 * frame@.width,
            u.rows_per_image == frame@.height,
            u.pixels@ == frame@.pixels,
            u.pixels@.len() == u.width * u.height * 4,
    {
        proof {
            use_type_invariant(&frame);
        }
        let index = frame.index();
        let width = frame.width();
        let height = frame.height();
        let pixels = frame.into_pixels();
        TextureUpload { index, width, height, bytes_per_row: 4 * width, rows_per_image: height, pixels }
    }
}

/// The frame view carried by a `NewFrame` message.
pub open spec fn msg_frame_view(m: LoaderPlaybackMessage) -> FrameView
    recommends
        m is NewFrame,
{
    m->frame@
}

/// Whether a drained message is a candidate for display: a frame of exactly
/// the texture's dimensions whose sequence index is newer than the last
/// displayed one.
pub open spec fn message_qualifies(
    m: LoaderPlaybackMessage,
    last: Option<u64>,
    width: u32,
    height: u32,
) -> bool {
    &&& m is NewFrame
    &&& msg_frame_view(m).width == width
    &&& msg_frame_view(m).height == height
    &&& (last matches Some(l) ==> msg_frame_view(m).index > l)
}

/// The latest-wins selection policy: out of all drained messages, keep
/// exactly the qualifying frame with the greatest sequence index and discard
/// every other one.
pub fn choose_latest(
    msgs: Vec<LoaderPlaybackMessage>,
    last: Option<u64>,
    width: u32,
    height: u32,
) -> (r: Option<Frame>)
    ensures
        r is Some <==> exists|i: int|
            0 <= i < msgs@.len() && #[trigger] message_qualifies(msgs@[i], last, width, height),
        r matches Some(f) ==> {
            &&& f@.width == width
            &&& f@.height == height
            &&& (last matches Some(l) ==> f@.index > l)
            &&& exists|i: int|
                0 <= i < msgs@.len() && #[trigger] message_qualifies(msgs@[i], last, width, height)
                    && msg_frame_view(msgs@[i]) == f@
            &&& forall|i: int|
                0 <= i < msgs@.len() && #[trigger] message_qualifies(msgs@[i], last, width, height)
                    ==> msg_frame_view(msgs@[i]).index <= f@.index
        },
{
    let ghost all = msgs@;
    let mut remaining = msgs;
    let mut best: Option<Frame> = None;
    while remaining.len() > 0
        invariant
            remaining@ == all.subrange(0, remaining@.len() as int),
            remaining@.len() <= all.len(),
            best is Some <==> exists|i: int|
                remaining@.len() <= i < all.len() && #[trigger] message_qualifies(
                    all[i],
                    last,
                    width,
                    height,
                ),
            best matches Some(f) ==> {
                &&& f@.width == width
                &&& f@.height == height
                &&& (last matches Some(l) ==> f@.index > l)
                &&& exists|i: int|
                    remaining@.len() <= i < all.len() && #[trigger] message_qualifies(
                        all[i],
                        last,
                        width,
                        height,
                    ) && msg_frame_view(all[i]) == f@
                &&& forall|i: int|
                    remaining@.len() <= i < all.len() && #[trigger] message_qualifies(
                        all[i],
                        last,
                        width,
                        height,
                    ) ==> msg_frame_view(all[i]).index <= f@.index
            },
        decreases remaining@.len(),
    {
        let ghost pre = remaining@;
        let m = remaining.pop().unwrap();
        let ghost k = remaining@.len() as int;
        proof {
            assert(pre == all.subrange(0, k + 1));
            assert(m == all[k]);
            assert(remaining@ =~= all.subrange(0, k));
        }
        match m {
            LoaderPlaybackMessage::NewFrame { frame } => {
                let keep = match (&best, &last) {
                    (Some(b), _) => frame.index() > b.index(),
                    (None, Some(l)) => frame.index() > *l,
                    (None, None) => true,
                };
                let dims_ok = frame.width() == width && frame.height() == height;
                if keep && dims_ok {
                    proof {
                        assert(message_qualifies(all[k], last, width, height));
                    }
                    best = Some(frame);
                } else {
                    proof {
                        if !dims_ok {
                            assert(!message_qualifies(all[k], last, width, height));
                        }
                    }
                }
            },
            LoaderPlaybackMessage::EndOfStream => {
                proof {
                    assert(!message_qualifies(all[k], last, width, height));
                }
            },
        }
    }
    best
}

/// The latest-wins drain is idempotent: once the greatest qualifying index
/// of a backlog has been displayed, draining the same backlog again
/// qualifies nothing, so re-ingesting stale messages has no effect.
pub proof fn lemma_latest_wins_idempotent(
    msgs: Seq<LoaderPlaybackMessage>,
    shown: u64,
    width: u32,
    height: u32,
)
    requires
        forall|i: int|
            0 <= i < msgs.len() && #[trigger] message_qualifies(msgs[i], None, width, height)
                ==> msg_frame_view(msgs[i]).index <= shown,
    ensures
        forall|i: int|
            0 <= i < msgs.len() ==> !message_qualifies(msgs[i], Some(shown), width, height),
{
    assert forall|i: int|
        0 <= i < msgs.len() implies !message_qualifies(msgs[i], Some(shown), width, height) by {
        if message_qualifies(msgs[i], Some(shown), width, height) {
            assert(message_qualifies(msgs[i], None, width, height));
        }
    }
}

/// Mathematical image of a `Playback`.
pub struct PlaybackView {
    /// Width of the decode-resolution texture, in pixels.
    pub video_width: u32,
    /// Height of the decode-resolution texture, in pixels.
    pub video_height: u32,
    /// Whether ticks advance the displayed frame.
    pub state: PlayState,
    /// Sequence index of the last frame handed out for upload, if any.
    pub last_index: Option<u64>,
    /// Whether the producer reported that no further frames will arrive.
    pub ended: bool,
}

/// How one render tick may change the playback state, seen through the
/// sequence index it hands out for upload (if any): a frame is only shown
/// while playing and before the stream ended, the shown index strictly
/// exceeds the previously shown one, a paused or ended playback changes
/// nothing, and the end-of-stream mark never clears.
pub open spec fn ingest_transition(pre: PlaybackView, post: PlaybackView, shown: Option<
    u64,
>) -> bool {
    &&& post.video_width == pre.video_width
    &&& post.video_height == pre.video_height
    &&& post.state == pre.state
    &&& match shown {
        Some(i) => {
            &&& pre.state is Playing
            &&& !pre.ended
            &&& post.last_index == Some(i)
            &&& (pre.last_index matches Some(l) ==> i > l)
        },
        None => post.last_index == pre.last_index,
    }
    &&& (pre.state is Paused || pre.ended) ==> post == pre
    &&& pre.ended ==> post.ended
}

/// The sequence index an upload carries, if one was produced.
pub open spec fn upload_index_of(r: Option<TextureUpload>) -> Option<u64> {
    match r {
        Some(u) => Some(u.index),
        None => None,
    }
}

/// The playback renderer's verified state: the fixed decode resolution its
/// texture was created with, the play/pause gate, the newest displayed
/// sequence index, the consumer end of the frame channel, and a handle on
/// the shared viewport rectangle.
pub struct Playback {
    video_width: u32,
    video_height: u32,
    state: PlayState,
    last_index: Option<u64>,
    ended: bool,
    loader: LoaderPlaybackHandle,
    viewport: ViewportTracker,
}

impl View for Playback {
    type V = PlaybackView;

    closed spec fn view(&self) -> PlaybackView {
        PlaybackView {
            video_width: self.video_width,
            video_height: self.video_height,
            state: self.state,
            last_index: self.last_index,
            ended: self.ended,
        }
    }
}

impl Playback {
    /// A renderer for a texture of the given decode resolution, reading
    /// frames from `loader` and its draw rectangle from `viewport`. It
    /// starts playing, with no frame displayed yet.
    pub fn init(
        video_width: u32,
        video_height: u32,
        loader: LoaderPlaybackHandle,
        viewport: ViewportTracker,
    ) -> (p: Playback)
        ensures
            p@ == (PlaybackView {
                video_width,
                video_height,
                state: PlayState::Playing,
                last_index: None::<u64>,
                ended: false,
            }),
    {
        Playback {
            video_width,
            video_height,
            state: PlayState::Playing,
            last_index: None,
            ended: false,
            loader,
            viewport,
        }
    }

    /// Applies one user command: `Play` resumes advancing the displayed
    /// frame, `Pause` freezes it. Nothing else changes.
    pub fn process_instruction(&mut self, instruction: &PlaybackInstruction)
        ensures
            final(self)@ == (PlaybackView {
                state: match instruction {
                    PlaybackInstruction::Play => PlayState::Playing,
                    PlaybackInstruction::Pause => PlayState::Paused,
                },
                ..old(self)@
            }),
    {
        match instruction {
            PlaybackInstruction::Play => self.state = PlayState::Playing,
            PlaybackInstruction::Pause => self.state = PlayState::Paused,
        }
    }

    /// Builds the initial texture write from a placeholder image, so the
    /// viewport is never left undefined before the first decoded frame:
    /// accepted exactly when the buffer matches the decode resolution.
    pub fn placeholder_upload(&self, pixels: Vec<u8>) -> (r: Result<TextureUpload, FrameError>)
        ensures
            r is Ok <==> {
                &&& self@.video_width <= MAX_FRAME_DIM
                &&& self@.video_height <= MAX_FRAME_DIM
                &&& pixels@.len() == self@.video_width * self@.video_height * 4
            },
            r matches Ok(u) ==> {
                &&& u.width == self@.video_width
                &&& u.height == self@.video_height
                &&& u.bytes_per_row == 4 * u.width
                &&& u.rows_per_image == u.height
                &&& u.pixels@ == pixels@
            },
    {
        let frame = Frame::new(self.video_width, self.video_height, 0, pixels)?;
        Ok(TextureUpload::from_frame(frame))
    }

    /// One render tick's consumption of the frame channel: drains what is
    /// pending (bounded by `DRAIN_LIMIT` polls), keeps only the newest
    /// qualifying frame, and hands it out as a full-texture write. While
    /// paused, or once the stream has ended, nothing is polled and nothing
    /// changes. Every upload matches the texture extent exactly:
    /// `bytes_per_row` is `4 * width` and the buffer holds
    /// `width * height * 4` bytes.
    pub fn process_loader_messages(&mut self) -> (r: Option<TextureUpload>)
        ensures
            ingest_transition(old(self)@, final(self)@, upload_index_of(r)),
            r matches Some(u) ==> {
                &&& u.width == old(self)@.video_width
                &&& u.height == old(self)@.video_height
                &&& u.bytes_per_row == 4 * u.width
                &&& u.rows_per_image == u.height
                &&& u.pixels@.len() == u.width * u.height * 4
            },
    {
        match self.state {
            PlayState::Paused => {
                return None;
            },
            PlayState::Playing => {},
        }
        if self.ended {
            return None;
        }
        let (msgs, saw_end) = drain_channel(&mut self.loader);
        if saw_end {
            self.ended = true;
        }
        match choose_latest(msgs, self.last_index, self.video_width, self.video_height) {
            None => None,
            Some(frame) => {
                let upload = TextureUpload::from_frame(frame);
                self.last_index = Some(upload.index);
                Some(upload)
            },
        }
    }

    /// Width and height of the decode-resolution texture.
    pub fn video_size(&self) -> (r: (u32, u32))
        ensures
            r.0 == self@.video_width,
            r.1 == self@.video_height,
    {
        (self.video_width, self.video_height)
    }

    /// Whether ticks currently advance the displayed frame.
    pub fn play_state(&self) -> (r: PlayState)
        ensures
            r == self@.state,
    {
        self.state
    }

    /// Sequence index of the last frame handed out for upload, if any.
    pub fn last_displayed_index(&self) -> (r: Option<u64>)
        ensures
            r == self@.last_index,
    {
        self.last_index
    }

    /// Whether the producer reported that no further frames will arrive.
    pub fn has_ended(&self) -> (r: bool)
        ensures
            r == self@.ended,
    {
        self.ended
    }

    /// The per-tick draw: reads the shared viewport rectangle (taking its
    /// lock only for the read) and issues the two-triangle textured quad
    /// into exactly that rectangle.
    pub fn draw(&self) -> (cmd: DrawCommand)
        ensures
            cmd.first_vertex == 0,
            cmd.vertex_count == 6,
    {
        let target = self.viewport.load();
        draw_command(target)
    }
}

/// Drains every message currently pending on the channel, in arrival order,
/// stopping early at an end-of-stream report or after `DRAIN_LIMIT` polls.
fn drain_channel(loader: &mut LoaderPlaybackHandle) -> (r: (Vec<LoaderPlaybackMessage>, bool))
    ensures
        r.0@.len() <= DRAIN_LIMIT,
{
    let mut msgs: Vec<LoaderPlaybackMessage> = Vec::new();
    let mut polls: usize = 0;
    while polls < DRAIN_LIMIT
        invariant
            msgs@.len() <= polls,
            polls <= DRAIN_LIMIT,
        decreases DRAIN_LIMIT - polls,
    {
        polls = polls + 1;
        match loader.next_message() {
            None => {
                return (msgs, false);
            },
            Some(LoaderPlaybackMessage::EndOfStream) => {
                return (msgs, true);
            },
            Some(m) => {
                msgs.push(m);
            },
        }
    }
    (msgs, false)
}

/// The full-frame textured-quad draw, clipped and scaled to a viewport
/// rectangle by the GPU viewport transform: six vertices, starting at the
/// first.
pub struct DrawCommand {
    /// The rectangle the GPU viewport transform is set to.
    pub viewport: ViewportRect,
    /// First vertex of the quad.
    pub first_vertex: u32,
    /// Vertex count of the two-triangle quad.
    pub vertex_count: u32,
}

/// Turns the viewport rectangle of the moment into the draw command for the
/// textured quad: the GPU viewport is exactly the given rectangle.
pub fn draw_command(target: ViewportRect) -> (cmd: DrawCommand)
    ensures
        cmd.viewport == target,
        cmd.first_vertex == 0,
        cmd.vertex_count == 6,
{
    DrawCommand { viewport: target, first_vertex: 0, vertex_count: 6 }
}

/// Frames are shown in strictly increasing sequence order: if two
/// consecutive ticks each hand out an upload, the second one's index
/// strictly exceeds the first one's.
pub proof fn lemma_shown_indices_strictly_increase(
    s0: PlaybackView,
    s1: PlaybackView,
    s2: PlaybackView,
    i1: u64,
    i2: u64,
)
    requires
        ingest_transition(s0, s1, Some(i1)),
        ingest_transition(s1, s2, Some(i2)),
    ensures
        i1 < i2,
{
}

/// The displayed frame never regresses: whatever a tick does, the last
/// displayed sequence index never decreases.
pub proof fn lemma_display_never_regresses(pre: PlaybackView, post: PlaybackView, shown: Option<
    u64,
>)
    requires
        ingest_transition(pre, post, shown),
    ensures
        pre.last_index matches Some(l) ==> post.last_index matches Some(m) && m >= l,
{
}

} // verus!
