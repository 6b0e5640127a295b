use enu::channel::frame_channel;
use enu::gpu::select_surface_format;
use enu::loader::select_video_stream;
use enu::loader::DecodeWorker;
use enu::loader::MediaKind;
use enu::loader::StartupError;
use enu::loader::StreamInfo;
use enu::playback::Playback;
use enu::viewport::PlaybackTracker;
use enu::viewport::ViewportRect;
use enu::viewport::ViewportTracker;

#[test]
fn worker_selects_first_video_stream() {
    let streams = vec![
        StreamInfo { index: 0, kind: MediaKind::Audio },
        StreamInfo { index: 1, kind: MediaKind::Video },
        StreamInfo { index: 2, kind: MediaKind::Video },
    ];
    assert_eq!(select_video_stream(&streams).unwrap(), 1);
    let worker = DecodeWorker::startup(&streams).unwrap();
    assert_eq!(worker.video_stream_index(), 1);
    assert_eq!(worker.next_frame_index(), 0);
    assert!(worker.should_process(1));
    assert!(!worker.should_process(0));
    assert!(!worker.should_process(2));
}

#[test]
fn worker_tags_frames_with_increasing_indices() {
    let streams = vec![StreamInfo { index: 0, kind: MediaKind::Video }];
    let mut worker = DecodeWorker::startup(&streams).unwrap();
    for expected in 0..3u64 {
        let msg = worker.tag_frame(1, 1, vec![0u8; 4]).unwrap();
        match msg {
            enu::channel::LoaderPlaybackMessage::NewFrame { frame } => {
                assert_eq!(frame.index(), expected);
            }
            _ => panic!("expected a frame message"),
        }
    }
    // A rejected buffer does not consume a sequence index.
    assert!(worker.tag_frame(1, 1, vec![0u8; 3]).is_err());
    assert_eq!(worker.next_frame_index(), 3);
}

/// Thirty frames decoded in order, consumed every fifth frame: displayed
/// indices never decrease, skip the frames in between, and end at 29.
#[test]
fn slow_consumer_skips_but_never_regresses() {
    let streams = vec![StreamInfo { index: 0, kind: MediaKind::Video }];
    let mut worker = DecodeWorker::startup(&streams).unwrap();
    let (tx, rx) = frame_channel();
    let mut playback = Playback::init(2, 2, rx, ViewportTracker::new());

    let mut shown = Vec::new();
    for produced in 1..=30u64 {
        let msg = worker.tag_frame(2, 2, vec![0u8; 16]).unwrap();
        assert!(tx.send(msg));
        if produced % 5 == 0 {
            if let Some(upload) = playback.process_loader_messages() {
                shown.push(upload.index);
            }
        }
    }
    assert_eq!(shown, vec![4, 9, 14, 19, 24, 29]);
    for pair in shown.windows(2) {
        assert!(pair[0] <= pair[1]);
    }
    assert_eq!(playback.last_displayed_index(), Some(29));
}

/// The viewport starts as the zero rectangle; after one layout pass reports
/// (10, 10, 300, 200), the next draw issues exactly that rectangle.
#[test]
fn layout_pass_routes_bounds_to_the_next_draw() {
    let viewport = ViewportTracker::new();
    let (_tx, rx) = frame_channel();
    let playback = Playback::init(2, 2, rx, viewport.clone_handle());
    let zero = ViewportRect { x: 0, y: 0, width: 0, height: 0 };
    assert_eq!(playback.draw().viewport, zero);

    let tracker = PlaybackTracker::new(viewport.clone_handle());
    let bounds = ViewportRect { x: 10, y: 10, width: 300, height: 200 };
    tracker.record_bounds(bounds);
    let cmd = playback.draw();
    assert_eq!(cmd.viewport, bounds);
    assert_eq!(cmd.first_vertex, 0);
    assert_eq!(cmd.vertex_count, 6);
}

/// One writer and one reader alternating ten thousand accesses each: no
/// deadlock, and every read sees the most recent write.
#[test]
fn tracker_survives_many_alternating_accesses() {
    let viewport = ViewportTracker::new();
    let writer = PlaybackTracker::new(viewport.clone_handle());
    for i in 0..10_000u32 {
        let bounds = ViewportRect { x: i, y: i, width: 100 + i, height: 200 + i };
        writer.record_bounds(bounds);
        assert_eq!(viewport.load(), bounds);
    }
}

/// A source that cannot be opened fails at startup with a startup error and
/// produces no frame messages at all.
#[test]
fn unopenable_source_produces_no_frames() {
    // The container could not be opened: the worker reports the failure and
    // never constructs its decode state.
    let open_result: Result<Vec<StreamInfo>, StartupError> = Err(StartupError::SourceOpenFailed);
    let (tx, rx) = frame_channel();
    let mut playback = Playback::init(2, 2, rx, ViewportTracker::new());
    match open_result {
        Ok(streams) => {
            let _ = DecodeWorker::startup(&streams);
            panic!("the source must not open");
        }
        Err(e) => {
            assert_eq!(e, StartupError::SourceOpenFailed);
            // The worker terminates without sending; its sender is dropped.
            drop(tx);
        }
    }
    assert!(playback.process_loader_messages().is_none());
    assert!(playback.has_ended());
    assert_eq!(playback.last_displayed_index(), None);
}

#[test]
fn surface_format_prefers_first_srgb() {
    assert_eq!(select_surface_format(&vec![false, true, true]), Some(1));
    assert_eq!(select_surface_format(&vec![true, false]), Some(0));
    // No sRGB format: fall back to the first one.
    assert_eq!(select_surface_format(&vec![false, false]), Some(0));
    assert_eq!(select_surface_format(&Vec::new()), None);
}

/// A container with no video stream fails with the stream-not-found error.
#[test]
fn missing_video_stream_fails_startup() {
    let streams = vec![
        StreamInfo { index: 0, kind: MediaKind::Audio },
        StreamInfo { index: 1, kind: MediaKind::Other },
    ];
    assert_eq!(select_video_stream(&streams).err().unwrap(), StartupError::StreamNotFound);
    assert!(DecodeWorker::startup(&streams).is_err());
    let empty: Vec<StreamInfo> = Vec::new();
    assert_eq!(select_video_stream(&empty).err().unwrap(), StartupError::StreamNotFound);
}
