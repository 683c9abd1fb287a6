use displayrecorder::capture::FramePump;
use displayrecorder::error::SessionError;
use displayrecorder::geometry::Size;
use displayrecorder::session::{EncodingSession, StopAction};
use displayrecorder::stream::{EncodeStream, StreamPhase};

const FRAME_INTERVAL: i64 = 333_333;

/// A synthetic frame as the capture source delivers it.
#[derive(Clone, Copy, Debug, PartialEq)]
struct Frame {
    index: u32,
    size: Size,
    time: i64,
}

/// A synthetic hardware encoder that holds one frame back before emitting it,
/// so output lags submission by one, and emits the held frame when drained.
struct LaggingEncoder {
    held: Option<i64>,
}

impl LaggingEncoder {
    fn submit(&mut self, time: i64) -> Vec<i64> {
        let out = self.held.take().into_iter().collect();
        self.held = Some(time);
        out
    }

    fn drain(&mut self) -> Vec<i64> {
        self.held.take().into_iter().collect()
    }
}

struct Output {
    times: Vec<i64>,
    duration: i64,
    samples: u64,
    failure: Option<SessionError>,
    finalized: u32,
}

/// Runs one recording over `frames` to the end, then stops it as `stop` would,
/// writing every sample the encoder yields.
fn record(frames: &[Frame], size: Size, frame_rate: u32) -> Output {
    let mut session = EncodingSession::new();
    session.start().unwrap();
    let mut pump: FramePump<Frame> = FramePump::new();
    let mut stream = EncodeStream::new(size, frame_rate);
    let mut encoder = LaggingEncoder { held: None };
    let mut times = Vec::new();
    let mut released = Vec::new();
    let mut finalized = 0;
    let mut next = 0;
    loop {
        if let Some(previous) = pump.begin_pull() {
            released.push(previous.index);
        }
        if !pump.waits_for_frame() {
            break;
        }
        let message = frames.get(next).copied();
        next += 1;
        if !pump.finish_pull(message) {
            break;
        }
        let frame = *pump.current_frame().unwrap();
        match stream.on_frame(frame.size, frame.time) {
            Ok(t) => {
                for sample in encoder.submit(t) {
                    times.push(stream.on_sample(sample));
                }
            }
            Err(_) => break,
        }
        if next == frames.len() {
            // The control side stops after the last frame.
            assert_eq!(session.stop(), Ok(StopAction::StopCaptureAndFinalize));
            pump.stop_capture();
        }
    }
    stream.on_end_of_stream();
    for sample in encoder.drain() {
        times.push(stream.on_sample(sample));
    }
    if stream.finalize() {
        finalized += 1;
    }
    assert!(!stream.finalize());
    assert_eq!(stream.phase(), StreamPhase::Finalized);
    // Every frame returned was released by the next pull, in order.
    let expected: Vec<u32> = frames.iter().map(|f| f.index).take(released.len()).collect();
    assert_eq!(released, expected);
    Output {
        times,
        duration: stream.duration(),
        samples: stream.samples_written(),
        failure: stream.failure(),
        finalized,
    }
}

fn steady_frames(count: u32, size: Size, start: i64) -> Vec<Frame> {
    (0..count)
        .map(|i| Frame { index: i, size, time: start + i as i64 * FRAME_INTERVAL })
        .collect()
}

#[test]
fn ninety_frames_at_thirty_fps_make_three_seconds() {
    let size = Size { width: 1280, height: 720 };
    let frames = steady_frames(90, size, 52_000_000_000);
    let out = record(&frames, size, 30);
    assert!((out.duration - 30_000_000).abs() <= FRAME_INTERVAL);
    assert_eq!(out.duration, 29_999_970);
    assert!(out.samples <= 90);
    assert_eq!(out.samples, 90);
    assert_eq!(out.times.len(), 90);
    assert!(out.times.windows(2).all(|w| w[0] <= w[1]));
    assert_eq!(out.times[0], 0);
    assert_eq!(out.times[89], 89 * FRAME_INTERVAL);
    assert_eq!(out.failure, None);
    assert_eq!(out.finalized, 1);
}

#[test]
fn zero_frames_still_finalize_an_empty_output() {
    let size = Size { width: 1280, height: 720 };
    let mut session = EncodingSession::new();
    session.start().unwrap();
    let mut pump: FramePump<Frame> = FramePump::new();
    let mut stream = EncodeStream::new(size, 30);
    assert_eq!(session.stop(), Ok(StopAction::StopCaptureAndFinalize));
    pump.stop_capture();
    assert_eq!(pump.begin_pull(), None);
    assert!(!pump.waits_for_frame());
    stream.on_end_of_stream();
    assert!(stream.finalize());
    assert_eq!(stream.duration(), 0);
    assert_eq!(stream.samples_written(), 0);
    assert_eq!(stream.failure(), None);
}

#[test]
fn content_size_change_raises_geometry_mismatch() {
    let size = Size { width: 1280, height: 720 };
    let mut frames = steady_frames(10, size, 0);
    let resized = Size { width: 1024, height: 768 };
    for f in frames.iter_mut().skip(5) {
        f.size = resized;
    }
    let out = record(&frames, size, 30);
    assert_eq!(
        out.failure,
        Some(SessionError::GeometryMismatch { expected: size, actual: resized })
    );
    // The five good frames were still drained and written, and the file finalized.
    assert_eq!(out.samples, 5);
    assert_eq!(out.finalized, 1);
}

#[test]
fn geometry_mismatch_is_reported_by_the_frame() {
    let size = Size { width: 1920, height: 1080 };
    let mut stream = EncodeStream::new(size, 60);
    assert_eq!(stream.on_frame(size, 1_000), Ok(0));
    let other = Size { width: 1920, height: 1200 };
    assert_eq!(
        stream.on_frame(other, 2_000),
        Err(SessionError::GeometryMismatch { expected: size, actual: other })
    );
    assert!(!stream.accepts_frames());
    assert!(stream.accepts_samples());
}

#[test]
fn submit_and_write_times() {
    let size = Size { width: 8, height: 8 };
    let mut stream = EncodeStream::new(size, 25);
    assert_eq!(stream.on_frame(size, 500), Ok(0));
    assert_eq!(stream.on_frame(size, 400_500), Ok(400_000));
    assert_eq!(stream.on_frame(size, 100), Ok(0));
    assert_eq!(stream.on_sample(800_000), 800_000);
    assert_eq!(stream.on_sample(400_000), 800_000);
    assert_eq!(stream.on_sample(1_200_000), 1_200_000);
    assert_eq!(stream.last_sample_time(), Some(1_200_000));
    assert_eq!(stream.sample_duration(), 400_000);
    assert_eq!(stream.duration(), 1_600_000);
    assert_eq!(stream.samples_written(), 3);
    assert_eq!(stream.on_frame(size, i64::MAX), Ok(i64::MAX - 500));
}

#[test]
fn duration_saturates() {
    let size = Size { width: 8, height: 8 };
    let mut stream = EncodeStream::new(size, 1);
    assert_eq!(stream.on_sample(i64::MAX - 5), i64::MAX - 5);
    assert_eq!(stream.duration(), i64::MAX);
}

#[test]
fn platform_failure_while_running_drains_and_keeps_the_first_error() {
    let size = Size { width: 640, height: 480 };
    let mut stream = EncodeStream::new(size, 30);
    assert_eq!(stream.on_frame(size, 0), Ok(0));
    stream.on_stream_failure(-2147467259);
    assert_eq!(stream.failure(), Some(SessionError::StreamError { code: -2147467259 }));
    assert!(!stream.accepts_frames());
    assert!(stream.accepts_samples());
    assert_eq!(stream.on_sample(0), 0);
    stream.on_stream_failure(-1);
    assert_eq!(stream.failure(), Some(SessionError::StreamError { code: -2147467259 }));
    assert!(stream.finalize());
    assert_eq!(stream.samples_written(), 1);
    assert_eq!(stream.duration(), FRAME_INTERVAL);
}
