use vstd::prelude::*;

use crate::error::SessionError;
use crate::geometry::Size;

verus! {

/// Media time runs in units of 100 ns.
pub const TICKS_PER_SECOND: u32 = 10_000_000;

/// Where the consumer side of a recording stands.
#[derive(Clone, Copy, Debug, PartialEq, Eq, Structural)]
pub enum StreamPhase {
    /// Frames are pulled and submitted to the encoder.
    Streaming,
    /// No more frames: the encoder is drained of the samples it still holds.
    Draining,
    /// The container is finalized; nothing more is written.
    Finalized,
}

/// The abstract state of the encode stream.
pub ghost struct StreamModel {
    /// The geometry that the encoder's input was configured with.
    pub input_size: Size,
    /// The duration of one sample, one frame interval.
    pub sample_duration: int,
    /// The capture time of the first submitted frame.
    pub first_time: Option<i64>,
    /// The time of the last sample written.
    pub last_sample_time: Option<i64>,
    /// How many samples were written (saturating).
    pub samples_written: u64,
    pub phase: StreamPhase,
    /// The fatal error that ended streaming early, if one did.
    pub failure: Option<SessionError>,
}

/// The time at which a frame captured at `t` is submitted: its distance from the
/// first frame's capture time `first`, clamped to the range of `i64` from zero.
pub open spec fn submit_time(first: i64, t: i64) -> i64 {
    let d = t - first;
    if d < 0 {
        0
    } else if d > i64::MAX {
        i64::MAX
    } else {
        d as i64
    }
}

/// The time at which a sample that the encoder stamped `t` is written: never
/// before the last sample written, so the written times do not decrease.
pub open spec fn written_time(last: Option<i64>, t: i64) -> i64 {
    match last {
        Some(l) => if t < l {
            l
        } else {
            t
        },
        None => t,
    }
}

/// The times at which successive samples stamped `times` by the encoder are
/// written, after a last written time `last`.
pub open spec fn written_times(last: Option<i64>, times: Seq<i64>) -> Seq<i64>
    decreases times.len(),
{
    if times.len() == 0 {
        Seq::empty()
    } else {
        let t = written_time(last, times[0]);
        seq![t] + written_times(Some(t), times.drop_first())
    }
}

/// However the encoder orders the times of its samples, the written times never
/// decrease, and none comes before the last one already written.
pub proof fn lemma_written_times_non_decreasing(last: Option<i64>, times: Seq<i64>)
    ensures
        written_times(last, times).len() == times.len(),
        forall|i: int|
            0 <= i < times.len() ==> (last matches Some(l) ==> l <= #[trigger] written_times(
                last,
                times,
            )[i]),
        forall|i: int, j: int|
            0 <= i <= j < times.len() ==> #[trigger] written_times(last, times)[i] <= #[trigger] written_times(
                last,
                times,
            )[j],
    decreases times.len(),
{
    if times.len() > 0 {
        let t = written_time(last, times[0]);
        let rest = times.drop_first();
        lemma_written_times_non_decreasing(Some(t), rest);
        let w = written_times(last, times);
        let tail = written_times(Some(t), rest);
        assert(w =~= seq![t] + tail);
        assert forall|i: int| 0 <= i < times.len() implies (last matches Some(l) ==> l <= #[trigger] w[i]) by {
            if i > 0 {
                assert(w[i] == tail[i - 1]);
            }
        }
        assert forall|i: int, j: int| 0 <= i <= j < times.len() implies #[trigger] w[i] <= #[trigger] w[j] by {
            if i > 0 {
                assert(w[i] == tail[i - 1]);
                assert(w[j] == tail[j - 1]);
            } else if j > 0 {
                assert(w[j] == tail[j - 1]);
            }
        }
    }
}

/// The duration of the output: the last sample's time plus one sample duration
/// (saturating), zero when nothing was written.
pub open spec fn duration_of(last: Option<i64>, sample_duration: int) -> i64 {
    match last {
        Some(l) => if l + sample_duration > i64::MAX {
            i64::MAX
        } else {
            (l + sample_duration) as i64
        },
        None => 0,
    }
}

/// The consumer side of a recording: checks each pulled frame against the
/// encoder's input geometry, stamps what is submitted and what is written, and
/// tracks draining and finalization. Encoder and writer calls are the caller's.
pub struct EncodeStream {
    input_size: Size,
    sample_duration: i64,
    first_time: Option<i64>,
    last_sample_time: Option<i64>,
    samples_written: u64,
    phase: StreamPhase,
    failure: Option<SessionError>,
}

impl View for EncodeStream {
    type V = StreamModel;

    closed spec fn view(&self) -> StreamModel {
        StreamModel {
            input_size: self.input_size,
            sample_duration: self.sample_duration as int,
            first_time: self.first_time,
            last_sample_time: self.last_sample_time,
            samples_written: self.samples_written,
            phase: self.phase,
            failure: self.failure,
        }
    }
}

impl EncodeStream {
    /// A stream for an encoder configured with `input_size` at `frame_rate`
    /// frames per second; nothing submitted or written yet.
    pub fn new(input_size: Size, frame_rate: u32) -> (r: EncodeStream)
        requires
            frame_rate > 0,
        ensures
            r@ == (StreamModel {
                input_size,
                sample_duration: TICKS_PER_SECOND as int / frame_rate as int,
                first_time: None,
                last_sample_time: None,
                samples_written: 0,
                phase: StreamPhase::Streaming,
                failure: None,
            }),
    {
        EncodeStream {
            input_size,
            sample_duration: (TICKS_PER_SECOND / frame_rate) as i64,
            first_time: None,
            last_sample_time: None,
            samples_written: 0,
            phase: StreamPhase::Streaming,
            failure: None,
        }
    }

    /// Takes a pulled frame of `content_size` captured at `capture_time` and
    /// gives the time to submit it at. A frame whose size differs from the
    /// encoder's input size ends streaming with `GeometryMismatch`: the stream
    /// goes on to draining and the frame is not submitted.
    pub fn on_frame(&mut self, content_size: Size, capture_time: i64) -> (r: Result<i64, SessionError>)
        requires
            old(self)@.phase is Streaming,
        ensures
            content_size != old(self)@.input_size ==> {
                let e = SessionError::GeometryMismatch {
                    expected: old(self)@.input_size,
                    actual: content_size,
                };
                &&& r == Err::<i64, SessionError>(e)
                &&& final(self)@ == (StreamModel {
                    phase: StreamPhase::Draining,
                    failure: Some(e),
                    ..old(self)@
                })
            },
            content_size == old(self)@.input_size ==> {
                let first = match old(self)@.first_time {
                    Some(f) => f,
                    None => capture_time,
                };
                &&& r == Ok::<i64, SessionError>(submit_time(first, capture_time))
                &&& final(self)@ == (StreamModel { first_time: Some(first), ..old(self)@ })
            },
    {
        if content_size != self.input_size {
            let e = SessionError::GeometryMismatch { expected: self.input_size, actual: content_size };
            self.failure = Some(e);
            self.phase = StreamPhase::Draining;
            return Err(e);
        }
        let first = match self.first_time {
            Some(f) => f,
            None => capture_time,
        };
        self.first_time = Some(first);
        let d: i128 = capture_time as i128 - first as i128;
        let t: i64 = if d < 0 {
            0
        } else if d > i64::MAX as i128 {
            i64::MAX
        } else {
            d as i64
        };
        Ok(t)
    }

    /// Takes a sample that the encoder produced with time `encoder_time` and
    /// gives the time to write it at, which is never before the last one written.
    pub fn on_sample(&mut self, encoder_time: i64) -> (r: i64)
        requires
            !(old(self)@.phase is Finalized),
        ensures
            r == written_time(old(self)@.last_sample_time, encoder_time),
            old(self)@.last_sample_time matches Some(l) ==> l <= r,
            final(self)@ == (StreamModel {
                last_sample_time: Some(r),
                samples_written: if old(self)@.samples_written < u64::MAX {
                    (old(self)@.samples_written + 1) as u64
                } else {
                    old(self)@.samples_written
                },
                ..old(self)@
            }),
    {
        let t = match self.last_sample_time {
            Some(l) => if encoder_time < l {
                l
            } else {
                encoder_time
            },
            None => encoder_time,
        };
        self.last_sample_time = Some(t);
        if self.samples_written < u64::MAX {
            self.samples_written = self.samples_written + 1;
        }
        t
    }

    /// A platform call failed while recording (`code` is its failure code): the
    /// failure is fatal, so no more frames are taken, and what the encoder holds
    /// is still drained and written on a best-effort basis. The first failure is
    /// the one reported.
    pub fn on_stream_failure(&mut self, code: i32)
        ensures
            final(self)@ == (StreamModel {
                phase: if old(self)@.phase is Finalized {
                    StreamPhase::Finalized
                } else {
                    StreamPhase::Draining
                },
                failure: if old(self)@.failure is None {
                    Some(SessionError::StreamError { code })
                } else {
                    old(self)@.failure
                },
                ..old(self)@
            }),
    {
        if self.phase != StreamPhase::Finalized {
            self.phase = StreamPhase::Draining;
        }
        if self.failure.is_none() {
            self.failure = Some(SessionError::StreamError { code });
        }
    }

    /// The pump reported end-of-stream: the encoder is to be drained.
    pub fn on_end_of_stream(&mut self)
        ensures
            final(self)@ == (StreamModel {
                phase: if old(self)@.phase is Streaming {
                    StreamPhase::Draining
                } else {
                    old(self)@.phase
                },
                ..old(self)@
            }),
    {
        if self.phase == StreamPhase::Streaming {
            self.phase = StreamPhase::Draining;
        }
    }

    /// Marks the container finalized; returns whether the caller is to finalize
    /// it now, which is true exactly once.
    pub fn finalize(&mut self) -> (r: bool)
        ensures
            r == !(old(self)@.phase is Finalized),
            final(self)@ == (StreamModel { phase: StreamPhase::Finalized, ..old(self)@ }),
    {
        let r = self.phase != StreamPhase::Finalized;
        self.phase = StreamPhase::Finalized;
        r
    }

    pub fn phase(&self) -> (r: StreamPhase)
        ensures
            r == self@.phase,
    {
        self.phase
    }

    /// Whether samples may still be written.
    pub fn accepts_samples(&self) -> (r: bool)
        ensures
            r == !(self@.phase is Finalized),
    {
        self.phase != StreamPhase::Finalized
    }

    /// Whether frames may still be submitted.
    pub fn accepts_frames(&self) -> (r: bool)
        ensures
            r == (self@.phase is Streaming),
    {
        self.phase == StreamPhase::Streaming
    }

    pub fn failure(&self) -> (r: Option<SessionError>)
        ensures
            r == self@.failure,
    {
        self.failure
    }

    /// The duration of one sample, one frame interval in 100 ns units.
    pub fn sample_duration(&self) -> (r: i64)
        ensures
            r as int == self@.sample_duration,
    {
        self.sample_duration
    }

    pub fn samples_written(&self) -> (r: u64)
        ensures
            r == self@.samples_written,
    {
        self.samples_written
    }

    pub fn last_sample_time(&self) -> (r: Option<i64>)
        ensures
            r == self@.last_sample_time,
    {
        self.last_sample_time
    }

    /// The duration of what was written so far, in 100 ns units.
    pub fn duration(&self) -> (r: i64)
        ensures
            r == duration_of(self@.last_sample_time, self@.sample_duration),
    {
        match self.last_sample_time {
            Some(l) => {
                let end: i128 = l as i128 + self.sample_duration as i128;
                if end > i64::MAX as i128 {
                    i64::MAX
                } else {
                    end as i64
                }
            },
            None => 0,
        }
    }
}

} // verus!
