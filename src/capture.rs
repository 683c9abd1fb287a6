use vstd::prelude::*;

use crate::geometry::Size;

verus! {

/// A captured frame as the consumer sees it: the GPU surface, the content size
/// at capture time and the capture timestamp (in 100 ns units).
pub struct CaptureFrame<S> {
    pub frame_texture: S,
    pub content_size: Size,
    pub system_relative_time: i64,
}

/// Where the frame pump stands with respect to stopping.
#[derive(Clone, Copy, Debug, PartialEq, Eq, Structural)]
pub enum PumpPhase {
    /// Frames are being delivered; a pull waits for the next message.
    Capturing,
    /// A stop was asked for; the next pull reports end-of-stream.
    StopRequested,
    /// End-of-stream was reported; every later pull reports it again.
    Ended,
}

/// The abstract state of a frame pump: the one frame handed out and not yet
/// released, and the phase.
pub ghost struct PumpModel<F> {
    pub current: Option<F>,
    pub phase: PumpPhase,
}

/// What one pull does: the frame it releases first, and the frame it returns
/// (none for end-of-stream).
pub ghost struct PullOutcome<F> {
    pub released: Option<F>,
    pub returned: Option<F>,
}

/// The pump state right after `stop_capture`.
pub open spec fn stop_spec<F>(s: PumpModel<F>) -> PumpModel<F> {
    PumpModel {
        current: s.current,
        phase: if s.phase is Capturing { PumpPhase::StopRequested } else { s.phase },
    }
}

/// The pump state once a pull has released the outstanding frame: a pull made
/// after a stop ends the stream without waiting.
pub open spec fn begin_spec<F>(s: PumpModel<F>) -> PumpModel<F> {
    PumpModel {
        current: None,
        phase: if s.phase is Capturing { PumpPhase::Capturing } else { PumpPhase::Ended },
    }
}

/// The pump state once a waiting pull has received `message`: a frame becomes
/// the outstanding one, the stop sentinel (none) ends the stream.
pub open spec fn finish_spec<F>(s: PumpModel<F>, message: Option<F>) -> PumpModel<F> {
    match message {
        Some(f) => PumpModel { current: Some(f), phase: s.phase },
        None => PumpModel { current: None, phase: PumpPhase::Ended },
    }
}

/// The state after a whole pull, where `message` is what the channel would
/// deliver to a pull that waits.
pub open spec fn pull_state<F>(s: PumpModel<F>, message: Option<F>) -> PumpModel<F> {
    if s.phase is Capturing {
        finish_spec(begin_spec(s), message)
    } else {
        begin_spec(s)
    }
}

/// What a whole pull releases and returns.
pub open spec fn pull_outcome<F>(s: PumpModel<F>, message: Option<F>) -> PullOutcome<F> {
    PullOutcome {
        released: s.current,
        returned: if s.phase is Capturing { message } else { None },
    }
}

/// The outcomes of successive pulls from `s`, the `k`-th pull being offered
/// `messages[k]` should it wait.
pub open spec fn run_pulls<F>(s: PumpModel<F>, messages: Seq<Option<F>>) -> Seq<PullOutcome<F>>
    decreases messages.len(),
{
    if messages.len() == 0 {
        Seq::empty()
    } else {
        seq![pull_outcome(s, messages[0])] + run_pulls(
            pull_state(s, messages[0]),
            messages.drop_first(),
        )
    }
}

/// Converts push-delivered frames into a pull stream with at most one frame
/// outstanding. The waiting itself is left to the caller: a pull is
/// `begin_pull`, then, where `waits_for_frame` holds, a blocking receive whose
/// message is handed to `finish_pull`.
pub struct FramePump<F> {
    current: Option<F>,
    phase: PumpPhase,
}

impl<F> View for FramePump<F> {
    type V = PumpModel<F>;

    closed spec fn view(&self) -> PumpModel<F> {
        PumpModel { current: self.current, phase: self.phase }
    }
}

impl<F> FramePump<F> {
    /// A pump that is capturing and holds no frame.
    pub fn new() -> (r: FramePump<F>)
        ensures
            r@ == (PumpModel::<F> { current: None, phase: PumpPhase::Capturing }),
    {
        FramePump { current: None, phase: PumpPhase::Capturing }
    }

    /// Asks for the stream to end: the next pull reports end-of-stream.
    pub fn stop_capture(&mut self)
        ensures
            final(self)@ == stop_spec(old(self)@),
    {
        if self.phase == PumpPhase::Capturing {
            self.phase = PumpPhase::StopRequested;
        }
    }

    /// Starts a pull: hands back the previously returned frame, which the caller
    /// releases before waiting for the next one.
    pub fn begin_pull(&mut self) -> (release: Option<F>)
        ensures
            release == old(self)@.current,
            final(self)@ == begin_spec(old(self)@),
    {
        let release = self.current.take();
        if self.phase != PumpPhase::Capturing {
            self.phase = PumpPhase::Ended;
        }
        release
    }

    /// Whether a pull that has begun has to wait for a message; if not, it
    /// reports end-of-stream.
    pub fn waits_for_frame(&self) -> (r: bool)
        ensures
            r == (self@.phase is Capturing),
    {
        self.phase == PumpPhase::Capturing
    }

    /// Ends a waiting pull with the message received: a frame, which becomes
    /// the outstanding one, or the stop sentinel. Returns whether a frame came.
    pub fn finish_pull(&mut self, message: Option<F>) -> (delivered: bool)
        requires
            old(self)@.phase is Capturing,
            old(self)@.current is None,
        ensures
            delivered == message is Some,
            final(self)@ == finish_spec(old(self)@, message),
    {
        match message {
            Some(frame) => {
                self.current = Some(frame);
                true
            },
            None => {
                self.phase = PumpPhase::Ended;
                false
            },
        }
    }

    /// The frame returned by the last pull and not yet released.
    pub fn current_frame(&self) -> (r: Option<&F>)
        ensures
            match r {
                Some(f) => self@.current == Some(*f),
                None => self@.current is None,
            },
    {
        self.current.as_ref()
    }

    /// Whether end-of-stream has been reported.
    pub fn is_ended(&self) -> (r: bool)
        ensures
            r == (self@.phase is Ended),
    {
        self.phase == PumpPhase::Ended
    }
}

/// After a pull, the outstanding frame is the one that pull returned.
proof fn lemma_pull_holds_returned<F>(s: PumpModel<F>, message: Option<F>)
    ensures
        pull_state(s, message).current == pull_outcome(s, message).returned,
{
}

/// Release ordering: over any sequence of pulls, each pull first releases the
/// frame that the previous pull returned (the first one releases what was
/// outstanding before), so no frame is released twice or left unreleased
/// when the next one is handed out.
pub proof fn lemma_previous_frame_released<F>(s: PumpModel<F>, messages: Seq<Option<F>>)
    ensures
        run_pulls(s, messages).len() == messages.len(),
        messages.len() > 0 ==> run_pulls(s, messages)[0].released == s.current,
        forall|k: int|
            0 < k < messages.len() ==> #[trigger] run_pulls(s, messages)[k].released
                == run_pulls(s, messages)[k - 1].returned,
    decreases messages.len(),
{
    if messages.len() > 0 {
        let next = pull_state(s, messages[0]);
        let rest = messages.drop_first();
        lemma_previous_frame_released(next, rest);
        lemma_pull_holds_returned(s, messages[0]);
        let run = run_pulls(s, messages);
        let tail = run_pulls(next, rest);
        assert(run =~= seq![pull_outcome(s, messages[0])] + tail);
        assert forall|k: int| 0 < k < messages.len() implies #[trigger] run[k].released
            == run[k - 1].returned by {
            if k == 1 {
                assert(run[1] == tail[0]);
            } else {
                assert(run[k] == tail[k - 1]);
                assert(run[k - 1] == tail[k - 2]);
            }
        }
    }
}

/// Pulls from a pump that is not capturing return end-of-stream.
proof fn lemma_ended_stays_ended<F>(s: PumpModel<F>, messages: Seq<Option<F>>)
    requires
        !(s.phase is Capturing),
    ensures
        run_pulls(s, messages).len() == messages.len(),
        forall|k: int| 0 <= k < messages.len() ==> (#[trigger] run_pulls(s, messages)[k]).returned is None,
    decreases messages.len(),
{
    if messages.len() > 0 {
        let next = pull_state(s, messages[0]);
        let rest = messages.drop_first();
        lemma_ended_stays_ended(next, rest);
        let run = run_pulls(s, messages);
        assert forall|k: int| 0 <= k < messages.len() implies (#[trigger] run[k]).returned is None by {
            if k > 0 {
                assert(run[k] == run_pulls(next, rest)[k - 1]);
            }
        }
    }
}

/// A stop asked for at any point makes the very next pull report end-of-stream,
/// after releasing the outstanding frame, and no later pull returns a frame.
pub proof fn lemma_stop_ends_stream<F>(s: PumpModel<F>, messages: Seq<Option<F>>)
    ensures
        run_pulls(stop_spec(s), messages).len() == messages.len(),
        messages.len() > 0 ==> run_pulls(stop_spec(s), messages)[0] == (PullOutcome::<F> {
            released: s.current,
            returned: None,
        }),
        forall|k: int|
            0 <= k < messages.len() ==> (#[trigger] run_pulls(stop_spec(s), messages)[k]).returned is None,
{
    lemma_ended_stays_ended(stop_spec(s), messages);
}

} // verus!
