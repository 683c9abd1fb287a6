use vstd::prelude::*;

verus! {

/// A registered start/stop hot key, known by the identifier it was registered under.
#[derive(Debug, PartialEq, Eq, Structural)]
pub struct HotKey {
    id: i32,
}

impl HotKey {
    pub closed spec fn id_spec(&self) -> int {
        self.id as int
    }

    pub fn id(&self) -> (r: i32)
        ensures
            r as int == self.id_spec(),
    {
        self.id
    }
}

/// Issues hot-key identifiers 1, 2, 3, ... for one registration context, with no
/// process-wide counter.
pub struct HotKeyIds {
    last: i32,
}

impl HotKeyIds {
    /// The last identifier issued, zero before the first.
    pub closed spec fn last_spec(&self) -> int {
        self.last as int
    }

    pub fn new() -> (r: HotKeyIds)
        ensures
            r.last_spec() == 0,
    {
        HotKeyIds { last: 0 }
    }

    /// The next identifier, one past the last; none once they are used up.
    pub fn issue(&mut self) -> (r: Option<HotKey>)
        ensures
            old(self).last_spec() < i32::MAX ==> {
                &&& r matches Some(k)
                &&& k.id_spec() == old(self).last_spec() + 1
                &&& final(self).last_spec() == old(self).last_spec() + 1
            },
            old(self).last_spec() == i32::MAX ==> r is None && final(self).last_spec()
                == old(self).last_spec(),
    {
        if self.last < i32::MAX {
            self.last = self.last + 1;
            Some(HotKey { id: self.last })
        } else {
            None
        }
    }
}

/// What a hot-key press asks of the recording.
#[derive(Clone, Copy, Debug, PartialEq, Eq, Structural)]
pub enum ToggleAction {
    StartRecording,
    StopRecording,
}

/// The start/stop toggle: the first press starts the recording, a press while
/// it runs stops it.
pub struct RecordingToggle {
    is_recording: bool,
}

impl RecordingToggle {
    pub closed spec fn is_recording_spec(&self) -> bool {
        self.is_recording
    }

    pub fn new() -> (r: RecordingToggle)
        ensures
            !r.is_recording_spec(),
    {
        RecordingToggle { is_recording: false }
    }

    /// Decides what a press does and records that the recording has started.
    pub fn on_hot_key(&mut self) -> (r: ToggleAction)
        ensures
            r == if old(self).is_recording_spec() {
                ToggleAction::StopRecording
            } else {
                ToggleAction::StartRecording
            },
            final(self).is_recording_spec(),
    {
        if self.is_recording {
            ToggleAction::StopRecording
        } else {
            self.is_recording = true;
            ToggleAction::StartRecording
        }
    }
}

} // verus!
