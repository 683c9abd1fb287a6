use vstd::prelude::*;

use crate::error::SessionError;
use crate::geometry::Size;
use crate::resolution::Resolution;

verus! {

/// The settings a recording is set up with, resolved and checked.
#[derive(Clone, Copy, Debug, PartialEq, Eq, Structural)]
pub struct RecordingSettings {
    /// The encoder's input and output geometry.
    pub size: Size,
    /// Bits per second.
    pub bit_rate: u32,
    /// Frames per second.
    pub frame_rate: u32,
    /// The position of the chosen encoder among those enumerated.
    pub encoder_index: usize,
}

/// The geometry to record at: the resolution's fixed size, or the display's own.
pub open spec fn target_size(resolution: Resolution, native_size: Size) -> Size {
    match resolution.size_spec() {
        Some(s) => s,
        None => native_size,
    }
}

/// The settings for a recording, or the error that stops it before any
/// recording resource is opened. The bit rate is given in megabits per second.
pub open spec fn plan_spec(
    resolution: Resolution,
    native_size: Size,
    bit_rate_mbps: u32,
    frame_rate: u32,
    encoder_count: usize,
    encoder_index: usize,
) -> Result<RecordingSettings, SessionError> {
    let size = target_size(resolution, native_size);
    if size.width <= 0 || size.height <= 0 || frame_rate == 0 || bit_rate_mbps as int
        * 1_000_000 > u32::MAX {
        Err(SessionError::InvalidSettings)
    } else if encoder_count == 0 {
        Err(SessionError::EmptyDeviceList)
    } else if encoder_index >= encoder_count {
        Err(SessionError::EncoderIndexOutOfRange { index: encoder_index, count: encoder_count })
    } else {
        Ok(
            RecordingSettings {
                size,
                bit_rate: (bit_rate_mbps as int * 1_000_000) as u32,
                frame_rate,
                encoder_index,
            },
        )
    }
}

/// Resolves and checks the recording parameters against the display's native
/// size and the number of hardware encoders found. It is called before the
/// output file or any other recording resource is opened, so an empty encoder
/// list or an encoder index out of range fails first.
pub fn plan_recording(
    resolution: Resolution,
    native_size: Size,
    bit_rate_mbps: u32,
    frame_rate: u32,
    encoder_count: usize,
    encoder_index: usize,
) -> (r: Result<RecordingSettings, SessionError>)
    ensures
        r == plan_spec(
            resolution,
            native_size,
            bit_rate_mbps,
            frame_rate,
            encoder_count,
            encoder_index,
        ),
{
    let size = match resolution.get_size() {
        Some(s) => s,
        None => native_size,
    };
    if size.width <= 0 || size.height <= 0 || frame_rate == 0 || bit_rate_mbps > 4294 {
        return Err(SessionError::InvalidSettings);
    }
    if encoder_count == 0 {
        return Err(SessionError::EmptyDeviceList);
    }
    if encoder_index >= encoder_count {
        return Err(SessionError::EncoderIndexOutOfRange { index: encoder_index, count: encoder_count });
    }
    Ok(
        RecordingSettings {
            size,
            bit_rate: bit_rate_mbps * 1_000_000,
            frame_rate,
            encoder_index,
        },
    )
}

} // verus!
