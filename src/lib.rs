//! Display capture and hardware encoding: the verified decision logic of a
//! screen recorder (frame pump, encoding session state machine, settings).

pub mod capture;
pub mod encoder;
pub mod error;
pub mod geometry;
pub mod hotkey;
pub mod media;
pub mod output_path;
pub mod resolution;
pub mod session;
pub mod settings;
pub mod stream;
