use vstd::prelude::*;
use vstd::string::StringExecFns;

use crate::geometry::Size;
use crate::media::{frame_size_of_value, frame_size_value, lemma_frame_size_round_trip};

verus! {

/// The output resolution asked for: the display's own, or a fixed 16:9 size.
#[derive(Clone, Copy, Debug, PartialEq, Eq, Structural)]
pub enum Resolution {
    Native,
    _720p,
    _1080p,
    _2160p,
    _4320p,
}

/// A resolution name that is none of the known ones.
#[derive(Clone, Copy, Debug, PartialEq, Eq, Structural)]
pub struct ParseResolutionError;

/// What `str::to_lowercase` yields for the characters `s`.
pub uninterp spec fn lower_of(s: Seq<char>) -> Seq<char>;

/// Relies on `str::to_lowercase`: the lower-case mapping of each character,
/// which depends on the characters alone.
#[verifier::external_body]
fn lowercase(s: &str) -> (r: String)
    ensures
        r@ == lower_of(s@),
{
    s.to_lowercase()
}

/// The resolution that a lower-case name stands for.
pub open spec fn resolution_named(name: Seq<char>) -> Option<Resolution> {
    if name == "native"@ {
        Some(Resolution::Native)
    } else if name == "720p"@ {
        Some(Resolution::_720p)
    } else if name == "1080p"@ {
        Some(Resolution::_1080p)
    } else if name == "2160p"@ {
        Some(Resolution::_2160p)
    } else if name == "4320p"@ {
        Some(Resolution::_4320p)
    } else {
        None
    }
}

/// The parse result for a name that is already lower case.
pub open spec fn parsed_resolution(name: Seq<char>) -> Result<Resolution, ParseResolutionError> {
    match resolution_named(name) {
        Some(r) => Ok(r),
        None => Err(ParseResolutionError),
    }
}

/// Recognises a resolution by its lower-case name: `native`, `720p`, `1080p`,
/// `2160p` or `4320p`.
pub fn resolution_from_lowercase(name: &str) -> (r: Result<Resolution, ParseResolutionError>)
    ensures
        r == parsed_resolution(name@),
{
    let name = String::from_str(name);
    if name == String::from_str("native") {
        Ok(Resolution::Native)
    } else if name == String::from_str("720p") {
        Ok(Resolution::_720p)
    } else if name == String::from_str("1080p") {
        Ok(Resolution::_1080p)
    } else if name == String::from_str("2160p") {
        Ok(Resolution::_2160p)
    } else if name == String::from_str("4320p") {
        Ok(Resolution::_4320p)
    } else {
        Err(ParseResolutionError)
    }
}

impl Resolution {
    /// The fixed size of a resolution; none for the display's native size.
    pub open spec fn size_spec(self) -> Option<Size> {
        match self {
            Resolution::Native => None,
            Resolution::_720p => Some(Size { width: 1280, height: 720 }),
            Resolution::_1080p => Some(Size { width: 1920, height: 1080 }),
            Resolution::_2160p => Some(Size { width: 3840, height: 2160 }),
            Resolution::_4320p => Some(Size { width: 7680, height: 4320 }),
        }
    }

    /// Parses a resolution name in any letter case.
    pub fn parse(s: &str) -> (r: Result<Resolution, ParseResolutionError>)
        ensures
            r == parsed_resolution(lower_of(s@)),
    {
        let lower = lowercase(s);
        resolution_from_lowercase(lower.as_str())
    }

    /// The fixed size of this resolution, or none for the native size.
    pub fn get_size(&self) -> (r: Option<Size>)
        ensures
            r == self.size_spec(),
    {
        match self {
            Resolution::Native => None,
            Resolution::_720p => Some(Size { width: 1280, height: 720 }),
            Resolution::_1080p => Some(Size { width: 1920, height: 1080 }),
            Resolution::_2160p => Some(Size { width: 3840, height: 2160 }),
            Resolution::_4320p => Some(Size { width: 7680, height: 4320 }),
        }
    }
}

impl core::str::FromStr for Resolution {
    type Err = ParseResolutionError;

    fn from_str(s: &str) -> Result<Resolution, ParseResolutionError> {
        Resolution::parse(s)
    }
}

/// Every fixed resolution, configured on an encoder as a frame-size attribute,
/// reads back from the stream header as the same width and height.
pub proof fn lemma_resolution_geometry_round_trip(r: Resolution)
    requires
        r.size_spec() is Some,
    ensures
        frame_size_value(r.size_spec()->0) is Some,
        frame_size_of_value(frame_size_value(r.size_spec()->0)->0) == r.size_spec(),
{
    lemma_frame_size_round_trip(r.size_spec()->0);
}

} // verus!
