use vstd::prelude::*;
use vstd::string::StringExecFns;

verus! {

/// The name shown for an encoder that reports none.
pub open spec fn unknown_name() -> Seq<char> {
    "Unknown"@
}

/// The name shown for an encoder whose reported friendly name is `name`.
pub open spec fn shown_name(name: Option<Seq<char>>) -> Seq<char> {
    match name {
        Some(n) => n,
        None => unknown_name(),
    }
}

/// A hardware encoder found by enumeration: the platform's handle to create it
/// with, and its human-readable name. Never changed after enumeration.
pub struct VideoEncoderDevice<S> {
    source: S,
    display_name: String,
}

impl<S> VideoEncoderDevice<S> {
    pub closed spec fn name_spec(&self) -> Seq<char> {
        self.display_name@
    }

    pub closed spec fn source_spec(&self) -> S {
        self.source
    }

    /// Describes an enumerated encoder; a missing friendly name becomes `Unknown`.
    pub fn new(source: S, friendly_name: Option<String>) -> (r: VideoEncoderDevice<S>)
        ensures
            r.source_spec() == source,
            r.name_spec() == shown_name(
                match friendly_name {
                    Some(n) => Some(n@),
                    None => None,
                },
            ),
    {
        let display_name = match friendly_name {
            Some(n) => n,
            None => String::from_str("Unknown"),
        };
        VideoEncoderDevice { source, display_name }
    }

    pub fn display_name(&self) -> (r: &str)
        ensures
            r@ == self.name_spec(),
    {
        self.display_name.as_str()
    }

    pub fn source(&self) -> (r: &S)
        ensures
            *r == self.source_spec(),
    {
        &self.source
    }
}

} // verus!
