use vstd::prelude::*;

verus! {

/// A width and height in pixels, as the capture target and the encoder report them.
#[derive(Clone, Copy, Debug, PartialEq, Eq, Structural)]
pub struct Size {
    pub width: i32,
    pub height: i32,
}

impl Size {
    /// Both dimensions are non-negative.
    pub open spec fn is_valid(self) -> bool {
        self.width >= 0 && self.height >= 0
    }
}

} // verus!
