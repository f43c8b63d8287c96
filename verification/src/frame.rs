use vstd::prelude::*;

verus! {

/// One stereo sample: a fixed-point amplitude for the left and the right
/// channel. The library never interprets the scale; callers pick one and
/// convert at the boundary.
#[derive(Clone, Copy, PartialEq, Eq, Structural, Debug)]
pub struct Frame {
    pub left: i32,
    pub right: i32,
}

impl Frame {
    /// The zero-amplitude frame, written when the stream has nothing left.
    pub open spec fn silence_spec() -> Frame {
        Frame { left: 0, right: 0 }
    }

    pub fn silence() -> (r: Frame)
        ensures
            r == Frame::silence_spec(),
    {
        Frame { left: 0, right: 0 }
    }
}

} // verus!
