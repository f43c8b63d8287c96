use vstd::prelude::*;

use crate::frame::Frame;

verus! {

/// A forward-only read position into a materialized frame buffer. The buffer
/// never changes after construction; only the position moves, one frame per
/// read, and it never moves back: once every frame has been handed out the
/// cursor stays exhausted for good (single-shot playback, no looping).
pub struct PlaybackCursor {
    frames: Vec<Frame>,
    pos: usize,
}

impl PlaybackCursor {
    /// The frames the cursor walks over.
    pub closed spec fn frames(&self) -> Seq<Frame> {
        self.frames@
    }

    /// How many frames have been handed out so far.
    pub closed spec fn pos(&self) -> nat {
        self.pos as nat
    }

    /// The read position never lies past the end of the buffer.
    pub open spec fn wf(&self) -> bool {
        self.pos() <= self.frames().len()
    }

    /// Whether every frame has been handed out.
    pub open spec fn is_exhausted(&self) -> bool {
        self.pos() >= self.frames().len()
    }

    pub fn new(frames: Vec<Frame>) -> (r: PlaybackCursor)
        ensures
            r.frames() == frames@,
            r.pos() == 0,
            r.wf(),
    {
        PlaybackCursor { frames, pos: 0 }
    }

    /// The next unread frame, advancing the position by one; `None` once the
    /// buffer is exhausted — the normal end-of-stream signal, not an error.
    pub fn next_frame(&mut self) -> (r: Option<Frame>)
        requires
            old(self).wf(),
        ensures
            final(self).wf(),
            final(self).frames() == old(self).frames(),
            !old(self).is_exhausted() ==> r == Some(old(self).frames()[old(self).pos() as int])
                && final(self).pos() == old(self).pos() + 1,
            old(self).is_exhausted() ==> r is None && final(self).pos() == old(self).pos(),
    {
        if self.pos < self.frames.len() {
            let f = self.frames[self.pos];
            self.pos = self.pos + 1;
            Some(f)
        } else {
            None
        }
    }

    /// How many unread frames remain.
    pub fn remaining(&self) -> (r: usize)
        requires
            self.wf(),
        ensures
            r == self.frames().len() - self.pos(),
    {
        self.frames.len() - self.pos
    }

    /// Whether every frame has been handed out.
    pub fn exhausted(&self) -> (r: bool)
        ensures
            r == self.is_exhausted(),
    {
        self.pos >= self.frames.len()
    }
}

/// The read position after `n` reads of a fresh cursor over a buffer of
/// length `len`, stepping as the contract of `next_frame` says: forward by
/// one while frames remain, in place once exhausted.
pub open spec fn pos_after_reads(len: nat, n: nat) -> nat
    decreases n,
{
    if n == 0 {
        0
    } else {
        let p = pos_after_reads(len, (n - 1) as nat);
        if p < len {
            p + 1
        } else {
            p
        }
    }
}

/// Law: reads from a fresh cursor are non-exhausted on exactly the first
/// `len` of them and exhausted on every one after that — the position after
/// `n` reads is `n` capped at `len`, so read `n` finds a frame if and only
/// if `n < len`, and an exhausted cursor never recovers frames.
pub proof fn lemma_cursor_exhaustion(len: nat, n: nat)
    ensures
        pos_after_reads(len, n) == if n <= len {
            n
        } else {
            len
        },
        (pos_after_reads(len, n) < len) == (n < len),
    decreases n,
{
    if n > 0 {
        lemma_cursor_exhaustion(len, (n - 1) as nat);
    }
}

} // verus!
