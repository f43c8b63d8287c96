use vstd::prelude::*;

use crate::cursor::PlaybackCursor;
use crate::frame::Frame;

verus! {

/// The value the driver writes into element `j` of an interleaved stereo
/// output slot, when the cursor stood at `pos` in `frames` as the callback
/// began: element `j` belongs to output frame `pos + j / 2`; while that
/// frame exists its left (even `j`) or right (odd `j`) amplitude is written,
/// and silence once the buffer is exhausted.
pub open spec fn slot_value(frames: Seq<Frame>, pos: int, j: int) -> i32 {
    let k = pos + j / 2;
    if 0 <= j && 0 <= k < frames.len() {
        if j % 2 == 0 {
            frames[k].left
        } else {
            frames[k].right
        }
    } else {
        0i32
    }
}

/// Where the cursor stands after a callback that consumed `count` frames
/// from position `pos`: it advances one per slot chunk and stops at the end
/// of the buffer, never past it and never back.
pub open spec fn advanced_pos(pos: nat, count: nat, len: nat) -> nat {
    if pos + count <= len {
        (pos + count) as nat
    } else {
        len
    }
}

/// One invocation of the output callback: fill the hardware-supplied slot
/// (interleaved stereo, so its length is a multiple of two) with the next
/// frames from the cursor, and with silence for every chunk past the end of
/// the buffer. Exhaustion is not an error; the slot is always filled whole.
#[verifier::loop_isolation(false)]
pub fn fill_output(cursor: &mut PlaybackCursor, slot: &mut Vec<i32>)
    requires
        old(cursor).wf(),
        old(slot).len() % 2 == 0,
    ensures
        final(cursor).wf(),
        final(cursor).frames() == old(cursor).frames(),
        final(cursor).pos() == advanced_pos(
            old(cursor).pos(),
            old(slot).len() as nat / 2,
            old(cursor).frames().len(),
        ),
        final(slot).len() == old(slot).len(),
        forall|j: int| 0 <= j < old(slot).len() ==> final(slot)@[j] == slot_value(
            old(cursor).frames(),
            old(cursor).pos() as int,
            j,
        ),
{
    let n = slot.len() / 2;
    let mut i: usize = 0;
    while i < n
        invariant
            i <= n,
            cursor.wf(),
            cursor.frames() == old(cursor).frames(),
            cursor.pos() == advanced_pos(old(cursor).pos(), i as nat, old(cursor).frames().len()),
            slot.len() == old(slot).len(),
            forall|j: int| 0 <= j < 2 * i ==> slot@[j] == slot_value(
                old(cursor).frames(),
                old(cursor).pos() as int,
                j,
            ),
        decreases n - i,
    {
        let frame = match cursor.next_frame() {
            Some(f) => f,
            None => Frame::silence(),
        };
        slot[2 * i] = frame.left;
        slot[2 * i + 1] = frame.right;
        i = i + 1;
    }
}

/// Law: a callback that finds the cursor already exhausted writes nothing
/// but silence — every element of the slot, whatever its index, is zero.
pub proof fn lemma_silence_on_underrun(frames: Seq<Frame>, pos: int)
    requires
        pos >= frames.len(),
    ensures
        forall|j: int| slot_value(frames, pos, j) == 0,
{
    assert forall|j: int| slot_value(frames, pos, j) == 0 by {
        if j >= 0 {
            assert(j / 2 >= 0) by (nonlinear_arith)
                requires
                    j >= 0,
            ;
        }
    }
}

/// Law: over an empty buffer the driver emits silence from the first
/// invocation on, whatever the slot size.
pub proof fn lemma_empty_buffer_silence(frames: Seq<Frame>, pos: int)
    requires
        frames.len() == 0,
        pos >= 0,
    ensures
        forall|j: int| slot_value(frames, pos, j) == 0,
{
    lemma_silence_on_underrun(frames, pos);
}

} // verus!
