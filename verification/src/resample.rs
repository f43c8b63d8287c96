use vstd::prelude::*;
use vstd::arithmetic::div_mod::{
    lemma_fundamental_div_mod, lemma_fundamental_div_mod_converse,
};
use vstd::arithmetic::mul::lemma_mul_inequality;

use crate::frame::Frame;

verus! {

/// Linear interpolation between two amplitudes `a` and `b` at the fraction
/// `f / d` (with `0 <= f < d`): the exact integer value `a + (b - a) * f / d`,
/// written so that both division operands are non-negative.
pub open spec fn lerp(a: int, b: int, f: int, d: int) -> int {
    if b >= a {
        a + (b - a) * f / d
    } else {
        a - (a - b) * f / d
    }
}

proof fn lemma_lerp_at_zero(a: int, b: int, d: int)
    requires
        d >= 1,
    ensures
        lerp(a, b, 0, d) == a,
{
    assert((b - a) * 0 == 0);
    assert((a - b) * 0 == 0);
    assert(0int / d == 0) by {
        lemma_fundamental_div_mod_converse(0, d, 0, 0);
    }
}

/// The interpolated value never leaves the interval spanned by its endpoints.
proof fn lemma_lerp_bounds(a: int, b: int, f: int, d: int)
    requires
        d >= 1,
        0 <= f < d,
    ensures
        b >= a ==> a <= lerp(a, b, f, d) <= b,
        b < a ==> b <= lerp(a, b, f, d) <= a,
{
    if b >= a {
        lemma_scaled_fraction_bounds(b - a, f, d);
    } else {
        lemma_scaled_fraction_bounds(a - b, f, d);
    }
}

/// For `0 <= f < d` and `m >= 0`: `0 <= m * f / d <= m`.
proof fn lemma_scaled_fraction_bounds(m: int, f: int, d: int)
    requires
        d >= 1,
        0 <= f < d,
        m >= 0,
    ensures
        0 <= m * f / d <= m,
{
    lemma_fundamental_div_mod(m * f, d);
    let q = m * f / d;
    let r = m * f % d;
    assert(0 <= q <= m) by (nonlinear_arith)
        requires
            m * f == d * q + r,
            0 <= r < d,
            0 <= f < d,
            m >= 0,
            d >= 1,
    ;
}

/// Linear interpolation on fixed-point amplitudes, exact in integers.
fn lerp_amp(a: i32, b: i32, f: u32, d: u32) -> (r: i32)
    requires
        f < d,
    ensures
        r as int == lerp(a as int, b as int, f as int, d as int),
{
    proof {
        lemma_lerp_bounds(a as int, b as int, f as int, d as int);
    }
    if b >= a {
        let delta: u64 = (b as i64 - a as i64) as u64;
        proof {
            lemma_scaled_fraction_bounds(delta as int, f as int, d as int);
            assert((delta as int) * (f as int) < 0x1_0000_0000_0000_0000int) by (nonlinear_arith)
                requires
                    0 <= (delta as int) && (delta as int) < 0x1_0000_0000int,
                    0 <= (f as int) && (f as int) < 0x1_0000_0000int,
            ;
        }
        let q: u64 = delta * (f as u64) / (d as u64);
        (a as i64 + q as i64) as i32
    } else {
        let delta: u64 = (a as i64 - b as i64) as u64;
        proof {
            lemma_scaled_fraction_bounds(delta as int, f as int, d as int);
            assert((delta as int) * (f as int) < 0x1_0000_0000_0000_0000int) by (nonlinear_arith)
                requires
                    0 <= (delta as int) && (delta as int) < 0x1_0000_0000int,
                    0 <= (f as int) && (f as int) < 0x1_0000_0000int,
            ;
        }
        let q: u64 = delta * (f as u64) / (d as u64);
        (a as i64 - q as i64) as i32
    }
}

/// The source frame at position `i`, with the zero-amplitude boundary frame
/// standing in on either side of the sequence.
pub open spec fn src_frame(s: Seq<Frame>, i: int) -> Frame {
    if 0 <= i < s.len() {
        s[i]
    } else {
        Frame::silence_spec()
    }
}

/// Amplitudes `(left, right)` of output frame `k` when `s` is resampled from
/// rate `ri` to rate `ro`: frame `k` sits at the fractional source position
/// `k * ri / ro` and blends the two nearest source frames, the trailing
/// blend partner past the end of `s` being silence.
pub open spec fn out_frame(s: Seq<Frame>, ri: int, ro: int, k: int) -> (int, int) {
    let idx = k * ri / ro;
    let f = (k * ri) % ro;
    (
        lerp(src_frame(s, idx).left as int, src_frame(s, idx + 1).left as int, f, ro),
        lerp(src_frame(s, idx).right as int, src_frame(s, idx + 1).right as int, f, ro),
    )
}

/// Number of output frames for a source of length `l`: one per output tick
/// whose source position lies strictly before the end of the source, which
/// is `l * ro / ri` rounded up.
pub open spec fn resampled_len(l: int, ri: int, ro: int) -> int {
    (l * ro + ri - 1) / ri
}

/// Convert a finite sequence of frames sampled at `src_rate` into the same
/// audio re-expressed at `target_rate`, by linear interpolation between the
/// two source frames nearest to each output tick. Equal rates reproduce the
/// input exactly; an empty input yields an empty output.
#[verifier::loop_isolation(false)]
pub fn resample(src: &Vec<Frame>, src_rate: u32, target_rate: u32) -> (r: Vec<Frame>)
    requires
        src_rate >= 1,
        target_rate >= 1,
    ensures
        r@.len() == resampled_len(src@.len() as int, src_rate as int, target_rate as int),
        forall|k: int| 0 <= k < r@.len() ==> (#[trigger] r@[k]).left
            == out_frame(src@, src_rate as int, target_rate as int, k).0 && r@[k].right
            == out_frame(src@, src_rate as int, target_rate as int, k).1,
{
    let ghost ri = src_rate as int;
    let ghost ro = target_rate as int;
    let l = src.len();
    let mut out: Vec<Frame> = Vec::new();
    let mut idx: usize = 0;
    let mut frac: u64 = 0;
    while idx < l
        invariant
            idx <= l,
            idx < l ==> frac < target_rate as u64,
            frac <= target_rate as u64 + src_rate as u64,
            (idx as int) * ro + (frac as int) == (out@.len() as int) * ri,
            (out@.len() as int) * ri < (l as int) * ro + ri,
            forall|k: int| 0 <= k < out@.len() ==> (#[trigger] out@[k]).left
                == out_frame(src@, ri, ro, k).0 && out@[k].right == out_frame(src@, ri, ro, k).1,
        decreases (l as int) * ro + ri - (out@.len() as int) * ri,
    {
        let ghost k = out@.len() as int;
        let a = src[idx];
        let b = if idx + 1 < l {
            src[idx + 1]
        } else {
            Frame::silence()
        };
        proof {
            lemma_fundamental_div_mod_converse(k * ri, ro, idx as int, frac as int);
            lemma_mul_inequality(idx as int, l as int - 1, ro);
            assert((l as int - 1) * ro == (l as int) * ro - ro) by (nonlinear_arith);
            assert((k + 1) * ri == k * ri + ri) by (nonlinear_arith);
        }
        let left = lerp_amp(a.left, b.left, frac as u32, target_rate);
        let right = lerp_amp(a.right, b.right, frac as u32, target_rate);
        out.push(Frame { left, right });
        frac = frac + src_rate as u64;
        while frac >= target_rate as u64 && idx < l
            invariant
                idx <= l,
                frac <= target_rate as u64 + src_rate as u64,
                (idx as int) * ro + (frac as int) == (out@.len() as int) * ri,
            decreases frac,
        {
            proof {
                assert((idx as int + 1) * ro == (idx as int) * ro + ro) by (nonlinear_arith);
            }
            frac = frac - target_rate as u64;
            idx = idx + 1;
        }
    }
    proof {
        let k = out@.len() as int;
        let x = (l as int) * ro + ri - 1;
        lemma_fundamental_div_mod_converse(x, ri, k, x - k * ri);
    }
    out
}

/// Law: resampling at the source rate is the identity. For every sequence
/// `s` and rate `r`, the output has the length of `s` and every output frame
/// carries exactly the amplitudes of the corresponding input frame.
pub proof fn lemma_unity_identity(s: Seq<Frame>, r: int)
    requires
        r >= 1,
    ensures
        resampled_len(s.len() as int, r, r) == s.len(),
        forall|k: int| 0 <= k < s.len() ==> #[trigger] out_frame(s, r, r, k) == (
            s[k].left as int,
            s[k].right as int,
        ),
{
    let l = s.len() as int;
    lemma_fundamental_div_mod_converse(l * r + r - 1, r, l, r - 1);
    assert forall|k: int| 0 <= k < s.len() implies #[trigger] out_frame(s, r, r, k) == (
        s[k].left as int,
        s[k].right as int,
    ) by {
        lemma_fundamental_div_mod_converse(k * r, r, k, 0);
        lemma_lerp_at_zero(s[k].left as int, src_frame(s, k + 1).left as int, r);
        lemma_lerp_at_zero(s[k].right as int, src_frame(s, k + 1).right as int, r);
    }
}

/// Law: the output length tracks the rate ratio to within one frame. For a
/// source of length `l`, the output length `n` satisfies
/// `l * ro <= n * ri < l * ro + ri`, that is, `n` lies within one of the
/// exact ratio `l * ro / ri`.
pub proof fn lemma_length_scaling(l: int, ri: int, ro: int)
    requires
        l >= 0,
        ri >= 1,
        ro >= 1,
    ensures
        resampled_len(l, ri, ro) * ri >= l * ro,
        resampled_len(l, ri, ro) * ri < l * ro + ri,
{
    let x = l * ro + ri - 1;
    lemma_fundamental_div_mod(x, ri);
    let q = x / ri;
    let rem = x % ri;
    assert(q * ri == ri * q) by (nonlinear_arith);
    assert(x == ri * q + rem);
}

/// Law: an empty source resamples to an empty buffer, whatever the rates.
pub proof fn lemma_empty_input(ri: int, ro: int)
    requires
        ri >= 1,
        ro >= 1,
    ensures
        resampled_len(0, ri, ro) == 0,
{
    lemma_fundamental_div_mod_converse(ri - 1, ri, 0, ri - 1);
}

} // verus!
